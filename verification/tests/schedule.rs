use mnn::engine_build::{default_features, BuildFeatures};
use mnn::schedule::{DEFAULT_NUM_THREADS, FORWARD_ALL, FORWARD_AUTO, FORWARD_CPU};
use mnn::{BackendConfig, ErrorKind, ForwardType, PowerMode, ScheduleConfig, ScheduleConfigs};

#[test]
fn forward_type_names() {
    assert_eq!(ForwardType::list(), vec!["auto", "all", "cpu"]);
    for t in [ForwardType::Auto, ForwardType::All, ForwardType::CPU] {
        assert_eq!(t.to_str().parse::<ForwardType>().unwrap(), t);
    }
    assert_eq!(ForwardType::default(), ForwardType::Auto);
    let all = BuildFeatures { metal: true, opencl: true, opengl: true, vulkan: true, coreml: true, ..default_features() };
    assert_eq!(
        ForwardType::list_in(all),
        vec!["auto", "all", "cpu", "metal", "opencl", "opengl", "vulkan", "coreml"]
    );
    for t in [
        ForwardType::Metal,
        ForwardType::OpenCL,
        ForwardType::OpenGL,
        ForwardType::Vulkan,
        ForwardType::CoreML,
    ] {
        assert_eq!(ForwardType::from_name_in(t.to_str(), all).unwrap(), t);
        assert!(!t.enabled(default_features()));
    }
    let metal = BuildFeatures { metal: true, ..default_features() };
    assert_eq!(ForwardType::list_in(metal), vec!["auto", "all", "cpu", "metal"]);
    assert_eq!(ForwardType::from_name_in("metal", metal).unwrap(), ForwardType::Metal);
    let e = ForwardType::from_name_in("vulkan", metal).unwrap_err();
    assert_eq!(e.kind(), ErrorKind::ParseError);
}

#[test]
fn unknown_forward_type_is_a_parse_error() {
    // A build with the default features turns on no backend feature.
    let e = "metal".parse::<ForwardType>().unwrap_err();
    assert_eq!(e.kind(), ErrorKind::ParseError);
    let e = "CPU".parse::<ForwardType>().unwrap_err();
    assert_eq!(e.kind(), ErrorKind::ParseError);
}

#[test]
fn forward_type_native_codes() {
    assert_eq!(ForwardType::CPU.to_mnn_sys(), FORWARD_CPU);
    assert_eq!(ForwardType::Auto.to_mnn_sys(), FORWARD_AUTO);
    assert_eq!(ForwardType::All.to_mnn_sys(), FORWARD_ALL);
    assert_eq!((FORWARD_CPU, FORWARD_AUTO, FORWARD_ALL), (0, 4, 12));
    assert_eq!(ForwardType::Metal.to_mnn_sys(), 1);
    assert_eq!(ForwardType::OpenCL.to_mnn_sys(), 3);
    assert_eq!(ForwardType::CoreML.to_mnn_sys(), 5);
    assert_eq!(ForwardType::OpenGL.to_mnn_sys(), 6);
    assert_eq!(ForwardType::Vulkan.to_mnn_sys(), 7);
}

#[test]
fn new_schedule_config_defaults() {
    let c = ScheduleConfig::new();
    assert_eq!(c.forward_code(), FORWARD_CPU);
    assert_eq!(c.backup_code(), FORWARD_CPU);
    assert_eq!(c.thread_or_mode(), DEFAULT_NUM_THREADS);
    assert_eq!(DEFAULT_NUM_THREADS, 4);
    assert!(c.save_tensors().is_empty());
    assert!(c.backend_config().is_none());
}

#[test]
fn schedule_config_setters() {
    let mut c = ScheduleConfig::new();
    c.set_type(ForwardType::Auto);
    c.set_backup_type(ForwardType::All);
    c.set_num_threads(8);
    assert_eq!(c.forward_code(), FORWARD_AUTO);
    assert_eq!(c.backup_code(), FORWARD_ALL);
    assert_eq!(c.thread_or_mode(), 8);
    // the mode shares its word with the number of threads
    c.set_mode(1);
    assert_eq!(c.thread_or_mode(), 1);
    c.set_backend_config(Some(BackendConfig::new().with_power_mode(PowerMode::High)));
    assert_eq!(c.backend_config().unwrap().get_power_mode(), PowerMode::High);
    c.set_backend_config(None);
    assert!(c.backend_config().is_none());
}

#[test]
fn save_tensors_are_kept() {
    let mut c = ScheduleConfig::new();
    c.set_save_tensors(&["conv1", "relu2"]).unwrap();
    assert_eq!(c.save_tensors(), &vec!["conv1".to_string(), "relu2".to_string()]);
    c.set_save_tensors(&[]).unwrap();
    assert!(c.save_tensors().is_empty());
}

#[test]
fn save_tensor_with_nul_is_refused() {
    let mut c = ScheduleConfig::new();
    c.set_save_tensors(&["keep"]).unwrap();
    let e = c.set_save_tensors(&["ok", "bad\0name"]).unwrap_err();
    assert_eq!(e.kind(), ErrorKind::AsciiError);
    assert_eq!(c.save_tensors(), &vec!["keep".to_string()]);
}

#[test]
fn schedule_config_clone_is_equal() {
    let mut c = ScheduleConfig::new();
    c.set_type(ForwardType::All);
    c.set_save_tensors(&["a"]).unwrap();
    let d = c.clone();
    assert_eq!(d.forward_code(), FORWARD_ALL);
    assert_eq!(d.save_tensors(), &vec!["a".to_string()]);
}

#[test]
fn schedule_configs_list() {
    let mut cs = ScheduleConfigs::new();
    assert_eq!(cs.len(), 0);
    let mut a = ScheduleConfig::new();
    a.set_type(ForwardType::Auto);
    cs.push(a);
    cs.push(ScheduleConfig::new());
    assert_eq!(cs.len(), 2);
    assert_eq!(cs.get(0).unwrap().forward_code(), FORWARD_AUTO);
    assert_eq!(cs.get(1).unwrap().forward_code(), FORWARD_CPU);
    assert!(cs.get(2).is_none());
    let cs = ScheduleConfigs::with_capacity(4);
    assert_eq!(cs.len(), 0);
    let cs = ScheduleConfigs::from_configs(vec![ScheduleConfig::new()]);
    assert_eq!(cs.len(), 1);
    assert_eq!(ScheduleConfigs::default().len(), 0);
}

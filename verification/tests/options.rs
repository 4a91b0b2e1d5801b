use mnn::{CxxOption, CxxOptionValue};

#[test]
fn option_values() {
    assert_eq!(CxxOptionValue::from_bool(true), CxxOptionValue::On);
    assert_eq!(CxxOptionValue::from_bool(false), CxxOptionValue::Off);
    assert_eq!(CxxOptionValue::from(true), CxxOptionValue::On);
    assert_eq!(CxxOptionValue::from("ON"), CxxOptionValue::On);
    assert_eq!(CxxOptionValue::from("OFF"), CxxOptionValue::Off);
    assert_eq!(CxxOptionValue::from("on"), CxxOptionValue::Value("on"));
    assert_eq!(CxxOptionValue::from_text("14"), CxxOptionValue::Value("14"));
}

#[test]
fn cmake_and_cxx_definitions() {
    let o = CxxOption::from_bool("MNN_VULKAN", false);
    assert_eq!(o.cmake(), "-DMNN_VULKAN=OFF");
    assert_eq!(o.cxx(), "-DMNN_VULKAN=0");
    assert_eq!(o.cmake_value(), "OFF");
    assert!(!o.enabled());
    let o = o.on();
    assert_eq!(o.cmake(), "-DMNN_VULKAN=ON");
    assert_eq!(o.cxx(), "-DMNN_VULKAN=1");
    assert!(o.enabled());
    let o = o.with_value("MultiThreaded");
    assert_eq!(o.cmake(), "-DMNN_VULKAN=MultiThreaded");
    assert_eq!(o.cxx(), "-DMNN_VULKAN=MultiThreaded");
    assert_eq!(o.cmake_value(), "MultiThreaded");
    assert!(o.enabled());
    let o = o.off();
    assert_eq!(o.name, "MNN_VULKAN");
    assert_eq!(o.value, CxxOptionValue::Off);
    let n = CxxOption::new("MNN_USE_THREAD_POOL", CxxOptionValue::On);
    assert_eq!(n.cmake(), "-DMNN_USE_THREAD_POOL=ON");
}

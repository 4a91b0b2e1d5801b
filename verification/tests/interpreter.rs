use mnn::list::TensorList;
use mnn::session::SessionInternals;
use mnn::tensor::TensorShape;
use mnn::{
    ErrorCode, ErrorKind, HalideType, HalideTypeCode, HalideTypeT, Interpreter, ResizeStatus,
    ScheduleConfig, SessionMode,
};

#[test]
fn null_interpreter_is_an_error() {
    let e = Interpreter::from_raw(0).unwrap_err();
    assert_eq!(e.kind(), ErrorKind::InterpreterError);
    let i = Interpreter::from_raw(0x1000).unwrap();
    assert_eq!(i.handle(), 0x1000);
}

#[test]
fn session_keeps_its_configuration() {
    let mut net = Interpreter::from_raw(7).unwrap();
    let mut c = ScheduleConfig::new();
    c.set_num_threads(2);
    let s = net.create_session(c, 9).unwrap();
    assert_eq!(s.handle(), 9);
    assert_eq!(s.net(), 7);
    match s.internals() {
        SessionInternals::Single(c) => assert_eq!(c.thread_or_mode(), 2),
        SessionInternals::MultiSession(_) => panic!("expected a single session"),
    }
}

#[test]
fn multipath_session_keeps_all_configurations() {
    let mut net = Interpreter::from_raw(7).unwrap();
    let s = net
        .create_multipath_session(vec![ScheduleConfig::new(), ScheduleConfig::new()], 11)
        .unwrap();
    match s.internals() {
        SessionInternals::MultiSession(cs) => assert_eq!(cs.len(), 2),
        SessionInternals::Single(_) => panic!("expected a multipath session"),
    }
}

#[test]
fn run_status_decoding() {
    assert!(Interpreter::run_session_result(ErrorCode::NoError).is_ok());
    let e = Interpreter::run_session_result(ErrorCode::OutOfMemory).unwrap_err();
    assert_eq!(e.kind(), ErrorKind::InternalError(ErrorCode::OutOfMemory));
}

#[test]
fn resize_status_decoding() {
    assert_eq!(Interpreter::resize_status_from(1, 0).unwrap(), ResizeStatus::NoResize);
    assert_eq!(Interpreter::resize_status_from(1, 1).unwrap(), ResizeStatus::NeedMalloc);
    assert_eq!(Interpreter::resize_status_from(1, 2).unwrap(), ResizeStatus::NeedResize);
    assert_eq!(
        Interpreter::resize_status_from(1, 3).unwrap_err().kind(),
        ErrorKind::InterpreterError
    );
    assert_eq!(
        Interpreter::resize_status_from(0, 0).unwrap_err().kind(),
        ErrorKind::InterpreterError
    );
    assert!(Interpreter::session_info_result(1).is_ok());
    assert_eq!(
        Interpreter::session_info_result(0).unwrap_err().kind(),
        ErrorKind::InterpreterError
    );
}

#[test]
fn session_mode_codes() {
    assert_eq!(SessionMode::Debug.to_mnn_sys(), 0);
    assert_eq!(SessionMode::Release.to_mnn_sys(), 1);
    assert_eq!(SessionMode::ResizeFix.to_mnn_sys(), 15);
}

#[test]
fn c_string_names() {
    assert!(Interpreter::check_c_string("input").is_ok());
    assert_eq!(
        Interpreter::check_c_string("in\0put").unwrap_err().kind(),
        ErrorKind::AsciiError
    );
}

#[test]
fn input_lookup_checks() {
    let shape = TensorShape::from_dims(&[1, 3, 8, 8]);
    let f32_type = HalideTypeT::new(HalideTypeCode::Float, 32);
    let u8_type = u8::halide_type_of();
    assert_eq!(Interpreter::check_input::<u8>("x", 5, &shape, u8_type).unwrap(), 5);
    assert_eq!(
        Interpreter::check_input::<u8>("x", 0, &shape, u8_type).unwrap_err().kind(),
        ErrorKind::TensorError
    );
    assert_eq!(
        Interpreter::check_output::<u8>("x", 0, &shape, u8_type).unwrap_err().kind(),
        ErrorKind::IOError
    );
    assert_eq!(
        Interpreter::check_input::<u8>("x", 5, &shape, f32_type).unwrap_err().kind(),
        ErrorKind::HalideTypeMismatch { got: "u8" }
    );
    let dynamic = TensorShape::from_dims(&[1, -1, 8, 8]);
    assert_eq!(
        Interpreter::check_input::<u8>("x", 5, &dynamic, u8_type).unwrap_err().kind(),
        ErrorKind::DynamicTensorError
    );
    assert_eq!(
        Interpreter::check_input::<u8>("x\0", 5, &shape, u8_type).unwrap_err().kind(),
        ErrorKind::AsciiError
    );
    assert_eq!(Interpreter::check_raw_input("x", 3).unwrap(), 3);
    assert_eq!(
        Interpreter::check_raw_input("x", 0).unwrap_err().kind(),
        ErrorKind::TensorError
    );
    assert_eq!(
        Interpreter::check_raw_output("x", 0).unwrap_err().kind(),
        ErrorKind::IOError
    );
}

#[test]
fn wait_targets_stop_at_first_null() {
    let net = Interpreter::from_raw(7).unwrap();
    let outputs = TensorList::from_ptr(vec![21, 22, 0, 24]);
    let targets: Vec<usize> = net.wait(&outputs).iter().map(|t| t.handle()).collect();
    assert_eq!(targets, vec![21, 22]);
    let all = TensorList::from_ptr(vec![5, 6]);
    let targets: Vec<usize> = net.wait(&all).iter().map(|t| t.handle()).collect();
    assert_eq!(targets, vec![5, 6]);
    assert!(net.wait(&TensorList::from_ptr(vec![0, 9])).is_empty());
    assert!(net.wait(&TensorList::from_ptr(vec![])).is_empty());
}

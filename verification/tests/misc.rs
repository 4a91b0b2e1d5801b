use mnn::run_async::{AsyncInterpreter, PollOutcome, PollStep};
use mnn::tensor::{check_copy, creation_dimension_type};
use mnn::{DimensionType, Interpreter, ScheduleConfig};
use mnn::callsite::{Interest, Key, Level};
use mnn::utils::{ForwardType as CliForwardType, Modes};
use mnn::{
    halide_type_of, ErrorCode, ErrorKind, HalideTypeCode, HalideTypeT, MNNError, TensorType,
};
use mnn::{Device, Host, Ref};

#[test]
fn error_kinds() {
    let e = MNNError::new(ErrorKind::SizeMismatch { expected: 3, got: 4 });
    assert_eq!(e.kind(), ErrorKind::SizeMismatch { expected: 3, got: 4 });
    let e = MNNError::from_error_code(ErrorCode::FileNotExist);
    assert_eq!(e.into_inner(), ErrorKind::InternalError(ErrorCode::FileNotExist));
}

#[test]
fn halide_types_of_rust_types() {
    assert_eq!(halide_type_of::<u8>(), HalideTypeT::new(HalideTypeCode::UInt, 8));
    assert_eq!(halide_type_of::<i32>(), HalideTypeT::new(HalideTypeCode::Int, 32));
    assert_eq!(halide_type_of::<bool>(), HalideTypeT::new(HalideTypeCode::UInt, 1));
    assert_eq!(halide_type_of::<u64>().lanes, 1);
    assert_eq!(mnn::halide::halide_float32().bits, 32);
    assert_eq!(mnn::halide::halide_float64().code, HalideTypeCode::Float);
    assert!(halide_type_of::<i16>().same_as(&HalideTypeT::new(HalideTypeCode::Int, 16)));
    assert!(!halide_type_of::<i16>().same_as(&HalideTypeT::new(HalideTypeCode::UInt, 16)));
    for c in 0..5u32 {
        assert_eq!(HalideTypeCode::from_u32(c).to_u32(), c);
    }
}

#[test]
fn tensor_kinds() {
    assert!(Host::<u8>::owned() && Host::<u8>::host());
    assert!(Device::<u8>::owned() && Device::<u8>::device());
    assert!(Ref::<Host<i32>>::borrowed() && Ref::<Host<i32>>::host());
    assert!(Ref::<Device<i32>>::borrowed() && Ref::<Device<i32>>::device());
}

#[test]
fn cli_choices() {
    assert_eq!(CliForwardType::CPU.to_forward_type(), 0);
    assert_eq!(CliForwardType::Metal.to_forward_type(), 1);
    assert_eq!(CliForwardType::OpenCL.to_forward_type(), 3);
    assert_eq!(CliForwardType::Auto.to_forward_type(), 4);
    assert_eq!(CliForwardType::CoreML.to_forward_type(), 5);
    assert_eq!(CliForwardType::OpenGL.to_forward_type(), 6);
    assert_eq!(CliForwardType::Vulkan.to_forward_type(), 7);
    assert_eq!(CliForwardType::All.to_forward_type(), 12);
    assert_eq!(CliForwardType::default(), CliForwardType::Auto);
    assert_eq!(Modes::Low.to_precision_mode(), 2);
    assert_eq!(Modes::High.to_power_mode(), 1);
    assert_eq!(Modes::Normal.to_power_mode(), 0);
}

#[test]
fn callsite_interest_codes() {
    for i in [Interest::Never, Interest::Sometimes, Interest::Always] {
        assert_eq!(Interest::from_code(i.to_code()), i);
    }
    assert_eq!(Interest::Never.to_code(), 1);
    let a = Key { level: Level::Info, line: Some(3), file: Some("a.cpp") };
    let b = Key { level: Level::Error, line: Some(1), file: Some("a.cpp") };
    assert!(a < b);
}

#[test]
fn copy_results() {
    assert!(check_copy(1).is_ok());
    assert_eq!(check_copy(0).unwrap_err().kind(), ErrorKind::TensorCopyFailed(0));
}

#[test]
fn creation_layouts() {
    assert_eq!(creation_dimension_type::<Device<u8>>(DimensionType::NHWC), DimensionType::NHWC);
    assert_eq!(creation_dimension_type::<Host<u8>>(DimensionType::NHWC), DimensionType::Caffe);
}

#[test]
fn async_run_steps() {
    let mut net = Interpreter::from_raw(3).unwrap();
    let session = net.create_session(ScheduleConfig::new(), 4).unwrap();
    let mut run = net.run_session_(&session);
    assert_eq!(run.step(true), PollStep::Start);
    assert_eq!(run.step(true), PollStep::Pending);
    assert_eq!(run.step(false), PollStep::Finish);
    let (i, s) = run.parts();
    assert_eq!((i.handle(), s.handle()), (3, 4));
}

#[test]
fn async_run_outcomes() {
    let mut net = Interpreter::from_raw(3).unwrap();
    let session = net.create_session(ScheduleConfig::new(), 4).unwrap();
    let mut run = net.run_session_(&session);
    assert_eq!(run.step(false), PollStep::Start);
    let failed = run.started(Err(MNNError::new(ErrorKind::InternalError(ErrorCode::OutOfMemory))));
    match failed {
        PollOutcome::Ready(Err(e)) => {
            assert_eq!(e.kind(), ErrorKind::InternalError(ErrorCode::OutOfMemory))
        }
        other => panic!("a failed run must end the run with its error: {:?}", other),
    }
    assert!(matches!(run.started(Ok(())), PollOutcome::Pending));
    assert!(matches!(run.finished(), PollOutcome::Ready(Ok(()))));
}

#[test]
fn raw_tensor_handles() {
    use_raw_tensor();
}

fn use_raw_tensor() {
    let t = mnn::RawTensor::from_ptr(77);
    assert_eq!(t.handle(), 77);
    let s = mnn::TensorShape::from_dims(&[1, -1]);
    assert!(t.is_dynamic_unsized(&s));
    assert!(!t.is_dynamic_unsized(&mnn::TensorShape::from_dims(&[1, 2])));
}

//! Verified core of the Rust bindings for the MNN neural network inference engine.
//!
//! The library holds the decisions that the Rust layer takes around the native
//! engine: the configuration objects and their native encodings, parsing of the
//! names users write, tensor shapes and layouts, the checks on tensors looked up in a
//! session, the decoding of the status codes the engine reports, the load/unload
//! state machine behind the synchronous session API, the combinations that the
//! benchmark tool tries, and the helpers of the build (options, prebuilt packages,
//! checksums, header patch).
//!
//! The native engine itself is reached through handles: an interpreter, a session, a
//! tensor or a tensor list entry is held by the integer handle that the engine gave
//! for it. A function that decides on what the engine reported takes that report as
//! an argument.

pub mod backend;
pub mod bench;
pub mod callsite;
pub mod engine_build;
pub mod error;
pub mod expr;
pub mod halide;
pub mod interpreter;
pub mod list;
pub mod llm;
pub mod options;
pub mod patch;
pub mod prebuilt;
pub mod run_async;
pub mod schedule;
pub(crate) mod seal;
pub mod session;
pub mod shared;
pub mod sync;
pub mod tensor;
pub mod text;
pub mod utils;

pub use backend::{BackendConfig, MemoryMode, PowerMode, PrecisionMode};
pub use error::{fails_with, ErrorCode, ErrorKind, MNNError, Result};
pub use halide::{halide_type_of, HalideType, HalideTypeCode, HalideTypeT};
pub use interpreter::{Interpreter, ResizeStatus, SessionMode};
pub use list::{TensorInfo, TensorList, TensorListIter};
pub use llm::Llm;
pub use options::{CxxOption, CxxOptionValue};
pub use schedule::{ForwardType, ScheduleConfig, ScheduleConfigs};
pub use session::{Session, SessionInternals};
pub use sync::{SessionOp, SessionRunner, SessionRunnerState, SessionState};
pub use tensor::{
    AsTensorShape, Device, DeviceTensorType, DimensionType, Host, HostTensorType,
    OwnedTensorType, RawTensor, Ref, RefTensorType, TensorShape, TensorType,
};

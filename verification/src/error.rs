use vstd::prelude::*;

verus! {

/// Status codes reported by the native engine.
#[derive(Debug, Clone, Copy, PartialEq, Eq)]
pub enum ErrorCode {
    NoError,
    OutOfMemory,
    NotSupport,
    ComputeSizeError,
    NoExecution,
    InvalidValue,
    InputDataError,
    CallBackStop,
    TensorNotSupport,
    TensorNeedDivide,
    FileCreateFailed,
    FileRemoveFailed,
    FileOpenFailed,
    FileCloseFailed,
    FileResizeFailed,
    FileSeekFailed,
    FileNotExist,
    FileUnmapFailed,
}

/// Error types for MNN
#[allow(inconsistent_fields)]
#[derive(Debug, Clone, Copy, PartialEq, Eq)]
pub enum ErrorKind {
    /// Internal error (from the native engine)
    InternalError(ErrorCode),
    /// Mismatching size for input
    SizeMismatch {
        /// Expected size
        expected: usize,
        /// Provided size
        got: usize,
    },
    /// Failed to copy tensor
    TensorCopyFailed(i32),
    /// I/O error
    IOError,
    /// Interpreter error
    InterpreterError,
    /// ASCII error (path, name, etc. had invalid characters)
    AsciiError,
    /// Halide type mismatch (e.g. reading a float tensor as an int tensor)
    HalideTypeMismatch {
        /// Name of the element type that was asked for
        got: &'static str,
    },
    /// Failed to parse the argument
    ParseError,
    /// Error of the synchronous session API
    SyncError,
    /// Error with some tensor
    TensorError,
    /// Tried to run a dynamic tensor without resizing it first
    DynamicTensorError,
}

/// Error type container for MNN
#[derive(Debug, Clone, Copy, PartialEq, Eq)]
pub struct MNNError {
    kind: ErrorKind,
}

/// Result type of the library.
pub type Result<T, E = MNNError> = core::result::Result<T, E>;

impl MNNError {
    /// The kind of the error, as a spec value.
    pub closed spec fn spec_kind(&self) -> ErrorKind {
        self.kind
    }

    /// Creates an error of the given kind.
    pub fn new(kind: ErrorKind) -> (e: Self)
        ensures
            e.spec_kind() == kind,
    {
        MNNError { kind }
    }

    /// Creates an internal error from a status code of the native engine.
    pub fn from_error_code(code: ErrorCode) -> (e: Self)
        ensures
            e.spec_kind() == ErrorKind::InternalError(code),
    {
        Self::new(ErrorKind::InternalError(code))
    }

    /// The kind of the error.
    pub fn kind(&self) -> (k: ErrorKind)
        ensures
            k == self.spec_kind(),
    {
        self.kind
    }

    /// Consumes the error and returns its kind.
    pub fn into_inner(self) -> (k: ErrorKind)
        ensures
            k == self.spec_kind(),
    {
        self.kind
    }
}

/// The result is an error of the given kind.
pub open spec fn fails_with<T>(r: Result<T>, kind: ErrorKind) -> bool {
    r matches Err(e) && e.spec_kind() == kind
}

} // verus!

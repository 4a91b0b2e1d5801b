//! The interpreter, which holds a model and creates sessions on it, and the
//! decisions taken on what the native engine reports.
use vstd::prelude::*;

use crate::error::{fails_with, ErrorCode, ErrorKind, MNNError, Result};
use crate::schedule::{ScheduleConfig, ScheduleConfigs};
use crate::session::{Session, SessionInternals, SessionInternalsView};
use crate::halide::{HalideType, HalideTypeT};
use crate::list::{TensorInfo, TensorList};
use crate::tensor::{check_tensor, spec_tensor_check, TensorShape};
use crate::text::{contains_nul, has_nul};

verus! {

/// The session mode to be used.
#[derive(Debug, Clone, Copy, PartialEq, Eq)]
pub enum SessionMode {
    /// Callbacks may run and see the operators (default)
    Debug,
    /// Callbacks see no operator
    Release,
    /// The input tensor is allocated by the session (default)
    InputInside,
    /// The input tensor is allocated by the user
    InputUser,
    /// The output tensor depends on the session (default)
    OutputInside,
    /// The output tensor can be separated from the session
    OutputUser,
    /// Resize the session when it is created (default)
    ResizeDirect,
    /// Do not resize the session when it is created
    ResizeDefer,
    /// The user determines the forward type of the executions (default)
    BackendFix,
    /// The forward type of the executions is determined automatically
    BackendAuto,
    /// Static memory is recycled when the session is resized (default)
    MemoryCollect,
    /// Static memory is cached when the session is resized
    MemoryCache,
    /// Generated code is not used (default)
    CodegenDisable,
    /// Generated code is used
    CodegenEnable,
    /// Dynamic resize optimization: check
    ResizeCheck,
    /// Dynamic resize optimization: fix
    ResizeFix,
}

impl SessionMode {
    /// The native code of the mode.
    pub open spec fn spec_code(self) -> u32 {
        match self {
            SessionMode::Debug => 0,
            SessionMode::Release => 1,
            SessionMode::InputInside => 2,
            SessionMode::InputUser => 3,
            SessionMode::OutputInside => 4,
            SessionMode::OutputUser => 5,
            SessionMode::ResizeDirect => 6,
            SessionMode::ResizeDefer => 7,
            SessionMode::BackendFix => 8,
            SessionMode::BackendAuto => 9,
            SessionMode::MemoryCollect => 10,
            SessionMode::MemoryCache => 11,
            SessionMode::CodegenDisable => 12,
            SessionMode::CodegenEnable => 13,
            SessionMode::ResizeCheck => 14,
            SessionMode::ResizeFix => 15,
        }
    }

    /// Converts the mode to its native code.
    pub fn to_mnn_sys(self) -> (c: u32)
        ensures
            c == self.spec_code(),
    {
        match self {
            SessionMode::Debug => 0,
            SessionMode::Release => 1,
            SessionMode::InputInside => 2,
            SessionMode::InputUser => 3,
            SessionMode::OutputInside => 4,
            SessionMode::OutputUser => 5,
            SessionMode::ResizeDirect => 6,
            SessionMode::ResizeDefer => 7,
            SessionMode::BackendFix => 8,
            SessionMode::BackendAuto => 9,
            SessionMode::MemoryCollect => 10,
            SessionMode::MemoryCache => 11,
            SessionMode::CodegenDisable => 12,
            SessionMode::CodegenEnable => 13,
            SessionMode::ResizeCheck => 14,
            SessionMode::ResizeFix => 15,
        }
    }
}

/// The status of the resize operation.
#[derive(Debug, Clone, Copy, PartialEq, Eq)]
pub enum ResizeStatus {
    /// No resize needed
    NoResize,
    /// Need to malloc memory
    NeedMalloc,
    /// Need to resize memory
    NeedResize,
}

/// The resize status that a session-info query reported, if the query succeeded and
/// the status is one that the library knows.
pub open spec fn spec_resize_status(ret: i32, status: i32) -> Option<ResizeStatus> {
    if ret != 1 {
        None
    } else if status == 0 {
        Some(ResizeStatus::NoResize)
    } else if status == 1 {
        Some(ResizeStatus::NeedMalloc)
    } else if status == 2 {
        Some(ResizeStatus::NeedResize)
    } else {
        None
    }
}

/// Net data holder; several sessions may share one net.
///
/// It holds the native handle of the interpreter, which is never zero.
#[derive(Debug)]
pub struct Interpreter {
    inner: usize,
}

impl Interpreter {
    #[verifier::type_invariant]
    spec fn inv(self) -> bool {
        self.inner != 0
    }

    /// Native handle of the interpreter.
    pub closed spec fn spec_handle(&self) -> usize {
        self.inner
    }

    /// An interpreter from the handle that the native engine returned when it
    /// loaded a model; a null handle means that the model could not be loaded.
    pub fn from_raw(handle: usize) -> (r: Result<Interpreter>)
        ensures
            handle == 0 ==> fails_with(r, ErrorKind::InterpreterError),
            handle != 0 ==> (r matches Ok(i) && i.spec_handle() == handle),
    {
        if handle == 0 {
            Err(MNNError::new(ErrorKind::InterpreterError))
        } else {
            Ok(Interpreter { inner: handle })
        }
    }

    /// Native handle of the interpreter.
    pub fn handle(&self) -> (h: usize)
        ensures
            h == self.spec_handle(),
            h != 0,
    {
        proof {
            use_type_invariant(self);
        }
        self.inner
    }

    /// The output tensors that waiting for a session waits on, in order, given the
    /// session's output list: its entries up to the first null one, which ends the
    /// walk. Each of them is then waited on until it can be read.
    pub fn wait(&self, outputs: &TensorList) -> (v: Vec<TensorInfo>)
        ensures
            v@.len() <= outputs@.len(),
            forall|j: int| 0 <= j < v@.len() ==> (#[trigger] v@[j]).spec_handle() == outputs@[j],
            forall|j: int| 0 <= j < v@.len() ==> #[trigger] outputs@[j] != 0,
            v@.len() < outputs@.len() ==> outputs@[v@.len() as int] == 0,
    {
        let n = outputs.size();
        let mut v: Vec<TensorInfo> = Vec::new();
        let mut i: usize = 0;
        while i < n
            invariant
                n == outputs@.len(),
                i <= n,
                v@.len() == i,
                forall|j: int| 0 <= j < v@.len() ==> (#[trigger] v@[j]).spec_handle() == outputs@[j],
                forall|j: int| 0 <= j < v@.len() ==> #[trigger] outputs@[j] != 0,
            decreases n - i,
        {
            match outputs.get(i) {
                Some(t) => {
                    v.push(t);
                    i = i + 1;
                },
                None => {
                    return v;
                },
            }
        }
        v
    }

    /// Creates a session with a schedule configuration, given the native handle of
    /// the session that the engine created for it; the session keeps the
    /// configuration. The engine never hands out a null session.
    pub fn create_session(&mut self, schedule: ScheduleConfig, native_session: usize) -> (r:
        Result<Session>)
        requires
            native_session != 0,
        ensures
            *final(self) == *old(self),
            r matches Ok(s) && s.spec_handle() == native_session && s.spec_net()
                == old(self).spec_handle() && s.spec_internals() == SessionInternalsView::Single(
                schedule@,
            ),
    {
        let s = Session::from_parts(native_session, self.inner, SessionInternals::Single(schedule));
        Ok(s)
    }

    /// Creates a session that runs on several paths, one per schedule configuration,
    /// given the native handle of the session that the engine created for them.
    pub fn create_multipath_session(
        &mut self,
        schedules: Vec<ScheduleConfig>,
        native_session: usize,
    ) -> (r: Result<Session>)
        requires
            native_session != 0,
        ensures
            *final(self) == *old(self),
            r matches Ok(s) && s.spec_handle() == native_session && s.spec_net()
                == old(self).spec_handle() && s.spec_internals()
                == SessionInternalsView::MultiSession(
                schedules@.map_values(|x: ScheduleConfig| x@),
            ),
    {
        let configs = ScheduleConfigs::from_configs(schedules);
        let s = Session::from_parts(
            native_session,
            self.inner,
            SessionInternals::MultiSession(configs),
        );
        Ok(s)
    }

    /// The result of running a session, from the status code that the engine
    /// reported: success exactly when there was no error.
    pub fn run_session_result(ret: ErrorCode) -> (r: Result<()>)
        ensures
            ret == ErrorCode::NoError ==> r is Ok,
            ret != ErrorCode::NoError ==> fails_with(r, ErrorKind::InternalError(ret)),
    {
        match ret {
            ErrorCode::NoError => Ok(()),
            _ => Err(MNNError::from_error_code(ret)),
        }
    }

    /// The resize status, from what the session-info query returned (`ret`, one on
    /// success) and the status it wrote.
    pub fn resize_status_from(ret: i32, status: i32) -> (r: Result<ResizeStatus>)
        ensures
            spec_resize_status(ret, status) matches Some(s) ==> r == Ok::<
                ResizeStatus,
                MNNError,
            >(s),
            spec_resize_status(ret, status) is None ==> fails_with(r, ErrorKind::InterpreterError),
    {
        if ret != 1 {
            return Err(MNNError::new(ErrorKind::InterpreterError));
        }
        if status == 0 {
            Ok(ResizeStatus::NoResize)
        } else if status == 1 {
            Ok(ResizeStatus::NeedMalloc)
        } else if status == 2 {
            Ok(ResizeStatus::NeedResize)
        } else {
            Err(MNNError::new(ErrorKind::InterpreterError))
        }
    }

    /// Checks that a name or a path can be handed to the engine as a C string: it
    /// must not hold a NUL character.
    pub fn check_c_string(name: &str) -> (r: Result<()>)
        ensures
            has_nul(name@) ==> fails_with(r, ErrorKind::AsciiError),
            !has_nul(name@) ==> r is Ok,
    {
        if contains_nul(name) {
            Err(MNNError::new(ErrorKind::AsciiError))
        } else {
            Ok(())
        }
    }

    /// The result of a session-info query that reads a number: success exactly when
    /// the query returned one.
    pub fn session_info_result(ret: i32) -> (r: Result<()>)
        ensures
            ret == 1 ==> r is Ok,
            ret != 1 ==> fails_with(r, ErrorKind::InterpreterError),
    {
        if ret == 1 {
            Ok(())
        } else {
            Err(MNNError::new(ErrorKind::InterpreterError))
        }
    }
}

/// What looking up a tensor of a session by name gives: a name that cannot be a C
/// string is an ASCII error; otherwise the checks of the tensor decide, with
/// `missing` for a tensor that the engine did not find.
pub open spec fn spec_lookup<H: HalideType>(
    name: Seq<char>,
    tensor: usize,
    shape: TensorShape,
    actual: HalideTypeT,
    missing: ErrorKind,
) -> Option<ErrorKind> {
    if has_nul(name) {
        Some(ErrorKind::AsciiError)
    } else {
        spec_tensor_check::<H>(tensor, shape, actual, missing)
    }
}

impl Interpreter {
    /// Decides on an input tensor looked up by name, with the element type `H`:
    /// `tensor` is the handle the engine returned (zero when no input has that
    /// name), `shape` and `actual` its shape and element type. The handle is given
    /// back when the name is a C string, the tensor exists, no dimension is unknown
    /// and the element type is `H`.
    pub fn check_input<H: HalideType>(
        name: &str,
        tensor: usize,
        shape: &TensorShape,
        actual: HalideTypeT,
    ) -> (r: Result<usize>)
        ensures
            spec_lookup::<H>(name@, tensor, *shape, actual, ErrorKind::TensorError) matches Some(k)
                ==> fails_with(r, k),
            spec_lookup::<H>(name@, tensor, *shape, actual, ErrorKind::TensorError) is None ==> r
                == Ok::<usize, MNNError>(tensor),
    {
        Self::check_c_string(name)?;
        check_tensor::<H>(tensor, shape, actual, ErrorKind::TensorError)
    }

    /// Decides on an output tensor looked up by name, with the element type `H`, as
    /// for an input; an output that is not found is an I/O error.
    pub fn check_output<H: HalideType>(
        name: &str,
        tensor: usize,
        shape: &TensorShape,
        actual: HalideTypeT,
    ) -> (r: Result<usize>)
        ensures
            spec_lookup::<H>(name@, tensor, *shape, actual, ErrorKind::IOError) matches Some(k)
                ==> fails_with(r, k),
            spec_lookup::<H>(name@, tensor, *shape, actual, ErrorKind::IOError) is None ==> r
                == Ok::<usize, MNNError>(tensor),
    {
        Self::check_c_string(name)?;
        check_tensor::<H>(tensor, shape, actual, ErrorKind::IOError)
    }

    /// Decides on an input tensor looked up by name without any check of its type or
    /// shape: the name must be a C string and the tensor must exist.
    pub fn check_raw_input(name: &str, tensor: usize) -> (r: Result<usize>)
        ensures
            has_nul(name@) ==> fails_with(r, ErrorKind::AsciiError),
            !has_nul(name@) && tensor == 0 ==> fails_with(r, ErrorKind::TensorError),
            !has_nul(name@) && tensor != 0 ==> r == Ok::<usize, MNNError>(tensor),
    {
        Self::check_c_string(name)?;
        if tensor == 0 {
            return Err(MNNError::new(ErrorKind::TensorError));
        }
        Ok(tensor)
    }

    /// Decides on an output tensor looked up by name without any check of its type or
    /// shape: the name must be a C string and the tensor must exist.
    pub fn check_raw_output(name: &str, tensor: usize) -> (r: Result<usize>)
        ensures
            has_nul(name@) ==> fails_with(r, ErrorKind::AsciiError),
            !has_nul(name@) && tensor == 0 ==> fails_with(r, ErrorKind::IOError),
            !has_nul(name@) && tensor != 0 ==> r == Ok::<usize, MNNError>(tensor),
    {
        Self::check_c_string(name)?;
        if tensor == 0 {
            return Err(MNNError::new(ErrorKind::IOError));
        }
        Ok(tensor)
    }
}

/// Every status that the engine reports after a successful query is decoded to the
/// status it stands for, and a failed query is never taken for a status.
pub proof fn lemma_resize_status_decoding(ret: i32, status: i32)
    ensures
        ret != 1 ==> spec_resize_status(ret, status) is None,
        ret == 1 && 0 <= status <= 2 ==> spec_resize_status(ret, status) is Some,
        ret == 1 && (status < 0 || status > 2) ==> spec_resize_status(ret, status) is None,
        spec_resize_status(1, 0) == Some(ResizeStatus::NoResize),
        spec_resize_status(1, 1) == Some(ResizeStatus::NeedMalloc),
        spec_resize_status(1, 2) == Some(ResizeStatus::NeedResize),
{
}

/// Different session modes have different native codes.
pub proof fn lemma_session_mode_codes(a: SessionMode, b: SessionMode)
    ensures
        a.spec_code() == b.spec_code() ==> a == b,
        a.spec_code() < 16,
{
}

/// Each session mode is handed to the engine as the engine's session mode of the
/// same name, in the engine's order from debug (0) to fixed resize (15).
pub proof fn lemma_session_modes_match_engine()
    ensures
        SessionMode::Debug.spec_code() == 0 && SessionMode::Release.spec_code() == 1
            && SessionMode::InputInside.spec_code() == 2 && SessionMode::InputUser.spec_code() == 3
            && SessionMode::OutputInside.spec_code() == 4 && SessionMode::OutputUser.spec_code() == 5
            && SessionMode::ResizeDirect.spec_code() == 6 && SessionMode::ResizeDefer.spec_code() == 7
            && SessionMode::BackendFix.spec_code() == 8 && SessionMode::BackendAuto.spec_code() == 9
            && SessionMode::MemoryCollect.spec_code() == 10 && SessionMode::MemoryCache.spec_code()
            == 11 && SessionMode::CodegenDisable.spec_code() == 12
            && SessionMode::CodegenEnable.spec_code() == 13 && SessionMode::ResizeCheck.spec_code()
            == 14 && SessionMode::ResizeFix.spec_code() == 15,
{
}

} // verus!

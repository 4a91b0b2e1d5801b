//! The runner that owns an interpreter and its session, and the load/unload state
//! machine that the session thread of the synchronous API drives.
use vstd::prelude::*;

use crate::error::{fails_with, ErrorCode, ErrorKind, MNNError, Result};
use crate::interpreter::Interpreter;
use crate::schedule::{ScheduleConfig, ScheduleConfigView};
use crate::session::{Session, SessionInternalsView};

verus! {

/// An interpreter together with a session created on it.
#[derive(Debug)]
#[non_exhaustive]
pub struct SessionRunner {
    pub interpreter: Interpreter,
    pub session: Session,
}

/// The runner that loading `net` with `config` gives, when the engine created the
/// session `native_session`.
pub open spec fn spec_loaded_runner(
    sr: SessionRunner,
    net: Interpreter,
    config: ScheduleConfigView,
    native_session: usize,
) -> bool {
    &&& sr.interpreter == net
    &&& sr.session.spec_handle() == native_session
    &&& sr.session.spec_net() == net.spec_handle()
    &&& sr.session.spec_internals() == SessionInternalsView::Single(config)
}

impl SessionRunner {
    /// A runner from an interpreter and a session.
    pub fn new(interpreter: Interpreter, session: Session) -> (sr: Self)
        ensures
            sr.interpreter == interpreter,
            sr.session == session,
    {
        SessionRunner { interpreter, session }
    }

    /// Creates a session on `net` with `config` and keeps both; `native_session` is
    /// the handle of the session that the engine created, never null.
    pub fn create(net: Interpreter, config: ScheduleConfig, native_session: usize) -> (r:
        Result<Self>)
        requires
            native_session != 0,
        ensures
            r matches Ok(sr) && spec_loaded_runner(sr, net, config@, native_session),
    {
        let mut net = net;
        let session = net.create_session(config, native_session)?;
        Ok(SessionRunner { interpreter: net, session })
    }

    /// Drops the session and gives the interpreter back.
    pub fn unload(self) -> (r: Result<Interpreter>)
        ensures
            r == Ok::<Interpreter, MNNError>(self.interpreter),
    {
        let SessionRunner { interpreter, session: _ } = self;
        Ok(interpreter)
    }

    /// The result of running the session, from the status code that the engine
    /// reported.
    pub fn run_session(&mut self, ret: ErrorCode) -> (r: Result<()>)
        ensures
            *final(self) == *old(self),
            ret == ErrorCode::NoError ==> r is Ok,
            ret != ErrorCode::NoError ==> fails_with(r, ErrorKind::InternalError(ret)),
    {
        Interpreter::run_session_result(ret)
    }

    /// Both the interpreter and the session, mutably.
    pub fn both_mut(&mut self) -> (r: (&mut Interpreter, &mut Session))
        ensures
            *r.0 == old(self).interpreter,
            *r.1 == old(self).session,
            final(self).interpreter == *final(r.0),
            final(self).session == *final(r.1),
    {
        (&mut self.interpreter, &mut self.session)
    }

    /// Resizes the session; the runner itself does not change.
    pub fn resize_session(&mut self) -> (r: Result<()>)
        ensures
            *final(self) == *old(self),
            r is Ok,
    {
        Ok(())
    }

    /// The interpreter.
    pub fn interpreter(&self) -> (i: &Interpreter)
        ensures
            *i == self.interpreter,
    {
        &self.interpreter
    }

    /// The interpreter, mutably.
    pub fn interpreter_mut(&mut self) -> (i: &mut Interpreter)
        ensures
            *i == old(self).interpreter,
            final(self).interpreter == *final(i),
            final(self).session == old(self).session,
    {
        &mut self.interpreter
    }

    /// The session.
    pub fn session(&self) -> (s: &Session)
        ensures
            *s == self.session,
    {
        &self.session
    }

    /// The session, mutably.
    pub fn session_mut(&mut self) -> (s: &mut Session)
        ensures
            *s == old(self).session,
            final(self).session == *final(s),
            final(self).interpreter == old(self).interpreter,
    {
        &mut self.session
    }
}

/// Where a session thread stands: a loaded session, an interpreter with no session,
/// or a poisoned state that an earlier failure left behind.
#[derive(Debug)]
pub enum SessionRunnerState {
    Loaded(SessionRunner),
    Unloaded(Interpreter),
    Poisoned,
}

impl Default for SessionRunnerState {
    fn default() -> (s: Self)
        ensures
            s is Poisoned,
    {
        SessionRunnerState::Poisoned
    }
}

impl SessionRunnerState {
    /// Whether a session is loaded.
    pub fn is_loaded(&self) -> (b: bool)
        ensures
            b == self is Loaded,
    {
        match self {
            SessionRunnerState::Loaded(_) => true,
            _ => false,
        }
    }

    /// Whether only the interpreter is held.
    pub fn is_unloaded(&self) -> (b: bool)
        ensures
            b == self is Unloaded,
    {
        match self {
            SessionRunnerState::Unloaded(_) => true,
            _ => false,
        }
    }

    /// Whether the state is poisoned.
    pub fn is_poisoned(&self) -> (b: bool)
        ensures
            b == self is Poisoned,
    {
        match self {
            SessionRunnerState::Poisoned => true,
            _ => false,
        }
    }

    /// The runner, if a session is loaded.
    pub fn loaded(&self) -> (r: Option<&SessionRunner>)
        ensures
            self is Loaded ==> r == Some(&self->Loaded_0),
            !(self is Loaded) ==> r is None,
    {
        match self {
            SessionRunnerState::Loaded(sr) => Some(sr),
            _ => None,
        }
    }

    /// The interpreter, if only the interpreter is held.
    pub fn unloaded(&self) -> (r: Option<&Interpreter>)
        ensures
            self is Unloaded ==> r == Some(&self->Unloaded_0),
            !(self is Unloaded) ==> r is None,
    {
        match self {
            SessionRunnerState::Unloaded(net) => Some(net),
            _ => None,
        }
    }

    /// The runner, mutably, if a session is loaded.
    pub fn loaded_mut(&mut self) -> (r: Option<&mut SessionRunner>)
        ensures
            *old(self) is Loaded ==> (r matches Some(sr) && *sr == (*old(self))->Loaded_0
                && *final(self) == SessionRunnerState::Loaded(*final(sr))),
            !(*old(self) is Loaded) ==> r is None && *final(self) == *old(self),
    {
        match self {
            SessionRunnerState::Loaded(sr) => Some(sr),
            _ => None,
        }
    }

    /// The interpreter, mutably, if only the interpreter is held.
    pub fn unloaded_mut(&mut self) -> (r: Option<&mut Interpreter>)
        ensures
            *old(self) is Unloaded ==> (r matches Some(net) && *net == (*old(self))->Unloaded_0
                && *final(self) == SessionRunnerState::Unloaded(*final(net))),
            !(*old(self) is Unloaded) ==> r is None && *final(self) == *old(self),
    {
        match self {
            SessionRunnerState::Unloaded(net) => Some(net),
            _ => None,
        }
    }
}

/// What loading does: a loaded state stays as it is, an interpreter gets a session
/// created with `config` (whose native handle is `native_session`), and a poisoned
/// state stays poisoned and reports a sync error.
pub open spec fn spec_load(
    before: SessionRunnerState,
    config: ScheduleConfigView,
    native_session: usize,
    after: SessionRunnerState,
    r: Result<()>,
) -> bool {
    match before {
        SessionRunnerState::Loaded(_) => r is Ok && after == before,
        SessionRunnerState::Unloaded(net) => r is Ok && (after matches SessionRunnerState::Loaded(
            sr,
        ) && spec_loaded_runner(sr, net, config, native_session)),
        SessionRunnerState::Poisoned => fails_with(r, ErrorKind::SyncError) && after is Poisoned,
    }
}

/// What unloading does: a loaded state drops its session and keeps the interpreter,
/// an interpreter stays as it is, and a poisoned state stays poisoned and reports a
/// sync error.
pub open spec fn spec_unload(
    before: SessionRunnerState,
    after: SessionRunnerState,
    r: Result<()>,
) -> bool {
    match before {
        SessionRunnerState::Loaded(sr) => r is Ok && after == SessionRunnerState::Unloaded(
            sr.interpreter,
        ),
        SessionRunnerState::Unloaded(_) => r is Ok && after == before,
        SessionRunnerState::Poisoned => fails_with(r, ErrorKind::SyncError) && after is Poisoned,
    }
}

impl SessionRunnerState {
    /// Drops the session, if one is loaded, and keeps the interpreter.
    pub fn unload(&mut self) -> (r: Result<()>)
        ensures
            spec_unload(*old(self), *final(self), r),
    {
        let mut cur = SessionRunnerState::Poisoned;
        core::mem::swap(&mut cur, self);
        match cur {
            SessionRunnerState::Loaded(sr) => {
                let net = sr.unload()?;
                *self = SessionRunnerState::Unloaded(net);
                Ok(())
            },
            SessionRunnerState::Unloaded(u) => {
                *self = SessionRunnerState::Unloaded(u);
                Ok(())
            },
            SessionRunnerState::Poisoned => Err(MNNError::new(ErrorKind::SyncError)),
        }
    }

    /// Creates a session with `config`, if none is loaded; `native_session` is the
    /// handle of the session that the engine created for it.
    pub fn load(&mut self, config: &ScheduleConfig, native_session: usize) -> (r: Result<()>)
        requires
            *old(self) is Unloaded ==> native_session != 0,
        ensures
            spec_load(*old(self), config@, native_session, *final(self), r),
    {
        let mut cur = SessionRunnerState::Poisoned;
        core::mem::swap(&mut cur, self);
        match cur {
            SessionRunnerState::Loaded(sr) => {
                *self = SessionRunnerState::Loaded(sr);
                Ok(())
            },
            SessionRunnerState::Unloaded(net) => {
                let sr = SessionRunner::create(net, config.clone(), native_session)?;
                *self = SessionRunnerState::Loaded(sr);
                Ok(())
            },
            SessionRunnerState::Poisoned => Err(MNNError::new(ErrorKind::SyncError)),
        }
    }

    /// The runner, loading a session with `config` first if none is loaded.
    pub fn sr(&mut self, config: &ScheduleConfig, native_session: usize) -> (r: Result<
        &mut SessionRunner,
    >)
        requires
            *old(self) is Unloaded ==> native_session != 0,
        ensures
            *old(self) is Loaded ==> (r matches Ok(sr) && *sr == (*old(self))->Loaded_0
                && *final(self) == SessionRunnerState::Loaded(*final(sr))),
            *old(self) is Unloaded ==> (r matches Ok(sr) && spec_loaded_runner(
                *sr,
                (*old(self))->Unloaded_0,
                config@,
                native_session,
            ) && *final(self) == SessionRunnerState::Loaded(*final(sr))),
            *old(self) is Poisoned ==> fails_with(r, ErrorKind::SyncError) && *final(self) is Poisoned,
    {
        if self.is_poisoned() {
            return Err(MNNError::new(ErrorKind::SyncError));
        }
        if self.is_unloaded() {
            self.load(config, native_session)?;
        }
        match self.loaded_mut() {
            Some(sr) => Ok(sr),
            None => Err(MNNError::new(ErrorKind::SyncError)),
        }
    }
}

/// The state of a session thread: where its runner stands, and the configuration
/// that sessions are created with.
#[derive(Debug)]
pub struct SessionState {
    sr: SessionRunnerState,
    config: ScheduleConfig,
}

impl SessionState {
    /// Where the runner stands.
    pub closed spec fn spec_state(&self) -> SessionRunnerState {
        self.sr
    }

    /// The configuration that sessions are created with.
    pub closed spec fn spec_config(&self) -> ScheduleConfigView {
        self.config@
    }

    /// A thread state that holds an interpreter and no session yet.
    pub fn new(interpreter: Interpreter, config: ScheduleConfig) -> (s: Self)
        ensures
            s.spec_state() == SessionRunnerState::Unloaded(interpreter),
            s.spec_config() == config@,
    {
        SessionState { sr: SessionRunnerState::Unloaded(interpreter), config }
    }

    /// Where the runner stands.
    pub fn state(&self) -> (s: &SessionRunnerState)
        ensures
            *s == self.spec_state(),
    {
        &self.sr
    }

    /// The runner, loading a session first if none is loaded.
    pub fn sr(&mut self, native_session: usize) -> (r: Result<&mut SessionRunner>)
        requires
            old(self).spec_state() is Unloaded ==> native_session != 0,
        ensures
            final(self).spec_config() == old(self).spec_config(),
            old(self).spec_state() is Loaded ==> (r matches Ok(sr) && *sr == old(
                self,
            ).spec_state()->Loaded_0 && final(self).spec_state() == SessionRunnerState::Loaded(
                *final(sr),
            )),
            old(self).spec_state() is Unloaded ==> (r matches Ok(sr) && spec_loaded_runner(
                *sr,
                old(self).spec_state()->Unloaded_0,
                old(self).spec_config(),
                native_session,
            ) && final(self).spec_state() == SessionRunnerState::Loaded(*final(sr))),
            old(self).spec_state() is Poisoned ==> fails_with(r, ErrorKind::SyncError)
                && final(self).spec_state() is Poisoned,
    {
        self.sr.sr(&self.config, native_session)
    }

    /// Loads a session with the thread's configuration, if none is loaded.
    pub fn load(&mut self, native_session: usize) -> (r: Result<()>)
        requires
            old(self).spec_state() is Unloaded ==> native_session != 0,
        ensures
            final(self).spec_config() == old(self).spec_config(),
            spec_load(
                old(self).spec_state(),
                old(self).spec_config(),
                native_session,
                final(self).spec_state(),
                r,
            ),
    {
        self.sr.load(&self.config, native_session)
    }

    /// Drops the session, if one is loaded.
    pub fn unload(&mut self) -> (r: Result<()>)
        ensures
            final(self).spec_config() == old(self).spec_config(),
            spec_unload(old(self).spec_state(), final(self).spec_state(), r),
    {
        self.sr.unload()
    }

    /// Whether a session is loaded.
    pub fn is_loaded(&self) -> (b: bool)
        ensures
            b == self.spec_state() is Loaded,
    {
        self.sr.is_loaded()
    }

    /// Ends the thread: a loaded session is dropped first; what is left is given
    /// back.
    pub fn finish(self) -> (r: (Result<()>, SessionRunnerState))
        ensures
            r.0 is Ok,
            self.spec_state() is Loaded ==> r.1 == SessionRunnerState::Unloaded(
                self.spec_state()->Loaded_0.interpreter,
            ),
            !(self.spec_state() is Loaded) ==> r.1 == self.spec_state(),
    {
        let SessionState { sr, config: _ } = self;
        match sr {
            SessionRunnerState::Loaded(runner) => {
                let net = runner.interpreter;
                (Ok(()), SessionRunnerState::Unloaded(net))
            },
            other => (Ok(()), other),
        }
    }
}

/// Unloading a session that was just loaded gives back the interpreter as it was;
/// loading or unloading twice does nothing more than once; a poisoned state stays
/// poisoned and refuses both; after a load that succeeds a session is loaded, and
/// after an unload that succeeds none is.
pub proof fn lemma_load_unload(
    s0: SessionRunnerState,
    config: ScheduleConfigView,
    native_session: usize,
    s1: SessionRunnerState,
    r1: Result<()>,
    s2: SessionRunnerState,
    r2: Result<()>,
)
    ensures
        s0 is Unloaded && spec_load(s0, config, native_session, s1, r1) && spec_unload(s1, s2, r2)
            ==> r1 is Ok && r2 is Ok && s2 == s0,
        spec_load(s0, config, native_session, s1, r1) && spec_load(s1, config, native_session, s2, r2)
            && !(s0 is Poisoned) ==> s2 == s1 && r2 is Ok,
        spec_unload(s0, s1, r1) && spec_unload(s1, s2, r2) ==> s2 == s1,
        s0 is Poisoned && spec_load(s0, config, native_session, s1, r1) ==> r1 is Err && s1 is Poisoned,
        s0 is Poisoned && spec_unload(s0, s1, r1) ==> r1 is Err && s1 is Poisoned,
        spec_load(s0, config, native_session, s1, r1) && r1 is Ok ==> s1 is Loaded,
        spec_unload(s0, s1, r1) && r1 is Ok ==> s1 is Unloaded,
        spec_load(s0, config, native_session, s1, r1) && r1 is Err ==> s1 is Poisoned,
        spec_unload(s0, s1, r1) && r1 is Err ==> s1 is Poisoned,
{
}

/// A request that the session thread serves: run a callback on the runner (loading
/// a session first if none is loaded), load a session, or unload it.
#[derive(Debug, Clone, Copy, PartialEq, Eq)]
pub enum SessionOp {
    Run,
    Load,
    Unload,
}

/// What serving a request does to where the runner stands, and whether the request
/// gets to its work: loading and unloading as `spec_load` and `spec_unload` say, and
/// a run reaches a loaded runner unless the state is poisoned, as `SessionState::sr`
/// states.
pub open spec fn spec_serve(
    before: SessionRunnerState,
    op: SessionOp,
    config: ScheduleConfigView,
    native_session: usize,
    after: SessionRunnerState,
    r: Result<()>,
) -> bool {
    match op {
        SessionOp::Load => spec_load(before, config, native_session, after, r),
        SessionOp::Unload => spec_unload(before, after, r),
        SessionOp::Run => match before {
            SessionRunnerState::Poisoned => fails_with(r, ErrorKind::SyncError) && after is Poisoned,
            _ => r is Ok && after is Loaded,
        },
    }
}

/// Requests served in turn by a session thread whose state is not poisoned: none of
/// them fails, the state never becomes poisoned, and a session is loaded after the
/// last request exactly when that request was not an unload; with no request the
/// state is as it was.
pub proof fn lemma_serve_sequence(
    states: Seq<SessionRunnerState>,
    ops: Seq<SessionOp>,
    results: Seq<Result<()>>,
    config: ScheduleConfigView,
    natives: Seq<usize>,
)
    requires
        states.len() == ops.len() + 1,
        results.len() == ops.len(),
        natives.len() == ops.len(),
        !(states[0] is Poisoned),
        forall|i: int|
            0 <= i < ops.len() ==> spec_serve(
                states[i],
                #[trigger] ops[i],
                config,
                natives[i],
                states[i + 1],
                results[i],
            ),
    ensures
        forall|i: int| 0 <= i < ops.len() ==> (#[trigger] results[i]) is Ok,
        forall|i: int| 0 <= i < states.len() ==> !((#[trigger] states[i]) is Poisoned),
        ops.len() == 0 ==> states.last() == states[0],
        ops.len() > 0 ==> (states.last() is Loaded <==> !(ops.last() is Unload)),
    decreases ops.len(),
{
    let n = ops.len() as int;
    if n > 0 {
        let ps = states.drop_last();
        let po = ops.drop_last();
        let pr = results.drop_last();
        let pn = natives.drop_last();
        assert forall|i: int| 0 <= i < po.len() implies spec_serve(
            ps[i],
            #[trigger] po[i],
            config,
            pn[i],
            ps[i + 1],
            pr[i],
        ) by {
            assert(ops[i] == po[i]);
        }
        lemma_serve_sequence(ps, po, pr, config, pn);
        assert(ps[n - 1] == states[n - 1]);
        assert(spec_serve(states[n - 1], ops[n - 1], config, natives[n - 1], states[n], results[n - 1]));
        assert forall|i: int| 0 <= i < n implies (#[trigger] results[i]) is Ok by {
            if i < n - 1 {
                assert(pr[i] == results[i]);
            }
        }
        assert forall|i: int| 0 <= i < states.len() implies !((#[trigger] states[i]) is Poisoned) by {
            if i < n {
                assert(ps[i] == states[i]);
            }
        }
    }
}

} // verus!

//! Sessions: the inference units that run on an interpreter.
use vstd::prelude::*;

use crate::schedule::{ScheduleConfig, ScheduleConfigView, ScheduleConfigs};

verus! {

/// The configurations that a session was created with.
#[derive(Debug)]
pub enum SessionInternals {
    /// A session on one path.
    Single(ScheduleConfig),
    /// A session on several paths.
    MultiSession(ScheduleConfigs),
}

/// What a session was created with, as spec values.
pub enum SessionInternalsView {
    /// A session on one path.
    Single(ScheduleConfigView),
    /// A session on several paths.
    MultiSession(Seq<ScheduleConfigView>),
}

impl View for SessionInternals {
    type V = SessionInternalsView;

    open spec fn view(&self) -> SessionInternalsView {
        match self {
            SessionInternals::Single(c) => SessionInternalsView::Single(c@),
            SessionInternals::MultiSession(cs) => SessionInternalsView::MultiSession(cs@),
        }
    }
}

/// A session is a context in which a computation graph is executed; several
/// sessions can share one interpreter.
///
/// It holds the native handle of the session, the native handle of the interpreter
/// that created it, and the configurations it was created with.
#[derive(Debug)]
pub struct Session {
    inner: usize,
    net: usize,
    session_internals: SessionInternals,
}

impl Session {
    /// Native handle of the session.
    pub closed spec fn spec_handle(&self) -> usize {
        self.inner
    }

    /// Native handle of the interpreter that created the session.
    pub closed spec fn spec_net(&self) -> usize {
        self.net
    }

    /// The configurations the session was created with.
    pub closed spec fn spec_internals(&self) -> SessionInternalsView {
        self.session_internals@
    }

    /// A session with the given native handles and configurations.
    pub(crate) fn from_parts(inner: usize, net: usize, session_internals: SessionInternals) -> (s:
        Session)
        ensures
            s.spec_handle() == inner,
            s.spec_net() == net,
            s.spec_internals() == session_internals@,
    {
        Session { inner, net, session_internals }
    }

    /// Native handle of the session.
    pub fn handle(&self) -> (h: usize)
        ensures
            h == self.spec_handle(),
    {
        self.inner
    }

    /// Native handle of the interpreter that created the session.
    pub fn net(&self) -> (h: usize)
        ensures
            h == self.spec_net(),
    {
        self.net
    }

    /// The configurations the session was created with.
    pub fn internals(&self) -> (i: &SessionInternals)
        ensures
            i@ == self.spec_internals(),
    {
        &self.session_internals
    }
}

} // verus!

//! The steps of running a session without blocking: the first poll starts the run,
//! later polls wait until the engine has no asynchronous work left.
use vstd::prelude::*;

use crate::error::Result;
use crate::interpreter::Interpreter;
use crate::session::Session;

verus! {

/// What a poll of a running session does.
#[derive(Debug, Clone, Copy, PartialEq, Eq)]
pub enum PollStep {
    /// Run the session, wake the task and report that the run is pending.
    Start,
    /// The engine still has asynchronous work: report that the run is pending.
    Pending,
    /// Wait for the outputs to be readable and report that the run is done.
    Finish,
}

/// What a poll reports to the task that polls the run.
#[derive(Debug)]
pub enum PollOutcome {
    /// The run is not done yet.
    Pending,
    /// The run is done, with its result.
    Ready(Result<()>),
}

/// A run of a session on an interpreter, polled until it is done.
pub struct RunSession<'r, 's> {
    inner: (&'r mut Interpreter, &'s Session),
    running: bool,
}

impl<'r, 's> RunSession<'r, 's> {
    /// The interpreter of the run.
    pub closed spec fn spec_interpreter(&self) -> Interpreter {
        *self.inner.0
    }

    /// The session of the run.
    pub closed spec fn spec_session(&self) -> Session {
        *self.inner.1
    }

    /// Whether the run has been started.
    pub closed spec fn spec_running(&self) -> bool {
        self.running
    }

    /// Decides what a poll does, given whether the engine reports asynchronous work
    /// for the session: the first poll starts the run, and every later poll waits
    /// until no work is left.
    pub fn step(&mut self, has_async_work: bool) -> (s: PollStep)
        ensures
            final(self).spec_running(),
            final(self).spec_interpreter() == old(self).spec_interpreter(),
            final(self).spec_session() == old(self).spec_session(),
            !old(self).spec_running() ==> s == PollStep::Start,
            old(self).spec_running() && has_async_work ==> s == PollStep::Pending,
            old(self).spec_running() && !has_async_work ==> s == PollStep::Finish,
    {
        if self.running {
            if has_async_work {
                PollStep::Pending
            } else {
                PollStep::Finish
            }
        } else {
            self.running = true;
            PollStep::Start
        }
    }

    /// What the poll that started the run reports, given the result of the run: a
    /// failed run ends the run with its error; otherwise the task is woken and the
    /// run is pending.
    pub fn started(&self, run: Result<()>) -> (o: PollOutcome)
        requires
            self.spec_running(),
        ensures
            run is Err ==> o == PollOutcome::Ready(run),
            run is Ok ==> o == PollOutcome::Pending,
    {
        match run {
            Ok(()) => PollOutcome::Pending,
            Err(e) => PollOutcome::Ready(Err(e)),
        }
    }

    /// What the poll that finds no asynchronous work left reports, once the outputs
    /// are readable: the run is done and succeeded.
    pub fn finished(&self) -> (o: PollOutcome)
        requires
            self.spec_running(),
        ensures
            o == PollOutcome::Ready(Ok(())),
    {
        PollOutcome::Ready(Ok(()))
    }

    /// The interpreter and the session of the run.
    pub fn parts(&mut self) -> (p: (&mut Interpreter, &Session))
        ensures
            *p.0 == old(self).spec_interpreter(),
            *p.1 == old(self).spec_session(),
    {
        (&mut *self.inner.0, self.inner.1)
    }
}

/// Running a session without blocking.
pub trait AsyncInterpreter {
    /// A run of `session` that has not started yet.
    fn run_session_<'r>(&'r mut self, session: &'r Session) -> (r: RunSession<'r, 'r>)
        ensures
            !r.spec_running(),
            r.spec_session() == *session,
    ;
}

impl AsyncInterpreter for Interpreter {
    fn run_session_<'r>(&'r mut self, session: &'r Session) -> (r: RunSession<'r, 'r>)
        ensures
            r.spec_interpreter() == *old(self),
    {
        RunSession { inner: (self, session), running: false }
    }
}

} // verus!

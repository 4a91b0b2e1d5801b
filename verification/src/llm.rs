//! Large language model support of the engine.
use vstd::prelude::*;

verus! {

/// A language model loaded by the engine, held by its native handle.
#[derive(Debug)]
pub struct Llm {
    inner: usize,
}

impl Llm {
    /// Native handle of the model.
    pub closed spec fn spec_handle(&self) -> usize {
        self.inner
    }

    /// A model from the handle that the engine returned when it loaded it.
    pub fn from_raw(handle: usize) -> (l: Llm)
        ensures
            l.spec_handle() == handle,
    {
        Llm { inner: handle }
    }

    /// Native handle of the model.
    pub fn handle(&self) -> (h: usize)
        ensures
            h == self.spec_handle(),
    {
        self.inner
    }
}

} // verus!

use vstd::prelude::*;

verus! {

/// Keeps the traits of the library closed to other crates.
pub trait Sealed {}

} // verus!

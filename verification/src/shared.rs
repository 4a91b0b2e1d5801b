//! Values shared with the C++ side of the engine.
use vstd::prelude::*;

verus! {

/// A shape as a list of dimensions.
#[derive(Debug, Clone)]
pub struct TensorShape {
    pub dims: Vec<i32>,
}

/// The element types that the C++ side names.
#[allow(non_camel_case_types)]
#[derive(Debug, Clone, Copy, PartialEq, Eq)]
pub enum HalideTypes {
    halide_float,
    halide_double,
    halide_bool,
    halide_uint8_t,
    halide_uint16_t,
    halide_uint32_t,
    halide_uint64_t,
    halide_int8_t,
    halide_int16_t,
    halide_int32_t,
    halide_int64_t,
}

} // verus!

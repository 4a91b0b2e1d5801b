//! Element types of tensors, as the native engine describes them.
use vstd::prelude::*;

use crate::seal::Sealed;

verus! {

/// Kind of the elements of a tensor.
#[derive(Debug, Clone, Copy, PartialEq, Eq)]
pub enum HalideTypeCode {
    /// Signed integers
    Int,
    /// Unsigned integers
    UInt,
    /// Floating-point numbers
    Float,
    /// Opaque handles
    Handle,
    /// Brain floating-point numbers
    BFloat,
}

impl HalideTypeCode {
    /// The native code of the kind.
    pub open spec fn spec_code(self) -> u32 {
        match self {
            HalideTypeCode::Int => 0,
            HalideTypeCode::UInt => 1,
            HalideTypeCode::Float => 2,
            HalideTypeCode::Handle => 3,
            HalideTypeCode::BFloat => 4,
        }
    }

    /// Reads a native code as a kind; the native engine only hands out codes below 5.
    pub fn from_u32(code: u32) -> (c: HalideTypeCode)
        requires
            code < 5,
        ensures
            c.spec_code() == code,
    {
        if code == 0 {
            HalideTypeCode::Int
        } else if code == 1 {
            HalideTypeCode::UInt
        } else if code == 2 {
            HalideTypeCode::Float
        } else if code == 3 {
            HalideTypeCode::Handle
        } else {
            HalideTypeCode::BFloat
        }
    }

    /// The native code of the kind.
    pub fn to_u32(self) -> (c: u32)
        ensures
            c == self.spec_code(),
    {
        match self {
            HalideTypeCode::Int => 0,
            HalideTypeCode::UInt => 1,
            HalideTypeCode::Float => 2,
            HalideTypeCode::Handle => 3,
            HalideTypeCode::BFloat => 4,
        }
    }
}

/// Description of an element type: its kind, its width in bits, and its lanes.
#[derive(Debug, Clone, Copy, PartialEq, Eq)]
pub struct HalideTypeT {
    pub code: HalideTypeCode,
    pub bits: u8,
    pub lanes: u16,
}

impl HalideTypeT {
    /// An element type of the given kind and width, with one lane.
    pub fn new(code: HalideTypeCode, bits: u8) -> (t: HalideTypeT)
        ensures
            t == (HalideTypeT { code, bits, lanes: 1 }),
    {
        HalideTypeT { code, bits, lanes: 1 }
    }

    /// Whether two element types are the same.
    pub fn same_as(&self, other: &HalideTypeT) -> (b: bool)
        ensures
            b == (*self == *other),
    {
        self.code.to_u32() == other.code.to_u32() && self.bits == other.bits && self.lanes
            == other.lanes
    }
}

/// A Rust type that can be the element type of a tensor.
pub trait HalideType: Sealed {
    /// The element type that the Rust type stands for.
    spec fn spec_halide_type() -> HalideTypeT;

    /// The element type that the Rust type stands for.
    fn halide_type_of() -> (t: HalideTypeT)
        ensures
            t == Self::spec_halide_type(),
    ;

    /// The name of the Rust type.
    spec fn spec_element_name() -> &'static str;

    /// The name of the Rust type.
    fn element_name() -> (s: &'static str)
        ensures
            s == Self::spec_element_name(),
    ;
}

/// The element type of `T`.
pub fn halide_type_of<T: HalideType>() -> (t: HalideTypeT)
    ensures
        t == T::spec_halide_type(),
{
    T::halide_type_of()
}

impl Sealed for bool {}

impl HalideType for bool {
    open spec fn spec_halide_type() -> HalideTypeT {
        HalideTypeT { code: HalideTypeCode::UInt, bits: 1, lanes: 1 }
    }

    fn halide_type_of() -> (t: HalideTypeT) {
        HalideTypeT::new(HalideTypeCode::UInt, 1)
    }

    open spec fn spec_element_name() -> &'static str {
        "bool"
    }

    fn element_name() -> (s: &'static str) {
        "bool"
    }
}

impl Sealed for u8 {}

impl HalideType for u8 {
    open spec fn spec_halide_type() -> HalideTypeT {
        HalideTypeT { code: HalideTypeCode::UInt, bits: 8, lanes: 1 }
    }

    fn halide_type_of() -> (t: HalideTypeT) {
        HalideTypeT::new(HalideTypeCode::UInt, 8)
    }

    open spec fn spec_element_name() -> &'static str {
        "u8"
    }

    fn element_name() -> (s: &'static str) {
        "u8"
    }
}

impl Sealed for u16 {}

impl HalideType for u16 {
    open spec fn spec_halide_type() -> HalideTypeT {
        HalideTypeT { code: HalideTypeCode::UInt, bits: 16, lanes: 1 }
    }

    fn halide_type_of() -> (t: HalideTypeT) {
        HalideTypeT::new(HalideTypeCode::UInt, 16)
    }

    open spec fn spec_element_name() -> &'static str {
        "u16"
    }

    fn element_name() -> (s: &'static str) {
        "u16"
    }
}

impl Sealed for u32 {}

impl HalideType for u32 {
    open spec fn spec_halide_type() -> HalideTypeT {
        HalideTypeT { code: HalideTypeCode::UInt, bits: 32, lanes: 1 }
    }

    fn halide_type_of() -> (t: HalideTypeT) {
        HalideTypeT::new(HalideTypeCode::UInt, 32)
    }

    open spec fn spec_element_name() -> &'static str {
        "u32"
    }

    fn element_name() -> (s: &'static str) {
        "u32"
    }
}

impl Sealed for u64 {}

impl HalideType for u64 {
    open spec fn spec_halide_type() -> HalideTypeT {
        HalideTypeT { code: HalideTypeCode::UInt, bits: 64, lanes: 1 }
    }

    fn halide_type_of() -> (t: HalideTypeT) {
        HalideTypeT::new(HalideTypeCode::UInt, 64)
    }

    open spec fn spec_element_name() -> &'static str {
        "u64"
    }

    fn element_name() -> (s: &'static str) {
        "u64"
    }
}

impl Sealed for i8 {}

impl HalideType for i8 {
    open spec fn spec_halide_type() -> HalideTypeT {
        HalideTypeT { code: HalideTypeCode::Int, bits: 8, lanes: 1 }
    }

    fn halide_type_of() -> (t: HalideTypeT) {
        HalideTypeT::new(HalideTypeCode::Int, 8)
    }

    open spec fn spec_element_name() -> &'static str {
        "i8"
    }

    fn element_name() -> (s: &'static str) {
        "i8"
    }
}

impl Sealed for i16 {}

impl HalideType for i16 {
    open spec fn spec_halide_type() -> HalideTypeT {
        HalideTypeT { code: HalideTypeCode::Int, bits: 16, lanes: 1 }
    }

    fn halide_type_of() -> (t: HalideTypeT) {
        HalideTypeT::new(HalideTypeCode::Int, 16)
    }

    open spec fn spec_element_name() -> &'static str {
        "i16"
    }

    fn element_name() -> (s: &'static str) {
        "i16"
    }
}

impl Sealed for i32 {}

impl HalideType for i32 {
    open spec fn spec_halide_type() -> HalideTypeT {
        HalideTypeT { code: HalideTypeCode::Int, bits: 32, lanes: 1 }
    }

    fn halide_type_of() -> (t: HalideTypeT) {
        HalideTypeT::new(HalideTypeCode::Int, 32)
    }

    open spec fn spec_element_name() -> &'static str {
        "i32"
    }

    fn element_name() -> (s: &'static str) {
        "i32"
    }
}

impl Sealed for i64 {}

impl HalideType for i64 {
    open spec fn spec_halide_type() -> HalideTypeT {
        HalideTypeT { code: HalideTypeCode::Int, bits: 64, lanes: 1 }
    }

    fn halide_type_of() -> (t: HalideTypeT) {
        HalideTypeT::new(HalideTypeCode::Int, 64)
    }

    open spec fn spec_element_name() -> &'static str {
        "i64"
    }

    fn element_name() -> (s: &'static str) {
        "i64"
    }
}

/// The element type of 32-bit floating-point numbers.
pub fn halide_float32() -> (t: HalideTypeT)
    ensures
        t == (HalideTypeT { code: HalideTypeCode::Float, bits: 32, lanes: 1 }),
{
    HalideTypeT::new(HalideTypeCode::Float, 32)
}

/// The element type of 64-bit floating-point numbers.
pub fn halide_float64() -> (t: HalideTypeT)
    ensures
        t == (HalideTypeT { code: HalideTypeCode::Float, bits: 64, lanes: 1 }),
{
    HalideTypeT::new(HalideTypeCode::Float, 64)
}

/// Reading a kind back from its native code gives the kind.
pub proof fn lemma_halide_code_round_trip(c: HalideTypeCode)
    ensures
        c.spec_code() < 5,
        forall|d: HalideTypeCode| d.spec_code() == c.spec_code() ==> d == c,
{
}

/// Each kind is handed to the engine as the Halide type code of the same name:
/// signed integers 0, unsigned integers 1, floats 2, handles 3, brain floats 4.
pub proof fn lemma_halide_codes_match_engine()
    ensures
        HalideTypeCode::Int.spec_code() == 0 && HalideTypeCode::UInt.spec_code() == 1
            && HalideTypeCode::Float.spec_code() == 2 && HalideTypeCode::Handle.spec_code() == 3
            && HalideTypeCode::BFloat.spec_code() == 4,
{
}

/// The element type of each Rust integer type is one lane of integers as wide as
/// the Rust type, unsigned for the unsigned types and signed for the signed ones; a
/// `bool` is one unsigned bit.
pub proof fn lemma_halide_types_of_integers()
    ensures
        <bool as HalideType>::spec_halide_type() == (HalideTypeT { code: HalideTypeCode::UInt, bits: 1, lanes: 1 }),
        <u8 as HalideType>::spec_halide_type() == (HalideTypeT { code: HalideTypeCode::UInt, bits: 8, lanes: 1 }),
        <u16 as HalideType>::spec_halide_type() == (HalideTypeT { code: HalideTypeCode::UInt, bits: 16, lanes: 1 }),
        <u32 as HalideType>::spec_halide_type() == (HalideTypeT { code: HalideTypeCode::UInt, bits: 32, lanes: 1 }),
        <u64 as HalideType>::spec_halide_type() == (HalideTypeT { code: HalideTypeCode::UInt, bits: 64, lanes: 1 }),
        <i8 as HalideType>::spec_halide_type() == (HalideTypeT { code: HalideTypeCode::Int, bits: 8, lanes: 1 }),
        <i16 as HalideType>::spec_halide_type() == (HalideTypeT { code: HalideTypeCode::Int, bits: 16, lanes: 1 }),
        <i32 as HalideType>::spec_halide_type() == (HalideTypeT { code: HalideTypeCode::Int, bits: 32, lanes: 1 }),
        <i64 as HalideType>::spec_halide_type() == (HalideTypeT { code: HalideTypeCode::Int, bits: 64, lanes: 1 }),
{
}

} // verus!

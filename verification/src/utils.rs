//! The choices of the command-line tools: every backend, and a level that reads as a
//! precision or a power mode.
use vstd::prelude::*;

use crate::backend::{MODE_HIGH, MODE_LOW, MODE_NORMAL};
use crate::schedule::{
    FORWARD_ALL, FORWARD_AUTO, FORWARD_CPU, FORWARD_METAL, FORWARD_NN, FORWARD_OPENCL,
    FORWARD_OPENGL, FORWARD_VULKAN,
};

verus! {

/// Every backend that the engine knows.
#[derive(Debug, Clone, Copy, PartialEq, Eq)]
pub enum ForwardType {
    All,
    Auto,
    CPU,
    Metal,
    OpenCL,
    OpenGL,
    Vulkan,
    CoreML,
}

impl ForwardType {
    /// The native code of the backend.
    pub open spec fn spec_code(self) -> u32 {
        match self {
            ForwardType::Auto => FORWARD_AUTO,
            ForwardType::All => FORWARD_ALL,
            ForwardType::CPU => FORWARD_CPU,
            ForwardType::Metal => FORWARD_METAL,
            ForwardType::OpenCL => FORWARD_OPENCL,
            ForwardType::OpenGL => FORWARD_OPENGL,
            ForwardType::Vulkan => FORWARD_VULKAN,
            ForwardType::CoreML => FORWARD_NN,
        }
    }

    /// The native code of the backend.
    pub fn to_forward_type(&self) -> (c: u32)
        ensures
            c == self.spec_code(),
    {
        match self {
            ForwardType::Auto => FORWARD_AUTO,
            ForwardType::All => FORWARD_ALL,
            ForwardType::CPU => FORWARD_CPU,
            ForwardType::Metal => FORWARD_METAL,
            ForwardType::OpenCL => FORWARD_OPENCL,
            ForwardType::OpenGL => FORWARD_OPENGL,
            ForwardType::Vulkan => FORWARD_VULKAN,
            ForwardType::CoreML => FORWARD_NN,
        }
    }
}

impl Default for ForwardType {
    fn default() -> (t: Self)
        ensures
            t == ForwardType::Auto,
    {
        ForwardType::Auto
    }
}

/// A level: low, normal or high.
#[derive(Debug, Clone, Copy, PartialEq, Eq)]
pub enum Modes {
    Low,
    Normal,
    High,
}

impl Modes {
    /// The native code of the level, which precision and power modes share.
    pub open spec fn spec_code(self) -> u32 {
        match self {
            Modes::Low => MODE_LOW,
            Modes::Normal => MODE_NORMAL,
            Modes::High => MODE_HIGH,
        }
    }

    /// The native code of the precision mode of the level.
    pub fn to_precision_mode(&self) -> (c: u32)
        ensures
            c == self.spec_code(),
    {
        match self {
            Modes::Low => MODE_LOW,
            Modes::Normal => MODE_NORMAL,
            Modes::High => MODE_HIGH,
        }
    }

    /// The native code of the power mode of the level.
    pub fn to_power_mode(&self) -> (c: u32)
        ensures
            c == self.spec_code(),
    {
        match self {
            Modes::Low => MODE_LOW,
            Modes::Normal => MODE_NORMAL,
            Modes::High => MODE_HIGH,
        }
    }
}

/// Different backends have different native codes.
pub proof fn lemma_forward_codes_distinct(a: ForwardType, b: ForwardType)
    ensures
        a.spec_code() == b.spec_code() ==> a == b,
{
}

/// Each backend of the command-line tools is handed to the engine as the engine's
/// forward type of the same name: CPU 0, Metal 1, OpenCL 3, automatic 4, CoreML
/// (the engine's NN backend) 5, OpenGL 6, Vulkan 7, all 12.
pub proof fn lemma_forward_codes_match_engine()
    ensures
        ForwardType::CPU.spec_code() == 0 && ForwardType::Metal.spec_code() == 1
            && ForwardType::OpenCL.spec_code() == 3 && ForwardType::Auto.spec_code() == 4
            && ForwardType::CoreML.spec_code() == 5 && ForwardType::OpenGL.spec_code() == 6
            && ForwardType::Vulkan.spec_code() == 7 && ForwardType::All.spec_code() == 12,
{
}

} // verus!

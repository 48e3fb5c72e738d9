//! Memory usages of the engine's buffers.
use vstd::prelude::*;
use crate::memory::{MEMORY_PROPERTY_DEVICE_LOCAL, MEMORY_PROPERTY_HOST_COHERENT, MEMORY_PROPERTY_HOST_VISIBLE};

verus! {

/// What a buffer's memory is used for.
#[derive(PartialEq, Eq, Structural, Clone, Copy, Debug)]
pub enum MemoryUsage {
    /// writable by CPU, readable by GPU
    CpuToGpu,
    /// only accessible GPU-side
    GpuOnly,
}

/// The memory properties that a usage asks for.
pub open spec fn usage_flags(usage: MemoryUsage) -> u32 {
    match usage {
        MemoryUsage::CpuToGpu => MEMORY_PROPERTY_HOST_VISIBLE | MEMORY_PROPERTY_HOST_COHERENT,
        MemoryUsage::GpuOnly => MEMORY_PROPERTY_DEVICE_LOCAL,
    }
}

impl MemoryUsage {
    /// Finds the best memory flags for the intended usage: memory that the
    /// CPU writes is host visible and coherent (no explicit flushing), the
    /// rest is device local.
    pub fn memory_property_flags(&self) -> (flags: u32)
        ensures
            flags == usage_flags(*self),
    {
        match self {
            MemoryUsage::CpuToGpu => MEMORY_PROPERTY_HOST_VISIBLE | MEMORY_PROPERTY_HOST_COHERENT,
            MemoryUsage::GpuOnly => MEMORY_PROPERTY_DEVICE_LOCAL,
        }
    }
}

} // verus!

//! Descriptor sets: the kinds of descriptor the engine binds, the flags and
//! usages that each kind implies, and the offsets at which per-frame and
//! per-instance data are bound.
use vstd::prelude::*;
use crate::buffers::MemoryUsage;

verus! {

/// `VK_SHADER_STAGE_VERTEX_BIT`
pub const SHADER_STAGE_VERTEX: u32 = 0x1;

/// `VK_SHADER_STAGE_FRAGMENT_BIT`
pub const SHADER_STAGE_FRAGMENT: u32 = 0x10;

/// `VK_SHADER_STAGE_COMPUTE_BIT`
pub const SHADER_STAGE_COMPUTE: u32 = 0x20;

/// `VK_DESCRIPTOR_TYPE_UNIFORM_BUFFER`
pub const DESCRIPTOR_TYPE_UNIFORM_BUFFER: i32 = 6;

/// `VK_DESCRIPTOR_TYPE_STORAGE_BUFFER`
pub const DESCRIPTOR_TYPE_STORAGE_BUFFER: i32 = 7;

/// `VK_DESCRIPTOR_TYPE_UNIFORM_BUFFER_DYNAMIC`
pub const DESCRIPTOR_TYPE_UNIFORM_BUFFER_DYNAMIC: i32 = 8;

/// `VK_DESCRIPTOR_TYPE_STORAGE_BUFFER_DYNAMIC`
pub const DESCRIPTOR_TYPE_STORAGE_BUFFER_DYNAMIC: i32 = 9;

/// `VK_BUFFER_USAGE_UNIFORM_BUFFER_BIT`
pub const BUFFER_USAGE_UNIFORM_BUFFER: u32 = 0x10;

/// `VK_BUFFER_USAGE_STORAGE_BUFFER_BIT`
pub const BUFFER_USAGE_STORAGE_BUFFER: u32 = 0x20;

/// `VK_BUFFER_USAGE_VERTEX_BUFFER_BIT`
pub const BUFFER_USAGE_VERTEX_BUFFER: u32 = 0x80;

/// `VK_DESCRIPTOR_POOL_CREATE_FREE_DESCRIPTOR_SET_BIT`
pub const DESCRIPTOR_POOL_CREATE_FREE_DESCRIPTOR_SET: u32 = 0x1;

/// The kind of a descriptor; uniform descriptors carry the shader stages
/// that see them.
#[derive(Clone, Copy, PartialEq, Eq, Structural, Debug)]
pub enum DescriptorVariant {
    UniformStatic(u32),
    UniformDynamic(u32),
    Storage,
    StorageDynamic,
}

impl DescriptorVariant {
    /// The shader stages of a uniform descriptor; none for storage.
    pub fn stage_flags(&self) -> (flags: u32)
        ensures
            flags == match *self {
                DescriptorVariant::UniformStatic(f) => f,
                DescriptorVariant::UniformDynamic(f) => f,
                _ => 0,
            },
    {
        match self {
            DescriptorVariant::UniformStatic(flags) => *flags,
            DescriptorVariant::UniformDynamic(flags) => *flags,
            _ => 0,
        }
    }

    /// The Vulkan descriptor type of this kind.
    pub fn descriptor_type(&self) -> (t: i32)
        ensures
            t == match *self {
                DescriptorVariant::UniformStatic(_) => DESCRIPTOR_TYPE_UNIFORM_BUFFER,
                DescriptorVariant::UniformDynamic(_) => DESCRIPTOR_TYPE_UNIFORM_BUFFER_DYNAMIC,
                DescriptorVariant::Storage => DESCRIPTOR_TYPE_STORAGE_BUFFER,
                DescriptorVariant::StorageDynamic => DESCRIPTOR_TYPE_STORAGE_BUFFER_DYNAMIC,
            },
    {
        match self {
            DescriptorVariant::UniformStatic(_) => DESCRIPTOR_TYPE_UNIFORM_BUFFER,
            DescriptorVariant::UniformDynamic(_) => DESCRIPTOR_TYPE_UNIFORM_BUFFER_DYNAMIC,
            DescriptorVariant::Storage => DESCRIPTOR_TYPE_STORAGE_BUFFER,
            DescriptorVariant::StorageDynamic => DESCRIPTOR_TYPE_STORAGE_BUFFER_DYNAMIC,
        }
    }

    /// The buffer usage that backs this kind.
    pub fn buffer_usage(&self) -> (usage: u32)
        ensures
            usage == match *self {
                DescriptorVariant::UniformStatic(_) | DescriptorVariant::UniformDynamic(_) =>
                    BUFFER_USAGE_UNIFORM_BUFFER,
                _ => BUFFER_USAGE_STORAGE_BUFFER,
            },
    {
        match self {
            DescriptorVariant::UniformStatic(_) => BUFFER_USAGE_UNIFORM_BUFFER,
            DescriptorVariant::UniformDynamic(_) => BUFFER_USAGE_UNIFORM_BUFFER,
            DescriptorVariant::Storage => BUFFER_USAGE_STORAGE_BUFFER,
            DescriptorVariant::StorageDynamic => BUFFER_USAGE_STORAGE_BUFFER,
        }
    }

    /// The memory usage of a uniform descriptor's buffer: written by the
    /// CPU, read by the GPU (storage descriptors have none yet).
    pub fn memory_usage(&self) -> (usage: MemoryUsage)
        requires
            self.is_uniform(),
        ensures
            usage == MemoryUsage::CpuToGpu,
    {
        MemoryUsage::CpuToGpu
    }

    /// A uniform descriptor, static or dynamic.
    pub open spec fn is_uniform(&self) -> bool {
        self is UniformStatic || self is UniformDynamic
    }
}

/// How often a descriptor set is bound.
#[derive(Clone, Copy, PartialEq, Eq, Structural, Debug)]
pub enum DescriptorSetBindingFrequency {
    Global,
    PerPass,
    PerFrame,
}

impl DescriptorSetBindingFrequency {
    /// The pool flags for sets bound at this frequency: only per-frame sets
    /// may be freed individually.
    pub fn descriptor_flag_bits(&self) -> (flags: u32)
        ensures
            flags == if *self == DescriptorSetBindingFrequency::PerFrame {
                DESCRIPTOR_POOL_CREATE_FREE_DESCRIPTOR_SET
            } else {
                0
            },
    {
        match self {
            DescriptorSetBindingFrequency::Global => 0,
            DescriptorSetBindingFrequency::PerPass => 0,
            DescriptorSetBindingFrequency::PerFrame => DESCRIPTOR_POOL_CREATE_FREE_DESCRIPTOR_SET,
        }
    }
}

/// The dynamic offsets for binding instance `dyn_instance_num` of a
/// uniform buffer of `T`: none for a static buffer, one `T` per instance
/// before it for a dynamic one.
pub fn dynamic_offsets<T>(variant: DescriptorVariant, dyn_instance_num: u32) -> (offsets: Vec<u32>)
    requires
        variant.is_uniform(),
        variant is UniformDynamic ==> (vstd::layout::size_of::<T>() as u32) * dyn_instance_num
            <= u32::MAX,
    ensures
        variant is UniformStatic ==> offsets@ == Seq::<u32>::empty(),
        variant is UniformDynamic ==> offsets@ == seq![
            ((vstd::layout::size_of::<T>() as u32) * dyn_instance_num) as u32,
        ],
{
    match variant {
        DescriptorVariant::UniformDynamic(_) => {
            let size = core::mem::size_of::<T>() as u32;
            let v = vec![size * dyn_instance_num];
            proof {
                assert(v@ =~= seq![((vstd::layout::size_of::<T>() as u32) * dyn_instance_num) as u32]);
            }
            v
        },
        _ => {
            let v: Vec<u32> = Vec::new();
            v
        },
    }
}

/// The byte offset of element `offset_count` in a buffer of `T`.
pub fn element_offset<T>(offset_count: u64) -> (offset: u64)
    requires
        vstd::layout::size_of::<T>() * offset_count <= u64::MAX,
    ensures
        offset == vstd::layout::size_of::<T>() * offset_count,
{
    core::mem::size_of::<T>() as u64 * offset_count
}

/// The size of a buffer that holds `data_multiplier` packed elements.
pub fn packed_buffer_size(packed_range_single: u64, data_multiplier: u32) -> (size: u64)
    requires
        packed_range_single * data_multiplier <= u64::MAX,
    ensures
        size == packed_range_single * data_multiplier,
{
    packed_range_single * (data_multiplier as u64)
}

/// The dynamic offset of frame `frame_index` in a per-frame buffer of `F`.
pub fn frame_dynamic_offset<F>(frame_index: usize) -> (offset: u32)
    requires
        vstd::layout::size_of::<F>() * frame_index <= usize::MAX,
    ensures
        offset == (vstd::layout::size_of::<F>() * frame_index) as u32,
{
    (core::mem::size_of::<F>() * frame_index) as u32
}

/// The dynamic offset of frame `frame_index` in a buffer that holds one `G`
/// followed by one `F` per frame.
pub fn global_and_frame_offset<G, F>(frame_index: usize) -> (offset: u32)
    requires
        (vstd::layout::size_of::<F>() as u32) * (frame_index as u32) <= u32::MAX,
        (vstd::layout::size_of::<G>() as u32) + (vstd::layout::size_of::<F>() as u32) * (
        frame_index as u32) <= u32::MAX,
    ensures
        offset == (vstd::layout::size_of::<G>() as u32) + (vstd::layout::size_of::<F>() as u32)
            * (frame_index as u32),
{
    core::mem::size_of::<G>() as u32 + core::mem::size_of::<F>() as u32 * frame_index as u32
}

} // verus!

//! GPU memory decisions: which memory properties a usage asks for, which
//! memory type of a device satisfies a buffer or an image, how uniform data
//! is laid out at the device's minimum offset alignment, and which depth
//! format a device supports.
use vstd::prelude::*;

verus! {

/// `VK_MEMORY_PROPERTY_DEVICE_LOCAL_BIT`
pub const MEMORY_PROPERTY_DEVICE_LOCAL: u32 = 0x1;

/// `VK_MEMORY_PROPERTY_HOST_VISIBLE_BIT`
pub const MEMORY_PROPERTY_HOST_VISIBLE: u32 = 0x2;

/// `VK_MEMORY_PROPERTY_HOST_COHERENT_BIT`
pub const MEMORY_PROPERTY_HOST_COHERENT: u32 = 0x4;

/// `VK_MEMORY_PROPERTY_HOST_CACHED_BIT`
pub const MEMORY_PROPERTY_HOST_CACHED: u32 = 0x8;

/// `VK_MEMORY_PROPERTY_LAZILY_ALLOCATED_BIT`
pub const MEMORY_PROPERTY_LAZILY_ALLOCATED: u32 = 0x10;

/// The most memory types a device reports (`VK_MAX_MEMORY_TYPES`).
pub const MAX_MEMORY_TYPES: usize = 32;

/// Whether a region of memory is written once or rewritten every frame.
#[derive(PartialEq, Eq, Structural, Clone, Copy, Debug)]
pub enum MemType {
    Persistent,
    Dynamic,
}

/// What a piece of GPU memory is used for.
#[derive(PartialEq, Eq, Structural, Clone, Copy, Debug)]
pub enum MemoryUsage {
    /// GPU memory directly writable by from the CPU. For uniform & dynamic
    /// vertex/index and smaller data (generally up to 256MB).
    GpuMemCpuWritable,
    /// Only accessible GPU-side.
    GpuOnly,
    /// Reads over PCI-bus. use for staging buffers used to allocate static
    /// resources or if GpuMemCpuWritable is unsupported
    CpuMemGpuVisible,
    /// Save VRAM by lazily allocating memory for big targets that are never
    /// stored to, like MSAA & depth images.
    GpuOnlyLazy,
}

/// The memory properties that a usage asks for: memory that the CPU writes
/// directly is host visible, and host coherent so that no explicit flush is
/// needed; memory only the GPU touches is device local.
pub open spec fn usage_flags(usage: MemoryUsage) -> u32 {
    match usage {
        MemoryUsage::GpuMemCpuWritable => MEMORY_PROPERTY_DEVICE_LOCAL
            | MEMORY_PROPERTY_HOST_VISIBLE | MEMORY_PROPERTY_HOST_COHERENT,
        MemoryUsage::GpuOnly => MEMORY_PROPERTY_DEVICE_LOCAL,
        MemoryUsage::CpuMemGpuVisible => MEMORY_PROPERTY_HOST_VISIBLE
            | MEMORY_PROPERTY_HOST_COHERENT,
        MemoryUsage::GpuOnlyLazy => MEMORY_PROPERTY_DEVICE_LOCAL
            | MEMORY_PROPERTY_LAZILY_ALLOCATED,
    }
}

impl MemoryUsage {
    /// Finds the best memory flags for the intended usage
    pub fn memory_property_flags(&self) -> (flags: u32)
        ensures
            flags == usage_flags(*self),
    {
        match self {
            MemoryUsage::GpuMemCpuWritable => MEMORY_PROPERTY_DEVICE_LOCAL
                | MEMORY_PROPERTY_HOST_VISIBLE | MEMORY_PROPERTY_HOST_COHERENT,
            MemoryUsage::GpuOnly => MEMORY_PROPERTY_DEVICE_LOCAL,
            MemoryUsage::CpuMemGpuVisible => MEMORY_PROPERTY_HOST_VISIBLE
                | MEMORY_PROPERTY_HOST_COHERENT,
            MemoryUsage::GpuOnlyLazy => MEMORY_PROPERTY_DEVICE_LOCAL
                | MEMORY_PROPERTY_LAZILY_ALLOCATED,
        }
    }
}

/// The range that one element of `size` bytes takes in a buffer whose
/// elements start at multiples of `min_align`, as the engine computes it:
/// it adds `min_align` to nothing while the range is below both the size
/// and the alignment, so it is `min_align` when both are positive and
/// nothing otherwise.
pub open spec fn packed_range_spec(size: nat, min_align: nat) -> nat {
    if size > 0 && min_align > 0 {
        min_align
    } else {
        0
    }
}

/// The range that one `T` takes in a buffer whose elements start at
/// multiples of `min_align`.
pub fn packed_range_from_min_align<T>(min_align: u64) -> (packed_range: u64)
    ensures
        packed_range == packed_range_spec(vstd::layout::size_of::<T>(), min_align as nat),
{
    let mem_range = core::mem::size_of::<T>() as u64;
    let mut packed_range: u64 = 0;
    while packed_range < mem_range && packed_range < min_align
        invariant
            mem_range == vstd::layout::size_of::<T>(),
            packed_range == 0 || (packed_range == min_align && min_align > 0 && mem_range > 0),
        decreases (if packed_range == 0 {
            1int
        } else {
            0int
        }),
    {
        packed_range += min_align;
    }
    packed_range
}

/// The offset of the slot for frame `frame_index` in a buffer of packed
/// `G` elements.
pub fn frames_packed_offset<G>(min_align: u64, frame_index: u64) -> (offset: u64)
    requires
        packed_range_spec(vstd::layout::size_of::<G>(), min_align as nat) * frame_index
            <= u64::MAX,
    ensures
        offset == packed_range_spec(vstd::layout::size_of::<G>(), min_align as nat)
            * frame_index,
{
    let mem_range = packed_range_from_min_align::<G>(min_align);
    mem_range * frame_index
}

/// The size of a uniform buffer that holds one packed `G` and one packed
/// `F` for each of `frames` frames.
pub fn uniform_buffer_packed_size<G, F>(min_align: u64, frames: u64) -> (size: u64)
    requires
        packed_range_spec(vstd::layout::size_of::<G>(), min_align as nat) + packed_range_spec(
            vstd::layout::size_of::<F>(),
            min_align as nat,
        ) * frames <= u64::MAX,
    ensures
        size == packed_range_spec(vstd::layout::size_of::<G>(), min_align as nat)
            + packed_range_spec(vstd::layout::size_of::<F>(), min_align as nat) * frames,
{
    let gb_packed_align = packed_range_from_min_align::<G>(min_align);
    let fb_packed_align = packed_range_from_min_align::<F>(min_align);
    proof {
        assert(fb_packed_align * frames <= u64::MAX) by (nonlinear_arith)
            requires
                gb_packed_align + fb_packed_align * frames <= u64::MAX,
                gb_packed_align >= 0,
        ;
    }
    gb_packed_align + fb_packed_align * frames
}

/// Where the `T` of frame `frame_index` lies in a buffer that holds one
/// packed `T` per frame: its offset and its range (one `T`).
pub fn frame_slice<T>(min_align: u64, frame_index: u64) -> (slice: (u64, u64))
    requires
        packed_range_spec(vstd::layout::size_of::<T>(), min_align as nat) * frame_index
            <= u64::MAX,
    ensures
        slice.0 == packed_range_spec(vstd::layout::size_of::<T>(), min_align as nat)
            * frame_index,
        slice.1 == vstd::layout::size_of::<T>(),
{
    let offset = frames_packed_offset::<T>(min_align, frame_index);
    vstd::layout::layout_for_type_is_valid::<T>();
    (offset, core::mem::size_of::<T>() as u64)
}

/// The slices of two different frames do not overlap, and the slice of
/// every frame below `j` ends within the first `j` packed ranges (so within
/// a buffer of `j` frames), as long as one element fits in the alignment:
/// the packed range is the alignment itself.
pub proof fn law_frame_slices_are_disjoint(size: nat, min_align: nat, i: nat, j: nat)
    requires
        size <= min_align,
        i < j,
    ensures
        packed_range_spec(size, min_align) * i + size <= packed_range_spec(size, min_align) * j,
{
    if size > 0 && min_align > 0 {
        assert(min_align * i + min_align <= min_align * j) by (nonlinear_arith)
            requires
                i < j,
        ;
    }
}

/// How much memory a buffer needs, and in which memory types it may live.
pub struct MemoryRequirements {
    pub size: u64,
    pub alignment: u64,
    /// Bit `i` is set when memory type `i` may hold the resource.
    pub memory_type_bits: u32,
}

/// The memory types of a device: the property flags of each.
pub struct MemoryProperties {
    pub memory_type_count: u32,
    /// The property flags of memory type `i`, for each of the device's slots.
    pub memory_type_flags: Vec<u32>,
}

/// Memory type `i` may hold the resource and has all of `flags`.
pub open spec fn memory_type_fits(bits: u32, type_flags: u32, flags: u32, i: int) -> bool {
    (1u32 << (i as u32)) & bits != 0 && type_flags & flags == flags
}

/// The first memory type at or after `i`, below `count`, that fits.
pub open spec fn first_fitting_type(
    bits: u32,
    type_flags: Seq<u32>,
    count: int,
    flags: u32,
    i: int,
) -> Option<int>
    decreases count - i,
{
    if i < 0 || i >= count || i >= type_flags.len() {
        None
    } else if memory_type_fits(bits, type_flags[i], flags, i) {
        Some(i)
    } else {
        first_fitting_type(bits, type_flags, count, flags, i + 1)
    }
}

/// GPUs have different types of memory to allocate from.
/// This function finds the right type of memory to use based on the provided
/// parameters: the first of the device's memory types that the requirements
/// allow and that has every flag asked for.
pub fn find_memory_type_index(
    memory_requirements: &MemoryRequirements,
    memory_properties: &MemoryProperties,
    flags: u32,
) -> (index: Option<u32>)
    requires
        memory_properties.memory_type_count <= memory_properties.memory_type_flags.len()
            <= MAX_MEMORY_TYPES,
    ensures
        match index {
            Some(i) => first_fitting_type(
                memory_requirements.memory_type_bits,
                memory_properties.memory_type_flags@,
                memory_properties.memory_type_count as int,
                flags,
                0,
            ) == Some(i as int),
            None => first_fitting_type(
                memory_requirements.memory_type_bits,
                memory_properties.memory_type_flags@,
                memory_properties.memory_type_count as int,
                flags,
                0,
            ) is None,
        },
{
    let bits = memory_requirements.memory_type_bits;
    let types = &memory_properties.memory_type_flags;
    let count = memory_properties.memory_type_count as usize;
    let mut i: usize = 0;
    while i < count
        invariant
            i <= count,
            count == memory_properties.memory_type_count,
            bits == memory_requirements.memory_type_bits,
            types@ == memory_properties.memory_type_flags@,
            count <= types.len() <= MAX_MEMORY_TYPES,
            first_fitting_type(bits, types@, count as int, flags, i as int) == first_fitting_type(
                bits,
                types@,
                count as int,
                flags,
                0,
            ),
        decreases count - i,
    {
        if (1u32 << (i as u32)) & bits != 0 && types[i] & flags == flags {
            proof {
                assert(memory_type_fits(bits, types@[i as int], flags, i as int));
                assert(first_fitting_type(bits, types@, count as int, flags, i as int) == Some(
                    i as int,
                ));
            }
            return Some(i as u32);
        }
        i += 1;
    }
    None
}

/// `VK_IMAGE_TILING_OPTIMAL`
pub const IMAGE_TILING_OPTIMAL: i32 = 0;

/// `VK_IMAGE_TILING_LINEAR`
pub const IMAGE_TILING_LINEAR: i32 = 1;

/// `VK_FORMAT_FEATURE_DEPTH_STENCIL_ATTACHMENT_BIT`
pub const FORMAT_FEATURE_DEPTH_STENCIL_ATTACHMENT: u32 = 0x200;

/// `VK_FORMAT_D16_UNORM`
pub const FORMAT_D16_UNORM: i32 = 124;

/// `VK_FORMAT_D32_SFLOAT`
pub const FORMAT_D32_SFLOAT: i32 = 126;

/// `VK_FORMAT_D24_UNORM_S8_UINT`
pub const FORMAT_D24_UNORM_S8_UINT: i32 = 129;

/// `VK_FORMAT_D32_SFLOAT_S8_UINT`
pub const FORMAT_D32_SFLOAT_S8_UINT: i32 = 130;

/// The features that a device supports for a format, per tiling.
#[derive(Clone, Copy)]
pub struct FormatProperties {
    pub linear_tiling_features: u32,
    pub optimal_tiling_features: u32,
}

/// A format with these properties supports `features` under `tiling`.
pub open spec fn format_supports(props: FormatProperties, tiling: i32, features: u32) -> bool {
    ||| tiling == IMAGE_TILING_LINEAR && props.linear_tiling_features & features == features
    ||| tiling == IMAGE_TILING_OPTIMAL && props.optimal_tiling_features & features == features
}

/// The first candidate at or after `k` that supports `features`.
pub open spec fn first_supported_from(
    formats: Seq<i32>,
    props: Seq<FormatProperties>,
    tiling: i32,
    features: u32,
    k: int,
) -> Option<i32>
    decreases formats.len() - k,
{
    if k < 0 || k >= formats.len() || k >= props.len() {
        None
    } else if format_supports(props[k], tiling, features) {
        Some(formats[k])
    } else {
        first_supported_from(formats, props, tiling, features, k + 1)
    }
}

/// The first of the possible formats that supports `features` under
/// `tiling`; `properties[k]` are the device's properties of
/// `possible_formats[k]`.
pub fn find_supported_format(
    possible_formats: &Vec<i32>,
    properties: &Vec<FormatProperties>,
    tiling: i32,
    features: u32,
) -> (format: Option<i32>)
    requires
        possible_formats.len() == properties.len(),
    ensures
        format == first_supported_from(possible_formats@, properties@, tiling, features, 0),
{
    let mut k: usize = 0;
    while k < possible_formats.len()
        invariant
            k <= possible_formats.len(),
            possible_formats.len() == properties.len(),
            first_supported_from(possible_formats@, properties@, tiling, features, k as int)
                == first_supported_from(possible_formats@, properties@, tiling, features, 0),
        decreases possible_formats.len() - k,
    {
        let props = properties[k];
        if tiling == IMAGE_TILING_LINEAR && props.linear_tiling_features & features == features {
            return Some(possible_formats[k]);
        } else if tiling == IMAGE_TILING_OPTIMAL && props.optimal_tiling_features & features
            == features {
            return Some(possible_formats[k]);
        }
        k += 1;
    }
    None
}

/// The depth formats to try, best first.
pub fn depth_format_candidates() -> (formats: Vec<i32>)
    ensures
        formats@ == seq![FORMAT_D32_SFLOAT, FORMAT_D32_SFLOAT_S8_UINT, FORMAT_D24_UNORM_S8_UINT],
{
    let formats = vec![FORMAT_D32_SFLOAT, FORMAT_D32_SFLOAT_S8_UINT, FORMAT_D24_UNORM_S8_UINT];
    proof {
        assert(formats@ =~= seq![
            FORMAT_D32_SFLOAT,
            FORMAT_D32_SFLOAT_S8_UINT,
            FORMAT_D24_UNORM_S8_UINT,
        ]);
    }
    formats
}

/// The best depth format that the device supports as an optimally tiled
/// depth-stencil attachment; `properties` are the device's properties of
/// the [`depth_format_candidates`].
pub fn find_depth_image_format(properties: &Vec<FormatProperties>) -> (format: i32)
    requires
        properties.len() == 3,
        first_supported_from(
            seq![FORMAT_D32_SFLOAT, FORMAT_D32_SFLOAT_S8_UINT, FORMAT_D24_UNORM_S8_UINT],
            properties@,
            IMAGE_TILING_OPTIMAL,
            FORMAT_FEATURE_DEPTH_STENCIL_ATTACHMENT,
            0,
        ) is Some,
    ensures
        Some(format) == first_supported_from(
            seq![FORMAT_D32_SFLOAT, FORMAT_D32_SFLOAT_S8_UINT, FORMAT_D24_UNORM_S8_UINT],
            properties@,
            IMAGE_TILING_OPTIMAL,
            FORMAT_FEATURE_DEPTH_STENCIL_ATTACHMENT,
            0,
        ),
{
    let candidates = depth_format_candidates();
    find_supported_format(
        &candidates,
        properties,
        IMAGE_TILING_OPTIMAL,
        FORMAT_FEATURE_DEPTH_STENCIL_ATTACHMENT,
    ).unwrap()
}

/// The packed range is nothing or one whole `min_align`: a multiple of the
/// alignment in either case.
pub proof fn law_packed_range_is_aligned(size: nat, min_align: nat)
    ensures
        packed_range_spec(size, min_align) == 0 || packed_range_spec(size, min_align) == min_align,
        min_align > 0 ==> packed_range_spec(size, min_align) % min_align == 0,
{
    if min_align > 0 {
        if size > 0 {
            vstd::arithmetic::div_mod::lemma_mod_self_0(min_align as int);
        } else {
            vstd::arithmetic::div_mod::lemma_small_mod(0, min_align);
        }
    }
}

/// The memory type found satisfies the requirements and the flags, and no
/// earlier memory type does.
pub proof fn law_found_memory_type_fits(
    bits: u32,
    type_flags: Seq<u32>,
    count: int,
    flags: u32,
    start: int,
)
    requires
        0 <= start,
    ensures
        match first_fitting_type(bits, type_flags, count, flags, start) {
            Some(i) => start <= i < count && i < type_flags.len() && memory_type_fits(
                bits,
                type_flags[i],
                flags,
                i,
            ) && forall|j: int|
                start <= j < i ==> !#[trigger] memory_type_fits(bits, type_flags[j], flags, j),
            None => forall|j: int|
                start <= j < count && j < type_flags.len() ==> !#[trigger] memory_type_fits(
                    bits,
                    type_flags[j],
                    flags,
                    j,
                ),
        },
    decreases count - start,
{
    if start < count && start < type_flags.len() && !memory_type_fits(
        bits,
        type_flags[start],
        flags,
        start,
    ) {
        law_found_memory_type_fits(bits, type_flags, count, flags, start + 1);
    }
}

/// The memory type found is allowed by the requirements (its bit is set)
/// and has every flag asked for; no earlier allowed type has them all; and
/// where none is found, no allowed type below the count has them all.
pub proof fn law_found_memory_type_has_all_flags(
    bits: u32,
    type_flags: Seq<u32>,
    count: int,
    flags: u32,
)
    ensures
        match first_fitting_type(bits, type_flags, count, flags, 0) {
            Some(i) => 0 <= i < count && i < type_flags.len() && (1u32 << (i as u32)) & bits != 0
                && type_flags[i] & flags == flags && forall|j: int|
                0 <= j < i ==> !((1u32 << (j as u32)) & bits != 0 && #[trigger] type_flags[j]
                    & flags == flags),
            None => forall|j: int|
                0 <= j < count && j < type_flags.len() ==> !((1u32 << (j as u32)) & bits != 0
                    && #[trigger] type_flags[j] & flags == flags),
        },
{
    law_found_memory_type_fits(bits, type_flags, count, flags, 0);
    match first_fitting_type(bits, type_flags, count, flags, 0) {
        Some(i) => {
            assert forall|j: int| 0 <= j < i implies !((1u32 << (j as u32)) & bits != 0
                && #[trigger] type_flags[j] & flags == flags) by {
                assert(!memory_type_fits(bits, type_flags[j], flags, j));
            }
        },
        None => {
            assert forall|j: int| 0 <= j < count && j < type_flags.len() implies !((1u32 << (
            j as u32)) & bits != 0 && #[trigger] type_flags[j] & flags == flags) by {
                assert(!memory_type_fits(bits, type_flags[j], flags, j));
            }
        },
    }
}

} // verus!

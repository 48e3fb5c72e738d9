//! Choosing a physical device: which queue families it offers, whether it
//! supports the required extensions and layers, and which device is picked.
use vstd::prelude::*;
use crate::text::{chars_eq, chars_of};
use crate::config::required_device_extensions;

verus! {

/// `VK_QUEUE_GRAPHICS_BIT`
pub const QUEUE_GRAPHICS: u32 = 0x1;

/// The queue families found on a device.
pub struct QueueFamilyIndices {
    pub graphics_queue: Option<u32>,
    pub present_queue: Option<u32>,
}

impl QueueFamilyIndices {
    /// The search is complete once all queues are found: a graphics queue
    /// and a presentation queue.
    pub fn is_complete(&self) -> (b: bool)
        ensures
            b == (self.graphics_queue.is_some() && self.present_queue.is_some()),
    {
        self.graphics_queue.is_some() && self.present_queue.is_some()
    }
}

/// The queue families to create queues in, each once: the graphics family,
/// then the presentation family where it is another one.
pub fn unique_queue_family_indices(indices: &QueueFamilyIndices) -> (families: Vec<u32>)
    requires
        indices.graphics_queue.is_some(),
        indices.present_queue.is_some(),
    ensures
        families@.to_set() == set![indices.graphics_queue.unwrap(), indices.present_queue.unwrap()],
        families@.no_duplicates(),
        families@.len() >= 1,
        families@[0] == indices.graphics_queue.unwrap(),
{
    let graphics = indices.graphics_queue.unwrap();
    let present = indices.present_queue.unwrap();
    let mut families = vec![graphics];
    if present != graphics {
        families.push(present);
    }
    proof {
        if present != graphics {
            assert(families@ =~= seq![graphics, present]);
            assert(seq![graphics, present].to_set() =~= set![graphics, present]) by {
                assert(seq![graphics, present].contains(present));
                assert(seq![graphics, present][0] == graphics);
            }
        } else {
            assert(families@ =~= seq![graphics]);
            assert(seq![graphics].to_set() =~= set![graphics, present]) by {
                assert(seq![graphics][0] == graphics);
            }
        }
    }
    families
}

/// What a device reports of one of its queue families.
#[derive(Clone, Copy)]
pub struct QueueFamilyProperties {
    pub queue_flags: u32,
    pub queue_count: u32,
}

/// The family has queues and they support graphics.
pub open spec fn offers_graphics(f: QueueFamilyProperties) -> bool {
    f.queue_count > 0 && f.queue_flags & QUEUE_GRAPHICS == QUEUE_GRAPHICS
}

/// The last family before `end` that has queues and can present.
pub open spec fn last_present_before(
    fams: Seq<QueueFamilyProperties>,
    present: Seq<bool>,
    end: int,
) -> Option<int>
    decreases end,
{
    if end <= 0 || end > fams.len() || end > present.len() {
        None
    } else if fams[end - 1].queue_count > 0 && present[end - 1] {
        Some(end - 1)
    } else {
        last_present_before(fams, present, end - 1)
    }
}

/// The last family before `end` that offers graphics.
pub open spec fn last_graphics_before(fams: Seq<QueueFamilyProperties>, end: int) -> Option<int>
    decreases end,
{
    if end <= 0 || end > fams.len() {
        None
    } else if offers_graphics(fams[end - 1]) {
        Some(end - 1)
    } else {
        last_graphics_before(fams, end - 1)
    }
}

/// Among the first `end` families, one offers graphics and one can present.
pub open spec fn all_found_by(fams: Seq<QueueFamilyProperties>, present: Seq<bool>, end: int) -> bool {
    last_graphics_before(fams, end) is Some && last_present_before(fams, present, end) is Some
}

/// The first family at or after `k` by which all queues are found.
pub open spec fn first_complete_from(fams: Seq<QueueFamilyProperties>, present: Seq<bool>, k: int) -> Option<int>
    decreases fams.len() - k,
{
    if k < 0 || k >= fams.len() {
        None
    } else if all_found_by(fams, present, k + 1) {
        Some(k)
    } else {
        first_complete_from(fams, present, k + 1)
    }
}

/// The families that the scan finds: it goes through the families in order
/// and stops once a graphics family and a presentation family are found;
/// each index is the last family of its kind up to where it stopped.
pub open spec fn queue_families_spec(fams: Seq<QueueFamilyProperties>, present: Seq<bool>) -> (
    Option<int>,
    Option<int>,
) {
    let end = match first_complete_from(fams, present, 0) {
        Some(k) => k + 1,
        None => fams.len() as int,
    };
    (last_graphics_before(fams, end), last_present_before(fams, present, end))
}

/// Scans the queue families of a device in order; `present_support[i]`
/// tells whether family `i` can present to the surface.
pub fn find_queue_families(
    available_queue_families: &Vec<QueueFamilyProperties>,
    present_support: &Vec<bool>,
) -> (indices: QueueFamilyIndices)
    requires
        available_queue_families.len() == present_support.len(),
        available_queue_families.len() < u32::MAX,
    ensures
        ({
            let (g, p) = queue_families_spec(available_queue_families@, present_support@);
            &&& indices.graphics_queue == match g {
                Some(i) => Some(i as u32),
                None => None::<u32>,
            }
            &&& indices.present_queue == match p {
                Some(i) => Some(i as u32),
                None => None::<u32>,
            }
        }),
{
    let ghost fams = available_queue_families@;
    let ghost pres = present_support@;
    let mut indices = QueueFamilyIndices { graphics_queue: None, present_queue: None };
    let mut queue_family_index: u32 = 0;
    let mut k: usize = 0;
    while k < available_queue_families.len()
        invariant
            k <= available_queue_families.len(),
            fams == available_queue_families@,
            pres == present_support@,
            available_queue_families.len() == present_support.len(),
            available_queue_families.len() < u32::MAX,
            queue_family_index == k,
            first_complete_from(fams, pres, k as int) == first_complete_from(fams, pres, 0),
            indices.graphics_queue == match last_graphics_before(fams, k as int) {
                Some(i) => Some(i as u32),
                None => None::<u32>,
            },
            indices.present_queue == match last_present_before(fams, pres, k as int) {
                Some(i) => Some(i as u32),
                None => None::<u32>,
            },
        decreases available_queue_families.len() - k,
    {
        let family = available_queue_families[k];
        let graphics = family.queue_count > 0 && family.queue_flags & QUEUE_GRAPHICS
            == QUEUE_GRAPHICS;
        if graphics {
            indices.graphics_queue = Some(queue_family_index);
        }
        if family.queue_count > 0 && present_support[k] {
            indices.present_queue = Some(queue_family_index);
        }
        proof {
            assert(indices.graphics_queue == match last_graphics_before(fams, k + 1) {
                Some(i) => Some(i as u32),
                None => None::<u32>,
            });
            assert(indices.present_queue == match last_present_before(fams, pres, k + 1) {
                Some(i) => Some(i as u32),
                None => None::<u32>,
            });
        }
        if indices.is_complete() {
            proof {
                assert(all_found_by(fams, pres, k + 1));
                assert(first_complete_from(fams, pres, k as int) == Some(k as int));
            }
            return indices;
        }
        queue_family_index += 1;
        k += 1;
    }
    indices
}

/// The first family at or after `k` that supports graphics and can present.
pub open spec fn first_graphics_present_from(
    fams: Seq<QueueFamilyProperties>,
    present: Seq<bool>,
    k: int,
) -> Option<int>
    decreases fams.len() - k,
{
    if k < 0 || k >= fams.len() || k >= present.len() {
        None
    } else if fams[k].queue_flags & QUEUE_GRAPHICS == QUEUE_GRAPHICS && present[k] {
        Some(k)
    } else {
        first_graphics_present_from(fams, present, k + 1)
    }
}

/// The first queue family that supports graphics and can present to the
/// surface; `present_support[i]` is asked of family `i` only where it
/// supports graphics.
pub fn find_graphics_queue_family(
    available_queue_families: &Vec<QueueFamilyProperties>,
    present_support: &Vec<bool>,
) -> (index: Option<u32>)
    requires
        available_queue_families.len() == present_support.len(),
        available_queue_families.len() <= u32::MAX,
    ensures
        index == match first_graphics_present_from(
            available_queue_families@,
            present_support@,
            0,
        ) {
            Some(i) => Some(i as u32),
            None => None::<u32>,
        },
{
    let mut k: usize = 0;
    while k < available_queue_families.len()
        invariant
            k <= available_queue_families.len(),
            available_queue_families.len() == present_support.len(),
            available_queue_families.len() <= u32::MAX,
            first_graphics_present_from(available_queue_families@, present_support@, k as int)
                == first_graphics_present_from(available_queue_families@, present_support@, 0),
        decreases available_queue_families.len() - k,
    {
        let graphics_support = available_queue_families[k].queue_flags & QUEUE_GRAPHICS == QUEUE_GRAPHICS;
        if graphics_support && present_support[k] {
            return Some(k as u32);
        }
        k += 1;
    }
    None
}

/// A device is suitable when it has a graphics queue that can present, the
/// required extensions, and at least one surface format and one present
/// mode (asked only where the extensions are supported).
pub fn is_physical_device_suitable(
    graphics_queue_index: Option<u32>,
    are_required_extensions_supported: bool,
    surface_format_count: usize,
    present_mode_count: usize,
) -> (suitable: bool)
    ensures
        suitable == (graphics_queue_index is Some && are_required_extensions_supported
            && surface_format_count > 0 && present_mode_count > 0),
{
    let is_swapchain_supported = if are_required_extensions_supported {
        surface_format_count != 0 && present_mode_count != 0
    } else {
        false
    };
    graphics_queue_index.is_some() && are_required_extensions_supported && is_swapchain_supported
}

/// The index of the first suitable device.
pub fn select_first_suitable(suitable: &Vec<bool>) -> (index: Option<usize>)
    ensures
        match index {
            Some(i) => i < suitable.len() && suitable[i as int] && forall|j: int|
                0 <= j < i ==> !#[trigger] suitable[j],
            None => forall|j: int| 0 <= j < suitable.len() ==> !#[trigger] suitable[j],
        },
{
    let mut k: usize = 0;
    while k < suitable.len()
        invariant
            k <= suitable.len(),
            forall|j: int| 0 <= j < k ==> !#[trigger] suitable[j],
        decreases suitable.len() - k,
    {
        if suitable[k] {
            return Some(k);
        }
        k += 1;
    }
    None
}

/// `VK_PHYSICAL_DEVICE_TYPE_OTHER`
pub const PHYSICAL_DEVICE_TYPE_OTHER: i32 = 0;

/// `VK_PHYSICAL_DEVICE_TYPE_INTEGRATED_GPU`
pub const PHYSICAL_DEVICE_TYPE_INTEGRATED_GPU: i32 = 1;

/// `VK_PHYSICAL_DEVICE_TYPE_DISCRETE_GPU`
pub const PHYSICAL_DEVICE_TYPE_DISCRETE_GPU: i32 = 2;

/// `VK_PHYSICAL_DEVICE_TYPE_VIRTUAL_GPU`
pub const PHYSICAL_DEVICE_TYPE_VIRTUAL_GPU: i32 = 3;

/// `VK_PHYSICAL_DEVICE_TYPE_CPU`
pub const PHYSICAL_DEVICE_TYPE_CPU: i32 = 4;

/// The name of a device type.
pub open spec fn device_type_name_spec(device_type: i32) -> Seq<char> {
    if device_type == PHYSICAL_DEVICE_TYPE_CPU {
        "Cpu"@
    } else if device_type == PHYSICAL_DEVICE_TYPE_INTEGRATED_GPU {
        "Integrated GPU"@
    } else if device_type == PHYSICAL_DEVICE_TYPE_DISCRETE_GPU {
        "Discrete GPU"@
    } else if device_type == PHYSICAL_DEVICE_TYPE_VIRTUAL_GPU {
        "Virtual GPU"@
    } else {
        "Unknown"@
    }
}

/// The name of a known device type.
pub fn device_type_name(device_type: i32) -> (name: &'static str)
    requires
        PHYSICAL_DEVICE_TYPE_OTHER <= device_type <= PHYSICAL_DEVICE_TYPE_CPU,
    ensures
        name@ == device_type_name_spec(device_type),
{
    if device_type == PHYSICAL_DEVICE_TYPE_CPU {
        "Cpu"
    } else if device_type == PHYSICAL_DEVICE_TYPE_INTEGRATED_GPU {
        "Integrated GPU"
    } else if device_type == PHYSICAL_DEVICE_TYPE_DISCRETE_GPU {
        "Discrete GPU"
    } else if device_type == PHYSICAL_DEVICE_TYPE_VIRTUAL_GPU {
        "Virtual GPU"
    } else {
        "Unknown"
    }
}

/// Trusts `ash::vk::api_version_major`, which ash defines as
/// `(version >> 22) & 0x7f`.
pub assume_specification[ ash::vk::api_version_major ](version: u32) -> (major: u32)
    ensures
        major == (version >> 22u32) & 0x7fu32,
;

/// Trusts `ash::vk::api_version_minor`, which ash defines as
/// `(version >> 12) & 0x3ff`.
pub assume_specification[ ash::vk::api_version_minor ](version: u32) -> (minor: u32)
    ensures
        minor == (version >> 12u32) & 0x3ffu32,
;

/// Trusts `ash::vk::api_version_patch`, which ash defines as
/// `version & 0xfff`.
pub assume_specification[ ash::vk::api_version_patch ](version: u32) -> (patch: u32)
    ensures
        patch == version & 0xfffu32,
;

/// Trusts `ash::vk::make_api_version`, which ash defines as
/// `(variant << 29) | (major << 22) | (minor << 12) | patch`.
pub assume_specification[ ash::vk::make_api_version ](
    variant: u32,
    major: u32,
    minor: u32,
    patch: u32,
) -> (version: u32)
    ensures
        version == (variant << 29u32) | (major << 22u32) | (minor << 12u32) | patch,
;

/// The major, minor and patch numbers of a packed Vulkan version.
pub open spec fn api_version_parts_spec(version: u32) -> (u32, u32, u32) {
    ((version >> 22u32) & 0x7fu32, (version >> 12u32) & 0x3ffu32, version & 0xfffu32)
}

/// The major, minor and patch numbers of a packed Vulkan version.
pub fn api_version_parts(version: u32) -> (parts: (u32, u32, u32))
    ensures
        parts == api_version_parts_spec(version),
{
    (
        ash::vk::api_version_major(version),
        ash::vk::api_version_minor(version),
        ash::vk::api_version_patch(version),
    )
}

/// The version of the application, 0.1.0.
pub fn application_version() -> (version: u32)
    ensures
        version == 0x1000,
        api_version_parts_spec(version) == (0u32, 1u32, 0u32),
{
    let v = ash::vk::make_api_version(0, 0, 1, 0);
    assert((0u32 << 29u32) | (0u32 << 22u32) | (1u32 << 12u32) | 0u32 == 0x1000u32) by (bit_vector);
    assert(((0x1000u32 >> 22u32) & 0x7fu32) == 0 && ((0x1000u32 >> 12u32) & 0x3ffu32) == 1 && (
    0x1000u32 & 0xfffu32) == 0) by (bit_vector);
    v
}

/// The Vulkan API version the engine asks for, 1.2.0.
pub fn engine_api_version() -> (version: u32)
    ensures
        version == 0x402000,
        api_version_parts_spec(version) == (1u32, 2u32, 0u32),
{
    let v = ash::vk::make_api_version(0, 1, 2, 0);
    assert((0u32 << 29u32) | (1u32 << 22u32) | (2u32 << 12u32) | 0u32 == 0x402000u32)
        by (bit_vector);
    assert(((0x402000u32 >> 22u32) & 0x7fu32) == 1 && ((0x402000u32 >> 12u32) & 0x3ffu32) == 2 && (
    0x402000u32 & 0xfffu32) == 0) by (bit_vector);
    v
}

/// How many of the `available` names are among the `required` ones,
/// counting repeats.
pub open spec fn count_required(available: Seq<Seq<char>>, required: Seq<Seq<char>>) -> nat
    decreases available.len(),
{
    if available.len() == 0 {
        0
    } else {
        count_required(available.drop_last(), required) + if required.contains(available.last()) {
            1nat
        } else {
            0nat
        }
    }
}

/// How many of `names` are exactly `name`.
pub open spec fn count_equal(names: Seq<Seq<char>>, name: Seq<char>) -> nat {
    names.filter(|n: Seq<char>| n == name).len()
}

/// With one required name, the count is the number of available names
/// equal to it, whole name against whole name: a name that merely begins
/// like the required one does not count.
pub proof fn law_count_required_counts_equal_names(available: Seq<Seq<char>>, name: Seq<char>)
    ensures
        count_required(available, seq![name]) == count_equal(available, name),
    decreases available.len(),
{
    reveal(Seq::filter);
    if available.len() > 0 {
        law_count_required_counts_equal_names(available.drop_last(), name);
        assert(seq![name][0] == name);
        assert(seq![name].contains(available.last()) <==> available.last() == name);
    }
}

/// Whether `name` is among `names`.
fn contains_name(names: &Vec<&'static str>, name: &Vec<char>) -> (b: bool)
    ensures
        b == names@.map_values(|s: &'static str| s@).contains(name@),
{
    let ghost ns = names@.map_values(|s: &'static str| s@);
    let mut k: usize = 0;
    while k < names.len()
        invariant
            k <= names.len(),
            ns == names@.map_values(|s: &'static str| s@),
            forall|j: int| 0 <= j < k ==> ns[j] != name@,
        decreases names.len() - k,
    {
        let candidate = chars_of(names[k]);
        if chars_eq(&candidate, name) {
            proof {
                assert(ns[k as int] == name@);
            }
            return true;
        }
        k += 1;
    }
    false
}

/// Checks if the listed device extensions are supported: the device's
/// extensions that are required must be as many as the required ones.
pub fn check_required_extensions_supported(supported_extensions: &Vec<String>) -> (b: bool)
    ensures
        b == (count_required(
            supported_extensions@.map_values(|s: String| s@),
            seq!["VK_KHR_swapchain"@],
        ) == 1),
        b == (count_equal(supported_extensions@.map_values(|s: String| s@), "VK_KHR_swapchain"@)
            == 1),
{
    let required = required_device_extensions();
    let ghost req = required@.map_values(|s: &'static str| s@);
    proof {
        assert(req =~= seq!["VK_KHR_swapchain"@]);
    }
    let ghost avail = supported_extensions@.map_values(|s: String| s@);
    let mut found: usize = 0;
    let mut k: usize = 0;
    while k < supported_extensions.len()
        invariant
            k <= supported_extensions.len(),
            avail == supported_extensions@.map_values(|s: String| s@),
            req == required@.map_values(|s: &'static str| s@),
            found == count_required(avail.take(k as int), req),
            found <= k,
        decreases supported_extensions.len() - k,
    {
        let name = chars_of(supported_extensions[k].as_str());
        proof {
            assert(avail.take(k + 1).drop_last() =~= avail.take(k as int));
            assert(avail.take(k + 1).last() == name@);
        }
        if contains_name(&required, &name) {
            found += 1;
        }
        k += 1;
    }
    proof {
        assert(avail.take(supported_extensions.len() as int) =~= avail);
        law_count_required_counts_equal_names(avail, "VK_KHR_swapchain"@);
    }
    found == required.len()
}

/// Whether the machine supports the required validation layers, layer by
/// layer: entry `i` tells whether `required[i]` is among `available`.
pub fn validation_layer_support(required: &Vec<&'static str>, available: &Vec<String>) -> (found:
    Vec<bool>)
    ensures
        found.len() == required.len(),
        forall|i: int|
            0 <= i < required.len() ==> #[trigger] found[i] == available@.map_values(
                |s: String| s@,
            ).contains(required[i]@),
{
    let ghost avail = available@.map_values(|s: String| s@);
    let mut found: Vec<bool> = Vec::new();
    let mut i: usize = 0;
    while i < required.len()
        invariant
            i <= required.len(),
            found.len() == i,
            avail == available@.map_values(|s: String| s@),
            forall|j: int| 0 <= j < i ==> #[trigger] found[j] == avail.contains(required[j]@),
        decreases required.len() - i,
    {
        let wanted = chars_of(required[i]);
        let mut any = false;
        let mut k: usize = 0;
        while k < available.len()
            invariant
                k <= available.len(),
                avail == available@.map_values(|s: String| s@),
                wanted@ == required[i as int]@,
                any == exists|j: int| 0 <= j < k && avail[j] == wanted@,
            decreases available.len() - k,
        {
            let name = chars_of(available[k].as_str());
            if chars_eq(&name, &wanted) {
                any = true;
            }
            proof {
                if any {
                    if name@ == wanted@ {
                        assert(avail[k as int] == wanted@);
                    }
                }
            }
            k += 1;
        }
        proof {
            if any {
                let j = choose|j: int| 0 <= j < available.len() && avail[j] == wanted@;
                assert(avail.contains(wanted@));
            } else {
                assert(!avail.contains(wanted@));
            }
        }
        found.push(any);
        i += 1;
    }
    found
}

} // verus!

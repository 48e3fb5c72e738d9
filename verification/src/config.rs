//! The engine's configuration.
use vstd::prelude::*;

verus! {

/// Number of frames that may be in flight at the same time (double buffering).
pub const MAX_FRAMES_COUNT: usize = 2;

/// Initial window width.
pub const WIDTH: u32 = 640;

/// Initial window height.
pub const HEIGHT: u32 = 400;

/// The extensions that a physical device must support.
pub fn required_device_extensions() -> (names: Vec<&'static str>)
    ensures
        names.len() == 1,
        names[0]@ == "VK_KHR_swapchain"@,
{
    vec!["VK_KHR_swapchain"]
}

/// What the engine knows of the validation layers it wants.
pub struct ValidationInfo {
    pub is_enabled: bool,
    pub required_validation_layers: [&'static str; 1],
}

/// The validation layers: the Khronos validation layer, enabled in debug
/// builds.
pub fn validation_info(debug_build: bool) -> (info: ValidationInfo)
    ensures
        info.is_enabled == debug_build,
        info.required_validation_layers@.len() == 1,
        info.required_validation_layers@[0]@ == "VK_LAYER_KHRONOS_validation"@,
{
    ValidationInfo { is_enabled: debug_build, required_validation_layers: ["VK_LAYER_KHRONOS_validation"] }
}

/// The frame slot that follows `frame_index` in the ring of frames in
/// flight.
pub fn next_frame_index(frame_index: usize) -> (next: usize)
    ensures
        next == (frame_index + 1) % (MAX_FRAMES_COUNT as int),
        next < MAX_FRAMES_COUNT,
{
    if frame_index < MAX_FRAMES_COUNT {
        (frame_index + 1) % MAX_FRAMES_COUNT
    } else {
        (frame_index % MAX_FRAMES_COUNT + 1) % MAX_FRAMES_COUNT
    }
}

/// The frame slot of frame number `frame_num`.
pub fn frame_slot(frame_num: usize) -> (slot: usize)
    ensures
        slot == frame_num % MAX_FRAMES_COUNT,
        slot < MAX_FRAMES_COUNT,
{
    frame_num % MAX_FRAMES_COUNT
}

/// Stepping through the slots visits each one in turn and comes back to
/// the start after [`MAX_FRAMES_COUNT`] steps.
pub proof fn law_frame_slots_cycle(frame_index: int)
    requires
        0 <= frame_index < MAX_FRAMES_COUNT,
    ensures
        (((frame_index + 1) % (MAX_FRAMES_COUNT as int)) + 1) % (MAX_FRAMES_COUNT as int)
            == frame_index,
        (frame_index + 1) % (MAX_FRAMES_COUNT as int) != frame_index,
{
}

} // verus!

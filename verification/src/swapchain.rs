//! Swapchain configuration: how many images, which surface format, which
//! present mode and which extent.
use vstd::prelude::*;

verus! {

/// `VK_FORMAT_B8G8R8_SRGB`
pub const FORMAT_B8G8R8_SRGB: i32 = 36;

/// `VK_COLOR_SPACE_SRGB_NONLINEAR_KHR`
pub const COLOR_SPACE_SRGB_NONLINEAR: i32 = 0;

/// `VK_PRESENT_MODE_FIFO_RELAXED_KHR`
pub const PRESENT_MODE_FIFO_RELAXED: i32 = 3;

/// `VK_SHARING_MODE_EXCLUSIVE`
pub const SHARING_MODE_EXCLUSIVE: i32 = 0;

/// A two-dimensional size in pixels.
#[derive(Clone, Copy, PartialEq, Eq, Structural, Debug)]
pub struct Extent2D {
    pub width: u32,
    pub height: u32,
}

/// A pixel format together with its color space.
#[derive(Clone, Copy, PartialEq, Eq, Structural, Debug)]
pub struct SurfaceFormat {
    pub format: i32,
    pub color_space: i32,
}

/// What a surface supports.
#[derive(Clone, Copy)]
pub struct SurfaceCapabilities {
    pub min_image_count: u32,
    /// No limit where zero.
    pub max_image_count: u32,
    /// `u32::MAX` wide where the window decides the size.
    pub current_extent: Extent2D,
    pub min_image_extent: Extent2D,
    pub max_image_extent: Extent2D,
}

/// How many images the swapchain asks for: at least one more than the
/// minimum, so that the driver need not be waited on; where the surface
/// has a maximum (zero means no limit) that one more does not reach, the
/// maximum itself.
pub open spec fn image_count_spec(min_image_count: u32, max_image_count: u32) -> u32 {
    if max_image_count > 0 && min_image_count + 1 < max_image_count {
        max_image_count
    } else {
        (min_image_count + 1) as u32
    }
}

/// How many images the swapchain asks for.
pub fn swapchain_image_count(capabilities: &SurfaceCapabilities) -> (image_count: u32)
    requires
        capabilities.min_image_count < u32::MAX,
    ensures
        image_count == image_count_spec(
            capabilities.min_image_count,
            capabilities.max_image_count,
        ),
{
    let mut image_count = capabilities.min_image_count + 1;
    if capabilities.max_image_count > 0 && image_count < capabilities.max_image_count {
        image_count = capabilities.max_image_count;
    }
    image_count
}

/// The format is 8-bit BGR in sRGB with the non-linear sRGB color space.
pub open spec fn is_srgb(f: SurfaceFormat) -> bool {
    f.format == FORMAT_B8G8R8_SRGB && f.color_space == COLOR_SPACE_SRGB_NONLINEAR
}

/// The first sRGB format at or after `k`.
pub open spec fn first_srgb_from(formats: Seq<SurfaceFormat>, k: int) -> Option<SurfaceFormat>
    decreases formats.len() - k,
{
    if k < 0 || k >= formats.len() {
        None
    } else if is_srgb(formats[k]) {
        Some(formats[k])
    } else {
        first_srgb_from(formats, k + 1)
    }
}

/// The surface format to use: sRGB where available, otherwise the first.
pub fn select_swapchain_surface_format(available_surface_formats: &Vec<SurfaceFormat>) -> (format:
    SurfaceFormat)
    requires
        available_surface_formats.len() > 0,
    ensures
        format == match first_srgb_from(available_surface_formats@, 0) {
            Some(f) => f,
            None => available_surface_formats@[0],
        },
{
    let mut k: usize = 0;
    while k < available_surface_formats.len()
        invariant
            k <= available_surface_formats.len(),
            first_srgb_from(available_surface_formats@, k as int) == first_srgb_from(
                available_surface_formats@,
                0,
            ),
        decreases available_surface_formats.len() - k,
    {
        let surface_format = available_surface_formats[k];
        let supports_srgb = surface_format.format == FORMAT_B8G8R8_SRGB;
        let supports_non_linear_color_space = surface_format.color_space
            == COLOR_SPACE_SRGB_NONLINEAR;
        if supports_srgb && supports_non_linear_color_space {
            return surface_format;
        }
        k += 1;
    }
    available_surface_formats[0]
}

/// The present mode to use: FIFO relaxed, whatever the surface offers.
pub fn select_swapchain_present_mode(_available_present_modes: &Vec<i32>) -> (mode: i32)
    ensures
        mode == PRESENT_MODE_FIFO_RELAXED,
{
    PRESENT_MODE_FIFO_RELAXED
}

/// The smaller of two sizes.
pub open spec fn min_u32(a: u32, b: u32) -> u32 {
    if a <= b {
        a
    } else {
        b
    }
}

/// The larger of two sizes.
pub open spec fn max_u32(a: u32, b: u32) -> u32 {
    if a >= b {
        a
    } else {
        b
    }
}

/// `value` clamped to `[lo, hi]`: `max(lo, min(value, hi))`.
pub open spec fn clamp_u32(value: u32, lo: u32, hi: u32) -> u32 {
    max_u32(lo, min_u32(value, hi))
}

/// The extent of the swapchain: the surface's current extent where it has
/// one; otherwise the window size, each side clamped to the surface's
/// limits for that side.
pub open spec fn extent_spec(caps: SurfaceCapabilities, window_width: u32, window_height: u32) -> Extent2D {
    if caps.current_extent.width != u32::MAX {
        caps.current_extent
    } else {
        Extent2D {
            width: clamp_u32(window_width, caps.min_image_extent.width, caps.max_image_extent.width),
            height: clamp_u32(
                window_height,
                caps.min_image_extent.height,
                caps.max_image_extent.height,
            ),
        }
    }
}

/// `value` clamped to `[lo, hi]`.
fn clamp_exec(value: u32, lo: u32, hi: u32) -> (r: u32)
    ensures
        r == clamp_u32(value, lo, hi),
{
    let below = if value <= hi {
        value
    } else {
        hi
    };
    if lo >= below {
        lo
    } else {
        below
    }
}

/// Translates the window size into the swapchain's pixel resolution.
pub fn select_swapchain_extent(
    surface_capabilities: &SurfaceCapabilities,
    window_width: u32,
    window_height: u32,
) -> (extent: Extent2D)
    ensures
        extent == extent_spec(*surface_capabilities, window_width, window_height),
{
    if surface_capabilities.current_extent.width != u32::MAX {
        return surface_capabilities.current_extent;
    }
    Extent2D {
        width: clamp_exec(
            window_width,
            surface_capabilities.min_image_extent.width,
            surface_capabilities.max_image_extent.width,
        ),
        height: clamp_exec(
            window_height,
            surface_capabilities.min_image_extent.height,
            surface_capabilities.max_image_extent.height,
        ),
    }
}

/// The image count is at least one more than the minimum, at most the
/// surface maximum where that maximum exceeds one more than the minimum,
/// and exactly one more than the minimum otherwise.
pub proof fn law_image_count_above_minimum(min_image_count: u32, max_image_count: u32)
    requires
        min_image_count < u32::MAX,
    ensures
        image_count_spec(min_image_count, max_image_count) >= min_image_count + 1,
        (max_image_count == 0 || max_image_count <= min_image_count + 1) ==> image_count_spec(
            min_image_count,
            max_image_count,
        ) == min_image_count + 1,
        max_image_count > min_image_count + 1 ==> image_count_spec(
            min_image_count,
            max_image_count,
        ) == max_image_count,
{
}

/// Where the surface leaves the extent to the window, each side lies within
/// the surface's limits for it, and a window side already within them is
/// kept.
pub proof fn law_window_extent_is_clamped(caps: SurfaceCapabilities, w: u32, h: u32)
    requires
        caps.current_extent.width == u32::MAX,
        caps.min_image_extent.width <= caps.max_image_extent.width,
        caps.min_image_extent.height <= caps.max_image_extent.height,
    ensures
        caps.min_image_extent.width <= extent_spec(caps, w, h).width
            <= caps.max_image_extent.width,
        caps.min_image_extent.height <= extent_spec(caps, w, h).height
            <= caps.max_image_extent.height,
        caps.min_image_extent.width <= w <= caps.max_image_extent.width ==> extent_spec(
            caps,
            w,
            h,
        ).width == w,
        caps.min_image_extent.height <= h <= caps.max_image_extent.height ==> extent_spec(
            caps,
            w,
            h,
        ).height == h,
{
}

/// Where the surface fixes its extent, the swapchain takes it whatever the
/// window size.
pub proof fn law_current_extent_wins(caps: SurfaceCapabilities, w1: u32, h1: u32, w2: u32, h2: u32)
    requires
        caps.current_extent.width != u32::MAX,
    ensures
        extent_spec(caps, w1, h1) == extent_spec(caps, w2, h2),
        extent_spec(caps, w1, h1) == caps.current_extent,
{
}

} // verus!

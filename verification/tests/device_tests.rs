use ash::vk;
use penguin_engine::config::{
    frame_slot, next_frame_index, required_device_extensions, validation_info, HEIGHT,
    MAX_FRAMES_COUNT, WIDTH,
};
use penguin_engine::device::{
    api_version_parts, application_version, check_required_extensions_supported,
    device_type_name, engine_api_version, find_graphics_queue_family, find_queue_families,
    is_physical_device_suitable, select_first_suitable, unique_queue_family_indices,
    validation_layer_support, QueueFamilyIndices, QueueFamilyProperties,
    PHYSICAL_DEVICE_TYPE_CPU, PHYSICAL_DEVICE_TYPE_DISCRETE_GPU,
    PHYSICAL_DEVICE_TYPE_INTEGRATED_GPU, PHYSICAL_DEVICE_TYPE_OTHER,
    PHYSICAL_DEVICE_TYPE_VIRTUAL_GPU, QUEUE_GRAPHICS,
};
use penguin_engine::swapchain::{
    select_swapchain_extent, select_swapchain_present_mode, select_swapchain_surface_format,
    swapchain_image_count, Extent2D, SurfaceCapabilities, SurfaceFormat,
    COLOR_SPACE_SRGB_NONLINEAR, FORMAT_B8G8R8_SRGB, PRESENT_MODE_FIFO_RELAXED,
    SHARING_MODE_EXCLUSIVE,
};

fn family(queue_flags: u32, queue_count: u32) -> QueueFamilyProperties {
    QueueFamilyProperties { queue_flags, queue_count }
}

#[test]
fn queue_families_stop_at_first_graphics_family() {
    let fams = vec![family(0x4, 1), family(0x1, 1), family(0x1, 1)];
    let present = vec![true, false, true];
    let idx = find_queue_families(&fams, &present);
    assert_eq!(idx.graphics_queue, Some(1));
    assert_eq!(idx.present_queue, Some(0));
    assert!(idx.is_complete());
}

#[test]
fn queue_families_scan_until_both_are_found() {
    let fams = vec![family(0x1, 1), family(0x1, 1), family(0x4, 1), family(0x1, 1)];
    let present = vec![false, false, true, true];
    let idx = find_queue_families(&fams, &present);
    assert_eq!(idx.graphics_queue, Some(1));
    assert_eq!(idx.present_queue, Some(2));
    assert!(idx.is_complete());
    let only_graphics = find_queue_families(&vec![family(0x1, 1)], &vec![false]);
    assert_eq!(only_graphics.graphics_queue, Some(0));
    assert_eq!(only_graphics.present_queue, None);
    assert!(!only_graphics.is_complete());
}

#[test]
fn queue_families_without_graphics() {
    let fams = vec![family(0x2, 1), family(0x4, 0)];
    let present = vec![false, true];
    let idx = find_queue_families(&fams, &present);
    assert_eq!(idx.graphics_queue, None);
    assert_eq!(idx.present_queue, None);
    assert!(!idx.is_complete());
}

#[test]
fn graphics_family_must_also_present() {
    let fams = vec![family(0x1, 1), family(0x3, 2), family(0x1, 1)];
    assert_eq!(find_graphics_queue_family(&fams, &vec![false, true, true]), Some(1));
    assert_eq!(find_graphics_queue_family(&fams, &vec![false, false, false]), None);
    assert_eq!(find_graphics_queue_family(&vec![], &vec![]), None);
}

#[test]
fn unique_families_hold_each_index_once() {
    let same = QueueFamilyIndices { graphics_queue: Some(2), present_queue: Some(2) };
    assert_eq!(unique_queue_family_indices(&same), vec![2]);
    let two = QueueFamilyIndices { graphics_queue: Some(0), present_queue: Some(3) };
    assert_eq!(unique_queue_family_indices(&two), vec![0, 3]);
}

#[test]
fn device_suitability() {
    assert!(is_physical_device_suitable(Some(0), true, 2, 1));
    assert!(!is_physical_device_suitable(None, true, 2, 1));
    assert!(!is_physical_device_suitable(Some(0), false, 2, 1));
    assert!(!is_physical_device_suitable(Some(0), true, 0, 1));
    assert!(!is_physical_device_suitable(Some(0), true, 1, 0));
    assert_eq!(select_first_suitable(&vec![false, true, true]), Some(1));
    assert_eq!(select_first_suitable(&vec![false, false]), None);
}

#[test]
fn device_type_names() {
    assert_eq!(device_type_name(PHYSICAL_DEVICE_TYPE_CPU), "Cpu");
    assert_eq!(device_type_name(PHYSICAL_DEVICE_TYPE_INTEGRATED_GPU), "Integrated GPU");
    assert_eq!(device_type_name(PHYSICAL_DEVICE_TYPE_DISCRETE_GPU), "Discrete GPU");
    assert_eq!(device_type_name(PHYSICAL_DEVICE_TYPE_VIRTUAL_GPU), "Virtual GPU");
    assert_eq!(device_type_name(PHYSICAL_DEVICE_TYPE_OTHER), "Unknown");
}

#[test]
fn device_constants_match_ash() {
    assert_eq!(QUEUE_GRAPHICS, vk::QueueFlags::GRAPHICS.as_raw());
    assert_eq!(PHYSICAL_DEVICE_TYPE_OTHER, vk::PhysicalDeviceType::OTHER.as_raw());
    assert_eq!(PHYSICAL_DEVICE_TYPE_INTEGRATED_GPU, vk::PhysicalDeviceType::INTEGRATED_GPU.as_raw());
    assert_eq!(PHYSICAL_DEVICE_TYPE_DISCRETE_GPU, vk::PhysicalDeviceType::DISCRETE_GPU.as_raw());
    assert_eq!(PHYSICAL_DEVICE_TYPE_VIRTUAL_GPU, vk::PhysicalDeviceType::VIRTUAL_GPU.as_raw());
    assert_eq!(PHYSICAL_DEVICE_TYPE_CPU, vk::PhysicalDeviceType::CPU.as_raw());
    assert_eq!(FORMAT_B8G8R8_SRGB, vk::Format::B8G8R8_SRGB.as_raw());
    assert_eq!(COLOR_SPACE_SRGB_NONLINEAR, vk::ColorSpaceKHR::SRGB_NONLINEAR.as_raw());
    assert_eq!(PRESENT_MODE_FIFO_RELAXED, vk::PresentModeKHR::FIFO_RELAXED.as_raw());
    assert_eq!(SHARING_MODE_EXCLUSIVE, vk::SharingMode::EXCLUSIVE.as_raw());
}

#[test]
fn api_versions() {
    assert_eq!(application_version(), 0x1000);
    assert_eq!(engine_api_version(), ash::vk::API_VERSION_1_2);
    assert_eq!(api_version_parts(ash::vk::make_api_version(0, 1, 3, 204)), (1, 3, 204));
    assert_eq!(api_version_parts(application_version()), (0, 1, 0));
    assert_eq!(api_version_parts(engine_api_version()), (1, 2, 0));
}

#[test]
fn required_extensions() {
    assert_eq!(required_device_extensions(), vec!["VK_KHR_swapchain"]);
    let with = vec!["VK_KHR_maintenance1".to_string(), "VK_KHR_swapchain".to_string()];
    assert!(check_required_extensions_supported(&with));
    let without = vec!["VK_KHR_maintenance1".to_string()];
    assert!(!check_required_extensions_supported(&without));
    assert!(!check_required_extensions_supported(&vec![]));
    let twice = vec!["VK_KHR_swapchain".to_string(), "VK_KHR_swapchain".to_string()];
    assert!(!check_required_extensions_supported(&twice));
}

#[test]
fn validation_layers() {
    let info = validation_info(true);
    assert!(info.is_enabled);
    assert_eq!(info.required_validation_layers, ["VK_LAYER_KHRONOS_validation"]);
    assert!(!validation_info(false).is_enabled);
    let required = vec!["VK_LAYER_KHRONOS_validation", "VK_LAYER_other"];
    let available = vec!["VK_LAYER_KHRONOS_validation".to_string(), "x".to_string()];
    assert_eq!(validation_layer_support(&required, &available), vec![true, false]);
}

#[test]
fn frame_slots_cycle() {
    assert_eq!(MAX_FRAMES_COUNT, 2);
    assert_eq!((WIDTH, HEIGHT), (640, 400));
    assert_eq!(next_frame_index(0), 1);
    assert_eq!(next_frame_index(1), 0);
    assert_eq!(next_frame_index(next_frame_index(0)), 0);
    assert_eq!(frame_slot(7), 1);
    assert_eq!(frame_slot(8), 0);
}

fn caps(min_count: u32, max_count: u32, current: Extent2D) -> SurfaceCapabilities {
    SurfaceCapabilities {
        min_image_count: min_count,
        max_image_count: max_count,
        current_extent: current,
        min_image_extent: Extent2D { width: 100, height: 50 },
        max_image_extent: Extent2D { width: 2000, height: 1000 },
    }
}

#[test]
fn image_count() {
    let e = Extent2D { width: 800, height: 600 };
    assert_eq!(swapchain_image_count(&caps(2, 0, e)), 3);
    assert_eq!(swapchain_image_count(&caps(2, 8, e)), 8);
    assert_eq!(swapchain_image_count(&caps(2, 3, e)), 3);
    assert_eq!(swapchain_image_count(&caps(3, 3, e)), 4);
}

#[test]
fn surface_format_prefers_srgb() {
    let other = SurfaceFormat { format: 44, color_space: 0 };
    let srgb = SurfaceFormat { format: FORMAT_B8G8R8_SRGB, color_space: COLOR_SPACE_SRGB_NONLINEAR };
    assert_eq!(select_swapchain_surface_format(&vec![other, srgb]), srgb);
    assert_eq!(select_swapchain_surface_format(&vec![other]), other);
    let wrong_space = SurfaceFormat { format: FORMAT_B8G8R8_SRGB, color_space: 1 };
    assert_eq!(select_swapchain_surface_format(&vec![wrong_space, other]), wrong_space);
}

#[test]
fn present_mode_is_fifo_relaxed() {
    assert_eq!(select_swapchain_present_mode(&vec![0, 1, 2]), PRESENT_MODE_FIFO_RELAXED);
    assert_eq!(select_swapchain_present_mode(&vec![]), 3);
}

#[test]
fn extent_selection() {
    let current = Extent2D { width: 800, height: 600 };
    assert_eq!(select_swapchain_extent(&caps(2, 0, current), 640, 400), current);
    let free = Extent2D { width: u32::MAX, height: u32::MAX };
    let e = select_swapchain_extent(&caps(2, 0, free), 640, 400);
    assert_eq!(e, Extent2D { width: 640, height: 400 });
    let e = select_swapchain_extent(&caps(2, 0, free), 5000, 10);
    assert_eq!(e, Extent2D { width: 2000, height: 50 });
    let mut c = caps(2, 0, free);
    c.max_image_extent = Extent2D { width: 10, height: 20 };
    let e = select_swapchain_extent(&c, 64, 40);
    assert_eq!(e, Extent2D { width: 100, height: 50 });
}

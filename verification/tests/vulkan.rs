use raydiance::editor::window::WindowSize;
use raydiance::vulkan::{
    redraw_step, RedrawAction, RedrawEvent,
    check_surface, device_extensions, device_queue_family, find_memory_type_index, first_missing,
    instance_extensions, select_queue_family, validation_layer, DeviceFeatures, SurfaceError,
    SurfaceSupport, DEFAULT_PRESENT_MODE, DEFAULT_SURFACE_COLOR_SPACE, DEFAULT_SURFACE_FORMAT,
    QUEUE_COMPUTE_BIT, QUEUE_GRAPHICS_BIT, QUEUE_TRANSFER_BIT,
};

fn names(list: &[&str]) -> Vec<String> {
    list.iter().map(|s| s.to_string()).collect()
}

#[test]
fn requested_names() {
    assert_eq!(instance_extensions(false), names(&["VK_KHR_surface", "VK_KHR_win32_surface"]));
    assert_eq!(
        instance_extensions(true),
        names(&["VK_KHR_surface", "VK_KHR_win32_surface", "VK_EXT_debug_utils"])
    );
    assert_eq!(validation_layer(), "VK_LAYER_KHRONOS_validation");
    assert_eq!(device_extensions(), names(&["VK_KHR_swapchain", "VK_KHR_push_descriptor"]));
}

#[test]
fn first_missing_name_is_reported() {
    let available = names(&["a", "b", "c"]);
    assert_eq!(first_missing(&available, &names(&["c", "a"])), None);
    assert_eq!(first_missing(&available, &names(&["c", "x", "y"])), Some(1));
    assert_eq!(first_missing(&[], &names(&["a"])), Some(0));
    assert_eq!(first_missing(&available, &[]), None);
}

#[test]
fn memory_type_is_the_first_allowed_with_the_properties() {
    // Types 0..4 with property flags; the resource allows types 1, 2 and 3.
    let flags = [0b011, 0b001, 0b111, 0b110];
    assert_eq!(find_memory_type_index(&flags, 0b1110, 0b010), Some(2));
    assert_eq!(find_memory_type_index(&flags, 0b1110, 0b001), Some(1));
    assert_eq!(find_memory_type_index(&flags, 0b0001, 0b100), None);
    assert_eq!(find_memory_type_index(&flags, 0, 0), None);
    assert_eq!(find_memory_type_index(&[0; 32], 1 << 31, 0), Some(31));
}

#[test]
fn queue_family_must_do_everything() {
    let all = QUEUE_GRAPHICS_BIT | QUEUE_COMPUTE_BIT | QUEUE_TRANSFER_BIT;
    assert_eq!(select_queue_family(&[QUEUE_TRANSFER_BIT, all | 0x8, all]), Some(1));
    assert_eq!(select_queue_family(&[QUEUE_GRAPHICS_BIT | QUEUE_COMPUTE_BIT]), None);
    assert_eq!(select_queue_family(&[]), None);
}

#[test]
fn devices_need_features_and_samples() {
    let good = DeviceFeatures {
        dynamic_rendering: true,
        synchronization2: true,
        discrete_gpu: true,
        framebuffer_color_sample_counts: 0b1111,
    };
    let queues = [0x7];
    assert_eq!(device_queue_family(good, &queues), Some(0));
    assert_eq!(device_queue_family(DeviceFeatures { discrete_gpu: false, ..good }, &queues), None);
    assert_eq!(device_queue_family(DeviceFeatures { dynamic_rendering: false, ..good }, &queues), None);
    assert_eq!(device_queue_family(DeviceFeatures { synchronization2: false, ..good }, &queues), None);
    assert_eq!(
        device_queue_family(DeviceFeatures { framebuffer_color_sample_counts: 0b0111, ..good }, &queues),
        None
    );
    assert_eq!(device_queue_family(good, &[0x1]), None);
}

fn surface() -> SurfaceSupport {
    SurfaceSupport {
        formats: vec![(44, 0), (DEFAULT_SURFACE_FORMAT, DEFAULT_SURFACE_COLOR_SPACE)],
        min_image_count: 2,
        max_image_count: 8,
        supported_transforms: 0x1,
        supported_composite_alpha: 0x1,
        supported_usage_flags: 0x1f,
        present_modes: vec![0, DEFAULT_PRESENT_MODE],
    }
}

#[test]
fn surfaces_are_checked_in_order() {
    assert_eq!(check_surface(&surface()), Ok(()));
    assert_eq!(check_surface(&SurfaceSupport { formats: vec![(50, 1)], ..surface() }), Err(SurfaceError::Format));
    assert_eq!(check_surface(&SurfaceSupport { min_image_count: 4, ..surface() }), Err(SurfaceError::MinImageCount));
    assert_eq!(check_surface(&SurfaceSupport { max_image_count: 2, ..surface() }), Err(SurfaceError::MaxImageCount));
    assert_eq!(check_surface(&SurfaceSupport { supported_transforms: 0x2, ..surface() }), Err(SurfaceError::Transform));
    assert_eq!(
        check_surface(&SurfaceSupport { supported_composite_alpha: 0x2, ..surface() }),
        Err(SurfaceError::CompositeAlpha)
    );
    assert_eq!(check_surface(&SurfaceSupport { supported_usage_flags: 0x0f, ..surface() }), Err(SurfaceError::Usage));
    assert_eq!(check_surface(&SurfaceSupport { present_modes: vec![0, 1], ..surface() }), Err(SurfaceError::PresentMode));
    assert_eq!(
        check_surface(&SurfaceSupport { formats: vec![], min_image_count: 9, ..surface() }),
        Err(SurfaceError::Format)
    );
}

#[test]
fn redraws_follow_the_window_size() {
    let a = WindowSize { w: 800, h: 450 };
    let b = WindowSize { w: 1024, h: 768 };
    let zero = WindowSize { w: 0, h: 0 };
    assert_eq!(redraw_step(a, a, RedrawEvent::Begin), RedrawAction::Continue);
    assert_eq!(redraw_step(zero, a, RedrawEvent::Begin), RedrawAction::Skip);
    assert_eq!(redraw_step(a, zero, RedrawEvent::Begin), RedrawAction::Skip);
    assert_eq!(redraw_step(WindowSize { w: 0, h: 5 }, a, RedrawEvent::Begin), RedrawAction::Continue);
    assert_eq!(redraw_step(a, b, RedrawEvent::Acquired(true)), RedrawAction::Continue);
    assert_eq!(redraw_step(a, b, RedrawEvent::Acquired(false)), RedrawAction::Recreate(a));
    assert_eq!(redraw_step(a, a, RedrawEvent::Presented(true)), RedrawAction::Finish);
    assert_eq!(redraw_step(a, b, RedrawEvent::Presented(true)), RedrawAction::Recreate(b));
    assert_eq!(redraw_step(a, a, RedrawEvent::Presented(false)), RedrawAction::Recreate(a));
}

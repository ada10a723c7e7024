//! The choices the renderer makes about its Vulkan device and surface: which
//! layers and extensions it asks for, which device and queue family it takes,
//! which memory type backs a resource, and whether a surface can hold its
//! swapchain. The driver's answers come in as plain flags and names.
use vstd::prelude::*;

use crate::editor::frame_state::MAX_CONCURRENT_FRAMES;
use crate::editor::window::{Window, WindowSize};
use crate::text::str_eq;

verus! {

/// `VK_QUEUE_GRAPHICS_BIT`.
pub const QUEUE_GRAPHICS_BIT: u32 = 0x1;

/// `VK_QUEUE_COMPUTE_BIT`.
pub const QUEUE_COMPUTE_BIT: u32 = 0x2;

/// `VK_QUEUE_TRANSFER_BIT`.
pub const QUEUE_TRANSFER_BIT: u32 = 0x4;

/// The queue operations the renderer needs from its one queue family.
pub const REQUIRED_QUEUE_FLAGS: u32 = 0x7;

/// `VK_SAMPLE_COUNT_8_BIT`, the sample count of the render targets.
pub const DEFAULT_SAMPLE_COUNT: u32 = 0x8;

/// `VK_FORMAT_B8G8R8A8_SRGB`, the format of the swapchain images.
pub const DEFAULT_SURFACE_FORMAT: i32 = 50;

/// `VK_COLOR_SPACE_SRGB_NONLINEAR_KHR`.
pub const DEFAULT_SURFACE_COLOR_SPACE: i32 = 0;

/// `VK_PRESENT_MODE_FIFO_KHR`.
pub const DEFAULT_PRESENT_MODE: i32 = 2;

/// `VK_SURFACE_TRANSFORM_IDENTITY_BIT_KHR`.
pub const PRE_TRANSFORM: u32 = 0x1;

/// `VK_COMPOSITE_ALPHA_OPAQUE_BIT_KHR`.
pub const COMPOSITE_ALPHA: u32 = 0x1;

/// `VK_IMAGE_USAGE_COLOR_ATTACHMENT_BIT`.
pub const IMAGE_USAGE: u32 = 0x10;

/// The names of the instance extensions the renderer asks for: surfaces, and
/// debug messages when validating.
pub open spec fn spec_instance_extensions(validation: bool) -> Seq<Seq<char>> {
    let base = seq!["VK_KHR_surface"@, "VK_KHR_win32_surface"@];
    if validation {
        base.push("VK_EXT_debug_utils"@)
    } else {
        base
    }
}

/// The names of the instance extensions the renderer asks for.
pub fn instance_extensions(validation: bool) -> (names: Vec<String>)
    ensures
        names@.map_values(|n: String| n@) == spec_instance_extensions(validation),
{
    let mut names: Vec<String> = Vec::new();
    names.push("VK_KHR_surface".to_string());
    names.push("VK_KHR_win32_surface".to_string());
    if validation {
        names.push("VK_EXT_debug_utils".to_string());
    }
    assert(names@.map_values(|n: String| n@) =~= spec_instance_extensions(validation));
    names
}

/// The validation layer; it must be present whether or not it is enabled.
pub open spec fn spec_validation_layer() -> Seq<char> {
    "VK_LAYER_KHRONOS_validation"@
}

/// The name of the validation layer.
pub fn validation_layer() -> (name: String)
    ensures
        name@ == spec_validation_layer(),
{
    "VK_LAYER_KHRONOS_validation".to_string()
}

/// The names of the device extensions the renderer asks for: swapchains and
/// pushed descriptors.
pub open spec fn spec_device_extensions() -> Seq<Seq<char>> {
    seq!["VK_KHR_swapchain"@, "VK_KHR_push_descriptor"@]
}

/// The names of the device extensions the renderer asks for.
pub fn device_extensions() -> (names: Vec<String>)
    ensures
        names@.map_values(|n: String| n@) == spec_device_extensions(),
{
    let mut names: Vec<String> = Vec::new();
    names.push("VK_KHR_swapchain".to_string());
    names.push("VK_KHR_push_descriptor".to_string());
    assert(names@.map_values(|n: String| n@) =~= spec_device_extensions());
    names
}

/// Whether `name` is one of `available`.
pub open spec fn is_available(available: Seq<String>, name: Seq<char>) -> bool {
    exists|i: int| 0 <= i < available.len() && available[i]@ == name
}

/// The first required name that is not available, in the order required:
/// the one the renderer reports when it refuses the driver.
pub fn first_missing(available: &[String], required: &[String]) -> (missing: Option<usize>)
    ensures
        match missing {
            None => forall|k: int| 0 <= k < required@.len() ==> is_available(available@, #[trigger] required@[k]@),
            Some(k) => {
                &&& k < required@.len()
                &&& !is_available(available@, required@[k as int]@)
                &&& forall|j: int| 0 <= j < k ==> is_available(available@, #[trigger] required@[j]@)
            },
        },
{
    let mut k: usize = 0;
    while k < required.len()
        invariant
            0 <= k <= required@.len(),
            forall|j: int| 0 <= j < k ==> is_available(available@, #[trigger] required@[j]@),
        decreases required@.len() - k,
    {
        let mut found = false;
        let mut i: usize = 0;
        while i < available.len()
            invariant
                0 <= i <= available@.len(),
                k < required@.len(),
                found ==> is_available(available@, required@[k as int]@),
                !found ==> forall|j: int| 0 <= j < i ==> available@[j]@ != required@[k as int]@,
            decreases available@.len() - i,
        {
            if str_eq(available[i].as_str(), required[k].as_str()) {
                found = true;
            }
            i += 1;
        }
        if !found {
            return Some(k);
        }
        k += 1;
    }
    None
}

/// Whether memory type `i` is allowed by the resource and has the wanted
/// properties.
pub open spec fn memory_type_suits(memory_type_flags: Seq<u32>, memory_type_bits: u32, property_flags: u32, i: int) -> bool {
    &&& (1u32 << (i as u32)) & memory_type_bits != 0
    &&& memory_type_flags[i] & property_flags == property_flags
}

/// The first memory type of the device that the resource allows and that
/// has all the wanted properties; `memory_type_flags` holds the properties
/// of each memory type of the device (there are at most 32).
pub fn find_memory_type_index(memory_type_flags: &[u32], memory_type_bits: u32, property_flags: u32) -> (index:
    Option<u32>)
    requires
        memory_type_flags@.len() <= 32,
    ensures
        match index {
            None => forall|i: int|
                0 <= i < memory_type_flags@.len() ==> !#[trigger] memory_type_suits(
                    memory_type_flags@,
                    memory_type_bits,
                    property_flags,
                    i,
                ),
            Some(i) => {
                &&& i < memory_type_flags@.len()
                &&& memory_type_suits(memory_type_flags@, memory_type_bits, property_flags, i as int)
                &&& forall|j: int|
                    0 <= j < i ==> !#[trigger] memory_type_suits(
                        memory_type_flags@,
                        memory_type_bits,
                        property_flags,
                        j,
                    )
            },
        },
{
    let mut i: usize = 0;
    while i < memory_type_flags.len()
        invariant
            0 <= i <= memory_type_flags@.len() <= 32,
            forall|j: int|
                0 <= j < i ==> !#[trigger] memory_type_suits(
                    memory_type_flags@,
                    memory_type_bits,
                    property_flags,
                    j,
                ),
        decreases memory_type_flags@.len() - i,
    {
        let shift = i as u32;
        if (1u32 << shift) & memory_type_bits != 0 && memory_type_flags[i] & property_flags
            == property_flags {
            return Some(shift);
        }
        i += 1;
    }
    None
}

/// The first queue family that can draw, compute and transfer, numbered as
/// Vulkan numbers it.
pub fn select_queue_family(queue_flags: &[u32]) -> (family: Option<u32>)
    ensures
        match family {
            None => forall|i: int|
                0 <= i < queue_flags@.len() ==> #[trigger] queue_flags@[i] & REQUIRED_QUEUE_FLAGS
                    != REQUIRED_QUEUE_FLAGS,
            Some(f) => exists|i: int|
                {
                    &&& 0 <= i < queue_flags@.len()
                    &&& f == i as u32
                    &&& #[trigger] queue_flags@[i] & REQUIRED_QUEUE_FLAGS == REQUIRED_QUEUE_FLAGS
                    &&& forall|j: int|
                        0 <= j < i ==> #[trigger] queue_flags@[j] & REQUIRED_QUEUE_FLAGS
                            != REQUIRED_QUEUE_FLAGS
                },
        },
{
    let mut i: usize = 0;
    while i < queue_flags.len()
        invariant
            0 <= i <= queue_flags@.len(),
            forall|j: int|
                0 <= j < i ==> #[trigger] queue_flags@[j] & REQUIRED_QUEUE_FLAGS
                    != REQUIRED_QUEUE_FLAGS,
        decreases queue_flags@.len() - i,
    {
        if queue_flags[i] & REQUIRED_QUEUE_FLAGS == REQUIRED_QUEUE_FLAGS {
            return Some(i as u32);
        }
        i += 1;
    }
    None
}

/// What a physical device offers that the renderer relies on.
#[derive(Clone, Copy, Debug, PartialEq, Eq, Structural)]
pub struct DeviceFeatures {
    pub dynamic_rendering: bool,
    pub synchronization2: bool,
    pub discrete_gpu: bool,
    /// `framebufferColorSampleCounts` of the device's limits.
    pub framebuffer_color_sample_counts: u32,
}

/// Whether the device has the features, the kind and the sample count that
/// the renderer needs.
pub open spec fn device_features_suffice(features: DeviceFeatures) -> bool {
    &&& features.dynamic_rendering
    &&& features.synchronization2
    &&& features.discrete_gpu
    &&& features.framebuffer_color_sample_counts & DEFAULT_SAMPLE_COUNT == DEFAULT_SAMPLE_COUNT
}

/// The queue family the renderer would use on a device, when the device is
/// one it can use; whether that family can present to the surface is asked
/// of the driver next.
pub fn device_queue_family(features: DeviceFeatures, queue_flags: &[u32]) -> (family: Option<u32>)
    ensures
        !device_features_suffice(features) ==> family is None,
        device_features_suffice(features) ==> match family {
            None => forall|i: int|
                0 <= i < queue_flags@.len() ==> #[trigger] queue_flags@[i] & REQUIRED_QUEUE_FLAGS
                    != REQUIRED_QUEUE_FLAGS,
            Some(f) => exists|i: int|
                {
                    &&& 0 <= i < queue_flags@.len()
                    &&& f == i as u32
                    &&& #[trigger] queue_flags@[i] & REQUIRED_QUEUE_FLAGS == REQUIRED_QUEUE_FLAGS
                    &&& forall|j: int|
                        0 <= j < i ==> #[trigger] queue_flags@[j] & REQUIRED_QUEUE_FLAGS
                            != REQUIRED_QUEUE_FLAGS
                },
        },
{
    if !features.dynamic_rendering || !features.synchronization2 || !features.discrete_gpu {
        return None;
    }
    if features.framebuffer_color_sample_counts & DEFAULT_SAMPLE_COUNT != DEFAULT_SAMPLE_COUNT {
        return None;
    }
    select_queue_family(queue_flags)
}

/// What a surface supports, as the driver reports it.
#[derive(Clone, Debug)]
pub struct SurfaceSupport {
    /// The supported formats, as (format, color space) pairs.
    pub formats: Vec<(i32, i32)>,
    pub min_image_count: u32,
    pub max_image_count: u32,
    pub supported_transforms: u32,
    pub supported_composite_alpha: u32,
    pub supported_usage_flags: u32,
    pub present_modes: Vec<i32>,
}

/// Why a surface cannot hold the renderer's swapchain.
#[derive(Clone, Copy, Debug, PartialEq, Eq, Structural)]
pub enum SurfaceError {
    /// The sRGB BGRA format is not supported.
    Format,
    /// The surface needs more images than the frames in flight.
    MinImageCount,
    /// The surface allows fewer images than the frames in flight.
    MaxImageCount,
    /// The identity transform is not supported.
    Transform,
    /// Opaque composition is not supported.
    CompositeAlpha,
    /// Swapchain images cannot be color attachments.
    Usage,
    /// FIFO presentation is not supported.
    PresentMode,
}

/// The first reason, in the order the renderer checks them, why a surface
/// cannot hold the swapchain, or none.
pub open spec fn spec_check_surface(s: SurfaceSupport) -> Option<SurfaceError> {
    if !s.formats@.contains((DEFAULT_SURFACE_FORMAT, DEFAULT_SURFACE_COLOR_SPACE)) {
        Some(SurfaceError::Format)
    } else if MAX_CONCURRENT_FRAMES < s.min_image_count {
        Some(SurfaceError::MinImageCount)
    } else if MAX_CONCURRENT_FRAMES > s.max_image_count {
        Some(SurfaceError::MaxImageCount)
    } else if s.supported_transforms & PRE_TRANSFORM != PRE_TRANSFORM {
        Some(SurfaceError::Transform)
    } else if s.supported_composite_alpha & COMPOSITE_ALPHA != COMPOSITE_ALPHA {
        Some(SurfaceError::CompositeAlpha)
    } else if s.supported_usage_flags & IMAGE_USAGE != IMAGE_USAGE {
        Some(SurfaceError::Usage)
    } else if !s.present_modes@.contains(DEFAULT_PRESENT_MODE) {
        Some(SurfaceError::PresentMode)
    } else {
        None
    }
}

/// Checks that a surface can hold the renderer's swapchain.
pub fn check_surface(s: &SurfaceSupport) -> (res: Result<(), SurfaceError>)
    ensures
        match spec_check_surface(*s) {
            None => res is Ok,
            Some(e) => res == Err::<(), SurfaceError>(e),
        },
{
    let mut has_format = false;
    let mut i: usize = 0;
    while i < s.formats.len()
        invariant
            0 <= i <= s.formats@.len(),
            has_format == exists|j: int|
                0 <= j < i && s.formats@[j] == (DEFAULT_SURFACE_FORMAT, DEFAULT_SURFACE_COLOR_SPACE),
        decreases s.formats@.len() - i,
    {
        let (format, color_space) = s.formats[i];
        if format == DEFAULT_SURFACE_FORMAT && color_space == DEFAULT_SURFACE_COLOR_SPACE {
            has_format = true;
        }
        i += 1;
    }
    if !has_format {
        return Err(SurfaceError::Format);
    }
    if MAX_CONCURRENT_FRAMES < s.min_image_count {
        return Err(SurfaceError::MinImageCount);
    }
    if MAX_CONCURRENT_FRAMES > s.max_image_count {
        return Err(SurfaceError::MaxImageCount);
    }
    if s.supported_transforms & PRE_TRANSFORM != PRE_TRANSFORM {
        return Err(SurfaceError::Transform);
    }
    if s.supported_composite_alpha & COMPOSITE_ALPHA != COMPOSITE_ALPHA {
        return Err(SurfaceError::CompositeAlpha);
    }
    if s.supported_usage_flags & IMAGE_USAGE != IMAGE_USAGE {
        return Err(SurfaceError::Usage);
    }
    let mut has_mode = false;
    let mut k: usize = 0;
    while k < s.present_modes.len()
        invariant
            0 <= k <= s.present_modes@.len(),
            has_mode == exists|j: int| 0 <= j < k && s.present_modes@[j] == DEFAULT_PRESENT_MODE,
        decreases s.present_modes@.len() - k,
    {
        if s.present_modes[k] == DEFAULT_PRESENT_MODE {
            has_mode = true;
        }
        k += 1;
    }
    if !has_mode {
        return Err(SurfaceError::PresentMode);
    }
    Ok(())
}

/// What the driver answered at a point of a redraw.
#[derive(Clone, Copy, Debug, PartialEq, Eq, Structural)]
pub enum RedrawEvent {
    /// The redraw starts.
    Begin,
    /// The next swapchain image was acquired, or not.
    Acquired(bool),
    /// The frame was presented, or not.
    Presented(bool),
}

/// What the renderer does next in a redraw.
#[derive(Clone, Copy, Debug, PartialEq, Eq, Structural)]
pub enum RedrawAction {
    /// Draw nothing: the window is minimized.
    Skip,
    /// Go on with the frame.
    Continue,
    /// Rebuild the swapchain and its targets at this size, and end the frame.
    Recreate(WindowSize),
    /// End the frame, keeping the swapchain.
    Finish,
}

/// A window size with no area (a minimized window).
pub open spec fn size_is_zero(size: WindowSize) -> bool {
    size.w == 0 && size.h == 0
}

/// The decision of a redraw at each answer of the driver, for a window in
/// use at `window_size` whose pending size is `resized`: nothing is drawn
/// for a minimized window; a failed acquire rebuilds the swapchain at the
/// size in use; after presenting, a failure or a pending resize rebuilds it
/// at the pending size.
pub open spec fn spec_redraw_step(window_size: WindowSize, resized: WindowSize, event: RedrawEvent) -> RedrawAction {
    match event {
        RedrawEvent::Begin => if size_is_zero(window_size) || size_is_zero(resized) {
            RedrawAction::Skip
        } else {
            RedrawAction::Continue
        },
        RedrawEvent::Acquired(ok) => if ok {
            RedrawAction::Continue
        } else {
            RedrawAction::Recreate(window_size)
        },
        RedrawEvent::Presented(ok) => if !ok || window_size != resized {
            RedrawAction::Recreate(resized)
        } else {
            RedrawAction::Finish
        },
    }
}

/// Decides the next step of a redraw.
pub fn redraw_step(window_size: WindowSize, resized: WindowSize, event: RedrawEvent) -> (action:
    RedrawAction)
    ensures
        action == spec_redraw_step(window_size, resized, event),
{
    match event {
        RedrawEvent::Begin => {
            if window_size.is_zero() || resized.is_zero() {
                RedrawAction::Skip
            } else {
                RedrawAction::Continue
            }
        },
        RedrawEvent::Acquired(ok) => {
            if ok {
                RedrawAction::Continue
            } else {
                RedrawAction::Recreate(window_size)
            }
        },
        RedrawEvent::Presented(ok) => {
            if !ok || window_size != resized {
                RedrawAction::Recreate(resized)
            } else {
                RedrawAction::Finish
            }
        },
    }
}

/// The size of the swapchain after an action, from `extent` before it.
pub open spec fn extent_after(action: RedrawAction, extent: WindowSize) -> WindowSize {
    match action {
        RedrawAction::Recreate(size) => size,
        _ => extent,
    }
}

/// Law: when the swapchain has the size the window is in use at, a frame
/// that is drawn and presented leaves the swapchain at the size the window
/// takes once the resize is handled; so the swapchain keeps the window's size
/// from frame to frame.
pub proof fn lemma_swapchain_keeps_window_size(before: Window, after: Window, extent: WindowSize)
    requires
        extent == before.spec_size(),
        after.spec_size() == before.spec_new_size(),
        !size_is_zero(before.spec_size()),
        !size_is_zero(before.spec_new_size()),
    ensures
        spec_redraw_step(before.spec_size(), before.spec_new_size(), RedrawEvent::Begin)
            == RedrawAction::Continue,
        spec_redraw_step(before.spec_size(), before.spec_new_size(), RedrawEvent::Acquired(true))
            == RedrawAction::Continue,
        extent_after(
            spec_redraw_step(before.spec_size(), before.spec_new_size(), RedrawEvent::Presented(true)),
            extent,
        ) == after.spec_size(),
{
}

} // verus!

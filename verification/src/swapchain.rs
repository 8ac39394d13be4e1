//! The settings a swapchain is created with, chosen from what the surface
//! supports, and the layouts an image is blitted in.
use crate::align::{align_up, div_ceil};
use crate::types::dispatch_optimal_size;
use vstd::prelude::*;

verus! {

/// `VkFormat` values of the two sRGB RGBA8 formats.
pub const FORMAT_R8G8B8A8_SRGB: i32 = 43;
pub const FORMAT_B8G8R8A8_SRGB: i32 = 50;

/// `VkImageLayout` values.
pub const IMAGE_LAYOUT_UNDEFINED: i32 = 0;
pub const IMAGE_LAYOUT_GENERAL: i32 = 1;

/// A pixel format and color space that a surface can present.
#[derive(Debug, Clone, Copy)]
pub struct SurfaceFormat {
    pub format: i32,
    pub color_space: i32,
}

/// A width and height in pixels.
#[derive(Debug, Clone, Copy)]
pub struct Extent2D {
    pub width: u32,
    pub height: u32,
}

/// What a surface supports: how many images a swapchain may hold and how
/// large they may be.
#[derive(Debug, Clone, Copy)]
pub struct SurfaceCapabilities {
    pub min_image_count: u32,
    pub max_image_count: u32,
    pub current_extent: Extent2D,
    pub max_image_extent: Extent2D,
}

/// `format` is one of the sRGB RGBA8 formats.
pub open spec fn is_srgb_rgba8(format: SurfaceFormat) -> bool {
    format.format == FORMAT_B8G8R8A8_SRGB || format.format == FORMAT_R8G8B8A8_SRGB
}

/// Picks the first sRGB RGBA8 format the surface offers, or its first format
/// where it offers none.
pub fn choose_surface_format(formats: &Vec<SurfaceFormat>) -> (chosen: SurfaceFormat)
    requires
        formats@.len() > 0,
    ensures
        ({
            ||| exists|i: int|
                0 <= i < formats@.len() && chosen == formats@[i] && is_srgb_rgba8(formats@[i])
                    && forall|j: int| 0 <= j < i ==> !is_srgb_rgba8(#[trigger] formats@[j])
            ||| (forall|j: int| 0 <= j < formats@.len() ==> !is_srgb_rgba8(#[trigger] formats@[j]))
                && chosen == formats@[0]
        }),
{
    let mut i: usize = 0;
    while i < formats.len()
        invariant
            i <= formats@.len(),
            forall|j: int| 0 <= j < i ==> !is_srgb_rgba8(#[trigger] formats@[j]),
        decreases formats@.len() - i,
    {
        let format = formats[i];
        if format.format == FORMAT_B8G8R8A8_SRGB || format.format == FORMAT_R8G8B8A8_SRGB {
            return format;
        }
        i += 1;
    }
    formats[0]
}

/// The number of swapchain images: three where the surface allows that
/// many, never fewer than its minimum.
pub fn image_count(capabilities: &SurfaceCapabilities) -> (count: u32)
    ensures
        count == if capabilities.min_image_count > (if capabilities.max_image_count < 3 {
            capabilities.max_image_count
        } else {
            3
        }) {
            capabilities.min_image_count
        } else if capabilities.max_image_count < 3 {
            capabilities.max_image_count
        } else {
            3
        },
{
    let capped = if capabilities.max_image_count < 3 {
        capabilities.max_image_count
    } else {
        3
    };
    if capabilities.min_image_count > capped {
        capabilities.min_image_count
    } else {
        capped
    }
}

/// The current extent of the surface, cut down to the largest extent it
/// allows (the current extent may lie outside it).
pub fn clamp_extent(capabilities: &SurfaceCapabilities) -> (extent: Extent2D)
    ensures
        extent.width == if capabilities.current_extent.width
            <= capabilities.max_image_extent.width {
            capabilities.current_extent.width
        } else {
            capabilities.max_image_extent.width
        },
        extent.height == if capabilities.current_extent.height
            <= capabilities.max_image_extent.height {
            capabilities.current_extent.height
        } else {
            capabilities.max_image_extent.height
        },
{
    let current = capabilities.current_extent;
    let max = capabilities.max_image_extent;
    Extent2D {
        width: if current.width <= max.width {
            current.width
        } else {
            max.width
        },
        height: if current.height <= max.height {
            current.height
        } else {
            max.height
        },
    }
}

/// The layout a blit destination returns to: an image whose contents were
/// undefined ends in the general layout, any other in its own.
pub fn restored_layout(initial_layout: i32) -> (layout: i32)
    ensures
        layout == if initial_layout == IMAGE_LAYOUT_UNDEFINED {
            IMAGE_LAYOUT_GENERAL
        } else {
            initial_layout
        },
{
    if initial_layout == IMAGE_LAYOUT_UNDEFINED {
        IMAGE_LAYOUT_GENERAL
    } else {
        initial_layout
    }
}

/// `VK_SUBOPTIMAL_KHR`.
pub const RESULT_SUBOPTIMAL: i32 = 1_000_001_003;
/// `VK_ERROR_OUT_OF_DATE_KHR`.
pub const RESULT_OUT_OF_DATE: i32 = -1_000_001_004;

/// What a frame does after asking the swapchain for an image.
#[derive(Debug, Clone, Copy, PartialEq, Eq, Structural)]
pub enum AcquireOutcome {
    /// Draw into the image, resizing the swapchain first where it no longer
    /// matches the surface exactly.
    Draw { resize_first: bool },
    /// Resize the swapchain and skip this frame.
    ResizeAndSkip,
    /// Stop with this error code.
    Fail(i32),
}

/// What a frame does after presenting its image.
#[derive(Debug, Clone, Copy, PartialEq, Eq, Structural)]
pub enum PresentOutcome {
    /// The frame is done.
    Done,
    /// Resize the swapchain.
    Resize,
    /// Stop with this error code.
    Fail(i32),
}

/// The next step after acquiring an image gave `result`: `Ok` with whether
/// the swapchain is suboptimal, or `Err` with the error code. An
/// out-of-date or suboptimal error resizes and skips the frame; any other
/// error is fatal.
pub fn after_acquire(result: Result<bool, i32>) -> (outcome: AcquireOutcome)
    ensures
        outcome == match result {
            Ok(suboptimal) => AcquireOutcome::Draw { resize_first: suboptimal },
            Err(code) => if code == RESULT_OUT_OF_DATE || code == RESULT_SUBOPTIMAL {
                AcquireOutcome::ResizeAndSkip
            } else {
                AcquireOutcome::Fail(code)
            },
        },
{
    match result {
        Ok(suboptimal) => AcquireOutcome::Draw { resize_first: suboptimal },
        Err(code) => {
            if code == RESULT_OUT_OF_DATE || code == RESULT_SUBOPTIMAL {
                AcquireOutcome::ResizeAndSkip
            } else {
                AcquireOutcome::Fail(code)
            }
        },
    }
}

/// The next step after presenting gave `result`: a suboptimal swapchain, or
/// an out-of-date or suboptimal error, resizes; any other error is fatal.
pub fn after_present(result: Result<bool, i32>) -> (outcome: PresentOutcome)
    ensures
        outcome == match result {
            Ok(suboptimal) => if suboptimal {
                PresentOutcome::Resize
            } else {
                PresentOutcome::Done
            },
            Err(code) => if code == RESULT_OUT_OF_DATE || code == RESULT_SUBOPTIMAL {
                PresentOutcome::Resize
            } else {
                PresentOutcome::Fail(code)
            },
        },
{
    match result {
        Ok(suboptimal) => {
            if suboptimal {
                PresentOutcome::Resize
            } else {
                PresentOutcome::Done
            }
        },
        Err(code) => {
            if code == RESULT_OUT_OF_DATE || code == RESULT_SUBOPTIMAL {
                PresentOutcome::Resize
            } else {
                PresentOutcome::Fail(code)
            }
        },
    }
}

/// The side of a compute work group of the Vulkan renderer.
pub const COMPUTE_SUBGROUP_SIZE: u32 = 16;

/// The compute work of a frame of the Vulkan renderer, where its `paused`
/// flag (which its `pause` toggles, and which starts unset) is set: the
/// previous frame is blitted aside and the compute shader dispatched over
/// the frame of `extent` in 16 by 16 work groups, whose counts are given;
/// `None` where the flag is unset and no compute work is recorded.
pub fn compute_pass(paused: bool, extent: Extent2D) -> (groups: Option<(u32, u32)>)
    requires
        paused ==> align_up(extent.width as int, COMPUTE_SUBGROUP_SIZE as int) <= u32::MAX,
        paused ==> align_up(extent.height as int, COMPUTE_SUBGROUP_SIZE as int) <= u32::MAX,
    ensures
        groups == if paused {
            Some(
                (
                    div_ceil(extent.width as int, COMPUTE_SUBGROUP_SIZE as int) as u32,
                    div_ceil(extent.height as int, COMPUTE_SUBGROUP_SIZE as int) as u32,
                ),
            )
        } else {
            None
        },
{
    if paused {
        Some(
            (
                dispatch_optimal_size(extent.width, COMPUTE_SUBGROUP_SIZE),
                dispatch_optimal_size(extent.height, COMPUTE_SUBGROUP_SIZE),
            ),
        )
    } else {
        None
    }
}

} // verus!

use pilka::capture::{
    capture_realloc, CaptureRealloc,
    capture_format, capture_plan, captured_size, needs_larger_buffer, needs_two_step_blit,
    realloc_extent, texture_copy_regions, CopyRegion, Extent3D, MEMORY_DEVICE_LOCAL,
    MEMORY_HOST_READBACK,
};
use pilka::swapchain::{compute_pass, Extent2D};

#[test]
fn capture_format_maps_bgra_to_rgba() {
    assert_eq!(capture_format(50), 43);
    assert_eq!(capture_format(48), 41);
    assert_eq!(capture_format(49), 42);
    assert_eq!(capture_format(45), 38);
    assert_eq!(capture_format(46), 39);
    assert_eq!(capture_format(47), 40);
}

#[test]
fn capture_format_falls_back_to_rgb_unorm() {
    assert_eq!(capture_format(44), 23);
    assert_eq!(capture_format(43), 23);
    assert_eq!(capture_format(0), 23);
}

#[test]
fn two_step_blit_only_without_linear_blit() {
    assert!(needs_two_step_blit(0, 0x800));
    assert!(!needs_two_step_blit(0x800, 0x800));
    assert!(!needs_two_step_blit(0, 0));
    assert!(!needs_two_step_blit(0xffff, 0));
}

#[test]
fn capture_plan_two_steps() {
    let plan = capture_plan(Extent2D { width: 801, height: 601 }, 50, true);
    assert_eq!(plan.extent, Extent3D { width: 801, height: 602, depth: 1 });
    assert_eq!(plan.format, 43);
    assert_eq!(plan.image_memory, MEMORY_DEVICE_LOCAL);
    assert_eq!(plan.blit_memory, Some(MEMORY_HOST_READBACK));
    assert_eq!(MEMORY_HOST_READBACK, 0x2 | 0x4 | 0x8);
}

#[test]
fn capture_plan_direct() {
    let plan = capture_plan(Extent2D { width: 800, height: 600 }, 44, false);
    assert_eq!(plan.extent, Extent3D { width: 800, height: 600, depth: 1 });
    assert_eq!(plan.format, 23);
    assert_eq!(plan.image_memory, MEMORY_HOST_READBACK);
    assert_eq!(plan.blit_memory, None);
}

#[test]
fn realloc_extent_only_on_change() {
    let current = Extent3D { width: 800, height: 600, depth: 1 };
    assert_eq!(realloc_extent(current, current), None);
    let requested = Extent3D { width: 1024, height: 767, depth: 1 };
    assert_eq!(
        realloc_extent(current, requested),
        Some(Extent3D { width: 1024, height: 768, depth: 1 })
    );
}

#[test]
fn larger_buffer_when_frame_does_not_fit() {
    let extent = Extent3D { width: 2, height: 2, depth: 1 };
    assert!(needs_larger_buffer(extent, 15));
    assert!(!needs_larger_buffer(extent, 16));
    assert!(!needs_larger_buffer(extent, 100));
}

#[test]
fn captured_size_from_layout() {
    assert_eq!(captured_size(3200, 3200 * 600), (800, 600));
    assert_eq!(captured_size(3202, 3202 * 10 + 5), (800, 10));
}

#[test]
fn texture_regions_follow_the_levels() {
    let regions = texture_copy_regions(256, 64, 3, &vec![100, 50, 25, 10]);
    assert_eq!(
        regions,
        vec![
            CopyRegion { mip_level: 0, width: 256, height: 64, buffer_offset: 100 },
            CopyRegion { mip_level: 1, width: 128, height: 32, buffer_offset: 150 },
            CopyRegion { mip_level: 2, width: 64, height: 16, buffer_offset: 175 },
        ]
    );
}

#[test]
fn texture_regions_stay_at_least_one_pixel() {
    let regions = texture_copy_regions(4, 1, 3, &vec![16, 4, 1]);
    assert_eq!(regions[2], CopyRegion { mip_level: 2, width: 1, height: 1, buffer_offset: 21 });
    assert_eq!(regions[1].height, 1);
    assert!(texture_copy_regions(4, 4, 0, &vec![]).is_empty());
}

#[test]
fn capture_realloc_only_on_new_size() {
    let a = Extent3D { width: 800, height: 600, depth: 1 };
    let b = Extent3D { width: 1024, height: 768, depth: 1 };
    assert_eq!(capture_realloc(a, a, 1 << 30, 0), CaptureRealloc { recreate_image: false, grow_memory: false });
    assert_eq!(capture_realloc(a, b, 4096, 8192), CaptureRealloc { recreate_image: true, grow_memory: false });
    assert_eq!(capture_realloc(a, b, 8193, 8192), CaptureRealloc { recreate_image: true, grow_memory: true });
}

#[test]
fn compute_pass_only_while_flag_set() {
    let extent = Extent2D { width: 1920, height: 1081 };
    assert_eq!(compute_pass(false, extent), None);
    assert_eq!(compute_pass(true, extent), Some((120, 68)));
}

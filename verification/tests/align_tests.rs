use pilka::align::{align_to, align_to_u32, dispatch_optimal};
use pilka::image::{ImageDimensions, ImageDimentions as ScreenshotDimentions};
use pilka::types::{dispatch_optimal_size, ImageDimentions};
use pilka::vk_utils::{return_aligned, size_of_slice};

#[test]
fn align_to_keeps_aligned_values() {
    assert_eq!(align_to(256, 256), 256);
    assert_eq!(align_to(0, 8), 0);
}

#[test]
fn align_to_rounds_up_to_next_multiple() {
    assert_eq!(align_to(1, 256), 256);
    assert_eq!(align_to(257, 256), 512);
    assert_eq!(align_to(7, 3), 9);
    assert_eq!(align_to_u32(1279, 2), 1280);
    assert_eq!(align_to_u32(1280, 2), 1280);
}

#[test]
fn align_to_reaches_the_top_of_the_range() {
    // usize::MAX is a multiple of 3, reached from one below.
    assert_eq!(align_to(usize::MAX - 3, 3), usize::MAX - 3);
    assert_eq!(align_to_u32(u32::MAX - 1, 1), u32::MAX - 1);
}

#[test]
fn dispatch_counts_groups_rounded_up() {
    assert_eq!(dispatch_optimal(1920, 16), 120);
    assert_eq!(dispatch_optimal(1921, 16), 121);
    assert_eq!(dispatch_optimal(0, 16), 0);
    assert_eq!(dispatch_optimal(15, 16), 1);
    assert_eq!(dispatch_optimal_size(1080, 16), 68);
    assert_eq!(dispatch_optimal_size(1, 1), 1);
}

#[test]
fn dispatch_groups_cover_the_length() {
    for len in 0..200u32 {
        for size in 1..20u32 {
            let groups = dispatch_optimal(len, size);
            assert!(groups * size >= len);
            assert!(groups * size < len + size);
        }
    }
}

#[test]
fn return_aligned_pads_lengths() {
    assert_eq!(return_aligned(10, 4), 12);
    assert_eq!(return_aligned(12, 4), 12);
    assert_eq!(return_aligned(0, 64), 0);
}

#[test]
fn size_of_slice_counts_bytes() {
    let words = [0u32; 5];
    assert_eq!(size_of_slice(&words), 20);
    let bytes: [u8; 0] = [];
    assert_eq!(size_of_slice(&bytes), 0);
    let pairs = [(0u64, 0u16); 3];
    assert_eq!(size_of_slice(&pairs), 3 * std::mem::size_of::<(u64, u16)>());
}

#[test]
fn image_dimentions_pad_rows() {
    let dims = ImageDimentions::new(1921, 1080, 256);
    assert_eq!(dims.width, 1921);
    assert_eq!(dims.height, 1080);
    assert_eq!(dims.unpadded_bytes_per_row, 7684);
    assert_eq!(dims.padded_bytes_per_row, 7936);
    assert_eq!(dims.linear_size(), 7936 * 1080);
}

#[test]
fn image_dimentions_keep_aligned_rows() {
    let dims = ImageDimentions::new(64, 2, 256);
    assert_eq!(dims.unpadded_bytes_per_row, 256);
    assert_eq!(dims.padded_bytes_per_row, 256);
    assert_eq!(dims.linear_size(), 512);
}

#[test]
fn linear_size_does_not_overflow_u32() {
    let dims = ImageDimentions {
        width: 1,
        height: u32::MAX,
        unpadded_bytes_per_row: 4,
        padded_bytes_per_row: u32::MAX,
    };
    assert_eq!(dims.linear_size(), u32::MAX as u64 * u32::MAX as u64);
}

#[test]
fn image_dimensions_align_rows() {
    let dims = ImageDimensions::new(1366, 768, 256);
    assert_eq!(dims.unpadded_bytes_per_row, 5464);
    assert_eq!(dims.padded_bytes_per_row, 5632);
    assert_eq!(dims.width, 1366);
    assert_eq!(dims.height, 768);
    let dims = ImageDimensions::new(3, 1, 1);
    assert_eq!(dims.padded_bytes_per_row, 12);
}

#[test]
fn screenshot_dimentions_align_rows() {
    let dims = ScreenshotDimentions::new(800, 600, 64);
    assert_eq!(dims.unpadded_bytes_per_row, 3200);
    assert_eq!(dims.padded_bytes_per_row, 3200);
    let dims = ScreenshotDimentions::new(801, 600, 64);
    assert_eq!(dims.unpadded_bytes_per_row, 3204);
    assert_eq!(dims.padded_bytes_per_row, 3264);
}

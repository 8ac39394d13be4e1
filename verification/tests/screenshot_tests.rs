use pilka::frames::rows_fit;
use pilka::image::ImageDimensions;
use pilka::screenshot::{can_encode, screenshot_png};

#[test]
fn screenshot_is_a_png_of_the_pixels() {
    let dims = ImageDimensions::new(2, 2, 16);
    let mut frame = vec![0u8; 32];
    for (i, b) in frame.iter_mut().enumerate() {
        *b = i as u8;
    }
    let png = screenshot_png(&frame, dims).unwrap();
    assert_eq!(&png[..8], &[0x89, b'P', b'N', b'G', 0x0d, 0x0a, 0x1a, 0x0a]);
    assert_eq!(&png[16..24], &[0, 0, 0, 2, 0, 0, 0, 2]);
    assert_eq!(png[24], 8);
    assert_eq!(png[25], 6);
    assert_eq!(&png[png.len() - 8..png.len() - 4], b"IEND");
}

#[test]
fn screenshot_padding_does_not_matter() {
    let tight = ImageDimensions::new(2, 2, 8);
    let padded = ImageDimensions::new(2, 2, 16);
    let pixels: Vec<u8> = (0..16).collect();
    let mut frame = vec![0xffu8; 32];
    frame[..8].copy_from_slice(&pixels[..8]);
    frame[16..24].copy_from_slice(&pixels[8..]);
    assert_eq!(screenshot_png(&pixels, tight), screenshot_png(&frame, padded));
}

#[test]
fn screenshot_of_missing_rows_fails() {
    let dims = ImageDimensions::new(2, 3, 8);
    let frame = vec![0u8; 16];
    assert!(screenshot_png(&frame, dims).is_none());
}

#[test]
fn frames_that_can_be_encoded() {
    let dims = ImageDimensions::new(2, 2, 16);
    assert!(can_encode(32, dims));
    assert!(can_encode(24, dims));
    assert!(!can_encode(20, dims));
    assert!(rows_fit(32, 16, 8));
    assert!(!rows_fit(32, 0, 0));
    assert!(!rows_fit(20, 16, 8));
}

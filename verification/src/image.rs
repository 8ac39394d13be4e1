//! Row layouts of RGBA8 images whose rows are padded to an alignment.
use crate::align::{align_to, align_up, lemma_padding_reaches_align_up};
use vstd::prelude::*;

verus! {

/// Bytes in one RGBA8 pixel.
pub const CHANNEL_WIDTH: usize = 4;

/// The row layout of an RGBA8 image of `width` by `height` pixels whose rows
/// are padded for copying out of device memory.
#[derive(Debug, Clone, Copy)]
pub struct ImageDimensions {
    pub width: usize,
    pub height: usize,
    pub padded_bytes_per_row: usize,
    pub unpadded_bytes_per_row: usize,
}

impl ImageDimensions {
    /// Rows of `width` RGBA8 pixels rounded up to a multiple of `alignment`
    /// bytes can be laid out: the alignment is positive and in range, and
    /// the row length, rounded up, stays within `usize`.
    pub fn can_lay_out(width: usize, alignment: u64) -> (fits: bool)
        ensures
            fits == (0 < alignment <= usize::MAX && width * CHANNEL_WIDTH <= usize::MAX && ((
            width * CHANNEL_WIDTH) % (alignment as int) != 0 ==> width * CHANNEL_WIDTH + alignment
                <= usize::MAX)),
    {
        if alignment == 0 || alignment > usize::MAX as u64 {
            return false;
        }
        if width > usize::MAX / CHANNEL_WIDTH {
            return false;
        }
        let row = width * CHANNEL_WIDTH;
        let align = alignment as usize;
        row % align == 0 || row <= usize::MAX - align
    }

    /// Lays out rows of `width` RGBA8 pixels, each row rounded up to a
    /// multiple of `alignment` bytes.
    pub fn new(width: usize, height: usize, alignment: u64) -> (dims: Self)
        requires
            0 < alignment <= usize::MAX,
            width * CHANNEL_WIDTH <= usize::MAX,
            (width * CHANNEL_WIDTH) % (alignment as int) != 0 ==> width * CHANNEL_WIDTH
                + alignment <= usize::MAX,
        ensures
            dims.width == width,
            dims.height == height,
            dims.unpadded_bytes_per_row == width * CHANNEL_WIDTH,
            dims.padded_bytes_per_row == align_up(width * CHANNEL_WIDTH, alignment as int),
    {
        let channel_width = CHANNEL_WIDTH;
        let unpadded_bytes_per_row = width * channel_width;
        let padded_bytes_per_row = align_to(unpadded_bytes_per_row, alignment as usize);
        Self { width, height, unpadded_bytes_per_row, padded_bytes_per_row }
    }
}

/// The row layout of a captured RGBA8 frame, rows padded to an alignment.
#[derive(Debug, Clone, Copy)]
pub struct ImageDimentions {
    pub width: usize,
    pub height: usize,
    pub padded_bytes_per_row: usize,
    pub unpadded_bytes_per_row: usize,
}

impl ImageDimentions {
    /// Lays out rows of `width` RGBA8 pixels, each row padded to a multiple
    /// of `align` bytes.
    pub fn new(width: usize, height: usize, align: usize) -> (dims: Self)
        requires
            align > 0,
            width * CHANNEL_WIDTH <= usize::MAX,
            align_up(width * CHANNEL_WIDTH, align as int) <= usize::MAX,
        ensures
            dims.width == width,
            dims.height == height,
            dims.unpadded_bytes_per_row == width * CHANNEL_WIDTH,
            dims.padded_bytes_per_row == align_up(width * CHANNEL_WIDTH, align as int),
    {
        let bytes_per_pixel = CHANNEL_WIDTH;
        let unpadded_bytes_per_row = width * bytes_per_pixel;
        proof {
            lemma_padding_reaches_align_up(unpadded_bytes_per_row as int, align as int);
        }
        let padded_bytes_per_row_padding = (align - unpadded_bytes_per_row % align) % align;
        let padded_bytes_per_row = unpadded_bytes_per_row + padded_bytes_per_row_padding;
        Self { width, height, unpadded_bytes_per_row, padded_bytes_per_row }
    }
}

} // verus!

//! Screenshots: a captured frame, its rows stripped of their padding,
//! encoded as an RGBA8 PNG picture.
use crate::frames::{rows_fit, rows_hold, strip_row_padding, unpadded_rows};
use crate::image::{ImageDimensions, CHANNEL_WIDTH};
use vstd::prelude::*;

verus! {

/// The PNG file that the `png` crate writes for the RGBA8 pixel rows `rows`
/// of a `width` by `height` picture, written through a stream of `row_len`
/// bytes at a time with the Paeth and adaptive filters; `None` where the
/// encoder fails (a zero side, or rows that do not fill the picture).
pub uninterp spec fn png_rgba8(rows: Seq<u8>, width: u32, height: u32, row_len: usize) -> Option<Seq<u8>>;

/// Encodes with the `png` crate: `Encoder::new` into a byte vector, RGBA
/// color at 8 bits, `write_header`, `stream_writer_with_size`, the Paeth
/// filter and adaptive filtering, `write_all` of `rows`, then `finish` of
/// the stream and of the writer.
/// Its result is the name `png_rgba8` of the arguments; what the bytes are
/// is left unsaid.
#[verifier::external_body]
fn encode_png_rgba8(rows: &[u8], width: u32, height: u32, row_len: usize) -> (png: Option<Vec<u8>>)
    ensures
        png_rgba8(rows@, width, height, row_len) == match png {
            Some(bytes) => Some(bytes@),
            None => None,
        },
{
    let mut out = Vec::new();
    let mut encoder = png::Encoder::new(&mut out, width, height);
    encoder.set_color(png::ColorType::Rgba);
    encoder.set_depth(png::BitDepth::Eight);
    let mut writer = encoder.write_header().ok()?;
    let mut stream = writer.stream_writer_with_size(row_len).ok()?;
    stream.set_filter(png::FilterType::Paeth);
    stream.set_adaptive_filter(png::AdaptiveFilterType::Adaptive);
    std::io::Write::write_all(&mut stream, rows).ok()?;
    stream.finish().ok()?;
    writer.finish().ok()?;
    Some(out)
}

/// A frame of `len` bytes laid out as `dims` says can be encoded: its rows
/// split as `dims` says, and each row holds the pixels of the width.
pub fn can_encode(len: usize, dims: ImageDimensions) -> (ok: bool)
    ensures
        ok == (dims.padded_bytes_per_row > 0 && dims.unpadded_bytes_per_row == dims.width
            * CHANNEL_WIDTH && rows_hold(
            len as int,
            dims.padded_bytes_per_row as int,
            dims.unpadded_bytes_per_row as int,
        )),
{
    let fits = rows_fit(len, dims.padded_bytes_per_row, dims.unpadded_bytes_per_row);
    fits && dims.width <= usize::MAX / CHANNEL_WIDTH && dims.unpadded_bytes_per_row == dims.width
        * CHANNEL_WIDTH
}

/// The PNG picture of the captured frame `frame`, whose rows are laid out
/// as `dims` says: its rows cut to their pixels, encoded at the frame's
/// width and height (taken as 32-bit numbers); `None` where the encoder
/// fails.
pub fn screenshot_png(frame: &[u8], dims: ImageDimensions) -> (png: Option<Vec<u8>>)
    requires
        dims.padded_bytes_per_row > 0,
        dims.unpadded_bytes_per_row == dims.width * CHANNEL_WIDTH,
        rows_hold(
            frame@.len() as int,
            dims.padded_bytes_per_row as int,
            dims.unpadded_bytes_per_row as int,
        ),
    ensures
        png_rgba8(
            unpadded_rows(
                frame@,
                dims.padded_bytes_per_row as int,
                dims.unpadded_bytes_per_row as int,
            ),
            dims.width as u32,
            dims.height as u32,
            dims.unpadded_bytes_per_row,
        ) == match png {
            Some(bytes) => Some(bytes@),
            None => None,
        },
{
    let rows = strip_row_padding(frame, dims.padded_bytes_per_row, dims.unpadded_bytes_per_row);
    encode_png_rgba8(
        rows.as_slice(),
        dims.width as u32,
        dims.height as u32,
        dims.unpadded_bytes_per_row,
    )
}

} // verus!

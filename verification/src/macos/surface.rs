//! The bridge between the canvas and a Core Graphics bitmap.
//!
//! The canvas is premultiplied ARGB8888, little-endian: `[B, G, R, A]` in
//! memory. An image built as alpha-first in a little-endian 32-bit word
//! reads exactly that order, so the canvas needs no conversion; what remains
//! is layout arithmetic.
use vstd::prelude::*;

verus! {

/// Bytes per row for a 32-bit bitmap of this width: tightly packed, because
/// the canvas is. Padding here without padding the canvas would shear the
/// image diagonally.
pub fn bytes_per_row(width: u32) -> (bytes: usize)
    requires
        width * 4 <= usize::MAX,
    ensures
        bytes == width * 4,
{
    width as usize * 4
}

/// The bytes a bitmap of this size needs.
pub fn buffer_len(width: u32, height: u32) -> (bytes: usize)
    requires
        width * 4 <= usize::MAX,
        width * 4 * height <= usize::MAX,
    ensures
        bytes == width * 4 * height,
{
    bytes_per_row(width) * height as usize
}

/// Whether a canvas of this length matches a bitmap of these dimensions.
pub fn layout_matches(canvas_len: usize, width: u32, height: u32) -> (fits: bool)
    requires
        width * 4 <= usize::MAX,
        width * 4 * height <= usize::MAX,
    ensures
        fits == (canvas_len == width * 4 * height),
{
    canvas_len == buffer_len(width, height)
}

/// Bits per component, per the pixel format above.
pub const BITS_PER_COMPONENT: usize = 8;
/// Bits per pixel, per the pixel format above.
pub const BITS_PER_PIXEL: usize = 32;

} // verus!

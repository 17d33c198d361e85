//! The memory layout of the decoded image and the size of its surface.

use vstd::prelude::*;
use crate::d3d::spec_initial_data;
use crate::geometry::{reinterpret_i32, wrap_i32};

verus! {

/// Bytes taken by one pixel of four half-precision channels.
pub const BYTES_PER_PIXEL: u32 = 8;

/// How the decoded pixels lie in memory: tightly packed rows.
#[derive(Clone, Copy, Debug, PartialEq, Eq, Structural)]
pub struct PixelLayout {
    /// Bytes from the start of one row to the start of the next.
    pub stride: u32,
    /// Bytes in the whole image.
    pub buffer_size: u32,
}

/// The number of bytes in one row of `width` pixels.
pub open spec fn row_bytes(width: u32) -> int {
    BYTES_PER_PIXEL as int * width as int
}

/// The number of bytes in an image of `width` by `height` pixels.
pub open spec fn image_bytes(width: u32, height: u32) -> int {
    row_bytes(width) * height as int
}

/// Whether both the row size and the image size fit in 32 bits.
pub open spec fn layout_fits(width: u32, height: u32) -> bool {
    row_bytes(width) <= u32::MAX && image_bytes(width, height) <= u32::MAX
}

/// The layout of a decoded image of `width` by `height` pixels, or `None`
/// where the row size or the image size does not fit in 32 bits.
pub fn rgba_half_layout(width: u32, height: u32) -> (r: Option<PixelLayout>)
    ensures
        r.is_some() <==> layout_fits(width, height),
        r.is_some() ==> r.unwrap().stride == row_bytes(width) && r.unwrap().buffer_size
            == image_bytes(width, height),
{
    match BYTES_PER_PIXEL.checked_mul(width) {
        Some(stride) => match stride.checked_mul(height) {
            Some(buffer_size) => Some(PixelLayout { stride, buffer_size }),
            None => None,
        },
        None => None,
    }
}

/// A buffer of exactly the size that the layout gives describes itself to
/// the texture without loss: its row pitch is the stride and its slice pitch
/// is the whole image.
pub proof fn lemma_layout_describes_buffer(width: u32, height: u32)
    requires
        layout_fits(width, height),
    ensures
        spec_initial_data(row_bytes(width) as u32, image_bytes(width, height) as nat).pitch
            == row_bytes(width),
        spec_initial_data(row_bytes(width) as u32, image_bytes(width, height) as nat).slice_pitch
            == image_bytes(width, height),
{
    assert(0 <= image_bytes(width, height)) by (nonlinear_arith)
        requires
            image_bytes(width, height) == 8 * width * height,
    ;
}

/// The size of the drawing surface for an image of `width` by `height`
/// pixels. Each extent is carried over bit for bit into a signed integer.
pub fn surface_size(width: u32, height: u32) -> (r: (i32, i32))
    ensures
        r.0 == wrap_i32(width as int),
        r.1 == wrap_i32(height as int),
{
    (reinterpret_i32(width), reinterpret_i32(height))
}

/// An image whose extents are below 2^31 gets a surface of exactly its size.
pub proof fn lemma_surface_size_exact(width: u32, height: u32)
    requires
        width <= i32::MAX,
        height <= i32::MAX,
    ensures
        wrap_i32(width as int) == width,
        wrap_i32(height as int) == height,
{
}

} // verus!

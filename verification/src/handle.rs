use vstd::prelude::*;

verus! {

/// One pixel: four 8-bit channels in red, green, blue, alpha order.
#[allow(non_camel_case_types)]
#[derive(Clone, Copy, PartialEq, Eq, Structural, Debug)]
pub struct cimage_rgba8 {
    pub r: u8,
    pub g: u8,
    pub b: u8,
    pub a: u8,
}

/// A decoded image: its dimensions and the pixel buffer it owns.
///
/// The buffer holds exactly `width * height` pixels in row-major order,
/// with row 0 being the bottom row of the source image.
#[allow(non_camel_case_types)]
#[derive(Debug)]
pub struct cimage_image {
    pub width: u32,
    pub height: u32,
    pub pixels: Vec<cimage_rgba8>,
}

impl cimage_image {
    /// The handle's invariant: the buffer length matches the dimensions.
    pub open spec fn wf(self) -> bool {
        self.pixels@.len() == (self.width as int) * (self.height as int)
    }
}

/// A well-formed handle with a zero dimension owns an empty buffer: a
/// decode of a zero-sized image yields a buffer of zero elements, and
/// releasing it releases nothing but the handle.
pub proof fn lemma_zero_dimension_empty_buffer(img: cimage_image)
    requires
        img.wf(),
        img.width == 0 || img.height == 0,
    ensures
        img.pixels@.len() == 0,
{
    assert((img.width as int) * (img.height as int) == 0) by (nonlinear_arith)
        requires
            img.width == 0 || img.height == 0,
    ;
}

/// Consumes a handle and releases the pixel buffer it owns.
///
/// The handle is taken by move, so a released handle can never be
/// released again, nor read after release: the exactly-once discipline
/// is enforced by ownership rather than checked at run time.
pub fn release(handle: cimage_image) {
    let cimage_image { width: _w, height: _h, pixels: _pixels } = handle;
}

} // verus!

//! Pixel-level arithmetic of the framebuffer blit: the RGB-to-BGR channel
//! swizzle applied to each 16-bit pixel, and the byte index a coordinate
//! maps to inside the mapped framebuffer region.

use vstd::prelude::*;

use vstd::arithmetic::mul::lemma_mul_inequality;

verus! {

/// The channel-swapped form of a 16-bit RGB565 pixel: red and blue trade
/// places, green stays.
pub open spec fn spec_swizzled(v: u16) -> u16 {
    (((v & 0x1f) << 11) | (((v >> 5) & 0x3f) << 5) | ((v >> 11) & 0x1f)) as u16
}

/// Swizzles one RGB565 pixel and splits it into the two bytes written to
/// the framebuffer: low byte first, high byte second.
pub fn rgb565_to_bgr_bytes(value: u16) -> (bytes: (u8, u8))
    ensures
        bytes.0 == spec_swizzled(value) as u8,
        bytes.1 == (spec_swizzled(value) >> 8) as u8,
{
    let red = (value >> 11) & 0x1f;
    let green = (value >> 5) & 0x3f;
    let blue = value & 0x1f;
    let swapped = (blue << 11) | (green << 5) | red;
    let lo = (swapped & 0xff) as u8;
    let hi = (swapped >> 8) as u8;
    proof {
        assert(swapped == spec_swizzled(value) && lo == spec_swizzled(value) as u8 && hi == (
        spec_swizzled(value) >> 8) as u8) by (bit_vector)
            requires
                red == (value >> 11) & 0x1f,
                green == (value >> 5) & 0x3f,
                blue == value & 0x1f,
                swapped == (blue << 11) | (green << 5) | red,
                lo == (swapped & 0xff) as u8,
                hi == (swapped >> 8) as u8,
        ;
    }
    (lo, hi)
}

/// The first of the two byte positions the pixel at `(x, y)` occupies in a
/// row-major two-byte-per-pixel framebuffer of the given width. The result
/// leaves room for both bytes inside a `2 * width * height` buffer.
pub fn pixel_byte_index(x: usize, y: usize, width: usize, height: usize) -> (idx: usize)
    requires
        x < width,
        y < height,
        2 * ((width as int) * (height as int)) <= usize::MAX,
    ensures
        idx == 2 * (y * width + x),
        idx + 2 <= 2 * ((width as int) * (height as int)),
{
    proof {
        lemma_mul_inequality(y as int, height as int - 1, width as int);
        assert((height as int - 1) * (width as int) + width as int == (height as int) * (
        width as int)) by (nonlinear_arith);
        assert((height as int) * (width as int) == (width as int) * (height as int))
            by (nonlinear_arith);
        assert((y as int) * (width as int) + (x as int) + 1 <= (width as int) * (height as int));
    }
    (y * width + x) * 2
}

} // verus!

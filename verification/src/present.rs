//! Composing the plane commit that puts the framebuffer on the screen.

use vstd::prelude::*;

verus! {

/// A rectangle on the screen, in whole pixels.
#[derive(Clone, Copy, Debug, PartialEq, Eq, Structural)]
pub struct ScreenRect {
    pub x: i32,
    pub y: i32,
    pub width: u32,
    pub height: u32,
}

/// A rectangle of the framebuffer in 16.16 fixed point: the low 16 bits of
/// each number are the fraction of a pixel.
#[derive(Clone, Copy, Debug, PartialEq, Eq, Structural)]
pub struct SourceRect {
    pub x: u32,
    pub y: u32,
    pub width: u32,
    pub height: u32,
}

/// Everything the device is told when a framebuffer is put on a plane.
#[derive(Clone, Copy, Debug, PartialEq, Eq, Structural)]
pub struct PlaneCommit {
    pub plane: u32,
    pub crtc: u32,
    pub framebuffer: u32,
    pub flags: u32,
    pub dest: ScreenRect,
    pub source: SourceRect,
}

/// A whole number of pixels in 16.16 fixed point, as far as 32 bits hold it:
/// the number times 65536, without the bits that do not fit.
pub open spec fn fixed_16_16(pixels: u32) -> u32 {
    ((pixels as int * 0x1_0000) % 0x1_0000_0000) as u32
}

/// The commit that shows a framebuffer of `width` by `height` pixels on
/// `plane`, driven by `crtc`: the whole buffer as the source, the same extent
/// at the origin of the screen as the destination, no flags.
pub open spec fn full_extent(
    plane: u32,
    crtc: u32,
    framebuffer: u32,
    width: u32,
    height: u32,
) -> PlaneCommit {
    PlaneCommit {
        plane,
        crtc,
        framebuffer,
        flags: 0,
        dest: ScreenRect { x: 0, y: 0, width, height },
        source: SourceRect { x: 0, y: 0, width: fixed_16_16(width), height: fixed_16_16(height) },
    }
}

/// Converts a whole number of pixels to 16.16 fixed point.
pub fn to_fixed_16_16(pixels: u32) -> (fixed: u32)
    ensures
        fixed == fixed_16_16(pixels),
{
    let fixed: u32 = pixels << 16;
    assert(fixed as int == (pixels as int * 0x1_0000) % 0x1_0000_0000) by (bit_vector)
        requires
            fixed == pixels << 16u32,
    ;
    fixed
}

/// A fixed-point number made from whole pixels has no fraction, and below
/// 65536 pixels nothing of it is lost: its integer part is the number of
/// pixels.
pub proof fn lemma_fixed_is_whole(pixels: u32)
    ensures
        fixed_16_16(pixels) as int % 0x1_0000 == 0,
        pixels < 0x1_0000 ==> fixed_16_16(pixels) == pixels * 0x1_0000,
        pixels < 0x1_0000 ==> fixed_16_16(pixels) as int / 0x1_0000 == pixels,
{
    let product = pixels as int * 0x1_0000;
    vstd::arithmetic::div_mod::lemma_fundamental_div_mod(product, 0x1_0000_0000);
    let kept = product % 0x1_0000_0000;
    let lost = product / 0x1_0000_0000;
    assert(kept == 0x1_0000 * (pixels - 0x1_0000 * lost));
    vstd::arithmetic::div_mod::lemma_fundamental_div_mod_converse(
        kept,
        0x1_0000,
        pixels - 0x1_0000 * lost,
        0,
    );
    if pixels < 0x1_0000 {
        vstd::arithmetic::div_mod::lemma_fundamental_div_mod_converse(
            product,
            0x1_0000_0000,
            0,
            product,
        );
    }
}

/// Composes the commit that shows the whole framebuffer at the origin of the
/// screen.
pub fn plane_commit(plane: u32, crtc: u32, framebuffer: u32, width: u32, height: u32) -> (commit:
    PlaneCommit)
    ensures
        commit == full_extent(plane, crtc, framebuffer, width, height),
{
    PlaneCommit {
        plane,
        crtc,
        framebuffer,
        flags: 0,
        dest: ScreenRect { x: 0, y: 0, width, height },
        source: SourceRect {
            x: 0,
            y: 0,
            width: to_fixed_16_16(width),
            height: to_fixed_16_16(height),
        },
    }
}

} // verus!

//! The one pixel format the presenter scans out: 32-bit ARGB.

use vstd::prelude::*;

verus! {

/// The fourcc code of 32-bit ARGB, `'A' 'R' '2' '4'` packed little-endian.
pub const ARGB8888: u32 = 0x3432_5241;

/// Bits per pixel of an ARGB8888 buffer.
pub const BITS_PER_PIXEL: u32 = 32;

/// Trusted: `drm::buffer::DrmFourcc::Argb8888` converted to its raw code.
///
/// The enum's discriminant for this variant is the constant
/// `DRM_FOURCC_ARGB8888`, which the `drm-fourcc` sources define as 875713089;
/// the contract claims exactly that number.
#[verifier::external_body]
pub(crate) fn argb8888_fourcc() -> (code: u32)
    ensures
        code == ARGB8888,
{
    drm::buffer::DrmFourcc::Argb8888 as u32
}

/// Whether a plane that advertises `formats` can scan out ARGB8888.
pub fn supports_argb8888(formats: &[u32]) -> (supported: bool)
    ensures
        supported == formats@.contains(ARGB8888),
{
    let wanted: u32 = argb8888_fourcc();
    let mut i: usize = 0;
    while i < formats.len()
        invariant
            i <= formats.len(),
            wanted == ARGB8888,
            forall|j: int| 0 <= j < i ==> formats@[j] != ARGB8888,
        decreases formats.len() - i,
    {
        if formats[i] == wanted {
            return true;
        }
        i += 1;
    }
    false
}

} // verus!

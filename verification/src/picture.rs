//! The decoded picture: a rectangular grid of RGBA8 pixels.
//!
//! The pixels live in an `image::RgbaImage`. Verus cannot look inside that
//! type, so the picture is described by three uninterpreted functions (its
//! width, its height and its raw samples) and every access goes through a
//! small trusted function whose contract is stated over them.

use vstd::prelude::*;

verus! {

/// A decoded picture. Wraps an `image::RgbaImage`, which is read through the
/// trusted functions of this module only.
#[verifier::external_body]
pub struct Picture {
    pixels: image::RgbaImage,
}

/// The number of pixel columns of a picture.
pub uninterp spec fn picture_width(picture: Picture) -> nat;

/// The number of pixel rows of a picture.
pub uninterp spec fn picture_height(picture: Picture) -> nat;

/// The raw samples of a picture: four bytes per pixel in the order red, green,
/// blue, alpha, pixels from left to right, rows from top to bottom.
pub uninterp spec fn picture_samples(picture: Picture) -> Seq<u8>;

/// One pixel, as its four channel values.
#[derive(Clone, Copy, Debug, PartialEq, Eq, Structural)]
pub struct Rgba {
    pub red: u8,
    pub green: u8,
    pub blue: u8,
    pub alpha: u8,
}

/// The mathematical model of a picture.
pub ghost struct Raster {
    pub width: nat,
    pub height: nat,
    pub samples: Seq<u8>,
}

impl Raster {
    /// Where the samples of pixel `(x, y)` start.
    pub open spec fn sample_index(self, x: int, y: int) -> int {
        4 * (y * self.width + x)
    }

    /// The pixel in column `x` of row `y`.
    pub open spec fn pixel(self, x: int, y: int) -> Rgba {
        let at = self.sample_index(x, y);
        Rgba {
            red: self.samples[at],
            green: self.samples[at + 1],
            blue: self.samples[at + 2],
            alpha: self.samples[at + 3],
        }
    }

    /// Whether `(x, y)` names a pixel of the picture.
    pub open spec fn contains(self, x: int, y: int) -> bool {
        0 <= x < self.width && 0 <= y < self.height
    }
}

/// Whether a container of `len` samples can back a picture of `width` by
/// `height` pixels: the samples of one row must be countable in a `usize`, and
/// all rows together must fit in the container.
pub open spec fn holds_pixels(width: u32, height: u32, len: nat) -> bool {
    4 * width <= usize::MAX && 4 * width * height <= len
}

/// In a container that can back a picture, every pixel of the picture has
/// its four samples.
pub proof fn lemma_pixels_are_backed(width: u32, height: u32, len: nat, x: int, y: int)
    requires
        holds_pixels(width, height, len),
        0 <= x < width,
        0 <= y < height,
    ensures
        0 <= 4 * (y * width + x),
        4 * (y * width + x) + 4 <= len,
{
    assert(y * width + width <= height * width) by (nonlinear_arith)
        requires
            y + 1 <= height,
            0 <= width,
    ;
    assert(0 <= y * width) by (nonlinear_arith)
        requires
            0 <= y,
            0 <= width,
    ;
    assert(4 * width * height == 4 * (height * width)) by (nonlinear_arith);
}

impl View for Picture {
    type V = Raster;

    open spec fn view(&self) -> Raster {
        Raster {
            width: picture_width(*self),
            height: picture_height(*self),
            samples: picture_samples(*self),
        }
    }
}

/// Trusted: `image::RgbaImage::from_raw`.
///
/// The constructor multiplies four by the width and then by the height, as
/// `usize` with overflow checks, and accepts the container exactly when both
/// products exist and the second does not exceed the container's length. An
/// accepted picture keeps the width, the height and the container as given.
#[verifier::external_body]
fn image_from_raw(width: u32, height: u32, samples: Vec<u8>) -> (picture: Option<Picture>)
    ensures
        picture is Some <==> holds_pixels(width, height, samples@.len()),
        picture matches Some(p) ==> picture_width(p) == width && picture_height(p) == height
            && picture_samples(p) == samples@,
{
    image::RgbaImage::from_raw(width, height, samples).map(|pixels| Picture { pixels })
}

/// Trusted: `image::RgbaImage::dimensions`, which returns the stored width and
/// height as a pair.
#[verifier::external_body]
fn image_dimensions(picture: &Picture) -> (size: (u32, u32))
    ensures
        size.0 == picture_width(*picture),
        size.1 == picture_height(*picture),
{
    picture.pixels.dimensions()
}

/// Trusted: `image::RgbaImage::get_pixel`.
///
/// The method panics outside the picture, which `requires` rules out. Inside
/// it returns the four samples that start at index `4 * (y * width + x)` of
/// the container.
#[verifier::external_body]
pub(crate) fn image_get_pixel(picture: &Picture, x: u32, y: u32) -> (pixel: Rgba)
    requires
        x < picture_width(*picture),
        y < picture_height(*picture),
    ensures
        pixel == picture@.pixel(x as int, y as int),
{
    let p = picture.pixels.get_pixel(x, y);
    Rgba { red: p.0[0], green: p.0[1], blue: p.0[2], alpha: p.0[3] }
}

impl Picture {
    /// Builds a picture of `width` by `height` pixels over raw RGBA samples.
    ///
    /// Fails when `samples` is too short to hold `width * height` pixels.
    /// Samples beyond the last pixel are kept but never read.
    pub fn from_raw(width: u32, height: u32, samples: Vec<u8>) -> (picture: Option<Picture>)
        ensures
            picture is Some <==> holds_pixels(width, height, samples@.len()),
            picture matches Some(p) ==> p@ == (Raster {
                width: width as nat,
                height: height as nat,
                samples: samples@,
            }),
    {
        image_from_raw(width, height, samples)
    }

    /// The width and height of the picture in pixels.
    pub fn dimensions(&self) -> (size: (u32, u32))
        ensures
            size.0 == self@.width,
            size.1 == self@.height,
    {
        image_dimensions(self)
    }
}

} // verus!

//! The image crate's grayscale buffer as an [`ExtendedImageView`].
//!
//! A [`GrayView`] owns a `GrayImage` — a raster whose storage belongs to the
//! image crate, so this crate cannot look inside it. Its extent and its
//! row-major samples are therefore given names, [`gray_dimensions`] and
//! [`gray_samples`], and a handful of small trusted functions tie the image
//! crate's constructors and accessors to those names. Everything built on
//! top — membership, checked and clamped lookup — is the verified code of
//! [`crate::view`].

use vstd::prelude::*;

use crate::view::ExtendedImageView;

verus! {

/// A grayscale raster of the image crate, one `u8` sample per pixel, held
/// opaquely.
#[verifier::external_body]
pub struct GrayView {
    inner: image::GrayImage,
}

/// The extent of a grayscale raster: its `(width, height)`.
pub uninterp spec fn gray_dimensions(v: GrayView) -> (u32, u32);

/// The contents of a grayscale raster: its samples, row-major, one `u8` per
/// pixel, so that the pixel at `(x, y)` is the sample at `y * width + x`.
pub uninterp spec fn gray_samples(v: GrayView) -> Seq<u8>;

impl GrayView {
    /// Relies on ImageBuffer::new: a zero-filled buffer of the given extent.
    /// It panics when the sample count overflows `usize`, so that extent is
    /// left out here.
    #[verifier::external_body]
    pub fn new(width: u32, height: u32) -> (r: GrayView)
        requires
            width * height <= usize::MAX,
        ensures
            gray_dimensions(r) == (width, height),
            gray_samples(r) == Seq::new((width * height) as nat, |i: int| 0u8),
    {
        GrayView { inner: image::GrayImage::new(width, height) }
    }

    /// Relies on ImageBuffer::from_pixel: a buffer of the given extent with
    /// every sample equal to `value`. It panics when the sample count
    /// overflows `usize`, so that extent is left out here.
    #[verifier::external_body]
    pub fn from_pixel(width: u32, height: u32, value: u8) -> (r: GrayView)
        requires
            width * height <= usize::MAX,
        ensures
            gray_dimensions(r) == (width, height),
            gray_samples(r) == Seq::new((width * height) as nat, |i: int| value),
    {
        GrayView { inner: image::GrayImage::from_pixel(width, height, image::Luma([value])) }
    }

    /// Relies on ImageBuffer::from_vec (through from_raw): the buffer is
    /// accepted exactly when the extent's sample count fits in `usize` and
    /// the vector holds at least that many samples; the samples beyond the
    /// extent are never addressed.
    #[verifier::external_body]
    pub fn from_vec(width: u32, height: u32, data: Vec<u8>) -> (r: Option<GrayView>)
        ensures
            (match r {
                Some(v) => {
                    &&& width * height <= usize::MAX
                    &&& width * height <= data@.len()
                    &&& gray_dimensions(v) == (width, height)
                    &&& gray_samples(v) == data@.take((width * height) as int)
                },
                None => width * height > usize::MAX || width * height > data@.len(),
            }),
    {
        match image::GrayImage::from_vec(width, height, data) {
            Some(inner) => Some(GrayView { inner }),
            None => None,
        }
    }

    /// Relies on ImageBuffer::width: the stored width of the buffer.
    #[verifier::external_body]
    fn stored_width(&self) -> (r: u32)
        ensures
            r == gray_dimensions(*self).0,
    {
        self.inner.width()
    }

    /// Relies on ImageBuffer::height: the stored height of the buffer.
    #[verifier::external_body]
    fn stored_height(&self) -> (r: u32)
        ensures
            r == gray_dimensions(*self).1,
    {
        self.inner.height()
    }

    /// Relies on ImageBuffer::get_pixel: the sample stored at `(x, y)`,
    /// row-major at `y * width + x`; it panics only out of bounds, which the
    /// precondition rules out.
    #[verifier::external_body]
    fn stored_sample(&self, x: u32, y: u32) -> (r: u8)
        requires
            x < gray_dimensions(*self).0,
            y < gray_dimensions(*self).1,
        ensures
            r == gray_samples(*self)[y * gray_dimensions(*self).0 + x],
    {
        self.inner.get_pixel(x, y).0[0]
    }
}

impl ExtendedImageView for GrayView {
    type Pixel = u8;

    open spec fn spec_width(&self) -> u32 {
        gray_dimensions(*self).0
    }

    open spec fn spec_height(&self) -> u32 {
        gray_dimensions(*self).1
    }

    open spec fn spec_pixel(&self, x: u32, y: u32) -> u8 {
        gray_samples(*self)[y * gray_dimensions(*self).0 + x]
    }

    fn width(&self) -> (r: u32) {
        self.stored_width()
    }

    fn height(&self) -> (r: u32) {
        self.stored_height()
    }

    fn pixel_unchecked(&self, x: u32, y: u32) -> (r: u8) {
        self.stored_sample(x, y)
    }
}

} // verus!

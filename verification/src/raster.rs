//! A minimal raster owned by this crate: a fixed extent over row-major
//! pixel storage, with the fetch primitive proven in range.

use vstd::prelude::*;

use crate::view::ExtendedImageView;

verus! {

/// A 2-D grid of pixels with fixed width and height, stored row-major:
/// the pixel at `(x, y)` sits at position `y * width + x`.
pub struct Raster<P> {
    width: u32,
    height: u32,
    pixels: Vec<P>,
}

impl<P> Raster<P> {
    /// Row-major storage holds exactly one pixel per cell of the extent.
    #[verifier::type_invariant]
    pub closed spec fn well_formed(self) -> bool {
        self.pixels.len() == self.width * self.height
    }
}

impl<P: Copy> Raster<P> {
    /// Builds a raster from its extent and its row-major pixels, or returns
    /// `None` when the storage does not hold exactly one pixel per cell.
    pub fn from_vec(width: u32, height: u32, pixels: Vec<P>) -> (r: Option<Raster<P>>)
        ensures
            (match r {
                Some(raster) => {
                    &&& pixels@.len() == width * height
                    &&& raster.spec_width() == width
                    &&& raster.spec_height() == height
                    &&& forall|x: u32, y: u32|
                        x < width && y < height ==> raster.spec_pixel(x, y) == pixels@[y * width
                            + x]
                },
                None => pixels@.len() != width * height,
            }),
    {
        let w: u64 = width as u64;
        let h: u64 = height as u64;
        proof {
            assert(w * h <= u64::MAX) by (nonlinear_arith)
                requires
                    w <= 0xffff_ffffu64,
                    h <= 0xffff_ffffu64,
            ;
        }
        if w * h == pixels.len() as u64 {
            Some(Raster { width, height, pixels })
        } else {
            None
        }
    }
}

impl<P: Copy> ExtendedImageView for Raster<P> {
    type Pixel = P;

    closed spec fn spec_width(&self) -> u32 {
        self.width
    }

    closed spec fn spec_height(&self) -> u32 {
        self.height
    }

    closed spec fn spec_pixel(&self, x: u32, y: u32) -> P {
        self.pixels@[y * self.width + x]
    }

    fn width(&self) -> (r: u32) {
        self.width
    }

    fn height(&self) -> (r: u32) {
        self.height
    }

    fn pixel_unchecked(&self, x: u32, y: u32) -> (r: P) {
        proof {
            use_type_invariant(self);
            let w: int = self.width as int;
            let h: int = self.height as int;
            assert((y as int) * w + (x as int) < w * h) by (nonlinear_arith)
                requires
                    (x as int) < w,
                    (y as int) < h,
                    0 <= x as int,
                    0 <= y as int,
                    0 <= w,
            ;
        }
        let idx: usize = (y as usize) * (self.width as usize) + (x as usize);
        self.pixels[idx]
    }
}

} // verus!

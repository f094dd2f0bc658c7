//! Bounds-checked and clamped pixel access against a raster's edges.
//!
//! A raster enters this module only as a provider of its extent and of a
//! fetch at an index already proven in range; [`ExtendedImageView`] builds
//! the membership test, the checked lookup and the clamped lookup on top of
//! that interface, for any coordinate representation.

use vstd::prelude::*;

use crate::coordinate::{image_coordinate_spec, ImageCoordinate};
use crate::index::{clamp_axis_index_spec, AxisValue};

verus! {

/// Whether a coordinate converts exactly and lands inside a raster of the
/// given extent. An empty extent admits no coordinate at all.
pub open spec fn within_bounds_spec(x: AxisValue, y: AxisValue, width: u32, height: u32) -> bool {
    match image_coordinate_spec(x, y) {
        Some(p) => p.0 < width && p.1 < height,
        None => false,
    }
}

/// The index pair a checked lookup fetches from: the exact conversion of the
/// coordinate when it lies inside the extent, and `None` when the coordinate
/// is invalid or out of range.
pub open spec fn checked_coordinate_spec(
    x: AxisValue,
    y: AxisValue,
    width: u32,
    height: u32,
) -> Option<(u32, u32)> {
    match image_coordinate_spec(x, y) {
        Some(p) => if p.0 < width && p.1 < height {
            Some(p)
        } else {
            None
        },
        None => None,
    }
}

/// A raster extended with coordinate-based pixel operations: membership,
/// checked lookup, and clamped lookup, each accepting any coordinate
/// representation and allowing negative or otherwise out-of-range values.
///
/// An implementation supplies the raster's extent and a fetch at an index
/// already proven in range; the bounds-checked and clamped paths here are the
/// sanctioned callers of that fetch.
pub trait ExtendedImageView: Sized {
    /// The pixel value a lookup yields; opaque to this module.
    type Pixel;

    /// The raster's width.
    spec fn spec_width(&self) -> u32;

    /// The raster's height.
    spec fn spec_height(&self) -> u32;

    /// The pixel stored at a column and row inside the extent.
    spec fn spec_pixel(&self, x: u32, y: u32) -> Self::Pixel;

    /// The raster's width.
    fn width(&self) -> (r: u32)
        ensures
            r == self.spec_width(),
    ;

    /// The raster's height.
    fn height(&self) -> (r: u32)
        ensures
            r == self.spec_height(),
    ;

    /// Fetch at an index pair already proven inside the extent.
    fn pixel_unchecked(&self, x: u32, y: u32) -> (r: Self::Pixel)
        requires
            x < self.spec_width(),
            y < self.spec_height(),
        ensures
            r == self.spec_pixel(x, y),
    ;

    /// Right and bottom index edges of the image. Requesting the edges of an
    /// empty raster is a caller error.
    fn edges(&self) -> (r: (u32, u32))
        requires
            self.spec_width() > 0,
            self.spec_height() > 0,
        ensures
            r.0 == self.spec_width() - 1,
            r.1 == self.spec_height() - 1,
    {
        (self.width() - 1, self.height() - 1)
    }

    /// Returns `true` if the given coordinates are within the bounds of the
    /// image.
    fn within_bounds<C: ImageCoordinate>(&self, coords: C) -> (r: bool)
        ensures
            r == within_bounds_spec(
                coords.x_value(),
                coords.y_value(),
                self.spec_width(),
                self.spec_height(),
            ),
    {
        match coords.image_coordinate() {
            Some((x, y)) => x < self.width() && y < self.height(),
            None => false,
        }
    }

    /// Returns the pixel at the given coordinates if it is within the bounds
    /// of the image.
    fn get_pixel_at<C: ImageCoordinate>(&self, coords: C) -> (r: Option<Self::Pixel>)
        ensures
            (match checked_coordinate_spec(
                coords.x_value(),
                coords.y_value(),
                self.spec_width(),
                self.spec_height(),
            ) {
                Some(p) => r == Some(self.spec_pixel(p.0, p.1)),
                None => r.is_none(),
            }),
    {
        match coords.image_coordinate() {
            Some((x, y)) => {
                if x < self.width() && y < self.height() {
                    Some(self.pixel_unchecked(x, y))
                } else {
                    None
                }
            },
            None => None,
        }
    }

    /// Returns the pixel at the given coordinates, clamping the coordinates
    /// to the image bounds. Calling this on an empty raster is a caller
    /// error.
    fn get_pixel_clamped<C: ImageCoordinate>(&self, coords: C) -> (r: Self::Pixel)
        requires
            self.spec_width() > 0,
            self.spec_height() > 0,
        ensures
            r == self.spec_pixel(
                clamp_axis_index_spec(coords.x_value(), (self.spec_width() - 1) as u32),
                clamp_axis_index_spec(coords.y_value(), (self.spec_height() - 1) as u32),
            ),
    {
        let (right, bottom) = self.edges();
        let (x, y) = coords.image_coordinate_clamped(right, bottom);
        self.pixel_unchecked(x, y)
    }
}

/// Against an empty extent — zero width or zero height — no coordinate is
/// within bounds, and the checked lookup finds nothing, whatever the
/// coordinate.
pub proof fn lemma_empty_extent_rejects_all(x: AxisValue, y: AxisValue, width: u32, height: u32)
    requires
        width == 0 || height == 0,
    ensures
        !within_bounds_spec(x, y, width, height),
        checked_coordinate_spec(x, y, width, height).is_none(),
{
}

/// Against a non-empty extent, an integer coordinate with both components
/// inside the extent is within bounds, and the checked lookup fetches at
/// exactly that index pair — it agrees with the raster's direct fetch.
pub proof fn lemma_checked_lookup_in_range(x: int, y: int, width: u32, height: u32)
    requires
        0 <= x < width,
        0 <= y < height,
    ensures
        within_bounds_spec(AxisValue::Integer(x), AxisValue::Integer(y), width, height),
        checked_coordinate_spec(AxisValue::Integer(x), AxisValue::Integer(y), width, height)
            == Some((x as u32, y as u32)),
{
}

/// A coordinate with a component below its axis — a negative integer, a
/// negative-signed float, or negative infinity — is never found by the
/// checked lookup, and the clamped lookup projects that component onto the
/// bottom edge `0`.
pub proof fn lemma_negative_component(x: AxisValue, y: AxisValue, width: u32, height: u32)
    requires
        width > 0,
        height > 0,
        (match x {
            AxisValue::Integer(i) => i < 0,
            AxisValue::NegativeFloat => true,
            AxisValue::NegativeInfinite => true,
            AxisValue::PositiveInfinite => false,
            AxisValue::NotANumber => false,
        }),
    ensures
        checked_coordinate_spec(x, y, width, height).is_none(),
        clamp_axis_index_spec(x, (width - 1) as u32) == 0,
{
}

/// A coordinate with an integer component at or beyond its axis's extent is
/// never found by the checked lookup, and the clamped lookup projects that
/// component onto the top edge of its axis.
pub proof fn lemma_component_beyond_edge(x: int, y: AxisValue, width: u32, height: u32)
    requires
        width > 0,
        height > 0,
        x >= width,
    ensures
        checked_coordinate_spec(AxisValue::Integer(x), y, width, height).is_none(),
        clamp_axis_index_spec(AxisValue::Integer(x), (width - 1) as u32) == width - 1,
{
}

/// Clamping is a projection: a coordinate already within bounds is returned
/// by the clamped conversion unchanged, so the clamped lookup and the checked
/// lookup fetch from the same pixel there.
pub proof fn lemma_clamp_projection(x: int, y: int, width: u32, height: u32)
    requires
        0 <= x < width,
        0 <= y < height,
    ensures
        clamp_axis_index_spec(AxisValue::Integer(x), (width - 1) as u32) == x,
        clamp_axis_index_spec(AxisValue::Integer(y), (height - 1) as u32) == y,
        checked_coordinate_spec(AxisValue::Integer(x), AxisValue::Integer(y), width, height)
            == Some(
            (
                clamp_axis_index_spec(AxisValue::Integer(x), (width - 1) as u32),
                clamp_axis_index_spec(AxisValue::Integer(y), (height - 1) as u32),
            ),
        ),
{
}

} // verus!

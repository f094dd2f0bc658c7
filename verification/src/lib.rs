//! Bounds-checked and clamped pixel addressing for 2-D rasters.
//!
//! Callers hold pixel positions as numbers of many kinds: unsigned or signed
//! integers of any width, or floating-point values classified into a
//! [`FloatAxisValue`](index::FloatAxisValue). This crate turns such a number
//! into a valid axis index (or rejects it), combines two of them into a
//! coordinate, and answers membership and lookup questions against a raster's
//! edges, either failing cleanly or clamping onto the nearest valid pixel.

pub mod coordinate;
pub mod gray;
pub mod index;
pub mod raster;
pub mod view;

pub use crate::coordinate::ImageCoordinate;
pub use crate::index::ImageAxisIndex;
pub use crate::view::ExtendedImageView;

use vstd::prelude::*;

use crate::index::{clamp_axis_index_spec, AxisValue};
use crate::view::{checked_coordinate_spec, within_bounds_spec};

verus! {

/// Returns `true` if the given coordinates are within the bounds of the
/// image.
///
/// This is the raw signed-integer form of
/// [`ExtendedImageView::within_bounds`]: for the same inputs the two agree,
/// as both contracts say over [`within_bounds_spec`].
pub fn in_bounds<I: ExtendedImageView>(image: &I, x: i32, y: i32) -> (r: bool)
    ensures
        r == within_bounds_spec(
            AxisValue::Integer(x as int),
            AxisValue::Integer(y as int),
            image.spec_width(),
            image.spec_height(),
        ),
        r == (0 <= x && x < image.spec_width() && 0 <= y && y < image.spec_height()),
{
    x >= 0 && y >= 0 && (x as u32) < image.width() && (y as u32) < image.height()
}

/// Returns the pixel at the given coordinates if it is within the bounds of
/// the image.
///
/// This is the raw signed-integer form of
/// [`ExtendedImageView::get_pixel_at`]: for the same inputs the two agree, as
/// both contracts say over [`checked_coordinate_spec`].
pub fn get_pixel<I: ExtendedImageView>(image: &I, x: i32, y: i32) -> (r: Option<I::Pixel>)
    ensures
        (match checked_coordinate_spec(
            AxisValue::Integer(x as int),
            AxisValue::Integer(y as int),
            image.spec_width(),
            image.spec_height(),
        ) {
            Some(p) => r == Some(image.spec_pixel(p.0, p.1)),
            None => r.is_none(),
        }),
{
    if in_bounds(image, x, y) {
        Some(image.pixel_unchecked(x as u32, y as u32))
    } else {
        None
    }
}

/// Returns the pixel at the given coordinates, clamping the coordinates to
/// the image bounds. Calling this on an empty image is a caller error.
///
/// This is the raw signed-integer form of
/// [`ExtendedImageView::get_pixel_clamped`]: for the same inputs the two
/// agree, as both contracts say over [`clamp_axis_index_spec`].
pub fn clamp_pixel<I: ExtendedImageView>(image: &I, x: i32, y: i32) -> (r: I::Pixel)
    requires
        image.spec_width() > 0,
        image.spec_height() > 0,
    ensures
        r == image.spec_pixel(
            clamp_axis_index_spec(AxisValue::Integer(x as int), (image.spec_width() - 1) as u32),
            clamp_axis_index_spec(AxisValue::Integer(y as int), (image.spec_height() - 1) as u32),
        ),
{
    let right: u32 = image.width() - 1;
    let bottom: u32 = image.height() - 1;
    let cx: u32 = if x < 0 {
        0
    } else if (x as u32) < right {
        x as u32
    } else {
        right
    };
    let cy: u32 = if y < 0 {
        0
    } else if (y as u32) < bottom {
        y as u32
    } else {
        bottom
    };
    image.pixel_unchecked(cx, cy)
}

/// Returns the pixel at the given coordinates, clamping the coordinates to
/// the image bounds, without an emptiness test of its own: the caller owes
/// the non-empty extent, exactly as for [`clamp_pixel`].
pub fn clamp_pixel_unchecked<I: ExtendedImageView>(image: &I, x: i32, y: i32) -> (r: I::Pixel)
    requires
        image.spec_width() > 0,
        image.spec_height() > 0,
    ensures
        r == image.spec_pixel(
            clamp_axis_index_spec(AxisValue::Integer(x as int), (image.spec_width() - 1) as u32),
            clamp_axis_index_spec(AxisValue::Integer(y as int), (image.spec_height() - 1) as u32),
        ),
{
    let nx: u32 = if x < 0 {
        0
    } else {
        x as u32
    };
    let ny: u32 = if y < 0 {
        0
    } else {
        y as u32
    };
    let right: u32 = image.width() - 1;
    let bottom: u32 = image.height() - 1;
    let cx: u32 = if nx < right {
        nx
    } else {
        right
    };
    let cy: u32 = if ny < bottom {
        ny
    } else {
        bottom
    };
    image.pixel_unchecked(cx, cy)
}

} // verus!

//! Lifting two same-domain scalars into a 2-D pixel position.
//!
//! A coordinate is anything that exposes an `x` and a `y` component of one
//! scalar kind. Both components are converted independently: the exact form
//! succeeds only when both do, the clamped form always succeeds.

use vstd::prelude::*;

use crate::index::{clamp_axis_index_spec, to_axis_index_spec, AxisValue, ImageAxisIndex};

verus! {

/// Exact conversion of a pair: both components must convert, or the pair is
/// rejected as a whole — there is no partial success.
pub open spec fn image_coordinate_spec(x: AxisValue, y: AxisValue) -> Option<(u32, u32)> {
    match (to_axis_index_spec(x), to_axis_index_spec(y)) {
        (Some(xi), Some(yi)) => Some((xi, yi)),
        _ => None,
    }
}

/// Types that can represent image coordinates.
pub trait ImageCoordinate {
    /// The mathematical value of the `x` (column) component.
    spec fn x_value(&self) -> AxisValue;

    /// The mathematical value of the `y` (row) component.
    spec fn y_value(&self) -> AxisValue;

    /// Returns the `(x, y)` pixel indices, or `None` if the coordinate is
    /// invalid.
    fn image_coordinate(&self) -> (r: Option<(u32, u32)>)
        ensures
            r == image_coordinate_spec(self.x_value(), self.y_value()),
    ;

    /// Returns clamped `(x, y)` pixel indices within the given bounds.
    /// Bounds are `(0, 0)` and `(right, bottom)`.
    fn image_coordinate_clamped(&self, right: u32, bottom: u32) -> (r: (u32, u32))
        ensures
            r.0 == clamp_axis_index_spec(self.x_value(), right),
            r.1 == clamp_axis_index_spec(self.y_value(), bottom),
    ;
}

impl<T: ImageAxisIndex + Copy> ImageCoordinate for (T, T) {
    open spec fn x_value(&self) -> AxisValue {
        self.0.axis_value()
    }

    open spec fn y_value(&self) -> AxisValue {
        self.1.axis_value()
    }

    fn image_coordinate(&self) -> (r: Option<(u32, u32)>) {
        match (self.0.to_image_axis_index(), self.1.to_image_axis_index()) {
            (Some(xi), Some(yi)) => Some((xi, yi)),
            _ => None,
        }
    }

    fn image_coordinate_clamped(&self, right: u32, bottom: u32) -> (r: (u32, u32)) {
        (self.0.clamp_image_axis_index(right), self.1.clamp_image_axis_index(bottom))
    }
}

impl<T: ImageAxisIndex + Copy> ImageCoordinate for [T; 2] {
    open spec fn x_value(&self) -> AxisValue {
        self[0].axis_value()
    }

    open spec fn y_value(&self) -> AxisValue {
        self[1].axis_value()
    }

    fn image_coordinate(&self) -> (r: Option<(u32, u32)>) {
        match (self[0].to_image_axis_index(), self[1].to_image_axis_index()) {
            (Some(xi), Some(yi)) => Some((xi, yi)),
            _ => None,
        }
    }

    fn image_coordinate_clamped(&self, right: u32, bottom: u32) -> (r: (u32, u32)) {
        (self[0].clamp_image_axis_index(right), self[1].clamp_image_axis_index(bottom))
    }
}

impl<T: ImageAxisIndex + Copy> ImageCoordinate for &[T; 2] {
    open spec fn x_value(&self) -> AxisValue {
        self[0].axis_value()
    }

    open spec fn y_value(&self) -> AxisValue {
        self[1].axis_value()
    }

    fn image_coordinate(&self) -> (r: Option<(u32, u32)>) {
        match (self[0].to_image_axis_index(), self[1].to_image_axis_index()) {
            (Some(xi), Some(yi)) => Some((xi, yi)),
            _ => None,
        }
    }

    fn image_coordinate_clamped(&self, right: u32, bottom: u32) -> (r: (u32, u32)) {
        (self[0].clamp_image_axis_index(right), self[1].clamp_image_axis_index(bottom))
    }
}

/// A coordinate whose exact conversion succeeds converts component-wise, and
/// one with an invalid component is rejected as a whole: the pair conversion
/// is exactly the conjunction of the two axis conversions.
pub proof fn lemma_coordinate_componentwise(x: AxisValue, y: AxisValue)
    ensures
        image_coordinate_spec(x, y).is_some() <==> (to_axis_index_spec(x).is_some()
            && to_axis_index_spec(y).is_some()),
        image_coordinate_spec(x, y).is_some() ==> image_coordinate_spec(x, y) == Some(
            (to_axis_index_spec(x).unwrap(), to_axis_index_spec(y).unwrap()),
        ),
{
}

} // verus!

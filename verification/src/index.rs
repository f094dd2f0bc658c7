//! Conversion of a single scalar into a valid image axis index.
//!
//! An axis index is a `u32` addressing one raster dimension. Every supported
//! scalar kind is given a mathematical reading as an [`AxisValue`], and the
//! two conversions — exact ([`to_axis_index_spec`]) and saturating
//! ([`clamp_axis_index_spec`]) — are specified once over that reading.

use vstd::prelude::*;

verus! {

/// The mathematical reading of a scalar offered as an axis position.
///
/// Integers of every width read as `Integer`. A floating-point value reads as
/// `Integer` of its value truncated toward zero when it is finite with a
/// non-negative sign, and as one of the remaining variants otherwise.
pub enum AxisValue {
    /// An integer value, possibly negative or beyond the addressing range.
    Integer(int),
    /// A finite floating-point value whose sign bit is set (this includes
    /// negative zero).
    NegativeFloat,
    /// Positive infinity.
    PositiveInfinite,
    /// Negative infinity.
    NegativeInfinite,
    /// A floating-point value that is not a number.
    NotANumber,
}

/// Exact conversion: the axis index a scalar stands for, or `None` when the
/// scalar cannot represent a valid non-negative index in the addressing
/// width.
pub open spec fn to_axis_index_spec(v: AxisValue) -> Option<u32> {
    match v {
        AxisValue::Integer(i) => if 0 <= i <= u32::MAX { Some(i as u32) } else { None },
        AxisValue::NegativeFloat => None,
        AxisValue::PositiveInfinite => None,
        AxisValue::NegativeInfinite => None,
        AxisValue::NotANumber => None,
    }
}

/// Saturating conversion: the scalar projected onto `[0, max]`. Values below
/// the range collapse to `0`, values above it to `max`; positive infinity
/// saturates to `max`, while not-a-number collapses to `0`.
pub open spec fn clamp_axis_index_spec(v: AxisValue, max: u32) -> u32 {
    match v {
        AxisValue::Integer(i) => if i < 0 { 0 } else if i > max { max } else { i as u32 },
        AxisValue::NegativeFloat => 0,
        AxisValue::PositiveInfinite => max,
        AxisValue::NegativeInfinite => 0,
        AxisValue::NotANumber => 0,
    }
}

/// Scalars that can be turned into an image axis index.
pub trait ImageAxisIndex: Sized {
    /// The mathematical value this scalar stands for.
    spec fn axis_value(self) -> AxisValue;

    /// Converts the value to an image axis index, returning `None` if the
    /// conversion fails.
    fn to_image_axis_index(self) -> (r: Option<u32>)
        ensures
            r == to_axis_index_spec(self.axis_value()),
    ;

    /// Clamps the value to a valid image axis index within the bounds of the
    /// corresponding image axis. Lower bound is always `0`, upper bound is
    /// `max`.
    fn clamp_image_axis_index(self, max: u32) -> (r: u32)
        ensures
            r == clamp_axis_index_spec(self.axis_value(), max),
    ;
}

impl ImageAxisIndex for u32 {
    open spec fn axis_value(self) -> AxisValue {
        AxisValue::Integer(self as int)
    }

    fn to_image_axis_index(self) -> (r: Option<u32>) {
        Some(self)
    }

    fn clamp_image_axis_index(self, max: u32) -> (r: u32) {
        if self < max {
            self
        } else {
            max
        }
    }
}

impl ImageAxisIndex for u8 {
    open spec fn axis_value(self) -> AxisValue {
        AxisValue::Integer(self as int)
    }

    fn to_image_axis_index(self) -> (r: Option<u32>) {
        Some(self as u32)
    }

    fn clamp_image_axis_index(self, max: u32) -> (r: u32) {
        let w = self as u32;
        if w < max {
            w
        } else {
            max
        }
    }
}

impl ImageAxisIndex for u16 {
    open spec fn axis_value(self) -> AxisValue {
        AxisValue::Integer(self as int)
    }

    fn to_image_axis_index(self) -> (r: Option<u32>) {
        Some(self as u32)
    }

    fn clamp_image_axis_index(self, max: u32) -> (r: u32) {
        let w = self as u32;
        if w < max {
            w
        } else {
            max
        }
    }
}

impl ImageAxisIndex for usize {
    open spec fn axis_value(self) -> AxisValue {
        AxisValue::Integer(self as int)
    }

    fn to_image_axis_index(self) -> (r: Option<u32>) {
        if self <= u32::MAX as usize {
            Some(self as u32)
        } else {
            None
        }
    }

    fn clamp_image_axis_index(self, max: u32) -> (r: u32) {
        if self <= max as usize {
            self as u32
        } else {
            max
        }
    }
}

impl ImageAxisIndex for u64 {
    open spec fn axis_value(self) -> AxisValue {
        AxisValue::Integer(self as int)
    }

    fn to_image_axis_index(self) -> (r: Option<u32>) {
        if self <= u32::MAX as u64 {
            Some(self as u32)
        } else {
            None
        }
    }

    fn clamp_image_axis_index(self, max: u32) -> (r: u32) {
        if self <= max as u64 {
            self as u32
        } else {
            max
        }
    }
}

impl ImageAxisIndex for u128 {
    open spec fn axis_value(self) -> AxisValue {
        AxisValue::Integer(self as int)
    }

    fn to_image_axis_index(self) -> (r: Option<u32>) {
        if self <= u32::MAX as u128 {
            Some(self as u32)
        } else {
            None
        }
    }

    fn clamp_image_axis_index(self, max: u32) -> (r: u32) {
        if self <= max as u128 {
            self as u32
        } else {
            max
        }
    }
}

impl ImageAxisIndex for i8 {
    open spec fn axis_value(self) -> AxisValue {
        AxisValue::Integer(self as int)
    }

    fn to_image_axis_index(self) -> (r: Option<u32>) {
        if self < 0 {
            None
        } else {
            Some(self as u32)
        }
    }

    fn clamp_image_axis_index(self, max: u32) -> (r: u32) {
        if self < 0 {
            0
        } else {
            let w = self as u32;
            if w < max {
                w
            } else {
                max
            }
        }
    }
}

impl ImageAxisIndex for i16 {
    open spec fn axis_value(self) -> AxisValue {
        AxisValue::Integer(self as int)
    }

    fn to_image_axis_index(self) -> (r: Option<u32>) {
        if self < 0 {
            None
        } else {
            Some(self as u32)
        }
    }

    fn clamp_image_axis_index(self, max: u32) -> (r: u32) {
        if self < 0 {
            0
        } else {
            let w = self as u32;
            if w < max {
                w
            } else {
                max
            }
        }
    }
}

impl ImageAxisIndex for i32 {
    open spec fn axis_value(self) -> AxisValue {
        AxisValue::Integer(self as int)
    }

    fn to_image_axis_index(self) -> (r: Option<u32>) {
        if self < 0 {
            None
        } else {
            Some(self as u32)
        }
    }

    fn clamp_image_axis_index(self, max: u32) -> (r: u32) {
        if self < 0 {
            0
        } else {
            let w = self as u32;
            if w < max {
                w
            } else {
                max
            }
        }
    }
}

impl ImageAxisIndex for isize {
    open spec fn axis_value(self) -> AxisValue {
        AxisValue::Integer(self as int)
    }

    fn to_image_axis_index(self) -> (r: Option<u32>) {
        if self < 0 {
            None
        } else if self as u128 <= u32::MAX as u128 {
            Some(self as u32)
        } else {
            None
        }
    }

    fn clamp_image_axis_index(self, max: u32) -> (r: u32) {
        if self < 0 {
            0
        } else if self as u128 <= max as u128 {
            self as u32
        } else {
            max
        }
    }
}

impl ImageAxisIndex for i64 {
    open spec fn axis_value(self) -> AxisValue {
        AxisValue::Integer(self as int)
    }

    fn to_image_axis_index(self) -> (r: Option<u32>) {
        if self < 0 {
            None
        } else if self <= u32::MAX as i64 {
            Some(self as u32)
        } else {
            None
        }
    }

    fn clamp_image_axis_index(self, max: u32) -> (r: u32) {
        if self < 0 {
            0
        } else if self <= max as i64 {
            self as u32
        } else {
            max
        }
    }
}

impl ImageAxisIndex for i128 {
    open spec fn axis_value(self) -> AxisValue {
        AxisValue::Integer(self as int)
    }

    fn to_image_axis_index(self) -> (r: Option<u32>) {
        if self < 0 {
            None
        } else if self <= u32::MAX as i128 {
            Some(self as u32)
        } else {
            None
        }
    }

    fn clamp_image_axis_index(self, max: u32) -> (r: u32) {
        if self < 0 {
            0
        } else if self <= max as i128 {
            self as u32
        } else {
            max
        }
    }
}

/// A floating-point scalar, decomposed into what the conversions read of it:
/// its classification, and — when finite with a non-negative sign — its value
/// truncated toward zero.
///
/// This crate holds no floating-point values itself; a caller classifies its
/// `f32` or `f64` into this type (truncation saturates at `u64::MAX`, which
/// leaves both conversions unchanged since every such value already lies far
/// beyond the addressing range) and the conversions are then exact.
#[derive(Clone, Copy, PartialEq, Eq, Debug)]
pub enum FloatAxisValue {
    /// Finite with a non-negative sign bit; carries the value truncated
    /// toward zero.
    NonNegativeFinite(u64),
    /// Finite with a negative sign bit (this includes negative zero).
    NegativeFinite,
    /// Positive infinity.
    PositiveInfinity,
    /// Negative infinity.
    NegativeInfinity,
    /// Not a number.
    NotANumber,
}

impl ImageAxisIndex for FloatAxisValue {
    open spec fn axis_value(self) -> AxisValue {
        match self {
            FloatAxisValue::NonNegativeFinite(t) => AxisValue::Integer(t as int),
            FloatAxisValue::NegativeFinite => AxisValue::NegativeFloat,
            FloatAxisValue::PositiveInfinity => AxisValue::PositiveInfinite,
            FloatAxisValue::NegativeInfinity => AxisValue::NegativeInfinite,
            FloatAxisValue::NotANumber => AxisValue::NotANumber,
        }
    }

    fn to_image_axis_index(self) -> (r: Option<u32>) {
        match self {
            FloatAxisValue::NonNegativeFinite(t) => {
                if t <= u32::MAX as u64 {
                    Some(t as u32)
                } else {
                    None
                }
            },
            _ => None,
        }
    }

    fn clamp_image_axis_index(self, max: u32) -> (r: u32) {
        match self {
            FloatAxisValue::NonNegativeFinite(t) => {
                if t <= max as u64 {
                    t as u32
                } else {
                    max
                }
            },
            FloatAxisValue::PositiveInfinity => max,
            _ => 0,
        }
    }
}

/// The saturating conversion is a projection onto `[0, max]`: its result
/// always lies within those bounds.
pub proof fn lemma_clamp_in_range(v: AxisValue, max: u32)
    ensures
        clamp_axis_index_spec(v, max) <= max,
{
}

/// A value that is already a valid index for its axis is left unchanged by
/// the saturating conversion: clamping is a projection, and applying it to an
/// in-range value is the identity.
pub proof fn lemma_clamp_identity_in_range(i: int, max: u32)
    requires
        0 <= i <= max,
    ensures
        clamp_axis_index_spec(AxisValue::Integer(i), max) == i,
{
}

/// A scalar below the valid range — a negative integer, a finite float with
/// a negative sign, or negative infinity — clamps to the bottom edge `0`.
pub proof fn lemma_clamp_below_range(v: AxisValue, max: u32)
    requires
        (match v {
            AxisValue::Integer(i) => i < 0,
            AxisValue::NegativeFloat => true,
            AxisValue::NegativeInfinite => true,
            AxisValue::PositiveInfinite => false,
            AxisValue::NotANumber => false,
        }),
    ensures
        clamp_axis_index_spec(v, max) == 0,
        to_axis_index_spec(v).is_none(),
{
}

/// A scalar above the valid range — an integer beyond `max`, or positive
/// infinity — clamps to the top edge `max`.
pub proof fn lemma_clamp_above_range(v: AxisValue, max: u32)
    requires
        (match v {
            AxisValue::Integer(i) => i > max,
            AxisValue::PositiveInfinite => true,
            AxisValue::NegativeFloat => false,
            AxisValue::NegativeInfinite => false,
            AxisValue::NotANumber => false,
        }),
    ensures
        clamp_axis_index_spec(v, max) == max,
{
}

/// The floating-point special values behave asymmetrically under the
/// saturating conversion: not-a-number collapses to `0` on its axis, positive
/// infinity saturates to the axis's bound `max`, and negative infinity
/// collapses to `0`.
pub proof fn lemma_clamp_non_finite(max: u32)
    ensures
        clamp_axis_index_spec(AxisValue::NotANumber, max) == 0,
        clamp_axis_index_spec(AxisValue::PositiveInfinite, max) == max,
        clamp_axis_index_spec(AxisValue::NegativeInfinite, max) == 0,
{
}

} // verus!

//! Points, sizes and rectangles in logical coordinates, and quantities that are left to be
//! computed in floating point.
//!
//! A [`Scalar`], a [`PhysicalSize`] or a [`PhysicalPosition`] says which numbers go into a result
//! and how; whoever hands the event on does the rounding arithmetic.

use crate::float::Float;
use vstd::prelude::*;

verus! {

/// A point, or a displacement.
#[derive(Clone, Copy, Debug, PartialEq, Eq, Structural)]
pub struct Point {
    pub x: Float,
    pub y: Float,
}

/// A width and a height in logical units.
#[derive(Clone, Copy, Debug, PartialEq, Eq, Structural)]
pub struct LogicalSize {
    pub width: Float,
    pub height: Float,
}

#[derive(Clone, Copy, Debug, PartialEq, Eq, Structural)]
pub struct Rect {
    pub origin: Point,
    pub size: LogicalSize,
}

/// The size in pixels of `logical` at `scale_factor`: each side times the factor, rounded to a
/// whole number.
#[derive(Clone, Copy, Debug, PartialEq, Eq, Structural)]
pub struct PhysicalSize {
    pub logical: LogicalSize,
    pub scale_factor: Float,
}

/// The position in pixels of `logical` at `scale_factor`: each coordinate times the factor.
#[derive(Clone, Copy, Debug, PartialEq, Eq, Structural)]
pub struct PhysicalPosition {
    pub logical: Point,
    pub scale_factor: Float,
}

/// A number, or the difference of two.
#[derive(Clone, Copy, Debug, PartialEq, Eq, Structural)]
pub enum Scalar {
    Value(Float),
    /// `minuend - subtrahend`.
    Difference { minuend: Float, subtrahend: Float },
}

impl Scalar {
    /// The exact value, before rounding, in multiples of 2^-1074. Meaningful for finite numbers.
    pub open spec fn units(self) -> int {
        match self {
            Scalar::Value(value) => value.units(),
            Scalar::Difference { minuend, subtrahend } => minuend.units() - subtrahend.units(),
        }
    }

    /// Swapping the two numbers of a difference changes its sign, and adding the subtrahend to it
    /// gives the minuend.
    pub proof fn law_difference(minuend: Float, subtrahend: Float)
        ensures
            (Scalar::Difference { minuend, subtrahend }).units() + Scalar::Value(subtrahend).units()
                == minuend.units(),
            (Scalar::Difference { minuend: subtrahend, subtrahend: minuend }).units() == -(
            Scalar::Difference { minuend, subtrahend }).units(),
            Scalar::Value(minuend).units() == minuend.units(),
    {
    }
}

impl Point {
    /// `(0.0, 0.0)`.
    pub fn origin() -> (origin: Point)
        ensures
            origin.x.bits == 0,
            origin.y.bits == 0,
    {
        Point { x: Float::zero(), y: Float::zero() }
    }
}

impl Rect {
    /// What `==` says of two rectangles of floating-point numbers.
    pub open spec fn numerically_equal(self, other: Rect) -> bool {
        &&& self.origin.x.numerically_equal(other.origin.x)
        &&& self.origin.y.numerically_equal(other.origin.y)
        &&& self.size.width.numerically_equal(other.size.width)
        &&& self.size.height.numerically_equal(other.size.height)
    }

    /// Whether any of the four numbers is a NaN.
    pub open spec fn has_nan(self) -> bool {
        ||| self.origin.x.is_nan()
        ||| self.origin.y.is_nan()
        ||| self.size.width.is_nan()
        ||| self.size.height.is_nan()
    }

    /// Whether all four numbers are finite.
    pub open spec fn is_finite(self) -> bool {
        &&& self.origin.x.is_finite()
        &&& self.origin.y.is_finite()
        &&& self.size.width.is_finite()
        &&& self.size.height.is_finite()
    }

    /// Whether the two rectangles are equal.
    pub fn equals(&self, other: &Rect) -> (equal: bool)
        ensures
            equal == self.numerically_equal(*other),
            equal == (self.origin.x.numerically_equal(other.origin.x)
                && self.origin.y.numerically_equal(other.origin.y)
                && self.size.width.numerically_equal(other.size.width)
                && self.size.height.numerically_equal(other.size.height)),
    {
        self.origin.x.equals(other.origin.x) && self.origin.y.equals(other.origin.y)
            && self.size.width.equals(other.size.width) && self.size.height.equals(
            other.size.height,
        )
    }
}

} // verus!

//! Floating-point readings, held by their bit patterns.
//!
//! A [`Float`] stands for the IEEE 754 binary64 number with the same bits. What needs no rounding
//! is decided here on the bits: the class of a number, its negation, equality and the test for a
//! usable scale factor. Every finite number is a whole multiple of 2^-1074; [`Float::units`] is
//! that multiple, so contracts can speak of exact values.

use vstd::arithmetic::power2::{lemma_pow2_adds, lemma_pow2_pos, lemma_pow2_strictly_increases, pow2};
use vstd::prelude::*;

verus! {

/// The sign bit.
pub const SIGN_BIT: u64 = 0x8000_0000_0000_0000;

/// The lowest bit of the exponent field: 2^52.
pub const EXPONENT_UNIT: u64 = 0x0010_0000_0000_0000;

/// The exponent field of infinities and NaNs.
pub const MAX_EXPONENT: u64 = 2047;

/// The bits of positive infinity.
pub const INFINITY_BITS: u64 = 0x7ff0_0000_0000_0000;

/// A binary64 number, by its bits.
///
/// The derived `==` compares bits. [`Float::equals`] compares numbers.
#[derive(Clone, Copy, Debug, PartialEq, Eq, Structural)]
pub struct Float {
    pub bits: u64,
}

impl Float {
    /// Whether the sign bit is set.
    pub open spec fn is_negative(self) -> bool {
        self.bits >= SIGN_BIT
    }

    /// The bits without the sign.
    pub open spec fn magnitude(self) -> int {
        if self.is_negative() {
            self.bits - SIGN_BIT
        } else {
            self.bits as int
        }
    }

    /// The biased exponent field, `0..=2047`.
    pub open spec fn exponent(self) -> int {
        self.magnitude() / EXPONENT_UNIT as int
    }

    /// The fraction field, `0..2^52`.
    pub open spec fn fraction(self) -> int {
        self.magnitude() % EXPONENT_UNIT as int
    }

    pub open spec fn is_nan(self) -> bool {
        self.exponent() == MAX_EXPONENT && self.fraction() != 0
    }

    pub open spec fn is_finite(self) -> bool {
        self.exponent() < MAX_EXPONENT
    }

    /// Whether this is `0.0` or `-0.0`.
    pub open spec fn is_zero(self) -> bool {
        self.magnitude() == 0
    }

    /// The significand with its hidden bit, as a whole number.
    pub open spec fn significand(self) -> int {
        if self.exponent() == 0 {
            self.fraction()
        } else {
            EXPONENT_UNIT + self.fraction()
        }
    }

    /// How far the significand is shifted up from the smallest subnormal's place.
    pub open spec fn shift(self) -> nat {
        if self.exponent() == 0 {
            0
        } else {
            (self.exponent() - 1) as nat
        }
    }

    /// The absolute value of a finite number, in multiples of 2^-1074.
    pub open spec fn absolute_units(self) -> int {
        self.significand() * pow2(self.shift())
    }

    /// The value of a finite number, in multiples of 2^-1074.
    pub open spec fn units(self) -> int {
        if self.is_negative() {
            -self.absolute_units()
        } else {
            self.absolute_units()
        }
    }

    /// The number with the opposite sign.
    pub open spec fn negation(self) -> Float {
        if self.is_negative() {
            Float { bits: (self.bits - SIGN_BIT) as u64 }
        } else {
            Float { bits: (self.bits + SIGN_BIT) as u64 }
        }
    }

    /// What `==` says of two floating-point numbers: a NaN equals nothing, the two zeros are
    /// equal, and any other number equals only itself.
    pub open spec fn numerically_equal(self, other: Float) -> bool {
        &&& !self.is_nan()
        &&& !other.is_nan()
        &&& self.bits == other.bits || (self.is_zero() && other.is_zero())
    }

    /// Whether the number can be the scale factor of a view: not a NaN, finite, positive and not
    /// zero.
    pub open spec fn usable_as_scale_factor(self) -> bool {
        &&& !self.is_nan()
        &&& self.is_finite()
        &&& !self.is_negative()
        &&& !self.is_zero()
    }

    /// `0.0`.
    pub fn zero() -> (zero: Float)
        ensures
            zero.bits == 0,
    {
        Float { bits: 0 }
    }

    /// The number with the opposite sign: `-self`.
    pub fn negated(self) -> (negated: Float)
        ensures
            negated == self.negation(),
            self.bits < 0x8000_0000_0000_0000 ==> negated.bits == self.bits + 0x8000_0000_0000_0000,
            self.bits >= 0x8000_0000_0000_0000 ==> negated.bits == self.bits
                - 0x8000_0000_0000_0000,
    {
        if self.bits >= SIGN_BIT {
            Float { bits: self.bits - SIGN_BIT }
        } else {
            Float { bits: self.bits + SIGN_BIT }
        }
    }

    /// Whether the two numbers are equal.
    pub fn equals(self, other: Float) -> (equal: bool)
        ensures
            equal == self.numerically_equal(other),
            equal == ((self.bits == other.bits && self.bits <= 0x7ff0_0000_0000_0000) || (self.bits
                == other.bits && 0x8000_0000_0000_0000 <= self.bits <= 0xfff0_0000_0000_0000) || (
            self.bits == 0 && other.bits == 0x8000_0000_0000_0000) || (self.bits
                == 0x8000_0000_0000_0000 && other.bits == 0)),
    {
        let left: u64 = if self.bits >= SIGN_BIT { self.bits - SIGN_BIT } else { self.bits };
        let right: u64 = if other.bits >= SIGN_BIT { other.bits - SIGN_BIT } else { other.bits };
        left <= INFINITY_BITS && right <= INFINITY_BITS && (self.bits == other.bits || (left == 0
            && right == 0))
    }

    /// Whether the number can be the scale factor of a view.
    pub fn is_usable_scale_factor(self) -> (usable: bool)
        ensures
            usable == self.usable_as_scale_factor(),
            usable == (0 < self.bits < 0x7ff0_0000_0000_0000),
    {
        0 < self.bits && self.bits < INFINITY_BITS
    }

    /// Both zeros have the value 0.
    pub proof fn law_zeros_are_zero(self)
        requires
            self.is_zero(),
        ensures
            self.is_finite(),
            self.units() == 0,
    {
        assert(self.significand() == 0);
        assert(0 * pow2(self.shift()) == 0) by (nonlinear_arith);
    }

    /// Negating changes the sign of the value, keeps finite numbers finite and NaNs NaN, and twice
    /// is nothing.
    pub proof fn law_negation(self)
        ensures
            self.negation().negation() == self,
            self.negation().is_finite() == self.is_finite(),
            self.negation().is_nan() == self.is_nan(),
            self.negation().units() == -self.units(),
            self.negation().is_negative() != self.is_negative(),
            self.negation().magnitude() == self.magnitude(),
            self.bits < 0x8000_0000_0000_0000 ==> self.negation().bits == self.bits
                + 0x8000_0000_0000_0000,
    {
        assert(self.negation().magnitude() == self.magnitude());
    }

    /// The bits tell the class of a number: without the sign, those of finite numbers lie below
    /// those of infinity, and those of NaNs above.
    pub proof fn law_classes(self)
        ensures
            self.is_negative() <==> self.bits >= 0x8000_0000_0000_0000,
            self.magnitude() == self.bits as int % 0x8000_0000_0000_0000,
            self.is_finite() <==> self.bits as int % 0x8000_0000_0000_0000 < 0x7ff0_0000_0000_0000,
            self.is_nan() <==> self.bits as int % 0x8000_0000_0000_0000 > 0x7ff0_0000_0000_0000,
            self.is_zero() <==> (self.bits == 0 || self.bits == 0x8000_0000_0000_0000),
    {
    }

    /// The value grows with the bits: one more in the bits of a finite positive number is one unit
    /// more below 2^53, and twice as much from each power of two on. With a value of 0 for zero,
    /// and the sign, this fixes the value of every finite number.
    pub proof fn law_spacing(self, next: Float)
        requires
            next.bits == self.bits + 1,
            next.bits < 0x7ff0_0000_0000_0000,
        ensures
            next.units() - self.units() == pow2(
                if self.bits < 0x0020_0000_0000_0000 {
                    0
                } else {
                    (self.bits as int / 0x0010_0000_0000_0000 - 1) as nat
                },
            ),
    {
        let scale = pow2(self.shift()) as int;
        let significand = self.significand();
        if next.exponent() == self.exponent() {
            assert(next.significand() == significand + 1);
            assert((significand + 1) * scale == significand * scale + scale) by (nonlinear_arith);
        } else {
            assert(next.exponent() == self.exponent() + 1);
            assert(next.fraction() == 0);
            assert(self.fraction() == EXPONENT_UNIT - 1);
            if self.exponent() == 0 {
                assert(next.shift() == 0);
                assert((significand + 1) * scale == significand * scale + scale)
                    by (nonlinear_arith);
            } else {
                lemma_pow2_adds(self.shift(), 1);
                vstd::arithmetic::power2::lemma2_to64();
                assert(next.shift() == self.shift() + 1);
                assert(significand == 2 * EXPONENT_UNIT - 1);
                assert(EXPONENT_UNIT * (scale * 2) == significand * scale + scale)
                    by (nonlinear_arith)
                    requires
                        significand == 2 * EXPONENT_UNIT - 1,
                ;
            }
        }
    }

    /// Equality is symmetric and transitive, and every number but a NaN equals itself.
    pub proof fn law_equality(self, other: Float, third: Float)
        ensures
            self.numerically_equal(self) <==> !self.is_nan(),
            self.numerically_equal(other) <==> other.numerically_equal(self),
            self.numerically_equal(other) && other.numerically_equal(third)
                ==> self.numerically_equal(third),
            self.numerically_equal(other) && self.bits != other.bits ==> self.units() == 0
                && other.units() == 0 && self.is_finite() && other.is_finite(),
    {
        if self.is_zero() && other.is_zero() {
            self.law_zeros_are_zero();
            other.law_zeros_are_zero();
        }
    }

    /// A scale factor is usable exactly when it is finite and its value is positive.
    pub proof fn law_usable_scale_factor(self)
        ensures
            self.usable_as_scale_factor() == (self.is_finite() && self.units() > 0),
            self.usable_as_scale_factor() == (0 < self.bits < 0x7ff0_0000_0000_0000),
    {
        if self.is_finite() {
            lemma_pow2_pos(self.shift());
            let scale = pow2(self.shift()) as int;
            let significand = self.significand();
            if self.is_zero() {
                self.law_zeros_are_zero();
            } else {
                assert(significand > 0);
                assert(significand * scale > 0) by (nonlinear_arith)
                    requires
                        significand > 0,
                        scale > 0,
                ;
            }
        }
    }

    /// Two finite numbers are equal exactly when their values are.
    pub proof fn law_equal_by_value(self, other: Float)
        requires
            self.is_finite(),
            other.is_finite(),
        ensures
            self.numerically_equal(other) == (self.units() == other.units()),
    {
        if self.is_zero() {
            self.law_zeros_are_zero();
        }
        if other.is_zero() {
            other.law_zeros_are_zero();
        }
        self.lemma_units_sign();
        other.lemma_units_sign();
        if self.magnitude() < other.magnitude() {
            self.lemma_magnitude_orders(other);
        } else if other.magnitude() < self.magnitude() {
            other.lemma_magnitude_orders(self);
        }
    }

    proof fn lemma_units_sign(self)
        ensures
            self.is_finite() && !self.is_zero() ==> self.absolute_units() > 0,
    {
        if self.is_finite() && !self.is_zero() {
            lemma_pow2_pos(self.shift());
            let scale = pow2(self.shift()) as int;
            let significand = self.significand();
            assert(significand > 0);
            assert(significand * scale > 0) by (nonlinear_arith)
                requires
                    significand > 0,
                    scale > 0,
            ;
        }
    }

    /// The order of the magnitude bits is the order of the absolute values.
    proof fn lemma_magnitude_orders(self, other: Float)
        requires
            self.is_finite(),
            other.is_finite(),
            self.magnitude() < other.magnitude(),
        ensures
            self.absolute_units() < other.absolute_units(),
    {
        let low = self.significand();
        let high = other.significand();
        let low_scale = pow2(self.shift()) as int;
        let high_scale = pow2(other.shift()) as int;
        lemma_pow2_pos(self.shift());
        lemma_pow2_pos(other.shift());
        if self.shift() == other.shift() {
            assert(low < high);
            assert(low * low_scale < high * low_scale) by (nonlinear_arith)
                requires
                    low < high,
                    low_scale > 0,
            ;
        } else {
            assert(self.shift() < other.shift());
            let gap = (other.shift() - self.shift()) as nat;
            lemma_pow2_adds(self.shift(), gap);
            let factor = pow2(gap) as int;
            assert(factor >= 2) by {
                vstd::arithmetic::power2::lemma2_to64();
                if gap > 1 {
                    lemma_pow2_strictly_increases(1, gap);
                }
            }
            assert(low < 2 * EXPONENT_UNIT);
            assert(high >= EXPONENT_UNIT);
            assert(low * low_scale < high * (low_scale * factor)) by (nonlinear_arith)
                requires
                    low < 2 * EXPONENT_UNIT,
                    high >= EXPONENT_UNIT,
                    factor >= 2,
                    low_scale > 0,
            ;
        }
    }
}

} // verus!

//! Non-negative fixed-point decimals with six fractional digits.
//!
//! A value stores its size in millionths. Sums and products that leave the
//! representable range stop at the largest value; products and quotients
//! round toward zero.

use vstd::prelude::*;

verus! {

/// Raw units in the value 1.
pub const MICROS_PER_UNIT: u64 = 1_000_000;

/// The largest raw value.
pub const MICROS_MAX: u64 = 0xffff_ffff_ffff_ffff;

/// `v`, cut off at the largest raw value.
pub open spec fn saturated(v: int) -> int {
    if v > 0xffff_ffff_ffff_ffff {
        0xffff_ffff_ffff_ffff
    } else {
        v
    }
}

/// The raw product of two raw values, rounded toward zero.
pub open spec fn scaled_product(a: int, b: int) -> int {
    (a * b) / 1_000_000
}

/// The raw quotient of two raw values, rounded toward zero.
pub open spec fn scaled_quotient(a: int, b: int) -> int
    recommends
        b > 0,
{
    (a * 1_000_000) / b
}

/// The raw sum of two raw values, cut off at the largest raw value.
pub open spec fn plus(a: int, b: int) -> int {
    saturated(a + b)
}

/// The raw product of two raw values, rounded toward zero and cut off at the
/// largest raw value.
pub open spec fn times(a: int, b: int) -> int {
    saturated(scaled_product(a, b))
}

/// The raw quotient of two raw values, rounded toward zero and cut off at
/// the largest raw value.
pub open spec fn over(a: int, b: int) -> int
    recommends
        b > 0,
{
    saturated(scaled_quotient(a, b))
}

/// The distance between two raw values.
pub open spec fn distance(a: int, b: int) -> int {
    if a >= b {
        a - b
    } else {
        b - a
    }
}

/// The smaller of two raw values.
pub open spec fn smaller(a: int, b: int) -> int {
    if a <= b {
        a
    } else {
        b
    }
}

/// A non-negative decimal number held as a count of millionths.
#[derive(Clone, Copy, Debug, PartialEq, Eq, Structural)]
pub struct Fixed {
    pub micros: u64,
}

impl View for Fixed {
    type V = int;

    open spec fn view(&self) -> int {
        self.micros as int
    }
}

impl Fixed {
    /// Whether the value lies in the closed interval from 0 to 1.
    pub open spec fn is_unit(&self) -> bool {
        self@ <= 1_000_000
    }

    /// The value with the given number of millionths.
    pub fn from_micros(micros: u64) -> (r: Fixed)
        ensures
            r@ == micros,
    {
        Fixed { micros }
    }

    /// The value 0.
    pub fn zero() -> (r: Fixed)
        ensures
            r@ == 0,
    {
        Fixed { micros: 0 }
    }

    /// The value 1.
    pub fn one() -> (r: Fixed)
        ensures
            r@ == 1_000_000,
    {
        Fixed { micros: MICROS_PER_UNIT }
    }

    /// The fraction `numerator / denominator`, rounded toward zero.
    pub fn from_ratio(numerator: u64, denominator: u64) -> (r: Fixed)
        requires
            denominator > 0,
        ensures
            r@ == over(numerator as int, denominator as int),
    {
        let wide: u128 = (numerator as u128) * 1_000_000u128 / (denominator as u128);
        if wide > MICROS_MAX as u128 {
            Fixed { micros: MICROS_MAX }
        } else {
            Fixed { micros: wide as u64 }
        }
    }

    /// The sum, cut off at the largest value.
    pub fn saturating_add(self, rhs: Fixed) -> (r: Fixed)
        ensures
            r@ == plus(self@, rhs@),
    {
        if self.micros > MICROS_MAX - rhs.micros {
            Fixed { micros: MICROS_MAX }
        } else {
            Fixed { micros: self.micros + rhs.micros }
        }
    }

    /// The difference, or 0 where `rhs` is the larger.
    pub fn saturating_sub(self, rhs: Fixed) -> (r: Fixed)
        ensures
            r@ == if self@ >= rhs@ { self@ - rhs@ } else { 0 },
    {
        if self.micros >= rhs.micros {
            Fixed { micros: self.micros - rhs.micros }
        } else {
            Fixed { micros: 0 }
        }
    }

    /// The distance between the two values.
    pub fn abs_diff(self, rhs: Fixed) -> (r: Fixed)
        ensures
            r@ == distance(self@, rhs@),
    {
        if self.micros >= rhs.micros {
            Fixed { micros: self.micros - rhs.micros }
        } else {
            Fixed { micros: rhs.micros - self.micros }
        }
    }

    /// The product, rounded toward zero and cut off at the largest value.
    pub fn saturating_mul(self, rhs: Fixed) -> (r: Fixed)
        ensures
            r@ == times(self@, rhs@),
    {
        assert(self.micros * rhs.micros <= 0xffff_ffff_ffff_ffff * 0xffff_ffff_ffff_ffff)
            by (nonlinear_arith)
            requires
                self.micros <= 0xffff_ffff_ffff_ffff,
                rhs.micros <= 0xffff_ffff_ffff_ffff,
        ;
        let wide: u128 = (self.micros as u128) * (rhs.micros as u128) / 1_000_000u128;
        if wide > MICROS_MAX as u128 {
            Fixed { micros: MICROS_MAX }
        } else {
            Fixed { micros: wide as u64 }
        }
    }

    /// The quotient, rounded toward zero and cut off at the largest value.
    pub fn divided_by(self, rhs: Fixed) -> (r: Fixed)
        requires
            rhs@ > 0,
        ensures
            r@ == over(self@, rhs@),
    {
        let wide: u128 = (self.micros as u128) * 1_000_000u128 / (rhs.micros as u128);
        if wide > MICROS_MAX as u128 {
            Fixed { micros: MICROS_MAX }
        } else {
            Fixed { micros: wide as u64 }
        }
    }

    /// The smaller of the two values.
    pub fn min(self, rhs: Fixed) -> (r: Fixed)
        ensures
            r@ == smaller(self@, rhs@),
    {
        if self.micros <= rhs.micros {
            self
        } else {
            rhs
        }
    }

    /// The value, or 1 where it is above 1.
    pub fn capped(self) -> (r: Fixed)
        ensures
            r@ == smaller(self@, 1_000_000),
            r.is_unit(),
    {
        if self.micros <= MICROS_PER_UNIT {
            self
        } else {
            Fixed { micros: MICROS_PER_UNIT }
        }
    }
}

/// A product is no smaller than a factor whose partner is at least 1.
pub proof fn times_grows(a: int, b: int)
    requires
        0 <= a <= 0xffff_ffff_ffff_ffff,
        b >= 1_000_000,
    ensures
        times(a, b) >= a,
{
    assert((a * b) / 1_000_000 >= a) by (nonlinear_arith)
        requires
            a >= 0,
            b >= 1_000_000,
    ;
}

/// A product is no larger than a factor whose partner is at most 1.
pub proof fn times_shrinks(a: int, b: int)
    requires
        0 <= a,
        0 <= b <= 1_000_000,
    ensures
        0 <= scaled_product(a, b) <= a,
        times(a, b) == scaled_product(a, b) || a > 0xffff_ffff_ffff_ffff,
{
    assert(0 <= (a * b) / 1_000_000 <= a) by (nonlinear_arith)
        requires
            a >= 0,
            0 <= b <= 1_000_000,
    ;
}

/// A product grows with each factor.
pub proof fn times_monotone(a: int, b: int, c: int, d: int)
    requires
        0 <= a <= c,
        0 <= b <= d,
    ensures
        0 <= times(a, b) <= times(c, d),
{
    assert(0 <= (a * b) / 1_000_000 <= (c * d) / 1_000_000) by (nonlinear_arith)
        requires
            0 <= a <= c,
            0 <= b <= d,
    ;
}

/// A quotient is at most 1 where the divisor is the larger, and at least 1
/// where it is the smaller.
pub proof fn over_unit(a: int, b: int)
    requires
        0 <= a,
        0 < b,
    ensures
        a <= b ==> 0 <= scaled_quotient(a, b) <= 1_000_000 && over(a, b) == scaled_quotient(a, b),
        a >= b ==> over(a, b) >= 1_000_000,
        over(a, b) >= 0,
{
    assert(a <= b ==> 0 <= (a * 1_000_000) / b <= 1_000_000) by (nonlinear_arith)
        requires
            0 <= a,
            0 < b,
    ;
    assert(a >= b ==> (a * 1_000_000) / b >= 1_000_000) by (nonlinear_arith)
        requires
            0 <= a,
            0 < b,
    ;
    assert((a * 1_000_000) / b >= 0) by (nonlinear_arith)
        requires
            0 <= a,
            0 < b,
    ;
}

} // verus!

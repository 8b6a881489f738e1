//! Lengths in fixed point.
//!
//! A length has an absolute part and a part relative to the font size. Both
//! are whole numbers of thousandths: of a point and of an em. Sums and
//! negations saturate at the ends of the `i64` range, so every operation is
//! total; inside the range they are exact.

use vstd::prelude::*;

verus! {

/// How many stored units make up one point or one em.
pub const UNITS: i64 = 1000;

/// The value nearest to `x` that an `i64` can hold.
pub open spec fn saturate(x: int) -> int {
    if x < i64::MIN {
        i64::MIN as int
    } else if x > i64::MAX {
        i64::MAX as int
    } else {
        x
    }
}

/// Adds two numbers, stopping at the ends of the range.
pub fn saturating_sum(a: i64, b: i64) -> (r: i64)
    ensures
        r == saturate(a + b),
{
    if b > 0 && a > i64::MAX - b {
        i64::MAX
    } else if b < 0 && a < i64::MIN - b {
        i64::MIN
    } else {
        a + b
    }
}

/// Negates a number; the one value without a negative maps to the maximum.
pub fn saturating_negation(a: i64) -> (r: i64)
    ensures
        r == saturate(-a),
{
    if a == i64::MIN {
        i64::MAX
    } else {
        -a
    }
}

/// A length: `abs` thousandths of a point plus `em` thousandths of the font
/// size.
#[derive(Clone, Copy, Debug, PartialEq, Eq, Structural)]
pub struct Length {
    pub abs: i64,
    pub em: i64,
}

impl Length {
    /// The length with both parts zero.
    pub open spec fn spec_zero() -> Length {
        Length { abs: 0, em: 0 }
    }

    /// Whether this is the zero length.
    pub open spec fn spec_is_zero(self) -> bool {
        self == Length::spec_zero()
    }

    /// Part-wise saturating sum.
    pub open spec fn spec_plus(self, other: Length) -> Length {
        Length {
            abs: saturate(self.abs + other.abs) as i64,
            em: saturate(self.em + other.em) as i64,
        }
    }

    /// Part-wise saturating negation.
    pub open spec fn spec_negated(self) -> Length {
        Length { abs: saturate(-self.abs) as i64, em: saturate(-self.em) as i64 }
    }

    /// Whether the exact sum of the two lengths can be represented.
    pub open spec fn sum_fits(self, other: Length) -> bool {
        &&& i64::MIN <= self.abs + other.abs <= i64::MAX
        &&& i64::MIN <= self.em + other.em <= i64::MAX
    }

    /// The length with both parts zero.
    #[verifier::when_used_as_spec(spec_zero)]
    pub fn zero() -> (r: Length)
        ensures
            r == Length::spec_zero(),
    {
        Length { abs: 0, em: 0 }
    }

    /// A purely absolute length of `thousandths` thousandths of a point.
    pub fn points(thousandths: i64) -> (r: Length)
        ensures
            r == (Length { abs: thousandths, em: 0 }),
    {
        Length { abs: thousandths, em: 0 }
    }

    /// A purely font-relative length of `thousandths` thousandths of an em.
    pub fn ems(thousandths: i64) -> (r: Length)
        ensures
            r == (Length { abs: 0, em: thousandths }),
    {
        Length { abs: 0, em: thousandths }
    }

    /// Whether this is the zero length: equality with zero, which is how
    /// `typst_utils::Numeric::is_zero` tests a numeric value.
    #[verifier::when_used_as_spec(spec_is_zero)]
    pub fn is_zero(self) -> (r: bool)
        ensures
            r == self.spec_is_zero(),
    {
        self.abs == 0 && self.em == 0
    }

    /// The sum of two lengths, part by part.
    #[verifier::when_used_as_spec(spec_plus)]
    pub fn plus(self, other: Length) -> (r: Length)
        ensures
            r == self.spec_plus(other),
    {
        Length {
            abs: saturating_sum(self.abs, other.abs),
            em: saturating_sum(self.em, other.em),
        }
    }

    /// The negation of a length, part by part.
    #[verifier::when_used_as_spec(spec_negated)]
    pub fn negated(self) -> (r: Length)
        ensures
            r == self.spec_negated(),
    {
        Length { abs: saturating_negation(self.abs), em: saturating_negation(self.em) }
    }
}

/// Either automatic or a custom value.
#[derive(Debug, PartialEq, Eq, Structural)]
pub enum Smart<T> {
    Auto,
    Custom(T),
}

impl<T: Copy> Copy for Smart<T> {

}

impl<T: Copy> Clone for Smart<T> {
    fn clone(&self) -> (r: Self)
        ensures
            r == *self,
    {
        *self
    }
}

impl<T> Smart<T> {
    /// The custom value, or `fallback` when automatic.
    pub open spec fn spec_unwrap_or(self, fallback: T) -> T {
        match self {
            Smart::Auto => fallback,
            Smart::Custom(v) => v,
        }
    }

    /// The custom value, or `fallback` when automatic.
    #[verifier::when_used_as_spec(spec_unwrap_or)]
    pub fn unwrap_or(self, fallback: T) -> (r: T)
        ensures
            r == self.spec_unwrap_or(fallback),
    {
        match self {
            Smart::Auto => fallback,
            Smart::Custom(v) => v,
        }
    }
}

} // verus!

//! Exact fractions.
//!
//! The runner's period coordinate and a span's progress percentage are
//! quotients of two time values. They are kept as a numerator/denominator
//! pair instead of being divided out, so that every comparison the engine
//! makes is exact.

use vstd::prelude::*;

verus! {

/// Largest time value, in time units, that the engine works with. Keeping
/// every duration and delta within this bound keeps all of the engine's
/// arithmetic inside `i64` (and products of two time values inside `i128`).
pub const TIME_MAX: i64 = 1_000_000_000_000_000_000;

/// An exact fraction `num / den`.
///
/// The engine only ever builds fractions whose denominator is a timer or
/// span length, so a well-formed fraction has `1 <= den <= TIME_MAX`; the
/// numerator is a sum of two time values, so `|num| <= 2 * TIME_MAX`.
#[derive(Debug, Clone, Copy, PartialEq, Eq, Structural)]
pub struct Frac {
    /// Numerator; may be negative.
    pub num: i64,
    /// Denominator; positive for well-formed fractions.
    pub den: i64,
}

impl Frac {
    /// Bounds under which all fraction arithmetic stays exact.
    pub open spec fn wf(self) -> bool {
        &&& 1 <= self.den <= TIME_MAX
        &&& -2 * (TIME_MAX as int) <= self.num <= 2 * (TIME_MAX as int)
    }

    /// The two fractions stand for the same rational number.
    pub open spec fn same_value(self, other: Frac) -> bool {
        self.num * other.den == other.num * self.den
    }

    /// The fraction is at least one: `num / den >= 1`.
    pub open spec fn spec_ge_one(self) -> bool {
        self.num >= self.den
    }

    /// The fraction is at most zero: `num / den <= 0`.
    pub open spec fn spec_le_zero(self) -> bool {
        self.num <= 0
    }

    /// The integer part of the fraction, rounded toward minus infinity.
    pub open spec fn spec_floor(self) -> int {
        self.num as int / self.den as int
    }

    /// Make a fraction.
    pub fn new(num: i64, den: i64) -> (r: Frac)
        ensures
            r.num == num,
            r.den == den,
    {
        Frac { num, den }
    }

    /// Exact comparison of the two rational values.
    pub fn eq_value(&self, other: &Frac) -> (r: bool)
        requires
            self.wf(),
            other.wf(),
        ensures
            r == self.same_value(*other),
    {
        proof {
            lemma_frac_product_in_range(self.num as int, other.den as int);
            lemma_frac_product_in_range(other.num as int, self.den as int);
        }
        let left: i128 = (self.num as i128) * (other.den as i128);
        let right: i128 = (other.num as i128) * (self.den as i128);
        left == right
    }

    /// Whether the fraction is at least one.
    pub fn ge_one(&self) -> (r: bool)
        requires
            self.wf(),
        ensures
            r == self.spec_ge_one(),
    {
        self.num >= self.den
    }

    /// Whether the fraction is at most zero.
    pub fn le_zero(&self) -> (r: bool)
        requires
            self.wf(),
        ensures
            r == self.spec_le_zero(),
    {
        self.num <= 0
    }

    /// The integer part of the fraction, rounded toward minus infinity.
    pub fn floor(&self) -> (r: i64)
        requires
            self.wf(),
        ensures
            r == self.spec_floor(),
    {
        proof {
            lemma_floor_in_range(self.num as int, self.den as int);
        }
        let q = self.num.checked_div_euclid(self.den);
        q.unwrap()
    }

    /// The floor is zero exactly when the value lies in `[0, 1)`,
    /// which the engine can read off the numerator alone.
    pub fn floor_is_zero(&self) -> (r: bool)
        requires
            self.wf(),
        ensures
            r == (self.spec_floor() == 0),
    {
        proof {
            if 0 <= self.num < self.den {
                vstd::arithmetic::div_mod::lemma_basic_div(self.num as int, self.den as int);
            } else {
                lemma_floor_nonzero(self.num as int, self.den as int);
            }
        }
        0 <= self.num && self.num < self.den
    }
}

/// A product of a fraction numerator and a fraction denominator fits in
/// `i128`.
proof fn lemma_frac_product_in_range(a: int, b: int)
    requires
        -2 * (TIME_MAX as int) <= a <= 2 * (TIME_MAX as int),
        1 <= b <= TIME_MAX as int,
    ensures
        -i128::MAX <= a * b <= i128::MAX,
{
    assert(-i128::MAX <= a * b <= i128::MAX) by (nonlinear_arith)
        requires
            -2 * (TIME_MAX as int) <= a <= 2 * (TIME_MAX as int),
            1 <= b <= TIME_MAX as int,
    ;
}

/// The Euclidean quotient of a bounded numerator by a positive denominator
/// stays within three times the numerator bound.
pub(crate) proof fn lemma_floor_in_range(num: int, den: int)
    requires
        1 <= den <= TIME_MAX as int,
        -2 * (TIME_MAX as int) <= num <= 2 * (TIME_MAX as int),
    ensures
        -3 * (TIME_MAX as int) <= num / den <= 3 * (TIME_MAX as int),
{
    vstd::arithmetic::div_mod::lemma_fundamental_div_mod(num, den);
    vstd::arithmetic::div_mod::lemma_mod_bound(num, den);
    let q = num / den;
    let r = num % den;
    assert(-3 * (TIME_MAX as int) <= q <= 3 * (TIME_MAX as int)) by (nonlinear_arith)
        requires
            num == den * q + r,
            0 <= r < den,
            1 <= den <= TIME_MAX as int,
            -2 * (TIME_MAX as int) <= num <= 2 * (TIME_MAX as int),
    ;
}

/// Outside `[0, den)` the Euclidean quotient by a positive `den` is nonzero.
proof fn lemma_floor_nonzero(num: int, den: int)
    requires
        1 <= den,
        num < 0 || num >= den,
    ensures
        num / den != 0,
{
    vstd::arithmetic::div_mod::lemma_fundamental_div_mod(num, den);
    vstd::arithmetic::div_mod::lemma_mod_bound(num, den);
    if num / den == 0 {
        assert(num == den * 0 + num % den);
    }
}

} // verus!

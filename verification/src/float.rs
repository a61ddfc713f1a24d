//! IEEE 754 binary64 numbers, held by their bit pattern.

use vstd::prelude::*;

verus! {

/// A 64-bit floating-point number, held by its bit pattern.
///
/// The library orders, tests and stores such numbers but never calculates with
/// them, so the bit pattern carries all that it needs.
#[derive(Clone, Copy, Debug, PartialEq, Eq, Structural)]
pub struct Float64 {
    /// The IEEE 754 binary64 bit pattern.
    pub bits: u64,
}

/// The bit pattern of one.
pub const ONE_BITS: u64 = 0x3ff0_0000_0000_0000;

/// The bit pattern of ninety.
pub const NINETY_BITS: u64 = 0x4056_8000_0000_0000;

/// The bit that holds the sign.
pub const SIGN_BIT: u64 = 0x8000_0000_0000_0000;

/// The bit pattern of positive infinity: magnitudes above it are NaN.
pub const INFINITE_MAGNITUDE: u64 = 0x7ff0_0000_0000_0000;

impl Float64 {
    /// The bit pattern without its sign bit.
    pub open spec fn magnitude(self) -> int {
        if self.bits < SIGN_BIT {
            self.bits as int
        } else {
            self.bits - SIGN_BIT
        }
    }

    /// Where the number stands on the number line: the magnitude bits of an IEEE
    /// 754 number grow with its absolute value, and both zeros are at 0.
    pub open spec fn rank(self) -> int {
        if self.bits < SIGN_BIT {
            self.magnitude()
        } else {
            -self.magnitude()
        }
    }

    /// Not a number.
    pub open spec fn nan(self) -> bool {
        self.magnitude() > INFINITE_MAGNITUDE
    }

    /// Neither infinite nor NaN.
    pub open spec fn finite(self) -> bool {
        self.magnitude() < INFINITE_MAGNITUDE
    }

    /// `self < other`: false when either side is NaN.
    pub open spec fn below(self, other: Float64) -> bool {
        !self.nan() && !other.nan() && self.rank() < other.rank()
    }

    /// Whether the number is neither infinite nor NaN.
    pub fn is_finite(self) -> (r: bool)
        ensures
            r == self.finite(),
    {
        self.magnitude_bits() < INFINITE_MAGNITUDE
    }

    /// Whether the number is NaN.
    pub fn is_nan(self) -> (r: bool)
        ensures
            r == self.nan(),
    {
        self.magnitude_bits() > INFINITE_MAGNITUDE
    }

    /// Whether `self < other`, which no NaN is.
    pub fn less_than(self, other: Float64) -> (r: bool)
        ensures
            r == self.below(other),
    {
        if self.is_nan() || other.is_nan() {
            return false;
        }
        let negative: bool = self.bits >= SIGN_BIT;
        let other_negative: bool = other.bits >= SIGN_BIT;
        let a: u64 = self.magnitude_bits();
        let b: u64 = other.magnitude_bits();
        if negative && other_negative {
            b < a
        } else if negative {
            a > 0 || b > 0
        } else if other_negative {
            false
        } else {
            a < b
        }
    }

    fn magnitude_bits(self) -> (r: u64)
        ensures
            r == self.magnitude(),
    {
        if self.bits < SIGN_BIT {
            self.bits
        } else {
            self.bits - SIGN_BIT
        }
    }
}

/// `<` orders the numbers that are not NaN: irreflexive, transitive, and total
/// but for the two zeros, which are equal.
pub proof fn below_is_a_strict_order(a: Float64, b: Float64, c: Float64)
    requires
        !a.nan(),
        !b.nan(),
        !c.nan(),
    ensures
        !a.below(a),
        a.below(b) && b.below(c) ==> a.below(c),
        a.below(b) || b.below(a) || a.rank() == b.rank(),
        a.rank() == b.rank() ==> a == b || (a.magnitude() == 0 && b.magnitude() == 0),
{
}

/// NaN is below nothing and nothing is below NaN.
pub proof fn nan_is_unordered(a: Float64, b: Float64)
    requires
        a.nan(),
    ensures
        !a.below(b),
        !b.below(a),
{
}

/// The finite numbers are those that stand strictly between the two infinities, and
/// what is neither finite nor one of these is not a number.
pub proof fn finite_numbers_are_between_the_infinities(x: Float64, low: Float64, high: Float64)
    requires
        low.bits == 0xfff0_0000_0000_0000,
        high.bits == 0x7ff0_0000_0000_0000,
    ensures
        x.finite() <==> low.below(x) && x.below(high),
        x.nan() <==> !x.finite() && x != low && x != high,
{
}

/// Numbers without a sign bit come in the order of their bits, up to infinity.
pub proof fn positive_numbers_come_in_the_order_of_their_bits(x: Float64, y: Float64)
    requires
        x.bits <= 0x7ff0_0000_0000_0000,
        y.bits <= 0x7ff0_0000_0000_0000,
    ensures
        x.below(y) <==> x.bits < y.bits,
{
}

/// To set the sign bit of two numbers turns their order round, and a number with the
/// sign bit is below every number without it, except where both are zero.
pub proof fn signs_turn_the_order(x: Float64, y: Float64, minus_x: Float64, minus_y: Float64)
    requires
        x.bits <= 0x7ff0_0000_0000_0000,
        y.bits <= 0x7ff0_0000_0000_0000,
        minus_x.bits == x.bits + 0x8000_0000_0000_0000,
        minus_y.bits == y.bits + 0x8000_0000_0000_0000,
    ensures
        minus_x.below(minus_y) <==> y.bits < x.bits,
        minus_x.below(y) <==> !(x.bits == 0 && y.bits == 0),
        !y.below(minus_x),
{
}

} // verus!

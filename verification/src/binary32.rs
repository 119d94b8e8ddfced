//! Single-precision values as their IEEE 754 bit patterns.
//!
//! The analysis and synthesis stages hand their results over as raw
//! `binary32` words. Everything decided here about such a word (whether it is
//! a NaN, how two of them compare) is read off the bits with integer
//! arithmetic alone.

use vstd::prelude::*;
use vstd::arithmetic::power2::pow2;

verus! {

/// The sign bit of a `binary32` word.
pub const SIGN_BIT: u32 = 0x8000_0000;

/// The bit pattern of positive infinity: every pattern whose magnitude lies
/// above it is a NaN.
pub const INFINITY_BITS: u32 = 0x7f80_0000;

/// Two to the power 23: the number of values that the fraction field takes.
pub const FRACTION_SPAN: u32 = 0x80_0000;

/// The exponent field from which on a value has no fractional digits left:
/// the significand of a normal number counts units of two to the power
/// `exponent - 150`.
pub const EXPONENT_OF_UNIT: u32 = 150;

/// One IEEE 754 `binary32` value, held as its bit pattern.
#[derive(Clone, Copy, Debug, PartialEq, Eq, Structural)]
pub struct Binary32 {
    pub bits: u32,
}

impl Binary32 {
    /// The word without its sign bit. For everything but NaN, a larger
    /// magnitude is a value further from zero.
    pub open spec fn magnitude(self) -> nat {
        if self.bits >= SIGN_BIT {
            (self.bits - SIGN_BIT) as nat
        } else {
            self.bits as nat
        }
    }

    /// Whether the sign bit is set.
    pub open spec fn is_negative(self) -> bool {
        self.bits >= SIGN_BIT
    }

    /// Whether the word is a NaN.
    pub open spec fn spec_is_nan(self) -> bool {
        self.magnitude() > INFINITY_BITS
    }

    /// The biased exponent field, between 0 and 255.
    pub open spec fn exponent(self) -> nat {
        self.magnitude() / (FRACTION_SPAN as nat)
    }

    /// The fraction field, below two to the power 23.
    pub open spec fn fraction(self) -> nat {
        self.magnitude() % (FRACTION_SPAN as nat)
    }

    /// Whether the word stands for the whole number `n`, other than zero: a
    /// normal number with the sign of `n` whose significand, counted in
    /// units of `2^(exponent - 150)`, comes to the absolute value of `n`.
    pub open spec fn is_whole_number(self, n: int) -> bool {
        &&& n != 0
        &&& self.is_negative() == (n < 0)
        &&& 1 <= self.exponent() <= EXPONENT_OF_UNIT
        &&& FRACTION_SPAN + self.fraction() == (if n < 0 {
            -n
        } else {
            n
        }) * pow2((EXPONENT_OF_UNIT - self.exponent()) as nat)
    }

    /// The position of a value that is not NaN on the number line: the
    /// magnitude, negated where the sign bit is set. Both zeros have rank 0,
    /// and of two such values the smaller one has the smaller rank.
    pub open spec fn rank(self) -> int {
        if self.is_negative() {
            -(self.magnitude() as int)
        } else {
            self.magnitude() as int
        }
    }

    /// IEEE 754 `<`: false as soon as either side is a NaN.
    pub open spec fn spec_lt(self, other: Binary32) -> bool {
        !self.spec_is_nan() && !other.spec_is_nan() && self.rank() < other.rank()
    }

    /// IEEE 754 `>`.
    pub open spec fn spec_gt(self, other: Binary32) -> bool {
        other.spec_lt(self)
    }

    /// Wraps a bit pattern.
    pub fn from_bits(bits: u32) -> (value: Binary32)
        ensures
            value.bits == bits,
    {
        Binary32 { bits }
    }

    /// The bit pattern.
    pub fn to_bits(self) -> (bits: u32)
        ensures
            bits == self.bits,
    {
        self.bits
    }

    /// Whether the value is a NaN.
    #[verifier::when_used_as_spec(spec_is_nan)]
    pub fn is_nan(self) -> (nan: bool)
        ensures
            nan == self.spec_is_nan(),
    {
        let magnitude: u32 = if self.bits >= SIGN_BIT {
            self.bits - SIGN_BIT
        } else {
            self.bits
        };
        magnitude > INFINITY_BITS
    }

    /// Compares two values as IEEE 754 `<` does.
    #[verifier::when_used_as_spec(spec_lt)]
    pub fn lt(self, other: Binary32) -> (less: bool)
        ensures
            less == self.spec_lt(other),
    {
        if self.is_nan() || other.is_nan() {
            return false;
        }
        let left_negative: bool = self.bits >= SIGN_BIT;
        let right_negative: bool = other.bits >= SIGN_BIT;
        if left_negative {
            if right_negative {
                // Both below zero: the larger magnitude is the smaller value.
                self.bits > other.bits
            } else {
                // Negative zero is not below positive zero.
                self.bits > SIGN_BIT || other.bits > 0
            }
        } else {
            !right_negative && self.bits < other.bits
        }
    }

    /// Compares two values as IEEE 754 `>` does.
    #[verifier::when_used_as_spec(spec_gt)]
    pub fn gt(self, other: Binary32) -> (greater: bool)
        ensures
            greater == self.spec_gt(other),
    {
        other.lt(self)
    }
}

} // verus!

//! Double-precision values as their IEEE 754 bit patterns.
//!
//! A windowed amplitude arrives as a raw `binary64` word. Its sign, exponent
//! and fraction are read off the bits with integer arithmetic, and so is its
//! integer part.

use vstd::prelude::*;
use vstd::arithmetic::power2::pow2;

verus! {

/// The sign bit of a `binary64` word.
pub const SIGN_BIT: u64 = 0x8000_0000_0000_0000;

/// The bit pattern of positive infinity: every pattern whose magnitude lies
/// above it is a NaN.
pub const INFINITY_BITS: u64 = 0x7ff0_0000_0000_0000;

/// Two to the power 52: the number of values that the fraction field takes.
pub const FRACTION_SPAN: u64 = 0x10_0000_0000_0000;

/// The exponent field of the values in `[1, 2)`.
pub const EXPONENT_BIAS: u64 = 1023;

/// The exponent field from which on a value has no fractional digits left:
/// the significand of a normal number counts units of two to the power
/// `exponent - 1075`.
pub const EXPONENT_OF_UNIT: u64 = 1075;

/// One IEEE 754 `binary64` value, held as its bit pattern.
#[derive(Clone, Copy, Debug, PartialEq, Eq, Structural)]
pub struct Binary64 {
    pub bits: u64,
}

impl Binary64 {
    /// The word without its sign bit.
    pub open spec fn magnitude(self) -> nat {
        if self.bits >= SIGN_BIT {
            (self.bits - SIGN_BIT) as nat
        } else {
            self.bits as nat
        }
    }

    /// Whether the sign bit is set.
    pub open spec fn is_negative(self) -> bool {
        self.bits >= SIGN_BIT
    }

    /// Whether the word is a NaN.
    pub open spec fn spec_is_nan(self) -> bool {
        self.magnitude() > INFINITY_BITS
    }

    /// The biased exponent field, between 0 and 2047.
    pub open spec fn exponent(self) -> nat {
        self.magnitude() / (FRACTION_SPAN as nat)
    }

    /// The fraction field, below two to the power 52.
    pub open spec fn fraction(self) -> nat {
        self.magnitude() % (FRACTION_SPAN as nat)
    }

    /// The significand of a normal number, with its leading one: the absolute
    /// value is `significand * 2^(exponent - 1075)`.
    pub open spec fn significand(self) -> nat {
        FRACTION_SPAN as nat + self.fraction()
    }

    /// The integer part of the absolute value of a normal number whose
    /// exponent field is at most 1075: the significand without the digits
    /// that stand behind the binary point.
    pub open spec fn whole_part(self) -> nat
        recommends
            EXPONENT_BIAS <= self.exponent() <= EXPONENT_OF_UNIT,
    {
        self.significand() / pow2((EXPONENT_OF_UNIT - self.exponent()) as nat)
    }

    /// Wraps a bit pattern.
    pub fn from_bits(bits: u64) -> (value: Binary64)
        ensures
            value.bits == bits,
    {
        Binary64 { bits }
    }

    /// The bit pattern.
    pub fn to_bits(self) -> (bits: u64)
        ensures
            bits == self.bits,
    {
        self.bits
    }

    /// Whether the value is a NaN.
    #[verifier::when_used_as_spec(spec_is_nan)]
    pub fn is_nan(self) -> (nan: bool)
        ensures
            nan == self.spec_is_nan(),
    {
        let magnitude: u64 = if self.bits >= SIGN_BIT {
            self.bits - SIGN_BIT
        } else {
            self.bits
        };
        magnitude > INFINITY_BITS
    }
}

/// The whole part brackets the absolute value from below: measured in units
/// of `2^(exponent - 1075)`, the significand lies at or above the whole part
/// and strictly below the next integer. So the whole part is the absolute
/// value rounded toward zero, never to the nearest.
pub proof fn lemma_whole_part_brackets(value: Binary64)
    requires
        EXPONENT_BIAS <= value.exponent() <= EXPONENT_OF_UNIT,
    ensures
        value.whole_part() * pow2((EXPONENT_OF_UNIT - value.exponent()) as nat)
            <= value.significand(),
        value.significand() < (value.whole_part() + 1) * pow2(
            (EXPONENT_OF_UNIT - value.exponent()) as nat,
        ),
{
    let unit = pow2((EXPONENT_OF_UNIT - value.exponent()) as nat) as int;
    let s = value.significand() as int;
    vstd::arithmetic::power2::lemma_pow2_pos((EXPONENT_OF_UNIT - value.exponent()) as nat);
    let q = s / unit;
    assert(q * unit <= s < (q + 1) * unit) by (nonlinear_arith)
        requires
            q == s / unit,
            unit > 0,
            s >= 0,
    ;
}

} // verus!

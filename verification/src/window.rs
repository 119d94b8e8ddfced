//! Output stage of the windower: every windowed amplitude is cut down to a
//! signed 16-bit sample.

use vstd::prelude::*;
use vstd::arithmetic::power2::pow2;
use crate::binary64::{Binary64, EXPONENT_BIAS, EXPONENT_OF_UNIT, FRACTION_SPAN, SIGN_BIT};

verus! {

/// The exponent field from which on the absolute value is at least 32768 and
/// no longer fits a sample.
pub const EXPONENT_OF_OVERFLOW: u64 = 1038;

/// The sample that stands for `amplitude`: its integer part, rounded toward
/// zero. A NaN becomes silence, and what lies outside the range of a sample
/// becomes the nearest end of that range.
pub open spec fn quantized(amplitude: Binary64) -> int {
    if amplitude.spec_is_nan() {
        0
    } else if amplitude.exponent() < EXPONENT_BIAS {
        0
    } else if amplitude.exponent() >= EXPONENT_OF_OVERFLOW {
        if amplitude.is_negative() {
            i16::MIN as int
        } else {
            i16::MAX as int
        }
    } else if amplitude.is_negative() {
        -(amplitude.whole_part() as int)
    } else {
        amplitude.whole_part() as int
    }
}

/// Below the overflow exponent the whole part fits a sample, and it is at
/// least one.
proof fn lemma_whole_part_below_overflow(amplitude: Binary64)
    requires
        EXPONENT_BIAS <= amplitude.exponent() < EXPONENT_OF_OVERFLOW,
    ensures
        1 <= amplitude.whole_part() <= i16::MAX,
{
    let shift = (EXPONENT_OF_UNIT - amplitude.exponent()) as nat;
    let unit = pow2(shift) as int;
    let s = amplitude.significand() as int;
    vstd::arithmetic::power2::lemma2_to64();
    vstd::arithmetic::power2::lemma2_to64_rest();
    if shift > 38 {
        vstd::arithmetic::power2::lemma_pow2_strictly_increases(38, shift);
    }
    if shift < 52 {
        vstd::arithmetic::power2::lemma_pow2_strictly_increases(shift, 52);
    }
    assert(0x40_0000_0000 <= unit <= 0x10_0000_0000_0000);
    assert(0x10_0000_0000_0000 <= s < 0x20_0000_0000_0000);
    assert(1 <= s / unit <= 32767) by (nonlinear_arith)
        requires
            0x40_0000_0000 <= unit <= 0x10_0000_0000_0000,
            0x10_0000_0000_0000 <= s < 0x20_0000_0000_0000,
    ;
}

/// Cuts one windowed amplitude down to a sample.
pub fn quantize(amplitude: Binary64) -> (sample: i16)
    ensures
        sample == quantized(amplitude),
{
    if amplitude.is_nan() {
        return 0;
    }
    let negative: bool = amplitude.bits >= SIGN_BIT;
    let magnitude: u64 = if negative {
        amplitude.bits - SIGN_BIT
    } else {
        amplitude.bits
    };
    let exponent: u64 = magnitude / FRACTION_SPAN;
    let fraction: u64 = magnitude % FRACTION_SPAN;
    if exponent < EXPONENT_BIAS {
        return 0;
    }
    if exponent >= EXPONENT_OF_OVERFLOW {
        return if negative {
            i16::MIN
        } else {
            i16::MAX
        };
    }
    let shift: u64 = EXPONENT_OF_UNIT - exponent;
    let significand: u64 = FRACTION_SPAN + fraction;
    let whole: u64 = significand >> shift;
    proof {
        vstd::bits::lemma_u64_shr_is_div(significand, shift);
        lemma_whole_part_below_overflow(amplitude);
        assert(whole == amplitude.whole_part());
    }
    let sample: i16 = whole as i16;
    if negative {
        -sample
    } else {
        sample
    }
}

/// Cuts every amplitude of a windowed frame down to a sample. The output is
/// as long as the input.
pub fn quantize_signal(amplitudes: &Vec<Binary64>) -> (samples: Vec<i16>)
    ensures
        samples@.len() == amplitudes@.len(),
        forall|t: int| 0 <= t < samples@.len() ==> samples@[t] == quantized(amplitudes@[t]),
{
    let mut samples: Vec<i16> = Vec::with_capacity(amplitudes.len());
    let mut t: usize = 0;
    while t < amplitudes.len()
        invariant
            t <= amplitudes@.len(),
            samples@.len() == t,
            forall|k: int| 0 <= k < t ==> samples@[k] == quantized(amplitudes@[k]),
        decreases amplitudes@.len() - t,
    {
        samples.push(quantize(amplitudes[t]));
        t = t + 1;
    }
    samples
}

} // verus!

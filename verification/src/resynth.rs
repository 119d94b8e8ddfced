//! Output stage of the additive resynthesizer: every synthesized amplitude is
//! clamped into the range of a signed 16-bit sample.

use vstd::prelude::*;
use crate::binary32::Binary32;

verus! {

/// The bit pattern of `32767.0`, the largest amplitude a sample can hold.
pub const CEILING_BITS: u32 = 0x46ff_fe00;

/// The bit pattern of `-32768.0`, the smallest amplitude a sample can hold.
pub const FLOOR_BITS: u32 = 0xc700_0000;

/// The largest amplitude a sample can hold.
pub open spec fn ceiling() -> Binary32 {
    Binary32 { bits: CEILING_BITS }
}

/// The smallest amplitude a sample can hold.
pub open spec fn floor() -> Binary32 {
    Binary32 { bits: FLOOR_BITS }
}

/// `amplitude` brought into the sample range: what lies above the ceiling
/// becomes the ceiling, what lies below the floor becomes the floor, and
/// everything else, a NaN included, stays as it is.
pub open spec fn clamped(amplitude: Binary32) -> Binary32 {
    if amplitude.spec_gt(ceiling()) {
        ceiling()
    } else if amplitude.spec_lt(floor()) {
        floor()
    } else {
        amplitude
    }
}

/// Whether `amplitude` neither exceeds the ceiling nor falls below the floor.
pub open spec fn in_sample_range(amplitude: Binary32) -> bool {
    !amplitude.spec_gt(ceiling()) && !amplitude.spec_lt(floor())
}

/// The ceiling is the number 32767 and the floor the number -32768: the ends
/// of the range of a signed 16-bit sample.
pub proof fn lemma_bounds_are_sample_limits()
    ensures
        ceiling().is_whole_number(i16::MAX as int),
        floor().is_whole_number(i16::MIN as int),
{
    vstd::arithmetic::power2::lemma2_to64();
    assert(ceiling().exponent() == 141);
    assert(ceiling().fraction() == 0x7f_fe00);
    assert(floor().exponent() == 142);
    assert(floor().fraction() == 0);
}

/// A clamped amplitude never exceeds the ceiling nor falls below the floor,
/// whatever went in; and clamping leaves alone what is already in range.
pub proof fn lemma_clamped_in_range(amplitude: Binary32)
    ensures
        in_sample_range(clamped(amplitude)),
        in_sample_range(amplitude) ==> clamped(amplitude) == amplitude,
        clamped(clamped(amplitude)) == clamped(amplitude),
{
}

/// Clamps one synthesized amplitude into the sample range.
pub fn clamp_amplitude(amplitude: Binary32) -> (result: Binary32)
    ensures
        result == clamped(amplitude),
        in_sample_range(result),
{
    let top = Binary32::from_bits(CEILING_BITS);
    let bottom = Binary32::from_bits(FLOOR_BITS);
    if amplitude.gt(top) {
        top
    } else if amplitude.lt(bottom) {
        bottom
    } else {
        amplitude
    }
}

/// Clamps every amplitude of a synthesized frame.
pub fn clamp_signal(amplitudes: &Vec<Binary32>) -> (result: Vec<Binary32>)
    ensures
        result@.len() == amplitudes@.len(),
        forall|t: int| 0 <= t < result@.len() ==> result@[t] == clamped(amplitudes@[t]),
        forall|t: int| 0 <= t < result@.len() ==> in_sample_range(result@[t]),
{
    let mut result: Vec<Binary32> = Vec::with_capacity(amplitudes.len());
    let mut t: usize = 0;
    while t < amplitudes.len()
        invariant
            t <= amplitudes@.len(),
            result@.len() == t,
            forall|k: int| 0 <= k < t ==> result@[k] == clamped(amplitudes@[k]),
            forall|k: int| 0 <= k < t ==> in_sample_range(result@[k]),
        decreases amplitudes@.len() - t,
    {
        result.push(clamp_amplitude(amplitudes[t]));
        t = t + 1;
    }
    result
}

} // verus!

//! Frame extraction: fixed-length windows cut from a flat sample buffer,
//! padded with silence where they reach past its end.

use vstd::prelude::*;

verus! {

/// The sample at `index` of `samples`, or silence where `index` lies outside it.
pub open spec fn sample_or_silence(samples: Seq<i16>, index: int) -> i16 {
    if 0 <= index < samples.len() {
        samples[index]
    } else {
        0
    }
}

/// The frame of `frame_length` samples that begins at `start`.
pub open spec fn frame_at(samples: Seq<i16>, start: int, frame_length: nat) -> Seq<i16> {
    Seq::new(frame_length, |i: int| sample_or_silence(samples, start + i))
}

/// Cuts the frame of `frame_length` samples that begins at `start`.
///
/// The result holds the real parts of the frame; every imaginary part is zero.
/// Reads past the end of `samples` yield silence, so the frame is never short.
pub fn extract_frame(samples: &[i16], start: usize, frame_length: usize) -> (frame: Vec<i16>)
    ensures
        frame@ == frame_at(samples@, start as int, frame_length as nat),
        frame@.len() == frame_length,
        forall|i: int|
            0 <= i < frame_length && start + i < samples@.len() ==> frame@[i] == samples@[start + i],
        forall|i: int| 0 <= i < frame_length && start + i >= samples@.len() ==> frame@[i] == 0,
{
    let input_length: usize = samples.len();
    let available: usize = if start < input_length {
        input_length - start
    } else {
        0
    };
    let mut frame: Vec<i16> = Vec::with_capacity(frame_length);
    let mut i: usize = 0;
    while i < frame_length
        invariant
            i <= frame_length,
            input_length == samples@.len(),
            available as int == if start < samples@.len() {
                samples@.len() - start
            } else {
                0
            },
            frame@.len() == i,
            forall|k: int| 0 <= k < i ==> frame@[k] == sample_or_silence(samples@, start + k),
        decreases frame_length - i,
    {
        let value: i16 = if i < available {
            samples[start + i]
        } else {
            0
        };
        frame.push(value);
        i = i + 1;
    }
    frame
}

} // verus!

//! The frame schedule: where successive frames begin, how many there are,
//! and how long the stretched output becomes.

use vstd::prelude::*;

verus! {

/// Number of frames cut from `input_length` samples when successive frames
/// begin `hop` samples apart: one for every multiple of `hop` below
/// `input_length`.
pub open spec fn frame_count(input_length: nat, hop: nat) -> nat
    recommends
        hop > 0,
{
    if input_length == 0 {
        0
    } else {
        ((input_length - 1) / (hop as int) + 1) as nat
    }
}

/// Number of samples emitted when every frame is resynthesized into
/// `synthesis_duration` samples.
pub open spec fn stretched_length(input_length: nat, hop: nat, synthesis_duration: nat) -> nat
    recommends
        hop > 0,
{
    frame_count(input_length, hop) * synthesis_duration
}

/// `k * hop` lies below `input_length` exactly for the `k` below the frame count.
pub proof fn lemma_frame_count_bounds(input_length: nat, hop: nat, k: nat)
    requires
        hop > 0,
    ensures
        k < frame_count(input_length, hop) <==> k * hop < input_length,
{
    if input_length > 0 {
        let last = (input_length - 1) as int;
        let h = hop as int;
        let q = last / h;
        assert(q * h <= last < q * h + h) by (nonlinear_arith)
            requires
                q == last / h,
                h > 0,
                last >= 0,
        ;
        if (k as int) <= q {
            assert(k * h <= q * h) by (nonlinear_arith)
                requires
                    k <= q,
                    h > 0,
            ;
        } else {
            assert(k * h >= (q + 1) * h) by (nonlinear_arith)
                requires
                    k >= q + 1,
                    h > 0,
            ;
            assert((q + 1) * h == q * h + h) by (nonlinear_arith);
        }
    } else {
        assert(k * hop >= 0) by (nonlinear_arith);
    }
}

/// With a hop that divides the input length and a synthesis duration equal to
/// the hop, the output is exactly as long as the input.
pub proof fn lemma_equal_hop_keeps_length(input_length: nat, hop: nat)
    requires
        hop > 0,
        input_length % hop == 0,
    ensures
        stretched_length(input_length, hop, hop) == input_length,
{
    if input_length > 0 {
        let n = input_length as int;
        let h = hop as int;
        let q = n / h;
        assert(n == q * h) by (nonlinear_arith)
            requires
                q == n / h,
                n % h == 0,
                h > 0,
        ;
        assert(q >= 1) by (nonlinear_arith)
            requires
                n == q * h,
                n > 0,
                h > 0,
        ;
        assert((n - 1) / h == q - 1) by (nonlinear_arith)
            requires
                n == q * h,
                q >= 1,
                h > 0,
        ;
    } else {
        assert(0 * hop == 0) by (nonlinear_arith);
    }
}

/// The output grows in proportion to the synthesis duration: a duration of
/// `factor` hops gives `factor` times the output of a duration of one hop.
pub proof fn lemma_stretch_is_proportional(input_length: nat, hop: nat, factor: nat)
    requires
        hop > 0,
    ensures
        stretched_length(input_length, hop, factor * hop) == factor * stretched_length(
            input_length,
            hop,
            hop,
        ),
{
    let c = frame_count(input_length, hop);
    assert(c * (factor * hop) == factor * (c * hop)) by (nonlinear_arith);
}

/// Counts the frames of an input of `input_length` samples.
pub fn count_frames(input_length: usize, hop: usize) -> (count: usize)
    requires
        hop > 0,
    ensures
        count == frame_count(input_length as nat, hop as nat),
{
    if input_length == 0 {
        0
    } else {
        (input_length - 1) / hop + 1
    }
}

/// Lists the offsets at which successive frames begin: `0`, `hop`, `2 * hop`
/// and so on, as long as the offset lies inside the input.
pub fn frame_starts(input_length: usize, hop: usize) -> (starts: Vec<usize>)
    requires
        hop > 0,
    ensures
        starts@.len() == frame_count(input_length as nat, hop as nat),
        forall|k: int| 0 <= k < starts@.len() ==> starts@[k] == k * hop,
        forall|k: int| 0 <= k < starts@.len() ==> starts@[k] < input_length,
{
    let mut starts: Vec<usize> = Vec::new();
    let mut next: usize = 0;
    assert(0 * hop == 0) by (nonlinear_arith);
    while next < input_length
        invariant
            hop > 0,
            next == starts@.len() * hop || (next == input_length && starts@.len() * hop
                >= input_length),
            forall|k: int| 0 <= k < starts@.len() ==> starts@[k] == k * hop,
            forall|k: int| 0 <= k < starts@.len() ==> starts@[k] < input_length,
        decreases input_length - next,
    {
        assert(next == starts@.len() * hop);
        let ghost done = starts@.len();
        starts.push(next);
        assert((done + 1) * hop == done * hop + hop) by (nonlinear_arith);
        next = if input_length - next > hop {
            next + hop
        } else {
            input_length
        };
    }
    proof {
        let n = starts@.len();
        lemma_frame_count_bounds(input_length as nat, hop as nat, n);
        if n > 0 {
            lemma_frame_count_bounds(input_length as nat, hop as nat, (n - 1) as nat);
            assert(starts@[n - 1] == (n - 1) * hop);
        }
        assert(n * hop >= input_length);
    }
    starts
}

/// Length of the stretched output, or `None` where it does not fit a `usize`.
pub fn output_length(input_length: usize, hop: usize, synthesis_duration: usize) -> (length: Option<
    usize,
>)
    requires
        hop > 0,
    ensures
        length.is_some() <==> stretched_length(
            input_length as nat,
            hop as nat,
            synthesis_duration as nat,
        ) <= usize::MAX,
        length matches Some(n) ==> n == stretched_length(
            input_length as nat,
            hop as nat,
            synthesis_duration as nat,
        ),
{
    let count = count_frames(input_length, hop);
    count.checked_mul(synthesis_duration)
}

} // verus!

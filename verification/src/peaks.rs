//! Peak selection: which frequency bins of one frame carry its dominant
//! spectral content.
//!
//! Selection runs in two steps. First the loudest bin is found. From its
//! amplitude the caller derives the bounds of an open interval around it, and
//! every bin whose amplitude lies strictly inside that interval is a peak.

use vstd::prelude::*;
use crate::binary32::Binary32;

verus! {

/// One bin of a transformed frame: amplitude in dB, frequency in Hz and phase
/// in degrees.
#[derive(Clone, Copy, Debug, PartialEq, Eq, Structural)]
pub struct FrequencyBin {
    pub amplitude: Binary32,
    pub frequency: Binary32,
    pub phase: Binary32,
}

/// Whether bin `k` is the loudest of `bins`: its amplitude is a number, no
/// bin is louder, and every bin before it is quieter or has no amplitude at
/// all. A NaN amplitude never wins, and of equally loud bins the first does.
pub open spec fn is_loudest(bins: Seq<FrequencyBin>, k: int) -> bool {
    &&& 0 <= k < bins.len()
    &&& !bins[k].amplitude.spec_is_nan()
    &&& forall|j: int| 0 <= j < bins.len() ==> !bins[k].amplitude.spec_lt(#[trigger] bins[j].amplitude)
    &&& forall|j: int|
        0 <= j < k ==> (#[trigger] bins[j].amplitude).spec_is_nan() || bins[j].amplitude.spec_lt(
            bins[k].amplitude,
        )
}

/// Whether the amplitude of every bin is a NaN (vacuously so for no bins).
pub open spec fn all_silent(bins: Seq<FrequencyBin>) -> bool {
    forall|j: int| 0 <= j < bins.len() ==> (#[trigger] bins[j].amplitude).spec_is_nan()
}

/// Whether the amplitude of `bin` lies strictly between `lower` and `upper`.
pub open spec fn is_within(bin: FrequencyBin, lower: Binary32, upper: Binary32) -> bool {
    bin.amplitude.spec_gt(lower) && bin.amplitude.spec_lt(upper)
}

/// The bins of `bins` whose amplitude lies strictly between `lower` and
/// `upper`, in the order in which the frame holds them.
pub open spec fn peaks_between(bins: Seq<FrequencyBin>, lower: Binary32, upper: Binary32) -> Seq<
    FrequencyBin,
> {
    bins.filter(|bin: FrequencyBin| is_within(bin, lower, upper))
}

/// At most one bin is the loudest.
pub proof fn lemma_loudest_is_unique(bins: Seq<FrequencyBin>, k1: int, k2: int)
    requires
        is_loudest(bins, k1),
        is_loudest(bins, k2),
    ensures
        k1 == k2,
{
    if k1 < k2 {
        assert(bins[k1].amplitude.spec_is_nan() || bins[k1].amplitude.spec_lt(bins[k2].amplitude));
        assert(!bins[k1].amplitude.spec_lt(bins[k2].amplitude));
    } else if k2 < k1 {
        assert(bins[k2].amplitude.spec_is_nan() || bins[k2].amplitude.spec_lt(bins[k1].amplitude));
        assert(!bins[k2].amplitude.spec_lt(bins[k1].amplitude));
    }
}

/// Whenever the loudest bin lies inside the interval drawn around it, it is
/// among the selected peaks, so the peak set is not empty.
pub proof fn lemma_loudest_is_selected(
    bins: Seq<FrequencyBin>,
    k: int,
    lower: Binary32,
    upper: Binary32,
)
    requires
        is_loudest(bins, k),
        is_within(bins[k], lower, upper),
    ensures
        peaks_between(bins, lower, upper).contains(bins[k]),
        peaks_between(bins, lower, upper).len() >= 1,
{
    let keep = |bin: FrequencyBin| is_within(bin, lower, upper);
    bins.lemma_filter_contains(keep, k);
}

/// Finds the loudest bin.
///
/// Returns its index, or `None` where no bin has an amplitude that is a
/// number.
pub fn loudest(bins: &Vec<FrequencyBin>) -> (found: Option<usize>)
    ensures
        found.is_none() <==> all_silent(bins@),
        match found {
            Some(k) => is_loudest(bins@, k as int),
            None => all_silent(bins@),
        },
{
    let mut best: Option<usize> = None;
    let mut i: usize = 0;
    while i < bins.len()
        invariant
            i <= bins@.len(),
            match best {
                Some(k) => {
                    &&& k < i
                    &&& !bins@[k as int].amplitude.spec_is_nan()
                    &&& forall|j: int|
                        0 <= j < i ==> !bins@[k as int].amplitude.spec_lt(
                            #[trigger] bins@[j].amplitude,
                        )
                    &&& forall|j: int|
                        0 <= j < k ==> (#[trigger] bins@[j].amplitude).spec_is_nan()
                            || bins@[j].amplitude.spec_lt(bins@[k as int].amplitude)
                },
                None => forall|j: int|
                    0 <= j < i ==> (#[trigger] bins@[j].amplitude).spec_is_nan(),
            },
        decreases bins@.len() - i,
    {
        let candidate: Binary32 = bins[i].amplitude;
        if !candidate.is_nan() {
            let louder: bool = match best {
                Some(k) => bins[k].amplitude.lt(candidate),
                None => true,
            };
            if louder {
                best = Some(i);
            }
        }
        i = i + 1;
    }
    best
}

/// Selects the bins whose amplitude lies strictly between `lower` and
/// `upper`, keeping their order.
pub fn select_between(bins: &Vec<FrequencyBin>, lower: Binary32, upper: Binary32) -> (peaks: Vec<
    FrequencyBin,
>)
    ensures
        peaks@ == peaks_between(bins@, lower, upper),
{
    let ghost keep = |bin: FrequencyBin| is_within(bin, lower, upper);
    let mut peaks: Vec<FrequencyBin> = Vec::new();
    let mut i: usize = 0;
    proof {
        reveal(Seq::filter);
        assert(bins@.take(0) =~= Seq::<FrequencyBin>::empty());
    }
    while i < bins.len()
        invariant
            i <= bins@.len(),
            keep == (|bin: FrequencyBin| is_within(bin, lower, upper)),
            peaks@ == bins@.take(i as int).filter(keep),
        decreases bins@.len() - i,
    {
        let bin: FrequencyBin = bins[i];
        proof {
            reveal(Seq::filter);
            assert(bins@.take(i + 1).drop_last() =~= bins@.take(i as int));
            assert(bins@.take(i + 1).last() == bin);
        }
        if bin.amplitude.gt(lower) && bin.amplitude.lt(upper) {
            peaks.push(bin);
        }
        i = i + 1;
    }
    proof {
        assert(bins@.take(i as int) =~= bins@);
    }
    peaks
}

} // verus!

//! The transform's output: complex coefficients, and the search for the
//! dominant bin.

use crate::binary32::Binary32;
use vstd::prelude::*;

verus! {

/// One complex coefficient: a sample on its way into the transform, or a
/// spectral bin on its way out.
#[derive(Clone, Copy, Debug, PartialEq, Eq, Structural)]
pub struct Bin {
    pub re: Binary32,
    pub im: Binary32,
}

impl Bin {
    /// The coefficient with the given real and imaginary part.
    pub fn new(re: Binary32, im: Binary32) -> (b: Bin)
        ensures
            b.re == re,
            b.im == im,
    {
        Bin { re, im }
    }
}

/// Whether bin `k` is the dominant bin of a spectrum, judged by real parts
/// alone:
/// no bin's real part is greater than that of `k`; the real part of `k` is
/// greater than that of every earlier bin that is not a NaN, so that of equal
/// candidates the first one wins; and a NaN in bin 0 leaves bin 0 in place,
/// since nothing compares greater than a NaN.
pub open spec fn is_peak(bins: Seq<Bin>, k: int) -> bool {
    &&& 0 <= k < bins.len()
    &&& bins[0].re.is_nan() ==> k == 0
    &&& forall|i: int| 0 <= i < bins.len() ==> !(#[trigger] bins[i]).re.gt(bins[k].re)
    &&& forall|i: int| 0 <= i < k ==> (#[trigger] bins[i]).re.is_nan() || bins[k].re.gt(bins[i].re)
}

/// The index of a spectrum's dominant bin. [`lemma_peak_unique`] shows that a
/// spectrum has at most one, and [`peak_bin`] finds it in every spectrum that
/// is not empty.
pub open spec fn peak_index(bins: Seq<Bin>) -> int {
    choose|k: int| is_peak(bins, k)
}

/// A spectrum has at most one dominant bin.
pub proof fn lemma_peak_unique(bins: Seq<Bin>, a: int, b: int)
    requires
        is_peak(bins, a),
        is_peak(bins, b),
    ensures
        a == b,
{
    if a < b {
        assert(bins[a].re.is_nan() || bins[b].re.gt(bins[a].re));
        assert(!bins[b].re.gt(bins[a].re));
        if a > 0 {
            assert(bins[0].re.is_nan() || bins[a].re.gt(bins[0].re));
        }
    } else if b < a {
        assert(bins[b].re.is_nan() || bins[a].re.gt(bins[b].re));
        assert(!bins[a].re.gt(bins[b].re));
        if b > 0 {
            assert(bins[0].re.is_nan() || bins[b].re.gt(bins[0].re));
        }
    }
}

/// In a spectrum that is not empty and holds no bin whose real part is greater
/// than that of bin 0, bin 0 is the dominant one.
pub proof fn lemma_peak_of_level_spectrum(bins: Seq<Bin>)
    requires
        bins.len() > 0,
        forall|i: int| 0 <= i < bins.len() ==> !(#[trigger] bins[i]).re.gt(bins[0].re),
    ensures
        peak_index(bins) == 0,
{
    assert(is_peak(bins, 0));
    lemma_peak_unique(bins, 0, peak_index(bins));
}

/// The spectrum of silence has its dominant bin at index 0: where every real
/// part is a zero, of either sign, no bin exceeds the first.
pub proof fn lemma_peak_of_silence(bins: Seq<Bin>)
    requires
        bins.len() > 0,
        forall|i: int| 0 <= i < bins.len() ==> (#[trigger] bins[i]).re.is_zero(),
    ensures
        peak_index(bins) == 0,
{
    assert(bins[0].re.is_zero());
    lemma_peak_of_level_spectrum(bins);
}

/// In a spectrum whose real parts hold no NaN, the dominant bin is the first
/// one that holds the greatest real part.
pub proof fn lemma_peak_is_first_maximum(bins: Seq<Bin>)
    requires
        bins.len() > 0,
        forall|i: int| 0 <= i < bins.len() ==> !(#[trigger] bins[i]).re.is_nan(),
    ensures
        0 <= peak_index(bins) < bins.len(),
        forall|i: int|
            0 <= i < bins.len() ==> (#[trigger] bins[i]).re.rank() <= bins[peak_index(bins)].re.rank(),
        forall|i: int|
            0 <= i < peak_index(bins) ==> (#[trigger] bins[i]).re.rank() < bins[peak_index(
                bins,
            )].re.rank(),
{
    lemma_peak_exists(bins);
    let k = peak_index(bins);
    assert(!bins[k].re.is_nan());
    assert forall|i: int| 0 <= i < bins.len() implies (#[trigger] bins[i]).re.rank()
        <= bins[k].re.rank() by {
        assert(!bins[i].re.gt(bins[k].re));
    }
    assert forall|i: int| 0 <= i < k implies (#[trigger] bins[i]).re.rank() < bins[k].re.rank() by {
        assert(bins[i].re.is_nan() || bins[k].re.gt(bins[i].re));
    }
}

/// Every spectrum that is not empty has a dominant bin.
pub proof fn lemma_peak_exists(bins: Seq<Bin>)
    requires
        bins.len() > 0,
    ensures
        is_peak(bins, peak_index(bins)),
    decreases bins.len(),
{
    if bins.len() == 1 {
        assert(is_peak(bins, 0));
    } else {
        let n = bins.len() - 1;
        let front = bins.take(n);
        lemma_peak_exists(front);
        let held = peak_index(front);
        let k = if bins[n].re.gt(front[held].re) { n } else { held };
        assert(front[0] == bins[0]);
        assert forall|i: int| 0 <= i < bins.len() implies !(#[trigger] bins[i]).re.gt(
            bins[k].re,
        ) by {
            if i < n {
                assert(!front[i].re.gt(front[held].re));
            }
        }
        assert forall|i: int| 0 <= i < k implies (#[trigger] bins[i]).re.is_nan() || bins[k].re.gt(
            bins[i].re,
        ) by {
            assert(!front[i].re.gt(front[held].re));
            if i < held {
                assert(front[i].re.is_nan() || front[held].re.gt(front[i].re));
            }
        }
        assert(is_peak(bins, k));
    }
}

/// The dominant frequency lies in the band that the sampling covers. With `N`
/// bins and a sample rate of `sample_rate` units, bin `k` stands for the
/// frequency `k * sample_rate / N`: a whole multiple of the bin spacing
/// `sample_rate / N`, not below zero and below the sample rate itself. Stated
/// without division: `N` times this frequency is `k * sample_rate`, which lies
/// in `[0, N * sample_rate)`.
pub proof fn lemma_dominant_frequency_in_band(bins: Seq<Bin>, sample_rate: nat)
    requires
        bins.len() > 0,
        sample_rate > 0,
    ensures
        0 <= peak_index(bins) < bins.len(),
        0 <= peak_index(bins) * sample_rate < bins.len() * sample_rate,
{
    lemma_peak_exists(bins);
    let k = peak_index(bins);
    let n = bins.len() as int;
    let r = sample_rate as int;
    assert(0 <= k * r < n * r) by (nonlinear_arith)
        requires
            0 <= k < n,
            r > 0,
    ;
}

/// Finds the dominant bin: the first bin whose real part no other bin's real
/// part exceeds. Imaginary parts play no role. A NaN never wins over the bin
/// held so far, and a NaN in bin 0 is never replaced.
pub fn peak_bin(frame: &[Bin]) -> (max_bin: usize)
    requires
        frame@.len() > 0,
    ensures
        is_peak(frame@, max_bin as int),
        max_bin == peak_index(frame@),
{
    let mut max_val: Binary32 = frame[0].re;
    let mut max_bin: usize = 0;
    let mut bin: usize = 1;
    while bin < frame.len()
        invariant
            1 <= bin <= frame@.len(),
            max_bin < bin,
            max_val == frame@[max_bin as int].re,
            is_peak(frame@.take(bin as int), max_bin as int),
        decreases frame.len() - bin,
    {
        let val: Binary32 = frame[bin].re;
        let ghost before = frame@.take(bin as int);
        let ghost after = frame@.take(bin + 1);
        let ghost held = max_bin as int;
        if val.gt(max_val) {
            max_val = val;
            max_bin = bin;
        }
        proof {
            assert forall|i: int| 0 <= i < after.len() implies !(#[trigger] after[i]).re.gt(
                after[max_bin as int].re,
            ) by {
                if i < bin {
                    assert(!before[i].re.gt(before[held].re));
                }
            }
            assert forall|i: int| 0 <= i < max_bin implies (#[trigger] after[i]).re.is_nan()
                || after[max_bin as int].re.gt(after[i].re) by {
                assert(!before[i].re.gt(before[held].re));
                if i < held {
                    assert(before[i].re.is_nan() || before[held].re.gt(before[i].re));
                }
            }
            assert(before[0] == after[0]);
        }
        bin += 1;
    }
    proof {
        assert(frame@.take(bin as int) =~= frame@);
        lemma_peak_unique(frame@, max_bin as int, peak_index(frame@));
    }
    max_bin
}

} // verus!

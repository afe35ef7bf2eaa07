//! Spectral flatness: when a frame has one, and what stands for it when it has
//! none.

use crate::binary32::{Binary32, QUIET_NAN_BITS};
use vstd::prelude::*;

verus! {

/// The encoding that stands for the spectral flatness of a frame that has
/// none. It is a quiet NaN, and the only NaN that [`spectral_flatness`]
/// returns.
pub const DEGENERATE_FLATNESS_BITS: u32 = QUIET_NAN_BITS;

/// Whether the flatness `10 * log10(geometric_mean / arithmetic_mean)` is
/// defined, given the two means of a spectrum's real parts and the value
/// `ratio_db` that rounded arithmetic gave for the formula.
///
/// It is defined when the geometric mean is a number that is not negative, the
/// arithmetic mean is a number other than zero, and the formula did not yield
/// a NaN. A zero of either sign counts as zero and as not negative. An
/// infinite `ratio_db` counts as defined: a geometric mean of zero over a
/// positive arithmetic mean is a flatness of negative infinity.
pub open spec fn flatness_defined(
    geometric_mean: Binary32,
    arithmetic_mean: Binary32,
    ratio_db: Binary32,
) -> bool {
    &&& !geometric_mean.is_nan()
    &&& geometric_mean.rank() >= 0
    &&& !arithmetic_mean.is_nan()
    &&& !arithmetic_mean.is_zero()
    &&& !ratio_db.is_nan()
}

/// The spectral flatness measurement of a frame: `ratio_db` where the
/// flatness is defined, and the value encoded by
/// [`DEGENERATE_FLATNESS_BITS`] where it is not.
pub open spec fn flatness_of(
    geometric_mean: Binary32,
    arithmetic_mean: Binary32,
    ratio_db: Binary32,
) -> Binary32 {
    if flatness_defined(geometric_mean, arithmetic_mean, ratio_db) {
        ratio_db
    } else {
        Binary32 { bits: DEGENERATE_FLATNESS_BITS }
    }
}

/// Decides what a frame's spectral flatness measurement is.
///
/// `geometric_mean` and `arithmetic_mean` are the two means of the real parts
/// of the frame's spectral bins, and `ratio_db` is ten times the base-10
/// logarithm of their quotient, each as rounded arithmetic gave it. Where the
/// flatness is defined, the measurement is `ratio_db` unchanged. Everywhere
/// else it is the one value that marks a degenerate frame, so that a NaN in
/// the result always is that mark and never a by-product of the arithmetic.
pub fn spectral_flatness(
    geometric_mean: Binary32,
    arithmetic_mean: Binary32,
    ratio_db: Binary32,
) -> (measurement: Binary32)
    ensures
        measurement == flatness_of(geometric_mean, arithmetic_mean, ratio_db),
        measurement.is_nan() <==> measurement.bits == DEGENERATE_FLATNESS_BITS,
        measurement.is_nan() <==> !flatness_defined(geometric_mean, arithmetic_mean, ratio_db),
{
    let geometric_ok = !geometric_mean.is_nan() && (geometric_mean.is_zero()
        || !geometric_mean.is_sign_negative());
    let arithmetic_ok = !arithmetic_mean.is_nan() && !arithmetic_mean.is_zero();
    if geometric_ok && arithmetic_ok && !ratio_db.is_nan() {
        ratio_db
    } else {
        Binary32::from_bits(DEGENERATE_FLATNESS_BITS)
    }
}

/// A spectrum whose arithmetic mean is zero has no flatness, whatever else
/// was computed for it. Silence is such a spectrum.
pub proof fn lemma_flatness_of_zero_mean(
    geometric_mean: Binary32,
    arithmetic_mean: Binary32,
    ratio_db: Binary32,
)
    requires
        arithmetic_mean.is_zero(),
    ensures
        flatness_of(geometric_mean, arithmetic_mean, ratio_db).bits == DEGENERATE_FLATNESS_BITS,
{
}

} // verus!

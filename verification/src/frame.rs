//! The time-domain frame: what is made of its samples before any arithmetic.

use crate::binary32::Binary32;
use crate::spectrum::Bin;
use vstd::prelude::*;

verus! {

/// What the transform is fed for a time-domain frame: the samples in their
/// order, each as a real part beside the imaginary part `0.0`.
pub open spec fn complex_input_of(time_domain: Seq<Binary32>) -> Seq<Bin> {
    Seq::new(time_domain.len(), |i: int| (Bin { re: time_domain[i], im: Binary32 { bits: 0 } }))
}

/// Lays a time-domain frame out as the transform's input.
pub fn complex_input(time_domain: &[Binary32]) -> (input: Vec<Bin>)
    ensures
        input@ == complex_input_of(time_domain@),
{
    let mut input: Vec<Bin> = Vec::new();
    let mut i: usize = 0;
    while i < time_domain.len()
        invariant
            i <= time_domain.len(),
            input@.len() == i,
            forall|j: int| 0 <= j < i ==> #[trigger] input@[j] == complex_input_of(time_domain@)[j],
        decreases time_domain.len() - i,
    {
        input.push(Bin::new(time_domain[i], Binary32::zero()));
        i += 1;
    }
    assert(input@ =~= complex_input_of(time_domain@));
    input
}

/// The absolute values of a frame's samples, in their order. A frame's
/// energy is the mean of their squares.
pub open spec fn rectified_of(time_domain: Seq<Binary32>) -> Seq<Binary32> {
    Seq::new(time_domain.len(), |i: int| time_domain[i].abs())
}

/// A frame with the sign of every sample flipped.
pub open spec fn negated_frame(time_domain: Seq<Binary32>) -> Seq<Binary32> {
    Seq::new(time_domain.len(), |i: int| time_domain[i].negated())
}

/// Takes the absolute value of every sample of a frame.
pub fn rectified(time_domain: &[Binary32]) -> (magnitudes: Vec<Binary32>)
    ensures
        magnitudes@ == rectified_of(time_domain@),
{
    let mut magnitudes: Vec<Binary32> = Vec::new();
    let mut i: usize = 0;
    while i < time_domain.len()
        invariant
            i <= time_domain.len(),
            magnitudes@.len() == i,
            forall|j: int| 0 <= j < i ==> #[trigger] magnitudes@[j] == rectified_of(time_domain@)[j],
        decreases time_domain.len() - i,
    {
        magnitudes.push(time_domain[i].abs());
        i += 1;
    }
    assert(magnitudes@ =~= rectified_of(time_domain@));
    magnitudes
}

/// Flipping the sign of every sample leaves the absolute values as they are,
/// and with them whatever is computed from the absolute values alone.
pub proof fn lemma_rectified_ignores_sign(time_domain: Seq<Binary32>)
    ensures
        rectified_of(negated_frame(time_domain)) == rectified_of(time_domain),
{
    assert forall|i: int| 0 <= i < time_domain.len() implies rectified_of(
        negated_frame(time_domain),
    )[i] == rectified_of(time_domain)[i] by {
        assert(negated_frame(time_domain)[i] == time_domain[i].negated());
    }
    assert(rectified_of(negated_frame(time_domain)) =~= rectified_of(time_domain));
}

/// In a frame of silence every absolute value is positive zero.
pub proof fn lemma_rectified_silence(time_domain: Seq<Binary32>)
    requires
        forall|i: int| 0 <= i < time_domain.len() ==> (#[trigger] time_domain[i]).is_zero(),
    ensures
        forall|i: int|
            0 <= i < time_domain.len() ==> (#[trigger] rectified_of(time_domain)[i]).bits == 0,
{
}

} // verus!

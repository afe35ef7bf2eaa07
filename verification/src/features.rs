//! The features of one frame.

use crate::binary32::Binary32;
use vstd::prelude::*;
use vstd::string::StringExecFns;

verus! {

/// What is known of one frame of audio once its features are extracted.
#[derive(Clone, Copy, Debug, PartialEq, Eq, Structural)]
pub struct VadFrame {
    /// Mean squared sample of the time-domain frame.
    pub energy: Binary32,
    /// Frequency, in hertz, of the frame's dominant spectral bin.
    pub dominant_freq: Binary32,
    /// Spectral flatness in decibels, or the mark of a degenerate frame.
    pub spectral_flatness_measurement: Binary32,
}

/// The text of a frame's features, given the text of each of the three
/// numbers.
pub open spec fn rendering(energy: Seq<char>, dominant_freq: Seq<char>, flatness: Seq<char>) -> Seq<
    char,
> {
    "(Energy:"@ + energy + ", Dominant Freq:"@ + dominant_freq + ", SFM:"@ + flatness + ")"@
}

impl VadFrame {
    /// The features of a frame with the given energy, dominant frequency and
    /// spectral flatness measurement.
    pub fn new(
        energy: Binary32,
        dominant_freq: Binary32,
        spectral_flatness_measurement: Binary32,
    ) -> (frame: VadFrame)
        ensures
            frame.energy == energy,
            frame.dominant_freq == dominant_freq,
            frame.spectral_flatness_measurement == spectral_flatness_measurement,
    {
        VadFrame { energy, dominant_freq, spectral_flatness_measurement }
    }

    /// Renders a frame's features for a reader, in the form
    /// `(Energy:<e>, Dominant Freq:<f>, SFM:<s>)`, from the decimal text of
    /// the three numbers.
    pub fn render(energy: &str, dominant_freq: &str, flatness: &str) -> (text: String)
        ensures
            text@ == rendering(energy@, dominant_freq@, flatness@),
    {
        let mut text = String::from_str("(Energy:");
        text.append(energy);
        text.append(", Dominant Freq:");
        text.append(dominant_freq);
        text.append(", SFM:");
        text.append(flatness);
        text.append(")");
        text
    }
}

} // verus!

//! Per-frame acoustic features for voice activity detection.
//!
//! Every number that crosses this library's boundary is a single-precision
//! IEEE 754 value carried by its 32-bit encoding ([`Binary32`]). The library
//! holds what can be settled on encodings alone: the absolute values of a
//! frame's samples, how the input of the transform is laid out, which
//! spectral bin is the dominant one, when the spectral flatness of a frame is
//! defined and what stands for it when it is not, and how a frame's features
//! are rendered. Rounded arithmetic on the values themselves is left to the
//! caller.

pub mod binary32;
pub mod features;
pub mod flatness;
pub mod frame;
pub mod spectrum;

pub use binary32::Binary32;
pub use features::VadFrame;
pub use flatness::spectral_flatness;
pub use frame::{complex_input, rectified};
pub use spectrum::{peak_bin, Bin};

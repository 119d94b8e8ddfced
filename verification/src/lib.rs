//! Verified core of a spectral time-stretcher for mono 16-bit PCM audio.
//!
//! A stretch cuts the input into overlapping frames, finds the dominant
//! spectral peaks of each frame, and resynthesizes a longer frame from them.
//! This crate holds every step of that pipeline that is decided over
//! integers:
//!
//! - [`schedule`]: where frames begin and how long the output becomes;
//! - [`frame`]: cutting a frame, padded with silence past the end of the input;
//! - [`peaks`]: finding the loudest bin and selecting the peaks around it;
//! - [`resynth`]: clamping synthesized amplitudes into the sample range;
//! - [`window`]: cutting windowed amplitudes down to 16-bit samples.
//!
//! Amplitudes, frequencies and phases are IEEE 754 numbers. They are held as
//! bit patterns ([`binary32`], [`binary64`]), and whatever is decided about
//! them is read off the bits.

pub mod binary32;
pub mod binary64;
pub mod frame;
pub mod peaks;
pub mod resynth;
pub mod schedule;
pub mod window;

//! A polyphonic synthesizer voice engine in fixed-point arithmetic.
//!
//! Given note-on / note-off events carrying a frequency, the engine renders a
//! continuous audio stream by allocating oscillator + envelope "voices",
//! mixing their output, and shaping amplitude and frequency over time to
//! avoid audible clicks and to support melodic glide.
//!
//! All quantities are exact integers so that every state machine here can be
//! specified and verified precisely:
//! - amplitudes, gains, ratios and sample values are measured in micro-units
//!   (one unit = [`units::UNIT`] = 1,000,000 micro-units);
//! - frequencies are measured in millihertz;
//! - time is measured in whole samples, advanced once per rendered sample.

pub mod adsr_envelope;
pub mod gain;
pub mod laws;
pub mod oscillator;
pub mod polysynth;
pub mod ramp_envelope;
pub mod saw_wave;
pub mod sine_wave;
pub mod square_wave;
pub mod stereo_sample;
pub mod units;
pub mod voice;

use vstd::prelude::*;

verus! {

} // verus!

//! Saw oscillator.

use vstd::prelude::*;

use crate::oscillator::{
    clamp_frequency, clamped_frequency_spec, nyquist_mhz_spec, saw_value, saw_value_spec,
    step_phase, stepped_phase_spec,
};
use crate::units::UNIT;

verus! {

/// Phase-accumulator saw oscillator: a line from -1 to +1 over one cycle.
#[derive(Clone, Copy, Debug)]
pub struct SawWave {
    /// Current phase in micro-cycles, always in `[0, UNIT)`.
    pub phase: u64,
    /// Frequency in millihertz, at most the Nyquist limit.
    pub frequency: u64,
    /// Samples per second.
    pub sample_rate: u32,
}

impl SawWave {
    /// Internal invariant: positive rate, wrapped phase, Nyquist-clamped
    /// frequency.
    pub open spec fn wf(self) -> bool {
        &&& 1 <= self.sample_rate
        &&& self.phase < UNIT
        &&& self.frequency <= nyquist_mhz_spec(self.sample_rate as int)
    }

    /// The waveform value at the current phase.
    pub open spec fn value_spec(self) -> int {
        saw_value_spec(self.phase as int)
    }

    /// The state after one sample: the phase has advanced one step of the
    /// current frequency.
    pub open spec fn advanced_spec(self) -> SawWave {
        SawWave {
            phase: stepped_phase_spec(
                self.phase as int,
                self.frequency as int,
                self.sample_rate as int,
            ) as u64,
            ..self
        }
    }

    /// A fresh oscillator at phase zero; the frequency is clamped to the
    /// Nyquist limit.
    pub fn new(sample_rate: u32, freq: u64) -> (w: SawWave)
        requires
            1 <= sample_rate,
        ensures
            w.wf(),
            w.phase == 0,
            w.frequency == clamped_frequency_spec(freq as int, sample_rate as int),
            w.sample_rate == sample_rate,
    {
        SawWave { phase: 0, frequency: clamp_frequency(freq, sample_rate), sample_rate }
    }

    /// Replace the frequency, clamped to the Nyquist limit.
    pub fn set_frequency(&mut self, freq: u64)
        requires
            old(self).wf(),
        ensures
            *final(self) == (SawWave {
                frequency: clamped_frequency_spec(freq as int, old(self).sample_rate as int) as u64,
                ..*old(self)
            }),
            final(self).wf(),
    {
        self.frequency = clamp_frequency(freq, self.sample_rate);
    }

    /// The waveform value at the current phase; then the phase advances one
    /// sample at the current frequency.
    pub fn next_sample(&mut self) -> (s: i64)
        requires
            old(self).wf(),
        ensures
            *final(self) == old(self).advanced_spec(),
            final(self).wf(),
            s == old(self).value_spec(),
            -(UNIT as int) <= s <= UNIT as int,
    {
        let s: i64 = saw_value(self.phase);
        self.phase = step_phase(self.phase, self.frequency, self.sample_rate);
        s
    }
}

} // verus!

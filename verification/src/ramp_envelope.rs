//! The per-voice frequency ramp: a linear glide used for portamento.

use vstd::prelude::*;

use crate::units::{
    duration_samples, duration_samples_spec, ratio_scaled, ratio_spec, scale, scale_spec, SCALE_MAX,
    UNIT,
};

verus! {

/// Linear ramp from 0 to 1 over a fixed duration, advanced one sample at a
/// time. The output is the elapsed/ramp ratio clamped to `[0, 1]`; once the
/// elapsed time reaches the ramp duration the output is exactly one unit and
/// stays there. A zero ramp duration counts as already completed, so the
/// glide jumps straight to its target.
#[derive(Clone, Copy, Debug)]
pub struct RampEnvelope {
    /// Samples elapsed since the last trigger.
    pub t: u64,
    /// Ramp duration in samples.
    pub ramp_n: u64,
    /// Samples per second.
    pub sample_rate: u32,
}

impl RampEnvelope {
    /// Internal invariant: the rate is positive.
    pub open spec fn wf(self) -> bool {
        1 <= self.sample_rate
    }

    /// Progress of the glide in micro-units.
    pub open spec fn amount_spec(self) -> int {
        ratio_spec(self.t as int, self.ramp_n as int)
    }

    /// The state after one sample of time has passed (saturating at the far
    /// end of the `u64` clock).
    pub open spec fn advanced_spec(self) -> RampEnvelope {
        RampEnvelope {
            t: if self.t < u64::MAX {
                (self.t + 1) as u64
            } else {
                self.t
            },
            ..self
        }
    }

    /// The state a fresh ramp starts in, given the constructor's arguments.
    pub open spec fn initial_spec(sample_rate: u32, ramp_micros: u64) -> RampEnvelope {
        RampEnvelope {
            t: sample_rate as u64,
            ramp_n: duration_samples_spec(ramp_micros as int, sample_rate as int) as u64,
            sample_rate,
        }
    }

    /// A fresh ramp with the given duration in microseconds. It starts with
    /// one second already elapsed, so a voice that has never been triggered
    /// sits at the end of its glide for any ordinary glide setting.
    pub fn new(sample_rate: u32, ramp_micros: u64) -> (r: RampEnvelope)
        requires
            1 <= sample_rate,
        ensures
            r.wf(),
            r == RampEnvelope::initial_spec(sample_rate, ramp_micros),
            r.t == sample_rate,
            r.ramp_n == duration_samples_spec(ramp_micros as int, sample_rate as int),
            r.sample_rate == sample_rate,
    {
        RampEnvelope {
            t: sample_rate as u64,
            ramp_n: duration_samples(ramp_micros, sample_rate),
            sample_rate,
        }
    }

    /// Restart the glide from the beginning.
    pub fn trigger(&mut self)
        ensures
            *final(self) == (RampEnvelope { t: 0, ..*old(self) }),
    {
        self.t = 0;
    }

    /// Replace the glide duration, given in microseconds.
    pub fn set_ramp(&mut self, micros: u64)
        ensures
            *final(self) == (RampEnvelope {
                ramp_n: duration_samples_spec(micros as int, old(self).sample_rate as int) as u64,
                ..*old(self)
            }),
    {
        self.ramp_n = duration_samples(micros, self.sample_rate);
    }

    /// Current progress of the glide in micro-units.
    pub fn get_amount(&self) -> (a: u64)
        ensures
            a == self.amount_spec(),
            a <= UNIT,
    {
        ratio_scaled(self.t, self.ramp_n)
    }

    /// Advance the clock by one sample without producing output.
    pub fn advance(&mut self)
        ensures
            *final(self) == old(self).advanced_spec(),
    {
        if self.t < u64::MAX {
            self.t = self.t + 1;
        }
    }

    /// Scale `input` by the glide progress, then advance the clock.
    pub fn process_sample(&mut self, input: i64) -> (out: i64)
        requires
            -SCALE_MAX <= input <= SCALE_MAX,
        ensures
            *final(self) == old(self).advanced_spec(),
            out == scale_spec(input as int, old(self).amount_spec()),
            input >= 0 ==> 0 <= out <= input,
            input < 0 ==> input <= out <= 0,
    {
        let a: u64 = self.get_amount();
        if self.t < u64::MAX {
            self.t = self.t + 1;
        }
        scale(input, a)
    }
}

} // verus!

//! The per-voice amplitude envelope: ADSR with an anti-pop retrigger fade.
//!
//! The whole state machine is driven by one scalar, the number of samples
//! elapsed since the last trigger. Amplitudes are micro-units in
//! `0 ..= UNIT`; durations are whole samples.

use vstd::prelude::*;

use crate::units::{
    duration_samples, duration_samples_spec, ratio_scaled, ratio_spec, scale, scale_spec, SCALE_MAX,
    UNIT,
};

verus! {

/// Amplitude envelope for one voice.
///
/// Stages, as the elapsed time `t` grows: a fixed 10 ms retrigger fade
/// (fading out whatever amplitude existed at the moment of the trigger),
/// then a linear attack from 0 to 1, a linear decay from 1 to the sustain
/// level, and the sustain hold. `release` can interrupt any stage; it fades
/// the amplitude captured at that moment linearly to 0 over the release
/// duration. `t` only resets on `trigger`, never on `release`.
#[derive(Clone, Copy, Debug)]
pub struct AdsrEnvelope {
    /// Attack duration in samples.
    pub attack_n: u64,
    /// Decay duration in samples.
    pub decay_n: u64,
    /// Sustain level in micro-units (at most `UNIT`).
    pub sustain: u64,
    /// Release duration in samples.
    pub release_n: u64,
    /// Samples elapsed since the last trigger.
    pub t: u64,
    /// Whether release has begun.
    pub is_released: bool,
    /// Value of `t` at the moment release began.
    pub release_start_t: u64,
    /// Amplitude captured at the moment release began.
    pub release_start_amp: u64,
    /// Amplitude captured at the moment of the last trigger, faded out by
    /// the retrigger window to avoid a pop when a voice is stolen.
    pub retrigger_start_amp: u64,
    /// Samples per second.
    pub sample_rate: u32,
}

/// Both factors in micro-units: their scaled product stays within `0 ..= a`
/// and the raw product fits comfortably in a `u64`.
pub proof fn lemma_unit_product_bounds(a: int, b: int)
    requires
        0 <= a <= UNIT as int,
        0 <= b <= UNIT as int,
    ensures
        0 <= a * b <= (UNIT as int) * (UNIT as int),
        0 <= a * b / (UNIT as int) <= a,
{
    assert(0 <= a * b <= 1_000_000 * 1_000_000 && 0 <= a * b / 1_000_000 <= a) by (nonlinear_arith)
        requires
            0 <= a <= 1_000_000,
            0 <= b <= 1_000_000,
    ;
}

/// A clamped ratio always lands in `0 ..= UNIT`.
pub proof fn lemma_ratio_bounds(num: int, den: int)
    requires
        0 <= num,
    ensures
        0 <= ratio_spec(num, den) <= UNIT as int,
{
    if den <= 0 || num >= den {
    } else {
        assert(0 <= num * 1_000_000 / den < 1_000_000) by (nonlinear_arith)
            requires
                0 <= num,
                num < den,
        ;
    }
}

impl AdsrEnvelope {
    /// Internal invariant: levels fit in one unit, the rate is positive, and
    /// release never starts in the future.
    pub open spec fn wf(self) -> bool {
        &&& self.sustain <= UNIT
        &&& self.release_start_amp <= UNIT
        &&& self.retrigger_start_amp <= UNIT
        &&& 1 <= self.sample_rate
        &&& (self.is_released ==> self.release_start_t <= self.t)
    }

    /// Length of the anti-pop retrigger fade window: 10 ms of samples.
    pub open spec fn retrigger_window_spec(self) -> int {
        self.sample_rate as int / 100
    }

    /// The amplitude, in micro-units, that the envelope outputs in its
    /// current state.
    pub open spec fn amplitude_spec(self) -> int {
        let rt = self.retrigger_window_spec();
        if self.is_released {
            let ratio = ratio_spec(self.t - self.release_start_t, self.release_n as int);
            self.release_start_amp * ((UNIT as int) - ratio) / (UNIT as int)
        } else if self.t <= rt {
            let ratio = ratio_spec(self.t as int, rt);
            self.retrigger_start_amp * ((UNIT as int) - ratio) / (UNIT as int)
        } else if self.t - rt <= self.attack_n {
            ratio_spec(self.t - rt, self.attack_n as int)
        } else if self.t - rt - self.attack_n <= self.decay_n {
            (UNIT as int) - ((UNIT as int) - self.sustain) * ratio_spec(
                self.t - rt - self.attack_n,
                self.decay_n as int,
            ) / (UNIT as int)
        } else {
            self.sustain as int
        }
    }

    /// The state after one sample of time has passed (saturating at the far
    /// end of the `u64` clock).
    pub open spec fn advanced_spec(self) -> AdsrEnvelope {
        AdsrEnvelope {
            t: if self.t < u64::MAX {
                (self.t + 1) as u64
            } else {
                self.t
            },
            ..self
        }
    }

    /// The state after a trigger: the clock restarts, release bookkeeping is
    /// cleared, and the current amplitude is captured for the anti-pop fade.
    pub open spec fn triggered_spec(self) -> AdsrEnvelope {
        AdsrEnvelope {
            t: 0,
            is_released: false,
            release_start_t: 0,
            release_start_amp: 0,
            retrigger_start_amp: self.amplitude_spec() as u64,
            ..self
        }
    }

    /// The state after a release request. Only the first request captures
    /// the snapshot; a release on an already released envelope is a no-op.
    pub open spec fn released_spec(self) -> AdsrEnvelope {
        if self.is_released {
            self
        } else {
            AdsrEnvelope {
                is_released: true,
                release_start_t: self.t,
                release_start_amp: self.amplitude_spec() as u64,
                ..self
            }
        }
    }

    /// Whether the envelope has completely finished its release.
    pub open spec fn done_spec(self) -> bool {
        self.is_released && self.t - self.release_start_t >= self.release_n
    }

    /// The state a fresh envelope starts in, given the constructor's
    /// arguments.
    pub open spec fn initial_spec(
        sample_rate: u32,
        attack_micros: u64,
        decay_micros: u64,
        sustain_level: u64,
        release_micros: u64,
    ) -> AdsrEnvelope {
        AdsrEnvelope {
            attack_n: duration_samples_spec(attack_micros as int, sample_rate as int) as u64,
            decay_n: duration_samples_spec(decay_micros as int, sample_rate as int) as u64,
            sustain: if sustain_level <= UNIT {
                sustain_level
            } else {
                UNIT
            },
            release_n: duration_samples_spec(release_micros as int, sample_rate as int) as u64,
            t: 0,
            is_released: false,
            release_start_t: 0,
            release_start_amp: 0,
            retrigger_start_amp: 0,
            sample_rate,
        }
    }

    /// A fresh envelope. Durations are given in microseconds and converted
    /// to samples at `sample_rate`; the sustain level is given in
    /// micro-units and clamped to one unit.
    pub fn new(
        sample_rate: u32,
        attack_micros: u64,
        decay_micros: u64,
        sustain_level: u64,
        release_micros: u64,
    ) -> (e: AdsrEnvelope)
        requires
            1 <= sample_rate,
        ensures
            e.wf(),
            e == AdsrEnvelope::initial_spec(
                sample_rate,
                attack_micros,
                decay_micros,
                sustain_level,
                release_micros,
            ),
            e.attack_n == duration_samples_spec(attack_micros as int, sample_rate as int),
            e.decay_n == duration_samples_spec(decay_micros as int, sample_rate as int),
            e.release_n == duration_samples_spec(release_micros as int, sample_rate as int),
            e.sustain == if sustain_level <= UNIT {
                sustain_level as int
            } else {
                UNIT as int
            },
            e.t == 0,
            !e.is_released,
            e.release_start_t == 0,
            e.release_start_amp == 0,
            e.retrigger_start_amp == 0,
            e.sample_rate == sample_rate,
    {
        AdsrEnvelope {
            attack_n: duration_samples(attack_micros, sample_rate),
            decay_n: duration_samples(decay_micros, sample_rate),
            sustain: if sustain_level <= UNIT {
                sustain_level
            } else {
                UNIT
            },
            release_n: duration_samples(release_micros, sample_rate),
            t: 0,
            is_released: false,
            release_start_t: 0,
            release_start_amp: 0,
            retrigger_start_amp: 0,
            sample_rate,
        }
    }

    /// The current amplitude in micro-units; always within `0 ..= UNIT`.
    pub fn get_amplitude(&self) -> (amp: u64)
        requires
            self.wf(),
        ensures
            amp == self.amplitude_spec(),
            amp <= UNIT,
    {
        let rt: u64 = (self.sample_rate / 100) as u64;
        if self.is_released {
            let ratio: u64 = ratio_scaled(self.t - self.release_start_t, self.release_n);
            proof {
                lemma_unit_product_bounds(self.release_start_amp as int, UNIT - ratio);
            }
            self.release_start_amp * (UNIT - ratio) / UNIT
        } else if self.t <= rt {
            let ratio: u64 = ratio_scaled(self.t, rt);
            proof {
                lemma_unit_product_bounds(self.retrigger_start_amp as int, UNIT - ratio);
            }
            self.retrigger_start_amp * (UNIT - ratio) / UNIT
        } else {
            let ta: u64 = self.t - rt;
            if ta <= self.attack_n {
                ratio_scaled(ta, self.attack_n)
            } else {
                let td: u64 = ta - self.attack_n;
                if td <= self.decay_n {
                    let ratio: u64 = ratio_scaled(td, self.decay_n);
                    proof {
                        lemma_unit_product_bounds(UNIT - self.sustain, ratio as int);
                    }
                    UNIT - (UNIT - self.sustain) * ratio / UNIT
                } else {
                    self.sustain
                }
            }
        }
    }

    /// Restart the envelope for a new note, capturing the current amplitude
    /// so the retrigger fade can mask any discontinuity.
    pub fn trigger(&mut self)
        requires
            old(self).wf(),
        ensures
            *final(self) == old(self).triggered_spec(),
            final(self).wf(),
    {
        let amp: u64 = self.get_amplitude();
        self.retrigger_start_amp = amp;
        self.t = 0;
        self.is_released = false;
        self.release_start_t = 0;
        self.release_start_amp = 0;
    }

    /// Begin the release stage. Idempotent: only the first call captures the
    /// release snapshot; a second call changes nothing.
    pub fn release(&mut self)
        requires
            old(self).wf(),
        ensures
            *final(self) == old(self).released_spec(),
            final(self).wf(),
            old(self).is_released ==> *final(self) == *old(self),
    {
        if !self.is_released {
            let amp: u64 = self.get_amplitude();
            self.release_start_t = self.t;
            self.release_start_amp = amp;
            self.is_released = true;
        }
    }

    /// Whether the envelope has completely finished its release.
    pub fn is_done(&self) -> (d: bool)
        requires
            self.wf(),
        ensures
            d == self.done_spec(),
    {
        self.is_released && (self.t - self.release_start_t) >= self.release_n
    }

    /// Shape one sample: scale `input` by the current amplitude, then
    /// advance the clock by one sample.
    pub fn process_sample(&mut self, input: i64) -> (out: i64)
        requires
            old(self).wf(),
            -SCALE_MAX <= input <= SCALE_MAX,
        ensures
            *final(self) == old(self).advanced_spec(),
            final(self).wf(),
            out == scale_spec(input as int, old(self).amplitude_spec()),
            input >= 0 ==> 0 <= out <= input,
            input < 0 ==> input <= out <= 0,
    {
        let amp: u64 = self.get_amplitude();
        if self.t < u64::MAX {
            self.t = self.t + 1;
        }
        scale(input, amp)
    }

    /// Replace the attack duration, given in microseconds.
    pub fn set_attack(&mut self, micros: u64)
        requires
            old(self).wf(),
        ensures
            *final(self) == (AdsrEnvelope {
                attack_n: duration_samples_spec(micros as int, old(self).sample_rate as int) as u64,
                ..*old(self)
            }),
            final(self).wf(),
    {
        self.attack_n = duration_samples(micros, self.sample_rate);
    }

    /// Replace the decay duration, given in microseconds.
    pub fn set_decay(&mut self, micros: u64)
        requires
            old(self).wf(),
        ensures
            *final(self) == (AdsrEnvelope {
                decay_n: duration_samples_spec(micros as int, old(self).sample_rate as int) as u64,
                ..*old(self)
            }),
            final(self).wf(),
    {
        self.decay_n = duration_samples(micros, self.sample_rate);
    }

    /// Replace the sustain level, given in micro-units and clamped to one
    /// unit.
    pub fn set_sustain(&mut self, level: u64)
        requires
            old(self).wf(),
        ensures
            *final(self) == (AdsrEnvelope {
                sustain: if level <= UNIT {
                    level
                } else {
                    UNIT
                },
                ..*old(self)
            }),
            final(self).wf(),
    {
        self.sustain = if level <= UNIT {
            level
        } else {
            UNIT
        };
    }

    /// Replace the release duration, given in microseconds.
    pub fn set_release(&mut self, micros: u64)
        requires
            old(self).wf(),
        ensures
            *final(self) == (AdsrEnvelope {
                release_n: duration_samples_spec(micros as int, old(self).sample_rate as int) as u64,
                ..*old(self)
            }),
            final(self).wf(),
    {
        self.release_n = duration_samples(micros, self.sample_rate);
    }
}

} // verus!

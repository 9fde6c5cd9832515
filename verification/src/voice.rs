//! One note-rendering voice: an oscillator, an amplitude envelope, a
//! frequency ramp and a gain stage, with active-flag bookkeeping.

use vstd::prelude::*;

use crate::adsr_envelope::AdsrEnvelope;
use crate::gain::Gain;
use crate::oscillator::{Oscillator, Waveform};
use crate::ramp_envelope::RampEnvelope;
use crate::stereo_sample::StereoSample;
use crate::units::{scale_spec, scale_u64, UNIT};

verus! {

/// Default attack duration of a fresh voice, in microseconds (20 ms).
pub const DEFAULT_ATTACK_MICROS: u64 = 20_000;

/// Default decay duration of a fresh voice, in microseconds (200 ms).
pub const DEFAULT_DECAY_MICROS: u64 = 200_000;

/// Default sustain level of a fresh voice, in micro-units (full level).
pub const DEFAULT_SUSTAIN: u64 = 1_000_000;

/// Default release duration of a fresh voice, in microseconds (200 ms).
pub const DEFAULT_RELEASE_MICROS: u64 = 200_000;

/// Default glide duration of a fresh voice, in microseconds (100 ms).
pub const DEFAULT_GLIDE_MICROS: u64 = 100_000;

/// Default gain of a fresh voice, in micro-units (0.9).
pub const DEFAULT_GAIN: u64 = 900_000;

/// The glide's instantaneous frequency: `start` plus the ramped fraction of
/// the difference toward `end`. With a zero amount it is exactly `start`,
/// with a full amount exactly `end`, and it never leaves the interval
/// between the two.
pub open spec fn glide_frequency_spec(start: int, end: int, amount: int) -> int {
    if end >= start {
        start + (end - start) * amount / (UNIT as int)
    } else {
        start - (start - end) * amount / (UNIT as int)
    }
}

/// The exact value of [`glide_frequency_spec`], kept between `start` and
/// `end`.
pub fn glide_frequency(start: u64, end: u64, amount: u64) -> (f: u64)
    requires
        amount <= UNIT,
    ensures
        f == glide_frequency_spec(start as int, end as int, amount as int),
        start <= end ==> start <= f <= end,
        end < start ==> end <= f <= start,
{
    if end >= start {
        let d: u64 = end - start;
        let s: u64 = scale_u64(d, amount);
        start + s
    } else {
        let d: u64 = start - end;
        let s: u64 = scale_u64(d, amount);
        start - s
    }
}

/// One polyphony slot. While `active` it renders its note; when inactive it
/// contributes silence and none of its state advances.
#[derive(Clone, Copy, Debug)]
pub struct Voice {
    /// The waveform generator.
    pub osc: Oscillator,
    /// The amplitude envelope.
    pub env: AdsrEnvelope,
    /// The final gain stage.
    pub gain: Gain,
    /// The frequency glide envelope.
    pub frequency_env: RampEnvelope,
    /// Frequency (millihertz) the glide starts from: the oscillator's
    /// frequency at the moment of the most recent `play`.
    pub start_frequency: u64,
    /// Frequency (millihertz) the glide heads toward; the sole key used by
    /// the engine's frequency lookup and stealing.
    pub end_frequency: u64,
    /// Whether the voice is currently sounding.
    pub active: bool,
}

impl Voice {
    /// Internal invariant: every component is well formed.
    pub open spec fn wf(self) -> bool {
        &&& self.osc.wf()
        &&& self.env.wf()
        &&& self.gain.wf()
        &&& self.frequency_env.wf()
    }

    /// The state a fresh voice starts in, given the constructor's arguments.
    pub open spec fn initial_spec(sample_rate: u32, frequency: u64, wave: Waveform) -> Voice {
        Voice {
            osc: Oscillator::initial_spec(sample_rate, wave, frequency),
            env: AdsrEnvelope::initial_spec(
                sample_rate,
                DEFAULT_ATTACK_MICROS,
                DEFAULT_DECAY_MICROS,
                DEFAULT_SUSTAIN,
                DEFAULT_RELEASE_MICROS,
            ),
            gain: Gain { amount: DEFAULT_GAIN },
            frequency_env: RampEnvelope::initial_spec(sample_rate, DEFAULT_GLIDE_MICROS),
            start_frequency: frequency,
            end_frequency: frequency,
            active: false,
        }
    }

    /// The instantaneous frequency the glide hands the oscillator in this
    /// state.
    pub open spec fn glide_now_spec(self) -> int {
        glide_frequency_spec(
            self.start_frequency as int,
            self.end_frequency as int,
            self.frequency_env.amount_spec(),
        )
    }

    /// The sample an active voice outputs in this state: the oscillator
    /// value at the glided frequency, shaped by the amplitude envelope, then
    /// by the gain. An inactive voice outputs silence.
    pub open spec fn output_spec(self) -> int {
        if !self.active {
            0
        } else {
            let osc1 = self.osc.with_frequency_spec(self.glide_now_spec());
            scale_spec(
                scale_spec(osc1.value_spec(), self.env.amplitude_spec()),
                self.gain.amount as int,
            )
        }
    }

    /// The state after rendering one sample: the glided frequency is set on
    /// the oscillator, both clocks advance, and the voice deactivates the
    /// moment its envelope finishes the release. An inactive voice does not
    /// change at all.
    pub open spec fn stepped_spec(self) -> Voice {
        if !self.active {
            self
        } else {
            let osc1 = self.osc.with_frequency_spec(self.glide_now_spec());
            let env1 = self.env.advanced_spec();
            Voice {
                osc: osc1.advanced_spec(),
                env: env1,
                frequency_env: self.frequency_env.advanced_spec(),
                active: !env1.done_spec(),
                ..self
            }
        }
    }

    /// The state after `play`: the glide starts from the oscillator's
    /// current frequency toward the new one, both envelopes retrigger, and
    /// the voice becomes active. The oscillator phase deliberately keeps
    /// running (see [`Oscillator::new`]).
    pub open spec fn played_spec(self, frequency: u64) -> Voice {
        Voice {
            start_frequency: self.osc.frequency_spec() as u64,
            end_frequency: frequency,
            frequency_env: (RampEnvelope { t: 0, ..self.frequency_env }),
            env: self.env.triggered_spec(),
            active: true,
            ..self
        }
    }

    /// The state after `stop`: the envelope begins (or continues) its
    /// release; the voice stays active until the release completes.
    pub open spec fn stopped_spec(self) -> Voice {
        Voice { env: self.env.released_spec(), ..self }
    }

    /// A fresh, inactive voice with the default patch, parked at
    /// `frequency` millihertz, rendering the chosen waveform.
    pub fn new(sample_rate: u32, frequency: u64, wave: Waveform) -> (v: Voice)
        requires
            1 <= sample_rate,
        ensures
            v.wf(),
            v == Voice::initial_spec(sample_rate, frequency, wave),
    {
        Voice {
            osc: Oscillator::new(sample_rate, wave, frequency),
            env: AdsrEnvelope::new(
                sample_rate,
                DEFAULT_ATTACK_MICROS,
                DEFAULT_DECAY_MICROS,
                DEFAULT_SUSTAIN,
                DEFAULT_RELEASE_MICROS,
            ),
            gain: Gain::new(DEFAULT_GAIN),
            frequency_env: RampEnvelope::new(sample_rate, DEFAULT_GLIDE_MICROS),
            start_frequency: frequency,
            end_frequency: frequency,
            active: false,
        }
    }

    /// Re-arm the voice for a new note at `frequency` millihertz.
    pub fn play(&mut self, frequency: u64)
        requires
            old(self).wf(),
        ensures
            *final(self) == old(self).played_spec(frequency),
            final(self).wf(),
    {
        self.start_frequency = self.osc.get_frequency();
        self.end_frequency = frequency;
        self.frequency_env.trigger();
        self.env.trigger();
        self.active = true;
    }

    /// Request release; the voice keeps sounding until the envelope is done.
    pub fn stop(&mut self)
        requires
            old(self).wf(),
        ensures
            *final(self) == old(self).stopped_spec(),
            final(self).wf(),
    {
        self.env.release();
    }

    /// The note-off matching key: the glide's target frequency.
    pub fn get_frequency(&self) -> (f: u64)
        ensures
            f == self.end_frequency,
    {
        self.end_frequency
    }

    /// Render one sample. The order is fixed: glide the frequency, set it on
    /// the oscillator, generate, shape by the envelope, apply the gain, then
    /// deactivate if the envelope has finished.
    pub fn next_sample(&mut self) -> (out: StereoSample)
        requires
            old(self).wf(),
        ensures
            *final(self) == old(self).stepped_spec(),
            final(self).wf(),
            out.left == old(self).output_spec(),
            out.right == out.left,
            -(UNIT as int) <= out.left <= UNIT as int,
    {
        if !self.active {
            return StereoSample::from_mono(0);
        }
        let amount: u64 = self.frequency_env.get_amount();
        let f: u64 = glide_frequency(self.start_frequency, self.end_frequency, amount);
        self.frequency_env.advance();
        self.osc.set_frequency(f);
        let raw: i64 = self.osc.next_sample();
        let shaped: i64 = self.env.process_sample(raw);
        let out: i64 = self.gain.process_sample(shaped);
        if self.env.is_done() {
            self.active = false;
        }
        StereoSample::from_mono(out)
    }
}

} // verus!

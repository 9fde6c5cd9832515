//! Shared oscillator arithmetic and the waveform-selected oscillator.
//!
//! Every oscillator is a phase accumulator: the phase lives in
//! `[0, UNIT)` micro-cycles and advances by `frequency / sample_rate`
//! cycles per sample, wrapping by subtracting one cycle. Frequencies are
//! millihertz, clamped to the Nyquist limit of half the sample rate.

use vstd::prelude::*;

use crate::saw_wave::SawWave;
use crate::sine_wave::SineWave;
use crate::square_wave::SquareWave;
use crate::units::{HALF_UNIT, UNIT};

verus! {

/// Highest storable frequency: half the sample rate, in millihertz.
pub open spec fn nyquist_mhz_spec(rate: int) -> int {
    rate * 500
}

/// `freq` limited to the Nyquist frequency for `rate`.
pub open spec fn clamped_frequency_spec(freq: int, rate: int) -> int {
    if freq <= rate * 500 {
        freq
    } else {
        rate * 500
    }
}

/// Phase advance per sample, in micro-cycles: `frequency / rate` cycles.
pub open spec fn phase_increment_spec(freq: int, rate: int) -> int {
    freq * 1000 / rate
}

/// One phase step, wrapped back into `[0, UNIT)`.
pub open spec fn stepped_phase_spec(phase: int, freq: int, rate: int) -> int {
    let p = phase + phase_increment_spec(freq, rate);
    if p >= UNIT as int {
        p - UNIT as int
    } else {
        p
    }
}

/// Saw wave at a phase: a line from -1 up to +1 over one cycle.
pub open spec fn saw_value_spec(phase: int) -> int {
    2 * phase - UNIT as int
}

/// Square wave at a phase: +1 on the first half cycle, -1 on the second.
pub open spec fn square_value_spec(phase: int) -> int {
    if phase < HALF_UNIT as int {
        UNIT as int
    } else {
        -(UNIT as int)
    }
}

/// Sine wave at a phase: the standard piecewise-parabolic approximation of
/// `sin(2*pi*phase)`, chosen so the whole engine stays in integer
/// arithmetic. It is exact at the quarter-cycle points and stays within one
/// unit everywhere.
pub open spec fn sine_value_spec(phase: int) -> int {
    if phase < HALF_UNIT as int {
        16 * phase * ((HALF_UNIT as int) - phase) / (UNIT as int)
    } else {
        -(16 * (phase - HALF_UNIT as int) * ((UNIT as int) - phase) / (UNIT as int))
    }
}

/// Clamp a frequency to the Nyquist limit for `rate`.
pub fn clamp_frequency(freq: u64, rate: u32) -> (f: u64)
    ensures
        f == clamped_frequency_spec(freq as int, rate as int),
        f <= rate as int * 500,
{
    let nyq: u64 = (rate as u64) * 500;
    if freq <= nyq {
        freq
    } else {
        nyq
    }
}

/// Advance a phase by one sample at the given frequency, wrapping into
/// `[0, UNIT)`.
pub fn step_phase(phase: u64, frequency: u64, rate: u32) -> (p: u64)
    requires
        1 <= rate,
        phase < UNIT,
        frequency <= rate as int * 500,
    ensures
        p == stepped_phase_spec(phase as int, frequency as int, rate as int),
        p < UNIT,
{
    proof {
        assert(0 <= frequency * 1000 / (rate as int) <= 500_000) by (nonlinear_arith)
            requires
                1 <= rate,
                0 <= frequency,
                frequency <= rate * 500,
        ;
    }
    let inc: u64 = frequency * 1000 / (rate as u64);
    let p2: u64 = phase + inc;
    if p2 >= UNIT {
        p2 - UNIT
    } else {
        p2
    }
}

/// Saw wave value at a phase.
pub fn saw_value(phase: u64) -> (v: i64)
    requires
        phase < UNIT,
    ensures
        v == saw_value_spec(phase as int),
        -(UNIT as int) <= v <= UNIT as int,
{
    2 * (phase as i64) - (UNIT as i64)
}

/// Square wave value at a phase.
pub fn square_value(phase: u64) -> (v: i64)
    requires
        phase < UNIT,
    ensures
        v == square_value_spec(phase as int),
        -(UNIT as int) <= v <= UNIT as int,
{
    if phase < HALF_UNIT {
        UNIT as i64
    } else {
        -(UNIT as i64)
    }
}

/// Sine wave value at a phase.
pub fn sine_value(phase: u64) -> (v: i64)
    requires
        phase < UNIT,
    ensures
        v == sine_value_spec(phase as int),
        -(UNIT as int) <= v <= UNIT as int,
{
    if phase < HALF_UNIT {
        proof {
            assert(0 <= 16 * phase * (500_000 - phase) <= 1_000_000_000_000) by (nonlinear_arith)
                requires
                    0 <= phase < 500_000,
            ;
        }
        let prod: u64 = 16 * phase * (HALF_UNIT - phase);
        (prod / UNIT) as i64
    } else {
        let a: u64 = phase - HALF_UNIT;
        let b: u64 = UNIT - phase;
        proof {
            assert(0 <= 16 * a * b <= 1_000_000_000_000) by (nonlinear_arith)
                requires
                    0 <= a,
                    0 <= b,
                    a + b == 500_000,
            ;
        }
        let prod: u64 = 16 * a * b;
        -((prod / UNIT) as i64)
    }
}

/// Waveform shapes the engine can render.
#[derive(Clone, Copy, PartialEq, Eq, Structural, Debug)]
pub enum Waveform {
    Sine,
    Saw,
    Square,
}

/// One voice's oscillator: a waveform chosen at construction time behind a
/// single set-frequency / next-sample surface.
#[derive(Clone, Copy, Debug)]
pub enum Oscillator {
    Sine(SineWave),
    Saw(SawWave),
    Square(SquareWave),
}

impl Oscillator {
    /// Internal invariant of the selected wave.
    pub open spec fn wf(self) -> bool {
        match self {
            Oscillator::Sine(w) => w.wf(),
            Oscillator::Saw(w) => w.wf(),
            Oscillator::Square(w) => w.wf(),
        }
    }

    /// Which waveform was selected at construction.
    pub open spec fn waveform_spec(self) -> Waveform {
        match self {
            Oscillator::Sine(_) => Waveform::Sine,
            Oscillator::Saw(_) => Waveform::Saw,
            Oscillator::Square(_) => Waveform::Square,
        }
    }

    /// The stored frequency in millihertz.
    pub open spec fn frequency_spec(self) -> int {
        match self {
            Oscillator::Sine(w) => w.frequency as int,
            Oscillator::Saw(w) => w.frequency as int,
            Oscillator::Square(w) => w.frequency as int,
        }
    }

    /// The current phase in micro-cycles.
    pub open spec fn phase_spec(self) -> int {
        match self {
            Oscillator::Sine(w) => w.phase as int,
            Oscillator::Saw(w) => w.phase as int,
            Oscillator::Square(w) => w.phase as int,
        }
    }

    /// The sample rate the oscillator was built for.
    pub open spec fn sample_rate_spec(self) -> int {
        match self {
            Oscillator::Sine(w) => w.sample_rate as int,
            Oscillator::Saw(w) => w.sample_rate as int,
            Oscillator::Square(w) => w.sample_rate as int,
        }
    }

    /// The waveform value at the current phase.
    pub open spec fn value_spec(self) -> int {
        match self {
            Oscillator::Sine(w) => w.value_spec(),
            Oscillator::Saw(w) => w.value_spec(),
            Oscillator::Square(w) => w.value_spec(),
        }
    }

    /// The state after one sample: the phase has advanced one step of the
    /// current frequency.
    pub open spec fn advanced_spec(self) -> Oscillator {
        match self {
            Oscillator::Sine(w) => Oscillator::Sine(w.advanced_spec()),
            Oscillator::Saw(w) => Oscillator::Saw(w.advanced_spec()),
            Oscillator::Square(w) => Oscillator::Square(w.advanced_spec()),
        }
    }

    /// The state with the frequency replaced (clamped to Nyquist).
    pub open spec fn with_frequency_spec(self, freq: int) -> Oscillator {
        match self {
            Oscillator::Sine(w) => Oscillator::Sine(
                SineWave {
                    frequency: clamped_frequency_spec(freq, w.sample_rate as int) as u64,
                    ..w
                },
            ),
            Oscillator::Saw(w) => Oscillator::Saw(
                SawWave {
                    frequency: clamped_frequency_spec(freq, w.sample_rate as int) as u64,
                    ..w
                },
            ),
            Oscillator::Square(w) => Oscillator::Square(
                SquareWave {
                    frequency: clamped_frequency_spec(freq, w.sample_rate as int) as u64,
                    ..w
                },
            ),
        }
    }

    /// The state a fresh oscillator starts in, given the constructor's
    /// arguments.
    pub open spec fn initial_spec(sample_rate: u32, wave: Waveform, frequency: u64) -> Oscillator {
        let f = clamped_frequency_spec(frequency as int, sample_rate as int) as u64;
        match wave {
            Waveform::Sine => Oscillator::Sine(
                SineWave { phase: 0, frequency: f, sample_rate },
            ),
            Waveform::Saw => Oscillator::Saw(SawWave { phase: 0, frequency: f, sample_rate }),
            Waveform::Square => Oscillator::Square(
                SquareWave { phase: 0, frequency: f, sample_rate },
            ),
        }
    }

    /// A fresh oscillator of the chosen waveform at phase zero; the
    /// frequency is clamped to the Nyquist limit. On a retrigger the engine
    /// deliberately leaves the phase running (no reset): the anti-pop fade
    /// in the amplitude envelope masks the transition, and a continuous
    /// phase avoids adding a second discontinuity.
    pub fn new(sample_rate: u32, wave: Waveform, frequency: u64) -> (o: Oscillator)
        requires
            1 <= sample_rate,
        ensures
            o.wf(),
            o == Oscillator::initial_spec(sample_rate, wave, frequency),
            o.waveform_spec() == wave,
            o.phase_spec() == 0,
            o.sample_rate_spec() == sample_rate,
            o.frequency_spec() == clamped_frequency_spec(frequency as int, sample_rate as int),
    {
        match wave {
            Waveform::Sine => Oscillator::Sine(SineWave::new(sample_rate, frequency)),
            Waveform::Saw => Oscillator::Saw(SawWave::new(sample_rate, frequency)),
            Waveform::Square => Oscillator::Square(SquareWave::new(sample_rate, frequency)),
        }
    }

    /// The stored frequency in millihertz.
    pub fn get_frequency(&self) -> (f: u64)
        ensures
            f == self.frequency_spec(),
    {
        match self {
            Oscillator::Sine(w) => w.frequency,
            Oscillator::Saw(w) => w.frequency,
            Oscillator::Square(w) => w.frequency,
        }
    }

    /// Replace the frequency, clamped to the Nyquist limit.
    pub fn set_frequency(&mut self, freq: u64)
        requires
            old(self).wf(),
        ensures
            *final(self) == old(self).with_frequency_spec(freq as int),
            final(self).wf(),
    {
        match self {
            Oscillator::Sine(w) => w.set_frequency(freq),
            Oscillator::Saw(w) => w.set_frequency(freq),
            Oscillator::Square(w) => w.set_frequency(freq),
        }
    }

    /// The waveform value at the current phase; then the phase advances one
    /// sample at the current frequency.
    pub fn next_sample(&mut self) -> (s: i64)
        requires
            old(self).wf(),
        ensures
            *final(self) == old(self).advanced_spec(),
            final(self).wf(),
            s == old(self).value_spec(),
            -(UNIT as int) <= s <= UNIT as int,
    {
        match self {
            Oscillator::Sine(w) => w.next_sample(),
            Oscillator::Saw(w) => w.next_sample(),
            Oscillator::Square(w) => w.next_sample(),
        }
    }
}

} // verus!

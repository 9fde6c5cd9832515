//! Tests for the oscillators, the frequency ramp, the gain stage and the
//! stereo frame helpers.

use polysynth::gain::Gain;
use polysynth::oscillator::{Oscillator, Waveform};
use polysynth::ramp_envelope::RampEnvelope;
use polysynth::saw_wave::SawWave;
use polysynth::sine_wave::SineWave;
use polysynth::square_wave::SquareWave;
use polysynth::stereo_sample::StereoSample;
use polysynth::units;

#[test]
fn saw_ramps_from_minus_one() {
    // 440 Hz = 440_000 mHz at 48 kHz: the phase advances 9166 per sample
    let mut osc = SawWave::new(48000, 440_000);
    assert_eq!(osc.next_sample(), -1_000_000);
    assert_eq!(osc.next_sample(), 2 * 9166 - 1_000_000);
    assert_eq!(osc.next_sample(), 2 * 2 * 9166 - 1_000_000);
}

#[test]
fn square_alternates_at_nyquist() {
    // 24 kHz at a 48 kHz rate: half a cycle per sample
    let mut osc = SquareWave::new(48000, 24_000_000);
    assert_eq!(osc.next_sample(), 1_000_000);
    assert_eq!(osc.next_sample(), -1_000_000);
    assert_eq!(osc.next_sample(), 1_000_000);
    assert_eq!(osc.next_sample(), -1_000_000);
}

#[test]
fn sine_hits_quarter_cycle_points() {
    // 12 kHz at a 48 kHz rate: a quarter cycle per sample
    let mut osc = SineWave::new(48000, 12_000_000);
    assert_eq!(osc.next_sample(), 0);
    assert_eq!(osc.next_sample(), 1_000_000);
    assert_eq!(osc.next_sample(), 0);
    assert_eq!(osc.next_sample(), -1_000_000);
    assert_eq!(osc.next_sample(), 0);
}

#[test]
fn sine_stays_in_range() {
    let mut osc = SineWave::new(48000, 441_000);
    for _ in 0..10_000 {
        let s = osc.next_sample();
        assert!(-1_000_000 <= s && s <= 1_000_000);
        assert!(osc.phase < 1_000_000);
    }
}

#[test]
fn frequency_is_clamped_to_nyquist() {
    let osc = SawWave::new(48000, 100_000_000);
    assert_eq!(osc.frequency, 24_000_000);
    let mut osc2 = SquareWave::new(48000, 1000);
    osc2.set_frequency(30_000_000);
    assert_eq!(osc2.frequency, 24_000_000);
    let osc3 = Oscillator::new(48000, Waveform::Sine, 99_000_000_000);
    assert_eq!(osc3.get_frequency(), 24_000_000);
}

#[test]
fn oscillator_selects_waveform_at_construction() {
    let mut sine = Oscillator::new(48000, Waveform::Sine, 12_000_000);
    let mut saw = Oscillator::new(48000, Waveform::Saw, 12_000_000);
    let mut square = Oscillator::new(48000, Waveform::Square, 12_000_000);
    assert_eq!(sine.next_sample(), 0);
    assert_eq!(saw.next_sample(), -1_000_000);
    assert_eq!(square.next_sample(), 1_000_000);
    // second sample: a quarter cycle in
    assert_eq!(sine.next_sample(), 1_000_000);
    assert_eq!(saw.next_sample(), -500_000);
    assert_eq!(square.next_sample(), 1_000_000);
}

#[test]
fn ramp_reports_linear_progress() {
    // 0.1 s glide at 48 kHz: 4800 samples
    let mut ramp = RampEnvelope::new(48000, 100_000);
    ramp.trigger();
    assert_eq!(ramp.get_amount(), 0);
    for _ in 0..2400 {
        ramp.advance();
    }
    assert_eq!(ramp.get_amount(), 500_000);
    for _ in 0..2400 {
        ramp.advance();
    }
    assert_eq!(ramp.get_amount(), 1_000_000);
    // no overshoot after the ramp completes
    for _ in 0..100 {
        ramp.advance();
        assert_eq!(ramp.get_amount(), 1_000_000);
    }
}

#[test]
fn fresh_ramp_is_already_complete() {
    // before any trigger a voice must not glide: the ramp starts expired
    let ramp = RampEnvelope::new(48000, 100_000);
    assert_eq!(ramp.get_amount(), 1_000_000);
}

#[test]
fn zero_ramp_jumps_to_target() {
    let mut ramp = RampEnvelope::new(48000, 0);
    ramp.trigger();
    assert_eq!(ramp.get_amount(), 1_000_000);
}

#[test]
fn ramp_scales_its_input() {
    let mut ramp = RampEnvelope::new(48000, 100_000);
    ramp.trigger();
    for _ in 0..2400 {
        ramp.advance();
    }
    // halfway: a 220_000 mHz difference contributes half
    let out = ramp.process_sample(220_000);
    assert_eq!(out, 110_000);
}

#[test]
fn gain_scales_and_clamps() {
    let g = Gain::new(900_000);
    assert_eq!(g.process_sample(1_000_000), 900_000);
    assert_eq!(g.process_sample(-1_000_000), -900_000);
    assert_eq!(g.process_sample(0), 0);
    let over = Gain::new(5_000_000);
    assert_eq!(over.amount, 1_000_000);
}

#[test]
fn stereo_mono_round_trip() {
    let s = StereoSample::from_mono(12345);
    assert_eq!(s.left, 12345);
    assert_eq!(s.right, 12345);
    assert_eq!(s.to_mono(), 12345);
    let odd = StereoSample { left: -3, right: 0 };
    assert_eq!(odd.to_mono(), -1);
}

#[test]
fn unit_helpers_compute_exactly() {
    assert_eq!(units::duration_samples(20_000, 48000), 960);
    assert_eq!(units::duration_samples(0, 48000), 0);
    assert_eq!(units::ratio_scaled(1, 3), 333_333);
    assert_eq!(units::ratio_scaled(5, 5), 1_000_000);
    assert_eq!(units::ratio_scaled(7, 0), 1_000_000);
    assert_eq!(units::scale(-1_000_000, 500_000), -500_000);
    assert_eq!(units::scale_u64(440_000, 250_000), 110_000);
}

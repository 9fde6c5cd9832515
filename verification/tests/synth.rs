//! Tests for the voice and the polyphonic engine.

use polysynth::oscillator::Waveform;
use polysynth::polysynth::PolySynth;
use polysynth::voice::Voice;

#[test]
fn inactive_voice_is_silent_and_frozen() {
    let mut v = Voice::new(48000, 220_000, Waveform::Saw);
    assert!(!v.active);
    let before_t = v.env.t;
    for _ in 0..100 {
        let s = v.next_sample();
        assert_eq!(s.left, 0);
        assert_eq!(s.right, 0);
    }
    assert_eq!(v.env.t, before_t);
    assert!(!v.active);
}

#[test]
fn voice_glides_from_start_to_target() {
    // start at 220 Hz, glide 0.1 s to 440 Hz at 48 kHz
    let mut v = Voice::new(48000, 220_000, Waveform::Saw);
    v.play(440_000);
    assert_eq!(v.get_frequency(), 440_000);
    // the first rendered sample still runs at the start frequency
    v.next_sample();
    assert_eq!(v.osc.get_frequency(), 220_000);
    // halfway through the 4800-sample glide: 330 Hz exactly
    for _ in 0..2400 {
        v.next_sample();
    }
    assert_eq!(v.osc.get_frequency(), 330_000);
    // past the glide: parked on the target, no overshoot
    for _ in 0..2400 {
        v.next_sample();
    }
    assert_eq!(v.osc.get_frequency(), 440_000);
    for _ in 0..1000 {
        v.next_sample();
        assert_eq!(v.osc.get_frequency(), 440_000);
    }
}

#[test]
fn voice_glides_downward_too() {
    let mut v = Voice::new(48000, 440_000, Waveform::Saw);
    v.play(220_000);
    for _ in 0..2401 {
        v.next_sample();
    }
    assert_eq!(v.osc.get_frequency(), 330_000);
}

#[test]
fn voice_output_is_gain_times_envelope_times_wave() {
    // square at Nyquist alternates full-scale; flat envelope at sustain 1
    let mut v = Voice::new(48000, 24_000_000, Waveform::Square);
    v.env.set_attack(0);
    v.env.set_decay(0);
    v.frequency_env.set_ramp(0);
    v.play(24_000_000);
    // step past the 480-sample retrigger window
    let mut last = 0;
    for _ in 0..481 {
        last = v.next_sample().left;
    }
    // from here on: raw is +/- 1.0, envelope 1.0, gain 0.9
    let a = v.next_sample().left;
    let b = v.next_sample().left;
    assert_eq!(a.abs(), 900_000);
    assert_eq!(b.abs(), 900_000);
    assert_eq!(a, -b);
    let _ = last;
}

#[test]
fn voice_deactivates_when_release_completes() {
    let mut v = Voice::new(48000, 220_000, Waveform::Saw);
    v.play(440_000);
    for _ in 0..5000 {
        v.next_sample();
    }
    v.stop();
    assert!(v.active);
    // default release is 0.2 s = 9600 samples
    for _ in 0..9600 {
        assert!(v.active);
        v.next_sample();
    }
    // the envelope reported done during the 9600th sample
    assert!(!v.active);
    let s = v.next_sample();
    assert_eq!(s.left, 0);
}

#[test]
fn three_notes_take_three_voices() {
    let mut s = PolySynth::new(48000, 3);
    assert!(s.voices.iter().all(|v| !v.active));
    s.play(220_000);
    s.play(330_000);
    s.play(440_000);
    assert!(s.voices[0].active && s.voices[0].get_frequency() == 220_000);
    assert!(s.voices[1].active && s.voices[1].get_frequency() == 330_000);
    assert!(s.voices[2].active && s.voices[2].get_frequency() == 440_000);
}

#[test]
fn fourth_note_steals_nearest_voice() {
    let mut s = PolySynth::new(48000, 3);
    s.play(220_000);
    s.play(330_000);
    s.play(440_000);
    // 450 Hz is nearest 440 Hz: voice 2 is stolen, the others are untouched
    s.play(450_000);
    assert_eq!(s.voices[0].get_frequency(), 220_000);
    assert_eq!(s.voices[1].get_frequency(), 330_000);
    assert_eq!(s.voices[2].get_frequency(), 450_000);
    assert!(s.voices[2].active);
}

#[test]
fn steal_tie_takes_first_in_pool_order() {
    let mut s = PolySynth::new(48000, 2);
    s.play(200_000);
    s.play(400_000);
    // 300 Hz is equally far from both: pool order wins
    s.play(300_000);
    assert_eq!(s.voices[0].get_frequency(), 300_000);
    assert_eq!(s.voices[1].get_frequency(), 400_000);
}

#[test]
fn stop_without_match_changes_nothing() {
    let mut s = PolySynth::new(48000, 3);
    s.play(220_000);
    s.play(330_000);
    let before: Vec<(bool, u64, bool, u64)> = s
        .voices
        .iter()
        .map(|v| (v.active, v.end_frequency, v.env.is_released, v.env.t))
        .collect();
    s.stop(999_000);
    let after: Vec<(bool, u64, bool, u64)> = s
        .voices
        .iter()
        .map(|v| (v.active, v.end_frequency, v.env.is_released, v.env.t))
        .collect();
    assert_eq!(before, after);
}

#[test]
fn stop_needs_the_exact_frequency() {
    let mut s = PolySynth::new(48000, 2);
    s.play(220_000);
    s.stop(220_001);
    assert!(!s.voices[0].env.is_released);
    s.stop(220_000);
    assert!(s.voices[0].env.is_released);
}

#[test]
fn stop_releases_every_matching_voice() {
    let mut s = PolySynth::new(48000, 3);
    s.play(220_000);
    s.play(220_000);
    s.play(440_000);
    s.stop(220_000);
    assert!(s.voices[0].env.is_released);
    assert!(s.voices[1].env.is_released);
    assert!(!s.voices[2].env.is_released);
}

#[test]
fn engine_with_one_voice_matches_a_lone_voice() {
    let mut s = PolySynth::new(48000, 1);
    let mut v = Voice::new(48000, 220_000, Waveform::Saw);
    s.play(440_000);
    v.play(440_000);
    for _ in 0..2000 {
        let from_engine = s.next_sample();
        let from_voice = v.next_sample();
        assert_eq!(from_engine, from_voice);
    }
}

#[test]
fn engine_sums_its_voices() {
    // two square voices at Nyquist, envelopes held flat at full level
    let mut s = PolySynth::with_waveform(48000, 2, Waveform::Square);
    s.set_attack(0);
    s.set_decay(0);
    s.set_sustain(1_000_000);
    s.set_glide(0);
    s.play(24_000_000);
    s.play(24_000_000);
    for _ in 0..481 {
        s.next_sample();
    }
    let frame = s.next_sample();
    assert_eq!(frame.left.abs(), 1_800_000);
    assert_eq!(frame.left, frame.right);
}

#[test]
fn empty_pool_never_panics() {
    let mut s = PolySynth::new(48000, 0);
    s.play(220_000);
    s.stop(220_000);
    s.set_attack(10_000);
    let frame = s.next_sample();
    assert_eq!(frame.left, 0);
    assert_eq!(frame.right, 0);
}

#[test]
fn setters_broadcast_to_every_voice() {
    let mut s = PolySynth::new(48000, 3);
    s.set_attack(40_000);
    s.set_decay(100_000);
    s.set_sustain(2_000_000);
    s.set_release(500_000);
    s.set_glide(50_000);
    for v in s.voices.iter() {
        assert_eq!(v.env.attack_n, 1920);
        assert_eq!(v.env.decay_n, 4800);
        assert_eq!(v.env.sustain, 1_000_000);
        assert_eq!(v.env.release_n, 24_000);
        assert_eq!(v.frequency_env.ramp_n, 2400);
    }
}

#[test]
fn mixed_output_stays_bounded_by_pool_size() {
    let mut s = PolySynth::new(48000, 4);
    s.play(220_000);
    s.play(277_183);
    s.play(329_628);
    s.play(440_000);
    for _ in 0..5000 {
        let frame = s.next_sample();
        assert!(frame.left.abs() <= 4_000_000);
    }
}

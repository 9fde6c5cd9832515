//! Tests for the amplitude envelope state machine.

use polysynth::adsr_envelope::AdsrEnvelope;

/// Step the envelope's clock by `n` samples (silent input).
fn advance(env: &mut AdsrEnvelope, n: u64) {
    let mut i: u64 = 0;
    while i < n {
        env.process_sample(0);
        i += 1;
    }
}

#[test]
fn adsr_stage_values() {
    // attack 0.02 s, decay 0.2 s, sustain 0.8, release 0.2 s at 48 kHz
    let mut env = AdsrEnvelope::new(48000, 20_000, 200_000, 800_000, 200_000);
    env.trigger();
    // retrigger window is 480 samples; attack ends at 480 + 960 = 1440
    advance(&mut env, 1440);
    assert_eq!(env.get_amplitude(), 1_000_000);
    // decay ends 9600 samples later
    advance(&mut env, 9600);
    assert_eq!(env.get_amplitude(), 800_000);
    // sustain holds indefinitely
    advance(&mut env, 5000);
    assert_eq!(env.get_amplitude(), 800_000);
    env.release();
    // halfway through the 9600-sample release: 0.8 * 0.5
    advance(&mut env, 4800);
    assert_eq!(env.get_amplitude(), 400_000);
    assert!(!env.is_done());
    advance(&mut env, 4799);
    assert!(!env.is_done());
    advance(&mut env, 1);
    assert!(env.is_done());
    assert_eq!(env.get_amplitude(), 0);
}

#[test]
fn adsr_attack_midpoint() {
    let mut env = AdsrEnvelope::new(48000, 20_000, 200_000, 800_000, 200_000);
    env.trigger();
    // half the 960-sample attack, past the 480-sample window
    advance(&mut env, 960);
    assert_eq!(env.get_amplitude(), 500_000);
}

#[test]
fn adsr_decay_midpoint() {
    let mut env = AdsrEnvelope::new(48000, 20_000, 200_000, 800_000, 200_000);
    env.trigger();
    // window + attack + half of decay: amplitude 1 - (1 - 0.8) * 0.5
    advance(&mut env, 1440 + 4800);
    assert_eq!(env.get_amplitude(), 900_000);
}

#[test]
fn retrigger_keeps_amplitude() {
    // sustain 0.5 so the held amplitude is mid-scale
    let mut env = AdsrEnvelope::new(48000, 20_000, 200_000, 500_000, 200_000);
    env.trigger();
    advance(&mut env, 20_000);
    assert_eq!(env.get_amplitude(), 500_000);
    // a steal retriggers the envelope; the amplitude must not jump
    env.trigger();
    assert_eq!(env.get_amplitude(), 500_000);
    // and it fades linearly inside the 480-sample window: at 240, half is left
    advance(&mut env, 240);
    assert_eq!(env.get_amplitude(), 250_000);
}

#[test]
fn release_is_idempotent() {
    let mut env = AdsrEnvelope::new(48000, 20_000, 200_000, 800_000, 200_000);
    env.trigger();
    advance(&mut env, 3000);
    env.release();
    let start_t = env.release_start_t;
    let start_amp = env.release_start_amp;
    // time moves on, then a second release arrives
    advance(&mut env, 100);
    env.release();
    assert_eq!(env.release_start_t, start_t);
    assert_eq!(env.release_start_amp, start_amp);
    assert!(env.is_released);
}

#[test]
fn release_of_zero_duration_is_immediate_silence() {
    let mut env = AdsrEnvelope::new(48000, 20_000, 200_000, 800_000, 0);
    env.trigger();
    advance(&mut env, 20_000);
    env.release();
    assert_eq!(env.get_amplitude(), 0);
    assert!(env.is_done());
}

#[test]
fn zero_attack_and_decay_jump_to_sustain() {
    let mut env = AdsrEnvelope::new(48000, 0, 0, 800_000, 200_000);
    env.trigger();
    // one sample past the retrigger window
    advance(&mut env, 481);
    assert_eq!(env.get_amplitude(), 800_000);
}

#[test]
fn sustain_level_is_clamped() {
    let env = AdsrEnvelope::new(48000, 0, 0, 2_000_000, 0);
    assert_eq!(env.sustain, 1_000_000);
}

#[test]
fn amplitude_stays_in_range_through_a_messy_ride() {
    let mut env = AdsrEnvelope::new(48000, 5_000, 30_000, 700_000, 40_000);
    env.trigger();
    let mut i: u64 = 0;
    while i < 30_000 {
        let amp = env.get_amplitude();
        assert!(amp <= 1_000_000);
        // retrigger and release at awkward moments
        if i == 137 || i == 2999 || i == 15_000 {
            env.trigger();
        }
        if i == 700 || i == 7000 || i == 15_001 {
            env.release();
        }
        env.process_sample(0);
        i += 1;
    }
}

#[test]
fn process_sample_scales_by_amplitude() {
    let mut env = AdsrEnvelope::new(48000, 0, 0, 500_000, 200_000);
    env.trigger();
    advance(&mut env, 481);
    // held at sustain 0.5: a full-scale input comes back halved
    let out = env.process_sample(1_000_000);
    assert_eq!(out, 500_000);
    let out_neg = env.process_sample(-1_000_000);
    assert_eq!(out_neg, -500_000);
}

#[test]
fn envelope_setters_convert_seconds_to_samples() {
    let mut env = AdsrEnvelope::new(48000, 20_000, 200_000, 800_000, 200_000);
    assert_eq!(env.attack_n, 960);
    assert_eq!(env.decay_n, 9600);
    assert_eq!(env.release_n, 9600);
    env.set_attack(40_000);
    env.set_decay(100_000);
    env.set_release(1_000_000);
    env.set_sustain(250_000);
    assert_eq!(env.attack_n, 1920);
    assert_eq!(env.decay_n, 4800);
    assert_eq!(env.release_n, 48_000);
    assert_eq!(env.sustain, 250_000);
}

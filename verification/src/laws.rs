//! Engine-wide laws: properties that relate the components' specifications,
//! each proved once, for every state the types allow.

use vstd::prelude::*;

use crate::adsr_envelope::{lemma_ratio_bounds, lemma_unit_product_bounds, AdsrEnvelope};
use crate::ramp_envelope::RampEnvelope;
use crate::units::{ratio_spec, UNIT};
use crate::voice::glide_frequency_spec;

verus! {

/// Law: for every well-formed envelope state — whatever the stage, the
/// parameters and the elapsed time — the amplitude lies in `[0, 1]`: no
/// overshoot, no undershoot.
pub proof fn lemma_amplitude_in_range(e: AdsrEnvelope)
    requires
        e.wf(),
    ensures
        0 <= e.amplitude_spec() <= UNIT as int,
{
    let rt = e.retrigger_window_spec();
    if e.is_released {
        let ratio = ratio_spec(e.t - e.release_start_t, e.release_n as int);
        lemma_ratio_bounds(e.t - e.release_start_t, e.release_n as int);
        lemma_unit_product_bounds(e.release_start_amp as int, (UNIT as int) - ratio);
    } else if e.t <= rt {
        let ratio = ratio_spec(e.t as int, rt);
        lemma_ratio_bounds(e.t as int, rt);
        lemma_unit_product_bounds(e.retrigger_start_amp as int, (UNIT as int) - ratio);
    } else if e.t - rt <= e.attack_n {
        lemma_ratio_bounds(e.t - rt, e.attack_n as int);
    } else if e.t - rt - e.attack_n <= e.decay_n {
        let ratio = ratio_spec(e.t - rt - e.attack_n, e.decay_n as int);
        lemma_ratio_bounds(e.t - rt - e.attack_n, e.decay_n as int);
        lemma_unit_product_bounds((UNIT as int) - e.sustain, ratio);
    }
}

/// Law (anti-pop retrigger): at any sample rate of 100 Hz or more — that is,
/// whenever the 10 ms retrigger window is at least one sample long — a
/// trigger preserves the amplitude exactly: the new state starts at the very
/// amplitude the envelope had when the trigger (for instance a voice steal)
/// arrived, not at 0 or 1.
pub proof fn lemma_retrigger_continuity(e: AdsrEnvelope)
    requires
        e.wf(),
        e.sample_rate >= 100,
    ensures
        e.triggered_spec().amplitude_spec() == e.amplitude_spec(),
{
    let e2 = e.triggered_spec();
    let rt = e2.retrigger_window_spec();
    lemma_amplitude_in_range(e);
    assert(e2.retrigger_start_amp == e.amplitude_spec());
    assert(rt >= 1);
    assert(0int * (UNIT as int) / rt == 0) by (nonlinear_arith)
        requires
            rt >= 1,
    ;
    assert(ratio_spec(0, rt) == 0);
    let a = e2.retrigger_start_amp as int;
    assert(a * (UNIT as int) / (UNIT as int) == a) by (nonlinear_arith);
}

/// Law: release is idempotent. Releasing an already released envelope
/// re-captures no snapshot and moves no release start time: a second call
/// leaves the state exactly as the first left it.
pub proof fn lemma_release_idempotent(e: AdsrEnvelope)
    requires
        e.wf(),
    ensures
        e.released_spec().released_spec() == e.released_spec(),
{
}

/// Law (glide endpoints and no overshoot): for any ramp amount in
/// `[0, UNIT]`, the instantaneous frequency never leaves the interval
/// between the start and the target; a zero amount gives exactly the start
/// frequency and a full amount exactly the target.
pub proof fn lemma_glide_bounds(start: int, end: int, amount: int)
    requires
        0 <= start,
        0 <= end,
        0 <= amount <= UNIT as int,
    ensures
        start <= end ==> start <= glide_frequency_spec(start, end, amount) <= end,
        end < start ==> end <= glide_frequency_spec(start, end, amount) <= start,
        amount == 0 ==> glide_frequency_spec(start, end, amount) == start,
        amount == UNIT as int ==> glide_frequency_spec(start, end, amount) == end,
{
    if end >= start {
        let d = end - start;
        assert(0 <= d * amount / 1_000_000 <= d && d * 0 / 1_000_000 == 0 && d * 1_000_000
            / 1_000_000 == d) by (nonlinear_arith)
            requires
                0 <= d,
                0 <= amount <= 1_000_000,
        ;
    } else {
        let d = start - end;
        assert(0 <= d * amount / 1_000_000 <= d && d * 0 / 1_000_000 == 0 && d * 1_000_000
            / 1_000_000 == d) by (nonlinear_arith)
            requires
                0 <= d,
                0 <= amount <= 1_000_000,
        ;
    }
}

/// Law (glide progress): a freshly triggered ramp with a positive duration
/// reports zero progress, and any ramp whose elapsed time has reached its
/// duration reports full progress and keeps reporting it ever after.
pub proof fn lemma_glide_progress(r: RampEnvelope)
    ensures
        r.t == 0 && r.ramp_n > 0 ==> r.amount_spec() == 0,
        r.t >= r.ramp_n ==> r.amount_spec() == UNIT as int,
{
    if r.t == 0 && r.ramp_n > 0 {
        assert(0int * (UNIT as int) / (r.ramp_n as int) == 0) by (nonlinear_arith)
            requires
                r.ramp_n >= 1,
        ;
    }
}

} // verus!

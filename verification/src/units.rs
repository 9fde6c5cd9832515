//! Fixed-point units and the scaling helpers shared by the whole engine.

use vstd::prelude::*;

verus! {

/// Number of micro-units in one unit. Amplitudes, gains and ratios range over
/// `0 ..= UNIT`; sample values range over `-UNIT ..= UNIT`.
pub const UNIT: u64 = 1_000_000;

/// Half a unit: the midpoint of one oscillator phase cycle.
pub const HALF_UNIT: u64 = 500_000;

/// Largest magnitude the signed scaler accepts; keeps every intermediate
/// product inside `u64`.
pub const SCALE_MAX: i64 = 4_000_000_000_000;

/// The ratio `num / den`, clamped to `[0, 1]` and expressed in micro-units.
/// A zero denominator counts as a completed ramp (ratio one); this is how the
/// envelopes guard their divisions against zero durations.
pub open spec fn ratio_spec(num: int, den: int) -> int {
    if den <= 0 || num >= den {
        UNIT as int
    } else {
        num * (UNIT as int) / den
    }
}

/// `value` scaled by `amount` micro-units, magnitude rounded toward zero.
pub open spec fn scale_spec(value: int, amount: int) -> int {
    if value >= 0 {
        value * amount / (UNIT as int)
    } else {
        -((-value) * amount / (UNIT as int))
    }
}

/// A duration in microseconds converted to whole samples at `rate` samples
/// per second, saturating at `u64::MAX`.
pub open spec fn duration_samples_spec(micros: int, rate: int) -> int {
    if micros * rate / 1_000_000 > u64::MAX as int {
        u64::MAX as int
    } else {
        micros * rate / 1_000_000
    }
}

/// Clamped ratio in micro-units; the exact value of [`ratio_spec`].
pub fn ratio_scaled(num: u64, den: u64) -> (r: u64)
    ensures
        r == ratio_spec(num as int, den as int),
        r <= UNIT,
{
    if den == 0 || num >= den {
        UNIT
    } else {
        proof {
            assert(num * (UNIT as int) <= u64::MAX * (UNIT as int)) by (nonlinear_arith)
                requires
                    0 <= num <= u64::MAX,
            ;
        }
        let p: u128 = (num as u128) * (UNIT as u128);
        let q: u128 = p / (den as u128);
        proof {
            assert(num * (UNIT as int) / (den as int) < UNIT as int) by (nonlinear_arith)
                requires
                    0 < den,
                    num < den,
            ;
        }
        q as u64
    }
}

/// Signed scaling by a micro-unit amount; the exact value of [`scale_spec`].
/// The result never exceeds the input in magnitude and keeps its sign.
pub fn scale(value: i64, amount: u64) -> (r: i64)
    requires
        amount <= UNIT,
        -SCALE_MAX <= value <= SCALE_MAX,
    ensures
        r == scale_spec(value as int, amount as int),
        value >= 0 ==> 0 <= r <= value,
        value < 0 ==> value <= r <= 0,
{
    if value >= 0 {
        let v: u64 = value as u64;
        proof {
            assert(v * amount <= v * (UNIT as int)) by (nonlinear_arith)
                requires
                    amount <= UNIT as int,
                    0 <= v,
            ;
            assert(v * (UNIT as int) / (UNIT as int) == v) by (nonlinear_arith);
            assert(v * amount / (UNIT as int) <= v * (UNIT as int) / (UNIT as int)) by (nonlinear_arith)
                requires
                    v * amount <= v * (UNIT as int),
            ;
        }
        let p: u64 = v * amount;
        let q: u64 = p / UNIT;
        q as i64
    } else {
        let v: u64 = (-value) as u64;
        proof {
            assert(v * amount <= v * (UNIT as int)) by (nonlinear_arith)
                requires
                    amount <= UNIT as int,
                    0 <= v,
            ;
            assert(v * (UNIT as int) / (UNIT as int) == v) by (nonlinear_arith);
            assert(v * amount / (UNIT as int) <= v * (UNIT as int) / (UNIT as int)) by (nonlinear_arith)
                requires
                    v * amount <= v * (UNIT as int),
            ;
        }
        let p: u64 = v * amount;
        let q: u64 = p / UNIT;
        -(q as i64)
    }
}

/// Unsigned scaling by a micro-unit amount, computed without overflow for
/// any `u64` input; used on the frequency path.
pub fn scale_u64(value: u64, amount: u64) -> (r: u64)
    requires
        amount <= UNIT,
    ensures
        r == (value as int) * (amount as int) / (UNIT as int),
        r <= value,
{
    proof {
        assert(value * amount <= u64::MAX * (UNIT as int)) by (nonlinear_arith)
            requires
                0 <= value <= u64::MAX,
                0 <= amount <= UNIT as int,
        ;
    }
    let p: u128 = (value as u128) * (amount as u128);
    let q: u128 = p / (UNIT as u128);
    proof {
        assert(value * amount <= value * (UNIT as int)) by (nonlinear_arith)
            requires
                amount <= UNIT as int,
                0 <= value,
        ;
        assert(value * (UNIT as int) / (UNIT as int) == value) by (nonlinear_arith);
        assert(value * amount / (UNIT as int) <= value * (UNIT as int) / (UNIT as int)) by (nonlinear_arith)
            requires
                value * amount <= value * (UNIT as int),
        ;
    }
    q as u64
}

/// Microseconds to whole samples at `rate` samples per second; the exact
/// value of [`duration_samples_spec`].
pub fn duration_samples(micros: u64, rate: u32) -> (n: u64)
    ensures
        n == duration_samples_spec(micros as int, rate as int),
{
    proof {
        assert(micros * rate <= u64::MAX * (u32::MAX as int)) by (nonlinear_arith)
            requires
                0 <= micros <= u64::MAX,
                0 <= rate <= u32::MAX,
        ;
    }
    let p: u128 = (micros as u128) * (rate as u128);
    let q: u128 = p / 1_000_000u128;
    if q > u64::MAX as u128 {
        u64::MAX
    } else {
        q as u64
    }
}

} // verus!

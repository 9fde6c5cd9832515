//! The final fixed gain stage of a voice.

use vstd::prelude::*;

use crate::units::{scale, scale_spec, SCALE_MAX, UNIT};

verus! {

/// A fixed scalar multiplier applied after the amplitude envelope.
#[derive(Clone, Copy, Debug)]
pub struct Gain {
    /// Gain amount in micro-units (at most `UNIT`).
    pub amount: u64,
}

impl Gain {
    /// Internal invariant: the amount fits in one unit.
    pub open spec fn wf(self) -> bool {
        self.amount <= UNIT
    }

    /// A new gain stage; the amount is given in micro-units and clamped to
    /// one unit.
    pub fn new(amount: u64) -> (g: Gain)
        ensures
            g.wf(),
            g.amount == if amount <= UNIT {
                amount as int
            } else {
                UNIT as int
            },
    {
        Gain {
            amount: if amount <= UNIT {
                amount
            } else {
                UNIT
            },
        }
    }

    /// Scale one sample by the gain amount.
    pub fn process_sample(&self, input: i64) -> (out: i64)
        requires
            self.wf(),
            -SCALE_MAX <= input <= SCALE_MAX,
        ensures
            out == scale_spec(input as int, self.amount as int),
            input >= 0 ==> 0 <= out <= input,
            input < 0 ==> input <= out <= 0,
    {
        scale(input, self.amount)
    }
}

} // verus!

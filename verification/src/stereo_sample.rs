//! A two-channel audio frame in micro-units.

use vstd::prelude::*;

verus! {

/// One stereo frame; each channel is a sample value in micro-units,
/// nominally in `-UNIT ..= UNIT`.
#[derive(Clone, Copy, PartialEq, Eq, Structural, Debug)]
pub struct StereoSample {
    pub left: i64,
    pub right: i64,
}

/// Integer halving with the magnitude rounded toward zero.
pub open spec fn halved_spec(v: int) -> int {
    if v >= 0 {
        v / 2
    } else {
        -((-v) / 2)
    }
}

impl StereoSample {
    /// The mono mix of the two channels: half their sum.
    pub fn to_mono(&self) -> (r: i64)
        requires
            -(i64::MAX as int) <= self.left + self.right <= i64::MAX as int,
        ensures
            r == halved_spec(self.left + self.right),
    {
        let s: i64 = self.left + self.right;
        if s >= 0 {
            s / 2
        } else {
            -((-s) / 2)
        }
    }

    /// A frame carrying the same value on both channels.
    pub fn from_mono(mono: i64) -> (r: StereoSample)
        ensures
            r.left == mono,
            r.right == mono,
    {
        StereoSample { left: mono, right: mono }
    }
}

} // verus!

//! The frequency channels of the sensor.

use vstd::prelude::*;

verus! {

/// A frequency channel, or both at once.
#[derive(Copy, Clone, Debug, PartialEq, Eq, Structural)]
pub enum FChannel {
    Pressure,
    Temperature,
    Both,
}

impl FChannel {
    /// The index of a single channel in per-channel arrays.
    pub open spec fn spec_index(self) -> int {
        match self {
            FChannel::Pressure => 0,
            FChannel::Temperature => 1,
            FChannel::Both => 2,
        }
    }

    pub fn index(self) -> (r: usize)
        ensures
            r == self.spec_index(),
    {
        match self {
            FChannel::Pressure => 0,
            FChannel::Temperature => 1,
            FChannel::Both => 2,
        }
    }
}

} // verus!

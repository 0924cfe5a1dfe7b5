//! A clock pin that stands for the real one where two channels share it.

use vstd::prelude::*;

verus! {

/// Output speed of a pin.
#[derive(Copy, Clone, Debug, PartialEq, Eq, Structural)]
pub enum Speed {
    Low,
    Medium,
    High,
    VeryHigh,
}

/// The clock pin of a second channel: the first channel drives the real pin,
/// so this one holds nothing and its settings change nothing.
pub struct VirtualClk<CLK> {
    marker: core::marker::PhantomData<CLK>,
}

impl<CLK> VirtualClk<CLK> {
    pub fn new() -> (r: Self) {
        VirtualClk { marker: core::marker::PhantomData }
    }

    /// The speed belongs to the real pin: nothing to set.
    pub fn set_speed(self, _speed: Speed) -> (r: Self)
        ensures
            r == self,
    {
        self
    }
}

/// A clock pin that hands out a stand-in for a second channel.
pub trait IntoVirtualClk: Sized {
    type RealClk;

    fn virtual_clk(&self) -> VirtualClk<Self::RealClk>;
}

} // verus!

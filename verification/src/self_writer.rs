//! The decisions of the self-writer's packing loop: which blocks it opens,
//! which samples it takes, the differences it stores, and when it stops.
//!
//! Frequencies come in already scaled to fixed point; the loop that waits for
//! them, the packer and the flash are the caller's.

use vstd::prelude::*;

use crate::bench::{BlockPacker, PushResult};
use crate::workmodes::FChannel;

verus! {

/// A measurement of one channel or of both, in fixed point.
#[derive(Copy, Clone, Debug, PartialEq, Eq, Structural)]
pub enum FData {
    Pressure(i32),
    Temperature(i32),
    Both(i32, i32),
}

impl FData {
    pub open spec fn spec_channel(self) -> FChannel {
        match self {
            FData::Pressure(_) => FChannel::Pressure,
            FData::Temperature(_) => FChannel::Temperature,
            FData::Both(_, _) => FChannel::Both,
        }
    }

    /// The channel the measurement belongs to.
    pub fn as_channel(&self) -> (r: FChannel)
        ensures
            r == self.spec_channel(),
    {
        match self {
            FData::Pressure(_) => FChannel::Pressure,
            FData::Temperature(_) => FChannel::Temperature,
            FData::Both(_, _) => FChannel::Both,
        }
    }
}

/// What the loop does when it needs a new block.
#[derive(Copy, Clone, Debug, PartialEq, Eq, Structural)]
pub enum BlockStart {
    /// Open block `block_id`, chained to `prev_block_id`.
    Open { prev_block_id: u32, block_id: u32 },
    /// Every block is written: stop.
    StorageFull,
}

/// A push that the packer refused in a way the loop cannot go on from.
#[derive(Copy, Clone, Debug, PartialEq, Eq, Structural)]
pub enum PackerFault {
    /// The packer could not hold the value.
    Overflow,
    /// The packer was already closed.
    Finished,
}

/// Whether a push filled the block, or why the loop cannot go on.
pub open spec fn spec_push_outcome(r: PushResult) -> Result<bool, PackerFault> {
    match r {
        PushResult::Success => Ok(false),
        PushResult::Full => Ok(true),
        PushResult::Overflow => Err(PackerFault::Overflow),
        PushResult::Finished => Err(PackerFault::Finished),
    }
}

/// One push of `d` to packer `p0`, leaving it as `p1`, whose answer made
/// into the loop's terms is `r`.
pub open spec fn spec_one_push<P: BlockPacker>(p0: P, p1: P, d: i32, r: Result<bool, PackerFault>) -> bool {
    exists|a: PushResult| #![trigger p0.spec_push(p1, d, a)] p0.spec_push(p1, d, a) && r == spec_push_outcome(a)
}

/// The pushes of a measurement: its differences to the previous values
/// `prevs` go to the packer, the pressure first; of both channels the
/// temperature follows only while the block has room, and only then becomes
/// the channel's previous value. The answer is the last push's.
pub open spec fn spec_measurement_pushed<P: BlockPacker>(
    prevs: Seq<i32>,
    new_prevs: Seq<i32>,
    p0: P,
    p_fin: P,
    item: FData,
    r: Result<bool, PackerFault>,
) -> bool {
    match item {
        FData::Pressure(v) => new_prevs == prevs.update(0, v) && spec_one_push(
            p0,
            p_fin,
            spec_diff(v, prevs[0]),
            r,
        ),
        FData::Temperature(v) => new_prevs == prevs.update(1, v) && spec_one_push(
            p0,
            p_fin,
            spec_diff(v, prevs[1]),
            r,
        ),
        FData::Both(p, t) => exists|mid: P, a1: PushResult|
            #![trigger p0.spec_push(mid, spec_diff(p, prevs[0]), a1)]
            p0.spec_push(mid, spec_diff(p, prevs[0]), a1) && (spec_push_outcome(a1) == Ok::<
                bool,
                PackerFault,
            >(false) ==> new_prevs == prevs.update(0, p).update(1, t) && spec_one_push(
                mid,
                p_fin,
                spec_diff(t, prevs[1]),
                r,
            )) && (spec_push_outcome(a1) != Ok::<bool, PackerFault>(false) ==> new_prevs
                == prevs.update(0, p) && p_fin == mid && r == spec_push_outcome(a1)),
    }
}

pub fn push_outcome(r: PushResult) -> (o: Result<bool, PackerFault>)
    ensures
        o == spec_push_outcome(r),
        r == PushResult::Success ==> o == Ok::<bool, PackerFault>(false),
        r == PushResult::Full ==> o == Ok::<bool, PackerFault>(true),
        r == PushResult::Overflow ==> o == Err::<bool, PackerFault>(PackerFault::Overflow),
        r == PushResult::Finished ==> o == Err::<bool, PackerFault>(PackerFault::Finished),
{
    match r {
        PushResult::Success => Ok(false),
        PushResult::Full => Ok(true),
        PushResult::Overflow => Err(PackerFault::Overflow),
        PushResult::Finished => Err(PackerFault::Finished),
    }
}

/// The difference stored for `value` after `prev`, with wrap-around.
pub open spec fn spec_diff(value: i32, prev: i32) -> i32 {
    value.wrapping_sub(prev)
}

/// The state of the packing loop between measurements.
pub struct PackerState {
    block_id: u32,
    prevs: [i32; 2],
    await_both: bool,
}

impl PackerState {
    pub closed spec fn spec_block_id(&self) -> u32 {
        self.block_id
    }

    pub closed spec fn spec_prevs(&self) -> Seq<i32> {
        self.prevs@
    }

    pub closed spec fn spec_await_both(&self) -> bool {
        self.await_both
    }

    /// The chain always starts at block 0.
    pub fn new() -> (r: Self)
        ensures
            r.spec_block_id() == 0,
            r.spec_prevs() == seq![0i32, 0i32],
            r.spec_await_both(),
    {
        let r = PackerState { block_id: 0, prevs: [0, 0], await_both: true };
        proof {
            assert(r.prevs@ =~= seq![0i32, 0i32]);
        }
        r
    }

    /// Opens the next block where the storage has room: the differences start
    /// from zero again and the block waits for a measurement of both channels.
    pub fn start_block(&mut self, used_blocks: u32, total_blocks: u32) -> (r: BlockStart)
        ensures
            used_blocks >= total_blocks ==> r == BlockStart::StorageFull && *final(self) == *old(
                self,
            ),
            used_blocks < total_blocks ==> {
                &&& r == BlockStart::Open {
                    prev_block_id: if old(self).spec_block_id() > 0 {
                        (old(self).spec_block_id() - 1) as u32
                    } else {
                        0
                    },
                    block_id: old(self).spec_block_id(),
                }
                &&& final(self).spec_block_id() == old(self).spec_block_id()
                &&& final(self).spec_prevs() == seq![0i32, 0i32]
                &&& final(self).spec_await_both()
            },
    {
        if used_blocks >= total_blocks {
            return BlockStart::StorageFull;
        }
        let prev_block_id = if self.block_id > 0 {
            self.block_id - 1
        } else {
            0
        };
        self.prevs = [0, 0];
        self.await_both = true;
        proof {
            assert(self.prevs@ =~= seq![0i32, 0i32]);
        }
        BlockStart::Open { prev_block_id, block_id: self.block_id }
    }

    /// Whether the block takes `item`: the first one of a block must hold both
    /// channels, and others are passed over until it comes.
    pub fn accepts(&mut self, item: &FData) -> (r: bool)
        ensures
            r == !(old(self).spec_await_both() && item.spec_channel() != FChannel::Both),
            r ==> !final(self).spec_await_both(),
            !r ==> final(self).spec_await_both() == old(self).spec_await_both(),
            final(self).spec_block_id() == old(self).spec_block_id(),
            final(self).spec_prevs() == old(self).spec_prevs(),
    {
        if self.await_both && !matches!(item, FData::Both(_, _)) {
            false
        } else {
            self.await_both = false;
            true
        }
    }

    /// The difference of `value` to the channel's previous value, which it
    /// then replaces.
    pub fn diff(&mut self, channel: FChannel, value: i32) -> (r: i32)
        requires
            channel != FChannel::Both,
        ensures
            r == spec_diff(value, old(self).spec_prevs()[channel.spec_index()]),
            final(self).spec_prevs() == old(self).spec_prevs().update(channel.spec_index(), value),
            final(self).spec_block_id() == old(self).spec_block_id(),
            final(self).spec_await_both() == old(self).spec_await_both(),
    {
        let i = channel.index();
        let prev = self.prevs[i];
        self.prevs[i] = value;
        value.wrapping_sub(prev)
    }

    /// Hands an accepted measurement to `packer` as differences and says
    /// whether the block is full. Of a measurement of both channels the
    /// pressure goes first; the temperature follows only while the block has
    /// room, and only then becomes the channel's previous value.
    pub fn push_measurement<P: BlockPacker>(&mut self, packer: &mut P, item: FData) -> (r: Result<
        bool,
        PackerFault,
    >)
        ensures
            spec_measurement_pushed(
                old(self).spec_prevs(),
                final(self).spec_prevs(),
                *old(packer),
                *final(packer),
                item,
                r,
            ),
            final(self).spec_block_id() == old(self).spec_block_id(),
            final(self).spec_await_both() == old(self).spec_await_both(),
            final(self).spec_prevs().len() == 2,
            item matches FData::Pressure(v) ==> final(self).spec_prevs() == old(
                self,
            ).spec_prevs().update(0, v),
            item matches FData::Temperature(v) ==> final(self).spec_prevs() == old(
                self,
            ).spec_prevs().update(1, v),
            item matches FData::Both(p, t) ==> {
                &&& final(self).spec_prevs()[0] == p
                &&& (final(self).spec_prevs()[1] == t || final(self).spec_prevs()[1] == old(
                    self,
                ).spec_prevs()[1])
                &&& r == Ok::<bool, PackerFault>(false) ==> final(self).spec_prevs()[1] == t
            },
    {
        let ghost p0 = *packer;
        let ghost prevs = self.spec_prevs();
        match item {
            FData::Pressure(v) => {
                let d = self.diff(FChannel::Pressure, v);
                let a = packer.push_val(d);
                proof {
                    assert(p0.spec_push(*packer, d, a));
                }
                push_outcome(a)
            },
            FData::Temperature(v) => {
                let d = self.diff(FChannel::Temperature, v);
                let a = packer.push_val(d);
                proof {
                    assert(p0.spec_push(*packer, d, a));
                }
                push_outcome(a)
            },
            FData::Both(p, t) => {
                let dp = self.diff(FChannel::Pressure, p);
                let a1 = packer.push_val(dp);
                let ghost mid = *packer;
                match push_outcome(a1) {
                    Ok(false) => {
                        let dt = self.diff(FChannel::Temperature, t);
                        let a2 = packer.push_val(dt);
                        proof {
                            assert(mid.spec_push(*packer, dt, a2));
                            assert(p0.spec_push(mid, dp, a1));
                        }
                        push_outcome(a2)
                    },
                    other => {
                        proof {
                            assert(p0.spec_push(mid, dp, a1));
                        }
                        other
                    },
                }
            },
        }
    }

    /// After a block went to the storage: whether the loop goes on, with the
    /// next block id, or stops because every block is written.
    pub fn block_stored(&mut self, used_blocks: u32, total_blocks: u32) -> (r: bool)
        requires
            used_blocks < total_blocks ==> old(self).spec_block_id() < u32::MAX,
        ensures
            r == (used_blocks < total_blocks),
            r ==> final(self).spec_block_id() == old(self).spec_block_id() + 1,
            !r ==> final(self).spec_block_id() == old(self).spec_block_id(),
            final(self).spec_prevs() == old(self).spec_prevs(),
            final(self).spec_await_both() == old(self).spec_await_both(),
    {
        if used_blocks >= total_blocks {
            false
        } else {
            self.block_id = self.block_id + 1;
            true
        }
    }
}

} // verus!

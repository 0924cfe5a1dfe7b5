//! Pages of difference-coded samples and the writer that hands them out and
//! takes them back.
//!
//! Single-precision values (the reference frequency, the CPU temperature, the
//! battery voltage) are carried by their bits; the packing and the flash access
//! belong to the caller, which hands in what they gave.

use vstd::prelude::*;

use crate::bench::{BlockPacker, PushResult};
use crate::workmodes::FChannel;

verus! {

/// The difference of a sample to the previous one of its channel, both read as
/// two's complement and subtracted with wrap-around.
pub open spec fn sample_diff(r: u32, prev: u32) -> i32 {
    (r as i32).wrapping_sub(prev as i32)
}

/// The id of the block before `page_number`, 0 for the first block.
pub open spec fn spec_prev_block_id(page_number: u32) -> u32 {
    if page_number == 0 {
        0
    } else {
        (page_number - 1) as u32
    }
}

/// Room that the page keeps free beyond the packet header.
pub const PAGE_RESERVE_BYTES: usize = 128;

/// How many samples a page of `page_size` bytes takes: what is left after the
/// header and the reserve, in 4-byte samples, and at least one.
pub open spec fn spec_max_samples(page_size: nat, header_size: nat) -> nat {
    let room: int = page_size - (header_size + PAGE_RESERVE_BYTES);
    let n: int = if room > 0 {
        room / 4
    } else {
        0
    };
    if n >= 1 {
        n as nat
    } else {
        1
    }
}

/// What a page holds, as values.
pub struct DataBlockView {
    pub page_number: u32,
    pub page_size: nat,
    pub timestamp: u64,
    pub f_ref: u32,
    pub base_interval_ms: u32,
    pub interleave_ratio: Seq<u32>,
    pub targets: Seq<u32>,
    pub t_cpu: u32,
    pub v_bat: u32,
    pub samples: Seq<i32>,
    pub max_samples: nat,
    pub dest_page: u32,
    pub prevs: Seq<u32>,
}

/// A page being filled with samples before it is packed and written.
pub struct DataBlock {
    page_number: u32,
    page_size: usize,
    timestamp: u64,
    f_ref: u32,
    base_interval_ms: u32,
    interleave_ratio: [u32; 2],
    targets: [u32; 2],
    t_cpu: u32,
    v_bat: u32,
    samples: Vec<i32>,
    max_samples: usize,
    dest_page: u32,
    prevs: [u32; 2],
}

impl View for DataBlock {
    type V = DataBlockView;

    closed spec fn view(&self) -> DataBlockView {
        DataBlockView {
            page_number: self.page_number,
            page_size: self.page_size as nat,
            timestamp: self.timestamp,
            f_ref: self.f_ref,
            base_interval_ms: self.base_interval_ms,
            interleave_ratio: self.interleave_ratio@,
            targets: self.targets@,
            t_cpu: self.t_cpu,
            v_bat: self.v_bat,
            samples: self.samples@,
            max_samples: self.max_samples as nat,
            dest_page: self.dest_page,
            prevs: self.prevs@,
        }
    }
}

impl DataBlock {
    /// Takes the targets, CPU temperature and battery voltage of the measurement
    /// state into the page's header.
    pub fn write_header(&mut self, targets: [u32; 2], t_cpu: u32, v_bat: u32)
        ensures
            final(self)@ == (DataBlockView { targets: targets@, t_cpu, v_bat, ..old(self)@ }),
    {
        self.targets = targets;
        self.t_cpu = t_cpu;
        self.v_bat = v_bat;
    }

    /// Appends a sample of `channel`: the difference to the channel's previous
    /// result, or 0 where there was no result; a result becomes the channel's
    /// previous one. Returns whether the page is full.
    pub fn push_data(&mut self, result: Option<u32>, channel: FChannel) -> (full: bool)
        requires
            channel != FChannel::Both,
        ensures
            final(self)@.samples == old(self)@.samples.push(
                match result {
                    Some(r) => sample_diff(r, old(self)@.prevs[channel.spec_index()]),
                    None => 0i32,
                },
            ),
            final(self)@.prevs == match result {
                Some(r) => old(self)@.prevs.update(channel.spec_index(), r),
                None => old(self)@.prevs,
            },
            final(self)@.page_number == old(self)@.page_number,
            final(self)@.max_samples == old(self)@.max_samples,
            final(self)@.dest_page == old(self)@.dest_page,
            final(self)@.targets == old(self)@.targets,
            full == (final(self)@.samples.len() >= final(self)@.max_samples),
    {
        let ch = channel.index();
        let v: i32 = match result {
            Some(r) => {
                let prev = self.prevs[ch];
                self.prevs[ch] = r;
                (r as i32).wrapping_sub(prev as i32)
            },
            None => 0,
        };
        self.samples.push(v);
        self.samples.len() >= self.max_samples
    }

    /// The id of the block that precedes this one.
    pub fn prev_block_id(&self) -> (r: u32)
        ensures
            r == spec_prev_block_id(self@.page_number),
    {
        match self.page_number.checked_sub(1) {
            Some(p) => p,
            None => 0,
        }
    }

    pub fn page_number(&self) -> (r: u32)
        ensures
            r == self@.page_number,
    {
        self.page_number
    }

    pub fn dest_page(&self) -> (r: u32)
        ensures
            r == self@.dest_page,
    {
        self.dest_page
    }

    pub fn samples(&self) -> (r: &[i32])
        ensures
            r@ == self@.samples,
    {
        self.samples.as_slice()
    }
}

/// Settings that a new page takes.
#[derive(Copy, Clone, Debug)]
pub struct PageSettings {
    pub base_interval_ms: u32,
    pub interleave_ratio: [u32; 2],
    /// The reference frequency already scaled by the writer's multiplier, by
    /// its bits.
    pub f_ref: u32,
}

/// Why no page could be handed out.
#[derive(Copy, Clone, Debug, PartialEq, Eq, Structural)]
pub enum PageError {
    /// No empty page is left, or a page is already out.
    OutOfMemory,
    /// The settings could not be read in time.
    Timeout,
}

/// How the write of a page ended.
#[derive(Copy, Clone, Debug, PartialEq, Eq, Structural)]
pub enum PageWriteResult {
    Succes(u32),
    Fail(u32),
}

/// Hands out one page at a time, numbered by the flash page it goes to.
pub struct FlashDiffWriter {
    next_page_number: u32,
    fref_mul: u32,
    page_aqured: bool,
}

impl FlashDiffWriter {
    pub closed spec fn spec_next_page_number(&self) -> u32 {
        self.next_page_number
    }

    pub closed spec fn spec_page_aqured(&self) -> bool {
        self.page_aqured
    }

    pub closed spec fn spec_fref_mul(&self) -> u32 {
        self.fref_mul
    }

    /// A writer that starts its search at page 0 and has no page out.
    /// `fref_mul` is the bits of the multiplier of the reference frequency.
    pub fn new(fref_mul: u32) -> (r: Self)
        ensures
            r.spec_next_page_number() == 0,
            !r.spec_page_aqured(),
            r.spec_fref_mul() == fref_mul,
    {
        FlashDiffWriter { next_page_number: 0, fref_mul, page_aqured: false }
    }

    /// Where the search for the next empty page starts.
    pub fn next_page_number(&self) -> (r: u32)
        ensures
            r == self.spec_next_page_number(),
    {
        self.next_page_number
    }

    /// The bits of the reference frequency multiplier.
    pub fn fref_mul(&self) -> (r: u32)
        ensures
            r == self.spec_fref_mul(),
    {
        self.fref_mul
    }

    /// Whether a page is out and not yet written back.
    pub fn page_aqured(&self) -> (r: bool)
        ensures
            r == self.spec_page_aqured(),
    {
        self.page_aqured
    }

    /// Hands out page `page_number` when none is out. `next_empty` is the first
    /// empty flash page from `next_page_number()` on, `settings` what the
    /// settings gave (`None` where they could not be read in time).
    ///
    /// With a page out: `OutOfMemory`, nothing changes. Without an empty page:
    /// `OutOfMemory`. Without settings: `Timeout`, the search position moved to
    /// the empty page. Else the page goes to the empty flash page, the search
    /// goes on after it, and the page counts as out.
    pub fn try_create_new_page(
        &mut self,
        page_number: u32,
        next_empty: Option<u32>,
        settings: Option<PageSettings>,
        page_size: usize,
        header_size: usize,
        timestamp: u64,
    ) -> (r: Result<DataBlock, PageError>)
        requires
            header_size + PAGE_RESERVE_BYTES <= usize::MAX,
            next_empty matches Some(ep) ==> ep < u32::MAX,
        ensures
            old(self).spec_page_aqured() ==> r == Err::<DataBlock, PageError>(PageError::OutOfMemory)
                && *final(self) == *old(self),
            !old(self).spec_page_aqured() && next_empty is None ==> r == Err::<DataBlock, PageError>(
                PageError::OutOfMemory,
            ) && *final(self) == *old(self),
            !old(self).spec_page_aqured() && next_empty is Some && settings is None ==> r
                == Err::<DataBlock, PageError>(PageError::Timeout)
                && final(self).spec_next_page_number() == next_empty->0
                && !final(self).spec_page_aqured()
                && final(self).spec_fref_mul() == old(self).spec_fref_mul(),
            !old(self).spec_page_aqured() && next_empty is Some && settings is Some ==> {
                let ep = next_empty->0;
                let s = settings->0;
                &&& r is Ok
                &&& r->Ok_0@ == (DataBlockView {
                    page_number,
                    page_size: page_size as nat,
                    timestamp,
                    f_ref: s.f_ref,
                    base_interval_ms: s.base_interval_ms,
                    interleave_ratio: s.interleave_ratio@,
                    targets: seq![0u32, 0u32],
                    t_cpu: 0,
                    v_bat: 0,
                    samples: Seq::empty(),
                    max_samples: spec_max_samples(page_size as nat, header_size as nat),
                    dest_page: ep,
                    prevs: seq![0u32, 0u32],
                })
                &&& final(self).spec_next_page_number() == ep + 1
                &&& final(self).spec_page_aqured()
                &&& final(self).spec_fref_mul() == old(self).spec_fref_mul()
            },
    {
        if self.page_aqured {
            return Err(PageError::OutOfMemory);
        }
        let ep = match next_empty {
            Some(ep) => ep,
            None => {
                return Err(PageError::OutOfMemory);
            },
        };
        self.next_page_number = ep;
        let s = match settings {
            Some(s) => s,
            None => {
                return Err(PageError::Timeout);
            },
        };
        let room = page_size.saturating_sub(header_size + PAGE_RESERVE_BYTES);
        let n = room / 4;
        let max_samples = if n >= 1 {
            n
        } else {
            1
        };
        let targets: [u32; 2] = [0, 0];
        let prevs: [u32; 2] = [0, 0];
        let res = DataBlock {
            page_number,
            page_size,
            timestamp,
            f_ref: s.f_ref,
            base_interval_ms: s.base_interval_ms,
            interleave_ratio: s.interleave_ratio,
            targets,
            t_cpu: 0,
            v_bat: 0,
            samples: Vec::new(),
            max_samples,
            dest_page: self.next_page_number,
            prevs,
        };
        proof {
            assert(res@.targets =~= seq![0u32, 0u32]);
            assert(res@.prevs =~= seq![0u32, 0u32]);
        }
        self.next_page_number = self.next_page_number + 1;
        self.page_aqured = true;
        Ok(res)
    }

    /// Takes a page back after its packing and writing: `overflowed` where the
    /// packer overflowed, else `written` is `None` where no packet came out, or
    /// whether the flash write succeeded. Succeeds exactly when all went well;
    /// the page no longer counts as out either way.
    pub fn write(&mut self, page: DataBlock, overflowed: bool, written: Option<bool>) -> (r:
        PageWriteResult)
        ensures
            r == if !overflowed && written == Some(true) {
                PageWriteResult::Succes(page@.page_number)
            } else {
                PageWriteResult::Fail(page@.page_number)
            },
            !final(self).spec_page_aqured(),
            final(self).spec_next_page_number() == old(self).spec_next_page_number(),
            final(self).spec_fref_mul() == old(self).spec_fref_mul(),
    {
        let id = page.page_number;
        self.page_aqured = false;
        if overflowed {
            return PageWriteResult::Fail(id);
        }
        match written {
            Some(true) => PageWriteResult::Succes(id),
            _ => PageWriteResult::Fail(id),
        }
    }
}

/// The pushes of a page's samples to a packer: the samples in order, the
/// packer going from `ps[k]` to `ps[k + 1]` with answer `answers[k]`, while
/// each push went through; the packing stops at the first answer that is not
/// a success, or after the last sample. It overflowed where that answer was
/// `Overflow`.
pub open spec fn spec_page_packed<P: BlockPacker>(
    samples: Seq<i32>,
    ps: Seq<P>,
    answers: Seq<PushResult>,
    overflowed: bool,
) -> bool {
    let m = answers.len();
    &&& ps.len() == m + 1
    &&& m <= samples.len()
    &&& forall|k: int|
        0 <= k < m ==> (#[trigger] ps[k]).spec_push(ps[k + 1], samples[k], answers[k])
    &&& forall|k: int| 0 <= k < m - 1 ==> #[trigger] answers[k] == PushResult::Success
    &&& m < samples.len() ==> m > 0 && answers[m - 1] != PushResult::Success
    &&& overflowed == (m > 0 && answers[m - 1] == PushResult::Overflow)
}

/// Pushes the samples of `page` to `packer`, which the caller built from the
/// page's fields: until the packer is full or finished, or all samples are
/// in. Says whether the packer overflowed; that page is then lost.
pub fn pack_page<P: BlockPacker>(page: &DataBlock, packer: &mut P) -> (overflowed: bool)
    ensures
        exists|ps: Seq<P>, answers: Seq<PushResult>|
            #![trigger spec_page_packed(page@.samples, ps, answers, overflowed)]
            spec_page_packed(page@.samples, ps, answers, overflowed) && ps[0] == *old(packer)
                && ps.last() == *final(packer),
{
    let ghost mut ps: Seq<P> = seq![*packer];
    let ghost mut answers: Seq<PushResult> = Seq::empty();
    let mut i: usize = 0;
    while i < page.samples.len()
        invariant
            i <= page.samples@.len(),
            answers.len() == i,
            ps.len() == i + 1,
            ps[0] == *old(packer),
            ps.last() == *packer,
            page@.samples == page.samples@,
            forall|k: int|
                0 <= k < i ==> (#[trigger] ps[k]).spec_push(ps[k + 1], page@.samples[k], answers[k]),
            forall|k: int| 0 <= k < i ==> #[trigger] answers[k] == PushResult::Success,
        decreases page.samples@.len() - i,
    {
        let ghost before = *packer;
        let a = packer.push_val(page.samples[i]);
        proof {
            let ps0 = ps;
            let an0 = answers;
            ps = ps.push(*packer);
            answers = answers.push(a);
            assert forall|k: int| 0 <= k < i + 1 implies (#[trigger] ps[k]).spec_push(
                ps[k + 1],
                page@.samples[k],
                answers[k],
            ) by {
                if k < i {
                    assert(ps[k] == ps0[k]);
                    assert(ps[k + 1] == ps0[k + 1]);
                    assert(answers[k] == an0[k]);
                } else {
                    assert(ps[k] == before);
                }
            }
            assert forall|k: int| 0 <= k < i implies #[trigger] answers[k] == PushResult::Success by {
                assert(answers[k] == an0[k]);
            }
        }
        match a {
            PushResult::Success => {},
            PushResult::Overflow => {
                proof {
                    assert(spec_page_packed(page@.samples, ps, answers, true));
                }
                return true;
            },
            _ => {
                proof {
                    assert(spec_page_packed(page@.samples, ps, answers, false));
                }
                return false;
            },
        }
        i = i + 1;
    }
    proof {
        assert(spec_page_packed(page@.samples, ps, answers, false));
    }
    false
}

} // verus!

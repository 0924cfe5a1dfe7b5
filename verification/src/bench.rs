//! The host benchmark of the block packing: it packs a series of samples,
//! page after page, until enough passes and at least one full page are done.
//!
//! The packer is the caller's; this module decides what is pushed, when a page
//! is finished, and what is counted.

use vstd::prelude::*;

verus! {

/// One bit step of the bit-reflected CRC-32 register, polynomial 0xEDB88320.
pub open spec fn crc32_bit(c: u32) -> u32 {
    if c & 1 == 1 {
        (c >> 1u32) ^ 0xEDB8_8320u32
    } else {
        c >> 1u32
    }
}

/// `n` bit steps of the CRC-32 register.
pub open spec fn crc32_bits(c: u32, n: nat) -> u32
    decreases n,
{
    if n == 0 {
        c
    } else {
        crc32_bits(crc32_bit(c), (n - 1) as nat)
    }
}

/// The CRC-32 register after the bytes `s`, each taken in with eight bit
/// steps after it is added to the low byte.
pub open spec fn crc32_update(c: u32, s: Seq<u8>) -> u32
    decreases s.len(),
{
    if s.len() == 0 {
        c
    } else {
        crc32_update(crc32_bits(c ^ (s[0] as u32), 8), s.drop_first())
    }
}

/// The CRC-32 of the bytes (ISO-HDLC): the register starts all ones and is
/// inverted at the end.
pub open spec fn crc32(data: Seq<u8>) -> u32 {
    !crc32_update(0xFFFF_FFFFu32, data)
}

/// `crc32fast::hash`: the CRC-32 of the bytes, as `crc32` states it (the
/// crate's table holds the eight bit steps of each byte value).
#[verifier::external_body]
fn crc32_hash(data: &[u8]) -> (r: u32)
    ensures
        r == crc32(data@),
{
    crc32fast::hash(data)
}

/// The checksum stored with a packed page: the CRC-32 with all bits inverted,
/// as the device's hardware unit gives it.
pub fn packet_crc(data: &[u8]) -> (r: u32)
    ensures
        r == !crc32(data@),
{
    !crc32_hash(data)
}

/// Bytes of a page.
pub const PAGE_SIZE: usize = 4096;

/// Interval of the samples, in milliseconds.
pub const BASE_INTERVAL_MS: u32 = 20;

/// Bits of the reference frequency the pages record, 24 MHz.
pub const FREF_HZ_BITS: u32 = 0x4bb7_1b00;

/// Most passes over the samples before the benchmark gives up.
pub const MAX_LOOPS_SAFETY: usize = 50_000;

/// What a packer is built with for one page.
#[derive(Copy, Clone, Debug, PartialEq, Eq, Structural)]
pub struct PacketParams {
    pub prev_block_id: u32,
    pub this_block_id: u32,
    pub size: usize,
    pub timestamp: u64,
    pub fref: u32,
    pub base_interval_ms: u32,
    pub p_write_devider: u32,
    pub t_write_devider: u32,
}

/// The packer settings of page `page_id`: chained to the page before (0 for
/// the first), stamped with its start time.
pub open spec fn spec_packet_params(page_id: u32) -> PacketParams {
    PacketParams {
        prev_block_id: if page_id == 0 {
            0
        } else {
            (page_id - 1) as u32
        },
        this_block_id: page_id,
        size: PAGE_SIZE,
        timestamp: (page_id * BASE_INTERVAL_MS) as u64,
        fref: FREF_HZ_BITS,
        base_interval_ms: BASE_INTERVAL_MS,
        p_write_devider: 1,
        t_write_devider: 1,
    }
}

pub fn packet_params(page_id: u32) -> (r: PacketParams)
    ensures
        r == spec_packet_params(page_id),
{
    PacketParams {
        prev_block_id: page_id.saturating_sub(1),
        this_block_id: page_id,
        size: PAGE_SIZE,
        timestamp: {
            assert(page_id as u64 * BASE_INTERVAL_MS as u64 <= u64::MAX) by (nonlinear_arith)
                requires
                    page_id <= u32::MAX,
            ;
            page_id as u64 * BASE_INTERVAL_MS as u64
        },
        fref: FREF_HZ_BITS,
        base_interval_ms: BASE_INTERVAL_MS,
        p_write_devider: 1,
        t_write_devider: 1,
    }
}

/// What a packer answers to a pushed value.
#[derive(Copy, Clone, Debug, PartialEq, Eq, Structural)]
pub enum PushResult {
    Success,
    Full,
    Overflow,
    Finished,
}

/// A packer of one page.
pub trait BlockPacker: Sized {
    /// Whether pushing `diff` answers `r` and leaves the packer as `after`. A
    /// packer that does not describe its pushes keeps this open.
    open spec fn spec_push(&self, after: Self, diff: i32, r: PushResult) -> bool {
        true
    }

    /// Whether finishing the packer gives `r`. A packer that does not
    /// describe it keeps this open.
    open spec fn spec_finalize(&self, r: Option<Vec<u8>>) -> bool {
        true
    }

    fn push_val(&mut self, diff: i32) -> (r: PushResult)
        ensures
            old(self).spec_push(*final(self), diff, r),
    ;

    /// The packed page, if it could be made.
    fn finalize(self) -> (r: Option<Vec<u8>>)
        ensures
            self.spec_finalize(r),
    ;
}

/// Makes the packer of each page.
pub trait PackerFactory: Sized {
    type Packer: BlockPacker;

    /// Whether making a packer for `params` gives `packer` and leaves the
    /// factory as `after`. A factory that does not describe it keeps this
    /// open.
    open spec fn spec_create(&self, after: Self, params: PacketParams, packer: Self::Packer) -> bool {
        true
    }

    fn create(&mut self, params: PacketParams) -> (r: Self::Packer)
        ensures
            old(self).spec_create(*final(self), params, r),
    ;
}

/// Counts of a benchmark run.
#[derive(Copy, Clone, Debug, PartialEq, Eq, Structural)]
pub struct Stats {
    pub dataset_loops: usize,
    pub sample_count: usize,
    pub block_count: usize,
    pub input_bytes: usize,
    pub packed_bytes: usize,
}

/// Why a run stopped.
#[derive(Copy, Clone, Debug, PartialEq, Eq, Structural)]
pub enum BenchError {
    /// The packer overflowed.
    Overflow,
    /// The packer said it was finished before the page was full.
    Finished,
    /// A full page could not be packed.
    FinalizeFailed,
    /// No full page came out before the largest number of passes.
    SafetyLimit,
}

/// Where a benchmark run stands between two pushes: the counts so far, the
/// sample pushed last, the page being packed, and the place in the pass.
#[derive(Copy, Clone, Debug, PartialEq, Eq, Structural)]
pub struct BenchRun {
    pub stats: Stats,
    pub prev: u32,
    pub page_id: u32,
    pub pos: usize,
}

/// A run still going, or its answer.
pub enum BenchState {
    Going(BenchRun),
    Ended(Result<Stats, BenchError>),
}

/// One push of a run as it happened: the difference pushed, the packer's
/// answer, and, where the answer was `Full`, what finishing the page gave.
pub type BenchPush = (i32, PushResult, Option<Vec<u8>>);

/// A run before its first push.
pub open spec fn spec_bench_start() -> BenchRun {
    BenchRun {
        stats: Stats {
            dataset_loops: 0,
            sample_count: 0,
            block_count: 0,
            input_bytes: 0,
            packed_bytes: 0,
        },
        prev: 0,
        page_id: 0,
        pos: 0,
    }
}

/// The difference pushed next: the next sample less the one before, both
/// read as two's complement, with wrap-around.
pub open spec fn spec_bench_diff(samples: Seq<u32>, s: BenchRun) -> i32 {
    (samples[s.pos as int] as i32).wrapping_sub(s.prev as i32)
}

/// After a push: the next place in the pass; at the end of a pass the pass
/// is counted, and the run stops at the largest number of passes, or with
/// its counts once there were enough passes and a page is done.
pub open spec fn spec_bench_advance(n: nat, min_loops: nat, s: BenchRun) -> BenchState {
    if s.pos + 1 < n {
        BenchState::Going(BenchRun { pos: (s.pos + 1) as usize, ..s })
    } else {
        let st = Stats { dataset_loops: (s.stats.dataset_loops + 1) as usize, ..s.stats };
        if st.dataset_loops >= MAX_LOOPS_SAFETY {
            BenchState::Ended(Err(BenchError::SafetyLimit))
        } else if st.dataset_loops >= min_loops && st.block_count > 0 {
            BenchState::Ended(Ok(st))
        } else {
            BenchState::Going(BenchRun { stats: st, pos: 0, ..s })
        }
    }
}

/// One push of the next sample with the packer's answer `a` (and, for
/// `Full`, the finished page `fin`): an overflow or a finished packer ends
/// the run with that error, a page that cannot be finished with
/// `FinalizeFailed`; a finished page is counted with its bytes and the next
/// page begins.
pub open spec fn spec_bench_step(
    samples: Seq<u32>,
    min_loops: nat,
    s: BenchRun,
    a: PushResult,
    fin: Option<Vec<u8>>,
) -> BenchState {
    let st = Stats {
        sample_count: (s.stats.sample_count + 1) as usize,
        input_bytes: (s.stats.input_bytes + 4) as usize,
        ..s.stats
    };
    let moved = BenchRun { stats: st, prev: samples[s.pos as int], ..s };
    match a {
        PushResult::Overflow => BenchState::Ended(Err(BenchError::Overflow)),
        PushResult::Finished => BenchState::Ended(Err(BenchError::Finished)),
        PushResult::Full => match fin {
            None => BenchState::Ended(Err(BenchError::FinalizeFailed)),
            Some(page) => spec_bench_advance(
                samples.len(),
                min_loops,
                BenchRun {
                    stats: Stats {
                        block_count: (st.block_count + 1) as usize,
                        packed_bytes: if st.packed_bytes + page@.len() > usize::MAX {
                            usize::MAX
                        } else {
                            (st.packed_bytes + page@.len()) as usize
                        },
                        ..st
                    },
                    page_id: if s.page_id < u32::MAX {
                        (s.page_id + 1) as u32
                    } else {
                        u32::MAX
                    },
                    ..moved
                },
            ),
        },
        PushResult::Success => spec_bench_advance(samples.len(), min_loops, moved),
    }
}

/// The state of a run after the pushes `log`.
pub open spec fn spec_bench_fold(samples: Seq<u32>, min_loops: nat, log: Seq<BenchPush>) -> BenchState
    decreases log.len(),
{
    if log.len() == 0 {
        BenchState::Going(spec_bench_start())
    } else {
        match spec_bench_fold(samples, min_loops, log.drop_last()) {
            BenchState::Going(s) => spec_bench_step(
                samples,
                min_loops,
                s,
                log.last().1,
                log.last().2,
            ),
            BenchState::Ended(r) => BenchState::Ended(r),
        }
    }
}

/// A whole run with answer `r`: the pushes `log` were made in turn while the
/// run went on, `sts[k]` being the state before push `k`; each pushed the
/// difference that state says, to the packer `pk[k].0`, which the push left
/// as `pk[k].1`; a `Full` page was finished from there. The packers are made
/// in turn by the factory, going from `fs[q]` to `fs[q + 1]` for packer
/// `made[q]` with the settings of page `q` (saturated); the first push goes
/// to the first packer, a push after a finished page to the next one, any
/// other push to the packer as the push before left it.
pub open spec fn spec_bench_run<F: PackerFactory>(
    samples: Seq<u32>,
    min_loops: nat,
    log: Seq<BenchPush>,
    sts: Seq<BenchRun>,
    pk: Seq<(F::Packer, F::Packer)>,
    made: Seq<F::Packer>,
    fs: Seq<F>,
    r: Result<Stats, BenchError>,
) -> bool {
    &&& log.len() >= 1
    &&& sts.len() == log.len()
    &&& pk.len() == log.len()
    &&& spec_bench_fold(samples, min_loops, log) == BenchState::Ended(r)
    &&& forall|k: int|
        0 <= k < log.len() ==> spec_bench_fold(samples, min_loops, log.take(k))
            == BenchState::Going(#[trigger] sts[k])
    &&& forall|k: int|
        0 <= k < log.len() ==> (#[trigger] log[k]).0 == spec_bench_diff(samples, sts[k])
            && pk[k].0.spec_push(pk[k].1, log[k].0, log[k].1) && (log[k].1 == PushResult::Full
            ==> pk[k].1.spec_finalize(log[k].2))
    &&& made.len() >= 1
    &&& fs.len() == made.len() + 1
    &&& forall|q: int|
        0 <= q < made.len() ==> (#[trigger] fs[q]).spec_create(
            fs[q + 1],
            spec_packet_params(if q <= u32::MAX { q as u32 } else { u32::MAX }),
            made[q],
        )
    &&& pk[0].0 == made[0]
    &&& forall|k: int|
        0 <= k < log.len() - 1 ==> (#[trigger] pk[k + 1]).0 == if log[k].1 == PushResult::Full {
            made[sts[k + 1].stats.block_count as int]
        } else {
            pk[k].1
        }
}

/// A run in progress, in the terms of `spec_bench_run`: the pushes `log`
/// so far have left it going as `run`, and the next push goes to `packer`.
#[verifier::opaque]
pub open spec fn spec_bench_partial<F: PackerFactory>(
    samples: Seq<u32>,
    min_loops: nat,
    log: Seq<BenchPush>,
    sts: Seq<BenchRun>,
    pk: Seq<(F::Packer, F::Packer)>,
    made: Seq<F::Packer>,
    fs: Seq<F>,
    run: BenchRun,
    packer: F::Packer,
) -> bool {
    &&& sts.len() == log.len()
    &&& pk.len() == log.len()
    &&& spec_bench_fold(samples, min_loops, log) == BenchState::Going(run)
    &&& forall|k: int|
        0 <= k < log.len() ==> spec_bench_fold(samples, min_loops, log.take(k))
            == BenchState::Going(#[trigger] sts[k])
    &&& forall|k: int|
        0 <= k < log.len() ==> (#[trigger] log[k]).0 == spec_bench_diff(samples, sts[k])
            && pk[k].0.spec_push(pk[k].1, log[k].0, log[k].1) && (log[k].1 == PushResult::Full
            ==> pk[k].1.spec_finalize(log[k].2))
    &&& forall|k: int|
        0 <= k < log.len() ==> (#[trigger] sts[k]).stats.block_count <= run.stats.block_count
    &&& made.len() == run.stats.block_count + 1
    &&& fs.len() == made.len() + 1
    &&& forall|q: int|
        0 <= q < made.len() ==> (#[trigger] fs[q]).spec_create(
            fs[q + 1],
            spec_packet_params(if q <= u32::MAX { q as u32 } else { u32::MAX }),
            made[q],
        )
    &&& log.len() == 0 ==> packer == made[0]
    &&& log.len() > 0 ==> pk[0].0 == made[0]
    &&& log.len() > 0 ==> packer == if log.last().1 == PushResult::Full {
        made[run.stats.block_count as int]
    } else {
        pk.last().1
    }
    &&& forall|k: int|
        0 <= k < log.len() - 1 ==> (#[trigger] pk[k + 1]).0 == if log[k].1 == PushResult::Full {
            made[sts[k + 1].stats.block_count as int]
        } else {
            pk[k].1
        }
}

/// The start of a run: no push yet, the first packer made for page 0.
proof fn lemma_bench_begin<F: PackerFactory>(
    samples: Seq<u32>,
    min_loops: nat,
    f0: F,
    f1: F,
    p0: F::Packer,
)
    requires
        f0.spec_create(f1, spec_packet_params(0), p0),
    ensures
        spec_bench_partial::<F>(
            samples,
            min_loops,
            Seq::empty(),
            Seq::empty(),
            Seq::empty(),
            seq![p0],
            seq![f0, f1],
            spec_bench_start(),
            p0,
        ),
{
    reveal(spec_bench_partial);
}

/// One more push, with the packer's answer, the finished page where it was
/// full, and the packers made so far: the run goes on in the terms of
/// `spec_bench_partial`, or has ended in those of `spec_bench_run`.
proof fn lemma_bench_extend<F: PackerFactory>(
    samples: Seq<u32>,
    min_loops: nat,
    log: Seq<BenchPush>,
    sts: Seq<BenchRun>,
    pk: Seq<(F::Packer, F::Packer)>,
    made: Seq<F::Packer>,
    fs: Seq<F>,
    run: BenchRun,
    pb: F::Packer,
    pa: F::Packer,
    a: PushResult,
    fin: Option<Vec<u8>>,
    made2: Seq<F::Packer>,
    fs2: Seq<F>,
)
    requires
        spec_bench_partial::<F>(samples, min_loops, log, sts, pk, made, fs, run, pb),
        pb.spec_push(pa, spec_bench_diff(samples, run), a),
        a == PushResult::Full ==> pa.spec_finalize(fin),
        a != PushResult::Full ==> fin is None,
        made2.len() >= made.len(),
        fs2.len() == made2.len() + 1,
        forall|i: int| 0 <= i < made.len() ==> made2[i] == made[i],
        forall|q: int|
            0 <= q < made2.len() ==> (#[trigger] fs2[q]).spec_create(
                fs2[q + 1],
                spec_packet_params(if q <= u32::MAX { q as u32 } else { u32::MAX }),
                made2[q],
            ),
        fs2[0] == fs[0],
    ensures
        ({
            let log2 = log.push((spec_bench_diff(samples, run), a, fin));
            let sts2 = sts.push(run);
            let pk2 = pk.push((pb, pa));
            &&& spec_bench_step(samples, min_loops, run, a, fin) matches BenchState::Ended(r)
                ==> spec_bench_run::<F>(samples, min_loops, log2, sts2, pk2, made2, fs2, r)
            &&& spec_bench_step(samples, min_loops, run, a, fin) matches BenchState::Going(run2)
                ==> (made2.len() == run2.stats.block_count + 1 ==> spec_bench_partial::<F>(
                samples,
                min_loops,
                log2,
                sts2,
                pk2,
                made2,
                fs2,
                run2,
                if a == PushResult::Full {
                    made2[run2.stats.block_count as int]
                } else {
                    pa
                },
            ))
        }),
{
    reveal(spec_bench_partial);
    let e = (spec_bench_diff(samples, run), a, fin);
    let log2 = log.push(e);
    let sts2 = sts.push(run);
    let pk2 = pk.push((pb, pa));
    lemma_bench_record(samples, min_loops, log, sts, run, e);
    assert(log2.drop_last() =~= log);
    assert forall|k: int| 0 <= k < log2.len() implies (#[trigger] log2[k]).0 == spec_bench_diff(
        samples,
        sts2[k],
    ) && pk2[k].0.spec_push(pk2[k].1, log2[k].0, log2[k].1) && (log2[k].1 == PushResult::Full
        ==> pk2[k].1.spec_finalize(log2[k].2)) by {
        if k < log.len() {
            assert(log2[k] == log[k]);
            assert(pk2[k] == pk[k]);
            assert(sts2[k] == sts[k]);
        }
    }
    assert forall|k: int| 0 <= k < log2.len() - 1 implies (#[trigger] pk2[k + 1]).0 == if log2[k].1
        == PushResult::Full {
        made2[sts2[k + 1].stats.block_count as int]
    } else {
        pk2[k].1
    } by {
        if k < log.len() - 1 {
            assert(pk2[k + 1] == pk[k + 1]);
            assert(log2[k] == log[k]);
            assert(pk2[k] == pk[k]);
            assert(sts2[k + 1] == sts[k + 1]);
            assert(sts[k + 1].stats.block_count < made.len());
        } else {
            assert(k == log.len() - 1);
            assert(sts2[k + 1] == run);
        }
    }
}

/// Packs `samples`, as differences to the sample before, over and over: at
/// least `min_loops` passes and until a page is full. A full page is packed and
/// counted and the next page begins. Fails as the packer fails, or once the
/// largest number of passes is reached. The packed bytes count saturates.
#[verifier::rlimit(50)]
pub fn run_benchmark<F: PackerFactory>(factory: &mut F, samples: &[u32], min_loops: usize) -> (r:
    Result<Stats, BenchError>)
    requires
        samples@.len() * MAX_LOOPS_SAFETY * 4 <= usize::MAX,
    ensures
        samples@.len() > 0 ==> exists|
            log: Seq<BenchPush>,
            sts: Seq<BenchRun>,
            pk: Seq<(F::Packer, F::Packer)>,
            made: Seq<F::Packer>,
            fs: Seq<F>,
        |
            #![trigger spec_bench_run::<F>(samples@, min_loops as nat, log, sts, pk, made, fs, r)]
            spec_bench_run::<F>(samples@, min_loops as nat, log, sts, pk, made, fs, r) && fs[0]
                == *old(factory) && fs.last() == *final(factory),
        r matches Ok(s) ==> {
            &&& s.dataset_loops >= min_loops
            &&& s.block_count >= 1
            &&& s.dataset_loops < MAX_LOOPS_SAFETY
            &&& s.sample_count == s.dataset_loops * samples@.len()
            &&& s.input_bytes == 4 * s.sample_count
            &&& s.block_count <= s.sample_count
        },
        samples@.len() == 0 ==> r == Err::<Stats, BenchError>(BenchError::SafetyLimit),
{
    let n = samples.len();
    if n == 0 {
        return Err(BenchError::SafetyLimit);
    }
    let ghost f0 = *factory;
    let mut run = BenchRun {
        stats: Stats {
            dataset_loops: 0,
            sample_count: 0,
            block_count: 0,
            input_bytes: 0,
            packed_bytes: 0,
        },
        prev: 0,
        page_id: 0,
        pos: 0,
    };
    let mut packer = factory.create(packet_params(0));
    let ghost mut log: Seq<BenchPush> = Seq::empty();
    let ghost mut sts: Seq<BenchRun> = Seq::empty();
    let ghost mut pk: Seq<(F::Packer, F::Packer)> = Seq::empty();
    let ghost mut made: Seq<F::Packer> = seq![packer];
    let ghost mut fs: Seq<F> = seq![f0, *factory];
    proof {
        lemma_bench_begin::<F>(samples@, min_loops as nat, f0, *factory, packer);
    }
    loop
        invariant
            n == samples@.len(),
            n > 0,
            n * MAX_LOOPS_SAFETY * 4 <= usize::MAX,
            run.pos < n,
            run.stats.dataset_loops < MAX_LOOPS_SAFETY,
            run.stats.sample_count == run.stats.dataset_loops * n + run.pos,
            run.stats.input_bytes == 4 * run.stats.sample_count,
            run.stats.block_count <= run.stats.sample_count,
            run.page_id == if run.stats.block_count <= u32::MAX {
                run.stats.block_count as int
            } else {
                u32::MAX as int
            },
            spec_bench_partial::<F>(samples@, min_loops as nat, log, sts, pk, made, fs, run, packer),
            made.len() == run.stats.block_count + 1,
            fs.len() == made.len() + 1,
            fs[0] == *old(factory),
            fs.last() == *factory,
            forall|q: int|
                0 <= q < made.len() ==> (#[trigger] fs[q]).spec_create(
                    fs[q + 1],
                    spec_packet_params(if q <= u32::MAX { q as u32 } else { u32::MAX }),
                    made[q],
                ),
        decreases MAX_LOOPS_SAFETY * n - run.stats.sample_count,
    {
        proof {
            vstd::arithmetic::mul::lemma_mul_inequality(
                run.stats.dataset_loops as int + 1,
                MAX_LOOPS_SAFETY as int,
                n as int,
            );
            vstd::arithmetic::mul::lemma_mul_is_distributive_add_other_way(
                n as int,
                run.stats.dataset_loops as int,
                1,
            );
            vstd::arithmetic::mul::lemma_mul_is_commutative(n as int, MAX_LOOPS_SAFETY as int);
            assert(4 * (MAX_LOOPS_SAFETY * n) <= usize::MAX) by (nonlinear_arith)
                requires
                    n * MAX_LOOPS_SAFETY * 4 <= usize::MAX,
            ;
        }
        let ghost before = run;
        let ghost pb = packer;
        let sample = samples[run.pos];
        let diff = (sample as i32).wrapping_sub(run.prev as i32);
        let answer = packer.push_val(diff);
        let ghost pa = packer;
        run.stats.sample_count = run.stats.sample_count + 1;
        run.stats.input_bytes = run.stats.input_bytes + 4;
        run.prev = sample;
        let ghost mut fin: Option<Vec<u8>> = None;
        let ghost made0 = made;
        let ghost fs0 = fs;
        match answer {
            PushResult::Success => {},
            PushResult::Full => {
                let full = packer;
                let page = full.finalize();
                proof {
                    fin = page;
                }
                let packed = match page {
                    Some(p) => p,
                    None => {
                        let r = Err(BenchError::FinalizeFailed);
                        proof {
                            lemma_bench_extend::<F>(samples@, min_loops as nat, log, sts, pk, made, fs, before, pb, pa, answer, fin, made, fs);
                        }
                        return r;
                    },
                };
                run.stats.block_count = run.stats.block_count + 1;
                run.stats.packed_bytes = run.stats.packed_bytes.saturating_add(packed.len());
                run.page_id = run.page_id.saturating_add(1);
                let ghost fb = *factory;
                packer = factory.create(packet_params(run.page_id));
                proof {
                    made = made.push(packer);
                    fs = fs.push(*factory);
                    assert forall|q: int| 0 <= q < made.len() implies (#[trigger] fs[q]).spec_create(
                        fs[q + 1],
                        spec_packet_params(if q <= u32::MAX { q as u32 } else { u32::MAX }),
                        made[q],
                    ) by {
                        if q < made.len() - 1 {
                            assert(fs[q] == fs0[q]);
                            assert(fs[q + 1] == fs0[q + 1]);
                            assert(made[q] == made0[q]);
                        } else {
                            assert(fs[q] == fb);
                        }
                    }
                }
            },
            PushResult::Overflow => {
                let r = Err(BenchError::Overflow);
                proof {
                    lemma_bench_extend::<F>(samples@, min_loops as nat, log, sts, pk, made, fs, before, pb, pa, answer, fin, made, fs);
                }
                return r;
            },
            PushResult::Finished => {
                let r = Err(BenchError::Finished);
                proof {
                    lemma_bench_extend::<F>(samples@, min_loops as nat, log, sts, pk, made, fs, before, pb, pa, answer, fin, made, fs);
                }
                return r;
            },
        }
        run.pos = run.pos + 1;
        if run.pos == n {
            run.pos = 0;
            run.stats.dataset_loops = run.stats.dataset_loops + 1;
        }
        proof {
            lemma_bench_extend::<F>(samples@, min_loops as nat, log, sts, pk, made0, fs0, before, pb, pa, answer, fin, made, fs);
            log = log.push((diff, answer, fin));
            sts = sts.push(before);
            pk = pk.push((pb, pa));
        }
        if run.pos == 0 {
            if run.stats.dataset_loops >= MAX_LOOPS_SAFETY {
                return Err(BenchError::SafetyLimit);
            }
            if run.stats.dataset_loops >= min_loops && run.stats.block_count > 0 {
                return Ok(run.stats);
            }
        }
    }
}

/// Recording one more push keeps the earlier states and makes the fold of
/// the longer log the step from the last state.
proof fn lemma_bench_record(
    samples: Seq<u32>,
    min_loops: nat,
    log: Seq<BenchPush>,
    sts: Seq<BenchRun>,
    s: BenchRun,
    e: BenchPush,
)
    requires
        sts.len() == log.len(),
        spec_bench_fold(samples, min_loops, log) == BenchState::Going(s),
        forall|k: int|
            0 <= k < log.len() ==> spec_bench_fold(samples, min_loops, log.take(k))
                == BenchState::Going(#[trigger] sts[k]),
    ensures
        spec_bench_fold(samples, min_loops, log.push(e)) == spec_bench_step(
            samples,
            min_loops,
            s,
            e.1,
            e.2,
        ),
        forall|k: int|
            0 <= k < log.len() + 1 ==> spec_bench_fold(samples, min_loops, log.push(e).take(k))
                == BenchState::Going(#[trigger] sts.push(s)[k]),
{
    assert(log.push(e).drop_last() =~= log);
    assert forall|k: int| 0 <= k < log.len() + 1 implies spec_bench_fold(
        samples,
        min_loops,
        log.push(e).take(k),
    ) == BenchState::Going(#[trigger] sts.push(s)[k]) by {
        if k < log.len() {
            assert(log.push(e).take(k) =~= log.take(k));
        } else {
            assert(log.push(e).take(k) =~= log);
        }
    }
}

} // verus!

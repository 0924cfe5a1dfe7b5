//! Block storage on one or two QSPI flash chips: blocks of the storage are
//! spread over the chips by the block mapper, and reads are split where they
//! cross a block or a 16 MiB address segment.

pub mod flash_config;
pub mod flash_log;
pub mod identification;
pub mod qspi_driver;

use vstd::prelude::*;

use crate::main_data_storage::backend::StorageBackend;
use crate::main_data_storage::geometry::{FlashBanks, StorageGeometry};
use crate::main_data_storage::mapper::{
    spec_block_bank, spec_block_local, BlockMapper, OffsetAddress,
};
use crate::main_data_storage::types::{StorageContext, StorageError, StorageMode};
use crate::qspi::config::{QspiConfig, QspiConfigView};
use crate::qspi::iqspi::{IQspi, QspiOp};
use crate::qspi::types::{AddressSize, ClockMode, QspiError, SampleShift};

use identification::Identification;

use flash_config::{segment_of, spec_wrap_adress, SEGMENT_BYTES};
use flash_log::{
    lemma_added_none, lemma_added_push, lemma_read_pieces_append, spec_added, spec_erase_done, spec_extends, spec_read_pieces,
    spec_write_done, FlashLog, FlashOp,
};
use qspi_driver::FlashDriver;

verus! {

/// Size of a storage block: a multiple of the flash page size.
pub const STORAGE_BLOCK_SIZE_BYTES: u32 = 4096;

/// The storage error for a flash driver error.
pub open spec fn spec_map_qspi_error(e: QspiError) -> StorageError {
    match e {
        QspiError::Busy => StorageError::Busy,
        QspiError::Address => StorageError::InvalidAddress,
        QspiError::Unknown => StorageError::Internal,
    }
}

pub fn map_qspi_error(e: QspiError) -> (r: StorageError)
    ensures
        r == spec_map_qspi_error(e),
{
    match e {
        QspiError::Busy => StorageError::Busy,
        QspiError::Address => StorageError::InvalidAddress,
        QspiError::Unknown => StorageError::Internal,
    }
}

/// The geometry of a storage on chips of `capacity` bytes each, written at most
/// `write_max_bytes` at a time: whole blocks of each chip, kept to 32 bits.
pub open spec fn spec_geometry_from(capacity: nat, write_max_bytes: nat, banks: FlashBanks) -> StorageGeometry {
    StorageGeometry {
        block_size_bytes: STORAGE_BLOCK_SIZE_BYTES,
        write_granularity_bytes: write_max_bytes as u32,
        blocks_per_bank: (capacity / STORAGE_BLOCK_SIZE_BYTES as nat) as u32,
        banks,
    }
}

pub fn geometry_from_values(capacity: usize, write_max_bytes: usize, banks: FlashBanks) -> (r:
    StorageGeometry)
    ensures
        r == spec_geometry_from(capacity as nat, write_max_bytes as nat, banks),
{
    StorageGeometry {
        block_size_bytes: STORAGE_BLOCK_SIZE_BYTES,
        write_granularity_bytes: write_max_bytes as u32,
        blocks_per_bank: (capacity / STORAGE_BLOCK_SIZE_BYTES as usize) as u32,
        banks,
    }
}

/// The geometry from what `driver` reports of its chip.
pub fn geometry_from_driver<D: FlashDriver>(driver: &D, banks: FlashBanks) -> (r: StorageGeometry)
    ensures
        r.block_size_bytes == STORAGE_BLOCK_SIZE_BYTES,
        r.banks == banks,
{
    let capacity = driver.get_capacity();
    let write_max = driver.config().write_max_bytes;
    geometry_from_values(capacity, write_max, banks)
}

/// The piece of a read at `absolute`, with `remaining` bytes to go, that stays
/// within one address segment: its extender value, its address in the segment
/// and its length.
pub open spec fn spec_segment_chunk(absolute: nat, remaining: nat) -> (u32, u32, nat) {
    let (ext, addr) = spec_wrap_adress(absolute);
    let to_end: nat = (SEGMENT_BYTES - addr) as nat;
    (ext, addr, if remaining < to_end { remaining } else { to_end })
}

pub fn segment_chunk(absolute: usize, remaining: usize) -> (r: (u32, u32, usize))
    requires
        segment_of(absolute as int) <= u32::MAX,
        remaining > 0,
    ensures
        (r.0, r.1, r.2 as nat) == spec_segment_chunk(absolute as nat, remaining as nat),
        1 <= r.2 <= remaining,
        r.1 + r.2 <= SEGMENT_BYTES,
{
    let ext = (absolute / SEGMENT_BYTES) as u32;
    let addr = (absolute % SEGMENT_BYTES) as u32;
    let to_end = SEGMENT_BYTES - addr as usize;
    let chunk = if remaining < to_end {
        remaining
    } else {
        to_end
    };
    (ext, addr, chunk)
}

/// Reads `dest.len()` bytes at byte `global_offset` of one chip: piece by piece
/// within address segments, each piece after selecting its segment. The chip
/// is woken first and let sleep after a read that went through; the read stops
/// at the first request that fails, with that request's error.
pub fn read_range_with_driver<D: FlashDriver>(
    driver: &mut FlashLog<D>,
    global_offset: usize,
    dest: &mut [u8],
) -> (r: Result<(), StorageError>)
    requires
        global_offset + old(dest)@.len() <= usize::MAX,
        segment_of(global_offset + old(dest)@.len()) <= u32::MAX,
    ensures
        final(dest)@.len() == old(dest)@.len(),
        spec_extends(old(driver).ops(), final(driver).ops()),
        ({
            let s = spec_added(old(driver).ops(), final(driver).ops());
            &&& flash_log::spec_answer(s, r)
            &&& s[0] is WakeUp
            &&& r is Ok ==> spec_read_pieces(
                s.subrange(1, s.len() - 1),
                global_offset as nat,
                old(dest)@.len(),
                final(dest)@,
            )
        }),
{
    let ghost o = driver.ops();
    let wake = driver.wake_up();
    proof {
        let n = driver.ops();
        lemma_added_none(o);
        lemma_added_push(o, o, FlashOp::WakeUp(wake));
        assert(spec_added(o, n) =~= seq![FlashOp::WakeUp(wake)]);
    }
    if let Err(e) = wake {
        return Err(map_qspi_error(e));
    }
    let len = dest.len();
    let mut absolute = global_offset;
    let mut written: usize = 0;
    proof {
        assert(spec_added(o, driver.ops()).skip(1) =~= Seq::<FlashOp>::empty());
        assert(dest@.take(0) =~= Seq::<u8>::empty());
    }
    while written < len
        invariant
            written <= len,
            absolute == global_offset + written,
            dest@.len() == len,
            len == old(dest)@.len(),
            global_offset + len <= usize::MAX,
            segment_of(global_offset + len) <= u32::MAX,
            o == old(driver).ops(),
            spec_extends(o, driver.ops()),
            spec_added(o, driver.ops()).len() >= 1,
            spec_added(o, driver.ops())[0] is WakeUp,
            forall|i: int|
                0 <= i < spec_added(o, driver.ops()).len() ==> flash_log::spec_op_error(
                    #[trigger] spec_added(o, driver.ops())[i],
                ) is None,
            written == 0 || written == len || (absolute as nat) % (SEGMENT_BYTES as nat) == 0,
            spec_read_pieces(
                spec_added(o, driver.ops()).skip(1),
                global_offset as nat,
                written as nat,
                dest@.take(written as int),
            ),
        decreases len - written,
    {
        proof {
            vstd::arithmetic::div_mod::lemma_div_is_ordered(
                absolute as int,
                (global_offset + len) as int,
                SEGMENT_BYTES as int,
            );
        }
        let ghost before = driver.ops();
        let ghost before_dest = dest@;
        let (extender, addr, chunk) = segment_chunk(absolute, len - written);
        let ext_res = driver.set_addr_extender(extender);
        proof {
            lemma_added_push(o, before, FlashOp::SetExtender(extender, ext_res));
        }
        if let Err(e) = ext_res {
            proof {
                let s = spec_added(o, driver.ops());
                assert forall|i: int| 0 <= i < s.len() - 1 implies flash_log::spec_op_error(
                    #[trigger] s[i],
                ) is None by {
                    assert(s[i] == spec_added(o, before)[i]);
                }
            }
            return Err(map_qspi_error(e));
        }
        let ghost mid_ops = driver.ops();
        let (head, rest) = dest.split_at_mut(written);
        let (mid, tail) = rest.split_at_mut(chunk);
        let res = driver.read_direct(addr, mid);
        let ghost piece = mid@;
        proof {
            lemma_added_push(o, mid_ops, FlashOp::ReadDirect(addr, piece, res));
        }
        if let Err(e) = res {
            proof {
                let s = spec_added(o, driver.ops());
                assert forall|i: int| 0 <= i < s.len() - 1 implies flash_log::spec_op_error(
                    #[trigger] s[i],
                ) is None by {
                    if i < spec_added(o, before).len() {
                        assert(s[i] == spec_added(o, before)[i]);
                    }
                }
            }
            return Err(map_qspi_error(e));
        }
        proof {
            assert(dest@ =~= before_dest.take(written as int) + piece + before_dest.skip(
                written + chunk,
            ));
            let s0 = spec_added(o, before);
            let s = spec_added(o, driver.ops());
            assert(s =~= s0.push(FlashOp::SetExtender(extender, ext_res)).push(
                FlashOp::ReadDirect(addr, piece, res),
            ));
            lemma_read_pieces_append(
                s0.skip(1),
                global_offset as nat,
                written as nat,
                before_dest.take(written as int),
                chunk as nat,
                piece,
                ext_res,
                res,
            );
            assert(s.skip(1) =~= s0.skip(1) + seq![
                FlashOp::SetExtender(extender, ext_res),
                FlashOp::ReadDirect(addr, piece, res),
            ]);
            assert(dest@.take(written + chunk) =~= before_dest.take(written as int) + piece);
            assert forall|i: int| 0 <= i < s.len() implies flash_log::spec_op_error(
                #[trigger] s[i],
            ) is None by {
                if i < s0.len() {
                    assert(s[i] == s0[i]);
                }
            }
            if written + chunk < len {
                let a = absolute as int;
                let seg = SEGMENT_BYTES as int;
                assert(chunk == seg - a % seg);
                assert((a + chunk) % seg == 0) by {
                    vstd::arithmetic::div_mod::lemma_fundamental_div_mod(a, seg);
                    assert(a + chunk == (a / seg) * seg + seg);
                    assert(a + chunk == (a / seg + 1) * seg) by (nonlinear_arith)
                        requires
                            a + chunk == (a / seg) * seg + seg,
                    ;
                    vstd::arithmetic::div_mod::lemma_mod_multiples_basic(a / seg + 1, seg);
                }
            }
        }
        written = written + chunk;
        absolute = absolute + chunk;
    }
    let ghost last = driver.ops();
    driver.want_sleep();
    proof {
        let s = spec_added(o, driver.ops());
        let n = driver.ops();
        lemma_added_push(o, last, FlashOp::WantSleep);
        assert(dest@.take(len as int) =~= dest@);
        assert(s.subrange(1, s.len() - 1) =~= s.drop_last().skip(1));
        assert(s.drop_last() =~= spec_added(o, last));
        assert forall|i: int| 0 <= i < s.len() implies flash_log::spec_op_error(#[trigger] s[i])
            is None by {
            if i < s.len() - 1 {
                assert(s[i] == spec_added(o, last)[i]);
            }
        }
    }
    Ok(())
}

/// The piece of a read at storage byte `absolute`, with `remaining` bytes to go,
/// that stays within one block: where it lies and its length.
pub fn block_chunk(mapper: BlockMapper, absolute: usize, remaining: usize) -> (r: Result<
    (OffsetAddress, usize),
    StorageError,
>)
    requires
        mapper@.fits(),
        mapper@.block_size_bytes > 0,
        remaining > 0,
    ensures
        absolute >= mapper@.spec_total_bytes() ==> r == Err::<(OffsetAddress, usize), StorageError>(
            StorageError::InvalidAddress,
        ),
        absolute < mapper@.spec_total_bytes() ==> (r matches Ok((a, n)) && {
            let bs = mapper@.block_size_bytes as int;
            let block = (absolute as int) / bs;
            let left = bs - (absolute as int) % bs;
            &&& a.bank_index == spec_block_bank(mapper@.banks, block)
            &&& a.local_byte_offset == spec_block_local(mapper@.banks, block) * bs + (absolute as int)
                % bs
            &&& n == if remaining < left { remaining as int } else { left }
            &&& 1 <= n <= remaining
        }),
{
    let block_size = mapper.geometry().block_size_bytes as usize;
    let a = match mapper.map_offset(absolute) {
        Ok(a) => a,
        Err(_) => {
            return Err(StorageError::InvalidAddress);
        },
    };
    let in_block = absolute % block_size;
    let left = block_size - in_block;
    let chunk = if remaining < left {
        remaining
    } else {
        left
    };
    Ok((a, chunk))
}

/// One piece of a storage read as it went: where it starts in the storage,
/// the bank of the chip it lies on, where it starts on that chip, its length,
/// and the requests it made of that chip.
pub type ReadPiece = (int, int, int, int, Seq<FlashOp>);

/// The piece of a read at storage byte `absolute`, with `remaining` bytes to
/// go, that stays within one block: the bank of its chip, its first byte on
/// that chip, and its length.
pub open spec fn spec_block_piece(g: StorageGeometry, absolute: int, remaining: int) -> (int, int, int) {
    let bs = g.block_size_bytes as int;
    let block = absolute / bs;
    let left = bs - absolute % bs;
    (
        spec_block_bank(g.banks, block),
        spec_block_local(g.banks, block) * bs + absolute % bs,
        if remaining < left {
            remaining
        } else {
            left
        },
    )
}

/// The requests `s` of one chip are those of `read_range_with_driver`
/// reading `len` bytes at its byte `local`: the chip is woken, the read stops
/// at the first request that fails, and where all went through, the bytes
/// read piece by piece within address segments are `data`.
pub open spec fn spec_chip_read(s: Seq<FlashOp>, local: nat, len: nat, data: Seq<u8>) -> bool {
    &&& s.len() >= 1
    &&& s[0] is WakeUp
    &&& flash_log::spec_answer(s, spec_result_of(s))
    &&& spec_result_of(s) is Ok ==> spec_read_pieces(s.subrange(1, s.len() - 1), local, len, data)
}

/// The requests made of the chip of bank `bank` by the pieces `pieces`, in
/// order.
pub open spec fn spec_bank_requests(pieces: Seq<ReadPiece>, bank: int) -> Seq<FlashOp>
    decreases pieces.len(),
{
    if pieces.len() == 0 {
        Seq::empty()
    } else {
        spec_bank_requests(pieces.drop_last(), bank) + if pieces.last().1 == bank {
            pieces.last().4
        } else {
            Seq::<FlashOp>::empty()
        }
    }
}

/// Piece `p` of a read of `len` bytes at storage byte `offset`, whose bytes
/// are `data`: it starts within the read and the storage, it is the part of
/// the rest of the read that stays within its block, its chip is there, and
/// its requests read its part of `data` from that chip.
pub open spec fn spec_piece_read(
    g: StorageGeometry,
    has_secondary: bool,
    offset: int,
    len: int,
    p: ReadPiece,
    data: Seq<u8>,
) -> bool {
    &&& offset <= p.0 < g.spec_total_bytes()
    &&& p.0 < offset + len
    &&& 1 <= p.3
    &&& (p.1, p.2, p.3) == spec_block_piece(g, p.0, offset + len - p.0)
    &&& p.1 == 0 || has_secondary
    &&& p.2 >= 0
    &&& spec_chip_read(p.4, p.2 as nat, p.3 as nat, data.subrange(p.0 - offset, p.0 - offset + p.3))
}

/// Where the pieces `pieces` of a read at `offset` end.
pub open spec fn spec_pieces_end(offset: int, pieces: Seq<ReadPiece>) -> int {
    if pieces.len() == 0 {
        offset
    } else {
        pieces.last().0 + pieces.last().3
    }
}

/// The pieces follow one another from `offset` on, each read as
/// `spec_piece_read` says.
pub open spec fn spec_pieces_chained(
    g: StorageGeometry,
    has_secondary: bool,
    offset: int,
    len: int,
    pieces: Seq<ReadPiece>,
    data: Seq<u8>,
) -> bool {
    &&& pieces.len() > 0 ==> pieces[0].0 == offset
    &&& forall|k: int|
        0 <= k < pieces.len() - 1 ==> (#[trigger] pieces[k + 1]).0 == pieces[k].0 + pieces[k].3
    &&& forall|k: int|
        0 <= k < pieces.len() ==> spec_piece_read(g, has_secondary, offset, len, #[trigger] pieces[k], data)
}

/// A read of `len` bytes at storage byte `offset`, in a storage of geometry
/// `g` with or without its second chip, made as the pieces `pieces`, giving
/// the bytes `data` and the answer `r`: the pieces follow one another, each
/// within one block and read from its own chip; every piece but the last
/// went through; and the read ends with the error of the first piece that
/// failed, with `InvalidAddress` where the rest of the range leaves the
/// storage or lies on an absent chip, or with `Ok` once all bytes are in.
pub open spec fn spec_storage_read(
    g: StorageGeometry,
    has_secondary: bool,
    offset: int,
    len: int,
    pieces: Seq<ReadPiece>,
    data: Seq<u8>,
    r: Result<(), StorageError>,
) -> bool {
    let m = pieces.len();
    let end = spec_pieces_end(offset, pieces);
    &&& data.len() == len
    &&& spec_pieces_chained(g, has_secondary, offset, len, pieces, data)
    &&& forall|k: int| 0 <= k < m - 1 ==> spec_result_of((#[trigger] pieces[k]).4) is Ok
    &&& if m > 0 && spec_result_of(pieces.last().4) is Err {
        r == spec_result_of(pieces.last().4)
    } else if end == offset + len {
        r is Ok
    } else {
        &&& end < offset + len
        &&& r == Err::<(), StorageError>(StorageError::InvalidAddress)
        &&& end >= g.spec_total_bytes() || (spec_block_piece(g, end, offset + len - end).0 == 1
            && !has_secondary)
    }
}

/// A chip's answer is what its last request makes of the operation.
proof fn lemma_answer_is_result(s: Seq<FlashOp>, r: Result<(), StorageError>)
    requires
        flash_log::spec_answer(s, r),
    ensures
        r == spec_result_of(s),
{
    match r {
        Ok(u) => {
            assert(s.last() == FlashOp::WantSleep);
            assert(spec_result_of(s) == Ok::<(), StorageError>(()));
        },
        Err(e) => {
            assert(flash_log::spec_op_error(s.last()) is Some);
            assert(s.last() != FlashOp::WantSleep);
            assert(spec_result_of(s) == Err::<(), StorageError>(e));
        },
    }
}

/// One more piece after the pieces so far, read into bytes that keep those
/// of the earlier pieces: the pieces still follow one another.
proof fn lemma_piece_appended(
    g: StorageGeometry,
    hs: bool,
    off: int,
    len: int,
    pieces: Seq<ReadPiece>,
    p: ReadPiece,
    before: Seq<u8>,
    data: Seq<u8>,
)
    requires
        spec_pieces_chained(g, hs, off, len, pieces, before),
        forall|k: int| 0 <= k < pieces.len() ==> (#[trigger] pieces[k]).0 + pieces[k].3 <= p.0,
        spec_pieces_end(off, pieces) == p.0,
        off <= p.0,
        spec_piece_read(g, hs, off, len, p, data),
        data.len() == before.len(),
        p.0 - off <= data.len(),
        data.take(p.0 - off) == before.take(p.0 - off),
    ensures
        spec_pieces_chained(g, hs, off, len, pieces.push(p), data),
{
    let pieces2 = pieces.push(p);
    assert forall|k: int| 0 <= k < pieces2.len() implies spec_piece_read(
        g,
        hs,
        off,
        len,
        #[trigger] pieces2[k],
        data,
    ) by {
        if k < pieces.len() {
            assert(pieces2[k] == pieces[k]);
            let q = pieces[k];
            assert(spec_piece_read(g, hs, off, len, q, before));
            assert(q.0 + q.3 <= p.0);
            assert(data.subrange(q.0 - off, q.0 - off + q.3) =~= before.subrange(
                q.0 - off,
                q.0 - off + q.3,
            )) by {
                assert(data.subrange(q.0 - off, q.0 - off + q.3) =~= data.take(p.0 - off).subrange(
                    q.0 - off,
                    q.0 - off + q.3,
                ));
                assert(before.subrange(q.0 - off, q.0 - off + q.3) =~= before.take(p.0 - off).subrange(
                    q.0 - off,
                    q.0 - off + q.3,
                ));
            }
        }
    }
    assert forall|k: int| 0 <= k < pieces2.len() - 1 implies (#[trigger] pieces2[k + 1]).0
        == pieces2[k].0 + pieces2[k].3 by {
        assert(pieces2[k] == pieces[k]);
        if k + 1 < pieces.len() {
            assert(pieces2[k + 1] == pieces[k + 1]);
        } else {
            assert(pieces[k] == pieces.last());
        }
    }
}

/// The requests of a bank after one more piece.
proof fn lemma_bank_requests_push(pieces: Seq<ReadPiece>, p: ReadPiece, bank: int)
    ensures
        spec_bank_requests(pieces.push(p), bank) == spec_bank_requests(pieces, bank) + if p.1 == bank {
            p.4
        } else {
            Seq::<FlashOp>::empty()
        },
{
    assert(pieces.push(p).drop_last() =~= pieces);
}

/// The requests of `o` followed by `a`, then by `b`, are those of `o`
/// followed by `a + b`.
proof fn lemma_added_concat(o: Seq<FlashOp>, m: Seq<FlashOp>, n: Seq<FlashOp>)
    requires
        spec_extends(o, m),
        spec_extends(m, n),
    ensures
        spec_extends(o, n),
        spec_added(o, n) == spec_added(o, m) + spec_added(m, n),
{
    assert(n.take(o.len() as int) =~= m.take(o.len() as int));
    assert(spec_added(o, n) =~= spec_added(o, m) + spec_added(m, n));
}

/// The chips of the storage and how blocks map onto them.
pub struct RuntimeReadAdapter<D> {
    primary: FlashLog<D>,
    secondary: Option<FlashLog<D>>,
    mapper: BlockMapper,
    reads: Ghost<Seq<(usize, Seq<u8>, Result<(), StorageError>)>>,
}

/// The reads `s` that a scan of the block headers made, one per block from
/// block 0 on, and the count `r` it found: the headers before block `r` were
/// read and say their block is written; block `r`, where there is one, could
/// not be read or says it is unused.
pub open spec fn spec_scan_done(
    s: Seq<(usize, Seq<u8>, Result<(), StorageError>)>,
    block_size: nat,
    total: nat,
    r: u32,
) -> bool {
    &&& r <= total
    &&& s.len() == if r < total { r + 1 } else { r as int }
    &&& forall|i: int| 0 <= i < s.len() ==> (#[trigger] s[i]).0 == i * block_size && s[i].1.len() == 8
    &&& forall|i: int| 0 <= i < r ==> (#[trigger] s[i]).2 is Ok && !spec_header_unused(s[i].1)
    &&& r < total ==> (s[r as int].2 is Err || spec_header_unused(s[r as int].1))
}

/// The requests of a write of block `index`: where the block lies on a chip
/// that is there, that chip gets the requests of a write at the block's first
/// byte and the other chip none; else neither chip gets any.
pub open spec fn spec_write_block_done<D: FlashDriver>(
    o: RuntimeReadAdapter<D>,
    n: RuntimeReadAdapter<D>,
    index: u32,
    data: Seq<u8>,
    r: Result<(), StorageError>,
) -> bool {
    let g = o.spec_mapper()@;
    let bank = spec_block_bank(g.banks, index as int);
    if index < g.spec_total_blocks() && (bank == 0 || o.spec_has_secondary()) {
        &&& spec_extends(o.bank_ops(bank), n.bank_ops(bank))
        &&& spec_write_done(
            spec_added(o.bank_ops(bank), n.bank_ops(bank)),
            (spec_block_local(g.banks, index as int) * g.block_size_bytes) as nat,
            data,
            r,
        )
        &&& n.bank_ops(1 - bank) == o.bank_ops(1 - bank)
    } else {
        n.bank_ops(0) == o.bank_ops(0) && n.bank_ops(1) == o.bank_ops(1)
    }
}

/// The requests of a read of `len` bytes at storage byte `offset` that gave
/// `data` and `r`: made as the pieces of `spec_storage_read`, each chip
/// getting exactly the requests of the pieces on it, in order.
pub open spec fn spec_read_done<D: FlashDriver>(
    o: RuntimeReadAdapter<D>,
    n: RuntimeReadAdapter<D>,
    offset: int,
    len: int,
    data: Seq<u8>,
    r: Result<(), StorageError>,
) -> bool {
    &&& spec_extends(o.bank_ops(0), n.bank_ops(0))
    &&& spec_extends(o.bank_ops(1), n.bank_ops(1))
    &&& exists|pieces: Seq<ReadPiece>|
        #[trigger] spec_storage_read(
            o.spec_mapper()@,
            o.spec_has_secondary(),
            offset,
            len,
            pieces,
            data,
            r,
        ) && spec_added(o.bank_ops(0), n.bank_ops(0)) == spec_bank_requests(pieces, 0)
            && spec_added(o.bank_ops(1), n.bank_ops(1)) == spec_bank_requests(pieces, 1)
}

/// The requests of erasing all chips: the first chip gets the requests of an
/// erase; where that went through, the second chip, if there is one, gets them
/// too, and its answer is the result.
pub open spec fn spec_erase_all_done<D: FlashDriver>(
    o: RuntimeReadAdapter<D>,
    n: RuntimeReadAdapter<D>,
    r: Result<(), StorageError>,
) -> bool {
    let p = spec_added(o.bank_ops(0), n.bank_ops(0));
    let s = spec_added(o.bank_ops(1), n.bank_ops(1));
    &&& spec_extends(o.bank_ops(0), n.bank_ops(0))
    &&& spec_erase_done(p, spec_result_of(p))
    &&& spec_result_of(p) is Err ==> r == spec_result_of(p) && n.bank_ops(1) == o.bank_ops(1)
    &&& spec_result_of(p) is Ok && o.spec_has_secondary() ==> spec_extends(
        o.bank_ops(1),
        n.bank_ops(1),
    ) && spec_erase_done(s, r)
    &&& spec_result_of(p) is Ok && !o.spec_has_secondary() ==> r is Ok && n.bank_ops(1)
        == o.bank_ops(1)
}

/// A scan that went through, with the count it found, as `spec_scan_done`
/// says.
pub open spec fn spec_scan_answer(
    s: Seq<(usize, Seq<u8>, Result<(), StorageError>)>,
    block_size: nat,
    total: nat,
    r: Result<u32, StorageError>,
) -> bool {
    match r {
        Ok(v) => spec_scan_done(s, block_size, total, v),
        Err(_) => false,
    }
}

/// What the last request of a chip's requests `ops` makes of an operation:
/// done where the chip was let sleep, else the error of that request.
pub open spec fn spec_result_of(ops: Seq<FlashOp>) -> Result<(), StorageError> {
    if ops.last() == FlashOp::WantSleep {
        Ok(())
    } else {
        Err(spec_map_qspi_error(flash_log::spec_op_error(ops.last())->Some_0))
    }
}

impl<D: FlashDriver> RuntimeReadAdapter<D> {
    /// The adapter's shape fits the machine and has blocks of nonzero size,
    /// and its byte totals leave room to address the last segment.
    pub open spec fn wf(&self) -> bool {
        &&& self.spec_mapper()@.fits()
        &&& self.spec_mapper()@.block_size_bytes > 0
        &&& segment_of(self.spec_mapper()@.spec_total_bytes()) <= u32::MAX
    }

    pub closed spec fn spec_mapper(&self) -> BlockMapper {
        self.mapper
    }

    pub closed spec fn spec_has_secondary(&self) -> bool {
        self.secondary is Some
    }

    /// The requests made of the chip of bank `bank` (0 or 1) so far; none for
    /// an absent chip.
    pub closed spec fn bank_ops(&self, bank: int) -> Seq<FlashOp> {
        if bank == 0 {
            self.primary.ops()
        } else {
            match self.secondary {
                Some(d) => d.ops(),
                None => Seq::empty(),
            }
        }
    }

    /// The reads of storage bytes made so far, oldest first: where they
    /// started, the bytes they gave, and their outcome.
    pub closed spec fn reads(&self) -> Seq<(usize, Seq<u8>, Result<(), StorageError>)> {
        self.reads@
    }

    pub fn new(primary: D, secondary: Option<D>, mapper: BlockMapper) -> (r: Self)
        ensures
            r.spec_mapper() == mapper,
            r.spec_has_secondary() == secondary is Some,
            r.bank_ops(0) == primary.spec_ops(),
            r.bank_ops(1) == match secondary {
                Some(d) => d.spec_ops(),
                None => Seq::<FlashOp>::empty(),
            },
            r.reads() == Seq::<(usize, Seq<u8>, Result<(), StorageError>)>::empty(),
    {
        let secondary = match secondary {
            Some(d) => Some(FlashLog::new(d)),
            None => None,
        };
        RuntimeReadAdapter { primary: FlashLog::new(primary), secondary, mapper, reads: Ghost(Seq::empty()) }
    }

    pub fn mapper(&self) -> (r: BlockMapper)
        ensures
            r == self.spec_mapper(),
    {
        self.mapper
    }

    /// Reads `dest.len()` bytes at storage byte `global_offset`: block by block,
    /// each from the chip its block lies on. Fails with `InvalidAddress` where
    /// the range leaves the storage or its block lies on a chip that is absent,
    /// and as a chip's request failed.
    pub fn read_range_via_adapter(&mut self, global_offset: usize, dest: &mut [u8]) -> (r: Result<
        (),
        StorageError,
    >)
        requires
            old(self).wf(),
        ensures
            final(dest)@.len() == old(dest)@.len(),
            final(self).spec_mapper() == old(self).spec_mapper(),
            final(self).spec_has_secondary() == old(self).spec_has_secondary(),
            final(self).reads() == old(self).reads().push((global_offset, final(dest)@, r)),
            spec_read_done(
                *old(self),
                *final(self),
                global_offset as int,
                old(dest)@.len() as int,
                final(dest)@,
                r,
            ),
            old(dest)@.len() == 0 ==> r is Ok,
            old(dest)@.len() > 0 && global_offset + old(dest)@.len() > old(
                self,
            ).spec_mapper()@.spec_total_bytes() ==> r is Err,
    {
        let ghost mid = *self;
        let r = self.read_blocks(global_offset, dest);
        let ghost after = *self;
        proof {
            self.reads@ = self.reads@.push((global_offset, dest@, r));
            assert(self.bank_ops(0) == after.bank_ops(0));
            assert(self.bank_ops(1) == after.bank_ops(1));
        }
        r
    }

    #[verifier::rlimit(50)]
    fn read_blocks(&mut self, global_offset: usize, dest: &mut [u8]) -> (r: Result<
        (),
        StorageError,
    >)
        requires
            old(self).wf(),
        ensures
            final(dest)@.len() == old(dest)@.len(),
            final(self).spec_mapper() == old(self).spec_mapper(),
            final(self).spec_has_secondary() == old(self).spec_has_secondary(),
            final(self).reads() == old(self).reads(),
            spec_read_done(
                *old(self),
                *final(self),
                global_offset as int,
                old(dest)@.len() as int,
                final(dest)@,
                r,
            ),
            old(dest)@.len() == 0 ==> r is Ok,
            old(dest)@.len() > 0 && global_offset + old(dest)@.len() > old(
                self,
            ).spec_mapper()@.spec_total_bytes() ==> r is Err,
    {
        let len = dest.len();
        let mut absolute = global_offset;
        let mut written: usize = 0;
        let ghost g = self.mapper@;
        let ghost hs = self.spec_has_secondary();
        let ghost off = global_offset as int;
        let ghost o0 = self.bank_ops(0);
        let ghost o1 = self.bank_ops(1);
        let ghost mut pieces: Seq<ReadPiece> = Seq::empty();
        proof {
            lemma_added_none(o0);
            lemma_added_none(o1);
        }
        while written < len
            invariant
                written <= len,
                absolute == global_offset + written,
                dest@.len() == len,
                len == old(dest)@.len(),
                self.wf(),
                self.spec_mapper() == old(self).spec_mapper(),
                self.spec_has_secondary() == old(self).spec_has_secondary(),
                self.reads() == old(self).reads(),
                written > 0 ==> absolute <= self.spec_mapper()@.spec_total_bytes(),
                absolute <= usize::MAX,
                g == old(self).spec_mapper()@,
                hs == old(self).spec_has_secondary(),
                off == global_offset,
                o0 == old(self).bank_ops(0),
                o1 == old(self).bank_ops(1),
                spec_extends(o0, self.bank_ops(0)),
                spec_extends(o1, self.bank_ops(1)),
                spec_added(o0, self.bank_ops(0)) == spec_bank_requests(pieces, 0),
                spec_added(o1, self.bank_ops(1)) == spec_bank_requests(pieces, 1),
                spec_pieces_chained(g, hs, off, len as int, pieces, dest@),
                forall|k: int| 0 <= k < pieces.len() ==> spec_result_of((#[trigger] pieces[k]).4) is Ok,
                forall|k: int| 0 <= k < pieces.len() ==> (#[trigger] pieces[k]).0 + pieces[k].3 <= absolute,
                spec_pieces_end(off, pieces) == absolute,
            decreases len - written,
        {
            let ghost b0 = self.bank_ops(0);
            let ghost b1 = self.bank_ops(1);
            let ghost before_dest = dest@;
            let (addr, chunk) = match block_chunk(self.mapper, absolute, len - written) {
                Ok(c) => c,
                Err(e) => {
                    proof {
                        if pieces.len() > 0 {
                            assert(spec_result_of(pieces[pieces.len() - 1].4) is Ok);
                        }
                        assert(spec_storage_read(g, hs, off, len as int, pieces, dest@, Err::<(), StorageError>(e)));
                    }
                    return Err(e);
                },
            };
            proof {
                lemma_chunk_in_bank(self.mapper, absolute as int, chunk as int, addr);
            }
            if addr.bank_index != 0 && self.secondary.is_none() {
                proof {
                    if pieces.len() > 0 {
                        assert(spec_result_of(pieces[pieces.len() - 1].4) is Ok);
                    }
                    assert(spec_storage_read(
                        g,
                        hs,
                        off,
                        len as int,
                        pieces,
                        dest@,
                        Err::<(), StorageError>(StorageError::InvalidAddress),
                    ));
                }
                return Err(StorageError::InvalidAddress);
            }
            let (head, rest) = dest.split_at_mut(written);
            let (mid, tail) = rest.split_at_mut(chunk);
            let res = if addr.bank_index == 0 {
                read_range_with_driver(&mut self.primary, addr.local_byte_offset, mid)
            } else {
                match &mut self.secondary {
                    Some(d) => read_range_with_driver(d, addr.local_byte_offset, mid),
                    None => Err(StorageError::InvalidAddress),
                }
            };
            let ghost mid_after = mid@;
            let ghost bank: int = addr.bank_index as int;
            let ghost s = if bank == 0 {
                spec_added(b0, self.bank_ops(0))
            } else {
                spec_added(b1, self.bank_ops(1))
            };
            let ghost p: ReadPiece = (absolute as int, bank, addr.local_byte_offset as int, chunk as int, s);
            let ghost pieces2 = pieces.push(p);
            proof {
                assert(bank == 0 || bank == 1);
                lemma_answer_is_result(s, res);
                assert(dest@.subrange(written as int, written + chunk) == mid_after);
                assert(spec_chip_read(s, p.2 as nat, p.3 as nat, mid_after));
                assert(spec_piece_read(g, hs, off, len as int, p, dest@));
                assert(dest@.take(written as int) =~= before_dest.take(written as int));
                lemma_piece_appended(g, hs, off, len as int, pieces, p, before_dest, dest@);
                lemma_bank_requests_push(pieces, p, 0);
                lemma_bank_requests_push(pieces, p, 1);
                if bank == 0 {
                    lemma_added_concat(o0, b0, self.bank_ops(0));
                    assert(spec_bank_requests(pieces, 1) + Seq::<FlashOp>::empty() =~= spec_bank_requests(pieces, 1));
                } else {
                    lemma_added_concat(o1, b1, self.bank_ops(1));
                    assert(spec_bank_requests(pieces, 0) + Seq::<FlashOp>::empty() =~= spec_bank_requests(pieces, 0));
                }
            }
            if let Err(e) = res {
                proof {
                    assert forall|k: int| 0 <= k < pieces2.len() - 1 implies spec_result_of(
                        (#[trigger] pieces2[k]).4,
                    ) is Ok by {
                        assert(pieces2[k] == pieces[k]);
                    }
                    assert(spec_storage_read(g, hs, off, len as int, pieces2, dest@, Err::<(), StorageError>(e)));
                }
                return Err(e);
            }
            proof {
                assert forall|k: int| 0 <= k < pieces2.len() implies spec_result_of(
                    (#[trigger] pieces2[k]).4,
                ) is Ok by {
                    if k < pieces.len() {
                        assert(pieces2[k] == pieces[k]);
                    }
                }
                assert forall|k: int| 0 <= k < pieces2.len() implies (#[trigger] pieces2[k]).0
                    + pieces2[k].3 <= absolute + chunk by {
                    if k < pieces.len() {
                        assert(pieces2[k] == pieces[k]);
                    }
                }
                pieces = pieces2;
            }
            written = written + chunk;
            absolute = absolute + chunk;
        }
        proof {
            if pieces.len() > 0 {
                assert(spec_result_of(pieces[pieces.len() - 1].4) is Ok);
            }
            assert(spec_storage_read(g, hs, off, len as int, pieces, dest@, Ok::<(), StorageError>(())));
        }
        Ok(())
    }
}

/// The settings that any chip can be talked to with: the QSPI clock at most
/// 1 MHz or so from a system clock of `sys_clk_hz`, clock mode 3, the rest as
/// by default.
pub open spec fn spec_failsafe_view(sys_clk_hz: u32) -> QspiConfigView {
    QspiConfigView {
        clock_prescaler: (sys_clk_hz / 1_000_000) as u8,
        flash_size: 22,
        address_size: AddressSize::Addr24Bit,
        clock_mode: ClockMode::Mode3,
        fifo_threshold: 1,
        sample_shift: SampleShift::HalfACycle,
        chip_select_high_time: 1,
        qpi_mode: false,
    }
}

/// The settings that any chip can be talked to with, as a value.
pub fn failsafe_config(sys_clk_hz: u32) -> (r: QspiConfig)
    ensures
        r@ == spec_failsafe_view(sys_clk_hz),
        r@ == (QspiConfigView {
            clock_prescaler: (sys_clk_hz / 1_000_000) as u8,
            flash_size: 22,
            address_size: AddressSize::Addr24Bit,
            clock_mode: ClockMode::Mode3,
            fifo_threshold: 1,
            sample_shift: SampleShift::HalfACycle,
            chip_select_high_time: 1,
            qpi_mode: false,
        }),
{
    QspiConfig::default().clock_prescaler((sys_clk_hz / 1_000_000) as u8).clock_mode(
        ClockMode::Mode3,
    )
}

/// Puts the channel in the fail-safe settings and reads the chip's JEDEC ID on
/// one line.
pub fn probe<Q: IQspi>(qspi: &mut Q, sys_clk_hz: u32) -> (r: Result<Identification, QspiError>)
    ensures
        ({
            let o = old(qspi).spec_requests();
            let n = final(qspi).spec_requests();
            &&& n.len() == o.len() + 2
            &&& n.take(o.len() as int) == o
            &&& n[o.len() as int] matches QspiOp::ApplyConfig(c) && c@ == spec_failsafe_view(
                sys_clk_hz,
            )
            &&& qspi_driver::spec_jedec_read(n.take(o.len() as int + 1), n, false, r)
        }),
        r matches Ok(i) ==> !qspi_driver::spec_no_chip(seq![i.mfr, i.memory_type, i.capacity]),
{
    let ghost o = qspi.spec_requests();
    let cfg = failsafe_config(sys_clk_hz);
    qspi.apply_config(cfg);
    let ghost m = qspi.spec_requests();
    let r = qspi_driver::get_jedec_id_cfg(qspi, false);
    proof {
        let n = qspi.spec_requests();
        assert(n.drop_last() == m);
        assert(n.take(o.len() as int + 1) =~= m);
        assert(n.take(o.len() as int) =~= o);
        assert(n[o.len() as int] == m[o.len() as int]);
    }
    r
}

/// The little-endian number in four bytes.
pub open spec fn spec_le_u32(b0: u8, b1: u8, b2: u8, b3: u8) -> nat {
    (b0 + 256 * b1 + 65536 * b2 + 16777216 * b3) as nat
}

pub fn le_u32(b0: u8, b1: u8, b2: u8, b3: u8) -> (r: u32)
    ensures
        r == spec_le_u32(b0, b1, b2, b3),
{
    b0 as u32 + 256 * b1 as u32 + 65536 * b2 as u32 + 16777216 * b3 as u32
}

/// Whether the first eight bytes of a block say that nothing was written
/// there: both its own id and its predecessor's id are all ones, as erased
/// flash reads.
pub open spec fn spec_header_unused(h: Seq<u8>) -> bool {
    spec_le_u32(h[0], h[1], h[2], h[3]) == u32::MAX && spec_le_u32(h[4], h[5], h[6], h[7])
        == u32::MAX
}

pub fn header_unused(header: &[u8; 8]) -> (r: bool)
    ensures
        r == spec_header_unused(header@),
{
    let this_block_id = le_u32(header[0], header[1], header[2], header[3]);
    let prev_block_id = le_u32(header[4], header[5], header[6], header[7]);
    let m = if this_block_id < prev_block_id {
        this_block_id
    } else {
        prev_block_id
    };
    m == u32::MAX
}

/// Writes `data` at byte `local_offset` of one chip: the chip is woken, the
/// offset's address segment selected, the data written, and the chip let
/// sleep; it stops at the first request that fails, with that request's error.
pub fn write_block_with_driver<D: FlashDriver>(
    driver: &mut FlashLog<D>,
    local_offset: usize,
    data: &[u8],
) -> (r: Result<(), StorageError>)
    requires
        segment_of(local_offset as int) <= u32::MAX,
    ensures
        spec_extends(old(driver).ops(), final(driver).ops()),
        spec_write_done(
            spec_added(old(driver).ops(), final(driver).ops()),
            local_offset as nat,
            data@,
            r,
        ),
{
    let ghost o = driver.ops();
    let wake = driver.wake_up();
    let ghost t1 = driver.ops();
    proof {
        lemma_added_none(o);
        lemma_added_push(o, o, FlashOp::WakeUp(wake));
        assert(spec_added(o, t1) =~= seq![FlashOp::WakeUp(wake)]);
    }
    if let Err(e) = wake {
        return Err(map_qspi_error(e));
    }
    let cfg = driver.config();
    let (extender, addr) = cfg.wrap_adress(local_offset);
    let ext = driver.set_addr_extender(extender);
    let ghost t2 = driver.ops();
    proof {
        lemma_added_push(o, t1, FlashOp::SetExtender(extender, ext));
        assert(spec_added(o, t2) =~= seq![
            FlashOp::WakeUp(wake),
            FlashOp::SetExtender(extender, ext),
        ]);
    }
    if let Err(e) = ext {
        return Err(map_qspi_error(e));
    }
    let w = driver.write_block(addr, data);
    let ghost t3 = driver.ops();
    proof {
        lemma_added_push(o, t2, FlashOp::WriteBlock(addr, data@, w));
        assert(spec_added(o, t3) =~= seq![
            FlashOp::WakeUp(wake),
            FlashOp::SetExtender(extender, ext),
            FlashOp::WriteBlock(addr, data@, w),
        ]);
    }
    if let Err(e) = w {
        return Err(map_qspi_error(e));
    }
    driver.want_sleep();
    proof {
        let n = driver.ops();
        lemma_added_push(o, t3, FlashOp::WantSleep);
        assert(spec_added(o, n) =~= seq![
            FlashOp::WakeUp(wake),
            FlashOp::SetExtender(extender, ext),
            FlashOp::WriteBlock(addr, data@, w),
            FlashOp::WantSleep,
        ]);
    }
    Ok(())
}

/// Erases one chip: it is woken, erased and let sleep; the erase stops at the
/// first request that fails, with that request's error.
pub fn erase_with_driver<D: FlashDriver>(driver: &mut FlashLog<D>) -> (r: Result<(), StorageError>)
    ensures
        spec_extends(old(driver).ops(), final(driver).ops()),
        spec_erase_done(spec_added(old(driver).ops(), final(driver).ops()), r),
{
    let ghost o = driver.ops();
    let wake = driver.wake_up();
    let ghost t1 = driver.ops();
    proof {
        lemma_added_none(o);
        lemma_added_push(o, o, FlashOp::WakeUp(wake));
        assert(spec_added(o, t1) =~= seq![FlashOp::WakeUp(wake)]);
    }
    if let Err(e) = wake {
        return Err(map_qspi_error(e));
    }
    let er = driver.erase();
    let ghost t2 = driver.ops();
    proof {
        lemma_added_push(o, t1, FlashOp::Erase(er));
        assert(spec_added(o, t2) =~= seq![FlashOp::WakeUp(wake), FlashOp::Erase(er)]);
    }
    if let Err(e) = er {
        return Err(map_qspi_error(e));
    }
    driver.want_sleep();
    proof {
        let n = driver.ops();
        lemma_added_push(o, t2, FlashOp::WantSleep);
        assert(spec_added(o, n) =~= seq![
            FlashOp::WakeUp(wake),
            FlashOp::Erase(er),
            FlashOp::WantSleep,
        ]);
    }
    Ok(())
}

impl<D: FlashDriver> RuntimeReadAdapter<D> {
    /// Checks `wf` at run time.
    pub fn shape_ok(&self) -> (r: bool)
        ensures
            r == self.wf(),
    {
        let g = self.mapper.geometry();
        let blocks: u64 = g.blocks_per_bank as u64 * g.banks.count() as u64;
        if blocks > u32::MAX as u64 || g.block_size_bytes == 0 {
            return false;
        }
        proof {
            vstd::arithmetic::mul::lemma_mul_upper_bound(
                blocks as int,
                u32::MAX as int,
                g.block_size_bytes as int,
                u32::MAX as int,
            );
        }
        let bytes: u128 = blocks as u128 * g.block_size_bytes as u128;
        if bytes > usize::MAX as u128 {
            return false;
        }
        bytes / SEGMENT_BYTES as u128 <= u32::MAX as u128
    }

    /// Writes block `global_block_index` to the chip it lies on. Fails with
    /// `InvalidAddress` for a block past the end or on a chip that is absent.
    pub fn write_block_via_adapter(&mut self, global_block_index: u32, data: &[u8]) -> (r: Result<
        (),
        StorageError,
    >)
        requires
            old(self).wf(),
        ensures
            final(self).spec_mapper() == old(self).spec_mapper(),
            final(self).spec_has_secondary() == old(self).spec_has_secondary(),
            global_block_index >= old(self).spec_mapper()@.spec_total_blocks() ==> r == Err::<
                (),
                StorageError,
            >(StorageError::InvalidAddress),
            global_block_index < old(self).spec_mapper()@.spec_total_blocks() && spec_block_bank(
                old(self).spec_mapper()@.banks,
                global_block_index as int,
            ) != 0 && !old(self).spec_has_secondary() ==> r == Err::<(), StorageError>(
                StorageError::InvalidAddress,
            ),
            final(self).reads() == old(self).reads(),
            spec_write_block_done(*old(self), *final(self), global_block_index, data@, r),
    {
        let block = match self.mapper.map_block(global_block_index) {
            Ok(b) => b,
            Err(_) => {
                return Err(StorageError::InvalidAddress);
            },
        };
        let block_size = self.mapper.geometry().block_size_bytes as usize;
        proof {
            lemma_block_start_in_bank(self.mapper, global_block_index as int, block.local_block_index as int);
        }
        let local_offset = block.local_block_index as usize * block_size;
        if block.bank_index == 0 {
            write_block_with_driver(&mut self.primary, local_offset, data)
        } else {
            match &mut self.secondary {
                Some(d) => write_block_with_driver(d, local_offset, data),
                None => Err(StorageError::InvalidAddress),
            }
        }
    }

    /// Erases the first chip, then the second, if there is one; stops at the
    /// first failure.
    pub fn erase_all_via_adapter(&mut self) -> (r: Result<(), StorageError>)
        ensures
            final(self).spec_mapper() == old(self).spec_mapper(),
            final(self).spec_has_secondary() == old(self).spec_has_secondary(),
            final(self).reads() == old(self).reads(),
            spec_erase_all_done(*old(self), *final(self), r),
    {
        let first = erase_with_driver(&mut self.primary);
        if let Err(e) = first {
            return Err(e);
        }
        match &mut self.secondary {
            Some(d) => erase_with_driver(d),
            None => Ok(()),
        }
    }

    /// The number of blocks written from the start: the first block whose
    /// header cannot be read or says it is unused, else all blocks. The
    /// headers are read one block after the other from block 0 on.
    pub fn scan_used_blocks(&mut self) -> (r: u32)
        requires
            old(self).wf(),
        ensures
            r <= old(self).spec_mapper()@.spec_total_blocks(),
            final(self).spec_mapper() == old(self).spec_mapper(),
            final(self).spec_has_secondary() == old(self).spec_has_secondary(),
            final(self).reads().len() >= old(self).reads().len(),
            final(self).reads().take(old(self).reads().len() as int) == old(self).reads(),
            spec_scan_done(
                final(self).reads().skip(old(self).reads().len() as int),
                old(self).spec_mapper()@.block_size_bytes as nat,
                old(self).spec_mapper()@.spec_total_blocks() as nat,
                r,
            ),
    {
        let ghost o = self.reads();
        let block_size = self.mapper.geometry().block_size_bytes as usize;
        let total_blocks = self.mapper.total_blocks();
        let mut global_block: u32 = 0;
        proof {
            assert(o.take(o.len() as int) =~= o);
        }
        while global_block < total_blocks
            invariant
                self.wf(),
                total_blocks == self.spec_mapper()@.spec_total_blocks(),
                block_size == self.spec_mapper()@.block_size_bytes,
                global_block <= total_blocks,
                self.spec_mapper() == old(self).spec_mapper(),
                self.spec_has_secondary() == old(self).spec_has_secondary(),
                o == old(self).reads(),
                self.reads().len() == o.len() + global_block,
                self.reads().take(o.len() as int) == o,
                forall|i: int|
                    0 <= i < global_block ==> {
                        let e = #[trigger] self.reads()[o.len() + i];
                        &&& e.0 == i * block_size
                        &&& e.1.len() == 8
                        &&& e.2 is Ok
                        &&& !spec_header_unused(e.1)
                    },
            decreases total_blocks - global_block,
        {
            proof {
                vstd::arithmetic::mul::lemma_mul_inequality(
                    global_block as int,
                    total_blocks as int,
                    block_size as int,
                );
            }
            let ghost before = self.reads();
            let offset = global_block as usize * block_size;
            let mut header: [u8; 8] = [0xff; 8];
            let res = self.read_range_via_adapter(offset, &mut header);
            proof {
                let n = self.reads();
                assert(n.take(o.len() as int) =~= o) by {
                    assert(n.take(o.len() as int) =~= before.take(o.len() as int));
                }
                assert forall|i: int| 0 <= i < global_block implies #[trigger] n[o.len() + i]
                    == before[o.len() + i] by {}
            }
            if res.is_err() {
                proof {
                    let n = self.reads();
                    let sk = n.skip(o.len() as int);
                    assert forall|i: int| 0 <= i < sk.len() implies (#[trigger] sk[i]).0 == i
                        * block_size && sk[i].1.len() == 8 by {
                        assert(sk[i] == n[o.len() + i]);
                    }
                    assert forall|i: int| 0 <= i < global_block implies (#[trigger] sk[i]).2 is Ok
                        && !spec_header_unused(sk[i].1) by {
                        assert(sk[i] == n[o.len() + i]);
                    }
                    assert(sk[global_block as int] == n[o.len() + global_block]);
                }
                return global_block;
            }
            if header_unused(&header) {
                proof {
                    let n = self.reads();
                    let sk = n.skip(o.len() as int);
                    assert forall|i: int| 0 <= i < sk.len() implies (#[trigger] sk[i]).0 == i
                        * block_size && sk[i].1.len() == 8 by {
                        assert(sk[i] == n[o.len() + i]);
                    }
                    assert forall|i: int| 0 <= i < global_block implies (#[trigger] sk[i]).2 is Ok
                        && !spec_header_unused(sk[i].1) by {
                        assert(sk[i] == n[o.len() + i]);
                    }
                    assert(sk[global_block as int] == n[o.len() + global_block]);
                }
                return global_block;
            }
            global_block = global_block + 1;
        }
        proof {
            let n = self.reads();
            let sk = n.skip(o.len() as int);
            assert forall|i: int| 0 <= i < sk.len() implies (#[trigger] sk[i]).0 == i * block_size
                && sk[i].1.len() == 8 by {
                assert(sk[i] == n[o.len() + i]);
            }
            assert forall|i: int| 0 <= i < total_blocks implies (#[trigger] sk[i]).2 is Ok
                && !spec_header_unused(sk[i].1) by {
                assert(sk[i] == n[o.len() + i]);
            }
        }
        total_blocks
    }
}

impl<D: FlashDriver> StorageBackend for RuntimeReadAdapter<D> {
    closed spec fn spec_geometry(&self) -> StorageGeometry {
        self.mapper@
    }

    fn geometry(&self) -> (g: StorageGeometry) {
        self.mapper.geometry()
    }

    /// Where the shape fits, the read is made block by block, each piece
    /// from the chip it lies on, as `spec_read_done` says, and recorded with
    /// its bytes and answer; else it fails with `Internal` and changes
    /// nothing.
    closed spec fn spec_read_result(
        &self,
        after: Self,
        global_offset: usize,
        before: Seq<u8>,
        dest: Seq<u8>,
        r: Result<(), StorageError>,
    ) -> bool {
        if self.wf() {
            &&& after.spec_mapper() == self.spec_mapper()
            &&& after.spec_has_secondary() == self.spec_has_secondary()
            &&& spec_read_done(*self, after, global_offset as int, before.len() as int, dest, r)
            &&& after.reads() == self.reads().push((global_offset, dest, r))
        } else {
            after == *self && dest == before && r == Err::<(), StorageError>(StorageError::Internal)
        }
    }

    /// Where the shape fits, the block goes to the chip it lies on, as
    /// `spec_write_block_done` says, refused for a block past the end or on an
    /// absent chip; else the write fails with `Internal` and changes nothing.
    closed spec fn spec_write_result(
        &self,
        after: Self,
        index: u32,
        data: Seq<u8>,
        r: Result<(), StorageError>,
    ) -> bool {
        if self.wf() {
            &&& after.spec_mapper() == self.spec_mapper()
            &&& after.spec_has_secondary() == self.spec_has_secondary()
            &&& after.reads() == self.reads()
            &&& index >= self.spec_mapper()@.spec_total_blocks() ==> r == Err::<(), StorageError>(
                StorageError::InvalidAddress,
            )
            &&& index < self.spec_mapper()@.spec_total_blocks() && spec_block_bank(
                self.spec_mapper()@.banks,
                index as int,
            ) != 0 && !self.spec_has_secondary() ==> r == Err::<(), StorageError>(
                StorageError::InvalidAddress,
            )
            &&& spec_write_block_done(*self, after, index, data, r)
        } else {
            after == *self && r == Err::<(), StorageError>(StorageError::Internal)
        }
    }

    /// The chips are erased one after the other, as `spec_erase_all_done` says.
    closed spec fn spec_erase_result(&self, after: Self, r: Result<(), StorageError>) -> bool {
        &&& after.spec_mapper() == self.spec_mapper()
        &&& after.spec_has_secondary() == self.spec_has_secondary()
        &&& after.reads() == self.reads()
        &&& spec_erase_all_done(*self, after, r)
    }

    /// The chips wake and sleep on their own: nothing changes.
    closed spec fn spec_sleep_result(&self, after: Self, enabled: bool, r: Result<(), StorageError>) -> bool {
        after == *self && r == Ok::<(), StorageError>(())
    }

    /// Where the shape fits, the headers are read from block 0 on and the
    /// count is what they say; else the scan fails with `Internal` and
    /// changes nothing.
    closed spec fn spec_scan_result(&self, after: Self, r: Result<u32, StorageError>) -> bool {
        if self.wf() {
            &&& after.spec_mapper() == self.spec_mapper()
            &&& after.spec_has_secondary() == self.spec_has_secondary()
            &&& after.reads().len() >= self.reads().len()
            &&& after.reads().take(self.reads().len() as int) == self.reads()
            &&& spec_scan_answer(
                after.reads().skip(self.reads().len() as int),
                self.spec_mapper()@.block_size_bytes as nat,
                self.spec_mapper()@.spec_total_blocks() as nat,
                r,
            )
        } else {
            after == *self && r == Err::<u32, StorageError>(StorageError::Internal)
        }
    }

    /// Scans the block headers where the adapter's shape fits, with the
    /// inherent method of the same name; else fails with `Internal`.
    fn scan_used_blocks(&mut self) -> (r: Result<u32, StorageError>)
    {
        if !self.shape_ok() {
            return Err(StorageError::Internal);
        }
        Ok(RuntimeReadAdapter::scan_used_blocks(self))
    }

    /// Reads storage bytes where the adapter's shape fits; else fails with
    /// `Internal` and changes nothing.
    fn read_range(&mut self, global_offset: usize, dest: &mut [u8]) -> (r: Result<(), StorageError>)
        ensures
            !old(self).wf() ==> r == Err::<(), StorageError>(StorageError::Internal) && *final(self) == *old(self) && final(dest)@ == old(dest)@,
            old(self).wf() ==> final(self).reads() == old(self).reads().push(
                (global_offset, final(dest)@, r),
            ) && final(self).spec_mapper() == old(self).spec_mapper() && spec_read_done(
                *old(self),
                *final(self),
                global_offset as int,
                old(dest)@.len() as int,
                final(dest)@,
                r,
            ),
    {
        if !self.shape_ok() {
            return Err(StorageError::Internal);
        }
        self.read_range_via_adapter(global_offset, dest)
    }

    /// Writes a block where the adapter's shape fits; else fails with
    /// `Internal` and changes nothing.
    fn write_block(&mut self, global_block_index: u32, data: &[u8]) -> (r: Result<(), StorageError>)
        ensures
            !old(self).wf() ==> r == Err::<(), StorageError>(StorageError::Internal) && *final(self) == *old(self),
            old(self).wf() ==> spec_write_block_done(
                *old(self),
                *final(self),
                global_block_index,
                data@,
                r,
            ),
    {
        if !self.shape_ok() {
            return Err(StorageError::Internal);
        }
        self.write_block_via_adapter(global_block_index, data)
    }

    /// Erases the first chip, then the second, if there is one.
    fn erase_all(&mut self) -> (r: Result<(), StorageError>)
        ensures
            spec_erase_all_done(*old(self), *final(self), r),
    {
        self.erase_all_via_adapter()
    }

    /// The chips go to sleep and wake up on their own.
    fn set_sleep(&mut self, _enabled: bool) -> (r: Result<(), StorageError>)
        ensures
            r is Ok,
    {
        Ok(())
    }
}

/// The storage on the flash chips, ready to be handed to the storage context.
pub struct QSPIStorage<D> {
    adapter: RuntimeReadAdapter<D>,
    geometry: StorageGeometry,
    startup_used_blocks: u32,
}

impl<D: FlashDriver> QSPIStorage<D> {
    pub closed spec fn spec_geometry(&self) -> StorageGeometry {
        self.geometry
    }

    pub closed spec fn spec_startup_used_blocks(&self) -> u32 {
        self.startup_used_blocks
    }

    /// The header reads that the start-up scan made.
    pub closed spec fn spec_startup_reads(&self) -> Seq<(usize, Seq<u8>, Result<(), StorageError>)> {
        self.adapter.reads()
    }

    /// The count of written blocks is what the start-up scan found in the
    /// headers it read.
    pub open spec fn spec_scanned(&self) -> bool {
        spec_scan_done(
            self.spec_startup_reads(),
            self.spec_geometry().block_size_bytes as nat,
            self.spec_geometry().spec_total_blocks() as nat,
            self.spec_startup_used_blocks(),
        )
    }

    fn from_drivers(primary: D, secondary: Option<D>, banks: FlashBanks) -> (r: Result<Self, QspiError>)
        ensures
            r matches Ok(s) ==> s.spec_geometry().block_size_bytes == STORAGE_BLOCK_SIZE_BYTES
                && s.spec_geometry().banks == banks && s.spec_geometry().fits()
                && s.spec_startup_used_blocks() <= s.spec_geometry().spec_total_blocks()
                && s.spec_scanned(),
    {
        let geometry = geometry_from_driver(&primary, banks);
        let mapper = BlockMapper::new(geometry);
        let mut adapter = RuntimeReadAdapter::new(primary, secondary, mapper);
        if !adapter.shape_ok() {
            return Err(QspiError::Unknown);
        }
        let startup_used_blocks = adapter.scan_used_blocks();
        proof {
            assert(adapter.reads().skip(0) =~= adapter.reads());
        }
        Ok(QSPIStorage { adapter, geometry, startup_used_blocks })
    }

    /// The storage on one initialised chip. Fails where the chip's size does
    /// not fit the machine's integers.
    pub fn new_single(primary: D) -> (r: Result<Self, QspiError>)
        ensures
            r matches Ok(s) ==> s.spec_geometry().block_size_bytes == STORAGE_BLOCK_SIZE_BYTES
                && s.spec_geometry().banks == FlashBanks::One && s.spec_geometry().fits()
                && s.spec_startup_used_blocks() <= s.spec_geometry().spec_total_blocks()
                && s.spec_scanned(),
    {
        Self::from_drivers(primary, None, FlashBanks::One)
    }

    /// The storage on two initialised chips of the first one's kind; blocks
    /// alternate between them.
    pub fn new_dual(primary: D, secondary: D) -> (r: Result<Self, QspiError>)
        ensures
            r matches Ok(s) ==> s.spec_geometry().block_size_bytes == STORAGE_BLOCK_SIZE_BYTES
                && s.spec_geometry().banks == FlashBanks::Two && s.spec_geometry().fits()
                && s.spec_startup_used_blocks() <= s.spec_geometry().spec_total_blocks()
                && s.spec_scanned(),
    {
        Self::from_drivers(primary, Some(secondary), FlashBanks::Two)
    }

    /// A storage context in `mode` over these chips, with the blocks found
    /// written at start-up.
    pub fn into_context(self, mode: StorageMode) -> (r: StorageContext<RuntimeReadAdapter<D>>)
        ensures
            r@.mode == mode,
            r@.geometry == self.spec_geometry(),
            r@.meta is None,
            r@.initial_used_blocks == self.spec_startup_used_blocks(),
            r@.has_backend,
    {
        StorageContext::new(mode, self.geometry, self.startup_used_blocks, self.adapter)
    }
}

/// The first byte of a block lies within its chip's bytes.
proof fn lemma_block_start_in_bank(mapper: BlockMapper, block: int, local: int)
    requires
        mapper@.fits(),
        mapper@.block_size_bytes > 0,
        segment_of(mapper@.spec_total_bytes()) <= u32::MAX,
        0 <= block < mapper@.spec_total_blocks(),
        local == spec_block_local(mapper@.banks, block),
    ensures
        local * mapper@.block_size_bytes < mapper@.spec_total_bytes(),
        segment_of(local * mapper@.block_size_bytes) <= u32::MAX,
{
    let bs = mapper@.block_size_bytes as int;
    assert(0 <= local <= block) by {
        if mapper@.banks == FlashBanks::Two {
            vstd::arithmetic::div_mod::lemma_div_pos_is_pos(block, 2);
            vstd::arithmetic::div_mod::lemma_div_is_ordered_by_denominator(block, 1, 2);
        }
    }
    vstd::arithmetic::mul::lemma_mul_inequality(local, block, bs);
    vstd::arithmetic::mul::lemma_mul_strict_inequality(block, mapper@.spec_total_blocks(), bs);
    vstd::arithmetic::mul::lemma_mul_nonnegative(local, bs);
    vstd::arithmetic::div_mod::lemma_div_is_ordered(
        local * bs,
        mapper@.spec_total_bytes(),
        SEGMENT_BYTES as int,
    );
}

/// A piece that stays in its block ends within its chip's bytes.
proof fn lemma_chunk_in_bank(mapper: BlockMapper, absolute: int, chunk: int, addr: OffsetAddress)
    requires
        mapper@.fits(),
        mapper@.block_size_bytes > 0,
        0 <= absolute < mapper@.spec_total_bytes(),
        segment_of(mapper@.spec_total_bytes()) <= u32::MAX,
        1 <= chunk <= mapper@.block_size_bytes - absolute % (mapper@.block_size_bytes as int),
        addr.local_byte_offset == spec_block_local(mapper@.banks, absolute / (mapper@.block_size_bytes as int))
            * mapper@.block_size_bytes + absolute % (mapper@.block_size_bytes as int),
    ensures
        absolute + chunk <= mapper@.spec_total_bytes(),
        addr.local_byte_offset + chunk <= mapper@.spec_total_bytes(),
        segment_of(addr.local_byte_offset + chunk) <= u32::MAX,
{
    let bs = mapper@.block_size_bytes as int;
    let block = absolute / bs;
    let local = spec_block_local(mapper@.banks, block);
    vstd::arithmetic::div_mod::lemma_fundamental_div_mod(absolute, bs);
    assert(0 <= local <= block) by {
        vstd::arithmetic::div_mod::lemma_div_pos_is_pos(absolute, bs);
        if mapper@.banks == FlashBanks::Two {
            vstd::arithmetic::div_mod::lemma_div_pos_is_pos(block, 2);
            vstd::arithmetic::div_mod::lemma_div_is_ordered_by_denominator(block, 1, 2);
        }
    }
    assert(local * bs <= block * bs) by {
        vstd::arithmetic::mul::lemma_mul_inequality(local, block, bs);
    }
    assert(block * bs + bs <= mapper@.spec_total_bytes()) by {
        let total = mapper@.spec_total_blocks();
        vstd::arithmetic::div_mod::lemma_div_is_ordered(absolute, total * bs - 1, bs);
        vstd::arithmetic::mul::lemma_mul_is_commutative(bs, block);
        if block >= total {
            vstd::arithmetic::mul::lemma_mul_inequality(total, block, bs);
            vstd::arithmetic::mul::lemma_mul_is_commutative(bs, total);
            assert(false);
        }
        vstd::arithmetic::mul::lemma_mul_inequality(block + 1, total, bs);
        vstd::arithmetic::mul::lemma_mul_is_distributive_add(bs, block, 1);
        vstd::arithmetic::mul::lemma_mul_is_commutative(bs, block + 1);
        vstd::arithmetic::mul::lemma_mul_is_commutative(bs, total);
    }
    vstd::arithmetic::div_mod::lemma_div_is_ordered(
        addr.local_byte_offset + chunk,
        mapper@.spec_total_bytes(),
        SEGMENT_BYTES as int,
    );
}

} // verus!

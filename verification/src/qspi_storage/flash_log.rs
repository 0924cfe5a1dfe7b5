//! A flash chip as the storage holds it, the requests the storage makes of
//! it, and the sequences of requests that reads, writes and erases make.

use vstd::prelude::*;

use crate::main_data_storage::types::StorageError;
use crate::qspi::types::QspiError;

use super::flash_config::{spec_wrap_adress, FlashConfig, SEGMENT_BYTES};
use super::qspi_driver::FlashDriver;
use super::{spec_map_qspi_error, spec_segment_chunk};

verus! {

/// One request made of a flash chip, with the chip's answer.
pub enum FlashOp {
    WakeUp(Result<(), QspiError>),
    /// The address segment selected.
    SetExtender(u32, Result<(), QspiError>),
    /// The address in the segment, the bytes read, the outcome.
    ReadDirect(u32, Seq<u8>, Result<(), QspiError>),
    /// The address in the segment, the bytes written, the outcome.
    WriteBlock(u32, Seq<u8>, Result<(), QspiError>),
    Erase(Result<(), QspiError>),
    WantSleep,
}

/// The error a request answered with, if any.
pub open spec fn spec_op_error(op: FlashOp) -> Option<QspiError> {
    match op {
        FlashOp::WakeUp(Err(e)) => Some(e),
        FlashOp::SetExtender(_, Err(e)) => Some(e),
        FlashOp::ReadDirect(_, _, Err(e)) => Some(e),
        FlashOp::WriteBlock(_, _, Err(e)) => Some(e),
        FlashOp::Erase(Err(e)) => Some(e),
        _ => None,
    }
}

/// `r` is the storage's answer to the requests `ops` of one chip, which end
/// with putting the chip back to sleep where every request went through, and
/// stop at the first that failed.
pub open spec fn spec_answer(ops: Seq<FlashOp>, r: Result<(), StorageError>) -> bool {
    &&& ops.len() > 0
    &&& r is Ok ==> ops.last() == FlashOp::WantSleep && forall|i: int|
        0 <= i < ops.len() ==> spec_op_error(#[trigger] ops[i]) is None
    &&& r matches Err(e) ==> {
        &&& spec_op_error(ops.last()) is Some
        &&& e == spec_map_qspi_error(spec_op_error(ops.last())->Some_0)
        &&& forall|i: int| 0 <= i < ops.len() - 1 ==> spec_op_error(#[trigger] ops[i]) is None
    }
}

/// The requests of an erase: wake the chip, erase it, let it sleep.
pub open spec fn spec_erase_done(ops: Seq<FlashOp>, r: Result<(), StorageError>) -> bool {
    &&& spec_answer(ops, r)
    &&& ops[0] is WakeUp
    &&& ops.len() >= 2 ==> ops[1] is Erase
    &&& ops.len() <= 3
    &&& r is Ok ==> ops.len() == 3
}

/// The requests of a write of `data` at byte `local_offset` of a chip: wake
/// it, select the offset's segment, write there, let it sleep.
pub open spec fn spec_write_done(
    ops: Seq<FlashOp>,
    local_offset: nat,
    data: Seq<u8>,
    r: Result<(), StorageError>,
) -> bool {
    let (ext, addr) = spec_wrap_adress(local_offset);
    &&& spec_answer(ops, r)
    &&& ops[0] is WakeUp
    &&& ops.len() >= 2 ==> (ops[1] is SetExtender && ops[1]->SetExtender_0 == ext)
    &&& ops.len() >= 3 ==> (ops[2] is WriteBlock && ops[2]->WriteBlock_0 == addr
        && ops[2]->WriteBlock_1 == data)
    &&& ops.len() <= 4
    &&& r is Ok ==> ops.len() == 4
}

/// The requests that read `len` bytes at byte `absolute` of a chip, all gone
/// through: piece by piece within address segments, each piece after
/// selecting its segment; `data` is what the pieces gave, in order.
pub open spec fn spec_read_pieces(ops: Seq<FlashOp>, absolute: nat, len: nat, data: Seq<u8>) -> bool
    decreases len,
{
    if len == 0 {
        ops.len() == 0 && data.len() == 0
    } else {
        let (ext, addr, chunk) = spec_segment_chunk(absolute, len);
        &&& 1 <= chunk <= len
        &&& ops.len() >= 2
        &&& data.len() >= chunk
        &&& ops[0] is SetExtender && ops[0]->SetExtender_0 == ext && ops[0]->SetExtender_1 is Ok
        &&& ops[1] is ReadDirect && ops[1]->ReadDirect_0 == addr && ops[1]->ReadDirect_1 == data.take(
            chunk as int,
        ) && ops[1]->ReadDirect_2 is Ok
        &&& spec_read_pieces(ops.skip(2), absolute + chunk, (len - chunk) as nat, data.skip(chunk as int))
    }
}

/// The requests in `n` after those in `o`, where `n` starts with `o`.
pub open spec fn spec_added(o: Seq<FlashOp>, n: Seq<FlashOp>) -> Seq<FlashOp> {
    n.skip(o.len() as int)
}

/// `n` starts with the requests `o`.
pub open spec fn spec_extends(o: Seq<FlashOp>, n: Seq<FlashOp>) -> bool {
    n.len() >= o.len() && n.take(o.len() as int) == o
}

/// A request added after `n` is added after `o` too.
pub proof fn lemma_added_push(o: Seq<FlashOp>, n: Seq<FlashOp>, x: FlashOp)
    requires
        spec_extends(o, n),
    ensures
        spec_extends(o, n.push(x)),
        spec_added(o, n.push(x)) == spec_added(o, n).push(x),
{
    assert(n.push(x).take(o.len() as int) =~= n.take(o.len() as int));
    assert(spec_added(o, n.push(x)) =~= spec_added(o, n).push(x));
}

/// Nothing is added after `o` in `o` itself.
pub proof fn lemma_added_none(o: Seq<FlashOp>)
    ensures
        spec_extends(o, o),
        spec_added(o, o) == Seq::<FlashOp>::empty(),
{
    assert(o.take(o.len() as int) =~= o);
    assert(spec_added(o, o) =~= Seq::<FlashOp>::empty());
}

/// A read that went through up to a segment boundary, or not at all, goes on
/// with one more piece that stays within the next segment.
pub proof fn lemma_read_pieces_append(
    ops: Seq<FlashOp>,
    a: nat,
    w: nat,
    d: Seq<u8>,
    c: nat,
    bytes: Seq<u8>,
    r1: Result<(), QspiError>,
    r2: Result<(), QspiError>,
)
    requires
        r1 is Ok,
        r2 is Ok,
        spec_read_pieces(ops, a, w, d),
        w == 0 || (a + w) % (SEGMENT_BYTES as nat) == 0,
        1 <= c,
        spec_segment_chunk(a + w, c).2 == c,
        bytes.len() == c,
    ensures
        spec_read_pieces(
            ops + seq![
                FlashOp::SetExtender(spec_segment_chunk(a + w, c).0, r1),
                FlashOp::ReadDirect(spec_segment_chunk(a + w, c).1, bytes, r2),
            ],
            a,
            w + c,
            d + bytes,
        ),
    decreases w,
{
    let tail = seq![
        FlashOp::SetExtender(spec_segment_chunk(a + w, c).0, r1),
        FlashOp::ReadDirect(spec_segment_chunk(a + w, c).1, bytes, r2),
    ];
    let seg = SEGMENT_BYTES as nat;
    if w == 0 {
        assert(ops =~= Seq::<FlashOp>::empty());
        assert(d =~= Seq::<u8>::empty());
        assert((ops + tail) =~= tail);
        assert((d + bytes) =~= bytes);
        assert(bytes.take(c as int) =~= bytes);
        assert(tail.skip(2) =~= Seq::<FlashOp>::empty());
        assert(bytes.skip(c as int) =~= Seq::<u8>::empty());
        assert(spec_read_pieces(tail.skip(2), a + c, 0, bytes.skip(c as int)));
    } else {
        let (e0, ad0, c0) = spec_segment_chunk(a, w);
        let to_end: nat = (seg - a % seg) as nat;
        assert(c0 == if w < to_end { w } else { to_end });
        assert(spec_segment_chunk(a, w + c).2 == c0) by {
            if w < to_end {
                assert((a + w) % seg != 0) by {
                    assert(a % seg + w < seg);
                    vstd::arithmetic::div_mod::lemma_fundamental_div_mod(a as int, seg as int);
                    vstd::arithmetic::div_mod::lemma_mod_add_multiples_vanish(
                        (a % seg + w) as int,
                        seg as int,
                    );
                    assert(a + w == (a / seg) * seg + (a % seg + w));
                    vstd::arithmetic::div_mod::lemma_mod_multiples_vanish(
                        (a / seg) as int,
                        (a % seg + w) as int,
                        seg as int,
                    );
                    vstd::arithmetic::div_mod::lemma_small_mod((a % seg + w) as nat, seg);
                }
            }
        }
        let rest = ops.skip(2);
        lemma_read_pieces_append(rest, a + c0, (w - c0) as nat, d.skip(c0 as int), c, bytes, r1, r2);
        assert((ops + tail).skip(2) =~= rest + tail);
        assert((d + bytes).skip(c0 as int) =~= d.skip(c0 as int) + bytes);
        assert((d + bytes).take(c0 as int) =~= d.take(c0 as int));
        assert((ops + tail)[0] == ops[0]);
        assert((ops + tail)[1] == ops[1]);
        assert(a + c0 + (w - c0) == a + w);
    }
}

/// A flash chip as the storage holds it.
pub struct FlashLog<D> {
    driver: D,
}

impl<D> FlashLog<D> {
    /// The chip's driver.
    pub closed spec fn spec_driver(&self) -> D {
        self.driver
    }
}

impl<D: FlashDriver> FlashLog<D> {
    /// The requests made of the chip so far, oldest first.
    pub open spec fn ops(&self) -> Seq<FlashOp> {
        self.spec_driver().spec_ops()
    }

    pub fn new(driver: D) -> (r: Self)
        ensures
            r.spec_driver() == driver,
    {
        FlashLog { driver }
    }

    pub fn driver(&self) -> (r: &D)
        ensures
            *r == self.spec_driver(),
    {
        &self.driver
    }

    /// The chip's configuration, as its driver answers it.
    pub fn config(&self) -> (r: FlashConfig)
        ensures
            self.spec_driver().spec_config_is(r),
    {
        self.driver.config()
    }

    pub fn wake_up(&mut self) -> (r: Result<(), QspiError>)
        ensures
            final(self).ops() == old(self).ops().push(FlashOp::WakeUp(r)),
    {
        self.driver.wake_up()
    }

    pub fn set_addr_extender(&mut self, extender_value: u32) -> (r: Result<(), QspiError>)
        ensures
            final(self).ops() == old(self).ops().push(FlashOp::SetExtender(extender_value, r)),
    {
        self.driver.set_addr_extender(extender_value)
    }

    pub fn read_direct(&mut self, start_address: u32, dest: &mut [u8]) -> (r: Result<(), QspiError>)
        ensures
            final(dest)@.len() == old(dest)@.len(),
            final(self).ops() == old(self).ops().push(
                FlashOp::ReadDirect(start_address, final(dest)@, r),
            ),
    {
        self.driver.read_direct(start_address, dest)
    }

    pub fn write_block(&mut self, start_address: u32, data: &[u8]) -> (r: Result<(), QspiError>)
        ensures
            final(self).ops() == old(self).ops().push(
                FlashOp::WriteBlock(start_address, data@, r),
            ),
    {
        self.driver.write_block(start_address, data)
    }

    pub fn erase(&mut self) -> (r: Result<(), QspiError>)
        ensures
            final(self).ops() == old(self).ops().push(FlashOp::Erase(r)),
    {
        self.driver.erase()
    }

    pub fn want_sleep(&mut self)
        ensures
            final(self).ops() == old(self).ops().push(FlashOp::WantSleep),
    {
        self.driver.want_sleep()
    }
}

} // verus!

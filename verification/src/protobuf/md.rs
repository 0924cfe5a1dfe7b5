//! The header of a request: a magic byte, then the message length as a varint.

use vstd::prelude::*;

use super::messages::INFO_MAGICK;
use super::stream::Stream;

verus! {

/// Longest message accepted, in bytes.
pub const MAX_MESSAGE_LENGTH: usize = 1500;

/// Why a request header was refused.
#[derive(Debug, Clone, Copy, PartialEq, Eq, Structural)]
pub enum MdError {
    /// The stream failed.
    Input,
    /// The first byte is not the magic byte.
    InvalidMagick(u8),
    /// The length is zero or above the longest message.
    InvalidLength(usize),
    /// The length is not a complete varint.
    InvalidVarint,
}

#[verifier::external_type_specification]
#[verifier::external_body]
pub struct ExDecodeError(prost::DecodeError);

/// The value of the LEB128 varint at the start of `s`, if `s` holds a complete one.
pub open spec fn spec_varint(s: Seq<u8>) -> Option<nat>
    decreases s.len(),
{
    if s.len() == 0 {
        None
    } else if s[0] < 0x80 {
        Some(s[0] as nat)
    } else {
        match spec_varint(s.drop_first()) {
            Some(v) => Some(((s[0] - 0x80) + 128 * v) as nat),
            None => None,
        }
    }
}

/// `128` to the power `n`: one more than the largest value of `n` varint bytes.
pub open spec fn varint_bound(n: nat) -> nat
    decreases n,
{
    if n == 0 {
        1
    } else {
        128 * varint_bound((n - 1) as nat)
    }
}

/// A varint of `n` bytes stays below `varint_bound(n)`.
pub proof fn lemma_varint_bound(s: Seq<u8>)
    ensures
        spec_varint(s) matches Some(v) ==> v < varint_bound(s.len()),
    decreases s.len(),
{
    if s.len() > 0 {
        lemma_varint_bound(s.drop_first());
        if s[0] >= 0x80 {
            if let Some(v) = spec_varint(s.drop_first()) {
                assert(varint_bound(s.len()) == 128 * varint_bound(s.drop_first().len()));
            }
        } else {
            assert(varint_bound(s.len()) == 128 * varint_bound(s.drop_first().len()));
            assert(varint_bound(s.drop_first().len()) >= 1) by {
                lemma_varint_bound_pos(s.drop_first().len());
            }
        }
    }
}

proof fn lemma_varint_bound_pos(n: nat)
    ensures
        varint_bound(n) >= 1,
    decreases n,
{
    if n > 0 {
        lemma_varint_bound_pos((n - 1) as nat);
    }
}

/// `prost::decode_length_delimiter` on a slice. For up to four bytes it returns the
/// value of the varint the bytes start with, and fails when no byte ends a varint.
#[verifier::external_body]
fn decode_length_delimiter(data: &[u8]) -> (r: Result<usize, prost::DecodeError>)
    ensures
        data@.len() <= 4 ==> (r is Ok <==> spec_varint(data@) is Some),
        data@.len() <= 4 ==> (r matches Ok(v) ==> spec_varint(data@) == Some(v as nat)),
{
    prost::decode_length_delimiter(data)
}

/// Checks the first byte of a request.
pub fn check_magick(b: u8) -> (r: Result<(), MdError>)
    ensures
        b == INFO_MAGICK ==> r == Ok::<(), MdError>(()),
        b != INFO_MAGICK ==> r == Err::<(), MdError>(MdError::InvalidMagick(b)),
{
    if b != INFO_MAGICK {
        Err(MdError::InvalidMagick(b))
    } else {
        Ok(())
    }
}

/// What `msg_size_from_varint` returns for the collected length bytes.
pub open spec fn spec_msg_size(data: Seq<u8>) -> Result<usize, MdError> {
    match spec_varint(data) {
        Some(v) => if v == 0 || v > MAX_MESSAGE_LENGTH {
            Err(MdError::InvalidLength(v as usize))
        } else {
            Ok(v as usize)
        },
        None => Err(MdError::InvalidVarint),
    }
}

/// The message length from the collected varint bytes: between one and the
/// longest message.
pub fn msg_size_from_varint(data: &[u8]) -> (r: Result<usize, MdError>)
    requires
        data@.len() <= 4,
    ensures
        r == spec_msg_size(data@),
{
    match decode_length_delimiter(data) {
        Ok(v) => {
            if v == 0 || v > MAX_MESSAGE_LENGTH {
                Err(MdError::InvalidLength(v))
            } else {
                Ok(v)
            }
        },
        Err(_) => Err(MdError::InvalidVarint),
    }
}

/// What `check_magick` answers for `b`.
pub open spec fn spec_check_magick(b: u8) -> Result<(), MdError> {
    if b == INFO_MAGICK {
        Ok(())
    } else {
        Err(MdError::InvalidMagick(b))
    }
}

/// The read of the magic byte from `s`, leaving the stream as `fin`: one
/// byte is read; a failed read answers `Input`, else the byte is checked.
pub open spec fn spec_magick_done<T, S: Stream<T>>(s: S, fin: S, r: Result<(), MdError>) -> bool {
    exists|b: Seq<u8>, res: Result<(), T>|
        #![trigger s.spec_read(fin, seq![0u8], b, res)]
        s.spec_read(fin, seq![0u8], b, res) && b.len() == 1 && r == if res is Err {
            Err(MdError::Input)
        } else {
            spec_check_magick(b[0])
        }
}

/// The reads of the length bytes from `states[0]` on, one byte each:
/// `states[i]` to `states[i + 1]` is read `i`, giving `bytes[i]` with answer
/// `oks[i]`. The reads go on while they went through and the byte says more
/// follow, four at most; the answer is `Input` after a failed read, else the
/// length of the bytes read.
pub open spec fn spec_size_reads<T, S: Stream<T>>(
    states: Seq<S>,
    bytes: Seq<u8>,
    oks: Seq<Result<(), T>>,
    r: Result<usize, MdError>,
) -> bool {
    let n = bytes.len();
    &&& 1 <= n <= 4
    &&& states.len() == n + 1
    &&& oks.len() == n
    &&& forall|i: int|
        0 <= i < n ==> #[trigger] states[i].spec_read(
            states[i + 1],
            seq![0u8],
            seq![bytes[i]],
            oks[i],
        )
    &&& forall|i: int| 0 <= i < n - 1 ==> #[trigger] oks[i] is Ok && bytes[i] >= 0x80
    &&& oks[n - 1] is Err ==> r == Err::<usize, MdError>(MdError::Input)
    &&& oks[n - 1] is Ok ==> (bytes[n - 1] < 0x80 || n == 4) && r == spec_msg_size(bytes)
}

/// The reads of the message length from `s`, leaving the stream as `fin`.
pub open spec fn spec_size_done<T, S: Stream<T>>(s: S, fin: S, r: Result<usize, MdError>) -> bool {
    exists|states: Seq<S>, bytes: Seq<u8>, oks: Seq<Result<(), T>>|
        #![trigger spec_size_reads(states, bytes, oks, r)]
        spec_size_reads(states, bytes, oks, r) && states[0] == s && states.last() == fin
}

/// Reads and checks the magic byte.
pub fn decode_magick<T, S: Stream<T>>(stream: &mut S) -> (r: Result<(), MdError>)
    ensures
        spec_magick_done(*old(stream), *final(stream), r),
        r is Ok || r == Err::<(), MdError>(MdError::Input) || (r matches Err(
            MdError::InvalidMagick(b),
        ) && b != INFO_MAGICK),
{
    let mut v = [0u8; 1];
    proof {
        assert(v@ =~= seq![0u8]);
    }
    let res = stream.read(&mut v);
    let r = match res {
        Ok(()) => check_magick(v[0]),
        Err(_) => Err(MdError::Input),
    };
    proof {
        assert(old(stream).spec_read(*stream, seq![0u8], v@, res) && v@.len() == 1 && r == if res
            is Err {
            Err(MdError::Input)
        } else {
            spec_check_magick(v@[0])
        });
    }
    r
}

/// Reads the varint bytes of the message length, one at a time and at most
/// four, and decodes them.
pub fn decode_msg_size<T, S: Stream<T>>(stream: &mut S) -> (r: Result<usize, MdError>)
    ensures
        spec_size_done(*old(stream), *final(stream), r),
        r matches Ok(v) ==> 1 <= v <= MAX_MESSAGE_LENGTH,
        r matches Err(e) ==> (e == MdError::Input || e == MdError::InvalidVarint || (e matches MdError::InvalidLength(v) && (v == 0 || v > MAX_MESSAGE_LENGTH))),
{
    let mut data: Vec<u8> = Vec::new();
    let mut count: usize = 0;
    let ghost mut states: Seq<S> = seq![*stream];
    let ghost mut oks: Seq<Result<(), T>> = Seq::empty();
    loop
        invariant
            data@.len() == count,
            count < 4,
            states.len() == count + 1,
            oks.len() == count,
            states[0] == *old(stream),
            states.last() == *stream,
            forall|i: int|
                0 <= i < count ==> #[trigger] states[i].spec_read(
                    states[i + 1],
                    seq![0u8],
                    seq![data@[i]],
                    oks[i],
                ),
            forall|i: int| 0 <= i < count ==> #[trigger] oks[i] is Ok && data@[i] >= 0x80,
        decreases 4 - count,
    {
        let mut b = [0u8; 1];
        proof {
            assert(b@ =~= seq![0u8]);
        }
        let ghost prev = *stream;
        let res = stream.read(&mut b);
        proof {
            assert(b@ =~= seq![b@[0]]);
            states = states.push(*stream);
            oks = oks.push(res);
        }
        data.push(b[0]);
        count = count + 1;
        if res.is_err() {
            let r = Err(MdError::Input);
            proof {
                assert forall|i: int| 0 <= i < count implies #[trigger] states[i].spec_read(
                    states[i + 1],
                    seq![0u8],
                    seq![data@[i]],
                    oks[i],
                ) by {
                    if i == count - 1 {
                        assert(states[i] == prev);
                    }
                }
                assert(spec_size_reads(states, data@, oks, r));
            }
            return r;
        }
        if b[0] < 0x80 || count == 4 {
            proof {
                lemma_varint_bound(data@);
                reveal_with_fuel(varint_bound, 5);
            }
            let r = msg_size_from_varint(data.as_slice());
            proof {
                assert forall|i: int| 0 <= i < count implies #[trigger] states[i].spec_read(
                    states[i + 1],
                    seq![0u8],
                    seq![data@[i]],
                    oks[i],
                ) by {
                    if i == count - 1 {
                        assert(states[i] == prev);
                    }
                }
                assert(spec_size_reads(states, data@, oks, r));
            }
            return r;
        }
        proof {
            assert forall|i: int| 0 <= i < count implies #[trigger] states[i].spec_read(
                states[i + 1],
                seq![0u8],
                seq![data@[i]],
                oks[i],
            ) by {
                if i == count - 1 {
                    assert(states[i] == prev);
                }
            }
        }
    }
}

/// The length bytes of a header collected one at a time, for readers that
/// cannot block: each byte goes in by `push`, which says when the length is
/// complete.
pub struct MsgSizeReader {
    data: Vec<u8>,
}

impl MsgSizeReader {
    pub closed spec fn spec_data(&self) -> Seq<u8> {
        self.data@
    }

    pub fn new() -> (r: Self)
        ensures
            r.spec_data() == Seq::<u8>::empty(),
    {
        MsgSizeReader { data: Vec::new() }
    }

    /// Takes the next byte. Once a byte ends the varint, or four bytes are in,
    /// returns the length they give, as `msg_size_from_varint` does; before,
    /// `None`.
    pub fn push(&mut self, b: u8) -> (r: Option<Result<usize, MdError>>)
        requires
            old(self).spec_data().len() < 4,
        ensures
            final(self).spec_data() == old(self).spec_data().push(b),
            (b < 0x80 || final(self).spec_data().len() == 4) ==> r == Some(
                spec_msg_size(final(self).spec_data()),
            ),
            !(b < 0x80 || final(self).spec_data().len() == 4) ==> r is None,
    {
        self.data.push(b);
        if b < 0x80 || self.data.len() == 4 {
            Some(msg_size_from_varint(self.data.as_slice()))
        } else {
            None
        }
    }
}

/// Reads the request header and returns the message length: the magic byte
/// first; where it is refused, that answer, else the length read after it.
pub fn recive_md_header<T, S: Stream<T>>(stream: &mut S) -> (r: Result<usize, MdError>)
    ensures
        exists|mid: S, r1: Result<(), MdError>|
            #![trigger spec_magick_done(*old(stream), mid, r1)]
            spec_magick_done(*old(stream), mid, r1) && (r1 matches Err(e) ==> r == Err::<
                usize,
                MdError,
            >(e) && *final(stream) == mid) && (r1 is Ok ==> spec_size_done(mid, *final(stream), r)),
        r matches Ok(v) ==> 1 <= v <= MAX_MESSAGE_LENGTH,
        r matches Err(e) ==> (e == MdError::Input || e == MdError::InvalidVarint || (e matches MdError::InvalidMagick(b) && b != INFO_MAGICK) || (e matches MdError::InvalidLength(v) && (v == 0 || v > MAX_MESSAGE_LENGTH))),
{
    let r1 = decode_magick(stream);
    let ghost mid = *stream;
    match r1 {
        Ok(()) => {},
        Err(e) => {
            proof {
                assert(spec_magick_done(*old(stream), mid, r1));
            }
            return Err(e);
        },
    }
    let r = decode_msg_size(stream);
    proof {
        assert(spec_magick_done(*old(stream), mid, r1));
    }
    r
}

} // verus!

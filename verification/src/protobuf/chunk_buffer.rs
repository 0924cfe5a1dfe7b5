//! Bytes that arrive in chunks, handed out in the sizes a reader asks for.

use vstd::prelude::*;

verus! {

/// The bytes of the last chunk that no reader took yet.
pub struct ChunkBuffer {
    data: Vec<u8>,
}

impl View for ChunkBuffer {
    type V = Seq<u8>;

    closed spec fn view(&self) -> Seq<u8> {
        self.data@
    }
}

impl ChunkBuffer {
    pub fn new() -> (r: Self)
        ensures
            r@ == Seq::<u8>::empty(),
    {
        ChunkBuffer { data: Vec::new() }
    }

    /// Whether a new chunk is needed before anything can be taken.
    pub fn is_empty(&self) -> (r: bool)
        ensures
            r == (self@.len() == 0),
    {
        self.data.len() == 0
    }

    /// Puts a new chunk in place of the used-up one.
    pub fn refill(&mut self, chunk: Vec<u8>)
        ensures
            final(self)@ == chunk@,
    {
        self.data = chunk;
    }

    /// Takes the first `n` bytes, or all there are when fewer.
    pub fn take(&mut self, n: usize) -> (r: Vec<u8>)
        ensures
            ({
                let k = if n < old(self)@.len() { n as int } else { old(self)@.len() as int };
                &&& r@ == old(self)@.take(k)
                &&& final(self)@ == old(self)@.skip(k)
            }),
    {
        let len = self.data.len();
        let k = if n < len {
            n
        } else {
            len
        };
        let mut taken: Vec<u8> = Vec::new();
        let mut rest: Vec<u8> = Vec::new();
        let mut i: usize = 0;
        while i < len
            invariant
                len == self.data@.len(),
                k <= len,
                i <= len,
                i <= k ==> taken@ == self.data@.take(i as int) && rest@.len() == 0,
                i > k ==> taken@ == self.data@.take(k as int) && rest@ == self.data@.subrange(
                    k as int,
                    i as int,
                ),
            decreases len - i,
        {
            if i < k {
                taken.push(self.data[i]);
                proof {
                    assert(self.data@.take(i + 1) =~= self.data@.take(i as int).push(self.data@[i as int]));
                }
            } else {
                rest.push(self.data[i]);
                proof {
                    if i == k {
                        assert(rest@ =~= self.data@.subrange(k as int, i + 1));
                    } else {
                        assert(self.data@.subrange(k as int, i + 1) =~= self.data@.subrange(
                            k as int,
                            i as int,
                        ).push(self.data@[i as int]));
                    }
                }
            }
            i = i + 1;
        }
        proof {
            if len <= k {
                assert(self.data@.skip(k as int) =~= Seq::<u8>::empty());
            } else {
                assert(self.data@.skip(k as int) =~= self.data@.subrange(k as int, len as int));
            }
        }
        self.data = rest;
        taken
    }
}

} // verus!

use vstd::prelude::*;

verus! {

/// A source of request bytes.
pub trait Stream<E>: Sized {
    /// Whether a read into a buffer holding `before` leaves it holding `buf`,
    /// answers `r` and leaves the stream as `after`. A stream that does not
    /// describe its reads keeps this open.
    open spec fn spec_read(&self, after: Self, before: Seq<u8>, buf: Seq<u8>, r: Result<(), E>) -> bool {
        true
    }

    /// Fills `buf` with the next bytes; a slice behind `&mut` keeps its length.
    fn read(&mut self, buf: &mut [u8]) -> (r: Result<(), E>)
        ensures
            final(buf)@.len() == old(buf)@.len(),
            old(self).spec_read(*final(self), old(buf)@, final(buf)@, r),
    ;

    /// All the bytes left.
    fn read_all(&mut self) -> Result<Vec<u8>, E>;
}

} // verus!

//! The identification that a flash chip answers to the JEDEC ID command.

use vstd::prelude::*;

verus! {

/// Manufacturer code and the two device id bytes (memory type, capacity).
#[derive(Copy, Clone, Debug, PartialEq, Eq, Structural)]
pub struct Identification {
    pub mfr: u8,
    pub memory_type: u8,
    pub capacity: u8,
}

impl Identification {
    /// The identification in the three bytes of a JEDEC ID answer.
    pub fn from_jedec_id(id: &[u8; 3]) -> (r: Self)
        ensures
            r.mfr == id@[0],
            r.memory_type == id@[1],
            r.capacity == id@[2],
    {
        Identification { mfr: id[0], memory_type: id[1], capacity: id[2] }
    }

    pub fn mfr_code(&self) -> (r: u8)
        ensures
            r == self.mfr,
    {
        self.mfr
    }

    /// Memory type and capacity code.
    pub fn device_id(&self) -> (r: [u8; 2])
        ensures
            r@ == seq![self.memory_type, self.capacity],
    {
        let r: [u8; 2] = [self.memory_type, self.capacity];
        proof {
            assert(r@ =~= seq![self.memory_type, self.capacity]);
        }
        r
    }
}

} // verus!

//! What the storage needs to know of a flash chip.

use vstd::prelude::*;

use crate::qspi::types::AddressSize;

verus! {

/// Size of one address segment: the flash is addressed with 24 bits within a
/// segment, and the segment is chosen by the address extender register.
pub const SEGMENT_BYTES: usize = 0x0100_0000;

/// The address segment that byte `x` lies in.
pub open spec fn segment_of(x: int) -> int {
    x / SEGMENT_BYTES as int
}

/// The number of bytes of an address of this size.
pub open spec fn spec_address_bytes(s: AddressSize) -> nat {
    match s {
        AddressSize::Addr8Bit => 1,
        AddressSize::Addr16Bit => 2,
        AddressSize::Addr24Bit => 3,
        AddressSize::Addr32Bit => 4,
    }
}

pub fn address_bytes(s: AddressSize) -> (r: usize)
    ensures
        r == spec_address_bytes(s),
{
    match s {
        AddressSize::Addr8Bit => 1,
        AddressSize::Addr16Bit => 2,
        AddressSize::Addr24Bit => 3,
        AddressSize::Addr32Bit => 4,
    }
}

/// Commands, timings and size of one kind of flash chip.
#[derive(Copy, Clone, Debug, PartialEq, Eq, Structural)]
pub struct FlashConfig {
    /// JEDEC manufacturer code.
    pub vendor_id: u8,
    /// JEDEC capacity code.
    pub capacity_code: u8,
    /// Bytes of one chip.
    pub capacity_bytes: usize,
    /// Largest number of bytes one program command takes.
    pub write_max_bytes: usize,
    pub read_dumy_cycles: u8,
    pub write_dumy_cycles: u8,
    /// Size of the address extender register's value.
    pub address_size: AddressSize,
    pub enter_deep_sleep_command_code: u8,
    pub wake_up_command_code: u8,
}

/// The segment of `absolute` and its address within the segment.
pub open spec fn spec_wrap_adress(absolute: nat) -> (u32, u32) {
    ((absolute / (SEGMENT_BYTES as nat)) as u32, (absolute % (SEGMENT_BYTES as nat)) as u32)
}

impl FlashConfig {
    /// Bytes that the driver sees: one chip, or two side by side.
    pub open spec fn spec_capacity(self, dual: bool) -> nat {
        if dual {
            2 * (self.capacity_bytes as nat)
        } else {
            self.capacity_bytes as nat
        }
    }

    pub fn capacity(&self, dual: bool) -> (r: usize)
        requires
            self.spec_capacity(dual) <= usize::MAX,
        ensures
            r == self.spec_capacity(dual),
    {
        if dual {
            2 * self.capacity_bytes
        } else {
            self.capacity_bytes
        }
    }

    /// Splits an absolute address into the extender value and the address
    /// within the segment.
    pub fn wrap_adress(&self, absolute: usize) -> (r: (u32, u32))
        requires
            segment_of(absolute as int) <= u32::MAX,
        ensures
            r == spec_wrap_adress(absolute as nat),
            r.1 < SEGMENT_BYTES,
    {
        ((absolute / SEGMENT_BYTES) as u32, (absolute % SEGMENT_BYTES) as u32)
    }
}

} // verus!

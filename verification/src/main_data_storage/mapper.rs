use vstd::prelude::*;

use super::geometry::{FlashBanks, StorageGeometry};

verus! {

/// Where a global block lives: the bank and the block index inside that bank.
#[derive(Clone, Copy, Debug, PartialEq, Eq, Structural)]
pub struct BlockAddress {
    pub bank_index: u8,
    pub local_block_index: u32,
}

/// Where a global byte offset lives: the bank and the byte offset inside that bank.
#[derive(Clone, Copy, Debug, PartialEq, Eq, Structural)]
pub struct OffsetAddress {
    pub bank_index: u8,
    pub local_byte_offset: usize,
}

#[derive(Clone, Copy, Debug, PartialEq, Eq, Structural)]
pub enum MapperError {
    BlockOutOfRange,
    OffsetOutOfRange,
}

/// Bank of a global block: with two banks, blocks alternate between them.
pub open spec fn spec_block_bank(banks: FlashBanks, global_block_index: int) -> int {
    match banks {
        FlashBanks::One => 0,
        FlashBanks::Two => global_block_index % 2,
    }
}

/// Index of a global block inside its bank.
pub open spec fn spec_block_local(banks: FlashBanks, global_block_index: int) -> int {
    match banks {
        FlashBanks::One => global_block_index,
        FlashBanks::Two => global_block_index / 2,
    }
}

/// Translates global block indices and byte offsets into per-bank addresses.
#[derive(Clone, Copy, Debug, PartialEq, Eq, Structural)]
pub struct BlockMapper {
    geometry: StorageGeometry,
}

impl View for BlockMapper {
    type V = StorageGeometry;

    closed spec fn view(&self) -> StorageGeometry {
        self.geometry
    }
}

impl BlockMapper {
    pub fn new(geometry: StorageGeometry) -> (r: Self)
        ensures
            r@ == geometry,
    {
        Self { geometry }
    }

    #[inline]
    pub fn geometry(self) -> (r: StorageGeometry)
        ensures
            r == self@,
    {
        self.geometry
    }

    #[inline]
    pub fn total_blocks(self) -> (r: u32)
        requires
            self@.spec_total_blocks() <= u32::MAX,
        ensures
            r == self@.spec_total_blocks(),
    {
        self.geometry.total_blocks()
    }

    #[inline]
    pub fn raw_size_bytes(self) -> (r: usize)
        requires
            self@.fits(),
        ensures
            r == self@.spec_total_bytes(),
    {
        self.geometry.total_bytes()
    }

    /// Bytes taken by `used_blocks` blocks, counting at most all the blocks there are.
    pub fn used_size_bytes(self, used_blocks: u32) -> (r: usize)
        requires
            self@.fits(),
        ensures
            used_blocks <= self@.spec_total_blocks() ==> r == used_blocks * self@.block_size_bytes,
            used_blocks > self@.spec_total_blocks() ==> r == self@.spec_total_bytes(),
    {
        let total = self.total_blocks();
        let clamped = if used_blocks > total {
            total
        } else {
            used_blocks
        };
        proof {
            vstd::arithmetic::mul::lemma_mul_inequality(
                clamped as int,
                total as int,
                self.geometry.block_size_bytes as int,
            );
        }
        clamped as usize * self.geometry.block_size_bytes as usize
    }

    pub fn map_block(self, global_block_index: u32) -> (r: Result<BlockAddress, MapperError>)
        requires
            self@.spec_total_blocks() <= u32::MAX,
        ensures
            global_block_index >= self@.spec_total_blocks() ==> r == Err::<BlockAddress, MapperError>(
                MapperError::BlockOutOfRange,
            ),
            global_block_index < self@.spec_total_blocks() ==> (r matches Ok(a) && a.bank_index
                == spec_block_bank(self@.banks, global_block_index as int) && a.local_block_index
                == spec_block_local(self@.banks, global_block_index as int)),
    {
        if global_block_index >= self.total_blocks() {
            return Err(MapperError::BlockOutOfRange);
        }
        match self.geometry.banks {
            FlashBanks::One => Ok(BlockAddress { bank_index: 0, local_block_index: global_block_index }),
            FlashBanks::Two => Ok(
                BlockAddress {
                    bank_index: (global_block_index % 2) as u8,
                    local_block_index: global_block_index / 2,
                },
            ),
        }
    }

    pub fn map_offset(self, global_offset: usize) -> (r: Result<OffsetAddress, MapperError>)
        requires
            self@.fits(),
        ensures
            global_offset >= self@.spec_total_bytes() ==> r == Err::<OffsetAddress, MapperError>(
                MapperError::OffsetOutOfRange,
            ),
            global_offset < self@.spec_total_bytes() ==> ({
                let bs = self@.block_size_bytes as int;
                let block = (global_offset as int) / bs;
                (r matches Ok(a) && a.bank_index == spec_block_bank(self@.banks, block)
                    && a.local_byte_offset == spec_block_local(self@.banks, block) * bs
                    + (global_offset as int) % bs)
            }),
    {
        if global_offset >= self.raw_size_bytes() {
            return Err(MapperError::OffsetOutOfRange);
        }
        let block_size = self.geometry.block_size_bytes as usize;
        let ghost total = self@.spec_total_blocks();
        proof {
            assert(block_size > 0) by {
                if block_size == 0 {
                    vstd::arithmetic::mul::lemma_mul_basics(total);
                }
            }
            lemma_block_of_offset(global_offset as int, block_size as int, total);
        }
        let global_block_index = (global_offset / block_size) as u32;
        let in_block_offset = global_offset % block_size;
        let block = match self.map_block(global_block_index) {
            Ok(b) => b,
            Err(e) => return Err(e),
        };
        proof {
            lemma_local_offset_bound(
                global_offset as int,
                block_size as int,
                block.local_block_index as int,
                global_block_index as int,
            );
        }
        Ok(
            OffsetAddress {
                bank_index: block.bank_index,
                local_byte_offset: block.local_block_index as usize * block_size + in_block_offset,
            },
        )
    }
}

proof fn lemma_block_of_offset(offset: int, bs: int, total: int)
    requires
        bs > 0,
        0 <= total,
        0 <= offset < total * bs,
    ensures
        0 <= offset / bs < total,
        0 <= offset % bs < bs,
{
    vstd::arithmetic::div_mod::lemma_div_pos_is_pos(offset, bs);
    vstd::arithmetic::div_mod::lemma_div_is_ordered(offset, total * bs, bs);
    vstd::arithmetic::div_mod::lemma_div_by_multiple(total, bs);
    vstd::arithmetic::div_mod::lemma_mod_bound(offset, bs);
    if offset / bs == total {
        vstd::arithmetic::div_mod::lemma_fundamental_div_mod(offset, bs);
        vstd::arithmetic::mul::lemma_mul_is_commutative(bs, total);
        assert(false);
    }
}

proof fn lemma_local_offset_bound(offset: int, bs: int, local: int, block: int)
    requires
        bs > 0,
        0 <= offset,
        block == offset / bs,
        0 <= local <= block,
    ensures
        0 <= local * bs + offset % bs <= offset,
{
    vstd::arithmetic::div_mod::lemma_fundamental_div_mod(offset, bs);
    vstd::arithmetic::mul::lemma_mul_inequality(local, block, bs);
    vstd::arithmetic::mul::lemma_mul_is_commutative(bs, block);
    vstd::arithmetic::div_mod::lemma_mod_bound(offset, bs);
    vstd::arithmetic::mul::lemma_mul_nonnegative(local, bs);
}

} // verus!

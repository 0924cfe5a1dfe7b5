use vstd::prelude::*;

verus! {

/// Number of flash chips the storage is spread over.
#[derive(Clone, Copy, Debug, PartialEq, Eq, Structural)]
pub enum FlashBanks {
    One,
    Two,
}

impl FlashBanks {
    /// The number of banks as a mathematical integer.
    pub open spec fn spec_count(self) -> nat {
        match self {
            FlashBanks::One => 1,
            FlashBanks::Two => 2,
        }
    }

    #[inline]
    pub fn count(self) -> (r: u32)
        ensures
            r == self.spec_count(),
    {
        match self {
            FlashBanks::One => 1,
            FlashBanks::Two => 2,
        }
    }
}

/// Shape of the block storage: equally sized blocks spread over one or two banks.
#[derive(Clone, Copy, Debug, PartialEq, Eq, Structural)]
pub struct StorageGeometry {
    pub block_size_bytes: u32,
    pub write_granularity_bytes: u32,
    pub blocks_per_bank: u32,
    pub banks: FlashBanks,
}

/// Why a geometry is rejected.
#[derive(Clone, Copy, Debug, PartialEq, Eq, Structural)]
pub enum GeometryError {
    ZeroBlockSize,
    ZeroWriteGranularity,
    ZeroBlocksPerBank,
    BlockNotAligned,
}

impl StorageGeometry {
    /// Total number of blocks over all banks.
    pub open spec fn spec_total_blocks(self) -> int {
        self.blocks_per_bank * self.banks.spec_count()
    }

    /// Total number of bytes over all banks.
    pub open spec fn spec_total_bytes(self) -> int {
        self.spec_total_blocks() * self.block_size_bytes
    }

    /// The block and byte totals fit the machine integers they are computed in.
    pub open spec fn fits(self) -> bool {
        &&& self.spec_total_blocks() <= u32::MAX
        &&& self.spec_total_bytes() <= usize::MAX
    }

    /// What `validate` reports for this geometry, `None` when it is accepted.
    pub open spec fn spec_validate(self) -> Option<GeometryError> {
        if self.block_size_bytes == 0 {
            Some(GeometryError::ZeroBlockSize)
        } else if self.write_granularity_bytes == 0 {
            Some(GeometryError::ZeroWriteGranularity)
        } else if self.blocks_per_bank == 0 {
            Some(GeometryError::ZeroBlocksPerBank)
        } else if self.block_size_bytes % self.write_granularity_bytes != 0 {
            Some(GeometryError::BlockNotAligned)
        } else {
            None
        }
    }

    /// A geometry that `validate` accepts.
    pub open spec fn valid(self) -> bool {
        self.spec_validate() is None
    }

    #[inline]
    pub fn total_blocks(self) -> (r: u32)
        requires
            self.spec_total_blocks() <= u32::MAX,
        ensures
            r == self.spec_total_blocks(),
    {
        self.blocks_per_bank * self.banks.count()
    }

    #[inline]
    pub fn total_bytes(self) -> (r: usize)
        requires
            self.fits(),
        ensures
            r == self.spec_total_bytes(),
    {
        let blocks = self.total_blocks();
        proof {
            vstd::arithmetic::mul::lemma_mul_is_commutative(blocks as int, self.block_size_bytes as int);
        }
        blocks as usize * self.block_size_bytes as usize
    }

    #[inline]
    pub fn is_dual(self) -> (r: bool)
        ensures
            r == (self.banks == FlashBanks::Two),
    {
        match self.banks {
            FlashBanks::Two => true,
            FlashBanks::One => false,
        }
    }

    pub fn validate(self) -> (r: Result<(), GeometryError>)
        ensures
            r is Ok <==> self.valid(),
            r matches Err(e) ==> self.spec_validate() == Some(e),
    {
        if self.block_size_bytes == 0 {
            return Err(GeometryError::ZeroBlockSize);
        }
        if self.write_granularity_bytes == 0 {
            return Err(GeometryError::ZeroWriteGranularity);
        }
        if self.blocks_per_bank == 0 {
            return Err(GeometryError::ZeroBlocksPerBank);
        }
        if self.block_size_bytes % self.write_granularity_bytes != 0 {
            return Err(GeometryError::BlockNotAligned);
        }
        Ok(())
    }
}

} // verus!

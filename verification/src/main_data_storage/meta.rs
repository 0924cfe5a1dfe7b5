use vstd::prelude::*;

use super::geometry::StorageGeometry;

verus! {

/// Abstract state of the storage bookkeeping.
pub struct MetaState {
    pub block_size_bytes: u32,
    pub total_blocks: u32,
    pub used_blocks: u32,
    pub busy: bool,
    pub erase_in_progress: bool,
    pub erase_requested: bool,
}

#[derive(Clone, Copy, Debug, PartialEq, Eq, Structural)]
pub enum StorageMetaError {
    EraseAlreadyRequested,
    EraseAlreadyInProgress,
}

/// Bookkeeping of the block storage: its shape, how many blocks are written,
/// and the flags of the erase protocol. The number of used blocks never exceeds
/// the number of blocks. There is one such value per storage: it cannot be
/// copied, and every part of the device reaches it by borrowing it from its
/// owner, so all of them see one state.
#[derive(Debug)]
pub struct StorageMetaHandle {
    block_size_bytes: u32,
    total_blocks: u32,
    used_blocks: u32,
    busy: bool,
    erase_in_progress: bool,
    erase_requested: bool,
}

impl View for StorageMetaHandle {
    type V = MetaState;

    closed spec fn view(&self) -> MetaState {
        MetaState {
            block_size_bytes: self.block_size_bytes,
            total_blocks: self.total_blocks,
            used_blocks: self.used_blocks,
            busy: self.busy,
            erase_in_progress: self.erase_in_progress,
            erase_requested: self.erase_requested,
        }
    }
}

/// `used` limited to `total`.
pub open spec fn spec_clamp(used: int, total: int) -> int {
    if used > total {
        total
    } else {
        used
    }
}

/// The outcome of `request_erase`: refused while an erase runs or is already
/// asked for, and recorded otherwise.
pub open spec fn request_erase_post(old: MetaState, new: MetaState, r: Result<(), StorageMetaError>) -> bool {
    &&& old.erase_in_progress ==> r == Err::<(), StorageMetaError>(
        StorageMetaError::EraseAlreadyInProgress,
    )
    &&& !old.erase_in_progress && old.erase_requested ==> r == Err::<(), StorageMetaError>(
        StorageMetaError::EraseAlreadyRequested,
    )
    &&& (r is Ok <==> !old.erase_in_progress && !old.erase_requested)
    &&& new == (MetaState { erase_requested: old.erase_requested || r is Ok, ..old })
}

impl StorageMetaHandle {
    #[verifier::type_invariant]
    closed spec fn inv(self) -> bool {
        self.used_blocks <= self.total_blocks
    }

    pub fn new(geometry: StorageGeometry) -> (r: Self)
        requires
            geometry.spec_total_blocks() <= u32::MAX,
        ensures
            r@.block_size_bytes == geometry.block_size_bytes,
            r@.total_blocks == geometry.spec_total_blocks(),
            r@.used_blocks == 0,
            !r@.busy,
            !r@.erase_in_progress,
            !r@.erase_requested,
    {
        Self {
            block_size_bytes: geometry.block_size_bytes,
            total_blocks: geometry.total_blocks(),
            used_blocks: 0,
            busy: false,
            erase_in_progress: false,
            erase_requested: false,
        }
    }

    #[inline]
    pub fn block_size_bytes(&self) -> (r: u32)
        ensures
            r == self@.block_size_bytes,
    {
        self.block_size_bytes
    }

    #[inline]
    pub fn total_blocks(&self) -> (r: u32)
        ensures
            r == self@.total_blocks,
    {
        self.total_blocks
    }

    /// The number of used blocks, which never exceeds the number of blocks.
    #[inline]
    pub fn used_blocks(&self) -> (r: u32)
        ensures
            r == self@.used_blocks,
            r <= self@.total_blocks,
    {
        proof {
            use_type_invariant(self);
        }
        self.used_blocks
    }

    /// Sets the number of used blocks, limited to the number of blocks.
    pub fn set_used_blocks(&mut self, used: u32)
        ensures
            final(self)@.used_blocks == spec_clamp(used as int, old(self)@.total_blocks as int),
            final(self)@.block_size_bytes == old(self)@.block_size_bytes,
            final(self)@.total_blocks == old(self)@.total_blocks,
            final(self)@.busy == old(self)@.busy,
            final(self)@.erase_in_progress == old(self)@.erase_in_progress,
            final(self)@.erase_requested == old(self)@.erase_requested,
    {
        proof {
            use_type_invariant(&*self);
        }
        let clamped = if used > self.total_blocks {
            self.total_blocks
        } else {
            used
        };
        self.used_blocks = clamped;
    }

    /// Counts one more used block, unless all blocks are already used.
    pub fn increment_used_blocks(&mut self)
        ensures
            old(self)@.used_blocks < old(self)@.total_blocks ==> final(self)@.used_blocks
                == old(self)@.used_blocks + 1,
            old(self)@.used_blocks >= old(self)@.total_blocks ==> final(self)@.used_blocks
                == old(self)@.used_blocks,
            final(self)@.block_size_bytes == old(self)@.block_size_bytes,
            final(self)@.total_blocks == old(self)@.total_blocks,
            final(self)@.busy == old(self)@.busy,
            final(self)@.erase_in_progress == old(self)@.erase_in_progress,
            final(self)@.erase_requested == old(self)@.erase_requested,
    {
        proof {
            use_type_invariant(&*self);
        }
        let current = self.used_blocks();
        if current < self.total_blocks() {
            self.set_used_blocks(current + 1);
        }
    }

    pub fn reset_used_blocks(&mut self)
        ensures
            final(self)@.used_blocks == 0,
            final(self)@.block_size_bytes == old(self)@.block_size_bytes,
            final(self)@.total_blocks == old(self)@.total_blocks,
            final(self)@.busy == old(self)@.busy,
            final(self)@.erase_in_progress == old(self)@.erase_in_progress,
            final(self)@.erase_requested == old(self)@.erase_requested,
    {
        proof {
            use_type_invariant(&*self);
        }
        self.set_used_blocks(0);
    }

    #[inline]
    pub fn is_busy(&self) -> (r: bool)
        ensures
            r == self@.busy,
    {
        self.busy
    }

    pub fn set_busy(&mut self, busy: bool)
        ensures
            final(self)@.busy == busy,
            final(self)@.block_size_bytes == old(self)@.block_size_bytes,
            final(self)@.total_blocks == old(self)@.total_blocks,
            final(self)@.used_blocks == old(self)@.used_blocks,
            final(self)@.erase_in_progress == old(self)@.erase_in_progress,
            final(self)@.erase_requested == old(self)@.erase_requested,
    {
        proof {
            use_type_invariant(&*self);
        }
        self.busy = busy;
    }

    #[inline]
    pub fn erase_in_progress(&self) -> (r: bool)
        ensures
            r == self@.erase_in_progress,
    {
        self.erase_in_progress
    }

    pub fn set_erase_in_progress(&mut self, in_progress: bool)
        ensures
            final(self)@.erase_in_progress == in_progress,
            final(self)@.block_size_bytes == old(self)@.block_size_bytes,
            final(self)@.total_blocks == old(self)@.total_blocks,
            final(self)@.used_blocks == old(self)@.used_blocks,
            final(self)@.busy == old(self)@.busy,
            final(self)@.erase_requested == old(self)@.erase_requested,
    {
        proof {
            use_type_invariant(&*self);
        }
        self.erase_in_progress = in_progress;
    }

    /// Asks for an erase. Refused while an erase runs, or when one is already asked for.
    pub fn request_erase(&mut self) -> (r: Result<(), StorageMetaError>)
        ensures
            old(self)@.erase_in_progress ==> r == Err::<(), StorageMetaError>(
                StorageMetaError::EraseAlreadyInProgress,
            ),
            !old(self)@.erase_in_progress && old(self)@.erase_requested ==> r == Err::<
                (),
                StorageMetaError,
            >(StorageMetaError::EraseAlreadyRequested),
            r is Ok <==> !old(self)@.erase_in_progress && !old(self)@.erase_requested,
            final(self)@.erase_requested == (old(self)@.erase_requested || r is Ok),
            request_erase_post(old(self)@, final(self)@, r),
            final(self)@.block_size_bytes == old(self)@.block_size_bytes,
            final(self)@.total_blocks == old(self)@.total_blocks,
            final(self)@.used_blocks == old(self)@.used_blocks,
            final(self)@.busy == old(self)@.busy,
            final(self)@.erase_in_progress == old(self)@.erase_in_progress,
    {
        proof {
            use_type_invariant(&*self);
        }
        if self.erase_in_progress() {
            return Err(StorageMetaError::EraseAlreadyInProgress);
        }
        if self.erase_requested {
            Err(StorageMetaError::EraseAlreadyRequested)
        } else {
            self.erase_requested = true;
            Ok(())
        }
    }

    #[inline]
    pub fn is_erase_requested(&self) -> (r: bool)
        ensures
            r == self@.erase_requested,
    {
        self.erase_requested
    }

    /// Withdraws the pending erase request, telling whether there was one.
    pub fn take_erase_request(&mut self) -> (r: bool)
        ensures
            r == old(self)@.erase_requested,
            !final(self)@.erase_requested,
            final(self)@.block_size_bytes == old(self)@.block_size_bytes,
            final(self)@.total_blocks == old(self)@.total_blocks,
            final(self)@.used_blocks == old(self)@.used_blocks,
            final(self)@.busy == old(self)@.busy,
            final(self)@.erase_in_progress == old(self)@.erase_in_progress,
    {
        proof {
            use_type_invariant(&*self);
        }
        let was = self.erase_requested;
        self.erase_requested = false;
        was
    }

    pub fn clear_erase_request(&mut self)
        ensures
            !final(self)@.erase_requested,
            final(self)@.block_size_bytes == old(self)@.block_size_bytes,
            final(self)@.total_blocks == old(self)@.total_blocks,
            final(self)@.used_blocks == old(self)@.used_blocks,
            final(self)@.busy == old(self)@.busy,
            final(self)@.erase_in_progress == old(self)@.erase_in_progress,
    {
        proof {
            use_type_invariant(&*self);
        }
        self.erase_requested = false;
    }
}

} // verus!

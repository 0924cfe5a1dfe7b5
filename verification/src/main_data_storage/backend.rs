use vstd::prelude::*;

use super::geometry::StorageGeometry;
use super::types::StorageError;

verus! {

/// A device that stores blocks: what the storage logic asks of the flash.
pub trait StorageBackend: Sized {
    /// The shape of the device.
    spec fn spec_geometry(&self) -> StorageGeometry;

    fn geometry(&self) -> (g: StorageGeometry)
        ensures
            g == self.spec_geometry(),
    ;

    /// Whether a scan of this device for written blocks answers `r` and
    /// leaves the device as `after`.
    spec fn spec_scan_result(&self, after: Self, r: Result<u32, StorageError>) -> bool;

    /// Counts the blocks written from the start.
    fn scan_used_blocks(&mut self) -> (r: Result<u32, StorageError>)
        ensures
            old(self).spec_scan_result(*final(self), r),
    ;

    /// Whether a read of the bytes at `global_offset` into a buffer holding
    /// `before` leaves the buffer holding `dest`, answers `r`, and leaves the
    /// device as `after`.
    spec fn spec_read_result(
        &self,
        after: Self,
        global_offset: usize,
        before: Seq<u8>,
        dest: Seq<u8>,
        r: Result<(), StorageError>,
    ) -> bool;

    /// Reads `dest.len()` bytes at byte `global_offset` of the device.
    fn read_range(&mut self, global_offset: usize, dest: &mut [u8]) -> (r: Result<(), StorageError>)
        ensures
            final(dest)@.len() == old(dest)@.len(),
            old(self).spec_read_result(*final(self), global_offset, old(dest)@, final(dest)@, r),
    ;

    /// Whether a write of `data` as block `index` answers `r` and leaves the
    /// device as `after`.
    spec fn spec_write_result(
        &self,
        after: Self,
        index: u32,
        data: Seq<u8>,
        r: Result<(), StorageError>,
    ) -> bool;

    /// Writes `data` as block `global_block_index`.
    fn write_block(&mut self, global_block_index: u32, data: &[u8]) -> (r: Result<(), StorageError>)
        ensures
            old(self).spec_write_result(*final(self), global_block_index, data@, r),
    ;

    /// Whether erasing the whole device answers `r` and leaves it as `after`.
    spec fn spec_erase_result(&self, after: Self, r: Result<(), StorageError>) -> bool;

    /// Erases the whole device.
    fn erase_all(&mut self) -> (r: Result<(), StorageError>)
        ensures
            old(self).spec_erase_result(*final(self), r),
    ;

    /// Whether putting the device to sleep (`enabled`) or waking it answers
    /// `r` and leaves it as `after`.
    spec fn spec_sleep_result(&self, after: Self, enabled: bool, r: Result<(), StorageError>) -> bool;

    /// Puts the device to sleep, or wakes it.
    fn set_sleep(&mut self, enabled: bool) -> (r: Result<(), StorageError>)
        ensures
            old(self).spec_sleep_result(*final(self), enabled, r),
    ;

    /// Whether the device can be read as memory; a device that says nothing
    /// of it cannot.
    fn supports_memory_mapped(&self) -> (r: bool)
        default_ensures
            !r,
    {
        false
    }
}

/// A backend without a device: it reports its geometry, finds nothing written,
/// refuses reads and writes, and accepts erase and sleep requests.
pub struct NullBackend {
    geometry: StorageGeometry,
}

impl NullBackend {
    pub fn new(geometry: StorageGeometry) -> (r: Self)
        ensures
            r.spec_geometry() == geometry,
    {
        Self { geometry }
    }
}

impl StorageBackend for NullBackend {
    closed spec fn spec_geometry(&self) -> StorageGeometry {
        self.geometry
    }

    fn geometry(&self) -> (g: StorageGeometry) {
        self.geometry
    }

    /// Reads find no device and leave the buffer as it was.
    closed spec fn spec_read_result(
        &self,
        after: Self,
        global_offset: usize,
        before: Seq<u8>,
        dest: Seq<u8>,
        r: Result<(), StorageError>,
    ) -> bool {
        after == *self && dest == before && r == Err::<(), StorageError>(StorageError::NotReady)
    }

    /// Writes find no device.
    closed spec fn spec_write_result(
        &self,
        after: Self,
        index: u32,
        data: Seq<u8>,
        r: Result<(), StorageError>,
    ) -> bool {
        after == *self && r == Err::<(), StorageError>(StorageError::NotReady)
    }

    /// There is nothing to erase.
    closed spec fn spec_erase_result(&self, after: Self, r: Result<(), StorageError>) -> bool {
        after == *self && r == Ok::<(), StorageError>(())
    }

    /// There is nothing to wake or put to sleep.
    closed spec fn spec_sleep_result(&self, after: Self, enabled: bool, r: Result<(), StorageError>) -> bool {
        after == *self && r == Ok::<(), StorageError>(())
    }

    /// Nothing is written on a device that is not there.
    closed spec fn spec_scan_result(&self, after: Self, r: Result<u32, StorageError>) -> bool {
        after == *self && r == Ok::<u32, StorageError>(0)
    }

    fn scan_used_blocks(&mut self) -> (r: Result<u32, StorageError>)
        ensures
            r == Ok::<u32, StorageError>(0),
    {
        Ok(0)
    }

    fn read_range(&mut self, _global_offset: usize, _dest: &mut [u8]) -> (r: Result<
        (),
        StorageError,
    >)
        ensures
            r == Err::<(), StorageError>(StorageError::NotReady),
    {
        Err(StorageError::NotReady)
    }

    fn write_block(&mut self, _global_block_index: u32, _data: &[u8]) -> (r: Result<
        (),
        StorageError,
    >)
        ensures
            r == Err::<(), StorageError>(StorageError::NotReady),
    {
        Err(StorageError::NotReady)
    }

    fn erase_all(&mut self) -> (r: Result<(), StorageError>)
        ensures
            r == Ok::<(), StorageError>(()),
    {
        Ok(())
    }

    fn set_sleep(&mut self, _enabled: bool) -> (r: Result<(), StorageError>)
        ensures
            r == Ok::<(), StorageError>(()),
    {
        Ok(())
    }
}

} // verus!

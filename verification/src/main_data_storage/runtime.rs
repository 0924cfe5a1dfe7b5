use vstd::prelude::*;

use super::backend::StorageBackend;
use super::meta::{request_erase_post, MetaState, StorageMetaError, StorageMetaHandle};
use super::types::{saturating_mul, spec_saturating_mul, StorageError};

verus! {

/// Abstract state of the runtime snapshot.
pub struct RuntimeState {
    pub meta_installed: bool,
    pub block_size_bytes: u32,
    pub total_blocks: u32,
    pub used_blocks: u32,
    pub erase_in_progress: bool,
    pub read_fn_installed: bool,
}

/// Figures of the storage kept where every part of the device can read them,
/// and the reader that serves reads. The bookkeeping stays with its owner,
/// the storage context: the runtime takes its figures from it and passes
/// erase requests to it when it is handed the bookkeeping, so there is one
/// bookkeeping state.
pub struct StorageRuntime<R: StorageBackend> {
    meta_installed: bool,
    block_size_bytes: u32,
    total_blocks: u32,
    used_blocks: u32,
    erase_in_progress: bool,
    reader: Option<R>,
}

impl<R: StorageBackend> View for StorageRuntime<R> {
    type V = RuntimeState;

    closed spec fn view(&self) -> RuntimeState {
        RuntimeState {
            meta_installed: self.meta_installed,
            block_size_bytes: self.block_size_bytes,
            total_blocks: self.total_blocks,
            used_blocks: self.used_blocks,
            erase_in_progress: self.erase_in_progress,
            read_fn_installed: self.reader is Some,
        }
    }
}

impl<R: StorageBackend> StorageRuntime<R> {
    /// The reader that serves reads, if one is installed.
    pub closed spec fn spec_reader(&self) -> Option<R> {
        self.reader
    }

    /// Nothing installed: all figures read zero.
    pub fn new() -> (r: Self)
        ensures
            !r@.meta_installed,
            r@.block_size_bytes == 0,
            r@.total_blocks == 0,
            r@.used_blocks == 0,
            !r@.erase_in_progress,
            !r@.read_fn_installed,
            r.spec_reader() is None,
    {
        Self {
            meta_installed: false,
            block_size_bytes: 0,
            total_blocks: 0,
            used_blocks: 0,
            erase_in_progress: false,
            reader: None,
        }
    }
}

/// Whether `m` is the bookkeeping the runtime took its figures from: the one
/// of a storage of the same shape.
pub open spec fn spec_installed(rt: RuntimeState, m: MetaState) -> bool {
    &&& m.total_blocks == rt.total_blocks
    &&& m.block_size_bytes == rt.block_size_bytes
}

/// Takes a snapshot of the figures of the bookkeeping `handle` and marks the
/// bookkeeping as installed.
pub fn install_meta_handle<R: StorageBackend>(rt: &mut StorageRuntime<R>, handle: &StorageMetaHandle)
    ensures
        final(rt)@ == (RuntimeState {
            meta_installed: true,
            block_size_bytes: handle@.block_size_bytes,
            total_blocks: handle@.total_blocks,
            used_blocks: handle@.used_blocks,
            erase_in_progress: handle@.erase_in_progress,
            read_fn_installed: old(rt)@.read_fn_installed,
        }),
        final(rt).spec_reader() == old(rt).spec_reader(),
        spec_installed(final(rt)@, handle@),
{
    rt.block_size_bytes = handle.block_size_bytes();
    rt.total_blocks = handle.total_blocks();
    rt.used_blocks = handle.used_blocks();
    rt.erase_in_progress = handle.erase_in_progress();
    rt.meta_installed = true;
}

/// The bookkeeping `handle`, where one was installed; `None` before.
pub fn with_meta_handle<'a, R: StorageBackend>(
    rt: &StorageRuntime<R>,
    handle: &'a StorageMetaHandle,
) -> (r: Option<&'a StorageMetaHandle>)
    ensures
        !rt@.meta_installed ==> r is None,
        rt@.meta_installed ==> r == Some(handle),
{
    if !rt.meta_installed {
        return None;
    }
    Some(handle)
}

/// Installs the reader that serves `read_range`.
pub fn install_read_range_fn<R: StorageBackend>(rt: &mut StorageRuntime<R>, reader: R)
    ensures
        final(rt)@ == (RuntimeState { read_fn_installed: true, ..old(rt)@ }),
        final(rt).spec_reader() == Some(reader),
{
    rt.reader = Some(reader);
}

pub fn has_read_range_fn<R: StorageBackend>(rt: &StorageRuntime<R>) -> (r: bool)
    ensures
        r == rt@.read_fn_installed,
        r == rt.spec_reader() is Some,
{
    rt.reader.is_some()
}

/// Reads through the installed reader; `NotReady` without one.
pub fn read_range<R: StorageBackend>(rt: &mut StorageRuntime<R>, global_offset: usize, dest: &mut [u8]) -> (r:
    Result<(), StorageError>)
    ensures
        final(rt)@ == old(rt)@,
        final(dest)@.len() == old(dest)@.len(),
        old(rt).spec_reader() is None ==> r == Err::<(), StorageError>(StorageError::NotReady)
            && final(dest)@ == old(dest)@ && final(rt).spec_reader() == old(rt).spec_reader(),
        old(rt).spec_reader() matches Some(b) ==> (final(rt).spec_reader() matches Some(b2)
            && b.spec_read_result(b2, global_offset, old(dest)@, final(dest)@, r)),
{
    match &mut rt.reader {
        Some(reader) => reader.read_range(global_offset, dest),
        None => Err(StorageError::NotReady),
    }
}

/// Takes the used blocks and the erase flag anew from the bookkeeping
/// `handle`, where one was installed; before, nothing changes.
pub fn refresh_runtime_snapshot<R: StorageBackend>(rt: &mut StorageRuntime<R>, handle: &StorageMetaHandle)
    requires
        old(rt)@.meta_installed ==> spec_installed(old(rt)@, handle@),
    ensures
        old(rt)@.meta_installed ==> final(rt)@ == (RuntimeState {
            used_blocks: handle@.used_blocks,
            erase_in_progress: handle@.erase_in_progress,
            ..old(rt)@
        }),
        !old(rt)@.meta_installed ==> final(rt)@ == old(rt)@,
{
    match with_meta_handle(rt, handle) {
        Some(h) => {
            rt.used_blocks = h.used_blocks();
            rt.erase_in_progress = h.erase_in_progress();
        },
        None => {},
    }
}

pub fn block_size_bytes<R: StorageBackend>(rt: &StorageRuntime<R>) -> (r: usize)
    ensures
        r == rt@.block_size_bytes,
{
    rt.block_size_bytes as usize
}

pub fn total_blocks<R: StorageBackend>(rt: &StorageRuntime<R>) -> (r: u32)
    ensures
        r == rt@.total_blocks,
{
    rt.total_blocks
}

pub fn used_blocks<R: StorageBackend>(rt: &StorageRuntime<R>) -> (r: u32)
    ensures
        r == rt@.used_blocks,
{
    rt.used_blocks
}

pub fn raw_size_bytes<R: StorageBackend>(rt: &StorageRuntime<R>) -> (r: usize)
    ensures
        r == spec_saturating_mul(rt@.block_size_bytes as int, rt@.total_blocks as int),
{
    saturating_mul(block_size_bytes(rt), total_blocks(rt) as usize)
}

pub fn used_size_bytes<R: StorageBackend>(rt: &StorageRuntime<R>) -> (r: usize)
    ensures
        r == spec_saturating_mul(rt@.block_size_bytes as int, rt@.used_blocks as int),
{
    saturating_mul(block_size_bytes(rt), used_blocks(rt) as usize)
}

pub fn is_erase_in_progress<R: StorageBackend>(rt: &StorageRuntime<R>) -> (r: bool)
    ensures
        r == rt@.erase_in_progress,
{
    rt.erase_in_progress
}

/// Asks the bookkeeping `handle` for an erase, where one was installed.
/// Before, the request is refused as if an erase were running and nothing
/// changes.
pub fn request_erase<R: StorageBackend>(rt: &StorageRuntime<R>, handle: &mut StorageMetaHandle) -> (r:
    Result<(), StorageMetaError>)
    requires
        rt@.meta_installed ==> spec_installed(rt@, old(handle)@),
    ensures
        !rt@.meta_installed ==> r == Err::<(), StorageMetaError>(
            StorageMetaError::EraseAlreadyInProgress,
        ) && final(handle)@ == old(handle)@,
        rt@.meta_installed ==> request_erase_post(old(handle)@, final(handle)@, r),
{
    if !rt.meta_installed {
        return Err(StorageMetaError::EraseAlreadyInProgress);
    }
    handle.request_erase()
}

pub fn has_storage_meta<R: StorageBackend>(rt: &StorageRuntime<R>) -> (r: bool)
    ensures
        r == rt@.meta_installed,
{
    rt.meta_installed
}

} // verus!

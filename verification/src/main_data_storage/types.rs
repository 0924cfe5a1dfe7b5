use vstd::prelude::*;

use super::backend::StorageBackend;
use super::geometry::StorageGeometry;
use super::meta::{spec_clamp, MetaState, StorageMetaHandle};

verus! {

#[derive(Clone, Copy, Debug, PartialEq, Eq, Structural)]
pub enum StorageMode {
    Recorder,
    Usb,
}

#[derive(Clone, Copy, Debug, PartialEq, Eq, Structural)]
pub enum StorageError {
    Busy,
    NotReady,
    InvalidAddress,
    Internal,
}

/// Abstract state of a storage context.
pub struct ContextState {
    pub mode: StorageMode,
    pub geometry: StorageGeometry,
    pub meta: Option<MetaState>,
    pub initial_used_blocks: u32,
    pub has_backend: bool,
}

impl ContextState {
    /// The blocks counted as written: those of the bookkeeping once it exists,
    /// the count found at startup before.
    pub open spec fn used(self) -> int {
        match self.meta {
            Some(m) => m.used_blocks as int,
            None => self.initial_used_blocks as int,
        }
    }

    /// The bookkeeping, where it exists, has the shape of the geometry.
    pub open spec fn meta_fits(self) -> bool {
        self.meta matches Some(m) ==> m.total_blocks == self.geometry.spec_total_blocks()
            && m.block_size_bytes == self.geometry.block_size_bytes
    }

    /// The bookkeeping as `meta_handle` finds or creates it.
    pub open spec fn current_meta(self) -> MetaState {
        match self.meta {
            Some(m) => m,
            None => fresh_meta(self.geometry, self.initial_used_blocks as int),
        }
    }
}

/// Bookkeeping created for `geometry` with `used` blocks found written.
pub open spec fn fresh_meta(geometry: StorageGeometry, used: int) -> MetaState {
    MetaState {
        block_size_bytes: geometry.block_size_bytes,
        total_blocks: geometry.spec_total_blocks() as u32,
        used_blocks: spec_clamp(used, geometry.spec_total_blocks()) as u32,
        busy: false,
        erase_in_progress: false,
        erase_requested: false,
    }
}

/// What `write_next_block` decides before it touches the device: the block to write,
/// or why it refuses.
pub open spec fn spec_plan_write(
    mode: StorageMode,
    geometry: StorageGeometry,
    used: int,
    data_len: int,
) -> Result<u32, StorageError> {
    if mode != StorageMode::Recorder {
        Err(StorageError::NotReady)
    } else if data_len != geometry.block_size_bytes {
        Err(StorageError::InvalidAddress)
    } else if used >= geometry.spec_total_blocks() {
        Err(StorageError::NotReady)
    } else {
        Ok(used as u32)
    }
}

/// Bookkeeping after an erase that ended with `erased`.
pub open spec fn meta_after_erase(m: MetaState, erased: bool) -> MetaState {
    MetaState {
        used_blocks: if erased { 0 } else { m.used_blocks },
        busy: false,
        erase_in_progress: false,
        erase_requested: false,
        ..m
    }
}

/// The bookkeeping after a block write that went through: one more block in
/// use, where there is room for one.
pub open spec fn spec_incremented(m: MetaState) -> MetaState {
    MetaState {
        used_blocks: if m.used_blocks < m.total_blocks {
            (m.used_blocks + 1) as u32
        } else {
            m.used_blocks
        },
        ..m
    }
}

/// What a write of block `n` answers, from the device's answer `w`.
pub open spec fn spec_written(w: Result<(), StorageError>, n: u32) -> Result<u32, StorageError> {
    match w {
        Ok(_) => Ok(n),
        Err(e) => Err(e),
    }
}

/// What running a requested erase answers, from the device's answer `e`.
pub open spec fn spec_erased(e: Result<(), StorageError>) -> Result<bool, StorageError> {
    match e {
        Ok(_) => Ok(true),
        Err(x) => Err(x),
    }
}

/// Running the pending erase of a context: without a request nothing happens
/// and the answer is `Ok(false)`. With one, the request is consumed, the
/// device is erased once, the answer is `Ok(true)` or the device's error, and
/// the used blocks go to none where the erase went through. Without a device
/// the erase fails with `NotReady`.
pub open spec fn spec_pending_erase_done<B: StorageBackend>(
    old: StorageContext<B>,
    new: StorageContext<B>,
    r: Result<bool, StorageError>,
) -> bool {
    let m = old@.current_meta();
    &&& new@.mode == old@.mode
    &&& new@.geometry == old@.geometry
    &&& new@.initial_used_blocks == old@.initial_used_blocks
    &&& new@.has_backend == old@.has_backend
    &&& !m.erase_requested ==> r == Ok::<bool, StorageError>(false) && new@.meta == Some(m)
        && new.spec_backend() == old.spec_backend()
    &&& m.erase_requested ==> new@.meta == Some(meta_after_erase(m, r is Ok))
    &&& m.erase_requested && old.spec_backend() is None ==> r == Err::<bool, StorageError>(
        StorageError::NotReady,
    ) && new.spec_backend() == old.spec_backend()
    &&& m.erase_requested && old.spec_backend() is Some ==> {
        &&& new.spec_backend() is Some
        &&& exists|e: Result<(), StorageError>|
            old.spec_backend()->Some_0.spec_erase_result(new.spec_backend()->Some_0, e) && r
                == spec_erased(e)
    }
}

/// A handle on a context that runs its pending erase: it borrows the
/// context, so it works on the context's own bookkeeping and device.
pub struct StorageEraseHandle<'a, B: StorageBackend> {
    /// The context the handle borrows.
    pub ctx: &'a mut StorageContext<B>,
}

impl<'a, B: StorageBackend> StorageEraseHandle<'a, B> {
    /// The context as the handle sees it now.
    pub open spec fn spec_context(&self) -> StorageContext<B> {
        *self.ctx
    }

    /// The bookkeeping the handle works on.
    pub open spec fn spec_meta(&self) -> MetaState {
        self.spec_context()@.current_meta()
    }

    pub fn has_pending_request(&self) -> (r: bool)
        ensures
            r == self.spec_meta().erase_requested,
    {
        match &self.ctx.meta {
            Some(m) => m.is_erase_requested(),
            None => false,
        }
    }

    pub fn is_in_progress(&self) -> (r: bool)
        ensures
            r == self.spec_meta().erase_in_progress,
    {
        match &self.ctx.meta {
            Some(m) => m.erase_in_progress(),
            None => false,
        }
    }

    /// Runs the pending erase of the context, as the context does.
    pub fn process_pending_erase(&mut self) -> (r: Result<bool, StorageError>)
        requires
            old(self).spec_context()@.geometry.spec_total_blocks() <= u32::MAX,
        ensures
            spec_pending_erase_done(old(self).spec_context(), final(self).spec_context(), r),
    {
        self.ctx.process_pending_erase()
    }
}

fn read_with<B: StorageBackend>(backend: &mut Option<B>, global_offset: usize, dest: &mut [u8]) -> (r:
    Result<(), StorageError>)
    ensures
        final(dest)@.len() == old(dest)@.len(),
        (*old(backend)) is None ==> r == Err::<(), StorageError>(StorageError::NotReady)
            && *final(backend) == *old(backend) && final(dest)@ == old(dest)@,
        (*old(backend)) matches Some(b) ==> ((*final(backend)) matches Some(b2)
            && b.spec_read_result(b2, global_offset, old(dest)@, final(dest)@, r)),
{
    match backend {
        Some(b) => b.read_range(global_offset, dest),
        None => Err(StorageError::NotReady),
    }
}

fn write_with<B: StorageBackend>(backend: &mut Option<B>, block: u32, data: &[u8]) -> (r: Result<
    (),
    StorageError,
>)
    ensures
        (*old(backend)) is None ==> r == Err::<(), StorageError>(StorageError::NotReady)
            && *final(backend) == *old(backend),
        (*old(backend)) matches Some(b) ==> ((*final(backend)) matches Some(b2)
            && b.spec_write_result(b2, block, data@, r)),
{
    match backend {
        Some(b) => b.write_block(block, data),
        None => Err(StorageError::NotReady),
    }
}

fn erase_with<B: StorageBackend>(backend: &mut Option<B>) -> (r: Result<(), StorageError>)
    ensures
        (*old(backend)) is None ==> r == Err::<(), StorageError>(StorageError::NotReady)
            && *final(backend) == *old(backend),
        (*old(backend)) matches Some(b) ==> ((*final(backend)) matches Some(b2)
            && b.spec_erase_result(b2, r)),
{
    match backend {
        Some(b) => b.erase_all(),
        None => Err(StorageError::NotReady),
    }
}

/// The storage as the rest of the device sees it: its mode, shape and bookkeeping,
/// and the device that holds the blocks, if any. The context owns the one
/// bookkeeping of its storage and lends it out.
pub struct StorageContext<B: StorageBackend> {
    mode: StorageMode,
    geometry: StorageGeometry,
    meta: Option<StorageMetaHandle>,
    initial_used_blocks: u32,
    backend: Option<B>,
}

impl<B: StorageBackend> View for StorageContext<B> {
    type V = ContextState;

    closed spec fn view(&self) -> ContextState {
        ContextState {
            mode: self.mode,
            geometry: self.geometry,
            meta: match self.meta {
                Some(m) => Some(m@),
                None => None,
            },
            initial_used_blocks: self.initial_used_blocks,
            has_backend: self.backend is Some,
        }
    }
}

impl<B: StorageBackend> StorageContext<B> {
    /// The device that holds the blocks, if any.
    pub closed spec fn spec_backend(&self) -> Option<B> {
        self.backend
    }

    /// Whether the view's flag for a device says what the device is.
    pub proof fn lemma_has_backend(&self)
        ensures
            self@.has_backend == self.spec_backend() is Some,
    {
    }

    /// A context without a device: reads, writes and erases fail with `NotReady`.
    pub fn new_empty(mode: StorageMode, geometry: StorageGeometry) -> (r: Self)
        ensures
            r@.mode == mode,
            r@.geometry == geometry,
            r@.meta is None,
            r@.initial_used_blocks == 0,
            !r@.has_backend,
            r.spec_backend() is None,
            r@.meta_fits(),
    {
        Self { mode, geometry, meta: None, initial_used_blocks: 0, backend: None }
    }

    /// A context over `backend`, which holds `initial_used_blocks` written
    /// blocks: its reads, writes and erases go to `backend`, and dropping the
    /// context drops it.
    pub fn new(mode: StorageMode, geometry: StorageGeometry, initial_used_blocks: u32, backend: B) -> (r:
        Self)
        ensures
            r@.mode == mode,
            r@.geometry == geometry,
            r@.meta is None,
            r@.initial_used_blocks == initial_used_blocks,
            r@.has_backend,
            r.spec_backend() == Some(backend),
            r@.meta_fits(),
    {
        Self { mode, geometry, meta: None, initial_used_blocks, backend: Some(backend) }
    }

    /// A context that takes over a bookkeeping already in use and its device.
    pub(crate) fn from_parts(
        mode: StorageMode,
        geometry: StorageGeometry,
        meta: StorageMetaHandle,
        backend: B,
    ) -> (r: Self)
        requires
            meta@.total_blocks == geometry.spec_total_blocks(),
            meta@.block_size_bytes == geometry.block_size_bytes,
        ensures
            r@.meta_fits(),
            r@ == (ContextState {
                mode,
                geometry,
                meta: Some(meta@),
                initial_used_blocks: meta@.used_blocks,
                has_backend: true,
            }),
            r.spec_backend() == Some(backend),
    {
        let initial_used_blocks = meta.used_blocks();
        Self { mode, geometry, meta: Some(meta), initial_used_blocks, backend: Some(backend) }
    }

    #[inline]
    pub fn mode(&self) -> (r: StorageMode)
        ensures
            r == self@.mode,
    {
        self.mode
    }

    /// Changes the mode only; the bookkeeping and the device are left alone.
    pub fn set_mode(&mut self, mode: StorageMode)
        ensures
            final(self)@ == (ContextState { mode, ..old(self)@ }),
            final(self).spec_backend() == old(self).spec_backend(),
    {
        self.mode = mode;
    }

    #[inline]
    pub fn geometry(&self) -> (r: StorageGeometry)
        ensures
            r == self@.geometry,
    {
        self.geometry
    }

    /// The bookkeeping, created on first use with the blocks found at startup,
    /// lent out: what the borrower does to it is what the context holds
    /// afterwards, so every part of the device that is handed it works on the
    /// context's one state.
    pub fn meta_handle(&mut self) -> (r: &mut StorageMetaHandle)
        requires
            old(self)@.geometry.spec_total_blocks() <= u32::MAX,
        ensures
            (*r)@ == old(self)@.current_meta(),
            old(self)@.meta_fits() ==> (*r)@.total_blocks == old(self)@.geometry.spec_total_blocks()
                && (*r)@.block_size_bytes == old(self)@.geometry.block_size_bytes,
            final(self)@ == (ContextState { meta: Some((*final(r))@), ..old(self)@ }),
            final(self).spec_backend() == old(self).spec_backend(),
    {
        if self.meta.is_none() {
            let mut meta = StorageMetaHandle::new(self.geometry);
            meta.set_used_blocks(self.initial_used_blocks);
            self.meta = Some(meta);
        }
        self.meta.as_mut().unwrap()
    }

    /// The bookkeeping, if it was created.
    pub fn meta_handle_if_present(&self) -> (r: Option<&StorageMetaHandle>)
        ensures
            r is Some == self@.meta is Some,
            r matches Some(h) ==> self@.meta == Some(h@),
    {
        self.meta.as_ref()
    }

    /// Reads `dest.len()` bytes at `global_offset` from the device; the
    /// device's answer is the answer. Without a device the read fails with
    /// `NotReady` and `dest` is left as it was.
    pub fn read_range(&mut self, global_offset: usize, dest: &mut [u8]) -> (r: Result<
        (),
        StorageError,
    >)
        ensures
            final(self)@ == old(self)@,
            final(dest)@.len() == old(dest)@.len(),
            old(self).spec_backend() is None ==> r == Err::<(), StorageError>(
                StorageError::NotReady,
            ) && final(dest)@ == old(dest)@ && final(self).spec_backend() == old(
                self,
            ).spec_backend(),
            old(self).spec_backend() matches Some(b) ==> (final(self).spec_backend() matches Some(
                b2,
            ) && b.spec_read_result(b2, global_offset, old(dest)@, final(dest)@, r)),
    {
        let mut backend = None;
        std::mem::swap(&mut backend, &mut self.backend);
        let r = read_with(&mut backend, global_offset, dest);
        self.backend = backend;
        r
    }

    /// Writes `data` as the next block, in recorder mode only, and counts it
    /// as used. The refusals come before the device is touched; otherwise the
    /// device is asked to write block `used` with `data`, and its answer gives
    /// the answer: the block written, or the device's error.
    pub fn write_next_block(&mut self, data: &[u8]) -> (r: Result<u32, StorageError>)
        requires
            old(self)@.geometry.spec_total_blocks() <= u32::MAX,
        ensures
            final(self)@.mode == old(self)@.mode,
            final(self)@.geometry == old(self)@.geometry,
            final(self)@.initial_used_blocks == old(self)@.initial_used_blocks,
            final(self)@.has_backend == old(self)@.has_backend,
            old(self)@.meta_fits() ==> final(self)@.meta_fits(),
            old(self)@.meta_fits() && r is Ok ==> final(self)@.used()
                == old(self)@.current_meta().used_blocks + 1 && final(self)@.current_meta() == (
            MetaState {
                used_blocks: (old(self)@.current_meta().used_blocks + 1) as u32,
                busy: false,
                ..old(self)@.current_meta()
            }),
            ({
                let plan = spec_plan_write(
                    old(self)@.mode,
                    old(self)@.geometry,
                    old(self)@.current_meta().used_blocks as int,
                    data@.len() as int,
                );
                let m = old(self)@.current_meta();
                &&& plan is Err ==> r == plan && final(self).spec_backend() == old(
                    self,
                ).spec_backend()
                &&& plan is Err && old(self)@.mode == StorageMode::Recorder && data@.len()
                    == old(self)@.geometry.block_size_bytes ==> final(self)@.meta == Some(m)
                &&& plan is Err && !(old(self)@.mode == StorageMode::Recorder && data@.len()
                    == old(self)@.geometry.block_size_bytes) ==> final(self)@ == old(self)@
                &&& plan is Ok ==> final(self)@.meta == Some(
                    if r is Ok {
                        MetaState { busy: false, ..spec_incremented(m) }
                    } else {
                        MetaState { busy: false, ..m }
                    },
                )
                &&& plan is Ok && old(self).spec_backend() is None ==> r == Err::<
                    u32,
                    StorageError,
                >(StorageError::NotReady) && final(self).spec_backend() == old(self).spec_backend()
                &&& plan is Ok && old(self).spec_backend() is Some ==> {
                    &&& final(self).spec_backend() is Some
                    &&& exists|w: Result<(), StorageError>|
                        old(self).spec_backend()->Some_0.spec_write_result(
                            final(self).spec_backend()->Some_0,
                            m.used_blocks,
                            data@,
                            w,
                        ) && r == spec_written(w, m.used_blocks)
                }
            }),
    {
        if self.mode() != StorageMode::Recorder {
            return Err(StorageError::NotReady);
        }
        let geometry = self.geometry();
        if data.len() != geometry.block_size_bytes as usize {
            return Err(StorageError::InvalidAddress);
        }
        if self.meta.is_none() {
            let mut fresh = StorageMetaHandle::new(self.geometry);
            fresh.set_used_blocks(self.initial_used_blocks);
            self.meta = Some(fresh);
        }
        let mut meta = self.meta.take().unwrap();
        let next_block = meta.used_blocks();
        if next_block >= geometry.total_blocks() {
            self.meta = Some(meta);
            return Err(StorageError::NotReady);
        }
        meta.set_busy(true);
        let mut backend = None;
        std::mem::swap(&mut backend, &mut self.backend);
        let ghost before = backend;
        let result = write_with(&mut backend, next_block, data);
        proof {
            if before is Some {
                assert(before->Some_0.spec_write_result(backend->Some_0, next_block, data@, result)
                    && spec_written(result, next_block) == spec_written(result, next_block));
            }
        }
        self.backend = backend;
        meta.set_busy(false);
        let r = match result {
            Ok(()) => {
                meta.increment_used_blocks();
                self.meta = Some(meta);
                Ok(next_block)
            },
            Err(e) => {
                self.meta = Some(meta);
                Err(e)
            },
        };
        proof {
            if before is Some {
                assert(before->Some_0.spec_write_result(
                    self.backend->Some_0,
                    next_block,
                    data@,
                    result,
                ) && r == spec_written(result, next_block));
            }
        }
        r
    }

    pub fn block_size_bytes(&self) -> (r: usize)
        ensures
            r == self@.geometry.block_size_bytes,
    {
        self.geometry.block_size_bytes as usize
    }

    pub fn total_blocks(&self) -> (r: u32)
        requires
            self@.geometry.spec_total_blocks() <= u32::MAX,
        ensures
            r == self@.geometry.spec_total_blocks(),
    {
        self.geometry.total_blocks()
    }

    pub fn used_blocks(&self) -> (r: u32)
        ensures
            r == self@.used(),
    {
        match &self.meta {
            Some(meta) => meta.used_blocks(),
            None => self.initial_used_blocks,
        }
    }

    /// Bytes of the whole storage, saturated at `usize::MAX`.
    pub fn raw_size_bytes(&self) -> (r: usize)
        requires
            self@.geometry.spec_total_blocks() <= u32::MAX,
        ensures
            r == spec_saturating_mul(
                self@.geometry.block_size_bytes as int,
                self@.geometry.spec_total_blocks(),
            ),
    {
        saturating_mul(self.block_size_bytes(), self.total_blocks() as usize)
    }

    /// Bytes taken by the used blocks, saturated at `usize::MAX`.
    pub fn used_size_bytes(&self) -> (r: usize)
        ensures
            r == spec_saturating_mul(self@.geometry.block_size_bytes as int, self@.used()),
    {
        saturating_mul(self.block_size_bytes(), self.used_blocks() as usize)
    }

    pub fn is_erase_in_progress(&self) -> (r: bool)
        ensures
            r == (self@.meta matches Some(m) && m.erase_in_progress),
    {
        match &self.meta {
            Some(meta) => meta.erase_in_progress(),
            None => false,
        }
    }

    /// Runs the pending erase, if one is asked for, as `spec_pending_erase_done`
    /// says.
    pub fn process_pending_erase(&mut self) -> (r: Result<bool, StorageError>)
        requires
            old(self)@.geometry.spec_total_blocks() <= u32::MAX,
        ensures
            spec_pending_erase_done(*old(self), *final(self), r),
    {
        if self.meta.is_none() {
            let mut fresh = StorageMetaHandle::new(self.geometry);
            fresh.set_used_blocks(self.initial_used_blocks);
            self.meta = Some(fresh);
        }
        let mut meta = self.meta.take().unwrap();
        if !meta.take_erase_request() {
            self.meta = Some(meta);
            return Ok(false);
        }
        meta.set_erase_in_progress(true);
        meta.set_busy(true);
        let mut backend = None;
        std::mem::swap(&mut backend, &mut self.backend);
        let ghost before = backend;
        let erase_result = erase_with(&mut backend);
        proof {
            if before is Some {
                assert(before->Some_0.spec_erase_result(backend->Some_0, erase_result));
            }
        }
        self.backend = backend;
        meta.set_busy(false);
        meta.set_erase_in_progress(false);
        let r = match erase_result {
            Ok(()) => {
                meta.reset_used_blocks();
                self.meta = Some(meta);
                Ok(true)
            },
            Err(e) => {
                self.meta = Some(meta);
                Err(e)
            },
        };
        proof {
            if before is Some {
                assert(before->Some_0.spec_erase_result(self.backend->Some_0, erase_result) && r
                    == spec_erased(erase_result));
            }
        }
        r
    }

    /// A handle that runs the pending erase of this context, on its own
    /// bookkeeping and device.
    pub fn erase_handle(&mut self) -> (r: StorageEraseHandle<'_, B>)
        ensures
            r.spec_context() == *old(self),
            *final(self) == *final(r.ctx),
    {
        StorageEraseHandle { ctx: self }
    }
}

/// `a * b`, or `usize::MAX` when that does not fit.
pub open spec fn spec_saturating_mul(a: int, b: int) -> int {
    if a * b > usize::MAX {
        usize::MAX as int
    } else {
        a * b
    }
}

pub fn saturating_mul(a: usize, b: usize) -> (r: usize)
    ensures
        r == spec_saturating_mul(a as int, b as int),
{
    match a.checked_mul(b) {
        Some(v) => v,
        None => usize::MAX,
    }
}

} // verus!

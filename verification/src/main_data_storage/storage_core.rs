use vstd::prelude::*;

use super::backend::StorageBackend;
use super::geometry::{GeometryError, StorageGeometry};
use super::mapper::BlockMapper;
use super::meta::{MetaState, StorageMetaError, StorageMetaHandle};
use super::types::{
    meta_after_erase, spec_erased, spec_incremented, spec_plan_write, spec_written, StorageContext,
    StorageError, StorageMode,
};

verus! {

/// A block write that the storage accepted: the device is woken; where that
/// fails, its error is the answer and the bookkeeping stays busy. Otherwise
/// block `m.used_blocks` is written with `data`, the device is sent back to
/// sleep, and the write's answer is the answer, with one more block counted
/// where it went through.
pub open spec fn spec_core_write_done<B: StorageBackend>(
    b: B,
    b_final: B,
    m: MetaState,
    m_final: MetaState,
    data: Seq<u8>,
    r: Result<u32, StorageError>,
) -> bool {
    exists|b1: B, s: Result<(), StorageError>|
        #![trigger b.spec_sleep_result(b1, false, s)]
        b.spec_sleep_result(b1, false, s) && (s is Err ==> r == spec_written(s, 0) && b_final == b1
            && m_final == (MetaState { busy: true, ..m })) && (s is Ok ==> spec_core_write_step(
            b1,
            b_final,
            m,
            m_final,
            data,
            r,
        ))
}

/// The write and the return to sleep of `spec_core_write_done`, from the
/// woken device `b1`.
pub open spec fn spec_core_write_step<B: StorageBackend>(
    b1: B,
    b_final: B,
    m: MetaState,
    m_final: MetaState,
    data: Seq<u8>,
    r: Result<u32, StorageError>,
) -> bool {
    exists|b2: B, w: Result<(), StorageError>, t: Result<(), StorageError>|
        #![trigger b1.spec_write_result(b2, m.used_blocks, data, w), b2.spec_sleep_result(b_final, true, t)]
        b1.spec_write_result(b2, m.used_blocks, data, w) && b2.spec_sleep_result(b_final, true, t)
            && r == spec_written(w, m.used_blocks) && m_final == (if w is Ok {
            MetaState { busy: false, ..spec_incremented(m) }
        } else {
            MetaState { busy: false, ..m }
        })
}

/// The block storage over a device: blocks are appended one after the other in
/// recorder mode, the whole device is erased on request, and the bookkeeping
/// follows both.
pub struct StorageCore<B: StorageBackend> {
    backend: B,
    mapper: BlockMapper,
    mode: StorageMode,
    geometry: StorageGeometry,
    meta: StorageMetaHandle,
}

impl<B: StorageBackend> StorageCore<B> {
    /// The mapper and the bookkeeping agree with an accepted geometry.
    pub closed spec fn wf(&self) -> bool {
        &&& self.mapper@ == self.geometry
        &&& self.geometry.valid()
        &&& self.geometry.spec_total_blocks() <= u32::MAX
        &&& self.meta@.total_blocks == self.geometry.spec_total_blocks()
        &&& self.meta@.block_size_bytes == self.geometry.block_size_bytes
    }

    pub closed spec fn spec_mode(&self) -> StorageMode {
        self.mode
    }

    pub closed spec fn spec_geometry(&self) -> StorageGeometry {
        self.geometry
    }

    pub closed spec fn spec_meta(&self) -> MetaState {
        self.meta@
    }

    /// The device below.
    pub closed spec fn spec_backend(&self) -> B {
        self.backend
    }

    /// The geometry of a storage core is always one that `validate` accepts.
    pub fn geometry(&self) -> (r: StorageGeometry)
        requires
            self.wf(),
        ensures
            r == self.spec_geometry(),
            r.valid(),
            r.spec_total_blocks() <= u32::MAX,
            self.spec_meta().total_blocks == r.spec_total_blocks(),
            self.spec_meta().block_size_bytes == r.block_size_bytes,
    {
        self.geometry
    }

    /// A storage over `backend`, with nothing counted as written yet.
    pub fn new(mode: StorageMode, backend: B) -> (r: Result<Self, GeometryError>)
        requires
            backend.spec_geometry().spec_total_blocks() <= u32::MAX,
        ensures
            r is Err <==> !backend.spec_geometry().valid(),
            r matches Err(e) ==> backend.spec_geometry().spec_validate() == Some(e),
            r matches Ok(c) ==> {
                &&& c.wf()
                &&& c.spec_mode() == mode
                &&& c.spec_geometry() == backend.spec_geometry()
                &&& c.spec_backend() == backend
                &&& c.spec_meta().block_size_bytes == backend.spec_geometry().block_size_bytes
                &&& c.spec_meta().total_blocks == backend.spec_geometry().spec_total_blocks()
                &&& c.spec_meta().used_blocks == 0
                &&& !c.spec_meta().busy
                &&& !c.spec_meta().erase_in_progress
                &&& !c.spec_meta().erase_requested
            },
    {
        let geometry = backend.geometry();
        match geometry.validate() {
            Ok(()) => {},
            Err(e) => return Err(e),
        }
        let mapper = BlockMapper::new(geometry);
        let meta = StorageMetaHandle::new(geometry);
        Ok(Self { backend, mapper, mode, geometry, meta })
    }

    /// The storage handed over as a context: its mode, shape, bookkeeping
    /// and device go with it, so there stays one bookkeeping.
    pub fn context(self) -> (r: StorageContext<B>)
        requires
            self.wf(),
        ensures
            r@.mode == self.spec_mode(),
            r@.geometry == self.spec_geometry(),
            r@.meta == Some(self.spec_meta()),
            r@.initial_used_blocks == self.spec_meta().used_blocks,
            r@.has_backend,
            r.spec_backend() == Some(self.spec_backend()),
    {
        StorageContext::from_parts(self.mode, self.geometry, self.meta, self.backend)
    }

    #[inline]
    pub fn mapper(&self) -> (r: BlockMapper)
        requires
            self.wf(),
        ensures
            r@ == self.spec_geometry(),
    {
        self.mapper
    }

    /// The bookkeeping, for reading.
    #[inline]
    pub fn meta(&self) -> (r: &StorageMetaHandle)
        requires
            self.wf(),
        ensures
            r@ == self.spec_meta(),
    {
        &self.meta
    }

    pub fn set_mode(&mut self, mode: StorageMode)
        requires
            old(self).wf(),
        ensures
            final(self).wf(),
            final(self).spec_mode() == mode,
            final(self).spec_geometry() == old(self).spec_geometry(),
            final(self).spec_meta() == old(self).spec_meta(),
            final(self).spec_backend() == old(self).spec_backend(),
    {
        self.mode = mode;
    }

    /// Asks the device how many blocks hold data and counts them as used,
    /// up to the number of blocks there are.
    pub fn startup_scan(&mut self) -> (r: Result<u32, StorageError>)
        requires
            old(self).wf(),
        ensures
            final(self).wf(),
            final(self).spec_mode() == old(self).spec_mode(),
            final(self).spec_geometry() == old(self).spec_geometry(),
            r is Err ==> final(self).spec_meta() == old(self).spec_meta(),
            r is Err ==> old(self).spec_backend().spec_scan_result(final(self).spec_backend(), r),
            r matches Ok(v) ==> exists|u: u32|
                old(self).spec_backend().spec_scan_result(
                    final(self).spec_backend(),
                    Ok::<u32, StorageError>(u),
                ) && v == crate::main_data_storage::meta::spec_clamp(
                    u as int,
                    old(self).spec_meta().total_blocks as int,
                ),
            r matches Ok(v) ==> {
                &&& v <= old(self).spec_meta().total_blocks
                &&& final(self).spec_meta() == (MetaState { used_blocks: v, ..old(self).spec_meta() })
            },
    {
        let ghost before = self.backend;
        let scanned = self.backend.scan_used_blocks();
        let used = match scanned {
            Ok(u) => u,
            Err(e) => return Err(e),
        };
        self.meta.set_used_blocks(used);
        let v = self.meta.used_blocks();
        proof {
            assert(before.spec_scan_result(self.backend, Ok::<u32, StorageError>(used)) && v
                == crate::main_data_storage::meta::spec_clamp(
                used as int,
                old(self).spec_meta().total_blocks as int,
            ));
        }
        Ok(v)
    }

    /// Writes `data` as the next block, in recorder mode only, and counts it as used.
    /// The device is woken for the write and sent back to sleep after it.
    pub fn write_next_block(&mut self, data: &[u8]) -> (r: Result<u32, StorageError>)
        requires
            old(self).wf(),
        ensures
            final(self).wf(),
            final(self).spec_mode() == old(self).spec_mode(),
            final(self).spec_geometry() == old(self).spec_geometry(),
            ({
                let m = old(self).spec_meta();
                let b = old(self).spec_backend();
                let plan = spec_plan_write(
                    old(self).spec_mode(),
                    old(self).spec_geometry(),
                    m.used_blocks as int,
                    data@.len() as int,
                );
                &&& plan is Err ==> r == plan && final(self).spec_meta() == m
                    && final(self).spec_backend() == b
                &&& plan is Ok ==> spec_core_write_done(
                    b,
                    final(self).spec_backend(),
                    m,
                    final(self).spec_meta(),
                    data@,
                    r,
                )
            }),
    {
        if self.mode != StorageMode::Recorder {
            return Err(StorageError::NotReady);
        }
        if data.len() != self.geometry.block_size_bytes as usize {
            return Err(StorageError::InvalidAddress);
        }
        let next_block = self.meta.used_blocks();
        if next_block >= self.geometry.total_blocks() {
            return Err(StorageError::NotReady);
        }
        let ghost m0 = self.meta@;
        self.meta.set_busy(true);
        let ghost b0 = self.backend;
        let woke = self.backend.set_sleep(false);
        let ghost b1 = self.backend;
        if let Err(e) = woke {
            let r = Err(e);
            proof {
                assert(b0.spec_sleep_result(b1, false, woke) && (woke is Err ==> r == spec_written(
                    woke,
                    0,
                ) && self.backend == b1 && self.meta@ == (MetaState { busy: true, ..m0 })));
                assert(spec_core_write_done(b0, self.backend, m0, self.meta@, data@, r));
            }
            return r;
        }
        let result = self.backend.write_block(next_block, data);
        let ghost b2 = self.backend;
        let slept = self.backend.set_sleep(true);
        proof {
            assert(b1.spec_write_result(b2, next_block, data@, result));
            assert(b2.spec_sleep_result(self.backend, true, slept));
            assert(b0.spec_sleep_result(b1, false, woke));
        }
        self.meta.set_busy(false);
        let r = match result {
            Ok(()) => {
                self.meta.increment_used_blocks();
                Ok(next_block)
            },
            Err(e) => Err(e),
        };
        proof {
            assert(b1.spec_write_result(b2, m0.used_blocks, data@, result) && b2.spec_sleep_result(
                self.backend,
                true,
                slept,
            ) && r == spec_written(result, m0.used_blocks) && self.meta@ == (if result is Ok {
                MetaState { busy: false, ..spec_incremented(m0) }
            } else {
                MetaState { busy: false, ..m0 }
            }));
            assert(spec_core_write_step(b1, self.backend, m0, self.meta@, data@, r));
            assert(b0.spec_sleep_result(b1, false, woke));
            assert(spec_core_write_done(b0, self.backend, m0, self.meta@, data@, r));
        }
        r
    }

    /// Reads from the device, except while an erase runs.
    pub fn read_range(&mut self, offset: usize, dest: &mut [u8]) -> (r: Result<(), StorageError>)
        requires
            old(self).wf(),
        ensures
            final(self).wf(),
            final(self).spec_mode() == old(self).spec_mode(),
            final(self).spec_geometry() == old(self).spec_geometry(),
            final(self).spec_meta() == old(self).spec_meta(),
            final(dest)@.len() == old(dest)@.len(),
            old(self).spec_meta().erase_in_progress ==> r == Err::<(), StorageError>(
                StorageError::NotReady,
            ) && final(dest)@ == old(dest)@ && final(self).spec_backend() == old(
                self,
            ).spec_backend(),
            !old(self).spec_meta().erase_in_progress ==> old(self).spec_backend().spec_read_result(
                final(self).spec_backend(),
                offset,
                old(dest)@,
                final(dest)@,
                r,
            ),
    {
        if self.meta.erase_in_progress() {
            return Err(StorageError::NotReady);
        }
        self.backend.read_range(offset, dest)
    }

    /// Asks for an erase; refused while one runs or is already asked for.
    pub fn request_erase(&mut self) -> (r: Result<(), StorageMetaError>)
        requires
            old(self).wf(),
        ensures
            final(self).spec_backend() == old(self).spec_backend(),
            final(self).wf(),
            final(self).spec_mode() == old(self).spec_mode(),
            final(self).spec_geometry() == old(self).spec_geometry(),
            old(self).spec_meta().erase_in_progress ==> r == Err::<(), StorageMetaError>(
                StorageMetaError::EraseAlreadyInProgress,
            ),
            !old(self).spec_meta().erase_in_progress && old(self).spec_meta().erase_requested
                ==> r == Err::<(), StorageMetaError>(StorageMetaError::EraseAlreadyRequested),
            r is Ok <==> !old(self).spec_meta().erase_in_progress
                && !old(self).spec_meta().erase_requested,
            final(self).spec_meta() == (MetaState {
                erase_requested: old(self).spec_meta().erase_requested || r is Ok,
                ..old(self).spec_meta()
            }),
    {
        self.meta.request_erase()
    }

    /// Runs the pending erase, if one is asked for: the device is erased and
    /// the used blocks are reset to none.
    pub fn process_pending_erase(&mut self) -> (r: Result<bool, StorageError>)
        requires
            old(self).wf(),
        ensures
            final(self).wf(),
            final(self).spec_mode() == old(self).spec_mode(),
            final(self).spec_geometry() == old(self).spec_geometry(),
            !old(self).spec_meta().erase_requested ==> r == Ok::<bool, StorageError>(false)
                && final(self).spec_meta() == old(self).spec_meta(),
            old(self).spec_meta().erase_requested ==> (r is Err || r == Ok::<bool, StorageError>(
                true,
            )) && final(self).spec_meta() == meta_after_erase(old(self).spec_meta(), r is Ok),
            !old(self).spec_meta().erase_requested ==> final(self).spec_backend() == old(
                self,
            ).spec_backend(),
            old(self).spec_meta().erase_requested ==> exists|e: Result<(), StorageError>|
                old(self).spec_backend().spec_erase_result(final(self).spec_backend(), e) && r
                    == spec_erased(e),
    {
        if !self.meta.take_erase_request() {
            return Ok(false);
        }
        self.meta.set_erase_in_progress(true);
        self.meta.set_busy(true);
        let ghost b0 = self.backend;
        let erase_result = self.backend.erase_all();
        proof {
            assert(b0.spec_erase_result(self.backend, erase_result) && spec_erased(erase_result)
                == spec_erased(erase_result));
        }
        self.meta.set_busy(false);
        self.meta.set_erase_in_progress(false);
        let r = match erase_result {
            Ok(()) => {
                self.meta.reset_used_blocks();
                Ok(true)
            },
            Err(e) => Err(e),
        };
        proof {
            assert(b0.spec_erase_result(self.backend, erase_result) && r == spec_erased(
                erase_result,
            ));
        }
        r
    }
}

} // verus!

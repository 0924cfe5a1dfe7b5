//! Properties of the library that span several functions.

use vstd::prelude::*;

use crate::main_data_storage::diff_writer::sample_diff;
use crate::main_data_storage::geometry::StorageGeometry;
use crate::main_data_storage::mapper::{spec_block_bank, spec_block_local};
use crate::qspi_storage::flash_config::{spec_wrap_adress, SEGMENT_BYTES};
use crate::main_data_storage::meta::{request_erase_post, MetaState, StorageMetaError};
use crate::main_data_storage::backend::StorageBackend;
use crate::main_data_storage::types::{
    fresh_meta, meta_after_erase, spec_pending_erase_done, spec_plan_write, ContextState, StorageContext,
    StorageEraseHandle,
    StorageError, StorageMode,
};
use crate::protobuf::md::{spec_msg_size, MdError};
use crate::protobuf::messages::{SettingsResponse, WriteSettingsReq};
use crate::protobuf::process_settings::{
    ascii_chars, lemma_padded_password_text, settings_reported, spec_password_bytes,
    update_settings_post, DeviceConstants, SettingActionError,
};
use crate::app_settings::{AppSettings, NonStoreSettings};
use crate::qspi_storage::spec_header_unused;
use crate::self_writer::spec_diff;
use crate::protobuf::change_password::change_password_post;

verus! {

/// Two different blocks of the storage never land on the same block of the
/// same chip, and every block lands within its chip.
pub proof fn law_mapper_injective(g: StorageGeometry, a: int, b: int)
    requires
        0 <= a < g.spec_total_blocks(),
        0 <= b < g.spec_total_blocks(),
        a != b,
    ensures
        spec_block_bank(g.banks, a) != spec_block_bank(g.banks, b) || spec_block_local(g.banks, a)
            != spec_block_local(g.banks, b),
        0 <= spec_block_local(g.banks, a) < g.blocks_per_bank,
{
    if g.banks == crate::main_data_storage::geometry::FlashBanks::Two {
        assert(g.banks.spec_count() == 2);
        assert(g.spec_total_blocks() == 2 * g.blocks_per_bank) by (nonlinear_arith)
            requires
                g.spec_total_blocks() == g.blocks_per_bank * g.banks.spec_count(),
                g.banks.spec_count() == 2,
        ;
        if a % 2 == b % 2 && a / 2 == b / 2 {
            vstd::arithmetic::div_mod::lemma_fundamental_div_mod(a, 2);
            vstd::arithmetic::div_mod::lemma_fundamental_div_mod(b, 2);
        }
        vstd::arithmetic::div_mod::lemma_div_pos_is_pos(a, 2);
        vstd::arithmetic::div_mod::lemma_fundamental_div_mod(a, 2);
    } else {
        assert(g.banks.spec_count() == 1);
        assert(g.spec_total_blocks() == g.blocks_per_bank) by (nonlinear_arith)
            requires
                g.spec_total_blocks() == g.blocks_per_bank * g.banks.spec_count(),
                g.banks.spec_count() == 1,
        ;
    }
}

/// A read of byte `o` of block `g` asks the chip for the byte that the write
/// of block `g` put there: the same chip, and the block's start on that chip
/// plus `o`.
pub proof fn law_read_hits_written_block(g: StorageGeometry, block: int, o: int)
    requires
        g.block_size_bytes > 0,
        0 <= block < g.spec_total_blocks(),
        0 <= o < g.block_size_bytes,
    ensures
        ({
            let bs = g.block_size_bytes as int;
            let offset = block * bs + o;
            &&& offset / bs == block
            &&& offset % bs == o
            &&& spec_block_bank(g.banks, offset / bs) == spec_block_bank(g.banks, block)
            &&& spec_block_local(g.banks, offset / bs) * bs + offset % bs == spec_block_local(
                g.banks,
                block,
            ) * bs + o
        }),
{
    let bs = g.block_size_bytes as int;
    vstd::arithmetic::div_mod::lemma_fundamental_div_mod_converse(block * bs + o, bs, block, o);
}

/// The segment and the address within it that a chip address is split into
/// give the address back.
pub proof fn law_wrap_address_recombines(absolute: nat)
    requires
        absolute / (SEGMENT_BYTES as nat) <= u32::MAX,
    ensures
        spec_wrap_adress(absolute).0 * SEGMENT_BYTES + spec_wrap_adress(absolute).1 == absolute,
        spec_wrap_adress(absolute).1 < SEGMENT_BYTES,
{
    vstd::arithmetic::div_mod::lemma_fundamental_div_mod(absolute as int, SEGMENT_BYTES as int);
}

/// Blocks are written one after the other: a write in recorder mode goes to
/// the block after the written ones, and after it succeeded the next write
/// goes to the block after it, while there is one.
pub proof fn law_successive_writes(g: StorageGeometry, used: int, data_len: int)
    requires
        0 <= used,
        data_len == g.block_size_bytes,
        used + 1 < g.spec_total_blocks(),
        g.spec_total_blocks() <= u32::MAX,
    ensures
        spec_plan_write(StorageMode::Recorder, g, used, data_len) == Ok::<u32, StorageError>(
            used as u32,
        ),
        spec_plan_write(StorageMode::Recorder, g, used + 1, data_len) == Ok::<u32, StorageError>(
            (used + 1) as u32,
        ),
{
}

/// No block is written past the end: a planned block lies before the last one.
pub proof fn law_write_within_storage(mode: StorageMode, g: StorageGeometry, used: int, data_len: int)
    requires
        spec_plan_write(mode, g, used, data_len) is Ok,
        0 <= used,
    ensures
        (spec_plan_write(mode, g, used, data_len)->Ok_0 as int) < g.spec_total_blocks(),
{
}

/// After an erase that succeeded, recording starts again at block 0.
pub proof fn law_write_after_erase(m: MetaState, g: StorageGeometry)
    requires
        g.spec_total_blocks() > 0,
    ensures
        spec_plan_write(
            StorageMode::Recorder,
            g,
            meta_after_erase(m, true).used_blocks as int,
            g.block_size_bytes as int,
        ) == Ok::<u32, StorageError>(0),
        !meta_after_erase(m, true).erase_requested,
        !meta_after_erase(m, true).erase_in_progress,
{
}

/// An erase is asked for once: a second request before it ran is refused and
/// changes nothing.
pub proof fn law_erase_requested_once(
    m0: MetaState,
    m1: MetaState,
    m2: MetaState,
    r1: Result<(), StorageMetaError>,
    r2: Result<(), StorageMetaError>,
)
    requires
        request_erase_post(m0, m1, r1),
        r1 is Ok,
        request_erase_post(m1, m2, r2),
    ensures
        r2 == Err::<(), StorageMetaError>(StorageMetaError::EraseAlreadyRequested),
        m2 == m1,
        m1.erase_requested,
{
}

/// An erase asked for through the bookkeeping that a context lent out is the
/// context's own: the next run of the context's pending erase erases the
/// device, consumes the request, and counts no block written where the erase
/// went through.
pub proof fn law_lent_request_reaches_context<B: StorageBackend>(
    c1: StorageContext<B>,
    lent: MetaState,
    r: Result<(), StorageMetaError>,
    c2: StorageContext<B>,
    c3: StorageContext<B>,
    e: Result<bool, StorageError>,
)
    requires
        request_erase_post(c1@.current_meta(), lent, r),
        r is Ok,
        c2@ == (ContextState { meta: Some(lent), ..c1@ }),
        c2.spec_backend() == c1.spec_backend(),
        spec_pending_erase_done(c2, c3, e),
    ensures
        e != Ok::<bool, StorageError>(false),
        c3@.meta matches Some(m) && !m.erase_requested && !m.erase_in_progress,
        e is Ok ==> c3@.used() == 0,
{
}

/// The bookkeeping a context creates on first use has the geometry's shape,
/// the blocks found at start-up as used (at most all of them), and no flag
/// set.
pub proof fn law_fresh_bookkeeping<B: StorageBackend>(c: StorageContext<B>)
    requires
        c@.meta is None,
        c@.geometry.spec_total_blocks() <= u32::MAX,
    ensures
        c@.current_meta() == fresh_meta(c@.geometry, c@.initial_used_blocks as int),
        c@.current_meta().total_blocks == c@.geometry.spec_total_blocks(),
        c@.current_meta().block_size_bytes == c@.geometry.block_size_bytes,
        c@.current_meta().used_blocks == if c@.initial_used_blocks
            > c@.geometry.spec_total_blocks() {
            c@.geometry.spec_total_blocks()
        } else {
            c@.initial_used_blocks as int
        },
        !c@.current_meta().busy && !c@.current_meta().erase_in_progress
            && !c@.current_meta().erase_requested,
{
}

/// Once a context lent its bookkeeping out, every later lending hands out the
/// state the borrower left: there is one bookkeeping.
pub proof fn law_one_bookkeeping<B: StorageBackend>(
    c1: StorageContext<B>,
    left: MetaState,
    c2: StorageContext<B>,
)
    requires
        c2@ == (ContextState { meta: Some(left), ..c1@ }),
    ensures
        c2@.current_meta() == left,
        c2@.used() == left.used_blocks,
{
}

/// The erase handle works on the context's own bookkeeping: the context,
/// once the handle is gone, is what the handle left it as, and the
/// bookkeeping it lends next is the one whose request and progress flags the
/// handle reported.
pub proof fn law_erase_handle_shares_bookkeeping<'a, B: StorageBackend>(
    h: StorageEraseHandle<'a, B>,
    after: StorageContext<B>,
    lent: MetaState,
)
    requires
        after == h.spec_context(),
        lent == after@.current_meta(),
    ensures
        lent == h.spec_meta(),
        lent.erase_requested == h.spec_meta().erase_requested,
        lent.erase_in_progress == h.spec_meta().erase_in_progress,
{
}

/// An erase asked for through the lent bookkeeping, with the device's erase
/// going through, leaves no block counted and answers `Ok(true)`; the next
/// run answers `Ok(false)` and touches no device.
pub proof fn law_request_then_erase_once<B: StorageBackend>(
    c1: StorageContext<B>,
    lent: MetaState,
    r: Result<(), StorageMetaError>,
    c2: StorageContext<B>,
    c3: StorageContext<B>,
    e: Result<bool, StorageError>,
    c4: StorageContext<B>,
    e2: Result<bool, StorageError>,
)
    requires
        c1@.geometry.spec_total_blocks() <= u32::MAX,
        request_erase_post(c1@.current_meta(), lent, r),
        r is Ok,
        c2@ == (ContextState { meta: Some(lent), ..c1@ }),
        c2.spec_backend() == c1.spec_backend(),
        spec_pending_erase_done(c2, c3, e),
        e is Ok,
        spec_pending_erase_done(c3, c4, e2),
    ensures
        e == Ok::<bool, StorageError>(true),
        c3@.used() == 0,
        e2 == Ok::<bool, StorageError>(false),
        c4.spec_backend() == c3.spec_backend(),
        c4@.meta == c3@.meta,
{
}

/// An erase is run once per request: once the context ran it, running the
/// pending erase again does nothing and touches no device.
pub proof fn law_erase_runs_once<B: StorageBackend>(
    c3: StorageContext<B>,
    c4: StorageContext<B>,
    e: Result<bool, StorageError>,
)
    requires
        c3@.meta matches Some(m) && !m.erase_requested,
        spec_pending_erase_done(c3, c4, e),
    ensures
        e == Ok::<bool, StorageError>(false),
        c4@.meta == c3@.meta,
        c4.spec_backend() == c3.spec_backend(),
{
}

/// A settings request that `update_settings` refused leaves the settings as
/// they were, and the report afterwards is the report before.
pub proof fn law_refused_settings_unchanged(
    old: (AppSettings, NonStoreSettings),
    new: (AppSettings, NonStoreSettings),
    w: WriteSettingsReq,
    c: DeviceConstants,
    r: Result<bool, SettingActionError>,
    before: SettingsResponse,
    after: SettingsResponse,
)
    requires
        update_settings_post(old, new, w, c, r),
        r is Err,
        settings_reported(before, old),
        settings_reported(after, new),
    ensures
        new == old,
        after.serial == before.serial,
        after.fref == before.fref,
        after.write_config == before.write_config,
        after.start_delay == before.start_delay,
        after.p_work_range == before.p_work_range,
        after.calibration_date == before.calibration_date,
        after.password@ == before.password@,
{
}

/// What a settings request stores, the settings report shows afterwards: the
/// serial number, the reference frequency, the start delay, the zero
/// corrections, each field of the write configuration, of the calibration date
/// and of the pressure work range.
pub proof fn law_settings_read_back(
    old: (AppSettings, NonStoreSettings),
    new: (AppSettings, NonStoreSettings),
    w: WriteSettingsReq,
    c: DeviceConstants,
    r: Result<bool, SettingActionError>,
    resp: SettingsResponse,
)
    requires
        update_settings_post(old, new, w, c, r),
        r is Ok,
        settings_reported(resp, new),
    ensures
        w.set_serial matches Some(x) ==> resp.serial == x,
        w.set_fref matches Some(x) ==> resp.fref == x,
        w.set_start_delay matches Some(x) ==> resp.start_delay == x,
        w.set_p_zero_correction matches Some(x) ==> resp.p_zero_correction == x,
        w.set_t_zero_correction matches Some(x) ==> resp.t_zero_correction == x,
        (w.set_write_config matches Some(wc) ==> (wc.base_interval_ms matches Some(x) ==> resp.write_config->0.base_interval_ms == Some(x))),
        (w.set_write_config matches Some(wc) ==> (wc.p_write_devider matches Some(x) ==> resp.write_config->0.p_write_devider == Some(x))),
        (w.set_write_config matches Some(wc) ==> (wc.t_write_devider matches Some(x) ==> resp.write_config->0.t_write_devider == Some(x))),
        (w.set_calibration_date matches Some(d) ==> (d.day matches Some(x) ==> resp.calibration_date->0.day == Some(x))),
        (w.set_calibration_date matches Some(d) ==> (d.month matches Some(x) ==> resp.calibration_date->0.month == Some(x))),
        (w.set_calibration_date matches Some(d) ==> (d.year matches Some(x) ==> resp.calibration_date->0.year == Some(x))),
        (w.set_p_work_range matches Some(wr) ==> (wr.minimum matches Some(x) ==> resp.p_work_range->0.minimum == Some(x))),
        (w.set_p_work_range matches Some(wr) ==> (wr.maximum matches Some(x) ==> resp.p_work_range->0.maximum == Some(x))),
        (w.set_p_work_range matches Some(wr) ==> (wr.absolute_maximum matches Some(x) ==> resp.p_work_range->0.absolute_maximum == Some(x))),
{
}

/// A password change that went through leaves stored and current password
/// equal to the new one, so the same change asked again is accepted and
/// changes nothing.
pub proof fn law_password_change_twice(
    s0: (AppSettings, NonStoreSettings),
    s1: (AppSettings, NonStoreSettings),
    s2: (AppSettings, NonStoreSettings),
    np: Seq<u8>,
    r1: Result<bool, SettingActionError>,
    r2: Result<bool, SettingActionError>,
)
    requires
        change_password_post(s0, s1, np, r1),
        r1 is Ok,
        change_password_post(s1, s2, np, r2),
    ensures
        s1.0.password@ == s1.1.current_password@,
        r2 == Ok::<bool, SettingActionError>(false),
        s2 == s1,
{
}

/// A password set by a settings request is reported back as it was sent: for
/// passwords of at most ten ASCII characters, none of them NUL.
pub proof fn law_password_read_back(
    old: (AppSettings, NonStoreSettings),
    new: (AppSettings, NonStoreSettings),
    w: WriteSettingsReq,
    c: DeviceConstants,
    r: Result<bool, SettingActionError>,
    resp: SettingsResponse,
    p: Seq<u8>,
)
    requires
        update_settings_post(old, new, w, c, r),
        r is Ok,
        settings_reported(resp, new),
        w.set_password matches Some(v) && v@ == p,
        p.len() <= 10,
        forall|i: int| 0 <= i < p.len() ==> 0 < #[trigger] p[i] < 0x80,
    ensures
        resp.password@ == ascii_chars(p),
{
    lemma_padded_password_text(p);
    assert(new.1.current_password@ == spec_password_bytes(p));
}

/// A password changed by a password request is reported back as it was sent,
/// for passwords of at most ten ASCII characters, none of them NUL.
pub proof fn law_changed_password_read_back(
    old: (AppSettings, NonStoreSettings),
    new: (AppSettings, NonStoreSettings),
    r: Result<bool, SettingActionError>,
    resp: SettingsResponse,
    p: Seq<u8>,
)
    requires
        change_password_post(old, new, p, r),
        r is Ok,
        settings_reported(resp, new),
        p.len() <= 10,
        forall|i: int| 0 <= i < p.len() ==> 0 < #[trigger] p[i] < 0x80,
    ensures
        resp.password@ == ascii_chars(p),
{
    lemma_padded_password_text(p);
}

/// A message length of one varint byte is read as that byte, and a zero length
/// is refused.
pub proof fn law_single_byte_length(b: u8)
    ensures
        1 <= b <= 127 ==> spec_msg_size(seq![b]) == Ok::<usize, MdError>(b as usize),
        b == 0 ==> spec_msg_size(seq![b]) == Err::<usize, MdError>(MdError::InvalidLength(0)),
{
    let s = seq![b];
    assert(s.drop_first() =~= Seq::<u8>::empty());
}

/// The stored differences give the values back: adding a difference to the
/// value before it, with wrap-around, gives the value.
pub proof fn law_diff_decodes(value: i32, prev: i32)
    ensures
        prev.wrapping_add(spec_diff(value, prev)) == value,
{
}

/// The same for the page samples, which difference raw 32-bit results read as
/// two's complement.
pub proof fn law_sample_diff_decodes(r: u32, prev: u32)
    ensures
        (prev as i32).wrapping_add(sample_diff(r, prev)) == r as i32,
{
}

/// Erased flash, all ones, reads as an unused block; a block whose own id is
/// below the largest reads as used.
pub proof fn law_erased_block_unused(h: Seq<u8>)
    requires
        h.len() == 8,
    ensures
        (forall|i: int| 0 <= i < 8 ==> h[i] == 0xff) ==> spec_header_unused(h),
        crate::qspi_storage::spec_le_u32(h[0], h[1], h[2], h[3]) < u32::MAX ==> !spec_header_unused(h),
{
    if forall|i: int| 0 <= i < 8 ==> h[i] == 0xff {
        assert(h[0] == 0xff && h[1] == 0xff && h[2] == 0xff && h[3] == 0xff);
        assert(h[4] == 0xff && h[5] == 0xff && h[6] == 0xff && h[7] == 0xff);
    }
}

} // verus!

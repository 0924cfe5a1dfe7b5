//! Answering a request of the host.

use vstd::prelude::*;

use super::change_password::{change_password, change_password_post};
use super::device_info::{fill_info, info_reported};
use super::messages::{
    ChangePasswordStatus, FlashStatus, InfoResponse, OutputResponse, Request, Response,
    SettingsResponse, FLASH_STATUS_EREASING, FLASH_STATUS_OK, FLASH_STATUS_RESET_MONITORING_FAILED,
    INFO_ID_DISCOVER, INFO_PRESSURE_SELF_WRITER_ID, INFO_PROTOCOL_VERSION,
    STATUS_ERRORS_IN_SUBCOMMANDS, STATUS_PROTOCOL_ERROR,
};
use super::monitoring_over_conditions::{reset_monitoring_flags, reset_monitoring_post};
use super::output::{fill_output, output_filled, OutputGetter, OutputSnapshot};
use super::process_settings::{
    fill_settings, settings_reported, update_settings, update_settings_post, DeviceConstants,
    SettingActionError,
};
use crate::app_settings::{AppSettings, NonStoreSettings, PASSWORD_SIZE};
use crate::main_data_storage::meta::{request_erase_post, MetaState, StorageMetaError, StorageMetaHandle};

verus! {

/// The flash status code: a failed monitoring reset first, then a running or
/// requested erase.
pub open spec fn spec_flash_status_code(reset_failed: bool, erasing: bool) -> i32 {
    if reset_failed {
        FLASH_STATUS_RESET_MONITORING_FAILED
    } else if erasing {
        FLASH_STATUS_EREASING
    } else {
        FLASH_STATUS_OK
    }
}

/// The flash state for the bookkeeping `m`.
pub open spec fn flash_state_of(m: MetaState, reset_monitoring_failed: Option<bool>, clear_memory_requested: bool) -> FlashStatus {
    FlashStatus {
        flash_page_size: m.block_size_bytes,
        flash_pages: m.total_blocks,
        flash_used_pages: m.used_blocks,
        status: spec_flash_status_code(
            reset_monitoring_failed == Some(true),
            clear_memory_requested || m.erase_in_progress,
        ),
    }
}

/// Fills the flash state from the bookkeeping and the outcome of the flash commands.
pub fn fill_flash_state(
    flash_status: &mut FlashStatus,
    storage_meta: &StorageMetaHandle,
    reset_monitoring_failed: Option<bool>,
    clear_memory_requested: bool,
)
    ensures
        *final(flash_status) == flash_state_of(
            storage_meta@,
            reset_monitoring_failed,
            clear_memory_requested,
        ),
{
    flash_status.flash_page_size = storage_meta.block_size_bytes();
    flash_status.flash_pages = storage_meta.total_blocks();
    flash_status.flash_used_pages = storage_meta.used_blocks();
    flash_status.status = if reset_monitoring_failed == Some(true) {
        FLASH_STATUS_RESET_MONITORING_FAILED
    } else if clear_memory_requested || storage_meta.erase_in_progress() {
        FLASH_STATUS_EREASING
    } else {
        FLASH_STATUS_OK
    };
}

/// The request is meant for this device, in a protocol version it speaks.
pub open spec fn spec_request_accepted(req: Request) -> bool {
    &&& (req.device_id == INFO_PRESSURE_SELF_WRITER_ID || req.device_id == INFO_ID_DISCOVER)
    &&& (req.protocol_version == INFO_PROTOCOL_VERSION || req.protocol_version == 0)
}

/// The request asks to reset the monitoring flags.
pub open spec fn reset_requested(req: Request) -> bool {
    req.flash_command matches Some(fc) && fc.reset_monitoring is Some
}

/// The request asks to clear the memory.
pub open spec fn clear_requested(req: Request) -> bool {
    req.flash_command matches Some(fc) && fc.clear_memory == Some(true)
}

/// What happened while a request was handled: the settings after each step, the
/// outcome of each step, and the measurements read.
pub struct RequestTrace {
    pub s1: (AppSettings, NonStoreSettings),
    pub s2: (AppSettings, NonStoreSettings),
    pub r1: Result<bool, SettingActionError>,
    pub r2: Result<bool, SettingActionError>,
    pub r3: Result<bool, SettingActionError>,
    pub r4: Result<(), StorageMetaError>,
    pub info_output: OutputSnapshot,
    pub output: OutputSnapshot,
}

/// Whether the settings must be written to flash: the last step that succeeded
/// decides.
pub open spec fn spec_need_to_write(req: Request, t: RequestTrace) -> bool {
    if reset_requested(req) && t.r3 is Ok {
        true
    } else if req.change_password is Some && t.r2 is Ok {
        t.r2->Ok_0
    } else if req.write_settings is Some && t.r1 is Ok {
        t.r1->Ok_0
    } else {
        false
    }
}

/// Some step of the request failed.
pub open spec fn spec_step_failed(req: Request, t: RequestTrace) -> bool {
    ||| (req.write_settings is Some && t.r1 is Err)
    ||| (req.change_password is Some && t.r2 is Err)
    ||| (reset_requested(req) && t.r3 is Err)
    ||| (clear_requested(req) && t.r4 is Err)
}

/// An accepted request, handled step by step: settings written, information
/// read, password changed, flash commands run, outputs read.
pub open spec fn request_traced(
    req: Request,
    c: DeviceConstants,
    s0: (AppSettings, NonStoreSettings),
    s3: (AppSettings, NonStoreSettings),
    m0: MetaState,
    m1: MetaState,
    resp0: Response,
    resp1: Response,
    r: bool,
    t: RequestTrace,
) -> bool {
    &&& match req.write_settings {
        Some(w) => update_settings_post(s0, t.s1, w, c, t.r1),
        None => t.s1 == s0,
    }
    &&& match req.change_password {
        Some(cp) => change_password_post(t.s1, t.s2, cp.new_password@, t.r2),
        None => t.s2 == t.s1,
    }
    &&& reset_requested(req) ==> reset_monitoring_post(t.s2, s3, t.r3)
    &&& !reset_requested(req) ==> s3 == t.s2
    &&& clear_requested(req) ==> request_erase_post(m0, m1, t.r4)
    &&& !clear_requested(req) ==> m1 == m0
    &&& r == spec_need_to_write(req, t)
    &&& resp1.global_status == if spec_step_failed(req, t) {
        STATUS_ERRORS_IN_SUBCOMMANDS
    } else {
        resp0.global_status
    }
    &&& resp1.id == resp0.id
    &&& resp1.device_id == resp0.device_id
    &&& resp1.protocol_version == resp0.protocol_version
    &&& resp1.timestamp == resp0.timestamp
    &&& req.write_settings is Some ==> (resp1.get_settings matches Some(g) && settings_reported(
        g,
        t.s1,
    ))
    &&& req.write_settings is None ==> resp1.get_settings == resp0.get_settings
    &&& req.get_info is Some ==> (resp1.info matches Some(i) && info_reported(
        i,
        t.info_output,
        t.s1,
        c,
    ))
    &&& req.get_info is None ==> resp1.info == resp0.info
    &&& req.change_password is Some ==> resp1.change_password_status == Some(
        ChangePasswordStatus { password_changed: t.r2 is Ok },
    )
    &&& req.change_password is None ==> resp1.change_password_status
        == resp0.change_password_status
    &&& req.flash_command is Some ==> resp1.flash_status == Some(
        flash_state_of(
            m1,
            if reset_requested(req) {
                Some(t.r3 is Err)
            } else {
                None
            },
            clear_requested(req) && t.r4 is Ok,
        ),
    )
    &&& req.flash_command is None ==> resp1.flash_status == resp0.flash_status
    &&& req.get_output_values matches Some(oreq) ==> (resp1.output matches Some(o)
        && output_filled(empty_output(), o, oreq, t.output))
    &&& req.get_output_values is None ==> resp1.output == resp0.output
}

/// An output report with no values.
pub open spec fn empty_output() -> OutputResponse {
    OutputResponse {
        pressure: None,
        temperature: None,
        tcpu: None,
        vbat: None,
        fp: None,
        ft: None,
        ftimestamp: None,
        p_result: None,
        t_result: None,
        adc_tcpu: None,
        adc_vbat: None,
    }
}

/// Handles a request: a request for another device or in an unknown protocol version
/// is answered with a protocol error and nothing else; otherwise each part of the
/// request is handled in turn and answered. Returns whether the settings must be
/// written to flash.
pub fn process_request<G: OutputGetter>(
    req: &Request,
    resp: &mut Response,
    output_getter: &mut G,
    s: &mut (AppSettings, NonStoreSettings),
    storage_meta: &mut StorageMetaHandle,
    c: DeviceConstants,
) -> (r: bool)
    requires
        c.wf(),
        req.change_password matches Some(cp) ==> cp.new_password@.len() <= PASSWORD_SIZE,
    ensures
        !spec_request_accepted(*req) ==> {
            &&& !r
            &&& final(resp).global_status == STATUS_PROTOCOL_ERROR
            &&& final(resp).id == old(resp).id
            &&& final(resp).device_id == old(resp).device_id
            &&& final(resp).protocol_version == old(resp).protocol_version
            &&& final(resp).timestamp == old(resp).timestamp
            &&& final(resp).get_settings == old(resp).get_settings
            &&& final(resp).info == old(resp).info
            &&& final(resp).change_password_status == old(resp).change_password_status
            &&& final(resp).flash_status == old(resp).flash_status
            &&& final(resp).output == old(resp).output
            &&& *final(s) == *old(s)
            &&& final(storage_meta)@ == old(storage_meta)@
        },
        spec_request_accepted(*req) ==> exists|t: RequestTrace|
            #[trigger] request_traced(
                *req,
                c,
                *old(s),
                *final(s),
                old(storage_meta)@,
                final(storage_meta)@,
                *old(resp),
                *final(resp),
                r,
                t,
            ),
{
    if !(req.device_id == INFO_PRESSURE_SELF_WRITER_ID || req.device_id == INFO_ID_DISCOVER) {
        resp.global_status = STATUS_PROTOCOL_ERROR;
        return false;
    }
    if !(req.protocol_version == INFO_PROTOCOL_VERSION || req.protocol_version == 0) {
        resp.global_status = STATUS_PROTOCOL_ERROR;
        return false;
    }
    let ghost s0 = *s;
    let ghost m0 = storage_meta@;
    let ghost resp0 = *resp;
    let ghost mut r1: Result<bool, SettingActionError> = Ok(false);
    let ghost mut r2: Result<bool, SettingActionError> = Ok(false);
    let ghost mut r3: Result<bool, SettingActionError> = Ok(false);
    let ghost mut r4: Result<(), StorageMetaError> = Ok(());
    let ghost mut info_output: OutputSnapshot = vstd::pervasive::arbitrary();
    let ghost mut out_output: OutputSnapshot = vstd::pervasive::arbitrary();

    let mut need_to_write_settings = false;

    if let Some(write_settings) = &req.write_settings {
        let res = update_settings(write_settings, s, c);
        proof {
            r1 = res;
        }
        match res {
            Ok(need_to_write) => need_to_write_settings = need_to_write,
            Err(_) => {
                resp.global_status = STATUS_ERRORS_IN_SUBCOMMANDS;
            },
        }
        let mut get_settings = SettingsResponse::new();
        fill_settings(&mut get_settings, s);
        resp.get_settings = Some(get_settings);
    }
    let ghost s1 = *s;

    if req.get_info.is_some() {
        let mut info = InfoResponse::new();
        let output_data = output_getter.get_output();
        proof {
            info_output = output_data;
        }
        fill_info(&mut info, &output_data, s, c);
        resp.info = Some(info);
    }

    if let Some(cp) = &req.change_password {
        let res = change_password(cp, s);
        proof {
            r2 = res;
        }
        let password_changed = match res {
            Err(_) => {
                resp.global_status = STATUS_ERRORS_IN_SUBCOMMANDS;
                false
            },
            Ok(need_to_write) => {
                need_to_write_settings = need_to_write;
                true
            },
        };
        resp.change_password_status = Some(ChangePasswordStatus { password_changed });
    }
    let ghost s2 = *s;

    if let Some(flash_command) = req.flash_command {
        let mut flash_status = FlashStatus::new();
        let mut reset_monitoring_failed = None;
        if flash_command.reset_monitoring.is_some() {
            let res = reset_monitoring_flags(s);
            proof {
                r3 = res;
            }
            reset_monitoring_failed = match res {
                Err(_) => {
                    resp.global_status = STATUS_ERRORS_IN_SUBCOMMANDS;
                    Some(true)
                },
                Ok(_) => {
                    need_to_write_settings = true;
                    Some(false)
                },
            };
        }
        let mut clear_memory_requested = false;
        if flash_command.clear_memory == Some(true) {
            let res = storage_meta.request_erase();
            proof {
                r4 = res;
            }
            match res {
                Ok(()) => clear_memory_requested = true,
                Err(_) => {
                    resp.global_status = STATUS_ERRORS_IN_SUBCOMMANDS;
                },
            }
        }
        fill_flash_state(
            &mut flash_status,
            storage_meta,
            reset_monitoring_failed,
            clear_memory_requested,
        );
        resp.flash_status = Some(flash_status);
    }

    if let Some(oreq) = req.get_output_values {
        let mut out = OutputResponse::new();
        let output_data = output_getter.get_output();
        proof {
            out_output = output_data;
        }
        fill_output(&mut out, &oreq, &output_data);
        resp.output = Some(out);
    }

    proof {
        let t = RequestTrace { s1, s2, r1, r2, r3, r4, info_output, output: out_output };
        assert(request_traced(
            *req,
            c,
            s0,
            *s,
            m0,
            storage_meta@,
            resp0,
            *resp,
            need_to_write_settings,
            t,
        ));
    }
    need_to_write_settings
}

} // verus!

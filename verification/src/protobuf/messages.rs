//! The protocol messages. Single precision values are carried by their bit patterns,
//! strings by their bytes.

use vstd::prelude::*;

use super::float_bits::{f32_bits_lt, f32_lt};
use crate::app_settings;

verus! {

/// Fixed numbers of the protocol.
pub const INFO_MAGICK: u8 = 0x09;

pub const INFO_PROTOCOL_VERSION: u32 = 1;

pub const INFO_PRESSURE_SELF_WRITER_ID: u32 = 0xE001;

pub const INFO_ID_DISCOVER: u32 = 0xFFFF;

/// The fixed numbers of the protocol by name.
#[derive(Debug, Clone, Copy, PartialEq, Eq, Structural)]
pub enum Info {
    Magick,
    ProtocolVersion,
    PressureSelfWriterId,
    IdDiscover,
}

impl Info {
    pub open spec fn spec_value(self) -> u32 {
        match self {
            Info::Magick => INFO_MAGICK as u32,
            Info::ProtocolVersion => INFO_PROTOCOL_VERSION,
            Info::PressureSelfWriterId => INFO_PRESSURE_SELF_WRITER_ID,
            Info::IdDiscover => INFO_ID_DISCOVER,
        }
    }

    pub fn value(self) -> (r: u32)
        ensures
            r == self.spec_value(),
    {
        match self {
            Info::Magick => INFO_MAGICK as u32,
            Info::ProtocolVersion => INFO_PROTOCOL_VERSION,
            Info::PressureSelfWriterId => INFO_PRESSURE_SELF_WRITER_ID,
            Info::IdDiscover => INFO_ID_DISCOVER,
        }
    }
}

/// Status codes of a response.
pub const STATUS_OK: i32 = 0;

pub const STATUS_PROTOCOL_ERROR: i32 = 1;

pub const STATUS_ERRORS_IN_SUBCOMMANDS: i32 = 2;

/// Status codes of the flash state.
pub const FLASH_STATUS_OK: i32 = 0;

pub const FLASH_STATUS_EREASING: i32 = 1;

pub const FLASH_STATUS_RESET_MONITORING_FAILED: i32 = 2;

/// An empty message, used as a flag.
#[derive(Debug, Clone, Copy, PartialEq, Eq, Structural)]
pub struct Empty {}

#[derive(Debug, Clone, Copy, PartialEq, Eq, Structural)]
pub struct PCoefficients {
    pub fp0: Option<u32>,
    pub ft0: Option<u32>,
    pub a0: Option<u32>,
    pub a1: Option<u32>,
    pub a2: Option<u32>,
    pub a3: Option<u32>,
    pub a4: Option<u32>,
    pub a5: Option<u32>,
    pub a6: Option<u32>,
    pub a7: Option<u32>,
    pub a8: Option<u32>,
    pub a9: Option<u32>,
    pub a10: Option<u32>,
    pub a11: Option<u32>,
    pub a12: Option<u32>,
    pub a13: Option<u32>,
    pub a14: Option<u32>,
    pub a15: Option<u32>,
}

impl PCoefficients {
    /// The field of the `i`-th polynomial coefficient.
    pub open spec fn a(self, i: int) -> Option<u32> {
        if i == 0 {
            self.a0
        } else if i == 1 {
            self.a1
        } else if i == 2 {
            self.a2
        } else if i == 3 {
            self.a3
        } else if i == 4 {
            self.a4
        } else if i == 5 {
            self.a5
        } else if i == 6 {
            self.a6
        } else if i == 7 {
            self.a7
        } else if i == 8 {
            self.a8
        } else if i == 9 {
            self.a9
        } else if i == 10 {
            self.a10
        } else if i == 11 {
            self.a11
        } else if i == 12 {
            self.a12
        } else if i == 13 {
            self.a13
        } else if i == 14 {
            self.a14
        } else {
            self.a15
        }
    }

    /// Some field is present.
    pub open spec fn any_set(self) -> bool {
        self.a0 is Some || self.a1 is Some || self.a2 is Some || self.a3 is Some || self.a4 is Some
            || self.a5 is Some || self.a6 is Some || self.a7 is Some || self.a8 is Some
            || self.a9 is Some || self.a10 is Some || self.a11 is Some || self.a12 is Some
            || self.a13 is Some || self.a14 is Some || self.a15 is Some || self.ft0 is Some
            || self.fp0 is Some
    }
}

#[derive(Debug, Clone, Copy, PartialEq, Eq, Structural)]
pub struct T5Coefficients {
    pub f0: Option<u32>,
    pub t0: Option<u32>,
    pub c1: Option<u32>,
    pub c2: Option<u32>,
    pub c3: Option<u32>,
    pub c4: Option<u32>,
    pub c5: Option<u32>,
}

impl T5Coefficients {
    /// The field of the `i`-th polynomial coefficient (`c1` is the 0-th).
    pub open spec fn c(self, i: int) -> Option<u32> {
        if i == 0 {
            self.c1
        } else if i == 1 {
            self.c2
        } else if i == 2 {
            self.c3
        } else if i == 3 {
            self.c4
        } else {
            self.c5
        }
    }

    pub open spec fn any_set(self) -> bool {
        self.t0 is Some || self.c1 is Some || self.c2 is Some || self.c3 is Some || self.c4 is Some
            || self.c5 is Some || self.f0 is Some
    }
}

#[derive(Debug, Clone, Copy, PartialEq, Eq, Structural)]
pub struct WorkRange {
    pub minimum: Option<u32>,
    pub maximum: Option<u32>,
    pub absolute_maximum: Option<u32>,
}

#[derive(Debug, Clone, Copy, PartialEq, Eq, Structural)]
pub enum WorkRangeError {
    MinimumAboveMaximum,
    MinimumAboveAbsoluteMaximum,
    MaximumAboveAbasoluteMaximum,
}

/// A value that can check itself.
pub trait Validator<T> {
    fn validate(&self) -> Result<(), T>;
}

/// The value of a field, zero when absent.
pub open spec fn or_zero(v: Option<u32>) -> u32 {
    match v {
        Some(x) => x,
        None => 0,
    }
}

impl WorkRange {
    pub open spec fn any_set(self) -> bool {
        self.minimum is Some || self.maximum is Some || self.absolute_maximum is Some
    }

    /// What `validate` reports: the absolute maximum must not lie below the maximum,
    /// nor below the minimum, and the maximum must not lie below the minimum, each
    /// checked only between present fields.
    pub open spec fn spec_validate(self) -> Result<(), WorkRangeError> {
        if self.absolute_maximum is Some && self.maximum is Some && f32_lt(
            or_zero(self.absolute_maximum),
            or_zero(self.maximum),
        ) {
            Err(WorkRangeError::MaximumAboveAbasoluteMaximum)
        } else if self.absolute_maximum is Some && self.minimum is Some && f32_lt(
            or_zero(self.absolute_maximum),
            or_zero(self.minimum),
        ) {
            Err(WorkRangeError::MinimumAboveAbsoluteMaximum)
        } else if self.maximum is Some && self.minimum is Some && f32_lt(
            or_zero(self.maximum),
            or_zero(self.minimum),
        ) {
            Err(WorkRangeError::MinimumAboveMaximum)
        } else {
            Ok(())
        }
    }
}

impl Validator<WorkRangeError> for WorkRange {
    fn validate(&self) -> (r: Result<(), WorkRangeError>)
        ensures
            r == self.spec_validate(),
    {
        if let Some(absolute_maximum) = self.absolute_maximum {
            if let Some(maximum) = self.maximum {
                if f32_bits_lt(absolute_maximum, maximum) {
                    return Err(WorkRangeError::MaximumAboveAbasoluteMaximum);
                }
            }
            if let Some(minimum) = self.minimum {
                if f32_bits_lt(absolute_maximum, minimum) {
                    return Err(WorkRangeError::MinimumAboveAbsoluteMaximum);
                }
            }
        }
        if let (Some(maximum), Some(minimum)) = (self.maximum, self.minimum) {
            if f32_bits_lt(maximum, minimum) {
                return Err(WorkRangeError::MinimumAboveMaximum);
            }
        }
        Ok(())
    }
}

impl WorkRange {
    pub open spec fn spec_from_settings(wr: app_settings::WorkRange) -> Self {
        WorkRange {
            minimum: Some(wr.minimum),
            maximum: Some(wr.maximum),
            absolute_maximum: Some(wr.absolute_maximum),
        }
    }

    pub fn from_settings(wr: &app_settings::WorkRange) -> (r: Self)
        ensures
            r == Self::spec_from_settings(*wr),
    {
        Self {
            minimum: Some(wr.minimum),
            maximum: Some(wr.maximum),
            absolute_maximum: Some(wr.absolute_maximum),
        }
    }
}

#[derive(Debug, Clone, Copy, PartialEq, Eq, Structural)]
pub enum DateField {
    Day,
    Month,
    Past,
}

/// The date the firmware was built, below which calibration dates are refused.
#[derive(Debug, Clone, Copy, PartialEq, Eq, Structural)]
pub struct BuildDate {
    pub year: u32,
    pub month: u32,
    pub day: u32,
}

#[derive(Debug, Clone, Copy, PartialEq, Eq, Structural)]
pub struct CalibrationDate {
    pub day: Option<u32>,
    pub month: Option<u32>,
    pub year: Option<u32>,
}

impl CalibrationDate {
    pub open spec fn spec_validate(self, build: BuildDate) -> Result<(), DateField> {
        if self.day matches Some(d) && d > 31 {
            Err(DateField::Day)
        } else if self.month matches Some(m) && (m > 12 || m < 1) {
            Err(DateField::Month)
        } else if self.year matches Some(y) && y < build.year {
            Err(DateField::Past)
        } else if self.year is Some && self.day is Some && self.month is Some && or_zero(
            self.month,
        ) < build.month {
            Err(DateField::Past)
        } else if self.year is Some && self.day is Some && self.month is Some && or_zero(
            self.month,
        ) == build.month && or_zero(self.day) < build.day {
            Err(DateField::Past)
        } else {
            Ok(())
        }
    }

    /// Checks the present fields: a day up to 31, a month from 1 to 12, and, when a
    /// year is given, no year before the build's. With year, day and month all given,
    /// a month before the build's month, or the build's month with a day before the
    /// build's day, is refused as past whatever the year.
    pub fn validate(&self, build: BuildDate) -> (r: Result<(), DateField>)
        ensures
            r == self.spec_validate(build),
    {
        if let Some(day) = self.day {
            if day > 31 {
                return Err(DateField::Day);
            }
        }
        if let Some(month) = self.month {
            if month > 12 || month < 1 {
                return Err(DateField::Month);
            }
        }
        if let Some(year) = self.year {
            if year < build.year {
                return Err(DateField::Past);
            }
            if let (Some(day), Some(month)) = (self.day, self.month) {
                if month < build.month {
                    return Err(DateField::Past);
                } else if month == build.month && day < build.day {
                    return Err(DateField::Past);
                }
            }
        }
        Ok(())
    }

    pub open spec fn spec_from_settings(cd: app_settings::CalibrationDate) -> Self {
        CalibrationDate { day: Some(cd.Day), month: Some(cd.Month), year: Some(cd.Year) }
    }

    pub fn from_settings(cd: &app_settings::CalibrationDate) -> (r: Self)
        ensures
            r == Self::spec_from_settings(*cd),
    {
        Self { day: Some(cd.Day), month: Some(cd.Month), year: Some(cd.Year) }
    }
}

#[derive(Debug, Clone, Copy, PartialEq, Eq, Structural)]
pub struct WriteConfig {
    pub base_interval_ms: Option<u32>,
    pub p_write_devider: Option<u32>,
    pub t_write_devider: Option<u32>,
}

impl WriteConfig {
    pub open spec fn spec_from_settings(wc: app_settings::WriteConfig) -> Self {
        WriteConfig {
            base_interval_ms: Some(wc.BaseInterval_ms),
            p_write_devider: Some(wc.PWriteDevider),
            t_write_devider: Some(wc.TWriteDevider),
        }
    }

    pub fn from_settings(wc: &app_settings::WriteConfig) -> (r: Self)
        ensures
            r == Self::spec_from_settings(*wc),
    {
        Self {
            base_interval_ms: Some(wc.BaseInterval_ms),
            p_write_devider: Some(wc.PWriteDevider),
            t_write_devider: Some(wc.TWriteDevider),
        }
    }
}

impl PCoefficients {
    /// The coefficients of the settings, all present. The two reference
    /// frequencies are crossed: `ft0` carries the settings' `Fp0` and `fp0`
    /// carries `Ft0`.
    pub open spec fn spec_from_settings(p: app_settings::P16Coeffs) -> Self {
        PCoefficients {
            ft0: Some(p.Fp0),
            fp0: Some(p.Ft0),
            a0: Some(p.A@[0]),
            a1: Some(p.A@[1]),
            a2: Some(p.A@[2]),
            a3: Some(p.A@[3]),
            a4: Some(p.A@[4]),
            a5: Some(p.A@[5]),
            a6: Some(p.A@[6]),
            a7: Some(p.A@[7]),
            a8: Some(p.A@[8]),
            a9: Some(p.A@[9]),
            a10: Some(p.A@[10]),
            a11: Some(p.A@[11]),
            a12: Some(p.A@[12]),
            a13: Some(p.A@[13]),
            a14: Some(p.A@[14]),
            a15: Some(p.A@[15]),
        }
    }

    pub fn from_settings(p: &app_settings::P16Coeffs) -> (r: Self)
        ensures
            r == Self::spec_from_settings(*p),
    {
        Self {
            ft0: Some(p.Fp0),
            fp0: Some(p.Ft0),
            a0: Some(p.A[0]),
            a1: Some(p.A[1]),
            a2: Some(p.A[2]),
            a3: Some(p.A[3]),
            a4: Some(p.A[4]),
            a5: Some(p.A[5]),
            a6: Some(p.A[6]),
            a7: Some(p.A[7]),
            a8: Some(p.A[8]),
            a9: Some(p.A[9]),
            a10: Some(p.A[10]),
            a11: Some(p.A[11]),
            a12: Some(p.A[12]),
            a13: Some(p.A[13]),
            a14: Some(p.A[14]),
            a15: Some(p.A[15]),
        }
    }
}

impl T5Coefficients {
    pub open spec fn spec_from_settings(t: app_settings::T5Coeffs) -> Self {
        T5Coefficients {
            t0: Some(t.T0),
            f0: Some(t.F0),
            c1: Some(t.C@[0]),
            c2: Some(t.C@[1]),
            c3: Some(t.C@[2]),
            c4: Some(t.C@[3]),
            c5: Some(t.C@[4]),
        }
    }

    pub fn from_settings(t: &app_settings::T5Coeffs) -> (r: Self)
        ensures
            r == Self::spec_from_settings(*t),
    {
        Self {
            t0: Some(t.T0),
            f0: Some(t.F0),
            c1: Some(t.C[0]),
            c2: Some(t.C[1]),
            c3: Some(t.C[2]),
            c4: Some(t.C[3]),
            c5: Some(t.C[4]),
        }
    }
}

/// The write-settings request: each present field is to be stored.
#[derive(Debug, Clone)]
pub struct WriteSettingsReq {
    pub set_serial: Option<u32>,
    pub set_fref: Option<u32>,
    pub set_p_coefficients: Option<PCoefficients>,
    pub set_t_coefficients: Option<T5Coefficients>,
    pub set_p_work_range: Option<WorkRange>,
    pub set_t_work_range: Option<WorkRange>,
    pub set_tcpu_work_range: Option<WorkRange>,
    pub set_bat_work_range: Option<WorkRange>,
    pub set_calibration_date: Option<CalibrationDate>,
    pub set_p_zero_correction: Option<u32>,
    pub set_t_zero_correction: Option<u32>,
    pub set_write_config: Option<WriteConfig>,
    pub set_start_delay: Option<u32>,
    pub set_pressure_meassure_units: Option<i32>,
    pub set_password: Option<Vec<u8>>,
}

/// The settings as reported to the host.
#[derive(Debug, Clone)]
pub struct SettingsResponse {
    pub serial: u32,
    pub fref: u32,
    pub p_coefficients: Option<PCoefficients>,
    pub t_coefficients: Option<T5Coefficients>,
    pub p_work_range: Option<WorkRange>,
    pub t_work_range: Option<WorkRange>,
    pub tcpu_work_range: Option<WorkRange>,
    pub bat_work_range: Option<WorkRange>,
    pub calibration_date: Option<CalibrationDate>,
    pub p_zero_correction: u32,
    pub t_zero_correction: u32,
    pub write_config: Option<WriteConfig>,
    pub start_delay: u32,
    pub pressure_meassure_units: i32,
    pub password: String,
}

impl SettingsResponse {
    /// All numbers zero, all parts absent, an empty password.
    pub fn new() -> (r: Self)
        ensures
            r.serial == 0,
            r.fref == 0,
            r.p_coefficients is None,
            r.t_coefficients is None,
            r.p_work_range is None,
            r.t_work_range is None,
            r.tcpu_work_range is None,
            r.bat_work_range is None,
            r.calibration_date is None,
            r.p_zero_correction == 0,
            r.t_zero_correction == 0,
            r.write_config is None,
            r.start_delay == 0,
            r.pressure_meassure_units == 0,
            r.password@ == Seq::<char>::empty(),
    {
        Self {
            serial: 0,
            fref: 0,
            p_coefficients: None,
            t_coefficients: None,
            p_work_range: None,
            t_work_range: None,
            tcpu_work_range: None,
            bat_work_range: None,
            calibration_date: None,
            p_zero_correction: 0,
            t_zero_correction: 0,
            write_config: None,
            start_delay: 0,
            pressure_meassure_units: 0,
            password: String::new(),
        }
    }
}

/// A password change request: the bytes of the new password.
#[derive(Debug, Clone)]
pub struct ChangePassword {
    pub new_password: Vec<u8>,
}

/// Device information reported to the host.
#[derive(Debug, Clone, Copy, PartialEq, Eq, Structural)]
pub struct InfoResponse {
    pub hw_version: u32,
    pub sw_version: u32,
    pub pressure_channel_failed: bool,
    pub temperature_channel_failed: bool,
    pub overpress_detected: bool,
    pub overheat_detected: bool,
    pub overheat_cpu_detected: bool,
    pub over_vbat_detected: bool,
}

impl InfoResponse {
    pub fn new() -> (r: Self)
        ensures
            r == (InfoResponse {
                hw_version: 0,
                sw_version: 0,
                pressure_channel_failed: false,
                temperature_channel_failed: false,
                overpress_detected: false,
                overheat_detected: false,
                overheat_cpu_detected: false,
                over_vbat_detected: false,
            }),
    {
        InfoResponse {
            hw_version: 0,
            sw_version: 0,
            pressure_channel_failed: false,
            temperature_channel_failed: false,
            overpress_detected: false,
            overheat_detected: false,
            overheat_cpu_detected: false,
            over_vbat_detected: false,
        }
    }
}

#[derive(Debug, Clone, Copy, PartialEq, Eq, Structural)]
pub struct ChangePasswordStatus {
    pub password_changed: bool,
}

/// Flash commands: reset the monitoring flags, clear the memory.
#[derive(Debug, Clone, Copy, PartialEq, Eq, Structural)]
pub struct FlashCommand {
    pub reset_monitoring: Option<bool>,
    pub clear_memory: Option<bool>,
}

/// State of the flash storage reported to the host.
#[derive(Debug, Clone, Copy, PartialEq, Eq, Structural)]
pub struct FlashStatus {
    pub flash_page_size: u32,
    pub flash_pages: u32,
    pub flash_used_pages: u32,
    pub status: i32,
}

impl FlashStatus {
    pub fn new() -> (r: Self)
        ensures
            r == (FlashStatus { flash_page_size: 0, flash_pages: 0, flash_used_pages: 0, status: 0 }),
    {
        FlashStatus { flash_page_size: 0, flash_pages: 0, flash_used_pages: 0, status: 0 }
    }
}

/// Which groups of output values the host asks for.
#[derive(Debug, Clone, Copy, PartialEq, Eq, Structural)]
pub struct OutputReq {
    pub get_main_values: Option<bool>,
    pub get_f: Option<bool>,
    pub get_raw: Option<bool>,
}

#[derive(Debug, Clone, Copy, PartialEq, Eq, Structural)]
pub struct FreqmeterResult {
    pub target: u32,
    pub result: u32,
}

/// Output values reported to the host (single precision values by their bits).
#[derive(Debug, Clone, Copy, PartialEq, Eq, Structural)]
pub struct OutputResponse {
    pub pressure: Option<u32>,
    pub temperature: Option<u32>,
    pub tcpu: Option<u32>,
    pub vbat: Option<u32>,
    pub fp: Option<u32>,
    pub ft: Option<u32>,
    pub ftimestamp: Option<u64>,
    pub p_result: Option<FreqmeterResult>,
    pub t_result: Option<FreqmeterResult>,
    pub adc_tcpu: Option<u32>,
    pub adc_vbat: Option<u32>,
}

impl OutputResponse {
    pub fn new() -> (r: Self)
        ensures
            r == (OutputResponse {
                pressure: None,
                temperature: None,
                tcpu: None,
                vbat: None,
                fp: None,
                ft: None,
                ftimestamp: None,
                p_result: None,
                t_result: None,
                adc_tcpu: None,
                adc_vbat: None,
            }),
    {
        OutputResponse {
            pressure: None,
            temperature: None,
            tcpu: None,
            vbat: None,
            fp: None,
            ft: None,
            ftimestamp: None,
            p_result: None,
            t_result: None,
            adc_tcpu: None,
            adc_vbat: None,
        }
    }
}

/// A request of the host.
#[derive(Debug, Clone)]
pub struct Request {
    pub id: u32,
    pub device_id: u32,
    pub protocol_version: u32,
    pub write_settings: Option<WriteSettingsReq>,
    pub get_info: Option<Empty>,
    pub change_password: Option<ChangePassword>,
    pub flash_command: Option<FlashCommand>,
    pub get_output_values: Option<OutputReq>,
}

/// The answer to a request.
#[derive(Debug, Clone)]
pub struct Response {
    pub id: u32,
    pub device_id: u32,
    pub protocol_version: u32,
    pub global_status: i32,
    pub timestamp: u32,
    pub get_settings: Option<SettingsResponse>,
    pub info: Option<InfoResponse>,
    pub change_password_status: Option<ChangePasswordStatus>,
    pub flash_status: Option<FlashStatus>,
    pub output: Option<OutputResponse>,
}

/// A fresh answer to request `id`, stamped with `timestamp`, status OK, no parts.
pub fn new_response(id: u32, timestamp: u32) -> (r: Response)
    ensures
        r.id == id,
        r.device_id == INFO_PRESSURE_SELF_WRITER_ID,
        r.protocol_version == INFO_PROTOCOL_VERSION,
        r.global_status == STATUS_OK,
        r.timestamp == timestamp,
        r.get_settings is None,
        r.info is None,
        r.change_password_status is None,
        r.flash_status is None,
        r.output is None,
{
    Response {
        id,
        device_id: INFO_PRESSURE_SELF_WRITER_ID,
        protocol_version: INFO_PROTOCOL_VERSION,
        global_status: STATUS_OK,
        timestamp,
        get_settings: None,
        info: None,
        change_password_status: None,
        flash_status: None,
        output: None,
    }
}

} // verus!

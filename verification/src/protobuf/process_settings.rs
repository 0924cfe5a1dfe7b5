//! Reading and writing the settings on request of the host.

use vstd::prelude::*;

use super::messages::{
    BuildDate, CalibrationDate, DateField, PCoefficients, SettingsResponse, T5Coefficients,
    Validator, WorkRange, WorkRangeError, WriteConfig, WriteSettingsReq,
};
use crate::app_settings::{
    AppSettings, NonStoreSettings, P16Coeffs, PressureMeassureUnits, T5Coeffs, PASSWORD_SIZE,
};

verus! {

/// Lowest accepted base write interval, in milliseconds.
pub const BASE_INTERVAL_MIN_MS: u32 = 20;

/// How far the reference frequency may lie from the crystal frequency, in hertz.
pub const F_REF_DELTA: u32 = 500;

/// Constants of the device that the request handling uses.
#[derive(Debug, Clone, Copy, PartialEq, Eq, Structural)]
pub struct DeviceConstants {
    /// Frequency of the crystal, in hertz.
    pub xtal_freq: u32,
    /// Date the firmware was built.
    pub build_date: BuildDate,
    /// Version of the firmware, as reported to the host.
    pub sw_version: u32,
}

impl DeviceConstants {
    /// The reference frequency window around the crystal frequency fits in `u32`.
    pub open spec fn wf(self) -> bool {
        self.xtal_freq >= F_REF_DELTA && self.xtal_freq + F_REF_DELTA <= u32::MAX
    }
}

/// A group of settings named in an error.
#[derive(Debug, Clone, Copy, PartialEq, Eq, Structural)]
pub enum SettingsParameter {
    Serial,
    Fref,
    PCoefficients,
    TCoefficients,
    PWorkRange,
    TWorkRange,
    TCPUWorkRange,
    BatWorkRange,
}

/// Why a settings action was refused.
#[derive(Debug, Clone, Copy, PartialEq, Eq, Structural)]
pub enum SettingActionError {
    /// The stored password and the current one differ (or, for the monitoring
    /// reset, agree).
    InvalidPassword,
    /// The parameter needs the current password to match the stored one.
    PasswordRequired(SettingsParameter),
    /// The reference frequency lies too far from the crystal frequency.
    FrefOutOfRange(u32),
    WorkRangeInvalid(SettingsParameter, WorkRangeError),
    CalibrationDateInvalid(DateField),
    BaseIntervalTooSmall(u32),
    PWriteDividerZero,
    TWriteDividerZero,
    InvalidMeasureUnit(i32),
}

/// Length of the zero-terminated string in the first `max` bytes of `s`.
pub open spec fn spec_strlenn(s: Seq<u8>, max: int) -> int
    decreases s.len(),
{
    if s.len() == 0 || max <= 0 {
        max
    } else if s[0] == 0 {
        0
    } else {
        1 + spec_strlenn(s.drop_first(), max - 1)
    }
}

proof fn lemma_strlenn_step(s: Seq<u8>, max: int, i: int)
    requires
        0 <= i <= s.len(),
        i <= max,
        forall|j: int| 0 <= j < i ==> s[j] != 0,
    ensures
        spec_strlenn(s, max) == i + spec_strlenn(s.skip(i), max - i),
    decreases i,
{
    if i == 0 {
        assert(s.skip(0) =~= s);
    } else {
        assert(s.drop_first().skip(i - 1) =~= s.skip(i));
        lemma_strlenn_step(s.drop_first(), max - 1, i - 1);
    }
}

/// The length of the zero-terminated string in the first `max` bytes of `s`:
/// the place of the first zero byte before `max`, or `max`.
pub fn strlenn(s: &[u8], max: usize) -> (r: usize)
    ensures
        r == spec_strlenn(s@, max as int),
        r <= max,
{
    let max_scan = if s.len() < max {
        s.len()
    } else {
        max
    };
    let mut i: usize = 0;
    while i < max_scan
        invariant
            max_scan <= s.len(),
            max_scan <= max,
            i <= max_scan,
            forall|j: int| 0 <= j < i ==> s@[j] != 0,
        decreases max_scan - i,
    {
        if s[i] == 0 {
            proof {
                lemma_strlenn_step(s@, max as int, i as int);
            }
            return i;
        }
        i = i + 1;
    }
    proof {
        lemma_strlenn_step(s@, max as int, i as int);
    }
    max
}

/// The text that replaces each invalid UTF-8 sequence of `bytes` with U+FFFD.
pub uninterp spec fn utf8_lossy(bytes: Seq<u8>) -> Seq<char>;

/// Bytes below 0x80: ASCII, which is valid UTF-8 of one character per byte.
pub open spec fn is_ascii_bytes(s: Seq<u8>) -> bool {
    forall|i: int| 0 <= i < s.len() ==> #[trigger] s[i] < 0x80
}

/// The characters of ASCII bytes, one for each.
pub open spec fn ascii_chars(s: Seq<u8>) -> Seq<char> {
    s.map_values(|b: u8| b as char)
}

/// `String::from_utf8_lossy`: decodes `bytes`, replacing each invalid sequence
/// with U+FFFD. Its result is named; of it only this is stated: valid UTF-8
/// comes out unchanged, so ASCII bytes give their characters.
#[verifier::external_body]
fn string_from_utf8_lossy(bytes: &[u8]) -> (r: String)
    ensures
        r@ == utf8_lossy(bytes@),
        is_ascii_bytes(bytes@) ==> r@ == ascii_chars(bytes@),
{
    String::from_utf8_lossy(bytes).into_owned()
}

/// The first `n` bytes of `s`.
fn prefix(s: &[u8], n: usize) -> (r: Vec<u8>)
    requires
        n <= s.len(),
    ensures
        r@ == s@.subrange(0, n as int),
{
    let mut r: Vec<u8> = Vec::new();
    let mut i: usize = 0;
    while i < n
        invariant
            n <= s.len(),
            i <= n,
            r@ == s@.subrange(0, i as int),
        decreases n - i,
    {
        r.push(s[i]);
        i = i + 1;
        assert(r@ =~= s@.subrange(0, i as int));
    }
    r
}

/// Whether two passwords agree byte for byte.
pub fn passwords_equal(a: &[u8; 10], b: &[u8; 10]) -> (r: bool)
    ensures
        r == (a@ == b@),
{
    let mut i: usize = 0;
    while i < 10
        invariant
            i <= 10,
            a@.len() == 10,
            b@.len() == 10,
            forall|j: int| 0 <= j < i ==> a@[j] == b@[j],
        decreases 10 - i,
    {
        if a[i] != b[i] {
            return false;
        }
        i = i + 1;
    }
    assert(a@ =~= b@);
    true
}

/// The bytes of the stored password before its first zero byte.
pub open spec fn spec_password_text(ts: NonStoreSettings) -> Seq<u8> {
    ts.current_password@.subrange(0, spec_strlenn(ts.current_password@, 10))
}

/// The stored password as reported: the text before its first zero byte.
pub open spec fn spec_reported_password(ts: NonStoreSettings) -> Seq<char> {
    utf8_lossy(spec_password_text(ts))
}

/// The settings report shows the settings.
pub open spec fn settings_reported(r: SettingsResponse, s: (AppSettings, NonStoreSettings)) -> bool {
    &&& r.serial == s.0.Serial
    &&& r.fref == s.0.Fref
    &&& r.p_coefficients == Some(PCoefficients::spec_from_settings(s.0.P_Coefficients))
    &&& r.t_coefficients == Some(T5Coefficients::spec_from_settings(s.0.T1_Coefficients))
    &&& r.p_work_range == Some(WorkRange::spec_from_settings(s.0.PWorkRange))
    &&& r.t_work_range == Some(WorkRange::spec_from_settings(s.0.TWorkRange))
    &&& r.tcpu_work_range == Some(WorkRange::spec_from_settings(s.0.TCPUWorkRange))
    &&& r.bat_work_range == Some(WorkRange::spec_from_settings(s.0.VbatWorkRange))
    &&& r.calibration_date == Some(CalibrationDate::spec_from_settings(s.0.calibration_date))
    &&& r.p_zero_correction == s.0.PZeroCorrection
    &&& r.t_zero_correction == s.0.TZeroCorrection
    &&& r.write_config == Some(WriteConfig::spec_from_settings(s.0.writeConfig))
    &&& r.start_delay == s.0.startDelay
    &&& r.pressure_meassure_units == s.0.pressureMeassureUnits.spec_code()
    &&& r.password@ == spec_reported_password(s.1)
    &&& is_ascii_bytes(spec_password_text(s.1)) ==> r.password@ == ascii_chars(
        spec_password_text(s.1),
    )
}

/// A password of at most ten bytes, none of them zero, padded with zeros to
/// ten bytes, is found again before the first zero.
pub proof fn lemma_padded_password_text(p: Seq<u8>)
    requires
        p.len() <= 10,
        forall|i: int| 0 <= i < p.len() ==> #[trigger] p[i] != 0,
    ensures
        spec_password_bytes(p).subrange(0, spec_strlenn(spec_password_bytes(p), 10)) == p,
{
    let s = spec_password_bytes(p);
    lemma_strlenn_step(s, 10, p.len() as int);
    let rest = s.skip(p.len() as int);
    if p.len() < 10 {
        assert(rest[0] == 0);
    }
    assert(s.subrange(0, p.len() as int) =~= p);
}

/// Fills the settings report from the settings.
pub fn fill_settings(settings_resp: &mut SettingsResponse, s: &(AppSettings, NonStoreSettings))
    ensures
        settings_reported(*final(settings_resp), *s),
{
    let ws = &s.0;
    let ts = &s.1;
    settings_resp.serial = ws.Serial;
    settings_resp.fref = ws.Fref;
    settings_resp.p_coefficients = Some(PCoefficients::from_settings(&ws.P_Coefficients));
    settings_resp.t_coefficients = Some(T5Coefficients::from_settings(&ws.T1_Coefficients));
    settings_resp.p_work_range = Some(WorkRange::from_settings(&ws.PWorkRange));
    settings_resp.t_work_range = Some(WorkRange::from_settings(&ws.TWorkRange));
    settings_resp.tcpu_work_range = Some(WorkRange::from_settings(&ws.TCPUWorkRange));
    settings_resp.bat_work_range = Some(WorkRange::from_settings(&ws.VbatWorkRange));
    settings_resp.calibration_date = Some(CalibrationDate::from_settings(&ws.calibration_date));
    settings_resp.p_zero_correction = ws.PZeroCorrection;
    settings_resp.t_zero_correction = ws.TZeroCorrection;
    settings_resp.write_config = Some(WriteConfig::from_settings(&ws.writeConfig));
    settings_resp.start_delay = ws.startDelay;
    settings_resp.pressure_meassure_units = ws.pressureMeassureUnits.code();
    let len = strlenn(&ts.current_password, PASSWORD_SIZE);
    let pw = prefix(&ts.current_password, len);
    settings_resp.password = string_from_utf8_lossy(&pw);
}

/// The check of a work range in a request: the password, then the range itself,
/// when the request sets any of its fields.
pub open spec fn spec_check_work_range(
    r: Option<WorkRange>,
    password_invalid: bool,
    deny_as: SettingsParameter,
    report_as: SettingsParameter,
) -> Option<SettingActionError> {
    match r {
        Some(wr) => if !wr.any_set() {
            None
        } else if password_invalid {
            Some(SettingActionError::PasswordRequired(deny_as))
        } else {
            match wr.spec_validate() {
                Err(e) => Some(SettingActionError::WorkRangeInvalid(report_as, e)),
                Ok(()) => None,
            }
        },
        None => None,
    }
}

/// The check of the write configuration in a request.
pub open spec fn spec_check_write_config(wc: Option<WriteConfig>) -> Option<SettingActionError> {
    match wc {
        Some(c) => if c.base_interval_ms matches Some(b) && b < BASE_INTERVAL_MIN_MS {
            Some(SettingActionError::BaseIntervalTooSmall(c.base_interval_ms.unwrap()))
        } else if c.p_write_devider == Some(0u32) {
            Some(SettingActionError::PWriteDividerZero)
        } else if c.t_write_devider == Some(0u32) {
            Some(SettingActionError::TWriteDividerZero)
        } else {
            None
        },
        None => None,
    }
}

/// The code names a pressure unit other than the invalid zero.
pub open spec fn valid_unit_code(code: i32) -> bool {
    exists|u: PressureMeassureUnits|
        u != PressureMeassureUnits::INVALID_ZERO && #[trigger] u.spec_code() == code
}

/// The first refusal of a settings request, in the order of the checks:
/// serial, reference frequency, coefficients, work ranges, calibration date,
/// write configuration, pressure unit.
pub open spec fn spec_verify_parameters(
    w: WriteSettingsReq,
    password_invalid: bool,
    limits: DeviceConstants,
) -> Result<(), SettingActionError> {
    let x = limits.xtal_freq as int;
    if w.set_serial is Some && password_invalid {
        Err(SettingActionError::PasswordRequired(SettingsParameter::Serial))
    } else if w.set_fref is Some && password_invalid {
        Err(SettingActionError::PasswordRequired(SettingsParameter::Fref))
    } else if w.set_fref matches Some(f) && (f > x + F_REF_DELTA || f < x - F_REF_DELTA) {
        Err(SettingActionError::FrefOutOfRange(w.set_fref.unwrap()))
    } else if w.set_p_coefficients matches Some(p) && p.any_set() && password_invalid {
        Err(SettingActionError::PasswordRequired(SettingsParameter::PCoefficients))
    } else if w.set_t_coefficients matches Some(t) && t.any_set() && password_invalid {
        Err(SettingActionError::PasswordRequired(SettingsParameter::TCoefficients))
    } else if let Some(e) = spec_check_work_range(
        w.set_p_work_range,
        password_invalid,
        SettingsParameter::PWorkRange,
        SettingsParameter::PWorkRange,
    ) {
        Err(e)
    } else if let Some(e) = spec_check_work_range(
        w.set_t_work_range,
        password_invalid,
        SettingsParameter::TWorkRange,
        SettingsParameter::TWorkRange,
    ) {
        Err(e)
    } else if let Some(e) = spec_check_work_range(
        w.set_tcpu_work_range,
        password_invalid,
        SettingsParameter::TWorkRange,
        SettingsParameter::TCPUWorkRange,
    ) {
        Err(e)
    } else if let Some(e) = spec_check_work_range(
        w.set_bat_work_range,
        password_invalid,
        SettingsParameter::TWorkRange,
        SettingsParameter::BatWorkRange,
    ) {
        Err(e)
    } else if w.set_calibration_date matches Some(d) && d.spec_validate(limits.build_date) is Err {
        Err(
            SettingActionError::CalibrationDateInvalid(
                w.set_calibration_date.unwrap().spec_validate(limits.build_date)->Err_0,
            ),
        )
    } else if let Some(e) = spec_check_write_config(w.set_write_config) {
        Err(e)
    } else if w.set_pressure_meassure_units matches Some(u) && !valid_unit_code(u) {
        Err(SettingActionError::InvalidMeasureUnit(w.set_pressure_meassure_units.unwrap()))
    } else {
        Ok(())
    }
}

fn check_work_range(
    r: &Option<WorkRange>,
    password_invalid: bool,
    deny_as: SettingsParameter,
    report_as: SettingsParameter,
) -> (e: Option<SettingActionError>)
    ensures
        e == spec_check_work_range(*r, password_invalid, deny_as, report_as),
{
    match r {
        Some(wr) => {
            if wr.minimum.is_some() || wr.maximum.is_some() || wr.absolute_maximum.is_some() {
                if password_invalid {
                    return Some(SettingActionError::PasswordRequired(deny_as));
                }
                match wr.validate() {
                    Err(e) => Some(SettingActionError::WorkRangeInvalid(report_as, e)),
                    Ok(()) => None,
                }
            } else {
                None
            }
        },
        None => None,
    }
}

fn check_write_config(wc: &Option<WriteConfig>) -> (e: Option<SettingActionError>)
    ensures
        e == spec_check_write_config(*wc),
{
    match wc {
        Some(c) => {
            if let Some(base_interval_ms) = c.base_interval_ms {
                if base_interval_ms < BASE_INTERVAL_MIN_MS {
                    return Some(SettingActionError::BaseIntervalTooSmall(base_interval_ms));
                }
            }
            if let Some(p_devider) = c.p_write_devider {
                if p_devider == 0 {
                    return Some(SettingActionError::PWriteDividerZero);
                }
            }
            if let Some(t_devider) = c.t_write_devider {
                if t_devider == 0 {
                    return Some(SettingActionError::TWriteDividerZero);
                }
            }
            None
        },
        None => None,
    }
}

fn p_coefficients_set(p: &PCoefficients) -> (r: bool)
    ensures
        r == p.any_set(),
{
    p.a0.is_some() || p.a1.is_some() || p.a2.is_some() || p.a3.is_some() || p.a4.is_some()
        || p.a5.is_some() || p.a6.is_some() || p.a7.is_some() || p.a8.is_some() || p.a9.is_some()
        || p.a10.is_some() || p.a11.is_some() || p.a12.is_some() || p.a13.is_some()
        || p.a14.is_some() || p.a15.is_some() || p.ft0.is_some() || p.fp0.is_some()
}

fn t_coefficients_set(t: &T5Coefficients) -> (r: bool)
    ensures
        r == t.any_set(),
{
    t.t0.is_some() || t.c1.is_some() || t.c2.is_some() || t.c3.is_some() || t.c4.is_some()
        || t.c5.is_some() || t.f0.is_some()
}

/// Checks a settings request against the settings: parameters that need the
/// password are refused when the stored and current passwords differ, and the
/// values are checked against the device limits.
pub fn verify_parameters(
    ws: &WriteSettingsReq,
    s: &(AppSettings, NonStoreSettings),
    limits: DeviceConstants,
) -> (r: Result<(), SettingActionError>)
    requires
        limits.wf(),
    ensures
        r == spec_verify_parameters(*ws, s.0.password@ != s.1.current_password@, limits),
        r is Ok && ws.set_fref is Some ==> limits.xtal_freq - F_REF_DELTA <= ws.set_fref->Some_0
            <= limits.xtal_freq + F_REF_DELTA,
{
    let password_invalid = !passwords_equal(&s.0.password, &s.1.current_password);
    if ws.set_serial.is_some() && password_invalid {
        return Err(SettingActionError::PasswordRequired(SettingsParameter::Serial));
    }
    if let Some(set_fref) = ws.set_fref {
        if password_invalid {
            return Err(SettingActionError::PasswordRequired(SettingsParameter::Fref));
        }
        if set_fref > limits.xtal_freq + F_REF_DELTA || set_fref < limits.xtal_freq - F_REF_DELTA {
            return Err(SettingActionError::FrefOutOfRange(set_fref));
        }
    }
    if let Some(p) = &ws.set_p_coefficients {
        if p_coefficients_set(p) && password_invalid {
            return Err(SettingActionError::PasswordRequired(SettingsParameter::PCoefficients));
        }
    }
    if let Some(t) = &ws.set_t_coefficients {
        if t_coefficients_set(t) && password_invalid {
            return Err(SettingActionError::PasswordRequired(SettingsParameter::TCoefficients));
        }
    }
    if let Some(e) = check_work_range(
        &ws.set_p_work_range,
        password_invalid,
        SettingsParameter::PWorkRange,
        SettingsParameter::PWorkRange,
    ) {
        return Err(e);
    }
    if let Some(e) = check_work_range(
        &ws.set_t_work_range,
        password_invalid,
        SettingsParameter::TWorkRange,
        SettingsParameter::TWorkRange,
    ) {
        return Err(e);
    }
    if let Some(e) = check_work_range(
        &ws.set_tcpu_work_range,
        password_invalid,
        SettingsParameter::TWorkRange,
        SettingsParameter::TCPUWorkRange,
    ) {
        return Err(e);
    }
    if let Some(e) = check_work_range(
        &ws.set_bat_work_range,
        password_invalid,
        SettingsParameter::TWorkRange,
        SettingsParameter::BatWorkRange,
    ) {
        return Err(e);
    }
    if let Some(d) = &ws.set_calibration_date {
        match d.validate(limits.build_date) {
            Err(e) => return Err(SettingActionError::CalibrationDateInvalid(e)),
            Ok(()) => {},
        }
    }
    if let Some(e) = check_write_config(&ws.set_write_config) {
        return Err(e);
    }
    if let Some(code) = ws.set_pressure_meassure_units {
        match PressureMeassureUnits::from_i32(code) {
            Some(PressureMeassureUnits::INVALID_ZERO) | None => {
                return Err(SettingActionError::InvalidMeasureUnit(code));
            },
            Some(u) => {
                assert(valid_unit_code(code)) by {
                    assert(u.spec_code() == code);
                }
            },
        }
    }
    Ok(())
}

/// The new value of a setting: the requested one when present.
pub open spec fn opt_or(v: Option<u32>, current: u32) -> u32 {
    match v {
        Some(x) => x,
        None => current,
    }
}

/// The stored password for a requested one: its first bytes, at most ten,
/// padded with zero bytes.
pub open spec fn spec_password_bytes(src: Seq<u8>) -> Seq<u8> {
    Seq::new(
        10,
        |i: int|
            if i < src.len() {
                src[i]
            } else {
                0u8
            },
    )
}

/// Pressure coefficients after a request.
pub open spec fn p_coeffs_applied(old: P16Coeffs, new: P16Coeffs, w: Option<PCoefficients>) -> bool {
    match w {
        Some(p) => {
            &&& new.Fp0 == opt_or(p.fp0, old.Fp0)
            &&& new.Ft0 == opt_or(p.ft0, old.Ft0)
            &&& new.A@.len() == 16
            &&& forall|i: int| 0 <= i < 16 ==> #[trigger] new.A@[i] == opt_or(p.a(i), old.A@[i])
        },
        None => new == old,
    }
}

/// Temperature coefficients after a request.
pub open spec fn t_coeffs_applied(old: T5Coeffs, new: T5Coeffs, w: Option<T5Coefficients>) -> bool {
    match w {
        Some(t) => {
            &&& new.F0 == opt_or(t.f0, old.F0)
            &&& new.T0 == opt_or(t.t0, old.T0)
            &&& new.C@.len() == 5
            &&& forall|i: int| 0 <= i < 5 ==> #[trigger] new.C@[i] == opt_or(t.c(i), old.C@[i])
        },
        None => new == old,
    }
}

/// A work range after a request.
pub open spec fn work_range_applied(
    old: crate::app_settings::WorkRange,
    w: Option<WorkRange>,
) -> crate::app_settings::WorkRange {
    match w {
        Some(r) => crate::app_settings::WorkRange {
            minimum: opt_or(r.minimum, old.minimum),
            maximum: opt_or(r.maximum, old.maximum),
            absolute_maximum: opt_or(r.absolute_maximum, old.absolute_maximum),
        },
        None => old,
    }
}

/// The calibration date after a request.
pub open spec fn date_applied(
    old: crate::app_settings::CalibrationDate,
    w: Option<CalibrationDate>,
) -> crate::app_settings::CalibrationDate {
    match w {
        Some(d) => crate::app_settings::CalibrationDate {
            Day: opt_or(d.day, old.Day),
            Month: opt_or(d.month, old.Month),
            Year: opt_or(d.year, old.Year),
        },
        None => old,
    }
}

/// The write configuration after a request.
pub open spec fn write_config_applied(
    old: crate::app_settings::WriteConfig,
    w: Option<WriteConfig>,
) -> crate::app_settings::WriteConfig {
    match w {
        Some(c) => crate::app_settings::WriteConfig {
            BaseInterval_ms: opt_or(c.base_interval_ms, old.BaseInterval_ms),
            PWriteDevider: opt_or(c.p_write_devider, old.PWriteDevider),
            TWriteDevider: opt_or(c.t_write_devider, old.TWriteDevider),
        },
        None => old,
    }
}

/// The pressure unit after a request: the requested unit when its code names one.
pub open spec fn units_applied(old: PressureMeassureUnits, w: Option<i32>) -> PressureMeassureUnits {
    match w {
        Some(code) => if exists|u: PressureMeassureUnits| #[trigger] u.spec_code() == code {
            choose|u: PressureMeassureUnits| #[trigger] u.spec_code() == code
        } else {
            old
        },
        None => old,
    }
}

/// The stored settings after a request: every present field replaces its setting.
pub open spec fn settings_applied(old: AppSettings, new: AppSettings, w: WriteSettingsReq) -> bool {
    &&& new.Serial == opt_or(w.set_serial, old.Serial)
    &&& new.Fref == opt_or(w.set_fref, old.Fref)
    &&& p_coeffs_applied(old.P_Coefficients, new.P_Coefficients, w.set_p_coefficients)
    &&& t_coeffs_applied(old.T1_Coefficients, new.T1_Coefficients, w.set_t_coefficients)
    &&& new.PWorkRange == work_range_applied(old.PWorkRange, w.set_p_work_range)
    &&& new.TWorkRange == work_range_applied(old.TWorkRange, w.set_t_work_range)
    &&& new.TCPUWorkRange == work_range_applied(old.TCPUWorkRange, w.set_tcpu_work_range)
    &&& new.VbatWorkRange == work_range_applied(old.VbatWorkRange, w.set_bat_work_range)
    &&& new.calibration_date == date_applied(old.calibration_date, w.set_calibration_date)
    &&& new.PZeroCorrection == opt_or(w.set_p_zero_correction, old.PZeroCorrection)
    &&& new.TZeroCorrection == opt_or(w.set_t_zero_correction, old.TZeroCorrection)
    &&& new.writeConfig == write_config_applied(old.writeConfig, w.set_write_config)
    &&& new.startDelay == opt_or(w.set_start_delay, old.startDelay)
    &&& new.pressureMeassureUnits == units_applied(
        old.pressureMeassureUnits,
        w.set_pressure_meassure_units,
    )
    &&& new.PMesureTime_ms == old.PMesureTime_ms
    &&& new.T1MesureTime_ms == old.T1MesureTime_ms
    &&& new.T2MesureTime_ms == old.T2MesureTime_ms
    &&& new.P_enabled == old.P_enabled
    &&& new.T1_enabled == old.T1_enabled
    &&& new.T2_enabled == old.T2_enabled
    &&& new.TCPUEnabled == old.TCPUEnabled
    &&& new.VBatEnabled == old.VBatEnabled
    &&& new.T2_Coefficients == old.T2_Coefficients
    &&& new.password == old.password
    &&& new.monitoring == old.monitoring
}

/// Whether a request stores anything that must be written to flash.
pub open spec fn spec_stores_any(w: WriteSettingsReq) -> bool {
    ||| w.set_serial is Some
    ||| w.set_fref is Some
    ||| (w.set_p_coefficients matches Some(p) && p.any_set())
    ||| (w.set_t_coefficients matches Some(t) && t.any_set())
    ||| (w.set_p_work_range matches Some(r) && r.any_set())
    ||| (w.set_t_work_range matches Some(r) && r.any_set())
    ||| (w.set_tcpu_work_range matches Some(r) && r.any_set())
    ||| (w.set_bat_work_range matches Some(r) && r.any_set())
    ||| (w.set_calibration_date matches Some(d) && (d.day is Some || d.month is Some
        || d.year is Some))
    ||| w.set_p_zero_correction is Some
    ||| w.set_t_zero_correction is Some
    ||| (w.set_write_config matches Some(c) && (c.base_interval_ms is Some || c.p_write_devider
        is Some || c.t_write_devider is Some))
    ||| w.set_start_delay is Some
    ||| (w.set_pressure_meassure_units matches Some(code) && exists|u: PressureMeassureUnits|
        #[trigger] u.spec_code() == code)
}

fn store_opt(target: &mut u32, v: Option<u32>, need_write: &mut bool)
    ensures
        *final(target) == opt_or(v, *old(target)),
        *final(need_write) == (*old(need_write) || v is Some),
{
    if let Some(x) = v {
        *target = x;
        *need_write = true;
    }
}

fn store_opt_at<const N: usize>(arr: &mut [u32; N], i: usize, v: Option<u32>, need_write: &mut bool)
    requires
        i < N,
    ensures
        final(arr)@ == old(arr)@.update(i as int, opt_or(v, old(arr)@[i as int])),
        *final(need_write) == (*old(need_write) || v is Some),
{
    if let Some(x) = v {
        arr[i] = x;
        *need_write = true;
    } else {
        assert(old(arr)@.update(i as int, old(arr)@[i as int]) =~= old(arr)@);
    }
}

fn p_coefficient_at(p: &PCoefficients, i: usize) -> (r: Option<u32>)
    requires
        i < 16,
    ensures
        r == p.a(i as int),
{
    if i == 0 {
        p.a0
    } else if i == 1 {
        p.a1
    } else if i == 2 {
        p.a2
    } else if i == 3 {
        p.a3
    } else if i == 4 {
        p.a4
    } else if i == 5 {
        p.a5
    } else if i == 6 {
        p.a6
    } else if i == 7 {
        p.a7
    } else if i == 8 {
        p.a8
    } else if i == 9 {
        p.a9
    } else if i == 10 {
        p.a10
    } else if i == 11 {
        p.a11
    } else if i == 12 {
        p.a12
    } else if i == 13 {
        p.a13
    } else if i == 14 {
        p.a14
    } else {
        p.a15
    }
}

proof fn lemma_p_any_set(p: PCoefficients)
    ensures
        p.any_set() == (p.fp0 is Some || p.ft0 is Some || exists|j: int|
            0 <= j < 16 && (#[trigger] p.a(j)) is Some),
{
    assert(p.a(0) == p.a0);
    assert(p.a(1) == p.a1);
    assert(p.a(2) == p.a2);
    assert(p.a(3) == p.a3);
    assert(p.a(4) == p.a4);
    assert(p.a(5) == p.a5);
    assert(p.a(6) == p.a6);
    assert(p.a(7) == p.a7);
    assert(p.a(8) == p.a8);
    assert(p.a(9) == p.a9);
    assert(p.a(10) == p.a10);
    assert(p.a(11) == p.a11);
    assert(p.a(12) == p.a12);
    assert(p.a(13) == p.a13);
    assert(p.a(14) == p.a14);
    assert(p.a(15) == p.a15);
}

fn store_p_coefficients(c: &mut P16Coeffs, p: &PCoefficients, need_write: &mut bool)
    ensures
        p_coeffs_applied(*old(c), *final(c), Some(*p)),
        *final(need_write) == (*old(need_write) || p.any_set()),
{
    let ghost old_c = *c;
    let ghost old_nw = *need_write;
    store_opt(&mut c.Fp0, p.fp0, need_write);
    store_opt(&mut c.Ft0, p.ft0, need_write);
    let mut i: usize = 0;
    while i < 16
        invariant
            i <= 16,
            c.Fp0 == opt_or(p.fp0, old_c.Fp0),
            c.Ft0 == opt_or(p.ft0, old_c.Ft0),
            c.A@.len() == 16,
            old_c.A@.len() == 16,
            forall|j: int| 0 <= j < i ==> #[trigger] c.A@[j] == opt_or(p.a(j), old_c.A@[j]),
            forall|j: int| i <= j < 16 ==> #[trigger] c.A@[j] == old_c.A@[j],
            *need_write == (old_nw || p.fp0 is Some || p.ft0 is Some || exists|j: int|
                0 <= j < i && (#[trigger] p.a(j)) is Some),
        decreases 16 - i,
    {
        let v = p_coefficient_at(p, i);
        store_opt_at(&mut c.A, i, v, need_write);
        i = i + 1;
    }
    proof {
        lemma_p_any_set(*p);
    }
}

fn store_t_coefficients(c: &mut T5Coeffs, t: &T5Coefficients, need_write: &mut bool)
    ensures
        t_coeffs_applied(*old(c), *final(c), Some(*t)),
        *final(need_write) == (*old(need_write) || t.any_set()),
{
    store_opt(&mut c.F0, t.f0, need_write);
    store_opt_at(&mut c.C, 0, t.c1, need_write);
    store_opt_at(&mut c.C, 1, t.c2, need_write);
    store_opt_at(&mut c.C, 2, t.c3, need_write);
    store_opt_at(&mut c.C, 3, t.c4, need_write);
    store_opt_at(&mut c.C, 4, t.c5, need_write);
    store_opt(&mut c.T0, t.t0, need_write);
}

fn store_work_range(
    target: &mut crate::app_settings::WorkRange,
    r: &Option<WorkRange>,
    need_write: &mut bool,
)
    ensures
        *final(target) == work_range_applied(*old(target), *r),
        *final(need_write) == (*old(need_write) || (*r matches Some(x) && x.any_set())),
{
    if let Some(x) = r {
        store_opt(&mut target.minimum, x.minimum, need_write);
        store_opt(&mut target.maximum, x.maximum, need_write);
        store_opt(&mut target.absolute_maximum, x.absolute_maximum, need_write);
    }
}

/// Copies a requested password into the password buffer: its first bytes, at
/// most ten, then zero bytes.
pub(crate) fn copy_password(dst: &mut [u8; 10], src: &[u8])
    ensures
        final(dst)@ == spec_password_bytes(src@),
{
    let newlen = if src.len() < PASSWORD_SIZE {
        src.len()
    } else {
        PASSWORD_SIZE
    };
    let mut i: usize = 0;
    while i < PASSWORD_SIZE
        invariant
            i <= 10,
            newlen <= 10,
            newlen <= src@.len(),
            newlen == src@.len() || newlen == 10,
            dst@.len() == 10,
            forall|j: int| 0 <= j < i ==> dst@[j] == spec_password_bytes(src@)[j],
        decreases 10 - i,
    {
        if i < newlen {
            dst[i] = src[i];
        } else {
            dst[i] = 0;
        }
        i = i + 1;
    }
    assert(dst@ =~= spec_password_bytes(src@));
}

/// The stored settings after the first part of a request: serial, reference
/// frequency, coefficients and work ranges; the rest unchanged.
pub open spec fn first_part_applied(old: AppSettings, new: AppSettings, w: WriteSettingsReq) -> bool {
    &&& new.Serial == opt_or(w.set_serial, old.Serial)
    &&& new.Fref == opt_or(w.set_fref, old.Fref)
    &&& p_coeffs_applied(old.P_Coefficients, new.P_Coefficients, w.set_p_coefficients)
    &&& t_coeffs_applied(old.T1_Coefficients, new.T1_Coefficients, w.set_t_coefficients)
    &&& new.PWorkRange == work_range_applied(old.PWorkRange, w.set_p_work_range)
    &&& new.TWorkRange == work_range_applied(old.TWorkRange, w.set_t_work_range)
    &&& new.TCPUWorkRange == work_range_applied(old.TCPUWorkRange, w.set_tcpu_work_range)
    &&& new.VbatWorkRange == work_range_applied(old.VbatWorkRange, w.set_bat_work_range)
    &&& new.calibration_date == old.calibration_date
    &&& new.PZeroCorrection == old.PZeroCorrection
    &&& new.TZeroCorrection == old.TZeroCorrection
    &&& new.writeConfig == old.writeConfig
    &&& new.startDelay == old.startDelay
    &&& new.pressureMeassureUnits == old.pressureMeassureUnits
    &&& new.PMesureTime_ms == old.PMesureTime_ms
    &&& new.T1MesureTime_ms == old.T1MesureTime_ms
    &&& new.T2MesureTime_ms == old.T2MesureTime_ms
    &&& new.P_enabled == old.P_enabled
    &&& new.T1_enabled == old.T1_enabled
    &&& new.T2_enabled == old.T2_enabled
    &&& new.TCPUEnabled == old.TCPUEnabled
    &&& new.VBatEnabled == old.VBatEnabled
    &&& new.T2_Coefficients == old.T2_Coefficients
    &&& new.password == old.password
    &&& new.monitoring == old.monitoring
}

/// Whether the first part of a request stores anything.
pub open spec fn first_part_stores(w: WriteSettingsReq) -> bool {
    ||| w.set_serial is Some
    ||| w.set_fref is Some
    ||| (w.set_p_coefficients matches Some(p) && p.any_set())
    ||| (w.set_t_coefficients matches Some(t) && t.any_set())
    ||| (w.set_p_work_range matches Some(r) && r.any_set())
    ||| (w.set_t_work_range matches Some(r) && r.any_set())
    ||| (w.set_tcpu_work_range matches Some(r) && r.any_set())
    ||| (w.set_bat_work_range matches Some(r) && r.any_set())
}

fn apply_first_part(w: &WriteSettingsReq, ws: &mut AppSettings) -> (need_write: bool)
    ensures
        first_part_applied(*old(ws), *final(ws), *w),
        need_write == first_part_stores(*w),
{
    let mut need_write = false;
    store_opt(&mut ws.Serial, w.set_serial, &mut need_write);
    store_opt(&mut ws.Fref, w.set_fref, &mut need_write);
    if let Some(p) = &w.set_p_coefficients {
        store_p_coefficients(&mut ws.P_Coefficients, p, &mut need_write);
    }
    if let Some(t) = &w.set_t_coefficients {
        store_t_coefficients(&mut ws.T1_Coefficients, t, &mut need_write);
    }
    store_work_range(&mut ws.PWorkRange, &w.set_p_work_range, &mut need_write);
    store_work_range(&mut ws.TWorkRange, &w.set_t_work_range, &mut need_write);
    store_work_range(&mut ws.TCPUWorkRange, &w.set_tcpu_work_range, &mut need_write);
    store_work_range(&mut ws.VbatWorkRange, &w.set_bat_work_range, &mut need_write);
    need_write
}

fn apply_second_part(w: &WriteSettingsReq, ws: &mut AppSettings) -> (need_write: bool)
    ensures
        final(ws).calibration_date == date_applied(old(ws).calibration_date, w.set_calibration_date),
        final(ws).PZeroCorrection == opt_or(w.set_p_zero_correction, old(ws).PZeroCorrection),
        final(ws).TZeroCorrection == opt_or(w.set_t_zero_correction, old(ws).TZeroCorrection),
        final(ws).writeConfig == write_config_applied(old(ws).writeConfig, w.set_write_config),
        final(ws).startDelay == opt_or(w.set_start_delay, old(ws).startDelay),
        final(ws).pressureMeassureUnits == units_applied(
            old(ws).pressureMeassureUnits,
            w.set_pressure_meassure_units,
        ),
        (AppSettings {
            calibration_date: old(ws).calibration_date,
            PZeroCorrection: old(ws).PZeroCorrection,
            TZeroCorrection: old(ws).TZeroCorrection,
            writeConfig: old(ws).writeConfig,
            startDelay: old(ws).startDelay,
            pressureMeassureUnits: old(ws).pressureMeassureUnits,
            ..*final(ws)
        }) == *old(ws),
        need_write == second_part_stores(*w),
{
    let mut need_write = false;
    if let Some(d) = &w.set_calibration_date {
        store_opt(&mut ws.calibration_date.Day, d.day, &mut need_write);
        store_opt(&mut ws.calibration_date.Month, d.month, &mut need_write);
        store_opt(&mut ws.calibration_date.Year, d.year, &mut need_write);
    }
    store_opt(&mut ws.PZeroCorrection, w.set_p_zero_correction, &mut need_write);
    store_opt(&mut ws.TZeroCorrection, w.set_t_zero_correction, &mut need_write);
    if let Some(c) = &w.set_write_config {
        store_opt(&mut ws.writeConfig.BaseInterval_ms, c.base_interval_ms, &mut need_write);
        store_opt(&mut ws.writeConfig.PWriteDevider, c.p_write_devider, &mut need_write);
        store_opt(&mut ws.writeConfig.TWriteDevider, c.t_write_devider, &mut need_write);
    }
    store_opt(&mut ws.startDelay, w.set_start_delay, &mut need_write);
    if let Some(code) = w.set_pressure_meassure_units {
        match PressureMeassureUnits::from_i32(code) {
            Some(mu) => {
                ws.pressureMeassureUnits = mu;
                need_write = true;
                proof {
                    let c = choose|u: PressureMeassureUnits| #[trigger] u.spec_code() == code;
                    assert(c.spec_code() == code);
                    assert(c == mu);
                }
            },
            None => {},
        }
    }
    need_write
}

/// Whether the second part of a request stores anything.
pub open spec fn second_part_stores(w: WriteSettingsReq) -> bool {
    ||| (w.set_calibration_date matches Some(d) && (d.day is Some || d.month is Some
        || d.year is Some))
    ||| w.set_p_zero_correction is Some
    ||| w.set_t_zero_correction is Some
    ||| (w.set_write_config matches Some(c) && (c.base_interval_ms is Some || c.p_write_devider
        is Some || c.t_write_devider is Some))
    ||| w.set_start_delay is Some
    ||| (w.set_pressure_meassure_units matches Some(code) && exists|u: PressureMeassureUnits|
        #[trigger] u.spec_code() == code)
}

/// The outcome of `update_settings`: the first refusal of `verify_parameters` with the
/// settings unchanged, or every requested field stored.
pub open spec fn update_settings_post(
    old: (AppSettings, NonStoreSettings),
    new: (AppSettings, NonStoreSettings),
    w: WriteSettingsReq,
    c: DeviceConstants,
    r: Result<bool, SettingActionError>,
) -> bool {
    let v = spec_verify_parameters(w, old.0.password@ != old.1.current_password@, c);
    &&& v is Err ==> r == Err::<bool, SettingActionError>(v->Err_0) && new == old
    &&& v is Ok ==> r == Ok::<bool, SettingActionError>(spec_stores_any(w))
    &&& v is Ok ==> settings_applied(old.0, new.0, w)
    &&& v is Ok ==> (w.set_password matches Some(p) ==> new.1.current_password@
        == spec_password_bytes(p@))
    &&& v is Ok ==> (w.set_password is None ==> new.1 == old.1)
}

/// Stores a settings request once it passes `verify_parameters`; returns whether
/// the stored settings changed, so that they must be written to flash. A requested
/// password goes to the current password only.
pub fn update_settings(
    w: &WriteSettingsReq,
    s: &mut (AppSettings, NonStoreSettings),
    limits: DeviceConstants,
) -> (r: Result<bool, SettingActionError>)
    requires
        limits.wf(),
    ensures
        update_settings_post(*old(s), *final(s), *w, limits, r),
        r is Ok && w.set_fref is Some ==> limits.xtal_freq - F_REF_DELTA <= w.set_fref->Some_0
            <= limits.xtal_freq + F_REF_DELTA && final(s).0.Fref == w.set_fref->Some_0,
{
    match verify_parameters(w, s, limits) {
        Err(e) => return Err(e),
        Ok(()) => {},
    }
    let nw1 = apply_first_part(w, &mut s.0);
    let nw2 = apply_second_part(w, &mut s.0);
    if let Some(set_password) = &w.set_password {
        copy_password(&mut s.1.current_password, set_password.as_slice());
    }
    Ok(nw1 || nw2)
}

} // verus!

//! What the clock, calendar, settings and report conversions compute, stated
//! from the chip's register map, the Gregorian calendar, the flash wait-state
//! table and the protocol's field names.

use vstd::prelude::*;

use crate::clocking::ext_rtc::rv_3028_v7::{spec_time_from_registers, spec_time_payload};
use crate::clocking::ext_rtc::{law_bcd_round_trip, spec_bcd2dec, spec_dec2bcd};
use crate::clocking::recorder_clocking::spec_latency;
use crate::clocking::{days_before_year, days_in_months, days_in_year, is_leap, CurrentTime};
use crate::app_settings::{AppSettings, NonStoreSettings};
use crate::protobuf::messages::{FreqmeterResult, OutputReq, OutputResponse, WriteSettingsReq};
use crate::protobuf::output::{output_filled, OutputSnapshot};
use crate::protobuf::process_settings::{
    spec_verify_parameters, update_settings_post, DeviceConstants, SettingActionError, F_REF_DELTA,
};

verus! {

/// Low bits of a byte that already fits them are kept by the mask.
proof fn lemma_masks(x: u8)
    ensures
        x < 128 ==> x & 0x7F == x,
        x < 64 ==> x & 0x3F == x,
        x < 32 ==> x & 0x1F == x,
        x < 8 ==> x & 0x07 == x,
        (x & 0x07) & 0x07 == x & 0x07,
{
    assert(x < 128 ==> x & 0x7F == x) by (bit_vector);
    assert(x < 64 ==> x & 0x3F == x) by (bit_vector);
    assert(x < 32 ==> x & 0x1F == x) by (bit_vector);
    assert(x < 8 ==> x & 0x07 == x) by (bit_vector);
    assert((x & 0x07) & 0x07 == x & 0x07) by (bit_vector);
}

/// The two BCD digits of a number below 80, and how far up they reach.
proof fn lemma_bcd_small(n: u8)
    requires
        n < 80,
    ensures
        spec_dec2bcd(n) == (n / 10) * 16 + n % 10,
        spec_dec2bcd(n) < 128,
        n < 40 ==> spec_dec2bcd(n) < 64,
        n < 20 ==> spec_dec2bcd(n) < 32,
        spec_bcd2dec(spec_dec2bcd(n)) == n,
{
    law_bcd_round_trip(n);
    lemma_masks(spec_dec2bcd(n));
}

/// The set-time write of the RV-3028-C7 starts at the seconds register and
/// carries, in the chip's register order, the seconds, minutes, hours,
/// weekday, date, month and year of the century: each as two BCD digits (tens
/// in the high nibble), the weekday as a plain number.
pub proof fn law_rv3028_time_registers(t: CurrentTime)
    requires
        t.seconds < 60,
        t.minutes < 60,
        t.hours < 24,
        t.day_of_week < 7,
        1 <= t.day_of_month <= 31,
        1 <= t.month <= 12,
        2000 <= t.year < 2080,
    ensures
        spec_time_payload(t).len() == 8,
        spec_time_payload(t)[0] == 0,
        spec_time_payload(t)[1] == (t.seconds / 10) * 16 + t.seconds % 10,
        spec_time_payload(t)[2] == (t.minutes / 10) * 16 + t.minutes % 10,
        spec_time_payload(t)[3] == (t.hours / 10) * 16 + t.hours % 10,
        spec_time_payload(t)[4] == t.day_of_week,
        spec_time_payload(t)[5] == (t.day_of_month / 10) * 16 + t.day_of_month % 10,
        spec_time_payload(t)[6] == (t.month / 10) * 16 + t.month % 10,
        spec_time_payload(t)[7] == ((t.year - 2000) / 10) * 16 + (t.year - 2000) % 10,
{
    lemma_bcd_small(t.seconds as u8);
    lemma_bcd_small(t.minutes as u8);
    lemma_bcd_small(t.hours as u8);
    lemma_bcd_small(t.day_of_month as u8);
    lemma_bcd_small(t.month as u8);
    lemma_bcd_small((t.year % 100) as u8);
    lemma_masks(t.day_of_week as u8);
    assert(t.year % 100 == t.year - 2000);
}

/// Reading back the seven time registers that setting a time wrote gives
/// that time, for every valid time of day and date from 2000 to 2079 (the
/// year register is read through a seven-bit mask, so later years are not
/// read back).
pub proof fn law_rv3028_time_round_trip(t: CurrentTime)
    requires
        t.seconds < 60,
        t.minutes < 60,
        t.hours < 24,
        t.day_of_week < 7,
        1 <= t.day_of_month <= 31,
        1 <= t.month <= 12,
        2000 <= t.year < 2080,
        t.milliseconds == 0,
    ensures
        spec_time_from_registers(spec_time_payload(t).subrange(1, 8)) == t,
{
    let raw = spec_time_payload(t).subrange(1, 8);
    lemma_bcd_small(t.seconds as u8);
    lemma_bcd_small(t.minutes as u8);
    lemma_bcd_small(t.hours as u8);
    lemma_bcd_small(t.day_of_month as u8);
    lemma_bcd_small(t.month as u8);
    lemma_bcd_small((t.year % 100) as u8);
    lemma_masks(spec_dec2bcd(t.seconds as u8));
    lemma_masks(spec_dec2bcd(t.minutes as u8));
    lemma_masks(spec_dec2bcd(t.hours as u8));
    lemma_masks(spec_dec2bcd(t.day_of_month as u8));
    lemma_masks(spec_dec2bcd(t.month as u8));
    lemma_masks(spec_dec2bcd((t.year % 100) as u8));
    lemma_masks(t.day_of_week as u8);
    assert(t.year % 100 == t.year - 2000);
    assert(raw[0] == spec_dec2bcd(t.seconds as u8));
    assert(raw[1] == spec_dec2bcd(t.minutes as u8));
    assert(raw[2] == spec_dec2bcd(t.hours as u8));
    assert(raw[3] == (t.day_of_week as u8) & 0x07);
    assert(raw[4] == spec_dec2bcd(t.day_of_month as u8));
    assert(raw[5] == spec_dec2bcd(t.month as u8));
    assert(raw[6] == spec_dec2bcd((t.year % 100) as u8));
}

/// The flash wait states follow the device's table: none up to 16 MHz, then
/// one more for each further 16 MHz of AHB clock, at most four.
pub proof fn law_flash_wait_states(hclk: u32)
    ensures
        spec_latency(hclk) as int == if hclk == 0 {
            0
        } else if (hclk - 1) / 16_000_000 >= 4 {
            4
        } else {
            (hclk - 1) / 16_000_000
        },
        hclk > 0 ==> spec_latency(hclk) as int >= if (hclk - 1) / 16_000_000 >= 4 {
            4
        } else {
            (hclk - 1) / 16_000_000
        },
{
}

/// `y / d` grows by one exactly where `d` divides `y`.
proof fn lemma_div_step(y: int, d: int)
    requires
        y >= 1,
        d > 0,
    ensures
        y / d - (y - 1) / d == if y % d == 0 {
            1int
        } else {
            0int
        },
{
    vstd::arithmetic::div_mod::lemma_fundamental_div_mod(y, d);
    vstd::arithmetic::div_mod::lemma_fundamental_div_mod(y - 1, d);
    let q1 = y / d;
    let q2 = (y - 1) / d;
    let r1 = y % d;
    let r2 = (y - 1) % d;
    assert(0 <= r1 < d && 0 <= r2 < d) by {
        vstd::arithmetic::div_mod::lemma_mod_bound(y, d);
        vstd::arithmetic::div_mod::lemma_mod_bound(y - 1, d);
    }
    assert(d * (q1 - q2) == 1 + r2 - r1) by (nonlinear_arith)
        requires
            y == d * q1 + r1,
            y - 1 == d * q2 + r2,
    ;
    if r1 == 0 {
        assert(q1 - q2 == 1) by (nonlinear_arith)
            requires
                d * (q1 - q2) == 1 + r2,
                0 <= r2 < d,
                d > 0,
        ;
    } else {
        assert(q1 - q2 == 0) by (nonlinear_arith)
            requires
                d * (q1 - q2) == 1 + r2 - r1,
                0 <= r2 < d,
                1 <= r1 < d,
                d > 0,
        ;
    }
}

/// The leap years before year `y`, from 1970 on, by the Gregorian rule.
proof fn lemma_leap_count_step(y: int)
    requires
        y >= 1970,
    ensures
        (y / 4 - y / 100 + y / 400) - ((y - 1) / 4 - (y - 1) / 100 + (y - 1) / 400) == if is_leap(
            y,
        ) {
            1int
        } else {
            0int
        },
{
    lemma_div_step(y, 4);
    lemma_div_step(y, 100);
    lemma_div_step(y, 400);
    vstd::arithmetic::div_mod::lemma_mod_mod(y, 100, 4);
    vstd::arithmetic::div_mod::lemma_mod_mod(y, 4, 25);
    assert((y % 400) % 100 == y % 100);
    assert((y % 100) % 4 == y % 4);
}

/// The days from the start of 1970 to the start of year `y`: 365 for each
/// year and one more for each leap year among them.
pub proof fn law_days_before_year(y: int)
    requires
        y >= 1970,
    ensures
        days_before_year(y) == 365 * (y - 1970) + ((y - 1) / 4 - (y - 1) / 100 + (y - 1) / 400)
            - 477,
    decreases y - 1970,
{
    if y > 1970 {
        law_days_before_year(y - 1);
        lemma_leap_count_step(y - 1);
    }
}

/// The days of the first `m` months of a year, as the calendar counts them
/// up to the first of the next month: 31, 59, 90, 120, 151, 181, 212, 243,
/// 273, 304, 334 and 365, one more from March on in a leap year; so the twelve
/// months make the year.
pub proof fn law_days_in_months(y: int)
    ensures
        days_in_months(y, 0) == 0,
        days_in_months(y, 1) == 31,
        days_in_months(y, 2) == 59 + if is_leap(y) { 1int } else { 0int },
        days_in_months(y, 3) == 90 + if is_leap(y) { 1int } else { 0int },
        days_in_months(y, 4) == 120 + if is_leap(y) { 1int } else { 0int },
        days_in_months(y, 5) == 151 + if is_leap(y) { 1int } else { 0int },
        days_in_months(y, 6) == 181 + if is_leap(y) { 1int } else { 0int },
        days_in_months(y, 7) == 212 + if is_leap(y) { 1int } else { 0int },
        days_in_months(y, 8) == 243 + if is_leap(y) { 1int } else { 0int },
        days_in_months(y, 9) == 273 + if is_leap(y) { 1int } else { 0int },
        days_in_months(y, 10) == 304 + if is_leap(y) { 1int } else { 0int },
        days_in_months(y, 11) == 334 + if is_leap(y) { 1int } else { 0int },
        days_in_months(y, 12) == 365 + if is_leap(y) { 1int } else { 0int },
        days_in_months(y, 12) == days_in_year(y),
{
    assert(days_in_months(y, 0) == 0);
    assert(days_in_months(y, 1) == 31);
    assert(days_in_months(y, 2) == 59 + if is_leap(y) { 1int } else { 0int });
    assert(days_in_months(y, 3) == 90 + if is_leap(y) { 1int } else { 0int });
    assert(days_in_months(y, 4) == 120 + if is_leap(y) { 1int } else { 0int });
    assert(days_in_months(y, 5) == 151 + if is_leap(y) { 1int } else { 0int });
    assert(days_in_months(y, 6) == 181 + if is_leap(y) { 1int } else { 0int });
    assert(days_in_months(y, 7) == 212 + if is_leap(y) { 1int } else { 0int });
    assert(days_in_months(y, 8) == 243 + if is_leap(y) { 1int } else { 0int });
    assert(days_in_months(y, 9) == 273 + if is_leap(y) { 1int } else { 0int });
    assert(days_in_months(y, 10) == 304 + if is_leap(y) { 1int } else { 0int });
    assert(days_in_months(y, 11) == 334 + if is_leap(y) { 1int } else { 0int });
    assert(days_in_months(y, 12) == 365 + if is_leap(y) { 1int } else { 0int });
}

/// A time with `month` whole months of `year` gone counts the days since
/// 1970-01-01 to the first of the next month, in milliseconds, plus the time
/// of day: the start of a year is 365 days per year since 1970 plus the leap
/// days, and the months add as the calendar has them.
pub proof fn law_timestamp_calendar(t: CurrentTime)
    requires
        t.year >= 1970,
        t.month <= 12,
    ensures
        ({
            let y = t.year as int;
            let before = seq![0int, 31, 59, 90, 120, 151, 181, 212, 243, 273, 304, 334, 365];
            let days = 365 * (y - 1970) + ((y - 1) / 4 - (y - 1) / 100 + (y - 1) / 400) - 477
                + before[t.month as int] + if t.month >= 2 && is_leap(y) {
                1int
            } else {
                0int
            };
            t.spec_timestamp_ms() == days * 86_400_000 + t.hours * 3_600_000int + t.minutes
                * 60_000int + t.seconds * 1000int + t.milliseconds
        }),
{
    law_days_before_year(t.year as int);
    law_days_in_months(t.year as int);
}

/// A reference frequency is stored only within `F_REF_DELTA` of the crystal,
/// on both sides: where a settings update that sets it went through, the
/// value lay in that band and is the stored one.
pub proof fn law_fref_within_crystal_band(
    old: (AppSettings, NonStoreSettings),
    new: (AppSettings, NonStoreSettings),
    w: WriteSettingsReq,
    c: DeviceConstants,
    r: Result<bool, SettingActionError>,
    f: u32,
)
    requires
        c.wf(),
        update_settings_post(old, new, w, c, r),
        r is Ok,
        w.set_fref == Some(f),
    ensures
        c.xtal_freq - F_REF_DELTA <= f <= c.xtal_freq + F_REF_DELTA,
        new.0.Fref == f,
{
}

/// A reference frequency outside `F_REF_DELTA` of the crystal is refused;
/// with the passwords matching and no serial in the request, with
/// `FrefOutOfRange` and that frequency.
pub proof fn law_fref_out_of_band_refused(
    w: WriteSettingsReq,
    password_invalid: bool,
    c: DeviceConstants,
    f: u32,
)
    requires
        w.set_fref == Some(f),
        f > c.xtal_freq + F_REF_DELTA || f < c.xtal_freq - F_REF_DELTA,
    ensures
        spec_verify_parameters(w, password_invalid, c) is Err,
        !password_invalid && w.set_serial is None ==> spec_verify_parameters(w, password_invalid, c)
            == Err::<(), SettingActionError>(SettingActionError::FrefOutOfRange(f)),
{
}

/// Each value reported carries the measured value of the same name: the
/// main values give pressure, temperature, CPU temperature and battery
/// voltage, the frequencies give both channels' frequencies and their time,
/// the raw values give both channels' counter results and both ADC readings.
pub proof fn law_output_fields(
    old: OutputResponse,
    new: OutputResponse,
    req: OutputReq,
    o: OutputSnapshot,
)
    requires
        output_filled(old, new, req, o),
    ensures
        req.get_main_values is Some ==> new.pressure == Some(o.pressure) && new.temperature == Some(
            o.temperature,
        ) && new.tcpu == Some(o.tcpu) && new.vbat == Some(o.vbat),
        req.get_f is Some ==> new.fp == Some(o.fp) && new.ft == Some(o.ft) && new.ftimestamp == Some(
            o.freq_timestamp,
        ),
        req.get_raw is Some ==> new.p_result == Some(
            FreqmeterResult { target: o.p_target, result: o.p_result },
        ) && new.t_result == Some(FreqmeterResult { target: o.t_target, result: o.t_result })
            && new.adc_tcpu == Some(o.tcpu_adc) && new.adc_vbat == Some(o.vbat_adc),
        req.get_main_values is None ==> new.tcpu == old.tcpu && new.vbat == old.vbat,
{
}

} // verus!

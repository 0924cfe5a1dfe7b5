//! Arithmetic of the internal real-time clock: its clock, its wake-up timer
//! and its calibration output.

use vstd::prelude::*;

verus! {

/// The low-speed clock that drives the real-time clock.
#[derive(Copy, Clone, Debug, PartialEq, Eq, Structural)]
pub enum RtcClockSource {
    /// The 32768 Hz crystal.
    LSE,
    /// The internal 32 kHz oscillator.
    LSI,
}

pub open spec fn spec_rtc_clock_hz(source: RtcClockSource) -> u32 {
    match source {
        RtcClockSource::LSE => 32_768,
        RtcClockSource::LSI => 32_000,
    }
}

pub fn rtc_clock_hz(source: RtcClockSource) -> (r: u32)
    ensures
        r == spec_rtc_clock_hz(source),
{
    match source {
        RtcClockSource::LSE => 32_768,
        RtcClockSource::LSI => 32_000,
    }
}

/// Largest number of ticks the wake-up timer counts.
pub const WAKEUP_TICKS_MAX: u64 = 65_536;

/// Ticks of the wake-up timer (clocked at a sixteenth of the RTC clock) for a
/// period of `period_ms` milliseconds, at least 1 ms: rounded up, then kept
/// between 1 and the timer's largest count.
pub open spec fn spec_wakeup_ticks(period_ms: u32, rtc_clock_hz: u32) -> u32 {
    let p: int = if period_ms < 1 { 1 } else { period_ms as int };
    let wakeup_hz: int = rtc_clock_hz as int / 16;
    let t: int = (p * wakeup_hz + 999) / 1000;
    if t < 1 {
        1
    } else if t > WAKEUP_TICKS_MAX {
        WAKEUP_TICKS_MAX as u32
    } else {
        t as u32
    }
}

pub fn wakeup_ticks(period_ms: u32, rtc_clock_hz: u32) -> (r: u32)
    ensures
        r == spec_wakeup_ticks(period_ms, rtc_clock_hz),
        1 <= r <= WAKEUP_TICKS_MAX,
{
    let period_ms = if period_ms < 1 {
        1
    } else {
        period_ms
    };
    let wakeup_clock_hz = rtc_clock_hz / 16;
    proof {
        vstd::arithmetic::mul::lemma_mul_upper_bound(
            period_ms as int,
            u32::MAX as int,
            wakeup_clock_hz as int,
            u32::MAX as int,
        );
    }
    let ticks = ((period_ms as u64 * wakeup_clock_hz as u64) + 999) / 1000;
    if ticks < 1 {
        1
    } else if ticks > WAKEUP_TICKS_MAX {
        WAKEUP_TICKS_MAX as u32
    } else {
        ticks as u32
    }
}

/// The calibration output's 1 Hz select bit for `frequency_hz`: clear for the
/// 512 Hz output, set for the other one, which the driver requests as 2 Hz;
/// no other frequency is available.
pub open spec fn spec_calibration_output_1hz(frequency_hz: u32) -> Option<bool> {
    if frequency_hz == 512 {
        Some(false)
    } else if frequency_hz == 2 {
        Some(true)
    } else {
        None
    }
}

pub fn calibration_output_1hz(frequency_hz: u32) -> (r: Result<bool, ()>)
    ensures
        r == match spec_calibration_output_1hz(frequency_hz) {
            Some(b) => Ok::<bool, ()>(b),
            None => Err(()),
        },
{
    match frequency_hz {
        512 => Ok(false),
        2 => Ok(true),
        _ => Err(()),
    }
}

} // verus!

//! Clock configuration arithmetic and real-time clock data.

pub mod ext_rtc;
pub mod high_performance_clocking;
pub mod recorder_clocking;
pub mod rtc;


use vstd::prelude::*;

verus! {

/// A calendar date and time of day as the real-time clocks report it.
#[derive(Copy, Clone, Debug, PartialEq, Eq, Structural)]
pub struct CurrentTime {
    pub year: u32,
    pub month: u32,
    pub day_of_month: u32,
    pub day_of_week: u32,
    pub hours: u32,
    pub minutes: u32,
    pub seconds: u32,
    pub milliseconds: u32,
}

impl Default for CurrentTime {
    fn default() -> (r: Self)
        ensures
            r == (CurrentTime {
                year: 0,
                month: 0,
                day_of_month: 0,
                day_of_week: 0,
                hours: 0,
                minutes: 0,
                seconds: 0,
                milliseconds: 0,
            }),
    {
        CurrentTime {
            year: 0,
            month: 0,
            day_of_month: 0,
            day_of_week: 0,
            hours: 0,
            minutes: 0,
            seconds: 0,
            milliseconds: 0,
        }
    }
}

/// Gregorian leap years.
pub open spec fn is_leap(y: int) -> bool {
    (y % 4 == 0 && y % 100 != 0) || y % 400 == 0
}

pub open spec fn days_in_year(y: int) -> int {
    if is_leap(y) {
        366
    } else {
        365
    }
}

/// Days from the start of 1970 to the start of year `y` (0 before 1970).
pub open spec fn days_before_year(y: int) -> int
    decreases y - 1970,
{
    if y <= 1970 {
        0
    } else {
        days_before_year(y - 1) + days_in_year(y - 1)
    }
}

/// Days of month `m` (0 for January) in a common year.
pub open spec fn month_len(m: int) -> int {
    if m == 1 {
        28
    } else if m == 3 || m == 5 || m == 8 || m == 10 {
        30
    } else {
        31
    }
}

/// Days of the first `count` months (January first) of `year`.
pub open spec fn days_in_months(year: int, count: int) -> int
    decreases count,
{
    if count <= 0 {
        0
    } else {
        days_in_months(year, count - 1) + month_len(count - 1) + if count - 1 == 1 && is_leap(
            year,
        ) {
            1int
        } else {
            0int
        }
    }
}

pub const MS_PER_DAY: u64 = 86_400_000;

impl CurrentTime {
    /// The milliseconds that the conversion gives: the days of the years from
    /// 1970 before `year` and of the first `month` months of `year`, then the
    /// hours, minutes, seconds and milliseconds. The day of the month is not
    /// counted.
    pub open spec fn spec_timestamp_ms(self) -> int {
        (days_before_year(self.year as int) + days_in_months(self.year as int, self.month as int))
            * MS_PER_DAY + self.hours * 3_600_000int + self.minutes * 60_000int + self.seconds
            * 1000int + self.milliseconds
    }

    /// The time as milliseconds, for a time whose value fits 64 bits and whose
    /// month count is at most 12.
    pub fn to_timestamp_ms(&self) -> (r: u64)
        requires
            self.month <= 12,
            self.spec_timestamp_ms() <= u64::MAX,
        ensures
            r == self.spec_timestamp_ms(),
    {
        let year = self.year as u64;
        let ghost total_days: int = days_before_year(self.year as int) + days_in_months(
            self.year as int,
            self.month as int,
        );
        proof {
            lemma_days_in_months_nonneg(self.year as int, self.month as int);
            lemma_days_before_year_nonneg(self.year as int);
            assert(total_days * MS_PER_DAY <= u64::MAX) by (nonlinear_arith)
                requires
                    total_days * MS_PER_DAY + self.hours * 3_600_000int + self.minutes * 60_000int
                        + self.seconds * 1000int + self.milliseconds <= u64::MAX,
                    self.hours >= 0,
                    self.minutes >= 0,
                    self.seconds >= 0,
                    self.milliseconds >= 0,
            ;
            assert(total_days <= u64::MAX / 86_400_000);
        }
        let mut days: u64 = 0;
        let mut y: u64 = 1970;
        while y < year
            invariant
                1970 <= y,
                y == 1970 || y <= year,
                year == self.year,
                days == days_before_year(y as int),
                total_days == days_before_year(self.year as int) + days_in_months(
                    self.year as int,
                    self.month as int,
                ),
                days_in_months(self.year as int, self.month as int) >= 0,
                total_days <= u64::MAX / 86_400_000,
            decreases year - y,
        {
            proof {
                lemma_days_before_year_mono(y as int + 1, self.year as int);
            }
            days = days + if (y % 4 == 0 && y % 100 != 0) || (y % 400 == 0) {
                366u64
            } else {
                365u64
            };
            y = y + 1;
        }
        proof {
            if year > 1970 {
                assert(y == year);
            } else {
                assert(y == 1970);
                assert(days_before_year(self.year as int) == 0);
            }
            assert(days == days_before_year(self.year as int));
        }
        let month_days: [u64; 12] = [31, 28, 31, 30, 31, 30, 31, 31, 30, 31, 30, 31];
        let leap = (year % 4 == 0 && year % 100 != 0) || (year % 400 == 0);
        let mut m: u32 = 0;
        while m < self.month
            invariant
                m <= self.month <= 12,
                year == self.year,
                leap == is_leap(self.year as int),
                days == days_before_year(self.year as int) + days_in_months(self.year as int, m as int),
                total_days == days_before_year(self.year as int) + days_in_months(
                    self.year as int,
                    self.month as int,
                ),
                total_days <= u64::MAX / 86_400_000,
                days_before_year(self.year as int) >= 0,
                forall|i: int| 0 <= i < 12 ==> month_days@[i] == month_len(i),
            decreases self.month - m,
        {
            proof {
                lemma_days_in_months_mono(self.year as int, m as int + 1, self.month as int);
            }
            days = days + month_days[m as usize];
            if m == 1 && leap {
                days = days + 1;
            }
            m = m + 1;
        }
        let hours = self.hours as u64;
        let minutes = self.minutes as u64;
        let seconds = self.seconds as u64;
        let milliseconds = self.milliseconds as u64;
        days * 24 * 60 * 60 * 1000 + hours * 60 * 60 * 1000 + minutes * 60 * 1000 + seconds * 1000
            + milliseconds
    }
}

proof fn lemma_days_before_year_nonneg(y: int)
    ensures
        days_before_year(y) >= 0,
    decreases y - 1970,
{
    if y > 1970 {
        lemma_days_before_year_nonneg(y - 1);
    }
}

proof fn lemma_days_before_year_mono(a: int, b: int)
    requires
        a <= b,
    ensures
        days_before_year(a) <= days_before_year(b),
    decreases b - a,
{
    if a < b {
        lemma_days_before_year_mono(a, b - 1);
        lemma_days_before_year_nonneg(b - 1);
    }
}

proof fn lemma_days_in_months_nonneg(year: int, n: int)
    ensures
        days_in_months(year, n) >= 0,
    decreases n,
{
    if n > 0 {
        lemma_days_in_months_nonneg(year, n - 1);
    }
}

proof fn lemma_days_in_months_mono(year: int, a: int, b: int)
    requires
        a <= b,
    ensures
        days_in_months(year, a) <= days_in_months(year, b),
    decreases b - a,
{
    if a < b {
        lemma_days_in_months_mono(year, a, b - 1);
    }
}

/// Why a real-time clock chip refused a request.
#[derive(Copy, Clone, Debug, PartialEq, Eq, Structural)]
pub enum I2CRtcError {
    I2cReadError,
    I2cWriteError,
    UnsupportedSetting,
}

/// A real-time clock chip on an I2C bus.
pub trait I2CRtcCtrl {
    fn current_time(&mut self) -> Result<CurrentTime, I2CRtcError>;

    fn set_time(&mut self, time: CurrentTime) -> Result<(), I2CRtcError>;

    /// Sets the frequency of the clock output, in hertz.
    fn set_tick_period(&mut self, period_hz: u32) -> Result<(), I2CRtcError>;

    /// Reads the chip's registers; a chip without that reads none.
    fn dump_registers(&mut self) -> (r: Result<(), I2CRtcError>)
        default_ensures
            r == Ok::<(), I2CRtcError>(()),
    {
        Ok(())
    }
}

/// The pin that outputs the calibration clock: the default one or the remapped one.
#[derive(Copy, Clone, Debug, PartialEq, Eq, Structural)]
pub struct RtcCalibrationOutputPin(pub bool);

impl RtcCalibrationOutputPin {
    pub fn new(is_remap: bool) -> (r: Self)
        ensures
            r.0 == is_remap,
    {
        RtcCalibrationOutputPin(is_remap)
    }

    pub fn is_remap(&self) -> (r: bool)
        ensures
            r == self.0,
    {
        self.0
    }
}

} // verus!

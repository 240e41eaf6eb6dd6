use vstd::prelude::*;
use crate::datetime::{day_in_range, days_in_month, days_in_month_exec, DateTime, MAX_YEAR, MIN_YEAR, NANOS_PER_DAY};
use crate::tenor::{scan_tenor, tenor_scan, TenorError};

verus! {

/// A calendar period: whole years, months and days.
#[derive(Debug, Clone, Copy, PartialEq, Eq, Structural, Default)]
pub struct Period {
    pub years: i32,
    pub months: i32,
    pub days: i32,
}

/// A tenor is a period read as the length of a term.
pub type Tenor = Period;

/// Offset that keeps month counts non-negative before they are divided by 12.
const MONTH_SHIFT: i64 = 12_000_000_000;

/// Offset, in days, that keeps nanosecond counts non-negative before they are
/// divided into days.
const DAY_SHIFT: i128 = 1_000_000_000;

/// Division rounding toward zero.
pub open spec fn trunc_div(a: int, b: int) -> int {
    if a >= 0 { a / b } else { -((-a) / b) }
}

pub open spec fn clamp_day(y: int, m: int, d: int) -> int {
    if d > days_in_month(y, m) { days_in_month(y, m) } else { d }
}

/// `dt` moved by `n` years: same month, the day clamped to the month's last day.
pub open spec fn after_years(dt: DateTime, n: int) -> Option<DateTime> {
    let y = dt.year + n;
    if n == 0 {
        Some(dt)
    } else if MIN_YEAR <= y <= MAX_YEAR {
        Some(DateTime { year: y as i32, day: clamp_day(y, dt.month as int, dt.day as int) as u8, ..dt })
    } else {
        None
    }
}

/// `dt` moved by `n` months: the day clamped to the new month's last day.
pub open spec fn after_months(dt: DateTime, n: int) -> Option<DateTime> {
    let t = dt.year * 12 + (dt.month - 1) + n;
    let y = t / 12;
    let m = t % 12 + 1;
    if n == 0 {
        Some(dt)
    } else if MIN_YEAR <= y <= MAX_YEAR {
        Some(DateTime {
            year: y as i32,
            month: m as u8,
            day: clamp_day(y, m, dt.day as int) as u8,
            ..dt
        })
    } else {
        None
    }
}

/// `dt` moved by the year and month parts of `p`, in that order.
pub open spec fn after_years_and_months(p: Period, dt: DateTime) -> Option<DateTime> {
    match after_years(dt, p.years as int) {
        Some(a) => after_months(a, p.months as int),
        None => None,
    }
}

/// `x` is `base` moved by `days` calendar days, at the same local time.
pub open spec fn days_later(base: DateTime, x: DateTime, days: int) -> bool {
    &&& x.wf()
    &&& x.day_count() == base.day_count() + days
    &&& x.nanosecond == base.nanosecond
    &&& x.offset_seconds == base.offset_seconds
}

impl Period {
    pub fn new(years: i32, months: i32, days: i32) -> (r: Period)
        ensures
            r == (Period { years, months, days }),
    {
        Period { years, months, days }
    }

    /// Reads a period such as `"1Y6M"`, `"2W"` or `"10D"`.
    pub fn new_from_string(tenor: &str) -> (r: Result<Period, TenorError>)
        ensures
            r == (match tenor_scan(tenor@, false) {
                Ok(f) => Ok(Period { years: f.years, months: f.months, days: f.days }),
                Err(e) => Err(e),
            }),
    {
        match scan_tenor(tenor, false) {
            Ok(f) => Ok(Period { years: f.years, months: f.months, days: f.days }),
            Err(e) => Err(e),
        }
    }

    pub fn years(&self) -> (r: i32)
        ensures
            r == self.years,
    {
        self.years
    }

    pub fn months(&self) -> (r: i32)
        ensures
            r == self.months,
    {
        self.months
    }

    pub fn days(&self) -> (r: i32)
        ensures
            r == self.days,
    {
        self.days
    }

    /// Moves `datetime` by the year part; `None` when the year leaves the
    /// supported range.
    pub fn apply_year(&self, datetime: &DateTime) -> (r: Option<DateTime>)
        requires
            datetime.wf(),
        ensures
            r == after_years(*datetime, self.years as int),
            r matches Some(x) ==> x.wf(),
    {
        if self.years == 0 {
            return Some(*datetime);
        }
        let y: i64 = datetime.year as i64 + self.years as i64;
        if y < MIN_YEAR as i64 || y > MAX_YEAR as i64 {
            return None;
        }
        let y = y as i32;
        let eom = days_in_month_exec(y, datetime.month);
        let day = if datetime.day > eom { eom } else { datetime.day };
        Some(DateTime { year: y, day, ..*datetime })
    }

    /// Moves `datetime` by the month part; `None` when the year leaves the
    /// supported range.
    pub fn apply_month(&self, datetime: &DateTime) -> (r: Option<DateTime>)
        requires
            datetime.wf(),
        ensures
            r == after_months(*datetime, self.months as int),
            r matches Some(x) ==> x.wf(),
    {
        if self.months == 0 {
            return Some(*datetime);
        }
        let t: i64 = datetime.year as i64 * 12 + (datetime.month as i64 - 1) + self.months as i64;
        let shifted: i64 = t + MONTH_SHIFT;
        let y: i64 = shifted / 12 - MONTH_SHIFT / 12;
        let m: i64 = shifted % 12 + 1;
        proof {
            let ti = t as int;
            assert((ti + 12_000_000_000) / 12 == ti / 12 + 1_000_000_000) by (nonlinear_arith);
            assert((ti + 12_000_000_000) % 12 == ti % 12) by (nonlinear_arith);
        }
        if y < MIN_YEAR as i64 || y > MAX_YEAR as i64 {
            return None;
        }
        let y = y as i32;
        let m = m as u8;
        let eom = days_in_month_exec(y, m);
        let day = if datetime.day > eom { eom } else { datetime.day };
        Some(DateTime { year: y, month: m, day, ..*datetime })
    }

    /// Moves `datetime` by the day part; `None` when the date leaves the
    /// supported range.
    pub fn apply_day(&self, datetime: &DateTime) -> (r: Option<DateTime>)
        requires
            datetime.wf(),
        ensures
            r matches Some(x) ==> days_later(*datetime, x, self.days as int),
            r is Some <==> day_in_range(datetime.day_count() + self.days),
            self.days == 0 ==> r == Some(*datetime),
    {
        datetime.add_days(self.days)
    }

    /// Moves `datetime` by years, then months, then days.
    pub fn apply(&self, datetime: &DateTime) -> (r: Option<DateTime>)
        requires
            datetime.wf(),
        ensures
            after_years_and_months(*self, *datetime) is None ==> r is None,
            r matches Some(x) ==> days_later(
                after_years_and_months(*self, *datetime)->Some_0,
                x,
                self.days as int,
            ),
            r is Some <==> (after_years_and_months(*self, *datetime) matches Some(b)
                && day_in_range(b.day_count() + self.days)),
            self.days == 0 ==> r == after_years_and_months(*self, *datetime),
    {
        match self.apply_year(datetime) {
            Some(a) => match self.apply_month(&a) {
                Some(b) => self.apply_day(&b),
                None => None,
            },
            None => None,
        }
    }
}

/// A period with a time of day part.
#[derive(Debug, Clone, Copy, PartialEq, Eq, Structural, Default)]
pub struct FinerPeriod {
    pub period: Period,
    pub hours: i32,
    pub minutes: i32,
    pub milli_seconds: i32,
    pub nano_seconds: i32,
}

impl FinerPeriod {
    /// The time of day part, in nanoseconds.
    pub open spec fn span_nanos(&self) -> int {
        ((self.hours * 60 + self.minutes) * 60) * 1_000_000_000 + self.milli_seconds * 1_000_000
            + self.nano_seconds
    }

    pub fn new(period: Period, hours: i32, minutes: i32, milli_seconds: i32, nano_seconds: i32) -> (r: FinerPeriod)
        ensures
            r == (FinerPeriod { period, hours, minutes, milli_seconds, nano_seconds }),
    {
        FinerPeriod { period, hours, minutes, milli_seconds, nano_seconds }
    }

    /// Moves `datetime` by the calendar period, then forward (or back) by the
    /// time of day part on the time line.
    pub fn apply(&self, datetime: &DateTime) -> (r: Option<DateTime>)
        requires
            datetime.wf(),
        ensures
            after_years_and_months(self.period, *datetime) is None ==> r is None,
            r matches Some(x) ==> {
                let base = after_years_and_months(self.period, *datetime)->Some_0;
                &&& x.wf()
                &&& x.offset_seconds == datetime.offset_seconds
                &&& x.instant() == base.instant() + self.period.days * NANOS_PER_DAY + self.span_nanos()
                &&& x.nanosecond == (base.nanosecond + self.span_nanos()) % (NANOS_PER_DAY as int)
            },
            r is Some <==> (after_years_and_months(self.period, *datetime) matches Some(b)
                && day_in_range(b.day_count() + self.period.days)
                && day_in_range(b.day_count() + self.period.days
                    + (b.nanosecond + self.span_nanos()) / (NANOS_PER_DAY as int))),
    {
        let p = match self.period.apply(datetime) {
            Some(p) => p,
            None => return None,
        };
        let h = self.hours as i128;
        let mi = self.minutes as i128;
        let ms = self.milli_seconds as i128;
        let ns = self.nano_seconds as i128;
        proof {
            assert(-2_147_483_648 * 3_600_000_000_000 <= h * 3_600_000_000_000 <= 2_147_483_647 * 3_600_000_000_000) by (nonlinear_arith)
                requires -2_147_483_648 <= h <= 2_147_483_647;
            assert(-2_147_483_648 * 60_000_000_000 <= mi * 60_000_000_000 <= 2_147_483_647 * 60_000_000_000) by (nonlinear_arith)
                requires -2_147_483_648 <= mi <= 2_147_483_647;
        }
        let span: i128 = h * 3_600_000_000_000 + mi * 60_000_000_000 + ms * 1_000_000 + ns;
        let total: i128 = p.nanosecond as i128 + span + DAY_SHIFT * NANOS_PER_DAY as i128;
        let carry: i128 = total / NANOS_PER_DAY as i128 - DAY_SHIFT;
        let rest: i128 = total % NANOS_PER_DAY as i128;
        proof {
            let t = total as int;
            assert(t == (t / 86_400_000_000_000) * 86_400_000_000_000 + t % 86_400_000_000_000) by (nonlinear_arith);
            assert(0 <= t % 86_400_000_000_000 < 86_400_000_000_000) by (nonlinear_arith);
            assert(t / 86_400_000_000_000 <= 1_100_000_000) by (nonlinear_arith)
                requires t <= 86_400_000_000_000 * 1_100_000_000;
            assert(t / 86_400_000_000_000 >= 900_000_000) by (nonlinear_arith)
                requires t >= 86_400_000_000_000 * 900_000_000;
            let u = p.nanosecond + span as int;
            assert(t == u + 1_000_000_000 * 86_400_000_000_000);
            assert(t / 86_400_000_000_000 == u / 86_400_000_000_000 + 1_000_000_000) by (nonlinear_arith)
                requires t == u + 1_000_000_000 * 86_400_000_000_000;
            assert(t % 86_400_000_000_000 == u % 86_400_000_000_000) by (nonlinear_arith)
                requires t == u + 1_000_000_000 * 86_400_000_000_000;
        }
        let moved = match p.add_days(carry as i32) {
            Some(q) => q,
            None => return None,
        };
        Some(DateTime { nanosecond: rest as u64, ..moved })
    }

    pub fn period(&self) -> (r: &Period)
        ensures
            *r == self.period,
    {
        &self.period
    }

    pub fn hours(&self) -> (r: i32)
        ensures
            r == self.hours,
    {
        self.hours
    }

    pub fn minutes(&self) -> (r: i32)
        ensures
            r == self.minutes,
    {
        self.minutes
    }

    /// Whole seconds of the millisecond field.
    pub fn seconds(&self) -> (r: i32)
        ensures
            r == trunc_div(self.milli_seconds as int, 1000),
    {
        self.milli_seconds / 1000
    }

    pub fn milli_seconds(&self) -> (r: i32)
        ensures
            r == self.milli_seconds,
    {
        self.milli_seconds
    }

    /// Whole microseconds of the nanosecond field.
    pub fn micro_seconds(&self) -> (r: i32)
        ensures
            r == trunc_div(self.nano_seconds as int, 1000),
    {
        self.nano_seconds / 1000
    }

    pub fn nano_seconds(&self) -> (r: i32)
        ensures
            r == self.nano_seconds,
    {
        self.nano_seconds
    }

    /// Reads a period with a time of day part, such as `"1Y2M3D"` or
    /// `"4h30m1D"`; the last unit must be a calendar unit.
    pub fn new_from_string(val: &str) -> (r: Result<FinerPeriod, TenorError>)
        ensures
            r == (match tenor_scan(val@, true) {
                Ok(f) => if f.is_period {
                    Ok(FinerPeriod {
                        period: Period { years: f.years, months: f.months, days: f.days },
                        hours: f.hours,
                        minutes: f.minutes,
                        milli_seconds: f.milli_seconds,
                        nano_seconds: f.nano_seconds,
                    })
                } else {
                    Err(TenorError::EndsWithTimeUnit)
                },
                Err(e) => Err(e),
            }),
    {
        match scan_tenor(val, true) {
            Ok(f) => {
                if f.is_period {
                    Ok(FinerPeriod {
                        period: Period { years: f.years, months: f.months, days: f.days },
                        hours: f.hours,
                        minutes: f.minutes,
                        milli_seconds: f.milli_seconds,
                        nano_seconds: f.nano_seconds,
                    })
                } else {
                    Err(TenorError::EndsWithTimeUnit)
                }
            },
            Err(e) => Err(e),
        }
    }
}

} // verus!

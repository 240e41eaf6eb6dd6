use vstd::prelude::*;

verus! {

/// Nanoseconds in one day.
pub const NANOS_PER_DAY: u64 = 86_400_000_000_000;

/// Earliest year a date may fall in.
pub const MIN_YEAR: i32 = -9999;

/// Latest year a date may fall in.
pub const MAX_YEAR: i32 = 9999;

/// Largest distance, in seconds, of a local time from UTC.
pub const MAX_OFFSET_SECONDS: i32 = 93_599;

pub open spec fn is_leap_year(y: int) -> bool {
    (y % 4 == 0 && y % 100 != 0) || y % 400 == 0
}

pub open spec fn days_in_month(y: int, m: int) -> int {
    if m == 2 {
        if is_leap_year(y) { 29 } else { 28 }
    } else if m == 4 || m == 6 || m == 9 || m == 11 {
        30
    } else {
        31
    }
}

/// Days of the year `y` that precede the first of month `m`.
pub open spec fn days_before_month(y: int, m: int) -> int {
    let common: int = if m <= 1 { 0 }
        else if m == 2 { 31 }
        else if m == 3 { 59 }
        else if m == 4 { 90 }
        else if m == 5 { 120 }
        else if m == 6 { 151 }
        else if m == 7 { 181 }
        else if m == 8 { 212 }
        else if m == 9 { 243 }
        else if m == 10 { 273 }
        else if m == 11 { 304 }
        else { 334 };
    if m > 2 && is_leap_year(y) { common + 1 } else { common }
}

/// Days from the first of January of year -10000 to the first of January of `y`,
/// in the proleptic Gregorian calendar (a 400-year cycle has the same leap
/// pattern wherever it starts, so the shift keeps the count exact).
pub open spec fn days_before_year(y: int) -> int {
    let s = y + 10000;
    365 * s + (s + 3) / 4 - (s + 99) / 100 + (s + 399) / 400
}

/// A running count of days: consecutive calendar days have consecutive numbers.
pub open spec fn day_number(y: int, m: int, d: int) -> int {
    days_before_year(y) + days_before_month(y, m) + d - 1
}

pub open spec fn valid_date(y: int, m: int, d: int) -> bool {
    &&& MIN_YEAR <= y <= MAX_YEAR
    &&& 1 <= m <= 12
    &&& 1 <= d <= days_in_month(y, m)
}

/// A calendar date with a time of day and a fixed offset from UTC.
#[derive(Debug, Clone, Copy, PartialEq, Eq, Structural, Hash)]
pub struct DateTime {
    pub year: i32,
    pub month: u8,
    pub day: u8,
    /// Nanoseconds since local midnight.
    pub nanosecond: u64,
    /// Seconds east of UTC.
    pub offset_seconds: i32,
}

impl DateTime {
    pub open spec fn wf(&self) -> bool {
        &&& valid_date(self.year as int, self.month as int, self.day as int)
        &&& self.nanosecond < NANOS_PER_DAY
        &&& -MAX_OFFSET_SECONDS <= self.offset_seconds <= MAX_OFFSET_SECONDS
    }

    pub open spec fn day_count(&self) -> int {
        day_number(self.year as int, self.month as int, self.day as int)
    }

    /// The moment this value denotes, in nanoseconds on the UTC time line.
    pub open spec fn instant(&self) -> int {
        self.day_count() * NANOS_PER_DAY + self.nanosecond - self.offset_seconds * 1_000_000_000
    }

    /// Builds a date and time; `None` when a component is out of range.
    pub fn new(
        year: i32,
        month: u8,
        day: u8,
        hour: u8,
        minute: u8,
        second: u8,
        nanosecond: u32,
        offset_seconds: i32,
    ) -> (r: Option<DateTime>)
        ensures
            r is Some <==> (valid_date(year as int, month as int, day as int) && hour < 24
                && minute < 60 && second < 60 && nanosecond < 1_000_000_000
                && -MAX_OFFSET_SECONDS <= offset_seconds <= MAX_OFFSET_SECONDS),
            r matches Some(dt) ==> {
                &&& dt.wf()
                &&& dt.year == year && dt.month == month && dt.day == day
                &&& dt.nanosecond == ((hour as int * 60 + minute) * 60 + second) * 1_000_000_000
                    + nanosecond
                &&& dt.offset_seconds == offset_seconds
            },
    {
        if !is_valid_date(year, month, day) || hour >= 24 || minute >= 60 || second >= 60
            || nanosecond >= 1_000_000_000 || offset_seconds < -MAX_OFFSET_SECONDS
            || offset_seconds > MAX_OFFSET_SECONDS {
            return None;
        }
        let seconds: u64 = (hour as u64 * 60 + minute as u64) * 60 + second as u64;
        Some(DateTime {
            year,
            month,
            day,
            nanosecond: seconds * 1_000_000_000 + nanosecond as u64,
            offset_seconds,
        })
    }

    pub fn year(&self) -> (r: i32)
        ensures
            r == self.year,
    {
        self.year
    }

    pub fn month(&self) -> (r: u8)
        ensures
            r == self.month,
    {
        self.month
    }

    pub fn day(&self) -> (r: u8)
        ensures
            r == self.day,
    {
        self.day
    }

    /// The moment this value denotes, in nanoseconds on the UTC time line.
    pub fn instant_nanos(&self) -> (r: i128)
        requires
            self.wf(),
        ensures
            r == self.instant(),
    {
        let days = day_number_exec(self.year, self.month, self.day);
        days as i128 * NANOS_PER_DAY as i128 + self.nanosecond as i128
            - self.offset_seconds as i128 * 1_000_000_000
    }

    /// Whether this moment comes strictly before `other`.
    pub fn precedes(&self, other: &DateTime) -> (r: bool)
        requires
            self.wf(),
            other.wf(),
        ensures
            r == (self.instant() < other.instant()),
    {
        self.instant_nanos() < other.instant_nanos()
    }
}

pub fn is_leap_year_exec(y: i32) -> (r: bool)
    ensures
        r == is_leap_year(y as int),
{
    (y % 4 == 0 && y % 100 != 0) || y % 400 == 0
}

pub fn days_in_month_exec(y: i32, m: u8) -> (r: u8)
    ensures
        r == days_in_month(y as int, m as int),
{
    if m == 2 {
        if is_leap_year_exec(y) { 29 } else { 28 }
    } else if m == 4 || m == 6 || m == 9 || m == 11 {
        30
    } else {
        31
    }
}

pub fn is_valid_date(y: i32, m: u8, d: u8) -> (r: bool)
    ensures
        r == valid_date(y as int, m as int, d as int),
{
    MIN_YEAR <= y && y <= MAX_YEAR && 1 <= m && m <= 12 && 1 <= d && d <= days_in_month_exec(y, m)
}

fn day_number_exec(y: i32, m: u8, d: u8) -> (r: i64)
    requires
        valid_date(y as int, m as int, d as int),
    ensures
        r == day_number(y as int, m as int, d as int),
{
    let s: i64 = y as i64 + 10000;
    let common: i64 = if m <= 1 { 0 }
        else if m == 2 { 31 }
        else if m == 3 { 59 }
        else if m == 4 { 90 }
        else if m == 5 { 120 }
        else if m == 6 { 151 }
        else if m == 7 { 181 }
        else if m == 8 { 212 }
        else if m == 9 { 243 }
        else if m == 10 { 273 }
        else if m == 11 { 304 }
        else { 334 };
    let before_month: i64 = if m > 2 && is_leap_year_exec(y) { common + 1 } else { common };
    365 * s + (s + 3) / 4 - (s + 99) / 100 + (s + 399) / 400 + before_month + d as i64 - 1
}

/// The running day count of the first supported day, 1 January -9999.
pub open spec fn first_day() -> int {
    day_number(MIN_YEAR as int, 1, 1)
}

/// The running day count of the last supported day, 31 December 9999.
pub open spec fn last_day() -> int {
    day_number(MAX_YEAR as int, 12, 31)
}

/// Day count `n` falls within the supported years.
pub open spec fn day_in_range(n: int) -> bool {
    first_day() <= n <= last_day()
}

/// Later years start no earlier.
proof fn lemma_days_before_year_monotone(a: int, b: int)
    requires
        a <= b,
    ensures
        days_before_year(a) <= days_before_year(b),
{
}

/// A year has 366 days when it is a leap year, else 365.
proof fn lemma_year_length(y: int)
    ensures
        days_before_year(y + 1) - days_before_year(y) == if is_leap_year(y) { 366int } else { 365int },
{
}

/// Every valid date lies within the supported day counts.
pub proof fn lemma_valid_date_in_range(y: int, m: int, d: int)
    requires
        valid_date(y, m, d),
    ensures
        day_in_range(day_number(y, m, d)),
{
    lemma_days_before_year_monotone(MIN_YEAR as int, y);
    lemma_year_length(y);
    assert(days_before_month(y, m) + days_in_month(y, m) <= if is_leap_year(y) { 366int } else { 365int });
    if y < MAX_YEAR {
        lemma_days_before_year_monotone(y + 1, MAX_YEAR as int);
    }
}

/// Different valid dates have different day counts, so a day count names one date.
pub proof fn lemma_day_number_injective(y1: int, m1: int, d1: int, y2: int, m2: int, d2: int)
    requires
        valid_date(y1, m1, d1),
        valid_date(y2, m2, d2),
        day_number(y1, m1, d1) == day_number(y2, m2, d2),
    ensures
        y1 == y2 && m1 == m2 && d1 == d2,
{
    lemma_year_length(y1);
    lemma_year_length(y2);
    assert(days_before_month(y1, m1) + days_in_month(y1, m1) <= if is_leap_year(y1) { 366int } else { 365int });
    assert(days_before_month(y2, m2) + days_in_month(y2, m2) <= if is_leap_year(y2) { 366int } else { 365int });
    if y1 < y2 {
        lemma_days_before_year_monotone(y1 + 1, y2);
    } else if y2 < y1 {
        lemma_days_before_year_monotone(y2 + 1, y1);
    }
}

/// Relies on `time::Date::from_calendar_date` and `time::Date::checked_add`:
/// a valid date moved by whole days lands on the valid date whose running day
/// count is `days` further on; `checked_add` gives `None` exactly when that
/// day falls outside `Date::MIN..=Date::MAX`, the years -9999 to 9999.
#[verifier::external_body]
fn shift_by_days(y: i32, m: u8, d: u8, days: i32) -> (r: Option<(i32, u8, u8)>)
    requires
        valid_date(y as int, m as int, d as int),
    ensures
        r is Some <==> day_in_range(day_number(y as int, m as int, d as int) + days),
        r matches Some(t) ==> {
            &&& valid_date(t.0 as int, t.1 as int, t.2 as int)
            &&& day_number(t.0 as int, t.1 as int, t.2 as int) == day_number(y as int, m as int, d as int) + days
        },
{
    let month = time::Month::try_from(m).ok()?;
    let date = time::Date::from_calendar_date(y, month, d).ok()?;
    let moved = date.checked_add(time::Duration::days(days as i64))?;
    Some((moved.year(), u8::from(moved.month()), moved.day()))
}

impl DateTime {
    /// The same local time `days` calendar days later (earlier when negative);
    /// `None` when the result leaves the supported years.
    pub fn add_days(&self, days: i32) -> (r: Option<DateTime>)
        requires
            self.wf(),
        ensures
            r matches Some(dt) ==> {
                &&& dt.wf()
                &&& dt.day_count() == self.day_count() + days
                &&& dt.nanosecond == self.nanosecond
                &&& dt.offset_seconds == self.offset_seconds
            },
            r is Some <==> day_in_range(self.day_count() + days),
            days == 0 ==> r == Some(*self),
    {
        if days == 0 {
            proof {
                lemma_valid_date_in_range(self.year as int, self.month as int, self.day as int);
            }
            return Some(*self);
        }
        match shift_by_days(self.year, self.month, self.day, days) {
            Some((y, m, d)) => Some(DateTime { year: y, month: m, day: d, ..*self }),
            None => None,
        }
    }
}

} // verus!

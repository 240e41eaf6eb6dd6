use vstd::prelude::*;
use vstd::string::StrSliceExecFns;

verus! {

/// Why a tenor string such as `"1Y6M"` or `"3M2D4h"` was rejected.
#[derive(Debug, Clone, Copy, PartialEq, Eq, Structural)]
pub enum TenorError {
    /// A character that is neither a digit nor a unit letter accepted here.
    UnknownUnit(char),
    /// A count, or a field built from counts, does not fit in `i32`.
    NumberTooLarge,
    /// The string ends on a time-of-day unit where a calendar unit must come last.
    EndsWithTimeUnit,
}

/// The fields a tenor string sets, as it is read from left to right.
#[derive(Debug, Clone, Copy, PartialEq, Eq, Structural)]
pub struct TenorFields {
    pub years: i32,
    pub months: i32,
    pub days: i32,
    pub hours: i32,
    pub minutes: i32,
    pub milli_seconds: i32,
    pub nano_seconds: i32,
    /// The digits read since the last unit letter.
    pub pending: i32,
    /// Whether the last unit letter was a calendar unit (or none was read yet).
    pub is_period: bool,
}

pub open spec fn is_digit(c: char) -> bool {
    '0' <= c && c <= '9'
}

pub open spec fn digit_value(c: char) -> int {
    c as int - '0' as int
}

pub open spec fn fits_i32(n: int) -> bool {
    0 <= n <= i32::MAX
}

pub open spec fn initial_fields() -> TenorFields {
    TenorFields {
        years: 0,
        months: 0,
        days: 0,
        hours: 0,
        minutes: 0,
        milli_seconds: 0,
        nano_seconds: 0,
        pending: 0,
        is_period: true,
    }
}

/// A field's new value, or `NumberTooLarge` where it leaves `i32`.
pub open spec fn checked(n: int) -> Result<i32, TenorError> {
    if fits_i32(n) { Ok(n as i32) } else { Err(TenorError::NumberTooLarge) }
}

/// Reading one more character. Units: `Y` years, `M` months, `W` weeks (seven
/// days), `D` days; with `finer` also `h` hours, `m` minutes, `s` seconds and
/// `l` milliseconds (both kept as milliseconds), `u` microseconds and `n`
/// nanoseconds (both kept as nanoseconds). A unit takes the digits read since
/// the previous unit, none meaning zero.
pub open spec fn tenor_step(f: TenorFields, c: char, finer: bool) -> Result<TenorFields, TenorError> {
    let n = f.pending as int;
    let cleared = TenorFields { pending: 0, ..f };
    if is_digit(c) {
        match checked(n * 10 + digit_value(c)) {
            Ok(v) => Ok(TenorFields { pending: v, ..f }),
            Err(e) => Err(e),
        }
    } else if c == 'Y' {
        Ok(TenorFields { years: n as i32, is_period: true, ..cleared })
    } else if c == 'M' {
        Ok(TenorFields { months: n as i32, is_period: true, ..cleared })
    } else if c == 'W' {
        match checked(n * 7) {
            Ok(v) => Ok(TenorFields { days: v, is_period: true, ..cleared }),
            Err(e) => Err(e),
        }
    } else if c == 'D' {
        Ok(TenorFields { days: n as i32, is_period: true, ..cleared })
    } else if finer && c == 'h' {
        Ok(TenorFields { hours: n as i32, is_period: false, ..cleared })
    } else if finer && c == 'm' {
        Ok(TenorFields { minutes: n as i32, is_period: false, ..cleared })
    } else if finer && c == 's' {
        match checked(f.milli_seconds + n * 1000) {
            Ok(v) => Ok(TenorFields { milli_seconds: v, is_period: false, ..cleared }),
            Err(e) => Err(e),
        }
    } else if finer && c == 'l' {
        match checked(f.milli_seconds + n) {
            Ok(v) => Ok(TenorFields { milli_seconds: v, is_period: false, ..cleared }),
            Err(e) => Err(e),
        }
    } else if finer && c == 'u' {
        match checked(f.nano_seconds + n * 1000) {
            Ok(v) => Ok(TenorFields { nano_seconds: v, is_period: false, ..cleared }),
            Err(e) => Err(e),
        }
    } else if finer && c == 'n' {
        match checked(f.nano_seconds + n) {
            Ok(v) => Ok(TenorFields { nano_seconds: v, is_period: false, ..cleared }),
            Err(e) => Err(e),
        }
    } else {
        Err(TenorError::UnknownUnit(c))
    }
}

/// Reading a whole string from the left; the first rejected character decides.
pub open spec fn tenor_scan(s: Seq<char>, finer: bool) -> Result<TenorFields, TenorError>
    decreases s.len(),
{
    if s.len() == 0 {
        Ok(initial_fields())
    } else {
        match tenor_scan(s.drop_last(), finer) {
            Ok(f) => tenor_step(f, s.last(), finer),
            Err(e) => Err(e),
        }
    }
}

pub open spec fn fields_in_range(f: TenorFields) -> bool {
    &&& 0 <= f.years && 0 <= f.months && 0 <= f.days && 0 <= f.hours && 0 <= f.minutes
    &&& 0 <= f.milli_seconds && 0 <= f.nano_seconds && 0 <= f.pending
}

fn checked_exec(n: i64) -> (r: Result<i32, TenorError>)
    ensures
        r == checked(n as int),
{
    if 0 <= n && n <= i32::MAX as i64 { Ok(n as i32) } else { Err(TenorError::NumberTooLarge) }
}

fn tenor_step_exec(f: TenorFields, c: char, finer: bool) -> (r: Result<TenorFields, TenorError>)
    requires
        fields_in_range(f),
    ensures
        r == tenor_step(f, c, finer),
        r matches Ok(g) ==> fields_in_range(g),
{
    let n: i64 = f.pending as i64;
    let cleared = TenorFields { pending: 0, ..f };
    if '0' <= c && c <= '9' {
        let d: i64 = (c as u32 - '0' as u32) as i64;
        match checked_exec(n * 10 + d) {
            Ok(v) => Ok(TenorFields { pending: v, ..f }),
            Err(e) => Err(e),
        }
    } else if c == 'Y' {
        Ok(TenorFields { years: f.pending, is_period: true, ..cleared })
    } else if c == 'M' {
        Ok(TenorFields { months: f.pending, is_period: true, ..cleared })
    } else if c == 'W' {
        match checked_exec(n * 7) {
            Ok(v) => Ok(TenorFields { days: v, is_period: true, ..cleared }),
            Err(e) => Err(e),
        }
    } else if c == 'D' {
        Ok(TenorFields { days: f.pending, is_period: true, ..cleared })
    } else if finer && c == 'h' {
        Ok(TenorFields { hours: f.pending, is_period: false, ..cleared })
    } else if finer && c == 'm' {
        Ok(TenorFields { minutes: f.pending, is_period: false, ..cleared })
    } else if finer && c == 's' {
        match checked_exec(f.milli_seconds as i64 + n * 1000) {
            Ok(v) => Ok(TenorFields { milli_seconds: v, is_period: false, ..cleared }),
            Err(e) => Err(e),
        }
    } else if finer && c == 'l' {
        match checked_exec(f.milli_seconds as i64 + n) {
            Ok(v) => Ok(TenorFields { milli_seconds: v, is_period: false, ..cleared }),
            Err(e) => Err(e),
        }
    } else if finer && c == 'u' {
        match checked_exec(f.nano_seconds as i64 + n * 1000) {
            Ok(v) => Ok(TenorFields { nano_seconds: v, is_period: false, ..cleared }),
            Err(e) => Err(e),
        }
    } else if finer && c == 'n' {
        match checked_exec(f.nano_seconds as i64 + n) {
            Ok(v) => Ok(TenorFields { nano_seconds: v, is_period: false, ..cleared }),
            Err(e) => Err(e),
        }
    } else {
        Err(TenorError::UnknownUnit(c))
    }
}

/// Reads a tenor string; `finer` also admits the time-of-day units.
pub fn scan_tenor(s: &str, finer: bool) -> (r: Result<TenorFields, TenorError>)
    ensures
        r == tenor_scan(s@, finer),
        r matches Ok(f) ==> fields_in_range(f),
{
    let len = s.unicode_len();
    let mut f = TenorFields {
        years: 0,
        months: 0,
        days: 0,
        hours: 0,
        minutes: 0,
        milli_seconds: 0,
        nano_seconds: 0,
        pending: 0,
        is_period: true,
    };
    let mut i: usize = 0;
    while i < len
        invariant
            len == s@.len(),
            i <= len,
            tenor_scan(s@.take(i as int), finer) == Ok::<TenorFields, TenorError>(f),
            fields_in_range(f),
        decreases len - i,
    {
        let c = s.get_char(i);
        proof {
            assert(s@.take(i as int + 1).drop_last() == s@.take(i as int));
            assert(s@.take(i as int + 1).last() == c);
        }
        match tenor_step_exec(f, c, finer) {
            Ok(g) => {
                f = g;
            },
            Err(e) => {
                proof {
                    lemma_scan_error_persists(s@, finer, i as int + 1);
                }
                return Err(e);
            },
        }
        i = i + 1;
    }
    proof {
        assert(s@.take(len as int) == s@);
    }
    Ok(f)
}

/// What a string reads to has every count in range.
pub proof fn lemma_scan_fields_in_range(s: Seq<char>, finer: bool)
    ensures
        tenor_scan(s, finer) matches Ok(f) ==> fields_in_range(f),
    decreases s.len(),
{
    if s.len() > 0 {
        lemma_scan_fields_in_range(s.drop_last(), finer);
    }
}

/// Once a prefix is rejected, the whole string is rejected with the same error.
proof fn lemma_scan_error_persists(s: Seq<char>, finer: bool, k: int)
    requires
        0 <= k <= s.len(),
        tenor_scan(s.take(k), finer) is Err,
    ensures
        tenor_scan(s, finer) == tenor_scan(s.take(k), finer),
    decreases s.len() - k,
{
    if k < s.len() {
        assert(s.take(k + 1).drop_last() == s.take(k));
        lemma_scan_error_persists(s, finer, k + 1);
    } else {
        assert(s.take(k) == s);
    }
}

} // verus!

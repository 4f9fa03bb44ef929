use vstd::arithmetic::div_mod::{lemma_mod_bound, lemma_mod_mod};
use vstd::prelude::*;

use crate::errors::DateError;

verus! {

/// A calendar date with a time of day, understood as UTC.
#[derive(Clone, Copy, Debug, PartialEq, Eq, Structural)]
pub struct DateTime {
    pub year: i32,
    pub month: u8,
    pub day: u8,
    pub hour: u8,
    pub minute: u8,
    pub second: u8,
}

impl DateTime {
    /// Field ranges of a plausible timestamp. The exact calendar-day check
    /// (month lengths, leap years) is `valid_ymd`.
    pub open spec fn wf(self) -> bool {
        &&& 1 <= self.month <= 12
        &&& 1 <= self.day <= 31
        &&& self.hour <= 23
        &&& self.minute <= 59
        &&& self.second <= 59
    }
}

/// Strict chronological order: most significant field first.
pub open spec fn lt_spec(a: DateTime, b: DateTime) -> bool {
    if a.year != b.year {
        a.year < b.year
    } else if a.month != b.month {
        a.month < b.month
    } else if a.day != b.day {
        a.day < b.day
    } else if a.hour != b.hour {
        a.hour < b.hour
    } else if a.minute != b.minute {
        a.minute < b.minute
    } else {
        a.second < b.second
    }
}

pub open spec fn le_spec(a: DateTime, b: DateTime) -> bool {
    lt_spec(a, b) || a == b
}

pub fn datetime_lt(a: &DateTime, b: &DateTime) -> (r: bool)
    ensures
        r == lt_spec(*a, *b),
{
    if a.year != b.year {
        a.year < b.year
    } else if a.month != b.month {
        a.month < b.month
    } else if a.day != b.day {
        a.day < b.day
    } else if a.hour != b.hour {
        a.hour < b.hour
    } else if a.minute != b.minute {
        a.minute < b.minute
    } else {
        a.second < b.second
    }
}

/// Proleptic Gregorian leap-year rule.
pub open spec fn is_leap_year(y: int) -> bool {
    (y % 4 == 0 && y % 100 != 0) || y % 400 == 0
}

pub open spec fn days_in_month(y: int, m: int) -> int {
    if m == 2 {
        if is_leap_year(y) {
            29
        } else {
            28
        }
    } else if m == 4 || m == 6 || m == 9 || m == 11 {
        30
    } else {
        31
    }
}

/// A real calendar day of the proleptic Gregorian calendar.
pub open spec fn valid_ymd(y: int, m: int, d: int) -> bool {
    1 <= m <= 12 && 1 <= d <= days_in_month(y, m)
}

pub fn leap_year(y: i32) -> (r: bool)
    ensures
        r == is_leap_year(y as int),
{
    // The leap rule has period 400, so decide it on the residue, which
    // avoids any subtlety about remainders of negative years.
    let r_opt = y.checked_rem_euclid(400);
    let res: i32 = match r_opt {
        Some(v) => v,
        None => 0,
    };
    proof {
        lemma_mod_bound(y as int, 400);
        assert(res == y as int % 400);
        lemma_mod_mod(y as int, 4, 100);
        assert(4 * 100 == 400);
        lemma_mod_mod(y as int, 100, 4);
        assert(100 * 4 == 400);
        lemma_mod_bound(y as int % 400, 4);
        lemma_mod_bound(y as int % 400, 100);
        lemma_mod_mod(y as int % 400, 4, 100);
        lemma_mod_mod(y as int % 400, 100, 4);
        lemma_mod_bound(res as int, 4);
        lemma_mod_bound(res as int, 100);
    }
    let ru: u32 = res as u32;
    (ru % 4 == 0 && ru % 100 != 0) || ru % 400 == 0
}

pub fn days_in_month_count(y: i32, m: u32) -> (r: u32)
    requires
        1 <= m <= 12,
    ensures
        r == days_in_month(y as int, m as int),
{
    if m == 2 {
        if leap_year(y) {
            29
        } else {
            28
        }
    } else if m == 4 || m == 6 || m == 9 || m == 11 {
        30
    } else {
        31
    }
}

/// What the validator returns for a raw (year, month, day) triple: either the
/// normalized timestamp fixed at one second past midnight, or the first
/// failing check's error, in this order: month range, day range, minimum
/// year, real calendar day, not in the future.
pub open spec fn validate_spec(y: int, m: int, d: int, min_year: int, now: DateTime) -> Result<
    DateTime,
    DateError,
> {
    if m < 1 || m > 12 {
        Err(DateError::InvalidMonth)
    } else if d < 1 || d > 31 {
        Err(DateError::InvalidDay)
    } else if y < min_year {
        Err(DateError::AncientDate)
    } else if !valid_ymd(y, m, d) {
        Err(DateError::InvalidDate)
    } else {
        let dt = DateTime {
            year: y as i32,
            month: m as u8,
            day: d as u8,
            hour: 0,
            minute: 0,
            second: 1,
        };
        if lt_spec(now, dt) {
            Err(DateError::FutureDate)
        } else {
            Ok(dt)
        }
    }
}

/// Turn a raw (year, month, day) triple into a normalized timestamp at one
/// second past midnight, or report why it is rejected.
pub fn parse_time(year: i32, month: u32, day: u32, min_year: i32, now: &DateTime) -> (r: Result<
    DateTime,
    DateError,
>)
    ensures
        r == validate_spec(year as int, month as int, day as int, min_year as int, *now),
        r matches Ok(dt) ==> dt.wf(),
{
    if month < 1 || month > 12 {
        return Err(DateError::InvalidMonth);
    }
    if day < 1 || day > 31 {
        return Err(DateError::InvalidDay);
    }
    if year < min_year {
        return Err(DateError::AncientDate);
    }
    if day > days_in_month_count(year, month) {
        return Err(DateError::InvalidDate);
    }
    let dt = DateTime {
        year,
        month: month as u8,
        day: day as u8,
        hour: 0,
        minute: 0,
        second: 1,
    };
    if datetime_lt(now, &dt) {
        Err(DateError::FutureDate)
    } else {
        Ok(dt)
    }
}

/// Every triple that is a real calendar day of an accepted year and does not
/// lie in the future is accepted, and comes back as exactly that calendar
/// day at one second past midnight.
pub proof fn lemma_validator_accepts(y: int, m: int, d: int, min_year: int, now: DateTime)
    requires
        valid_ymd(y, m, d),
        min_year <= y,
        i32::MIN <= y <= i32::MAX,
        !lt_spec(
            now,
            DateTime { year: y as i32, month: m as u8, day: d as u8, hour: 0, minute: 0, second: 1 },
        ),
    ensures
        validate_spec(y, m, d, min_year, now) == Ok::<DateTime, DateError>(
            DateTime { year: y as i32, month: m as u8, day: d as u8, hour: 0, minute: 0, second: 1 },
        ),
{
}

} // verus!

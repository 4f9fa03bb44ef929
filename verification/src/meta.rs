use vstd::prelude::*;

use chrono::{Datelike, Timelike};

use crate::dates::DateTime;
use crate::errors::DateError;

verus! {

/// Chronological order on Unix (seconds, nanoseconds) timestamps.
pub open spec fn stamp_le(a: (i64, u32), b: (i64, u32)) -> bool {
    a.0 < b.0 || (a.0 == b.0 && a.1 <= b.1)
}

pub open spec fn merge_earliest(x: Option<(i64, u32)>, y: Option<(i64, u32)>) -> Option<
    (i64, u32),
> {
    match (x, y) {
        (Some(a), Some(b)) => Some(
            if stamp_le(a, b) {
                a
            } else {
                b
            },
        ),
        (Some(a), None) => Some(a),
        (None, b) => b,
    }
}

/// The earliest of the up-to-three filesystem timestamps.
pub open spec fn earliest_spec(
    created: Option<(i64, u32)>,
    modified: Option<(i64, u32)>,
    accessed: Option<(i64, u32)>,
) -> Option<(i64, u32)> {
    merge_earliest(merge_earliest(created, modified), accessed)
}

/// The civil UTC date and time that the calendar library assigns to a Unix
/// timestamp.
pub uninterp spec fn civil_of(secs: i64, nanos: u32) -> DateTime;

/// Relies on chrono's `DateTime::<Utc>::from_timestamp` and its `Datelike`
/// and `Timelike` accessors: the civil UTC fields are a function of the
/// timestamp alone; the accessors yield month 1..=12, day 1..=31, hour
/// 0..=23, minute 0..=59 and, with the nanosecond part below one billion,
/// second 0..=59; a timestamp within eight trillion seconds of the epoch
/// (far inside chrono's year range of about ±262 000) always converts.
#[verifier::external_body]
fn timestamp_to_civil(secs: i64, nanos: u32) -> (r: Option<DateTime>)
    requires
        nanos < 1_000_000_000,
    ensures
        r matches Some(dt) ==> dt == civil_of(secs, nanos) && dt.wf(),
        -8_000_000_000_000 <= secs <= 8_000_000_000_000 ==> r is Some,
{
    match chrono::DateTime::<chrono::Utc>::from_timestamp(secs, nanos) {
        Some(t) => Some(
            DateTime {
                year: t.year(),
                month: t.month() as u8,
                day: t.day() as u8,
                hour: t.hour() as u8,
                minute: t.minute() as u8,
                second: t.second() as u8,
            },
        ),
        None => None,
    }
}

/// The civil UTC date and time of a Unix timestamp, where the calendar
/// library covers it.
pub fn timestamp_to_datetime(secs: i64, nanos: u32) -> (r: Option<DateTime>)
    requires
        nanos < 1_000_000_000,
    ensures
        r matches Some(dt) ==> dt == civil_of(secs, nanos) && dt.wf(),
        -8_000_000_000_000 <= secs <= 8_000_000_000_000 ==> r is Some,
{
    timestamp_to_civil(secs, nanos)
}

/// What metadata extraction returns: the civil date of the earliest
/// available timestamp, or the report that none could be read (a timestamp
/// outside the convertible range counts as unreadable).
pub open spec fn meta_date_spec(
    created: Option<(i64, u32)>,
    modified: Option<(i64, u32)>,
    accessed: Option<(i64, u32)>,
) -> Result<DateTime, DateError> {
    match earliest_spec(created, modified, accessed) {
        None => Err(DateError::InvalidMetadata),
        Some(t) => if -8_000_000_000_000 <= t.0 <= 8_000_000_000_000 {
            Ok(civil_of(t.0, t.1))
        } else {
            Err(DateError::InvalidMetadata)
        },
    }
}

fn merge2(x: Option<(i64, u32)>, y: Option<(i64, u32)>) -> (r: Option<(i64, u32)>)
    ensures
        r == merge_earliest(x, y),
{
    match (x, y) {
        (Some(a), Some(b)) => {
            if a.0 < b.0 || (a.0 == b.0 && a.1 <= b.1) {
                Some(a)
            } else {
                Some(b)
            }
        },
        (Some(a), None) => Some(a),
        (None, b) => b,
    }
}

/// Derive a candidate date from a file's filesystem timestamps: the
/// earliest of whichever of the three are available, interpreted in UTC.
/// No calendar validation beyond the conversion itself is applied.
pub fn get_date_from_meta(
    created: Option<(i64, u32)>,
    modified: Option<(i64, u32)>,
    accessed: Option<(i64, u32)>,
) -> (r: Result<DateTime, DateError>)
    requires
        created matches Some(t) ==> t.1 < 1_000_000_000,
        modified matches Some(t) ==> t.1 < 1_000_000_000,
        accessed matches Some(t) ==> t.1 < 1_000_000_000,
    ensures
        r == meta_date_spec(created, modified, accessed),
        r matches Ok(dt) ==> dt.wf(),
{
    let first = merge2(created, modified);
    let t = match merge2(first, accessed) {
        Some(t) => t,
        None => {
            return Err(DateError::InvalidMetadata);
        },
    };
    if t.0 < -8_000_000_000_000 || t.0 > 8_000_000_000_000 {
        return Err(DateError::InvalidMetadata);
    }
    match timestamp_to_civil(t.0, t.1) {
        Some(dt) => Ok(dt),
        None => {
            assert(false);
            Err(DateError::InvalidMetadata)
        },
    }
}

} // verus!

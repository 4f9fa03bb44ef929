use vstd::prelude::*;
use vstd::string::StrSliceExecFns;

use crate::dates::{parse_time, validate_spec, DateTime};
use crate::errors::DateError;

verus! {

// A date embedded in a file name is one of twelve fixed textual patterns:
// three two-digit-or-four-digit groups joined by a separator drawn from a
// fixed priority order: '-', '_', none, ' ', '.', '/'. The year group is a
// four-digit run; the month group is [0-1] followed by a digit; the day
// group is [0-3] followed by a digit. Year-first patterns (year, month, day)
// are all tried before any day-first pattern (day, month, year).

pub open spec fn is_digit(c: char) -> bool {
    48 <= c as u32 <= 57
}

pub open spec fn digit_val(c: char) -> int {
    c as u32 - 48
}

/// Separator of the pattern at priority `k`; priority 2 has no separator.
pub open spec fn sep_char_spec(k: int) -> char {
    if k == 0 {
        '-'
    } else if k == 1 {
        '_'
    } else if k == 3 {
        ' '
    } else if k == 4 {
        '.'
    } else {
        '/'
    }
}

pub open spec fn sep_len(k: int) -> int {
    if k == 2 {
        0
    } else {
        1
    }
}

/// Total length of a match of the pattern at priority `k`.
pub open spec fn pat_len(k: int) -> int {
    8 + 2 * sep_len(k)
}

pub open spec fn year4_at(s: Seq<char>, i: int) -> bool {
    is_digit(s[i]) && is_digit(s[i + 1]) && is_digit(s[i + 2]) && is_digit(s[i + 3])
}

pub open spec fn month2_at(s: Seq<char>, i: int) -> bool {
    is_digit(s[i]) && digit_val(s[i]) <= 1 && is_digit(s[i + 1])
}

pub open spec fn day2_at(s: Seq<char>, i: int) -> bool {
    is_digit(s[i]) && digit_val(s[i]) <= 3 && is_digit(s[i + 1])
}

pub open spec fn sep_at(s: Seq<char>, k: int, i: int) -> bool {
    k == 2 || s[i] == sep_char_spec(k)
}

/// The pattern of priority `k` (year-first if `yf`, else day-first) matches
/// the name at position `i`.
pub open spec fn matches_at(s: Seq<char>, k: int, yf: bool, i: int) -> bool {
    let sl = sep_len(k);
    0 <= i && i + pat_len(k) <= s.len() && (if yf {
        let m = i + 4 + sl;
        let d = m + 2 + sl;
        year4_at(s, i) && sep_at(s, k, i + 4) && month2_at(s, m) && sep_at(s, k, m + 2) && day2_at(
            s,
            d,
        )
    } else {
        let m = i + 2 + sl;
        let y = m + 2 + sl;
        day2_at(s, i) && sep_at(s, k, i + 2) && month2_at(s, m) && sep_at(s, k, m + 2) && year4_at(
            s,
            y,
        )
    })
}

pub open spec fn year_val(s: Seq<char>, i: int) -> int {
    digit_val(s[i]) * 1000 + digit_val(s[i + 1]) * 100 + digit_val(s[i + 2]) * 10 + digit_val(
        s[i + 3],
    )
}

pub open spec fn two_val(s: Seq<char>, i: int) -> int {
    digit_val(s[i]) * 10 + digit_val(s[i + 1])
}

pub open spec fn cand_year(s: Seq<char>, k: int, yf: bool, i: int) -> int {
    if yf {
        year_val(s, i)
    } else {
        year_val(s, i + 4 + 2 * sep_len(k))
    }
}

pub open spec fn cand_month(s: Seq<char>, k: int, yf: bool, i: int) -> int {
    if yf {
        two_val(s, i + 4 + sep_len(k))
    } else {
        two_val(s, i + 2 + sep_len(k))
    }
}

pub open spec fn cand_day(s: Seq<char>, k: int, yf: bool, i: int) -> int {
    if yf {
        two_val(s, i + 6 + 2 * sep_len(k))
    } else {
        two_val(s, i)
    }
}

/// What validation makes of the candidate matched at position `i`.
pub open spec fn cand_result(
    s: Seq<char>,
    k: int,
    yf: bool,
    i: int,
    min_year: int,
    now: DateTime,
) -> Result<DateTime, DateError> {
    validate_spec(
        cand_year(s, k, yf, i),
        cand_month(s, k, yf, i),
        cand_day(s, k, yf, i),
        min_year,
        now,
    )
}

/// The first accepted date that the pattern of priority `k` yields at or
/// after position `i`. Matches are taken leftmost and non-overlapping: after
/// a match whose date is rejected, the search resumes past that match.
pub open spec fn first_valid_from(
    s: Seq<char>,
    k: int,
    yf: bool,
    i: int,
    min_year: int,
    now: DateTime,
) -> Option<DateTime>
    decreases s.len() - i,
{
    if i + pat_len(k) > s.len() {
        None
    } else if matches_at(s, k, yf, i) {
        match cand_result(s, k, yf, i, min_year, now) {
            Ok(dt) => Some(dt),
            Err(_) => first_valid_from(s, k, yf, i + pat_len(k), min_year, now),
        }
    } else {
        first_valid_from(s, k, yf, i + 1, min_year, now)
    }
}

/// The first accepted date over the patterns of priorities `k..6`, each
/// scanned over the whole name before the next is tried.
pub open spec fn first_valid_list(
    s: Seq<char>,
    yf: bool,
    k: int,
    min_year: int,
    now: DateTime,
) -> Option<DateTime>
    decreases 6 - k,
{
    if k < 0 || k >= 6 {
        None
    } else {
        match first_valid_from(s, k, yf, 0, min_year, now) {
            Some(dt) => Some(dt),
            None => first_valid_list(s, yf, k + 1, min_year, now),
        }
    }
}

/// Of two scan outcomes in scanning order, the error that sticks: the later
/// one's, where it saw any match at all.
pub open spec fn later_err(a: Option<DateError>, b: Option<DateError>) -> Option<DateError> {
    if b is Some {
        b
    } else {
        a
    }
}

/// The rejection carried by the last match that the pattern of priority `k`
/// sees at or after position `i`; `None` where it sees no match there.
pub open spec fn scan_last_err(
    s: Seq<char>,
    k: int,
    yf: bool,
    i: int,
    min_year: int,
    now: DateTime,
) -> Option<DateError>
    decreases s.len() - i,
{
    if i + pat_len(k) > s.len() {
        None
    } else if matches_at(s, k, yf, i) {
        let this = match cand_result(s, k, yf, i, min_year, now) {
            Ok(_) => None,
            Err(e) => Some(e),
        };
        later_err(this, scan_last_err(s, k, yf, i + pat_len(k), min_year, now))
    } else {
        scan_last_err(s, k, yf, i + 1, min_year, now)
    }
}

/// The rejection carried by the last match over the patterns of priorities
/// `k..6`, scanned in order.
pub open spec fn list_last_err(
    s: Seq<char>,
    yf: bool,
    k: int,
    min_year: int,
    now: DateTime,
) -> Option<DateError>
    decreases 6 - k,
{
    if k < 0 || k >= 6 {
        None
    } else {
        later_err(
            scan_last_err(s, k, yf, 0, min_year, now),
            list_last_err(s, yf, k + 1, min_year, now),
        )
    }
}

/// The whole extraction contract: all year-first patterns are tried over the
/// whole name, in separator priority order, before any day-first pattern.
/// With no accepted match anywhere, the last seen match's rejection is
/// reported; with no match at all, the pattern was missed.
pub open spec fn name_date_spec(s: Seq<char>, min_year: int, now: DateTime) -> Result<
    DateTime,
    DateError,
> {
    match first_valid_list(s, true, 0, min_year, now) {
        Some(dt) => Ok(dt),
        None => match first_valid_list(s, false, 0, min_year, now) {
            Some(dt) => Ok(dt),
            None => Err(
                match later_err(
                    list_last_err(s, true, 0, min_year, now),
                    list_last_err(s, false, 0, min_year, now),
                ) {
                    Some(e) => e,
                    None => DateError::PatternMismatch,
                },
            ),
        },
    }
}

fn sep_char_of(k: u8) -> (r: char)
    requires
        k < 6,
        k != 2,
    ensures
        r == sep_char_spec(k as int),
{
    if k == 0 {
        '-'
    } else if k == 1 {
        '_'
    } else if k == 3 {
        ' '
    } else if k == 4 {
        '.'
    } else {
        '/'
    }
}

fn digit_at(name: &str, i: usize) -> (r: Option<u32>)
    requires
        i < name@.len(),
    ensures
        r is Some <==> is_digit(name@[i as int]),
        r matches Some(v) ==> v == digit_val(name@[i as int]) && v <= 9,
{
    let c = name.get_char(i);
    let u = c as u32;
    if 48 <= u && u <= 57 {
        Some(u - 48)
    } else {
        None
    }
}

/// Try the pattern of priority `k` at position `i`; on a match, hand back
/// the raw (year, month, day) numbers of the matched groups.
fn try_match_at(name: &str, k: u8, yf: bool, i: usize) -> (r: Option<(u32, u32, u32)>)
    requires
        k < 6,
        i + pat_len(k as int) <= name@.len(),
        name@.len() <= usize::MAX,
    ensures
        r is Some <==> matches_at(name@, k as int, yf, i as int),
        r matches Some(c) ==> {
            &&& c.0 == cand_year(name@, k as int, yf, i as int)
            &&& c.1 == cand_month(name@, k as int, yf, i as int)
            &&& c.2 == cand_day(name@, k as int, yf, i as int)
        },
{
    let sl: usize = if k == 2 {
        0
    } else {
        1
    };
    let ys: usize;
    let ms: usize;
    let ds: usize;
    let s1: usize;
    let s2: usize;
    if yf {
        ys = i;
        ms = i + 4 + sl;
        ds = i + 6 + 2 * sl;
        s1 = i + 4;
        s2 = i + 6 + sl;
    } else {
        ys = i + 4 + 2 * sl;
        ms = i + 2 + sl;
        ds = i;
        s1 = i + 2;
        s2 = i + 4 + sl;
    }
    if k != 2 {
        let sc = sep_char_of(k);
        if name.get_char(s1) != sc {
            return None;
        }
        if name.get_char(s2) != sc {
            return None;
        }
    }
    let y0 = match digit_at(name, ys) {
        Some(v) => v,
        None => {
            return None;
        },
    };
    let y1 = match digit_at(name, ys + 1) {
        Some(v) => v,
        None => {
            return None;
        },
    };
    let y2 = match digit_at(name, ys + 2) {
        Some(v) => v,
        None => {
            return None;
        },
    };
    let y3 = match digit_at(name, ys + 3) {
        Some(v) => v,
        None => {
            return None;
        },
    };
    let m0 = match digit_at(name, ms) {
        Some(v) => v,
        None => {
            return None;
        },
    };
    if m0 > 1 {
        return None;
    }
    let m1 = match digit_at(name, ms + 1) {
        Some(v) => v,
        None => {
            return None;
        },
    };
    let d0 = match digit_at(name, ds) {
        Some(v) => v,
        None => {
            return None;
        },
    };
    if d0 > 3 {
        return None;
    }
    let d1 = match digit_at(name, ds + 1) {
        Some(v) => v,
        None => {
            return None;
        },
    };
    Some((y0 * 1000 + y1 * 100 + y2 * 10 + y3, m0 * 10 + m1, d0 * 10 + d1))
}

/// Scan the whole name with the pattern of priority `k`, validating each
/// match in order: the first accepted date, and otherwise the rejection of
/// the last match seen.
fn scan_pattern(name: &str, k: u8, yf: bool, min_year: i32, now: &DateTime) -> (r: (
    Option<DateTime>,
    Option<DateError>,
))
    requires
        k < 6,
    ensures
        r.0 == first_valid_from(name@, k as int, yf, 0, min_year as int, *now),
        r.0 is None ==> r.1 == scan_last_err(name@, k as int, yf, 0, min_year as int, *now),
        r.0 matches Some(dt) ==> dt.wf(),
{
    let n = name.unicode_len();
    let plen: usize = if k == 2 {
        8
    } else {
        10
    };
    assert(plen == pat_len(k as int));
    if n < plen {
        return (None, None);
    }
    let mut i: usize = 0;
    let mut err: Option<DateError> = None;
    while i <= n - plen
        invariant
            n == name@.len(),
            plen == pat_len(k as int),
            k < 6,
            plen <= n,
            i <= n,
            first_valid_from(name@, k as int, yf, 0, min_year as int, *now) == first_valid_from(
                name@,
                k as int,
                yf,
                i as int,
                min_year as int,
                *now,
            ),
            scan_last_err(name@, k as int, yf, 0, min_year as int, *now) == later_err(
                err,
                scan_last_err(name@, k as int, yf, i as int, min_year as int, *now),
            ),
        decreases n - i,
    {
        match try_match_at(name, k, yf, i) {
            Some(c) => {
                match parse_time(c.0 as i32, c.1, c.2, min_year, now) {
                    Ok(dt) => {
                        return (Some(dt), None);
                    },
                    Err(e) => {
                        err = Some(e);
                        i = i + plen;
                    },
                }
            },
            None => {
                i = i + 1;
            },
        }
    }
    (None, err)
}

/// Scan the file name for an embedded date: the first match of the pattern
/// table whose date passes validation wins, year-first patterns before
/// day-first ones. With no accepted match, the last seen match's rejection
/// is reported; with no match at all, the pattern was missed.
pub fn get_date_from_name(name: &str, min_year: i32, now: &DateTime) -> (r: Result<
    DateTime,
    DateError,
>)
    ensures
        r == name_date_spec(name@, min_year as int, *now),
        r matches Ok(dt) ==> dt.wf(),
{
    let mut err: Option<DateError> = None;
    let mut k: u8 = 0;
    while k < 6
        invariant
            k <= 6,
            first_valid_list(name@, true, 0, min_year as int, *now) == first_valid_list(
                name@,
                true,
                k as int,
                min_year as int,
                *now,
            ),
            later_err(err, list_last_err(name@, true, k as int, min_year as int, *now))
                == list_last_err(name@, true, 0, min_year as int, *now),
        decreases 6 - k,
    {
        let (found, scan_err) = scan_pattern(name, k, true, min_year, now);
        match found {
            Some(dt) => {
                return Ok(dt);
            },
            None => {
                if scan_err.is_some() {
                    err = scan_err;
                }
                k = k + 1;
            },
        }
    }
    let mut k2: u8 = 0;
    while k2 < 6
        invariant
            k2 <= 6,
            first_valid_list(name@, true, 0, min_year as int, *now) is None,
            first_valid_list(name@, false, 0, min_year as int, *now) == first_valid_list(
                name@,
                false,
                k2 as int,
                min_year as int,
                *now,
            ),
            later_err(err, list_last_err(name@, false, k2 as int, min_year as int, *now))
                == later_err(
                list_last_err(name@, true, 0, min_year as int, *now),
                list_last_err(name@, false, 0, min_year as int, *now),
            ),
        decreases 6 - k2,
    {
        let (found, scan_err) = scan_pattern(name, k2, false, min_year, now);
        match found {
            Some(dt) => {
                return Ok(dt);
            },
            None => {
                if scan_err.is_some() {
                    err = scan_err;
                }
                k2 = k2 + 1;
            },
        }
    }
    match err {
        Some(e) => Err(e),
        None => Err(DateError::PatternMismatch),
    }
}

proof fn lemma_scan_hits_leftmost(
    s: Seq<char>,
    k: int,
    yf: bool,
    i: int,
    j: int,
    min_year: int,
    now: DateTime,
)
    requires
        0 <= i <= j,
        matches_at(s, k, yf, j),
        cand_result(s, k, yf, j, min_year, now) is Ok,
        forall|p: int| i <= p < j ==> !matches_at(s, k, yf, p),
    ensures
        first_valid_from(s, k, yf, i, min_year, now) == Some(
            cand_result(s, k, yf, j, min_year, now).unwrap(),
        ),
    decreases j - i,
{
    if i < j {
        assert(!matches_at(s, k, yf, i));
        assert(i + pat_len(k) <= s.len());
        lemma_scan_hits_leftmost(s, k, yf, i + 1, j, min_year, now);
    }
}

proof fn lemma_list_some(s: Seq<char>, yf: bool, k0: int, k: int, min_year: int, now: DateTime)
    requires
        0 <= k0 <= k < 6,
        first_valid_from(s, k, yf, 0, min_year, now) is Some,
    ensures
        first_valid_list(s, yf, k0, min_year, now) is Some,
    decreases k - k0,
{
    if k0 < k {
        lemma_list_some(s, yf, k0 + 1, k, min_year, now);
    }
}

proof fn lemma_list_prefix_none(
    s: Seq<char>,
    yf: bool,
    k0: int,
    k: int,
    min_year: int,
    now: DateTime,
)
    requires
        0 <= k0 <= k < 6,
        forall|k2: int| k0 <= k2 < k ==> first_valid_from(s, k2, yf, 0, min_year, now) is None,
        first_valid_from(s, k, yf, 0, min_year, now) is Some,
    ensures
        first_valid_list(s, yf, k0, min_year, now) == first_valid_from(s, k, yf, 0, min_year, now),
    decreases k - k0,
{
    if k0 < k {
        lemma_list_prefix_none(s, yf, k0 + 1, k, min_year, now);
    }
}

/// A year-first match that is leftmost for its pattern and carries an
/// accepted date guarantees that extraction succeeds — and then the result
/// is the year-first table's, whatever day-first matches the name also
/// holds, wherever they stand.
pub proof fn lemma_year_first_wins(s: Seq<char>, k: int, j: int, min_year: int, now: DateTime)
    requires
        0 <= k < 6,
        matches_at(s, k, true, j),
        cand_result(s, k, true, j, min_year, now) is Ok,
        forall|p: int| 0 <= p < j ==> !matches_at(s, k, true, p),
    ensures
        first_valid_list(s, true, 0, min_year, now) is Some,
        name_date_spec(s, min_year, now) == Ok::<DateTime, DateError>(
            first_valid_list(s, true, 0, min_year, now).unwrap(),
        ),
{
    lemma_scan_hits_leftmost(s, k, true, 0, j, min_year, now);
    lemma_list_some(s, true, 0, k, min_year, now);
}

/// The first year-first pattern with any accepted match returns its
/// leftmost one exactly: where no earlier year-first pattern yields a
/// date, and pattern `k`'s leftmost match carries an accepted date, the
/// extractor returns precisely that date.
pub proof fn lemma_returns_leftmost_year_first_date(
    s: Seq<char>,
    k: int,
    j: int,
    min_year: int,
    now: DateTime,
)
    requires
        0 <= k < 6,
        forall|k2: int| 0 <= k2 < k ==> first_valid_from(s, k2, true, 0, min_year, now) is None,
        matches_at(s, k, true, j),
        cand_result(s, k, true, j, min_year, now) is Ok,
        forall|p: int| 0 <= p < j ==> !matches_at(s, k, true, p),
    ensures
        name_date_spec(s, min_year, now) == Ok::<DateTime, DateError>(
            cand_result(s, k, true, j, min_year, now).unwrap(),
        ),
{
    lemma_scan_hits_leftmost(s, k, true, 0, j, min_year, now);
    lemma_list_prefix_none(s, true, 0, k, min_year, now);
}

} // verus!

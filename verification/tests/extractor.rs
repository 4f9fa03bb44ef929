use datesort::{get_date_from_name, DateError, DateTime};

fn dt(year: i32, month: u8, day: u8, hour: u8, minute: u8, second: u8) -> DateTime {
    DateTime { year, month, day, hour, minute, second }
}

fn noon2000() -> DateTime {
    dt(2000, 6, 15, 12, 0, 0)
}

#[test]
fn extracts_hyphen_separator() {
    let r = get_date_from_name("1959-03-12.txt", 1950, &noon2000());
    assert_eq!(r, Ok(dt(1959, 3, 12, 0, 0, 1)));
}

#[test]
fn extracts_underscore_separator() {
    let r = get_date_from_name("pic_1959_03_12.jpg", 1950, &noon2000());
    assert_eq!(r, Ok(dt(1959, 3, 12, 0, 0, 1)));
}

#[test]
fn extracts_no_separator() {
    let r = get_date_from_name("scan19590312.png", 1950, &noon2000());
    assert_eq!(r, Ok(dt(1959, 3, 12, 0, 0, 1)));
}

#[test]
fn extracts_space_separator() {
    let r = get_date_from_name("taken 1959 03 12 at home", 1950, &noon2000());
    assert_eq!(r, Ok(dt(1959, 3, 12, 0, 0, 1)));
}

#[test]
fn extracts_dot_separator() {
    let r = get_date_from_name("1959.03.12.txt", 1950, &noon2000());
    assert_eq!(r, Ok(dt(1959, 3, 12, 0, 0, 1)));
}

#[test]
fn extracts_slash_separator() {
    let r = get_date_from_name("report 1959/03/12", 1950, &noon2000());
    assert_eq!(r, Ok(dt(1959, 3, 12, 0, 0, 1)));
}

#[test]
fn year_first_wins_over_earlier_day_first() {
    // the day-first date stands earlier in the string and is itself valid,
    // but any year-first match takes precedence
    let r = get_date_from_name("31-12-1999 then 1987-05-06.txt", 1950, &noon2000());
    assert_eq!(r, Ok(dt(1987, 5, 6, 0, 0, 1)));
}

#[test]
fn day_first_as_fallback() {
    let r = get_date_from_name("doc-31-12-1999.txt", 1950, &noon2000());
    assert_eq!(r, Ok(dt(1999, 12, 31, 0, 0, 1)));
}

#[test]
fn separator_priority_order() {
    // '-' is tried before '_' over the whole name, so the later hyphen
    // date beats the earlier underscore date
    let r = get_date_from_name("a1959_03_12 and 1960-01-02", 1950, &noon2000());
    assert_eq!(r, Ok(dt(1960, 1, 2, 0, 0, 1)));
}

#[test]
fn no_pattern_is_a_mismatch() {
    assert_eq!(get_date_from_name("photo.txt", 1950, &noon2000()), Err(DateError::PatternMismatch));
}

#[test]
fn rejected_match_reports_its_reason() {
    let r = get_date_from_name("1920-05-06.txt", 1950, &noon2000());
    assert_eq!(r, Err(DateError::AncientDate));
}

#[test]
fn invalid_month_match_reports_its_reason() {
    let r = get_date_from_name("1959-19-12.txt", 1950, &noon2000());
    assert_eq!(r, Err(DateError::InvalidMonth));
}

#[test]
fn scan_continues_past_rejected_match() {
    let r = get_date_from_name("1920-05-06 1959-03-12.txt", 1950, &noon2000());
    assert_eq!(r, Ok(dt(1959, 3, 12, 0, 0, 1)));
}

#[test]
fn match_may_start_inside_a_digit_run() {
    let r = get_date_from_name("11959-03-12.txt", 1950, &noon2000());
    assert_eq!(r, Ok(dt(1959, 3, 12, 0, 0, 1)));
}

#[test]
fn month_shape_is_checked_by_the_pattern() {
    // a first month digit above 1 is no match at all, not an invalid month
    let r = get_date_from_name("1959-23-12.txt", 1950, &noon2000());
    assert_eq!(r, Err(DateError::PatternMismatch));
}

#[test]
fn rejected_match_consumes_its_whole_span() {
    // the leftmost hyphen match (1111-13-19) is rejected and scanning
    // resumes past it, so the valid date overlapping its tail is never
    // seen; the last match's rejection is what comes back
    let r = get_date_from_name("1111-13-1959-03-12", 1950, &noon2000());
    assert_eq!(r, Err(DateError::InvalidMonth));
}

#[test]
fn future_embedded_date_is_rejected() {
    let r = get_date_from_name("2015-03-12.txt", 1950, &noon2000());
    assert_eq!(r, Err(DateError::FutureDate));
}

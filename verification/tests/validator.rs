use datesort::{parse_time, DateError, DateTime};

fn dt(year: i32, month: u8, day: u8, hour: u8, minute: u8, second: u8) -> DateTime {
    DateTime { year, month, day, hour, minute, second }
}

fn noon2000() -> DateTime {
    dt(2000, 6, 15, 12, 0, 0)
}

#[test]
fn validator_accepts_valid_date() {
    assert_eq!(parse_time(1959, 3, 12, 1950, &noon2000()), Ok(dt(1959, 3, 12, 0, 0, 1)));
}

#[test]
fn validator_fixes_time_of_day() {
    let r = parse_time(1999, 12, 31, 1950, &noon2000()).unwrap();
    assert_eq!((r.hour, r.minute, r.second), (0, 0, 1));
}

#[test]
fn validator_rejects_month_zero() {
    assert_eq!(parse_time(1959, 0, 12, 1950, &noon2000()), Err(DateError::InvalidMonth));
}

#[test]
fn validator_rejects_month_thirteen() {
    assert_eq!(parse_time(1959, 13, 12, 1950, &noon2000()), Err(DateError::InvalidMonth));
}

#[test]
fn validator_rejects_day_zero() {
    assert_eq!(parse_time(1959, 3, 0, 1950, &noon2000()), Err(DateError::InvalidDay));
}

#[test]
fn validator_rejects_day_over_coarse_range() {
    assert_eq!(parse_time(1959, 3, 32, 1950, &noon2000()), Err(DateError::InvalidDay));
}

#[test]
fn validator_rejects_ancient_year() {
    assert_eq!(parse_time(1920, 3, 12, 1950, &noon2000()), Err(DateError::AncientDate));
}

#[test]
fn validator_rejects_unreal_calendar_day() {
    assert_eq!(parse_time(2001, 2, 30, 1950, &noon2000()), Err(DateError::InvalidDate));
    assert_eq!(parse_time(1999, 4, 31, 1950, &noon2000()), Err(DateError::InvalidDate));
}

#[test]
fn validator_leap_year_rules() {
    let now = dt(2200, 1, 1, 0, 0, 0);
    assert_eq!(parse_time(2000, 2, 29, 1800, &now), Ok(dt(2000, 2, 29, 0, 0, 1)));
    assert_eq!(parse_time(1996, 2, 29, 1800, &now), Ok(dt(1996, 2, 29, 0, 0, 1)));
    assert_eq!(parse_time(1900, 2, 29, 1800, &now), Err(DateError::InvalidDate));
    assert_eq!(parse_time(2100, 2, 29, 1800, &now), Err(DateError::InvalidDate));
    assert_eq!(parse_time(1997, 2, 29, 1800, &now), Err(DateError::InvalidDate));
}

#[test]
fn validator_rejects_future_date() {
    assert_eq!(parse_time(2001, 1, 1, 1950, &noon2000()), Err(DateError::FutureDate));
}

#[test]
fn validator_future_boundary_is_one_second_past_midnight() {
    // the candidate is fixed at 00:00:01, so a "now" at midnight of the
    // same day lies before it, while a "now" at that very second does not
    let midnight = dt(2000, 6, 15, 0, 0, 0);
    assert_eq!(parse_time(2000, 6, 15, 1950, &midnight), Err(DateError::FutureDate));
    let just_past = dt(2000, 6, 15, 0, 0, 1);
    assert_eq!(parse_time(2000, 6, 15, 1950, &just_past), Ok(dt(2000, 6, 15, 0, 0, 1)));
}

#[test]
fn validator_error_precedence() {
    // month is checked before day, day before the year floor, and the year
    // floor before the exact calendar check
    assert_eq!(parse_time(1000, 13, 40, 1950, &noon2000()), Err(DateError::InvalidMonth));
    assert_eq!(parse_time(1000, 12, 40, 1950, &noon2000()), Err(DateError::InvalidDay));
    assert_eq!(parse_time(1900, 2, 30, 1950, &noon2000()), Err(DateError::AncientDate));
}

#[test]
fn error_messages() {
    assert_eq!(DateError::ParseError.message(), "Could not parse a number");
    assert_eq!(DateError::InvalidDate.message(), "Invalid date");
    assert_eq!(DateError::InvalidDay.message(), "Invalid day");
    assert_eq!(DateError::InvalidMonth.message(), "Invalid month");
    assert_eq!(DateError::AncientDate.message(), "Year is too ancient");
    assert_eq!(DateError::FutureDate.message(), "Future date");
    assert_eq!(DateError::PatternMismatch.message(), "Date pattern not found");
    assert_eq!(DateError::InvalidMetadata.message(), "Metadata not found");
    assert_eq!(DateError::IoError.message(), "Input/output error");
    assert_eq!(DateError::NotUsed.message(), "This date should not be used");
}

use datesort::{resolve_date, DateError, DateTime, Extraction};

fn dt(year: i32, month: u8, day: u8, hour: u8, minute: u8, second: u8) -> DateTime {
    DateTime { year, month, day, hour, minute, second }
}

#[test]
fn both_found_takes_the_earlier() {
    let older = dt(1959, 3, 12, 0, 0, 1);
    let newer = dt(1970, 1, 1, 8, 30, 0);
    assert_eq!(resolve_date(Extraction::Found(older), Extraction::Found(newer)), Ok(older));
    assert_eq!(resolve_date(Extraction::Found(newer), Extraction::Found(older)), Ok(older));
}

#[test]
fn both_found_same_day_compares_time_of_day() {
    let at_noon = dt(1959, 3, 12, 12, 0, 0);
    let at_dawn = dt(1959, 3, 12, 5, 0, 0);
    assert_eq!(resolve_date(Extraction::Found(at_noon), Extraction::Found(at_dawn)), Ok(at_dawn));
}

#[test]
fn equal_dates_resolve_to_that_date() {
    let d = dt(1984, 6, 1, 0, 0, 1);
    assert_eq!(resolve_date(Extraction::Found(d), Extraction::Found(d)), Ok(d));
}

#[test]
fn one_source_failing_takes_the_other_unchanged() {
    let d = dt(1959, 3, 12, 14, 30, 5);
    assert_eq!(
        resolve_date(Extraction::Found(d), Extraction::Failed(DateError::InvalidMetadata)),
        Ok(d)
    );
    assert_eq!(
        resolve_date(Extraction::Failed(DateError::PatternMismatch), Extraction::Found(d)),
        Ok(d)
    );
}

#[test]
fn unattempted_source_takes_the_other_unchanged() {
    let d = dt(1959, 3, 12, 0, 0, 1);
    assert_eq!(resolve_date(Extraction::Found(d), Extraction::NotAttempted), Ok(d));
    assert_eq!(resolve_date(Extraction::NotAttempted, Extraction::Found(d)), Ok(d));
}

#[test]
fn both_failed_propagates_the_name_error() {
    assert_eq!(
        resolve_date(
            Extraction::Failed(DateError::AncientDate),
            Extraction::Failed(DateError::InvalidMetadata)
        ),
        Err(DateError::AncientDate)
    );
}

#[test]
fn name_failed_metadata_unattempted_keeps_the_name_error() {
    assert_eq!(
        resolve_date(Extraction::Failed(DateError::AncientDate), Extraction::NotAttempted),
        Err(DateError::AncientDate)
    );
}

#[test]
fn metadata_failed_name_unattempted_keeps_the_metadata_error() {
    assert_eq!(
        resolve_date(Extraction::NotAttempted, Extraction::Failed(DateError::InvalidMetadata)),
        Err(DateError::InvalidMetadata)
    );
}

#[test]
fn neither_attempted_is_a_configuration_error() {
    assert_eq!(
        resolve_date(Extraction::NotAttempted, Extraction::NotAttempted),
        Err(DateError::NotUsed)
    );
}

use godsaeng_backend::date::{parse_event_date, EventDate};
use godsaeng_backend::error::ErrorKind;

fn date(year: i32, month: u32, day: u32) -> Result<EventDate, ErrorKind> {
    Ok(EventDate { year, month, day })
}

#[test]
fn plain_literal_is_read() {
    assert_eq!(parse_event_date("2022-01-01"), date(2022, 1, 1));
    assert_eq!(parse_event_date("2023-01-01"), date(2023, 1, 1));
    assert_eq!(parse_event_date("1999-12-31"), date(1999, 12, 31));
}

#[test]
fn month_thirteen_is_a_validation_error() {
    assert_eq!(parse_event_date("2022-13-99"), Err(ErrorKind::ValidationError));
    assert_eq!(parse_event_date("2022-13-01"), Err(ErrorKind::ValidationError));
    assert_eq!(parse_event_date("2022-12-32"), Err(ErrorKind::ValidationError));
}

#[test]
fn wrong_field_count_is_a_validation_error() {
    assert_eq!(parse_event_date(""), Err(ErrorKind::ValidationError));
    assert_eq!(parse_event_date("2022"), Err(ErrorKind::ValidationError));
    assert_eq!(parse_event_date("2022-01"), Err(ErrorKind::ValidationError));
    assert_eq!(parse_event_date("2022-01-01-01"), Err(ErrorKind::ValidationError));
    assert_eq!(parse_event_date("2022-01-01-"), Err(ErrorKind::ValidationError));
    assert_eq!(parse_event_date("-2022-01-01"), Err(ErrorKind::ValidationError));
    assert_eq!(parse_event_date("--"), Err(ErrorKind::ValidationError));
}

#[test]
fn non_numeric_field_is_a_validation_error() {
    assert_eq!(parse_event_date("2022-ab-01"), Err(ErrorKind::ValidationError));
    assert_eq!(parse_event_date("20x2-01-01"), Err(ErrorKind::ValidationError));
    assert_eq!(parse_event_date("2022-01-1 "), Err(ErrorKind::ValidationError));
    assert_eq!(parse_event_date("2022--01"), Err(ErrorKind::ValidationError));
    assert_eq!(parse_event_date("2022-+-01"), Err(ErrorKind::ValidationError));
    assert_eq!(parse_event_date("2022-0+1-01"), Err(ErrorKind::ValidationError));
    assert_eq!(parse_event_date("2022/01/01"), Err(ErrorKind::ValidationError));
    assert_eq!(parse_event_date("２０２２-01-01"), Err(ErrorKind::ValidationError));
}

#[test]
fn short_and_signed_fields_are_numbers() {
    assert_eq!(parse_event_date("2022-1-1"), date(2022, 1, 1));
    assert_eq!(parse_event_date("+2022-+1-+1"), date(2022, 1, 1));
    assert_eq!(parse_event_date("0002022-001-0001"), date(2022, 1, 1));
    assert_eq!(parse_event_date("0-1-1"), date(0, 1, 1));
}

#[test]
fn leap_days_follow_the_gregorian_rule() {
    assert_eq!(parse_event_date("2024-02-29"), date(2024, 2, 29));
    assert_eq!(parse_event_date("2000-02-29"), date(2000, 2, 29));
    assert_eq!(parse_event_date("2023-02-29"), Err(ErrorKind::ValidationError));
    assert_eq!(parse_event_date("1900-02-29"), Err(ErrorKind::ValidationError));
    assert_eq!(parse_event_date("2024-02-30"), Err(ErrorKind::ValidationError));
}

#[test]
fn month_lengths_are_checked() {
    assert_eq!(parse_event_date("2022-04-30"), date(2022, 4, 30));
    assert_eq!(parse_event_date("2022-04-31"), Err(ErrorKind::ValidationError));
    assert_eq!(parse_event_date("2022-01-31"), date(2022, 1, 31));
    assert_eq!(parse_event_date("2022-00-10"), Err(ErrorKind::ValidationError));
    assert_eq!(parse_event_date("2022-10-00"), Err(ErrorKind::ValidationError));
}

#[test]
fn years_beyond_the_range_are_rejected() {
    assert_eq!(parse_event_date("262142-12-31"), date(262142, 12, 31));
    assert_eq!(parse_event_date("262143-01-01"), Err(ErrorKind::ValidationError));
    assert_eq!(parse_event_date("999999-01-01"), Err(ErrorKind::ValidationError));
    assert_eq!(parse_event_date("1000000-01-01"), Err(ErrorKind::ValidationError));
    assert_eq!(
        parse_event_date("99999999999999999999999999-01-01"),
        Err(ErrorKind::ValidationError)
    );
    assert_eq!(
        parse_event_date("2022-01-99999999999999999999999999"),
        Err(ErrorKind::ValidationError)
    );
}

#[test]
fn new_date_exists_only_for_real_days() {
    assert_eq!(EventDate::new(2015, 3, 14), Some(EventDate { year: 2015, month: 3, day: 14 }));
    assert_eq!(EventDate::new(2015, 0, 14), None);
    assert_eq!(EventDate::new(2015, 2, 29), None);
    assert_eq!(EventDate::new(-4, 2, 29), Some(EventDate { year: -4, month: 2, day: 29 }));
    assert_eq!(EventDate::new(400000, 1, 1), None);
    assert_eq!(EventDate::new(-400000, 1, 1), None);
    assert_eq!(EventDate::new(-262143, 1, 1), Some(EventDate { year: -262143, month: 1, day: 1 }));
    assert_eq!(EventDate::new(-262144, 12, 31), None);
}

#[test]
fn every_kind_has_its_status_and_message() {
    assert_eq!(ErrorKind::DuplicateName.status_code(), 400);
    assert_eq!(ErrorKind::NotFound.status_code(), 400);
    assert_eq!(ErrorKind::ValidationError.status_code(), 400);
    assert_eq!(ErrorKind::Unauthenticated.status_code(), 401);
    assert_eq!(ErrorKind::InvalidCredentials.status_code(), 401);
    assert_eq!(ErrorKind::Forbidden.status_code(), 401);
    assert_eq!(ErrorKind::InternalError.status_code(), 500);
    assert_eq!(ErrorKind::DuplicateName.message(), "Name is already exist");
    assert_eq!(ErrorKind::InvalidCredentials.message(), "Authentication failed");
    assert_eq!(ErrorKind::InternalError.message(), "Unintended Error");
    assert_ne!(ErrorKind::Forbidden.message(), ErrorKind::Unauthenticated.message());
}

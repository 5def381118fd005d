use chess_ingest::errors::IngestError;
use chess_ingest::months::CalendarMonth;
use chess_ingest::months::month_string_to_date;

#[test]
fn valid_month_round_trips() {
    let m = month_string_to_date("2023/05").unwrap();
    assert_eq!(m, CalendarMonth { year: 2023, month: 5 });
    let m = month_string_to_date("1999/12").unwrap();
    assert_eq!(m, CalendarMonth { year: 1999, month: 12 });
    let m = month_string_to_date("2024/01").unwrap();
    assert_eq!(m, CalendarMonth { year: 2024, month: 1 });
}

#[test]
fn too_short_string_is_invalid_date_format() {
    assert!(matches!(
        month_string_to_date("202"),
        Err(IngestError::InvalidDateFormat(_))
    ));
    assert!(matches!(
        month_string_to_date(""),
        Err(IngestError::InvalidDateFormat(_))
    ));
}

#[test]
fn wrong_separator_is_invalid_date_format() {
    assert!(matches!(
        month_string_to_date("2023-05"),
        Err(IngestError::InvalidDateFormat(_))
    ));
    assert!(matches!(
        month_string_to_date("20230501"),
        Err(IngestError::InvalidDateFormat(_))
    ));
}

#[test]
fn unparseable_validated_string_is_invalid_date_format() {
    assert!(matches!(
        month_string_to_date("abcd/ef"),
        Err(IngestError::InvalidDateFormat(_))
    ));
}

#[test]
fn out_of_range_month_number_is_invalid_date_format() {
    assert!(matches!(
        month_string_to_date("2023/13"),
        Err(IngestError::InvalidDateFormat(_))
    ));
    assert!(matches!(
        month_string_to_date("2023/00"),
        Err(IngestError::InvalidDateFormat(_))
    ));
}

#[test]
fn single_digit_month_is_accepted_by_the_generic_parser() {
    let m = month_string_to_date("2023/5").unwrap();
    assert_eq!(m, CalendarMonth { year: 2023, month: 5 });
}

#[test]
fn month_ordering_is_year_then_month() {
    let a = CalendarMonth { year: 2022, month: 12 };
    let b = CalendarMonth { year: 2023, month: 1 };
    assert!(a.le(&b));
    assert!(a.lt(&b));
    assert!(!b.le(&a));
    let c = CalendarMonth { year: 2023, month: 1 };
    assert!(b.le(&c));
    assert!(!b.lt(&c));
}

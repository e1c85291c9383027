//! Date parsing in the two accepted formats, and date formatting.

use mlbstats::client::option_date_to_string;
use mlbstats::dates::{try_convert_date_string, CalendarDate};
use mlbstats::error::CLIError;

#[test]
fn both_formats_parse_to_the_same_date() {
    let iso = try_convert_date_string(Some("2022-04-12".to_string())).unwrap();
    let us = try_convert_date_string(Some("04-12-2022".to_string())).unwrap();
    assert_eq!(iso, Some(CalendarDate { year: 2022, month: 4, day: 12 }));
    assert_eq!(iso, us);
}

#[test]
fn bad_date_fails() {
    let r = try_convert_date_string(Some("13-45-2022".to_string()));
    assert!(matches!(r, Err(CLIError::DateParseError)));
}

#[test]
fn no_date_is_no_date() {
    assert_eq!(try_convert_date_string(None).unwrap(), None);
}

#[test]
fn calendar_validity() {
    // a leap day exists only in a leap year
    assert!(try_convert_date_string(Some("2024-02-29".to_string())).is_ok());
    assert!(try_convert_date_string(Some("2023-02-29".to_string())).is_err());
    // April has thirty days
    assert!(try_convert_date_string(Some("2022-04-30".to_string())).is_ok());
    assert!(try_convert_date_string(Some("2022-04-31".to_string())).is_err());
    // a century year is a leap year only every fourth century
    assert!(try_convert_date_string(Some("2000-02-29".to_string())).is_ok());
    assert!(try_convert_date_string(Some("1900-02-29".to_string())).is_err());
    // neither shape
    assert!(try_convert_date_string(Some("2022/04/12".to_string())).is_err());
    assert!(try_convert_date_string(Some("20220412".to_string())).is_err());
}

#[test]
fn date_formatting_pads_month_and_day() {
    let d = CalendarDate { year: 2022, month: 4, day: 2 };
    assert_eq!(option_date_to_string(Some(d)).as_deref(), Some("04/02/2022"));
    let d = CalendarDate { year: 2022, month: 11, day: 30 };
    assert_eq!(option_date_to_string(Some(d)).as_deref(), Some("11/30/2022"));
    assert_eq!(option_date_to_string(None), None);
}

//! Calendar dates as plain numbers, and the parsing of user-facing
//! date strings.  Two fixed formats are accepted: `YYYY-MM-DD` (tried
//! first) and `MM-DD-YYYY`; the date must also exist in the Gregorian
//! calendar.

use vstd::prelude::*;

use crate::error::CLIError;

verus! {

/// A calendar date as plain numbers.
#[derive(Clone, Copy, PartialEq, Eq, Structural, Debug, Hash)]
pub struct CalendarDate {
    pub year: u32,
    pub month: u32,
    pub day: u32,
}

/// True for Gregorian leap years.
pub open spec fn is_leap_year(y: int) -> bool {
    y % 4 == 0 && (y % 100 != 0 || y % 400 == 0)
}

/// The number of days in a month of a year.
pub open spec fn days_in_month(y: int, m: int) -> int {
    if m == 2 {
        if is_leap_year(y) {
            29
        } else {
            28
        }
    } else if m == 4 || m == 6 || m == 9 || m == 11 {
        30
    } else {
        31
    }
}

/// True when the three numbers name a real date with a four-digit year.
pub open spec fn valid_ymd(y: int, m: int, d: int) -> bool {
    0 <= y <= 9999 && 1 <= m <= 12 && 1 <= d <= days_in_month(y, m)
}

impl CalendarDate {
    /// The date names a real day of the Gregorian calendar.
    pub open spec fn wf(self) -> bool {
        valid_ymd(self.year as int, self.month as int, self.day as int)
    }
}

/// True for the ASCII decimal digits.
pub open spec fn is_digit(c: char) -> bool {
    48 <= c as int && c as int <= 57
}

/// The value of one decimal digit character.
pub open spec fn digit_val(c: char) -> int {
    c as int - 48
}

/// The value of two digit characters starting at `i`.
pub open spec fn num2(s: Seq<char>, i: int) -> int {
    10 * digit_val(s[i]) + digit_val(s[i + 1])
}

/// The value of four digit characters starting at `i`.
pub open spec fn num4(s: Seq<char>, i: int) -> int {
    1000 * digit_val(s[i]) + 100 * digit_val(s[i + 1]) + 10 * digit_val(s[i + 2]) + digit_val(
        s[i + 3],
    )
}

/// The shape `YYYY-MM-DD`: ten characters, digits and two dashes.
pub open spec fn iso_shape(s: Seq<char>) -> bool {
    s.len() == 10 && is_digit(s[0]) && is_digit(s[1]) && is_digit(s[2]) && is_digit(s[3]) && s[4]
        == '-' && is_digit(s[5]) && is_digit(s[6]) && s[7] == '-' && is_digit(s[8]) && is_digit(
        s[9],
    )
}

/// The shape `MM-DD-YYYY`: ten characters, digits and two dashes.
pub open spec fn us_shape(s: Seq<char>) -> bool {
    s.len() == 10 && is_digit(s[0]) && is_digit(s[1]) && s[2] == '-' && is_digit(s[3]) && is_digit(
        s[4],
    ) && s[5] == '-' && is_digit(s[6]) && is_digit(s[7]) && is_digit(s[8]) && is_digit(s[9])
}

/// The date a string names: the ISO shape is tried first, then the
/// US shape; in either case the date must exist in the calendar.
pub open spec fn parse_date(s: Seq<char>) -> Option<CalendarDate> {
    if iso_shape(s) && valid_ymd(num4(s, 0), num2(s, 5), num2(s, 8)) {
        Some(
            CalendarDate {
                year: num4(s, 0) as u32,
                month: num2(s, 5) as u32,
                day: num2(s, 8) as u32,
            },
        )
    } else if us_shape(s) && valid_ymd(num4(s, 6), num2(s, 0), num2(s, 3)) {
        Some(
            CalendarDate {
                year: num4(s, 6) as u32,
                month: num2(s, 0) as u32,
                day: num2(s, 3) as u32,
            },
        )
    } else {
        None
    }
}

/// Law: a date that parses is a real calendar date.
pub proof fn lemma_parse_date_wf(s: Seq<char>)
    ensures
        parse_date(s) matches Some(d) ==> d.wf(),
{
}

/// Reads one digit character, if it is one.
fn read_digit(s: &str, i: usize) -> (r: Option<u32>)
    requires
        i < s@.len(),
    ensures
        match r {
            Some(v) => is_digit(s@[i as int]) && v == digit_val(s@[i as int]),
            None => !is_digit(s@[i as int]),
        },
{
    let c = s.get_char(i);
    let u = c as u32;
    if 48 <= u && u <= 57 {
        Some(u - 48)
    } else {
        None
    }
}

/// True when the character at `i` is a dash.
fn is_dash(s: &str, i: usize) -> (r: bool)
    requires
        i < s@.len(),
    ensures
        r == (s@[i as int] == '-'),
{
    s.get_char(i) == '-'
}

/// Checks that a year, month and day name a real calendar date.
fn check_ymd(y: u32, m: u32, d: u32) -> (r: bool)
    ensures
        r == valid_ymd(y as int, m as int, d as int),
{
    if y > 9999 || m < 1 || m > 12 || d < 1 {
        return false;
    }
    let dim: u32 = if m == 2 {
        if y % 4 == 0 && (y % 100 != 0 || y % 400 == 0) {
            29
        } else {
            28
        }
    } else if m == 4 || m == 6 || m == 9 || m == 11 {
        30
    } else {
        31
    };
    d <= dim
}

/// Reads two digits starting at `i`.
fn read_num2(s: &str, i: usize) -> (r: Option<u32>)
    requires
        s@.len() == 10,
        i + 1 < s@.len(),
    ensures
        match r {
            Some(v) => is_digit(s@[i as int]) && is_digit(s@[i as int + 1]) && v == num2(
                s@,
                i as int,
            ),
            None => !(is_digit(s@[i as int]) && is_digit(s@[i as int + 1])),
        },
{
    match (read_digit(s, i), read_digit(s, i + 1)) {
        (Some(a), Some(b)) => Some(10 * a + b),
        _ => None,
    }
}

/// Reads four digits starting at `i`.
fn read_num4(s: &str, i: usize) -> (r: Option<u32>)
    requires
        s@.len() == 10,
        i + 3 < s@.len(),
    ensures
        match r {
            Some(v) => is_digit(s@[i as int]) && is_digit(s@[i as int + 1]) && is_digit(
                s@[i as int + 2],
            ) && is_digit(s@[i as int + 3]) && v == num4(s@, i as int),
            None => !(is_digit(s@[i as int]) && is_digit(s@[i as int + 1]) && is_digit(
                s@[i as int + 2],
            ) && is_digit(s@[i as int + 3])),
        },
{
    match (read_digit(s, i), read_digit(s, i + 1), read_digit(s, i + 2), read_digit(s, i + 3)) {
        (Some(a), Some(b), Some(c), Some(d)) => Some(1000 * a + 100 * b + 10 * c + d),
        _ => None,
    }
}

/// Parses one date string in the ISO shape `YYYY-MM-DD`.
fn parse_iso(s: &str) -> (r: Option<CalendarDate>)
    ensures
        match r {
            Some(d) => iso_shape(s@) && valid_ymd(num4(s@, 0), num2(s@, 5), num2(s@, 8)) && d == (
            CalendarDate {
                year: num4(s@, 0) as u32,
                month: num2(s@, 5) as u32,
                day: num2(s@, 8) as u32,
            }),
            None => !(iso_shape(s@) && valid_ymd(num4(s@, 0), num2(s@, 5), num2(s@, 8))),
        },
{
    if s.unicode_len() != 10 {
        return None;
    }
    if !is_dash(s, 4) || !is_dash(s, 7) {
        return None;
    }
    let y = read_num4(s, 0);
    let m = read_num2(s, 5);
    let d = read_num2(s, 8);
    match (y, m, d) {
        (Some(y), Some(m), Some(d)) => {
            if check_ymd(y, m, d) {
                Some(CalendarDate { year: y, month: m, day: d })
            } else {
                None
            }
        },
        _ => None,
    }
}

/// Parses one date string in the US shape `MM-DD-YYYY`.
fn parse_us(s: &str) -> (r: Option<CalendarDate>)
    ensures
        match r {
            Some(d) => us_shape(s@) && valid_ymd(num4(s@, 6), num2(s@, 0), num2(s@, 3)) && d == (
            CalendarDate {
                year: num4(s@, 6) as u32,
                month: num2(s@, 0) as u32,
                day: num2(s@, 3) as u32,
            }),
            None => !(us_shape(s@) && valid_ymd(num4(s@, 6), num2(s@, 0), num2(s@, 3))),
        },
{
    if s.unicode_len() != 10 {
        return None;
    }
    if !is_dash(s, 2) || !is_dash(s, 5) {
        return None;
    }
    let m = read_num2(s, 0);
    let d = read_num2(s, 3);
    let y = read_num4(s, 6);
    match (y, m, d) {
        (Some(y), Some(m), Some(d)) => {
            if check_ymd(y, m, d) {
                Some(CalendarDate { year: y, month: m, day: d })
            } else {
                None
            }
        },
        _ => None,
    }
}

/// Converts an optional date string to an optional calendar date.
/// The string may be in `YYYY-MM-DD` (tried first) or `MM-DD-YYYY`
/// form; anything else is a `DateParseError`.
pub fn try_convert_date_string(date: Option<String>) -> (r: Result<Option<CalendarDate>, CLIError>)
    ensures
        match date {
            None => r == Ok::<Option<CalendarDate>, CLIError>(None),
            Some(s) => match parse_date(s@) {
                Some(d) => r == Ok::<Option<CalendarDate>, CLIError>(Some(d)),
                None => r == Err::<Option<CalendarDate>, CLIError>(CLIError::DateParseError),
            },
        },
{
    let date = match date {
        None => {
            return Ok(None);
        },
        Some(d) => d,
    };
    if let Some(d) = parse_iso(date.as_str()) {
        return Ok(Some(d));
    }
    if let Some(d) = parse_us(date.as_str()) {
        return Ok(Some(d));
    }
    Err(CLIError::DateParseError)
}

} // verus!

use vstd::prelude::*;

use crate::errors::IngestError;

verus! {

/// A calendar month: year plus month number, day and time irrelevant.
///
/// This is the comparable value that the archive resolver filters on;
/// months are ordered by year first, then by month number.
#[derive(Debug, Clone, Copy, PartialEq, Eq, Structural)]
pub struct CalendarMonth {
    pub year: i32,
    pub month: u32,
}

impl CalendarMonth {
    /// A well-formed value holds a real month number.
    pub open spec fn wf(self) -> bool {
        1 <= self.month <= 12
    }

    /// Chronological order: year first, then month number.
    pub open spec fn spec_le(self, other: CalendarMonth) -> bool {
        self.year < other.year || (self.year == other.year && self.month <= other.month)
    }

    pub open spec fn spec_lt(self, other: CalendarMonth) -> bool {
        self.year < other.year || (self.year == other.year && self.month < other.month)
    }

    pub fn le(&self, other: &CalendarMonth) -> (r: bool)
        ensures
            r == self.spec_le(*other),
    {
        self.year < other.year || (self.year == other.year && self.month <= other.month)
    }

    pub fn lt(&self, other: &CalendarMonth) -> (r: bool)
        ensures
            r == self.spec_lt(*other),
    {
        self.year < other.year || (self.year == other.year && self.month < other.month)
    }
}

pub open spec fn is_digit_char(c: char) -> bool {
    '0' <= c && c <= '9'
}

pub open spec fn digit_val(c: char) -> int {
    c as u32 - '0' as u32
}

/// The format a month string must pass before any date parsing is tried:
/// at least five characters, with a slash separator at index four.
pub open spec fn month_format_ok(s: Seq<char>) -> bool {
    s.len() >= 5 && s[4] == '/'
}

/// A strict `YYYY/MM` month string: four year digits, the slash separator,
/// and two month digits naming a real month.
pub open spec fn is_month_string(s: Seq<char>) -> bool {
    &&& s.len() == 7
    &&& is_digit_char(s[0]) && is_digit_char(s[1]) && is_digit_char(s[2]) && is_digit_char(s[3])
    &&& s[4] == '/'
    &&& is_digit_char(s[5]) && is_digit_char(s[6])
    &&& 1 <= month_value(s) <= 12
}

pub open spec fn year_value(s: Seq<char>) -> int {
    digit_val(s[0]) * 1000 + digit_val(s[1]) * 100 + digit_val(s[2]) * 10 + digit_val(s[3])
}

pub open spec fn month_value(s: Seq<char>) -> int {
    digit_val(s[5]) * 10 + digit_val(s[6])
}

/// The month spelled by `a` lies strictly before the month spelled by
/// `b`, comparing years first, then month numbers.
pub open spec fn month_text_lt(a: Seq<char>, b: Seq<char>) -> bool {
    year_value(a) < year_value(b) || (year_value(a) == year_value(b) && month_value(a)
        < month_value(b))
}

/// A `YYYY/MM` month string with the synthetic day 27 appended.
///
/// The day is arbitrary; any fixed mid-month day works, because a shift of
/// less than one day around day 27 can never cross a month boundary.
pub open spec fn is_month_day27_string(s: Seq<char>) -> bool {
    s.len() == 10 && is_month_string(s.take(7)) && s[7] == '/' && s[8] == '2' && s[9] == '7'
}

/// Relies on dateparser::parse_with_timezone with the UTC time zone.
/// A `YYYY/MM/27` string reaches only its slash-separated year/month/day
/// format, which reads the three numbers with chrono's NaiveDate and fills
/// in the current UTC time of day; the calendar year and month of the
/// result therefore equal the digits of the string whatever the time of
/// day is. chrono documents that Datelike::month is always 1 to 12.
#[verifier::external_body]
pub(crate) fn parse_date_utc(s: &str) -> (r: Result<(i32, u32), String>)
    ensures
        r matches Err(e) ==> !is_month_day27_string(s@),
        r matches Ok(ym) ==> 1 <= ym.1 <= 12 && (is_month_day27_string(s@) ==> ym.0 == year_value(s@.take(7)) && ym.1 == month_value(s@.take(7))),
{
    match dateparser::parse_with_timezone(s, &chrono::Utc) {
        Ok(dt) => Ok((chrono::Datelike::year(&dt), chrono::Datelike::month(&dt))),
        Err(e) => Err(e.to_string()),
    }
}

/// Parses a `YYYY/MM` month string into a calendar month.
///
/// The string must be at least five characters with a slash at index four;
/// a string failing that is rejected as `InvalidDateFormat` without any
/// date parsing. A string passing the format check is handed, with the
/// synthetic day appended, to the generic date parser, whose failure is
/// also surfaced as `InvalidDateFormat` with the parser message attached.
pub fn month_string_to_date(string: &str) -> (r: Result<CalendarMonth, IngestError>)
    ensures
        !month_format_ok(string@) ==> r matches Err(IngestError::InvalidDateFormat(_)),
        is_month_string(string@) ==> (r matches Ok(m) && m.year == year_value(string@) && m.month == month_value(string@)),
        r matches Ok(m) ==> m.wf(),
        r matches Err(e) ==> e matches IngestError::InvalidDateFormat(_),
{
    let n = string.unicode_len();
    if n < 5 || string.get_char(4) != '/' {
        return Err(IngestError::InvalidDateFormat(String::from_str(
            "expected a month string of the form YYYY/MM",
        )));
    }
    let mut with_day = string.to_owned();
    with_day.append("/27");
    proof {
        reveal_strlit("/27");
        if is_month_string(string@) {
            assert(with_day@.take(7) =~= string@);
        }
    }
    match parse_date_utc(with_day.as_str()) {
        Ok((y, m)) => Ok(CalendarMonth { year: y, month: m }),
        Err(msg) => Err(IngestError::InvalidDateFormat(msg)),
    }
}

} // verus!

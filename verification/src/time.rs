//! Instants and calendar dates as plain values, and the parsing of the
//! `RUSTUP_TUF_IGNOREDATE` setting. Parsing and formatting are chrono's.

use vstd::prelude::*;
use chrono::Datelike;

verus! {

/// An instant in UTC: whole seconds since the Unix epoch and the nanoseconds
/// past that second (chrono's `timestamp` and `timestamp_subsec_nanos`).
#[derive(Clone, Copy, Debug, PartialEq, Eq, Structural)]
pub struct UtcInstant {
    pub secs: i64,
    pub nanos: u32,
}

/// A proleptic Gregorian calendar date.
#[derive(Clone, Copy, Debug, PartialEq, Eq, Structural)]
pub struct CalendarDate {
    pub year: i32,
    pub month: u32,
    pub day: u32,
}

/// `a` lies strictly after `b` (chrono orders instants by seconds, then nanoseconds).
pub open spec fn is_after(a: UtcInstant, b: UtcInstant) -> bool {
    a.secs > b.secs || (a.secs == b.secs && a.nanos > b.nanos)
}

/// Whether `a` lies strictly after `b`.
pub fn later_than(a: &UtcInstant, b: &UtcInstant) -> (r: bool)
    ensures
        r == is_after(*a, *b),
{
    a.secs > b.secs || (a.secs == b.secs && a.nanos > b.nanos)
}

/// What chrono's `DateTime::parse_from_rfc3339` gives for a string, taken in
/// UTC as (seconds, nanoseconds), or `None` where it refuses the string.
pub uninterp spec fn chrono_rfc3339_instant(value: Seq<char>) -> Option<(i64, u32)>;

/// What chrono's `NaiveDate::parse_from_str` gives for a string and a format:
/// the date as (year, month, day), or the text of the `ParseError` where it
/// refuses them.
pub uninterp spec fn chrono_parse_naive_date(value: Seq<char>, fmt: Seq<char>) -> Result<
    (i32, u32, u32),
    Seq<char>,
>;

/// Whether chrono's `NaiveDate::from_ymd_opt` accepts (year, month, day) as a date.
pub uninterp spec fn chrono_ymd_is_date(year: i32, month: u32, day: u32) -> bool;

/// The Unix timestamp of midnight UTC at the start of a date, as chrono's
/// `NaiveDate::and_hms_opt(0, 0, 0)` followed by `and_utc` gives it.
pub uninterp spec fn chrono_midnight_timestamp(year: i32, month: u32, day: u32) -> i64;

pub open spec fn instant_of(p: Option<(i64, u32)>) -> Option<UtcInstant> {
    match p {
        Some((secs, nanos)) => Some(UtcInstant { secs, nanos }),
        None => None,
    }
}

pub open spec fn date_of(p: Result<(i32, u32, u32), Seq<char>>) -> Result<CalendarDate, Seq<char>> {
    match p {
        Ok((year, month, day)) => Ok(CalendarDate { year, month, day }),
        Err(e) => Err(e),
    }
}

/// The character of a decimal digit.
pub open spec fn digit_char(d: nat) -> char {
    ((48 + d) as u32) as char
}

/// The decimal digits of `n`, without leading zeros.
pub open spec fn decimal(n: nat) -> Seq<char>
    decreases n,
{
    if n < 10 {
        seq![digit_char(n)]
    } else {
        decimal(n / 10).push(digit_char(n % 10))
    }
}

/// The decimal digits of `n`, with zeros in front up to `width` characters.
pub open spec fn zero_padded(n: nat, width: nat) -> Seq<char> {
    let s = decimal(n);
    if s.len() >= width {
        s
    } else {
        Seq::new((width - s.len()) as nat, |i: int| '0') + s
    }
}

/// chrono's `%Y`: four digits at least, with a sign outside the years 0..=9999.
pub open spec fn year_text(y: int) -> Seq<char> {
    if 0 <= y <= 9999 {
        zero_padded(y as nat, 4)
    } else if y < 0 {
        seq!['-'] + zero_padded((-y) as nat, 4)
    } else {
        seq!['+'] + zero_padded(y as nat, 4)
    }
}

/// A date written in the format `%Y/%m-%d`, as in `2026/06-01`.
pub open spec fn dated_path_text(d: CalendarDate) -> Seq<char> {
    year_text(d.year as int) + seq!['/'] + zero_padded(d.month as nat, 2) + seq!['-']
        + zero_padded(d.day as nat, 2)
}

/// Calls chrono's `DateTime::parse_from_rfc3339` and takes the instant it
/// denotes in UTC; claims that the result is a function of the string.
#[verifier::external_body]
fn rfc3339_instant(value: &str) -> (r: Option<UtcInstant>)
    ensures
        r == instant_of(chrono_rfc3339_instant(value@)),
{
    match chrono::DateTime::parse_from_rfc3339(value) {
        Ok(dt) => {
            let utc = dt.with_timezone(&chrono::Utc);
            Some(UtcInstant { secs: utc.timestamp(), nanos: utc.timestamp_subsec_nanos() })
        },
        Err(_) => None,
    }
}

/// Calls chrono's `NaiveDate::parse_from_str`, with the `ParseError` taken as
/// its text; claims that the result is a function of its arguments and, as
/// chrono's documentation of `NaiveDate` says, that a date it returns has a
/// month in 1..=12 and a day in 1..=31 and is one that
/// `NaiveDate::from_ymd_opt` accepts.
#[verifier::external_body]
pub(crate) fn naive_date_parse(value: &str, fmt: &str) -> (r: Result<CalendarDate, String>)
    ensures
        match (r, date_of(chrono_parse_naive_date(value@, fmt@))) {
            (Ok(d), Ok(e)) => d == e,
            (Err(t), Err(e)) => t@ == e,
            _ => false,
        },
        r matches Ok(d) ==> 1 <= d.month <= 12 && 1 <= d.day <= 31 && chrono_ymd_is_date(
            d.year,
            d.month,
            d.day,
        ),
{
    match chrono::NaiveDate::parse_from_str(value, fmt) {
        Ok(d) => Ok(CalendarDate { year: d.year(), month: d.month(), day: d.day() }),
        Err(e) => Err(e.to_string()),
    }
}

/// Calls chrono's `NaiveDate::format` with `%Y/%m-%d` on the date that
/// `NaiveDate::from_ymd_opt` makes of `date`; claims the text that chrono's
/// `%Y`, `%m` and `%d` are documented to write (`None` where chrono has no
/// such date).
#[verifier::external_body]
pub(crate) fn naive_date_format(date: CalendarDate, fmt: &str) -> (r: Option<String>)
    requires
        fmt@ == "%Y/%m-%d"@,
    ensures
        r is Some <==> chrono_ymd_is_date(date.year, date.month, date.day),
        r matches Some(s) ==> (1 <= date.month <= 12 && 1 <= date.day <= 31 ==> s@
            == dated_path_text(date)),
{
    match chrono::NaiveDate::from_ymd_opt(date.year, date.month, date.day) {
        Some(d) => Some(d.format(fmt).to_string()),
        None => None,
    }
}

/// Calls chrono's `NaiveDate::and_hms_opt(0, 0, 0)` on the date that
/// `NaiveDate::from_ymd_opt` makes of `date`, read in UTC with `and_utc`;
/// claims the result is a function of the date with no nanoseconds.
#[verifier::external_body]
fn midnight_utc(date: CalendarDate) -> (r: Option<UtcInstant>)
    ensures
        r is Some <==> chrono_ymd_is_date(date.year, date.month, date.day),
        r matches Some(i) ==> i == (UtcInstant {
            secs: chrono_midnight_timestamp(date.year, date.month, date.day),
            nanos: 0,
        }),
{
    match chrono::NaiveDate::from_ymd_opt(date.year, date.month, date.day) {
        Some(d) => match d.and_hms_opt(0, 0, 0) {
            Some(dt) => Some(UtcInstant { secs: dt.and_utc().timestamp(), nanos: 0 }),
            None => None,
        },
        None => None,
    }
}

/// The instant that a setting such as `RUSTUP_TUF_IGNOREDATE` denotes: an
/// RFC 3339 timestamp, or else a bare `YYYY-MM-DD` date taken as midnight UTC.
pub open spec fn date_time_setting(value: Seq<char>) -> Option<UtcInstant> {
    match chrono_rfc3339_instant(value) {
        Some((secs, nanos)) => Some(UtcInstant { secs, nanos }),
        None => match chrono_parse_naive_date(value, "%Y-%m-%d"@) {
            Ok((year, month, day)) => Some(
                UtcInstant { secs: chrono_midnight_timestamp(year, month, day), nanos: 0 },
            ),
            Err(_) => None,
        },
    }
}

/// Parses either an RFC 3339 timestamp (`2026-09-16T12:00:00Z`) or a bare
/// `YYYY-MM-DD` date, which is taken as midnight UTC.
pub fn parse_date_time(value: &str) -> (r: Option<UtcInstant>)
    ensures
        r == date_time_setting(value@),
{
    match rfc3339_instant(value) {
        Some(instant) => Some(instant),
        None => match naive_date_parse(value, "%Y-%m-%d") {
            Ok(date) => midnight_utc(date),
            Err(_) => None,
        },
    }
}

} // verus!

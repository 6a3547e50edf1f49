//! Calendar dates and the local clock. Dates are plain year, month and day
//! values; turning a local wall-clock time into a Unix timestamp, and reading
//! the clock, go through chrono.
use vstd::prelude::*;

verus! {

/// A calendar date in the proleptic Gregorian calendar.
#[derive(Debug, Clone, Copy, PartialEq, Eq)]
pub struct CivilDate {
    pub year: i32,
    pub month: u32,
    pub day: u32,
}

impl CivilDate {
    /// Month and day lie in their ranges.
    pub open spec fn wf(&self) -> bool {
        1 <= self.month <= 12 && 1 <= self.day <= 31
    }
}

/// What `chrono::NaiveDate::parse_from_str(s, "%Y-%m-%d")` reads from a text,
/// as year, month and day.
pub uninterp spec fn parsed_ymd(s: Seq<char>) -> Option<(i32, u32, u32)>;

/// Relies on `chrono::NaiveDate::parse_from_str` with the format `%Y-%m-%d`:
/// the date the text spells, or `None` where it spells no valid date.
#[verifier::external_body]
pub(crate) fn parse_date(s: &str) -> (r: Option<CivilDate>)
    ensures
        r is None <==> parsed_ymd(s@) is None,
        r matches Some(d) ==> (parsed_ymd(s@) == Some((d.year, d.month, d.day)) && d.wf()),
{
    chrono::NaiveDate::parse_from_str(s, "%Y-%m-%d").ok().map(
        |d| CivilDate {
            year: chrono::Datelike::year(&d),
            month: chrono::Datelike::month(&d),
            day: chrono::Datelike::day(&d),
        },
    )
}

/// Relies on `chrono::Local::now`: the local calendar date of this moment.
#[verifier::external_body]
pub(crate) fn today() -> (r: CivilDate)
    ensures
        r.wf(),
{
    let d = chrono::Local::now().date_naive();
    CivilDate {
        year: chrono::Datelike::year(&d),
        month: chrono::Datelike::month(&d),
        day: chrono::Datelike::day(&d),
    }
}

/// Relies on `chrono::Local::now`: this moment as a Unix timestamp in seconds.
#[verifier::external_body]
pub(crate) fn now_timestamp() -> (r: i64) {
    chrono::Local::now().timestamp()
}

/// Relies on `chrono::NaiveDate::and_hms_opt` and
/// `chrono::NaiveDateTime::and_local_timezone` with `single`: the Unix
/// timestamp of a wall-clock time of the local time zone, or `None` where the
/// date or time does not exist or the local time is skipped or repeated.
#[verifier::external_body]
pub(crate) fn local_timestamp(d: CivilDate, hour: u32, min: u32, sec: u32) -> (r: Option<i64>) {
    chrono::NaiveDate::from_ymd_opt(d.year, d.month, d.day)
        .and_then(|nd| nd.and_hms_opt(hour, min, sec))
        .and_then(|t| t.and_local_timezone(chrono::Local).single())
        .map(|t| t.timestamp())
}

/// A text without an opening brace.
pub open spec fn no_brace(s: Seq<char>) -> bool {
    !s.contains('{')
}

/// Relies on `chrono::Local::now` and `chrono::DateTime::format`: this moment
/// as local date (`%Y-%m-%d`), time (`%H:%M`) and date with time
/// (`%Y-%m-%d %H:%M`); these formats print numbers, `-`, `:` and a space, so
/// no brace.
#[verifier::external_body]
pub(crate) fn now_stamps() -> (r: (String, String, String))
    ensures
        no_brace(r.0@),
        no_brace(r.1@),
        no_brace(r.2@),
{
    let now = chrono::Local::now();
    (
        now.format("%Y-%m-%d").to_string(),
        now.format("%H:%M").to_string(),
        now.format("%Y-%m-%d %H:%M").to_string(),
    )
}

/// The first second of a local calendar day.
pub fn start_of_day(d: CivilDate) -> (r: Option<i64>) {
    local_timestamp(d, 0, 0, 0)
}

/// The last second of a local calendar day.
pub fn end_of_day(d: CivilDate) -> (r: Option<i64>) {
    local_timestamp(d, 23, 59, 59)
}

} // verus!

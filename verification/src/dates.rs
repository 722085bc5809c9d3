//! Calendar-date handling for the query surface: parsing a `YYYY-MM-DD`
//! request parameter, and turning a local calendar date into the UTC
//! timestamp range its samples fall in. The calendar arithmetic itself is
//! chrono's; the library states how its results combine.

use chrono::Datelike;
use vstd::prelude::*;

verus! {

/// Seconds in one day.
pub const SECONDS_PER_DAY: i64 = 86_400;

/// A date-range query may span at most this many days.
pub const MAX_DATE_RANGE_DAYS: i64 = 365;

/// The Unix timestamp of local midnight of the calendar date `(y, m, d)`,
/// read as if the date were in UTC. The calendar computation is chrono's;
/// this name stands for its result, which depends on the date alone.
pub uninterp spec fn epoch_of_ymd(y: int, m: int, d: int) -> int;

/// The year, month and day that `YYYY-MM-DD` parsing gives a string, or
/// nothing when the string does not parse as a valid date. The parse is
/// chrono's; this name stands for its result, which depends on the string
/// alone.
pub uninterp spec fn parsed_ymd(s: Seq<char>) -> Option<(int, int, int)>;

/// Relies on chrono's `NaiveDate::from_ymd_opt` (which returns `None` on an
/// out-of-range, invalid month or invalid day date), `NaiveDate::and_hms_opt`
/// with midnight (always valid), and `NaiveDateTime::and_utc().timestamp()`
/// for the epoch value. The result depends on the date alone.
#[verifier::external_body]
pub fn local_midnight_epoch(y: i32, m: u32, d: u32) -> (r: Option<i64>)
    ensures
        r matches Some(e) ==> e == epoch_of_ymd(y as int, m as int, d as int),
        r is Some ==> 1 <= m <= 12 && 1 <= d <= 31,
{
    match chrono::NaiveDate::from_ymd_opt(y, m, d) {
        Some(date) => match date.and_hms_opt(0, 0, 0) {
            Some(midnight) => Some(midnight.and_utc().timestamp()),
            None => None,
        },
        None => None,
    }
}

/// Relies on chrono's `NaiveDate::parse_from_str` with the `%Y-%m-%d` format
/// and on `Datelike::year`, `month` (1 to 12) and `day` (1 to 31). The result
/// depends on the string alone.
#[verifier::external_body]
pub fn parse_date_ymd(s: &str) -> (r: Option<(i32, u32, u32)>)
    ensures
        (r is Some) == (parsed_ymd(s@) is Some),
        r matches Some(t) ==> parsed_ymd(s@) == Some((t.0 as int, t.1 as int, t.2 as int)),
        r matches Some(t) ==> 1 <= t.1 <= 12 && 1 <= t.2 <= 31,
{
    match chrono::NaiveDate::parse_from_str(s, "%Y-%m-%d") {
        Ok(date) => Some((date.year(), date.month(), date.day())),
        Err(_) => None,
    }
}

/// A rejected request parameter, with the words sent back to the caller.
#[derive(Clone, Debug)]
pub struct ValidationError {
    /// What was wrong.
    pub message: String,
}

impl ValidationError {
    /// A validation error with this message.
    pub fn new(message: String) -> (r: ValidationError)
        ensures
            r.message == message,
    {
        ValidationError { message }
    }
}

/// Check a `YYYY-MM-DD` request parameter: the parsed year, month and day
/// when it is a valid date, a validation error otherwise.
pub fn validate_date(date_str: &str) -> (r: Result<(i32, u32, u32), ValidationError>)
    ensures
        (r is Ok) == (parsed_ymd(date_str@) is Some),
        r matches Ok(t) ==> parsed_ymd(date_str@) == Some((t.0 as int, t.1 as int, t.2 as int)),
        r matches Err(e) ==> e.message@ == "Invalid date format (expected YYYY-MM-DD)"@,
{
    match parse_date_ymd(date_str) {
        Some(t) => Ok(t),
        None => Err(ValidationError::new("Invalid date format (expected YYYY-MM-DD)".to_owned())),
    }
}

/// The UTC timestamp range covering one local calendar date: the local
/// midnight shifted by the zone offset, and one day later. A sample belongs
/// to the date exactly when its timestamp is at least the start and below the
/// end.
pub fn utc_day_range(midnight_epoch: i64, tz_offset_seconds: i32) -> (r: (i64, i64))
    requires
        -62_000_000_000 <= midnight_epoch <= 62_000_000_000,
    ensures
        r.0 == midnight_epoch - tz_offset_seconds,
        r.1 == r.0 + SECONDS_PER_DAY,
{
    let start = midnight_epoch - tz_offset_seconds as i64;
    (start, start + SECONDS_PER_DAY)
}

/// Check the bounds of a date-range query: the number of whole days between
/// the two local midnights when the range is ascending and spans at most
/// `MAX_DATE_RANGE_DAYS` days, a validation error otherwise.
pub fn validate_date_range(start_midnight: i64, end_midnight: i64) -> (r: Result<
    i64,
    ValidationError,
>)
    requires
        -62_000_000_000 <= start_midnight <= 62_000_000_000,
        -62_000_000_000 <= end_midnight <= 62_000_000_000,
    ensures
        (r is Ok) == (start_midnight <= end_midnight && (end_midnight - start_midnight)
            / (SECONDS_PER_DAY as int) <= MAX_DATE_RANGE_DAYS),
        r matches Ok(days) ==> days == (end_midnight - start_midnight) / (SECONDS_PER_DAY as int),
{
    if end_midnight < start_midnight {
        return Err(ValidationError::new("start_date must be before end_date".to_owned()));
    }
    let days = (end_midnight - start_midnight) / SECONDS_PER_DAY;
    if days > MAX_DATE_RANGE_DAYS {
        return Err(ValidationError::new("Date range too large (max 365 days)".to_owned()));
    }
    Ok(days)
}

} // verus!

//! Trusted wrappers around the system clock.
//!
//! Time is read here and nowhere else in the crate; every function hands
//! back plain values, and the verified logic takes them as arguments.

use vstd::prelude::*;

verus! {

/// Relies on chrono's Local::now and Timelike::num_seconds_from_midnight:
/// the local wall-clock time of day in non-leap seconds since midnight,
/// which chrono keeps below 86400.
#[verifier::external_body]
pub fn local_seconds_of_day() -> (r: u32)
    ensures
        r < 86400,
{
    chrono::Timelike::num_seconds_from_midnight(&chrono::Local::now().time())
}

/// Relies on chrono's Local::now, Datelike::weekday,
/// Weekday::num_days_from_monday (0 for Monday through 6 for Sunday) and
/// Datelike::iso_week / IsoWeek::week (1 to 53): today's local weekday
/// number and ISO week number.
#[verifier::external_body]
pub fn today_weekday_and_iso_week() -> (r: (u32, u32))
    ensures
        r.0 < 7,
        1 <= r.1 <= 53,
{
    let today = chrono::DateTime::date_naive(&chrono::Local::now());
    (
        chrono::Datelike::weekday(&today).num_days_from_monday(),
        chrono::Datelike::iso_week(&today).week(),
    )
}

/// Relies on chrono's Local::now, NaiveDate::and_hms_opt,
/// NaiveDateTime::and_local_timezone and DateTime::to_rfc3339: the RFC 3339
/// text of today's local date at the given hour and minute, or None when
/// that wall-clock time does not exist in the local time zone.
#[verifier::external_body]
pub(crate) fn format_today_at(hour: u32, minute: u32) -> (r: Option<String>)
    requires
        hour < 24,
        minute < 60,
{
    let date = chrono::DateTime::date_naive(&chrono::Local::now());
    let naive = match date.and_hms_opt(hour, minute, 0) {
        Some(n) => n,
        None => return None,
    };
    match naive.and_local_timezone(chrono::Local) {
        chrono::LocalResult::Single(dt) => Some(dt.to_rfc3339()),
        chrono::LocalResult::Ambiguous(dt, _) => Some(dt.to_rfc3339()),
        chrono::LocalResult::None => None,
    }
}

} // verus!

//! Calendar dates and the clock. The calendar itself is chrono's: dates are
//! handed to it as plain numbers and come back as text.

use vstd::prelude::*;
use chrono::Datelike;

verus! {

/// A day of the calendar, by its year, month (from 1) and day of the month
/// (from 1). Not every value names a day that exists.
#[derive(Debug, Clone, Copy, PartialEq, Eq)]
pub struct CalendarDate {
    pub year: i32,
    pub month: u32,
    pub day: u32,
}

/// The text `YYYY-MM-DD` that chrono writes for the day that lies
/// `days_back` days before the given one; `None` where the given day does
/// not exist or chrono's calendar does not reach that far back.
pub uninterp spec fn date_text_before(year: int, month: int, day: int, days_back: int) -> Option<
    Seq<char>,
>;

/// Calls chrono's `NaiveDate::from_ymd_opt`, `NaiveDate::checked_sub_days` and
/// `NaiveDate::format` with the pattern `%Y-%m-%d`.
///
/// Trusted: the text is a function of the date and of the number of days
/// alone, and is `None` exactly where one of the first two calls is.
#[verifier::external_body]
pub(crate) fn text_days_before(date: CalendarDate, days_back: u64) -> (text: Option<String>)
    ensures
        match text {
            Some(t) => date_text_before(
                date.year as int,
                date.month as int,
                date.day as int,
                days_back as int,
            ) == Some(t@),
            None => date_text_before(
                date.year as int,
                date.month as int,
                date.day as int,
                days_back as int,
            ) is None,
        },
{
    let given = chrono::NaiveDate::from_ymd_opt(date.year, date.month, date.day)?;
    let earlier = given.checked_sub_days(chrono::Days::new(days_back))?;
    Some(earlier.format("%Y-%m-%d").to_string())
}

/// Calls chrono's `Local::now` and takes the date of that instant in the
/// local time zone.
///
/// Trusted: whatever the clock says, the date is one of chrono's calendar,
/// so chrono has a text for it. (chrono panics where the system clock is set
/// before 1970.)
#[verifier::external_body]
pub(crate) fn local_today() -> (date: CalendarDate)
    ensures
        date_text_before(date.year as int, date.month as int, date.day as int, 0) is Some,
{
    let today = chrono::Local::now().date_naive();
    CalendarDate { year: today.year(), month: today.month(), day: today.day() }
}

/// Whether a text ends with the offset of UTC itself, `+00:00`.
pub open spec fn ends_with_utc_offset(text: Seq<char>) -> bool {
    text.len() >= 6 && text.subrange(text.len() - 6, text.len() as int) == "+00:00"@
}

/// Calls chrono's `Utc::now` and `DateTime::to_rfc3339`: the current instant
/// as an ISO 8601 text with its offset from UTC.
///
/// Trusted: whatever the clock says, the text ends with the offset, which
/// chrono writes for UTC as `+00:00`. Nothing is claimed of the instant.
/// (chrono panics where the system clock is set before 1970.)
#[verifier::external_body]
pub(crate) fn utc_timestamp() -> (text: String)
    ensures
        ends_with_utc_offset(text@),
{
    chrono::Utc::now().to_rfc3339()
}

} // verus!

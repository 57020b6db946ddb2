//! Capture-time timestamps as plain calendar fields, with the validity
//! invariant the rest of the library relies on, and the two places where the
//! runtime's date-time capability is consulted: reading the clock and
//! rendering a timestamp through a strftime-like pattern.

use vstd::prelude::*;

use chrono::{Datelike, Timelike};
use core::fmt::Write;

verus! {

/// One instant of local wall-clock time, split into calendar fields.
///
/// The leap-second convention follows the runtime's date-time library: a leap
/// second is carried as `nanosecond >= 1_000_000_000` while `second == 59`.
#[derive(Clone, Copy, PartialEq, Eq, Structural, Debug)]
pub struct Timestamp {
    pub year: i32,
    pub month: u32,
    pub day: u32,
    pub hour: u32,
    pub minute: u32,
    pub second: u32,
    pub nanosecond: u32,
}

/// A year has 366 days exactly when it is divisible by 4 but not by 100,
/// or divisible by 400 (proleptic Gregorian calendar).
pub open spec fn is_leap_year(y: int) -> bool {
    y % 4 == 0 && (y % 100 != 0 || y % 400 == 0)
}

/// Number of days in the given month of the given year; 0 when `m` is not a
/// month number.
pub open spec fn days_in_month(y: int, m: int) -> int {
    if m == 1 || m == 3 || m == 5 || m == 7 || m == 8 || m == 10 || m == 12 {
        31
    } else if m == 4 || m == 6 || m == 9 || m == 11 {
        30
    } else if m == 2 {
        if is_leap_year(y) {
            29
        } else {
            28
        }
    } else {
        0
    }
}

impl Timestamp {
    /// The fields name a real instant: an existing calendar day and a time of
    /// day within bounds, with the leap-second convention respected.
    pub open spec fn wf(self) -> bool {
        &&& 1 <= self.month <= 12
        &&& 1 <= self.day <= days_in_month(self.year as int, self.month as int)
        &&& self.hour <= 23
        &&& self.minute <= 59
        &&& self.second <= 59
        &&& self.nanosecond < 2_000_000_000
        &&& self.nanosecond >= 1_000_000_000 ==> self.second == 59
    }

    /// Whether the fields name a real instant.
    pub fn is_valid(&self) -> (r: bool)
        ensures
            r == self.wf(),
    {
        1 <= self.month && self.month <= 12 && 1 <= self.day && self.day
            <= days_in_month_of(self.year, self.month) && self.hour <= 23 && self.minute <= 59
            && self.second <= 59 && self.nanosecond < 2_000_000_000 && (self.nanosecond
            < 1_000_000_000 || self.second == 59)
    }
}

/// Whether the year has 366 days.
pub fn leap_year(year: i32) -> (r: bool)
    ensures
        r == is_leap_year(year as int),
{
    year % 4 == 0 && (year % 100 != 0 || year % 400 == 0)
}

/// Number of days in the given month of the given year; 0 when `month` is
/// not a month number.
pub fn days_in_month_of(year: i32, month: u32) -> (r: u32)
    ensures
        r as int == days_in_month(year as int, month as int),
{
    if month == 1 || month == 3 || month == 5 || month == 7 || month == 8 || month == 10 || month
        == 12 {
        31
    } else if month == 4 || month == 6 || month == 9 || month == 11 {
        30
    } else if month == 2 {
        if leap_year(year) {
            29
        } else {
            28
        }
    } else {
        0
    }
}

/// What the runtime's date-time library renders for a strftime-like pattern
/// applied to a timestamp; a function of the pattern and the fields alone.
pub uninterp spec fn strftime_of(pattern: Seq<char>, ts: Timestamp) -> Seq<char>;

/// Relies on `chrono::Local::now` and `DateTime::naive_local`: the current
/// local wall-clock time, whose calendar fields always name a real instant.
#[verifier::external_body]
pub(crate) fn now() -> (ts: Timestamp)
    ensures
        ts.wf(),
{
    let t = chrono::Local::now().naive_local();
    Timestamp {
        year: t.year(),
        month: t.month(),
        day: t.day(),
        hour: t.hour(),
        minute: t.minute(),
        second: t.second(),
        nanosecond: t.nanosecond(),
    }
}

/// Relies on `chrono::NaiveDateTime::format`: the rendered text is a function
/// of the pattern and the calendar fields alone. Returns `None` when the
/// fields do not name a date-time the library can represent, or when the
/// pattern holds a specifier it does not know.
#[verifier::external_body]
pub(crate) fn render_time(ts: &Timestamp, pattern: &str) -> (r: Option<String>)
    ensures
        r matches Some(s) ==> s@ == strftime_of(pattern@, *ts),
{
    let date = chrono::NaiveDate::from_ymd_opt(ts.year, ts.month, ts.day)?;
    let dt = date.and_hms_nano_opt(ts.hour, ts.minute, ts.second, ts.nanosecond)?;
    let mut out = String::new();
    write!(out, "{}", dt.format(pattern)).ok()?;
    Some(out)
}

} // verus!

//! Plain calendar values and the trusted bridge to the `chrono` crate.
//!
//! The rest of the crate works on these plain structs; only the functions
//! marked `external_body` touch `chrono`, for the computations that are
//! genuinely calendrical (parsing, minute arithmetic across day
//! boundaries, week-number formatting).

use vstd::prelude::*;
use chrono::{Datelike, Timelike};

verus! {

/// A calendar date in the proleptic Gregorian calendar.
#[derive(Clone, Copy, Debug, PartialEq, Eq, Structural)]
pub struct DateYmd {
    pub year: i32,
    pub month: u8,
    pub day: u8,
}

/// A wall-clock date and time, without zone information.  Values produced
/// by the parsing bridge carry the fields of the instant in its own
/// offset, which is how the rest of the crate wants them.
#[derive(Clone, Copy, Debug, PartialEq, Eq, Structural)]
pub struct PlainDateTime {
    pub year: i32,
    pub month: u8,
    pub day: u8,
    pub hour: u8,
    pub minute: u8,
    pub second: u8,
}

impl DateYmd {
    /// The month and day lie in their calendar ranges.
    pub open spec fn field_ranges(self) -> bool {
        1 <= self.month <= 12 && 1 <= self.day <= 31
    }
}

impl PlainDateTime {
    /// The calendar date of this instant.
    pub open spec fn spec_date(self) -> DateYmd {
        DateYmd { year: self.year, month: self.month, day: self.day }
    }

    /// Every field but the year lies in its clock or calendar range.
    pub open spec fn field_ranges(self) -> bool {
        1 <= self.month <= 12 && 1 <= self.day <= 31 && self.hour < 24 && self.minute < 60
            && self.second < 60
    }

    pub fn date(&self) -> (r: DateYmd)
        ensures
            r == self.spec_date(),
    {
        DateYmd { year: self.year, month: self.month, day: self.day }
    }
}

/// What `chrono` parses out of an RFC 3339 text: `None` where the text is
/// not a valid RFC 3339 date-time, otherwise the fields of the instant in
/// its own offset.
pub uninterp spec fn rfc3339_value(s: Seq<char>) -> Option<PlainDateTime>;

/// Relies on `chrono::DateTime::parse_from_rfc3339`.  The result depends
/// on the characters alone; `chrono`'s field accessors stay in their
/// documented clock and calendar ranges.
#[verifier::external_body]
pub(crate) fn parse_rfc3339(s: &str) -> (r: Option<PlainDateTime>)
    ensures
        r == rfc3339_value(s@),
        r matches Some(v) ==> v.field_ranges(),
{
    match chrono::DateTime::parse_from_rfc3339(s) {
        Ok(dt) => Some(PlainDateTime {
            year: dt.year(),
            month: dt.month() as u8,
            day: dt.day() as u8,
            hour: dt.hour() as u8,
            minute: dt.minute() as u8,
            second: dt.second() as u8,
        }),
        Err(_) => None,
    }
}

/// What `chrono` parses out of a `YYYY-MM-DD` text: `None` where the text
/// is not a valid date in that shape.
pub uninterp spec fn date_value(s: Seq<char>) -> Option<DateYmd>;

/// Relies on `chrono::NaiveDate::parse_from_str` with format `%Y-%m-%d`.
/// The result depends on the characters alone; `chrono`'s field
/// accessors stay in their documented calendar ranges.
#[verifier::external_body]
pub(crate) fn parse_ymd(s: &str) -> (r: Option<DateYmd>)
    ensures
        r == date_value(s@),
        r matches Some(v) ==> v.field_ranges(),
{
    match chrono::NaiveDate::parse_from_str(s, "%Y-%m-%d") {
        Ok(d) => Some(DateYmd { year: d.year(), month: d.month() as u8, day: d.day() as u8 }),
        Err(_) => None,
    }
}

/// The instant `minutes` minutes after `dt` (before, for a negative
/// count), in the same offset; `None` where `dt` has no valid calendar
/// reading or the shift leaves `chrono`'s range.
pub uninterp spec fn shifted_value(dt: PlainDateTime, minutes: i64) -> Option<PlainDateTime>;

/// Relies on `chrono::NaiveDateTime::checked_add_signed` with
/// `chrono::Duration::minutes`.  The result depends on the arguments
/// alone.
#[verifier::external_body]
pub(crate) fn shift_minutes(dt: &PlainDateTime, minutes: i64) -> (r: Option<PlainDateTime>)
    requires
        -100_000 <= minutes <= 100_000,
    ensures
        r == shifted_value(*dt, minutes),
        r matches Some(v) ==> v.field_ranges(),
{
    let d = chrono::NaiveDate::from_ymd_opt(dt.year, dt.month as u32, dt.day as u32)?;
    let t = d.and_hms_opt(dt.hour as u32, dt.minute as u32, dt.second as u32)?;
    let s = t.checked_add_signed(chrono::Duration::minutes(minutes))?;
    Some(PlainDateTime {
        year: s.year(),
        month: s.month() as u8,
        day: s.day() as u8,
        hour: s.hour() as u8,
        minute: s.minute() as u8,
        second: s.second() as u8,
    })
}

/// The text `chrono` renders for a date with format `%B %d -- w%V-%u`:
/// English month name, zero-padded day, ISO week and weekday.  A date
/// `chrono` cannot represent gives the empty text.
pub uninterp spec fn point_date_text(d: DateYmd) -> Seq<char>;

/// Relies on `chrono::NaiveDate::format`.  The result depends on the date
/// alone.
#[verifier::external_body]
pub(crate) fn fmt_point_date(d: &DateYmd) -> (r: String)
    ensures
        r@ == point_date_text(*d),
{
    match chrono::NaiveDate::from_ymd_opt(d.year, d.month as u32, d.day as u32) {
        Some(nd) => nd.format("%B %d -- w%V-%u").to_string(),
        None => String::new(),
    }
}

} // verus!

//! The calendar API's timestamp shape, and its parsed form.
//!
//! The API sends a timestamp as one of two optional texts: an all-day
//! `date` or an RFC 3339 `date_time`.  `Timestamp` is the parsed reading
//! of such a value; an event qualifies for a reminder only when it has
//! the `date_time` reading.

use vstd::prelude::*;
use crate::dates::{date_value, rfc3339_value, DateYmd, PlainDateTime};
use crate::dates::{parse_rfc3339, parse_ymd};
use crate::text::clone_opt_string;

verus! {

/// A timestamp as the calendar API sends it, both fields as raw text.
#[derive(Debug)]
pub struct GCalTimestamp {
    pub date: Option<String>,
    pub date_time: Option<String>,
}

impl Clone for GCalTimestamp {
    fn clone(&self) -> (r: Self)
        ensures
            r == *self,
    {
        GCalTimestamp {
            date: clone_opt_string(&self.date),
            date_time: clone_opt_string(&self.date_time),
        }
    }
}

/// A parsed timestamp: either a bare calendar date (an all-day event) or
/// a full date-time.
#[derive(Debug, Clone, Copy, PartialEq, Eq, Structural)]
pub enum Timestamp {
    Date(DateYmd),
    DateTime(PlainDateTime),
}

impl Timestamp {
    /// The parsed reading of a raw timestamp: the `date_time` text when
    /// present (and only an RFC 3339 text is accepted), otherwise the
    /// `date` text, otherwise nothing.
    pub open spec fn spec_parse(g: GCalTimestamp) -> Result<Timestamp, ()> {
        match g.date_time {
            Some(s) => match rfc3339_value(s@) {
                Some(v) => Ok(Timestamp::DateTime(v)),
                None => Err(()),
            },
            None => match g.date {
                Some(s) => match date_value(s@) {
                    Some(d) => Ok(Timestamp::Date(d)),
                    None => Err(()),
                },
                None => Err(()),
            },
        }
    }

    /// Parses a raw timestamp, refusing one with no readable field.
    pub fn try_from(value: &GCalTimestamp) -> (r: Result<Timestamp, ()>)
        ensures
            r == Timestamp::spec_parse(*value),
            r matches Ok(t) ==> t.field_ranges(),
    {
        match &value.date_time {
            Some(s) => match parse_rfc3339(s.as_str()) {
                Some(v) => Ok(Timestamp::DateTime(v)),
                None => Err(()),
            },
            None => match &value.date {
                Some(s) => match parse_ymd(s.as_str()) {
                    Some(d) => Ok(Timestamp::Date(d)),
                    None => Err(()),
                },
                None => Err(()),
            },
        }
    }

    /// The fields of the parsed value lie in their clock and calendar
    /// ranges.
    pub open spec fn field_ranges(self) -> bool {
        match self {
            Timestamp::Date(d) => d.field_ranges(),
            Timestamp::DateTime(t) => t.field_ranges(),
        }
    }

    /// The all-day date, where this is one.
    pub open spec fn spec_date(self) -> Option<DateYmd> {
        match self {
            Timestamp::Date(d) => Some(d),
            Timestamp::DateTime(_) => None,
        }
    }

    pub fn date(&self) -> (r: Option<DateYmd>)
        ensures
            r == self.spec_date(),
    {
        match self {
            Timestamp::Date(d) => Some(*d),
            Timestamp::DateTime(_) => None,
        }
    }

    /// The full date-time, where this is one.
    pub open spec fn spec_date_time(self) -> Option<PlainDateTime> {
        match self {
            Timestamp::Date(_) => None,
            Timestamp::DateTime(t) => Some(t),
        }
    }

    pub fn date_time(&self) -> (r: Option<PlainDateTime>)
        ensures
            r == self.spec_date_time(),
    {
        match self {
            Timestamp::Date(_) => None,
            Timestamp::DateTime(t) => Some(*t),
        }
    }
}

} // verus!

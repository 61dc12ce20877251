//! Calendar timestamps, read from text by the `chrono` crate.

use chrono::{Datelike, Timelike};
use vstd::prelude::*;

verus! {

/// A date and a time of day, without a time zone.
#[derive(Clone, Copy, Debug, PartialEq, Eq, Structural)]
pub struct Timestamp {
    pub year: i32,
    pub month: u32,
    pub day: u32,
    pub hour: u32,
    pub minute: u32,
    pub second: u32,
}

impl Timestamp {
    /// Whether each part lies in the range of its kind: the month in 1 to
    /// 12, the day in 1 to 31, the hour below 24, minute and second below 60.
    pub open spec fn in_range(self) -> bool {
        &&& 1 <= self.month <= 12
        &&& 1 <= self.day <= 31
        &&& self.hour <= 23
        &&& self.minute <= 59
        &&& self.second <= 59
    }
}

/// What `chrono::NaiveDateTime::parse_from_str` makes of a text under a
/// format: the date and time that it reads, or `None` where it reports an
/// error.
pub uninterp spec fn datetime_of(text: Seq<char>, format: Seq<char>) -> Option<Timestamp>;

/// Calls `chrono::NaiveDateTime::parse_from_str` and copies the parts of the
/// date and time it returns. The contract names the outcome, which depends on
/// the two texts alone, and adds the ranges that `chrono` documents for
/// `month`, `day`, `hour`, `minute` and `second`.
#[verifier::external_body]
pub(crate) fn parse_datetime(text: &str, format: &str) -> (r: Option<Timestamp>)
    ensures
        r == datetime_of(text@, format@),
        r matches Some(t) ==> t.in_range(),
{
    match chrono::NaiveDateTime::parse_from_str(text, format) {
        Ok(t) => Some(
            Timestamp {
                year: t.year(),
                month: t.month(),
                day: t.day(),
                hour: t.hour(),
                minute: t.minute(),
                second: t.second(),
            },
        ),
        Err(_) => None,
    }
}

/// The format of a timestamp written as `year-month-day hour:minute`.
pub open spec fn clock_format() -> Seq<char> {
    "%Y-%m-%d %H:%M"@
}

/// The format of a timestamp written as `year-month-day hourminute`, the
/// time of day without a separator.
pub open spec fn compact_clock_format() -> Seq<char> {
    "%Y-%m-%d %H%M"@
}

/// The date and time written in a text as `year-month-day hour:minute`,
/// where the text is one.
pub fn read_clock(text: &str) -> (r: Option<Timestamp>)
    ensures
        r == datetime_of(text@, clock_format()),
        r matches Some(t) ==> t.in_range(),
{
    parse_datetime(text, "%Y-%m-%d %H:%M")
}

/// The date and time written in a text as `year-month-day hourminute`,
/// where the text is one.
pub fn read_compact_clock(text: &str) -> (r: Option<Timestamp>)
    ensures
        r == datetime_of(text@, compact_clock_format()),
        r matches Some(t) ==> t.in_range(),
{
    parse_datetime(text, "%Y-%m-%d %H%M")
}

} // verus!

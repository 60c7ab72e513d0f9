//! Calendar dates and instants, as plain numbers.
//!
//! An instant is a count of seconds since 1970-01-01 00:00:00 and a count of
//! nanoseconds within the second, with no time zone. Only instants that can be
//! written as a calendar date and a time of day exist as values.

use vstd::prelude::*;
use crate::filter::optional_text;

verus! {

/// The text of the instant `secs` seconds and `nanos` nanoseconds after
/// 1970-01-01 00:00:00, as a date, a space and a time of day; `None` where the
/// calendar cannot express the instant.
pub uninterp spec fn datetime_text(secs: int, nanos: int) -> Option<Seq<char>>;

/// Calls `chrono::DateTime::from_timestamp`, then `naive_utc` and `to_string` on
/// what it gives. Trusted: whether the instant can be expressed, and the text
/// written for it, depend on the two numbers alone.
#[verifier::external_body]
fn format_datetime(secs: i64, nanos: u32) -> (text: Option<String>)
    ensures
        optional_text(text) == datetime_text(secs as int, nanos as int),
{
    match chrono::DateTime::from_timestamp(secs, nanos) {
        Some(moment) => Some(moment.naive_utc().to_string()),
        None => None,
    }
}

/// An instant without a time zone.
#[derive(Clone, Copy, Debug, PartialEq, Eq, Hash)]
pub struct DateTime {
    secs: i64,
    nanos: u32,
}

impl DateTime {
    #[verifier::type_invariant]
    spec fn expressible(self) -> bool {
        datetime_text(self.secs as int, self.nanos as int) is Some
    }

    /// Whole seconds since 1970-01-01 00:00:00.
    pub closed spec fn seconds(self) -> int {
        self.secs as int
    }

    /// Nanoseconds within the second.
    pub closed spec fn nanoseconds(self) -> int {
        self.nanos as int
    }

    /// The instant as text: a date, a space and a time of day.
    pub open spec fn text(self) -> Seq<char> {
        datetime_text(self.seconds(), self.nanoseconds()).unwrap()
    }

    /// The instant that lies `secs` seconds and `nanos` nanoseconds after
    /// 1970-01-01 00:00:00, if the calendar can express it.
    pub fn new(secs: i64, nanos: u32) -> (moment: Option<DateTime>)
        ensures
            moment is Some <==> datetime_text(secs as int, nanos as int) is Some,
            moment matches Some(m) ==> m.seconds() == secs && m.nanoseconds() == nanos,
    {
        match format_datetime(secs, nanos) {
            Some(_) => Some(DateTime { secs, nanos }),
            None => None,
        }
    }

    /// Whole seconds since 1970-01-01 00:00:00.
    pub fn timestamp(&self) -> (secs: i64)
        ensures
            secs == self.seconds(),
    {
        self.secs
    }

    /// Nanoseconds within the second.
    pub fn subsec_nanos(&self) -> (nanos: u32)
        ensures
            nanos == self.nanoseconds(),
    {
        self.nanos
    }

    /// The instant as text: a date, a space and a time of day.
    pub fn to_text(&self) -> (text: String)
        ensures
            text@ == self.text(),
    {
        proof {
            use_type_invariant(self);
        }
        match format_datetime(self.secs, self.nanos) {
            Some(text) => text,
            None => String::new(),
        }
    }
}

/// A calendar date, as the number of days since the day before 0001-01-01.
#[derive(Clone, Copy, Debug, PartialEq, Eq, Structural, Hash)]
pub struct Date {
    pub days_from_ce: i32,
}

} // verus!

//! Points in time, as a report and a merge request state them.
//!
//! Reading and writing the calendar form is left to `chrono`; the library
//! itself holds a time as a count of seconds, which it can compare.

use vstd::prelude::*;

verus! {

/// A date and time without a zone: the whole seconds since
/// 1970-01-01T00:00:00, not counting leap seconds, and the nanoseconds since
/// that second began. Within a leap second `chrono` counts the nanoseconds on
/// past 999,999,999.
#[derive(Clone, Copy, Debug, PartialEq, Eq, Structural)]
pub struct Timestamp {
    pub seconds: i64,
    pub nanos: u32,
}

/// The time that `chrono` reads out of a text in the form
/// `%Y-%m-%dT%H:%M:%S%.f`, if the text has that form.
pub uninterp spec fn timestamp_of_text(text: Seq<char>) -> Option<Timestamp>;

/// The text that `chrono` writes for a time, in the form
/// `%Y-%m-%dT%H:%M:%S%.f`, if the time lies in the range of dates that it
/// can hold.
pub uninterp spec fn text_of_timestamp(time: Timestamp) -> Option<Seq<char>>;

/// Parses with `chrono::NaiveDateTime`'s `FromStr`, and takes the seconds
/// and nanoseconds of the result with `DateTime::timestamp` and
/// `DateTime::timestamp_subsec_nanos`. Claims only that the outcome depends
/// on the text alone.
#[verifier::external_body]
fn parse_naive_datetime(text: &str) -> (r: Option<Timestamp>)
    ensures
        r == timestamp_of_text(text@),
{
    match text.parse::<chrono::NaiveDateTime>() {
        Ok(t) => Some(
            Timestamp { seconds: t.and_utc().timestamp(), nanos: t.and_utc().timestamp_subsec_nanos() },
        ),
        Err(_) => None,
    }
}

/// Builds the time with `chrono::DateTime::from_timestamp`, which refuses
/// what is out of range, and writes it as `chrono::NaiveDateTime`'s `Debug`
/// does. Claims only that the outcome depends on the time alone.
#[verifier::external_body]
fn format_naive_datetime(time: Timestamp) -> (r: Option<String>)
    ensures
        match r {
            Some(text) => text_of_timestamp(time) == Some(text@),
            None => text_of_timestamp(time) is None,
        },
{
    match chrono::DateTime::from_timestamp(time.seconds, time.nanos) {
        Some(t) => Some(format!("{:?}", t.naive_utc())),
        None => None,
    }
}

impl Timestamp {
    /// The time that stands in for one that a report does not state.
    pub open spec fn spec_epoch() -> Timestamp {
        Timestamp { seconds: 0, nanos: 0 }
    }

    /// 1970-01-01T00:00:00.
    #[verifier::when_used_as_spec(spec_epoch)]
    pub fn epoch() -> (r: Timestamp)
        ensures
            r == Timestamp::spec_epoch(),
    {
        Timestamp { seconds: 0, nanos: 0 }
    }

    /// Whether this time comes strictly after `other`.
    pub open spec fn is_after(self, other: Timestamp) -> bool {
        self.seconds > other.seconds || (self.seconds == other.seconds && self.nanos > other.nanos)
    }

    /// Whether this time comes strictly after `other`.
    pub fn later_than(&self, other: &Timestamp) -> (r: bool)
        ensures
            r == self.is_after(*other),
    {
        self.seconds > other.seconds || (self.seconds == other.seconds && self.nanos > other.nanos)
    }

    /// Reads a time written as `2023-04-01T12:30:00`, with or without a
    /// fraction of a second.
    pub fn parse(text: &str) -> (r: Option<Timestamp>)
        ensures
            r == timestamp_of_text(text@),
    {
        parse_naive_datetime(text)
    }

    /// What a rendered document shows for this time.
    pub open spec fn label(self) -> Seq<char> {
        match text_of_timestamp(self) {
            Some(text) => text,
            None => "out of range"@,
        }
    }

    /// Writes the time as `2023-04-01T12:30:00`. A time that no calendar
    /// date stands for is written as `out of range`.
    pub fn to_text(&self) -> (r: String)
        ensures
            r@ == self.label(),
    {
        match format_naive_datetime(*self) {
            Some(text) => text,
            None => "out of range".to_owned(),
        }
    }
}

impl Default for Timestamp {
    fn default() -> (r: Timestamp)
        ensures
            r == Timestamp::spec_epoch(),
    {
        Timestamp::epoch()
    }
}

} // verus!

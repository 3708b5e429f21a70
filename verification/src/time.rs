//! Instants with the offset they were written in.
use vstd::prelude::*;

verus! {

/// An instant, and the offset from UTC of the zone it was stated in.
///
/// `seconds` counts the non-leap seconds since 1970-01-01T00:00:00Z and
/// `nanos` the nanoseconds into that second; within a leap second `nanos`
/// runs from 1,000,000,000 on. `offset` is the local time less UTC, in
/// seconds. Two instants are ordered by `seconds`, then `nanos`; the offset
/// plays no part.
#[derive(Clone, Copy, Debug, PartialEq, Eq, Structural)]
pub struct Timestamp {
    pub seconds: i64,
    pub nanos: u32,
    pub offset: i32,
}

impl Timestamp {
    /// `self` is strictly later than `other`.
    pub open spec fn after(self, other: Timestamp) -> bool {
        self.seconds > other.seconds || (self.seconds == other.seconds && self.nanos
            > other.nanos)
    }

    /// The hour of the day in UTC, from 0 to 23.
    pub open spec fn hour(self) -> int {
        (self.seconds as int % 86400) / 3600
    }

    /// The hour of the day in UTC, from 0 to 23.
    pub fn hour_of_day(&self) -> (r: u32)
        ensures
            r == self.hour(),
            r < 24,
    {
        let within: i64 = self.seconds % 86400;
        let second: i64 = if within < 0 {
            within + 86400
        } else {
            within
        };
        (second / 3600) as u32
    }

    /// Tells whether `self` is strictly later than `other`.
    pub fn is_after(&self, other: &Timestamp) -> (r: bool)
        ensures
            r == self.after(*other),
    {
        self.seconds > other.seconds || (self.seconds == other.seconds && self.nanos
            > other.nanos)
    }
}

/// What `chrono::DateTime::parse_from_rfc2822` makes of a text: the instant
/// and offset of the date that the text states in the format of RFC 2822, or
/// `None` where the text is no such date.
pub uninterp spec fn rfc2822(text: Seq<char>) -> Option<Timestamp>;

/// Reads a date in the format of RFC 2822.
///
/// `chrono::DateTime::parse_from_rfc2822`, a function of the text alone. The
/// date it returns is handed on as its UNIX timestamp, the nanoseconds beside
/// it and the offset of its zone.
#[verifier::external_body]
pub(crate) fn parse_rfc2822(text: &str) -> (r: Option<Timestamp>)
    ensures
        r == rfc2822(text@),
{
    match chrono::DateTime::parse_from_rfc2822(text) {
        Ok(date) => Some(
            Timestamp {
                seconds: date.timestamp(),
                nanos: date.timestamp_subsec_nanos(),
                offset: date.offset().local_minus_utc(),
            },
        ),
        Err(_) => None,
    }
}

/// What parsing a text as a `chrono::DateTime<Utc>` gives: the instant that
/// the text states in the format of RFC 3339 or the relaxed forms of it that
/// `chrono` reads, with the offset of UTC, or `None` where the text states
/// none.
pub uninterp spec fn datetime(text: Seq<char>) -> Option<Timestamp>;

/// Reads an instant in the format of RFC 3339.
///
/// `FromStr` of `chrono::DateTime<Utc>`, a function of the text alone. The
/// date it returns is handed on as its UNIX timestamp, the nanoseconds beside
/// it and the offset of its zone, which is UTC.
#[verifier::external_body]
pub(crate) fn parse_datetime(text: &str) -> (r: Option<Timestamp>)
    ensures
        r == datetime(text@),
{
    match text.parse::<chrono::DateTime<chrono::Utc>>() {
        Ok(date) => Some(
            Timestamp {
                seconds: date.timestamp(),
                nanos: date.timestamp_subsec_nanos(),
                offset: chrono::Offset::fix(date.offset()).local_minus_utc(),
            },
        ),
        Err(_) => None,
    }
}

} // verus!

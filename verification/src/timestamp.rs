//! Points in time, kept as plain integers, and their text forms.

use vstd::prelude::*;
use crate::text::opt_text;

verus! {

/// A point in time: whole seconds since 1970-01-01T00:00:00Z and the
/// nanoseconds into that second.
#[derive(Debug, Clone, Copy, PartialEq, Eq, Structural)]
pub struct Timestamp {
    /// Seconds since the Unix epoch; negative before it.
    pub secs: i64,
    /// Nanoseconds since the last whole second.
    pub nanos: u32,
}

/// What `chrono::DateTime::parse_from_rfc3339` reads from a text: the Unix
/// seconds and the sub-second nanoseconds of the instant, or `None` where
/// the text is not an RFC 3339 date and time.
pub uninterp spec fn rfc3339_instant(text: Seq<char>) -> Option<(i64, u32)>;

/// What chrono prints for the UTC instant `(secs, nanos)` under the format
/// `pattern`, or `None` where chrono has no date for that instant.
pub uninterp spec fn formatted_text(secs: i64, nanos: u32, pattern: Seq<char>) -> Option<Seq<char>>;

/// The format of a date and time to the minute: `2024-01-15 10:30`.
pub open spec fn minute_pattern() -> Seq<char> {
    "%Y-%m-%d %H:%M"@
}

/// The format of a day and time without the year: `01/15 10:30`.
pub open spec fn short_pattern() -> Seq<char> {
    "%m/%d %H:%M"@
}

/// Calls `chrono::DateTime::parse_from_rfc3339` and hands back the instant
/// as `timestamp()` and `timestamp_subsec_nanos()` give it. The contract
/// only names that result: nothing of the grammar is claimed here.
#[verifier::external_body]
fn chrono_parse_rfc3339(text: &str) -> (r: Option<(i64, u32)>)
    ensures
        r == rfc3339_instant(text@),
{
    match chrono::DateTime::parse_from_rfc3339(text) {
        Ok(dt) => Some((dt.timestamp(), dt.timestamp_subsec_nanos())),
        Err(_) => None,
    }
}

/// Builds the UTC date with `chrono::DateTime::from_timestamp` and prints
/// it with `format(pattern)`. The contract only names the text; `None` is
/// what `from_timestamp` gives for an instant out of its range. The two
/// patterns that are let in are ones that chrono accepts.
#[verifier::external_body]
fn chrono_format(secs: i64, nanos: u32, pattern: &str) -> (r: Option<String>)
    requires
        pattern@ == minute_pattern() || pattern@ == short_pattern(),
    ensures
        opt_text(r) == formatted_text(secs, nanos, pattern@),
{
    match chrono::DateTime::from_timestamp(secs, nanos) {
        Some(date) => Some(date.format(pattern).to_string()),
        None => None,
    }
}

impl Timestamp {
    /// The instant `secs` whole seconds after the epoch.
    pub fn from_secs(secs: i64) -> (r: Timestamp)
        ensures
            r == (Timestamp { secs, nanos: 0 }),
    {
        Timestamp { secs, nanos: 0 }
    }

    /// A time of the file system as a point in time: the seconds, where they
    /// fit; no time else.
    pub open spec fn of_file_time(modified_secs: Option<u64>) -> Option<Timestamp> {
        match modified_secs {
            Some(m) => if m <= i64::MAX {
                Some(Timestamp { secs: m as i64, nanos: 0 })
            } else {
                None
            },
            None => None,
        }
    }

    /// Turns a time of the file system, in seconds since the epoch, into a
    /// point in time.
    pub fn from_file_time(modified_secs: Option<u64>) -> (r: Option<Timestamp>)
        ensures
            r == Timestamp::of_file_time(modified_secs),
    {
        match modified_secs {
            Some(m) => if m <= 0x7fff_ffff_ffff_ffff {
                Some(Timestamp::from_secs(m as i64))
            } else {
                None
            },
            None => None,
        }
    }

    /// True when `self` is strictly later than `other`.
    pub open spec fn later_than(self, other: Timestamp) -> bool {
        self.secs > other.secs || (self.secs == other.secs && self.nanos > other.nanos)
    }

    /// Compares two instants.
    pub fn is_later_than(&self, other: &Timestamp) -> (r: bool)
        ensures
            r == self.later_than(*other),
    {
        self.secs > other.secs || (self.secs == other.secs && self.nanos > other.nanos)
    }

    /// The instant that an RFC 3339 text names, if it names one.
    pub open spec fn parsed(text: Seq<char>) -> Option<Timestamp> {
        match rfc3339_instant(text) {
            Some((secs, nanos)) => Some(Timestamp { secs, nanos }),
            None => None,
        }
    }

    /// Reads an RFC 3339 date and time, such as `2024-01-15T10:30:00Z`.
    /// `None` when the text is not one.
    pub fn parse_rfc3339(text: &str) -> (r: Option<Timestamp>)
        ensures
            r == Timestamp::parsed(text@),
    {
        match chrono_parse_rfc3339(text) {
            Some((secs, nanos)) => Some(Timestamp { secs, nanos }),
            None => None,
        }
    }

    /// The text `YYYY-MM-DD HH:MM` of this instant in UTC, if the calendar
    /// reaches it.
    pub open spec fn minute_view(self) -> Option<Seq<char>> {
        formatted_text(self.secs, self.nanos, minute_pattern())
    }

    /// The text `MM/DD HH:MM` of this instant in UTC, if the calendar reaches
    /// it.
    pub open spec fn short_view(self) -> Option<Seq<char>> {
        formatted_text(self.secs, self.nanos, short_pattern())
    }

    /// Prints the instant to the minute, in UTC. `None` for an instant that
    /// the calendar does not reach.
    pub fn format_minute(&self) -> (r: Option<String>)
        ensures
            opt_text(r) == self.minute_view(),
    {
        chrono_format(self.secs, self.nanos, "%Y-%m-%d %H:%M")
    }

    /// Prints the day and the time of the instant, in UTC. `None` for an
    /// instant that the calendar does not reach.
    pub fn format_short(&self) -> (r: Option<String>)
        ensures
            opt_text(r) == self.short_view(),
    {
        chrono_format(self.secs, self.nanos, "%m/%d %H:%M")
    }
}

} // verus!

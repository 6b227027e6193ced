//! Instants and how they are written down.
//!
//! Reading and writing RFC 3339 texts, and the calendar arithmetic behind it, are done by the
//! `chrono` crate. Its results are named here; everything else is built on the names.

use crate::record::opt_view;
use crate::text::{same_text, trim, trimmed};
use chrono::{DateTime, SecondsFormat, TimeDelta, Utc};
use vstd::prelude::*;

verus! {

/// An instant in Coordinated Universal Time: seconds since 1970 and nanoseconds of that second.
/// In a leap second the nanoseconds go beyond 999,999,999.
#[derive(Clone, Copy, Debug, PartialEq, Eq, Structural, Hash)]
pub struct Instant {
    pub secs: i64,
    pub nanos: u32,
}

/// The instant that an RFC 3339 text stands for, if it is one.
pub uninterp spec fn rfc3339_instant(text: Seq<char>) -> Option<(i64, u32)>;

/// How an instant is written with milliseconds and a `Z`, if the calendar reaches that far.
pub uninterp spec fn rfc3339_millis_text(secs: i64, nanos: u32) -> Option<Seq<char>>;

/// How an instant is written with as many digits as it needs and a numeric offset, if the calendar
/// reaches that far.
pub uninterp spec fn rfc3339_offset_text(secs: i64, nanos: u32) -> Option<Seq<char>>;

/// The instant a number of seconds later, if the calendar reaches that far.
pub uninterp spec fn instant_shifted(secs: i64, nanos: u32, seconds: i64) -> Option<(i64, u32)>;

/// Calls `chrono::DateTime::parse_from_rfc3339`, and gives the seconds and nanoseconds of the
/// instant in Coordinated Universal Time. Claimed: which texts are accepted and which instant each
/// stands for depends on the text alone.
#[verifier::external_body]
fn parse_rfc3339(text: &str) -> (r: Option<(i64, u32)>)
    ensures
        r == rfc3339_instant(text@),
{
    match DateTime::parse_from_rfc3339(text) {
        Ok(parsed) => Some((parsed.timestamp(), parsed.timestamp_subsec_nanos())),
        Err(_) => None,
    }
}

/// Calls `chrono::DateTime::to_rfc3339_opts` with milliseconds and `Z`, on the instant that
/// `chrono::DateTime::from_timestamp` makes of the two numbers. Claimed: the text depends on the
/// instant alone, and there is none where `from_timestamp` knows no such instant.
#[verifier::external_body]
fn format_millis(secs: i64, nanos: u32) -> (r: Option<String>)
    ensures
        opt_view(r) == rfc3339_millis_text(secs, nanos),
{
    let instant = DateTime::<Utc>::from_timestamp(secs, nanos)?;
    Some(instant.to_rfc3339_opts(SecondsFormat::Millis, true))
}

/// Calls `chrono::DateTime::to_rfc3339`, on the instant that `chrono::DateTime::from_timestamp`
/// makes of the two numbers. Claimed: the text depends on the instant alone, and there is none where
/// `from_timestamp` knows no such instant.
#[verifier::external_body]
fn format_offset(secs: i64, nanos: u32) -> (r: Option<String>)
    ensures
        opt_view(r) == rfc3339_offset_text(secs, nanos),
{
    let instant = DateTime::<Utc>::from_timestamp(secs, nanos)?;
    Some(instant.to_rfc3339())
}

/// Calls `chrono::DateTime::checked_add_signed` with a number of seconds, on the instant that
/// `chrono::DateTime::from_timestamp` makes of the two numbers. Claimed: the result depends on the
/// arguments alone, and outside leap seconds it is the sum, with the nanoseconds kept.
#[verifier::external_body]
fn shift(secs: i64, nanos: u32, seconds: i64) -> (r: Option<(i64, u32)>)
    ensures
        r == instant_shifted(secs, nanos, seconds),
        nanos < 1_000_000_000 ==> (r matches Some(later) ==> later.0 == secs + seconds && later.1
            == nanos),
{
    let instant = DateTime::<Utc>::from_timestamp(secs, nanos)?;
    let later = instant.checked_add_signed(TimeDelta::try_seconds(seconds)?)?;
    Some((later.timestamp(), later.timestamp_subsec_nanos()))
}

/// The instant that a text stands for once white space at its ends is left out.
pub open spec fn text_instant(text: Seq<char>) -> Option<Instant> {
    match rfc3339_instant(trimmed(text)) {
        Some((secs, nanos)) => Some(Instant { secs, nanos }),
        None => None,
    }
}

/// The instant that a text stands for, if the text is how that instant is written with
/// milliseconds.
pub open spec fn millis_instant(text: Seq<char>) -> Option<Instant> {
    match rfc3339_instant(text) {
        Some((secs, nanos)) => if rfc3339_millis_text(secs, nanos) == Some(text) {
            Some(Instant { secs, nanos })
        } else {
            None
        },
        None => None,
    }
}

/// The instant that a text stands for, if the text is one of the two ways in which that instant is
/// written.
pub open spec fn canonical_instant(text: Seq<char>) -> Option<Instant> {
    match rfc3339_instant(text) {
        Some((secs, nanos)) => if rfc3339_offset_text(secs, nanos) == Some(text)
            || rfc3339_millis_text(secs, nanos) == Some(text) {
            Some(Instant { secs, nanos })
        } else {
            None
        },
        None => None,
    }
}

impl Instant {
    /// Whether this instant comes before another.
    pub open spec fn is_before(self, other: Instant) -> bool {
        self.secs < other.secs || (self.secs == other.secs && self.nanos < other.nanos)
    }

    /// Whether this instant comes before another.
    pub fn before(&self, other: &Instant) -> (r: bool)
        ensures
            r == self.is_before(*other),
    {
        self.secs < other.secs || (self.secs == other.secs && self.nanos < other.nanos)
    }

    /// The instant a number of seconds later.
    pub open spec fn shifted(self, seconds: i64) -> Option<Instant> {
        match instant_shifted(self.secs, self.nanos, seconds) {
            Some((secs, nanos)) => Some(Instant { secs, nanos }),
            None => None,
        }
    }

    /// The instant a number of seconds later, if the calendar reaches that far.
    pub fn later_by(&self, seconds: i64) -> (r: Option<Instant>)
        ensures
            r == self.shifted(seconds),
    {
        match shift(self.secs, self.nanos, seconds) {
            Some((secs, nanos)) => Some(Instant { secs, nanos }),
            None => None,
        }
    }

    /// Whole milliseconds since 1970.
    pub open spec fn millis(self) -> int {
        self.secs * 1000 + self.nanos / 1_000_000
    }

    /// Whole milliseconds since 1970.
    pub fn timestamp_millis(&self) -> (r: i128)
        ensures
            r == self.millis(),
    {
        self.secs as i128 * 1000 + (self.nanos / 1_000_000) as i128
    }
}

/// The instant that a text stands for once white space at its ends is left out.
pub fn parse_timestamp(value: &str) -> (r: Option<Instant>)
    ensures
        r == text_instant(value@),
{
    match parse_rfc3339(trim(value)) {
        Some((secs, nanos)) => Some(Instant { secs, nanos }),
        None => None,
    }
}

/// The instant of a text that is written with milliseconds, as performance operations write it.
pub fn canonical_performance_timestamp(value: &str) -> (r: Option<Instant>)
    ensures
        r == millis_instant(value@),
{
    let (secs, nanos) = match parse_rfc3339(value) {
        Some(parsed) => parsed,
        None => {
            return None;
        },
    };
    match format_millis(secs, nanos) {
        Some(text) if same_text(text.as_str(), value) => Some(Instant { secs, nanos }),
        _ => None,
    }
}

/// The instant of a text that is written in one of the two ways that the Guardian uses.
pub fn canonical_guardian_timestamp(value: &str) -> (r: Option<Instant>)
    ensures
        r == canonical_instant(value@),
{
    let (secs, nanos) = match parse_rfc3339(value) {
        Some(parsed) => parsed,
        None => {
            return None;
        },
    };
    match format_offset(secs, nanos) {
        Some(text) if same_text(text.as_str(), value) => {
            return Some(Instant { secs, nanos });
        },
        _ => {},
    }
    match format_millis(secs, nanos) {
        Some(text) if same_text(text.as_str(), value) => Some(Instant { secs, nanos }),
        _ => None,
    }
}

} // verus!

//! How long what was observed stays in force.

use crate::instants::{parse_timestamp, text_instant, Instant};
use vstd::prelude::*;

verus! {

/// How far an observation may lie ahead of the clock, in seconds.
pub const MAX_FUTURE_SKEW_SECONDS: i64 = 300;

/// The longest time for which an observation may suppress anything, in seconds.
pub const MAX_SUPPRESSION_SECONDS: i64 = 86_400;

/// Whether a record is in force.
#[derive(Clone, Copy, Debug, PartialEq, Eq, Structural, Hash)]
pub enum BoundedTemporalDisposition {
    Current,
    Expired,
}

/// Why the times of a record cannot be accepted.
#[derive(Clone, Copy, Debug, PartialEq, Eq, Structural, Hash)]
pub enum BoundedTemporalViolation {
    MalformedTimestamp,
    ObservationTooFarInFuture,
    SuppressionWindowOutOfBounds,
}

/// The times of a record, as they are written down.
#[derive(Clone, Copy)]
pub struct BoundedTemporalRecord<'a> {
    pub first_observed_at: &'a str,
    pub last_observed_at: &'a str,
    pub suppression_until: Option<&'a str>,
    /// Whether the record still waits for something and so cannot expire.
    pub pending: bool,
}

/// The model of [`BoundedTemporalRecord`].
pub struct BoundedTemporalRecordView {
    pub first_observed_at: Seq<char>,
    pub last_observed_at: Seq<char>,
    pub suppression_until: Option<Seq<char>>,
    pub pending: bool,
}

impl<'a> View for BoundedTemporalRecord<'a> {
    type V = BoundedTemporalRecordView;

    open spec fn view(&self) -> BoundedTemporalRecordView {
        BoundedTemporalRecordView {
            first_observed_at: self.first_observed_at@,
            last_observed_at: self.last_observed_at@,
            suppression_until: match self.suppression_until {
                Some(text) => Some(text@),
                None => None,
            },
            pending: self.pending,
        }
    }
}

/// A clock that was set once and then only runs forward, and the bounds on what it admits.
#[derive(Clone, Copy, Debug, PartialEq, Eq, Structural)]
pub struct BoundedTemporalPolicy {
    /// The wall-clock time at which the policy was made.
    anchor: Instant,
    /// How long ago that was: whole seconds, and nanoseconds of the second.
    elapsed_secs: u64,
    elapsed_nanos: u32,
}

/// An instant of the policy's clock: seconds since 1970 and nanoseconds.
pub struct ClockView {
    pub secs: int,
    pub nanos: int,
}

impl View for BoundedTemporalPolicy {
    type V = ClockView;

    closed spec fn view(&self) -> ClockView {
        time_after(self.anchor, (self.elapsed_secs, self.elapsed_nanos))
    }
}

/// The time that a clock shows once so many seconds and nanoseconds have passed.
pub open spec fn time_after(start: Instant, elapsed: (u64, u32)) -> ClockView {
    let nanos = start.nanos + elapsed.1;
    if nanos >= 1_000_000_000 {
        ClockView { secs: start.secs + elapsed.0 + 1, nanos: nanos - 1_000_000_000 }
    } else {
        ClockView { secs: start.secs + elapsed.0, nanos }
    }
}

/// Whether an instant lies later than `seconds` after the clock's time.
pub open spec fn beyond(instant: Instant, now: ClockView, seconds: int) -> bool {
    instant.secs > now.secs + seconds || (instant.secs == now.secs + seconds && instant.nanos
        > now.nanos)
}

/// Whether one instant lies more than `seconds` after another.
pub open spec fn further_than(instant: Instant, start: Instant, seconds: int) -> bool {
    instant.secs > start.secs + seconds || (instant.secs == start.secs + seconds && instant.nanos
        > start.nanos)
}

/// What the times of a record amount to at a given time of the clock.
pub open spec fn assessment(now: ClockView, record: BoundedTemporalRecordView) -> Result<
    BoundedTemporalDisposition,
    BoundedTemporalViolation,
> {
    match (text_instant(record.first_observed_at), text_instant(record.last_observed_at)) {
        (Some(first), Some(last)) => match record.suppression_until {
            None => if beyond(first, now, MAX_FUTURE_SKEW_SECONDS as int) || beyond(
                last,
                now,
                MAX_FUTURE_SKEW_SECONDS as int,
            ) {
                Err(BoundedTemporalViolation::ObservationTooFarInFuture)
            } else {
                Ok(BoundedTemporalDisposition::Current)
            },
            Some(text) => match text_instant(text) {
                None => Err(BoundedTemporalViolation::MalformedTimestamp),
                Some(until) => if beyond(first, now, MAX_FUTURE_SKEW_SECONDS as int) || beyond(
                    last,
                    now,
                    MAX_FUTURE_SKEW_SECONDS as int,
                ) {
                    Err(BoundedTemporalViolation::ObservationTooFarInFuture)
                } else if further_than(until, last, MAX_SUPPRESSION_SECONDS as int) {
                    Err(BoundedTemporalViolation::SuppressionWindowOutOfBounds)
                } else if record.pending || beyond(until, now, 0) {
                    Ok(BoundedTemporalDisposition::Current)
                } else {
                    Ok(BoundedTemporalDisposition::Expired)
                },
            },
        },
        _ => Err(BoundedTemporalViolation::MalformedTimestamp),
    }
}

/// Whether a record is in force.
pub open spec fn is_current(now: ClockView, record: BoundedTemporalRecordView) -> bool {
    assessment(now, record) == Ok::<BoundedTemporalDisposition, BoundedTemporalViolation>(
        BoundedTemporalDisposition::Current,
    )
}

/// Whether a record suppresses what it is about: its times are in order, and the time until which
/// it suppresses has not come.
pub open spec fn suppresses(now: ClockView, record: BoundedTemporalRecordView) -> bool {
    assessment(now, record) is Ok && match record.suppression_until {
        Some(text) => match text_instant(text) {
            Some(until) => beyond(until, now, 0),
            None => false,
        },
        None => false,
    }
}

/// Whether one time of the clock is no later than another.
pub open spec fn clock_at_most(a: ClockView, b: ClockView) -> bool {
    a.secs < b.secs || (a.secs == b.secs && a.nanos <= b.nanos)
}

/// Time only takes away: what has expired at some time has expired at every later one.
pub proof fn expiry_is_final(a: ClockView, b: ClockView, record: BoundedTemporalRecordView)
    requires
        clock_at_most(a, b),
        assessment(a, record) == Ok::<BoundedTemporalDisposition, BoundedTemporalViolation>(
            BoundedTemporalDisposition::Expired,
        ),
    ensures
        assessment(b, record) == Ok::<BoundedTemporalDisposition, BoundedTemporalViolation>(
            BoundedTemporalDisposition::Expired,
        ),
        !suppresses(b, record),
{
}

/// Once a suppression is over it does not come back.
pub proof fn suppression_never_resumes(
    a: ClockView,
    b: ClockView,
    record: BoundedTemporalRecordView,
)
    requires
        clock_at_most(a, b),
        assessment(a, record) is Ok,
        !suppresses(a, record),
    ensures
        !suppresses(b, record),
{
}

/// What still waits for something never expires.
pub proof fn pending_never_expires(now: ClockView, record: BoundedTemporalRecordView)
    requires
        record.pending,
    ensures
        assessment(now, record) != Ok::<BoundedTemporalDisposition, BoundedTemporalViolation>(
            BoundedTemporalDisposition::Expired,
        ),
{
}

/// What suppresses is in force.
pub proof fn suppressing_is_current(now: ClockView, record: BoundedTemporalRecordView)
    requires
        suppresses(now, record),
    ensures
        is_current(now, record),
{
}

impl BoundedTemporalPolicy {
    /// The time that has passed since the policy was made: whole seconds, and nanoseconds.
    pub closed spec fn elapsed(self) -> (u64, u32) {
        (self.elapsed_secs, self.elapsed_nanos)
    }

    /// The wall-clock time at which the policy was made.
    pub closed spec fn made_at(self) -> Instant {
        self.anchor
    }

    #[verifier::type_invariant]
    spec fn well_formed(self) -> bool {
        self.elapsed_nanos < 1_000_000_000 && self.anchor.nanos < 1_000_000_000
    }

    /// A policy whose clock starts at a wall-clock time.
    pub fn fixed(wall: Instant) -> (r: BoundedTemporalPolicy)
        requires
            wall.nanos < 1_000_000_000,
        ensures
            r@ == (ClockView { secs: wall.secs as int, nanos: wall.nanos as int }),
            r.made_at() == wall,
            r.elapsed() == (0u64, 0u32),
    {
        BoundedTemporalPolicy { anchor: wall, elapsed_secs: 0, elapsed_nanos: 0 }
    }

    /// Notes how much time a monotonic clock says has passed since the policy was made. A reading
    /// that lies behind an earlier one is left aside.
    pub fn observe(&mut self, secs: u64, nanos: u32)
        requires
            nanos < 1_000_000_000,
        ensures
            final(self).made_at() == old(self).made_at(),
            clock_at_most(old(self)@, final(self)@),
            final(self).elapsed() == (if secs > old(self).elapsed().0 || (secs == old(
                self,
            ).elapsed().0 && nanos > old(self).elapsed().1) {
                (secs, nanos)
            } else {
                old(self).elapsed()
            }),
            final(self)@ == time_after(final(self).made_at(), final(self).elapsed()),
    {
        proof {
            use_type_invariant(&*self);
        }
        if secs > self.elapsed_secs || (secs == self.elapsed_secs && nanos > self.elapsed_nanos) {
            *self = BoundedTemporalPolicy {
                anchor: self.anchor,
                elapsed_secs: secs,
                elapsed_nanos: nanos,
            };
        }
    }

    /// Whether an instant lies later than `seconds` after the clock's time.
    fn lies_beyond(&self, instant: &Instant, seconds: i64) -> (r: bool)
        ensures
            r == beyond(*instant, self@, seconds as int),
    {
        proof {
            use_type_invariant(self);
        }
        let mut secs: i128 = self.anchor.secs as i128 + self.elapsed_secs as i128 + seconds as i128;
        let mut nanos: u64 = self.anchor.nanos as u64 + self.elapsed_nanos as u64;
        if nanos >= 1_000_000_000 {
            secs = secs + 1;
            nanos = nanos - 1_000_000_000;
        }
        instant.secs as i128 > secs || (instant.secs as i128 == secs && instant.nanos as u64
            > nanos)
    }

    /// What the times of a record amount to.
    pub fn assess(&self, record: BoundedTemporalRecord<'_>) -> (r: Result<
        BoundedTemporalDisposition,
        BoundedTemporalViolation,
    >)
        ensures
            r == assessment(self@, record@),
    {
        let (first, last) = match (
            parse_timestamp(record.first_observed_at),
            parse_timestamp(record.last_observed_at),
        ) {
            (Some(first), Some(last)) => (first, last),
            _ => {
                return Err(BoundedTemporalViolation::MalformedTimestamp);
            },
        };
        let until = match record.suppression_until {
            None => None,
            Some(text) => match parse_timestamp(text) {
                Some(until) => Some(until),
                None => {
                    return Err(BoundedTemporalViolation::MalformedTimestamp);
                },
            },
        };
        if self.lies_beyond(&first, MAX_FUTURE_SKEW_SECONDS) || self.lies_beyond(
            &last,
            MAX_FUTURE_SKEW_SECONDS,
        ) {
            return Err(BoundedTemporalViolation::ObservationTooFarInFuture);
        }
        match until {
            None => Ok(BoundedTemporalDisposition::Current),
            Some(until) => {
                let bound: i128 = last.secs as i128 + MAX_SUPPRESSION_SECONDS as i128;
                if until.secs as i128 > bound || (until.secs as i128 == bound && until.nanos
                    > last.nanos) {
                    Err(BoundedTemporalViolation::SuppressionWindowOutOfBounds)
                } else if record.pending || self.lies_beyond(&until, 0) {
                    Ok(BoundedTemporalDisposition::Current)
                } else {
                    Ok(BoundedTemporalDisposition::Expired)
                }
            },
        }
    }

    /// Whether a record is in force.
    pub fn current(&self, record: BoundedTemporalRecord<'_>) -> (r: bool)
        ensures
            r == is_current(self@, record@),
    {
        match self.assess(record) {
            Ok(BoundedTemporalDisposition::Current) => true,
            _ => false,
        }
    }

    /// Whether a record suppresses what it is about.
    pub fn suppression_active(&self, record: BoundedTemporalRecord<'_>) -> (r: bool)
        ensures
            r == suppresses(self@, record@),
    {
        if self.assess(record).is_err() {
            return false;
        }
        match record.suppression_until {
            Some(text) => match parse_timestamp(text) {
                Some(until) => self.lies_beyond(&until, 0),
                None => false,
            },
            None => false,
        }
    }
}

/// How many records were left out at loading, by the reason.
#[derive(Clone, Copy, Debug, PartialEq, Eq, Structural)]
pub struct BoundedTemporalLoadIssueCounts {
    pub future_observation: usize,
    pub out_of_bounds_window: usize,
}

/// How many issues there are, as far as can be counted.
pub open spec fn all_issues(counts: BoundedTemporalLoadIssueCounts) -> usize {
    if counts.future_observation + counts.out_of_bounds_window <= usize::MAX {
        (counts.future_observation + counts.out_of_bounds_window) as usize
    } else {
        usize::MAX
    }
}

impl BoundedTemporalLoadIssueCounts {
    /// All records that were left out.
    pub fn total(&self) -> (r: usize)
        ensures
            r == all_issues(*self),
    {
        self.future_observation.saturating_add(self.out_of_bounds_window)
    }
}

} // verus!

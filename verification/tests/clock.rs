use axial_state::instants::{
    canonical_guardian_timestamp, canonical_performance_timestamp, parse_timestamp, Instant,
};
use axial_state::temporal::{
    BoundedTemporalDisposition, BoundedTemporalLoadIssueCounts, BoundedTemporalPolicy,
    BoundedTemporalRecord, BoundedTemporalViolation,
};

const NOON: Instant = Instant { secs: 1_786_615_200, nanos: 0 };

fn record<'a>(
    first: &'a str,
    last: &'a str,
    until: Option<&'a str>,
    pending: bool,
) -> BoundedTemporalRecord<'a> {
    BoundedTemporalRecord {
        first_observed_at: first,
        last_observed_at: last,
        suppression_until: until,
        pending,
    }
}

#[test]
fn instants_are_read_wherever_their_offset_lies() {
    assert_eq!(parse_timestamp("2026-08-13T10:00:00Z"), Some(NOON));
    assert_eq!(parse_timestamp("2026-08-13T12:00:00+02:00"), Some(NOON));
    assert_eq!(parse_timestamp(" 2026-08-13T10:00:00.000Z\n"), Some(NOON));
    assert_eq!(
        parse_timestamp("2026-08-13T10:00:00.25Z"),
        Some(Instant { nanos: 250_000_000, ..NOON })
    );
    assert_eq!(parse_timestamp("2026-08-13"), None);
    assert_eq!(parse_timestamp(""), None);
}

#[test]
fn performance_times_have_one_form() {
    assert_eq!(canonical_performance_timestamp("2026-08-13T10:00:00.000Z"), Some(NOON));
    for text in [
        "2026-08-13T10:00:00Z",
        "2026-08-13T10:00:00+00:00",
        "2026-08-13T12:00:00.000+02:00",
        "2026-08-13T10:00:00.0001Z",
        " 2026-08-13T10:00:00.000Z",
        "yesterday",
    ] {
        assert_eq!(canonical_performance_timestamp(text), None, "{text}");
    }
}

#[test]
fn guardian_times_have_two_forms() {
    assert_eq!(canonical_guardian_timestamp("2026-08-13T10:00:00.000Z"), Some(NOON));
    assert_eq!(canonical_guardian_timestamp("2026-08-13T10:00:00+00:00"), Some(NOON));
    for text in [
        "2026-08-13T10:00:00Z",
        "2026-08-13T12:00:00+02:00",
        "2026-08-13T10:00:00.000+00:00",
        "yesterday",
    ] {
        assert_eq!(canonical_guardian_timestamp(text), None, "{text}");
    }
}

#[test]
fn instants_are_moved_and_ordered() {
    let later = Instant { secs: NOON.secs + 300, nanos: 0 };
    assert_eq!(NOON.later_by(300), Some(later));
    assert_eq!(later.later_by(-300), Some(NOON));
    assert_eq!(NOON.later_by(i64::MAX), None);
    assert!(NOON.before(&later));
    assert!(!later.before(&NOON));
    assert!(!NOON.before(&NOON));
    assert_eq!(Instant { nanos: 1_999_999, ..NOON }.timestamp_millis(), 1_786_615_200_001);
}

#[test]
fn a_suppression_ends_at_its_time_and_does_not_resume() {
    let mut policy = BoundedTemporalPolicy::fixed(NOON);
    let at = "2026-08-13T10:00:00Z";
    let until = "2026-08-13T10:05:00Z";
    assert!(policy.suppression_active(record(at, at, Some(until), false)));
    assert!(policy.current(record(at, at, Some(until), false)));
    policy.observe(299, 999_999_999);
    assert!(policy.suppression_active(record(at, at, Some(until), false)));
    policy.observe(300, 0);
    assert!(!policy.suppression_active(record(at, at, Some(until), false)));
    assert_eq!(
        policy.assess(record(at, at, Some(until), false)),
        Ok(BoundedTemporalDisposition::Expired)
    );
    assert_eq!(
        policy.assess(record(at, at, Some(until), true)),
        Ok(BoundedTemporalDisposition::Current)
    );
    policy.observe(10, 0);
    assert!(!policy.suppression_active(record(at, at, Some(until), false)));
}

#[test]
fn times_out_of_bounds_are_told_apart() {
    let policy = BoundedTemporalPolicy::fixed(NOON);
    let at = "2026-08-13T10:00:00Z";
    assert_eq!(
        policy.assess(record("soon", at, None, false)),
        Err(BoundedTemporalViolation::MalformedTimestamp)
    );
    assert_eq!(
        policy.assess(record(at, at, Some("soon"), false)),
        Err(BoundedTemporalViolation::MalformedTimestamp)
    );
    assert_eq!(
        policy.assess(record(at, "2026-08-13T10:05:00.001Z", None, false)),
        Err(BoundedTemporalViolation::ObservationTooFarInFuture)
    );
    assert_eq!(
        policy.assess(record(at, "2026-08-13T10:05:00Z", None, false)),
        Ok(BoundedTemporalDisposition::Current)
    );
    assert_eq!(
        policy.assess(record(at, at, Some("2026-08-14T10:00:00.001Z"), false)),
        Err(BoundedTemporalViolation::SuppressionWindowOutOfBounds)
    );
    assert_eq!(
        policy.assess(record(at, at, Some("2026-08-14T10:00:00Z"), false)),
        Ok(BoundedTemporalDisposition::Current)
    );
    let issues = BoundedTemporalLoadIssueCounts { future_observation: 2, out_of_bounds_window: 3 };
    assert_eq!(issues.total(), 5);
}

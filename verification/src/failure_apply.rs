//! How a new observation of a failure changes what is remembered of it.

use crate::contracts::GuardianActionKind;
use crate::failure_entry::{
    FailureMemoryStoreError, FailureMemoryValidationError, GuardianFailureMemoryEntry,
    GuardianFailureMemoryEntryView,
};
use crate::failure_keys::counted;
use crate::failure_records::{
    in_key_order, memory_of, memory_times, putting_in_keeps_order, remembers, temporal_record,
    with_memory, FailureRecords, Memories,
};
use crate::failure_validation::memory_verdict;
use crate::instants::{canonical_guardian_timestamp, canonical_instant, Instant};
use crate::record::{opt_same, opt_view, Record};
use crate::rulings::{LauncherRulings, LauncherRulingsView};
use crate::temporal::{suppresses, BoundedTemporalPolicy, ClockView};
use vstd::prelude::*;
use vstd::utf8::encode_utf8;

verus! {

/// For how long a retry of an installation suppresses another one, in seconds.
pub const INSTALL_GUARDIAN_RETRY_SECONDS: i64 = 300;

/// The longest text of a time at which an installation was retried, in bytes.
pub const MAX_RETRY_TIMESTAMP_BYTES: usize = 40;

/// What is remembered of a failure that is observed again: when it was first observed, and how often
/// in all.
pub open spec fn observed_again(
    existing: GuardianFailureMemoryEntryView,
    entry: GuardianFailureMemoryEntryView,
) -> GuardianFailureMemoryEntryView {
    GuardianFailureMemoryEntryView {
        first_observed_at: existing.first_observed_at,
        occurrence_count: counted(
            existing.occurrence_count,
            if entry.occurrence_count == 0 {
                1
            } else {
                entry.occurrence_count
            },
        ),
        repair_attempt_count: counted(existing.repair_attempt_count, entry.repair_attempt_count),
        ..entry
    }
}

/// The memories with an observation added to what is remembered of its failure.
pub open spec fn recorded(s: Memories, entry: GuardianFailureMemoryEntryView) -> Memories {
    match memory_of(s, entry.key) {
        Some(existing) => with_memory(s, observed_again(existing, entry)),
        None => with_memory(s, entry),
    }
}

/// The instant of a text that may stand for the time of a retry.
pub open spec fn retry_instant(text: Seq<char>) -> Option<Instant> {
    if encode_utf8(text).len() > MAX_RETRY_TIMESTAMP_BYTES {
        None
    } else {
        canonical_instant(text)
    }
}

/// The instant of an optional text that may stand for the time of a retry.
pub open spec fn optional_retry_instant(text: Option<Seq<char>>) -> Option<Instant> {
    match text {
        Some(value) => retry_instant(value),
        None => None,
    }
}

/// The error of a retry that does not fit what is remembered.
pub open spec fn retry_mismatch() -> FailureMemoryStoreError {
    FailureMemoryStoreError::Validation(FailureMemoryValidationError::InstallGuardianRetryMismatch)
}

/// When the one retry that an entry speaks of was observed, if it speaks of one.
pub open spec fn retry_observation(entry: GuardianFailureMemoryEntryView) -> Option<Instant> {
    if entry.occurrence_count != 1 || entry.first_observed_at != entry.last_observed_at
        || entry.last_action_kind != Some(GuardianActionKind::Retry)
        || entry.reconciliation_terminal is Some || entry.persisted_state_repair_terminal
        is Some {
        None
    } else {
        match (
            retry_instant(entry.first_observed_at),
            optional_retry_instant(entry.suppression_until),
        ) {
            (Some(observed), Some(until)) => if observed.shifted(INSTALL_GUARDIAN_RETRY_SECONDS)
                == Some(until) {
                Some(observed)
            } else {
                None
            },
            _ => None,
        }
    }
}

/// Whether two memories are of the retries of the same installation.
pub open spec fn same_retry_subject(
    existing: GuardianFailureMemoryEntryView,
    replacement: GuardianFailureMemoryEntryView,
) -> bool {
    existing == (GuardianFailureMemoryEntryView {
        first_observed_at: existing.first_observed_at,
        last_observed_at: existing.last_observed_at,
        occurrence_count: existing.occurrence_count,
        suppression_until: existing.suppression_until,
        ..replacement
    })
}

/// The times of a memory of retries: when the first and the last were observed, and until when the
/// last one suppresses another.
pub struct RetryTimes {
    pub first: Instant,
    pub last: Instant,
    pub until: Instant,
}

/// The times of a memory of retries, if it is one.
pub open spec fn retry_times(
    existing: GuardianFailureMemoryEntryView,
    replacement: GuardianFailureMemoryEntryView,
) -> Option<RetryTimes> {
    match (
        retry_instant(existing.first_observed_at),
        retry_instant(existing.last_observed_at),
        optional_retry_instant(existing.suppression_until),
    ) {
        (Some(first), Some(last), Some(until)) => if existing.reconciliation_terminal is None
            && existing.persisted_state_repair_terminal is None && existing.last_action_kind
            == Some(GuardianActionKind::Retry) && last.shifted(INSTALL_GUARDIAN_RETRY_SECONDS)
            == Some(until) && same_retry_subject(existing, replacement) {
            Some(RetryTimes { first, last, until })
        } else {
            None
        },
        _ => None,
    }
}

/// What is remembered of an installation once a retry found at startup has been counted: `Ok(None)`
/// where it is remembered already.
pub open spec fn counted_again(
    existing: GuardianFailureMemoryEntryView,
    replacement: GuardianFailureMemoryEntryView,
    observed: Instant,
) -> Result<Option<GuardianFailureMemoryEntryView>, FailureMemoryStoreError> {
    match retry_times(existing, replacement) {
        None => Err(retry_mismatch()),
        Some(times) => if existing == replacement {
            Ok(None)
        } else if existing.last_observed_at == replacement.last_observed_at
            && existing.suppression_until == replacement.suppression_until {
            if !observed.is_before(times.first) && existing.occurrence_count >= 1 {
                Ok(None)
            } else {
                Err(retry_mismatch())
            }
        } else if observed.is_before(times.until) || existing.occurrence_count == u32::MAX {
            Err(retry_mismatch())
        } else {
            Ok(
                Some(
                    GuardianFailureMemoryEntryView {
                        first_observed_at: existing.first_observed_at,
                        occurrence_count: (existing.occurrence_count + 1) as u32,
                        ..replacement
                    },
                ),
            )
        },
    }
}

/// What a retry found at startup does to what is remembered of its installation: it is counted, if
/// what is then remembered is valid. `Ok(None)` where it is remembered already.
pub open spec fn retried_again(
    existing: GuardianFailureMemoryEntryView,
    replacement: GuardianFailureMemoryEntryView,
    observed: Instant,
    rulings: LauncherRulingsView,
) -> Result<Option<GuardianFailureMemoryEntryView>, FailureMemoryStoreError> {
    match counted_again(existing, replacement, observed) {
        Ok(Some(again)) => match memory_verdict(again, rulings) {
            Ok(()) => Ok(Some(again)),
            Err(error) => Err(FailureMemoryStoreError::Validation(error)),
        },
        other => other,
    }
}

/// The memories as a retry that was refused leaves them: one that was counted before it was found
/// invalid stands there, and any other one has changed nothing.
pub open spec fn refused_retry_leaves(
    s: Memories,
    replacement: GuardianFailureMemoryEntryView,
) -> Memories {
    match (retry_observation(replacement), memory_of(s, replacement.key)) {
        (Some(observed), Some(existing)) => match counted_again(existing, replacement, observed) {
            Ok(Some(again)) => with_memory(s, again),
            _ => s,
        },
        _ => s,
    }
}

/// The memories once a retry found at startup has been taken in; `None` where it is remembered
/// already.
pub open spec fn retry_taken_in(
    s: Memories,
    replacement: GuardianFailureMemoryEntryView,
    rulings: LauncherRulingsView,
) -> Result<Option<Memories>, FailureMemoryStoreError> {
    match retry_observation(replacement) {
        None => Err(retry_mismatch()),
        Some(observed) => match memory_of(s, replacement.key) {
            None => Ok(Some(with_memory(s, replacement))),
            Some(existing) => match retried_again(existing, replacement, observed, rulings) {
                Ok(Some(again)) => Ok(Some(with_memory(s, again))),
                Ok(None) => Ok(None),
                Err(error) => Err(error),
            },
        },
    }
}

/// The memories once retries found at startup have been taken in one after the other, and whether
/// anything has changed.
pub open spec fn retries_taken_in(
    s: Memories,
    entries: Seq<GuardianFailureMemoryEntryView>,
    rulings: LauncherRulingsView,
) -> Result<(Memories, bool), FailureMemoryStoreError>
    decreases entries.len(),
{
    if entries.len() == 0 {
        Ok((s, false))
    } else {
        match retries_taken_in(s, entries.drop_last(), rulings) {
            Err(error) => Err(error),
            Ok((held, changed)) => match retry_taken_in(held, entries.last(), rulings) {
                Err(error) => Err(error),
                Ok(None) => Ok((held, changed)),
                Ok(Some(more)) => Ok((more, true)),
            },
        }
    }
}

/// Whether the end of a reconciliation that is remembered may be replaced by another one.
pub open spec fn may_supersede_reconciliation(
    existing: GuardianFailureMemoryEntryView,
    replacement: GuardianFailureMemoryEntryView,
    now: ClockView,
) -> bool {
    &&& existing.reconciliation_terminal is Some
    &&& replacement.reconciliation_terminal is Some
    &&& existing.reconciliation_terminal != replacement.reconciliation_terminal
    &&& !suppresses(now, memory_times(existing))
}

/// Whether the end of a repair that is remembered may be replaced by another one.
pub open spec fn may_supersede_repair(
    existing: GuardianFailureMemoryEntryView,
    replacement: GuardianFailureMemoryEntryView,
    now: ClockView,
) -> bool {
    &&& existing.persisted_state_repair_terminal is Some
    &&& replacement.persisted_state_repair_terminal is Some
    &&& existing.key == replacement.key
    &&& existing.persisted_state_repair_terminal != replacement.persisted_state_repair_terminal
    &&& !suppresses(now, memory_times(existing))
}

/// An observation never lowers a counter, never changes when a failure was first observed, and
/// leaves every other failure as it was.
pub proof fn recording_only_adds(s: Memories, entry: GuardianFailureMemoryEntryView)
    requires
        in_key_order(s),
        remembers(s, entry.key),
    ensures
        ({
            let before = memory_of(s, entry.key)->0;
            let after = memory_of(recorded(s, entry), entry.key);
            &&& after matches Some(now) && now.first_observed_at == before.first_observed_at
                && now.occurrence_count >= before.occurrence_count && now.repair_attempt_count
                >= before.repair_attempt_count && now.last_observed_at == entry.last_observed_at
            &&& (before.occurrence_count < u32::MAX ==> after->0.occurrence_count
                > before.occurrence_count)
            &&& forall|key: Seq<char>|
                key != entry.key ==> #[trigger] memory_of(recorded(s, entry), key) == memory_of(
                    s,
                    key,
                )
            &&& in_key_order(recorded(s, entry))
            &&& recorded(s, entry).len() == s.len()
        }),
{
    let existing = memory_of(s, entry.key)->0;
    putting_in_keeps_order(s, observed_again(existing, entry));
    memory_has_key(s, entry.key);
}

/// What is remembered under an identity has that identity.
pub proof fn memory_has_key(s: Memories, key: Seq<char>)
    ensures
        memory_of(s, key) matches Some(entry) ==> entry.key == key && s.contains(entry),
{
    if remembers(s, key) {
        let i = choose|i: int| 0 <= i < s.len() && (#[trigger] s[i]).key == key;
        assert(s[i].key == key);
        assert(s.contains(s[i]));
    }
}

/// Whether what is remembered of the retries of an installation ends after it began.
pub open spec fn retries_end_after_they_began(
    s: Memories,
    replacement: GuardianFailureMemoryEntryView,
) -> bool {
    memory_of(s, replacement.key) matches Some(existing) ==> (retry_times(
        existing,
        replacement,
    ) matches Some(times) ==> !times.until.is_before(times.first))
}

/// A retry that has been taken in is not counted a second time.
pub proof fn taking_in_a_retry_twice_counts_it_once(
    s: Memories,
    replacement: GuardianFailureMemoryEntryView,
    rulings: LauncherRulingsView,
)
    requires
        in_key_order(s),
        retries_end_after_they_began(s, replacement),
        retry_taken_in(s, replacement, rulings) matches Ok(Some(_)),
    ensures
        retry_taken_in(retry_taken_in(s, replacement, rulings)->Ok_0->0, replacement, rulings)
            == Ok::<Option<Memories>, FailureMemoryStoreError>(None),
{
    let observed = retry_observation(replacement)->0;
    if remembers(s, replacement.key) {
        memory_has_key(s, replacement.key);
        let existing = memory_of(s, replacement.key)->0;
        let again = retried_again(existing, replacement, observed, rulings)->Ok_0->0;
        putting_in_keeps_order(s, again);
    } else {
        putting_in_keeps_order(s, replacement);
    }
}

fn retry_timestamp(value: &str) -> (r: Option<Instant>)
    ensures
        r == retry_instant(value@),
{
    if value.as_bytes().len() > MAX_RETRY_TIMESTAMP_BYTES {
        return None;
    }
    canonical_guardian_timestamp(value)
}

fn optional_retry_timestamp(value: &Option<String>) -> (r: Option<Instant>)
    ensures
        r == optional_retry_instant(opt_view(*value)),
{
    match value {
        Some(text) => retry_timestamp(text.as_str()),
        None => None,
    }
}

fn follows_by_retry_window(observed: &Instant, until: &Instant) -> (r: bool)
    ensures
        r == (observed.shifted(INSTALL_GUARDIAN_RETRY_SECONDS) == Some(*until)),
{
    match observed.later_by(INSTALL_GUARDIAN_RETRY_SECONDS) {
        Some(later) => later.secs == until.secs && later.nanos == until.nanos,
        None => false,
    }
}

fn is_retry(entry: &GuardianFailureMemoryEntry) -> (r: bool)
    ensures
        r == (entry@.last_action_kind == Some(GuardianActionKind::Retry)
            && entry@.reconciliation_terminal is None && entry@.persisted_state_repair_terminal
            is None),
{
    let retried = match entry.last_action_kind {
        Some(kind) => kind == GuardianActionKind::Retry,
        None => false,
    };
    retried && entry.reconciliation_terminal.is_none()
        && entry.persisted_state_repair_terminal.is_none()
}

/// When the one retry that an entry speaks of was observed.
pub fn install_guardian_retry_observation(entry: &GuardianFailureMemoryEntry) -> (r: Result<
    Instant,
    FailureMemoryStoreError,
>)
    ensures
        r == (match retry_observation(entry@) {
            Some(observed) => Ok::<Instant, FailureMemoryStoreError>(observed),
            None => Err(retry_mismatch()),
        }),
{
    let mismatch = FailureMemoryStoreError::Validation(
        FailureMemoryValidationError::InstallGuardianRetryMismatch,
    );
    if entry.occurrence_count != 1 || !entry.first_observed_at.same(&entry.last_observed_at)
        || !is_retry(entry) {
        return Err(mismatch);
    }
    match (
        retry_timestamp(entry.first_observed_at.as_str()),
        optional_retry_timestamp(&entry.suppression_until),
    ) {
        (Some(observed), Some(until)) => {
            if follows_by_retry_window(&observed, &until) {
                Ok(observed)
            } else {
                Err(mismatch)
            }
        },
        _ => Err(mismatch),
    }
}

/// Whether two memories are of the retries of the same installation.
pub fn install_guardian_retry_identity_matches(
    existing: &GuardianFailureMemoryEntry,
    replacement: &GuardianFailureMemoryEntry,
) -> (r: bool)
    ensures
        r == same_retry_subject(existing@, replacement@),
{
    existing.key.same(&replacement.key) && existing.diagnosis_id == replacement.diagnosis_id
        && existing.domain == replacement.domain && existing.mode == replacement.mode
        && existing.target.same(&replacement.target) && existing.ownership
        == replacement.ownership && opt_same(
        &existing.last_action_kind,
        &replacement.last_action_kind,
    ) && opt_same(&existing.last_action_outcome, &replacement.last_action_outcome)
        && existing.repair_attempt_count == replacement.repair_attempt_count
        && existing.quarantine_checkpoint.same(&replacement.quarantine_checkpoint) && opt_same(
        &existing.target_content_hash,
        &replacement.target_content_hash,
    ) && opt_same(&existing.user_intent_hash, &replacement.user_intent_hash) && opt_same(
        &existing.reconciliation_terminal,
        &replacement.reconciliation_terminal,
    ) && opt_same(
        &existing.persisted_state_repair_terminal,
        &replacement.persisted_state_repair_terminal,
    )
}

fn times_of_retries(
    existing: &GuardianFailureMemoryEntry,
    replacement: &GuardianFailureMemoryEntry,
) -> (r: Option<(Instant, Instant, Instant)>)
    ensures
        r == (match retry_times(existing@, replacement@) {
            Some(times) => Some((times.first, times.last, times.until)),
            None => None,
        }),
{
    match (
        retry_timestamp(existing.first_observed_at.as_str()),
        retry_timestamp(existing.last_observed_at.as_str()),
        optional_retry_timestamp(&existing.suppression_until),
    ) {
        (Some(first), Some(last), Some(until)) => {
            if is_retry(existing) && follows_by_retry_window(&last, &until)
                && install_guardian_retry_identity_matches(existing, replacement) {
                Some((first, last, until))
            } else {
                None
            }
        },
        _ => None,
    }
}

fn retry_again(
    existing: &GuardianFailureMemoryEntry,
    replacement: GuardianFailureMemoryEntry,
    observed: Instant,
) -> (r: Result<Option<GuardianFailureMemoryEntry>, FailureMemoryStoreError>)
    ensures
        (match r {
            Ok(again) => Ok(opt_view(again)),
            Err(error) => Err(error),
        }) == counted_again(existing@, replacement@, observed),
{
    let mismatch = FailureMemoryStoreError::Validation(
        FailureMemoryValidationError::InstallGuardianRetryMismatch,
    );
    let (first, _last, until) = match times_of_retries(existing, &replacement) {
        Some(times) => times,
        None => {
            return Err(mismatch);
        },
    };
    if existing.same(&replacement) {
        return Ok(None);
    }
    if existing.last_observed_at.same(&replacement.last_observed_at) && opt_same(
        &existing.suppression_until,
        &replacement.suppression_until,
    ) {
        if !observed.before(&first) && existing.occurrence_count >= 1 {
            return Ok(None);
        }
        return Err(mismatch);
    }
    if observed.before(&until) || existing.occurrence_count == u32::MAX {
        return Err(mismatch);
    }
    let mut again = replacement;
    again.first_observed_at = existing.first_observed_at.duplicate();
    again.occurrence_count = existing.occurrence_count + 1;
    Ok(Some(again))
}

/// Adds an observation to what is remembered of its failure.
pub fn apply_record(records: &mut FailureRecords, entry: GuardianFailureMemoryEntry)
    ensures
        final(records)@ == recorded(old(records)@, entry@),
        in_key_order(final(records)@),
{
    let mut entry = entry;
    match records.get(entry.key.as_str()) {
        Some(existing) => {
            let more: u32 = if entry.occurrence_count == 0 {
                1
            } else {
                entry.occurrence_count
            };
            entry.first_observed_at = existing.first_observed_at.duplicate();
            entry.occurrence_count = existing.occurrence_count.saturating_add(more);
            entry.repair_attempt_count = existing.repair_attempt_count.saturating_add(
                entry.repair_attempt_count,
            );
        },
        None => {},
    }
    records.insert(entry);
}

/// Puts the end of a repair in place of what was remembered under its identity.
pub fn apply_reconciliation_record(records: &mut FailureRecords, entry: GuardianFailureMemoryEntry)
    ensures
        final(records)@ == with_memory(old(records)@, entry@),
        in_key_order(final(records)@),
{
    records.insert(entry);
}

/// Takes in a retry that was found at startup. Says whether anything has changed. What an error leaves
/// behind is not to be used.
pub fn apply_install_guardian_startup_retry(
    records: &mut FailureRecords,
    replacement: GuardianFailureMemoryEntry,
    rulings: &LauncherRulings,
) -> (r: Result<bool, FailureMemoryStoreError>)
    ensures
        match retry_taken_in(old(records)@, replacement@, rulings@) {
            Ok(Some(after)) => r == Ok::<bool, FailureMemoryStoreError>(true) && final(records)@
                == after,
            Ok(None) => r == Ok::<bool, FailureMemoryStoreError>(false) && final(records)@ == old(
                records,
            )@,
            Err(error) => r == Err::<bool, FailureMemoryStoreError>(error) && final(records)@
                == refused_retry_leaves(old(records)@, replacement@),
        },
{
    let observed = match install_guardian_retry_observation(&replacement) {
        Ok(observed) => observed,
        Err(error) => {
            return Err(error);
        },
    };
    let again = match records.get(replacement.key.as_str()) {
        Some(existing) => match retry_again(existing, replacement, observed) {
            Ok(Some(again)) => again,
            Ok(None) => {
                return Ok(false);
            },
            Err(error) => {
                return Err(error);
            },
        },
        None => {
            records.insert(replacement);
            return Ok(true);
        },
    };
    let verdict = again.validate(rulings);
    records.insert(again);
    match verdict {
        Ok(()) => Ok(true),
        Err(error) => Err(FailureMemoryStoreError::Validation(error)),
    }
}

/// Whether the end of a reconciliation that is remembered may be replaced by another one.
pub fn reconciliation_entry_can_be_superseded(
    existing: &GuardianFailureMemoryEntry,
    replacement: &GuardianFailureMemoryEntry,
    temporal: &BoundedTemporalPolicy,
) -> (r: bool)
    ensures
        r == may_supersede_reconciliation(existing@, replacement@, temporal@),
{
    if existing.reconciliation_terminal.is_none() || replacement.reconciliation_terminal.is_none() {
        return false;
    }
    if opt_same(&existing.reconciliation_terminal, &replacement.reconciliation_terminal) {
        return false;
    }
    !temporal.suppression_active(temporal_record(existing))
}

/// Whether the end of a repair that is remembered may be replaced by another one.
pub fn persisted_state_repair_entry_can_be_superseded(
    existing: &GuardianFailureMemoryEntry,
    replacement: &GuardianFailureMemoryEntry,
    temporal: &BoundedTemporalPolicy,
) -> (r: bool)
    ensures
        r == may_supersede_repair(existing@, replacement@, temporal@),
{
    if existing.persisted_state_repair_terminal.is_none()
        || replacement.persisted_state_repair_terminal.is_none() {
        return false;
    }
    if !existing.key.same(&replacement.key) || opt_same(
        &existing.persisted_state_repair_terminal,
        &replacement.persisted_state_repair_terminal,
    ) {
        return false;
    }
    !temporal.suppression_active(temporal_record(existing))
}

} // verus!

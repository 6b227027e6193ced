//! What holds of the memory of failures when something is recorded in it.

use crate::contracts::{DiagnosisId, GuardianActionKind, GuardianDomain, GuardianMode};
use crate::evidence::{
    PersistedStateRepairTerminalView, ReconciliationQuarantineCheckpointView,
    ReconciliationTerminalView, TargetDescriptorView,
};
use crate::failure_apply::{
    memory_has_key, observed_again, recorded, retried_again, retries_taken_in, retry_observation,
    retry_taken_in,
};
use crate::failure_entry::{
    FailureMemoryActionOutcome, FailureMemoryStoreError, FailureMemoryValidationError,
    GuardianFailureMemoryEntryView,
};
use crate::failure_keys::{
    content_has_changed, observed_entry, publication_is_pending, reconciled_entry, repair_entry,
    with_checkpoint, with_content_hash, with_last_action, with_one_more_attempt, with_suppression,
};
use crate::failure_records::{
    in_force, in_force_keeps_exactly, in_key_order, memory_at, memory_of, memory_times, protecting,
    putting_in_keeps_order, thinning_keeps_what_must_stay, Memories,
};
use crate::failure_store::{
    base_memories, constructed, memory_recorded, nobody, protected_by, FailureMemoryStoreView,
};
use crate::failure_validation::memory_verdict;
use crate::instants::{canonical_instant, Instant};
use crate::journal_errors::PersistenceFault;
use crate::rulings::{ruled_id, LauncherRulingsView};
use crate::temporal::assessment;
use crate::text::trimmed;
use vstd::prelude::*;

verus! {

/// Whether a count is the sum of two others, or as much of it as can be counted.
pub open spec fn adds_up(a: u32, b: int, sum: u32) -> bool {
    &&& a + b <= u32::MAX ==> sum == a + b
    &&& a + b > u32::MAX ==> sum == u32::MAX
}

/// Whether two memories agree in all but when the failure was first observed and in what is counted.
pub open spec fn agree_but_for_counts(
    a: GuardianFailureMemoryEntryView,
    b: GuardianFailureMemoryEntryView,
) -> bool {
    &&& a.key == b.key
    &&& a.diagnosis_id == b.diagnosis_id
    &&& a.domain == b.domain
    &&& a.mode == b.mode
    &&& a.target == b.target
    &&& a.ownership == b.ownership
    &&& a.last_observed_at == b.last_observed_at
    &&& a.last_action_kind == b.last_action_kind
    &&& a.last_action_outcome == b.last_action_outcome
    &&& a.quarantine_checkpoint == b.quarantine_checkpoint
    &&& a.suppression_until == b.suppression_until
    &&& a.target_content_hash == b.target_content_hash
    &&& a.user_intent_hash == b.user_intent_hash
    &&& a.reconciliation_terminal == b.reconciliation_terminal
    &&& a.persisted_state_repair_terminal == b.persisted_state_repair_terminal
}

/// Whether a memory is what becomes of one that is observed again: the new observation in every field,
/// but that the failure was first observed when it was before, and that the counts add up. An
/// observation counts at least once.
pub open spec fn is_observed_again(
    before: GuardianFailureMemoryEntryView,
    entry: GuardianFailureMemoryEntryView,
    after: GuardianFailureMemoryEntryView,
) -> bool {
    &&& agree_but_for_counts(after, entry)
    &&& after.first_observed_at == before.first_observed_at
    &&& entry.occurrence_count > 0 ==> adds_up(
        before.occurrence_count,
        entry.occurrence_count as int,
        after.occurrence_count,
    )
    &&& entry.occurrence_count == 0 ==> adds_up(before.occurrence_count, 1, after.occurrence_count)
    &&& adds_up(
        before.repair_attempt_count,
        entry.repair_attempt_count as int,
        after.repair_attempt_count,
    )
}

/// Whether memories differ in no other key than this one.
pub open spec fn others_stay(
    before: Memories,
    after: Memories,
    key: Seq<char>,
) -> bool {
    forall|other: Seq<char>|
        other != key ==> #[trigger] memory_of(after, other)
            == memory_of(before, other)
}

/// After an entry is recorded over a remembered one of the same key, what is remembered agrees with
/// the new entry in every field but when the failure was first observed and the two counts. A failure
/// that was not remembered is remembered as it is given. Nothing else of the memory changes.
pub proof fn recorded_memory_is_the_new_one(
    s: Memories,
    entry: GuardianFailureMemoryEntryView,
)
    requires
        in_key_order(s),
    ensures
        ({
            let after = recorded(s, entry);
            let before = memory_of(s, entry.key);
            let now = memory_of(after, entry.key);
            &&& now is Some
            &&& before is Some ==> is_observed_again(before->0, entry, now->0)
            &&& before is Some ==> now->0.suppression_until == entry.suppression_until
            &&& before is None ==> now->0 == entry
            &&& others_stay(s, after, entry.key)
            &&& in_key_order(after)
            &&& after.len() == s.len() + (if before is Some {
                0int
            } else {
                1int
            })
        }),
{
    putting_in_keeps_order(s, entry);
    if let Some(existing) = memory_of(s, entry.key) {
        putting_in_keeps_order(
            s,
            observed_again(existing, entry),
        );
    }
}

/// What is remembered under a key is of that key. It is there exactly where the key is remembered, and
/// memories that are in the order of their keys remember each key once.
pub proof fn remembered_under_its_key(s: Memories, i: int)
    requires
        in_key_order(s),
        0 <= i < s.len(),
    ensures
        memory_of(s, s[i].key) == Some(s[i]),
        forall|key: Seq<char>|
            (forall|j: int| 0 <= j < s.len() ==> (#[trigger] s[j]).key != key)
                ==> #[trigger] memory_of(s, key) is None,
{
    memory_at(s, i);
}

/// Whether a memory is in order and its times are in force.
pub open spec fn is_in_force(
    store: FailureMemoryStoreView,
    entry: GuardianFailureMemoryEntryView,
    rulings: LauncherRulingsView,
) -> bool {
    let times = assessment(
        store.now,
        memory_times(entry),
    );
    &&& memory_verdict(entry, rulings) is Ok
    &&& times is Ok
    &&& times->Ok_0 is Current
}

/// Whether an answer refuses an entry that cannot be recorded now: while a write is open, where it or
/// its times are not in order, and where they have expired and may not have.
pub open spec fn refuses_what_cannot_be<T>(
    store: FailureMemoryStoreView,
    entry: GuardianFailureMemoryEntryView,
    late: bool,
    rulings: LauncherRulingsView,
    answer: Result<T, FailureMemoryStoreError>,
) -> bool {
    let times = assessment(
        store.now,
        memory_times(entry),
    );
    let valid = memory_verdict(entry, rulings) is Ok;
    if store.retry_candidate is Some || store.critical_pending {
        answer == Err::<T, _>(
            FailureMemoryStoreError::Persistence(
                PersistenceFault::RetryPending,
            ),
        )
    } else if !valid || times is Err {
        answer is Err && answer->Err_0 is Validation
    } else if times->Ok_0 is Expired && !late {
        answer is Err && answer->Err_0 is Expired
    } else {
        answer is Err ==> answer->Err_0 is CapacityExhausted
    }
}

/// Recording an entry leaves only memories that were in force before, as they were, and the entry
/// itself: as it is given where it is new, and otherwise as what becomes of the remembered one when it
/// is observed again. Where there is room, and the entry is in force, it is remembered.
pub proof fn recorded_entry_joins_the_memory(
    store: FailureMemoryStoreView,
    entry: GuardianFailureMemoryEntryView,
    rulings: LauncherRulingsView,
)
    requires
        in_key_order(store.visible),
    ensures
        ({
            let answer = memory_recorded(store, entry, rulings);
            let left = answer->Ok_0;
            let held = memory_of(store.visible, entry.key);
            let was = held is Some && is_in_force(store, held->0, rulings);
            &&& refuses_what_cannot_be(store, entry, false, rulings, answer)
            &&& answer is Ok ==> {
                &&& in_key_order(left)
                &&& left.len() <= store.max_entries
                &&& forall|i: int|
                    0 <= i < left.len() && (#[trigger] left[i]).key != entry.key
                        ==> store.visible.contains(left[i]) && is_in_force(store, left[i], rulings)
                &&& forall|i: int|
                    0 <= i < left.len() && (#[trigger] left[i]).key == entry.key ==> (if was {
                        is_observed_again(held->0, entry, left[i])
                    } else {
                        left[i] == entry
                    })
            }
        }),
{
    if memory_recorded(store, entry, rulings) is Ok {
        let left = memory_recorded(store, entry, rulings)->Ok_0;
        let nobody = protecting(
            nobody(),
            store.now,
            rulings,
        );
        let base = base_memories(store, rulings);
        in_force_keeps_exactly(store.visible, nobody);
        recorded_memory_is_the_new_one(base, entry);
        let changed = recorded(base, entry);
        let rules = protecting(
            protected_by(entry),
            store.now,
            rulings,
        );
        in_force_keeps_exactly(changed, rules);
        let forced = in_force(changed, rules);
        thinning_keeps_what_must_stay(forced, store.max_entries, rules);
        assert forall|i: int| 0 <= i < left.len() implies changed.contains(#[trigger] left[i]) by {
            assert(left.contains(left[i]));
            assert(forced.contains(left[i]));
        }
        base_is_what_is_in_force(store, rulings);
        assert forall|i: int|
            0 <= i < left.len() && (#[trigger] left[i]).key != entry.key implies store.visible.contains(
            left[i],
        ) && is_in_force(store, left[i], rulings) by {
            assert(changed.contains(left[i]));
            let k = choose|k: int| 0 <= k < changed.len() && changed[k] == left[i];
            memory_at(changed, k);
            assert(memory_of(changed, left[i].key) == Some(left[i]));
            assert(memory_of(base, left[i].key) == Some(left[i]));
            memory_has_key(base, left[i].key);
            assert(base.contains(left[i]));
        }
        held_in_base(store, entry.key, rulings);
        assert forall|i: int|
            0 <= i < left.len() && (#[trigger] left[i]).key == entry.key implies Some(left[i])
            == memory_of(changed, entry.key) by {
            assert(changed.contains(left[i]));
            let k = choose|k: int| 0 <= k < changed.len() && changed[k] == left[i];
            memory_at(changed, k);
        }
    }
}

/// What a change starts from is what is remembered and in force.
pub proof fn base_is_what_is_in_force(
    store: FailureMemoryStoreView,
    rulings: LauncherRulingsView,
)
    requires
        in_key_order(store.visible),
    ensures
        forall|entry: GuardianFailureMemoryEntryView| #[trigger]
            base_memories(store, rulings).contains(entry)
                <==> store.visible.contains(entry) && is_in_force(store, entry, rulings),
        in_key_order(base_memories(store, rulings)),
{
    let nobody = protecting(
        nobody(),
        store.now,
        rulings,
    );
    in_force_keeps_exactly(store.visible, nobody);
    assert(forall|key: Seq<char>| !nobody.protected.contains(key));
}

/// What is remembered under a key and in force is there when something is recorded.
pub proof fn held_in_base(
    store: FailureMemoryStoreView,
    key: Seq<char>,
    rulings: LauncherRulingsView,
)
    requires
        in_key_order(store.visible),
    ensures
        ({
            let held = memory_of(store.visible, key);
            let base = base_memories(store, rulings);
            memory_of(base, key) == if held is Some && is_in_force(
                store,
                held->0,
                rulings,
            ) {
                held
            } else {
                None
            }
        }),
{
    let held = memory_of(store.visible, key);
    let base = base_memories(store, rulings);
    base_is_what_is_in_force(store, rulings);
    memory_has_key(store.visible, key);
    memory_has_key(base, key);
    if let Some(found) = memory_of(base, key) {
        assert(base.contains(found));
        assert(store.visible.contains(found));
        let k = choose|k: int| 0 <= k < store.visible.len() && store.visible[k] == found;
        memory_at(store.visible, k);
    }
    if held is Some && is_in_force(store, held->0, rulings) {
        assert(base.contains(held->0));
        let k = choose|k: int| 0 <= k < base.len() && base[k] == held->0;
        memory_at(base, k);
    }
}

/// What is shown of the memory is what is remembered and in force.
pub proof fn shown_memories_are_in_force(
    store: FailureMemoryStoreView,
    rulings: LauncherRulingsView,
    entry: GuardianFailureMemoryEntryView,
)
    requires
        in_key_order(store.visible),
    ensures
        base_memories(store, rulings).contains(entry)
            <==> store.visible.contains(entry) && is_in_force(store, entry, rulings),
        in_key_order(base_memories(store, rulings)),
        constructed(store, entry, rulings) is Ok <==> is_in_force(
            store,
            entry,
            rulings,
        ),
        constructed(store, entry, rulings) is Ok
            ==> constructed(store, entry, rulings)->Ok_0 == entry,
{
    base_is_what_is_in_force(store, rulings);
}

/// Whether memories agree in all but their times and how often the failure occurred.
pub open spec fn same_retry(
    a: GuardianFailureMemoryEntryView,
    b: GuardianFailureMemoryEntryView,
) -> bool {
    &&& a.key == b.key
    &&& a.diagnosis_id == b.diagnosis_id
    &&& a.domain == b.domain
    &&& a.mode == b.mode
    &&& a.target == b.target
    &&& a.ownership == b.ownership
    &&& a.last_action_kind == b.last_action_kind
    &&& a.last_action_outcome == b.last_action_outcome
    &&& a.repair_attempt_count == b.repair_attempt_count
    &&& a.quarantine_checkpoint == b.quarantine_checkpoint
    &&& a.target_content_hash == b.target_content_hash
    &&& a.user_intent_hash == b.user_intent_hash
    &&& a.reconciliation_terminal == b.reconciliation_terminal
    &&& a.persisted_state_repair_terminal == b.persisted_state_repair_terminal
}

/// The instant of a text in the one form that the Guardian writes, where it is not too long.
pub open spec fn retry_time(text: Seq<char>) -> Option<Instant> {
    if vstd::utf8::encode_utf8(text).len() <= 40 {
        canonical_instant(text)
    } else {
        None
    }
}

/// Whether a memory ends its suppression this many seconds after an observation.
pub open spec fn waits_for(
    observed: Option<Instant>,
    until: Option<Seq<char>>,
    seconds: i64,
) -> bool {
    &&& observed is Some
    &&& until is Some
    &&& retry_time(until->0) is Some
    &&& observed->0.shifted(seconds) == retry_time(until->0)
}

/// Whether a memory is of a single retry that waits for five minutes.
pub open spec fn is_single_retry(
    entry: GuardianFailureMemoryEntryView,
) -> bool {
    &&& entry.occurrence_count == 1
    &&& entry.first_observed_at == entry.last_observed_at
    &&& entry.last_action_kind is Some
    &&& entry.last_action_kind->0 is Retry
    &&& entry.reconciliation_terminal is None
    &&& entry.persisted_state_repair_terminal is None
    &&& waits_for(retry_time(entry.first_observed_at), entry.suppression_until, 300)
}

/// Whether a memory is of retries of the same failure, the last of which waits for five minutes.
pub open spec fn can_be_retried_as(
    existing: GuardianFailureMemoryEntryView,
    replacement: GuardianFailureMemoryEntryView,
) -> bool {
    &&& same_retry(existing, replacement)
    &&& existing.last_action_kind is Some
    &&& existing.last_action_kind->0 is Retry
    &&& existing.reconciliation_terminal is None
    &&& existing.persisted_state_repair_terminal is None
    &&& retry_time(existing.first_observed_at) is Some
    &&& waits_for(retry_time(existing.last_observed_at), existing.suppression_until, 300)
}

/// A retry is taken in where nothing is remembered of it, and then as it is given. A later one, of the
/// same failure and not before the wait for the earlier one is over, is counted once more, under the
/// time of the first. One that is remembered already changes nothing. Anything else is refused.
pub proof fn retry_is_counted_once_it_is_due(
    s: Memories,
    replacement: GuardianFailureMemoryEntryView,
    rulings: LauncherRulingsView,
)
    requires
        in_key_order(s),
    ensures
        ({
            let answer = retry_taken_in(s, replacement, rulings);
            let after = answer->Ok_0->0;
            let held = memory_of(s, replacement.key);
            let now = memory_of(after, replacement.key);
            let observed = retry_time(replacement.first_observed_at)->0;
            let mismatch = FailureMemoryStoreError::Validation(
                FailureMemoryValidationError::InstallGuardianRetryMismatch,
            );
            let same_times = held->0.last_observed_at == replacement.last_observed_at
                && held->0.suppression_until == replacement.suppression_until;
            let first = retry_time(held->0.first_observed_at)->0;
            let due = !observed.is_before(retry_time(held->0.suppression_until->0)->0);
            &&& answer matches Ok(Some(_)) ==> others_stay(s, after, replacement.key)
                && in_key_order(after)
            &&& !is_single_retry(replacement) ==> answer is Err && answer->Err_0 == mismatch
            &&& is_single_retry(replacement) && held is None ==> {
                &&& answer is Ok
                &&& answer->Ok_0 is Some
                &&& now == Some(replacement)
            }
            &&& is_single_retry(replacement) && held is Some ==> {
                &&& !can_be_retried_as(held->0, replacement) ==> answer is Err && answer->Err_0
                    == mismatch
                &&& can_be_retried_as(held->0, replacement) && held->0 == replacement ==> answer
                    is Ok && answer->Ok_0 is None
                &&& can_be_retried_as(held->0, replacement) && held->0 != replacement && same_times
                    ==> if !observed.is_before(first) && held->0.occurrence_count >= 1 {
                    answer is Ok && answer->Ok_0 is None
                } else {
                    answer is Err && answer->Err_0 == mismatch
                }
                &&& can_be_retried_as(held->0, replacement) && !same_times && (!due
                    || held->0.occurrence_count == u32::MAX) ==> answer is Err && answer->Err_0
                    == mismatch
                &&& can_be_retried_as(held->0, replacement) && !same_times && due
                    && held->0.occurrence_count < u32::MAX ==> {
                    &&& answer is Err ==> answer->Err_0 is Validation
                    &&& answer is Ok ==> {
                        &&& answer->Ok_0 is Some
                        &&& now is Some
                        &&& same_retry(now->0, replacement)
                        &&& now->0.first_observed_at == held->0.first_observed_at
                        &&& now->0.last_observed_at == replacement.last_observed_at
                        &&& now->0.suppression_until == replacement.suppression_until
                        &&& now->0.occurrence_count == held->0.occurrence_count + 1
                    }
                }
            }
        }),
{
    putting_in_keeps_order(s, replacement);
    if let Some(existing) = memory_of(s, replacement.key) {
        if let Some(observed) = retry_observation(replacement) {
            if let Ok(Some(again)) = retried_again(
                existing,
                replacement,
                observed,
                rulings,
            ) {
                putting_in_keeps_order(s, again);
                memory_has_key(s, replacement.key);
            }
        }
    }
}

/// A batch of retries of different failures takes each in as it would be alone, and touches no other.
pub proof fn retries_of_a_batch_stand_alone(
    s: Memories,
    entries: Seq<GuardianFailureMemoryEntryView>,
    rulings: LauncherRulingsView,
)
    requires
        in_key_order(s),
        forall|i: int, j: int|
            0 <= i < j < entries.len() ==> (#[trigger] entries[i]).key != (
            #[trigger] entries[j]).key,
        retries_taken_in(s, entries, rulings) is Ok,
    ensures
        ({
            let after = retries_taken_in(s, entries, rulings)->Ok_0.0;
            let changed = retries_taken_in(s, entries, rulings)->Ok_0.1;
            &&& in_key_order(after)
            &&& forall|key: Seq<char>|
                (forall|i: int| 0 <= i < entries.len() ==> (#[trigger] entries[i]).key != key)
                    ==> #[trigger] memory_of(after, key)
                    == memory_of(s, key)
            &&& forall|i: int|
                0 <= i < entries.len() ==> {
                    let alone = retry_taken_in(
                        s,
                        #[trigger] entries[i],
                        rulings,
                    );
                    &&& alone is Ok
                    &&& memory_of(after, entries[i].key)
                        == memory_of(
                        match alone->Ok_0 {
                            Some(taken) => taken,
                            None => s,
                        },
                        entries[i].key,
                    )
                }
            &&& changed <==> exists|i: int|
                0 <= i < entries.len() && retry_taken_in(
                    s,
                    #[trigger] entries[i],
                    rulings,
                )->Ok_0 is Some
        }),
    decreases entries.len(),
{
    if entries.len() > 0 {
        let front = entries.drop_last();
        let last = entries.last();
        assert forall|i: int, j: int| 0 <= i < j < front.len() implies (#[trigger] front[i]).key != (
        #[trigger] front[j]).key by {
            assert(entries[i].key != entries[j].key);
        }
        retries_of_a_batch_stand_alone(s, front, rulings);
        let held = retries_taken_in(s, front, rulings)->Ok_0.0;
        assert forall|i: int| 0 <= i < front.len() implies (#[trigger] front[i]).key != last.key by {
            assert(entries[i].key != entries[entries.len() - 1].key);
        }
        assert(memory_of(held, last.key)
            == memory_of(s, last.key));
        retry_is_counted_once_it_is_due(held, last, rulings);
        retry_is_counted_once_it_is_due(s, last, rulings);
        retry_rests_on_its_own_memory(held, s, last, rulings);
        let after = retries_taken_in(s, entries, rulings)->Ok_0.0;
        assert forall|i: int| 0 <= i < entries.len() implies {
            let alone = retry_taken_in(s, #[trigger] entries[i], rulings);
            &&& alone is Ok
            &&& memory_of(after, entries[i].key)
                == memory_of(
                match alone->Ok_0 {
                    Some(taken) => taken,
                    None => s,
                },
                entries[i].key,
            )
        } by {
            if i < front.len() {
                assert(front[i] == entries[i]);
            }
        }
        assert forall|key: Seq<char>|
            (forall|i: int| 0 <= i < entries.len() ==> (#[trigger] entries[i]).key
                != key) implies #[trigger] memory_of(after, key)
            == memory_of(s, key) by {
            assert forall|i: int| 0 <= i < front.len() implies (#[trigger] front[i]).key != key by {
                assert(entries[i].key != key);
            }
            assert(entries[entries.len() - 1].key != key);
        }
        let changed = retries_taken_in(s, entries, rulings)->Ok_0.1;
        let before = retries_taken_in(s, front, rulings)->Ok_0.1;
        if changed {
            if before {
                let i = choose|i: int|
                    0 <= i < front.len() && retry_taken_in(
                        s,
                        #[trigger] front[i],
                        rulings,
                    )->Ok_0 is Some;
                assert(entries[i] == front[i]);
            } else {
                assert(entries[entries.len() - 1] == last);
            }
        } else {
            assert forall|i: int| 0 <= i < entries.len() implies retry_taken_in(
                s,
                #[trigger] entries[i],
                rulings,
            )->Ok_0 is None by {
                if i < front.len() {
                    assert(front[i] == entries[i]);
                }
            }
        }
    }
}

proof fn retry_rests_on_its_own_memory(
    a: Memories,
    b: Memories,
    entry: GuardianFailureMemoryEntryView,
    rulings: LauncherRulingsView,
)
    requires
        in_key_order(a),
        in_key_order(b),
        memory_of(a, entry.key) == memory_of(
            b,
            entry.key,
        ),
    ensures
        ({
            let x = retry_taken_in(a, entry, rulings);
            let y = retry_taken_in(b, entry, rulings);
            &&& x is Ok <==> y is Ok
            &&& x is Ok ==> {
                &&& x->Ok_0 is Some <==> y->Ok_0 is Some
                &&& x->Ok_0 is Some ==> memory_of(x->Ok_0->0, entry.key)
                    == memory_of(y->Ok_0->0, entry.key)
            }
        }),
{
    putting_in_keeps_order(a, entry);
    putting_in_keeps_order(b, entry);
    if let Some(existing) = memory_of(a, entry.key) {
        memory_has_key(a, entry.key);
        if let Some(observed) = retry_observation(entry) {
            if let Ok(Some(again)) = retried_again(
                existing,
                entry,
                observed,
                rulings,
            ) {
                putting_in_keeps_order(a, again);
                putting_in_keeps_order(b, again);
            }
        }
    }
}

/// A builder of a memory sets what it names and leaves the rest. An attempt is counted once, and as far
/// as can be counted. A time that is blank suppresses nothing.
pub proof fn builders_set_what_they_name(
    entry: GuardianFailureMemoryEntryView,
    kind: GuardianActionKind,
    outcome: FailureMemoryActionOutcome,
    checkpoint: ReconciliationQuarantineCheckpointView,
    until: Seq<char>,
    hash: Seq<char>,
    rulings: LauncherRulingsView,
)
    ensures
        ({
            let after = with_last_action(entry, kind, outcome);
            &&& after.last_action_kind == Some(kind)
            &&& after.last_action_outcome == Some(outcome)
            &&& after.repair_attempt_count == entry.repair_attempt_count
            &&& after.quarantine_checkpoint == entry.quarantine_checkpoint
            &&& after.suppression_until == entry.suppression_until
            &&& after.target_content_hash == entry.target_content_hash
            &&& is_the_same_failure(entry, after)
        }),
        ({
            let after = with_one_more_attempt(entry);
            &&& adds_up(entry.repair_attempt_count, 1, after.repair_attempt_count)
            &&& after.last_action_kind == entry.last_action_kind
            &&& after.last_action_outcome == entry.last_action_outcome
            &&& after.quarantine_checkpoint == entry.quarantine_checkpoint
            &&& after.suppression_until == entry.suppression_until
            &&& after.target_content_hash == entry.target_content_hash
            &&& is_the_same_failure(entry, after)
        }),
        ({
            let after = with_checkpoint(entry, checkpoint);
            &&& after.quarantine_checkpoint == checkpoint
            &&& after.repair_attempt_count == entry.repair_attempt_count
            &&& after.last_action_kind == entry.last_action_kind
            &&& after.last_action_outcome == entry.last_action_outcome
            &&& after.suppression_until == entry.suppression_until
            &&& after.target_content_hash == entry.target_content_hash
            &&& is_the_same_failure(entry, after)
        }),
        ({
            let after = with_suppression(entry, until);
            let text = trimmed(until);
            &&& text.len() > 0 ==> after.suppression_until == Some(text)
            &&& text.len() == 0 ==> after.suppression_until is None
            &&& after.quarantine_checkpoint == entry.quarantine_checkpoint
            &&& after.repair_attempt_count == entry.repair_attempt_count
            &&& after.last_action_kind == entry.last_action_kind
            &&& after.last_action_outcome == entry.last_action_outcome
            &&& after.target_content_hash == entry.target_content_hash
            &&& is_the_same_failure(entry, after)
        }),
        ({
            let after = with_content_hash(entry, hash, rulings);
            let safe = ruled_id(rulings.sanitized_ids, hash, "target_hash"@);
            &&& safe.len() > 0 && safe != "target_hash"@ ==> after.target_content_hash == Some(safe)
            &&& safe.len() == 0 || safe == "target_hash"@ ==> after.target_content_hash is None
            &&& !content_has_changed(after, hash, rulings)
            &&& after.suppression_until == entry.suppression_until
            &&& after.quarantine_checkpoint == entry.quarantine_checkpoint
            &&& after.repair_attempt_count == entry.repair_attempt_count
            &&& after.last_action_kind == entry.last_action_kind
            &&& after.last_action_outcome == entry.last_action_outcome
            &&& is_the_same_failure(entry, after)
        }),
{
}

/// Whether two memories are of the same failure, observed at the same times and as often.
pub open spec fn is_the_same_failure(
    a: GuardianFailureMemoryEntryView,
    b: GuardianFailureMemoryEntryView,
) -> bool {
    &&& a.key == b.key
    &&& a.diagnosis_id == b.diagnosis_id
    &&& a.domain == b.domain
    &&& a.mode == b.mode
    &&& a.target == b.target
    &&& a.ownership == b.ownership
    &&& a.first_observed_at == b.first_observed_at
    &&& a.last_observed_at == b.last_observed_at
    &&& a.occurrence_count == b.occurrence_count
    &&& a.user_intent_hash == b.user_intent_hash
    &&& a.reconciliation_terminal == b.reconciliation_terminal
    &&& a.persisted_state_repair_terminal == b.persisted_state_repair_terminal
}

/// The content of a target has changed against what is remembered exactly where it would be remembered
/// otherwise.
pub proof fn content_changes_are_noticed(
    entry: GuardianFailureMemoryEntryView,
    hash: Seq<char>,
    rulings: LauncherRulingsView,
)
    ensures
        content_has_changed(entry, hash, rulings)
            <==> with_content_hash(entry, hash, rulings).target_content_hash
            != entry.target_content_hash,
{
}

/// A failure that is observed is remembered as observed once, now, with nothing done about it.
pub proof fn observed_failure_is_new(
    diagnosis_id: DiagnosisId,
    domain: GuardianDomain,
    target: TargetDescriptorView,
    mode: GuardianMode,
    intent: Option<Seq<char>>,
    observed_at: Seq<char>,
    rulings: LauncherRulingsView,
)
    ensures
        ({
            let entry = observed_entry(
                diagnosis_id,
                domain,
                target,
                mode,
                intent,
                observed_at,
                rulings,
            );
            let safe = ruled_id(rulings.sanitized_ids, intent->0, "intent"@);
            &&& entry.diagnosis_id == diagnosis_id
            &&& entry.domain == domain
            &&& entry.target == target
            &&& entry.mode == mode
            &&& entry.ownership == target.ownership
            &&& entry.first_observed_at == observed_at
            &&& entry.last_observed_at == observed_at
            &&& entry.occurrence_count == 1
            &&& entry.repair_attempt_count == 0
            &&& entry.last_action_kind is None
            &&& entry.last_action_outcome is None
            &&& entry.suppression_until is None
            &&& entry.target_content_hash is None
            &&& entry.reconciliation_terminal is None
            &&& entry.persisted_state_repair_terminal is None
            &&& entry.quarantine_checkpoint.records.len() == 0
            &&& entry.quarantine_checkpoint.bounded
            &&& intent is None ==> entry.user_intent_hash is None
            &&& intent is Some && safe.len() > 0 ==> entry.user_intent_hash == Some(safe)
            &&& intent is Some && safe.len() == 0 ==> entry.user_intent_hash is None
        }),
{
}

/// The end of a repair is remembered under what it repaired: as repaired where the record was put in
/// quarantine and as failed in any other case, once, and until the attempt said.
pub proof fn repair_is_remembered_by_its_end(
    terminal: PersistedStateRepairTerminalView,
)
    ensures
        ({
            let entry = repair_entry(terminal);
            &&& entry.persisted_state_repair_terminal == Some(terminal)
            &&& entry.reconciliation_terminal is None
            &&& entry.diagnosis_id is PersistedStateSchemaInvalid
            &&& entry.domain is State
            &&& entry.mode is Managed
            &&& entry.ownership is LauncherManaged
            &&& entry.target == terminal.attempt.target
            &&& entry.first_observed_at == terminal.attempt.observed_at
            &&& entry.last_observed_at == terminal.attempt.observed_at
            &&& entry.suppression_until == Some(terminal.attempt.suppression_until)
            &&& entry.occurrence_count == 1
            &&& entry.repair_attempt_count == 1
            &&& entry.last_action_kind is Some
            &&& entry.last_action_kind->0 is Quarantine
            &&& entry.last_action_outcome is Some
            &&& entry.last_action_outcome->0 is Repaired <==> terminal.outcome is Quarantined
            &&& entry.last_action_outcome->0 is Failed <==> terminal.outcome !is Quarantined
            &&& entry.quarantine_checkpoint.records.len() == 0
            &&& entry.quarantine_checkpoint.bounded
            &&& entry.target_content_hash is None
            &&& entry.user_intent_hash is None
        }),
{
}

/// A memory that takes the end of a reconciliation in is owned and handled as the attempt was, holds no
/// intent, and keeps everything else.
pub proof fn reconciled_memory_holds_its_end(
    entry: GuardianFailureMemoryEntryView,
    terminal: ReconciliationTerminalView,
    rulings: LauncherRulingsView,
)
    ensures
        ({
            let after = reconciled_entry(entry, terminal, rulings);
            &&& after.reconciliation_terminal == Some(terminal)
            &&& after.mode == terminal.attempt.mode
            &&& after.ownership == terminal.attempt.ownership
            &&& after.target.ownership == terminal.attempt.ownership
            &&& after.target.system == entry.target.system
            &&& after.target.kind == entry.target.kind
            &&& after.target.id == entry.target.id
            &&& after.user_intent_hash is None
            &&& after.diagnosis_id == entry.diagnosis_id
            &&& after.domain == entry.domain
            &&& after.first_observed_at == entry.first_observed_at
            &&& after.last_observed_at == entry.last_observed_at
            &&& after.occurrence_count == entry.occurrence_count
            &&& after.last_action_kind == entry.last_action_kind
            &&& after.last_action_outcome == entry.last_action_outcome
            &&& after.repair_attempt_count == entry.repair_attempt_count
            &&& after.quarantine_checkpoint == entry.quarantine_checkpoint
            &&& after.suppression_until == entry.suppression_until
            &&& after.target_content_hash == entry.target_content_hash
            &&& after.persisted_state_repair_terminal == entry.persisted_state_repair_terminal
            &&& publication_is_pending(after) <==> (
            terminal.version_bundle_publication is Some
                && terminal.version_bundle_publication->0.pending)
        }),
{
}

} // verus!

//! What holds of how the memory of failures is kept: what is forgotten, reserved, written and loaded.

use crate::evidence::PersistedStateRepairAttemptView;
use crate::failure_apply::{memory_has_key, retry_observation, retry_taken_in};
use crate::failure_entry::{
    FailureMemoryStoreError, FailureMemoryValidationError, GuardianFailureMemoryEntryView,
};
use crate::failure_keys::repair_key;
use crate::failure_laws::{
    acknowledged_memory_stays_acknowledged, memory_drafts_are_ordered_and_bounded,
    recorded_end_is_remembered,
};
use crate::failure_records::{
    end_is_in_force, in_force, in_force_keeps_exactly, in_key_order, last_seen_millis,
    memory_assessment, memory_at, memory_of, memory_times, protecting, putting_in_keeps_order,
    thinned, thinning_fills_the_bound, thinning_forgets_the_oldest, thinning_keeps_what_must_stay,
    with_memory, Memories, MemoryRules,
};
use crate::failure_store::{
    attempt_reserved, base_memories, empty_memory, end_recorded, end_step, expired_carriers,
    is_loaded, is_suppressed, keys_in_force, keys_in_force_are_listed, loaded_memories,
    memory_accepted, memory_awaited, memory_loaded, memory_retried, memory_settled, occupied,
    protected_by, publication_acknowledged, reconciliation_remembered, released, repair_remembered,
    repair_reserved, retries_reconciled, retry_batch_verdict, step_before_reconciling,
    step_following, step_owed, without_keeps_unique, written_down, FailureMemoryStoreView,
    PendingFailureMemoryCommitView, PendingStep, ReservationView, TerminalStepView,
};
use crate::failure_validation::{
    memory_rows_verdict, memory_snapshot_in_order, memory_snapshot_verdict, memory_verdict,
    FailureMemorySnapshotView, FAILURE_MEMORY_SCHEMA,
};
use crate::instants::text_instant;
use crate::journal_records::acknowledged;
use crate::journal_store::WriteTicket;
use crate::memory_laws::{
    base_is_what_is_in_force, held_in_base, is_in_force, is_single_retry, refuses_what_cannot_be,
    retries_of_a_batch_stand_alone, shown_memories_are_in_force,
};
use crate::rulings::LauncherRulingsView;
use crate::settlement_laws::is_acknowledgement_of;
use crate::temporal::{
    assessment, suppresses, BoundedTemporalDisposition, BoundedTemporalRecordView, ClockView,
};
use crate::text::text_less;
use vstd::prelude::*;

verus! {

/// Whether a memory is of a repair that has ended and keeps others away for now: its publication is
/// pending, or it suppresses.
pub open spec fn holds_its_place(
    now: ClockView,
    entry: GuardianFailureMemoryEntryView,
) -> bool {
    let terminal = entry.reconciliation_terminal;
    ||| terminal is Some && terminal->0.version_bundle_publication is Some
        && terminal->0.version_bundle_publication->0.pending
    ||| (terminal is Some || entry.persisted_state_repair_terminal is Some)
        && suppresses(now, memory_times(entry))
}

/// The times of a memory are those of its observations and of its suppression, and it cannot expire
/// while its publication is pending.
pub proof fn memory_times_are_its_own(
    entry: GuardianFailureMemoryEntryView,
)
    ensures
        ({
            let times = memory_times(entry);
            let terminal = entry.reconciliation_terminal;
            &&& times.first_observed_at == entry.first_observed_at
            &&& times.last_observed_at == entry.last_observed_at
            &&& times.suppression_until == entry.suppression_until
            &&& times.pending <==> terminal is Some && terminal->0.version_bundle_publication
                is Some && terminal->0.version_bundle_publication->0.pending
        }),
{
}

/// When the memory is thinned, nothing is added. What is protected stays, and so does the end of a
/// repair that holds its place. Of the rest the one that was last seen earliest is forgotten first, and
/// of those that were last seen together the one whose key comes first. No more is forgotten than has
/// to be.
pub proof fn oldest_memory_is_forgotten_first(
    s: Memories,
    max: nat,
    rules: MemoryRules,
    gone: GuardianFailureMemoryEntryView,
    kept: GuardianFailureMemoryEntryView,
)
    requires
        in_key_order(s),
        s.contains(gone),
        s.contains(kept),
    ensures
        ({
            let left = thinned(s, max, rules);
            let seen = last_seen_millis(gone);
            let later = last_seen_millis(kept);
            &&& in_key_order(left)
            &&& forall|entry: GuardianFailureMemoryEntryView| #[trigger]
                left.contains(entry) ==> s.contains(entry)
            &&& s.len() <= max ==> left == s
            &&& s.len() > max ==> left.len() >= max
            &&& rules.protected.contains(kept.key) || holds_its_place(rules.now, kept)
                ==> left.contains(kept)
            &&& !left.contains(gone) ==> !rules.protected.contains(gone.key) && !holds_its_place(
                rules.now,
                gone,
            )
            &&& !left.contains(gone) && left.contains(kept) && !rules.protected.contains(kept.key)
                && !holds_its_place(rules.now, kept) ==> seen < later || (seen == later
                && text_less(gone.key, kept.key))
        }),
{
    thinning_keeps_what_must_stay(s, max, rules);
    thinning_fills_the_bound(s, max, rules);
    let left = thinned(s, max, rules);
    assert(holds_its_place(rules.now, kept) == end_is_in_force(
        rules.now,
        kept,
    ));
    assert(holds_its_place(rules.now, gone) == end_is_in_force(
        rules.now,
        gone,
    ));
    if !left.contains(gone) && left.contains(kept) && !rules.protected.contains(kept.key)
        && !holds_its_place(rules.now, kept) {
        thinning_forgets_the_oldest(s, max, rules, gone, kept);
    }
}

/// The time at which a failure was last seen is that of its last observation.
pub proof fn last_seen_is_the_last_observation(
    entry: GuardianFailureMemoryEntryView,
)
    ensures
        ({
            let at = text_instant(entry.last_observed_at);
            &&& at is Some ==> last_seen_millis(entry) == at->0.secs * 1000
                + at->0.nanos / 1_000_000
            &&& at is None ==> last_seen_millis(entry) == 0
        }),
{
}

/// What leaves the memory for its times is what is not protected and either not in order or no longer
/// in force.
pub proof fn what_is_in_force_stays(
    s: Memories,
    rules: MemoryRules,
    entry: GuardianFailureMemoryEntryView,
)
    requires
        in_key_order(s),
    ensures
        ({
            let left = in_force(s, rules);
            let times = assessment(
                rules.now,
                memory_times(entry),
            );
            let valid = memory_verdict(entry, rules.rulings) is Ok;
            &&& in_key_order(left)
            &&& left.contains(entry) <==> s.contains(entry) && (rules.protected.contains(entry.key)
                || (valid && times is Ok && times->Ok_0 is Current))
        }),
{
    in_force_keeps_exactly(s, rules);
}

/// The end of a repair is remembered as it is given, whatever was remembered of it before, and also
/// after its times have expired. What else stays was there before and in force.
pub proof fn recorded_end_replaces_what_was_remembered(
    store: FailureMemoryStoreView,
    entry: GuardianFailureMemoryEntryView,
    rulings: LauncherRulingsView,
)
    requires
        in_key_order(store.visible),
        entry.reconciliation_terminal is Some || entry.persisted_state_repair_terminal is Some,
    ensures
        ({
            let answer = end_recorded(store, entry, rulings);
            let left = answer->Ok_0;
            &&& refuses_what_cannot_be(store, entry, true, rulings, answer)
            &&& answer is Ok ==> {
                &&& in_key_order(left)
                &&& left.len() <= store.max_entries
                &&& memory_of(left, entry.key) == Some(entry)
                &&& forall|i: int|
                    0 <= i < left.len() && (#[trigger] left[i]).key != entry.key
                        ==> store.visible.contains(left[i]) && is_in_force(store, left[i], rulings)
            }
        }),
{
    recorded_end_is_remembered(store, entry, rulings);
    if end_recorded(store, entry, rulings) is Ok {
        let left = end_recorded(store, entry, rulings)->Ok_0;
        let base = base_memories(store, rulings);
        shown_memories_are_in_force(store, rulings, entry);
        putting_in_keeps_order(base, entry);
        let changed = with_memory(base, entry);
        let rules = protecting(
            protected_by(entry),
            store.now,
            rulings,
        );
        in_force_keeps_exactly(changed, rules);
        let forced = in_force(changed, rules);
        thinning_keeps_what_must_stay(forced, store.max_entries, rules);
        assert forall|i: int|
            0 <= i < left.len() && (#[trigger] left[i]).key != entry.key implies store.visible.contains(
            left[i],
        ) && is_in_force(store, left[i], rulings) by {
            assert(left.contains(left[i]));
            assert(forced.contains(left[i]));
            assert(changed.contains(left[i]));
            let k = choose|k: int| 0 <= k < changed.len() && changed[k] == left[i];
            memory_at(changed, k);
            assert(memory_of(base, left[i].key) == Some(left[i]));
            memory_has_key(base, left[i].key);
            shown_memories_are_in_force(store, rulings, left[i]);
        }
    }
}

/// What is to be done about the end of a repair: nothing where it is remembered as it is given, first
/// the repetition of a write that failed where that has not been tried, and else to write what is left
/// once it is recorded.
pub proof fn end_of_a_repair_takes_one_step(
    store: FailureMemoryStoreView,
    entry: GuardianFailureMemoryEntryView,
    retried: bool,
    rulings: LauncherRulingsView,
)
    ensures
        ({
            let answer = end_step(store, entry, retried, rulings);
            let written = end_recorded(store, entry, rulings);
            let held = memory_of(store.visible, entry.key);
            &&& (answer is Ok && answer->Ok_0 is Done) <==> held == Some(entry)
            &&& (answer is Ok && answer->Ok_0 is RetryFirst) <==> held != Some(entry)
                && store.retry_candidate is Some && !retried
            &&& held != Some(entry) && (store.retry_candidate is None || retried) ==> {
                &&& answer is Ok <==> written is Ok
                &&& answer is Ok ==> answer->Ok_0 == TerminalStepView::Write(
                    written->Ok_0,
                )
                &&& answer is Err ==> answer->Err_0 == written->Err_0
            }
        }),
{
}

/// Whether the end of a repair may stand in place of what is remembered under its key: nothing is, or
/// the same is, or another end of the same kind is that no longer suppresses.
pub open spec fn may_take_the_place(
    store: FailureMemoryStoreView,
    entry: GuardianFailureMemoryEntryView,
) -> bool {
    let held = memory_of(store.visible, entry.key);
    let waits = suppresses(
        store.now,
        memory_times(held->0),
    );
    ||| held is None
    ||| held == Some(entry)
    ||| !waits && entry.reconciliation_terminal is Some && held->0.reconciliation_terminal is Some
        && held->0.reconciliation_terminal != entry.reconciliation_terminal
    ||| !waits && entry.reconciliation_terminal is None
        && entry.persisted_state_repair_terminal is Some
        && held->0.persisted_state_repair_terminal is Some
        && held->0.persisted_state_repair_terminal != entry.persisted_state_repair_terminal
}

/// Whether a reservation is of this entry and of this store, and still stands.
pub open spec fn is_reserved(
    store: FailureMemoryStoreView,
    entry: GuardianFailureMemoryEntryView,
    reservation: ReservationView,
) -> bool {
    &&& reservation.key == entry.key
    &&& reservation.owner == store.identity
    &&& store.attempts.contains(entry.key)
}

/// The end of a reconciliation is taken only with one, under its reservation, in order, and where it
/// may stand in place of what is remembered. Otherwise the answer says what was wrong.
pub proof fn only_a_reserved_reconciliation_ends(
    store: FailureMemoryStoreView,
    entry: GuardianFailureMemoryEntryView,
    reservation: ReservationView,
    retried: bool,
    rulings: LauncherRulingsView,
)
    requires
        in_key_order(store.visible),
    ensures
        ({
            let answer = reconciliation_remembered(
                store,
                entry,
                reservation,
                retried,
                rulings,
            );
            let step = end_step(store, entry, retried, rulings);
            let times = assessment(
                store.now,
                memory_times(entry),
            );
            let valid = memory_verdict(entry, rulings) is Ok && times
                is Ok;
            let refused = answer is Err && answer->Err_0 is Validation;
            if entry.reconciliation_terminal is None {
                refused && answer->Err_0->Validation_0 is InvalidReconciliationTerminal
            } else if !valid {
                refused
            } else if !is_reserved(store, entry, reservation) {
                refused && answer->Err_0->Validation_0 is MemoryKeyMismatch
            } else if !may_take_the_place(store, entry) {
                refused && answer->Err_0->Validation_0 is ReconciliationTerminalMismatch
            } else {
                ||| answer is Err && answer->Err_0 is CapacityExhausted
                ||| answer == step
            }
        }),
{
}

/// The end of a repair of a record is taken only with one, under its reservation, in order, and where
/// it may stand in place of what is remembered. Otherwise the answer says what was wrong.
pub proof fn only_a_reserved_repair_ends(
    store: FailureMemoryStoreView,
    entry: GuardianFailureMemoryEntryView,
    reservation: ReservationView,
    retried: bool,
    rulings: LauncherRulingsView,
)
    requires
        in_key_order(store.visible),
        entry.reconciliation_terminal is None,
    ensures
        ({
            let answer = repair_remembered(
                store,
                entry,
                reservation,
                retried,
                rulings,
            );
            let step = end_step(store, entry, retried, rulings);
            let times = assessment(
                store.now,
                memory_times(entry),
            );
            let valid = memory_verdict(entry, rulings) is Ok && times
                is Ok;
            let refused = answer is Err && answer->Err_0 is Validation;
            if entry.persisted_state_repair_terminal is None {
                refused && answer->Err_0->Validation_0 is InvalidPersistedStateRepairTerminal
            } else if !valid {
                refused
            } else if !is_reserved(store, entry, reservation) {
                refused && answer->Err_0->Validation_0 is MemoryKeyMismatch
            } else if !may_take_the_place(store, entry) {
                refused && answer->Err_0->Validation_0 is PersistedStateRepairTerminalMismatch
            } else {
                ||| answer is Err && answer->Err_0 is CapacityExhausted
                ||| answer == step
            }
        }),
{
    memory_has_key(store.visible, entry.key);
}

/// An attempt is reserved where nothing is open, it is not reserved yet and there is room. Then it is
/// the last of those that are reserved, and nothing else changes. Its reservation names it and the
/// store. A refusal changes nothing.
pub proof fn attempt_is_reserved_once(
    store: FailureMemoryStoreView,
    key: Seq<char>,
)
    ensures
        ({
            let (after, answer) = attempt_reserved(store, key);
            let open = store.retry_candidate is Some || store.critical_pending;
            let full = !occupied(store).contains(key)
                && occupied(store).len() >= store.max_entries;
            &&& answer is Err ==> after == store
            &&& open ==> answer is Err && answer->Err_0 is PersistencePending
            &&& !open && store.attempts.contains(key) ==> answer is Err
                && answer->Err_0 is AlreadyReserved
            &&& !open && !store.attempts.contains(key) && full ==> answer is Err
                && answer->Err_0 is CapacityExhausted
            &&& !open && !store.attempts.contains(key) && !full ==> {
                &&& answer is Ok
                &&& answer->Ok_0.key == key
                &&& answer->Ok_0.owner == store.identity
                &&& reserves_one_more(store, after, key)
            }
        }),
{
}

/// Whether a store is another in which one more attempt is reserved.
pub open spec fn reserves_one_more(
    before: FailureMemoryStoreView,
    after: FailureMemoryStoreView,
    key: Seq<char>,
) -> bool {
    &&& after.attempts.len() == before.attempts.len() + 1
    &&& forall|i: int| 0 <= i < before.attempts.len() ==> #[trigger] after.attempts[i]
        == before.attempts[i]
    &&& after.attempts.last() == key
    &&& same_but_for_attempts(before, after)
}

/// Whether two stores agree in all but what is reserved.
pub open spec fn same_but_for_attempts(
    a: FailureMemoryStoreView,
    b: FailureMemoryStoreView,
) -> bool {
    &&& a.visible == b.visible
    &&& a.visible_revision == b.visible_revision
    &&& a.retry_candidate == b.retry_candidate
    &&& a.critical_pending == b.critical_pending
    &&& a.identity == b.identity
    &&& a.max_entries == b.max_entries
    &&& a.now == b.now
    &&& a.issues == b.issues
}

/// A repair of a record is reserved where its attempt is in order and in force, nothing is open, it is
/// neither reserved yet nor suppressed, and there is room.
pub proof fn repair_is_reserved_once(
    store: FailureMemoryStoreView,
    attempt: PersistedStateRepairAttemptView,
)
    ensures
        ({
            let (after, answer) = repair_reserved(store, attempt);
            let key = repair_key(attempt);
            let open = store.retry_candidate is Some || store.critical_pending;
            let times = assessment(
                store.now,
                BoundedTemporalRecordView {
                    first_observed_at: attempt.observed_at,
                    last_observed_at: attempt.observed_at,
                    suppression_until: Some(attempt.suppression_until),
                    pending: false,
                },
            );
            let sound = attempt.consistent && times is Ok && times->Ok_0 is Current;
            let held = memory_of(store.visible, key);
            let waits = held is Some && suppresses(
                store.now,
                memory_times(held->0),
            );
            let full = !occupied(store).contains(key)
                && occupied(store).len() >= store.max_entries;
            &&& answer is Err ==> after == store
            &&& answer is Ok ==> {
                &&& answer->Ok_0.key == key
                &&& answer->Ok_0.owner == store.identity
                &&& reserves_one_more(store, after, key)
            }
            &&& if !sound {
                answer is Err && answer->Err_0 is InvalidAttempt
            } else if open {
                answer is Err && answer->Err_0 is PersistencePending
            } else if store.attempts.contains(key) {
                answer is Err && answer->Err_0 is AlreadyReserved
            } else if waits {
                answer is Err && answer->Err_0 is Suppressed
            } else if full {
                answer is Err && answer->Err_0 is CapacityExhausted
            } else {
                answer is Ok
            }
        }),
{
}

/// What a place is taken by: an attempt that is reserved, or the end of a repair that holds its place.
pub proof fn places_are_taken_by_these(
    store: FailureMemoryStoreView,
    key: Seq<char>,
)
    ensures
        occupied(store).contains(key) <==> store.attempts.contains(key)
            || exists|i: int|
            0 <= i < store.visible.len() && (#[trigger] store.visible[i]).key == key
                && holds_its_place(store.now, store.visible[i]),
{
    keys_in_force_are_listed(store.visible, store.now, key);
    if store.attempts.contains(key) {
        let i = choose|i: int| 0 <= i < store.attempts.len() && store.attempts[i] == key;
        assert(store.attempts.to_set().contains(key));
    }
    if exists|i: int|
        0 <= i < store.visible.len() && (#[trigger] store.visible[i]).key == key && holds_its_place(
            store.now,
            store.visible[i],
        ) {
        let i = choose|i: int|
            0 <= i < store.visible.len() && (#[trigger] store.visible[i]).key == key
                && holds_its_place(store.now, store.visible[i]);
        assert(end_is_in_force(store.now, store.visible[i]));
    }
    if keys_in_force(store.visible, store.now).contains(key) {
        let i = choose|i: int|
            0 <= i < store.visible.len() && (#[trigger] store.visible[i]).key == key
                && end_is_in_force(store.now, store.visible[i]);
        assert(holds_its_place(store.now, store.visible[i]));
    }
}

/// A reservation that is given back to its store leaves nothing reserved under its key and everything
/// else as it was. Another store does not take it.
pub proof fn given_back_reservation_is_gone(
    store: FailureMemoryStoreView,
    reservation: ReservationView,
    other: Seq<char>,
)
    requires
        store.attempts.no_duplicates(),
    ensures
        ({
            let after = released(store, reservation);
            &&& reservation.owner != store.identity ==> after == store
            &&& same_but_for_attempts(store, after)
            &&& reservation.owner == store.identity ==> !after.attempts.contains(reservation.key)
            &&& other != reservation.key ==> (after.attempts.contains(other)
                <==> store.attempts.contains(other))
        }),
{
    without_keeps_unique(store.attempts, reservation.key);
}

/// What is handed over to be written shows at once where nobody waits for the write, and else only once
/// it has been written. A write that fails is kept to be repeated and keeps everything else away.
pub proof fn written_memory_shows_when_it_is_durable(
    store: FailureMemoryStoreView,
    candidate: Memories,
    revision: u64,
    commit: PendingFailureMemoryCommitView,
)
    ensures
        ({
            let ticket = WriteTicket::Unpersisted;
            let after = memory_accepted(store, candidate, ticket);
            &&& after.visible == candidate
            &&& after.visible_revision == store.visible_revision
            &&& after.retry_candidate == store.retry_candidate
            &&& after.critical_pending == store.critical_pending
            &&& keeps_the_rest(store, after)
            &&& memory_awaited(candidate, ticket) is None
        }),
        ({
            let ticket = WriteTicket::Debounced(revision);
            let after = memory_accepted(store, candidate, ticket);
            &&& after.visible == candidate
            &&& after.visible_revision == revision
            &&& after.retry_candidate == store.retry_candidate
            &&& after.critical_pending == store.critical_pending
            &&& keeps_the_rest(store, after)
            &&& memory_awaited(candidate, ticket) is None
        }),
        ({
            let ticket = WriteTicket::Immediate(revision);
            let after = memory_accepted(store, candidate, ticket);
            let awaited = memory_awaited(candidate, ticket);
            &&& after.visible == store.visible
            &&& after.visible_revision == store.visible_revision
            &&& after.retry_candidate == store.retry_candidate
            &&& after.critical_pending
            &&& keeps_the_rest(store, after)
            &&& awaited is Some
            &&& awaited->0.revision == revision
            &&& awaited->0.candidate == candidate
        }),
        ({
            let after = memory_settled(store, commit, true);
            &&& after.retry_candidate is None
            &&& !after.critical_pending
            &&& keeps_the_rest(store, after)
            &&& store.visible_revision < commit.revision ==> after.visible == commit.candidate
                && after.visible_revision == commit.revision
            &&& store.visible_revision >= commit.revision ==> after.visible == store.visible
                && after.visible_revision == store.visible_revision
        }),
        ({
            let after = memory_settled(store, commit, false);
            &&& after.retry_candidate == Some(commit)
            &&& after.critical_pending == store.critical_pending
            &&& after.visible == store.visible
            &&& after.visible_revision == store.visible_revision
            &&& keeps_the_rest(store, after)
            &&& memory_retried(after, commit.revision) == Some(commit)
            &&& revision != commit.revision ==> memory_retried(
                after,
                revision,
            ) is None
        }),
        store.retry_candidate is None ==> memory_retried(store, revision)
            is None,
{
}

/// Whether two stores agree in what no write changes.
pub open spec fn keeps_the_rest(
    a: FailureMemoryStoreView,
    b: FailureMemoryStoreView,
) -> bool {
    &&& a.attempts == b.attempts
    &&& a.identity == b.identity
    &&& a.max_entries == b.max_entries
    &&& a.now == b.now
    &&& a.issues == b.issues
}

/// What is owed before anything else: to repeat a write that failed, and else to wait for one that is
/// under way. Before a reconciliation the writes are waited for in any case.
pub proof fn owed_step_comes_first(store: FailureMemoryStoreView)
    ensures
        ({
            let owed = step_owed(store);
            let first = step_before_reconciling(store);
            &&& owed is Retry <==> store.retry_candidate is Some
            &&& owed is Flush <==> store.retry_candidate is None && store.critical_pending
            &&& owed is Nothing <==> store.retry_candidate is None && !store.critical_pending
            &&& first is Retry <==> store.retry_candidate is Some
            &&& first is Flush <==> store.retry_candidate is None
        }),
{
}

/// A new memory is empty and open, and has room for at least one failure and for no more than it is
/// made for.
pub proof fn new_memory_is_empty(
    max_entries: usize,
    now: ClockView,
    identity: u64,
)
    ensures
        ({
            let store = empty_memory(max_entries, now, identity);
            &&& store.visible.len() == 0
            &&& store.attempts.len() == 0
            &&& store.visible_revision == 0
            &&& store.retry_candidate is None
            &&& !store.critical_pending
            &&& store.identity == identity
            &&& store.now == now
            &&& store.issues.future_observation == 0
            &&& store.issues.out_of_bounds_window == 0
            &&& 1 <= store.max_entries <= 128
            &&& 1 <= max_entries <= 128 ==> store.max_entries == max_entries
            &&& max_entries > 128 ==> store.max_entries == 128
        }),
{
}

/// A snapshot is loaded as a whole or not at all. What is loaded was in the snapshot, is in order, and
/// is in force or carries a publication. What was open is closed then, and what is reserved stays.
pub proof fn loaded_memory_comes_from_the_snapshot(
    store: FailureMemoryStoreView,
    snapshot: FailureMemorySnapshotView,
    sizes: Seq<u64>,
    rulings: LauncherRulingsView,
)
    ensures
        ({
            let (after, answer) = memory_loaded(
                store,
                snapshot,
                sizes,
                rulings,
            );
            &&& answer is Err ==> after == store
            &&& answer is Ok ==> {
                &&& in_key_order(after.visible)
                &&& after.visible.len() <= store.max_entries
                &&& after.visible_revision == 0
                &&& after.retry_candidate is None
                &&& !after.critical_pending
                &&& after.attempts == store.attempts
                &&& after.identity == store.identity
                &&& after.max_entries == store.max_entries
                &&& after.now == store.now
                &&& forall|i: int|
                    0 <= i < after.visible.len() ==> snapshot.entries.contains(
                        #[trigger] after.visible[i],
                    ) && comes_back(store.now, after.visible[i], rulings)
            }
        }),
{
    let all = snapshot.entries;
    let (after, answer) = memory_loaded(store, snapshot, sizes, rulings);
    if answer is Ok {
        let found = loaded_memories(all, store.now, rulings);
        loaded_come_from(all, store.now, rulings);
        let rules = protecting(
            expired_carriers(all, store.now, rulings),
            store.now,
            rulings,
        );
        in_force_keeps_exactly(found, rules);
        let forced = in_force(found, rules);
        thinning_keeps_what_must_stay(forced, store.max_entries, rules);
        assert forall|i: int| 0 <= i < after.visible.len() implies all.contains(
            #[trigger] after.visible[i],
        ) && comes_back(store.now, after.visible[i], rulings) by {
            assert(after.visible.contains(after.visible[i]));
            assert(forced.contains(after.visible[i]));
            assert(found.contains(after.visible[i]));
        }
    }
}

/// Whether a memory comes back when it is loaded: it is in order, and its times are in force, or have
/// expired while it carries a publication.
pub open spec fn comes_back(
    now: ClockView,
    entry: GuardianFailureMemoryEntryView,
    rulings: LauncherRulingsView,
) -> bool {
    let times = assessment(now, memory_times(entry));
    &&& memory_verdict(entry, rulings) is Ok
    &&& times is Ok
    &&& times->Ok_0 is Current || (entry.reconciliation_terminal is Some
        && entry.reconciliation_terminal->0.version_bundle_publication is Some)
}

proof fn loaded_come_from(
    all: Memories,
    now: ClockView,
    rulings: LauncherRulingsView,
)
    ensures
        in_key_order(loaded_memories(all, now, rulings)),
        forall|entry: GuardianFailureMemoryEntryView| #[trigger]
            loaded_memories(all, now, rulings).contains(entry)
                ==> all.contains(entry) && comes_back(now, entry, rulings),
    decreases all.len(),
{
    if all.len() > 0 {
        let front = all.drop_last();
        let last = all.last();
        loaded_come_from(front, now, rulings);
        let before = loaded_memories(front, now, rulings);
        putting_in_keeps_order(before, last);
        let after = loaded_memories(all, now, rulings);
        assert forall|entry: GuardianFailureMemoryEntryView| #[trigger]
            after.contains(entry) implies all.contains(entry) && comes_back(
            now,
            entry,
            rulings,
        ) by {
            let i = choose|i: int| 0 <= i < after.len() && after[i] == entry;
            memory_at(after, i);
            if entry.key != last.key || !is_loaded(last, now, rulings) {
                if is_loaded(last, now, rulings) {
                    assert(memory_of(before, entry.key) == Some(entry));
                    memory_has_key(before, entry.key);
                }
                assert(before.contains(entry));
                assert(front.contains(entry));
                let k = choose|k: int| 0 <= k < front.len() && front[k] == entry;
                assert(all[k] == entry);
            } else {
                assert(entry == last);
                assert(all[all.len() - 1] == last);
            }
        }
    }
}

/// What a reconciliation published is acknowledged in the memory where the pending end is remembered
/// and the entry that is handed in is the same but for that. It is remembered as acknowledged then, and
/// what is remembered so already needs no change. Anything else is refused.
pub proof fn remembered_publication_is_acknowledged(
    store: FailureMemoryStoreView,
    expected: GuardianFailureMemoryEntryView,
    entry: GuardianFailureMemoryEntryView,
    rulings: LauncherRulingsView,
)
    requires
        in_key_order(store.visible),
    ensures
        ({
            let answer = publication_acknowledged(
                store,
                expected,
                entry,
                rulings,
            );
            let pending = expected.reconciliation_terminal is Some
                && expected.reconciliation_terminal->0.version_bundle_publication is Some
                && expected.reconciliation_terminal->0.version_bundle_publication->0.pending;
            let fits = entry.reconciliation_terminal is Some
                && is_acknowledgement_of(
                expected.reconciliation_terminal->0,
                entry.reconciliation_terminal->0,
            ) && same_but_for_its_end(expected, entry);
            let mismatch = FailureMemoryStoreError::Validation(
                FailureMemoryValidationError::ReconciliationTerminalMismatch,
            );
            let held = memory_of(store.visible, expected.key);
            let base = if held is Some && is_in_force(store, held->0, rulings) {
                held
            } else {
                None
            };
            let left = answer->Ok_0->0;
            &&& !pending || !fits ==> answer is Err && answer->Err_0 == mismatch
            &&& pending && fits && base != Some(entry) && base != Some(expected) ==> answer is Err
            &&& pending && fits && answer is Ok && base == Some(entry) ==> answer->Ok_0 is None
            &&& pending && fits && answer is Ok && base != Some(entry) ==> {
                &&& base == Some(expected)
                &&& answer->Ok_0 is Some
                &&& memory_of(left, expected.key) == Some(entry)
                &&& in_key_order(left)
            }
        }),
{
    let base = base_memories(store, rulings);
    held_in_base(store, expected.key, rulings);
    shown_memories_are_in_force(store, rulings, expected);
    if let Some(before) = expected.reconciliation_terminal {
        let wanted = acknowledged(before);
        if before.version_bundle_publication is Some {
            assert(is_acknowledgement_of(before, wanted));
            if let Some(after) = entry.reconciliation_terminal {
                if is_acknowledgement_of(before, after) {
                    assert(after == wanted);
                }
            }
        }
    }
    let answer = publication_acknowledged(store, expected, entry, rulings);
    if answer is Ok && answer->Ok_0 is Some {
        acknowledged_memory_stays_acknowledged(
            store,
            expected,
            entry,
            rulings,
        );
        putting_in_keeps_order(base, entry);
        memory_drafts_are_ordered_and_bounded(
            store,
            with_memory(base, entry),
            protected_by(entry),
            rulings,
        );
    }
}

/// Whether two memories agree in all but the end of their reconciliation.
pub open spec fn same_but_for_its_end(
    a: GuardianFailureMemoryEntryView,
    b: GuardianFailureMemoryEntryView,
) -> bool {
    &&& a.key == b.key
    &&& a.diagnosis_id == b.diagnosis_id
    &&& a.domain == b.domain
    &&& a.mode == b.mode
    &&& a.target == b.target
    &&& a.ownership == b.ownership
    &&& a.first_observed_at == b.first_observed_at
    &&& a.last_observed_at == b.last_observed_at
    &&& a.occurrence_count == b.occurrence_count
    &&& a.last_action_kind == b.last_action_kind
    &&& a.last_action_outcome == b.last_action_outcome
    &&& a.repair_attempt_count == b.repair_attempt_count
    &&& a.quarantine_checkpoint == b.quarantine_checkpoint
    &&& a.suppression_until == b.suppression_until
    &&& a.target_content_hash == b.target_content_hash
    &&& a.user_intent_hash == b.user_intent_hash
    &&& a.persisted_state_repair_terminal == b.persisted_state_repair_terminal
}

/// A write that could not be waited for is repeated, and a repetition is not repeated again.
pub proof fn only_a_failed_wait_is_followed_up(
    step: PendingStep,
    succeeded: bool,
)
    ensures
        ({
            let next = step_following(step, succeeded);
            &&& next is Some <==> step is Flush && !succeeded
            &&& next is Some ==> next->0 is Retry
        }),
{
}

/// A memory suppresses where it is in order and its time has not come.
pub proof fn memory_suppresses_until_its_time(
    store: FailureMemoryStoreView,
    entry: GuardianFailureMemoryEntryView,
    rulings: LauncherRulingsView,
)
    ensures
        ({
            let until = text_instant(entry.suppression_until->0);
            is_suppressed(store, entry, rulings) ==> {
                &&& memory_verdict(entry, rulings) is Ok
                &&& entry.suppression_until is Some
                &&& until is Some
                &&& until->0.secs > store.now.secs || (until->0.secs == store.now.secs
                    && until->0.nanos > store.now.nanos)
            }
        }),
        memory_verdict(entry, rulings) is Ok && suppresses(store.now, memory_times(entry))
            ==> is_suppressed(store, entry, rulings),
{
}

/// A snapshot holds the memories that it is made of, under the schema, where each is in order and small
/// enough, there are not too many, and no key occurs twice. Otherwise there is none.
pub proof fn snapshot_holds_what_it_is_made_of(
    entries: Memories,
    sizes: Seq<u64>,
    rulings: LauncherRulingsView,
)
    ensures
        ({
            let answer = written_down(entries, sizes, rulings);
            let fine = entries.len() <= 128 && (forall|i: int|
                0 <= i < entries.len() ==> sizes[i] <= 16_384 && memory_verdict(
                    #[trigger] entries[i],
                    rulings,
                ) is Ok) && forall|i: int, j: int|
                0 <= i < j < entries.len() ==> (#[trigger] entries[i]).key != (
                #[trigger] entries[j]).key;
            &&& answer is Ok <==> fine
            &&& answer is Ok ==> answer->Ok_0.entries == entries && answer->Ok_0.schema
                == "axial.guardian.failure_memory.v7"@
        }),
{
    let snapshot = FailureMemorySnapshotView {
        schema: FAILURE_MEMORY_SCHEMA@,
        entries,
    };
    if memory_snapshot_verdict(snapshot, sizes, rulings) is Ok {
        assert forall|i: int| 0 <= i < entries.len() implies sizes[i] <= 16_384 && memory_verdict(
            #[trigger] entries[i],
            rulings,
        ) is Ok by {
            memory_snapshot_in_order(snapshot, sizes, rulings, i);
        }
        assert forall|i: int, j: int| 0 <= i < j < entries.len() implies (#[trigger] entries[i]).key
            != (#[trigger] entries[j]).key by {
            memory_snapshot_in_order(snapshot, sizes, rulings, i);
        }
    }
    if entries.len() <= 128 && (forall|i: int|
        0 <= i < entries.len() ==> sizes[i] <= 16_384 && memory_verdict(
            #[trigger] entries[i],
            rulings,
        ) is Ok) && forall|i: int, j: int|
        0 <= i < j < entries.len() ==> (#[trigger] entries[i]).key != (#[trigger] entries[j]).key {
        memory_rows_pass(entries, sizes, entries.len(), rulings);
    }
}

proof fn memory_rows_pass(
    entries: Memories,
    sizes: Seq<u64>,
    n: nat,
    rulings: LauncherRulingsView,
)
    requires
        n <= entries.len(),
        forall|i: int|
            0 <= i < entries.len() ==> sizes[i] <= 16_384 && memory_verdict(
                #[trigger] entries[i],
                rulings,
            ) is Ok,
        forall|i: int, j: int|
            0 <= i < j < entries.len() ==> (#[trigger] entries[i]).key != (
            #[trigger] entries[j]).key,
    ensures
        memory_rows_verdict(entries, sizes, n, rulings) is Ok,
    decreases n,
{
    if n > 0 {
        memory_rows_pass(entries, sizes, (n - 1) as nat, rulings);
        assert(memory_verdict(entries[n - 1], rulings) is Ok);
    }
}

/// Whether every memory of a batch is in force and a single retry.
pub open spec fn are_single_retries(
    store: FailureMemoryStoreView,
    entries: Memories,
    rulings: LauncherRulingsView,
) -> bool {
    forall|i: int|
        0 <= i < entries.len() ==> is_in_force(store, #[trigger] entries[i], rulings)
            && is_single_retry(entries[i])
}

/// Whether no two memories of a batch are of the same failure.
pub open spec fn are_of_different_failures(entries: Memories) -> bool {
    forall|i: int, j: int|
        0 <= i < j < entries.len() ==> (#[trigger] entries[i]).key != (#[trigger] entries[j]).key
}

/// A batch of retries is taken in only where every one of them is in force and a single retry, and no
/// two are of the same failure. Nothing is taken in while a write is open. Where all of them are
/// remembered already nothing needs to be written.
pub proof fn batch_of_retries_is_checked_first(
    store: FailureMemoryStoreView,
    entries: Memories,
    rulings: LauncherRulingsView,
)
    requires
        in_key_order(store.visible),
    ensures
        ({
            let answer = retries_reconciled(store, entries, rulings);
            let fine = are_single_retries(store, entries, rulings) && are_of_different_failures(
                entries,
            );
            &&& !fine ==> answer is Err
            &&& fine && (store.retry_candidate is Some || store.critical_pending) ==> answer is Err
                && answer->Err_0 is Persistence
            &&& entries.len() == 0 && store.retry_candidate is None && !store.critical_pending
                ==> answer is Ok && answer->Ok_0 is None
            &&& answer is Ok && answer->Ok_0 is None ==> forall|i: int|
                0 <= i < entries.len() ==> (retry_taken_in(
                    base_memories(store, rulings),
                    #[trigger] entries[i],
                    rulings,
                ) matches Ok(None))
        }),
{
    batch_verdict_is(store, entries, rulings);
    let answer = retries_reconciled(store, entries, rulings);
    if answer is Ok {
        let base = base_memories(store, rulings);
        base_is_what_is_in_force(store, rulings);
        retries_of_a_batch_stand_alone(base, entries, rulings);
    }
}

proof fn batch_verdict_is(
    store: FailureMemoryStoreView,
    entries: Memories,
    rulings: LauncherRulingsView,
)
    ensures
        retry_batch_verdict(entries, store.now, rulings) is Ok <==> are_single_retries(
            store,
            entries,
            rulings,
        ) && are_of_different_failures(entries),
    decreases entries.len(),
{
    if entries.len() > 0 {
        let front = entries.drop_last();
        let last = entries.last();
        let n = entries.len() - 1;
        batch_verdict_is(store, front, rulings);
        last_of_a_batch(store, last, rulings);
        assert(entries[n] == last);
        let twice = exists|i: int| 0 <= i < n && (#[trigger] entries[i]).key == last.key;
        assert(are_single_retries(store, entries, rulings) <==> are_single_retries(
            store,
            front,
            rulings,
        ) && is_in_force(store, last, rulings) && is_single_retry(last)) by {
            assert forall|i: int| 0 <= i < n implies front[i] == #[trigger] entries[i] by {}
            if are_single_retries(store, front, rulings) && is_in_force(store, last, rulings)
                && is_single_retry(last) {
                assert forall|i: int| 0 <= i < entries.len() implies is_in_force(
                    store,
                    #[trigger] entries[i],
                    rulings,
                ) && is_single_retry(entries[i]) by {
                    if i < n {
                        assert(front[i] == entries[i]);
                    }
                }
            }
            if are_single_retries(store, entries, rulings) {
                assert forall|i: int| 0 <= i < front.len() implies is_in_force(
                    store,
                    #[trigger] front[i],
                    rulings,
                ) && is_single_retry(front[i]) by {
                    assert(front[i] == entries[i]);
                }
            }
        }
        assert(are_of_different_failures(entries) <==> are_of_different_failures(front)
            && !twice) by {
            if are_of_different_failures(entries) {
                assert forall|i: int, j: int| 0 <= i < j < front.len() implies (
                #[trigger] front[i]).key != (#[trigger] front[j]).key by {
                    assert(entries[i].key != entries[j].key);
                }
                assert forall|i: int| 0 <= i < n implies (#[trigger] entries[i]).key != last.key by {
                    assert(entries[i].key != entries[n].key);
                }
            }
            if are_of_different_failures(front) && !twice {
                assert forall|i: int, j: int| 0 <= i < j < entries.len() implies (
                #[trigger] entries[i]).key != (#[trigger] entries[j]).key by {
                    if j < n {
                        assert(front[i] == entries[i] && front[j] == entries[j]);
                    }
                }
            }
        }
    }
}

proof fn last_of_a_batch(
    store: FailureMemoryStoreView,
    entry: GuardianFailureMemoryEntryView,
    rulings: LauncherRulingsView,
)
    ensures
        retry_observation(entry) is Some <==> is_single_retry(entry),
        memory_assessment(store.now, entry, rulings) == Ok::<
            BoundedTemporalDisposition,
            FailureMemoryValidationError,
        >(BoundedTemporalDisposition::Current) <==> is_in_force(
            store,
            entry,
            rulings,
        ),
{
}

} // verus!

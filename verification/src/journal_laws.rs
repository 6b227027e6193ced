//! What holds of the store of journals as a whole.

use crate::contracts::{OperationId, OperationOutcome};
use crate::entry::{OperationJournalEntryView, OperationJournalStepView};
use crate::evidence::{
    DurableGuardianEvidenceView, PersistedStateRepairTerminalView, ReconciliationTerminalView,
};
use crate::journal_errors::OperationJournalStoreError;
use crate::journal_performance::{performance_evidenced, restarted, transitioned};
use crate::journal_pruning::{pruned, pruning_keeps_what_must_stay, rules_for};
use crate::journal_queries::acknowledged_in;
use crate::journal_records::{
    cancelled, created, evidenced, failed, opened, progressed, reconciled, refused, repaired,
    succeeded, updated, UpdatePolicy,
};
use crate::journal_revision::{
    bytes_of, fits, inserted, listed, no_entries, too_large, AcceptedJournalEntryView,
    AcceptedJournalRevisionView, JournalMap,
};
use crate::journal_snapshot::{
    active_performance_instance, rows_verdict, snapshot_verdict, OperationJournalSnapshotView,
    OPERATION_JOURNAL_SCHEMA,
};
use crate::journal_store::{
    current_rows, expired_is_kept, kept_expired_rows, malformed_times, prepared_revision,
    retained_rows, violations, JournalDraftView, OperationJournalStoreView,
};
use crate::journal_temporal::entry_assessment;
use crate::journal_validation::{entry_verdict, is_terminal};
use crate::lifecycle::PerformanceOperationTransitionView;
use crate::ordered::{ascending, ascending_lists};
use crate::performance::lifecycle_of;
use crate::rulings::LauncherRulingsView;
use crate::temporal::{BoundedTemporalDisposition, BoundedTemporalViolation, ClockView};
use vstd::prelude::*;

verus! {

/// Whether the journals fit together: each stands under its own operation, and their sequences are
/// different and have all been assigned.
pub open spec fn coherent(map: JournalMap, next_sequence: u64) -> bool {
    &&& forall|key: u128|
        map.contains_key(key) ==> {
            &&& (#[trigger] map[key]).entry.operation_id.value == key
            &&& 1 <= map[key].entry.sequence < next_sequence
        }
    &&& forall|a: u128, b: u128|
        map.contains_key(a) && map.contains_key(b) && a != b ==> (#[trigger] map[a]).entry.sequence
            != (#[trigger] map[b]).entry.sequence
}

/// Whether all journals are valid.
pub open spec fn all_valid(map: JournalMap, rulings: LauncherRulingsView) -> bool {
    forall|key: u128| map.contains_key(key) ==> entry_verdict((#[trigger] map[key]).entry, rulings) is Ok
}

/// Whether a draft fits a store: it is a new journal with the sequence that comes next, or it stands
/// in place of a journal and keeps its sequence.
pub open spec fn draft_fits(store: OperationJournalStoreView, draft: JournalDraftView) -> bool {
    let key = draft.entry.operation_id.value;
    if draft.fresh {
        &&& !store.visible.entries.contains_key(key)
        &&& draft.entry.sequence == store.visible.next_sequence
        &&& draft.next_sequence == store.visible.next_sequence + 1
    } else {
        &&& store.visible.entries.contains_key(key)
        &&& draft.entry.sequence == store.visible.entries[key].entry.sequence
        &&& draft.next_sequence == store.visible.next_sequence
    }
}

/// What a store that writes a fitting draft becomes: the journals still fit together, there are no
/// more of them than there may be, the one that was written is there unless it could give way at
/// once, and every other one that stays is unchanged.
pub proof fn writing_keeps_the_store_coherent(
    store: OperationJournalStoreView,
    draft: JournalDraftView,
    canonical: Seq<u8>,
)
    requires
        store.visible.entries.dom().finite(),
        store.visible.next_sequence >= 1,
        coherent(store.visible.entries, store.visible.next_sequence),
        draft_fits(store, draft),
        prepared_revision(store, draft, canonical) is Ok,
    ensures
        ({
            let after = prepared_revision(store, draft, canonical)->Ok_0;
            let key = draft.entry.operation_id.value;
            &&& after.entries.dom().finite()
            &&& after.entries.dom().len() <= store.max_entries
            &&& coherent(after.entries, after.next_sequence)
            &&& after.next_sequence >= store.visible.next_sequence
            &&& fits(after.entries, after.next_sequence)
            &&& (draft.fresh || !is_terminal(draft.entry.status)) ==> after.entries.contains_key(key)
            &&& after.entries.contains_key(key) ==> after.entries[key].entry == draft.entry
            &&& forall|other: u128|
                other != key && after.entries.contains_key(other)
                    ==> store.visible.entries.contains_key(other)
                    && #[trigger] after.entries[other] == store.visible.entries[other]
        }),
{
    let key = draft.entry.operation_id.value;
    let value = AcceptedJournalEntryView { entry: draft.entry, canonical };
    let more = store.visible.entries.insert(key, value);
    let protected = if draft.fresh {
        Some(key)
    } else {
        None
    };
    let rules = rules_for(more, protected, store.now);
    assert(more.dom() =~= store.visible.entries.dom().insert(key));
    pruning_keeps_what_must_stay(more, store.max_entries, rules);
    let after = prepared_revision(store, draft, canonical)->Ok_0;
    assert(more[key] == value);
    assert(coherent(more, draft.next_sequence)) by {
        assert forall|a: u128| more.contains_key(a) implies {
            &&& (#[trigger] more[a]).entry.operation_id.value == a
            &&& 1 <= more[a].entry.sequence < draft.next_sequence
        } by {
            if a != key {
                assert(more[a] == store.visible.entries[a]);
            }
        }
        assert forall|a: u128, b: u128| more.contains_key(a) && more.contains_key(b) && a != b implies (
        #[trigger] more[a]).entry.sequence != (#[trigger] more[b]).entry.sequence by {
            if a != key {
                assert(more[a] == store.visible.entries[a]);
            }
            if b != key {
                assert(more[b] == store.visible.entries[b]);
            }
        }
    }
    assert forall|a: u128| after.entries.contains_key(a) implies {
        &&& (#[trigger] after.entries[a]).entry.operation_id.value == a
        &&& 1 <= after.entries[a].entry.sequence < after.next_sequence
    } by {
        assert(more.contains_key(a));
        assert(after.entries[a] == more[a]);
    }
    assert forall|a: u128, b: u128|
        after.entries.contains_key(a) && after.entries.contains_key(b) && a != b implies (
    #[trigger] after.entries[a]).entry.sequence != (#[trigger] after.entries[b]).entry.sequence by {
        assert(more.contains_key(a) && more.contains_key(b));
        assert(after.entries[a] == more[a]);
        assert(after.entries[b] == more[b]);
    }
    assert forall|other: u128| other != key && after.entries.contains_key(other) implies
        store.visible.entries.contains_key(other) && #[trigger] after.entries[other]
        == store.visible.entries[other] by {
        assert(more.contains_key(other));
        assert(after.entries[other] == more[other]);
    }
}

/// While there is room, a journal that is written joins the others or takes the place of its own, and
/// none leaves.
pub proof fn nothing_leaves_while_there_is_room(
    store: OperationJournalStoreView,
    draft: JournalDraftView,
    canonical: Seq<u8>,
)
    requires
        store.visible.entries.dom().finite(),
        store.visible.entries.dom().len() <= store.max_entries,
        store.visible.entries.contains_key(draft.entry.operation_id.value)
            || store.visible.entries.dom().len() < store.max_entries,
    ensures
        ({
            let more = store.visible.entries.insert(
                draft.entry.operation_id.value,
                AcceptedJournalEntryView { entry: draft.entry, canonical },
            );
            prepared_revision(store, draft, canonical) == (if bytes_of(more) <= usize::MAX && fits(
                more,
                draft.next_sequence,
            ) {
                Ok(
                    AcceptedJournalRevisionView {
                        entries: more,
                        next_sequence: draft.next_sequence,
                    },
                )
            } else {
                Err(too_large())
            })
        }),
{
    let key = draft.entry.operation_id.value;
    let value = AcceptedJournalEntryView { entry: draft.entry, canonical };
    let more = store.visible.entries.insert(key, value);
    assert(more.dom() =~= store.visible.entries.dom().insert(key));
    assert(more.dom().len() <= store.max_entries);
}

/// A journal whose operation is under way never gives way to another one that is written.
pub proof fn writing_keeps_what_is_under_way(
    store: OperationJournalStoreView,
    draft: JournalDraftView,
    canonical: Seq<u8>,
    key: u128,
)
    requires
        store.visible.entries.dom().finite(),
        prepared_revision(store, draft, canonical) is Ok,
        store.visible.entries.contains_key(key),
        key != draft.entry.operation_id.value,
        !is_terminal(store.visible.entries[key].entry.status),
    ensures
        ({
            let after = prepared_revision(store, draft, canonical)->Ok_0;
            &&& after.entries.contains_key(key)
            &&& after.entries[key] == store.visible.entries[key]
        }),
{
    let value = AcceptedJournalEntryView { entry: draft.entry, canonical };
    let more = store.visible.entries.insert(draft.entry.operation_id.value, value);
    let protected = if draft.fresh {
        Some(draft.entry.operation_id.value)
    } else {
        None
    };
    assert(more.dom() =~= store.visible.entries.dom().insert(draft.entry.operation_id.value));
    pruning_keeps_what_must_stay(more, store.max_entries, rules_for(more, protected, store.now));
    assert(more[key] == store.visible.entries[key]);
    let after = prepared_revision(store, draft, canonical)->Ok_0;
    assert(after.entries.contains_key(key));
    assert(after.entries[key] == more[key]);
}

/// A store that holds only valid journals and writes a valid one holds only valid journals.
pub proof fn writing_keeps_journals_valid(
    store: OperationJournalStoreView,
    draft: JournalDraftView,
    canonical: Seq<u8>,
    rulings: LauncherRulingsView,
)
    requires
        store.visible.entries.dom().finite(),
        all_valid(store.visible.entries, rulings),
        entry_verdict(draft.entry, rulings) is Ok,
        prepared_revision(store, draft, canonical) is Ok,
    ensures
        all_valid(prepared_revision(store, draft, canonical)->Ok_0.entries, rulings),
{
    let key = draft.entry.operation_id.value;
    let value = AcceptedJournalEntryView { entry: draft.entry, canonical };
    let more = store.visible.entries.insert(key, value);
    let protected = if draft.fresh {
        Some(key)
    } else {
        None
    };
    assert(more.dom() =~= store.visible.entries.dom().insert(key));
    pruning_keeps_what_must_stay(more, store.max_entries, rules_for(more, protected, store.now));
    let after = prepared_revision(store, draft, canonical)->Ok_0;
    assert forall|a: u128| after.entries.contains_key(a) implies entry_verdict(
        (#[trigger] after.entries[a]).entry,
        rulings,
    ) is Ok by {
        assert(more.contains_key(a));
        assert(after.entries[a] == more[a]);
        if a != key {
            assert(more[a] == store.visible.entries[a]);
        }
    }
}

/// A created journal is a fitting draft: it gets the next sequence and is otherwise what was asked
/// for.
pub proof fn creation_drafts_fit(
    store: OperationJournalStoreView,
    entry: OperationJournalEntryView,
    allow_matching_existing: bool,
    rulings: LauncherRulingsView,
)
    requires
        created(store, entry, allow_matching_existing, rulings) matches Ok(Some(_)),
    ensures
        ({
            let draft = created(store, entry, allow_matching_existing, rulings)->Ok_0->0;
            &&& draft_fits(store, draft)
            &&& draft.entry == (OperationJournalEntryView { sequence: draft.entry.sequence, ..entry })
            &&& entry_verdict(entry, rulings) is Ok
        }),
{
}

/// Whether a change leaves the operation and the sequence of a journal as they are.
pub open spec fn keeps_identity(
    change: spec_fn(OperationJournalEntryView) -> Result<
        OperationJournalEntryView,
        OperationJournalStoreError,
    >,
) -> bool {
    forall|entry: OperationJournalEntryView|
        (#[trigger] change(entry)) matches Ok(changed) ==> changed.operation_id
            == entry.operation_id && changed.sequence == entry.sequence
}

/// An update is a fitting, valid draft.
pub proof fn update_drafts_fit(
    store: OperationJournalStoreView,
    operation_id: OperationId,
    policy: UpdatePolicy,
    change: spec_fn(OperationJournalEntryView) -> Result<
        OperationJournalEntryView,
        OperationJournalStoreError,
    >,
    rulings: LauncherRulingsView,
)
    requires
        coherent(store.visible.entries, store.visible.next_sequence),
        keeps_identity(change),
        updated(store, operation_id, policy, change, rulings) is Ok,
    ensures
        ({
            let draft = updated(store, operation_id, policy, change, rulings)->Ok_0;
            &&& draft_fits(store, draft)
            &&& draft.entry.operation_id == operation_id
            &&& entry_verdict(draft.entry, rulings) is Ok
        }),
{
    let entry = store.visible.entries[operation_id.value].entry;
    assert(opened(store, operation_id, policy) == Ok::<_, OperationJournalStoreError>(entry));
    assert(change(entry) is Ok);
    assert(entry.operation_id.value == operation_id.value);
}

/// While the write of a change has to be repeated, nothing else is written.
pub proof fn failed_write_blocks_updates(
    store: OperationJournalStoreView,
    operation_id: OperationId,
    policy: UpdatePolicy,
    change: spec_fn(OperationJournalEntryView) -> Result<
        OperationJournalEntryView,
        OperationJournalStoreError,
    >,
    rulings: LauncherRulingsView,
)
    requires
        store.retry_candidate is Some,
    ensures
        updated(store, operation_id, policy, change, rulings) == Err::<JournalDraftView, _>(
            OperationJournalStoreError::RetryRequired,
        ),
{
}

/// An operation that has ended is not changed any more, except for what is owed to it.
pub proof fn ended_operation_is_not_updated(
    store: OperationJournalStoreView,
    operation_id: OperationId,
    policy: UpdatePolicy,
    change: spec_fn(OperationJournalEntryView) -> Result<
        OperationJournalEntryView,
        OperationJournalStoreError,
    >,
    rulings: LauncherRulingsView,
)
    requires
        store.retry_candidate is None,
        store.visible.entries.contains_key(operation_id.value),
        is_terminal(store.visible.entries[operation_id.value].entry.status),
        !policy.post_terminal_obligation,
    ensures
        updated(store, operation_id, policy, change, rulings) == Err::<JournalDraftView, _>(
            OperationJournalStoreError::AlreadyTerminal,
        ),
{
}

/// A performance operation is changed only by its own transitions.
pub proof fn performance_operation_is_changed_by_its_own_transitions(
    store: OperationJournalStoreView,
    operation_id: OperationId,
    policy: UpdatePolicy,
    change: spec_fn(OperationJournalEntryView) -> Result<
        OperationJournalEntryView,
        OperationJournalStoreError,
    >,
    rulings: LauncherRulingsView,
)
    requires
        store.visible.entries.contains_key(operation_id.value),
        lifecycle_of(store.visible.entries[operation_id.value].entry) is Some,
        !policy.performance_transition,
    ensures
        updated(store, operation_id, policy, change, rulings) is Err,
{
}

/// What is recorded of an operation never changes which operation it is, nor its sequence.
pub proof fn records_keep_identity(
    entry: OperationJournalEntryView,
    step: OperationJournalStepView,
    failure_point: Seq<char>,
    outcome: OperationOutcome,
    evidence: DurableGuardianEvidenceView,
    terminal: ReconciliationTerminalView,
    repair: PersistedStateRepairTerminalView,
    transition: PerformanceOperationTransitionView,
    now: Seq<char>,
)
    ensures
        same_identity(entry, succeeded(entry, step, outcome)),
        same_identity(entry, failed(entry, step, failure_point, outcome)),
        same_identity(entry, cancelled(entry, step)),
        same_identity(entry, progressed(entry, step)),
        evidenced(entry, evidence) matches Ok(changed) ==> same_identity(entry, changed),
        reconciled(entry, succeeded(entry, step, outcome), terminal) matches Ok(changed)
            ==> same_identity(entry, changed),
        repaired(entry, repair) matches Ok(changed) ==> same_identity(entry, changed),
        refused(entry, step) matches Ok(changed) ==> same_identity(entry, changed),
        acknowledged_in(entry, terminal) matches Ok(changed) ==> same_identity(entry, changed),
        transitioned(entry, transition, now) matches Ok(changed) ==> same_identity(entry, changed),
        performance_evidenced(entry, evidence, now) matches Ok(changed) ==> same_identity(
            entry,
            changed,
        ),
        restarted(entry, now) matches Some(changed) ==> same_identity(entry, changed),
{
}

/// Whether two entries are of the same operation and have the same sequence.
pub open spec fn same_identity(
    a: OperationJournalEntryView,
    b: OperationJournalEntryView,
) -> bool {
    a.operation_id == b.operation_id && a.sequence == b.sequence
}

/// The entries of a revision with their texts, in the order of their operations.
pub open spec fn listed_rows(map: JournalMap) -> Seq<AcceptedJournalEntryView> {
    let keys = ascending(map.dom());
    Seq::new(keys.len(), |i: int| map[keys[i]])
}

/// Whether a journal is in force.
pub open spec fn is_current_row(row: AcceptedJournalEntryView, now: ClockView) -> bool {
    entry_assessment(now, row.entry) == Ok::<_, BoundedTemporalViolation>(
        BoundedTemporalDisposition::Current,
    )
}

/// Whether a journal comes back when these are loaded: it is in force, or it has expired and is
/// kept all the same.
pub open spec fn comes_back(
    row: AcceptedJournalEntryView,
    rows: Seq<AcceptedJournalEntryView>,
    now: ClockView,
) -> bool {
    ||| is_current_row(row, now)
    ||| entry_assessment(now, row.entry) == Ok::<_, BoundedTemporalViolation>(
        BoundedTemporalDisposition::Expired,
    ) && expired_is_kept(row.entry, current_rows(rows, now))
}

/// Whether every journal comes back when they are all loaded.
pub open spec fn all_come_back(map: JournalMap, now: ClockView) -> bool {
    forall|key: u128|
        map.contains_key(key) ==> comes_back(#[trigger] map[key], listed_rows(map), now)
}

/// Whether no instance has two performance operations under way.
pub open spec fn instances_are_alone(map: JournalMap) -> bool {
    forall|a: u128, b: u128|
        map.contains_key(a) && map.contains_key(b) && a != b && active_performance_instance(
            (#[trigger] map[a]).entry,
        ) is Some ==> active_performance_instance(map[a].entry) != active_performance_instance(
            (#[trigger] map[b]).entry,
        )
}

/// Of the journals that are loaded those come back, unchanged, that are in force or have expired and
/// are kept all the same, and no others.
pub proof fn loading_keeps_exactly_what_comes_back(map: JournalMap, now: ClockView)
    requires
        map.dom().finite(),
        forall|key: u128|
            map.contains_key(key) ==> (#[trigger] map[key]).entry.operation_id.value == key,
    ensures
        ({
            let rows = listed_rows(map);
            inserted(no_entries(), retained_rows(rows, now)) == map.restrict(
                Set::new(|key: u128| map.contains_key(key) && comes_back(map[key], rows, now)),
            )
        }),
{
    let keys = ascending(map.dom());
    ascending_lists(map.dom());
    let rows = listed_rows(map);
    let retained = retained_rows(rows, now);
    let held = inserted(no_entries(), retained);
    let coming = map.restrict(
        Set::new(|key: u128| map.contains_key(key) && comes_back(map[key], rows, now)),
    );
    retained_rows_come_back(rows, now);
    assert forall|i: int| 0 <= i < retained.len() implies stands_in(
        coming,
        #[trigger] retained[i],
    ) by {
        assert(retained.contains(retained[i]));
        let k = choose|k: int| 0 <= k < rows.len() && rows[k] == retained[i];
        assert(keys.contains(keys[k]));
        assert(rows[k] == map[keys[k]]);
    }
    rows_stand_where_they_belong(coming, retained);
    assert forall|key: u128| coming.contains_key(key) implies held.contains_key(key) by {
        assert(keys.contains(key));
        let k = choose|k: int| 0 <= k < keys.len() && keys[k] == key;
        assert(rows[k] == map[key]);
        assert(rows.contains(rows[k]));
        assert(retained.contains(map[key]));
        let i = choose|i: int| 0 <= i < retained.len() && retained[i] == map[key];
        assert(held.contains_key(retained[i].entry.operation_id.value));
    }
    assert(held =~= coming);
}

/// A store gives back what it has written: where the journals fit together, are valid and come back
/// one by one, the snapshot of a store is in order, and a store into which it is loaded holds the
/// same journals and leaves none out. A journal comes back that is in force, and so does one that has
/// ended and expired but holds the Guardian's verdict on an installation or is needed by one in force.
pub proof fn loading_a_snapshot_restores_the_journals(
    map: JournalMap,
    next_sequence: u64,
    max: nat,
    now: ClockView,
    rulings: LauncherRulingsView,
)
    requires
        map.dom().finite(),
        map.dom().len() <= max,
        next_sequence >= 1,
        coherent(map, next_sequence),
        all_valid(map, rulings),
        instances_are_alone(map),
        all_come_back(map, now),
    ensures
        ({
            let snapshot = OperationJournalSnapshotView {
                schema: OPERATION_JOURNAL_SCHEMA@,
                next_sequence,
                entries: listed(map),
            };
            let rows = listed_rows(map);
            let retained = inserted(no_entries(), retained_rows(rows, now));
            &&& snapshot_verdict(snapshot, rulings) is Ok
            &&& malformed_times(rows, now) is None
            &&& retained == map
            &&& pruned(retained, max, rules_for(retained, None, now)) == Some(map)
            &&& violations(rows, now, BoundedTemporalViolation::ObservationTooFarInFuture) == 0
            &&& violations(rows, now, BoundedTemporalViolation::SuppressionWindowOutOfBounds) == 0
        }),
{
    let keys = ascending(map.dom());
    ascending_lists(map.dom());
    let rows = listed_rows(map);
    let entries = listed(map);
    assert forall|i: int| 0 <= i < rows.len() implies entry_assessment(
        now,
        (#[trigger] rows[i]).entry,
    ) is Ok by {
        assert(keys.contains(keys[i]));
        assert(comes_back(map[keys[i]], rows, now));
    }
    sound_times_are_not_counted(rows, now);
    loading_keeps_exactly_what_comes_back(map, now);
    let coming = map.restrict(
        Set::new(|key: u128| map.contains_key(key) && comes_back(map[key], rows, now)),
    );
    assert(coming =~= map) by {
        assert forall|key: u128| map.contains_key(key) implies #[trigger] coming.contains_key(
            key,
        ) by {
            assert(comes_back(map[key], rows, now));
        }
    }
    rows_of_map_are_in_order(map, next_sequence, keys.len(), rulings);
    assert forall|i: int| 0 <= i < entries.len() implies (#[trigger] entries[i]).sequence
        < next_sequence by {
        assert(keys.contains(keys[i]));
        assert(map.contains_key(keys[i]));
    }
}

proof fn rows_of_map_are_in_order(
    map: JournalMap,
    next_sequence: u64,
    n: nat,
    rulings: LauncherRulingsView,
)
    requires
        map.dom().finite(),
        n <= ascending(map.dom()).len(),
        coherent(map, next_sequence),
        all_valid(map, rulings),
        instances_are_alone(map),
    ensures
        rows_verdict(listed(map), n, rulings) is Ok,
    decreases n,
{
    if n > 0 {
        let keys = ascending(map.dom());
        ascending_lists(map.dom());
        let entries = listed(map);
        rows_of_map_are_in_order(map, next_sequence, (n - 1) as nat, rulings);
        let i = n - 1;
        assert(keys.contains(keys[i]));
        assert(entries[i] == map[keys[i]].entry);
        assert forall|j: int| 0 <= j < i implies {
            &&& (#[trigger] entries[j]).operation_id != entries[i].operation_id
            &&& entries[j].sequence != entries[i].sequence
            &&& active_performance_instance(entries[i]) is Some ==> active_performance_instance(
                entries[j],
            ) != active_performance_instance(entries[i])
        } by {
            assert(keys[j] < keys[i]);
            assert(keys.contains(keys[j]));
            assert(entries[j] == map[keys[j]].entry);
        }
    }
}

proof fn sound_times_are_not_counted(rows: Seq<AcceptedJournalEntryView>, now: ClockView)
    requires
        forall|i: int|
            0 <= i < rows.len() ==> entry_assessment(now, (#[trigger] rows[i]).entry) is Ok,
    ensures
        malformed_times(rows, now) is None,
        violations(rows, now, BoundedTemporalViolation::ObservationTooFarInFuture) == 0,
        violations(rows, now, BoundedTemporalViolation::SuppressionWindowOutOfBounds) == 0,
    decreases rows.len(),
{
    if rows.len() > 0 {
        let rest = rows.drop_last();
        assert forall|i: int| 0 <= i < rest.len() implies entry_assessment(
            now,
            (#[trigger] rest[i]).entry,
        ) is Ok by {
            assert(rest[i] == rows[i]);
        }
        sound_times_are_not_counted(rest, now);
        assert(rows[rows.len() - 1] == rows.last());
    }
}

proof fn current_rows_are_current(rows: Seq<AcceptedJournalEntryView>, now: ClockView)
    ensures
        forall|row: AcceptedJournalEntryView| #[trigger]
            current_rows(rows, now).contains(row) <==> rows.contains(row) && is_current_row(
                row,
                now,
            ),
    decreases rows.len(),
{
    broadcast use vstd::seq_lib::group_seq_properties;

    if rows.len() > 0 {
        let rest = rows.drop_last();
        let last = rows.last();
        current_rows_are_current(rest, now);
        assert(rest.push(last) =~= rows);
        assert forall|row: AcceptedJournalEntryView| #[trigger]
            current_rows(rows, now).contains(row) <==> rows.contains(row) && is_current_row(
                row,
                now,
            ) by {
            assert(rows.contains(row) <==> rest.contains(row) || row == last);
            assert(current_rows(rest, now).push(last).contains(row) <==> current_rows(
                rest,
                now,
            ).contains(row) || row == last);
        }
    }
}

proof fn kept_rows_are_expired(
    rows: Seq<AcceptedJournalEntryView>,
    current: Seq<AcceptedJournalEntryView>,
    now: ClockView,
)
    ensures
        forall|row: AcceptedJournalEntryView| #[trigger]
            kept_expired_rows(rows, current, now).contains(row) <==> rows.contains(row)
                && entry_assessment(now, row.entry) == Ok::<_, BoundedTemporalViolation>(
                BoundedTemporalDisposition::Expired,
            ) && expired_is_kept(row.entry, current),
    decreases rows.len(),
{
    broadcast use vstd::seq_lib::group_seq_properties;

    if rows.len() > 0 {
        let rest = rows.drop_last();
        let last = rows.last();
        kept_rows_are_expired(rest, current, now);
        assert(rest.push(last) =~= rows);
        assert forall|row: AcceptedJournalEntryView| #[trigger]
            kept_expired_rows(rows, current, now).contains(row) <==> rows.contains(row)
                && entry_assessment(now, row.entry) == Ok::<_, BoundedTemporalViolation>(
                BoundedTemporalDisposition::Expired,
            ) && expired_is_kept(row.entry, current) by {
            assert(rows.contains(row) <==> rest.contains(row) || row == last);
            assert(kept_expired_rows(rest, current, now).push(last).contains(row)
                <==> kept_expired_rows(rest, current, now).contains(row) || row == last);
        }
    }
}

proof fn retained_rows_come_back(rows: Seq<AcceptedJournalEntryView>, now: ClockView)
    ensures
        forall|row: AcceptedJournalEntryView| #[trigger]
            retained_rows(rows, now).contains(row) <==> rows.contains(row) && comes_back(
                row,
                rows,
                now,
            ),
{
    broadcast use vstd::seq_lib::group_seq_properties;

    let current = current_rows(rows, now);
    current_rows_are_current(rows, now);
    kept_rows_are_expired(rows, current, now);
    assert forall|row: AcceptedJournalEntryView| #[trigger]
        retained_rows(rows, now).contains(row) <==> rows.contains(row) && comes_back(
            row,
            rows,
            now,
        ) by {
        let kept = kept_expired_rows(rows, current, now);
        assert((current + kept).contains(row) <==> current.contains(row) || kept.contains(row));
    }
}

/// Whether a row stands in a map under its own operation.
spec fn stands_in(map: JournalMap, row: AcceptedJournalEntryView) -> bool {
    let key = row.entry.operation_id.value;
    map.contains_key(key) && map[key] == row
}

proof fn rows_stand_where_they_belong(map: JournalMap, rows: Seq<AcceptedJournalEntryView>)
    requires
        forall|i: int| 0 <= i < rows.len() ==> stands_in(map, #[trigger] rows[i]),
    ensures
        ({
            let held = inserted(no_entries(), rows);
            &&& forall|key: u128| #[trigger]
                held.contains_key(key) ==> map.contains_key(key) && held[key] == map[key]
            &&& forall|i: int|
                0 <= i < rows.len() ==> held.contains_key(
                    (#[trigger] rows[i]).entry.operation_id.value,
                )
        }),
    decreases rows.len(),
{
    if rows.len() > 0 {
        let rest = rows.drop_last();
        assert forall|i: int| 0 <= i < rest.len() implies stands_in(map, #[trigger] rest[i]) by {
            assert(rest[i] == rows[i]);
        }
        rows_stand_where_they_belong(map, rest);
        assert(stands_in(map, rows[rows.len() - 1]));
        let before = inserted(no_entries(), rest);
        let held = inserted(no_entries(), rows);
        assert(held == before.insert(rows.last().entry.operation_id.value, rows.last()));
        assert forall|i: int| 0 <= i < rows.len() implies held.contains_key(
            (#[trigger] rows[i]).entry.operation_id.value,
        ) by {
            if i < rest.len() {
                assert(rest[i] == rows[i]);
            }
        }
    }
}

} // verus!

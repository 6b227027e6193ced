//! What holds of how journals are kept: what is written, what gives way, what is found and repeated.

use crate::contracts::{CommandKind, GuardianFactId, OperationId};
use crate::entry::{OperationJournalEntryView, OperationJournalStepView};
use crate::evidence::{PersistedStateRepairAttemptView, PersistedStateRepairTerminalView};
use crate::journal_errors::OperationJournalStoreError;
use crate::journal_laws::coherent;
use crate::journal_performance::{restarts_prepared, restarts_settled};
use crate::journal_pruning::{
    may_leave, obliges, older, pruned, pruning_fills_the_bound, pruning_keeps_what_must_stay,
    pruning_takes_the_oldest, rules_for,
};
use crate::journal_queries::{is_latest_of, is_shown, lists_restarts, selected};
use crate::journal_reconciliation::{
    after_retry, closing, conclusion, creation_shown, first_step, flushing, reconciliation_of,
    restart_begins_with, restart_goes_on_with, step_after_retry, tried_again,
    OperationJournalReconciliation, ReconciliationStep, TransitionReconciliation,
};
use crate::journal_revision::{
    inserted, AcceptedJournalEntryView, AcceptedJournalRevisionView, JournalMap,
};
use crate::journal_snapshot::{
    rows_verdict, snapshot_in_order, snapshot_verdict, OperationJournalSnapshotView,
};
use crate::journal_store::{
    accepted, awaited, empty_store, prepared_revision, retried, settled, JournalDraftView,
    OperationJournalStoreView, PendingJournalCommitView, WriteTicket,
};
use crate::journal_temporal::{repair_terminal_times, terminal_times};
use crate::journal_validation::entry_verdict;
use crate::journal_visibility::{
    completed_step_is_visible, plan_is_visible, repair_plan_is_visible, repair_terminal_is_visible,
    same_but_sequence, step_covers, terminal_is_visible,
};
use crate::lifecycle::PerformanceOperationIntentView;
use crate::performance::intent_is_valid;
use crate::projection::OperationRestartDisposition;
use crate::record_laws::has_ended;
use crate::rulings::LauncherRulingsView;
use crate::settlement_laws::at_sequence;
use crate::temporal::{is_current, ClockView};
use vstd::prelude::*;

verus! {

/// Whether an operation that is under way and has not been repaired needs another one: it is its child,
/// or its reconciliation follows that of the other.
pub open spec fn needs(
    entry: OperationJournalEntryView,
    other: OperationId,
) -> bool {
    let attempt = entry.reconciliation_attempt;
    &&& entry.status is Planned || entry.status is Running
    &&& entry.reconciliation_terminal is None
    &&& entry.persisted_state_repair_terminal is None
    &&& entry.parent_operation_id == Some(other) || (attempt is Some
        && attempt->0.lineage is Predecessor && attempt->0.lineage->operation_id == other)
}

/// Whether the end of a repair that a journal holds is still in force.
pub open spec fn its_end_is_in_force(
    now: ClockView,
    entry: OperationJournalEntryView,
) -> bool {
    let reconciliation = entry.reconciliation_terminal;
    let repair = entry.persisted_state_repair_terminal;
    ||| reconciliation is Some && is_current(
        now,
        terminal_times(reconciliation->0),
    )
    ||| repair is Some && is_current(
        now,
        repair_terminal_times(repair->0),
    )
}

/// Whether a journal may give way to others: it is not the one that is protected, its operation has
/// ended, no operation that is under way needs it, and it holds no end that is in force.
pub open spec fn gives_way(
    map: JournalMap,
    protected: Option<u128>,
    now: ClockView,
    key: u128,
) -> bool {
    &&& protected != Some(key)
    &&& has_ended(map[key].entry)
    &&& !its_end_is_in_force(now, map[key].entry)
    &&& !exists|holder: u128|
        map.contains_key(holder) && needs(
            (#[trigger] map[holder]).entry,
            OperationId { value: key },
        )
}

proof fn giving_way_is_leaving(
    map: JournalMap,
    protected: Option<u128>,
    now: ClockView,
    key: u128,
)
    ensures
        may_leave(
            rules_for(map, protected, now),
            key,
            map[key].entry,
        ) <==> gives_way(map, protected, now, key),
{
    let rules = rules_for(map, protected, now);
    assert forall|holder: u128| map.contains_key(holder) implies needs(
        (#[trigger] map[holder]).entry,
        OperationId { value: key },
    ) == obliges(map[holder].entry, key) by {}
    assert(rules.referenced.contains(key) <==> exists|holder: u128|
        map.contains_key(holder) && obliges(
            (#[trigger] map[holder]).entry,
            key,
        ));
}

/// When journals give way to others, those that stay are unchanged. What is protected, under way,
/// needed or in force stays. Of the rest the one with the lowest sequence goes first, and no more go
/// than have to. They give way unless too many have to stay.
pub proof fn oldest_journal_gives_way_first(
    map: JournalMap,
    max: nat,
    protected: Option<u128>,
    now: ClockView,
    gone: u128,
    kept: u128,
)
    requires
        map.dom().finite(),
        map.contains_key(gone),
        map.contains_key(kept),
    ensures
        ({
            let answer = pruned(
                map,
                max,
                rules_for(map, protected, now),
            );
            let left = answer->0;
            &&& map.dom().len() <= max ==> answer == Some(map)
            &&& answer is Some ==> {
                &&& left.dom().finite()
                &&& map.dom().len() > max ==> left.dom().len() == max
                &&& forall|key: u128|
                    left.contains_key(key) ==> map.contains_key(key) && #[trigger] left[key]
                        == map[key]
                &&& !gives_way(map, protected, now, kept) ==> left.contains_key(kept)
                &&& !left.contains_key(gone) && left.contains_key(kept) && gives_way(
                    map,
                    protected,
                    now,
                    kept,
                ) ==> map[gone].entry.sequence < map[kept].entry.sequence || (
                map[gone].entry.sequence == map[kept].entry.sequence && gone < kept)
            }
        }),
{
    let rules = rules_for(map, protected, now);
    giving_way_is_leaving(map, protected, now, gone);
    giving_way_is_leaving(map, protected, now, kept);
    if pruned(map, max, rules) is Some {
        let left = pruned(map, max, rules)->0;
        pruning_keeps_what_must_stay(map, max, rules);
        pruning_fills_the_bound(map, max, rules);
        assert forall|key: u128| left.contains_key(key) implies map.contains_key(key)
            && #[trigger] left[key] == map[key] by {
            assert(left.dom().contains(key));
            assert(map.dom().contains(key));
        }
        assert(may_leave(rules, kept, map[kept].entry) == gives_way(
            map,
            protected,
            now,
            kept,
        ));
        if !left.contains_key(gone) && left.contains_key(kept) && gives_way(
            map,
            protected,
            now,
            kept,
        ) {
            pruning_takes_the_oldest(map, max, rules, gone, kept);
        }
    }
}

/// What is written is the draft with its text, among the journals that were there. A new one stays, and
/// so does one that is under way. The next sequence is the one of the draft. Anything else that is
/// there was there before, as it is.
pub proof fn written_journal_joins_the_others(
    store: OperationJournalStoreView,
    draft: JournalDraftView,
    canonical: Seq<u8>,
)
    requires
        store.visible.entries.dom().finite(),
    ensures
        ({
            let answer = prepared_revision(store, draft, canonical);
            let after = answer->Ok_0;
            let key = draft.entry.operation_id.value;
            answer is Ok ==> {
                &&& after.next_sequence == draft.next_sequence
                &&& after.entries.dom().finite()
                &&& after.entries.dom().len() <= store.max_entries
                &&& draft.fresh || !has_ended(draft.entry) ==> after.entries.contains_key(key)
                &&& after.entries.contains_key(key) ==> after.entries[key].entry == draft.entry
                    && after.entries[key].canonical == canonical
                &&& forall|other: u128|
                    other != key && after.entries.contains_key(other)
                        ==> store.visible.entries.contains_key(other)
                        && #[trigger] after.entries[other] == store.visible.entries[other]
                &&& forall|other: u128|
                    other != key && store.visible.entries.contains_key(other) && !has_ended(
                        (#[trigger] store.visible.entries[other]).entry,
                    ) ==> after.entries.contains_key(other)
            }
        }),
{
    if prepared_revision(store, draft, canonical) is Ok {
        let after = prepared_revision(store, draft, canonical)->Ok_0;
        let key = draft.entry.operation_id.value;
        let value = AcceptedJournalEntryView {
            entry: draft.entry,
            canonical,
        };
        let more = store.visible.entries.insert(key, value);
        let protected = if draft.fresh {
            Some(key)
        } else {
            None
        };
        let rules = rules_for(more, protected, store.now);
        assert(more.dom() =~= store.visible.entries.dom().insert(key));
        pruning_keeps_what_must_stay(more, store.max_entries, rules);
        assert(more.contains_key(key) && more[key] == value);
        assert forall|other: u128| other != key && after.entries.contains_key(other) implies
            store.visible.entries.contains_key(other) && #[trigger] after.entries[other]
            == store.visible.entries[other] by {
            assert(after.entries.dom().contains(other));
            assert(more.dom().contains(other));
        }
        assert forall|other: u128|
            other != key && store.visible.entries.contains_key(other) && !has_ended(
                (#[trigger] store.visible.entries[other]).entry,
            ) implies after.entries.contains_key(other) by {
            assert(more.contains_key(other) && more[other] == store.visible.entries[other]);
        }
    }
}

/// What is handed over to be written shows at once where nobody waits for the write, and else only once
/// it has been written. A write that failed is kept to be repeated, under its revision; under any other
/// revision what shows is written.
pub proof fn written_journals_show_when_they_are_durable(
    store: OperationJournalStoreView,
    candidate: AcceptedJournalRevisionView,
    revision: u64,
    commit: PendingJournalCommitView,
)
    ensures
        ({
            let ticket = WriteTicket::Unpersisted;
            let after = accepted(store, candidate, ticket);
            &&& after.visible == candidate
            &&& after.visible_revision == store.visible_revision
            &&& after.retry_candidate is None
            &&& keeps_its_bounds(store, after)
            &&& awaited(candidate, ticket) is None
        }),
        ({
            let ticket = WriteTicket::Debounced(revision);
            let after = accepted(store, candidate, ticket);
            &&& after.visible == candidate
            &&& after.visible_revision == revision
            &&& after.retry_candidate is None
            &&& keeps_its_bounds(store, after)
            &&& awaited(candidate, ticket) is None
        }),
        ({
            let ticket = WriteTicket::Immediate(revision);
            let after = accepted(store, candidate, ticket);
            let awaited = awaited(candidate, ticket);
            &&& after.visible == store.visible
            &&& after.visible_revision == store.visible_revision
            &&& after.retry_candidate is None
            &&& keeps_its_bounds(store, after)
            &&& awaited is Some
            &&& awaited->0.revision == revision
            &&& awaited->0.candidate == candidate
        }),
        ({
            let after = settled(store, commit, true);
            &&& after.retry_candidate is None
            &&& keeps_its_bounds(store, after)
            &&& store.visible_revision < commit.revision ==> after.visible == commit.candidate
                && after.visible_revision == commit.revision
            &&& store.visible_revision >= commit.revision ==> after.visible == store.visible
                && after.visible_revision == store.visible_revision
        }),
        ({
            let after = settled(store, commit, false);
            &&& after.retry_candidate == Some(commit)
            &&& after.visible == store.visible
            &&& after.visible_revision == store.visible_revision
            &&& keeps_its_bounds(store, after)
            &&& retried(after, commit.revision) == commit
        }),
        ({
            let again = retried(store, revision);
            &&& again.revision == revision
            &&& store.retry_candidate is None || store.retry_candidate->0.revision != revision
                ==> again.candidate == store.visible
            &&& store.retry_candidate is Some && store.retry_candidate->0.revision == revision
                ==> again.candidate == store.retry_candidate->0.candidate
        }),
{
}

/// Whether two stores agree in what no write changes.
pub open spec fn keeps_its_bounds(
    a: OperationJournalStoreView,
    b: OperationJournalStoreView,
) -> bool {
    a.max_entries == b.max_entries && a.now == b.now && a.issues == b.issues
}

/// A new store is empty and open, assigns sequences from one on, and has room for at least one journal
/// and for no more than it is made for.
pub proof fn new_store_is_empty(max_entries: usize, now: ClockView)
    ensures
        ({
            let store = empty_store(max_entries, now);
            &&& forall|key: u128| !(#[trigger] store.visible.entries.contains_key(key))
            &&& store.visible.next_sequence == 1
            &&& store.visible_revision == 0
            &&& store.retry_candidate is None
            &&& store.now == now
            &&& store.issues.future_observation == 0
            &&& store.issues.out_of_bounds_window == 0
            &&& 1 <= store.max_entries <= 128
            &&& 1 <= max_entries <= 128 ==> store.max_entries == max_entries
            &&& max_entries > 128 ==> store.max_entries == 128
        }),
{
}

/// The latest journal of a command is the one with the highest sequence.
pub proof fn latest_journal_has_the_highest_sequence(
    map: JournalMap,
    next_sequence: u64,
    command: CommandKind,
    key: u128,
    other: u128,
)
    requires
        coherent(map, next_sequence),
        is_latest_of(map, command, key),
        map.contains_key(other),
        map[other].entry.command == command,
        other != key,
    ensures
        map.contains_key(key),
        map[key].entry.command == command,
        map[other].entry.sequence < map[key].entry.sequence,
{
}

/// The performance operation of an instance that is shown is one of that instance. One that has not
/// ended is shown before those that have, and else the one with the highest sequence.
pub proof fn shown_operation_is_under_way_or_the_latest(
    map: JournalMap,
    next_sequence: u64,
    instance_id: Seq<char>,
    key: u128,
    other: u128,
)
    requires
        coherent(map, next_sequence),
        is_shown(map, instance_id, key),
        map.contains_key(other),
        map[other].entry.intent is Performance,
        map[other].entry.intent->Performance_0.intent.instance_id == instance_id,
        other != key,
    ensures
        ({
            let shown = map[key].entry.intent->Performance_0;
            let rest = map[other].entry.intent->Performance_0;
            &&& map.contains_key(key)
            &&& map[key].entry.intent is Performance
            &&& shown.intent.instance_id == instance_id
            &&& shown.phase is Terminal ==> rest.phase is Terminal
            &&& (shown.phase is Terminal <==> rest.phase is Terminal) ==> map[other].entry.sequence
                < map[key].entry.sequence
        }),
{
}

/// The operations that are listed for a restart are those that it handles in this way, each once, the
/// one with the lowest sequence first.
pub proof fn listed_restarts_are_in_order(
    map: JournalMap,
    next_sequence: u64,
    keys: Seq<u128>,
    restart: OperationRestartDisposition,
)
    requires
        coherent(map, next_sequence),
        lists_restarts(keys, map, restart),
    ensures
        forall|i: int, j: int|
            0 <= i < j < keys.len() ==> map[#[trigger] keys[i]].entry.sequence
                < map[#[trigger] keys[j]].entry.sequence,
        restart is Resumable ==> forall|key: u128| #[trigger]
            keys.contains(key) <==> map.contains_key(key) && map[key].entry.intent is Performance
                && map[key].entry.intent->Performance_0.phase is Prepared,
        restart is AppliedUnverified ==> forall|key: u128| #[trigger]
            keys.contains(key) <==> map.contains_key(key) && map[key].entry.intent is Performance
                && (map[key].entry.intent->Performance_0.phase is EffectStarted
                || map[key].entry.intent->Performance_0.phase is AppliedUnverified),
{
    assert forall|i: int, j: int| 0 <= i < j < keys.len() implies map[
        #[trigger] keys[i]
    ].entry.sequence < map[#[trigger] keys[j]].entry.sequence by {
        assert(older(map, keys[i], keys[j]));
        assert(keys.contains(keys[i]) && keys.contains(keys[j]));
    }
}

/// Whether a journal is one of those that were answered with yes.
pub open spec fn is_asked_for(
    entry: OperationJournalEntryView,
    items: Seq<OperationJournalEntryView>,
    answers: Seq<bool>,
) -> bool {
    exists|i: int| 0 <= i < items.len() && answers[i] && #[trigger] items[i] == entry
}

/// The journals that are selected by an answer to each are those that were answered with yes.
pub proof fn selected_journals_are_those_asked_for(
    items: Seq<OperationJournalEntryView>,
    answers: Seq<bool>,
)
    requires
        answers.len() == items.len(),
    ensures
        forall|k: int|
            0 <= k < selected(items, answers).len() ==> is_asked_for(
                #[trigger] selected(items, answers)[k],
                items,
                answers,
            ),
        forall|i: int|
            0 <= i < items.len() && answers[i] ==> selected(items, answers).contains(
                #[trigger] items[i],
            ),
    decreases items.len(),
{
    if items.len() > 0 {
        let front = items.drop_last();
        let told = answers.drop_last();
        selected_journals_are_those_asked_for(front, told);
        let before = selected(front, told);
        let found = selected(items, answers);
        let n = items.len() - 1;
        assert forall|k: int| 0 <= k < found.len() implies is_asked_for(
            #[trigger] found[k],
            items,
            answers,
        ) by {
            if k < before.len() {
                assert(found[k] == before[k]);
                assert(is_asked_for(before[k], front, told));
                let i = choose|i: int|
                    0 <= i < front.len() && told[i] && #[trigger] front[i] == before[k];
                assert(answers[i] && items[i] == found[k]);
            } else {
                assert(answers[n] && items[n] == found[k]);
            }
        }
        assert forall|i: int| 0 <= i < items.len() && answers[i] implies found.contains(
            #[trigger] items[i],
        ) by {
            if i < n {
                assert(front[i] == items[i] && told[i]);
                assert(before.contains(items[i]));
                let k = choose|k: int| 0 <= k < before.len() && before[k] == items[i];
                assert(found[k] == items[i]);
            } else {
                assert(found[found.len() - 1] == items[i]);
            }
        }
    }
}

/// Where every journal is answered with yes all are selected, in their order, and where every one is
/// answered with no none is. One that is answered with yes and comes last is selected last.
pub proof fn selected_journals_keep_their_order(
    items: Seq<OperationJournalEntryView>,
    answers: Seq<bool>,
    item: OperationJournalEntryView,
)
    requires
        answers.len() == items.len(),
    ensures
        (forall|i: int| 0 <= i < items.len() ==> #[trigger] answers[i]) ==> selected(
            items,
            answers,
        ) == items,
        (forall|i: int| 0 <= i < items.len() ==> !#[trigger] answers[i]) ==> selected(
            items,
            answers,
        ).len() == 0,
        selected(items.push(item), answers.push(true)) == selected(items, answers).push(item),
        selected(items.push(item), answers.push(false)) == selected(items, answers),
    decreases items.len(),
{
    assert(items.push(item).drop_last() =~= items);
    assert(answers.push(true).drop_last() =~= answers);
    assert(answers.push(false).drop_last() =~= answers);
    if items.len() > 0 {
        let front = items.drop_last();
        let told = answers.drop_last();
        selected_journals_keep_their_order(front, told, item);
        let n = items.len() - 1;
        if forall|i: int| 0 <= i < items.len() ==> #[trigger] answers[i] {
            assert forall|i: int| 0 <= i < front.len() implies #[trigger] told[i] by {
                assert(answers[i]);
            }
            assert(answers[n]);
            assert(selected(items, answers) =~= items);
        }
        if forall|i: int| 0 <= i < items.len() ==> !#[trigger] answers[i] {
            assert forall|i: int| 0 <= i < front.len() implies !#[trigger] told[i] by {
                assert(!answers[i]);
            }
            assert(!answers[n]);
        }
    } else {
        assert(selected(items, answers) =~= items);
    }
}

/// A transition whose journal could not be written is followed up only where the write is open. The
/// write is repeated at most four times, and the wait between two doubles up to a limit. The error that
/// is kept is the last one.
pub proof fn open_write_is_repeated_a_few_times(
    error: OperationJournalStoreError,
    initial: u64,
    max: u64,
    state: TransitionReconciliation,
    outcome: Result<(), OperationJournalStoreError>,
    waiting: bool,
)
    requires
        state.attempts < 4,
    ensures
        ({
            let begun = reconciliation_of(error, initial, max);
            &&& begun is Ok <==> error is Persistence || error is RetryRequired
            &&& begun is Err ==> begun->Err_0 == error
            &&& begun is Ok ==> {
                &&& begun->Ok_0.error == error
                &&& begun->Ok_0.attempts == 0
                &&& begun->Ok_0.delay_millis == initial
                &&& begun->Ok_0.max_delay_millis == max
                &&& begun->Ok_0.retry_requested <==> error is RetryRequired
            }
        }),
        first_step(state, waiting) is Retry <==> waiting,
        first_step(state, waiting) is Conclude <==> !waiting,
        ({
            let after = after_retry(state, outcome, waiting);
            let step = step_after_retry(state, outcome, waiting);
            &&& after.attempts == state.attempts + 1
            &&& after.retry_requested == state.retry_requested
            &&& after.max_delay_millis == state.max_delay_millis
            &&& outcome is Ok ==> after.error == state.error && after.delay_millis
                == state.delay_millis
            &&& outcome is Err ==> after.error == outcome->Err_0
            &&& outcome is Err && !waiting ==> after.delay_millis == state.delay_millis
            &&& outcome is Err && waiting && state.delay_millis * 2 <= state.max_delay_millis
                ==> after.delay_millis == state.delay_millis * 2
            &&& outcome is Err && waiting && state.delay_millis * 2 > state.max_delay_millis
                ==> after.delay_millis == state.max_delay_millis
            &&& outcome is Err && waiting && state.attempts < 3 ==> step
                == ReconciliationStep::WaitMillis(state.delay_millis)
            &&& outcome is Ok || !waiting || state.attempts == 3 ==> step is Conclude
        }),
{
}

/// What is concluded of a transition whose journal could not be written: that it was made, where it
/// shows, and else that it is to be made again, or the error. A transition that was only turned away by
/// the write of another is never reported as failed.
pub proof fn conclusion_follows_what_shows(
    state: TransitionReconciliation,
    shows: bool,
    tried: usize,
)
    ensures
        ({
            let found = conclusion(state, shows);
            &&& found is Err <==> !shows && !state.retry_requested
            &&& found is Err ==> found->Err_0 == state.error
            &&& shows && state.retry_requested ==> found->Ok_0
                is RequestedTransitionAlreadyCommitted
            &&& shows && !state.retry_requested ==> found->Ok_0
                == OperationJournalReconciliation::CommittedAfterPersistenceFailure(
                state.error,
            )
            &&& !shows && state.retry_requested ==> found->Ok_0 is RetryRequestedTransition
            &&& found is Ok ==> {
                let again = tried_again(tried, found->Ok_0);
                &&& shows ==> again is Ok && again->Ok_0 is None
                &&& !shows && tried < 4 ==> again is Ok && again->Ok_0 is Some && again->Ok_0->0
                    == tried + 1
                &&& !shows && tried >= 4 ==> again is Err && again->Err_0 is RetryRequired
            }
        }),
{
}

/// A restart, a flush and a close begin with the repetition of a write that failed, where there is one.
/// A restart whose journals were not written is reported only where that write can be repeated.
pub proof fn failed_write_comes_first(
    store: OperationJournalStoreView,
    written: bool,
    has_file: bool,
)
    ensures
        ({
            let open = store.retry_candidate is Some;
            let begin = restart_begins_with(store);
            let next = restart_goes_on_with(store, written);
            let flush = flushing(store, has_file);
            let close = closing(store, has_file);
            let n = if open {
                1int
            } else {
                0int
            };
            &&& begin is RetryFirst <==> open
            &&& begin is Settle <==> !open
            &&& next is Report <==> written
            &&& next is RetryThenReport <==> !written && open
            &&& next is Fail <==> !written && !open
            &&& open ==> (flush.len() > 0 && flush[0] is Retry && close.len() > 0 && close[0]
                is Retry)
            &&& flush.len() == n + if has_file {
                1int
            } else {
                0int
            }
            &&& has_file ==> flush[n] is Flush
            &&& close.len() == n + if has_file {
                2int
            } else {
                0int
            }
            &&& has_file ==> close[n] is Settle && close[n + 1] is Close
        }),
{
}

/// The operation that was created with an intent is shown once its journal holds that very intent.
pub proof fn created_operation_is_shown_by_its_intent(
    store: OperationJournalStoreView,
    id: OperationId,
    intent: PerformanceOperationIntentView,
    rulings: LauncherRulingsView,
)
    ensures
        ({
            let answer = creation_shown(store, id, intent, rulings);
            let held = store.visible.entries[id.value].entry;
            let there = store.visible.entries.contains_key(id.value) && held.intent is Performance
                && held.intent->Performance_0.intent == intent;
            let valid = intent_is_valid(intent, rulings);
            &&& !valid ==> answer is Err && answer->Err_0 is Validation
                && answer->Err_0->Validation_0 is InvalidPerformanceLifecycle
            &&& valid && !there ==> answer is Err && answer->Err_0 is MissingOperation
            &&& valid && there ==> {
                &&& answer is Ok
                &&& answer->Ok_0.operation_id == held.operation_id
                &&& answer->Ok_0.intent == intent
                &&& answer->Ok_0.phase == held.intent->Performance_0.phase
                &&& answer->Ok_0.sequence == held.sequence
            }
        }),
{
}

/// A plan shows in a journal that agrees with it in everything but its sequence, and in no other.
pub proof fn plan_shows_in_the_same_journal(
    entry: OperationJournalEntryView,
    expected: OperationJournalEntryView,
    sequence: u64,
)
    ensures
        plan_is_visible(entry, expected)
            <==> at_sequence(entry, sequence)
            == at_sequence(expected, sequence),
        same_but_sequence(entry, expected)
            <==> at_sequence(entry, sequence)
            == at_sequence(expected, sequence),
{
    let a = at_sequence(entry, sequence);
    let b = at_sequence(expected, sequence);
    if a == b {
        assert(at_sequence(a, entry.sequence) == entry);
        assert(at_sequence(b, expected.sequence) == expected);
        assert(entry.journal_id == a.journal_id && expected.journal_id == b.journal_id);
    }
    if plan_is_visible(entry, expected) {
        assert(a == b);
    }
}

/// Whether a journal shows the step that is expected: one that did the same, with the same effect, and
/// holds every fact that is expected of it.
pub open spec fn shows_the_step(
    entry: OperationJournalEntryView,
    expected: OperationJournalStepView,
) -> bool {
    exists|i: int|
        0 <= i < entry.completed_steps.len() && {
            let step = #[trigger] entry.completed_steps[i];
            &&& step.step_id == expected.step_id
            &&& step.phase == expected.phase
            &&& step.result == expected.result
            &&& step.changed_target == expected.changed_target
            &&& step.rollback == expected.rollback
            &&& step.metrics == expected.metrics
            &&& forall|fact: Seq<char>|
                expected.generated_facts.contains(fact) ==> #[trigger] step.generated_facts.contains(
                    fact,
                )
            &&& forall|fact: GuardianFactId|
                expected.guardian_fact_ids.contains(fact)
                    ==> #[trigger] step.guardian_fact_ids.contains(fact)
        }
}

/// A step shows in a journal that holds one like it, with at least its facts.
pub proof fn completed_step_shows_with_its_facts(
    entry: OperationJournalEntryView,
    expected: OperationJournalStepView,
)
    ensures
        completed_step_is_visible(entry, expected) <==> shows_the_step(
            entry,
            expected,
        ),
{
    if completed_step_is_visible(entry, expected) {
        let i = choose|i: int|
            0 <= i < entry.completed_steps.len() && step_covers(
                #[trigger] entry.completed_steps[i],
                expected,
            );
        let step = entry.completed_steps[i];
        assert forall|fact: Seq<char>| expected.generated_facts.contains(fact) implies #[trigger]
            step.generated_facts.contains(fact) by {
            let k = choose|k: int|
                0 <= k < expected.generated_facts.len() && expected.generated_facts[k] == fact;
            assert(step.generated_facts.contains(expected.generated_facts[k]));
        }
        assert forall|fact: GuardianFactId|
            expected.guardian_fact_ids.contains(fact) implies #[trigger]
            step.guardian_fact_ids.contains(fact) by {
            let k = choose|k: int|
                0 <= k < expected.guardian_fact_ids.len() && expected.guardian_fact_ids[k] == fact;
            assert(step.guardian_fact_ids.contains(expected.guardian_fact_ids[k]));
        }
    }
    if shows_the_step(entry, expected) {
        let i = choose|i: int|
            0 <= i < entry.completed_steps.len() && {
                let step = #[trigger] entry.completed_steps[i];
                &&& step.step_id == expected.step_id
                &&& step.phase == expected.phase
                &&& step.result == expected.result
                &&& step.changed_target == expected.changed_target
                &&& step.rollback == expected.rollback
                &&& step.metrics == expected.metrics
                &&& forall|fact: Seq<char>|
                    expected.generated_facts.contains(fact)
                        ==> #[trigger] step.generated_facts.contains(fact)
                &&& forall|fact: GuardianFactId|
                    expected.guardian_fact_ids.contains(fact)
                        ==> #[trigger] step.guardian_fact_ids.contains(fact)
            };
        let step = entry.completed_steps[i];
        assert forall|k: int| 0 <= k < expected.generated_facts.len() implies
            step.generated_facts.contains(#[trigger] expected.generated_facts[k]) by {
            assert(expected.generated_facts.contains(expected.generated_facts[k]));
        }
        assert forall|k: int| 0 <= k < expected.guardian_fact_ids.len() implies
            step.guardian_fact_ids.contains(#[trigger] expected.guardian_fact_ids[k]) by {
            assert(expected.guardian_fact_ids.contains(expected.guardian_fact_ids[k]));
        }
        assert(step_covers(step, expected));
    }
}

/// The end of an operation shows in a journal of the same plan that ended in the same way, holds the
/// same ends of repairs and every diagnosis, and shows every step.
pub proof fn ended_operation_shows_with_its_steps(
    entry: OperationJournalEntryView,
    expected: OperationJournalEntryView,
)
    ensures
        terminal_is_visible(entry, expected) <==> {
            &&& entry.journal_id == expected.journal_id
            &&& entry.operation_id == expected.operation_id
            &&& entry.parent_operation_id == expected.parent_operation_id
            &&& entry.command == expected.command
            &&& entry.intent == expected.intent
            &&& entry.owner == expected.owner
            &&& entry.ownership == expected.ownership
            &&& entry.targets == expected.targets
            &&& entry.planned_steps == expected.planned_steps
            &&& entry.rollback == expected.rollback
            &&& entry.status == expected.status
            &&& entry.failure_point == expected.failure_point
            &&& entry.outcome == expected.outcome
            &&& entry.guardian_install_terminal == expected.guardian_install_terminal
            &&& entry.reconciliation_attempt == expected.reconciliation_attempt
            &&& entry.reconciliation_terminal == expected.reconciliation_terminal
            &&& entry.persisted_state_repair_attempt == expected.persisted_state_repair_attempt
            &&& entry.persisted_state_repair_terminal == expected.persisted_state_repair_terminal
            &&& forall|i: int|
                0 <= i < expected.guardian_diagnosis_ids.len()
                    ==> entry.guardian_diagnosis_ids.contains(
                    #[trigger] expected.guardian_diagnosis_ids[i],
                )
            &&& forall|i: int|
                0 <= i < expected.completed_steps.len() ==> shows_the_step(
                    entry,
                    #[trigger] expected.completed_steps[i],
                )
        },
{
    assert forall|i: int| 0 <= i < expected.completed_steps.len() implies shows_the_step(
        entry,
        #[trigger] expected.completed_steps[i],
    ) == completed_step_is_visible(
        entry,
        expected.completed_steps[i],
    ) by {
        completed_step_shows_with_its_facts(entry, expected.completed_steps[i]);
    }
}

/// Whether a snapshot is in order: it is of the schema, its journals are, each is of another operation
/// under another sequence below the next one, and no two of the same instance are at work.
pub open spec fn snapshot_is_in_order(
    snapshot: OperationJournalSnapshotView,
    rulings: LauncherRulingsView,
) -> bool {
    let entries = snapshot.entries;
    &&& snapshot.schema == "axial.state.operation_journals.v10"@
    &&& snapshot.next_sequence >= 1
    &&& forall|i: int|
        0 <= i < entries.len() ==> entry_verdict(
            #[trigger] entries[i],
            rulings,
        ) is Ok && 1 <= entries[i].sequence < snapshot.next_sequence
    &&& forall|i: int, j: int|
        0 <= i < j < entries.len() ==> {
            &&& (#[trigger] entries[i]).operation_id != (#[trigger] entries[j]).operation_id
            &&& entries[i].sequence != entries[j].sequence
            &&& !(at_work(entries[i]) && at_work(entries[j])
                && entries[i].intent->Performance_0.intent.instance_id
                == entries[j].intent->Performance_0.intent.instance_id)
        }
}

/// Whether an entry is of a performance operation that has not ended.
pub open spec fn at_work(entry: OperationJournalEntryView) -> bool {
    entry.intent is Performance && !has_ended(entry)
}

proof fn rows_in_order(
    snapshot: OperationJournalSnapshotView,
    n: nat,
    rulings: LauncherRulingsView,
)
    requires
        snapshot_is_in_order(snapshot, rulings),
        n <= snapshot.entries.len(),
    ensures
        rows_verdict(snapshot.entries, n, rulings) is Ok,
    decreases n,
{
    if n > 0 {
        rows_in_order(snapshot, (n - 1) as nat, rulings);
        let i = n - 1;
        let entries = snapshot.entries;
        assert(entry_verdict(entries[i], rulings) is Ok);
        assert forall|j: int| 0 <= j < i implies {
            &&& (#[trigger] entries[j]).operation_id != entries[i].operation_id
            &&& entries[j].sequence != entries[i].sequence
        } by {}
    }
}

/// A snapshot is accepted exactly where it is in order.
pub proof fn accepted_snapshots_are_in_order(
    snapshot: OperationJournalSnapshotView,
    rulings: LauncherRulingsView,
)
    ensures
        snapshot_verdict(snapshot, rulings) is Ok <==> snapshot_is_in_order(
            snapshot,
            rulings,
        ),
{
    let entries = snapshot.entries;
    if snapshot_is_in_order(snapshot, rulings) {
        rows_in_order(snapshot, entries.len(), rulings);
    }
    if snapshot_verdict(snapshot, rulings) is Ok {
        assert forall|i: int| 0 <= i < entries.len() implies
            entry_verdict(#[trigger] entries[i], rulings) is Ok && 1
            <= entries[i].sequence < snapshot.next_sequence by {
            snapshot_in_order(snapshot, rulings, i);
        }
        assert forall|i: int, j: int| 0 <= i < j < entries.len() implies {
            &&& (#[trigger] entries[i]).operation_id != (#[trigger] entries[j]).operation_id
            &&& entries[i].sequence != entries[j].sequence
            &&& !(at_work(entries[i]) && at_work(entries[j])
                && entries[i].intent->Performance_0.intent.instance_id
                == entries[j].intent->Performance_0.intent.instance_id)
        } by {
            snapshot_in_order(snapshot, rulings, i);
        }
    }
}

/// Each kind of error of the store has a word of its own.
pub proof fn errors_have_different_words(
    a: OperationJournalStoreError,
    b: OperationJournalStoreError,
)
    ensures
        a.class_text() == b.class_text() <==> {
            ||| a is Validation && b is Validation
            ||| a is Snapshot && b is Snapshot
            ||| a is MissingOperation && b is MissingOperation
            ||| a is AlreadyTerminal && b is AlreadyTerminal
            ||| a is AlreadyExists && b is AlreadyExists
            ||| a is RetryRequired && b is RetryRequired
            ||| a is CapacityExhausted && b is CapacityExhausted
            ||| a is SequenceExhausted && b is SequenceExhausted
            ||| a is Conflict && b is Conflict
            ||| a is InvalidGuardianOutcome && b is InvalidGuardianOutcome
            ||| a is InvalidOperationMetrics && b is InvalidOperationMetrics
            ||| a is GuardianFailureMemoryUnavailable && b is GuardianFailureMemoryUnavailable
            ||| a is Persistence && b is Persistence
        },
{
    reveal_strlit("validation");
    reveal_strlit("snapshot");
    reveal_strlit("missing_operation");
    reveal_strlit("already_terminal");
    reveal_strlit("already_exists");
    reveal_strlit("retry_required");
    reveal_strlit("capacity_exhausted");
    reveal_strlit("sequence_exhausted");
    reveal_strlit("conflict");
    reveal_strlit("invalid_guardian_outcome");
    reveal_strlit("invalid_operation_metrics");
    reveal_strlit("guardian_failure_memory_unavailable");
    reveal_strlit("persistence");
    assert("validation"@.len() == 10);
    assert("snapshot"@.len() == 8);
    assert("missing_operation"@.len() == 17);
    assert("already_terminal"@.len() == 16);
    assert("already_exists"@.len() == 14);
    assert("retry_required"@.len() == 14);
    assert("capacity_exhausted"@.len() == 18);
    assert("sequence_exhausted"@.len() == 18);
    assert("conflict"@.len() == 8);
    assert("invalid_guardian_outcome"@.len() == 24);
    assert("invalid_operation_metrics"@.len() == 25);
    assert("guardian_failure_memory_unavailable"@.len() == 35);
    assert("persistence"@.len() == 11);
    assert("snapshot"@[0] != "conflict"@[0]);
    assert("already_exists"@[0] != "retry_required"@[0]);
    assert("capacity_exhausted"@[0] != "sequence_exhausted"@[0]);
}

/// A restart is refused while a write has to be repeated. Otherwise what it makes of the journals is
/// taken in without any of them leaving, and where it changes nothing nothing is written.
pub proof fn restart_takes_no_journal_away(
    store: OperationJournalStoreView,
    values: Seq<AcceptedJournalEntryView>,
    now: Seq<char>,
    rulings: LauncherRulingsView,
)
    ensures
        store.retry_candidate is Some ==> {
            let answer = restarts_settled(store, now, rulings);
            answer is Err && answer->Err_0 is RetryRequired
        },
        ({
            let answer = restarts_prepared(store, values);
            let after = answer->Ok_0->0;
            &&& values.len() == 0 ==> answer is Ok && answer->Ok_0 is None
            &&& values.len() > 0 && answer is Ok ==> {
                &&& answer->Ok_0 is Some
                &&& after.next_sequence == store.visible.next_sequence
                &&& forall|key: u128|
                    store.visible.entries.contains_key(key) ==> #[trigger]
                    after.entries.contains_key(key)
                &&& after.entries.contains_key(
                    values[values.len() - 1].entry.operation_id.value,
                )
                &&& after.entries[values[values.len() - 1].entry.operation_id.value]
                    == values[values.len() - 1]
            }
        }),
{
    inserting_takes_nothing_away(store.visible.entries, values);
}

proof fn inserting_takes_nothing_away(map: JournalMap, values: Seq<AcceptedJournalEntryView>)
    ensures
        forall|key: u128|
            map.contains_key(key) ==> #[trigger] inserted(
                map,
                values,
            ).contains_key(key),
    decreases values.len(),
{
    if values.len() > 0 {
        let before = inserted(map, values.drop_last());
        inserting_takes_nothing_away(map, values.drop_last());
        assert forall|key: u128| map.contains_key(key) implies #[trigger] inserted(
            map,
            values,
        ).contains_key(key) by {
            assert(before.contains_key(key));
        }
    }
}

/// The plan and the end of a repair show in a journal that holds them and is in order. The plan no
/// longer shows once there is an end.
pub proof fn repair_shows_in_its_journal(
    entry: OperationJournalEntryView,
    attempt: PersistedStateRepairAttemptView,
    terminal: PersistedStateRepairTerminalView,
    rulings: LauncherRulingsView,
)
    ensures
        repair_plan_is_visible(entry, attempt, rulings) <==> {
            &&& entry.persisted_state_repair_attempt == Some(attempt)
            &&& entry.persisted_state_repair_terminal is None
            &&& entry_verdict(entry, rulings) is Ok
        },
        repair_terminal_is_visible(entry, terminal, rulings) <==> {
            &&& entry.persisted_state_repair_terminal == Some(terminal)
            &&& entry_verdict(entry, rulings) is Ok
        },
{
}

} // verus!

//! What is owed to requests that are in order.

use crate::contracts::{CommandKind, DiagnosisId, OperationId, OperationStatus};
use crate::entry::OperationJournalEntryView;
use crate::evidence::PersistedStateRepairAttemptView;
use crate::instants::millis_instant;
use crate::journal_errors::OperationJournalStoreError;
use crate::journal_laws::{
    all_valid, coherent, draft_fits, nothing_leaves_while_there_is_room,
    writing_keeps_the_store_coherent,
};
use crate::journal_names::{
    abandoned_failure_point_is_safe, failed_failure_point_is_safe, journal_names_are_safe,
    repair_step_name_is_safe,
};
use crate::journal_performance::{
    accepted_performance, created_performance, first_free, first_free_is_free, follows_creation,
    instance_is_busy, restart_phase, restarted, restarted_entries, transition_answer,
    transition_error_is_canonical, transition_is_held, transitions_keep_journals_valid,
    unconfirmed_error,
};
use crate::journal_pruning::older;
use crate::journal_queries::{lists_restarts, restarts_as};
use crate::journal_records::{created, fresh_draft, repair_plan};
use crate::journal_replays::{
    restarted_journals_stand, second_restart_changes_nothing, store_is_coherent, written,
};
use crate::journal_revision::{
    bytes_of, fits, inserted, replaced, AcceptedJournalEntryView, JournalMap,
};
use crate::journal_snapshot::active_performance_instance;
use crate::journal_store::{prepared_revision, rows, JournalDraftView, OperationJournalStoreView};
use crate::journal_temporal::times_admitted;
use crate::journal_validation::{
    entry_verdict, identity_verdict, is_terminal, planned_steps_verdict, repair_plan_step,
    step_verdict, target_verdict, targets_verdict,
};
use crate::journal_visibility::repair_plan_is_visible;
use crate::lifecycle::{
    PerformanceOperationIntentView, PerformanceOperationLifecycleView,
    PerformanceOperationPhaseView, PerformanceOperationTerminalView,
    PerformanceOperationTransitionView,
};
use crate::ordered::{ascending, ascending_lists};
use crate::performance::{
    intent_is_valid, lifecycle_is_valid, lifecycle_of, moved_to, next_phase, transition_fits,
};
use crate::projection::{projection_of, OperationRestartDisposition};
use crate::rulings::LauncherRulingsView;
use crate::tokens::{is_canonical_fragment, is_safe_token};
use vstd::prelude::*;

verus! {

/// Whether the store can take one more journal: nothing waits to be written, a sequence is left, and
/// there is room.
pub open spec fn has_room(store: OperationJournalStoreView) -> bool {
    &&& store.retry_candidate is None
    &&& store.visible.next_sequence < u64::MAX
    &&& store.visible.entries.dom().len() < store.max_entries
}

/// Whether the journals can be written down together with this one.
pub open spec fn text_fits(
    store: OperationJournalStoreView,
    draft: JournalDraftView,
    canonical: Seq<u8>,
) -> bool {
    let more = store.visible.entries.insert(
        draft.entry.operation_id.value,
        AcceptedJournalEntryView { entry: draft.entry, canonical },
    );
    bytes_of(more) <= usize::MAX && fits(more, draft.next_sequence)
}

/// A performance operation that is asked for with a valid intent begins with a valid journal where its
/// instance is named by a safe token and the time is written as it should be, and nowhere else.
pub proof fn accepted_journals_are_valid(
    operation_id: OperationId,
    intent: PerformanceOperationIntentView,
    now: Seq<char>,
    rulings: LauncherRulingsView,
)
    ensures
        entry_verdict(accepted_performance(operation_id, intent, now), rulings) is Ok
            <==> intent_is_valid(intent, rulings) && is_safe_token(intent.instance_id, 96)
            && millis_instant(now) is Some,
{
    let entry = accepted_performance(operation_id, intent, now);
    let lifecycle = lifecycle_of(entry)->0;
    journal_names_are_safe(operation_id);
    assert(identity_verdict(entry) is Ok);
    assert(entry.targets.contains(entry.targets[0]));
    assert(entry.targets.contains(entry.targets[1]));
    if entry_verdict(entry, rulings) is Ok {
        assert(target_verdict(entry.targets[0]) is Ok);
        assert(lifecycle_is_valid(entry, lifecycle, rulings));
    }
    if intent_is_valid(intent, rulings) && is_safe_token(intent.instance_id, 96)
        && millis_instant(now) is Some {
        assert(targets_verdict(entry.targets) is Ok);
        assert(lifecycle_is_valid(entry, lifecycle, rulings));
    }
}

/// The journal of a performance operation stays valid when it moves to a phase in which its lifecycle
/// is valid.
pub proof fn moved_journals_are_valid(
    entry: OperationJournalEntryView,
    lifecycle: PerformanceOperationLifecycleView,
    phase: PerformanceOperationPhaseView,
    now: Seq<char>,
    rulings: LauncherRulingsView,
)
    requires
        entry_verdict(entry, rulings) is Ok,
        lifecycle_of(entry) == Some(lifecycle),
        ({
            let moved = moved_to(entry, lifecycle, phase, now);
            lifecycle_is_valid(moved, lifecycle_of(moved)->0, rulings)
        }),
    ensures
        entry_verdict(moved_to(entry, lifecycle, phase, now), rulings) is Ok,
{
    abandoned_failure_point_is_safe();
    failed_failure_point_is_safe();
}

/// A performance operation with a valid intent is created where no other operation of its instance is
/// under way and the store has room, if an identity is free and its journal can be written: the
/// instance is named by a safe token and the time as it should be. It gets the sequence that comes
/// next, and once it is written it is queued, with the intent and the time it was asked for. Until it
/// ends, another one of its instance is refused.
pub proof fn requested_performance_is_created(
    store: OperationJournalStoreView,
    intent: PerformanceOperationIntentView,
    minted: Seq<OperationId>,
    now: Seq<char>,
    canonical: Seq<u8>,
    rulings: LauncherRulingsView,
    other: PerformanceOperationIntentView,
    minted_later: Seq<OperationId>,
    later: Seq<char>,
)
    requires
        store_is_coherent(store),
        has_room(store),
        intent_is_valid(intent, rulings),
        !instance_is_busy(store.visible.entries, intent.instance_id),
    ensures
        created_performance(store, intent, minted, now, rulings) is Ok <==> first_free(
            store.visible.entries,
            minted,
        ) is Some && is_safe_token(intent.instance_id, 96) && millis_instant(now) is Some,
        created_performance(store, intent, minted, now, rulings) matches Ok(draft) ==> {
            let operation_id = first_free(store.visible.entries, minted)->0;
            let after = written(store, draft, canonical);
            let entry = after.visible.entries[operation_id.value].entry;
            let shown = projection_of(entry)->0;
            &&& draft == (JournalDraftView {
                entry: OperationJournalEntryView {
                    sequence: store.visible.next_sequence,
                    ..accepted_performance(operation_id, intent, now)
                },
                next_sequence: (store.visible.next_sequence + 1) as u64,
                fresh: true,
            })
            &&& prepared_revision(store, draft, canonical) is Ok <==> text_fits(
                store,
                draft,
                canonical,
            )
            &&& text_fits(store, draft, canonical) ==> {
                &&& store_is_coherent(after)
                &&& after.visible.entries == store.visible.entries.insert(
                    operation_id.value,
                    AcceptedJournalEntryView { entry: draft.entry, canonical },
                )
                &&& after.visible.next_sequence == store.visible.next_sequence + 1
                &&& entry.status == OperationStatus::Planned
                &&& entry.rollback == intent.rollback
                &&& projection_of(entry) is Some
                &&& shown.operation_id == operation_id
                &&& shown.sequence == store.visible.next_sequence
                &&& shown.intent == intent
                &&& shown.phase is Accepted
                &&& shown.state == "queued"@
                &&& shown.error is None
                &&& shown.created_at == now
                &&& shown.updated_at == now
                &&& !shown.terminal
                &&& shown.restart == OperationRestartDisposition::AbandonedBeforeEffect
                &&& instance_is_busy(after.visible.entries, intent.instance_id)
                &&& other.instance_id == intent.instance_id ==> created_performance(
                    after,
                    other,
                    minted_later,
                    later,
                    rulings,
                ) is Err
                &&& ({
                    &&& intent_is_valid(other, rulings)
                    &&& other.instance_id == intent.instance_id
                    &&& millis_instant(later) is Some
                    &&& first_free(after.visible.entries, minted_later) is Some
                }) ==> created_performance(after, other, minted_later, later, rulings) == Err::<
                    JournalDraftView,
                    _,
                >(OperationJournalStoreError::Conflict)
            }
        },
{
    if first_free(store.visible.entries, minted) is Some {
        let operation_id = first_free(store.visible.entries, minted)->0;
        let accepted = accepted_performance(operation_id, intent, now);
        accepted_journals_are_valid(operation_id, intent, now, rulings);
        first_free_is_free(store.visible.entries, minted);
        let draft = fresh_draft(store, accepted)->Ok_0;
        assert(draft_fits(store, draft));
        nothing_leaves_while_there_is_room(store, draft, canonical);
        if created_performance(store, intent, minted, now, rulings) is Ok && text_fits(
            store,
            draft,
            canonical,
        ) {
            writing_keeps_the_store_coherent(store, draft, canonical);
            let after = written(store, draft, canonical);
            let key = operation_id.value;
            assert(active_performance_instance(after.visible.entries[key].entry) == Some(
                intent.instance_id,
            ));
            if first_free(after.visible.entries, minted_later) is Some {
                accepted_journals_are_valid(
                    first_free(after.visible.entries, minted_later)->0,
                    other,
                    later,
                    rulings,
                );
            }
        }
    }
}

/// A transition that is allowed and fits the intent is made, whatever else the store holds.
pub proof fn allowed_transition_is_made(
    store: OperationJournalStoreView,
    operation_id: OperationId,
    transition: PerformanceOperationTransitionView,
    now: Seq<char>,
    rulings: LauncherRulingsView,
)
    requires
        store.retry_candidate is None,
        store.visible.entries.contains_key(operation_id.value),
        all_valid(store.visible.entries, rulings),
        !transition_is_held(store, operation_id, transition),
        lifecycle_of(store.visible.entries[operation_id.value].entry) matches Some(lifecycle)
            && transition_fits(lifecycle.intent, transition, rulings) && follows_creation(
            lifecycle,
            now,
        ) && next_phase(lifecycle.phase, transition) is Some,
        transition_error_is_canonical(transition, rulings),
    ensures
        ({
            let entry = store.visible.entries[operation_id.value].entry;
            let lifecycle = lifecycle_of(entry)->0;
            transition_answer(store, operation_id, transition, now, rulings) == Ok::<
                Option<JournalDraftView>,
                OperationJournalStoreError,
            >(
                Some(
                    JournalDraftView {
                        entry: moved_to(
                            entry,
                            lifecycle,
                            next_phase(lifecycle.phase, transition)->0,
                            now,
                        ),
                        next_sequence: store.visible.next_sequence,
                        fresh: false,
                    },
                ),
            )
        }),
{
    let entry = store.visible.entries[operation_id.value].entry;
    let lifecycle = lifecycle_of(entry)->0;
    let phase = next_phase(lifecycle.phase, transition)->0;
    assert(entry_verdict(entry, rulings) is Ok);
    assert(lifecycle_is_valid(entry, lifecycle, rulings));
    transitions_keep_journals_valid(entry, lifecycle, transition, now, rulings);
    moved_journals_are_valid(entry, lifecycle, phase, now, rulings);
    let moved = moved_to(entry, lifecycle, phase, now);
    assert(times_admitted(store.now, moved, false));
    assert(!is_terminal(entry.status));
}

/// An operation that has ended takes no other transition: what brought it to its end shows, and
/// anything else, another end among it, is refused.
pub proof fn ended_operation_takes_no_other_transition(
    store: OperationJournalStoreView,
    operation_id: OperationId,
    transition: PerformanceOperationTransitionView,
    now: Seq<char>,
    rulings: LauncherRulingsView,
)
    requires
        store.visible.entries.contains_key(operation_id.value),
        all_valid(store.visible.entries, rulings),
        lifecycle_of(store.visible.entries[operation_id.value].entry) matches Some(lifecycle)
            && lifecycle.phase is Terminal,
    ensures
        ({
            let phase = lifecycle_of(store.visible.entries[operation_id.value].entry)->0.phase;
            let terminal = phase->Terminal_terminal;
            &&& transition == PerformanceOperationTransitionView::CommitTerminal(terminal)
                ==> transition_answer(store, operation_id, transition, now, rulings) == Ok::<
                Option<JournalDraftView>,
                OperationJournalStoreError,
            >(None)
            &&& (transition matches PerformanceOperationTransitionView::CommitTerminal(other)
                && other != terminal) ==> transition_answer(
                store,
                operation_id,
                transition,
                now,
                rulings,
            ) is Err
            &&& !transition_is_held(store, operation_id, transition) ==> transition_answer(
                store,
                operation_id,
                transition,
                now,
                rulings,
            ) == Err::<Option<JournalDraftView>, _>(
                if store.retry_candidate is Some {
                    OperationJournalStoreError::RetryRequired
                } else {
                    OperationJournalStoreError::AlreadyTerminal
                },
            )
        }),
{
    let entry = store.visible.entries[operation_id.value].entry;
    assert(entry_verdict(entry, rulings) is Ok);
    assert(lifecycle_is_valid(entry, lifecycle_of(entry)->0, rulings));
    assert(is_terminal(entry.status));
}

/// Whether an attempt to repair a persisted record can be planned: it is consistent, names its journal
/// and its target by safe tokens, and a journal may hold the one diagnosis that the plan makes.
pub open spec fn can_be_planned(
    attempt: PersistedStateRepairAttemptView,
    rulings: LauncherRulingsView,
) -> bool {
    &&& attempt.consistent
    &&& is_safe_token(attempt.journal_id, 128)
    &&& is_safe_token(attempt.target.id, 96)
    &&& rulings.max_guardian_diagnoses >= 1
}

/// The plan to repair a persisted record is valid where its attempt can be planned, and nowhere else.
pub proof fn repair_plans_are_valid(
    attempt: PersistedStateRepairAttemptView,
    rulings: LauncherRulingsView,
)
    ensures
        entry_verdict(repair_plan(attempt), rulings) is Ok <==> can_be_planned(attempt, rulings),
{
    let plan = repair_plan(attempt);
    repair_step_name_is_safe();
    assert(plan.targets[0] == attempt.target);
    if entry_verdict(plan, rulings) is Ok {
        assert(target_verdict(plan.targets[0]) is Ok);
    }
    if can_be_planned(attempt, rulings) {
        assert(identity_verdict(plan) is Ok);
        assert(targets_verdict(plan.targets) is Ok);
        assert(step_verdict(repair_plan_step(), rulings) is Ok);
        assert(plan.planned_steps.drop_last() =~= Seq::empty());
        assert(plan.planned_steps.last() == repair_plan_step());
        assert(planned_steps_verdict(Seq::empty(), rulings) is Ok);
        assert(planned_steps_verdict(plan.planned_steps, rulings) is Ok);
    }
}

/// The plan to repair a persisted record is created where its operation has no journal yet and the
/// store has room, if its attempt can be planned and is in force. It gets the sequence that comes
/// next, shows once it is written, and is not created a second time.
pub proof fn requested_repair_plan_is_created(
    store: OperationJournalStoreView,
    attempt: PersistedStateRepairAttemptView,
    canonical: Seq<u8>,
    rulings: LauncherRulingsView,
)
    requires
        store_is_coherent(store),
        has_room(store),
        !store.visible.entries.contains_key(attempt.operation_id.value),
    ensures
        created(store, repair_plan(attempt), false, rulings) is Ok <==> can_be_planned(
            attempt,
            rulings,
        ) && times_admitted(store.now, repair_plan(attempt), false),
        created(store, repair_plan(attempt), false, rulings) matches Ok(found) ==> {
            let plan = repair_plan(attempt);
            let draft = found->0;
            let after = written(store, draft, canonical);
            let entry = after.visible.entries[attempt.operation_id.value].entry;
            &&& found == Some(
                JournalDraftView {
                    entry: OperationJournalEntryView {
                        sequence: store.visible.next_sequence,
                        ..plan
                    },
                    next_sequence: (store.visible.next_sequence + 1) as u64,
                    fresh: true,
                },
            )
            &&& prepared_revision(store, draft, canonical) is Ok <==> text_fits(
                store,
                draft,
                canonical,
            )
            &&& text_fits(store, draft, canonical) ==> {
                &&& store_is_coherent(after)
                &&& after.visible.next_sequence == store.visible.next_sequence + 1
                &&& after.visible.entries.contains_key(attempt.operation_id.value)
                &&& repair_plan_is_visible(entry, attempt, rulings)
                &&& entry.operation_id == attempt.operation_id
                &&& entry.journal_id == attempt.journal_id
                &&& entry.sequence == store.visible.next_sequence
                &&& entry.status == OperationStatus::Planned
                &&& entry.command == CommandKind::RepairPersistedState
                &&& entry.targets == seq![attempt.target]
                &&& entry.guardian_diagnosis_ids == seq![DiagnosisId::PersistedStateSchemaInvalid]
                &&& created(after, plan, false, rulings) == Err::<Option<JournalDraftView>, _>(
                    OperationJournalStoreError::AlreadyExists,
                )
            }
        },
{
    let plan = repair_plan(attempt);
    repair_plans_are_valid(attempt, rulings);
    let draft = fresh_draft(store, plan)->Ok_0;
    assert(draft_fits(store, draft));
    nothing_leaves_while_there_is_room(store, draft, canonical);
    if created(store, plan, false, rulings) is Ok && text_fits(store, draft, canonical) {
        writing_keeps_the_store_coherent(store, draft, canonical);
        sequence_does_not_matter(plan, draft.entry.sequence, rulings);
    }
}

/// The verdict on a journal does not rest on its sequence.
pub proof fn sequence_does_not_matter(
    entry: OperationJournalEntryView,
    sequence: u64,
    rulings: LauncherRulingsView,
)
    ensures
        entry_verdict(OperationJournalEntryView { sequence, ..entry }, rulings) == entry_verdict(
            entry,
            rulings,
        ),
{
}

/// Whether what a restart makes of a journal can stand: the time of the restart can follow the
/// beginning of the operation, and the words that the restart writes read as errors should.
pub open spec fn restart_can_stand(
    entry: OperationJournalEntryView,
    now: Seq<char>,
    rulings: LauncherRulingsView,
) -> bool {
    lifecycle_of(entry) matches Some(lifecycle) ==> match lifecycle.phase {
        PerformanceOperationPhaseView::Accepted {  } => follows_creation(lifecycle, now)
            && is_canonical_fragment(
            "performance operation abandoned before effect"@,
            160,
            rulings,
        ),
        PerformanceOperationPhaseView::Planning {  } => follows_creation(lifecycle, now)
            && is_canonical_fragment(
            "performance operation abandoned before effect"@,
            160,
            rulings,
        ),
        PerformanceOperationPhaseView::EffectStarted { .. } => follows_creation(lifecycle, now)
            && is_canonical_fragment(unconfirmed_error(), 160, rulings),
        PerformanceOperationPhaseView::TerminalIntent { .. } => follows_creation(lifecycle, now),
        _ => true,
    }
}

/// A valid journal that a restart changes stays valid where what the restart makes of it can stand,
/// and nowhere else.
pub proof fn restarted_journals_are_valid(
    entry: OperationJournalEntryView,
    now: Seq<char>,
    rulings: LauncherRulingsView,
)
    requires
        entry_verdict(entry, rulings) is Ok,
    ensures
        restarted(entry, now) is None ==> restart_can_stand(entry, now, rulings),
        restarted(entry, now) matches Some(moved) ==> (entry_verdict(moved, rulings) is Ok
            <==> restart_can_stand(entry, now, rulings)),
{
    if restarted(entry, now) is Some {
        let lifecycle = lifecycle_of(entry)->0;
        let phase = restart_phase(lifecycle.phase)->0;
        let moved = restarted(entry, now)->0;
        let after = lifecycle_of(moved)->0;
        assert(lifecycle_is_valid(entry, lifecycle, rulings));
        assert(after.phase == phase && after.updated_at == now);
        if restart_can_stand(entry, now, rulings) {
            assert(lifecycle_is_valid(moved, after, rulings));
            moved_journals_are_valid(entry, lifecycle, phase, now, rulings);
        }
        if entry_verdict(moved, rulings) is Ok {
            assert(lifecycle_is_valid(moved, after, rulings));
        }
    }
}

/// A restart of journals that are all valid succeeds where what it makes of each can stand, and
/// nowhere else.
pub proof fn restart_of_valid_journals_succeeds(
    map: JournalMap,
    keys: Seq<u128>,
    now: Seq<char>,
    rulings: LauncherRulingsView,
)
    requires
        forall|i: int| 0 <= i < keys.len() ==> map.contains_key(#[trigger] keys[i]),
        all_valid(map, rulings),
    ensures
        restarted_entries(map, keys, now, rulings) is Ok <==> forall|i: int|
            0 <= i < keys.len() ==> restart_can_stand(map[#[trigger] keys[i]].entry, now, rulings),
    decreases keys.len(),
{
    if keys.len() > 0 {
        let first = keys.drop_last();
        assert forall|i: int| 0 <= i < first.len() implies map.contains_key(#[trigger] first[i]) by {
            assert(first[i] == keys[i]);
        }
        restart_of_valid_journals_succeeds(map, first, now, rulings);
        assert(map.contains_key(keys[keys.len() - 1]));
        restarted_journals_are_valid(map[keys.last()].entry, now, rulings);
        if restarted_entries(map, keys, now, rulings) is Ok {
            assert forall|i: int| 0 <= i < keys.len() implies restart_can_stand(
                map[#[trigger] keys[i]].entry,
                now,
                rulings,
            ) by {
                if i < first.len() {
                    assert(first[i] == keys[i]);
                }
            }
        }
        if forall|i: int|
            0 <= i < keys.len() ==> restart_can_stand(map[#[trigger] keys[i]].entry, now, rulings) {
            assert forall|i: int| 0 <= i < first.len() implies restart_can_stand(
                map[#[trigger] first[i]].entry,
                now,
                rulings,
            ) by {
                assert(first[i] == keys[i]);
            }
            assert(restart_can_stand(map[keys[keys.len() - 1]].entry, now, rulings));
        }
    }
}

/// How a restart leaves a journal, given how it was: what had not begun is abandoned, what may have
/// taken effect waits to be confirmed, what was about to end has ended, and everything else is as it
/// was.
pub open spec fn settled_by_restart(
    before: AcceptedJournalEntryView,
    after: AcceptedJournalEntryView,
) -> bool {
    match lifecycle_of(before.entry) {
        None => after == before,
        Some(lifecycle) => match lifecycle.phase {
            PerformanceOperationPhaseView::Accepted {  } => is_in_phase(
                after.entry,
                PerformanceOperationPhaseView::Terminal {
                    terminal: PerformanceOperationTerminalView::AbandonedBeforeEffect {  },
                },
            ),
            PerformanceOperationPhaseView::Planning {  } => is_in_phase(
                after.entry,
                PerformanceOperationPhaseView::Terminal {
                    terminal: PerformanceOperationTerminalView::AbandonedBeforeEffect {  },
                },
            ),
            PerformanceOperationPhaseView::EffectStarted { prepared } => is_in_phase(
                after.entry,
                PerformanceOperationPhaseView::AppliedUnverified {
                    prepared,
                    error: unconfirmed_error(),
                },
            ),
            PerformanceOperationPhaseView::TerminalIntent { terminal } => is_in_phase(
                after.entry,
                PerformanceOperationPhaseView::Terminal { terminal },
            ),
            _ => after == before,
        },
    }
}

/// Whether an entry is that of a performance operation in this phase.
pub open spec fn is_in_phase(
    entry: OperationJournalEntryView,
    phase: PerformanceOperationPhaseView,
) -> bool {
    lifecycle_of(entry) matches Some(lifecycle) && lifecycle.phase == phase
}

/// Whether a restart finds the same operations in a state, the oldest first, in either of two maps.
pub open spec fn same_restarts(
    left: JournalMap,
    right: JournalMap,
    restart: OperationRestartDisposition,
) -> bool {
    forall|keys: Seq<u128>| #[trigger]
        lists_restarts(keys, left, restart) <==> lists_restarts(keys, right, restart)
}

/// A restart of a store whose journals are all valid settles every operation at once. It succeeds
/// where what it makes of each journal can stand, and nowhere else. It takes no journal away, leaves
/// each valid and with its sequence, and after it another restart finds nothing to settle. What can be
/// resumed is what was prepared, as it was, and what has to be confirmed is what may have taken effect.
pub proof fn restart_settles_every_operation(
    store: OperationJournalStoreView,
    now: Seq<char>,
    later: Seq<char>,
    canonical: Seq<Vec<u8>>,
    rulings: LauncherRulingsView,
)
    requires
        store_is_coherent(store),
        all_valid(store.visible.entries, rulings),
    ensures
        ({
            let map = store.visible.entries;
            restarted_entries(map, ascending(map.dom()), now, rulings) is Ok <==> forall|key: u128|
                map.contains_key(key) ==> restart_can_stand(
                    (#[trigger] map[key]).entry,
                    now,
                    rulings,
                )
        }),
        restarted_entries(
            store.visible.entries,
            ascending(store.visible.entries.dom()),
            now,
            rulings,
        ) matches Ok(entries) ==> {
            let map = store.visible.entries;
            let after = inserted(map, rows(entries, canonical));
            &&& replaced(map, rows(entries, canonical), store.visible.next_sequence) matches Ok(left)
                ==> left == after
            &&& entries.len() == 0 ==> after == map
            &&& after.dom() == map.dom()
            &&& coherent(after, store.visible.next_sequence)
            &&& all_valid(after, rulings)
            &&& restarted_entries(after, ascending(after.dom()), later, rulings) == Ok::<
                Seq<OperationJournalEntryView>,
                OperationJournalStoreError,
            >(Seq::empty())
            &&& forall|key: u128|
                map.contains_key(key) ==> {
                    &&& settled_by_restart(map[key], #[trigger] after[key])
                    &&& after[key].entry.sequence == map[key].entry.sequence
                    &&& restarts_as(after[key].entry, OperationRestartDisposition::Resumable)
                        ==> after[key] == map[key]
                }
            &&& same_restarts(map, after, OperationRestartDisposition::Resumable)
            &&& same_restarts(map, after, OperationRestartDisposition::AppliedUnverified)
        },
{
    let map = store.visible.entries;
    let keys = ascending(map.dom());
    ascending_lists(map.dom());
    assert forall|i: int| 0 <= i < keys.len() implies map.contains_key(#[trigger] keys[i]) by {
        assert(keys.contains(keys[i]));
    }
    restart_of_valid_journals_succeeds(map, keys, now, rulings);
    if restarted_entries(map, keys, now, rulings) is Ok {
        assert forall|key: u128| map.contains_key(key) implies restart_can_stand(
            (#[trigger] map[key]).entry,
            now,
            rulings,
        ) by {
            assert(keys.contains(key));
            let i = choose|i: int| 0 <= i < keys.len() && keys[i] == key;
            assert(restart_can_stand(map[keys[i]].entry, now, rulings));
        }
        let texts = rows(restarted_entries(map, keys, now, rulings)->Ok_0, canonical);
        restarted_map_is_settled(store, now, later, rulings, texts);
    } else {
        let i = choose|i: int|
            0 <= i < keys.len() && !restart_can_stand(map[#[trigger] keys[i]].entry, now, rulings);
        assert(map.contains_key(keys[i]));
    }
}

proof fn restarted_map_is_settled(
    store: OperationJournalStoreView,
    now: Seq<char>,
    later: Seq<char>,
    rulings: LauncherRulingsView,
    texts: Seq<AcceptedJournalEntryView>,
)
    requires
        store_is_coherent(store),
        all_valid(store.visible.entries, rulings),
        restarted_entries(
            store.visible.entries,
            ascending(store.visible.entries.dom()),
            now,
            rulings,
        ) matches Ok(entries) && texts.len() == entries.len() && forall|i: int|
            0 <= i < texts.len() ==> (#[trigger] texts[i]).entry == entries[i],
        forall|key: u128|
            store.visible.entries.contains_key(key) ==> restart_can_stand(
                (#[trigger] store.visible.entries[key]).entry,
                now,
                rulings,
            ),
    ensures
        ({
            let map = store.visible.entries;
            let after = inserted(map, texts);
            &&& after.dom() == map.dom()
            &&& coherent(after, store.visible.next_sequence)
            &&& all_valid(after, rulings)
            &&& restarted_entries(after, ascending(after.dom()), later, rulings) == Ok::<
                Seq<OperationJournalEntryView>,
                OperationJournalStoreError,
            >(Seq::empty())
            &&& forall|key: u128|
                map.contains_key(key) ==> {
                    &&& settled_by_restart(map[key], #[trigger] after[key])
                    &&& after[key].entry.sequence == map[key].entry.sequence
                    &&& restarts_as(after[key].entry, OperationRestartDisposition::Resumable)
                        ==> after[key] == map[key]
                }
            &&& same_restarts(map, after, OperationRestartDisposition::Resumable)
            &&& same_restarts(map, after, OperationRestartDisposition::AppliedUnverified)
        }),
{
    let map = store.visible.entries;
    let keys = ascending(map.dom());
    ascending_lists(map.dom());
    assert forall|i: int| 0 <= i < keys.len() implies map.contains_key(#[trigger] keys[i]) by {
        assert(keys.contains(keys[i]));
    }
    second_restart_changes_nothing(map, store.visible.next_sequence, now, later, rulings, texts);
    restarted_journals_stand(map, keys, now, rulings, texts);
    let after = inserted(map, texts);
    assert forall|key: u128| map.contains_key(key) implies (match restarted(map[key].entry, now) {
        Some(entry) => (#[trigger] after[key]).entry == entry,
        None => after[key] == map[key],
    }) by {
        assert(keys.contains(key));
        let i = choose|i: int| 0 <= i < keys.len() && keys[i] == key;
        assert(after[keys[i]] == after[key]);
    }
    assert forall|key: u128| after.contains_key(key) implies entry_verdict(
        (#[trigger] after[key]).entry,
        rulings,
    ) is Ok by {
        assert(map.contains_key(key));
        assert(restart_can_stand(map[key].entry, now, rulings));
        restarted_journals_are_valid(map[key].entry, now, rulings);
    }
    assert forall|key: u128| map.contains_key(key) implies {
        &&& settled_by_restart(map[key], #[trigger] after[key])
        &&& after[key].entry.sequence == map[key].entry.sequence
        &&& after[key].entry.operation_id == map[key].entry.operation_id
        &&& restarts_as(after[key].entry, OperationRestartDisposition::Resumable) ==> after[key]
            == map[key]
        &&& restarts_as(after[key].entry, OperationRestartDisposition::Resumable) <==> restarts_as(
            map[key].entry,
            OperationRestartDisposition::Resumable,
        )
        &&& restarts_as(after[key].entry, OperationRestartDisposition::AppliedUnverified)
            <==> restarts_as(map[key].entry, OperationRestartDisposition::AppliedUnverified)
    } by {}
    assert(coherent(after, store.visible.next_sequence)) by {
        assert forall|key: u128| after.contains_key(key) implies {
            &&& (#[trigger] after[key]).entry.operation_id.value == key
            &&& 1 <= after[key].entry.sequence < store.visible.next_sequence
        } by {
            assert(map.contains_key(key));
            assert(map[key].entry.operation_id.value == key);
        }
        assert forall|a: u128, b: u128|
            after.contains_key(a) && after.contains_key(b) && a != b implies (
        #[trigger] after[a]).entry.sequence != (#[trigger] after[b]).entry.sequence by {
            assert(map.contains_key(a) && map.contains_key(b));
            assert(map[a].entry.sequence != map[b].entry.sequence);
        }
    }
    restart_lists_stay(map, after, OperationRestartDisposition::Resumable);
    restart_lists_stay(map, after, OperationRestartDisposition::AppliedUnverified);
}

proof fn restart_lists_stay(
    left: JournalMap,
    right: JournalMap,
    restart: OperationRestartDisposition,
)
    requires
        left.dom() == right.dom(),
        forall|key: u128|
            left.contains_key(key) ==> {
                &&& (#[trigger] right[key]).entry.sequence == left[key].entry.sequence
                &&& right[key].entry.operation_id == left[key].entry.operation_id
                &&& restarts_as(right[key].entry, restart) <==> restarts_as(
                    left[key].entry,
                    restart,
                )
            },
    ensures
        same_restarts(left, right, restart),
{
    assert forall|keys: Seq<u128>| #[trigger]
        lists_restarts(keys, left, restart) <==> lists_restarts(keys, right, restart) by {
        assert forall|key: u128| left.contains_key(key) <==> right.contains_key(key) by {
            assert(left.dom().contains(key) <==> right.dom().contains(key));
        }
        if lists_restarts(keys, left, restart) {
            list_stays(keys, left, right, restart);
        }
        if lists_restarts(keys, right, restart) {
            assert forall|key: u128| right.contains_key(key) implies {
                &&& (#[trigger] left[key]).entry.sequence == right[key].entry.sequence
                &&& restarts_as(left[key].entry, restart) <==> restarts_as(
                    right[key].entry,
                    restart,
                )
            } by {
                assert(right[key].entry.sequence == left[key].entry.sequence);
            }
            list_stays(keys, right, left, restart);
        }
    }
}

proof fn list_stays(
    keys: Seq<u128>,
    left: JournalMap,
    right: JournalMap,
    restart: OperationRestartDisposition,
)
    requires
        lists_restarts(keys, left, restart),
        left.dom() == right.dom(),
        forall|key: u128|
            left.contains_key(key) ==> {
                &&& (#[trigger] right[key]).entry.sequence == left[key].entry.sequence
                &&& restarts_as(right[key].entry, restart) <==> restarts_as(
                    left[key].entry,
                    restart,
                )
            },
    ensures
        lists_restarts(keys, right, restart),
{
    assert forall|i: int, j: int| 0 <= i < j < keys.len() implies older(
        right,
        keys[i],
        keys[j],
    ) by {
        assert(keys.contains(keys[i]) && keys.contains(keys[j]));
        assert(older(left, keys[i], keys[j]));
        assert(right[keys[i]].entry.sequence == left[keys[i]].entry.sequence);
        assert(right[keys[j]].entry.sequence == left[keys[j]].entry.sequence);
    }
    assert forall|key: u128| #[trigger] keys.contains(key) <==> right.contains_key(key)
        && restarts_as(right[key].entry, restart) by {
        assert(left.contains_key(key) <==> right.contains_key(key)) by {
            assert(left.dom().contains(key) <==> right.dom().contains(key));
        }
        if left.contains_key(key) {
            assert(right[key].entry.sequence == left[key].entry.sequence);
        }
    }
}

} // verus!

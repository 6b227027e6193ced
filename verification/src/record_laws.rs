//! What holds of the records that are made of an operation.

use crate::contracts::{OperationId, OperationOutcome, OperationStatus};
use crate::entry::{OperationJournalEntryView, OperationJournalStepView};
use crate::evidence::DurableGuardianEvidenceView;
use crate::guardian_evidence::{merged, merged_keeps_and_adds, merging_makes_no_duplicates};
use crate::journal_errors::OperationJournalStoreError;
use crate::journal_records::{
    cancellation_recorded, cancelled, checkpoint_recorded, evidence_recorded,
    evidenced_failure_recorded, evidenced_success_recorded, failed, failure_recorded,
    measured_failure_recorded, measured_success_recorded, progress_recorded, progressed, succeeded,
    success_recorded,
};
use crate::journal_store::{JournalDraftView, OperationJournalStoreView};
use crate::journal_temporal::entry_assessment;
use crate::journal_validation::{entry_verdict, is_terminal};
use crate::rulings::LauncherRulingsView;
use vstd::prelude::*;

verus! {

/// Whether an operation has ended.
pub open spec fn has_ended(entry: OperationJournalEntryView) -> bool {
    ||| entry.status is Succeeded
    ||| entry.status is Failed
    ||| entry.status is Blocked
    ||| entry.status is Cancelled
}

/// An operation has ended where it succeeded, failed, was blocked or was cancelled, and goes on in any
/// other case.
pub proof fn ended_status_is_told_apart(status: OperationStatus)
    ensures
        is_terminal(status) <==> (status is Succeeded || status is Failed
            || status is Blocked || status is Cancelled),
{
}

/// Whether an operation that is not about performance is under way in a store that can take a change.
pub open spec fn is_under_way(
    store: OperationJournalStoreView,
    id: OperationId,
) -> bool {
    &&& store.retry_candidate is None
    &&& store.visible.entries.contains_key(id.value)
    &&& !has_ended(store.visible.entries[id.value].entry)
    &&& store.visible.entries[id.value].entry.intent is Generic
}

/// Whether an answer refuses what cannot be recorded: while a write has to be repeated, where there is
/// no such operation, where it has ended, and where it is one about performance.
pub open spec fn refuses_the_rest(
    store: OperationJournalStoreView,
    id: OperationId,
    answer: Result<
        JournalDraftView,
        OperationJournalStoreError,
    >,
) -> bool {
    let entry = store.visible.entries[id.value].entry;
    let is_held = store.visible.entries.contains_key(id.value);
    if store.retry_candidate is Some {
        answer is Err && answer->Err_0 is RetryRequired
    } else if !is_held {
        answer is Err && answer->Err_0 is MissingOperation
    } else if has_ended(entry) {
        answer is Err && answer->Err_0 is AlreadyTerminal
    } else if entry.intent is Performance {
        answer is Err && answer->Err_0 is AlreadyExists
    } else {
        true
    }
}

/// Whether an entry is in order, and its times are in force, or have expired where that may be.
pub open spec fn can_stand(
    store: OperationJournalStoreView,
    entry: OperationJournalEntryView,
    late: bool,
    rulings: LauncherRulingsView,
) -> bool {
    let times = entry_assessment(store.now, entry);
    &&& entry_verdict(entry, rulings) is Ok
    &&& times is Ok
    &&& times->Ok_0 is Current || late
}

/// Whether an answer drafts a change of an entry that is there, and nothing else.
pub open spec fn drafts_a_change(
    store: OperationJournalStoreView,
    answer: Result<
        JournalDraftView,
        OperationJournalStoreError,
    >,
) -> bool {
    answer is Ok ==> answer->Ok_0.next_sequence == store.visible.next_sequence
        && !answer->Ok_0.fresh
}

/// Whether an entry has one completed step more: those before stand first, in their order, and this one
/// is the last.
pub open spec fn one_step_further(
    before: OperationJournalEntryView,
    after: OperationJournalEntryView,
    step: OperationJournalStepView,
) -> bool {
    &&& after.completed_steps.len() == before.completed_steps.len() + 1
    &&& forall|i: int|
        0 <= i < before.completed_steps.len() ==> #[trigger] after.completed_steps[i]
            == before.completed_steps[i]
    &&& after.completed_steps[before.completed_steps.len() as int] == step
}

/// Whether two entries are of the same operation and have the same plan.
pub open spec fn same_operation(
    before: OperationJournalEntryView,
    after: OperationJournalEntryView,
) -> bool {
    &&& after.journal_id == before.journal_id
    &&& after.operation_id == before.operation_id
    &&& after.sequence == before.sequence
    &&& after.parent_operation_id == before.parent_operation_id
    &&& after.command == before.command
    &&& after.intent == before.intent
    &&& after.owner == before.owner
    &&& after.ownership == before.ownership
    &&& after.targets == before.targets
    &&& after.planned_steps == before.planned_steps
    &&& after.rollback == before.rollback
    &&& after.reconciliation_attempt == before.reconciliation_attempt
    &&& after.persisted_state_repair_attempt == before.persisted_state_repair_attempt
}

/// Whether what the Guardian found is the same.
pub open spec fn same_findings(
    before: OperationJournalEntryView,
    after: OperationJournalEntryView,
) -> bool {
    &&& after.guardian_diagnosis_ids == before.guardian_diagnosis_ids
    &&& after.guardian_install_terminal == before.guardian_install_terminal
}

/// Whether the ends of the repairs are the same.
pub open spec fn same_ends(
    before: OperationJournalEntryView,
    after: OperationJournalEntryView,
) -> bool {
    &&& after.reconciliation_terminal == before.reconciliation_terminal
    &&& after.persisted_state_repair_terminal == before.persisted_state_repair_terminal
}

/// Whether an operation ended in failure at a point, with this outcome.
pub open spec fn failed_at(
    after: OperationJournalEntryView,
    point: Seq<char>,
    outcome: OperationOutcome,
) -> bool {
    &&& after.status is Failed
    &&& after.failure_point == Some(point)
    &&& after.outcome == Some(outcome)
}

/// Whether an operation ended in success with this outcome.
pub open spec fn succeeded_with(
    after: OperationJournalEntryView,
    outcome: OperationOutcome,
) -> bool {
    &&& after.status is Succeeded
    &&& after.failure_point is None
    &&& after.outcome == Some(outcome)
}

/// Whether one entry is another that failed in this step.
pub open spec fn is_failure_of(
    before: OperationJournalEntryView,
    after: OperationJournalEntryView,
    step: OperationJournalStepView,
    point: Seq<char>,
    outcome: OperationOutcome,
) -> bool {
    &&& one_step_further(before, after, step)
    &&& failed_at(after, point, outcome)
    &&& same_operation(before, after)
    &&& same_findings(before, after)
    &&& same_ends(before, after)
}

/// Whether one entry is another that succeeded in this step.
pub open spec fn is_success_of(
    before: OperationJournalEntryView,
    after: OperationJournalEntryView,
    step: OperationJournalStepView,
    outcome: OperationOutcome,
) -> bool {
    &&& one_step_further(before, after, step)
    &&& succeeded_with(after, outcome)
    &&& same_operation(before, after)
    &&& same_findings(before, after)
    &&& same_ends(before, after)
}

proof fn failure_is_decided(
    before: OperationJournalEntryView,
    step: OperationJournalStepView,
    point: Seq<char>,
    outcome: OperationOutcome,
)
    ensures
        is_failure_of(
            before,
            failed(before, step, point, outcome),
            step,
            point,
            outcome,
        ),
        forall|after: OperationJournalEntryView| #[trigger]
            is_failure_of(before, after, step, point, outcome) ==> after
                == failed(before, step, point, outcome),
{
    assert forall|after: OperationJournalEntryView| #[trigger]
        is_failure_of(before, after, step, point, outcome) implies after
        == failed(before, step, point, outcome) by {
        assert(after.completed_steps =~= before.completed_steps.push(step));
    }
}

proof fn success_is_decided(
    before: OperationJournalEntryView,
    step: OperationJournalStepView,
    outcome: OperationOutcome,
)
    ensures
        is_success_of(
            before,
            succeeded(before, step, outcome),
            step,
            outcome,
        ),
        forall|after: OperationJournalEntryView| #[trigger]
            is_success_of(before, after, step, outcome) ==> after
                == succeeded(before, step, outcome),
{
    assert forall|after: OperationJournalEntryView| #[trigger]
        is_success_of(before, after, step, outcome) implies after
        == succeeded(before, step, outcome) by {
        assert(after.completed_steps =~= before.completed_steps.push(step));
    }
}

/// Recording a failure keeps every step that was completed before, in order, and adds the failure's
/// step as the last one. The operation has then failed at the point that was named, with the outcome
/// that was given, and nothing else of it changes. This is refused only where the entry could not
/// stand, and for an operation that is not under way.
pub proof fn recorded_failure_keeps_what_was_done(
    store: OperationJournalStoreView,
    id: OperationId,
    step: OperationJournalStepView,
    point: Seq<char>,
    outcome: OperationOutcome,
    rulings: LauncherRulingsView,
)
    requires
        step.guardian_fact_ids.len() == 0,
        step.metrics is None,
    ensures
        ({
            let before = store.visible.entries[id.value].entry;
            let answer = failure_recorded(
                store,
                id,
                step,
                point,
                outcome,
                rulings,
            );
            &&& refuses_the_rest(store, id, answer)
            &&& drafts_a_change(store, answer)
            &&& answer is Ok ==> is_under_way(store, id) && is_failure_of(
                before,
                answer->Ok_0.entry,
                step,
                point,
                outcome,
            )
            &&& is_under_way(store, id) ==> forall|after: OperationJournalEntryView|
                #[trigger]
                is_failure_of(before, after, step, point, outcome) ==> (answer is Ok <==> can_stand(
                    store,
                    after,
                    false,
                    rulings,
                ))
        }),
{
    failure_is_decided(store.visible.entries[id.value].entry, step, point, outcome);
}

/// Recording a measured failure keeps every step that was completed before, in order, and adds the
/// failure's step as the last one.
pub proof fn measured_failure_keeps_what_was_done(
    store: OperationJournalStoreView,
    id: OperationId,
    step: OperationJournalStepView,
    point: Seq<char>,
    rulings: LauncherRulingsView,
)
    requires
        step.guardian_fact_ids.len() == 0,
        step.metrics is Some,
        step.result is Failed,
    ensures
        ({
            let before = store.visible.entries[id.value].entry;
            let answer = measured_failure_recorded(
                store,
                id,
                step,
                point,
                rulings,
            );
            let outcome = OperationOutcome::Failed;
            &&& refuses_the_rest(store, id, answer)
            &&& drafts_a_change(store, answer)
            &&& answer is Ok ==> is_under_way(store, id) && is_failure_of(
                before,
                answer->Ok_0.entry,
                step,
                point,
                outcome,
            )
            &&& is_under_way(store, id) ==> forall|after: OperationJournalEntryView|
                #[trigger]
                is_failure_of(before, after, step, point, outcome) ==> (answer is Ok <==> can_stand(
                    store,
                    after,
                    false,
                    rulings,
                ))
        }),
{
    failure_is_decided(
        store.visible.entries[id.value].entry,
        step,
        point,
        OperationOutcome::Failed,
    );
}

/// Recording a success keeps every step that was completed before, in order, and adds the success's
/// step as the last one. The operation has then succeeded with the outcome that was given, and nothing
/// else of it changes.
pub proof fn recorded_success_keeps_what_was_done(
    store: OperationJournalStoreView,
    id: OperationId,
    step: OperationJournalStepView,
    outcome: OperationOutcome,
    rulings: LauncherRulingsView,
)
    requires
        step.guardian_fact_ids.len() == 0,
        step.metrics is None,
    ensures
        ({
            let before = store.visible.entries[id.value].entry;
            let answer = success_recorded(
                store,
                id,
                step,
                outcome,
                rulings,
            );
            &&& refuses_the_rest(store, id, answer)
            &&& drafts_a_change(store, answer)
            &&& answer is Ok ==> is_under_way(store, id) && is_success_of(
                before,
                answer->Ok_0.entry,
                step,
                outcome,
            )
            &&& is_under_way(store, id) ==> forall|after: OperationJournalEntryView|
                #[trigger]
                is_success_of(before, after, step, outcome) ==> (answer is Ok <==> can_stand(
                    store,
                    after,
                    false,
                    rulings,
                ))
        }),
{
    success_is_decided(store.visible.entries[id.value].entry, step, outcome);
}

/// Recording a measured success keeps every step that was completed before, in order, and adds the
/// success's step as the last one.
pub proof fn measured_success_keeps_what_was_done(
    store: OperationJournalStoreView,
    id: OperationId,
    step: OperationJournalStepView,
    rulings: LauncherRulingsView,
)
    requires
        step.guardian_fact_ids.len() == 0,
        step.metrics is Some,
        step.result is Completed,
    ensures
        ({
            let before = store.visible.entries[id.value].entry;
            let answer = measured_success_recorded(
                store,
                id,
                step,
                rulings,
            );
            let outcome = OperationOutcome::Succeeded;
            &&& refuses_the_rest(store, id, answer)
            &&& drafts_a_change(store, answer)
            &&& answer is Ok ==> is_under_way(store, id) && is_success_of(
                before,
                answer->Ok_0.entry,
                step,
                outcome,
            )
            &&& is_under_way(store, id) ==> forall|after: OperationJournalEntryView|
                #[trigger]
                is_success_of(before, after, step, outcome) ==> (answer is Ok <==> can_stand(
                    store,
                    after,
                    false,
                    rulings,
                ))
        }),
{
    success_is_decided(
        store.visible.entries[id.value].entry,
        step,
        OperationOutcome::Succeeded,
    );
}

/// Whether one entry is another that has come this step further.
pub open spec fn is_progress_of(
    before: OperationJournalEntryView,
    after: OperationJournalEntryView,
    step: OperationJournalStepView,
) -> bool {
    &&& one_step_further(before, after, step)
    &&& after.status is Running
    &&& after.failure_point == before.failure_point
    &&& after.outcome == before.outcome
    &&& same_operation(before, after)
    &&& same_findings(before, after)
    &&& same_ends(before, after)
}

proof fn progress_is_decided(
    before: OperationJournalEntryView,
    step: OperationJournalStepView,
)
    ensures
        is_progress_of(before, progressed(before, step), step),
        forall|after: OperationJournalEntryView| #[trigger]
            is_progress_of(before, after, step) ==> after == progressed(
                before,
                step,
            ),
{
    assert forall|after: OperationJournalEntryView| #[trigger]
        is_progress_of(before, after, step) implies after == progressed(
        before,
        step,
    ) by {
        assert(after.completed_steps =~= before.completed_steps.push(step));
    }
}

/// Recorded progress keeps every step that was completed before, in order, and adds its own as the last
/// one. The operation is then running, and has neither ended nor failed.
pub proof fn recorded_progress_keeps_what_was_done(
    store: OperationJournalStoreView,
    id: OperationId,
    step: OperationJournalStepView,
    rulings: LauncherRulingsView,
)
    requires
        step.guardian_fact_ids.len() == 0,
        step.metrics is None,
    ensures
        ({
            let before = store.visible.entries[id.value].entry;
            let answer = progress_recorded(store, id, step, rulings);
            &&& refuses_the_rest(store, id, answer)
            &&& drafts_a_change(store, answer)
            &&& answer is Ok ==> is_under_way(store, id) && is_progress_of(
                before,
                answer->Ok_0.entry,
                step,
            )
            &&& is_under_way(store, id) ==> forall|after: OperationJournalEntryView|
                #[trigger]
                is_progress_of(before, after, step) ==> (answer is Ok <==> can_stand(
                    store,
                    after,
                    false,
                    rulings,
                ))
        }),
{
    progress_is_decided(store.visible.entries[id.value].entry, step);
}

/// A checkpoint is recorded once: one that is there as it is needs no change, another one of the same
/// name is refused, and a new one is recorded as progress is.
pub proof fn checkpoint_is_recorded_once(
    store: OperationJournalStoreView,
    id: OperationId,
    step: OperationJournalStepView,
    rulings: LauncherRulingsView,
)
    requires
        step.guardian_fact_ids.len() == 0,
        step.metrics is None,
    ensures
        ({
            let before = store.visible.entries[id.value].entry;
            let answer = checkpoint_recorded(store, id, step, rulings);
            let progress = progress_recorded(store, id, step, rulings);
            let open = store.retry_candidate is None && store.visible.entries.contains_key(
                id.value,
            ) && !has_ended(before);
            let there = exists|i: int|
                0 <= i < before.completed_steps.len() && #[trigger] before.completed_steps[i]
                    == step;
            let named = exists|i: int|
                0 <= i < before.completed_steps.len()
                    && (#[trigger] before.completed_steps[i]).step_id == step.step_id;
            &&& open && there ==> answer is Ok && answer->Ok_0 is None
            &&& open && !there && named ==> answer is Err && answer->Err_0 is AlreadyExists
            &&& !open || !named ==> {
                &&& answer is Ok <==> progress is Ok
                &&& answer is Ok ==> answer->Ok_0 == Some(progress->Ok_0)
                &&& answer is Err ==> answer->Err_0 == progress->Err_0
            }
        }),
{
}

/// A step with typed evidence is not taken from a caller who may not state it, and a step that has to
/// be measured is not taken without its metrics, with facts of the Guardian or with another result.
pub proof fn typed_steps_are_refused(
    store: OperationJournalStoreView,
    id: OperationId,
    step: OperationJournalStepView,
    point: Seq<char>,
    outcome: OperationOutcome,
    rulings: LauncherRulingsView,
)
    ensures
        step.guardian_fact_ids.len() > 0 ==> {
            let error = OperationJournalStoreError::InvalidGuardianOutcome;
            &&& success_recorded(store, id, step, outcome, rulings) == Err::<
                JournalDraftView,
                _,
            >(error)
            &&& failure_recorded(store, id, step, point, outcome, rulings)
                == Err::<JournalDraftView, _>(error)
            &&& progress_recorded(store, id, step, rulings) == Err::<
                JournalDraftView,
                _,
            >(error)
            &&& checkpoint_recorded(store, id, step, rulings) == Err::<
                Option<JournalDraftView>,
                _,
            >(error)
        },
        step.guardian_fact_ids.len() == 0 && step.metrics is Some ==> {
            let error = OperationJournalStoreError::InvalidOperationMetrics;
            &&& success_recorded(store, id, step, outcome, rulings) == Err::<
                JournalDraftView,
                _,
            >(error)
            &&& failure_recorded(store, id, step, point, outcome, rulings)
                == Err::<JournalDraftView, _>(error)
            &&& progress_recorded(store, id, step, rulings) == Err::<
                JournalDraftView,
                _,
            >(error)
            &&& checkpoint_recorded(store, id, step, rulings) == Err::<
                Option<JournalDraftView>,
                _,
            >(error)
        },
        ({
            let error = OperationJournalStoreError::InvalidOperationMetrics;
            let bare = step.guardian_fact_ids.len() > 0 || step.metrics is None;
            &&& bare || step.result !is Completed
                ==> measured_success_recorded(store, id, step, rulings)
                == Err::<JournalDraftView, _>(error)
            &&& bare || step.result !is Failed ==> measured_failure_recorded(
                store,
                id,
                step,
                point,
                rulings,
            ) == Err::<JournalDraftView, _>(error)
            &&& bare || step.result !is Skipped ==> cancellation_recorded(
                store,
                id,
                step,
                rulings,
            ) == Err::<JournalDraftView, _>(error)
        }),
{
}

/// Whether one entry is another that was cancelled in this step.
pub open spec fn is_cancellation_of(
    before: OperationJournalEntryView,
    after: OperationJournalEntryView,
    step: OperationJournalStepView,
) -> bool {
    &&& after.completed_steps.len() == 1
    &&& after.completed_steps[0] == step
    &&& after.status is Cancelled
    &&& after.failure_point is None
    &&& after.outcome is Some
    &&& after.outcome->0 is Cancelled
    &&& after.guardian_diagnosis_ids.len() == 0
    &&& after.guardian_install_terminal is None
    &&& same_operation(before, after)
    &&& same_ends(before, after)
}

/// A cancelled operation keeps its plan, and of what was done only the step in which it was cancelled.
/// What the Guardian found goes with the rest.
pub proof fn cancelled_operation_keeps_its_last_step(
    store: OperationJournalStoreView,
    id: OperationId,
    step: OperationJournalStepView,
    rulings: LauncherRulingsView,
)
    requires
        step.guardian_fact_ids.len() == 0,
        step.metrics is Some,
        step.result is Skipped,
    ensures
        ({
            let before = store.visible.entries[id.value].entry;
            let answer = cancellation_recorded(store, id, step, rulings);
            &&& refuses_the_rest(store, id, answer)
            &&& drafts_a_change(store, answer)
            &&& answer is Ok ==> is_under_way(store, id) && is_cancellation_of(
                before,
                answer->Ok_0.entry,
                step,
            )
            &&& is_under_way(store, id) ==> forall|after: OperationJournalEntryView|
                #[trigger]
                is_cancellation_of(before, after, step) ==> (answer is Ok <==> can_stand(
                    store,
                    after,
                    false,
                    rulings,
                ))
        }),
{
    let before = store.visible.entries[id.value].entry;
    assert forall|after: OperationJournalEntryView| #[trigger]
        is_cancellation_of(before, after, step) implies after == cancelled(
        before,
        step,
    ) by {
        assert(after.completed_steps =~= seq![step]);
        assert(after.guardian_diagnosis_ids =~= Seq::empty());
    }
}

/// The errors that what cannot be recorded is refused with, whatever else an update is made of.
pub open spec fn refuses_late(
    store: OperationJournalStoreView,
    id: OperationId,
    answer: Result<
        JournalDraftView,
        OperationJournalStoreError,
    >,
) -> bool {
    let entry = store.visible.entries[id.value].entry;
    let is_held = store.visible.entries.contains_key(id.value);
    if store.retry_candidate is Some {
        answer is Err && answer->Err_0 is RetryRequired
    } else if !is_held {
        answer is Err && answer->Err_0 is MissingOperation
    } else if entry.intent is Performance && has_ended(entry) {
        answer is Err && answer->Err_0 is AlreadyTerminal
    } else if entry.intent is Performance {
        answer is Err && answer->Err_0 is AlreadyExists
    } else {
        true
    }
}

/// Whether facts of the Guardian are in a list after others: those that were there stand first, every
/// new one is there, nothing else is, and what was there once stays there once.
pub open spec fn are_taken_in<T>(before: Seq<T>, new: Seq<T>, after: Seq<T>) -> bool {
    &&& before.len() <= after.len()
    &&& forall|i: int| 0 <= i < before.len() ==> #[trigger] after[i] == before[i]
    &&& forall|x: T| #[trigger] after.contains(x) <==> before.contains(x) || new.contains(x)
    &&& before.no_duplicates() ==> after.no_duplicates()
    &&& (new.no_duplicates() && forall|i: int| 0 <= i < new.len() ==> !before.contains(#[trigger] new[i]))
        ==> after == before + new
}

/// To merge new facts into those that are there takes them in.
pub proof fn merging_takes_in<T>(before: Seq<T>, new: Seq<T>)
    ensures
        are_taken_in(before, new, merged(before, new)),
    decreases new.len(),
{
    let after = merged(before, new);
    merged_keeps_and_adds(before, new);
    assert forall|i: int| 0 <= i < before.len() implies #[trigger] after[i] == before[i] by {
        assert(after.subrange(0, before.len() as int)[i] == after[i]);
    }
    if before.no_duplicates() {
        merging_makes_no_duplicates(before, new);
    }
    if new.no_duplicates() && forall|i: int|
        0 <= i < new.len() ==> !before.contains(#[trigger] new[i]) {
        if new.len() > 0 {
            let rest = new.drop_last();
            merging_takes_in(before, rest);
            assert forall|i: int| 0 <= i < rest.len() implies !before.contains(
                #[trigger] rest[i],
            ) by {
                assert(rest[i] == new[i]);
            }
            assert(rest.no_duplicates());
            let shorter = merged(before, rest);
            assert(!before.contains(new[new.len() - 1]));
            if rest.contains(new.last()) {
                let j = choose|j: int| 0 <= j < rest.len() && rest[j] == new.last();
                assert(new[j] == new[new.len() - 1]);
            }
            assert(!shorter.contains(new.last()));
            assert(shorter.push(new.last()) =~= before + new);
        } else {
            assert(before + new =~= before);
        }
    }
}

/// Whether two steps are the same but for the facts of the Guardian.
pub open spec fn same_but_facts(
    before: OperationJournalStepView,
    after: OperationJournalStepView,
) -> bool {
    &&& after.step_id == before.step_id
    &&& after.phase == before.phase
    &&& after.result == before.result
    &&& after.changed_target == before.changed_target
    &&& after.generated_facts == before.generated_facts
    &&& after.metrics == before.metrics
    &&& after.rollback == before.rollback
}

/// Whether an entry has taken the diagnoses and the end of an installation in that evidence states.
pub open spec fn findings_taken_in(
    before: OperationJournalEntryView,
    evidence: DurableGuardianEvidenceView,
    after: OperationJournalEntryView,
) -> bool {
    &&& are_taken_in(
        before.guardian_diagnosis_ids,
        evidence.diagnosis_ids,
        after.guardian_diagnosis_ids,
    )
    &&& before.guardian_install_terminal is Some ==> after.guardian_install_terminal
        == before.guardian_install_terminal
    &&& before.guardian_install_terminal is None ==> after.guardian_install_terminal
        == evidence.install_terminal
}

/// Whether an end of an installation that is recorded already speaks against another.
pub open spec fn contradicts(
    entry: OperationJournalEntryView,
    evidence: DurableGuardianEvidenceView,
) -> bool {
    &&& entry.guardian_install_terminal is Some
    &&& evidence.install_terminal is Some
    &&& entry.guardian_install_terminal != evidence.install_terminal
}

/// Evidence of the Guardian is taken in by an operation that is not about performance, also after it
/// has ended: its facts go to the last completed step, its diagnoses to those that are there. Nothing
/// that was there goes, and neither the status nor the outcome changes. Evidence that contradicts what
/// is recorded, or is of another operation, is refused.
pub proof fn evidence_is_taken_in(
    store: OperationJournalStoreView,
    evidence: DurableGuardianEvidenceView,
    rulings: LauncherRulingsView,
)
    ensures
        ({
            let id = evidence.operation_id;
            let before = store.visible.entries[id.value].entry;
            let answer = evidence_recorded(store, evidence, rulings);
            let after = answer->Ok_0.entry;
            let n = before.completed_steps.len() as int;
            &&& refuses_late(store, id, answer)
            &&& drafts_a_change(store, answer)
            &&& store.retry_candidate is None && store.visible.entries.contains_key(id.value)
                && before.intent is Generic && (contradicts(before, evidence)
                || before.operation_id != id) ==> answer is Err
                && answer->Err_0 is InvalidGuardianOutcome
            &&& answer is Ok ==> {
                &&& !contradicts(before, evidence)
                &&& can_stand(store, after, false, rulings)
                &&& same_operation(before, after)
                &&& same_ends(before, after)
                &&& after.status == before.status
                &&& after.failure_point == before.failure_point
                &&& after.outcome == before.outcome
                &&& findings_taken_in(before, evidence, after)
                &&& n > 0 ==> {
                    &&& after.completed_steps.len() == n
                    &&& forall|i: int|
                        0 <= i < n - 1 ==> #[trigger] after.completed_steps[i]
                            == before.completed_steps[i]
                    &&& same_but_facts(before.completed_steps[n - 1], after.completed_steps[n - 1])
                    &&& are_taken_in(
                        before.completed_steps[n - 1].guardian_fact_ids,
                        evidence.fact_ids,
                        after.completed_steps[n - 1].guardian_fact_ids,
                    )
                }
                &&& n == 0 && evidence.fact_ids.len() == 0 ==> after.completed_steps.len() == 0
                &&& n == 0 && evidence.fact_ids.len() > 0 ==> {
                    &&& after.completed_steps.len() == 1
                    &&& after.completed_steps[0].step_id == "guardian_evidence"@
                    &&& after.completed_steps[0].phase is Running
                    &&& after.completed_steps[0].result is Completed
                    &&& after.completed_steps[0].changed_target is None
                    &&& after.completed_steps[0].generated_facts.len() == 0
                    &&& after.completed_steps[0].metrics is None
                    &&& after.completed_steps[0].rollback is NotApplicable
                    &&& are_taken_in(
                        Seq::empty(),
                        evidence.fact_ids,
                        after.completed_steps[0].guardian_fact_ids,
                    )
                }
            }
        }),
{
    let before = store.visible.entries[evidence.operation_id.value].entry;
    let n = before.completed_steps.len() as int;
    merging_takes_in(before.guardian_diagnosis_ids, evidence.diagnosis_ids);
    if n > 0 {
        merging_takes_in(before.completed_steps[n - 1].guardian_fact_ids, evidence.fact_ids);
    } else {
        merging_takes_in(Seq::empty(), evidence.fact_ids);
    }
}

/// A failure with evidence of the Guardian keeps every step that was completed before, in order, and
/// adds its own as the last one, which then holds the facts of the evidence.
pub proof fn evidenced_failure_keeps_what_was_done(
    store: OperationJournalStoreView,
    step: OperationJournalStepView,
    point: Seq<char>,
    outcome: OperationOutcome,
    evidence: DurableGuardianEvidenceView,
    rulings: LauncherRulingsView,
)
    ensures
        ({
            let id = evidence.operation_id;
            let before = store.visible.entries[id.value].entry;
            let answer = evidenced_failure_recorded(
                store,
                step,
                point,
                outcome,
                evidence,
                rulings,
            );
            let after = answer->Ok_0.entry;
            let n = before.completed_steps.len() as int;
            let fits = step.guardian_fact_ids.len() == 0 && step.result is Failed
                && outcome is Failed;
            &&& !fits ==> answer is Err && answer->Err_0 is InvalidGuardianOutcome
            &&& fits ==> refuses_the_rest(store, id, answer)
            &&& fits && is_under_way(store, id) && (contradicts(before, evidence)
                || before.operation_id != id) ==> answer is Err
                && answer->Err_0 is InvalidGuardianOutcome
            &&& drafts_a_change(store, answer)
            &&& answer is Ok ==> {
                &&& is_under_way(store, id)
                &&& can_stand(store, after, false, rulings)
                &&& failed_at(after, point, outcome)
                &&& same_operation(before, after)
                &&& same_ends(before, after)
                &&& findings_taken_in(before, evidence, after)
                &&& after.completed_steps.len() == n + 1
                &&& forall|i: int|
                    0 <= i < n ==> #[trigger] after.completed_steps[i] == before.completed_steps[i]
                &&& same_but_facts(step, after.completed_steps[n])
                &&& are_taken_in(
                    Seq::empty(),
                    evidence.fact_ids,
                    after.completed_steps[n].guardian_fact_ids,
                )
            }
        }),
{
    let before = store.visible.entries[evidence.operation_id.value].entry;
    merging_takes_in(before.guardian_diagnosis_ids, evidence.diagnosis_ids);
    merging_takes_in(Seq::empty(), evidence.fact_ids);
    if step.guardian_fact_ids.len() == 0 {
        assert(step.guardian_fact_ids =~= Seq::empty());
    }
}

/// A success with evidence of the Guardian keeps every step that was completed before, in order, and
/// adds its own as the last one, which then holds the facts of the evidence. Evidence of how an
/// installation ended goes with no success.
pub proof fn evidenced_success_keeps_what_was_done(
    store: OperationJournalStoreView,
    step: OperationJournalStepView,
    evidence: DurableGuardianEvidenceView,
    rulings: LauncherRulingsView,
)
    ensures
        ({
            let id = evidence.operation_id;
            let before = store.visible.entries[id.value].entry;
            let answer = evidenced_success_recorded(
                store,
                step,
                evidence,
                rulings,
            );
            let after = answer->Ok_0.entry;
            let n = before.completed_steps.len() as int;
            let fits = step.guardian_fact_ids.len() == 0 && step.result is Completed
                && evidence.install_terminal is None;
            &&& !fits ==> answer is Err && answer->Err_0 is InvalidGuardianOutcome
            &&& fits ==> refuses_the_rest(store, id, answer)
            &&& fits && is_under_way(store, id) && before.operation_id != id ==> answer is Err
                && answer->Err_0 is InvalidGuardianOutcome
            &&& drafts_a_change(store, answer)
            &&& answer is Ok ==> {
                &&& is_under_way(store, id)
                &&& can_stand(store, after, false, rulings)
                &&& succeeded_with(after, OperationOutcome::Succeeded)
                &&& same_operation(before, after)
                &&& same_ends(before, after)
                &&& findings_taken_in(before, evidence, after)
                &&& after.completed_steps.len() == n + 1
                &&& forall|i: int|
                    0 <= i < n ==> #[trigger] after.completed_steps[i] == before.completed_steps[i]
                &&& same_but_facts(step, after.completed_steps[n])
                &&& are_taken_in(
                    Seq::empty(),
                    evidence.fact_ids,
                    after.completed_steps[n].guardian_fact_ids,
                )
            }
        }),
{
    let before = store.visible.entries[evidence.operation_id.value].entry;
    merging_takes_in(before.guardian_diagnosis_ids, evidence.diagnosis_ids);
    merging_takes_in(Seq::empty(), evidence.fact_ids);
    if step.guardian_fact_ids.len() == 0 {
        assert(step.guardian_fact_ids =~= Seq::empty());
    }
}

} // verus!

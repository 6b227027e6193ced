//! What holds of new journals, of repairs that end and of what they published.

use crate::contracts::{
    CommandKind, OperationId, OperationOutcome, OperationPhase, OwnershipClass, RollbackState,
    StabilizationSystem,
};
use crate::entry::{OperationJournalEntryView, OperationJournalStepView};
use crate::evidence::{
    PersistedStateRepairAttemptView, PersistedStateRepairTerminalView, ReconciliationTerminalView,
};
use crate::guardian_evidence::planned_step;
use crate::journal_errors::{OperationJournalStoreError, OperationJournalValidationError};
use crate::journal_queries::bundle_acknowledged;
use crate::journal_records::{
    acknowledged, created, failed, reconciliation_failure_recorded, reconciliation_success_recorded,
    refusal_recorded, refused, repair_end_recorded, repair_plan, repaired, succeeded,
};
use crate::journal_store::{JournalDraftView, OperationJournalStoreView};
use crate::journal_temporal::{repair_terminal_times, terminal_times};
use crate::journal_visibility::{new_entry, same_but_sequence};
use crate::record_laws::{
    can_stand, drafts_a_change, failed_at, is_under_way, one_step_further, refuses_late,
    refuses_the_rest, same_ends, same_findings, same_operation, succeeded_with,
};
use crate::rulings::LauncherRulingsView;
use crate::temporal::assessment;
use vstd::prelude::*;

verus! {

/// Whether an answer says that the end of a reconciliation does not fit.
pub open spec fn does_not_fit<T>(
    answer: Result<T, OperationJournalStoreError>,
) -> bool {
    answer == Err::<T, _>(
        OperationJournalStoreError::Validation(
            OperationJournalValidationError::ReconciliationTerminalMismatch,
        ),
    )
}

/// Whether an answer says that the times of the end of a reconciliation are not in order.
pub open spec fn is_badly_timed<T>(
    answer: Result<T, OperationJournalStoreError>,
) -> bool {
    answer == Err::<T, _>(
        OperationJournalStoreError::Validation(
            OperationJournalValidationError::InvalidReconciliationTerminal,
        ),
    )
}

/// Whether one entry is another whose reconciliation has failed in this step.
pub open spec fn is_failed_reconciliation_of(
    before: OperationJournalEntryView,
    after: OperationJournalEntryView,
    step: OperationJournalStepView,
    point: Seq<char>,
    terminal: ReconciliationTerminalView,
) -> bool {
    &&& one_step_further(before, after, step)
    &&& failed_at(after, point, OperationOutcome::Failed)
    &&& same_operation(before, after)
    &&& same_findings(before, after)
    &&& after.reconciliation_terminal == Some(terminal)
    &&& after.persisted_state_repair_terminal == before.persisted_state_repair_terminal
}

/// Whether one entry is another whose reconciliation has succeeded in this step.
pub open spec fn is_successful_reconciliation_of(
    before: OperationJournalEntryView,
    after: OperationJournalEntryView,
    step: OperationJournalStepView,
    terminal: ReconciliationTerminalView,
) -> bool {
    &&& one_step_further(before, after, step)
    &&& succeeded_with(after, OperationOutcome::Succeeded)
    &&& same_operation(before, after)
    &&& same_findings(before, after)
    &&& after.reconciliation_terminal == Some(terminal)
    &&& after.persisted_state_repair_terminal == before.persisted_state_repair_terminal
}

/// Whether one entry is another whose repair has ended in this way.
pub open spec fn is_ended_repair_of(
    before: OperationJournalEntryView,
    after: OperationJournalEntryView,
    terminal: PersistedStateRepairTerminalView,
) -> bool {
    let last = after.completed_steps[before.completed_steps.len() as int];
    let done = terminal.outcome is Quarantined;
    let why = if terminal.outcome is Refused {
        "persisted_state_quarantine_refused"@
    } else {
        "persisted_state_quarantine_applied_unverified"@
    };
    &&& one_step_further(before, after, last)
    &&& last.step_id == "quarantine_rejected_restart_record"@
    &&& last.phase is Repairing
    &&& last.changed_target == Some(terminal.attempt.target)
    &&& last.generated_facts.len() == 1
    &&& last.guardian_fact_ids.len() == 0
    &&& last.metrics is None
    &&& last.rollback is NotApplicable
    &&& done ==> {
        &&& succeeded_with(after, OperationOutcome::Succeeded)
        &&& last.result is Completed
        &&& last.generated_facts[0] == "persisted_state_record_quarantined"@
    }
    &&& !done ==> {
        &&& failed_at(after, why, OperationOutcome::Failed)
        &&& last.result is Failed
        &&& last.generated_facts[0] == why
    }
    &&& same_operation(before, after)
    &&& same_findings(before, after)
    &&& after.persisted_state_repair_terminal == Some(terminal)
    &&& after.reconciliation_terminal == before.reconciliation_terminal
}

/// Whether one entry is another that was blocked in this step.
pub open spec fn is_refusal_of(
    before: OperationJournalEntryView,
    after: OperationJournalEntryView,
    step: OperationJournalStepView,
) -> bool {
    &&& one_step_further(before, after, step)
    &&& after.status is Blocked
    &&& after.failure_point is None
    &&& after.outcome is Some
    &&& after.outcome->0 is Blocked
    &&& same_operation(before, after)
    &&& same_findings(before, after)
    &&& same_ends(before, after)
}

/// A reconciliation that failed keeps every step that was completed before, in order, adds its own as
/// the last one, and holds its end. It has then failed at the point that was named. Its times may have
/// expired by then. An end that is no failure, or is of another attempt, is refused.
pub proof fn failed_reconciliation_keeps_what_was_done(
    store: OperationJournalStoreView,
    id: OperationId,
    step: OperationJournalStepView,
    point: Seq<char>,
    terminal: ReconciliationTerminalView,
    rulings: LauncherRulingsView,
)
    ensures
        ({
            let before = store.visible.entries[id.value].entry;
            let answer = reconciliation_failure_recorded(
                store,
                id,
                step,
                point,
                terminal,
                rulings,
            );
            let after = answer->Ok_0.entry;
            let timed = assessment(
                store.now,
                terminal_times(terminal),
            ) is Ok;
            &&& terminal.outcome !is Failed ==> does_not_fit(answer)
            &&& terminal.outcome is Failed && !timed ==> is_badly_timed(answer)
            &&& terminal.outcome is Failed && timed ==> {
                &&& refuses_the_rest(store, id, answer)
                &&& is_under_way(store, id) && before.reconciliation_attempt != Some(
                    terminal.attempt,
                ) ==> does_not_fit(answer)
            }
            &&& drafts_a_change(store, answer)
            &&& answer is Ok ==> {
                &&& is_under_way(store, id)
                &&& before.reconciliation_attempt == Some(terminal.attempt)
                &&& can_stand(store, after, true, rulings)
                &&& is_failed_reconciliation_of(before, after, step, point, terminal)
            }
            &&& terminal.outcome is Failed && timed && is_under_way(store, id)
                && before.reconciliation_attempt == Some(terminal.attempt) && answer is Err
                ==> exists|other: OperationJournalEntryView| #[trigger]
                is_failed_reconciliation_of(before, other, step, point, terminal) && !can_stand(
                    store,
                    other,
                    true,
                    rulings,
                )
        }),
{
    let before = store.visible.entries[id.value].entry;
    let made = OperationJournalEntryView {
        reconciliation_terminal: Some(terminal),
        ..failed(before, step, point, OperationOutcome::Failed)
    };
    assert(is_failed_reconciliation_of(before, made, step, point, terminal));
}

/// A reconciliation that succeeded keeps every step that was completed before, in order, adds its own
/// as the last one, and holds its end. Its times may have expired by then. An end that is no success,
/// or is of another attempt, is refused.
pub proof fn successful_reconciliation_keeps_what_was_done(
    store: OperationJournalStoreView,
    id: OperationId,
    step: OperationJournalStepView,
    terminal: ReconciliationTerminalView,
    rulings: LauncherRulingsView,
)
    ensures
        ({
            let before = store.visible.entries[id.value].entry;
            let answer = reconciliation_success_recorded(
                store,
                id,
                step,
                terminal,
                rulings,
            );
            let after = answer->Ok_0.entry;
            let timed = assessment(
                store.now,
                terminal_times(terminal),
            ) is Ok;
            &&& terminal.outcome !is Succeeded ==> does_not_fit(answer)
            &&& terminal.outcome is Succeeded && !timed ==> is_badly_timed(answer)
            &&& terminal.outcome is Succeeded && timed ==> {
                &&& refuses_the_rest(store, id, answer)
                &&& is_under_way(store, id) && before.reconciliation_attempt != Some(
                    terminal.attempt,
                ) ==> does_not_fit(answer)
            }
            &&& drafts_a_change(store, answer)
            &&& answer is Ok ==> {
                &&& is_under_way(store, id)
                &&& before.reconciliation_attempt == Some(terminal.attempt)
                &&& can_stand(store, after, true, rulings)
                &&& is_successful_reconciliation_of(before, after, step, terminal)
            }
            &&& terminal.outcome is Succeeded && timed && is_under_way(store, id)
                && before.reconciliation_attempt == Some(terminal.attempt) && answer is Err
                ==> exists|other: OperationJournalEntryView| #[trigger]
                is_successful_reconciliation_of(before, other, step, terminal) && !can_stand(
                    store,
                    other,
                    true,
                    rulings,
                )
        }),
{
    let before = store.visible.entries[id.value].entry;
    let made = OperationJournalEntryView {
        reconciliation_terminal: Some(terminal),
        ..succeeded(before, step, OperationOutcome::Succeeded)
    };
    assert(is_successful_reconciliation_of(before, made, step, terminal));
}

/// The end of a repair is a success where the record was put in quarantine, and a failure in any other
/// case. The step that ends it says which, and what it changed, and comes after those before it.
pub proof fn ended_repair_shows_its_outcome(
    store: OperationJournalStoreView,
    id: OperationId,
    terminal: PersistedStateRepairTerminalView,
    rulings: LauncherRulingsView,
)
    ensures
        ({
            let before = store.visible.entries[id.value].entry;
            let answer = repair_end_recorded(store, id, terminal, rulings);
            let after = answer->Ok_0.entry;
            let timed = assessment(
                store.now,
                repair_terminal_times(terminal),
            ) is Ok;
            &&& !timed ==> answer == Err::<JournalDraftView, _>(
                OperationJournalStoreError::Validation(
                    OperationJournalValidationError::InvalidPersistedStateRepair,
                ),
            )
            &&& timed ==> refuses_the_rest(store, id, answer)
            &&& timed && is_under_way(store, id) && before.persisted_state_repair_attempt != Some(
                terminal.attempt,
            ) ==> answer == Err::<JournalDraftView, _>(
                OperationJournalStoreError::Validation(
                    OperationJournalValidationError::PersistedStateRepairMismatch,
                ),
            )
            &&& drafts_a_change(store, answer)
            &&& answer is Ok ==> {
                &&& is_under_way(store, id)
                &&& before.persisted_state_repair_attempt == Some(terminal.attempt)
                &&& can_stand(store, after, true, rulings)
                &&& is_ended_repair_of(before, after, terminal)
            }
            &&& timed && is_under_way(store, id) && before.persisted_state_repair_attempt == Some(
                terminal.attempt,
            ) && answer is Err ==> exists|other: OperationJournalEntryView| #[trigger]
                is_ended_repair_of(before, other, terminal) && !can_stand(
                    store,
                    other,
                    true,
                    rulings,
                )
        }),
{
    let before = store.visible.entries[id.value].entry;
    if let Ok(made) = repaired(before, terminal) {
        assert(is_ended_repair_of(before, made, terminal));
    }
}

/// A repair that the Guardian refuses is blocked. It keeps every step that was completed before, in
/// order, and adds the one that was skipped. Only a repair of the Guardian can be refused, and only by
/// a step that was skipped.
pub proof fn refused_repair_is_blocked(
    store: OperationJournalStoreView,
    id: OperationId,
    step: OperationJournalStepView,
    rulings: LauncherRulingsView,
)
    ensures
        ({
            let before = store.visible.entries[id.value].entry;
            let answer = refusal_recorded(store, id, step, rulings);
            let after = answer->Ok_0.entry;
            let owned = before.command is RepairInstance && before.owner is Guardian;
            &&& step.result !is Skipped ==> does_not_fit(answer)
            &&& step.result is Skipped ==> refuses_the_rest(store, id, answer)
            &&& step.result is Skipped && is_under_way(store, id) && !owned ==> does_not_fit(answer)
            &&& drafts_a_change(store, answer)
            &&& answer is Ok ==> {
                &&& is_under_way(store, id)
                &&& owned
                &&& can_stand(store, after, false, rulings)
                &&& is_refusal_of(before, after, step)
            }
            &&& step.result is Skipped && is_under_way(store, id) && owned && answer is Err
                ==> exists|other: OperationJournalEntryView| #[trigger]
                is_refusal_of(before, other, step) && !can_stand(store, other, false, rulings)
        }),
{
    let before = store.visible.entries[id.value].entry;
    if let Ok(made) = refused(before, step) {
        assert(is_refusal_of(before, made, step));
    }
}

/// Whether the end of a reconciliation is another one whose publication has been acknowledged.
pub open spec fn is_acknowledgement_of(
    before: ReconciliationTerminalView,
    after: ReconciliationTerminalView,
) -> bool {
    &&& after.attempt == before.attempt
    &&& after.outcome == before.outcome
    &&& after.quarantine_checkpoint == before.quarantine_checkpoint
    &&& after.consistent == before.consistent
    &&& after.version_bundle_publication is Some
    &&& before.version_bundle_publication is Some
    &&& after.version_bundle_publication->0.evidence
        == before.version_bundle_publication->0.evidence
    &&& after.version_bundle_publication->0.outcome
        == before.version_bundle_publication->0.outcome
    &&& !after.version_bundle_publication->0.pending
}

/// What a reconciliation published is acknowledged once, also after the operation has ended and its
/// times have expired. Nothing changes then but that the publication is no longer pending. To
/// acknowledge it again needs no change, and an end that is not the one that is held is refused.
pub proof fn publication_is_acknowledged_once(
    store: OperationJournalStoreView,
    expected: ReconciliationTerminalView,
    rulings: LauncherRulingsView,
)
    ensures
        ({
            let id = expected.attempt.operation_id;
            let before = store.visible.entries[id.value].entry;
            let held = if store.visible.entries.contains_key(id.value) {
                before.reconciliation_terminal
            } else {
                None
            };
            let answer = bundle_acknowledged(store, expected, rulings);
            let made = answer->Ok_0.0;
            let draft = answer->Ok_0.1;
            let after = draft->0.entry;
            let pending = expected.version_bundle_publication is Some
                && expected.version_bundle_publication->0.pending;
            &&& expected.version_bundle_publication is None ==> does_not_fit(answer)
            &&& expected.version_bundle_publication is Some && !pending ==> {
                &&& held == Some(expected) ==> answer is Ok && made == expected && draft is None
                &&& held != Some(expected) ==> does_not_fit(answer)
            }
            &&& pending && answer is Ok ==> is_acknowledgement_of(expected, made)
            &&& pending && held is Some && is_acknowledgement_of(expected, held->0) ==> {
                &&& answer is Ok
                &&& made == held->0
                &&& draft is None
            }
            &&& pending && !(held is Some && is_acknowledgement_of(expected, held->0)) ==> {
                let plain = match answer {
                    Ok(told) => match told.1 {
                        Some(drafted) => Ok(drafted),
                        None => Err(OperationJournalStoreError::Conflict),
                    },
                    Err(error) => Err(error),
                };
                &&& refuses_late(store, id, plain)
                &&& drafts_a_change(store, plain)
                &&& answer is Ok ==> {
                    &&& held == Some(expected)
                    &&& draft is Some
                    &&& can_stand(store, after, true, rulings)
                    &&& after.reconciliation_terminal == Some(made)
                    &&& after.persisted_state_repair_terminal
                        == before.persisted_state_repair_terminal
                    &&& after.completed_steps == before.completed_steps
                    &&& after.status == before.status
                    &&& after.failure_point == before.failure_point
                    &&& after.outcome == before.outcome
                    &&& same_operation(before, after)
                    &&& same_findings(before, after)
                }
                &&& store.retry_candidate is None && store.visible.entries.contains_key(id.value)
                    && before.intent is Generic && held != Some(expected) ==> does_not_fit(answer)
            }
        }),
{
    let id = expected.attempt.operation_id;
    let before = store.visible.entries[id.value].entry;
    let wanted = acknowledged(expected);
    if expected.version_bundle_publication is Some {
        assert(is_acknowledgement_of(expected, wanted));
        assert forall|after: ReconciliationTerminalView| #[trigger]
            is_acknowledgement_of(expected, after) implies after == wanted by {}
    }
}

/// Whether a draft is of a new entry: what was asked for, with the next sequence.
pub open spec fn is_new_draft(
    store: OperationJournalStoreView,
    entry: OperationJournalEntryView,
    draft: JournalDraftView,
) -> bool {
    &&& draft.fresh
    &&& draft.next_sequence == store.visible.next_sequence + 1
    &&& draft.entry.sequence == store.visible.next_sequence
    &&& same_operation(
        OperationJournalEntryView { sequence: store.visible.next_sequence, ..entry },
        draft.entry,
    )
    &&& same_findings(entry, draft.entry)
    &&& same_ends(entry, draft.entry)
    &&& draft.entry.completed_steps == entry.completed_steps
    &&& draft.entry.status == entry.status
    &&& draft.entry.failure_point == entry.failure_point
    &&& draft.entry.outcome == entry.outcome
}

/// A journal is created as it was asked for, under the next sequence, where there is none of its
/// operation and sequences are left. Where the same is there, and may be, nothing needs to be done.
pub proof fn created_journal_is_what_was_asked(
    store: OperationJournalStoreView,
    entry: OperationJournalEntryView,
    may_exist: bool,
    rulings: LauncherRulingsView,
)
    ensures
        ({
            let answer = created(store, entry, may_exist, rulings);
            let key = entry.operation_id.value;
            let held = store.visible.entries[key].entry;
            let ready = can_stand(store, entry, false, rulings) && store.retry_candidate is None;
            let there = store.visible.entries.contains_key(key);
            let alike = forall|sequence: u64|
                (#[trigger] at_sequence(held, sequence)) == at_sequence(entry, sequence);
            &&& !can_stand(store, entry, false, rulings) ==> answer is Err
                && answer->Err_0 is Validation
            &&& can_stand(store, entry, false, rulings) && store.retry_candidate is Some
                ==> answer is Err && answer->Err_0 is RetryRequired
            &&& ready && there && may_exist && alike ==> answer is Ok && answer->Ok_0 is None
            &&& ready && there && !(may_exist && alike) ==> answer is Err
                && answer->Err_0 is AlreadyExists
            &&& ready && !there && store.visible.next_sequence == u64::MAX ==> answer is Err
                && answer->Err_0 is SequenceExhausted
            &&& ready && !there && store.visible.next_sequence < u64::MAX ==> {
                &&& answer is Ok
                &&& answer->Ok_0 is Some
                &&& is_new_draft(store, entry, answer->Ok_0->0)
            }
        }),
{
    let held = store.visible.entries[entry.operation_id.value].entry;
    if same_but_sequence(held, entry) {
        assert forall|sequence: u64|
            (#[trigger] at_sequence(held, sequence)) == at_sequence(entry, sequence) by {}
    }
    if forall|sequence: u64|
        (#[trigger] at_sequence(held, sequence)) == at_sequence(entry, sequence) {
        assert(at_sequence(held, held.sequence) == at_sequence(entry, held.sequence));
        assert(at_sequence(held, held.sequence) == held);
    }
}

/// An entry under another sequence.
pub open spec fn at_sequence(
    entry: OperationJournalEntryView,
    sequence: u64,
) -> OperationJournalEntryView {
    OperationJournalEntryView { sequence, ..entry }
}

/// A new entry says what it was made with, is planned, and holds nothing yet.
pub proof fn new_journal_is_planned_and_empty(
    journal_id: Seq<char>,
    operation_id: OperationId,
    command: CommandKind,
    owner: StabilizationSystem,
    ownership: OwnershipClass,
    rollback: RollbackState,
    step_id: Seq<char>,
    phase: OperationPhase,
)
    ensures
        ({
            let entry = new_entry(
                journal_id,
                operation_id,
                command,
                owner,
                ownership,
                rollback,
            );
            &&& entry.journal_id == journal_id
            &&& entry.operation_id == operation_id
            &&& entry.command == command
            &&& entry.owner == owner
            &&& entry.ownership == ownership
            &&& entry.rollback == rollback
            &&& entry.sequence == 0
            &&& entry.status is Planned
            &&& entry.intent is Generic
            &&& entry.parent_operation_id is None
            &&& entry.targets.len() == 0
            &&& entry.planned_steps.len() == 0
            &&& entry.completed_steps.len() == 0
            &&& entry.guardian_diagnosis_ids.len() == 0
            &&& entry.guardian_install_terminal is None
            &&& entry.failure_point is None
            &&& entry.outcome is None
            &&& entry.reconciliation_attempt is None
            &&& entry.reconciliation_terminal is None
            &&& entry.persisted_state_repair_attempt is None
            &&& entry.persisted_state_repair_terminal is None
        }),
        ({
            let step = planned_step(step_id, phase);
            &&& step.step_id == step_id
            &&& step.phase == phase
            &&& step.result is Planned
            &&& step.changed_target is None
            &&& step.generated_facts.len() == 0
            &&& step.guardian_fact_ids.len() == 0
            &&& step.metrics is None
            &&& step.rollback is NotApplicable
        }),
{
}

/// The plan of a repair names the attempt, its target, the one step that is planned and the diagnosis
/// that it follows from, and says that the Guardian repairs a record that the launcher manages.
pub proof fn repair_plan_names_its_attempt(
    attempt: PersistedStateRepairAttemptView,
)
    ensures
        ({
            let plan = repair_plan(attempt);
            &&& plan.journal_id == attempt.journal_id
            &&& plan.operation_id == attempt.operation_id
            &&& plan.command is RepairPersistedState
            &&& plan.owner is Guardian
            &&& plan.ownership is LauncherManaged
            &&& plan.rollback is NotApplicable
            &&& plan.status is Planned
            &&& plan.intent is Generic
            &&& plan.persisted_state_repair_attempt == Some(attempt)
            &&& plan.persisted_state_repair_terminal is None
            &&& plan.reconciliation_attempt is None
            &&& plan.reconciliation_terminal is None
            &&& plan.targets.len() == 1
            &&& plan.targets[0] == attempt.target
            &&& plan.planned_steps.len() == 1
            &&& plan.planned_steps[0].step_id == "quarantine_rejected_restart_record"@
            &&& plan.planned_steps[0].phase is Repairing
            &&& plan.planned_steps[0].result is Planned
            &&& plan.completed_steps.len() == 0
            &&& plan.guardian_diagnosis_ids.len() == 1
            &&& plan.guardian_diagnosis_ids[0] is PersistedStateSchemaInvalid
            &&& plan.failure_point is None
            &&& plan.outcome is None
        }),
{
}

} // verus!

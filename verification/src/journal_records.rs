//! What is recorded of an operation, and when the store refuses to record it.

use crate::contracts::{
    CommandKind, DiagnosisId, OperationId, OperationOutcome, OperationStatus, OperationStepResult,
    OwnershipClass, ReconciliationTerminalOutcome, RollbackState, StabilizationSystem,
};
use crate::entry::{
    OperationIntent, OperationJournalEntry, OperationJournalEntryView, OperationJournalStep,
    OperationJournalStepView,
};
use crate::evidence::{
    DurableGuardianEvidence, DurableGuardianEvidenceView, PersistedStateRepairAttempt,
    PersistedStateRepairAttemptView, PersistedStateRepairTerminal, PersistedStateRepairTerminalView,
    ReconciliationPublicationView, ReconciliationTerminal, ReconciliationTerminalView,
};
use crate::guardian_evidence::{apply_guardian_evidence, evidence_agrees, with_evidence};
use crate::journal_errors::{OperationJournalStoreError, OperationJournalValidationError};
use crate::journal_store::{
    optional_result_view, result_view, JournalDraft, JournalDraftView, OperationJournalStore,
    OperationJournalStoreView,
};
use crate::journal_temporal::{
    persisted_state_repair_temporal_record, reconciliation_temporal_record, repair_terminal_times,
    terminal_times, times_admitted, times_error, validate_journal_temporal_admission,
};
use crate::journal_validation::{
    entry_verdict, is_terminal, metrics_step_verdict, new_repair_end_step, new_repair_plan_step,
    operation_journal_status_is_terminal, persisted_state_repair_terminal_shape,
    reject_unowned_typed_step_evidence, repair_end_step, repair_failure_point, repair_outcome,
    repair_plan_step, repair_status, require_metrics_only_step, untyped_step_verdict,
    validate_entry,
};
use crate::journal_visibility::{new_entry, same_but_sequence};
use crate::performance::lifecycle_of;
use crate::rulings::{LauncherRulings, LauncherRulingsView};
use crate::temporal::assessment;
use crate::record::Record;
use vstd::prelude::*;

verus! {

/// Which entries an update may change, and in which state it may leave them.
#[derive(Clone, Copy)]
pub struct UpdatePolicy {
    /// Whether an operation that has ended may be updated.
    pub post_terminal_obligation: bool,
    /// Whether a performance operation may be updated.
    pub performance_transition: bool,
    /// Whether the entry may hold times that have expired.
    pub allow_expired_terminal: bool,
}

/// The policy for what happens while an operation is under way.
pub open spec fn under_way() -> UpdatePolicy {
    UpdatePolicy {
        post_terminal_obligation: false,
        performance_transition: false,
        allow_expired_terminal: false,
    }
}

/// The policy for the end of a repair, which may come after the times have expired.
pub open spec fn settlement() -> UpdatePolicy {
    UpdatePolicy { allow_expired_terminal: true, ..under_way() }
}

/// The policy for what is owed to an operation that has ended.
pub open spec fn post_terminal() -> UpdatePolicy {
    UpdatePolicy { post_terminal_obligation: true, ..under_way() }
}

/// The policy for an acknowledgement, which may come after the times have expired.
pub open spec fn acknowledgement() -> UpdatePolicy {
    UpdatePolicy { post_terminal_obligation: true, allow_expired_terminal: true, ..under_way() }
}

/// The policy for performance operations.
pub open spec fn performance_update() -> UpdatePolicy {
    UpdatePolicy { performance_transition: true, ..under_way() }
}

/// The entry that an update starts from, or why there is none.
pub open spec fn opened(
    store: OperationJournalStoreView,
    operation_id: OperationId,
    policy: UpdatePolicy,
) -> Result<OperationJournalEntryView, OperationJournalStoreError> {
    let entry = store.visible.entries[operation_id.value].entry;
    if store.retry_candidate is Some {
        Err(OperationJournalStoreError::RetryRequired)
    } else if !store.visible.entries.contains_key(operation_id.value) {
        Err(OperationJournalStoreError::MissingOperation)
    } else if is_terminal(entry.status) && !(policy.post_terminal_obligation && (lifecycle_of(entry)
        is None || policy.performance_transition)) {
        Err(OperationJournalStoreError::AlreadyTerminal)
    } else if lifecycle_of(entry) is Some && !policy.performance_transition {
        Err(OperationJournalStoreError::AlreadyExists)
    } else {
        Ok(entry)
    }
}

/// The draft of an entry that has been changed, or why the change cannot stand.
pub open spec fn closed_update(
    store: OperationJournalStoreView,
    entry: OperationJournalEntryView,
    policy: UpdatePolicy,
    rulings: LauncherRulingsView,
) -> Result<JournalDraftView, OperationJournalStoreError> {
    if !times_admitted(store.now, entry, policy.allow_expired_terminal) {
        Err(OperationJournalStoreError::Validation(times_error(entry)))
    } else if let Err(error) = entry_verdict(entry, rulings) {
        Err(OperationJournalStoreError::Validation(error))
    } else {
        Ok(JournalDraftView { entry, next_sequence: store.visible.next_sequence, fresh: false })
    }
}

/// The draft of an update that changes an entry in this way.
pub open spec fn updated(
    store: OperationJournalStoreView,
    operation_id: OperationId,
    policy: UpdatePolicy,
    change: spec_fn(OperationJournalEntryView) -> Result<
        OperationJournalEntryView,
        OperationJournalStoreError,
    >,
    rulings: LauncherRulingsView,
) -> Result<JournalDraftView, OperationJournalStoreError> {
    match opened(store, operation_id, policy) {
        Err(error) => Err(error),
        Ok(entry) => match change(entry) {
            Err(error) => Err(error),
            Ok(changed) => closed_update(store, changed, policy, rulings),
        },
    }
}

/// The draft of an update that can be made once something else has been found in order.
pub open spec fn updated_if(
    found: Result<(), OperationJournalStoreError>,
    update: Result<JournalDraftView, OperationJournalStoreError>,
) -> Result<JournalDraftView, OperationJournalStoreError> {
    match found {
        Ok(()) => update,
        Err(error) => Err(error),
    }
}

/// The draft of a new entry, with the sequence that the store assigns.
pub open spec fn fresh_draft(
    store: OperationJournalStoreView,
    entry: OperationJournalEntryView,
) -> Result<JournalDraftView, OperationJournalStoreError> {
    if store.visible.next_sequence == u64::MAX {
        Err(OperationJournalStoreError::SequenceExhausted)
    } else {
        Ok(
            JournalDraftView {
                entry: OperationJournalEntryView {
                    sequence: store.visible.next_sequence,
                    ..entry
                },
                next_sequence: (store.visible.next_sequence + 1) as u64,
                fresh: true,
            },
        )
    }
}

/// What becomes of a request to create an entry. An entry that is there already needs no draft if
/// it is the same and may be.
pub open spec fn created(
    store: OperationJournalStoreView,
    entry: OperationJournalEntryView,
    allow_matching_existing: bool,
    rulings: LauncherRulingsView,
) -> Result<Option<JournalDraftView>, OperationJournalStoreError> {
    let key = entry.operation_id.value;
    if let Err(error) = entry_verdict(entry, rulings) {
        Err(OperationJournalStoreError::Validation(error))
    } else if !times_admitted(store.now, entry, false) {
        Err(OperationJournalStoreError::Validation(times_error(entry)))
    } else if store.retry_candidate is Some {
        Err(OperationJournalStoreError::RetryRequired)
    } else if store.visible.entries.contains_key(key) {
        if allow_matching_existing && same_but_sequence(store.visible.entries[key].entry, entry) {
            Ok(None)
        } else {
            Err(OperationJournalStoreError::AlreadyExists)
        }
    } else {
        match fresh_draft(store, entry) {
            Ok(draft) => Ok(Some(draft)),
            Err(error) => Err(error),
        }
    }
}

/// An entry that ended in success.
pub open spec fn succeeded(
    entry: OperationJournalEntryView,
    step: OperationJournalStepView,
    outcome: OperationOutcome,
) -> OperationJournalEntryView {
    OperationJournalEntryView {
        status: OperationStatus::Succeeded,
        completed_steps: entry.completed_steps.push(step),
        failure_point: None,
        outcome: Some(outcome),
        ..entry
    }
}

/// An entry that ended in failure.
pub open spec fn failed(
    entry: OperationJournalEntryView,
    step: OperationJournalStepView,
    failure_point: Seq<char>,
    outcome: OperationOutcome,
) -> OperationJournalEntryView {
    OperationJournalEntryView {
        status: OperationStatus::Failed,
        completed_steps: entry.completed_steps.push(step),
        failure_point: Some(failure_point),
        outcome: Some(outcome),
        ..entry
    }
}

/// An entry that was cancelled. Nothing of what was done before stays.
pub open spec fn cancelled(
    entry: OperationJournalEntryView,
    step: OperationJournalStepView,
) -> OperationJournalEntryView {
    OperationJournalEntryView {
        status: OperationStatus::Cancelled,
        completed_steps: seq![step],
        failure_point: None,
        guardian_diagnosis_ids: Seq::empty(),
        guardian_install_terminal: None,
        outcome: Some(OperationOutcome::Cancelled),
        ..entry
    }
}

/// An entry that has come a step further.
pub open spec fn progressed(
    entry: OperationJournalEntryView,
    step: OperationJournalStepView,
) -> OperationJournalEntryView {
    OperationJournalEntryView {
        status: OperationStatus::Running,
        completed_steps: entry.completed_steps.push(step),
        ..entry
    }
}

/// An entry with Guardian evidence, if the evidence fits.
pub open spec fn evidenced(
    entry: OperationJournalEntryView,
    evidence: DurableGuardianEvidenceView,
) -> Result<OperationJournalEntryView, OperationJournalStoreError> {
    if evidence_agrees(entry, evidence) {
        Ok(with_evidence(entry, evidence))
    } else {
        Err(OperationJournalStoreError::InvalidGuardianOutcome)
    }
}

/// The error of a reconciliation that does not fit its journal.
pub open spec fn reconciliation_mismatch() -> OperationJournalStoreError {
    OperationJournalStoreError::Validation(
        OperationJournalValidationError::ReconciliationTerminalMismatch,
    )
}

/// Whether the end of a reconciliation may be recorded: it is the end that is meant, and its times
/// are in order.
pub open spec fn reconciliation_admitted(
    store: OperationJournalStoreView,
    terminal: ReconciliationTerminalView,
    outcome: ReconciliationTerminalOutcome,
) -> Result<(), OperationJournalStoreError> {
    if terminal.outcome != outcome {
        Err(reconciliation_mismatch())
    } else if assessment(store.now, terminal_times(terminal)) is Err {
        Err(
            OperationJournalStoreError::Validation(
                OperationJournalValidationError::InvalidReconciliationTerminal,
            ),
        )
    } else {
        Ok(())
    }
}

/// An entry whose reconciliation has ended.
pub open spec fn reconciled(
    entry: OperationJournalEntryView,
    ended: OperationJournalEntryView,
    terminal: ReconciliationTerminalView,
) -> Result<OperationJournalEntryView, OperationJournalStoreError> {
    if entry.reconciliation_attempt != Some(terminal.attempt) {
        Err(reconciliation_mismatch())
    } else {
        Ok(OperationJournalEntryView { reconciliation_terminal: Some(terminal), ..ended })
    }
}

/// An entry whose persisted record has been repaired, or could not be.
pub open spec fn repaired(
    entry: OperationJournalEntryView,
    terminal: PersistedStateRepairTerminalView,
) -> Result<OperationJournalEntryView, OperationJournalStoreError> {
    if entry.persisted_state_repair_attempt != Some(terminal.attempt) {
        Err(
            OperationJournalStoreError::Validation(
                OperationJournalValidationError::PersistedStateRepairMismatch,
            ),
        )
    } else {
        Ok(
            OperationJournalEntryView {
                status: repair_status(terminal.outcome),
                completed_steps: entry.completed_steps.push(repair_end_step(terminal)),
                failure_point: repair_failure_point(terminal.outcome),
                outcome: Some(repair_outcome(terminal.outcome)),
                persisted_state_repair_terminal: Some(terminal),
                ..entry
            },
        )
    }
}

/// An entry whose repair the Guardian refused.
pub open spec fn refused(
    entry: OperationJournalEntryView,
    step: OperationJournalStepView,
) -> Result<OperationJournalEntryView, OperationJournalStoreError> {
    if entry.command != CommandKind::RepairInstance || entry.owner
        != StabilizationSystem::Guardian {
        Err(reconciliation_mismatch())
    } else {
        Ok(
            OperationJournalEntryView {
                status: OperationStatus::Blocked,
                completed_steps: entry.completed_steps.push(step),
                failure_point: None,
                outcome: Some(OperationOutcome::Blocked),
                ..entry
            },
        )
    }
}

/// The plan to repair a persisted record.
pub open spec fn repair_plan(attempt: PersistedStateRepairAttemptView) -> OperationJournalEntryView {
    OperationJournalEntryView {
        targets: seq![attempt.target],
        planned_steps: seq![repair_plan_step()],
        guardian_diagnosis_ids: seq![DiagnosisId::PersistedStateSchemaInvalid],
        persisted_state_repair_attempt: Some(attempt),
        ..new_entry(
            attempt.journal_id,
            attempt.operation_id,
            CommandKind::RepairPersistedState,
            StabilizationSystem::Guardian,
            OwnershipClass::LauncherManaged,
            RollbackState::NotApplicable,
        )
    }
}

/// The end of a reconciliation once what it published has been acknowledged.
pub open spec fn acknowledged(terminal: ReconciliationTerminalView) -> ReconciliationTerminalView {
    ReconciliationTerminalView {
        version_bundle_publication: match terminal.version_bundle_publication {
            Some(publication) => Some(
                ReconciliationPublicationView { pending: false, ..publication },
            ),
            None => None,
        },
        ..terminal
    }
}

/// A checkpoint that may be recorded again: `Ok(false)` where the same one is there already.
pub open spec fn checkpoint_is_new(
    store: OperationJournalStoreView,
    operation_id: OperationId,
    step: OperationJournalStepView,
) -> Result<bool, OperationJournalStoreError> {
    let entry = store.visible.entries[operation_id.value].entry;
    if store.retry_candidate is Some {
        Err(OperationJournalStoreError::RetryRequired)
    } else if !store.visible.entries.contains_key(operation_id.value) {
        Err(OperationJournalStoreError::MissingOperation)
    } else if is_terminal(entry.status) {
        Err(OperationJournalStoreError::AlreadyTerminal)
    } else if entry.completed_steps.contains(step) {
        Ok(false)
    } else if exists|i: int|
        0 <= i < entry.completed_steps.len() && (#[trigger] entry.completed_steps[i]).step_id
            == step.step_id {
        Err(OperationJournalStoreError::AlreadyExists)
    } else {
        Ok(true)
    }
}

/// The draft of an entry that ends in success with this step.
pub open spec fn ended_well(
    store: OperationJournalStoreView,
    operation_id: OperationId,
    step: OperationJournalStepView,
    outcome: OperationOutcome,
    rulings: LauncherRulingsView,
) -> Result<JournalDraftView, OperationJournalStoreError> {
    updated(
        store,
        operation_id,
        under_way(),
        |entry: OperationJournalEntryView| Ok(succeeded(entry, step, outcome)),
        rulings,
    )
}

/// The draft of an entry that ends in failure with this step.
pub open spec fn ended_badly(
    store: OperationJournalStoreView,
    operation_id: OperationId,
    step: OperationJournalStepView,
    failure_point: Seq<char>,
    outcome: OperationOutcome,
    rulings: LauncherRulingsView,
) -> Result<JournalDraftView, OperationJournalStoreError> {
    updated(
        store,
        operation_id,
        under_way(),
        |entry: OperationJournalEntryView| Ok(failed(entry, step, failure_point, outcome)),
        rulings,
    )
}

/// The draft of an entry that has come this step further.
pub open spec fn continued(
    store: OperationJournalStoreView,
    operation_id: OperationId,
    step: OperationJournalStepView,
    rulings: LauncherRulingsView,
) -> Result<JournalDraftView, OperationJournalStoreError> {
    updated(
        store,
        operation_id,
        under_way(),
        |entry: OperationJournalEntryView| Ok(progressed(entry, step)),
        rulings,
    )
}

/// What becomes of a recorded success.
pub open spec fn success_recorded(
    store: OperationJournalStoreView,
    operation_id: OperationId,
    step: OperationJournalStepView,
    outcome: OperationOutcome,
    rulings: LauncherRulingsView,
) -> Result<JournalDraftView, OperationJournalStoreError> {
    updated_if(
        untyped_step_verdict(step),
        ended_well(store, operation_id, step, outcome, rulings),
    )
}

/// What becomes of a recorded success that was measured.
pub open spec fn measured_success_recorded(
    store: OperationJournalStoreView,
    operation_id: OperationId,
    step: OperationJournalStepView,
    rulings: LauncherRulingsView,
) -> Result<JournalDraftView, OperationJournalStoreError> {
    updated_if(
        metrics_step_verdict(step, OperationStepResult::Completed),
        ended_well(store, operation_id, step, OperationOutcome::Succeeded, rulings),
    )
}

/// What becomes of a recorded success that Guardian evidence goes with.
pub open spec fn evidenced_success_recorded(
    store: OperationJournalStoreView,
    step: OperationJournalStepView,
    evidence: DurableGuardianEvidenceView,
    rulings: LauncherRulingsView,
) -> Result<JournalDraftView, OperationJournalStoreError> {
    if evidence.install_terminal is Some || step.guardian_fact_ids.len() > 0 || step.result
        != OperationStepResult::Completed {
        Err(OperationJournalStoreError::InvalidGuardianOutcome)
    } else {
        updated(
            store,
            evidence.operation_id,
            under_way(),
            |entry: OperationJournalEntryView|
                evidenced(succeeded(entry, step, OperationOutcome::Succeeded), evidence),
            rulings,
        )
    }
}

/// What becomes of a recorded failure.
pub open spec fn failure_recorded(
    store: OperationJournalStoreView,
    operation_id: OperationId,
    step: OperationJournalStepView,
    failure_point: Seq<char>,
    outcome: OperationOutcome,
    rulings: LauncherRulingsView,
) -> Result<JournalDraftView, OperationJournalStoreError> {
    updated_if(
        untyped_step_verdict(step),
        ended_badly(store, operation_id, step, failure_point, outcome, rulings),
    )
}

/// What becomes of a recorded failure that was measured.
pub open spec fn measured_failure_recorded(
    store: OperationJournalStoreView,
    operation_id: OperationId,
    step: OperationJournalStepView,
    failure_point: Seq<char>,
    rulings: LauncherRulingsView,
) -> Result<JournalDraftView, OperationJournalStoreError> {
    updated_if(
        metrics_step_verdict(step, OperationStepResult::Failed),
        ended_badly(store, operation_id, step, failure_point, OperationOutcome::Failed, rulings),
    )
}

/// What becomes of a recorded failure that Guardian evidence goes with.
pub open spec fn evidenced_failure_recorded(
    store: OperationJournalStoreView,
    step: OperationJournalStepView,
    failure_point: Seq<char>,
    outcome: OperationOutcome,
    evidence: DurableGuardianEvidenceView,
    rulings: LauncherRulingsView,
) -> Result<JournalDraftView, OperationJournalStoreError> {
    if step.guardian_fact_ids.len() > 0 || step.result != OperationStepResult::Failed || outcome
        != OperationOutcome::Failed {
        Err(OperationJournalStoreError::InvalidGuardianOutcome)
    } else {
        updated(
            store,
            evidence.operation_id,
            under_way(),
            |entry: OperationJournalEntryView|
                evidenced(failed(entry, step, failure_point, outcome), evidence),
            rulings,
        )
    }
}

/// What becomes of a recorded cancellation.
pub open spec fn cancellation_recorded(
    store: OperationJournalStoreView,
    operation_id: OperationId,
    step: OperationJournalStepView,
    rulings: LauncherRulingsView,
) -> Result<JournalDraftView, OperationJournalStoreError> {
    updated_if(
        metrics_step_verdict(step, OperationStepResult::Skipped),
        updated(
            store,
            operation_id,
            under_way(),
            |entry: OperationJournalEntryView| Ok(cancelled(entry, step)),
            rulings,
        ),
    )
}

/// What becomes of recorded progress.
pub open spec fn progress_recorded(
    store: OperationJournalStoreView,
    operation_id: OperationId,
    step: OperationJournalStepView,
    rulings: LauncherRulingsView,
) -> Result<JournalDraftView, OperationJournalStoreError> {
    updated_if(untyped_step_verdict(step), continued(store, operation_id, step, rulings))
}

/// What becomes of a checkpoint that may have been recorded before.
pub open spec fn checkpoint_recorded(
    store: OperationJournalStoreView,
    operation_id: OperationId,
    step: OperationJournalStepView,
    rulings: LauncherRulingsView,
) -> Result<Option<JournalDraftView>, OperationJournalStoreError> {
    match untyped_step_verdict(step) {
        Err(error) => Err(error),
        Ok(()) => match checkpoint_is_new(store, operation_id, step) {
            Err(error) => Err(error),
            Ok(false) => Ok(None),
            Ok(true) => match continued(store, operation_id, step, rulings) {
                Ok(draft) => Ok(Some(draft)),
                Err(error) => Err(error),
            },
        },
    }
}

/// What becomes of recorded Guardian evidence.
pub open spec fn evidence_recorded(
    store: OperationJournalStoreView,
    evidence: DurableGuardianEvidenceView,
    rulings: LauncherRulingsView,
) -> Result<JournalDraftView, OperationJournalStoreError> {
    updated(
        store,
        evidence.operation_id,
        post_terminal(),
        |entry: OperationJournalEntryView| evidenced(entry, evidence),
        rulings,
    )
}

/// What becomes of a recorded reconciliation that succeeded.
pub open spec fn reconciliation_success_recorded(
    store: OperationJournalStoreView,
    operation_id: OperationId,
    step: OperationJournalStepView,
    terminal: ReconciliationTerminalView,
    rulings: LauncherRulingsView,
) -> Result<JournalDraftView, OperationJournalStoreError> {
    updated_if(
        reconciliation_admitted(store, terminal, ReconciliationTerminalOutcome::Succeeded),
        updated(
            store,
            operation_id,
            settlement(),
            |entry: OperationJournalEntryView|
                reconciled(
                    entry,
                    succeeded(entry, step, OperationOutcome::Succeeded),
                    terminal,
                ),
            rulings,
        ),
    )
}

/// What becomes of a recorded reconciliation that failed.
pub open spec fn reconciliation_failure_recorded(
    store: OperationJournalStoreView,
    operation_id: OperationId,
    step: OperationJournalStepView,
    failure_point: Seq<char>,
    terminal: ReconciliationTerminalView,
    rulings: LauncherRulingsView,
) -> Result<JournalDraftView, OperationJournalStoreError> {
    updated_if(
        reconciliation_admitted(store, terminal, ReconciliationTerminalOutcome::Failed),
        updated(
            store,
            operation_id,
            settlement(),
            |entry: OperationJournalEntryView|
                reconciled(
                    entry,
                    failed(entry, step, failure_point, OperationOutcome::Failed),
                    terminal,
                ),
            rulings,
        ),
    )
}

/// What becomes of the recorded end of a repair.
pub open spec fn repair_end_recorded(
    store: OperationJournalStoreView,
    operation_id: OperationId,
    terminal: PersistedStateRepairTerminalView,
    rulings: LauncherRulingsView,
) -> Result<JournalDraftView, OperationJournalStoreError> {
    updated_if(
        if assessment(store.now, repair_terminal_times(terminal)) is Err {
            Err(
                OperationJournalStoreError::Validation(
                    OperationJournalValidationError::InvalidPersistedStateRepair,
                ),
            )
        } else {
            Ok(())
        },
        updated(
            store,
            operation_id,
            settlement(),
            |entry: OperationJournalEntryView| repaired(entry, terminal),
            rulings,
        ),
    )
}

/// What becomes of a recorded refusal to repair.
pub open spec fn refusal_recorded(
    store: OperationJournalStoreView,
    operation_id: OperationId,
    step: OperationJournalStepView,
    rulings: LauncherRulingsView,
) -> Result<JournalDraftView, OperationJournalStoreError> {
    if step.result != OperationStepResult::Skipped {
        Err(reconciliation_mismatch())
    } else {
        updated(
            store,
            operation_id,
            under_way(),
            |entry: OperationJournalEntryView| refused(entry, step),
            rulings,
        )
    }
}

fn push_step(entry: &mut OperationJournalEntry, step: OperationJournalStep)
    ensures
        final(entry)@ == (OperationJournalEntryView {
            completed_steps: old(entry)@.completed_steps.push(step@),
            ..old(entry)@
        }),
{
    let ghost before = entry@;
    entry.completed_steps.push(step);
    assert(entry@.completed_steps =~= before.completed_steps.push(step@));
}

impl OperationJournalStore {
    /// The entry that an update starts from, or why there is none.
    pub fn open_update(&self, operation_id: &OperationId, policy: UpdatePolicy) -> (r: Result<
        OperationJournalEntry,
        OperationJournalStoreError,
    >)
        ensures
            result_view(r) == opened(self@, *operation_id, policy),
    {
        if self.has_retry_candidate() {
            return Err(OperationJournalStoreError::RetryRequired);
        }
        let entry = match self.visible().entry(operation_id) {
            Some(entry) => entry,
            None => {
                return Err(OperationJournalStoreError::MissingOperation);
            },
        };
        let performance = match &entry.intent {
            OperationIntent::Performance(_) => true,
            OperationIntent::Generic {  } => false,
        };
        if performance && !policy.performance_transition {
            if operation_journal_status_is_terminal(entry.status) {
                return Err(OperationJournalStoreError::AlreadyTerminal);
            }
            return Err(OperationJournalStoreError::AlreadyExists);
        }
        if operation_journal_status_is_terminal(entry.status) && !policy.post_terminal_obligation {
            return Err(OperationJournalStoreError::AlreadyTerminal);
        }
        Ok(entry.duplicate())
    }

    /// The draft of an entry that has been changed, or why the change cannot stand.
    pub fn close_update(
        &self,
        entry: OperationJournalEntry,
        policy: UpdatePolicy,
        rulings: &LauncherRulings,
    ) -> (r: Result<JournalDraft, OperationJournalStoreError>)
        ensures
            result_view(r) == closed_update(self@, entry@, policy, rulings@),
    {
        match validate_journal_temporal_admission(
            self.temporal(),
            &entry,
            policy.allow_expired_terminal,
        ) {
            Ok(()) => {},
            Err(error) => {
                return Err(error);
            },
        }
        match validate_entry(&entry, rulings) {
            Ok(()) => Ok(
                JournalDraft { entry, next_sequence: self.visible().next_sequence(), fresh: false },
            ),
            Err(error) => Err(OperationJournalStoreError::Validation(error)),
        }
    }

    /// The draft of a new entry, with the sequence that the store assigns.
    pub fn draft_fresh(&self, entry: OperationJournalEntry) -> (r: Result<
        JournalDraft,
        OperationJournalStoreError,
    >)
        ensures
            result_view(r) == fresh_draft(self@, entry@),
    {
        let sequence: u64 = self.visible().next_sequence();
        if sequence == u64::MAX {
            return Err(OperationJournalStoreError::SequenceExhausted);
        }
        let mut entry = entry;
        entry.sequence = sequence;
        Ok(JournalDraft { entry, next_sequence: sequence + 1, fresh: true })
    }

    fn create_with_existing_policy(
        &self,
        entry: OperationJournalEntry,
        allow_matching_existing: bool,
        rulings: &LauncherRulings,
    ) -> (r: Result<Option<JournalDraft>, OperationJournalStoreError>)
        ensures
            optional_result_view(r) == created(
                self@,
                entry@,
                allow_matching_existing,
                rulings@,
            ),
    {
        match validate_entry(&entry, rulings) {
            Ok(()) => {},
            Err(error) => {
                return Err(OperationJournalStoreError::Validation(error));
            },
        }
        match validate_journal_temporal_admission(self.temporal(), &entry, false) {
            Ok(()) => {},
            Err(error) => {
                return Err(error);
            },
        }
        if self.has_retry_candidate() {
            return Err(OperationJournalStoreError::RetryRequired);
        }
        match self.visible().entry(&entry.operation_id) {
            Some(existing) => {
                if allow_matching_existing && existing.matches_store_entry(&entry) {
                    return Ok(None);
                }
                return Err(OperationJournalStoreError::AlreadyExists);
            },
            None => {},
        }
        match self.draft_fresh(entry) {
            Ok(draft) => Ok(Some(draft)),
            Err(error) => Err(error),
        }
    }

    /// Creates an entry. To create the same entry again is in order, and needs no draft.
    pub fn create(&self, entry: OperationJournalEntry, rulings: &LauncherRulings) -> (r: Result<
        Option<JournalDraft>,
        OperationJournalStoreError,
    >)
        ensures
            optional_result_view(r) == created(self@, entry@, true, rulings@),
    {
        self.create_with_existing_policy(entry, true, rulings)
    }

    /// Creates an entry that may not be there already.
    pub fn create_fresh(&self, entry: OperationJournalEntry, rulings: &LauncherRulings) -> (r: Result<
        JournalDraft,
        OperationJournalStoreError,
    >)
        ensures
            (match result_view(r) {
                Ok(draft) => Ok(Some(draft)),
                Err(error) => Err(error),
            }) == created(self@, entry@, false, rulings@),
    {
        match self.create_with_existing_policy(entry, false, rulings) {
            Ok(Some(draft)) => Ok(draft),
            Ok(None) => Err(OperationJournalStoreError::AlreadyExists),
            Err(error) => Err(error),
        }
    }

    /// Plans the repair of a persisted record.
    pub fn create_persisted_state_repair_plan(
        &self,
        attempt: PersistedStateRepairAttempt,
        rulings: &LauncherRulings,
    ) -> (r: Result<JournalDraft, OperationJournalStoreError>)
        ensures
            (match result_view(r) {
                Ok(draft) => Ok(Some(draft)),
                Err(error) => Err(error),
            }) == created(self@, repair_plan(attempt@), false, rulings@),
    {
        let mut entry = OperationJournalEntry::new(
            attempt.journal_id.duplicate(),
            attempt.operation_id,
            CommandKind::RepairPersistedState,
            StabilizationSystem::Guardian,
            OwnershipClass::LauncherManaged,
            RollbackState::NotApplicable,
        );
        entry.targets.push(attempt.target.duplicate());
        entry.planned_steps.push(new_repair_plan_step());
        entry.guardian_diagnosis_ids.push(DiagnosisId::PersistedStateSchemaInvalid);
        proof {
            assert(entry@.targets =~= seq![attempt@.target]);
            assert(entry@.planned_steps =~= seq![repair_plan_step()]);
            assert(entry@.guardian_diagnosis_ids =~= seq![
                DiagnosisId::PersistedStateSchemaInvalid,
            ]);
        }
        entry.persisted_state_repair_attempt = Some(attempt);
        assert(entry@ == repair_plan(attempt@));
        self.create_fresh(entry, rulings)
    }

    /// Records that an operation succeeded.
    pub fn record_success(
        &self,
        operation_id: &OperationId,
        completed_step: OperationJournalStep,
        outcome: OperationOutcome,
        rulings: &LauncherRulings,
    ) -> (r: Result<JournalDraft, OperationJournalStoreError>)
        ensures
            result_view(r) == success_recorded(
                self@,
                *operation_id,
                completed_step@,
                outcome,
                rulings@,
            ),
    {
        match reject_unowned_typed_step_evidence(&completed_step) {
            Ok(()) => {},
            Err(error) => {
                return Err(error);
            },
        }
        self.succeed(operation_id, completed_step, outcome, rulings)
    }

    fn succeed(
        &self,
        operation_id: &OperationId,
        completed_step: OperationJournalStep,
        outcome: OperationOutcome,
        rulings: &LauncherRulings,
    ) -> (r: Result<JournalDraft, OperationJournalStoreError>)
        ensures
            result_view(r) == ended_well(
                self@,
                *operation_id,
                completed_step@,
                outcome,
                rulings@,
            ),
    {
        let policy = UpdatePolicy {
            post_terminal_obligation: false,
            performance_transition: false,
            allow_expired_terminal: false,
        };
        let mut entry = match self.open_update(operation_id, policy) {
            Ok(entry) => entry,
            Err(error) => {
                return Err(error);
            },
        };
        entry.status = OperationStatus::Succeeded;
        push_step(&mut entry, completed_step);
        entry.failure_point = None;
        entry.outcome = Some(outcome);
        self.close_update(entry, policy, rulings)
    }

    fn fail(
        &self,
        operation_id: &OperationId,
        failure_step: OperationJournalStep,
        failure_point: String,
        outcome: OperationOutcome,
        rulings: &LauncherRulings,
    ) -> (r: Result<JournalDraft, OperationJournalStoreError>)
        ensures
            result_view(r) == ended_badly(
                self@,
                *operation_id,
                failure_step@,
                failure_point@,
                outcome,
                rulings@,
            ),
    {
        let policy = UpdatePolicy {
            post_terminal_obligation: false,
            performance_transition: false,
            allow_expired_terminal: false,
        };
        let mut entry = match self.open_update(operation_id, policy) {
            Ok(entry) => entry,
            Err(error) => {
                return Err(error);
            },
        };
        entry.status = OperationStatus::Failed;
        push_step(&mut entry, failure_step);
        entry.failure_point = Some(failure_point);
        entry.outcome = Some(outcome);
        self.close_update(entry, policy, rulings)
    }

    /// Records that an operation succeeded, with what the Guardian found in it.
    pub fn record_success_with_guardian_evidence(
        &self,
        completed_step: OperationJournalStep,
        evidence: &DurableGuardianEvidence,
        rulings: &LauncherRulings,
    ) -> (r: Result<JournalDraft, OperationJournalStoreError>)
        ensures
            result_view(r) == evidenced_success_recorded(
                self@,
                completed_step@,
                evidence@,
                rulings@,
            ),
    {
        if evidence.install_terminal.is_some() || completed_step.guardian_fact_ids.len() > 0
            || completed_step.result != OperationStepResult::Completed {
            return Err(OperationJournalStoreError::InvalidGuardianOutcome);
        }
        let policy = UpdatePolicy {
            post_terminal_obligation: false,
            performance_transition: false,
            allow_expired_terminal: false,
        };
        let mut entry = match self.open_update(&evidence.operation_id, policy) {
            Ok(entry) => entry,
            Err(error) => {
                return Err(error);
            },
        };
        entry.status = OperationStatus::Succeeded;
        push_step(&mut entry, completed_step);
        entry.failure_point = None;
        entry.outcome = Some(OperationOutcome::Succeeded);
        match apply_guardian_evidence(&mut entry, evidence) {
            Ok(()) => self.close_update(entry, policy, rulings),
            Err(error) => Err(error),
        }
    }

    /// Records that an operation succeeded, with what was measured.
    pub fn record_success_with_metrics(
        &self,
        operation_id: &OperationId,
        completed_step: OperationJournalStep,
        rulings: &LauncherRulings,
    ) -> (r: Result<JournalDraft, OperationJournalStoreError>)
        ensures
            result_view(r) == measured_success_recorded(
                self@,
                *operation_id,
                completed_step@,
                rulings@,
            ),
    {
        match require_metrics_only_step(&completed_step, OperationStepResult::Completed) {
            Ok(()) => {},
            Err(error) => {
                return Err(error);
            },
        }
        self.succeed(operation_id, completed_step, OperationOutcome::Succeeded, rulings)
    }

    /// Records that an operation failed.
    pub fn record_failure(
        &self,
        operation_id: &OperationId,
        failure_step: OperationJournalStep,
        failure_point: String,
        outcome: OperationOutcome,
        rulings: &LauncherRulings,
    ) -> (r: Result<JournalDraft, OperationJournalStoreError>)
        ensures
            result_view(r) == failure_recorded(
                self@,
                *operation_id,
                failure_step@,
                failure_point@,
                outcome,
                rulings@,
            ),
    {
        match reject_unowned_typed_step_evidence(&failure_step) {
            Ok(()) => {},
            Err(error) => {
                return Err(error);
            },
        }
        self.fail(operation_id, failure_step, failure_point, outcome, rulings)
    }

    /// Records that an operation failed, with what was measured.
    pub fn record_failure_with_metrics(
        &self,
        operation_id: &OperationId,
        failure_step: OperationJournalStep,
        failure_point: String,
        rulings: &LauncherRulings,
    ) -> (r: Result<JournalDraft, OperationJournalStoreError>)
        ensures
            result_view(r) == measured_failure_recorded(
                self@,
                *operation_id,
                failure_step@,
                failure_point@,
                rulings@,
            ),
    {
        match require_metrics_only_step(&failure_step, OperationStepResult::Failed) {
            Ok(()) => {},
            Err(error) => {
                return Err(error);
            },
        }
        self.fail(operation_id, failure_step, failure_point, OperationOutcome::Failed, rulings)
    }

    /// Records that an operation failed, with what the Guardian found in it.
    pub fn record_failure_with_guardian_evidence(
        &self,
        failure_step: OperationJournalStep,
        failure_point: String,
        outcome: OperationOutcome,
        evidence: &DurableGuardianEvidence,
        rulings: &LauncherRulings,
    ) -> (r: Result<JournalDraft, OperationJournalStoreError>)
        ensures
            result_view(r) == evidenced_failure_recorded(
                self@,
                failure_step@,
                failure_point@,
                outcome,
                evidence@,
                rulings@,
            ),
    {
        if failure_step.guardian_fact_ids.len() > 0 || failure_step.result
            != OperationStepResult::Failed || outcome != OperationOutcome::Failed {
            return Err(OperationJournalStoreError::InvalidGuardianOutcome);
        }
        let policy = UpdatePolicy {
            post_terminal_obligation: false,
            performance_transition: false,
            allow_expired_terminal: false,
        };
        let mut entry = match self.open_update(&evidence.operation_id, policy) {
            Ok(entry) => entry,
            Err(error) => {
                return Err(error);
            },
        };
        entry.status = OperationStatus::Failed;
        push_step(&mut entry, failure_step);
        entry.failure_point = Some(failure_point);
        entry.outcome = Some(outcome);
        match apply_guardian_evidence(&mut entry, evidence) {
            Ok(()) => self.close_update(entry, policy, rulings),
            Err(error) => Err(error),
        }
    }

    /// Records that an operation was cancelled, with what was measured.
    pub fn record_cancellation_with_metrics(
        &self,
        operation_id: &OperationId,
        cancellation_step: OperationJournalStep,
        rulings: &LauncherRulings,
    ) -> (r: Result<JournalDraft, OperationJournalStoreError>)
        ensures
            result_view(r) == cancellation_recorded(
                self@,
                *operation_id,
                cancellation_step@,
                rulings@,
            ),
    {
        match require_metrics_only_step(&cancellation_step, OperationStepResult::Skipped) {
            Ok(()) => {},
            Err(error) => {
                return Err(error);
            },
        }
        let policy = UpdatePolicy {
            post_terminal_obligation: false,
            performance_transition: false,
            allow_expired_terminal: false,
        };
        let mut entry = match self.open_update(operation_id, policy) {
            Ok(entry) => entry,
            Err(error) => {
                return Err(error);
            },
        };
        entry.status = OperationStatus::Cancelled;
        entry.completed_steps = Vec::new();
        entry.completed_steps.push(cancellation_step);
        assert(entry@.completed_steps =~= seq![cancellation_step@]);
        entry.failure_point = None;
        entry.guardian_diagnosis_ids = Vec::new();
        entry.guardian_install_terminal = None;
        entry.outcome = Some(OperationOutcome::Cancelled);
        self.close_update(entry, policy, rulings)
    }

    fn progress(
        &self,
        operation_id: &OperationId,
        step: OperationJournalStep,
        rulings: &LauncherRulings,
    ) -> (r: Result<JournalDraft, OperationJournalStoreError>)
        ensures
            result_view(r) == continued(
                self@,
                *operation_id,
                step@,
                rulings@,
            ),
    {
        let policy = UpdatePolicy {
            post_terminal_obligation: false,
            performance_transition: false,
            allow_expired_terminal: false,
        };
        let mut entry = match self.open_update(operation_id, policy) {
            Ok(entry) => entry,
            Err(error) => {
                return Err(error);
            },
        };
        entry.status = OperationStatus::Running;
        push_step(&mut entry, step);
        self.close_update(entry, policy, rulings)
    }

    /// Records that an operation has come a step further. This need not be waited for.
    pub fn record_progress(
        &self,
        operation_id: &OperationId,
        progress_step: OperationJournalStep,
        rulings: &LauncherRulings,
    ) -> (r: Result<JournalDraft, OperationJournalStoreError>)
        ensures
            result_view(r) == progress_recorded(
                self@,
                *operation_id,
                progress_step@,
                rulings@,
            ),
    {
        match reject_unowned_typed_step_evidence(&progress_step) {
            Ok(()) => {},
            Err(error) => {
                return Err(error);
            },
        }
        self.progress(operation_id, progress_step, rulings)
    }

    /// Records a step that has to be written before the operation goes on.
    pub fn record_checkpoint(
        &self,
        operation_id: &OperationId,
        checkpoint: OperationJournalStep,
        rulings: &LauncherRulings,
    ) -> (r: Result<JournalDraft, OperationJournalStoreError>)
        ensures
            result_view(r) == progress_recorded(
                self@,
                *operation_id,
                checkpoint@,
                rulings@,
            ),
    {
        match reject_unowned_typed_step_evidence(&checkpoint) {
            Ok(()) => {},
            Err(error) => {
                return Err(error);
            },
        }
        self.progress(operation_id, checkpoint, rulings)
    }

    /// Records a step once. To record the same step again is in order and needs no draft; another
    /// step under its name is refused.
    pub fn record_idempotent_checkpoint(
        &self,
        operation_id: &OperationId,
        checkpoint: OperationJournalStep,
        rulings: &LauncherRulings,
    ) -> (r: Result<Option<JournalDraft>, OperationJournalStoreError>)
        ensures
            optional_result_view(r) == checkpoint_recorded(
                self@,
                *operation_id,
                checkpoint@,
                rulings@,
            ),
    {
        match reject_unowned_typed_step_evidence(&checkpoint) {
            Ok(()) => {},
            Err(error) => {
                return Err(error);
            },
        }
        if self.has_retry_candidate() {
            return Err(OperationJournalStoreError::RetryRequired);
        }
        let entry = match self.visible().entry(operation_id) {
            Some(entry) => entry,
            None => {
                return Err(OperationJournalStoreError::MissingOperation);
            },
        };
        if operation_journal_status_is_terminal(entry.status) {
            return Err(OperationJournalStoreError::AlreadyTerminal);
        }
        let ghost steps = entry@.completed_steps;
        let mut same = false;
        let mut same_name = false;
        let mut i: usize = 0;
        while i < entry.completed_steps.len()
            invariant
                i <= entry.completed_steps.len(),
                steps == entry@.completed_steps,
                same == (exists|k: int| 0 <= k < i && #[trigger] steps[k] == checkpoint@),
                same_name == (exists|k: int|
                    0 <= k < i && (#[trigger] steps[k]).step_id == checkpoint@.step_id),
            decreases entry.completed_steps.len() - i,
        {
            let step = &entry.completed_steps[i];
            assert(steps[i as int] == step@);
            same = same || step.same(&checkpoint);
            same_name = same_name || step.step_id.same(&checkpoint.step_id);
            i = i + 1;
        }
        if same {
            assert(steps.contains(checkpoint@));
            return Ok(None);
        }
        assert(!steps.contains(checkpoint@)) by {
            if steps.contains(checkpoint@) {
                let k = choose|k: int| 0 <= k < steps.len() && steps[k] == checkpoint@;
                assert(steps[k] == checkpoint@);
            }
        }
        if same_name {
            return Err(OperationJournalStoreError::AlreadyExists);
        }
        match self.progress(operation_id, checkpoint, rulings) {
            Ok(draft) => Ok(Some(draft)),
            Err(error) => Err(error),
        }
    }

    /// Records what the Guardian found in an operation, which may have ended.
    pub fn record_guardian_evidence(
        &self,
        evidence: &DurableGuardianEvidence,
        rulings: &LauncherRulings,
    ) -> (r: Result<JournalDraft, OperationJournalStoreError>)
        ensures
            result_view(r) == evidence_recorded(
                self@,
                evidence@,
                rulings@,
            ),
    {
        let policy = UpdatePolicy {
            post_terminal_obligation: true,
            performance_transition: false,
            allow_expired_terminal: false,
        };
        let mut entry = match self.open_update(&evidence.operation_id, policy) {
            Ok(entry) => entry,
            Err(error) => {
                return Err(error);
            },
        };
        match apply_guardian_evidence(&mut entry, evidence) {
            Ok(()) => self.close_update(entry, policy, rulings),
            Err(error) => Err(error),
        }
    }

    fn validate_temporal_terminal_admission(
        &self,
        terminal: &ReconciliationTerminal,
        outcome: ReconciliationTerminalOutcome,
    ) -> (r: Result<(), OperationJournalStoreError>)
        ensures
            r == reconciliation_admitted(self@, terminal@, outcome),
    {
        if terminal.outcome != outcome {
            return Err(
                OperationJournalStoreError::Validation(
                    OperationJournalValidationError::ReconciliationTerminalMismatch,
                ),
            );
        }
        match self.temporal().assess(reconciliation_temporal_record(terminal)) {
            Ok(_) => Ok(()),
            Err(_) => Err(
                OperationJournalStoreError::Validation(
                    OperationJournalValidationError::InvalidReconciliationTerminal,
                ),
            ),
        }
    }

    /// Records that a reconciliation succeeded.
    pub fn record_reconciliation_success(
        &self,
        operation_id: &OperationId,
        completed_step: OperationJournalStep,
        terminal: ReconciliationTerminal,
        rulings: &LauncherRulings,
    ) -> (r: Result<JournalDraft, OperationJournalStoreError>)
        ensures
            result_view(r) == reconciliation_success_recorded(
                self@,
                *operation_id,
                completed_step@,
                terminal@,
                rulings@,
            ),
    {
        match self.validate_temporal_terminal_admission(
            &terminal,
            ReconciliationTerminalOutcome::Succeeded,
        ) {
            Ok(()) => {},
            Err(error) => {
                return Err(error);
            },
        }
        let policy = UpdatePolicy {
            post_terminal_obligation: false,
            performance_transition: false,
            allow_expired_terminal: true,
        };
        let mut entry = match self.open_update(operation_id, policy) {
            Ok(entry) => entry,
            Err(error) => {
                return Err(error);
            },
        };
        let same_attempt = match &entry.reconciliation_attempt {
            Some(attempt) => attempt.same(&terminal.attempt),
            None => false,
        };
        if !same_attempt {
            return Err(
                OperationJournalStoreError::Validation(
                    OperationJournalValidationError::ReconciliationTerminalMismatch,
                ),
            );
        }
        entry.status = OperationStatus::Succeeded;
        push_step(&mut entry, completed_step);
        entry.failure_point = None;
        entry.outcome = Some(OperationOutcome::Succeeded);
        entry.reconciliation_terminal = Some(terminal);
        self.close_update(entry, policy, rulings)
    }

    /// Records that a reconciliation failed.
    pub fn record_reconciliation_failure(
        &self,
        operation_id: &OperationId,
        failure_step: OperationJournalStep,
        failure_point: String,
        terminal: ReconciliationTerminal,
        rulings: &LauncherRulings,
    ) -> (r: Result<JournalDraft, OperationJournalStoreError>)
        ensures
            result_view(r) == reconciliation_failure_recorded(
                self@,
                *operation_id,
                failure_step@,
                failure_point@,
                terminal@,
                rulings@,
            ),
    {
        match self.validate_temporal_terminal_admission(
            &terminal,
            ReconciliationTerminalOutcome::Failed,
        ) {
            Ok(()) => {},
            Err(error) => {
                return Err(error);
            },
        }
        let policy = UpdatePolicy {
            post_terminal_obligation: false,
            performance_transition: false,
            allow_expired_terminal: true,
        };
        let mut entry = match self.open_update(operation_id, policy) {
            Ok(entry) => entry,
            Err(error) => {
                return Err(error);
            },
        };
        let same_attempt = match &entry.reconciliation_attempt {
            Some(attempt) => attempt.same(&terminal.attempt),
            None => false,
        };
        if !same_attempt {
            return Err(
                OperationJournalStoreError::Validation(
                    OperationJournalValidationError::ReconciliationTerminalMismatch,
                ),
            );
        }
        entry.status = OperationStatus::Failed;
        push_step(&mut entry, failure_step);
        entry.failure_point = Some(failure_point);
        entry.outcome = Some(OperationOutcome::Failed);
        entry.reconciliation_terminal = Some(terminal);
        self.close_update(entry, policy, rulings)
    }

    /// Records how the repair of a persisted record ended.
    pub fn record_persisted_state_repair_terminal(
        &self,
        operation_id: &OperationId,
        terminal: PersistedStateRepairTerminal,
        rulings: &LauncherRulings,
    ) -> (r: Result<JournalDraft, OperationJournalStoreError>)
        ensures
            result_view(r) == repair_end_recorded(
                self@,
                *operation_id,
                terminal@,
                rulings@,
            ),
    {
        match self.temporal().assess(persisted_state_repair_temporal_record(&terminal)) {
            Ok(_) => {},
            Err(_) => {
                return Err(
                    OperationJournalStoreError::Validation(
                        OperationJournalValidationError::InvalidPersistedStateRepair,
                    ),
                );
            },
        }
        let policy = UpdatePolicy {
            post_terminal_obligation: false,
            performance_transition: false,
            allow_expired_terminal: true,
        };
        let mut entry = match self.open_update(operation_id, policy) {
            Ok(entry) => entry,
            Err(error) => {
                return Err(error);
            },
        };
        let same_attempt = match &entry.persisted_state_repair_attempt {
            Some(attempt) => attempt.same(&terminal.attempt),
            None => false,
        };
        if !same_attempt {
            return Err(
                OperationJournalStoreError::Validation(
                    OperationJournalValidationError::PersistedStateRepairMismatch,
                ),
            );
        }
        let shape = persisted_state_repair_terminal_shape(terminal.outcome);
        let end = new_repair_end_step(&terminal);
        entry.status = shape.status;
        push_step(&mut entry, end);
        entry.failure_point = match shape.failure_point {
            Some(text) => Some(text.to_owned()),
            None => None,
        };
        entry.outcome = Some(shape.outcome);
        entry.persisted_state_repair_terminal = Some(terminal);
        self.close_update(entry, policy, rulings)
    }

    /// Records that the Guardian refused a repair.
    pub fn record_guardian_repair_refusal(
        &self,
        operation_id: &OperationId,
        skipped_step: OperationJournalStep,
        rulings: &LauncherRulings,
    ) -> (r: Result<JournalDraft, OperationJournalStoreError>)
        ensures
            result_view(r) == refusal_recorded(
                self@,
                *operation_id,
                skipped_step@,
                rulings@,
            ),
    {
        if skipped_step.result != OperationStepResult::Skipped {
            return Err(
                OperationJournalStoreError::Validation(
                    OperationJournalValidationError::ReconciliationTerminalMismatch,
                ),
            );
        }
        let policy = UpdatePolicy {
            post_terminal_obligation: false,
            performance_transition: false,
            allow_expired_terminal: false,
        };
        let mut entry = match self.open_update(operation_id, policy) {
            Ok(entry) => entry,
            Err(error) => {
                return Err(error);
            },
        };
        if entry.command != CommandKind::RepairInstance || entry.owner
            != StabilizationSystem::Guardian {
            return Err(
                OperationJournalStoreError::Validation(
                    OperationJournalValidationError::ReconciliationTerminalMismatch,
                ),
            );
        }
        entry.status = OperationStatus::Blocked;
        push_step(&mut entry, skipped_step);
        entry.failure_point = None;
        entry.outcome = Some(OperationOutcome::Blocked);
        self.close_update(entry, policy, rulings)
    }
}

} // verus!

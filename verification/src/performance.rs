//! The rules that the lifecycle of a performance operation follows.

use crate::contracts::{
    CommandKind, GuardianFactId, OperationId, OperationOutcome, OperationPhase, OperationStatus,
    OperationStepResult, OwnershipClass, PerformanceOperationAction, PerformanceRollbackTarget,
    RollbackState, StabilizationSystem, TargetKind,
};
use crate::entry::{
    OperationIntent, OperationIntentView, OperationJournalEntry, OperationJournalEntryView,
    OperationJournalStepView,
};
use crate::evidence::{
    DurableGuardianEvidence, DurableGuardianEvidenceView, TargetDescriptor, TargetDescriptorView,
};
use crate::instants::{canonical_performance_timestamp, millis_instant};
use crate::journal_errors::{OperationJournalStoreError, OperationJournalValidationError};
use crate::lifecycle::{
    PerformanceOperationIntent, PerformanceOperationIntentView, PerformanceOperationLifecycle,
    PerformanceOperationLifecycleView, PerformanceOperationPhase, PerformanceOperationPhaseView,
    PerformanceOperationPrepared, PerformanceOperationPreparedView, PerformanceOperationTerminal,
    PerformanceOperationTerminalView, PerformanceOperationTransition,
    PerformanceOperationTransitionView, PerformancePreparedProof, PerformancePreparedProofView,
};
use crate::operation_id::operation_text;
use crate::record::{contains_duplicate, list_has, list_same, opt_same, opt_view, views, Record};
use crate::rulings::{lists_text, ruled_evidence, LauncherRulings, LauncherRulingsView};
use crate::text::same_text;
use crate::tokens::{
    canonical_safe_token, is_canonical_fragment, is_canonical_safe_token, is_safe_token,
    is_sha512_text, performance_public_fragment_is_canonical, safe_token, sha512_text,
};
use vstd::prelude::*;

verus! {

/// The most artifacts that a prepared operation may speak of.
pub const MAX_PREPARED_ARTIFACTS: u64 = 1_000_000;

/// An optional text that, if it is there, stays as it is when it is made safe.
pub open spec fn optional_fragment_is_canonical(
    value: Option<Seq<char>>,
    max_chars: usize,
    rulings: LauncherRulingsView,
) -> bool {
    value matches Some(text) ==> is_canonical_fragment(text, max_chars, rulings)
}

/// Whether the action follows from what was requested.
pub open spec fn requested_action_is_consistent(intent: PerformanceOperationIntentView) -> bool {
    intent.action == intent.requested_action || (intent.requested_action
        == PerformanceOperationAction::Install && intent.action
        == PerformanceOperationAction::Remove)
}

/// Whether the target that the operation starts from fits its action and what can be rolled back.
pub open spec fn intent_identity_is_consistent(intent: PerformanceOperationIntentView) -> bool {
    match (intent.action, intent.rollback) {
        (PerformanceOperationAction::Install, RollbackState::Available) => true,
        (PerformanceOperationAction::Install, RollbackState::Unavailable) => true,
        (PerformanceOperationAction::Remove, RollbackState::Available) => {
            intent.base_target_id != "performance_composition_lock"@
        },
        (PerformanceOperationAction::Remove, RollbackState::Unavailable) => {
            intent.base_target_id == "performance_composition_lock"@
        },
        (PerformanceOperationAction::Rollback, RollbackState::Available) => {
            intent.base_target_id != "performance_rollback_snapshot"@
        },
        (PerformanceOperationAction::Rollback, RollbackState::Unavailable) => {
            intent.base_target_id == "performance_rollback_snapshot"@
        },
        _ => false,
    }
}

/// Whether an intent can be admitted.
pub open spec fn intent_is_valid(
    intent: PerformanceOperationIntentView,
    rulings: LauncherRulingsView,
) -> bool {
    &&& rulings.instance_ids.contains(intent.instance_id)
    &&& is_safe_token(intent.base_target_id, 96)
    &&& requested_action_is_consistent(intent)
    &&& intent_identity_is_consistent(intent)
    &&& optional_fragment_is_canonical(intent.game_version, 96, rulings)
    &&& optional_fragment_is_canonical(intent.loader, 96, rulings)
    &&& optional_fragment_is_canonical(intent.mode, 96, rulings)
    &&& intent.rollback_id matches Some(id) ==> is_canonical_safe_token(id, 96)
}

/// Whether the digest and the size of a plan are acceptable.
pub open spec fn graph_proof_is_valid(graph_sha512: Seq<char>, artifact_count: u64) -> bool {
    artifact_count <= MAX_PREPARED_ARTIFACTS && is_sha512_text(graph_sha512)
}

/// Whether what was established fits what the operation is to do.
pub open spec fn proof_fits_intent(
    intent: PerformanceOperationIntentView,
    prepared: PerformanceOperationPreparedView,
) -> bool {
    match prepared.proof {
        PerformancePreparedProofView::InstallPlan { graph_sha512, artifact_count, .. } => {
            &&& intent.action == PerformanceOperationAction::Install
            &&& intent.rollback == RollbackState::Available || intent.rollback
                == RollbackState::Unavailable
            &&& graph_proof_is_valid(graph_sha512, artifact_count)
        },
        PerformancePreparedProofView::RemoveCurrent { graph_sha512, artifact_count } => {
            &&& intent.action == PerformanceOperationAction::Remove
            &&& intent.rollback == RollbackState::Available
            &&& graph_proof_is_valid(graph_sha512, artifact_count)
        },
        PerformancePreparedProofView::ManagedStateAbsent {  } => {
            &&& intent.action == PerformanceOperationAction::Remove
            &&& intent.rollback == RollbackState::Unavailable
        },
        PerformancePreparedProofView::RollbackSnapshot { snapshot_id, target, artifact_count } => {
            &&& intent.action == PerformanceOperationAction::Rollback
            &&& intent.rollback == RollbackState::Available
            &&& is_canonical_safe_token(snapshot_id, 96)
            &&& artifact_count <= MAX_PREPARED_ARTIFACTS
            &&& (target == PerformanceRollbackTarget::ManagedStateAbsent) == (
            prepared.result_target_id == "performance_managed_state_absent"@)
            &&& intent.rollback_id matches Some(requested) ==> requested == snapshot_id
        },
    }
}

/// Whether a prepared operation fits its intent.
pub open spec fn prepared_is_valid(
    intent: PerformanceOperationIntentView,
    prepared: PerformanceOperationPreparedView,
) -> bool {
    &&& is_canonical_safe_token(prepared.result_target_id, 96)
    &&& prepared.result_target_id == intent.base_target_id
    &&& proof_fits_intent(intent, prepared)
}

/// What the operation had prepared when it ended.
pub open spec fn terminal_prepared(terminal: PerformanceOperationTerminalView) -> Option<
    PerformanceOperationPreparedView,
> {
    match terminal {
        PerformanceOperationTerminalView::Succeeded { prepared, .. } => Some(prepared),
        PerformanceOperationTerminalView::FailedAfterEffect { prepared, .. } => Some(prepared),
        _ => None,
    }
}

/// The error that an operation ended with.
pub open spec fn terminal_error(terminal: PerformanceOperationTerminalView) -> Option<Seq<char>> {
    match terminal {
        PerformanceOperationTerminalView::FailedBeforeEffect { error } => Some(error),
        PerformanceOperationTerminalView::FailedAfterEffect { error, .. } => Some(error),
        PerformanceOperationTerminalView::AbandonedBeforeEffect {  } => Some(
            "performance operation abandoned before effect"@,
        ),
        PerformanceOperationTerminalView::Succeeded { .. } => None,
    }
}

/// The error that goes with a phase.
pub open spec fn phase_error(phase: PerformanceOperationPhaseView) -> Option<Seq<char>> {
    match phase {
        PerformanceOperationPhaseView::AppliedUnverified { error, .. } => Some(error),
        PerformanceOperationPhaseView::TerminalIntent { terminal } => terminal_error(terminal),
        PerformanceOperationPhaseView::Terminal { terminal } => terminal_error(terminal),
        _ => None,
    }
}

/// Whether what a terminal says of its effect fits what was prepared.
pub open spec fn terminal_shape_is_valid(
    intent: PerformanceOperationIntentView,
    terminal: PerformanceOperationTerminalView,
) -> bool {
    match terminal {
        PerformanceOperationTerminalView::Succeeded { prepared, changed_target, rollback } => {
            match prepared.proof {
                PerformancePreparedProofView::ManagedStateAbsent {  } => {
                    intent.action == PerformanceOperationAction::Remove && rollback
                        == RollbackState::Unavailable && !changed_target
                },
                PerformancePreparedProofView::InstallPlan { .. } => {
                    intent.action == PerformanceOperationAction::Install && rollback == (
                    if changed_target {
                        RollbackState::Available
                    } else {
                        intent.rollback
                    })
                },
                PerformancePreparedProofView::RemoveCurrent { .. } => {
                    intent.action == PerformanceOperationAction::Remove && rollback
                        == RollbackState::Available && changed_target
                },
                PerformancePreparedProofView::RollbackSnapshot { .. } => {
                    intent.action == PerformanceOperationAction::Rollback && rollback
                        == RollbackState::Applied && changed_target
                },
            }
        },
        PerformanceOperationTerminalView::FailedAfterEffect { prepared, rollback, .. } => {
            match prepared.proof {
                PerformancePreparedProofView::ManagedStateAbsent {  } => false,
                PerformancePreparedProofView::InstallPlan { .. } => {
                    intent.action == PerformanceOperationAction::Install && (rollback
                        == RollbackState::Available || rollback == RollbackState::Unavailable)
                },
                PerformancePreparedProofView::RemoveCurrent { .. } => {
                    intent.action == PerformanceOperationAction::Remove && (rollback
                        == RollbackState::Available || rollback == RollbackState::Unavailable)
                },
                PerformancePreparedProofView::RollbackSnapshot { .. } => {
                    intent.action == PerformanceOperationAction::Rollback && rollback
                        != RollbackState::NotApplicable
                },
            }
        },
        PerformanceOperationTerminalView::FailedBeforeEffect { .. } => true,
        PerformanceOperationTerminalView::AbandonedBeforeEffect {  } => true,
    }
}

/// Whether an operation with this intent can end in this way.
pub open spec fn terminal_is_valid(
    intent: PerformanceOperationIntentView,
    terminal: PerformanceOperationTerminalView,
    rulings: LauncherRulingsView,
) -> bool {
    &&& terminal_prepared(terminal) matches Some(prepared) ==> prepared_is_valid(intent, prepared)
    &&& optional_fragment_is_canonical(terminal_error(terminal), 160, rulings)
    &&& terminal_shape_is_valid(intent, terminal)
}

/// What can be rolled back once an operation has ended.
pub open spec fn terminal_rollback(
    admitted: RollbackState,
    terminal: PerformanceOperationTerminalView,
) -> RollbackState {
    match terminal {
        PerformanceOperationTerminalView::Succeeded { rollback, .. } => rollback,
        PerformanceOperationTerminalView::FailedAfterEffect { rollback, .. } => rollback,
        _ => admitted,
    }
}

/// Whether an operation with this intent can be in this phase.
pub open spec fn phase_is_valid(
    intent: PerformanceOperationIntentView,
    phase: PerformanceOperationPhaseView,
    rulings: LauncherRulingsView,
) -> bool {
    match phase {
        PerformanceOperationPhaseView::Accepted {  } => true,
        PerformanceOperationPhaseView::Planning {  } => true,
        PerformanceOperationPhaseView::Prepared { prepared } => prepared_is_valid(intent, prepared),
        PerformanceOperationPhaseView::EffectStarted { prepared } => {
            prepared_is_valid(intent, prepared)
        },
        PerformanceOperationPhaseView::AppliedUnverified { prepared, error } => {
            prepared_is_valid(intent, prepared) && is_canonical_fragment(error, 160, rulings)
        },
        PerformanceOperationPhaseView::TerminalIntent { terminal } => {
            terminal_is_valid(intent, terminal, rulings)
        },
        PerformanceOperationPhaseView::Terminal { terminal } => {
            terminal_is_valid(intent, terminal, rulings)
        },
    }
}

/// The status of an operation in a phase.
pub open spec fn phase_status(phase: PerformanceOperationPhaseView) -> OperationStatus {
    match phase {
        PerformanceOperationPhaseView::Accepted {  } => OperationStatus::Planned,
        PerformanceOperationPhaseView::Terminal { terminal } => match terminal {
            PerformanceOperationTerminalView::Succeeded { .. } => OperationStatus::Succeeded,
            PerformanceOperationTerminalView::AbandonedBeforeEffect {  } => {
                OperationStatus::Cancelled
            },
            _ => OperationStatus::Failed,
        },
        _ => OperationStatus::Running,
    }
}

/// The outcome of an operation in a phase.
pub open spec fn phase_outcome(phase: PerformanceOperationPhaseView) -> Option<OperationOutcome> {
    match phase {
        PerformanceOperationPhaseView::Terminal { terminal } => match terminal {
            PerformanceOperationTerminalView::Succeeded { .. } => Some(OperationOutcome::Succeeded),
            PerformanceOperationTerminalView::AbandonedBeforeEffect {  } => Some(
                OperationOutcome::Cancelled,
            ),
            _ => Some(OperationOutcome::Failed),
        },
        _ => None,
    }
}

/// The failure point of an operation in a phase.
pub open spec fn phase_failure_point(phase: PerformanceOperationPhaseView) -> Option<Seq<char>> {
    match phase {
        PerformanceOperationPhaseView::Terminal { terminal } => match terminal {
            PerformanceOperationTerminalView::Succeeded { .. } => None,
            PerformanceOperationTerminalView::AbandonedBeforeEffect {  } => Some(
                "performance_operation_abandoned_before_effect"@,
            ),
            _ => Some("performance_operation_failed"@),
        },
        _ => None,
    }
}

/// What can be rolled back in a phase.
pub open spec fn phase_rollback(
    admitted: RollbackState,
    phase: PerformanceOperationPhaseView,
) -> RollbackState {
    match phase {
        PerformanceOperationPhaseView::Terminal { terminal } => terminal_rollback(
            admitted,
            terminal,
        ),
        _ => admitted,
    }
}

/// The lifecycle of an entry that is about a performance operation.
pub open spec fn lifecycle_of(entry: OperationJournalEntryView) -> Option<
    PerformanceOperationLifecycleView,
> {
    match entry.intent {
        OperationIntentView::Performance(lifecycle) => Some(lifecycle),
        OperationIntentView::Generic {  } => None,
    }
}

/// The instance that a performance operation is about, among the targets of its entry.
pub open spec fn names_target(
    targets: Seq<TargetDescriptorView>,
    system: StabilizationSystem,
    kind: TargetKind,
    id: Seq<char>,
    ownership: OwnershipClass,
) -> bool {
    targets.contains(TargetDescriptorView { system, kind, id, ownership })
}

/// Whether the one completed step of a performance operation holds Guardian facts and nothing else.
pub open spec fn is_evidence_step(step: OperationJournalStepView) -> bool {
    &&& step.step_id == "guardian_evidence"@
    &&& step.phase == OperationPhase::Running
    &&& step.result == OperationStepResult::Completed
    &&& step.changed_target is None
    &&& step.generated_facts.len() == 0
    &&& step.metrics is None
    &&& step.rollback == RollbackState::NotApplicable
    &&& step.guardian_fact_ids.len() > 0
    &&& step.guardian_fact_ids.no_duplicates()
}

/// Whether the Guardian evidence of a performance operation is in its one form.
pub open spec fn guardian_evidence_is_canonical(entry: OperationJournalEntryView) -> bool {
    &&& entry.guardian_diagnosis_ids.no_duplicates()
    &&& entry.guardian_install_terminal is None
    &&& entry.completed_steps.len() == 0 || (entry.completed_steps.len() == 1 && is_evidence_step(
        entry.completed_steps[0],
    ))
}

/// Whether an entry is the journal of a performance operation with this lifecycle.
pub open spec fn lifecycle_is_valid(
    entry: OperationJournalEntryView,
    lifecycle: PerformanceOperationLifecycleView,
    rulings: LauncherRulingsView,
) -> bool {
    &&& intent_is_valid(lifecycle.intent, rulings)
    &&& match (millis_instant(lifecycle.created_at), millis_instant(lifecycle.updated_at)) {
        (Some(created_at), Some(updated_at)) => !updated_at.is_before(created_at),
        _ => false,
    }
    &&& entry.journal_id == "journal-"@ + operation_text(entry.operation_id)
    &&& entry.parent_operation_id is None
    &&& entry.command == CommandKind::ApplyPerformancePlan
    &&& entry.owner == StabilizationSystem::Application
    &&& entry.ownership == OwnershipClass::CompositionManaged
    &&& entry.rollback == phase_rollback(lifecycle.intent.rollback, lifecycle.phase)
    &&& entry.targets.len() == 2
    &&& names_target(
        entry.targets,
        StabilizationSystem::State,
        TargetKind::Instance,
        lifecycle.intent.instance_id,
        OwnershipClass::CompositionManaged,
    )
    &&& names_target(
        entry.targets,
        StabilizationSystem::Performance,
        TargetKind::PerformanceComposition,
        lifecycle.intent.base_target_id,
        OwnershipClass::CompositionManaged,
    )
    &&& entry.planned_steps.len() == 0
    &&& guardian_evidence_is_canonical(entry)
    &&& phase_is_valid(lifecycle.intent, lifecycle.phase, rulings)
    &&& entry.status == phase_status(lifecycle.phase)
    &&& entry.outcome == phase_outcome(lifecycle.phase)
    &&& entry.failure_point == phase_failure_point(lifecycle.phase)
}

/// The verdict on a performance lifecycle.
pub open spec fn lifecycle_verdict(valid: bool) -> Result<(), OperationJournalValidationError> {
    if valid {
        Ok(())
    } else {
        Err(OperationJournalValidationError::InvalidPerformanceLifecycle)
    }
}

fn lifecycle_result(valid: bool) -> (r: Result<(), OperationJournalValidationError>)
    ensures
        r == lifecycle_verdict(valid),
{
    if valid {
        Ok(())
    } else {
        Err(OperationJournalValidationError::InvalidPerformanceLifecycle)
    }
}

fn optional_fragment_canonical(
    value: &Option<String>,
    max_chars: usize,
    rulings: &LauncherRulings,
) -> (r: bool)
    ensures
        r == optional_fragment_is_canonical(opt_view(*value), max_chars, rulings@),
{
    match value {
        Some(text) => performance_public_fragment_is_canonical(text.as_str(), max_chars, rulings),
        None => true,
    }
}

/// Whether the action follows from what was requested.
pub fn performance_requested_action_is_consistent(intent: &PerformanceOperationIntent) -> (r: bool)
    ensures
        r == requested_action_is_consistent(intent@),
{
    match (intent.requested_action, intent.action) {
        (PerformanceOperationAction::Install, PerformanceOperationAction::Install) => true,
        (PerformanceOperationAction::Install, PerformanceOperationAction::Remove) => true,
        (PerformanceOperationAction::Remove, PerformanceOperationAction::Remove) => true,
        (PerformanceOperationAction::Rollback, PerformanceOperationAction::Rollback) => true,
        _ => false,
    }
}

/// Whether the target that the operation starts from fits its action and what can be rolled back.
pub fn performance_intent_identity_is_consistent(intent: &PerformanceOperationIntent) -> (r: bool)
    ensures
        r == intent_identity_is_consistent(intent@),
{
    let base = intent.base_target_id.as_str();
    match (intent.action, intent.rollback) {
        (PerformanceOperationAction::Install, RollbackState::Available) => true,
        (PerformanceOperationAction::Install, RollbackState::Unavailable) => true,
        (PerformanceOperationAction::Remove, RollbackState::Available) => {
            !same_text(base, "performance_composition_lock")
        },
        (PerformanceOperationAction::Remove, RollbackState::Unavailable) => {
            same_text(base, "performance_composition_lock")
        },
        (PerformanceOperationAction::Rollback, RollbackState::Available) => {
            !same_text(base, "performance_rollback_snapshot")
        },
        (PerformanceOperationAction::Rollback, RollbackState::Unavailable) => {
            same_text(base, "performance_rollback_snapshot")
        },
        _ => false,
    }
}

/// Checks that an intent can be admitted.
pub fn validate_performance_intent(
    intent: &PerformanceOperationIntent,
    rulings: &LauncherRulings,
) -> (r: Result<(), OperationJournalValidationError>)
    ensures
        r == lifecycle_verdict(intent_is_valid(intent@, rulings@)),
{
    let rollback_id_is_safe = match &intent.rollback_id {
        Some(id) => canonical_safe_token(id.as_str(), 96),
        None => true,
    };
    lifecycle_result(
        lists_text(&rulings.instance_ids, intent.instance_id.as_str()) && safe_token(
            intent.base_target_id.as_str(),
            96,
        ) && performance_requested_action_is_consistent(intent)
            && performance_intent_identity_is_consistent(intent) && optional_fragment_canonical(
            &intent.game_version,
            96,
            rulings,
        ) && optional_fragment_canonical(&intent.loader, 96, rulings) && optional_fragment_canonical(
            &intent.mode,
            96,
            rulings,
        ) && rollback_id_is_safe,
    )
}

/// Whether the digest and the size of a plan are acceptable.
pub fn performance_graph_proof_is_valid(graph_sha512: &str, artifact_count: u64) -> (r: bool)
    ensures
        r == graph_proof_is_valid(graph_sha512@, artifact_count),
{
    artifact_count <= MAX_PREPARED_ARTIFACTS && sha512_text(graph_sha512)
}

/// Checks that a prepared operation fits its intent.
pub fn validate_performance_prepared(
    intent: &PerformanceOperationIntent,
    prepared: &PerformanceOperationPrepared,
) -> (r: Result<(), OperationJournalValidationError>)
    ensures
        r == lifecycle_verdict(prepared_is_valid(intent@, prepared@)),
{
    if !canonical_safe_token(prepared.result_target_id.as_str(), 96) || !same_text(
        prepared.result_target_id.as_str(),
        intent.base_target_id.as_str(),
    ) {
        return lifecycle_result(false);
    }
    let valid = match (intent.action, intent.rollback, &prepared.proof) {
        (
            PerformanceOperationAction::Install,
            RollbackState::Available,
            PerformancePreparedProof::InstallPlan { graph_sha512, artifact_count, .. },
        ) => performance_graph_proof_is_valid(graph_sha512.as_str(), *artifact_count),
        (
            PerformanceOperationAction::Install,
            RollbackState::Unavailable,
            PerformancePreparedProof::InstallPlan { graph_sha512, artifact_count, .. },
        ) => performance_graph_proof_is_valid(graph_sha512.as_str(), *artifact_count),
        (
            PerformanceOperationAction::Remove,
            RollbackState::Available,
            PerformancePreparedProof::RemoveCurrent { graph_sha512, artifact_count },
        ) => performance_graph_proof_is_valid(graph_sha512.as_str(), *artifact_count),
        (
            PerformanceOperationAction::Remove,
            RollbackState::Unavailable,
            PerformancePreparedProof::ManagedStateAbsent {  },
        ) => true,
        (
            PerformanceOperationAction::Rollback,
            RollbackState::Available,
            PerformancePreparedProof::RollbackSnapshot { snapshot_id, target, artifact_count },
        ) => {
            let target_is_absent = same_text(
                prepared.result_target_id.as_str(),
                "performance_managed_state_absent",
            );
            let target_fits = match target {
                PerformanceRollbackTarget::ManagedStateAbsent => target_is_absent,
                PerformanceRollbackTarget::ManagedComposition => !target_is_absent,
            };
            let snapshot_is_requested = match &intent.rollback_id {
                Some(requested) => requested.same(snapshot_id),
                None => true,
            };
            canonical_safe_token(snapshot_id.as_str(), 96) && *artifact_count
                <= MAX_PREPARED_ARTIFACTS && target_fits && snapshot_is_requested
        },
        _ => false,
    };
    lifecycle_result(valid)
}

/// What the operation had prepared when it ended.
pub fn performance_terminal_prepared(terminal: &PerformanceOperationTerminal) -> (r: Option<
    &PerformanceOperationPrepared,
>)
    ensures
        (match r {
            Some(prepared) => Some(prepared@),
            None => None,
        }) == terminal_prepared(terminal@),
{
    match terminal {
        PerformanceOperationTerminal::Succeeded { prepared, .. } => Some(prepared),
        PerformanceOperationTerminal::FailedAfterEffect { prepared, .. } => Some(prepared),
        PerformanceOperationTerminal::FailedBeforeEffect { .. } => None,
        PerformanceOperationTerminal::AbandonedBeforeEffect {  } => None,
    }
}

/// The error that an operation ended with.
pub fn performance_terminal_error(terminal: &PerformanceOperationTerminal) -> (r: Option<String>)
    ensures
        opt_view(r) == terminal_error(terminal@),
{
    match terminal {
        PerformanceOperationTerminal::FailedBeforeEffect { error } => Some(error.duplicate()),
        PerformanceOperationTerminal::FailedAfterEffect { error, .. } => Some(error.duplicate()),
        PerformanceOperationTerminal::AbandonedBeforeEffect {  } => Some(
            "performance operation abandoned before effect".to_owned(),
        ),
        PerformanceOperationTerminal::Succeeded { .. } => None,
    }
}

/// The error that goes with a phase.
pub fn performance_phase_error(phase: &PerformanceOperationPhase) -> (r: Option<String>)
    ensures
        opt_view(r) == phase_error(phase@),
{
    match phase {
        PerformanceOperationPhase::AppliedUnverified { error, .. } => Some(error.duplicate()),
        PerformanceOperationPhase::TerminalIntent { terminal } => performance_terminal_error(
            terminal,
        ),
        PerformanceOperationPhase::Terminal { terminal } => performance_terminal_error(terminal),
        _ => None,
    }
}

/// Checks that an operation with this intent can end in this way.
pub fn validate_performance_terminal(
    intent: &PerformanceOperationIntent,
    terminal: &PerformanceOperationTerminal,
    rulings: &LauncherRulings,
) -> (r: Result<(), OperationJournalValidationError>)
    ensures
        r == lifecycle_verdict(terminal_is_valid(intent@, terminal@, rulings@)),
{
    match performance_terminal_prepared(terminal) {
        Some(prepared) => {
            if validate_performance_prepared(intent, prepared).is_err() {
                return lifecycle_result(false);
            }
        },
        None => {},
    }
    let error = performance_terminal_error(terminal);
    if !optional_fragment_canonical(&error, 160, rulings) {
        return lifecycle_result(false);
    }
    let valid_shape = match terminal {
        PerformanceOperationTerminal::Succeeded { prepared, changed_target, rollback } => match (
            &prepared.proof,
            intent.action,
        ) {
            (
                PerformancePreparedProof::ManagedStateAbsent {  },
                PerformanceOperationAction::Remove,
            ) => *rollback == RollbackState::Unavailable && !*changed_target,
            (
                PerformancePreparedProof::InstallPlan { .. },
                PerformanceOperationAction::Install,
            ) => {
                (*changed_target && *rollback == RollbackState::Available) || (!*changed_target
                    && *rollback == intent.rollback)
            },
            (
                PerformancePreparedProof::RemoveCurrent { .. },
                PerformanceOperationAction::Remove,
            ) => *rollback == RollbackState::Available && *changed_target,
            (
                PerformancePreparedProof::RollbackSnapshot { .. },
                PerformanceOperationAction::Rollback,
            ) => *rollback == RollbackState::Applied && *changed_target,
            _ => false,
        },
        PerformanceOperationTerminal::FailedAfterEffect { prepared, rollback, .. } => match (
            &prepared.proof,
            intent.action,
        ) {
            (
                PerformancePreparedProof::InstallPlan { .. },
                PerformanceOperationAction::Install,
            ) => *rollback == RollbackState::Available || *rollback == RollbackState::Unavailable,
            (
                PerformancePreparedProof::RemoveCurrent { .. },
                PerformanceOperationAction::Remove,
            ) => *rollback == RollbackState::Available || *rollback == RollbackState::Unavailable,
            (
                PerformancePreparedProof::RollbackSnapshot { .. },
                PerformanceOperationAction::Rollback,
            ) => *rollback == RollbackState::Available || *rollback == RollbackState::Unavailable
                || *rollback == RollbackState::Applied,
            _ => false,
        },
        PerformanceOperationTerminal::FailedBeforeEffect { .. } => true,
        PerformanceOperationTerminal::AbandonedBeforeEffect {  } => true,
    };
    lifecycle_result(valid_shape)
}

/// What can be rolled back once an operation has ended.
pub fn performance_terminal_rollback(
    admitted_rollback: RollbackState,
    terminal: &PerformanceOperationTerminal,
) -> (r: RollbackState)
    ensures
        r == terminal_rollback(admitted_rollback, terminal@),
{
    match terminal {
        PerformanceOperationTerminal::Succeeded { rollback, .. } => *rollback,
        PerformanceOperationTerminal::FailedAfterEffect { rollback, .. } => *rollback,
        PerformanceOperationTerminal::FailedBeforeEffect { .. } => admitted_rollback,
        PerformanceOperationTerminal::AbandonedBeforeEffect {  } => admitted_rollback,
    }
}

/// The text that names the journal of an operation.
pub fn journal_text(operation_id: &OperationId) -> (r: String)
    ensures
        r@ == "journal-"@ + operation_text(*operation_id),
{
    let mut text = "journal-".to_owned();
    let id = operation_id.text();
    text.append(id.as_str());
    text
}

/// Whether a list of targets holds the target with these parts.
pub fn has_target(
    targets: &Vec<TargetDescriptor>,
    system: StabilizationSystem,
    kind: TargetKind,
    id: &str,
    ownership: OwnershipClass,
) -> (r: bool)
    ensures
        r == names_target(views(targets@), system, kind, id@, ownership),
{
    let target = TargetDescriptor { system, kind, id: id.to_owned(), ownership };
    list_has(targets, &target)
}

/// Whether the Guardian evidence of a performance operation is in its one form.
pub fn performance_guardian_evidence_is_canonical(entry: &OperationJournalEntry) -> (r: bool)
    ensures
        r == guardian_evidence_is_canonical(entry@),
{
    proof {
        assert(views(entry.guardian_diagnosis_ids@) =~= entry.guardian_diagnosis_ids@);
    }
    if contains_duplicate(&entry.guardian_diagnosis_ids) || entry.guardian_install_terminal.is_some() {
        return false;
    }
    if entry.completed_steps.len() == 0 {
        return true;
    }
    if entry.completed_steps.len() != 1 {
        return false;
    }
    let step = &entry.completed_steps[0];
    proof {
        assert(entry@.completed_steps[0] == step@);
        assert(views(step.guardian_fact_ids@) =~= step.guardian_fact_ids@);
    }
    same_text(step.step_id.as_str(), "guardian_evidence") && step.phase == OperationPhase::Running
        && step.result == OperationStepResult::Completed && step.changed_target.is_none()
        && step.generated_facts.len() == 0 && step.metrics.is_none() && step.rollback
        == RollbackState::NotApplicable && step.guardian_fact_ids.len() > 0 && !contains_duplicate(
        &step.guardian_fact_ids,
    )
}

/// The status of an operation in a phase.
fn status_of_phase(phase: &PerformanceOperationPhase) -> (r: OperationStatus)
    ensures
        r == phase_status(phase@),
{
    match phase {
        PerformanceOperationPhase::Accepted {  } => OperationStatus::Planned,
        PerformanceOperationPhase::Terminal { terminal } => match terminal {
            PerformanceOperationTerminal::Succeeded { .. } => OperationStatus::Succeeded,
            PerformanceOperationTerminal::AbandonedBeforeEffect {  } => OperationStatus::Cancelled,
            PerformanceOperationTerminal::FailedBeforeEffect { .. } => OperationStatus::Failed,
            PerformanceOperationTerminal::FailedAfterEffect { .. } => OperationStatus::Failed,
        },
        _ => OperationStatus::Running,
    }
}

/// The outcome of an operation in a phase.
fn outcome_of_phase(phase: &PerformanceOperationPhase) -> (r: Option<OperationOutcome>)
    ensures
        r == phase_outcome(phase@),
{
    match phase {
        PerformanceOperationPhase::Terminal { terminal } => match terminal {
            PerformanceOperationTerminal::Succeeded { .. } => Some(OperationOutcome::Succeeded),
            PerformanceOperationTerminal::AbandonedBeforeEffect {  } => Some(
                OperationOutcome::Cancelled,
            ),
            PerformanceOperationTerminal::FailedBeforeEffect { .. } => Some(
                OperationOutcome::Failed,
            ),
            PerformanceOperationTerminal::FailedAfterEffect { .. } => Some(
                OperationOutcome::Failed,
            ),
        },
        _ => None,
    }
}

/// The failure point of an operation in a phase.
fn failure_point_of_phase(phase: &PerformanceOperationPhase) -> (r: Option<String>)
    ensures
        opt_view(r) == phase_failure_point(phase@),
{
    match phase {
        PerformanceOperationPhase::Terminal { terminal } => match terminal {
            PerformanceOperationTerminal::Succeeded { .. } => None,
            PerformanceOperationTerminal::AbandonedBeforeEffect {  } => Some(
                "performance_operation_abandoned_before_effect".to_owned(),
            ),
            PerformanceOperationTerminal::FailedBeforeEffect { .. } => Some(
                "performance_operation_failed".to_owned(),
            ),
            PerformanceOperationTerminal::FailedAfterEffect { .. } => Some(
                "performance_operation_failed".to_owned(),
            ),
        },
        _ => None,
    }
}

/// What can be rolled back in a phase.
fn rollback_of_phase(admitted: RollbackState, phase: &PerformanceOperationPhase) -> (r:
    RollbackState)
    ensures
        r == phase_rollback(admitted, phase@),
{
    match phase {
        PerformanceOperationPhase::Terminal { terminal } => performance_terminal_rollback(
            admitted,
            terminal,
        ),
        _ => admitted,
    }
}

/// Whether an operation with this intent can be in this phase.
fn phase_fits(
    intent: &PerformanceOperationIntent,
    phase: &PerformanceOperationPhase,
    rulings: &LauncherRulings,
) -> (r: bool)
    ensures
        r == phase_is_valid(intent@, phase@, rulings@),
{
    match phase {
        PerformanceOperationPhase::Accepted {  } => true,
        PerformanceOperationPhase::Planning {  } => true,
        PerformanceOperationPhase::Prepared { prepared } => validate_performance_prepared(
            intent,
            prepared,
        ).is_ok(),
        PerformanceOperationPhase::EffectStarted { prepared } => validate_performance_prepared(
            intent,
            prepared,
        ).is_ok(),
        PerformanceOperationPhase::AppliedUnverified { prepared, error } => {
            validate_performance_prepared(intent, prepared).is_ok()
                && performance_public_fragment_is_canonical(error.as_str(), 160, rulings)
        },
        PerformanceOperationPhase::TerminalIntent { terminal } => validate_performance_terminal(
            intent,
            terminal,
            rulings,
        ).is_ok(),
        PerformanceOperationPhase::Terminal { terminal } => validate_performance_terminal(
            intent,
            terminal,
            rulings,
        ).is_ok(),
    }
}

/// Checks that an entry is the journal of a performance operation with this lifecycle.
pub fn validate_performance_lifecycle(
    entry: &OperationJournalEntry,
    lifecycle: &PerformanceOperationLifecycle,
    rulings: &LauncherRulings,
) -> (r: Result<(), OperationJournalValidationError>)
    ensures
        r == lifecycle_verdict(lifecycle_is_valid(entry@, lifecycle@, rulings@)),
{
    if validate_performance_intent(&lifecycle.intent, rulings).is_err() {
        return lifecycle_result(false);
    }
    let (created_at, updated_at) = match (
        canonical_performance_timestamp(lifecycle.created_at.as_str()),
        canonical_performance_timestamp(lifecycle.updated_at.as_str()),
    ) {
        (Some(created_at), Some(updated_at)) => (created_at, updated_at),
        _ => {
            return lifecycle_result(false);
        },
    };
    let journal_id = journal_text(&entry.operation_id);
    if updated_at.before(&created_at) || !entry.journal_id.text.same(&journal_id)
        || entry.parent_operation_id.is_some() || entry.command
        != CommandKind::ApplyPerformancePlan || entry.owner != StabilizationSystem::Application
        || entry.ownership != OwnershipClass::CompositionManaged || entry.rollback
        != rollback_of_phase(lifecycle.intent.rollback, &lifecycle.phase) || entry.targets.len()
        != 2 || !has_target(
        &entry.targets,
        StabilizationSystem::State,
        TargetKind::Instance,
        lifecycle.intent.instance_id.as_str(),
        OwnershipClass::CompositionManaged,
    ) || !has_target(
        &entry.targets,
        StabilizationSystem::Performance,
        TargetKind::PerformanceComposition,
        lifecycle.intent.base_target_id.as_str(),
        OwnershipClass::CompositionManaged,
    ) || entry.planned_steps.len() != 0 || !performance_guardian_evidence_is_canonical(entry) {
        return lifecycle_result(false);
    }
    if !phase_fits(&lifecycle.intent, &lifecycle.phase, rulings) {
        return lifecycle_result(false);
    }
    let failure_point = failure_point_of_phase(&lifecycle.phase);
    let outcome = outcome_of_phase(&lifecycle.phase);
    lifecycle_result(
        entry.status == status_of_phase(&lifecycle.phase) && opt_same(&entry.outcome, &outcome)
            && opt_same(&entry.failure_point, &failure_point),
    )
}

/// What an error reads like once it is made safe, with something general where nothing remains.
pub open spec fn sanitized_error(
    error: Seq<char>,
    general: Seq<char>,
    rulings: LauncherRulingsView,
) -> Seq<char> {
    match ruled_evidence(rulings.sanitized_evidence, error, 160) {
        Some(text) => text,
        None => general,
    }
}

/// A terminal whose error is made safe.
pub open spec fn sanitized_terminal(
    terminal: PerformanceOperationTerminalView,
    rulings: LauncherRulingsView,
) -> PerformanceOperationTerminalView {
    match terminal {
        PerformanceOperationTerminalView::FailedBeforeEffect { error } => {
            PerformanceOperationTerminalView::FailedBeforeEffect {
                error: sanitized_error(error, "performance operation failed"@, rulings),
            }
        },
        PerformanceOperationTerminalView::FailedAfterEffect {
            prepared,
            changed_target,
            rollback,
            error,
        } => PerformanceOperationTerminalView::FailedAfterEffect {
            prepared,
            changed_target,
            rollback,
            error: sanitized_error(error, "performance operation failed"@, rulings),
        },
        _ => terminal,
    }
}

/// A transition whose error is made safe.
pub open spec fn sanitized_transition(
    transition: PerformanceOperationTransitionView,
    rulings: LauncherRulingsView,
) -> PerformanceOperationTransitionView {
    match transition {
        PerformanceOperationTransitionView::MarkAppliedUnverified(error) => {
            PerformanceOperationTransitionView::MarkAppliedUnverified(
                sanitized_error(error, "performance operation outcome is unverified"@, rulings),
            )
        },
        PerformanceOperationTransitionView::RequestTerminal(terminal) => {
            PerformanceOperationTransitionView::RequestTerminal(
                sanitized_terminal(terminal, rulings),
            )
        },
        PerformanceOperationTransitionView::CommitTerminal(terminal) => {
            PerformanceOperationTransitionView::CommitTerminal(
                sanitized_terminal(terminal, rulings),
            )
        },
        _ => transition,
    }
}

/// Whether what a transition carries fits the intent.
pub open spec fn transition_fits(
    intent: PerformanceOperationIntentView,
    transition: PerformanceOperationTransitionView,
    rulings: LauncherRulingsView,
) -> bool {
    match transition {
        PerformanceOperationTransitionView::Prepared(prepared) => prepared_is_valid(
            intent,
            prepared,
        ),
        PerformanceOperationTransitionView::RequestTerminal(terminal) => terminal_is_valid(
            intent,
            terminal,
            rulings,
        ),
        PerformanceOperationTransitionView::CommitTerminal(terminal) => terminal_is_valid(
            intent,
            terminal,
            rulings,
        ),
        _ => true,
    }
}

fn sanitize_error(error: &str, general: &str, rulings: &LauncherRulings) -> (r: String)
    ensures
        r@ == sanitized_error(error@, general@, rulings@),
{
    match rulings.sanitize_evidence_text(error, 160) {
        Some(text) => text,
        None => general.to_owned(),
    }
}

/// Makes the error of a terminal safe and checks the terminal.
pub fn sanitize_performance_terminal(
    intent: &PerformanceOperationIntent,
    terminal: PerformanceOperationTerminal,
    rulings: &LauncherRulings,
) -> (r: Result<PerformanceOperationTerminal, OperationJournalValidationError>)
    ensures
        match r {
            Ok(safe) => {
                &&& safe@ == sanitized_terminal(terminal@, rulings@)
                &&& terminal_is_valid(intent@, safe@, rulings@)
            },
            Err(error) => {
                &&& error == OperationJournalValidationError::InvalidPerformanceLifecycle
                &&& !terminal_is_valid(intent@, sanitized_terminal(terminal@, rulings@), rulings@)
            },
        },
{
    let safe = match terminal {
        PerformanceOperationTerminal::FailedBeforeEffect { error } => {
            PerformanceOperationTerminal::FailedBeforeEffect {
                error: sanitize_error(error.as_str(), "performance operation failed", rulings),
            }
        },
        PerformanceOperationTerminal::FailedAfterEffect {
            prepared,
            changed_target,
            rollback,
            error,
        } => PerformanceOperationTerminal::FailedAfterEffect {
            prepared,
            changed_target,
            rollback,
            error: sanitize_error(error.as_str(), "performance operation failed", rulings),
        },
        other => other,
    };
    match validate_performance_terminal(intent, &safe, rulings) {
        Ok(()) => Ok(safe),
        Err(error) => Err(error),
    }
}

/// Makes the error of a transition safe and checks what the transition carries.
pub fn sanitize_performance_transition(
    intent: &PerformanceOperationIntent,
    transition: PerformanceOperationTransition,
    rulings: &LauncherRulings,
) -> (r: Result<PerformanceOperationTransition, OperationJournalStoreError>)
    ensures
        match r {
            Ok(safe) => {
                &&& safe@ == sanitized_transition(transition@, rulings@)
                &&& transition_fits(intent@, safe@, rulings@)
            },
            Err(error) => {
                &&& error == OperationJournalStoreError::Validation(
                    OperationJournalValidationError::InvalidPerformanceLifecycle,
                )
                &&& !transition_fits(intent@, sanitized_transition(transition@, rulings@), rulings@)
            },
        },
{
    match transition {
        PerformanceOperationTransition::Prepared(prepared) => {
            match validate_performance_prepared(intent, &prepared) {
                Ok(()) => Ok(PerformanceOperationTransition::Prepared(prepared)),
                Err(error) => Err(OperationJournalStoreError::Validation(error)),
            }
        },
        PerformanceOperationTransition::MarkAppliedUnverified(error) => Ok(
            PerformanceOperationTransition::MarkAppliedUnverified(
                sanitize_error(
                    error.as_str(),
                    "performance operation outcome is unverified",
                    rulings,
                ),
            ),
        ),
        PerformanceOperationTransition::RequestTerminal(terminal) => {
            match sanitize_performance_terminal(intent, terminal, rulings) {
                Ok(safe) => Ok(PerformanceOperationTransition::RequestTerminal(safe)),
                Err(error) => Err(OperationJournalStoreError::Validation(error)),
            }
        },
        PerformanceOperationTransition::CommitTerminal(terminal) => {
            match sanitize_performance_terminal(intent, terminal, rulings) {
                Ok(safe) => Ok(PerformanceOperationTransition::CommitTerminal(safe)),
                Err(error) => Err(OperationJournalStoreError::Validation(error)),
            }
        },
        other => Ok(other),
    }
}

/// Whether a terminal reports on what was prepared, after the effect.
pub open spec fn reports_on(
    terminal: PerformanceOperationTerminalView,
    prepared: PerformanceOperationPreparedView,
) -> bool {
    terminal_prepared(terminal) == Some(prepared)
}

/// Whether a terminal says that nothing was touched.
pub open spec fn ends_before_effect(terminal: PerformanceOperationTerminalView) -> bool {
    terminal is FailedBeforeEffect || terminal is AbandonedBeforeEffect
}

/// Whether a terminal says that what was prepared was already in place.
pub open spec fn finds_nothing_to_do(
    terminal: PerformanceOperationTerminalView,
    prepared: PerformanceOperationPreparedView,
) -> bool {
    &&& terminal matches PerformanceOperationTerminalView::Succeeded {
        prepared: reported,
        changed_target,
        ..
    } && reported == prepared && !changed_target
    &&& prepared.proof is ManagedStateAbsent || prepared.proof is InstallPlan
}

/// The phase that a transition leads to, if it is allowed.
pub open spec fn next_phase(
    phase: PerformanceOperationPhaseView,
    transition: PerformanceOperationTransitionView,
) -> Option<PerformanceOperationPhaseView> {
    match transition {
        PerformanceOperationTransitionView::Planning => if phase is Accepted {
            Some(PerformanceOperationPhaseView::Planning {  })
        } else {
            None
        },
        PerformanceOperationTransitionView::Prepared(prepared) => if phase is Planning {
            Some(PerformanceOperationPhaseView::Prepared { prepared })
        } else {
            None
        },
        PerformanceOperationTransitionView::EffectStarted => match phase {
            PerformanceOperationPhaseView::Prepared { prepared } => if prepared.proof
                is ManagedStateAbsent {
                None
            } else {
                Some(PerformanceOperationPhaseView::EffectStarted { prepared })
            },
            _ => None,
        },
        PerformanceOperationTransitionView::MarkAppliedUnverified(error) => match phase {
            PerformanceOperationPhaseView::EffectStarted { prepared } => Some(
                PerformanceOperationPhaseView::AppliedUnverified { prepared, error },
            ),
            _ => None,
        },
        PerformanceOperationTransitionView::RequestTerminal(terminal) => {
            let allowed = match phase {
                PerformanceOperationPhaseView::Accepted {  } => ends_before_effect(terminal),
                PerformanceOperationPhaseView::Planning {  } => ends_before_effect(terminal),
                PerformanceOperationPhaseView::Prepared { prepared } => ends_before_effect(terminal)
                    || finds_nothing_to_do(terminal, prepared),
                PerformanceOperationPhaseView::EffectStarted { prepared } => reports_on(
                    terminal,
                    prepared,
                ),
                _ => false,
            };
            if allowed {
                Some(PerformanceOperationPhaseView::TerminalIntent { terminal })
            } else {
                None
            }
        },
        PerformanceOperationTransitionView::CommitTerminal(terminal) => if phase
            == (PerformanceOperationPhaseView::TerminalIntent { terminal }) {
            Some(PerformanceOperationPhaseView::Terminal { terminal })
        } else {
            None
        },
    }
}

/// The entry with the status, outcome, failure point and rollback that its phase asks for.
pub open spec fn phase_shaped(entry: OperationJournalEntryView) -> OperationJournalEntryView {
    match lifecycle_of(entry) {
        Some(lifecycle) => OperationJournalEntryView {
            status: phase_status(lifecycle.phase),
            outcome: phase_outcome(lifecycle.phase),
            failure_point: phase_failure_point(lifecycle.phase),
            rollback: if lifecycle.phase is Terminal {
                phase_rollback(lifecycle.intent.rollback, lifecycle.phase)
            } else {
                entry.rollback
            },
            ..entry
        },
        None => entry,
    }
}

/// The entry of a performance operation, moved to another phase.
pub open spec fn moved_to(
    entry: OperationJournalEntryView,
    lifecycle: PerformanceOperationLifecycleView,
    phase: PerformanceOperationPhaseView,
    now: Seq<char>,
) -> OperationJournalEntryView {
    phase_shaped(
        OperationJournalEntryView {
            intent: OperationIntentView::Performance(
                PerformanceOperationLifecycleView { phase, updated_at: now, ..lifecycle },
            ),
            ..entry
        },
    )
}

/// Whether a terminal reports on what was prepared, after the effect.
pub fn performance_post_effect_terminal_matches(
    terminal: &PerformanceOperationTerminal,
    prepared: &PerformanceOperationPrepared,
) -> (r: bool)
    ensures
        r == reports_on(terminal@, prepared@),
{
    match performance_terminal_prepared(terminal) {
        Some(reported) => reported.same(prepared),
        None => false,
    }
}

/// Gives an entry the status, outcome, failure point and rollback that its phase asks for.
pub fn apply_performance_phase_shape(entry: &mut OperationJournalEntry)
    ensures
        final(entry)@ == phase_shaped(old(entry)@),
{
    let (status, outcome, failure_point, rollback) = match &entry.intent {
        OperationIntent::Performance(lifecycle) => (
            status_of_phase(&lifecycle.phase),
            outcome_of_phase(&lifecycle.phase),
            failure_point_of_phase(&lifecycle.phase),
            match &lifecycle.phase {
                PerformanceOperationPhase::Terminal { terminal } => performance_terminal_rollback(
                    lifecycle.intent.rollback,
                    terminal,
                ),
                _ => entry.rollback,
            },
        ),
        OperationIntent::Generic {  } => {
            return ;
        },
    };
    entry.status = status;
    entry.outcome = outcome;
    entry.failure_point = failure_point;
    entry.rollback = rollback;
}

/// The phase that a transition leads to, if it is allowed.
fn phase_after(phase: &PerformanceOperationPhase, transition: &PerformanceOperationTransition) -> (r:
    Option<PerformanceOperationPhase>)
    ensures
        opt_view(r) == next_phase(phase@, transition@),
{
    match (phase, transition) {
        (PerformanceOperationPhase::Accepted {  }, PerformanceOperationTransition::Planning) => {
            Some(PerformanceOperationPhase::Planning {  })
        },
        (
            PerformanceOperationPhase::Planning {  },
            PerformanceOperationTransition::Prepared(prepared),
        ) => Some(PerformanceOperationPhase::Prepared { prepared: prepared.duplicate() }),
        (
            PerformanceOperationPhase::Prepared { prepared },
            PerformanceOperationTransition::EffectStarted,
        ) => match &prepared.proof {
            PerformancePreparedProof::ManagedStateAbsent {  } => None,
            _ => Some(PerformanceOperationPhase::EffectStarted { prepared: prepared.duplicate() }),
        },
        (
            PerformanceOperationPhase::EffectStarted { prepared },
            PerformanceOperationTransition::MarkAppliedUnverified(error),
        ) => Some(
            PerformanceOperationPhase::AppliedUnverified {
                prepared: prepared.duplicate(),
                error: error.duplicate(),
            },
        ),
        (_, PerformanceOperationTransition::RequestTerminal(terminal)) => {
            let before_effect = match terminal {
                PerformanceOperationTerminal::FailedBeforeEffect { .. } => true,
                PerformanceOperationTerminal::AbandonedBeforeEffect {  } => true,
                _ => false,
            };
            let allowed = match phase {
                PerformanceOperationPhase::Accepted {  } => before_effect,
                PerformanceOperationPhase::Planning {  } => before_effect,
                PerformanceOperationPhase::Prepared { prepared } => match terminal {
                    PerformanceOperationTerminal::Succeeded {
                        prepared: reported,
                        changed_target,
                        ..
                    } => {
                        let in_place = match &prepared.proof {
                            PerformancePreparedProof::ManagedStateAbsent {  } => true,
                            PerformancePreparedProof::InstallPlan { .. } => true,
                            _ => false,
                        };
                        !*changed_target && in_place && reported.same(prepared)
                    },
                    _ => before_effect,
                },
                PerformanceOperationPhase::EffectStarted { prepared } => {
                    performance_post_effect_terminal_matches(terminal, prepared)
                },
                _ => false,
            };
            if allowed {
                Some(PerformanceOperationPhase::TerminalIntent { terminal: terminal.duplicate() })
            } else {
                None
            }
        },
        (
            PerformanceOperationPhase::TerminalIntent { terminal: intended },
            PerformanceOperationTransition::CommitTerminal(requested),
        ) => if intended.same(requested) {
            Some(PerformanceOperationPhase::Terminal { terminal: intended.duplicate() })
        } else {
            None
        },
        _ => None,
    }
}

/// Moves a performance operation by one transition, at the time `now`.
pub fn apply_performance_transition(
    entry: &mut OperationJournalEntry,
    transition: &PerformanceOperationTransition,
    now: &str,
) -> (r: Result<(), OperationJournalStoreError>)
    ensures
        match lifecycle_of(old(entry)@) {
            None => {
                &&& r == Err::<(), OperationJournalStoreError>(
                    OperationJournalStoreError::MissingOperation,
                )
                &&& *final(entry) == *old(entry)
            },
            Some(lifecycle) => match next_phase(lifecycle.phase, transition@) {
                None => {
                    &&& r == Err::<(), OperationJournalStoreError>(
                        OperationJournalStoreError::AlreadyExists,
                    )
                    &&& *final(entry) == *old(entry)
                },
                Some(phase) => {
                    &&& r is Ok
                    &&& final(entry)@ == moved_to(old(entry)@, lifecycle, phase, now@)
                },
            },
        },
{
    let moved = match &entry.intent {
        OperationIntent::Performance(lifecycle) => match phase_after(&lifecycle.phase, transition) {
            Some(phase) => PerformanceOperationLifecycle {
                intent: lifecycle.intent.duplicate(),
                phase,
                created_at: lifecycle.created_at.duplicate(),
                updated_at: now.to_owned(),
            },
            None => {
                return Err(OperationJournalStoreError::AlreadyExists);
            },
        },
        OperationIntent::Generic {  } => {
            return Err(OperationJournalStoreError::MissingOperation);
        },
    };
    entry.intent = OperationIntent::Performance(moved);
    apply_performance_phase_shape(entry);
    Ok(())
}

/// What has been prepared by the time of a phase.
pub open spec fn phase_prepared(phase: PerformanceOperationPhaseView) -> Option<
    PerformanceOperationPreparedView,
> {
    match phase {
        PerformanceOperationPhaseView::Prepared { prepared } => Some(prepared),
        PerformanceOperationPhaseView::EffectStarted { prepared } => Some(prepared),
        PerformanceOperationPhaseView::AppliedUnverified { prepared, .. } => Some(prepared),
        PerformanceOperationPhaseView::TerminalIntent { terminal } => terminal_prepared(terminal),
        PerformanceOperationPhaseView::Terminal { terminal } => terminal_prepared(terminal),
        _ => None,
    }
}

/// Whether a terminal shows that the effect had begun.
pub open spec fn terminal_proves_effect(terminal: PerformanceOperationTerminalView) -> bool {
    match terminal {
        PerformanceOperationTerminalView::Succeeded { changed_target, .. } => changed_target,
        PerformanceOperationTerminalView::FailedAfterEffect { .. } => true,
        _ => false,
    }
}

/// Whether a phase shows that the effect had begun.
pub open spec fn phase_proves_effect(phase: PerformanceOperationPhaseView) -> bool {
    match phase {
        PerformanceOperationPhaseView::EffectStarted { .. } => true,
        PerformanceOperationPhaseView::AppliedUnverified { .. } => true,
        PerformanceOperationPhaseView::TerminalIntent { terminal } => terminal_proves_effect(
            terminal,
        ),
        PerformanceOperationPhaseView::Terminal { terminal } => terminal_proves_effect(terminal),
        _ => false,
    }
}

/// Whether a phase shows that a transition has been made.
pub open spec fn transition_shows(
    phase: PerformanceOperationPhaseView,
    transition: PerformanceOperationTransitionView,
) -> bool {
    match transition {
        PerformanceOperationTransitionView::Planning => phase is Planning || phase_prepared(phase)
            is Some,
        PerformanceOperationTransitionView::Prepared(prepared) => phase_prepared(phase) == Some(
            prepared,
        ),
        PerformanceOperationTransitionView::EffectStarted => phase_proves_effect(phase),
        PerformanceOperationTransitionView::MarkAppliedUnverified(expected) => {
            phase matches PerformanceOperationPhaseView::AppliedUnverified { error, .. } && error
                == expected
        },
        PerformanceOperationTransitionView::RequestTerminal(expected) => {
            phase == (PerformanceOperationPhaseView::TerminalIntent { terminal: expected }) || phase
                == (PerformanceOperationPhaseView::Terminal { terminal: expected })
        },
        PerformanceOperationTransitionView::CommitTerminal(expected) => {
            phase == (PerformanceOperationPhaseView::Terminal { terminal: expected })
        },
    }
}

/// Whether an entry shows that a transition of its performance operation has been made.
pub open spec fn transition_is_visible(
    entry: OperationJournalEntryView,
    transition: PerformanceOperationTransitionView,
) -> bool {
    match lifecycle_of(entry) {
        Some(lifecycle) => transition_shows(lifecycle.phase, transition),
        None => false,
    }
}

/// What has been prepared by the time of a phase.
pub fn performance_phase_prepared(phase: &PerformanceOperationPhase) -> (r: Option<
    &PerformanceOperationPrepared,
>)
    ensures
        (match r {
            Some(prepared) => Some(prepared@),
            None => None,
        }) == phase_prepared(phase@),
{
    match phase {
        PerformanceOperationPhase::Prepared { prepared } => Some(prepared),
        PerformanceOperationPhase::EffectStarted { prepared } => Some(prepared),
        PerformanceOperationPhase::AppliedUnverified { prepared, .. } => Some(prepared),
        PerformanceOperationPhase::TerminalIntent { terminal } => performance_terminal_prepared(
            terminal,
        ),
        PerformanceOperationPhase::Terminal { terminal } => performance_terminal_prepared(terminal),
        PerformanceOperationPhase::Accepted {  } => None,
        PerformanceOperationPhase::Planning {  } => None,
    }
}

fn terminal_proves_effect_started(terminal: &PerformanceOperationTerminal) -> (r: bool)
    ensures
        r == terminal_proves_effect(terminal@),
{
    match terminal {
        PerformanceOperationTerminal::Succeeded { changed_target, .. } => *changed_target,
        PerformanceOperationTerminal::FailedAfterEffect { .. } => true,
        _ => false,
    }
}

/// Whether a phase shows that the effect had begun.
pub fn performance_phase_proves_effect_started(phase: &PerformanceOperationPhase) -> (r: bool)
    ensures
        r == phase_proves_effect(phase@),
{
    match phase {
        PerformanceOperationPhase::EffectStarted { .. } => true,
        PerformanceOperationPhase::AppliedUnverified { .. } => true,
        PerformanceOperationPhase::TerminalIntent { terminal } => terminal_proves_effect_started(
            terminal,
        ),
        PerformanceOperationPhase::Terminal { terminal } => terminal_proves_effect_started(
            terminal,
        ),
        _ => false,
    }
}

/// Whether an entry shows that a transition of its performance operation has been made.
pub fn performance_transition_is_visible(
    entry: &OperationJournalEntry,
    transition: &PerformanceOperationTransition,
) -> (r: bool)
    ensures
        r == transition_is_visible(entry@, transition@),
{
    let phase = match &entry.intent {
        OperationIntent::Performance(lifecycle) => &lifecycle.phase,
        OperationIntent::Generic {  } => {
            return false;
        },
    };
    match transition {
        PerformanceOperationTransition::Planning => {
            let planning = match phase {
                PerformanceOperationPhase::Planning {  } => true,
                _ => false,
            };
            planning || performance_phase_prepared(phase).is_some()
        },
        PerformanceOperationTransition::Prepared(expected) => match performance_phase_prepared(
            phase,
        ) {
            Some(prepared) => prepared.same(expected),
            None => false,
        },
        PerformanceOperationTransition::EffectStarted => performance_phase_proves_effect_started(
            phase,
        ),
        PerformanceOperationTransition::MarkAppliedUnverified(expected) => match phase {
            PerformanceOperationPhase::AppliedUnverified { error, .. } => error.same(expected),
            _ => false,
        },
        PerformanceOperationTransition::RequestTerminal(expected) => match phase {
            PerformanceOperationPhase::TerminalIntent { terminal } => terminal.same(expected),
            PerformanceOperationPhase::Terminal { terminal } => terminal.same(expected),
            _ => false,
        },
        PerformanceOperationTransition::CommitTerminal(expected) => match phase {
            PerformanceOperationPhase::Terminal { terminal } => terminal.same(expected),
            _ => false,
        },
    }
}

/// Whether an entry is the journal of an operation that was created with this intent.
pub open spec fn create_is_visible(
    entry: OperationJournalEntryView,
    intent: PerformanceOperationIntentView,
) -> bool {
    lifecycle_of(entry) matches Some(lifecycle) && lifecycle.intent == intent
}

/// Whether an entry is the journal of an operation that was created with this intent.
pub fn performance_create_is_visible(
    entry: &OperationJournalEntry,
    intent: &PerformanceOperationIntent,
) -> (r: bool)
    ensures
        r == create_is_visible(entry@, intent@),
{
    match &entry.intent {
        OperationIntent::Performance(lifecycle) => lifecycle.intent.same(intent),
        OperationIntent::Generic {  } => false,
    }
}

/// The Guardian facts of an entry's first completed step.
pub open spec fn first_facts(entry: OperationJournalEntryView) -> Seq<GuardianFactId> {
    if entry.completed_steps.len() > 0 {
        entry.completed_steps[0].guardian_fact_ids
    } else {
        Seq::empty()
    }
}

/// Whether an entry holds exactly this Guardian evidence.
pub open spec fn guardian_evidence_matches(
    entry: OperationJournalEntryView,
    evidence: DurableGuardianEvidenceView,
) -> bool {
    &&& first_facts(entry) == evidence.fact_ids
    &&& entry.guardian_diagnosis_ids == evidence.diagnosis_ids
    &&& entry.guardian_install_terminal == evidence.install_terminal
}

/// Whether an entry holds exactly this Guardian evidence.
pub fn performance_guardian_evidence_matches(
    entry: &OperationJournalEntry,
    evidence: &DurableGuardianEvidence,
) -> (r: bool)
    ensures
        r == guardian_evidence_matches(entry@, evidence@),
{
    proof {
        assert(views(evidence.fact_ids@) =~= evidence.fact_ids@);
        assert(views(entry.guardian_diagnosis_ids@) =~= entry.guardian_diagnosis_ids@);
        assert(views(evidence.diagnosis_ids@) =~= evidence.diagnosis_ids@);
    }
    let facts_match = if entry.completed_steps.len() > 0 {
        let step = &entry.completed_steps[0];
        proof {
            assert(entry@.completed_steps[0] == step@);
            assert(views(step.guardian_fact_ids@) =~= step.guardian_fact_ids@);
        }
        list_same(&step.guardian_fact_ids, &evidence.fact_ids)
    } else {
        assert(evidence.fact_ids@.len() == 0 ==> evidence.fact_ids@ =~= Seq::empty());
        evidence.fact_ids.len() == 0
    };
    facts_match && list_same(&entry.guardian_diagnosis_ids, &evidence.diagnosis_ids) && opt_same(
        &entry.guardian_install_terminal,
        &evidence.install_terminal,
    )
}

/// Whether an entry shows this Guardian evidence before anything was prepared.
pub open spec fn guardian_evidence_is_visible(
    entry: OperationJournalEntryView,
    evidence: DurableGuardianEvidenceView,
) -> bool {
    &&& lifecycle_of(entry) matches Some(lifecycle) && (lifecycle.phase is Accepted
        || lifecycle.phase is Planning)
    &&& guardian_evidence_matches(entry, evidence)
}

/// Whether an entry shows this Guardian evidence before anything was prepared.
pub fn performance_guardian_evidence_is_visible(
    entry: &OperationJournalEntry,
    evidence: &DurableGuardianEvidence,
) -> (r: bool)
    ensures
        r == guardian_evidence_is_visible(entry@, evidence@),
{
    let early = match &entry.intent {
        OperationIntent::Performance(lifecycle) => match &lifecycle.phase {
            PerformanceOperationPhase::Accepted {  } => true,
            PerformanceOperationPhase::Planning {  } => true,
            _ => false,
        },
        OperationIntent::Generic {  } => false,
    };
    early && performance_guardian_evidence_matches(entry, evidence)
}

} // verus!

//! Why journals and memories are refused: what is said is the first thing that is wrong with them.

use crate::contracts::{DiagnosisId, StabilizationSystem, TargetKind};
use crate::entry::{
    OperationIntentView, OperationJournalEntryView, OperationJournalStepView,
    OperationStepMetricsView,
};
use crate::evidence::{
    PersistedStateRepairAttemptView, PersistedStateRepairTerminalView, TargetDescriptorView,
};
use crate::failure_entry::{FailureMemoryValidationError, GuardianFailureMemoryEntryView};
use crate::failure_validation::{
    expected_key, is_memory_fragment, memory_row_verdict, memory_rows_verdict,
    memory_snapshot_verdict, memory_verdict, FailureMemorySnapshotView,
};
use crate::instants::text_instant;
use crate::journal_errors::OperationJournalValidationError;
use crate::journal_snapshot::{
    active_performance_instance, row_verdict, rows_verdict, snapshot_verdict,
    OperationJournalSnapshotView,
};
use crate::journal_validation::{
    attempt_fits, completed_steps_verdict, entry_verdict, holds_completed_quarantine,
    is_completed_quarantine, metrics_are_in_place, planned_steps_verdict, repair_end_fits,
    repair_end_step, repair_plan_fits, repair_plan_step, step_metrics_fit, step_verdict,
    sweep_is_measured, target_verdict, terminal_fits, Verdict,
};
use crate::order_laws::{
    accepted_steps_are_in_order, attempt_is_in_order, completed_steps_in_order, install_end_fits,
    metrics_are_in_their_place, parts_are_in_order, plan_step_is_in_order, planned_steps_in_order,
    reconciliation_end_is_in_order, shows_the_reconciliation, shows_the_repair, step_is_in_order,
};
use crate::performance::lifecycle_is_valid;
use crate::rulings::LauncherRulingsView;
use crate::store_laws::at_work;
use crate::tokens::{is_safe_generated_fact, is_safe_token};
use vstd::prelude::*;

verus! {

/// Whether an answer is a refusal for that reason.
pub open spec fn refuses(answer: Verdict, error: OperationJournalValidationError) -> bool {
    answer is Err && answer->Err_0 == error
}

/// A target is accepted exactly where it is named safely, and is refused for its name.
pub proof fn refused_target_says_why(target: TargetDescriptorView)
    ensures
        target_verdict(target) is Ok <==> is_safe_token(target.id, 96),
        target_verdict(target) is Err ==> refuses(
            target_verdict(target),
            OperationJournalValidationError::UnsafeTargetId,
        ),
{
}

/// A step that is refused is refused for the first thing that is wrong with it: its name, its target,
/// its facts, those of the Guardian, and its metrics.
pub proof fn refused_step_says_why(step: OperationJournalStepView, rulings: LauncherRulingsView)
    ensures
        ({
            let answer = step_verdict(step, rulings);
            let named = is_safe_token(step.step_id, 96);
            let aimed = step.changed_target is Some ==> is_safe_token(
                step.changed_target->0.id,
                96,
            );
            let few = step.generated_facts.len() <= 64;
            let safe = forall|i: int|
                0 <= i < step.generated_facts.len() ==> is_safe_generated_fact(
                    #[trigger] step.generated_facts[i],
                    rulings,
                );
            let few_found = step.guardian_fact_ids.len() <= rulings.max_guardian_fact_ids;
            let different = step.guardian_fact_ids.no_duplicates();
            let measured = step.metrics is Some ==> match step.metrics->0 {
                OperationStepMetricsView::Tier2Integrity(record) => record.consistent,
                OperationStepMetricsView::ContentDownload(record) => record.consistent,
            };
            &&& !named ==> refuses(answer, OperationJournalValidationError::UnsafeStepId)
            &&& named && !aimed ==> refuses(answer, OperationJournalValidationError::UnsafeTargetId)
            &&& named && aimed && !few ==> refuses(
                answer,
                OperationJournalValidationError::TooManyFacts,
            )
            &&& named && aimed && few && !safe ==> refuses(
                answer,
                OperationJournalValidationError::UnsafeGeneratedFact,
            )
            &&& named && aimed && few && safe && !few_found ==> refuses(
                answer,
                OperationJournalValidationError::TooManyGuardianFacts,
            )
            &&& named && aimed && few && safe && few_found && !different ==> refuses(
                answer,
                OperationJournalValidationError::DuplicateGuardianFact,
            )
            &&& named && aimed && few && safe && few_found && different && !measured ==> refuses(
                answer,
                OperationJournalValidationError::InvalidOperationMetrics,
            )
        }),
{
}

proof fn completed_error_is_the_first(
    steps: Seq<OperationJournalStepView>,
    i: int,
    rulings: LauncherRulingsView,
)
    requires
        0 <= i < steps.len(),
        step_verdict(steps[i], rulings) is Err,
        forall|j: int| 0 <= j < i ==> step_verdict(#[trigger] steps[j], rulings) is Ok,
    ensures
        completed_steps_verdict(steps, rulings) == step_verdict(steps[i], rulings),
    decreases steps.len(),
{
    let front = steps.drop_last();
    if i < front.len() {
        assert forall|j: int| 0 <= j < i implies step_verdict(#[trigger] front[j], rulings) is Ok by {
            assert(front[j] == steps[j]);
        }
        assert(front[i] == steps[i]);
        completed_error_is_the_first(front, i, rulings);
    } else {
        assert forall|j: int| 0 <= j < front.len() implies step_is_in_order(
            #[trigger] front[j],
            rulings,
        ) by {
            assert(front[j] == steps[j]);
            accepted_steps_are_in_order(front[j], rulings);
        }
        completed_steps_in_order(front, rulings);
    }
}

proof fn planned_error_is_the_first(
    steps: Seq<OperationJournalStepView>,
    i: int,
    rulings: LauncherRulingsView,
)
    requires
        0 <= i < steps.len(),
        !plan_step_is_in_order(steps[i], rulings),
        forall|j: int| 0 <= j < i ==> plan_step_is_in_order(#[trigger] steps[j], rulings),
    ensures
        step_is_in_order(steps[i], rulings) ==> refuses(
            planned_steps_verdict(steps, rulings),
            OperationJournalValidationError::InvalidOperationMetrics,
        ),
        !step_is_in_order(steps[i], rulings) ==> planned_steps_verdict(steps, rulings)
            == step_verdict(steps[i], rulings),
    decreases steps.len(),
{
    let front = steps.drop_last();
    accepted_steps_are_in_order(steps[i], rulings);
    if i < front.len() {
        assert forall|j: int| 0 <= j < i implies plan_step_is_in_order(#[trigger] front[j], rulings) by {
            assert(front[j] == steps[j]);
        }
        assert(front[i] == steps[i]);
        planned_error_is_the_first(front, i, rulings);
    } else {
        assert forall|j: int| 0 <= j < front.len() implies plan_step_is_in_order(
            #[trigger] front[j],
            rulings,
        ) by {
            assert(front[j] == steps[j]);
        }
        planned_steps_in_order(front, rulings);
    }
}

/// Whether a journal names itself and its targets as it should.
pub open spec fn names_are_in_order(entry: OperationJournalEntryView) -> bool {
    &&& is_safe_token(entry.journal_id, 128)
    &&& entry.parent_operation_id is Some ==> entry.parent_operation_id->0 != entry.operation_id
    &&& entry.targets.len() <= 16
    &&& targets_are_safe(entry)
}

/// Whether the targets of a journal are named safely.
pub open spec fn targets_are_safe(entry: OperationJournalEntryView) -> bool {
    forall|i: int| 0 <= i < entry.targets.len() ==> is_safe_token((#[trigger] entry.targets[i]).id, 96)
}

/// Whether the plan of a journal is in order.
pub open spec fn plan_is_in_order(
    entry: OperationJournalEntryView,
    rulings: LauncherRulingsView,
) -> bool {
    &&& entry.planned_steps.len() <= 128
    &&& forall|i: int|
        0 <= i < entry.planned_steps.len() ==> plan_step_is_in_order(
            #[trigger] entry.planned_steps[i],
            rulings,
        )
}

/// Whether what a journal has completed is in order.
pub open spec fn work_is_in_order(
    entry: OperationJournalEntryView,
    rulings: LauncherRulingsView,
) -> bool {
    &&& entry.completed_steps.len() <= 256
    &&& forall|i: int|
        0 <= i < entry.completed_steps.len() ==> step_is_in_order(
            #[trigger] entry.completed_steps[i],
            rulings,
        )
}

/// A journal is refused for its name, for being its own parent, for too many targets or an unsafe one,
/// and for too long a plan, in this order.
pub proof fn refused_names_are_told(entry: OperationJournalEntryView, rulings: LauncherRulingsView)
    ensures
        ({
            let answer = entry_verdict(entry, rulings);
            let named = is_safe_token(entry.journal_id, 128);
            let apart = entry.parent_operation_id is Some ==> entry.parent_operation_id->0
                != entry.operation_id;
            let few = entry.targets.len() <= 16;
            &&& !named ==> refuses(answer, OperationJournalValidationError::UnsafeJournalId)
            &&& named && !apart ==> refuses(
                answer,
                OperationJournalValidationError::InvalidParentOperationId,
            )
            &&& named && apart && !few ==> refuses(
                answer,
                OperationJournalValidationError::TooManyTargets,
            )
            &&& named && apart && few && !targets_are_safe(entry) ==> refuses(
                answer,
                OperationJournalValidationError::UnsafeTargetId,
            )
            &&& names_are_in_order(entry) && entry.planned_steps.len() > 128 ==> refuses(
                answer,
                OperationJournalValidationError::TooManyPlannedSteps,
            )
        }),
{
    if !targets_are_safe(entry) {
        let i = choose|i: int|
            0 <= i < entry.targets.len() && !is_safe_token((#[trigger] entry.targets[i]).id, 96);
        assert(target_verdict(entry.targets[i]) is Err);
    } else {
        targets_are_accepted(entry);
    }
}

proof fn targets_are_accepted(entry: OperationJournalEntryView)
    requires
        targets_are_safe(entry),
    ensures
        forall|i: int|
            0 <= i < entry.targets.len() ==> target_verdict(#[trigger] entry.targets[i]) is Ok,
{
    assert forall|i: int| 0 <= i < entry.targets.len() implies target_verdict(
        #[trigger] entry.targets[i],
    ) is Ok by {
        assert(is_safe_token(entry.targets[i].id, 96));
    }
}

/// A journal with a step that is out of order is refused for the first such step, the planned ones
/// before the completed: for what is wrong with it, and where only its plan is, for its metrics.
pub proof fn first_wrong_step_is_told(
    entry: OperationJournalEntryView,
    rulings: LauncherRulingsView,
    i: int,
)
    requires
        names_are_in_order(entry),
    ensures
        ({
            let answer = entry_verdict(entry, rulings);
            let planned = entry.planned_steps;
            let completed = entry.completed_steps;
            &&& planned.len() <= 128 && 0 <= i < planned.len() && !plan_step_is_in_order(
                planned[i],
                rulings,
            ) && (forall|j: int|
                0 <= j < i ==> plan_step_is_in_order(#[trigger] planned[j], rulings)) ==> {
                &&& step_is_in_order(planned[i], rulings) ==> refuses(
                    answer,
                    OperationJournalValidationError::InvalidOperationMetrics,
                )
                &&& !step_is_in_order(planned[i], rulings) ==> answer == step_verdict(
                    planned[i],
                    rulings,
                )
            }
            &&& plan_is_in_order(entry, rulings) && completed.len() > 256 ==> refuses(
                answer,
                OperationJournalValidationError::TooManyCompletedSteps,
            )
            &&& plan_is_in_order(entry, rulings) && completed.len() <= 256 && 0 <= i
                < completed.len() && !step_is_in_order(completed[i], rulings) && (forall|j: int|
                0 <= j < i ==> step_is_in_order(#[trigger] completed[j], rulings)) ==> answer
                == step_verdict(completed[i], rulings)
        }),
{
    let planned = entry.planned_steps;
    let completed = entry.completed_steps;
    targets_are_accepted(entry);
    if 0 <= i < planned.len() && !plan_step_is_in_order(planned[i], rulings) && (forall|j: int|
        0 <= j < i ==> plan_step_is_in_order(#[trigger] planned[j], rulings)) {
        planned_error_is_the_first(planned, i, rulings);
        accepted_steps_are_in_order(planned[i], rulings);
    }
    planned_steps_in_order(planned, rulings);
    if 0 <= i < completed.len() && !step_is_in_order(completed[i], rulings) && (forall|j: int|
        0 <= j < i ==> step_is_in_order(#[trigger] completed[j], rulings)) {
        accepted_steps_are_in_order(completed[i], rulings);
        assert forall|j: int| 0 <= j < i implies step_verdict(
            #[trigger] completed[j],
            rulings,
        ) is Ok by {
            accepted_steps_are_in_order(completed[j], rulings);
        }
        completed_error_is_the_first(completed, i, rulings);
    }
}

proof fn metrics_fit(entry: OperationJournalEntryView, rulings: LauncherRulingsView)
    requires
        plan_is_in_order(entry, rulings),
    ensures
        step_metrics_fit(entry) <==> metrics_are_in_their_place(entry),
{
    assert forall|i: int|
        0 <= i < entry.planned_steps.len() implies metrics_are_in_place(
        entry.command,
        #[trigger] entry.planned_steps[i],
    ) && !(entry.planned_steps[i].step_id == "tier2_integrity_sweep"@
        && entry.planned_steps[i].metrics is Some) by {
        assert(plan_step_is_in_order(entry.planned_steps[i], rulings));
    }
    let steps = entry.completed_steps;
    if metrics_are_in_their_place(entry) {
        assert forall|i: int|
            0 <= i < steps.len() implies metrics_are_in_place(entry.command, #[trigger] steps[i])
            && sweep_is_measured(steps[i]) by {
        }
    }
    if step_metrics_fit(entry) {
        assert forall|i: int|
            0 <= i < steps.len() implies metrics_are_in_place(entry.command, #[trigger] steps[i])
            && sweep_is_measured(steps[i]) by {
        }
        assert(metrics_are_in_their_place(entry));
    }
}

/// A journal whose names, plan and work are in order is refused for an unsafe point of failure, too
/// many diagnoses or one that is listed twice, and metrics that are out of place, in this order.
pub proof fn refused_findings_are_told(
    entry: OperationJournalEntryView,
    rulings: LauncherRulingsView,
)
    requires
        names_are_in_order(entry),
        plan_is_in_order(entry, rulings),
        work_is_in_order(entry, rulings),
    ensures
        ({
            let answer = entry_verdict(entry, rulings);
            let safe = entry.failure_point is Some ==> is_safe_token(entry.failure_point->0, 96);
            let few = entry.guardian_diagnosis_ids.len() <= rulings.max_guardian_diagnoses;
            let different = entry.guardian_diagnosis_ids.no_duplicates();
            &&& !safe ==> refuses(answer, OperationJournalValidationError::UnsafeFailurePoint)
            &&& safe && !few ==> refuses(answer, OperationJournalValidationError::TooManyDiagnoses)
            &&& safe && few && !different ==> refuses(
                answer,
                OperationJournalValidationError::DuplicateDiagnosis,
            )
            &&& parts_are_in_order(entry, rulings) && !metrics_are_in_their_place(entry)
                ==> refuses(answer, OperationJournalValidationError::InvalidOperationMetrics)
        }),
{
    targets_are_accepted(entry);
    planned_steps_in_order(entry.planned_steps, rulings);
    completed_steps_in_order(entry.completed_steps, rulings);
    metrics_fit(entry, rulings);
}

/// Whether the intent of a journal fits its command: what is about performance is a performance
/// operation that is valid, and no other operation applies a performance plan.
pub open spec fn intent_is_in_order(
    entry: OperationJournalEntryView,
    rulings: LauncherRulingsView,
) -> bool {
    match entry.intent {
        OperationIntentView::Performance(lifecycle) => lifecycle_is_valid(
            entry,
            lifecycle,
            rulings,
        ),
        OperationIntentView::Generic {  } => entry.command !is ApplyPerformancePlan,
    }
}

/// Whether a journal is of one kind of repair at most, and has the attempt at a repair of a record
/// exactly where that is its command.
pub open spec fn repairs_are_apart(entry: OperationJournalEntryView) -> bool {
    let reconciles = entry.reconciliation_attempt is Some || entry.reconciliation_terminal is Some;
    let repairs = entry.persisted_state_repair_attempt is Some
        || entry.persisted_state_repair_terminal is Some;
    &&& !reconciles || !repairs
    &&& entry.command is RepairPersistedState <==> entry.persisted_state_repair_attempt is Some
}

/// A journal whose parts and metrics are in order is refused for the end of an installation that does
/// not fit it, for an intent that does not, and for two kinds of repair, in this order.
pub proof fn refused_evidence_is_told(
    entry: OperationJournalEntryView,
    rulings: LauncherRulingsView,
)
    requires
        parts_are_in_order(entry, rulings),
        metrics_are_in_their_place(entry),
    ensures
        ({
            let answer = entry_verdict(entry, rulings);
            let safe = entry.guardian_install_terminal is Some
                && entry.guardian_install_terminal->0.memory is Some ==> is_safe_token(
                entry.guardian_install_terminal->0.memory->0.target.id,
                96,
            );
            let fits = install_end_fits(entry);
            let meant = intent_is_in_order(entry, rulings);
            let terminal = entry.guardian_install_terminal->0;
            let failed = entry.guardian_install_terminal is Some ==> {
                &&& terminal.consistent
                &&& entry.status is Failed
                &&& entry.outcome is Some
                &&& entry.outcome->0 is Failed
                &&& entry.command is InstallVersion || entry.command is ModifyInstanceContent
                &&& entry.guardian_diagnosis_ids.contains(terminal.diagnosis_id)
            };
            &&& !failed ==> refuses(
                answer,
                OperationJournalValidationError::InvalidGuardianInstallTerminal,
            )
            &&& failed && !safe ==> refuses(
                answer,
                OperationJournalValidationError::UnsafeTargetId,
            )
            &&& fits && !meant ==> refuses(
                answer,
                OperationJournalValidationError::InvalidPerformanceLifecycle,
            )
            &&& fits && meant && !repairs_are_apart(entry) ==> refuses(
                answer,
                OperationJournalValidationError::PersistedStateRepairMismatch,
            )
        }),
{
    parts_are_accepted(entry, rulings);
}

proof fn parts_are_accepted(entry: OperationJournalEntryView, rulings: LauncherRulingsView)
    requires
        parts_are_in_order(entry, rulings),
    ensures
        targets_are_safe(entry),
        plan_is_in_order(entry, rulings),
        work_is_in_order(entry, rulings),
        forall|i: int|
            0 <= i < entry.targets.len() ==> target_verdict(#[trigger] entry.targets[i]) is Ok,
        planned_steps_verdict(entry.planned_steps, rulings) is Ok,
        completed_steps_verdict(entry.completed_steps, rulings) is Ok,
        step_metrics_fit(entry) <==> metrics_are_in_their_place(entry),
{
    targets_are_accepted(entry);
    planned_steps_in_order(entry.planned_steps, rulings);
    completed_steps_in_order(entry.completed_steps, rulings);
    metrics_fit(entry, rulings);
}

/// Whether all but the repairs of a journal is in order.
pub open spec fn all_but_repairs_is_in_order(
    entry: OperationJournalEntryView,
    rulings: LauncherRulingsView,
) -> bool {
    &&& parts_are_in_order(entry, rulings)
    &&& metrics_are_in_their_place(entry)
    &&& install_end_fits(entry)
    &&& intent_is_in_order(entry, rulings)
    &&& repairs_are_apart(entry)
}

proof fn attempts_that_fit(entry: OperationJournalEntryView)
    ensures
        entry.reconciliation_attempt is Some && entry.reconciliation_attempt->0.consistent ==> (
        attempt_fits(entry, entry.reconciliation_attempt->0) <==> attempt_is_in_order(entry)),
{
    if entry.reconciliation_attempt is Some {
        let attempt = entry.reconciliation_attempt->0;
        let wanted = TargetDescriptorView {
            system: StabilizationSystem::State,
            kind: TargetKind::Instance,
            id: attempt.scope.instance_id,
            ownership: attempt.ownership,
        };
        if entry.targets.contains(wanted) {
            let i = choose|i: int| 0 <= i < entry.targets.len() && entry.targets[i] == wanted;
            assert(entry.targets[i].system is State);
        }
        if exists|i: int|
            0 <= i < entry.targets.len() && (#[trigger] entry.targets[i]).system is State
                && entry.targets[i].kind is Instance && entry.targets[i].id
                == attempt.scope.instance_id && entry.targets[i].ownership == attempt.ownership {
            let i = choose|i: int|
                0 <= i < entry.targets.len() && (#[trigger] entry.targets[i]).system is State
                    && entry.targets[i].kind is Instance && entry.targets[i].id
                    == attempt.scope.instance_id && entry.targets[i].ownership == attempt.ownership;
            assert(entry.targets[i] == wanted);
        }
    }
}

proof fn ends_that_fit(entry: OperationJournalEntryView)
    ensures
        entry.reconciliation_terminal is Some && entry.reconciliation_terminal->0.consistent ==> (
        terminal_fits(entry, entry.reconciliation_terminal->0) <==> reconciliation_end_is_in_order(
            entry,
        )),
{
    let steps = entry.completed_steps;
    if holds_completed_quarantine(steps) {
        let i = choose|i: int|
            0 <= i < steps.len() && is_completed_quarantine(
                #[trigger] steps[i],
            );
        assert(steps[i].step_id == "quarantine_launcher_managed_target"@);
    }
    if exists|i: int|
        0 <= i < steps.len() && (#[trigger] steps[i]).step_id
            == "quarantine_launcher_managed_target"@ && steps[i].result is Completed {
        let i = choose|i: int|
            0 <= i < steps.len() && (#[trigger] steps[i]).step_id
                == "quarantine_launcher_managed_target"@ && steps[i].result is Completed;
        assert(is_completed_quarantine(steps[i]));
    }
}

/// A reconciliation is refused for an attempt that is inconsistent or does not fit the journal, and then
/// for an end that is inconsistent or does not fit. Each has one word for the first and another for the
/// second.
pub proof fn refused_reconciliation_is_told(
    entry: OperationJournalEntryView,
    rulings: LauncherRulingsView,
)
    requires
        all_but_repairs_is_in_order(entry, rulings),
    ensures
        ({
            let answer = entry_verdict(entry, rulings);
            let attempt = entry.reconciliation_attempt;
            let end = entry.reconciliation_terminal;
            let sound = attempt is Some ==> attempt->0.consistent;
            let end_sound = end is Some ==> end->0.consistent;
            let tried = attempt_is_in_order(entry);
            &&& !sound ==> refuses(
                answer,
                OperationJournalValidationError::InvalidReconciliationTerminal,
            )
            &&& sound && !tried ==> refuses(
                answer,
                OperationJournalValidationError::ReconciliationTerminalMismatch,
            )
            &&& tried && !end_sound ==> refuses(
                answer,
                OperationJournalValidationError::InvalidReconciliationTerminal,
            )
            &&& tried && end_sound && !reconciliation_end_is_in_order(entry) ==> refuses(
                answer,
                OperationJournalValidationError::ReconciliationTerminalMismatch,
            )
        }),
{
    parts_are_accepted(entry, rulings);
    attempts_that_fit(entry);
    ends_that_fit(entry);
}

/// Whether the attempt at a repair of a record fits the journal: the journal is that of the attempt, with
/// its one target, its one planned step and its one diagnosis, and shows nothing before the repair has
/// ended.
pub open spec fn repair_attempt_is_in_order(
    entry: OperationJournalEntryView,
    attempt: PersistedStateRepairAttemptView,
) -> bool {
    let planned = entry.planned_steps[0];
    &&& entry.operation_id == attempt.operation_id
    &&& entry.journal_id == attempt.journal_id
    &&& entry.command is RepairPersistedState
    &&& entry.owner is Guardian
    &&& entry.ownership is LauncherManaged
    &&& entry.rollback is NotApplicable
    &&& entry.targets.len() == 1
    &&& entry.targets[0] == attempt.target
    &&& entry.guardian_diagnosis_ids.len() == 1
    &&& entry.guardian_diagnosis_ids[0] is PersistedStateSchemaInvalid
    &&& entry.planned_steps.len() == 1
    &&& planned.step_id == "quarantine_rejected_restart_record"@
    &&& planned.phase is Repairing
    &&& planned.result is Planned
    &&& planned.changed_target is None
    &&& planned.generated_facts.len() == 0
    &&& planned.guardian_fact_ids.len() == 0
    &&& planned.metrics is None
    &&& planned.rollback is NotApplicable
    &&& entry.persisted_state_repair_terminal is None ==> {
        &&& entry.status is Planned
        &&& entry.completed_steps.len() == 0
        &&& entry.failure_point is None
        &&& entry.outcome is None
    }
}

/// Whether the end of a repair of a record fits the journal: it is of the attempt, and the journal's one
/// completed step, its status, outcome and point of failure show it.
pub open spec fn repair_end_is_in_order(
    entry: OperationJournalEntryView,
    end: PersistedStateRepairTerminalView,
) -> bool {
    let step = entry.completed_steps[0];
    let quarantined = end.outcome is Quarantined;
    &&& entry.persisted_state_repair_attempt == Some(end.attempt)
    &&& entry.completed_steps.len() == 1
    &&& step.step_id == "quarantine_rejected_restart_record"@
    &&& step.phase is Repairing
    &&& if quarantined {
        step.result is Completed
    } else {
        step.result is Failed
    }
    &&& step.changed_target == Some(end.attempt.target)
    &&& step.generated_facts.len() == 1
    &&& end.outcome is Quarantined ==> step.generated_facts[0]
        == "persisted_state_record_quarantined"@
    &&& end.outcome is Refused ==> step.generated_facts[0] == "persisted_state_quarantine_refused"@
    &&& end.outcome is AppliedUnverified ==> step.generated_facts[0]
        == "persisted_state_quarantine_applied_unverified"@
    &&& step.guardian_fact_ids.len() == 0
    &&& step.metrics is None
    &&& step.rollback is NotApplicable
    &&& entry.outcome is Some
    &&& if quarantined {
        entry.status is Succeeded && entry.outcome->0 is Succeeded && entry.failure_point is None
    } else {
        &&& entry.status is Failed
        &&& entry.outcome->0 is Failed
        &&& entry.failure_point == Some(step.generated_facts[0])
    }
}

proof fn repair_attempts_that_fit(
    entry: OperationJournalEntryView,
    attempt: PersistedStateRepairAttemptView,
)
    ensures
        repair_plan_fits(entry, attempt) <==> repair_attempt_is_in_order(entry, attempt),
{
    if repair_attempt_is_in_order(entry, attempt) {
        let planned = entry.planned_steps[0];
        assert(planned.generated_facts =~= Seq::empty());
        assert(planned.guardian_fact_ids =~= Seq::empty());
        assert(planned == repair_plan_step());
        assert(entry.planned_steps =~= seq![repair_plan_step()]);
        assert(entry.targets =~= seq![attempt.target]);
        assert(entry.guardian_diagnosis_ids =~= seq![DiagnosisId::PersistedStateSchemaInvalid]);
    }
}

proof fn repair_ends_that_fit(
    entry: OperationJournalEntryView,
    end: PersistedStateRepairTerminalView,
)
    ensures
        repair_end_fits(entry, end) <==> repair_end_is_in_order(entry, end),
{
    if repair_end_is_in_order(entry, end) {
        let step = entry.completed_steps[0];
        assert(step.generated_facts =~= repair_end_step(end).generated_facts);
        assert(step.guardian_fact_ids =~= Seq::empty());
        assert(step == repair_end_step(end));
        assert(entry.completed_steps =~= seq![repair_end_step(end)]);
    }
}

/// A repair of a record is refused for an attempt that is inconsistent or does not fit the journal, and
/// then for an end that is inconsistent or does not fit. Each has one word for the first and another for
/// the second.
pub proof fn refused_repair_is_told(entry: OperationJournalEntryView, rulings: LauncherRulingsView)
    requires
        all_but_repairs_is_in_order(entry, rulings),
        attempt_is_in_order(entry),
        reconciliation_end_is_in_order(entry),
    ensures
        ({
            let answer = entry_verdict(entry, rulings);
            let attempt = entry.persisted_state_repair_attempt;
            let end = entry.persisted_state_repair_terminal;
            let sound = attempt is Some ==> attempt->0.consistent;
            let tried = attempt is Some ==> repair_attempt_is_in_order(entry, attempt->0);
            let end_sound = end is Some ==> end->0.consistent;
            let ended = end is Some ==> repair_end_is_in_order(entry, end->0);
            &&& !sound ==> refuses(
                answer,
                OperationJournalValidationError::InvalidPersistedStateRepair,
            )
            &&& sound && !tried ==> refuses(
                answer,
                OperationJournalValidationError::PersistedStateRepairMismatch,
            )
            &&& sound && tried && !end_sound ==> refuses(
                answer,
                OperationJournalValidationError::InvalidPersistedStateRepair,
            )
            &&& sound && tried && end_sound && !ended ==> refuses(
                answer,
                OperationJournalValidationError::PersistedStateRepairMismatch,
            )
            &&& sound && tried && end_sound && ended ==> answer is Ok
        }),
{
    parts_are_accepted(entry, rulings);
    attempts_that_fit(entry);
    ends_that_fit(entry);
    if entry.persisted_state_repair_attempt is Some {
        repair_attempts_that_fit(entry, entry.persisted_state_repair_attempt->0);
    }
    if entry.persisted_state_repair_terminal is Some {
        repair_ends_that_fit(entry, entry.persisted_state_repair_terminal->0);
    }
}

/// Whether an answer is a refusal of a memory for that reason.
pub open spec fn refuses_memory(
    answer: Result<(), FailureMemoryValidationError>,
    error: FailureMemoryValidationError,
) -> bool {
    answer is Err && answer->Err_0 == error
}

/// A memory is refused for what it is about: its key, two ends, a key that is not its own, its target,
/// whose target it is, and for never having been observed, in this order.
pub proof fn refused_memory_says_why(
    entry: GuardianFailureMemoryEntryView,
    rulings: LauncherRulingsView,
)
    ensures
        ({
            let answer = memory_verdict(entry, rulings);
            let safe = is_memory_fragment(entry.key);
            let apart = entry.reconciliation_terminal is None
                || entry.persisted_state_repair_terminal is None;
            let own = entry.key == expected_key(entry, rulings);
            let aimed = is_memory_fragment(entry.target.id);
            let owned = entry.ownership == entry.target.ownership;
            &&& !safe ==> refuses_memory(answer, FailureMemoryValidationError::UnsafeKey)
            &&& safe && !apart ==> refuses_memory(
                answer,
                FailureMemoryValidationError::PersistedStateRepairTerminalMismatch,
            )
            &&& safe && apart && !own ==> refuses_memory(
                answer,
                FailureMemoryValidationError::MemoryKeyMismatch,
            )
            &&& safe && apart && own && !aimed ==> refuses_memory(
                answer,
                FailureMemoryValidationError::UnsafeTargetId,
            )
            &&& safe && apart && own && aimed && !owned ==> refuses_memory(
                answer,
                FailureMemoryValidationError::OwnershipMismatch,
            )
            &&& safe && apart && own && aimed && owned && entry.occurrence_count == 0
                ==> refuses_memory(answer, FailureMemoryValidationError::ZeroOccurrences)
        }),
{
}

/// Whether a memory is about what it says.
pub open spec fn subject_is_in_order(
    entry: GuardianFailureMemoryEntryView,
    rulings: LauncherRulingsView,
) -> bool {
    &&& is_memory_fragment(entry.key)
    &&& entry.reconciliation_terminal is None || entry.persisted_state_repair_terminal is None
    &&& entry.key == expected_key(entry, rulings)
    &&& is_memory_fragment(entry.target.id)
    &&& entry.ownership == entry.target.ownership
    &&& entry.occurrence_count >= 1
}

/// A memory that is about what it says is refused for the times of its observations, its checkpoint, the
/// time until which it suppresses and its hashes, in this order, and then for an end that is inconsistent
/// or that it does not show.
pub proof fn refused_memory_says_what_is_recorded_wrong(
    entry: GuardianFailureMemoryEntryView,
    rulings: LauncherRulingsView,
)
    requires
        subject_is_in_order(entry, rulings),
    ensures
        ({
            let answer = memory_verdict(entry, rulings);
            let first = text_instant(entry.first_observed_at);
            let last = text_instant(entry.last_observed_at);
            let timed = first is Some && last is Some && !last->0.is_before(first->0);
            let bounded = entry.quarantine_checkpoint.bounded;
            let suppressed = entry.suppression_until is Some ==> text_instant(
                entry.suppression_until->0,
            ) is Some;
            let hashed = entry.target_content_hash is Some ==> is_memory_fragment(
                entry.target_content_hash->0,
            );
            let meant = entry.user_intent_hash is Some ==> is_memory_fragment(
                entry.user_intent_hash->0,
            );
            let detailed = timed && bounded && suppressed && hashed && meant;
            let end = entry.reconciliation_terminal;
            let repair = entry.persisted_state_repair_terminal;
            &&& !timed ==> refuses_memory(
                answer,
                FailureMemoryValidationError::InvalidObservedTimestamp,
            )
            &&& timed && !bounded ==> refuses_memory(
                answer,
                FailureMemoryValidationError::UnsafeTargetId,
            )
            &&& timed && bounded && !suppressed ==> refuses_memory(
                answer,
                FailureMemoryValidationError::InvalidSuppressionTimestamp,
            )
            &&& timed && bounded && suppressed && !hashed ==> refuses_memory(
                answer,
                FailureMemoryValidationError::UnsafeTargetHash,
            )
            &&& timed && bounded && suppressed && hashed && !meant ==> refuses_memory(
                answer,
                FailureMemoryValidationError::UnsafeUserIntentHash,
            )
            &&& detailed && end is Some && !end->0.consistent ==> refuses_memory(
                answer,
                FailureMemoryValidationError::InvalidReconciliationTerminal,
            )
            &&& detailed && end is Some && end->0.consistent && !shows_the_reconciliation(
                entry,
                end->0,
            ) ==> refuses_memory(
                answer,
                FailureMemoryValidationError::ReconciliationTerminalMismatch,
            )
            &&& detailed && repair is Some && !repair->0.consistent ==> refuses_memory(
                answer,
                FailureMemoryValidationError::InvalidPersistedStateRepairTerminal,
            )
            &&& detailed && repair is Some && repair->0.consistent && !shows_the_repair(
                entry,
                repair->0,
            ) ==> refuses_memory(
                answer,
                FailureMemoryValidationError::PersistedStateRepairTerminalMismatch,
            )
        }),
{
}

proof fn memory_row_error_is_the_first(
    entries: Seq<GuardianFailureMemoryEntryView>,
    sizes: Seq<u64>,
    n: nat,
    i: int,
    rulings: LauncherRulingsView,
)
    requires
        0 <= i < n,
        memory_rows_verdict(entries, sizes, i as nat, rulings) is Ok,
        memory_row_verdict(entries, sizes, i, rulings) is Err,
    ensures
        memory_rows_verdict(entries, sizes, n, rulings) == memory_row_verdict(
            entries,
            sizes,
            i,
            rulings,
        ),
    decreases n,
{
    if n > i + 1 {
        memory_row_error_is_the_first(entries, sizes, (n - 1) as nat, i, rulings);
    }
}

proof fn memory_rows_before(
    entries: Seq<GuardianFailureMemoryEntryView>,
    sizes: Seq<u64>,
    n: nat,
    rulings: LauncherRulingsView,
)
    requires
        n <= entries.len(),
        forall|j: int|
            0 <= j < n ==> sizes[j] <= 16_384 && memory_verdict(
                #[trigger] entries[j],
                rulings,
            ) is Ok,
        forall|j: int, k: int|
            0 <= j < k < n ==> (#[trigger] entries[j]).key != (#[trigger] entries[k]).key,
    ensures
        memory_rows_verdict(entries, sizes, n, rulings) is Ok,
    decreases n,
{
    if n > 0 {
        memory_rows_before(entries, sizes, (n - 1) as nat, rulings);
        assert(memory_verdict(entries[n - 1], rulings) is Ok);
    }
}

/// A snapshot of the memory is refused for its schema, then for too many entries, and then for the first
/// entry that cannot be: one that is too large, that is out of order, or whose key stands before it.
pub proof fn refused_memories_say_why(
    snapshot: FailureMemorySnapshotView,
    sizes: Seq<u64>,
    rulings: LauncherRulingsView,
    i: int,
)
    ensures
        ({
            let answer = memory_snapshot_verdict(snapshot, sizes, rulings);
            let entries = snapshot.entries;
            let known = snapshot.schema == "axial.guardian.failure_memory.v7"@;
            let before = known && 0 <= i < entries.len() <= 128 && (forall|j: int|
                0 <= j < i ==> sizes[j] <= 16_384 && memory_verdict(
                    #[trigger] entries[j],
                    rulings,
                ) is Ok) && (forall|j: int, k: int|
                0 <= j < k < i ==> (#[trigger] entries[j]).key != (#[trigger] entries[k]).key);
            let verdict = memory_verdict(entries[i], rulings);
            let again = exists|j: int| 0 <= j < i && (#[trigger] entries[j]).key == entries[i].key;
            &&& !known ==> answer is Err && answer->Err_0 is InvalidSchema
            &&& known && entries.len() > 128 ==> answer is Err && answer->Err_0 is TooManyEntries
            &&& before && sizes[i] > 16_384 ==> answer is Err && answer->Err_0 is TooLarge
            &&& before && sizes[i] <= 16_384 && verdict is Err ==> answer is Err && answer->Err_0
                is InvalidEntry && answer->Err_0->InvalidEntry_0 == verdict->Err_0
            &&& before && sizes[i] <= 16_384 && verdict is Ok && again ==> answer is Err
                && answer->Err_0 is DuplicateKey
        }),
{
    let entries = snapshot.entries;
    if 0 <= i < entries.len() && (forall|j: int|
        0 <= j < i ==> sizes[j] <= 16_384 && memory_verdict(
            #[trigger] entries[j],
            rulings,
        ) is Ok) && (forall|j: int, k: int|
        0 <= j < k < i ==> (#[trigger] entries[j]).key != (#[trigger] entries[k]).key) {
        memory_rows_before(entries, sizes, i as nat, rulings);
        if memory_row_verdict(entries, sizes, i, rulings) is Err {
            memory_row_error_is_the_first(entries, sizes, entries.len(), i, rulings);
        }
    }
}

proof fn journal_row_error_is_the_first(
    entries: Seq<OperationJournalEntryView>,
    n: nat,
    i: int,
    rulings: LauncherRulingsView,
)
    requires
        0 <= i < n,
        rows_verdict(entries, i as nat, rulings) is Ok,
        row_verdict(entries, i, rulings) is Err,
    ensures
        rows_verdict(entries, n, rulings) == row_verdict(entries, i, rulings),
    decreases n,
{
    if n > i + 1 {
        journal_row_error_is_the_first(entries, (n - 1) as nat, i, rulings);
    }
}

/// Whether two journals are of performance operations at work on one instance.
pub open spec fn are_at_work_together(
    a: OperationJournalEntryView,
    b: OperationJournalEntryView,
) -> bool {
    &&& at_work(a)
    &&& at_work(b)
    &&& a.intent->Performance_0.intent.instance_id == b.intent->Performance_0.intent.instance_id
}

/// Whether the first journals of a list can stand together.
pub open spec fn stand_together(
    entries: Seq<OperationJournalEntryView>,
    n: int,
    rulings: LauncherRulingsView,
) -> bool {
    &&& forall|j: int|
        0 <= j < n ==> entry_verdict(#[trigger] entries[j], rulings) is Ok && entries[j].sequence
            >= 1
    &&& forall|j: int, k: int|
        0 <= j < k < n ==> {
            &&& (#[trigger] entries[j]).operation_id != (#[trigger] entries[k]).operation_id
            &&& entries[j].sequence != entries[k].sequence
            &&& !are_at_work_together(entries[j], entries[k])
        }
}

proof fn journal_rows_before(
    entries: Seq<OperationJournalEntryView>,
    n: nat,
    rulings: LauncherRulingsView,
)
    requires
        n <= entries.len(),
        stand_together(entries, n as int, rulings),
    ensures
        rows_verdict(entries, n, rulings) is Ok,
    decreases n,
{
    if n > 0 {
        let i = n - 1;
        journal_rows_before(entries, i as nat, rulings);
        assert(entry_verdict(entries[i], rulings) is Ok);
        assert forall|j: int| 0 <= j < i implies {
            &&& (#[trigger] entries[j]).operation_id != entries[i].operation_id
            &&& entries[j].sequence != entries[i].sequence
            &&& !are_at_work_together(entries[j], entries[i])
        } by {}
    }
}

/// A snapshot of journals is refused for its schema, then for the first journal that cannot be: one that
/// is out of order, of an operation that stands before it, without a sequence or with that of one before
/// it, or at work on an instance beside one before it. Last it is refused for a sequence that is to come
/// and has been given.
pub proof fn refused_journals_say_why(
    snapshot: OperationJournalSnapshotView,
    rulings: LauncherRulingsView,
    i: int,
)
    ensures
        ({
            let answer = snapshot_verdict(snapshot, rulings);
            let entries = snapshot.entries;
            let known = snapshot.schema == "axial.state.operation_journals.v10"@;
            let before = known && 0 <= i < entries.len() && stand_together(entries, i, rulings);
            let verdict = entry_verdict(entries[i], rulings);
            let again = exists|j: int|
                0 <= j < i && (#[trigger] entries[j]).operation_id == entries[i].operation_id;
            let counted = entries[i].sequence >= 1 && (forall|j: int|
                0 <= j < i ==> (#[trigger] entries[j]).sequence != entries[i].sequence);
            let beside = exists|j: int|
                0 <= j < i && are_at_work_together(#[trigger] entries[j], entries[i]);
            let all = known && stand_together(entries, entries.len() as int, rulings);
            let given = snapshot.next_sequence == 0 || exists|j: int|
                0 <= j < entries.len() && (#[trigger] entries[j]).sequence
                    >= snapshot.next_sequence;
            &&& !known ==> answer is Err && answer->Err_0 is InvalidSchema
            &&& before && verdict is Err ==> answer is Err && answer->Err_0 is InvalidEntry
                && answer->Err_0->InvalidEntry_0 == verdict->Err_0
            &&& before && verdict is Ok && again ==> answer is Err && answer->Err_0
                is DuplicateOperationId
            &&& before && verdict is Ok && !again && !counted ==> answer is Err && answer->Err_0
                is InvalidSequence
            &&& before && verdict is Ok && !again && counted && beside ==> answer is Err
                && answer->Err_0 is InvalidEntry && answer->Err_0->InvalidEntry_0
                is InvalidPerformanceLifecycle
            &&& all && given ==> answer is Err && answer->Err_0 is InvalidSequence
            &&& all && !given ==> answer is Ok
        }),
{
    let entries = snapshot.entries;
    if stand_together(entries, entries.len() as int, rulings) {
        journal_rows_before(entries, entries.len(), rulings);
    }
    if 0 <= i < entries.len() && stand_together(entries, i, rulings) {
        journal_rows_before(entries, i as nat, rulings);
        if exists|j: int|
            0 <= j < i && are_at_work_together(#[trigger] entries[j], entries[i]) {
            let j = choose|j: int|
                0 <= j < i && are_at_work_together(#[trigger] entries[j], entries[i]);
            assert(active_performance_instance(entries[j]) == active_performance_instance(
                entries[i],
            ));
        }
        if row_verdict(entries, i, rulings) is Err {
            journal_row_error_is_the_first(entries, entries.len(), i, rulings);
        }
    }
}

} // verus!

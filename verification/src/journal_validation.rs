//! Which journal entries and snapshots of journals are in order.

use crate::contracts::{
    CommandKind, DiagnosisId, OperationOutcome, OperationPhase, OperationStatus,
    OperationStepResult, OwnershipClass, PersistedStateRepairTerminalOutcome,
    ReconciliationTerminalOutcome, RollbackState, StabilizationSystem, TargetKind,
};
use crate::entry::{
    OperationIntent, OperationIntentView, OperationJournalEntry, OperationJournalEntryView,
    OperationJournalStep, OperationJournalStepView, OperationStepMetrics, OperationStepMetricsView,
};
use crate::evidence::{
    GuardianInstallTerminalEvidence, GuardianInstallTerminalEvidenceView,
    PersistedStateRepairAttempt, PersistedStateRepairAttemptView, PersistedStateRepairTerminal,
    PersistedStateRepairTerminalView, ReconciliationAttempt, ReconciliationAttemptView,
    ReconciliationTerminal, ReconciliationTerminalView, TargetDescriptor, TargetDescriptorView,
};
use crate::guardian_evidence::planned_step;
use crate::journal_errors::{OperationJournalStoreError, OperationJournalValidationError};
use crate::performance::{
    has_target, lifecycle_is_valid, lifecycle_verdict, names_target, validate_performance_lifecycle,
};
use crate::record::{contains_duplicate, list_has, list_same, views, Record};
use crate::rulings::{LauncherRulings, LauncherRulingsView};
use crate::text::same_text;
use crate::tokens::{is_safe_generated_fact, is_safe_token, safe_generated_fact, safe_token};
use vstd::prelude::*;

verus! {

/// The most facts that a step may have generated.
pub const MAX_OPERATION_JOURNAL_STEP_FACTS: usize = 64;

/// The most targets that an entry may have.
pub const MAX_OPERATION_JOURNAL_TARGETS: usize = 16;

/// The most steps that an entry may plan.
pub const MAX_OPERATION_JOURNAL_PLANNED_STEPS: usize = 128;

/// The most steps that an entry may have completed.
pub const MAX_OPERATION_JOURNAL_COMPLETED_STEPS: usize = 256;

/// The verdict on an entry, or on a part of it.
pub type Verdict = Result<(), OperationJournalValidationError>;

/// The first of two verdicts that is an error.
pub open spec fn first_error(first: Verdict, second: Verdict) -> Verdict {
    match first {
        Ok(()) => second,
        Err(error) => Err(error),
    }
}

/// The verdict that a condition gives.
pub open spec fn demand(met: bool, error: OperationJournalValidationError) -> Verdict {
    if met {
        Ok(())
    } else {
        Err(error)
    }
}

fn check(met: bool, error: OperationJournalValidationError) -> (r: Verdict)
    ensures
        r == demand(met, error),
{
    if met {
        Ok(())
    } else {
        Err(error)
    }
}

/// Whether a status is final.
pub open spec fn is_terminal(status: OperationStatus) -> bool {
    ||| status == OperationStatus::Succeeded
    ||| status == OperationStatus::Failed
    ||| status == OperationStatus::Blocked
    ||| status == OperationStatus::Cancelled
}

/// Whether a status is final.
pub fn operation_journal_status_is_terminal(status: OperationStatus) -> (r: bool)
    ensures
        r == is_terminal(status),
{
    match status {
        OperationStatus::Succeeded => true,
        OperationStatus::Failed => true,
        OperationStatus::Blocked => true,
        OperationStatus::Cancelled => true,
        _ => false,
    }
}

/// The verdict on a target.
pub open spec fn target_verdict(target: TargetDescriptorView) -> Verdict {
    demand(is_safe_token(target.id, 96), OperationJournalValidationError::UnsafeTargetId)
}

/// Checks a target.
pub fn validate_target(target: &TargetDescriptor) -> (r: Verdict)
    ensures
        r == target_verdict(target@),
{
    check(safe_token(target.id.as_str(), 96), OperationJournalValidationError::UnsafeTargetId)
}

/// The verdict on a step.
pub open spec fn step_verdict(
    step: OperationJournalStepView,
    rulings: LauncherRulingsView,
) -> Verdict {
    if !is_safe_token(step.step_id, 96) {
        Err(OperationJournalValidationError::UnsafeStepId)
    } else if step.changed_target matches Some(target) && target_verdict(target) is Err {
        Err(OperationJournalValidationError::UnsafeTargetId)
    } else if step.generated_facts.len() > MAX_OPERATION_JOURNAL_STEP_FACTS {
        Err(OperationJournalValidationError::TooManyFacts)
    } else if exists|i: int|
        0 <= i < step.generated_facts.len() && !is_safe_generated_fact(
            #[trigger] step.generated_facts[i],
            rulings,
        ) {
        Err(OperationJournalValidationError::UnsafeGeneratedFact)
    } else if step.guardian_fact_ids.len() > rulings.max_guardian_fact_ids {
        Err(OperationJournalValidationError::TooManyGuardianFacts)
    } else if !step.guardian_fact_ids.no_duplicates() {
        Err(OperationJournalValidationError::DuplicateGuardianFact)
    } else if step.metrics matches Some(metrics) && !metrics_are_consistent(metrics) {
        Err(OperationJournalValidationError::InvalidOperationMetrics)
    } else {
        Ok(())
    }
}

/// Whether what was measured is consistent in itself.
pub open spec fn metrics_are_consistent(metrics: OperationStepMetricsView) -> bool {
    match metrics {
        OperationStepMetricsView::Tier2Integrity(record) => record.consistent,
        OperationStepMetricsView::ContentDownload(record) => record.consistent,
    }
}

/// Checks a step.
pub fn validate_step(step: &OperationJournalStep, rulings: &LauncherRulings) -> (r: Verdict)
    ensures
        r == step_verdict(step@, rulings@),
{
    if !safe_token(step.step_id.as_str(), 96) {
        return Err(OperationJournalValidationError::UnsafeStepId);
    }
    match &step.changed_target {
        Some(target) => {
            if validate_target(target).is_err() {
                return Err(OperationJournalValidationError::UnsafeTargetId);
            }
        },
        None => {},
    }
    if step.generated_facts.len() > MAX_OPERATION_JOURNAL_STEP_FACTS {
        return Err(OperationJournalValidationError::TooManyFacts);
    }
    let mut i: usize = 0;
    while i < step.generated_facts.len()
        invariant
            i <= step.generated_facts.len(),
            step.generated_facts.len() <= MAX_OPERATION_JOURNAL_STEP_FACTS,
            is_safe_token(step@.step_id, 96),
            step@.changed_target matches Some(target) ==> target_verdict(target) is Ok,
            forall|k: int|
                0 <= k < i ==> is_safe_generated_fact(#[trigger] step@.generated_facts[k], rulings@),
        decreases step.generated_facts.len() - i,
    {
        assert(step@.generated_facts[i as int] == step.generated_facts@[i as int]@);
        if !safe_generated_fact(step.generated_facts[i].as_str(), rulings) {
            return Err(OperationJournalValidationError::UnsafeGeneratedFact);
        }
        i = i + 1;
    }
    if step.guardian_fact_ids.len() > rulings.max_guardian_fact_ids {
        return Err(OperationJournalValidationError::TooManyGuardianFacts);
    }
    assert(views(step.guardian_fact_ids@) =~= step.guardian_fact_ids@);
    if contains_duplicate(&step.guardian_fact_ids) {
        return Err(OperationJournalValidationError::DuplicateGuardianFact);
    }
    match &step.metrics {
        Some(OperationStepMetrics::Tier2Integrity(record)) => check(
            record.consistent,
            OperationJournalValidationError::InvalidOperationMetrics,
        ),
        Some(OperationStepMetrics::ContentDownload(record)) => check(
            record.consistent,
            OperationJournalValidationError::InvalidOperationMetrics,
        ),
        None => Ok(()),
    }
}

/// The verdict on the journal's identity.
pub open spec fn identity_verdict(entry: OperationJournalEntryView) -> Verdict {
    first_error(
        demand(
            is_safe_token(entry.journal_id, 128),
            OperationJournalValidationError::UnsafeJournalId,
        ),
        demand(
            entry.parent_operation_id != Some(entry.operation_id),
            OperationJournalValidationError::InvalidParentOperationId,
        ),
    )
}

fn validate_identity(entry: &OperationJournalEntry) -> (r: Verdict)
    ensures
        r == identity_verdict(entry@),
{
    if !safe_token(entry.journal_id.text.as_str(), 128) {
        return Err(OperationJournalValidationError::UnsafeJournalId);
    }
    match entry.parent_operation_id {
        Some(parent) => check(
            parent != entry.operation_id,
            OperationJournalValidationError::InvalidParentOperationId,
        ),
        None => Ok(()),
    }
}

/// The verdict on the targets of an entry.
pub open spec fn targets_verdict(targets: Seq<TargetDescriptorView>) -> Verdict {
    first_error(
        demand(
            targets.len() <= MAX_OPERATION_JOURNAL_TARGETS,
            OperationJournalValidationError::TooManyTargets,
        ),
        demand(
            forall|i: int| 0 <= i < targets.len() ==> target_verdict(#[trigger] targets[i]) is Ok,
            OperationJournalValidationError::UnsafeTargetId,
        ),
    )
}

fn validate_targets(targets: &Vec<TargetDescriptor>) -> (r: Verdict)
    ensures
        r == targets_verdict(views(targets@)),
{
    let ghost all = views(targets@);
    if targets.len() > MAX_OPERATION_JOURNAL_TARGETS {
        return Err(OperationJournalValidationError::TooManyTargets);
    }
    let mut i: usize = 0;
    while i < targets.len()
        invariant
            i <= targets.len() <= MAX_OPERATION_JOURNAL_TARGETS,
            all == views(targets@),
            forall|k: int| 0 <= k < i ==> target_verdict(#[trigger] all[k]) is Ok,
        decreases targets.len() - i,
    {
        assert(all[i as int] == targets@[i as int]@);
        if validate_target(&targets[i]).is_err() {
            return Err(OperationJournalValidationError::UnsafeTargetId);
        }
        i = i + 1;
    }
    Ok(())
}

/// The verdict on a planned step, which may not carry typed evidence.
pub open spec fn planned_step_verdict(
    step: OperationJournalStepView,
    rulings: LauncherRulingsView,
) -> Verdict {
    first_error(
        step_verdict(step, rulings),
        demand(
            step.guardian_fact_ids.len() == 0 && step.metrics is None,
            OperationJournalValidationError::InvalidOperationMetrics,
        ),
    )
}

/// The first error among planned steps.
pub open spec fn planned_steps_verdict(
    steps: Seq<OperationJournalStepView>,
    rulings: LauncherRulingsView,
) -> Verdict
    decreases steps.len(),
{
    if steps.len() == 0 {
        Ok(())
    } else {
        first_error(
            planned_steps_verdict(steps.drop_last(), rulings),
            planned_step_verdict(steps.last(), rulings),
        )
    }
}

/// The first error among completed steps.
pub open spec fn completed_steps_verdict(
    steps: Seq<OperationJournalStepView>,
    rulings: LauncherRulingsView,
) -> Verdict
    decreases steps.len(),
{
    if steps.len() == 0 {
        Ok(())
    } else {
        first_error(
            completed_steps_verdict(steps.drop_last(), rulings),
            step_verdict(steps.last(), rulings),
        )
    }
}

/// An error among the first steps is the error among all of them.
proof fn planned_error_stays(
    steps: Seq<OperationJournalStepView>,
    n: int,
    rulings: LauncherRulingsView,
)
    requires
        0 <= n <= steps.len(),
        planned_steps_verdict(steps.subrange(0, n), rulings) is Err,
    ensures
        planned_steps_verdict(steps, rulings) == planned_steps_verdict(
            steps.subrange(0, n),
            rulings,
        ),
    decreases steps.len(),
{
    if n == steps.len() {
        assert(steps.subrange(0, n) =~= steps);
    } else {
        assert(steps.drop_last().subrange(0, n) =~= steps.subrange(0, n));
        planned_error_stays(steps.drop_last(), n, rulings);
    }
}

proof fn completed_error_stays(
    steps: Seq<OperationJournalStepView>,
    n: int,
    rulings: LauncherRulingsView,
)
    requires
        0 <= n <= steps.len(),
        completed_steps_verdict(steps.subrange(0, n), rulings) is Err,
    ensures
        completed_steps_verdict(steps, rulings) == completed_steps_verdict(
            steps.subrange(0, n),
            rulings,
        ),
    decreases steps.len(),
{
    if n == steps.len() {
        assert(steps.subrange(0, n) =~= steps);
    } else {
        assert(steps.drop_last().subrange(0, n) =~= steps.subrange(0, n));
        completed_error_stays(steps.drop_last(), n, rulings);
    }
}

fn validate_planned_steps(steps: &Vec<OperationJournalStep>, rulings: &LauncherRulings) -> (r:
    Verdict)
    ensures
        r == first_error(
            demand(
                steps@.len() <= MAX_OPERATION_JOURNAL_PLANNED_STEPS,
                OperationJournalValidationError::TooManyPlannedSteps,
            ),
            planned_steps_verdict(views(steps@), rulings@),
        ),
{
    if steps.len() > MAX_OPERATION_JOURNAL_PLANNED_STEPS {
        return Err(OperationJournalValidationError::TooManyPlannedSteps);
    }
    let ghost all = views(steps@);
    let mut i: usize = 0;
    assert(all.subrange(0, 0) =~= Seq::empty());
    while i < steps.len()
        invariant
            i <= steps.len() <= MAX_OPERATION_JOURNAL_PLANNED_STEPS,
            all == views(steps@),
            planned_steps_verdict(all.subrange(0, i as int), rulings@) is Ok,
        decreases steps.len() - i,
    {
        let step = &steps[i];
        let ghost upto = all.subrange(0, i + 1);
        assert(upto.drop_last() =~= all.subrange(0, i as int));
        assert(upto.last() == step@);
        match validate_step(step, rulings) {
            Ok(()) => {},
            Err(error) => {
                proof {
                    planned_error_stays(all, i + 1, rulings@);
                }
                return Err(error);
            },
        }
        if step.guardian_fact_ids.len() != 0 || step.metrics.is_some() {
            proof {
                planned_error_stays(all, i + 1, rulings@);
            }
            return Err(OperationJournalValidationError::InvalidOperationMetrics);
        }
        i = i + 1;
    }
    assert(all.subrange(0, all.len() as int) =~= all);
    Ok(())
}

fn validate_completed_steps(steps: &Vec<OperationJournalStep>, rulings: &LauncherRulings) -> (r:
    Verdict)
    ensures
        r == first_error(
            demand(
                steps@.len() <= MAX_OPERATION_JOURNAL_COMPLETED_STEPS,
                OperationJournalValidationError::TooManyCompletedSteps,
            ),
            completed_steps_verdict(views(steps@), rulings@),
        ),
{
    if steps.len() > MAX_OPERATION_JOURNAL_COMPLETED_STEPS {
        return Err(OperationJournalValidationError::TooManyCompletedSteps);
    }
    let ghost all = views(steps@);
    let mut i: usize = 0;
    assert(all.subrange(0, 0) =~= Seq::empty());
    while i < steps.len()
        invariant
            i <= steps.len() <= MAX_OPERATION_JOURNAL_COMPLETED_STEPS,
            all == views(steps@),
            completed_steps_verdict(all.subrange(0, i as int), rulings@) is Ok,
        decreases steps.len() - i,
    {
        let ghost upto = all.subrange(0, i + 1);
        assert(upto.drop_last() =~= all.subrange(0, i as int));
        assert(upto.last() == steps@[i as int]@);
        match validate_step(&steps[i], rulings) {
            Ok(()) => {},
            Err(error) => {
                proof {
                    completed_error_stays(all, i + 1, rulings@);
                }
                return Err(error);
            },
        }
        i = i + 1;
    }
    assert(all.subrange(0, all.len() as int) =~= all);
    Ok(())
}

/// The verdict on the failure point and the diagnoses of an entry.
pub open spec fn findings_verdict(
    entry: OperationJournalEntryView,
    rulings: LauncherRulingsView,
) -> Verdict {
    if entry.failure_point matches Some(point) && !is_safe_token(point, 96) {
        Err(OperationJournalValidationError::UnsafeFailurePoint)
    } else if entry.guardian_diagnosis_ids.len() > rulings.max_guardian_diagnoses {
        Err(OperationJournalValidationError::TooManyDiagnoses)
    } else if !entry.guardian_diagnosis_ids.no_duplicates() {
        Err(OperationJournalValidationError::DuplicateDiagnosis)
    } else {
        Ok(())
    }
}

fn validate_findings(entry: &OperationJournalEntry, rulings: &LauncherRulings) -> (r: Verdict)
    ensures
        r == findings_verdict(entry@, rulings@),
{
    match &entry.failure_point {
        Some(point) => {
            if !safe_token(point.as_str(), 96) {
                return Err(OperationJournalValidationError::UnsafeFailurePoint);
            }
        },
        None => {},
    }
    if entry.guardian_diagnosis_ids.len() > rulings.max_guardian_diagnoses {
        return Err(OperationJournalValidationError::TooManyDiagnoses);
    }
    assert(views(entry.guardian_diagnosis_ids@) =~= entry.guardian_diagnosis_ids@);
    check(
        !contains_duplicate(&entry.guardian_diagnosis_ids),
        OperationJournalValidationError::DuplicateDiagnosis,
    )
}

/// Whether a command downloads content.
pub open spec fn downloads_content(command: CommandKind) -> bool {
    command == CommandKind::InstallVersion || command == CommandKind::ModifyInstanceContent
}

/// Whether a step may carry the metrics that it carries.
pub open spec fn metrics_are_in_place(
    command: CommandKind,
    step: OperationJournalStepView,
) -> bool {
    match step.metrics {
        Some(OperationStepMetricsView::Tier2Integrity(_)) => {
            command == CommandKind::ValidateInstance && step.step_id == "tier2_integrity_sweep"@
                && step.phase == OperationPhase::Validating
        },
        Some(OperationStepMetricsView::ContentDownload(_)) => {
            downloads_content(command) && step.phase == OperationPhase::Downloading
        },
        None => true,
    }
}

/// Whether a completed integrity sweep carries its metrics.
pub open spec fn sweep_is_measured(step: OperationJournalStepView) -> bool {
    step.step_id == "tier2_integrity_sweep"@ ==> step.metrics matches Some(
        OperationStepMetricsView::Tier2Integrity(_),
    )
}

/// Whether all metrics of an entry are where they belong.
pub open spec fn step_metrics_fit(entry: OperationJournalEntryView) -> bool {
    &&& forall|i: int|
        0 <= i < entry.planned_steps.len() ==> metrics_are_in_place(
            entry.command,
            #[trigger] entry.planned_steps[i],
        ) && !(entry.planned_steps[i].step_id == "tier2_integrity_sweep"@
            && entry.planned_steps[i].metrics is Some)
    &&& forall|i: int|
        0 <= i < entry.completed_steps.len() ==> metrics_are_in_place(
            entry.command,
            #[trigger] entry.completed_steps[i],
        ) && sweep_is_measured(entry.completed_steps[i])
}

fn metrics_in_place(command: CommandKind, step: &OperationJournalStep) -> (r: bool)
    ensures
        r == metrics_are_in_place(command, step@),
{
    match &step.metrics {
        Some(OperationStepMetrics::Tier2Integrity(_)) => {
            command == CommandKind::ValidateInstance && same_text(
                step.step_id.as_str(),
                "tier2_integrity_sweep",
            ) && step.phase == OperationPhase::Validating
        },
        Some(OperationStepMetrics::ContentDownload(_)) => {
            (command == CommandKind::InstallVersion || command
                == CommandKind::ModifyInstanceContent) && step.phase == OperationPhase::Downloading
        },
        None => true,
    }
}

/// Checks that the metrics of an entry's steps are where they belong.
pub fn validate_entry_step_metrics(entry: &OperationJournalEntry) -> (r: Verdict)
    ensures
        r == demand(
            step_metrics_fit(entry@),
            OperationJournalValidationError::InvalidOperationMetrics,
        ),
{
    let mut i: usize = 0;
    while i < entry.planned_steps.len()
        invariant
            i <= entry.planned_steps.len(),
            forall|k: int|
                0 <= k < i ==> metrics_are_in_place(
                    entry.command,
                    #[trigger] entry@.planned_steps[k],
                ) && !(entry@.planned_steps[k].step_id == "tier2_integrity_sweep"@
                    && entry@.planned_steps[k].metrics is Some),
        decreases entry.planned_steps.len() - i,
    {
        let step = &entry.planned_steps[i];
        assert(entry@.planned_steps[i as int] == step@);
        if !metrics_in_place(entry.command, step) || (same_text(
            step.step_id.as_str(),
            "tier2_integrity_sweep",
        ) && step.metrics.is_some()) {
            return Err(OperationJournalValidationError::InvalidOperationMetrics);
        }
        i = i + 1;
    }
    let mut j: usize = 0;
    while j < entry.completed_steps.len()
        invariant
            j <= entry.completed_steps.len(),
            forall|k: int|
                0 <= k < j ==> metrics_are_in_place(
                    entry.command,
                    #[trigger] entry@.completed_steps[k],
                ) && sweep_is_measured(entry@.completed_steps[k]),
        decreases entry.completed_steps.len() - j,
    {
        let step = &entry.completed_steps[j];
        assert(entry@.completed_steps[j as int] == step@);
        let measured = match &step.metrics {
            Some(OperationStepMetrics::Tier2Integrity(_)) => true,
            _ => false,
        };
        if !metrics_in_place(entry.command, step) || (same_text(
            step.step_id.as_str(),
            "tier2_integrity_sweep",
        ) && !measured) {
            return Err(OperationJournalValidationError::InvalidOperationMetrics);
        }
        j = j + 1;
    }
    Ok(())
}

/// The verdict on the Guardian's verdict on a failed installation.
pub open spec fn install_terminal_verdict(
    entry: OperationJournalEntryView,
    terminal: GuardianInstallTerminalEvidenceView,
) -> Verdict {
    first_error(
        demand(
            terminal.consistent && entry.status == OperationStatus::Failed && entry.outcome == Some(
                OperationOutcome::Failed,
            ) && downloads_content(entry.command) && entry.guardian_diagnosis_ids.contains(
                terminal.diagnosis_id,
            ),
            OperationJournalValidationError::InvalidGuardianInstallTerminal,
        ),
        match terminal.memory {
            Some(memory) => target_verdict(memory.target),
            None => Ok(()),
        },
    )
}

fn validate_install_terminal(
    entry: &OperationJournalEntry,
    terminal: &GuardianInstallTerminalEvidence,
) -> (r: Verdict)
    ensures
        r == install_terminal_verdict(entry@, terminal@),
{
    let failed = match entry.outcome {
        Some(outcome) => outcome == OperationOutcome::Failed,
        None => false,
    };
    assert(views(entry.guardian_diagnosis_ids@) =~= entry.guardian_diagnosis_ids@);
    if !terminal.consistent || entry.status != OperationStatus::Failed || !failed || !(
    entry.command == CommandKind::InstallVersion || entry.command
        == CommandKind::ModifyInstanceContent) || !list_has(
        &entry.guardian_diagnosis_ids,
        &terminal.diagnosis_id,
    ) {
        return Err(OperationJournalValidationError::InvalidGuardianInstallTerminal);
    }
    match &terminal.memory {
        Some(memory) => validate_target(&memory.target),
        None => Ok(()),
    }
}

/// The verdict on what an operation is for.
pub open spec fn intent_verdict(
    entry: OperationJournalEntryView,
    rulings: LauncherRulingsView,
) -> Verdict {
    match entry.intent {
        OperationIntentView::Performance(lifecycle) => lifecycle_verdict(
            lifecycle_is_valid(entry, lifecycle, rulings),
        ),
        OperationIntentView::Generic {  } => demand(
            entry.command != CommandKind::ApplyPerformancePlan,
            OperationJournalValidationError::InvalidPerformanceLifecycle,
        ),
    }
}

fn validate_intent(entry: &OperationJournalEntry, rulings: &LauncherRulings) -> (r: Verdict)
    ensures
        r == intent_verdict(entry@, rulings@),
{
    match &entry.intent {
        OperationIntent::Performance(lifecycle) => validate_performance_lifecycle(
            entry,
            lifecycle,
            rulings,
        ),
        OperationIntent::Generic {  } => check(
            entry.command != CommandKind::ApplyPerformancePlan,
            OperationJournalValidationError::InvalidPerformanceLifecycle,
        ),
    }
}

/// The verdict on which kind of repair an entry is about: at most one, and the repair of persisted
/// state exactly where the command asks for it.
pub open spec fn repair_kind_verdict(entry: OperationJournalEntryView) -> Verdict {
    demand(
        !((entry.reconciliation_attempt is Some || entry.reconciliation_terminal is Some) && (
        entry.persisted_state_repair_attempt is Some || entry.persisted_state_repair_terminal
            is Some)) && (entry.command == CommandKind::RepairPersistedState) == (
        entry.persisted_state_repair_attempt is Some),
        OperationJournalValidationError::PersistedStateRepairMismatch,
    )
}

fn validate_repair_kind(entry: &OperationJournalEntry) -> (r: Verdict)
    ensures
        r == repair_kind_verdict(entry@),
{
    check(
        !((entry.reconciliation_attempt.is_some() || entry.reconciliation_terminal.is_some()) && (
        entry.persisted_state_repair_attempt.is_some()
            || entry.persisted_state_repair_terminal.is_some())) && (entry.command
            == CommandKind::RepairPersistedState)
            == entry.persisted_state_repair_attempt.is_some(),
        OperationJournalValidationError::PersistedStateRepairMismatch,
    )
}

/// Whether a reconciliation attempt belongs to an entry.
pub open spec fn attempt_fits(
    entry: OperationJournalEntryView,
    attempt: ReconciliationAttemptView,
) -> bool {
    &&& attempt.operation_id == entry.operation_id
    &&& entry.command == CommandKind::RepairInstance
    &&& entry.owner == StabilizationSystem::Guardian
    &&& attempt.ownership == entry.ownership
    &&& entry.targets.contains(attempt.target)
    &&& entry.guardian_diagnosis_ids.contains(attempt.diagnosis_id)
    &&& names_target(
        entry.targets,
        StabilizationSystem::State,
        TargetKind::Instance,
        attempt.scope.instance_id,
        attempt.ownership,
    )
}

/// The verdict on a reconciliation attempt.
pub open spec fn attempt_verdict(
    entry: OperationJournalEntryView,
    attempt: ReconciliationAttemptView,
) -> Verdict {
    first_error(
        demand(
            attempt.consistent,
            OperationJournalValidationError::InvalidReconciliationTerminal,
        ),
        demand(
            attempt_fits(entry, attempt),
            OperationJournalValidationError::ReconciliationTerminalMismatch,
        ),
    )
}

/// Checks that a reconciliation attempt belongs to an entry.
pub fn validate_reconciliation_attempt(
    entry: &OperationJournalEntry,
    attempt: &ReconciliationAttempt,
) -> (r: Verdict)
    ensures
        r == attempt_verdict(entry@, attempt@),
{
    if !attempt.consistent {
        return Err(OperationJournalValidationError::InvalidReconciliationTerminal);
    }
    assert(views(entry.guardian_diagnosis_ids@) =~= entry.guardian_diagnosis_ids@);
    check(
        attempt.operation_id == entry.operation_id && entry.command == CommandKind::RepairInstance
            && entry.owner == StabilizationSystem::Guardian && attempt.ownership == entry.ownership
            && list_has(&entry.targets, &attempt.target) && list_has(
            &entry.guardian_diagnosis_ids,
            &attempt.diagnosis_id,
        ) && has_target(
            &entry.targets,
            StabilizationSystem::State,
            TargetKind::Instance,
            attempt.scope.instance_id.as_str(),
            attempt.ownership,
        ),
        OperationJournalValidationError::ReconciliationTerminalMismatch,
    )
}

/// Whether a step has put the target into quarantine.
pub open spec fn is_completed_quarantine(step: OperationJournalStepView) -> bool {
    step.step_id == "quarantine_launcher_managed_target"@ && step.result
        == OperationStepResult::Completed
}

/// Whether a step of the entry has put the target into quarantine.
pub open spec fn holds_completed_quarantine(steps: Seq<OperationJournalStepView>) -> bool {
    exists|i: int| 0 <= i < steps.len() && is_completed_quarantine(#[trigger] steps[i])
}

/// Whether the last step ended in this way on this target.
pub open spec fn ends_on(
    steps: Seq<OperationJournalStepView>,
    result: OperationStepResult,
    target: TargetDescriptorView,
) -> bool {
    steps.len() > 0 && steps.last().result == result && steps.last().changed_target == Some(target)
}

/// Whether an entry ended as its reconciliation did.
pub open spec fn terminal_fits(
    entry: OperationJournalEntryView,
    terminal: ReconciliationTerminalView,
) -> bool {
    &&& entry.reconciliation_attempt == Some(terminal.attempt)
    &&& holds_completed_quarantine(entry.completed_steps) == (
    terminal.quarantine_checkpoint.records.len() > 0)
    &&& match terminal.outcome {
        ReconciliationTerminalOutcome::Succeeded => {
            &&& entry.status == OperationStatus::Succeeded
            &&& entry.outcome == Some(OperationOutcome::Succeeded)
            &&& entry.failure_point is None
            &&& ends_on(
                entry.completed_steps,
                OperationStepResult::Completed,
                terminal.attempt.target,
            )
        },
        ReconciliationTerminalOutcome::Failed => {
            &&& entry.status == OperationStatus::Failed
            &&& entry.outcome == Some(OperationOutcome::Failed)
            &&& entry.failure_point is Some
            &&& ends_on(entry.completed_steps, OperationStepResult::Failed, terminal.attempt.target)
        },
    }
}

/// The verdict on the reconciliation of an entry.
pub open spec fn reconciliation_verdict(entry: OperationJournalEntryView) -> Verdict {
    first_error(
        match entry.reconciliation_attempt {
            Some(attempt) => attempt_verdict(entry, attempt),
            None => Ok(()),
        },
        match entry.reconciliation_terminal {
            Some(terminal) => first_error(
                demand(
                    terminal.consistent,
                    OperationJournalValidationError::InvalidReconciliationTerminal,
                ),
                demand(
                    terminal_fits(entry, terminal),
                    OperationJournalValidationError::ReconciliationTerminalMismatch,
                ),
            ),
            None => demand(
                !(entry.command == CommandKind::RepairInstance && entry.owner
                    == StabilizationSystem::Guardian && (entry.status == OperationStatus::Succeeded
                    || entry.status == OperationStatus::Failed)),
                OperationJournalValidationError::ReconciliationTerminalMismatch,
            ),
        },
    )
}

fn has_completed_quarantine(steps: &Vec<OperationJournalStep>) -> (r: bool)
    ensures
        r == holds_completed_quarantine(views(steps@)),
{
    let ghost all = views(steps@);
    let mut i: usize = 0;
    while i < steps.len()
        invariant
            i <= steps.len(),
            all == views(steps@),
            forall|k: int| 0 <= k < i ==> !is_completed_quarantine(#[trigger] all[k]),
        decreases steps.len() - i,
    {
        assert(all[i as int] == steps@[i as int]@);
        if same_text(steps[i].step_id.as_str(), "quarantine_launcher_managed_target")
            && steps[i].result == OperationStepResult::Completed {
            assert(is_completed_quarantine(all[i as int]));
            return true;
        }
        i = i + 1;
    }
    false
}

fn last_step_ends_on(
    steps: &Vec<OperationJournalStep>,
    result: OperationStepResult,
    target: &TargetDescriptor,
) -> (r: bool)
    ensures
        r == ends_on(views(steps@), result, target@),
{
    if steps.len() == 0 {
        return false;
    }
    let step = &steps[steps.len() - 1];
    assert(views(steps@).last() == step@);
    let on_target = match &step.changed_target {
        Some(changed) => changed.same(target),
        None => false,
    };
    step.result == result && on_target
}

fn terminal_belongs(entry: &OperationJournalEntry, terminal: &ReconciliationTerminal) -> (r: bool)
    ensures
        r == terminal_fits(entry@, terminal@),
{
    let same_attempt = match &entry.reconciliation_attempt {
        Some(attempt) => attempt.same(&terminal.attempt),
        None => false,
    };
    if !same_attempt || has_completed_quarantine(&entry.completed_steps) != (
    terminal.quarantine_checkpoint.records.len() > 0) {
        return false;
    }
    match terminal.outcome {
        ReconciliationTerminalOutcome::Succeeded => {
            let succeeded = match entry.outcome {
                Some(outcome) => outcome == OperationOutcome::Succeeded,
                None => false,
            };
            entry.status == OperationStatus::Succeeded && succeeded && entry.failure_point.is_none()
                && last_step_ends_on(
                &entry.completed_steps,
                OperationStepResult::Completed,
                &terminal.attempt.target,
            )
        },
        ReconciliationTerminalOutcome::Failed => {
            let failed = match entry.outcome {
                Some(outcome) => outcome == OperationOutcome::Failed,
                None => false,
            };
            entry.status == OperationStatus::Failed && failed && entry.failure_point.is_some()
                && last_step_ends_on(
                &entry.completed_steps,
                OperationStepResult::Failed,
                &terminal.attempt.target,
            )
        },
    }
}

fn validate_reconciliation(entry: &OperationJournalEntry) -> (r: Verdict)
    ensures
        r == reconciliation_verdict(entry@),
{
    match &entry.reconciliation_attempt {
        Some(attempt) => match validate_reconciliation_attempt(entry, attempt) {
            Ok(()) => {},
            Err(error) => {
                return Err(error);
            },
        },
        None => {},
    }
    match &entry.reconciliation_terminal {
        Some(terminal) => {
            if !terminal.consistent {
                return Err(OperationJournalValidationError::InvalidReconciliationTerminal);
            }
            check(
                terminal_belongs(entry, terminal),
                OperationJournalValidationError::ReconciliationTerminalMismatch,
            )
        },
        None => check(
            !(entry.command == CommandKind::RepairInstance && entry.owner
                == StabilizationSystem::Guardian && (entry.status == OperationStatus::Succeeded
                || entry.status == OperationStatus::Failed)),
            OperationJournalValidationError::ReconciliationTerminalMismatch,
        ),
    }
}

/// How an entry stands once the repair of its persisted record has ended.
pub struct PersistedStateRepairJournalTerminalShape {
    pub status: OperationStatus,
    pub outcome: OperationOutcome,
    pub step_result: OperationStepResult,
    pub failure_point: Option<&'static str>,
    pub fact: &'static str,
}

pub open spec fn repair_status(outcome: PersistedStateRepairTerminalOutcome) -> OperationStatus {
    if outcome == PersistedStateRepairTerminalOutcome::Quarantined {
        OperationStatus::Succeeded
    } else {
        OperationStatus::Failed
    }
}

pub open spec fn repair_outcome(outcome: PersistedStateRepairTerminalOutcome) -> OperationOutcome {
    if outcome == PersistedStateRepairTerminalOutcome::Quarantined {
        OperationOutcome::Succeeded
    } else {
        OperationOutcome::Failed
    }
}

pub open spec fn repair_step_result(outcome: PersistedStateRepairTerminalOutcome) -> OperationStepResult {
    if outcome == PersistedStateRepairTerminalOutcome::Quarantined {
        OperationStepResult::Completed
    } else {
        OperationStepResult::Failed
    }
}

pub open spec fn repair_failure_point(outcome: PersistedStateRepairTerminalOutcome) -> Option<
    Seq<char>,
> {
    match outcome {
        PersistedStateRepairTerminalOutcome::Quarantined => None,
        PersistedStateRepairTerminalOutcome::Refused => Some("persisted_state_quarantine_refused"@),
        PersistedStateRepairTerminalOutcome::AppliedUnverified => Some(
            "persisted_state_quarantine_applied_unverified"@,
        ),
    }
}

pub open spec fn repair_fact(outcome: PersistedStateRepairTerminalOutcome) -> Seq<char> {
    match outcome {
        PersistedStateRepairTerminalOutcome::Quarantined => "persisted_state_record_quarantined"@,
        PersistedStateRepairTerminalOutcome::Refused => "persisted_state_quarantine_refused"@,
        PersistedStateRepairTerminalOutcome::AppliedUnverified => {
            "persisted_state_quarantine_applied_unverified"@
        },
    }
}

/// How an entry stands once the repair of its persisted record has ended.
pub fn persisted_state_repair_terminal_shape(outcome: PersistedStateRepairTerminalOutcome) -> (r:
    PersistedStateRepairJournalTerminalShape)
    ensures
        r.status == repair_status(outcome),
        r.outcome == repair_outcome(outcome),
        r.step_result == repair_step_result(outcome),
        (match r.failure_point {
            Some(text) => Some(text@),
            None => None,
        }) == repair_failure_point(outcome),
        r.fact@ == repair_fact(outcome),
{
    match outcome {
        PersistedStateRepairTerminalOutcome::Quarantined => PersistedStateRepairJournalTerminalShape {
            status: OperationStatus::Succeeded,
            outcome: OperationOutcome::Succeeded,
            step_result: OperationStepResult::Completed,
            failure_point: None,
            fact: "persisted_state_record_quarantined",
        },
        PersistedStateRepairTerminalOutcome::Refused => PersistedStateRepairJournalTerminalShape {
            status: OperationStatus::Failed,
            outcome: OperationOutcome::Failed,
            step_result: OperationStepResult::Failed,
            failure_point: Some("persisted_state_quarantine_refused"),
            fact: "persisted_state_quarantine_refused",
        },
        PersistedStateRepairTerminalOutcome::AppliedUnverified => {
            PersistedStateRepairJournalTerminalShape {
                status: OperationStatus::Failed,
                outcome: OperationOutcome::Failed,
                step_result: OperationStepResult::Failed,
                failure_point: Some("persisted_state_quarantine_applied_unverified"),
                fact: "persisted_state_quarantine_applied_unverified",
            }
        },
    }
}

/// The step that the repair of a persisted record plans.
pub open spec fn repair_plan_step() -> OperationJournalStepView {
    planned_step("quarantine_rejected_restart_record"@, OperationPhase::Repairing)
}

/// The step that the repair of a persisted record ends with.
pub open spec fn repair_end_step(
    terminal: PersistedStateRepairTerminalView,
) -> OperationJournalStepView {
    OperationJournalStepView {
        result: repair_step_result(terminal.outcome),
        changed_target: Some(terminal.attempt.target),
        generated_facts: seq![repair_fact(terminal.outcome)],
        ..repair_plan_step()
    }
}

/// The step that the repair of a persisted record plans.
pub fn new_repair_plan_step() -> (r: OperationJournalStep)
    ensures
        r@ == repair_plan_step(),
{
    OperationJournalStep::new("quarantine_rejected_restart_record", OperationPhase::Repairing)
}

/// The step that the repair of a persisted record ends with.
pub fn new_repair_end_step(terminal: &PersistedStateRepairTerminal) -> (r: OperationJournalStep)
    ensures
        r@ == repair_end_step(terminal@),
{
    let shape = persisted_state_repair_terminal_shape(terminal.outcome);
    let mut step = new_repair_plan_step();
    step.result = shape.step_result;
    step.changed_target = Some(terminal.attempt.target.duplicate());
    let mut facts: Vec<String> = Vec::new();
    facts.push(shape.fact.to_owned());
    step.generated_facts = facts;
    assert(step@.generated_facts =~= seq![repair_fact(terminal.outcome)]);
    step
}

/// Whether an entry is the plan to repair a persisted record.
pub open spec fn repair_plan_fits(
    entry: OperationJournalEntryView,
    attempt: PersistedStateRepairAttemptView,
) -> bool {
    &&& attempt.operation_id == entry.operation_id
    &&& entry.journal_id == attempt.journal_id
    &&& entry.command == CommandKind::RepairPersistedState
    &&& entry.owner == StabilizationSystem::Guardian
    &&& entry.ownership == OwnershipClass::LauncherManaged
    &&& entry.targets == seq![attempt.target]
    &&& entry.guardian_diagnosis_ids == seq![DiagnosisId::PersistedStateSchemaInvalid]
    &&& entry.rollback == RollbackState::NotApplicable
    &&& entry.planned_steps == seq![repair_plan_step()]
    &&& entry.persisted_state_repair_terminal is None ==> {
        &&& entry.status == OperationStatus::Planned
        &&& entry.completed_steps.len() == 0
        &&& entry.failure_point is None
        &&& entry.outcome is None
    }
}

/// Whether an entry ended as the repair of its persisted record did.
pub open spec fn repair_end_fits(
    entry: OperationJournalEntryView,
    terminal: PersistedStateRepairTerminalView,
) -> bool {
    &&& entry.persisted_state_repair_attempt == Some(terminal.attempt)
    &&& entry.completed_steps == seq![repair_end_step(terminal)]
    &&& entry.status == repair_status(terminal.outcome)
    &&& entry.outcome == Some(repair_outcome(terminal.outcome))
    &&& entry.failure_point == repair_failure_point(terminal.outcome)
}

/// The verdict on the repair of a persisted record.
pub open spec fn repair_verdict(entry: OperationJournalEntryView) -> Verdict {
    first_error(
        match entry.persisted_state_repair_attempt {
            Some(attempt) => first_error(
                demand(
                    attempt.consistent,
                    OperationJournalValidationError::InvalidPersistedStateRepair,
                ),
                demand(
                    repair_plan_fits(entry, attempt),
                    OperationJournalValidationError::PersistedStateRepairMismatch,
                ),
            ),
            None => Ok(()),
        },
        match entry.persisted_state_repair_terminal {
            Some(terminal) => first_error(
                demand(
                    terminal.consistent,
                    OperationJournalValidationError::InvalidPersistedStateRepair,
                ),
                demand(
                    repair_end_fits(entry, terminal),
                    OperationJournalValidationError::PersistedStateRepairMismatch,
                ),
            ),
            None => demand(
                !(entry.command == CommandKind::RepairPersistedState && is_terminal(entry.status)),
                OperationJournalValidationError::PersistedStateRepairMismatch,
            ),
        },
    )
}

fn is_only_step(steps: &Vec<OperationJournalStep>, step: &OperationJournalStep) -> (r: bool)
    ensures
        r == (views(steps@) == seq![step@]),
{
    if steps.len() != 1 {
        assert(views(steps@).len() != seq![step@].len());
        return false;
    }
    let same = steps[0].same(step);
    proof {
        assert(views(steps@)[0] == steps@[0]@);
        if same {
            assert(views(steps@) =~= seq![step@]);
        } else {
            assert(seq![step@][0] == step@);
        }
    }
    same
}

fn plan_belongs(entry: &OperationJournalEntry, attempt: &PersistedStateRepairAttempt) -> (r: bool)
    ensures
        r == repair_plan_fits(entry@, attempt@),
{
    let plan = new_repair_plan_step();
    let mut targets: Vec<TargetDescriptor> = Vec::new();
    targets.push(attempt.target.duplicate());
    let mut diagnoses: Vec<DiagnosisId> = Vec::new();
    diagnoses.push(DiagnosisId::PersistedStateSchemaInvalid);
    proof {
        assert(views(targets@) =~= seq![attempt@.target]);
        assert(views(diagnoses@) =~= seq![DiagnosisId::PersistedStateSchemaInvalid]);
        assert(views(entry.guardian_diagnosis_ids@) =~= entry.guardian_diagnosis_ids@);
    }
    let untouched = entry.persisted_state_repair_terminal.is_some() || (entry.status
        == OperationStatus::Planned && entry.completed_steps.len() == 0
        && entry.failure_point.is_none() && entry.outcome.is_none());
    attempt.operation_id == entry.operation_id && entry.journal_id.same(&attempt.journal_id)
        && entry.command == CommandKind::RepairPersistedState && entry.owner
        == StabilizationSystem::Guardian && entry.ownership == OwnershipClass::LauncherManaged
        && list_same(&entry.targets, &targets) && list_same(
        &entry.guardian_diagnosis_ids,
        &diagnoses,
    ) && entry.rollback == RollbackState::NotApplicable && is_only_step(&entry.planned_steps, &plan)
        && untouched
}

fn end_belongs(entry: &OperationJournalEntry, terminal: &PersistedStateRepairTerminal) -> (r: bool)
    ensures
        r == repair_end_fits(entry@, terminal@),
{
    let shape = persisted_state_repair_terminal_shape(terminal.outcome);
    let end = new_repair_end_step(terminal);
    let same_attempt = match &entry.persisted_state_repair_attempt {
        Some(attempt) => attempt.same(&terminal.attempt),
        None => false,
    };
    let same_outcome = match entry.outcome {
        Some(outcome) => outcome == shape.outcome,
        None => false,
    };
    let same_failure_point = match (&entry.failure_point, shape.failure_point) {
        (Some(point), Some(expected)) => same_text(point.as_str(), expected),
        (None, None) => true,
        _ => false,
    };
    same_attempt && is_only_step(&entry.completed_steps, &end) && entry.status == shape.status
        && same_outcome && same_failure_point
}

fn validate_persisted_state_repair(entry: &OperationJournalEntry) -> (r: Verdict)
    ensures
        r == repair_verdict(entry@),
{
    match &entry.persisted_state_repair_attempt {
        Some(attempt) => {
            if !attempt.consistent {
                return Err(OperationJournalValidationError::InvalidPersistedStateRepair);
            }
            if !plan_belongs(entry, attempt) {
                return Err(OperationJournalValidationError::PersistedStateRepairMismatch);
            }
        },
        None => {},
    }
    match &entry.persisted_state_repair_terminal {
        Some(terminal) => {
            if !terminal.consistent {
                return Err(OperationJournalValidationError::InvalidPersistedStateRepair);
            }
            check(
                end_belongs(entry, terminal),
                OperationJournalValidationError::PersistedStateRepairMismatch,
            )
        },
        None => check(
            !(entry.command == CommandKind::RepairPersistedState
                && operation_journal_status_is_terminal(entry.status)),
            OperationJournalValidationError::PersistedStateRepairMismatch,
        ),
    }
}

/// The verdict on an entry: the first error in the order in which its parts are looked at.
pub open spec fn entry_verdict(
    entry: OperationJournalEntryView,
    rulings: LauncherRulingsView,
) -> Verdict {
    let evidence = first_error(
        match entry.guardian_install_terminal {
            Some(terminal) => install_terminal_verdict(entry, terminal),
            None => Ok(()),
        },
        first_error(
            intent_verdict(entry, rulings),
            first_error(
                repair_kind_verdict(entry),
                first_error(reconciliation_verdict(entry), repair_verdict(entry)),
            ),
        ),
    );
    let findings = first_error(
        findings_verdict(entry, rulings),
        first_error(
            demand(
                step_metrics_fit(entry),
                OperationJournalValidationError::InvalidOperationMetrics,
            ),
            evidence,
        ),
    );
    let completed = first_error(
        first_error(
            demand(
                entry.completed_steps.len() <= MAX_OPERATION_JOURNAL_COMPLETED_STEPS,
                OperationJournalValidationError::TooManyCompletedSteps,
            ),
            completed_steps_verdict(entry.completed_steps, rulings),
        ),
        findings,
    );
    let planned = first_error(
        first_error(
            demand(
                entry.planned_steps.len() <= MAX_OPERATION_JOURNAL_PLANNED_STEPS,
                OperationJournalValidationError::TooManyPlannedSteps,
            ),
            planned_steps_verdict(entry.planned_steps, rulings),
        ),
        completed,
    );
    first_error(identity_verdict(entry), first_error(targets_verdict(entry.targets), planned))
}

/// Checks an entry.
pub fn validate_entry(entry: &OperationJournalEntry, rulings: &LauncherRulings) -> (r: Verdict)
    ensures
        r == entry_verdict(entry@, rulings@),
{
    match validate_identity(entry) {
        Ok(()) => {},
        Err(error) => {
            return Err(error);
        },
    }
    match validate_targets(&entry.targets) {
        Ok(()) => {},
        Err(error) => {
            return Err(error);
        },
    }
    match validate_planned_steps(&entry.planned_steps, rulings) {
        Ok(()) => {},
        Err(error) => {
            return Err(error);
        },
    }
    match validate_completed_steps(&entry.completed_steps, rulings) {
        Ok(()) => {},
        Err(error) => {
            return Err(error);
        },
    }
    match validate_findings(entry, rulings) {
        Ok(()) => {},
        Err(error) => {
            return Err(error);
        },
    }
    match validate_entry_step_metrics(entry) {
        Ok(()) => {},
        Err(error) => {
            return Err(error);
        },
    }
    match &entry.guardian_install_terminal {
        Some(terminal) => match validate_install_terminal(entry, terminal) {
            Ok(()) => {},
            Err(error) => {
                return Err(error);
            },
        },
        None => {},
    }
    match validate_intent(entry, rulings) {
        Ok(()) => {},
        Err(error) => {
            return Err(error);
        },
    }
    match validate_repair_kind(entry) {
        Ok(()) => {},
        Err(error) => {
            return Err(error);
        },
    }
    match validate_reconciliation(entry) {
        Ok(()) => {},
        Err(error) => {
            return Err(error);
        },
    }
    validate_persisted_state_repair(entry)
}

/// The verdict on a step that is recorded by a caller who may not state typed evidence.
pub open spec fn untyped_step_verdict(step: OperationJournalStepView) -> Result<
    (),
    OperationJournalStoreError,
> {
    if step.guardian_fact_ids.len() > 0 {
        Err(OperationJournalStoreError::InvalidGuardianOutcome)
    } else if step.metrics is Some {
        Err(OperationJournalStoreError::InvalidOperationMetrics)
    } else {
        Ok(())
    }
}

/// Refuses typed evidence in a step of a caller who may not state it.
pub fn reject_unowned_typed_step_evidence(step: &OperationJournalStep) -> (r: Result<
    (),
    OperationJournalStoreError,
>)
    ensures
        r == untyped_step_verdict(step@),
{
    if step.guardian_fact_ids.len() > 0 {
        return Err(OperationJournalStoreError::InvalidGuardianOutcome);
    }
    if step.metrics.is_some() {
        return Err(OperationJournalStoreError::InvalidOperationMetrics);
    }
    Ok(())
}

/// The verdict on a step that has to carry metrics and no Guardian facts.
pub open spec fn metrics_step_verdict(
    step: OperationJournalStepView,
    result: OperationStepResult,
) -> Result<(), OperationJournalStoreError> {
    if step.guardian_fact_ids.len() == 0 && step.metrics is Some && step.result == result {
        Ok(())
    } else {
        Err(OperationJournalStoreError::InvalidOperationMetrics)
    }
}

/// Asks that a step carries metrics and no Guardian facts, and ended as expected.
pub fn require_metrics_only_step(
    step: &OperationJournalStep,
    expected_result: OperationStepResult,
) -> (r: Result<(), OperationJournalStoreError>)
    ensures
        r == metrics_step_verdict(step@, expected_result),
{
    if step.guardian_fact_ids.len() > 0 || step.metrics.is_none() || step.result != expected_result {
        return Err(OperationJournalStoreError::InvalidOperationMetrics);
    }
    Ok(())
}

} // verus!

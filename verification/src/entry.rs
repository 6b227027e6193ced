//! The journal entry of an operation and its steps.

use crate::contracts::{
    CommandKind, DiagnosisId, GuardianFactId, OperationId, OperationOutcome, OperationPhase,
    OperationStatus, OperationStepResult, OwnershipClass, RollbackState, StabilizationSystem,
};
use crate::evidence::{
    GuardianInstallTerminalEvidence, GuardianInstallTerminalEvidenceView, JournalId,
    PersistedStateRepairAttempt, PersistedStateRepairAttemptView, PersistedStateRepairTerminal,
    PersistedStateRepairTerminalView, ReconciliationAttempt, ReconciliationAttemptView,
    ReconciliationTerminal, ReconciliationTerminalView, TargetDescriptor, TargetDescriptorView,
};
use crate::lifecycle::{PerformanceOperationLifecycle, PerformanceOperationLifecycleView};
use crate::record::{list_duplicate, list_same, opt_duplicate, opt_same, opt_view, views, Record};
use vstd::prelude::*;

verus! {

/// The counters of a measured step.
#[derive(Clone, Debug, PartialEq, Eq)]
pub struct StepMetricsRecord {
    pub counters: Vec<u64>,
    /// Whether the counters are consistent with one another.
    pub consistent: bool,
}

/// The model of [`StepMetricsRecord`].
pub struct StepMetricsRecordView {
    pub counters: Seq<u64>,
    pub consistent: bool,
}

impl View for StepMetricsRecord {
    type V = StepMetricsRecordView;

    open spec fn view(&self) -> StepMetricsRecordView {
        StepMetricsRecordView {
            counters: self.counters@,
            consistent: self.consistent,
        }
    }
}

impl Record for StepMetricsRecord {
    fn same(&self, other: &Self) -> (r: bool) {
        proof {
            assert(views(self.counters@) =~= self.counters@);
            assert(views(other.counters@) =~= other.counters@);
        }
        list_same(&self.counters, &other.counters)
            && self.consistent == other.consistent
    }

    fn duplicate(&self) -> (r: Self) {
        let r = StepMetricsRecord {
            counters: list_duplicate(&self.counters),
            consistent: self.consistent,
        };
        proof {
            assert(views(self.counters@) =~= self.counters@);
            assert(views(r.counters@) =~= r.counters@);
        }
        r
    }
}

/// What was measured in a step.
#[derive(Clone, Debug, PartialEq, Eq)]
pub enum OperationStepMetrics {
    Tier2Integrity(StepMetricsRecord),
    ContentDownload(StepMetricsRecord),
}

/// The model of [`OperationStepMetrics`].
pub enum OperationStepMetricsView {
    Tier2Integrity(StepMetricsRecordView),
    ContentDownload(StepMetricsRecordView),
}

impl View for OperationStepMetrics {
    type V = OperationStepMetricsView;

    open spec fn view(&self) -> OperationStepMetricsView {
        match self {
            OperationStepMetrics::Tier2Integrity(metrics) => OperationStepMetricsView::Tier2Integrity(metrics@),
            OperationStepMetrics::ContentDownload(metrics) => OperationStepMetricsView::ContentDownload(metrics@),
        }
    }
}

impl Record for OperationStepMetrics {
    fn same(&self, other: &Self) -> (r: bool) {
        match (self, other) {
            (OperationStepMetrics::Tier2Integrity(left_metrics), OperationStepMetrics::Tier2Integrity(right_metrics)) => {
                left_metrics.same(right_metrics)
            },
            (OperationStepMetrics::ContentDownload(left_metrics), OperationStepMetrics::ContentDownload(right_metrics)) => {
                left_metrics.same(right_metrics)
            },
            _ => false,
        }
    }

    fn duplicate(&self) -> (r: Self) {
        match self {
            OperationStepMetrics::Tier2Integrity(metrics) => OperationStepMetrics::Tier2Integrity(metrics.duplicate()),
            OperationStepMetrics::ContentDownload(metrics) => OperationStepMetrics::ContentDownload(metrics.duplicate()),
        }
    }
}

/// One step of an operation.
#[derive(Clone, Debug, PartialEq, Eq)]
pub struct OperationJournalStep {
    pub step_id: String,
    pub phase: OperationPhase,
    pub result: OperationStepResult,
    pub changed_target: Option<TargetDescriptor>,
    pub generated_facts: Vec<String>,
    pub guardian_fact_ids: Vec<GuardianFactId>,
    pub metrics: Option<OperationStepMetrics>,
    pub rollback: RollbackState,
}

/// The model of [`OperationJournalStep`].
pub struct OperationJournalStepView {
    pub step_id: Seq<char>,
    pub phase: OperationPhase,
    pub result: OperationStepResult,
    pub changed_target: Option<TargetDescriptorView>,
    pub generated_facts: Seq<Seq<char>>,
    pub guardian_fact_ids: Seq<GuardianFactId>,
    pub metrics: Option<OperationStepMetricsView>,
    pub rollback: RollbackState,
}

impl View for OperationJournalStep {
    type V = OperationJournalStepView;

    open spec fn view(&self) -> OperationJournalStepView {
        OperationJournalStepView {
            step_id: self.step_id@,
            phase: self.phase,
            result: self.result,
            changed_target: opt_view(self.changed_target),
            generated_facts: views(self.generated_facts@),
            guardian_fact_ids: self.guardian_fact_ids@,
            metrics: opt_view(self.metrics),
            rollback: self.rollback,
        }
    }
}

impl Record for OperationJournalStep {
    fn same(&self, other: &Self) -> (r: bool) {
        proof {
            assert(views(self.guardian_fact_ids@) =~= self.guardian_fact_ids@);
            assert(views(other.guardian_fact_ids@) =~= other.guardian_fact_ids@);
        }
        self.step_id.same(&other.step_id)
            && self.phase == other.phase
            && self.result == other.result
            && opt_same(&self.changed_target, &other.changed_target)
            && list_same(&self.generated_facts, &other.generated_facts)
            && list_same(&self.guardian_fact_ids, &other.guardian_fact_ids)
            && opt_same(&self.metrics, &other.metrics)
            && self.rollback == other.rollback
    }

    fn duplicate(&self) -> (r: Self) {
        let r = OperationJournalStep {
            step_id: self.step_id.duplicate(),
            phase: self.phase,
            result: self.result,
            changed_target: opt_duplicate(&self.changed_target),
            generated_facts: list_duplicate(&self.generated_facts),
            guardian_fact_ids: list_duplicate(&self.guardian_fact_ids),
            metrics: opt_duplicate(&self.metrics),
            rollback: self.rollback,
        };
        proof {
            assert(views(self.guardian_fact_ids@) =~= self.guardian_fact_ids@);
            assert(views(r.guardian_fact_ids@) =~= r.guardian_fact_ids@);
        }
        r
    }
}

/// What an operation is for.
#[derive(Clone, Debug, PartialEq, Eq)]
pub enum OperationIntent {
    Generic {},
    Performance(PerformanceOperationLifecycle),
}

/// The model of [`OperationIntent`].
pub enum OperationIntentView {
    Generic {},
    Performance(PerformanceOperationLifecycleView),
}

impl View for OperationIntent {
    type V = OperationIntentView;

    open spec fn view(&self) -> OperationIntentView {
        match self {
            OperationIntent::Generic {} => OperationIntentView::Generic {},
            OperationIntent::Performance(lifecycle) => OperationIntentView::Performance(lifecycle@),
        }
    }
}

impl Record for OperationIntent {
    fn same(&self, other: &Self) -> (r: bool) {
        match (self, other) {
            (OperationIntent::Generic {}, OperationIntent::Generic {}) => true,
            (OperationIntent::Performance(left_lifecycle), OperationIntent::Performance(right_lifecycle)) => {
                left_lifecycle.same(right_lifecycle)
            },
            _ => false,
        }
    }

    fn duplicate(&self) -> (r: Self) {
        match self {
            OperationIntent::Generic {} => OperationIntent::Generic {},
            OperationIntent::Performance(lifecycle) => OperationIntent::Performance(lifecycle.duplicate()),
        }
    }
}

/// The journal of one operation.
#[derive(Clone, Debug, PartialEq, Eq)]
pub struct OperationJournalEntry {
    pub journal_id: JournalId,
    pub operation_id: OperationId,
    pub sequence: u64,
    pub parent_operation_id: Option<OperationId>,
    pub command: CommandKind,
    pub intent: OperationIntent,
    pub owner: StabilizationSystem,
    pub ownership: OwnershipClass,
    pub targets: Vec<TargetDescriptor>,
    pub planned_steps: Vec<OperationJournalStep>,
    pub completed_steps: Vec<OperationJournalStep>,
    pub status: OperationStatus,
    pub failure_point: Option<String>,
    pub rollback: RollbackState,
    pub guardian_diagnosis_ids: Vec<DiagnosisId>,
    pub guardian_install_terminal: Option<GuardianInstallTerminalEvidence>,
    pub outcome: Option<OperationOutcome>,
    pub reconciliation_attempt: Option<ReconciliationAttempt>,
    pub reconciliation_terminal: Option<ReconciliationTerminal>,
    pub persisted_state_repair_attempt: Option<PersistedStateRepairAttempt>,
    pub persisted_state_repair_terminal: Option<PersistedStateRepairTerminal>,
}

/// The model of [`OperationJournalEntry`].
pub struct OperationJournalEntryView {
    pub journal_id: Seq<char>,
    pub operation_id: OperationId,
    pub sequence: u64,
    pub parent_operation_id: Option<OperationId>,
    pub command: CommandKind,
    pub intent: OperationIntentView,
    pub owner: StabilizationSystem,
    pub ownership: OwnershipClass,
    pub targets: Seq<TargetDescriptorView>,
    pub planned_steps: Seq<OperationJournalStepView>,
    pub completed_steps: Seq<OperationJournalStepView>,
    pub status: OperationStatus,
    pub failure_point: Option<Seq<char>>,
    pub rollback: RollbackState,
    pub guardian_diagnosis_ids: Seq<DiagnosisId>,
    pub guardian_install_terminal: Option<GuardianInstallTerminalEvidenceView>,
    pub outcome: Option<OperationOutcome>,
    pub reconciliation_attempt: Option<ReconciliationAttemptView>,
    pub reconciliation_terminal: Option<ReconciliationTerminalView>,
    pub persisted_state_repair_attempt: Option<PersistedStateRepairAttemptView>,
    pub persisted_state_repair_terminal: Option<PersistedStateRepairTerminalView>,
}

impl View for OperationJournalEntry {
    type V = OperationJournalEntryView;

    open spec fn view(&self) -> OperationJournalEntryView {
        OperationJournalEntryView {
            journal_id: self.journal_id@,
            operation_id: self.operation_id,
            sequence: self.sequence,
            parent_operation_id: self.parent_operation_id,
            command: self.command,
            intent: self.intent@,
            owner: self.owner,
            ownership: self.ownership,
            targets: views(self.targets@),
            planned_steps: views(self.planned_steps@),
            completed_steps: views(self.completed_steps@),
            status: self.status,
            failure_point: opt_view(self.failure_point),
            rollback: self.rollback,
            guardian_diagnosis_ids: self.guardian_diagnosis_ids@,
            guardian_install_terminal: opt_view(self.guardian_install_terminal),
            outcome: self.outcome,
            reconciliation_attempt: opt_view(self.reconciliation_attempt),
            reconciliation_terminal: opt_view(self.reconciliation_terminal),
            persisted_state_repair_attempt: opt_view(self.persisted_state_repair_attempt),
            persisted_state_repair_terminal: opt_view(self.persisted_state_repair_terminal),
        }
    }
}

impl Record for OperationJournalEntry {
    fn same(&self, other: &Self) -> (r: bool) {
        proof {
            assert(views(self.guardian_diagnosis_ids@) =~= self.guardian_diagnosis_ids@);
            assert(views(other.guardian_diagnosis_ids@) =~= other.guardian_diagnosis_ids@);
        }
        self.journal_id.same(&other.journal_id)
            && self.operation_id == other.operation_id
            && self.sequence == other.sequence
            && opt_same(&self.parent_operation_id, &other.parent_operation_id)
            && self.command == other.command
            && self.intent.same(&other.intent)
            && self.owner == other.owner
            && self.ownership == other.ownership
            && list_same(&self.targets, &other.targets)
            && list_same(&self.planned_steps, &other.planned_steps)
            && list_same(&self.completed_steps, &other.completed_steps)
            && self.status == other.status
            && opt_same(&self.failure_point, &other.failure_point)
            && self.rollback == other.rollback
            && list_same(&self.guardian_diagnosis_ids, &other.guardian_diagnosis_ids)
            && opt_same(&self.guardian_install_terminal, &other.guardian_install_terminal)
            && opt_same(&self.outcome, &other.outcome)
            && opt_same(&self.reconciliation_attempt, &other.reconciliation_attempt)
            && opt_same(&self.reconciliation_terminal, &other.reconciliation_terminal)
            && opt_same(&self.persisted_state_repair_attempt, &other.persisted_state_repair_attempt)
            && opt_same(&self.persisted_state_repair_terminal, &other.persisted_state_repair_terminal)
    }

    fn duplicate(&self) -> (r: Self) {
        let r = OperationJournalEntry {
            journal_id: self.journal_id.duplicate(),
            operation_id: self.operation_id,
            sequence: self.sequence,
            parent_operation_id: self.parent_operation_id,
            command: self.command,
            intent: self.intent.duplicate(),
            owner: self.owner,
            ownership: self.ownership,
            targets: list_duplicate(&self.targets),
            planned_steps: list_duplicate(&self.planned_steps),
            completed_steps: list_duplicate(&self.completed_steps),
            status: self.status,
            failure_point: opt_duplicate(&self.failure_point),
            rollback: self.rollback,
            guardian_diagnosis_ids: list_duplicate(&self.guardian_diagnosis_ids),
            guardian_install_terminal: opt_duplicate(&self.guardian_install_terminal),
            outcome: self.outcome,
            reconciliation_attempt: opt_duplicate(&self.reconciliation_attempt),
            reconciliation_terminal: opt_duplicate(&self.reconciliation_terminal),
            persisted_state_repair_attempt: opt_duplicate(&self.persisted_state_repair_attempt),
            persisted_state_repair_terminal: opt_duplicate(&self.persisted_state_repair_terminal),
        };
        proof {
            assert(views(self.guardian_diagnosis_ids@) =~= self.guardian_diagnosis_ids@);
            assert(views(r.guardian_diagnosis_ids@) =~= r.guardian_diagnosis_ids@);
        }
        r
    }
}

} // verus!

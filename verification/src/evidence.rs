//! Targets, reconciliation and repair evidence, and what the Guardian records of an operation.

use crate::contracts::{
    DiagnosisId, GuardianActionKind, GuardianDomain, GuardianFactId, GuardianMode, OperationId,
    OwnershipClass, PersistedStateRecordStore, PersistedStateRepairTerminalOutcome,
    ReconciliationComponent, ReconciliationLineage, ReconciliationRung,
    ReconciliationTerminalOutcome, ReconciliationVersionBundleOutcome, StabilizationSystem,
    TargetKind,
};
use crate::record::{list_duplicate, list_same, opt_duplicate, opt_same, opt_view, views, Record};
use vstd::prelude::*;

verus! {

/// The identity of a journal.
#[derive(Clone, Debug, PartialEq, Eq)]
pub struct JournalId {
    pub text: String,
}

impl View for JournalId {
    type V = Seq<char>;

    open spec fn view(&self) -> Seq<char> {
        self.text@
    }
}

impl Record for JournalId {
    fn same(&self, other: &Self) -> (r: bool) {
        self.text.same(&other.text)
    }

    fn duplicate(&self) -> (r: Self) {
        JournalId { text: self.text.duplicate() }
    }
}

/// What an operation or a diagnosis is about.
#[derive(Clone, Debug, PartialEq, Eq)]
pub struct TargetDescriptor {
    pub system: StabilizationSystem,
    pub kind: TargetKind,
    pub id: String,
    pub ownership: OwnershipClass,
}

/// The model of [`TargetDescriptor`].
pub struct TargetDescriptorView {
    pub system: StabilizationSystem,
    pub kind: TargetKind,
    pub id: Seq<char>,
    pub ownership: OwnershipClass,
}

impl View for TargetDescriptor {
    type V = TargetDescriptorView;

    open spec fn view(&self) -> TargetDescriptorView {
        TargetDescriptorView {
            system: self.system,
            kind: self.kind,
            id: self.id@,
            ownership: self.ownership,
        }
    }
}

impl Record for TargetDescriptor {
    fn same(&self, other: &Self) -> (r: bool) {
        self.system == other.system
            && self.kind == other.kind
            && self.id.same(&other.id)
            && self.ownership == other.ownership
    }

    fn duplicate(&self) -> (r: Self) {
        TargetDescriptor {
            system: self.system,
            kind: self.kind,
            id: self.id.duplicate(),
            ownership: self.ownership,
        }
    }
}

/// The records that a reconciliation has put into quarantine.
#[derive(Clone, Debug, PartialEq, Eq)]
pub struct ReconciliationQuarantineCheckpoint {
    pub records: Vec<String>,
    /// Whether the records are within the bounds that a checkpoint may have.
    pub bounded: bool,
}

/// The model of [`ReconciliationQuarantineCheckpoint`].
pub struct ReconciliationQuarantineCheckpointView {
    pub records: Seq<Seq<char>>,
    pub bounded: bool,
}

impl View for ReconciliationQuarantineCheckpoint {
    type V = ReconciliationQuarantineCheckpointView;

    open spec fn view(&self) -> ReconciliationQuarantineCheckpointView {
        ReconciliationQuarantineCheckpointView {
            records: views(self.records@),
            bounded: self.bounded,
        }
    }
}

impl Record for ReconciliationQuarantineCheckpoint {
    fn same(&self, other: &Self) -> (r: bool) {
        list_same(&self.records, &other.records)
            && self.bounded == other.bounded
    }

    fn duplicate(&self) -> (r: Self) {
        ReconciliationQuarantineCheckpoint {
            records: list_duplicate(&self.records),
            bounded: self.bounded,
        }
    }
}

/// The registered instance that a reconciliation is bound to.
#[derive(Clone, Debug, PartialEq, Eq)]
pub struct ReconciliationScope {
    pub instance_id: String,
    pub fingerprint: String,
    pub inventory_fingerprint: String,
    pub activation_contract_id: String,
}

/// The model of [`ReconciliationScope`].
pub struct ReconciliationScopeView {
    pub instance_id: Seq<char>,
    pub fingerprint: Seq<char>,
    pub inventory_fingerprint: Seq<char>,
    pub activation_contract_id: Seq<char>,
}

impl View for ReconciliationScope {
    type V = ReconciliationScopeView;

    open spec fn view(&self) -> ReconciliationScopeView {
        ReconciliationScopeView {
            instance_id: self.instance_id@,
            fingerprint: self.fingerprint@,
            inventory_fingerprint: self.inventory_fingerprint@,
            activation_contract_id: self.activation_contract_id@,
        }
    }
}

impl Record for ReconciliationScope {
    fn same(&self, other: &Self) -> (r: bool) {
        self.instance_id.same(&other.instance_id)
            && self.fingerprint.same(&other.fingerprint)
            && self.inventory_fingerprint.same(&other.inventory_fingerprint)
            && self.activation_contract_id.same(&other.activation_contract_id)
    }

    fn duplicate(&self) -> (r: Self) {
        ReconciliationScope {
            instance_id: self.instance_id.duplicate(),
            fingerprint: self.fingerprint.duplicate(),
            inventory_fingerprint: self.inventory_fingerprint.duplicate(),
            activation_contract_id: self.activation_contract_id.duplicate(),
        }
    }
}

/// One attempt to reconcile a launcher-managed target.
#[derive(Clone, Debug, PartialEq, Eq)]
pub struct ReconciliationAttempt {
    pub operation_id: OperationId,
    pub diagnosis_id: DiagnosisId,
    pub domain: GuardianDomain,
    pub rung: ReconciliationRung,
    pub scope: ReconciliationScope,
    pub component: ReconciliationComponent,
    pub target: TargetDescriptor,
    pub mode: GuardianMode,
    pub ownership: OwnershipClass,
    pub observed_at: String,
    pub suppression_until: String,
    pub lineage: ReconciliationLineage,
    /// Whether the attempt is consistent in itself.
    pub consistent: bool,
}

/// The model of [`ReconciliationAttempt`].
pub struct ReconciliationAttemptView {
    pub operation_id: OperationId,
    pub diagnosis_id: DiagnosisId,
    pub domain: GuardianDomain,
    pub rung: ReconciliationRung,
    pub scope: ReconciliationScopeView,
    pub component: ReconciliationComponent,
    pub target: TargetDescriptorView,
    pub mode: GuardianMode,
    pub ownership: OwnershipClass,
    pub observed_at: Seq<char>,
    pub suppression_until: Seq<char>,
    pub lineage: ReconciliationLineage,
    pub consistent: bool,
}

impl View for ReconciliationAttempt {
    type V = ReconciliationAttemptView;

    open spec fn view(&self) -> ReconciliationAttemptView {
        ReconciliationAttemptView {
            operation_id: self.operation_id,
            diagnosis_id: self.diagnosis_id,
            domain: self.domain,
            rung: self.rung,
            scope: self.scope@,
            component: self.component,
            target: self.target@,
            mode: self.mode,
            ownership: self.ownership,
            observed_at: self.observed_at@,
            suppression_until: self.suppression_until@,
            lineage: self.lineage,
            consistent: self.consistent,
        }
    }
}

impl Record for ReconciliationAttempt {
    fn same(&self, other: &Self) -> (r: bool) {
        self.operation_id == other.operation_id
            && self.diagnosis_id == other.diagnosis_id
            && self.domain == other.domain
            && self.rung == other.rung
            && self.scope.same(&other.scope)
            && self.component == other.component
            && self.target.same(&other.target)
            && self.mode == other.mode
            && self.ownership == other.ownership
            && self.observed_at.same(&other.observed_at)
            && self.suppression_until.same(&other.suppression_until)
            && self.lineage == other.lineage
            && self.consistent == other.consistent
    }

    fn duplicate(&self) -> (r: Self) {
        ReconciliationAttempt {
            operation_id: self.operation_id,
            diagnosis_id: self.diagnosis_id,
            domain: self.domain,
            rung: self.rung,
            scope: self.scope.duplicate(),
            component: self.component,
            target: self.target.duplicate(),
            mode: self.mode,
            ownership: self.ownership,
            observed_at: self.observed_at.duplicate(),
            suppression_until: self.suppression_until.duplicate(),
            lineage: self.lineage,
            consistent: self.consistent,
        }
    }
}

/// The publication of a version bundle.
#[derive(Clone, Debug, PartialEq, Eq)]
pub struct ReconciliationPublication {
    pub evidence: String,
    pub outcome: ReconciliationVersionBundleOutcome,
    /// Whether the publication still waits for its acknowledgement.
    pub pending: bool,
}

/// The model of [`ReconciliationPublication`].
pub struct ReconciliationPublicationView {
    pub evidence: Seq<char>,
    pub outcome: ReconciliationVersionBundleOutcome,
    pub pending: bool,
}

impl View for ReconciliationPublication {
    type V = ReconciliationPublicationView;

    open spec fn view(&self) -> ReconciliationPublicationView {
        ReconciliationPublicationView {
            evidence: self.evidence@,
            outcome: self.outcome,
            pending: self.pending,
        }
    }
}

impl Record for ReconciliationPublication {
    fn same(&self, other: &Self) -> (r: bool) {
        self.evidence.same(&other.evidence)
            && self.outcome == other.outcome
            && self.pending == other.pending
    }

    fn duplicate(&self) -> (r: Self) {
        ReconciliationPublication {
            evidence: self.evidence.duplicate(),
            outcome: self.outcome,
            pending: self.pending,
        }
    }
}

/// The end of a reconciliation attempt.
#[derive(Clone, Debug, PartialEq, Eq)]
pub struct ReconciliationTerminal {
    pub attempt: ReconciliationAttempt,
    pub outcome: ReconciliationTerminalOutcome,
    pub quarantine_checkpoint: ReconciliationQuarantineCheckpoint,
    pub version_bundle_publication: Option<ReconciliationPublication>,
    /// Whether the terminal is consistent in itself.
    pub consistent: bool,
}

/// The model of [`ReconciliationTerminal`].
pub struct ReconciliationTerminalView {
    pub attempt: ReconciliationAttemptView,
    pub outcome: ReconciliationTerminalOutcome,
    pub quarantine_checkpoint: ReconciliationQuarantineCheckpointView,
    pub version_bundle_publication: Option<ReconciliationPublicationView>,
    pub consistent: bool,
}

impl View for ReconciliationTerminal {
    type V = ReconciliationTerminalView;

    open spec fn view(&self) -> ReconciliationTerminalView {
        ReconciliationTerminalView {
            attempt: self.attempt@,
            outcome: self.outcome,
            quarantine_checkpoint: self.quarantine_checkpoint@,
            version_bundle_publication: opt_view(self.version_bundle_publication),
            consistent: self.consistent,
        }
    }
}

impl Record for ReconciliationTerminal {
    fn same(&self, other: &Self) -> (r: bool) {
        self.attempt.same(&other.attempt)
            && self.outcome == other.outcome
            && self.quarantine_checkpoint.same(&other.quarantine_checkpoint)
            && opt_same(&self.version_bundle_publication, &other.version_bundle_publication)
            && self.consistent == other.consistent
    }

    fn duplicate(&self) -> (r: Self) {
        ReconciliationTerminal {
            attempt: self.attempt.duplicate(),
            outcome: self.outcome,
            quarantine_checkpoint: self.quarantine_checkpoint.duplicate(),
            version_bundle_publication: opt_duplicate(&self.version_bundle_publication),
            consistent: self.consistent,
        }
    }
}

/// One attempt to repair a persisted record that was rejected at restart.
#[derive(Clone, Debug, PartialEq, Eq)]
pub struct PersistedStateRepairAttempt {
    pub operation_id: OperationId,
    pub journal_id: JournalId,
    pub store: PersistedStateRecordStore,
    pub record_id: String,
    pub physical_identity: String,
    pub target: TargetDescriptor,
    pub observed_at: String,
    pub suppression_until: String,
    /// Whether the attempt is consistent in itself.
    pub consistent: bool,
}

/// The model of [`PersistedStateRepairAttempt`].
pub struct PersistedStateRepairAttemptView {
    pub operation_id: OperationId,
    pub journal_id: Seq<char>,
    pub store: PersistedStateRecordStore,
    pub record_id: Seq<char>,
    pub physical_identity: Seq<char>,
    pub target: TargetDescriptorView,
    pub observed_at: Seq<char>,
    pub suppression_until: Seq<char>,
    pub consistent: bool,
}

impl View for PersistedStateRepairAttempt {
    type V = PersistedStateRepairAttemptView;

    open spec fn view(&self) -> PersistedStateRepairAttemptView {
        PersistedStateRepairAttemptView {
            operation_id: self.operation_id,
            journal_id: self.journal_id@,
            store: self.store,
            record_id: self.record_id@,
            physical_identity: self.physical_identity@,
            target: self.target@,
            observed_at: self.observed_at@,
            suppression_until: self.suppression_until@,
            consistent: self.consistent,
        }
    }
}

impl Record for PersistedStateRepairAttempt {
    fn same(&self, other: &Self) -> (r: bool) {
        self.operation_id == other.operation_id
            && self.journal_id.same(&other.journal_id)
            && self.store == other.store
            && self.record_id.same(&other.record_id)
            && self.physical_identity.same(&other.physical_identity)
            && self.target.same(&other.target)
            && self.observed_at.same(&other.observed_at)
            && self.suppression_until.same(&other.suppression_until)
            && self.consistent == other.consistent
    }

    fn duplicate(&self) -> (r: Self) {
        PersistedStateRepairAttempt {
            operation_id: self.operation_id,
            journal_id: self.journal_id.duplicate(),
            store: self.store,
            record_id: self.record_id.duplicate(),
            physical_identity: self.physical_identity.duplicate(),
            target: self.target.duplicate(),
            observed_at: self.observed_at.duplicate(),
            suppression_until: self.suppression_until.duplicate(),
            consistent: self.consistent,
        }
    }
}

/// The end of an attempt to repair a persisted record.
#[derive(Clone, Debug, PartialEq, Eq)]
pub struct PersistedStateRepairTerminal {
    pub attempt: PersistedStateRepairAttempt,
    pub outcome: PersistedStateRepairTerminalOutcome,
    pub suppression_until: String,
    /// Whether the terminal is consistent in itself.
    pub consistent: bool,
}

/// The model of [`PersistedStateRepairTerminal`].
pub struct PersistedStateRepairTerminalView {
    pub attempt: PersistedStateRepairAttemptView,
    pub outcome: PersistedStateRepairTerminalOutcome,
    pub suppression_until: Seq<char>,
    pub consistent: bool,
}

impl View for PersistedStateRepairTerminal {
    type V = PersistedStateRepairTerminalView;

    open spec fn view(&self) -> PersistedStateRepairTerminalView {
        PersistedStateRepairTerminalView {
            attempt: self.attempt@,
            outcome: self.outcome,
            suppression_until: self.suppression_until@,
            consistent: self.consistent,
        }
    }
}

impl Record for PersistedStateRepairTerminal {
    fn same(&self, other: &Self) -> (r: bool) {
        self.attempt.same(&other.attempt)
            && self.outcome == other.outcome
            && self.suppression_until.same(&other.suppression_until)
            && self.consistent == other.consistent
    }

    fn duplicate(&self) -> (r: Self) {
        PersistedStateRepairTerminal {
            attempt: self.attempt.duplicate(),
            outcome: self.outcome,
            suppression_until: self.suppression_until.duplicate(),
            consistent: self.consistent,
        }
    }
}

/// What the Guardian remembers of a failed installation.
#[derive(Clone, Debug, PartialEq, Eq)]
pub struct GuardianInstallMemoryEvidence {
    pub binding: String,
    pub target: TargetDescriptor,
    pub observed_at: String,
    pub suppression_until: String,
}

/// The model of [`GuardianInstallMemoryEvidence`].
pub struct GuardianInstallMemoryEvidenceView {
    pub binding: Seq<char>,
    pub target: TargetDescriptorView,
    pub observed_at: Seq<char>,
    pub suppression_until: Seq<char>,
}

impl View for GuardianInstallMemoryEvidence {
    type V = GuardianInstallMemoryEvidenceView;

    open spec fn view(&self) -> GuardianInstallMemoryEvidenceView {
        GuardianInstallMemoryEvidenceView {
            binding: self.binding@,
            target: self.target@,
            observed_at: self.observed_at@,
            suppression_until: self.suppression_until@,
        }
    }
}

impl Record for GuardianInstallMemoryEvidence {
    fn same(&self, other: &Self) -> (r: bool) {
        self.binding.same(&other.binding)
            && self.target.same(&other.target)
            && self.observed_at.same(&other.observed_at)
            && self.suppression_until.same(&other.suppression_until)
    }

    fn duplicate(&self) -> (r: Self) {
        GuardianInstallMemoryEvidence {
            binding: self.binding.duplicate(),
            target: self.target.duplicate(),
            observed_at: self.observed_at.duplicate(),
            suppression_until: self.suppression_until.duplicate(),
        }
    }
}

/// The Guardian's verdict on a failed installation.
#[derive(Clone, Debug, PartialEq, Eq)]
pub struct GuardianInstallTerminalEvidence {
    pub diagnosis_id: DiagnosisId,
    pub action: GuardianActionKind,
    pub memory: Option<GuardianInstallMemoryEvidence>,
    /// Whether the verdict is consistent in itself.
    pub consistent: bool,
}

/// The model of [`GuardianInstallTerminalEvidence`].
pub struct GuardianInstallTerminalEvidenceView {
    pub diagnosis_id: DiagnosisId,
    pub action: GuardianActionKind,
    pub memory: Option<GuardianInstallMemoryEvidenceView>,
    pub consistent: bool,
}

impl View for GuardianInstallTerminalEvidence {
    type V = GuardianInstallTerminalEvidenceView;

    open spec fn view(&self) -> GuardianInstallTerminalEvidenceView {
        GuardianInstallTerminalEvidenceView {
            diagnosis_id: self.diagnosis_id,
            action: self.action,
            memory: opt_view(self.memory),
            consistent: self.consistent,
        }
    }
}

impl Record for GuardianInstallTerminalEvidence {
    fn same(&self, other: &Self) -> (r: bool) {
        self.diagnosis_id == other.diagnosis_id
            && self.action == other.action
            && opt_same(&self.memory, &other.memory)
            && self.consistent == other.consistent
    }

    fn duplicate(&self) -> (r: Self) {
        GuardianInstallTerminalEvidence {
            diagnosis_id: self.diagnosis_id,
            action: self.action,
            memory: opt_duplicate(&self.memory),
            consistent: self.consistent,
        }
    }
}

/// What the Guardian has to say of one operation.
#[derive(Clone, Debug, PartialEq, Eq)]
pub struct DurableGuardianEvidence {
    pub operation_id: OperationId,
    pub fact_ids: Vec<GuardianFactId>,
    pub diagnosis_ids: Vec<DiagnosisId>,
    pub install_terminal: Option<GuardianInstallTerminalEvidence>,
}

/// The model of [`DurableGuardianEvidence`].
pub struct DurableGuardianEvidenceView {
    pub operation_id: OperationId,
    pub fact_ids: Seq<GuardianFactId>,
    pub diagnosis_ids: Seq<DiagnosisId>,
    pub install_terminal: Option<GuardianInstallTerminalEvidenceView>,
}

impl View for DurableGuardianEvidence {
    type V = DurableGuardianEvidenceView;

    open spec fn view(&self) -> DurableGuardianEvidenceView {
        DurableGuardianEvidenceView {
            operation_id: self.operation_id,
            fact_ids: self.fact_ids@,
            diagnosis_ids: self.diagnosis_ids@,
            install_terminal: opt_view(self.install_terminal),
        }
    }
}

impl Record for DurableGuardianEvidence {
    fn same(&self, other: &Self) -> (r: bool) {
        proof {
            assert(views(self.fact_ids@) =~= self.fact_ids@);
            assert(views(other.fact_ids@) =~= other.fact_ids@);
            assert(views(self.diagnosis_ids@) =~= self.diagnosis_ids@);
            assert(views(other.diagnosis_ids@) =~= other.diagnosis_ids@);
        }
        self.operation_id == other.operation_id
            && list_same(&self.fact_ids, &other.fact_ids)
            && list_same(&self.diagnosis_ids, &other.diagnosis_ids)
            && opt_same(&self.install_terminal, &other.install_terminal)
    }

    fn duplicate(&self) -> (r: Self) {
        let r = DurableGuardianEvidence {
            operation_id: self.operation_id,
            fact_ids: list_duplicate(&self.fact_ids),
            diagnosis_ids: list_duplicate(&self.diagnosis_ids),
            install_terminal: opt_duplicate(&self.install_terminal),
        };
        proof {
            assert(views(self.fact_ids@) =~= self.fact_ids@);
            assert(views(r.fact_ids@) =~= r.fact_ids@);
            assert(views(self.diagnosis_ids@) =~= self.diagnosis_ids@);
            assert(views(r.diagnosis_ids@) =~= r.diagnosis_ids@);
        }
        r
    }
}

} // verus!

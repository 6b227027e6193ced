//! What the Guardian remembers of failures.

use crate::contracts::{
    DiagnosisId, GuardianActionKind, GuardianDomain, GuardianMode, OwnershipClass,
};
use crate::evidence::{
    PersistedStateRepairTerminal, PersistedStateRepairTerminalView,
    ReconciliationQuarantineCheckpoint, ReconciliationQuarantineCheckpointView,
    ReconciliationTerminal, ReconciliationTerminalView, TargetDescriptor, TargetDescriptorView,
};
use crate::journal_errors::PersistenceFault;
use crate::record::{opt_duplicate, opt_same, opt_view, Record};
use vstd::prelude::*;

verus! {

/// The identity under which a failure is remembered.
#[derive(Clone, Debug, PartialEq, Eq, Hash)]
pub struct FailureMemoryKey(pub String);

impl View for FailureMemoryKey {
    type V = Seq<char>;

    open spec fn view(&self) -> Seq<char> {
        self.0@
    }
}

impl Record for FailureMemoryKey {
    fn same(&self, other: &Self) -> (r: bool) {
        self.0.same(&other.0)
    }

    fn duplicate(&self) -> (r: Self) {
        FailureMemoryKey(self.0.duplicate())
    }
}

/// How the last action on a failure ended.
#[derive(Clone, Copy, Debug, PartialEq, Eq, Structural, Hash)]
pub enum FailureMemoryActionOutcome {
    Repaired,
    Retried,
    Blocked,
    Failed,
}

impl View for FailureMemoryActionOutcome {
    type V = FailureMemoryActionOutcome;

    open spec fn view(&self) -> FailureMemoryActionOutcome {
        *self
    }
}

impl Record for FailureMemoryActionOutcome {
    fn same(&self, other: &Self) -> (r: bool) {
        *self == *other
    }

    fn duplicate(&self) -> (r: Self) {
        *self
    }
}

/// What is remembered of a failure.
#[derive(Clone, Debug, PartialEq, Eq)]
pub struct GuardianFailureMemoryEntry {
    pub key: FailureMemoryKey,
    pub diagnosis_id: DiagnosisId,
    pub domain: GuardianDomain,
    pub mode: GuardianMode,
    pub target: TargetDescriptor,
    pub ownership: OwnershipClass,
    pub first_observed_at: String,
    pub last_observed_at: String,
    pub occurrence_count: u32,
    pub last_action_kind: Option<GuardianActionKind>,
    pub last_action_outcome: Option<FailureMemoryActionOutcome>,
    pub repair_attempt_count: u32,
    pub quarantine_checkpoint: ReconciliationQuarantineCheckpoint,
    pub suppression_until: Option<String>,
    pub target_content_hash: Option<String>,
    pub user_intent_hash: Option<String>,
    pub reconciliation_terminal: Option<ReconciliationTerminal>,
    pub persisted_state_repair_terminal: Option<PersistedStateRepairTerminal>,
}

/// The model of [`GuardianFailureMemoryEntry`].
pub struct GuardianFailureMemoryEntryView {
    pub key: Seq<char>,
    pub diagnosis_id: DiagnosisId,
    pub domain: GuardianDomain,
    pub mode: GuardianMode,
    pub target: TargetDescriptorView,
    pub ownership: OwnershipClass,
    pub first_observed_at: Seq<char>,
    pub last_observed_at: Seq<char>,
    pub occurrence_count: u32,
    pub last_action_kind: Option<GuardianActionKind>,
    pub last_action_outcome: Option<FailureMemoryActionOutcome>,
    pub repair_attempt_count: u32,
    pub quarantine_checkpoint: ReconciliationQuarantineCheckpointView,
    pub suppression_until: Option<Seq<char>>,
    pub target_content_hash: Option<Seq<char>>,
    pub user_intent_hash: Option<Seq<char>>,
    pub reconciliation_terminal: Option<ReconciliationTerminalView>,
    pub persisted_state_repair_terminal: Option<PersistedStateRepairTerminalView>,
}

impl View for GuardianFailureMemoryEntry {
    type V = GuardianFailureMemoryEntryView;

    open spec fn view(&self) -> GuardianFailureMemoryEntryView {
        GuardianFailureMemoryEntryView {
            key: self.key@,
            diagnosis_id: self.diagnosis_id,
            domain: self.domain,
            mode: self.mode,
            target: self.target@,
            ownership: self.ownership,
            first_observed_at: self.first_observed_at@,
            last_observed_at: self.last_observed_at@,
            occurrence_count: self.occurrence_count,
            last_action_kind: self.last_action_kind,
            last_action_outcome: self.last_action_outcome,
            repair_attempt_count: self.repair_attempt_count,
            quarantine_checkpoint: self.quarantine_checkpoint@,
            suppression_until: opt_view(self.suppression_until),
            target_content_hash: opt_view(self.target_content_hash),
            user_intent_hash: opt_view(self.user_intent_hash),
            reconciliation_terminal: opt_view(self.reconciliation_terminal),
            persisted_state_repair_terminal: opt_view(self.persisted_state_repair_terminal),
        }
    }
}

impl Record for GuardianFailureMemoryEntry {
    fn same(&self, other: &Self) -> (r: bool) {
        self.key.same(&other.key)
            && self.diagnosis_id == other.diagnosis_id
            && self.domain == other.domain
            && self.mode == other.mode
            && self.target.same(&other.target)
            && self.ownership == other.ownership
            && self.first_observed_at.same(&other.first_observed_at)
            && self.last_observed_at.same(&other.last_observed_at)
            && self.occurrence_count == other.occurrence_count
            && opt_same(&self.last_action_kind, &other.last_action_kind)
            && opt_same(&self.last_action_outcome, &other.last_action_outcome)
            && self.repair_attempt_count == other.repair_attempt_count
            && self.quarantine_checkpoint.same(&other.quarantine_checkpoint)
            && opt_same(&self.suppression_until, &other.suppression_until)
            && opt_same(&self.target_content_hash, &other.target_content_hash)
            && opt_same(&self.user_intent_hash, &other.user_intent_hash)
            && opt_same(&self.reconciliation_terminal, &other.reconciliation_terminal)
            && opt_same(&self.persisted_state_repair_terminal, &other.persisted_state_repair_terminal)
    }

    fn duplicate(&self) -> (r: Self) {
        GuardianFailureMemoryEntry {
            key: self.key.duplicate(),
            diagnosis_id: self.diagnosis_id,
            domain: self.domain,
            mode: self.mode,
            target: self.target.duplicate(),
            ownership: self.ownership,
            first_observed_at: self.first_observed_at.duplicate(),
            last_observed_at: self.last_observed_at.duplicate(),
            occurrence_count: self.occurrence_count,
            last_action_kind: self.last_action_kind,
            last_action_outcome: self.last_action_outcome,
            repair_attempt_count: self.repair_attempt_count,
            quarantine_checkpoint: self.quarantine_checkpoint.duplicate(),
            suppression_until: opt_duplicate(&self.suppression_until),
            target_content_hash: opt_duplicate(&self.target_content_hash),
            user_intent_hash: opt_duplicate(&self.user_intent_hash),
            reconciliation_terminal: opt_duplicate(&self.reconciliation_terminal),
            persisted_state_repair_terminal: opt_duplicate(&self.persisted_state_repair_terminal),
        }
    }
}

/// What is wrong with what is remembered of a failure.
#[derive(Clone, Copy, Debug, PartialEq, Eq, Structural, Hash)]
pub enum FailureMemoryValidationError {
    UnsafeKey,
    UnsafeTargetId,
    UnsafeTargetHash,
    UnsafeUserIntentHash,
    MemoryKeyMismatch,
    OwnershipMismatch,
    ZeroOccurrences,
    InvalidObservedTimestamp,
    InvalidSuppressionTimestamp,
    ObservedTimestampTooFarInFuture,
    SuppressionWindowOutOfBounds,
    InvalidReconciliationTerminal,
    ReconciliationTerminalMismatch,
    InvalidPersistedStateRepairTerminal,
    PersistedStateRepairTerminalMismatch,
    InstallGuardianRetryMismatch,
}

/// Why a snapshot of the failure memory cannot be loaded.
#[derive(Clone, Copy, Debug, PartialEq, Eq, Structural, Hash)]
pub enum FailureMemoryLoadError {
    /// The text is not the encoding of a snapshot.
    Json,
    InvalidSchema,
    TooLarge,
    TooManyEntries,
    InvalidEntry(FailureMemoryValidationError),
    DuplicateKey,
}

/// Why the failure memory refused a request.
#[derive(Clone, Copy, Debug, PartialEq, Eq, Structural, Hash)]
pub enum FailureMemoryStoreError {
    Validation(FailureMemoryValidationError),
    Snapshot(FailureMemoryLoadError),
    Persistence(PersistenceFault),
    CapacityExhausted,
    Expired,
}

impl FailureMemoryStoreError {
    /// The class of the error, which says nothing of the data it is about.
    pub open spec fn class_text(self) -> Seq<char> {
        match self {
            FailureMemoryStoreError::Validation(_) => "validation"@,
            FailureMemoryStoreError::Snapshot(_) => "snapshot"@,
            FailureMemoryStoreError::Persistence(_) => "persistence"@,
            FailureMemoryStoreError::CapacityExhausted => "capacity_exhausted"@,
            FailureMemoryStoreError::Expired => "expired"@,
        }
    }

    /// The class of the error, which says nothing of the data it is about.
    pub fn class(&self) -> (r: &'static str)
        ensures
            r@ == self.class_text(),
    {
        match self {
            FailureMemoryStoreError::Validation(_) => "validation",
            FailureMemoryStoreError::Snapshot(_) => "snapshot",
            FailureMemoryStoreError::Persistence(_) => "persistence",
            FailureMemoryStoreError::CapacityExhausted => "capacity_exhausted",
            FailureMemoryStoreError::Expired => "expired",
        }
    }
}

} // verus!

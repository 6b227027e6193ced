//! What can go wrong with operation journals.

use vstd::prelude::*;

verus! {

/// What is wrong with a journal entry.
#[derive(Clone, Copy, Debug, PartialEq, Eq, Structural, Hash)]
pub enum OperationJournalValidationError {
    UnsafeJournalId,
    InvalidParentOperationId,
    UnsafeTargetId,
    UnsafeStepId,
    UnsafeGeneratedFact,
    UnsafeFailurePoint,
    EmptyJournal,
    TooManyTargets,
    TooManyPlannedSteps,
    TooManyCompletedSteps,
    TooManyFacts,
    TooManyGuardianFacts,
    DuplicateGuardianFact,
    TooManyDiagnoses,
    DuplicateDiagnosis,
    InvalidOperationMetrics,
    InvalidGuardianInstallTerminal,
    InvalidReconciliationTerminal,
    ReconciliationTerminalMismatch,
    InvalidPersistedStateRepair,
    PersistedStateRepairMismatch,
    InvalidPerformanceLifecycle,
}

/// Why a snapshot of journals cannot be loaded.
#[derive(Clone, Copy, Debug, PartialEq, Eq, Structural, Hash)]
pub enum OperationJournalLoadError {
    /// The text is not the encoding of a snapshot.
    Json,
    InvalidSchema,
    TooLarge,
    TooManyEntries,
    InvalidEntry(OperationJournalValidationError),
    DuplicateOperationId,
    InvalidSequence,
}

/// Why something could not be made durable.
#[derive(Clone, Copy, Debug, PartialEq, Eq, Structural, Hash)]
pub enum PersistenceFault {
    /// The snapshot is larger than its file may be.
    SnapshotTooLarge,
    /// An earlier write has failed and must be repeated first.
    RetryPending,
    /// The write was refused or did not succeed.
    WriteFailed,
}

/// Why the store of journals refused a request.
#[derive(Clone, Copy, Debug, PartialEq, Eq, Structural, Hash)]
pub enum OperationJournalStoreError {
    Validation(OperationJournalValidationError),
    Snapshot(OperationJournalLoadError),
    MissingOperation,
    AlreadyTerminal,
    AlreadyExists,
    RetryRequired,
    CapacityExhausted,
    SequenceExhausted,
    Conflict,
    InvalidGuardianOutcome,
    InvalidOperationMetrics,
    GuardianFailureMemoryUnavailable,
    Persistence(PersistenceFault),
}

impl OperationJournalStoreError {
    /// The class of the error, which says nothing of the data it is about.
    pub open spec fn class_text(self) -> Seq<char> {
        match self {
            OperationJournalStoreError::Validation(_) => "validation"@,
            OperationJournalStoreError::Snapshot(_) => "snapshot"@,
            OperationJournalStoreError::MissingOperation => "missing_operation"@,
            OperationJournalStoreError::AlreadyTerminal => "already_terminal"@,
            OperationJournalStoreError::AlreadyExists => "already_exists"@,
            OperationJournalStoreError::RetryRequired => "retry_required"@,
            OperationJournalStoreError::CapacityExhausted => "capacity_exhausted"@,
            OperationJournalStoreError::SequenceExhausted => "sequence_exhausted"@,
            OperationJournalStoreError::Conflict => "conflict"@,
            OperationJournalStoreError::InvalidGuardianOutcome => "invalid_guardian_outcome"@,
            OperationJournalStoreError::InvalidOperationMetrics => "invalid_operation_metrics"@,
            OperationJournalStoreError::GuardianFailureMemoryUnavailable => {
                "guardian_failure_memory_unavailable"@
            },
            OperationJournalStoreError::Persistence(_) => "persistence"@,
        }
    }

    /// The class of the error, which says nothing of the data it is about.
    pub fn class(&self) -> (r: &'static str)
        ensures
            r@ == self.class_text(),
    {
        match self {
            OperationJournalStoreError::Validation(_) => "validation",
            OperationJournalStoreError::Snapshot(_) => "snapshot",
            OperationJournalStoreError::MissingOperation => "missing_operation",
            OperationJournalStoreError::AlreadyTerminal => "already_terminal",
            OperationJournalStoreError::AlreadyExists => "already_exists",
            OperationJournalStoreError::RetryRequired => "retry_required",
            OperationJournalStoreError::CapacityExhausted => "capacity_exhausted",
            OperationJournalStoreError::SequenceExhausted => "sequence_exhausted",
            OperationJournalStoreError::Conflict => "conflict",
            OperationJournalStoreError::InvalidGuardianOutcome => "invalid_guardian_outcome",
            OperationJournalStoreError::InvalidOperationMetrics => "invalid_operation_metrics",
            OperationJournalStoreError::GuardianFailureMemoryUnavailable => {
                "guardian_failure_memory_unavailable"
            },
            OperationJournalStoreError::Persistence(_) => "persistence",
        }
    }
}

} // verus!

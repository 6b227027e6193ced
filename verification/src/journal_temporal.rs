//! How long the evidence in a journal entry stays in force.

use crate::entry::{OperationJournalEntry, OperationJournalEntryView};
use crate::evidence::{
    PersistedStateRepairAttempt, PersistedStateRepairAttemptView, PersistedStateRepairTerminal,
    PersistedStateRepairTerminalView, ReconciliationAttempt, ReconciliationAttemptView,
    ReconciliationTerminal, ReconciliationTerminalView,
};
use crate::journal_errors::{OperationJournalStoreError, OperationJournalValidationError};
use crate::temporal::{
    assessment, is_current, BoundedTemporalDisposition, BoundedTemporalPolicy,
    BoundedTemporalRecord, BoundedTemporalRecordView, BoundedTemporalViolation, ClockView,
};
use vstd::prelude::*;

verus! {

/// The times of something that was observed once.
pub open spec fn observed_once(
    observed_at: Seq<char>,
    suppression_until: Seq<char>,
    pending: bool,
) -> BoundedTemporalRecordView {
    BoundedTemporalRecordView {
        first_observed_at: observed_at,
        last_observed_at: observed_at,
        suppression_until: Some(suppression_until),
        pending,
    }
}

/// The times of a reconciliation that has ended. It waits as long as what it published does.
pub open spec fn terminal_times(terminal: ReconciliationTerminalView) -> BoundedTemporalRecordView {
    observed_once(
        terminal.attempt.observed_at,
        terminal.attempt.suppression_until,
        terminal.version_bundle_publication matches Some(publication) && publication.pending,
    )
}

/// The times of a reconciliation that is under way.
pub open spec fn attempt_times(attempt: ReconciliationAttemptView) -> BoundedTemporalRecordView {
    observed_once(attempt.observed_at, attempt.suppression_until, true)
}

/// The times of a repair of a persisted record that has ended.
pub open spec fn repair_terminal_times(
    terminal: PersistedStateRepairTerminalView,
) -> BoundedTemporalRecordView {
    observed_once(terminal.attempt.observed_at, terminal.suppression_until, false)
}

/// The times of a repair of a persisted record that is under way.
pub open spec fn repair_attempt_times(
    attempt: PersistedStateRepairAttemptView,
) -> BoundedTemporalRecordView {
    observed_once(attempt.observed_at, attempt.suppression_until, true)
}

/// The times by which an entry is judged, if it has any.
pub open spec fn entry_times(entry: OperationJournalEntryView) -> Option<
    BoundedTemporalRecordView,
> {
    if let Some(terminal) = entry.reconciliation_terminal {
        Some(terminal_times(terminal))
    } else if let Some(terminal) = entry.persisted_state_repair_terminal {
        Some(repair_terminal_times(terminal))
    } else if let Some(attempt) = entry.reconciliation_attempt {
        Some(attempt_times(attempt))
    } else if let Some(attempt) = entry.persisted_state_repair_attempt {
        Some(repair_attempt_times(attempt))
    } else {
        None
    }
}

/// What the times of an entry amount to. An entry without times is always in force.
pub open spec fn entry_assessment(now: ClockView, entry: OperationJournalEntryView) -> Result<
    BoundedTemporalDisposition,
    BoundedTemporalViolation,
> {
    match entry_times(entry) {
        Some(times) => assessment(now, times),
        None => Ok(BoundedTemporalDisposition::Current),
    }
}

/// Whether an entry ended a reconciliation or a repair that is still in force.
pub open spec fn ended_in_force(now: ClockView, entry: OperationJournalEntryView) -> bool {
    ||| entry.reconciliation_terminal matches Some(terminal) && is_current(
        now,
        terminal_times(terminal),
    )
    ||| entry.persisted_state_repair_terminal matches Some(terminal) && is_current(
        now,
        repair_terminal_times(terminal),
    )
}

/// The error that stands for bad times in an entry.
pub open spec fn times_error(entry: OperationJournalEntryView) -> OperationJournalValidationError {
    if entry.persisted_state_repair_attempt is Some {
        OperationJournalValidationError::InvalidPersistedStateRepair
    } else {
        OperationJournalValidationError::InvalidReconciliationTerminal
    }
}

/// Whether an entry may be written: its times are in force, or it settles what has expired.
pub open spec fn times_admitted(
    now: ClockView,
    entry: OperationJournalEntryView,
    allow_expired_terminal: bool,
) -> bool {
    match entry_assessment(now, entry) {
        Ok(BoundedTemporalDisposition::Current) => true,
        Ok(BoundedTemporalDisposition::Expired) => allow_expired_terminal,
        Err(_) => false,
    }
}

/// The times of a reconciliation that has ended.
pub fn reconciliation_temporal_record<'a>(terminal: &'a ReconciliationTerminal) -> (r:
    BoundedTemporalRecord<'a>)
    ensures
        r@ == terminal_times(terminal@),
{
    let pending = match &terminal.version_bundle_publication {
        Some(publication) => publication.pending,
        None => false,
    };
    BoundedTemporalRecord {
        first_observed_at: terminal.attempt.observed_at.as_str(),
        last_observed_at: terminal.attempt.observed_at.as_str(),
        suppression_until: Some(terminal.attempt.suppression_until.as_str()),
        pending,
    }
}

/// The times of a reconciliation that is under way.
pub fn reconciliation_attempt_temporal_record<'a>(attempt: &'a ReconciliationAttempt) -> (r:
    BoundedTemporalRecord<'a>)
    ensures
        r@ == attempt_times(attempt@),
{
    BoundedTemporalRecord {
        first_observed_at: attempt.observed_at.as_str(),
        last_observed_at: attempt.observed_at.as_str(),
        suppression_until: Some(attempt.suppression_until.as_str()),
        pending: true,
    }
}

/// The times of a repair of a persisted record that has ended.
pub fn persisted_state_repair_temporal_record<'a>(
    terminal: &'a PersistedStateRepairTerminal,
) -> (r: BoundedTemporalRecord<'a>)
    ensures
        r@ == repair_terminal_times(terminal@),
{
    BoundedTemporalRecord {
        first_observed_at: terminal.attempt.observed_at.as_str(),
        last_observed_at: terminal.attempt.observed_at.as_str(),
        suppression_until: Some(terminal.suppression_until.as_str()),
        pending: false,
    }
}

/// The times of a repair of a persisted record that is under way.
pub fn persisted_state_repair_attempt_temporal_record<'a>(
    attempt: &'a PersistedStateRepairAttempt,
) -> (r: BoundedTemporalRecord<'a>)
    ensures
        r@ == repair_attempt_times(attempt@),
{
    BoundedTemporalRecord {
        first_observed_at: attempt.observed_at.as_str(),
        last_observed_at: attempt.observed_at.as_str(),
        suppression_until: Some(attempt.suppression_until.as_str()),
        pending: true,
    }
}

/// What the times of an entry amount to.
pub fn assess_journal_temporal(
    temporal: &BoundedTemporalPolicy,
    entry: &OperationJournalEntry,
) -> (r: Result<BoundedTemporalDisposition, BoundedTemporalViolation>)
    ensures
        r == entry_assessment(temporal@, entry@),
{
    match &entry.reconciliation_terminal {
        Some(terminal) => {
            return temporal.assess(reconciliation_temporal_record(terminal));
        },
        None => {},
    }
    match &entry.persisted_state_repair_terminal {
        Some(terminal) => {
            return temporal.assess(persisted_state_repair_temporal_record(terminal));
        },
        None => {},
    }
    match &entry.reconciliation_attempt {
        Some(attempt) => {
            return temporal.assess(reconciliation_attempt_temporal_record(attempt));
        },
        None => {},
    }
    match &entry.persisted_state_repair_attempt {
        Some(attempt) => temporal.assess(persisted_state_repair_attempt_temporal_record(attempt)),
        None => Ok(BoundedTemporalDisposition::Current),
    }
}

/// Whether an entry ended a reconciliation or a repair that is still in force.
pub fn active_reconciliation_terminal(
    entry: &OperationJournalEntry,
    temporal: &BoundedTemporalPolicy,
) -> (r: bool)
    ensures
        r == ended_in_force(temporal@, entry@),
{
    let reconciled = match &entry.reconciliation_terminal {
        Some(terminal) => temporal.current(reconciliation_temporal_record(terminal)),
        None => false,
    };
    let repaired = match &entry.persisted_state_repair_terminal {
        Some(terminal) => temporal.current(persisted_state_repair_temporal_record(terminal)),
        None => false,
    };
    reconciled || repaired
}

/// The error that stands for bad times in an entry.
pub fn temporal_journal_validation_error(entry: &OperationJournalEntry) -> (r:
    OperationJournalValidationError)
    ensures
        r == times_error(entry@),
{
    if entry.persisted_state_repair_attempt.is_some() {
        OperationJournalValidationError::InvalidPersistedStateRepair
    } else {
        OperationJournalValidationError::InvalidReconciliationTerminal
    }
}

/// Checks that an entry may be written as far as its times go.
pub fn validate_journal_temporal_admission(
    temporal: &BoundedTemporalPolicy,
    entry: &OperationJournalEntry,
    allow_expired_terminal: bool,
) -> (r: Result<(), OperationJournalStoreError>)
    ensures
        r == (if times_admitted(temporal@, entry@, allow_expired_terminal) {
            Ok::<(), OperationJournalStoreError>(())
        } else {
            Err(OperationJournalStoreError::Validation(times_error(entry@)))
        }),
{
    match assess_journal_temporal(temporal, entry) {
        Ok(BoundedTemporalDisposition::Current) => Ok(()),
        Ok(BoundedTemporalDisposition::Expired) => {
            if allow_expired_terminal {
                Ok(())
            } else {
                Err(
                    OperationJournalStoreError::Validation(temporal_journal_validation_error(entry)),
                )
            }
        },
        Err(_) => Err(
            OperationJournalStoreError::Validation(temporal_journal_validation_error(entry)),
        ),
    }
}

} // verus!

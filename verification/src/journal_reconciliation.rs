//! What is done when the journal could not be written: which writes are repeated, how long to wait
//! between them, and what has become of the transition in the end.

use crate::contracts::OperationId;
use crate::journal_errors::{OperationJournalStoreError, OperationJournalValidationError};
use crate::journal_store::{result_view, OperationJournalStore, OperationJournalStoreView};
use crate::lifecycle::{PerformanceOperationIntent, PerformanceOperationIntentView};
use crate::performance::{
    create_is_visible, intent_is_valid, performance_create_is_visible, validate_performance_intent,
};
use crate::projection::{
    performance_operation_projection, projection_of, PerformanceOperationProjection,
    PerformanceOperationProjectionView,
};
use crate::rulings::{LauncherRulings, LauncherRulingsView};
use vstd::prelude::*;

verus! {

/// How often a write is repeated, and how often a transition is tried again behind the writes of
/// others.
pub const OPERATION_JOURNAL_TRANSITION_RETRY_ATTEMPTS: usize = 4;

/// Why a performance operation could not be created.
#[derive(Clone, Copy, Debug, PartialEq, Eq, Structural)]
pub enum PerformanceOperationCreateError {
    /// Nothing was admitted.
    BeforeAdmission(OperationJournalStoreError),
    /// The operation was admitted, but it is not certain that its journal was written.
    AfterAdmission { operation_id: OperationId, source: OperationJournalStoreError },
}

/// What has become of a transition whose journal could not be written at first.
#[derive(Clone, Copy, Debug, PartialEq, Eq, Structural)]
pub enum OperationJournalReconciliation {
    CommittedAfterPersistenceFailure(OperationJournalStoreError),
    RequestedTransitionAlreadyCommitted,
    RetryRequestedTransition,
}

/// What to do next about a transition whose journal could not be written.
#[derive(Clone, Copy, Debug, PartialEq, Eq, Structural)]
pub enum ReconciliationStep {
    /// Repeat the write.
    Retry,
    /// Wait for so many milliseconds, and then go on.
    WaitMillis(u64),
    /// Look whether the transition shows.
    Conclude,
}

/// What to do next when a restart is settled.
#[derive(Clone, Copy, Debug, PartialEq, Eq, Structural)]
pub enum RestartStep {
    /// Repeat the write that failed, and start over.
    RetryFirst,
    /// Settle the operations, and write them down.
    Settle,
    /// Repeat the write that failed, and then report what remains to be done.
    RetryThenReport,
    /// Report what remains to be done.
    Report,
    /// Give the error back.
    Fail,
}

/// What is done with the file of the journals.
#[derive(Clone, Copy, Debug, PartialEq, Eq, Structural)]
pub enum JournalFileAction {
    /// Repeat the write that failed.
    Retry,
    /// Wait until everything is written.
    Flush,
    /// Wait until everything is written, and repeat what fails.
    Settle,
    /// Give the file up.
    Close,
}

/// What comes before anything else that is done with the file.
pub open spec fn first_actions(waiting: bool) -> Seq<JournalFileAction> {
    if waiting {
        seq![JournalFileAction::Retry]
    } else {
        Seq::empty()
    }
}

/// Whether an error leaves open what has become of a change.
pub open spec fn leaves_open(error: OperationJournalStoreError) -> bool {
    error is Persistence || error is RetryRequired
}

/// Whether an error leaves open what has become of a change.
pub fn outcome_is_open(error: &OperationJournalStoreError) -> (r: bool)
    ensures
        r == leaves_open(*error),
{
    match error {
        OperationJournalStoreError::Persistence(_) => true,
        OperationJournalStoreError::RetryRequired => true,
        _ => false,
    }
}

/// The reconciliation of a transition whose journal could not be written.
#[derive(Clone, Copy, Debug, PartialEq, Eq, Structural)]
pub struct TransitionReconciliation {
    /// Whether the transition was turned away because the write of another one has to be repeated.
    pub retry_requested: bool,
    /// The last error.
    pub error: OperationJournalStoreError,
    /// How often the write has been repeated.
    pub attempts: usize,
    /// How long to wait after the next failure.
    pub delay_millis: u64,
    pub max_delay_millis: u64,
}

/// How long to wait after one more failure.
pub open spec fn longer_delay(delay: u64, max: u64) -> u64 {
    if delay * 2 <= max {
        (delay * 2) as u64
    } else {
        max
    }
}

/// The reconciliation that an error starts, or the error itself where it leaves nothing open.
pub open spec fn reconciliation_of(
    error: OperationJournalStoreError,
    initial_delay_millis: u64,
    max_delay_millis: u64,
) -> Result<TransitionReconciliation, OperationJournalStoreError> {
    if leaves_open(error) {
        Ok(
            TransitionReconciliation {
                retry_requested: error is RetryRequired,
                error,
                attempts: 0,
                delay_millis: initial_delay_millis,
                max_delay_millis,
            },
        )
    } else {
        Err(error)
    }
}

/// What to do first, given whether a write still has to be repeated.
pub open spec fn first_step(
    state: TransitionReconciliation,
    has_retry_candidate: bool,
) -> ReconciliationStep {
    if has_retry_candidate && state.attempts < OPERATION_JOURNAL_TRANSITION_RETRY_ATTEMPTS {
        ReconciliationStep::Retry
    } else {
        ReconciliationStep::Conclude
    }
}

/// The reconciliation after a write was repeated.
pub open spec fn after_retry(
    state: TransitionReconciliation,
    outcome: Result<(), OperationJournalStoreError>,
    has_retry_candidate: bool,
) -> TransitionReconciliation {
    let counted = TransitionReconciliation { attempts: (state.attempts + 1) as usize, ..state };
    match outcome {
        Ok(()) => counted,
        Err(error) => if has_retry_candidate {
            TransitionReconciliation {
                error,
                delay_millis: longer_delay(state.delay_millis, state.max_delay_millis),
                ..counted
            }
        } else {
            TransitionReconciliation { error, ..counted }
        },
    }
}

/// What to do after a write was repeated. Between two failures there is a wait; after the last one
/// there is none.
pub open spec fn step_after_retry(
    state: TransitionReconciliation,
    outcome: Result<(), OperationJournalStoreError>,
    has_retry_candidate: bool,
) -> ReconciliationStep {
    if outcome is Ok || !has_retry_candidate || state.attempts + 1
        >= OPERATION_JOURNAL_TRANSITION_RETRY_ATTEMPTS {
        ReconciliationStep::Conclude
    } else {
        ReconciliationStep::WaitMillis(state.delay_millis)
    }
}

/// What has become of the transition, given whether it shows.
pub open spec fn conclusion(state: TransitionReconciliation, shows: bool) -> Result<
    OperationJournalReconciliation,
    OperationJournalStoreError,
> {
    if shows {
        if state.retry_requested {
            Ok(OperationJournalReconciliation::RequestedTransitionAlreadyCommitted)
        } else {
            Ok(OperationJournalReconciliation::CommittedAfterPersistenceFailure(state.error))
        }
    } else if state.retry_requested {
        Ok(OperationJournalReconciliation::RetryRequestedTransition)
    } else {
        Err(state.error)
    }
}

/// Every repeated write brings the reconciliation nearer to its end: after so many of them there is
/// nothing left but to look.
pub proof fn reconciliation_ends(
    state: TransitionReconciliation,
    outcome: Result<(), OperationJournalStoreError>,
    has_retry_candidate: bool,
    still_has_candidate: bool,
)
    requires
        first_step(state, has_retry_candidate) == ReconciliationStep::Retry,
    ensures
        after_retry(state, outcome, has_retry_candidate).attempts == state.attempts + 1,
        after_retry(state, outcome, has_retry_candidate).attempts
            <= OPERATION_JOURNAL_TRANSITION_RETRY_ATTEMPTS,
        state.attempts + 1 == OPERATION_JOURNAL_TRANSITION_RETRY_ATTEMPTS ==> first_step(
            after_retry(state, outcome, has_retry_candidate),
            still_has_candidate,
        ) == ReconciliationStep::Conclude,
        after_retry(state, outcome, has_retry_candidate).retry_requested == state.retry_requested,
{
}

/// A transition is taken for done only if it shows, and given up with an error only if it does not.
pub proof fn reconciliation_tells_the_truth(state: TransitionReconciliation, shows: bool)
    ensures
        shows <==> (conclusion(state, shows) matches Ok(found) && found
            != OperationJournalReconciliation::RetryRequestedTransition),
{
}

impl TransitionReconciliation {
    /// Starts a reconciliation, or gives the error back where it leaves nothing open.
    pub fn start(
        error: OperationJournalStoreError,
        initial_delay_millis: u64,
        max_delay_millis: u64,
    ) -> (r: Result<TransitionReconciliation, OperationJournalStoreError>)
        ensures
            r == reconciliation_of(error, initial_delay_millis, max_delay_millis),
    {
        let retry_requested = match error {
            OperationJournalStoreError::Persistence(_) => false,
            OperationJournalStoreError::RetryRequired => true,
            _ => {
                return Err(error);
            },
        };
        Ok(
            TransitionReconciliation {
                retry_requested,
                error,
                attempts: 0,
                delay_millis: initial_delay_millis,
                max_delay_millis,
            },
        )
    }

    /// What to do next, given whether a write still has to be repeated.
    pub fn next_step(&self, has_retry_candidate: bool) -> (r: ReconciliationStep)
        ensures
            r == first_step(*self, has_retry_candidate),
    {
        if has_retry_candidate && self.attempts < OPERATION_JOURNAL_TRANSITION_RETRY_ATTEMPTS {
            ReconciliationStep::Retry
        } else {
            ReconciliationStep::Conclude
        }
    }

    /// Takes note of how a repeated write ended, and says what to do then.
    pub fn note_retry(
        &mut self,
        outcome: Result<(), OperationJournalStoreError>,
        has_retry_candidate: bool,
    ) -> (r: ReconciliationStep)
        requires
            old(self).attempts < OPERATION_JOURNAL_TRANSITION_RETRY_ATTEMPTS,
        ensures
            *final(self) == after_retry(*old(self), outcome, has_retry_candidate),
            r == step_after_retry(*old(self), outcome, has_retry_candidate),
    {
        self.attempts = self.attempts + 1;
        match outcome {
            Ok(()) => ReconciliationStep::Conclude,
            Err(error) => {
                self.error = error;
                if !has_retry_candidate {
                    return ReconciliationStep::Conclude;
                }
                let delay: u64 = self.delay_millis;
                let doubled: u64 = delay.saturating_add(delay);
                self.delay_millis = if doubled <= self.max_delay_millis {
                    doubled
                } else {
                    self.max_delay_millis
                };
                if self.attempts < OPERATION_JOURNAL_TRANSITION_RETRY_ATTEMPTS {
                    ReconciliationStep::WaitMillis(delay)
                } else {
                    ReconciliationStep::Conclude
                }
            },
        }
    }

    /// What has become of the transition, given whether it shows.
    pub fn conclude(&self, shows: bool) -> (r: Result<
        OperationJournalReconciliation,
        OperationJournalStoreError,
    >)
        ensures
            r == conclusion(*self, shows),
    {
        if shows {
            return if self.retry_requested {
                Ok(OperationJournalReconciliation::RequestedTransitionAlreadyCommitted)
            } else {
                Ok(OperationJournalReconciliation::CommittedAfterPersistenceFailure(self.error))
            };
        }
        if self.retry_requested {
            return Ok(OperationJournalReconciliation::RetryRequestedTransition);
        }
        Err(self.error)
    }
}

/// Whether a transition is tried again once its reconciliation has ended: `Some` with the number of
/// times that it then will have been, `None` where it is done.
pub open spec fn tried_again(
    foreign_retries: usize,
    found: OperationJournalReconciliation,
) -> Result<Option<usize>, OperationJournalStoreError> {
    if found == OperationJournalReconciliation::RetryRequestedTransition {
        if foreign_retries < OPERATION_JOURNAL_TRANSITION_RETRY_ATTEMPTS {
            Ok(Some((foreign_retries + 1) as usize))
        } else {
            Err(OperationJournalStoreError::RetryRequired)
        }
    } else {
        Ok(None)
    }
}

/// Whether a transition is tried again once its reconciliation has ended.
pub fn try_again(foreign_retries: usize, found: OperationJournalReconciliation) -> (r: Result<
    Option<usize>,
    OperationJournalStoreError,
>)
    ensures
        r == tried_again(foreign_retries, found),
{
    match found {
        OperationJournalReconciliation::RetryRequestedTransition => {
            if foreign_retries < OPERATION_JOURNAL_TRANSITION_RETRY_ATTEMPTS {
                Ok(Some(foreign_retries + 1))
            } else {
                Err(OperationJournalStoreError::RetryRequired)
            }
        },
        _ => Ok(None),
    }
}

/// How the settlement of a restart begins.
pub open spec fn restart_begins_with(store: OperationJournalStoreView) -> RestartStep {
    if store.retry_candidate is Some {
        RestartStep::RetryFirst
    } else {
        RestartStep::Settle
    }
}

/// How the settlement of a restart goes on, given whether its journals were written.
pub open spec fn restart_goes_on_with(
    store: OperationJournalStoreView,
    written: bool,
) -> RestartStep {
    if written {
        RestartStep::Report
    } else if store.retry_candidate is Some {
        RestartStep::RetryThenReport
    } else {
        RestartStep::Fail
    }
}

/// What is done until everything is written.
pub open spec fn flushing(store: OperationJournalStoreView, has_file: bool) -> Seq<
    JournalFileAction,
> {
    first_actions(store.retry_candidate is Some) + (if has_file {
        seq![JournalFileAction::Flush]
    } else {
        Seq::empty()
    })
}

/// What is done to give the file up.
pub open spec fn closing(store: OperationJournalStoreView, has_file: bool) -> Seq<
    JournalFileAction,
> {
    first_actions(store.retry_candidate is Some) + (if has_file {
        seq![JournalFileAction::Settle, JournalFileAction::Close]
    } else {
        Seq::empty()
    })
}

/// What is shown of a performance operation that was created with this intent.
pub open spec fn creation_shown(
    store: OperationJournalStoreView,
    operation_id: OperationId,
    intent: PerformanceOperationIntentView,
    rulings: LauncherRulingsView,
) -> Result<PerformanceOperationProjectionView, OperationJournalStoreError> {
    if !intent_is_valid(intent, rulings) {
        Err(
            OperationJournalStoreError::Validation(
                OperationJournalValidationError::InvalidPerformanceLifecycle,
            ),
        )
    } else if store.visible.entries.contains_key(operation_id.value) && create_is_visible(
        store.visible.entries[operation_id.value].entry,
        intent,
    ) {
        Ok(projection_of(store.visible.entries[operation_id.value].entry)->0)
    } else {
        Err(OperationJournalStoreError::MissingOperation)
    }
}

impl OperationJournalStore {
    /// How the settlement of a restart begins: nothing is settled while a write that failed waits to
    /// be repeated.
    pub fn restart_step(&self) -> (r: RestartStep)
        ensures
            r == restart_begins_with(self@),
    {
        if self.has_retry_candidate() {
            RestartStep::RetryFirst
        } else {
            RestartStep::Settle
        }
    }

    /// How the settlement of a restart goes on, given whether its journals were written.
    pub fn restart_step_after_write(&self, written: bool) -> (r: RestartStep)
        ensures
            r == restart_goes_on_with(self@, written),
    {
        if written {
            RestartStep::Report
        } else if self.has_retry_candidate() {
            RestartStep::RetryThenReport
        } else {
            RestartStep::Fail
        }
    }

    /// What is done, in this order, until everything is written. The first action that fails ends it
    /// with its error.
    pub fn flush_actions(&self, has_file: bool) -> (r: Vec<JournalFileAction>)
        ensures
            r@ == flushing(self@, has_file),
    {
        let mut actions: Vec<JournalFileAction> = Vec::new();
        if self.has_retry_candidate() {
            actions.push(JournalFileAction::Retry);
        }
        if has_file {
            actions.push(JournalFileAction::Flush);
        }
        assert(actions@ =~= first_actions(self@.retry_candidate is Some) + (if has_file {
            seq![JournalFileAction::Flush]
        } else {
            Seq::empty()
        }));
        actions
    }

    /// What is done, in this order, to give the file up. The first action that fails ends it with its
    /// error.
    pub fn close_actions(&self, has_file: bool) -> (r: Vec<JournalFileAction>)
        ensures
            r@ == closing(self@, has_file),
    {
        let mut actions: Vec<JournalFileAction> = Vec::new();
        if self.has_retry_candidate() {
            actions.push(JournalFileAction::Retry);
        }
        if has_file {
            actions.push(JournalFileAction::Settle);
            actions.push(JournalFileAction::Close);
        }
        assert(actions@ =~= first_actions(self@.retry_candidate is Some) + (if has_file {
            seq![JournalFileAction::Settle, JournalFileAction::Close]
        } else {
            Seq::empty()
        }));
        actions
    }

    /// The performance operation that was created with this intent, once it is certain that its
    /// journal was written.
    pub fn created_performance_operation(
        &self,
        operation_id: &OperationId,
        intent: &PerformanceOperationIntent,
        rulings: &LauncherRulings,
    ) -> (r: Result<PerformanceOperationProjection, OperationJournalStoreError>)
        ensures
            result_view(r) == creation_shown(self@, *operation_id, intent@, rulings@),
    {
        match validate_performance_intent(intent, rulings) {
            Ok(()) => {},
            Err(error) => {
                return Err(OperationJournalStoreError::Validation(error));
            },
        }
        match self.visible().entry(operation_id) {
            Some(entry) => {
                if performance_create_is_visible(entry, intent) {
                    match performance_operation_projection(entry) {
                        Some(projection) => {
                            return Ok(projection);
                        },
                        None => {},
                    }
                }
            },
            None => {},
        }
        Err(OperationJournalStoreError::MissingOperation)
    }
}

} // verus!

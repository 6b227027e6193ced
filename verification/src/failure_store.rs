//! The failure memory: what is visible, how a change becomes visible, and which repairs are reserved.

use crate::evidence::{PersistedStateRepairAttempt, PersistedStateRepairAttemptView};
use crate::failure_apply::{
    apply_install_guardian_startup_retry, apply_reconciliation_record, apply_record,
    install_guardian_retry_observation, may_supersede_reconciliation, may_supersede_repair,
    memory_has_key, persisted_state_repair_entry_can_be_superseded,
    reconciliation_entry_can_be_superseded, recorded, retries_taken_in, retry_mismatch,
    retry_observation,
};
use crate::failure_entry::{
    FailureMemoryKey, FailureMemoryLoadError, FailureMemoryStoreError, FailureMemoryValidationError,
    GuardianFailureMemoryEntry, GuardianFailureMemoryEntryView,
};
use crate::failure_keys::{publication_is_pending, repair_key};
use crate::failure_records::{
    active_durable_terminal, assess_temporal, end_is_in_force, in_force, in_key_order,
    lists_memory_key, memory_assessment, memory_at, memory_of, memory_times,
    ordered_keys_are_unique, protecting, survivors, temporal_record, with_memory, FailureRecords,
    Memories,
};
use crate::failure_validation::{
    memory_snapshot_verdict, memory_verdict, FailureMemorySnapshot, FailureMemorySnapshotView,
    DEFAULT_FAILURE_MEMORY_LIMIT, FAILURE_MEMORY_SCHEMA,
};
use crate::journal_errors::PersistenceFault;
use crate::journal_queries::acknowledge;
use crate::journal_records::acknowledged;
use crate::journal_store::WriteTicket;
use crate::journal_temporal::observed_once;
use crate::record::{list_duplicate, opt_view, views, Record};
use crate::rulings::{LauncherRulings, LauncherRulingsView};
use crate::temporal::{
    all_issues, assessment, suppresses, BoundedTemporalDisposition, BoundedTemporalLoadIssueCounts,
    BoundedTemporalPolicy, BoundedTemporalRecord, BoundedTemporalViolation, ClockView,
};
use crate::text::same_text;
use vstd::prelude::*;

verus! {

/// A change of the failure memory that has been decided on but not yet written down.
pub struct MemoryDraft {
    pub candidate: FailureRecords,
}

impl View for MemoryDraft {
    type V = Memories;

    open spec fn view(&self) -> Memories {
        self.candidate@
    }
}

/// Memories that become visible once they are written.
pub struct PendingFailureMemoryCommit {
    pub revision: u64,
    pub candidate: FailureRecords,
}

/// The model of [`PendingFailureMemoryCommit`].
pub struct PendingFailureMemoryCommitView {
    pub revision: u64,
    pub candidate: Memories,
}

impl View for PendingFailureMemoryCommit {
    type V = PendingFailureMemoryCommitView;

    open spec fn view(&self) -> PendingFailureMemoryCommitView {
        PendingFailureMemoryCommitView { revision: self.revision, candidate: self.candidate@ }
    }
}

/// The failures that the Guardian remembers.
pub struct GuardianFailureMemoryStore {
    visible: FailureRecords,
    visible_revision: u64,
    retry_candidate: Option<PendingFailureMemoryCommit>,
    critical_pending: bool,
    attempts: Vec<String>,
    identity: u64,
    max_entries: usize,
    temporal: BoundedTemporalPolicy,
    issues: BoundedTemporalLoadIssueCounts,
}

/// The model of [`GuardianFailureMemoryStore`].
pub struct FailureMemoryStoreView {
    pub visible: Memories,
    pub visible_revision: u64,
    pub retry_candidate: Option<PendingFailureMemoryCommitView>,
    /// Whether a write that has to be waited for is under way.
    pub critical_pending: bool,
    /// The failures whose repair is reserved.
    pub attempts: Seq<Seq<char>>,
    /// What tells this store from another one.
    pub identity: u64,
    pub max_entries: nat,
    pub now: ClockView,
    pub issues: BoundedTemporalLoadIssueCounts,
}

impl View for GuardianFailureMemoryStore {
    type V = FailureMemoryStoreView;

    closed spec fn view(&self) -> FailureMemoryStoreView {
        FailureMemoryStoreView {
            visible: self.visible@,
            visible_revision: self.visible_revision,
            retry_candidate: opt_view(self.retry_candidate),
            critical_pending: self.critical_pending,
            attempts: views(self.attempts@),
            identity: self.identity,
            max_entries: self.max_entries as nat,
            now: self.temporal@,
            issues: self.issues,
        }
    }
}

/// The right to reconcile a failure, which nobody else has at the same time.
pub struct ReconciliationAttemptReservation {
    key: FailureMemoryKey,
    owner: u64,
}

/// The right to repair a persisted record, which nobody else has at the same time.
pub struct PersistedStateRepairReservation {
    key: FailureMemoryKey,
    owner: u64,
}

/// The model of a reservation: the failure, and the store that gave the right.
pub struct ReservationView {
    pub key: Seq<char>,
    pub owner: u64,
}

impl View for ReconciliationAttemptReservation {
    type V = ReservationView;

    closed spec fn view(&self) -> ReservationView {
        ReservationView { key: self.key@, owner: self.owner }
    }
}

impl View for PersistedStateRepairReservation {
    type V = ReservationView;

    closed spec fn view(&self) -> ReservationView {
        ReservationView { key: self.key@, owner: self.owner }
    }
}

/// Why a reconciliation cannot be reserved.
#[derive(Clone, Copy, Debug, PartialEq, Eq, Structural)]
pub enum ReconciliationAttemptReserveError {
    PersistencePending,
    AlreadyReserved,
    CapacityExhausted,
}

/// Why the repair of a persisted record cannot be reserved.
#[derive(Clone, Copy, Debug, PartialEq, Eq, Structural)]
pub enum PersistedStateRepairReserveError {
    InvalidAttempt,
    PersistencePending,
    AlreadyReserved,
    Suppressed,
    CapacityExhausted,
}

/// What has to happen before a write that is under way is settled.
#[derive(Clone, Copy, Debug, PartialEq, Eq, Structural)]
pub enum PendingStep {
    /// The write has failed and is repeated.
    Retry,
    /// The write is waited for.
    Flush,
    Nothing,
}

/// What follows once a step has been taken, given whether it succeeded.
pub open spec fn step_following(step: PendingStep, succeeded: bool) -> Option<PendingStep> {
    if !succeeded && step == PendingStep::Flush {
        Some(PendingStep::Retry)
    } else {
        None
    }
}

impl PendingStep {
    /// What follows once the step has been taken, given whether it succeeded: writes that could not
    /// be waited for are repeated, and a repetition that fails is not repeated again.
    pub fn following(self, succeeded: bool) -> (r: Option<PendingStep>)
        ensures
            r == step_following(self, succeeded),
    {
        match self {
            PendingStep::Flush => if succeeded {
                None
            } else {
                Some(PendingStep::Retry)
            },
            _ => None,
        }
    }
}

/// What becomes of a request to record the end of a repair.
pub enum TerminalStep {
    /// It is recorded already.
    Done,
    /// A write that has failed is repeated first.
    RetryFirst,
    /// This has to be written.
    Write(MemoryDraft),
}

/// Whether nothing can be written for now, because the outcome of a write is open.
pub open spec fn memory_is_blocked(store: FailureMemoryStoreView) -> bool {
    store.retry_candidate is Some || store.critical_pending
}

/// The error of a request that came while the outcome of a write is open.
pub open spec fn retry_pending() -> FailureMemoryStoreError {
    FailureMemoryStoreError::Persistence(PersistenceFault::RetryPending)
}

/// No identities.
pub open spec fn nobody() -> Seq<Seq<char>> {
    Seq::empty()
}

/// The visible memories that are in force.
pub open spec fn base_memories(
    store: FailureMemoryStoreView,
    rulings: LauncherRulingsView,
) -> Memories {
    in_force(store.visible, protecting(nobody(), store.now, rulings))
}

/// The memories that a change starts from, once its entry has been admitted.
pub open spec fn memory_opened(
    store: FailureMemoryStoreView,
    entry: GuardianFailureMemoryEntryView,
    allow_expired: bool,
    rulings: LauncherRulingsView,
) -> Result<Memories, FailureMemoryStoreError> {
    if memory_is_blocked(store) {
        Err(retry_pending())
    } else {
        match memory_assessment(store.now, entry, rulings) {
            Err(error) => Err(FailureMemoryStoreError::Validation(error)),
            Ok(BoundedTemporalDisposition::Expired) => if allow_expired {
                Ok(base_memories(store, rulings))
            } else {
                Err(FailureMemoryStoreError::Expired)
            },
            Ok(BoundedTemporalDisposition::Current) => Ok(base_memories(store, rulings)),
        }
    }
}

/// The memories that are left of changed ones, if there is room for them.
pub open spec fn memory_closed(
    store: FailureMemoryStoreView,
    changed: Memories,
    protected: Seq<Seq<char>>,
    rulings: LauncherRulingsView,
) -> Result<Memories, FailureMemoryStoreError> {
    let left = survivors(changed, store.max_entries, protecting(protected, store.now, rulings));
    if left.len() <= store.max_entries {
        Ok(left)
    } else {
        Err(FailureMemoryStoreError::CapacityExhausted)
    }
}

/// The identity that is protected when an entry is written: its own, if it holds the end of a repair.
pub open spec fn protected_by(entry: GuardianFailureMemoryEntryView) -> Seq<Seq<char>> {
    if entry.reconciliation_terminal is Some || entry.persisted_state_repair_terminal is Some {
        seq![entry.key]
    } else {
        nobody()
    }
}

/// The memories once an observation has been recorded.
pub open spec fn memory_recorded(
    store: FailureMemoryStoreView,
    entry: GuardianFailureMemoryEntryView,
    rulings: LauncherRulingsView,
) -> Result<Memories, FailureMemoryStoreError> {
    match memory_opened(store, entry, false, rulings) {
        Err(error) => Err(error),
        Ok(base) => memory_closed(store, recorded(base, entry), protected_by(entry), rulings),
    }
}

/// The memories once the end of a repair has been put in.
pub open spec fn end_recorded(
    store: FailureMemoryStoreView,
    entry: GuardianFailureMemoryEntryView,
    rulings: LauncherRulingsView,
) -> Result<Memories, FailureMemoryStoreError> {
    match memory_opened(store, entry, true, rulings) {
        Err(error) => Err(error),
        Ok(base) => memory_closed(store, with_memory(base, entry), protected_by(entry), rulings),
    }
}

/// The first error among retries that are to be taken in together.
pub open spec fn retry_batch_verdict(
    entries: Seq<GuardianFailureMemoryEntryView>,
    now: ClockView,
    rulings: LauncherRulingsView,
) -> Result<(), FailureMemoryStoreError>
    decreases entries.len(),
{
    if entries.len() == 0 {
        Ok(())
    } else {
        match retry_batch_verdict(entries.drop_last(), now, rulings) {
            Err(error) => Err(error),
            Ok(()) => match memory_assessment(now, entries.last(), rulings) {
                Err(error) => Err(FailureMemoryStoreError::Validation(error)),
                Ok(BoundedTemporalDisposition::Expired) => Err(FailureMemoryStoreError::Expired),
                Ok(BoundedTemporalDisposition::Current) => if retry_observation(entries.last())
                    is None || exists|i: int|
                    0 <= i < entries.len() - 1 && (#[trigger] entries[i]).key
                        == entries.last().key {
                    Err(retry_mismatch())
                } else {
                    Ok(())
                },
            },
        }
    }
}

/// The identities of memories.
pub open spec fn keys_of(entries: Seq<GuardianFailureMemoryEntryView>) -> Seq<Seq<char>> {
    Seq::new(entries.len(), |i: int| entries[i].key)
}

/// The memories once retries found at startup have been taken in; `None` where all are remembered
/// already.
pub open spec fn retries_reconciled(
    store: FailureMemoryStoreView,
    entries: Seq<GuardianFailureMemoryEntryView>,
    rulings: LauncherRulingsView,
) -> Result<Option<Memories>, FailureMemoryStoreError> {
    match retry_batch_verdict(entries, store.now, rulings) {
        Err(error) => Err(error),
        Ok(()) => if memory_is_blocked(store) {
            Err(retry_pending())
        } else {
            match retries_taken_in(base_memories(store, rulings), entries, rulings) {
                Err(error) => Err(error),
                Ok((_, false)) => Ok(None),
                Ok((changed, true)) => match memory_closed(
                    store,
                    changed,
                    keys_of(entries),
                    rulings,
                ) {
                    Ok(left) => Ok(Some(left)),
                    Err(error) => Err(error),
                },
            }
        },
    }
}

/// The verdict on the end of a repair that is to be recorded under a reservation.
pub open spec fn end_admitted(
    store: FailureMemoryStoreView,
    entry: GuardianFailureMemoryEntryView,
    reservation: ReservationView,
    may_supersede: bool,
    mismatch: FailureMemoryValidationError,
    rulings: LauncherRulingsView,
) -> Result<(), FailureMemoryStoreError> {
    let left = survivors(
        in_force(with_memory(store.visible, entry), protecting(nobody(), store.now, rulings)),
        store.max_entries,
        protecting(seq![entry.key], store.now, rulings),
    );
    if let Err(error) = memory_assessment(store.now, entry, rulings) {
        Err(FailureMemoryStoreError::Validation(error))
    } else if reservation.key != entry.key || reservation.owner != store.identity
        || !store.attempts.contains(entry.key) {
        Err(FailureMemoryStoreError::Validation(FailureMemoryValidationError::MemoryKeyMismatch))
    } else if memory_of(store.visible, entry.key) matches Some(stored) && stored != entry
        && !may_supersede {
        Err(FailureMemoryStoreError::Validation(mismatch))
    } else if left.len() > store.max_entries {
        Err(FailureMemoryStoreError::CapacityExhausted)
    } else {
        Ok(())
    }
}

/// The verdict on the end of a reconciliation that is to be recorded.
pub open spec fn reconciliation_end_admitted(
    store: FailureMemoryStoreView,
    entry: GuardianFailureMemoryEntryView,
    reservation: ReservationView,
    rulings: LauncherRulingsView,
) -> Result<(), FailureMemoryStoreError> {
    if entry.reconciliation_terminal is None {
        Err(
            FailureMemoryStoreError::Validation(
                FailureMemoryValidationError::InvalidReconciliationTerminal,
            ),
        )
    } else {
        end_admitted(
            store,
            entry,
            reservation,
            memory_of(store.visible, entry.key) matches Some(stored)
                && may_supersede_reconciliation(stored, entry, store.now),
            FailureMemoryValidationError::ReconciliationTerminalMismatch,
            rulings,
        )
    }
}

/// The verdict on the end of a repair of a persisted record that is to be recorded.
pub open spec fn repair_end_admitted(
    store: FailureMemoryStoreView,
    entry: GuardianFailureMemoryEntryView,
    reservation: ReservationView,
    rulings: LauncherRulingsView,
) -> Result<(), FailureMemoryStoreError> {
    if entry.persisted_state_repair_terminal is None {
        Err(
            FailureMemoryStoreError::Validation(
                FailureMemoryValidationError::InvalidPersistedStateRepairTerminal,
            ),
        )
    } else {
        end_admitted(
            store,
            entry,
            reservation,
            memory_of(store.visible, entry.key) matches Some(stored) && may_supersede_repair(
                stored,
                entry,
                store.now,
            ),
            FailureMemoryValidationError::PersistedStateRepairTerminalMismatch,
            rulings,
        )
    }
}

/// What becomes of the end of a repair, once it has been admitted.
pub open spec fn end_step(
    store: FailureMemoryStoreView,
    entry: GuardianFailureMemoryEntryView,
    retried: bool,
    rulings: LauncherRulingsView,
) -> Result<TerminalStepView, FailureMemoryStoreError> {
    if memory_of(store.visible, entry.key) == Some(entry) {
        Ok(TerminalStepView::Done)
    } else if store.retry_candidate is Some && !retried {
        Ok(TerminalStepView::RetryFirst)
    } else {
        match end_recorded(store, entry, rulings) {
            Ok(left) => Ok(TerminalStepView::Write(left)),
            Err(error) => Err(error),
        }
    }
}

/// The model of [`TerminalStep`].
pub enum TerminalStepView {
    Done,
    RetryFirst,
    Write(Memories),
}

impl View for TerminalStep {
    type V = TerminalStepView;

    open spec fn view(&self) -> TerminalStepView {
        match self {
            TerminalStep::Done => TerminalStepView::Done,
            TerminalStep::RetryFirst => TerminalStepView::RetryFirst,
            TerminalStep::Write(draft) => TerminalStepView::Write(draft@),
        }
    }
}

/// The identities that take up room: the reserved ones, and those whose end is in force.
pub open spec fn occupied(store: FailureMemoryStoreView) -> Set<Seq<char>> {
    store.attempts.to_set().union(keys_in_force(store.visible, store.now))
}

/// The identities of the memories whose end is in force.
pub open spec fn keys_in_force(s: Memories, now: ClockView) -> Set<Seq<char>>
    decreases s.len(),
{
    if s.len() == 0 {
        Set::empty()
    } else if end_is_in_force(now, s.last()) {
        keys_in_force(s.drop_last(), now).insert(s.last().key)
    } else {
        keys_in_force(s.drop_last(), now)
    }
}

/// Whether a repair can be reserved, as far as what is reserved and in force goes.
pub open spec fn reservation_verdict(
    store: FailureMemoryStoreView,
    key: Seq<char>,
) -> Result<(), ReconciliationAttemptReserveError> {
    if memory_is_blocked(store) {
        Err(ReconciliationAttemptReserveError::PersistencePending)
    } else if store.attempts.contains(key) {
        Err(ReconciliationAttemptReserveError::AlreadyReserved)
    } else if !occupied(store).contains(key) && occupied(store).len() >= store.max_entries {
        Err(ReconciliationAttemptReserveError::CapacityExhausted)
    } else {
        Ok(())
    }
}

/// Whether the repair of a persisted record can be reserved.
pub open spec fn repair_reservation_verdict(
    store: FailureMemoryStoreView,
    attempt: PersistedStateRepairAttemptView,
) -> Result<(), PersistedStateRepairReserveError> {
    let key = repair_key(attempt);
    if !attempt.consistent || assessment(
        store.now,
        observed_once(attempt.observed_at, attempt.suppression_until, false),
    ) != Ok::<_, BoundedTemporalViolation>(BoundedTemporalDisposition::Current) {
        Err(PersistedStateRepairReserveError::InvalidAttempt)
    } else if memory_is_blocked(store) {
        Err(PersistedStateRepairReserveError::PersistencePending)
    } else if store.attempts.contains(key) {
        Err(PersistedStateRepairReserveError::AlreadyReserved)
    } else if memory_of(store.visible, key) matches Some(entry) && suppresses(
        store.now,
        memory_times(entry),
    ) {
        Err(PersistedStateRepairReserveError::Suppressed)
    } else if !occupied(store).contains(key) && occupied(store).len() >= store.max_entries {
        Err(PersistedStateRepairReserveError::CapacityExhausted)
    } else {
        Ok(())
    }
}

/// The store once a change has been handed to the writer.
pub open spec fn memory_accepted(
    store: FailureMemoryStoreView,
    candidate: Memories,
    ticket: WriteTicket,
) -> FailureMemoryStoreView {
    match ticket {
        WriteTicket::Unpersisted => FailureMemoryStoreView { visible: candidate, ..store },
        WriteTicket::Debounced(revision) => FailureMemoryStoreView {
            visible: candidate,
            visible_revision: revision,
            ..store
        },
        WriteTicket::Immediate(_) => FailureMemoryStoreView { critical_pending: true, ..store },
    }
}

/// What has to be waited for once a change has been handed to the writer.
pub open spec fn memory_awaited(
    candidate: Memories,
    ticket: WriteTicket,
) -> Option<PendingFailureMemoryCommitView> {
    match ticket {
        WriteTicket::Immediate(revision) => Some(
            PendingFailureMemoryCommitView { revision, candidate },
        ),
        _ => None,
    }
}

/// The store once the writer has said whether a change was written.
pub open spec fn memory_settled(
    store: FailureMemoryStoreView,
    commit: PendingFailureMemoryCommitView,
    written: bool,
) -> FailureMemoryStoreView {
    if !written {
        FailureMemoryStoreView { retry_candidate: Some(commit), ..store }
    } else if store.visible_revision < commit.revision {
        FailureMemoryStoreView {
            visible: commit.candidate,
            visible_revision: commit.revision,
            retry_candidate: None,
            critical_pending: false,
            ..store
        }
    } else {
        FailureMemoryStoreView { retry_candidate: None, critical_pending: false, ..store }
    }
}

/// What is waited for when the writer tries the revision of this number again; nothing where the
/// revision is not the one that failed.
pub open spec fn memory_retried(
    store: FailureMemoryStoreView,
    revision: u64,
) -> Option<PendingFailureMemoryCommitView> {
    match store.retry_candidate {
        Some(commit) => if commit.revision == revision {
            Some(commit)
        } else {
            None
        },
        None => None,
    }
}

/// A write that has to be waited for and fails changes nothing that is visible and blocks every other
/// change, until a later write of the same revision makes the change visible.
pub proof fn failed_memory_write_is_repeated(
    store: FailureMemoryStoreView,
    candidate: Memories,
    revision: u64,
    entry: GuardianFailureMemoryEntryView,
    rulings: LauncherRulingsView,
)
    requires
        store.visible_revision < revision,
    ensures
        ({
            let handed = memory_accepted(store, candidate, WriteTicket::Immediate(revision));
            let commit = memory_awaited(candidate, WriteTicket::Immediate(revision))->0;
            let failed = memory_settled(handed, commit, false);
            let repeated = memory_settled(failed, memory_retried(failed, revision)->0, true);
            &&& handed.visible == store.visible
            &&& failed.visible == store.visible
            &&& memory_recorded(handed, entry, rulings) == Err::<Memories, _>(retry_pending())
            &&& memory_recorded(failed, entry, rulings) == Err::<Memories, _>(retry_pending())
            &&& memory_retried(failed, revision) == Some(commit)
            &&& repeated.visible == candidate
            &&& !memory_is_blocked(repeated)
        }),
{
}

/// Whether a memory of a snapshot is loaded.
pub open spec fn is_loaded(
    entry: GuardianFailureMemoryEntryView,
    now: ClockView,
    rulings: LauncherRulingsView,
) -> bool {
    match memory_assessment(now, entry, rulings) {
        Ok(BoundedTemporalDisposition::Current) => true,
        Ok(BoundedTemporalDisposition::Expired) => is_publication_carrier(entry),
        Err(_) => false,
    }
}

/// Whether a memory holds a reconciliation that published something.
pub open spec fn is_publication_carrier(entry: GuardianFailureMemoryEntryView) -> bool {
    entry.reconciliation_terminal matches Some(terminal) && terminal.version_bundle_publication
        is Some
}

/// The memories that a snapshot leads to.
pub open spec fn loaded_memories(
    entries: Memories,
    now: ClockView,
    rulings: LauncherRulingsView,
) -> Memories
    decreases entries.len(),
{
    if entries.len() == 0 {
        Seq::empty()
    } else if is_loaded(entries.last(), now, rulings) {
        with_memory(loaded_memories(entries.drop_last(), now, rulings), entries.last())
    } else {
        loaded_memories(entries.drop_last(), now, rulings)
    }
}

/// The identities of the memories that are loaded although they have expired.
pub open spec fn expired_carriers(
    entries: Memories,
    now: ClockView,
    rulings: LauncherRulingsView,
) -> Seq<Seq<char>>
    decreases entries.len(),
{
    if entries.len() == 0 {
        Seq::empty()
    } else if memory_assessment(now, entries.last(), rulings) == Ok::<
        _,
        FailureMemoryValidationError,
    >(BoundedTemporalDisposition::Expired) && is_publication_carrier(entries.last()) {
        expired_carriers(entries.drop_last(), now, rulings).push(entries.last().key)
    } else {
        expired_carriers(entries.drop_last(), now, rulings)
    }
}

/// How many memories of a snapshot are wrong in this way.
pub open spec fn memory_violations(
    entries: Memories,
    now: ClockView,
    error: FailureMemoryValidationError,
    rulings: LauncherRulingsView,
) -> nat
    decreases entries.len(),
{
    if entries.len() == 0 {
        0
    } else {
        memory_violations(entries.drop_last(), now, error, rulings) + if memory_assessment(
            now,
            entries.last(),
            rulings,
        ) == Err::<BoundedTemporalDisposition, _>(error) {
            1nat
        } else {
            0nat
        }
    }
}

/// The first error in a snapshot that keeps all of it from being loaded.
pub open spec fn fatal_memory_error(
    entries: Memories,
    now: ClockView,
    rulings: LauncherRulingsView,
) -> Option<FailureMemoryValidationError>
    decreases entries.len(),
{
    if entries.len() == 0 {
        None
    } else if fatal_memory_error(entries.drop_last(), now, rulings) is Some {
        fatal_memory_error(entries.drop_last(), now, rulings)
    } else {
        match memory_assessment(now, entries.last(), rulings) {
            Err(FailureMemoryValidationError::ObservedTimestampTooFarInFuture) => None,
            Err(FailureMemoryValidationError::SuppressionWindowOutOfBounds) => None,
            Err(error) => Some(error),
            Ok(_) => None,
        }
    }
}

/// What becomes of a store when a snapshot is loaded, and what is answered.
pub open spec fn memory_loaded(
    store: FailureMemoryStoreView,
    snapshot: FailureMemorySnapshotView,
    sizes: Seq<u64>,
    rulings: LauncherRulingsView,
) -> (FailureMemoryStoreView, Result<(), FailureMemoryLoadError>) {
    let all = snapshot.entries;
    let left = survivors(
        loaded_memories(all, store.now, rulings),
        store.max_entries,
        protecting(expired_carriers(all, store.now, rulings), store.now, rulings),
    );
    if let Err(error) = memory_snapshot_verdict(snapshot, sizes, rulings) {
        (store, Err(error))
    } else if let Some(error) = fatal_memory_error(all, store.now, rulings) {
        (store, Err(FailureMemoryLoadError::InvalidEntry(error)))
    } else if left.len() > store.max_entries {
        (store, Err(FailureMemoryLoadError::TooManyEntries))
    } else {
        (
            FailureMemoryStoreView {
                visible: left,
                visible_revision: 0,
                retry_candidate: None,
                critical_pending: false,
                issues: BoundedTemporalLoadIssueCounts {
                    future_observation: memory_violations(
                        all,
                        store.now,
                        FailureMemoryValidationError::ObservedTimestampTooFarInFuture,
                        rulings,
                    ) as usize,
                    out_of_bounds_window: memory_violations(
                        all,
                        store.now,
                        FailureMemoryValidationError::SuppressionWindowOutOfBounds,
                        rulings,
                    ) as usize,
                },
                ..store
            },
            Ok(()),
        )
    }
}

proof fn fatal_memory_error_stays(
    entries: Memories,
    n: int,
    now: ClockView,
    rulings: LauncherRulingsView,
)
    requires
        0 <= n <= entries.len(),
        fatal_memory_error(entries.subrange(0, n), now, rulings) is Some,
    ensures
        fatal_memory_error(entries, now, rulings) == fatal_memory_error(
            entries.subrange(0, n),
            now,
            rulings,
        ),
    decreases entries.len() - n,
{
    if n == entries.len() {
        assert(entries.subrange(0, n) =~= entries);
    } else {
        assert(entries.subrange(0, n + 1).drop_last() =~= entries.subrange(0, n));
        fatal_memory_error_stays(entries, n + 1, now, rulings);
    }
}

/// The model of a result of drafting.
pub open spec fn drafted(result: Result<MemoryDraft, FailureMemoryStoreError>) -> Result<
    Memories,
    FailureMemoryStoreError,
> {
    match result {
        Ok(draft) => Ok(draft@),
        Err(error) => Err(error),
    }
}

/// A memory that holds nothing.
pub open spec fn empty_memory(
    max_entries: usize,
    now: ClockView,
    identity: u64,
) -> FailureMemoryStoreView {
    FailureMemoryStoreView {
        visible: Seq::empty(),
        visible_revision: 0,
        retry_candidate: None,
        critical_pending: false,
        attempts: nobody(),
        identity,
        max_entries: if max_entries < 1 {
            1
        } else if max_entries > DEFAULT_FAILURE_MEMORY_LIMIT {
            DEFAULT_FAILURE_MEMORY_LIMIT as nat
        } else {
            max_entries as nat
        },
        now,
        issues: BoundedTemporalLoadIssueCounts { future_observation: 0, out_of_bounds_window: 0 },
    }
}

/// The memory once a reservation has been given back. Only the memory that gave a reservation takes it
/// back.
pub open spec fn released(
    store: FailureMemoryStoreView,
    reservation: ReservationView,
) -> FailureMemoryStoreView {
    if reservation.owner == store.identity {
        FailureMemoryStoreView { attempts: without(store.attempts, reservation.key), ..store }
    } else {
        store
    }
}

/// Whether a memory that is in order suppresses now.
pub open spec fn is_suppressed(
    store: FailureMemoryStoreView,
    entry: GuardianFailureMemoryEntryView,
    rulings: LauncherRulingsView,
) -> bool {
    memory_verdict(entry, rulings) is Ok && suppresses(store.now, memory_times(entry))
}

/// A memory that can be made now, or why it cannot be.
pub open spec fn constructed(
    store: FailureMemoryStoreView,
    entry: GuardianFailureMemoryEntryView,
    rulings: LauncherRulingsView,
) -> Result<GuardianFailureMemoryEntryView, FailureMemoryStoreError> {
    match memory_assessment(store.now, entry, rulings) {
        Ok(BoundedTemporalDisposition::Current) => Ok(entry),
        Ok(BoundedTemporalDisposition::Expired) => Err(FailureMemoryStoreError::Expired),
        Err(error) => Err(FailureMemoryStoreError::Validation(error)),
    }
}

/// The snapshot of memories, or why it cannot be written.
pub open spec fn written_down(
    entries: Memories,
    sizes: Seq<u64>,
    rulings: LauncherRulingsView,
) -> Result<FailureMemorySnapshotView, FailureMemoryLoadError> {
    let snapshot = FailureMemorySnapshotView { schema: FAILURE_MEMORY_SCHEMA@, entries };
    match memory_snapshot_verdict(snapshot, sizes, rulings) {
        Ok(()) => Ok(snapshot),
        Err(error) => Err(error),
    }
}

/// What is to be done to remember the end of a reconciliation.
pub open spec fn reconciliation_remembered(
    store: FailureMemoryStoreView,
    entry: GuardianFailureMemoryEntryView,
    reservation: ReservationView,
    retried: bool,
    rulings: LauncherRulingsView,
) -> Result<TerminalStepView, FailureMemoryStoreError> {
    match reconciliation_end_admitted(store, entry, reservation, rulings) {
        Err(error) => Err(error),
        Ok(()) => end_step(store, entry, retried, rulings),
    }
}

/// What is to be done to remember the end of a repair.
pub open spec fn repair_remembered(
    store: FailureMemoryStoreView,
    entry: GuardianFailureMemoryEntryView,
    reservation: ReservationView,
    retried: bool,
    rulings: LauncherRulingsView,
) -> Result<TerminalStepView, FailureMemoryStoreError> {
    match repair_end_admitted(store, entry, reservation, rulings) {
        Err(error) => Err(error),
        Ok(()) => end_step(store, entry, retried, rulings),
    }
}

/// The store in which a key is reserved.
pub open spec fn holding(store: FailureMemoryStoreView, key: Seq<char>) -> FailureMemoryStoreView {
    FailureMemoryStoreView { attempts: store.attempts.push(key), ..store }
}

/// What becomes of the request to reserve an attempt.
pub open spec fn attempt_reserved(store: FailureMemoryStoreView, key: Seq<char>) -> (
    FailureMemoryStoreView,
    Result<ReservationView, ReconciliationAttemptReserveError>,
) {
    match reservation_verdict(store, key) {
        Ok(()) => (holding(store, key), Ok(ReservationView { key, owner: store.identity })),
        Err(error) => (store, Err(error)),
    }
}

/// What becomes of the request to reserve a repair.
pub open spec fn repair_reserved(
    store: FailureMemoryStoreView,
    attempt: PersistedStateRepairAttemptView,
) -> (FailureMemoryStoreView, Result<ReservationView, PersistedStateRepairReserveError>) {
    match repair_reservation_verdict(store, attempt) {
        Ok(()) => (
            holding(store, repair_key(attempt)),
            Ok(ReservationView { key: repair_key(attempt), owner: store.identity }),
        ),
        Err(error) => (store, Err(error)),
    }
}

/// What has to be done before anything else is written.
pub open spec fn step_owed(store: FailureMemoryStoreView) -> PendingStep {
    if store.retry_candidate is Some {
        PendingStep::Retry
    } else if store.critical_pending {
        PendingStep::Flush
    } else {
        PendingStep::Nothing
    }
}

/// What has to be done before a reconciliation begins.
pub open spec fn step_before_reconciling(store: FailureMemoryStoreView) -> PendingStep {
    if store.retry_candidate is Some {
        PendingStep::Retry
    } else {
        PendingStep::Flush
    }
}

impl GuardianFailureMemoryStore {
    #[verifier::type_invariant]
    spec fn well_formed(self) -> bool {
        views(self.attempts@).no_duplicates()
    }

    /// A memory of at most so many failures, by this clock. The identity tells it from others.
    pub fn with_max_entries(
        max_entries: usize,
        temporal: BoundedTemporalPolicy,
        identity: u64,
    ) -> (r: GuardianFailureMemoryStore)
        ensures
            r@ == empty_memory(max_entries, temporal@, identity),
    {
        let max_entries: usize = if max_entries < 1 {
            1
        } else if max_entries > DEFAULT_FAILURE_MEMORY_LIMIT {
            DEFAULT_FAILURE_MEMORY_LIMIT
        } else {
            max_entries
        };
        let attempts: Vec<String> = Vec::new();
        assert(views(attempts@) =~= nobody());
        GuardianFailureMemoryStore {
            visible: FailureRecords::new(),
            visible_revision: 0,
            retry_candidate: None,
            critical_pending: false,
            attempts,
            identity,
            max_entries,
            temporal,
            issues: BoundedTemporalLoadIssueCounts {
                future_observation: 0,
                out_of_bounds_window: 0,
            },
        }
    }

    /// A memory of as many failures as can be remembered, by this clock.
    pub fn new(temporal: BoundedTemporalPolicy, identity: u64) -> (r: GuardianFailureMemoryStore)
        ensures
            r@ == empty_memory(DEFAULT_FAILURE_MEMORY_LIMIT, temporal@, identity),
    {
        GuardianFailureMemoryStore::with_max_entries(
            DEFAULT_FAILURE_MEMORY_LIMIT,
            temporal,
            identity,
        )
    }

    /// Sets the clock of the memory.
    pub fn set_temporal(&mut self, temporal: BoundedTemporalPolicy)
        ensures
            final(self)@ == (FailureMemoryStoreView { now: temporal@, ..old(self)@ }),
    {
        proof {
            use_type_invariant(&*self);
        }
        self.temporal = temporal;
    }

    /// What is remembered under an identity.
    pub fn get(&self, key: &FailureMemoryKey) -> (r: Option<GuardianFailureMemoryEntry>)
        ensures
            opt_view(r) == memory_of(self@.visible, key@),
    {
        match self.visible.get(key.as_str()) {
            Some(entry) => Some(entry.duplicate()),
            None => None,
        }
    }

    /// All that is remembered, in the order of the identities.
    pub fn list(&self) -> (r: Vec<GuardianFailureMemoryEntry>)
        ensures
            views(r@) == self@.visible,
            in_key_order(self@.visible),
    {
        self.visible.list()
    }

    /// All that is remembered and in force.
    pub fn list_current(&self, rulings: &LauncherRulings) -> (r: Vec<GuardianFailureMemoryEntry>)
        ensures
            views(r@) == base_memories(self@, rulings@),
    {
        let mut current = self.visible.duplicate();
        let nobody_protected: Vec<String> = Vec::new();
        assert(views(nobody_protected@) =~= nobody());
        current.retain_in_force(&nobody_protected, &self.temporal, rulings);
        current.list()
    }

    /// Whether a memory suppresses what it is about.
    pub fn suppression_active(
        &self,
        entry: &GuardianFailureMemoryEntry,
        rulings: &LauncherRulings,
    ) -> (r: bool)
        ensures
            r == is_suppressed(self@, entry@, rulings@),
    {
        entry.validate(rulings).is_ok() && self.temporal.suppression_active(temporal_record(entry))
    }

    /// How many memories were left out at loading, by the reason.
    pub fn temporal_load_issues(&self) -> (r: BoundedTemporalLoadIssueCounts)
        ensures
            r == self@.issues,
    {
        self.issues
    }

    /// How many memories were left out at loading.
    pub fn temporal_quarantine_count(&self) -> (r: usize)
        ensures
            r == all_issues(self@.issues),
    {
        self.issues.total()
    }

    /// The snapshot of what is visible, given the size of each memory.
    pub fn snapshot(&self, sizes: &Vec<u64>, rulings: &LauncherRulings) -> (r: Result<
        FailureMemorySnapshot,
        FailureMemoryLoadError,
    >)
        requires
            sizes.len() == self@.visible.len(),
        ensures
            (match r {
                Ok(made) => Ok(made@),
                Err(error) => Err(error),
            }) == written_down(self@.visible, sizes@, rulings@),
    {
        let entries = self.visible.list();
        assert(entries.len() == views(entries@).len());
        FailureMemorySnapshot::new(entries, sizes, rulings)
    }

    /// Gives an entry back if it is in force.
    pub fn construct_entry(
        &self,
        entry: GuardianFailureMemoryEntry,
        rulings: &LauncherRulings,
    ) -> (r: Result<GuardianFailureMemoryEntry, FailureMemoryStoreError>)
        ensures
            (match r {
                Ok(same) => Ok(same@),
                Err(error) => Err(error),
            }) == constructed(self@, entry@, rulings@),
    {
        match assess_temporal(&self.temporal, &entry, rulings) {
            Ok(BoundedTemporalDisposition::Current) => Ok(entry),
            Ok(BoundedTemporalDisposition::Expired) => Err(FailureMemoryStoreError::Expired),
            Err(error) => Err(FailureMemoryStoreError::Validation(error)),
        }
    }

    fn is_blocked(&self) -> (r: bool)
        ensures
            r == memory_is_blocked(self@),
    {
        self.retry_candidate.is_some() || self.critical_pending
    }

    fn base(&self, rulings: &LauncherRulings) -> (r: FailureRecords)
        ensures
            r@ == base_memories(self@, rulings@),
            in_key_order(r@),
    {
        let mut candidate = self.visible.duplicate();
        let nobody_protected: Vec<String> = Vec::new();
        assert(views(nobody_protected@) =~= nobody());
        candidate.retain_in_force(&nobody_protected, &self.temporal, rulings);
        candidate
    }

    fn open_change(
        &self,
        entry: &GuardianFailureMemoryEntry,
        allow_expired: bool,
        rulings: &LauncherRulings,
    ) -> (r: Result<FailureRecords, FailureMemoryStoreError>)
        ensures
            (match r {
                Ok(base) => Ok(base@),
                Err(error) => Err(error),
            }) == memory_opened(self@, entry@, allow_expired, rulings@),
    {
        if self.is_blocked() {
            return Err(FailureMemoryStoreError::Persistence(PersistenceFault::RetryPending));
        }
        match assess_temporal(&self.temporal, entry, rulings) {
            Ok(BoundedTemporalDisposition::Current) => {},
            Ok(BoundedTemporalDisposition::Expired) => {
                if !allow_expired {
                    return Err(FailureMemoryStoreError::Expired);
                }
            },
            Err(error) => {
                return Err(FailureMemoryStoreError::Validation(error));
            },
        }
        Ok(self.base(rulings))
    }

    fn close_change(
        &self,
        changed: FailureRecords,
        protected: &Vec<String>,
        rulings: &LauncherRulings,
    ) -> (r: Result<MemoryDraft, FailureMemoryStoreError>)
        ensures
            drafted(r) == memory_closed(self@, changed@, views(protected@), rulings@),
    {
        let mut candidate = changed;
        if candidate.prune_protecting(self.max_entries, protected, &self.temporal, rulings) {
            Ok(MemoryDraft { candidate })
        } else {
            Err(FailureMemoryStoreError::CapacityExhausted)
        }
    }

    fn protected_keys(entry: &GuardianFailureMemoryEntry) -> (r: Vec<String>)
        ensures
            views(r@) == protected_by(entry@),
    {
        let mut r: Vec<String> = Vec::new();
        if entry.reconciliation_terminal.is_some()
            || entry.persisted_state_repair_terminal.is_some() {
            r.push(entry.key.0.duplicate());
            assert(views(r@) =~= seq![entry@.key]);
        } else {
            assert(views(r@) =~= nobody());
        }
        r
    }

    /// Records an observation. This need not be waited for.
    pub fn record(&self, entry: GuardianFailureMemoryEntry, rulings: &LauncherRulings) -> (r: Result<
        MemoryDraft,
        FailureMemoryStoreError,
    >)
        ensures
            drafted(r) == memory_recorded(self@, entry@, rulings@),
    {
        let mut candidate = match self.open_change(&entry, false, rulings) {
            Ok(base) => base,
            Err(error) => {
                return Err(error);
            },
        };
        let protected = GuardianFailureMemoryStore::protected_keys(&entry);
        apply_record(&mut candidate, entry);
        self.close_change(candidate, &protected, rulings)
    }

    /// Records the retry of an installation. This has to be waited for.
    pub fn record_install_guardian_retry(
        &self,
        entry: GuardianFailureMemoryEntry,
        rulings: &LauncherRulings,
    ) -> (r: Result<MemoryDraft, FailureMemoryStoreError>)
        ensures
            drafted(r) == memory_recorded(self@, entry@, rulings@),
    {
        self.record(entry, rulings)
    }

    fn validate_retry_batch(
        &self,
        entries: &Vec<GuardianFailureMemoryEntry>,
        rulings: &LauncherRulings,
    ) -> (r: Result<Vec<String>, FailureMemoryStoreError>)
        ensures
            match retry_batch_verdict(views(entries@), self@.now, rulings@) {
                Ok(()) => r matches Ok(keys) && views(keys@) == keys_of(views(entries@)),
                Err(error) => r == Err::<Vec<String>, _>(error),
            },
    {
        let ghost all = views(entries@);
        let mut keys: Vec<String> = Vec::new();
        let mut i: usize = 0;
        assert(all.subrange(0, 0) =~= Seq::empty());
        assert(views(keys@) =~= keys_of(all.subrange(0, 0)));
        while i < entries.len()
            invariant
                i <= entries.len(),
                all == views(entries@),
                keys.len() == i,
                views(keys@) == keys_of(all.subrange(0, i as int)),
                retry_batch_verdict(all.subrange(0, i as int), self@.now, rulings@) is Ok,
            decreases entries.len() - i,
        {
            let entry = &entries[i];
            let ghost upto = all.subrange(0, i + 1);
            assert(upto.drop_last() =~= all.subrange(0, i as int));
            assert(upto.last() == entry@);
            match assess_temporal(&self.temporal, entry, rulings) {
                Ok(BoundedTemporalDisposition::Current) => {},
                Ok(BoundedTemporalDisposition::Expired) => {
                    proof {
                        retry_batch_error_stays(all, i + 1, self@.now, rulings@);
                    }
                    return Err(FailureMemoryStoreError::Expired);
                },
                Err(error) => {
                    proof {
                        retry_batch_error_stays(all, i + 1, self@.now, rulings@);
                    }
                    return Err(FailureMemoryStoreError::Validation(error));
                },
            }
            match install_guardian_retry_observation(entry) {
                Ok(_) => {},
                Err(error) => {
                    proof {
                        retry_batch_error_stays(all, i + 1, self@.now, rulings@);
                    }
                    return Err(error);
                },
            }
            let seen = lists_memory_key(&keys, entry.key.as_str());
            proof {
                if seen {
                    let k = choose|k: int| 0 <= k < views(keys@).len() && views(keys@)[k]
                        == entry@.key;
                    assert(keys_of(all.subrange(0, i as int))[k] == all[k].key);
                    assert(upto[k].key == entry@.key);
                    retry_batch_error_stays(all, i + 1, self@.now, rulings@);
                } else {
                    assert forall|k: int| 0 <= k < upto.len() - 1 implies (#[trigger] upto[k]).key
                        != upto.last().key by {
                        assert(views(keys@)[k] == all[k].key);
                        if all[k].key == entry@.key {
                            assert(views(keys@).contains(entry@.key));
                        }
                    }
                }
            }
            if seen {
                return Err(
                    FailureMemoryStoreError::Validation(
                        FailureMemoryValidationError::InstallGuardianRetryMismatch,
                    ),
                );
            }
            let ghost held = views(keys@);
            keys.push(entry.key.0.duplicate());
            assert(views(keys@) =~= held.push(entry@.key));
            assert(views(keys@) =~= keys_of(upto));
            i = i + 1;
        }
        assert(all.subrange(0, all.len() as int) =~= all);
        Ok(keys)
    }

    /// Takes in retries that were found at startup. What is remembered already needs no draft.
    pub fn reconcile_install_guardian_retry_batch(
        &self,
        entries: Vec<GuardianFailureMemoryEntry>,
        rulings: &LauncherRulings,
    ) -> (r: Result<Option<MemoryDraft>, FailureMemoryStoreError>)
        ensures
            (match r {
                Ok(draft) => Ok(opt_view(draft)),
                Err(error) => Err(error),
            }) == retries_reconciled(self@, views(entries@), rulings@),
    {
        let protected = match self.validate_retry_batch(&entries, rulings) {
            Ok(keys) => keys,
            Err(error) => {
                return Err(error);
            },
        };
        if self.is_blocked() {
            return Err(FailureMemoryStoreError::Persistence(PersistenceFault::RetryPending));
        }
        let mut candidate = self.base(rulings);
        let changed = match take_in_retries(&mut candidate, &entries, rulings) {
            Ok(changed) => changed,
            Err(error) => {
                return Err(error);
            },
        };
        if !changed {
            return Ok(None);
        }
        match self.close_change(candidate, &protected, rulings) {
            Ok(draft) => Ok(Some(draft)),
            Err(error) => Err(error),
        }
    }

    /// Takes in one retry that was found at startup.
    pub fn reconcile_install_guardian_retry(
        &self,
        entry: GuardianFailureMemoryEntry,
        rulings: &LauncherRulings,
    ) -> (r: Result<Option<MemoryDraft>, FailureMemoryStoreError>)
        ensures
            (match r {
                Ok(draft) => Ok(opt_view(draft)),
                Err(error) => Err(error),
            }) == retries_reconciled(self@, seq![entry@], rulings@),
    {
        let mut entries: Vec<GuardianFailureMemoryEntry> = Vec::new();
        entries.push(entry);
        assert(views(entries@) =~= seq![entry@]);
        self.reconcile_install_guardian_retry_batch(entries, rulings)
    }

    fn end_has_room(&self, entry: &GuardianFailureMemoryEntry, rulings: &LauncherRulings) -> (r:
        bool)
        ensures
            r == (survivors(
                in_force(
                    with_memory(self@.visible, entry@),
                    protecting(nobody(), self@.now, rulings@),
                ),
                self@.max_entries,
                protecting(seq![entry@.key], self@.now, rulings@),
            ).len() <= self@.max_entries),
    {
        let mut candidate = self.visible.duplicate();
        apply_reconciliation_record(&mut candidate, entry.duplicate());
        let nobody_protected: Vec<String> = Vec::new();
        assert(views(nobody_protected@) =~= nobody());
        candidate.retain_in_force(&nobody_protected, &self.temporal, rulings);
        let mut protected: Vec<String> = Vec::new();
        protected.push(entry.key.0.duplicate());
        assert(views(protected@) =~= seq![entry@.key]);
        candidate.prune_protecting(self.max_entries, &protected, &self.temporal, rulings)
    }

    fn validate_end(
        &self,
        entry: &GuardianFailureMemoryEntry,
        key: &FailureMemoryKey,
        owner: u64,
        may_supersede: bool,
        mismatch: FailureMemoryValidationError,
        rulings: &LauncherRulings,
    ) -> (r: Result<(), FailureMemoryStoreError>)
        ensures
            r == end_admitted(
                self@,
                entry@,
                ReservationView { key: key@, owner },
                may_supersede,
                mismatch,
                rulings@,
            ),
    {
        match assess_temporal(&self.temporal, entry, rulings) {
            Ok(_) => {},
            Err(error) => {
                return Err(FailureMemoryStoreError::Validation(error));
            },
        }
        if !key.same(&entry.key) || owner != self.identity || !lists_memory_key(
            &self.attempts,
            entry.key.as_str(),
        ) {
            return Err(
                FailureMemoryStoreError::Validation(
                    FailureMemoryValidationError::MemoryKeyMismatch,
                ),
            );
        }
        match self.visible.get(entry.key.as_str()) {
            Some(stored) => {
                if !stored.same(entry) && !may_supersede {
                    return Err(FailureMemoryStoreError::Validation(mismatch));
                }
            },
            None => {},
        }
        if !self.end_has_room(entry, rulings) {
            return Err(FailureMemoryStoreError::CapacityExhausted);
        }
        Ok(())
    }

    /// Checks the end of a reconciliation that is to be recorded under a reservation.
    pub fn validate_reconciliation_terminal(
        &self,
        entry: &GuardianFailureMemoryEntry,
        reservation: &ReconciliationAttemptReservation,
        rulings: &LauncherRulings,
    ) -> (r: Result<(), FailureMemoryStoreError>)
        ensures
            r == reconciliation_end_admitted(self@, entry@, reservation@, rulings@),
    {
        if entry.reconciliation_terminal.is_none() {
            return Err(
                FailureMemoryStoreError::Validation(
                    FailureMemoryValidationError::InvalidReconciliationTerminal,
                ),
            );
        }
        let may_supersede = match self.visible.get(entry.key.as_str()) {
            Some(stored) => reconciliation_entry_can_be_superseded(stored, entry, &self.temporal),
            None => false,
        };
        self.validate_end(
            entry,
            &reservation.key,
            reservation.owner,
            may_supersede,
            FailureMemoryValidationError::ReconciliationTerminalMismatch,
            rulings,
        )
    }

    /// Checks the end of a repair of a persisted record that is to be recorded under a reservation.
    pub fn validate_persisted_state_repair_terminal(
        &self,
        entry: &GuardianFailureMemoryEntry,
        reservation: &PersistedStateRepairReservation,
        rulings: &LauncherRulings,
    ) -> (r: Result<(), FailureMemoryStoreError>)
        ensures
            r == repair_end_admitted(self@, entry@, reservation@, rulings@),
    {
        if entry.persisted_state_repair_terminal.is_none() {
            return Err(
                FailureMemoryStoreError::Validation(
                    FailureMemoryValidationError::InvalidPersistedStateRepairTerminal,
                ),
            );
        }
        let may_supersede = match self.visible.get(entry.key.as_str()) {
            Some(stored) => persisted_state_repair_entry_can_be_superseded(
                stored,
                entry,
                &self.temporal,
            ),
            None => false,
        };
        self.validate_end(
            entry,
            &reservation.key,
            reservation.owner,
            may_supersede,
            FailureMemoryValidationError::PersistedStateRepairTerminalMismatch,
            rulings,
        )
    }

    fn end_record(
        &self,
        entry: GuardianFailureMemoryEntry,
        retried: bool,
        rulings: &LauncherRulings,
    ) -> (r: Result<TerminalStep, FailureMemoryStoreError>)
        ensures
            (match r {
                Ok(step) => Ok(step@),
                Err(error) => Err(error),
            }) == end_step(self@, entry@, retried, rulings@),
    {
        match self.visible.get(entry.key.as_str()) {
            Some(stored) => {
                if stored.same(&entry) {
                    return Ok(TerminalStep::Done);
                }
            },
            None => {},
        }
        if self.retry_candidate.is_some() && !retried {
            return Ok(TerminalStep::RetryFirst);
        }
        let mut candidate = match self.open_change(&entry, true, rulings) {
            Ok(base) => base,
            Err(error) => {
                return Err(error);
            },
        };
        let protected = GuardianFailureMemoryStore::protected_keys(&entry);
        apply_reconciliation_record(&mut candidate, entry);
        match self.close_change(candidate, &protected, rulings) {
            Ok(draft) => Ok(TerminalStep::Write(draft)),
            Err(error) => Err(error),
        }
    }

    /// Records the end of a reconciliation under its reservation. `retried` says whether a write
    /// that had failed has been repeated since this was first asked.
    pub fn record_reconciliation_terminal(
        &self,
        entry: GuardianFailureMemoryEntry,
        reservation: &ReconciliationAttemptReservation,
        retried: bool,
        rulings: &LauncherRulings,
    ) -> (r: Result<TerminalStep, FailureMemoryStoreError>)
        ensures
            (match r {
                Ok(step) => Ok(step@),
                Err(error) => Err(error),
            }) == reconciliation_remembered(self@, entry@, reservation@, retried, rulings@),
    {
        match self.validate_reconciliation_terminal(&entry, reservation, rulings) {
            Ok(()) => {},
            Err(error) => {
                return Err(error);
            },
        }
        self.end_record(entry, retried, rulings)
    }

    /// Records the end of a repair of a persisted record under its reservation. `retried` says
    /// whether a write that had failed has been repeated since this was first asked.
    pub fn record_persisted_state_repair_terminal(
        &self,
        entry: GuardianFailureMemoryEntry,
        reservation: &PersistedStateRepairReservation,
        retried: bool,
        rulings: &LauncherRulings,
    ) -> (r: Result<TerminalStep, FailureMemoryStoreError>)
        ensures
            (match r {
                Ok(step) => Ok(step@),
                Err(error) => Err(error),
            }) == repair_remembered(self@, entry@, reservation@, retried, rulings@),
    {
        match self.validate_persisted_state_repair_terminal(&entry, reservation, rulings) {
            Ok(()) => {},
            Err(error) => {
                return Err(error);
            },
        }
        self.end_record(entry, retried, rulings)
    }

    /// Acknowledges what a reconciliation published. What is acknowledged already needs no draft.
    pub fn acknowledge_reconciliation_version_bundle_publication(
        &self,
        expected: &GuardianFailureMemoryEntry,
        acknowledged_entry: GuardianFailureMemoryEntry,
        rulings: &LauncherRulings,
    ) -> (r: Result<Option<MemoryDraft>, FailureMemoryStoreError>)
        ensures
            (match r {
                Ok(draft) => Ok(opt_view(draft)),
                Err(error) => Err(error),
            }) == publication_acknowledged(self@, expected@, acknowledged_entry@, rulings@),
    {
        let mismatch = FailureMemoryStoreError::Validation(
            FailureMemoryValidationError::ReconciliationTerminalMismatch,
        );
        if !expected.has_pending_publication() || !is_exact_acknowledgement(
            expected,
            &acknowledged_entry,
        ) {
            return Err(mismatch);
        }
        let mut candidate = match self.open_change(&acknowledged_entry, true, rulings) {
            Ok(base) => base,
            Err(error) => {
                return Err(error);
            },
        };
        match candidate.get(expected.key.as_str()) {
            Some(current) => {
                if current.same(&acknowledged_entry) {
                    return Ok(None);
                }
                if !current.same(expected) {
                    return Err(mismatch);
                }
            },
            None => {
                return Err(mismatch);
            },
        }
        let protected = GuardianFailureMemoryStore::protected_keys(&acknowledged_entry);
        candidate.insert(acknowledged_entry);
        match self.close_change(candidate, &protected, rulings) {
            Ok(draft) => Ok(Some(draft)),
            Err(error) => Err(error),
        }
    }

    fn occupied_count(&self) -> (r: u128)
        ensures
            r == occupied(self@).len(),
            occupied(self@).finite(),
    {
        proof {
            use_type_invariant(self);
        }
        let ghost now = self@.now;
        let ghost s = self@.visible;
        let count: usize = self.visible.len();
        let mut r: u128 = self.attempts.len() as u128;
        let mut i: usize = 0;
        proof {
            let held = views(self.attempts@);
            held.unique_seq_to_set();
            assert(s.subrange(0, 0) =~= Seq::empty());
            assert(held.to_set().union(keys_in_force(s.subrange(0, 0), now)) =~= held.to_set());
        }
        while i < count
            invariant
                i <= count,
                count == self.visible@.len(),
                s == self.visible@,
                now == self.temporal@,
                in_key_order(s),
                r <= self.attempts.len() + i,
                views(self.attempts@).to_set().union(
                    keys_in_force(s.subrange(0, i as int), now),
                ).finite(),
                r == views(self.attempts@).to_set().union(
                    keys_in_force(s.subrange(0, i as int), now),
                ).len(),
            decreases count - i,
        {
            let entry = self.visible.at(i);
            let ghost upto = s.subrange(0, i + 1);
            assert(upto.drop_last() =~= s.subrange(0, i as int));
            assert(upto.last() == entry@);
            let ghost held = views(self.attempts@).to_set();
            let ghost before = held.union(keys_in_force(s.subrange(0, i as int), now));
            if active_durable_terminal(entry, &self.temporal) {
                let reserved = lists_memory_key(&self.attempts, entry.key.as_str());
                proof {
                    keys_in_force_are_listed(s.subrange(0, i as int), now, entry@.key);
                    if keys_in_force(s.subrange(0, i as int), now).contains(entry@.key) {
                        let k = choose|k: int|
                            0 <= k < i && (#[trigger] s.subrange(0, i as int)[k]).key == entry@.key;
                        assert(s[k] == s.subrange(0, i as int)[k]);
                        ordered_keys_are_unique(s, k, i as int);
                    }
                    assert(held.union(keys_in_force(upto, now)) =~= before.insert(entry@.key));
                    assert(reserved == held.contains(entry@.key));
                }
                if !reserved {
                    r = r + 1;
                }
            }
            i = i + 1;
        }
        assert(s.subrange(0, s.len() as int) =~= s);
        r
    }

    fn occupies(&self, key: &str) -> (r: bool)
        ensures
            r == occupied(self@).contains(key@),
    {
        if lists_memory_key(&self.attempts, key) {
            return true;
        }
        proof {
            keys_in_force_are_listed(self@.visible, self@.now, key@);
        }
        match self.visible.get(key) {
            Some(entry) => {
                proof {
                    memory_has_key(self@.visible, key@);
                    memory_in_force_is_listed(self@.visible, self@.now, key@);
                }
                active_durable_terminal(entry, &self.temporal)
            },
            None => {
                proof {
                    memory_in_force_is_listed(self@.visible, self@.now, key@);
                }
                false
            },
        }
    }

    fn reserve(&mut self, key: &str)
        requires
            !old(self)@.attempts.contains(key@),
        ensures
            final(self)@ == (FailureMemoryStoreView {
                attempts: old(self)@.attempts.push(key@),
                ..old(self)@
            }),
    {
        proof {
            use_type_invariant(&*self);
        }
        let ghost before = views(self.attempts@);
        let mut attempts = list_duplicate(&self.attempts);
        attempts.push(key.to_owned());
        proof {
            assert(views(attempts@) =~= before.push(key@));
            assert(before.push(key@).no_duplicates()) by {
                assert forall|i: int, j: int| 0 <= i < j < before.push(key@).len() implies
                    before.push(key@)[i] != before.push(key@)[j] by {
                    if j == before.len() {
                        assert(before.contains(before[i]));
                    }
                }
            }
        }
        self.attempts = attempts;
    }

    /// Reserves the reconciliation of a failure.
    pub fn reserve_reconciliation_attempt(&mut self, key: FailureMemoryKey) -> (r: Result<
        ReconciliationAttemptReservation,
        ReconciliationAttemptReserveError,
    >)
        ensures
            (final(self)@, match r {
                Ok(reservation) => Ok(reservation@),
                Err(error) => Err(error),
            }) == attempt_reserved(old(self)@, key@),
    {
        if self.is_blocked() {
            return Err(ReconciliationAttemptReserveError::PersistencePending);
        }
        if lists_memory_key(&self.attempts, key.as_str()) {
            return Err(ReconciliationAttemptReserveError::AlreadyReserved);
        }
        if !self.occupies(key.as_str()) && self.occupied_count() >= self.max_entries as u128 {
            return Err(ReconciliationAttemptReserveError::CapacityExhausted);
        }
        self.reserve(key.as_str());
        Ok(ReconciliationAttemptReservation { owner: self.identity, key })
    }

    /// Reserves the repair of a persisted record.
    pub fn reserve_persisted_state_repair(&mut self, attempt: &PersistedStateRepairAttempt) -> (r:
        Result<PersistedStateRepairReservation, PersistedStateRepairReserveError>)
        ensures
            (final(self)@, match r {
                Ok(reservation) => Ok(reservation@),
                Err(error) => Err(error),
            }) == repair_reserved(old(self)@, attempt@),
    {
        if !attempt.consistent {
            return Err(PersistedStateRepairReserveError::InvalidAttempt);
        }
        let times = BoundedTemporalRecord {
            first_observed_at: attempt.observed_at.as_str(),
            last_observed_at: attempt.observed_at.as_str(),
            suppression_until: Some(attempt.suppression_until.as_str()),
            pending: false,
        };
        match self.temporal.assess(times) {
            Ok(BoundedTemporalDisposition::Current) => {},
            _ => {
                return Err(PersistedStateRepairReserveError::InvalidAttempt);
            },
        }
        let key = FailureMemoryKey::for_persisted_state_repair(attempt);
        if self.is_blocked() {
            return Err(PersistedStateRepairReserveError::PersistencePending);
        }
        if lists_memory_key(&self.attempts, key.as_str()) {
            return Err(PersistedStateRepairReserveError::AlreadyReserved);
        }
        match self.visible.get(key.as_str()) {
            Some(entry) => {
                if self.temporal.suppression_active(temporal_record(entry)) {
                    return Err(PersistedStateRepairReserveError::Suppressed);
                }
            },
            None => {},
        }
        if !self.occupies(key.as_str()) && self.occupied_count() >= self.max_entries as u128 {
            return Err(PersistedStateRepairReserveError::CapacityExhausted);
        }
        self.reserve(key.as_str());
        Ok(PersistedStateRepairReservation { owner: self.identity, key })
    }

    fn release(&mut self, key: &str)
        ensures
            final(self)@ == (FailureMemoryStoreView {
                attempts: without(old(self)@.attempts, key@),
                ..old(self)@
            }),
    {
        proof {
            use_type_invariant(&*self);
        }
        let ghost before = views(self.attempts@);
        let mut kept: Vec<String> = Vec::new();
        let mut i: usize = 0;
        assert(before.subrange(0, 0) =~= Seq::empty());
        assert(views(kept@) =~= without(before.subrange(0, 0), key@));
        while i < self.attempts.len()
            invariant
                i <= self.attempts.len(),
                self@ == old(self)@,
                before == views(self.attempts@),
                before == old(self)@.attempts,
                views(kept@) == without(before.subrange(0, i as int), key@),
            decreases self.attempts.len() - i,
        {
            let ghost upto = before.subrange(0, i + 1);
            assert(upto.drop_last() =~= before.subrange(0, i as int));
            assert(upto.last() == self.attempts@[i as int]@);
            if !same_text(self.attempts[i].as_str(), key) {
                let ghost held = views(kept@);
                kept.push(self.attempts[i].duplicate());
                assert(views(kept@) =~= held.push(upto.last()));
            }
            i = i + 1;
        }
        proof {
            assert(before.subrange(0, before.len() as int) =~= before);
            without_keeps_unique(before, key@);
        }
        self.attempts = kept;
    }

    /// Gives the right to reconcile a failure back.
    pub fn release_reconciliation_attempt(&mut self, reservation: ReconciliationAttemptReservation)
        ensures
            final(self)@ == released(old(self)@, reservation@),
    {
        if reservation.owner == self.identity {
            self.release(reservation.key.as_str());
        }
    }

    /// Gives the right to repair a persisted record back.
    pub fn release_persisted_state_repair(&mut self, reservation: PersistedStateRepairReservation)
        ensures
            final(self)@ == released(old(self)@, reservation@),
    {
        if reservation.owner == self.identity {
            self.release(reservation.key.as_str());
        }
    }

    /// What has to happen before a write that is under way is settled.
    pub fn pending_step(&self) -> (r: PendingStep)
        ensures
            r == step_owed(self@),
    {
        if self.retry_candidate.is_some() {
            PendingStep::Retry
        } else if self.critical_pending {
            PendingStep::Flush
        } else {
            PendingStep::Nothing
        }
    }

    /// What has to happen before everything that a reconciliation recorded is settled: a write that
    /// has failed is repeated, and otherwise the writes are waited for.
    pub fn reconciliation_step(&self) -> (r: PendingStep)
        ensures
            r == step_before_reconciling(self@),
    {
        if self.retry_candidate.is_some() {
            PendingStep::Retry
        } else {
            PendingStep::Flush
        }
    }

    /// The snapshot that a draft leads to, given the size of each memory.
    pub fn prepare(&self, draft: &MemoryDraft, sizes: &Vec<u64>, rulings: &LauncherRulings) -> (r:
        Result<FailureMemorySnapshot, FailureMemoryStoreError>)
        requires
            sizes.len() == draft@.len(),
        ensures
            (match r {
                Ok(made) => Ok(made@),
                Err(error) => Err(error),
            }) == (match written_down(draft@, sizes@, rulings@) {
                Ok(made) => Ok(made),
                Err(error) => Err(FailureMemoryStoreError::Snapshot(error)),
            }),
    {
        let entries = draft.candidate.list();
        assert(entries.len() == views(entries@).len());
        match FailureMemorySnapshot::new(entries, sizes, rulings) {
            Ok(snapshot) => Ok(snapshot),
            Err(error) => Err(FailureMemoryStoreError::Snapshot(error)),
        }
    }

    /// Takes note that a change was handed to the writer. Returns what has to be waited for.
    pub fn accept(&mut self, draft: MemoryDraft, ticket: WriteTicket) -> (r: Option<
        PendingFailureMemoryCommit,
    >)
        ensures
            final(self)@ == memory_accepted(old(self)@, draft@, ticket),
            opt_view(r) == memory_awaited(draft@, ticket),
    {
        proof {
            use_type_invariant(&*self);
        }
        match ticket {
            WriteTicket::Unpersisted => {
                self.visible = draft.candidate;
                None
            },
            WriteTicket::Debounced(revision) => {
                self.visible = draft.candidate;
                self.visible_revision = revision;
                None
            },
            WriteTicket::Immediate(revision) => {
                self.critical_pending = true;
                Some(PendingFailureMemoryCommit { revision, candidate: draft.candidate })
            },
        }
    }

    /// Takes note of whether a change was written.
    pub fn settle_commit(&mut self, commit: PendingFailureMemoryCommit, written: bool) -> (r: Result<
        (),
        FailureMemoryStoreError,
    >)
        ensures
            final(self)@ == memory_settled(old(self)@, commit@, written),
            r == (if written {
                Ok::<(), FailureMemoryStoreError>(())
            } else {
                Err(FailureMemoryStoreError::Persistence(PersistenceFault::WriteFailed))
            }),
    {
        proof {
            use_type_invariant(&*self);
        }
        if !written {
            self.retry_candidate = Some(commit);
            return Err(FailureMemoryStoreError::Persistence(PersistenceFault::WriteFailed));
        }
        if self.visible_revision < commit.revision {
            self.visible_revision = commit.revision;
            self.visible = commit.candidate;
        }
        self.retry_candidate = None;
        self.critical_pending = false;
        Ok(())
    }

    /// What is waited for when the writer tries the revision of this number again.
    pub fn retry_commit(&self, revision: u64) -> (r: Option<PendingFailureMemoryCommit>)
        ensures
            opt_view(r) == memory_retried(self@, revision),
    {
        match &self.retry_candidate {
            Some(commit) => {
                if commit.revision == revision {
                    Some(
                        PendingFailureMemoryCommit {
                            revision,
                            candidate: commit.candidate.duplicate(),
                        },
                    )
                } else {
                    None
                }
            },
            None => None,
        }
    }

    /// Loads a snapshot, given the size of each memory. What has expired is left out unless it holds
    /// a reconciliation that published something; what lies in the future or suppresses for too long
    /// is left out and counted. A snapshot that is refused leaves the memory as it was.
    pub fn load_snapshot(
        &mut self,
        snapshot: FailureMemorySnapshot,
        sizes: &Vec<u64>,
        rulings: &LauncherRulings,
    ) -> (r: Result<(), FailureMemoryLoadError>)
        requires
            sizes.len() == snapshot.entries.len(),
        ensures
            (final(self)@, r) == memory_loaded(old(self)@, snapshot@, sizes@, rulings@),
    {
        match snapshot.validate(sizes, rulings) {
            Ok(()) => {},
            Err(error) => {
                return Err(error);
            },
        }
        let ghost all = snapshot@.entries;
        let ghost now = self@.now;
        let mut candidate = FailureRecords::new();
        let mut carriers: Vec<String> = Vec::new();
        let mut future: usize = 0;
        let mut window: usize = 0;
        let mut i: usize = 0;
        assert(all.subrange(0, 0) =~= Seq::empty());
        assert(views(carriers@) =~= Seq::empty());
        while i < snapshot.entries.len()
            invariant
                i <= snapshot.entries.len(),
                all == snapshot@.entries,
                now == self@.now,
                self@ == old(self)@,
                memory_snapshot_verdict(snapshot@, sizes@, rulings@) is Ok,
                candidate@ == loaded_memories(all.subrange(0, i as int), now, rulings@),
                views(carriers@) == expired_carriers(all.subrange(0, i as int), now, rulings@),
                fatal_memory_error(all.subrange(0, i as int), now, rulings@) is None,
                future <= i,
                window <= i,
                future == memory_violations(
                    all.subrange(0, i as int),
                    now,
                    FailureMemoryValidationError::ObservedTimestampTooFarInFuture,
                    rulings@,
                ),
                window == memory_violations(
                    all.subrange(0, i as int),
                    now,
                    FailureMemoryValidationError::SuppressionWindowOutOfBounds,
                    rulings@,
                ),
            decreases snapshot.entries.len() - i,
        {
            let entry = &snapshot.entries[i];
            let ghost upto = all.subrange(0, i + 1);
            assert(upto.drop_last() =~= all.subrange(0, i as int));
            assert(upto.last() == entry@);
            match assess_temporal(&self.temporal, entry, rulings) {
                Ok(BoundedTemporalDisposition::Current) => {
                    candidate.insert(entry.duplicate());
                },
                Ok(BoundedTemporalDisposition::Expired) => {
                    let carries = match &entry.reconciliation_terminal {
                        Some(terminal) => terminal.version_bundle_publication.is_some(),
                        None => false,
                    };
                    if carries {
                        let ghost held = views(carriers@);
                        carriers.push(entry.key.0.duplicate());
                        assert(views(carriers@) =~= held.push(entry@.key));
                        candidate.insert(entry.duplicate());
                    }
                },
                Err(FailureMemoryValidationError::ObservedTimestampTooFarInFuture) => {
                    future = future + 1;
                },
                Err(FailureMemoryValidationError::SuppressionWindowOutOfBounds) => {
                    window = window + 1;
                },
                Err(error) => {
                    proof {
                        fatal_memory_error_stays(all, i + 1, now, rulings@);
                    }
                    return Err(FailureMemoryLoadError::InvalidEntry(error));
                },
            }
            i = i + 1;
        }
        assert(all.subrange(0, all.len() as int) =~= all);
        if !candidate.prune_protecting(self.max_entries, &carriers, &self.temporal, rulings) {
            return Err(FailureMemoryLoadError::TooManyEntries);
        }
        proof {
            use_type_invariant(&*self);
        }
        self.visible = candidate;
        self.visible_revision = 0;
        self.retry_candidate = None;
        self.critical_pending = false;
        self.issues = BoundedTemporalLoadIssueCounts {
            future_observation: future,
            out_of_bounds_window: window,
        };
        Ok(())
    }
}

/// A list without one of its items.
pub open spec fn without(keys: Seq<Seq<char>>, key: Seq<char>) -> Seq<Seq<char>>
    decreases keys.len(),
{
    if keys.len() == 0 {
        Seq::empty()
    } else if keys.last() == key {
        without(keys.drop_last(), key)
    } else {
        without(keys.drop_last(), key).push(keys.last())
    }
}

/// Without a key the others stay, each once.
pub proof fn without_keeps_unique(keys: Seq<Seq<char>>, key: Seq<char>)
    requires
        keys.no_duplicates(),
    ensures
        without(keys, key).no_duplicates(),
        forall|other: Seq<char>| #[trigger]
            without(keys, key).contains(other) <==> keys.contains(other) && other != key,
    decreases keys.len(),
{
    if keys.len() > 0 {
        let rest = keys.drop_last();
        let last = keys.last();
        assert(rest.no_duplicates());
        without_keeps_unique(rest, key);
        let kept = without(rest, key);
        let all = without(keys, key);
        assert(keys[keys.len() - 1] == last);
        assert(!rest.contains(last)) by {
            if rest.contains(last) {
                let i = choose|i: int| 0 <= i < rest.len() && rest[i] == last;
                assert(keys[i] == last);
            }
        }
        assert forall|other: Seq<char>| #[trigger] all.contains(other) <==> keys.contains(other)
            && other != key by {
            if all.contains(other) {
                let i = choose|i: int| 0 <= i < all.len() && all[i] == other;
                if i < kept.len() {
                    assert(kept[i] == other);
                    assert(kept.contains(other));
                    let j = choose|j: int| 0 <= j < rest.len() && rest[j] == other;
                    assert(keys[j] == other);
                }
            }
            if keys.contains(other) && other != key {
                let j = choose|j: int| 0 <= j < keys.len() && keys[j] == other;
                if j < rest.len() {
                    assert(rest[j] == other);
                    assert(kept.contains(other));
                    let i = choose|i: int| 0 <= i < kept.len() && kept[i] == other;
                    assert(all[i] == other);
                } else {
                    assert(all[kept.len() as int] == other);
                }
            }
        }
        assert forall|i: int, j: int| 0 <= i < j < all.len() implies all[i] != all[j] by {
            if j == kept.len() {
                assert(kept.contains(kept[i]));
                assert(rest.contains(kept[i]));
            }
        }
    }
}

/// What is reserved can be reserved by nobody else. Once it has been given back the memory is as it
/// was before, and a reservation of another memory gives nothing back.
pub proof fn reservations_exclude_and_end(store: FailureMemoryStoreView, key: Seq<char>)
    requires
        store.attempts.no_duplicates(),
        reservation_verdict(store, key) is Ok,
    ensures
        ({
            let reserved = FailureMemoryStoreView { attempts: store.attempts.push(key), ..store };
            &&& reservation_verdict(reserved, key) == Err::<(), _>(
                ReconciliationAttemptReserveError::AlreadyReserved,
            )
            &&& released(reserved, ReservationView { key, owner: store.identity }) == store
            &&& forall|owner: u64|
                owner != store.identity ==> #[trigger] released(
                    reserved,
                    ReservationView { key, owner },
                ) == reserved
        }),
{
    let more = store.attempts.push(key);
    assert(more[store.attempts.len() as int] == key);
    assert(more.contains(key));
    assert(more.drop_last() =~= store.attempts);
    without_absent(store.attempts, key);
}

proof fn without_absent(keys: Seq<Seq<char>>, key: Seq<char>)
    requires
        !keys.contains(key),
    ensures
        without(keys, key) == keys,
    decreases keys.len(),
{
    if keys.len() > 0 {
        let rest = keys.drop_last();
        assert(keys.contains(keys[keys.len() - 1]));
        assert(!rest.contains(key)) by {
            if rest.contains(key) {
                let i = choose|i: int| 0 <= i < rest.len() && rest[i] == key;
                assert(keys[i] == key);
            }
        }
        without_absent(rest, key);
        assert(rest.push(keys.last()) =~= keys);
    } else {
        assert(without(keys, key) =~= keys);
    }
}

/// The keys in force are those of the ends that are in force.
pub proof fn keys_in_force_are_listed(s: Memories, now: ClockView, key: Seq<char>)
    ensures
        keys_in_force(s, now).finite(),
        keys_in_force(s, now).contains(key) <==> exists|i: int|
            0 <= i < s.len() && (#[trigger] s[i]).key == key && end_is_in_force(now, s[i]),
    decreases s.len(),
{
    if s.len() > 0 {
        let rest = s.drop_last();
        keys_in_force_are_listed(rest, now, key);
        let last = s.len() - 1;
        assert(s[last] == s.last());
        if exists|i: int| 0 <= i < rest.len() && (#[trigger] rest[i]).key == key && end_is_in_force(
            now,
            rest[i],
        ) {
            let i = choose|i: int|
                0 <= i < rest.len() && (#[trigger] rest[i]).key == key && end_is_in_force(
                    now,
                    rest[i],
                );
            assert(s[i] == rest[i]);
        }
        if exists|i: int| 0 <= i < s.len() && (#[trigger] s[i]).key == key && end_is_in_force(
            now,
            s[i],
        ) {
            let i = choose|i: int|
                0 <= i < s.len() && (#[trigger] s[i]).key == key && end_is_in_force(now, s[i]);
            if i < last {
                assert(rest[i] == s[i]);
            }
        }
    }
}

proof fn memory_in_force_is_listed(s: Memories, now: ClockView, key: Seq<char>)
    requires
        in_key_order(s),
    ensures
        keys_in_force(s, now).contains(key) <==> (memory_of(s, key) matches Some(entry)
            && end_is_in_force(now, entry)),
{
    keys_in_force_are_listed(s, now, key);
    if exists|i: int| 0 <= i < s.len() && (#[trigger] s[i]).key == key {
        let i = choose|i: int| 0 <= i < s.len() && (#[trigger] s[i]).key == key;
        memory_at(s, i);
        assert forall|j: int|
            0 <= j < s.len() && (#[trigger] s[j]).key == key && end_is_in_force(now, s[j]) implies j
            == i by {
            ordered_keys_are_unique(s, i, j);
        }
    }
}

proof fn retry_batch_error_stays(
    entries: Memories,
    n: int,
    now: ClockView,
    rulings: LauncherRulingsView,
)
    requires
        0 <= n <= entries.len(),
        retry_batch_verdict(entries.subrange(0, n), now, rulings) is Err,
    ensures
        retry_batch_verdict(entries, now, rulings) == retry_batch_verdict(
            entries.subrange(0, n),
            now,
            rulings,
        ),
    decreases entries.len() - n,
{
    if n == entries.len() {
        assert(entries.subrange(0, n) =~= entries);
    } else {
        assert(entries.subrange(0, n + 1).drop_last() =~= entries.subrange(0, n));
        retry_batch_error_stays(entries, n + 1, now, rulings);
    }
}

/// Takes in retries that were found at startup. Returns whether anything changed.
fn take_in_retries(
    records: &mut FailureRecords,
    entries: &Vec<GuardianFailureMemoryEntry>,
    rulings: &LauncherRulings,
) -> (r: Result<bool, FailureMemoryStoreError>)
    ensures
        match retries_taken_in(old(records)@, views(entries@), rulings@) {
            Ok((after, changed)) => final(records)@ == after && r == Ok::<
                bool,
                FailureMemoryStoreError,
            >(changed),
            Err(error) => r == Err::<bool, _>(error),
        },
{
    let ghost base = records@;
    let ghost all = views(entries@);
    let mut changed = false;
    let mut i: usize = 0;
    assert(all.subrange(0, 0) =~= Seq::empty());
    while i < entries.len()
        invariant
            i <= entries.len(),
            all == views(entries@),
            base == old(records)@,
            retries_taken_in(base, all.subrange(0, i as int), rulings@) == Ok::<
                (Memories, bool),
                FailureMemoryStoreError,
            >((records@, changed)),
        decreases entries.len() - i,
    {
        let ghost upto = all.subrange(0, i + 1);
        assert(upto.drop_last() =~= all.subrange(0, i as int));
        assert(upto.last() == entries@[i as int]@);
        match apply_install_guardian_startup_retry(records, entries[i].duplicate(), rulings) {
            Ok(true) => {
                changed = true;
            },
            Ok(false) => {},
            Err(error) => {
                proof {
                    retries_error_stays(base, all, i + 1, rulings@);
                }
                return Err(error);
            },
        }
        i = i + 1;
    }
    assert(all.subrange(0, all.len() as int) =~= all);
    Ok(changed)
}

proof fn retries_error_stays(
    s: Memories,
    entries: Memories,
    n: int,
    rulings: LauncherRulingsView,
)
    requires
        0 <= n <= entries.len(),
        retries_taken_in(s, entries.subrange(0, n), rulings) is Err,
    ensures
        retries_taken_in(s, entries, rulings) == retries_taken_in(
            s,
            entries.subrange(0, n),
            rulings,
        ),
    decreases entries.len() - n,
{
    if n == entries.len() {
        assert(entries.subrange(0, n) =~= entries);
    } else {
        assert(entries.subrange(0, n + 1).drop_last() =~= entries.subrange(0, n));
        retries_error_stays(s, entries, n + 1, rulings);
    }
}

/// A memory in which what the reconciliation published is acknowledged.
pub open spec fn exact_acknowledgement(
    expected: GuardianFailureMemoryEntryView,
) -> GuardianFailureMemoryEntryView {
    GuardianFailureMemoryEntryView {
        reconciliation_terminal: match expected.reconciliation_terminal {
            Some(terminal) => Some(acknowledged(terminal)),
            None => None,
        },
        ..expected
    }
}

/// The memories once what a reconciliation published has been acknowledged; `None` where it is
/// acknowledged already.
pub open spec fn publication_acknowledged(
    store: FailureMemoryStoreView,
    expected: GuardianFailureMemoryEntryView,
    entry: GuardianFailureMemoryEntryView,
    rulings: LauncherRulingsView,
) -> Result<Option<Memories>, FailureMemoryStoreError> {
    let mismatch = FailureMemoryStoreError::Validation(
        FailureMemoryValidationError::ReconciliationTerminalMismatch,
    );
    if !publication_is_pending(expected) || entry != exact_acknowledgement(expected) {
        Err(mismatch)
    } else {
        match memory_opened(store, entry, true, rulings) {
            Err(error) => Err(error),
            Ok(base) => if memory_of(base, expected.key) == Some(entry) {
                Ok(None)
            } else if memory_of(base, expected.key) != Some(expected) {
                Err(mismatch)
            } else {
                match memory_closed(store, with_memory(base, entry), protected_by(entry), rulings) {
                    Ok(left) => Ok(Some(left)),
                    Err(error) => Err(error),
                }
            },
        }
    }
}

fn is_exact_acknowledgement(
    expected: &GuardianFailureMemoryEntry,
    entry: &GuardianFailureMemoryEntry,
) -> (r: bool)
    requires
        publication_is_pending(expected@),
    ensures
        r == (entry@ == exact_acknowledgement(expected@)),
{
    let mut exact = expected.duplicate();
    match &expected.reconciliation_terminal {
        Some(terminal) => {
            exact.reconciliation_terminal = Some(acknowledge(terminal));
        },
        None => {},
    }
    entry.same(&exact)
}

} // verus!

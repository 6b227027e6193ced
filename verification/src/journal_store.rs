//! The store of operation journals: what is visible, and how a change becomes visible.

use crate::contracts::OperationId;
use crate::entry::{OperationJournalEntry, OperationJournalEntryView};
use crate::journal_errors::{
    OperationJournalLoadError, OperationJournalStoreError, OperationJournalValidationError,
    PersistenceFault,
};
use crate::journal_pruning::{lists_key, obliges, pruned, push_obligations, rules_for};
use crate::journal_revision::{
    bytes_of, candidate, fits, inserted, listed, no_entries, AcceptedJournalEntry,
    AcceptedJournalEntryView, AcceptedJournalRevision, AcceptedJournalRevisionView, JournalMap,
};
use crate::journal_snapshot::{
    snapshot_verdict, OperationJournalSnapshot, OperationJournalSnapshotView,
    OPERATION_JOURNAL_SCHEMA,
};
use crate::journal_temporal::{
    assess_journal_temporal, entry_assessment, temporal_journal_validation_error, times_error,
};
use crate::journal_validation::{is_terminal, operation_journal_status_is_terminal};
use crate::record::{opt_view, views, Record};
use crate::rulings::LauncherRulings;
use crate::temporal::{
    all_issues, BoundedTemporalDisposition, BoundedTemporalLoadIssueCounts, BoundedTemporalPolicy,
    BoundedTemporalViolation, ClockView,
};
use vstd::prelude::*;

verus! {

/// How many journals a store keeps, unless it is told to keep fewer.
pub const DEFAULT_OPERATION_JOURNAL_LIMIT: usize = 128;

/// A change of the journals that has been decided on but not yet written down: the entry as it will
/// stand, and the sequence that will be assigned next.
#[derive(Clone, Debug, PartialEq, Eq)]
pub struct JournalDraft {
    pub entry: OperationJournalEntry,
    pub next_sequence: u64,
    /// Whether the entry is new. A new entry may not give way to make room for itself.
    pub fresh: bool,
}

/// The model of [`JournalDraft`].
pub struct JournalDraftView {
    pub entry: OperationJournalEntryView,
    pub next_sequence: u64,
    pub fresh: bool,
}

impl View for JournalDraft {
    type V = JournalDraftView;

    open spec fn view(&self) -> JournalDraftView {
        JournalDraftView {
            entry: self.entry@,
            next_sequence: self.next_sequence,
            fresh: self.fresh,
        }
    }
}

/// How a revision was handed to the writer.
#[derive(Clone, Copy, Debug, PartialEq, Eq, Structural)]
pub enum WriteTicket {
    /// There is no writer.
    Unpersisted,
    /// The writer will write the revision of this number some time.
    Debounced(u64),
    /// The writer is writing the revision of this number.
    Immediate(u64),
}

/// A revision that becomes visible once it is written.
pub struct PendingJournalCommit {
    pub revision: u64,
    pub candidate: AcceptedJournalRevision,
}

/// The model of [`PendingJournalCommit`], and of a revision whose write has failed.
pub struct PendingJournalCommitView {
    pub revision: u64,
    pub candidate: AcceptedJournalRevisionView,
}

impl View for PendingJournalCommit {
    type V = PendingJournalCommitView;

    open spec fn view(&self) -> PendingJournalCommitView {
        PendingJournalCommitView { revision: self.revision, candidate: self.candidate@ }
    }
}

/// The journals of the operations.
pub struct OperationJournalStore {
    visible: AcceptedJournalRevision,
    visible_revision: u64,
    retry_candidate: Option<PendingJournalCommit>,
    max_entries: usize,
    temporal: BoundedTemporalPolicy,
    issues: BoundedTemporalLoadIssueCounts,
}

/// The model of [`OperationJournalStore`].
pub struct OperationJournalStoreView {
    pub visible: AcceptedJournalRevisionView,
    pub visible_revision: u64,
    pub retry_candidate: Option<PendingJournalCommitView>,
    pub max_entries: nat,
    pub now: ClockView,
    pub issues: BoundedTemporalLoadIssueCounts,
}

impl View for OperationJournalStore {
    type V = OperationJournalStoreView;

    closed spec fn view(&self) -> OperationJournalStoreView {
        OperationJournalStoreView {
            visible: self.visible@,
            visible_revision: self.visible_revision,
            retry_candidate: opt_view(self.retry_candidate),
            max_entries: self.max_entries as nat,
            now: self.temporal@,
            issues: self.issues,
        }
    }
}

/// The model of a result.
pub open spec fn result_view<T: View, E>(result: Result<T, E>) -> Result<T::V, E> {
    match result {
        Ok(value) => Ok(value@),
        Err(error) => Err(error),
    }
}

/// The model of a result that may hold nothing.
pub open spec fn optional_result_view<T: View, E>(result: Result<Option<T>, E>) -> Result<
    Option<T::V>,
    E,
> {
    match result {
        Ok(value) => Ok(opt_view(value)),
        Err(error) => Err(error),
    }
}

/// How many journals a store keeps that was asked to keep so many.
pub open spec fn clamped_limit(max_entries: usize) -> usize {
    if max_entries < 1 {
        1
    } else if max_entries > DEFAULT_OPERATION_JOURNAL_LIMIT {
        DEFAULT_OPERATION_JOURNAL_LIMIT
    } else {
        max_entries
    }
}

/// A store that holds nothing.
pub open spec fn empty_store(max_entries: usize, now: ClockView) -> OperationJournalStoreView {
    OperationJournalStoreView {
        visible: AcceptedJournalRevisionView { entries: no_entries(), next_sequence: 1 },
        visible_revision: 0,
        retry_candidate: None,
        max_entries: clamped_limit(max_entries) as nat,
        now,
        issues: BoundedTemporalLoadIssueCounts { future_observation: 0, out_of_bounds_window: 0 },
    }
}

/// The revision that a draft leads to.
pub open spec fn prepared_revision(
    store: OperationJournalStoreView,
    draft: JournalDraftView,
    canonical: Seq<u8>,
) -> Result<AcceptedJournalRevisionView, OperationJournalStoreError> {
    let protected = if draft.fresh {
        Some(draft.entry.operation_id.value)
    } else {
        None
    };
    match candidate(
        store.visible.entries,
        AcceptedJournalEntryView { entry: draft.entry, canonical },
        draft.next_sequence,
        protected,
        store.max_entries,
        store.now,
    ) {
        Ok(entries) => Ok(
            AcceptedJournalRevisionView { entries, next_sequence: draft.next_sequence },
        ),
        Err(error) => Err(error),
    }
}

/// The store once a revision has been handed to the writer. What need not be waited for is visible
/// at once.
pub open spec fn accepted(
    store: OperationJournalStoreView,
    candidate: AcceptedJournalRevisionView,
    ticket: WriteTicket,
) -> OperationJournalStoreView {
    match ticket {
        WriteTicket::Unpersisted => OperationJournalStoreView {
            visible: candidate,
            retry_candidate: None,
            ..store
        },
        WriteTicket::Debounced(revision) => OperationJournalStoreView {
            visible: candidate,
            visible_revision: revision,
            retry_candidate: None,
            ..store
        },
        WriteTicket::Immediate(_) => OperationJournalStoreView { retry_candidate: None, ..store },
    }
}

/// What has to be waited for once a revision has been handed to the writer.
pub open spec fn awaited(
    candidate: AcceptedJournalRevisionView,
    ticket: WriteTicket,
) -> Option<PendingJournalCommitView> {
    match ticket {
        WriteTicket::Immediate(revision) => Some(PendingJournalCommitView { revision, candidate }),
        _ => None,
    }
}

/// The store once the writer has said whether a revision was written.
pub open spec fn settled(
    store: OperationJournalStoreView,
    commit: PendingJournalCommitView,
    written: bool,
) -> OperationJournalStoreView {
    if !written {
        OperationJournalStoreView { retry_candidate: Some(commit), ..store }
    } else if store.visible_revision < commit.revision {
        OperationJournalStoreView {
            visible: commit.candidate,
            visible_revision: commit.revision,
            retry_candidate: None,
            ..store
        }
    } else {
        OperationJournalStoreView { retry_candidate: None, ..store }
    }
}

/// What is waited for when the writer tries the revision of this number again.
pub open spec fn retried(
    store: OperationJournalStoreView,
    revision: u64,
) -> PendingJournalCommitView {
    match store.retry_candidate {
        Some(commit) => if commit.revision == revision {
            commit
        } else {
            PendingJournalCommitView { revision, candidate: store.visible }
        },
        None => PendingJournalCommitView { revision, candidate: store.visible },
    }
}

/// A write that fails changes nothing that is visible, and the change is not lost: a later write of
/// the same revision makes it visible.
pub proof fn failed_write_is_repeated(
    store: OperationJournalStoreView,
    candidate: AcceptedJournalRevisionView,
    revision: u64,
)
    requires
        store.visible_revision < revision,
    ensures
        ({
            let handed = accepted(store, candidate, WriteTicket::Immediate(revision));
            let commit = awaited(candidate, WriteTicket::Immediate(revision))->0;
            let failed = settled(handed, commit, false);
            &&& handed.visible == store.visible
            &&& failed.visible == store.visible
            &&& failed.retry_candidate == Some(commit)
            &&& retried(failed, revision) == commit
            &&& settled(failed, retried(failed, revision), true).visible == candidate
            &&& settled(failed, retried(failed, revision), true).retry_candidate is None
        }),
{
}

/// What became visible does not give way to an older revision that is written later.
pub proof fn visible_revision_never_goes_back(
    store: OperationJournalStoreView,
    commit: PendingJournalCommitView,
    written: bool,
)
    ensures
        settled(store, commit, written).visible_revision >= store.visible_revision,
        commit.revision <= store.visible_revision ==> settled(store, commit, written).visible
            == store.visible,
{
}

/// An entry of a snapshot and its text.
pub open spec fn rows(
    entries: Seq<OperationJournalEntryView>,
    canonical: Seq<Vec<u8>>,
) -> Seq<AcceptedJournalEntryView> {
    Seq::new(
        entries.len(),
        |i: int| AcceptedJournalEntryView { entry: entries[i], canonical: canonical[i]@ },
    )
}

/// What is wrong with the first entry whose times cannot be read.
pub open spec fn malformed_times(rows: Seq<AcceptedJournalEntryView>, now: ClockView) -> Option<
    OperationJournalValidationError,
>
    decreases rows.len(),
{
    if rows.len() == 0 {
        None
    } else if malformed_times(rows.drop_last(), now) is Some {
        malformed_times(rows.drop_last(), now)
    } else if entry_assessment(now, rows.last().entry) == Err::<BoundedTemporalDisposition, _>(
        BoundedTemporalViolation::MalformedTimestamp,
    ) {
        Some(times_error(rows.last().entry))
    } else {
        None
    }
}

/// How many entries have times with this violation.
pub open spec fn violations(
    rows: Seq<AcceptedJournalEntryView>,
    now: ClockView,
    violation: BoundedTemporalViolation,
) -> nat
    decreases rows.len(),
{
    if rows.len() == 0 {
        0
    } else {
        violations(rows.drop_last(), now, violation) + if entry_assessment(now, rows.last().entry)
            == Err::<BoundedTemporalDisposition, _>(violation) {
            1nat
        } else {
            0nat
        }
    }
}

/// The entries that are in force.
pub open spec fn current_rows(rows: Seq<AcceptedJournalEntryView>, now: ClockView) -> Seq<
    AcceptedJournalEntryView,
>
    decreases rows.len(),
{
    if rows.len() == 0 {
        Seq::empty()
    } else if entry_assessment(now, rows.last().entry) == Ok::<_, BoundedTemporalViolation>(
        BoundedTemporalDisposition::Current,
    ) {
        current_rows(rows.drop_last(), now).push(rows.last())
    } else {
        current_rows(rows.drop_last(), now)
    }
}

/// Whether an entry that has expired is kept: its operation has ended, and it holds the Guardian's
/// verdict on an installation or is needed by an entry in force.
pub open spec fn expired_is_kept(
    entry: OperationJournalEntryView,
    current: Seq<AcceptedJournalEntryView>,
) -> bool {
    is_terminal(entry.status) && (entry.guardian_install_terminal is Some || exists|i: int|
        0 <= i < current.len() && obliges(
            (#[trigger] current[i]).entry,
            entry.operation_id.value,
        ))
}

/// The entries that have expired and are kept.
pub open spec fn kept_expired_rows(
    rows: Seq<AcceptedJournalEntryView>,
    current: Seq<AcceptedJournalEntryView>,
    now: ClockView,
) -> Seq<AcceptedJournalEntryView>
    decreases rows.len(),
{
    if rows.len() == 0 {
        Seq::empty()
    } else if entry_assessment(now, rows.last().entry) == Ok::<_, BoundedTemporalViolation>(
        BoundedTemporalDisposition::Expired,
    ) && expired_is_kept(rows.last().entry, current) {
        kept_expired_rows(rows.drop_last(), current, now).push(rows.last())
    } else {
        kept_expired_rows(rows.drop_last(), current, now)
    }
}

/// The entries of a snapshot that are loaded.
pub open spec fn retained_rows(rows: Seq<AcceptedJournalEntryView>, now: ClockView) -> Seq<
    AcceptedJournalEntryView,
> {
    let current = current_rows(rows, now);
    current + kept_expired_rows(rows, current, now)
}

/// The store once a snapshot has been loaded into it.
pub open spec fn loaded(
    store: OperationJournalStoreView,
    entries: JournalMap,
    next_sequence: u64,
    issues: BoundedTemporalLoadIssueCounts,
) -> OperationJournalStoreView {
    OperationJournalStoreView {
        visible: AcceptedJournalRevisionView { entries, next_sequence },
        visible_revision: 0,
        retry_candidate: None,
        issues,
        ..store
    }
}

proof fn malformed_stays(rows: Seq<AcceptedJournalEntryView>, n: int, now: ClockView)
    requires
        0 <= n <= rows.len(),
        malformed_times(rows.subrange(0, n), now) is Some,
    ensures
        malformed_times(rows, now) == malformed_times(rows.subrange(0, n), now),
    decreases rows.len() - n,
{
    if n == rows.len() {
        assert(rows.subrange(0, n) =~= rows);
    } else {
        assert(rows.subrange(0, n + 1).drop_last() =~= rows.subrange(0, n));
        malformed_stays(rows, n + 1, now);
    }
}

impl OperationJournalStore {
    /// A store that keeps at most so many journals, by this clock.
    pub fn with_max_entries(max_entries: usize, temporal: BoundedTemporalPolicy) -> (r:
        OperationJournalStore)
        ensures
            r@ == empty_store(max_entries, temporal@),
    {
        let max_entries: usize = if max_entries < 1 {
            1
        } else if max_entries > DEFAULT_OPERATION_JOURNAL_LIMIT {
            DEFAULT_OPERATION_JOURNAL_LIMIT
        } else {
            max_entries
        };
        OperationJournalStore {
            visible: AcceptedJournalRevision::empty(),
            visible_revision: 0,
            retry_candidate: None,
            max_entries,
            temporal,
            issues: BoundedTemporalLoadIssueCounts {
                future_observation: 0,
                out_of_bounds_window: 0,
            },
        }
    }

    /// A store that keeps as many journals as a store may, by this clock.
    pub fn new(temporal: BoundedTemporalPolicy) -> (r: OperationJournalStore)
        ensures
            r@ == empty_store(DEFAULT_OPERATION_JOURNAL_LIMIT, temporal@),
    {
        OperationJournalStore::with_max_entries(DEFAULT_OPERATION_JOURNAL_LIMIT, temporal)
    }

    /// The clock of the store.
    pub fn temporal(&self) -> (r: &BoundedTemporalPolicy)
        ensures
            r@ == self@.now,
    {
        &self.temporal
    }

    /// Sets the clock of the store.
    pub fn set_temporal(&mut self, temporal: BoundedTemporalPolicy)
        ensures
            final(self)@ == (OperationJournalStoreView { now: temporal@, ..old(self)@ }),
    {
        self.temporal = temporal;
    }

    /// The revision that is visible.
    pub fn visible(&self) -> (r: &AcceptedJournalRevision)
        ensures
            r@ == self@.visible,
    {
        &self.visible
    }

    /// How many entries were left out when the store was loaded, by the reason.
    pub fn temporal_load_issues(&self) -> (r: BoundedTemporalLoadIssueCounts)
        ensures
            r == self@.issues,
    {
        self.issues
    }

    /// How many entries were left out when the store was loaded.
    pub fn load_issue_count(&self) -> (r: usize)
        ensures
            r == all_issues(self@.issues),
    {
        self.issues.total()
    }

    /// Whether a write has failed and must be repeated before anything else is written.
    pub fn has_retry_candidate(&self) -> (r: bool)
        ensures
            r == (self@.retry_candidate is Some),
    {
        self.retry_candidate.is_some()
    }

    /// The journal of an operation.
    pub fn get(&self, operation_id: &OperationId) -> (r: Option<OperationJournalEntry>)
        ensures
            opt_view(r) == (if self@.visible.entries.contains_key(operation_id.value) {
                Some(self@.visible.entries[operation_id.value].entry)
            } else {
                None
            }),
    {
        match self.visible.entry(operation_id) {
            Some(entry) => Some(entry.duplicate()),
            None => None,
        }
    }

    /// All journals, in the order of their operations.
    pub fn list(&self) -> (r: Vec<OperationJournalEntry>)
        ensures
            views(r@) == listed(self@.visible.entries),
    {
        self.visible.list()
    }

    /// The snapshot of what is visible.
    pub fn snapshot(&self) -> (r: OperationJournalSnapshot)
        ensures
            r@ == (OperationJournalSnapshotView {
                schema: OPERATION_JOURNAL_SCHEMA@,
                next_sequence: self@.visible.next_sequence,
                entries: listed(self@.visible.entries),
            }),
    {
        self.visible.snapshot()
    }

    /// The revision that a draft leads to, given the text of its entry.
    pub fn prepare(&self, draft: JournalDraft, canonical: Vec<u8>) -> (r: Result<
        AcceptedJournalRevision,
        OperationJournalStoreError,
    >)
        ensures
            result_view(r) == prepared_revision(self@, draft@, canonical@),
    {
        self.visible.with_entry(
            AcceptedJournalEntry { entry: draft.entry, canonical },
            draft.next_sequence,
            draft.fresh,
            self.max_entries,
            &self.temporal,
        )
    }

    /// Takes note that a revision was handed to the writer. Returns what has to be waited for.
    pub fn accept_candidate(&mut self, candidate: AcceptedJournalRevision, ticket: WriteTicket) -> (r:
        Option<PendingJournalCommit>)
        ensures
            final(self)@ == accepted(old(self)@, candidate@, ticket),
            opt_view(r) == awaited(candidate@, ticket),
    {
        self.retry_candidate = None;
        match ticket {
            WriteTicket::Unpersisted => {
                self.visible = candidate;
                None
            },
            WriteTicket::Debounced(revision) => {
                self.visible = candidate;
                self.visible_revision = revision;
                None
            },
            WriteTicket::Immediate(revision) => Some(PendingJournalCommit { revision, candidate }),
        }
    }

    /// Takes note of whether a revision was written.
    pub fn settle_commit(&mut self, commit: PendingJournalCommit, written: bool) -> (r: Result<
        (),
        OperationJournalStoreError,
    >)
        ensures
            final(self)@ == settled(old(self)@, commit@, written),
            r == (if written {
                Ok::<(), OperationJournalStoreError>(())
            } else {
                Err(OperationJournalStoreError::Persistence(PersistenceFault::WriteFailed))
            }),
    {
        if !written {
            self.retry_candidate = Some(commit);
            return Err(OperationJournalStoreError::Persistence(PersistenceFault::WriteFailed));
        }
        if self.visible_revision < commit.revision {
            self.visible_revision = commit.revision;
            self.visible = commit.candidate;
        }
        self.retry_candidate = None;
        Ok(())
    }

    /// What is waited for when the writer tries the revision of this number again.
    pub fn retry_commit(&self, revision: u64) -> (r: PendingJournalCommit)
        ensures
            r@ == retried(self@, revision),
    {
        match &self.retry_candidate {
            Some(commit) => {
                if commit.revision == revision {
                    return PendingJournalCommit {
                        revision,
                        candidate: commit.candidate.duplicate(),
                    };
                }
            },
            None => {},
        }
        PendingJournalCommit { revision, candidate: self.visible.duplicate() }
    }

    /// Loads a snapshot, given the text of each of its entries. What has expired is left out unless
    /// it is still needed; what lies in the future or suppresses for too long is left out and
    /// counted. A snapshot that is refused leaves the store as it was.
    pub fn load_snapshot(
        &mut self,
        snapshot: OperationJournalSnapshot,
        canonical: Vec<Vec<u8>>,
        rulings: &LauncherRulings,
    ) -> (r: Result<(), OperationJournalLoadError>)
        requires
            canonical.len() == snapshot.entries.len(),
        ensures
            ({
                let before = old(self)@;
                let all = rows(snapshot@.entries, canonical@);
                let map = inserted(no_entries(), retained_rows(all, before.now));
                let left = pruned(map, before.max_entries, rules_for(map, None, before.now));
                if let Err(error) = snapshot_verdict(snapshot@, rulings@) {
                    r == Err::<(), _>(error) && final(self)@ == before
                } else if let Some(error) = malformed_times(all, before.now) {
                    &&& r == Err::<(), _>(OperationJournalLoadError::InvalidEntry(error))
                    &&& final(self)@ == before
                } else {
                    match r {
                        Ok(()) => {
                            &&& left is Some
                            &&& fits(left->0, snapshot@.next_sequence)
                            &&& final(self)@ == loaded(
                                before,
                                left->0,
                                snapshot@.next_sequence,
                                BoundedTemporalLoadIssueCounts {
                                    future_observation: violations(
                                        all,
                                        before.now,
                                        BoundedTemporalViolation::ObservationTooFarInFuture,
                                    ) as usize,
                                    out_of_bounds_window: violations(
                                        all,
                                        before.now,
                                        BoundedTemporalViolation::SuppressionWindowOutOfBounds,
                                    ) as usize,
                                },
                            )
                        },
                        Err(error) => {
                            &&& final(self)@ == before
                            &&& {
                                ||| left is None && error
                                    == OperationJournalLoadError::TooManyEntries
                                ||| left matches Some(kept) && !fits(kept, snapshot@.next_sequence)
                                    && error == OperationJournalLoadError::TooLarge
                                ||| bytes_of(map) > usize::MAX && error
                                    == OperationJournalLoadError::TooManyEntries
                            }
                        },
                    }
                }
            }),
    {
        match snapshot.validate(rulings) {
            Ok(()) => {},
            Err(error) => {
                return Err(error);
            },
        }
        let ghost all = rows(snapshot@.entries, canonical@);
        let ghost now = self@.now;
        let mut current: Vec<AcceptedJournalEntry> = Vec::new();
        let mut future: usize = 0;
        let mut window: usize = 0;
        let mut referenced: Vec<u128> = Vec::new();
        let mut i: usize = 0;
        assert(all.subrange(0, 0) =~= Seq::empty());
        assert(views(current@) =~= Seq::empty());
        while i < snapshot.entries.len()
            invariant
                i <= snapshot.entries.len(),
                canonical.len() == snapshot.entries.len(),
                all == rows(snapshot@.entries, canonical@),
                now == self@.now,
                self@ == old(self)@,
                snapshot_verdict(snapshot@, rulings@) is Ok,
                malformed_times(all.subrange(0, i as int), now) is None,
                views(current@) == current_rows(all.subrange(0, i as int), now),
                future <= i,
                window <= i,
                future == violations(
                    all.subrange(0, i as int),
                    now,
                    BoundedTemporalViolation::ObservationTooFarInFuture,
                ),
                window == violations(
                    all.subrange(0, i as int),
                    now,
                    BoundedTemporalViolation::SuppressionWindowOutOfBounds,
                ),
                forall|key: u128| #[trigger]
                    referenced@.contains(key) <==> exists|k: int|
                        0 <= k < current.len() && obliges((#[trigger] views(current@)[k]).entry, key),
            decreases snapshot.entries.len() - i,
        {
            let entry = &snapshot.entries[i];
            let ghost upto = all.subrange(0, i + 1);
            assert(upto.drop_last() =~= all.subrange(0, i as int));
            assert(upto.last().entry == entry@);
            assert(upto.last().canonical == canonical@[i as int]@);
            match assess_journal_temporal(&self.temporal, entry) {
                Ok(BoundedTemporalDisposition::Current) => {
                    let ghost before = views(current@);
                    let ghost noted = referenced@;
                    push_obligations(&mut referenced, entry);
                    current.push(
                        AcceptedJournalEntry {
                            entry: entry.duplicate(),
                            canonical: canonical[i].clone(),
                        },
                    );
                    assert(views(current@) =~= before.push(upto.last()));
                    assert forall|key: u128| #[trigger]
                        referenced@.contains(key) <==> exists|k: int|
                            0 <= k < current.len() && obliges(
                                (#[trigger] views(current@)[k]).entry,
                                key,
                            ) by {
                        if noted.contains(key) {
                            let k = choose|k: int|
                                0 <= k < before.len() && obliges((#[trigger] before[k]).entry, key);
                            assert(views(current@)[k] == before[k]);
                        }
                        if obliges(entry@, key) {
                            assert(views(current@)[before.len() as int].entry == entry@);
                        }
                        if exists|k: int|
                            0 <= k < current.len() && obliges(
                                (#[trigger] views(current@)[k]).entry,
                                key,
                            ) {
                            let k = choose|k: int|
                                0 <= k < current.len() && obliges(
                                    (#[trigger] views(current@)[k]).entry,
                                    key,
                                );
                            if k < before.len() {
                                assert(views(current@)[k] == before[k]);
                            }
                        }
                    }
                },
                Ok(BoundedTemporalDisposition::Expired) => {},
                Err(BoundedTemporalViolation::ObservationTooFarInFuture) => {
                    future = future + 1;
                },
                Err(BoundedTemporalViolation::SuppressionWindowOutOfBounds) => {
                    window = window + 1;
                },
                Err(BoundedTemporalViolation::MalformedTimestamp) => {
                    let error = temporal_journal_validation_error(entry);
                    proof {
                        malformed_stays(all, i + 1, now);
                    }
                    return Err(OperationJournalLoadError::InvalidEntry(error));
                },
            }
            i = i + 1;
        }
        assert(all.subrange(0, all.len() as int) =~= all);
        let ghost in_force = views(current@);
        let mut kept: Vec<AcceptedJournalEntry> = current;
        let mut j: usize = 0;
        assert(in_force + Seq::<AcceptedJournalEntryView>::empty() =~= in_force);
        while j < snapshot.entries.len()
            invariant
                j <= snapshot.entries.len(),
                canonical.len() == snapshot.entries.len(),
                all == rows(snapshot@.entries, canonical@),
                now == self@.now,
                self@ == old(self)@,
                in_force == current_rows(all, now),
                views(kept@) == in_force + kept_expired_rows(
                    all.subrange(0, j as int),
                    in_force,
                    now,
                ),
                forall|key: u128| #[trigger]
                    referenced@.contains(key) <==> exists|k: int|
                        0 <= k < in_force.len() && obliges((#[trigger] in_force[k]).entry, key),
            decreases snapshot.entries.len() - j,
        {
            let entry = &snapshot.entries[j];
            let ghost upto = all.subrange(0, j + 1);
            assert(upto.drop_last() =~= all.subrange(0, j as int));
            assert(upto.last().entry == entry@);
            assert(upto.last().canonical == canonical@[j as int]@);
            match assess_journal_temporal(&self.temporal, entry) {
                Ok(BoundedTemporalDisposition::Expired) => {
                    if operation_journal_status_is_terminal(entry.status) && (
                    entry.guardian_install_terminal.is_some() || lists_key(
                        &referenced,
                        entry.operation_id.value,
                    )) {
                        let ghost before = views(kept@);
                        kept.push(
                            AcceptedJournalEntry {
                                entry: entry.duplicate(),
                                canonical: canonical[j].clone(),
                            },
                        );
                        assert(views(kept@) =~= before.push(upto.last()));
                        assert(views(kept@) =~= in_force + kept_expired_rows(upto, in_force, now));
                    }
                },
                _ => {},
            }
            j = j + 1;
        }
        assert(views(kept@) == retained_rows(all, now));
        match AcceptedJournalRevision::load(
            kept,
            snapshot.next_sequence,
            self.max_entries,
            &self.temporal,
        ) {
            Ok(revision) => {
                self.visible = revision;
                self.visible_revision = 0;
                self.retry_candidate = None;
                self.issues = BoundedTemporalLoadIssueCounts {
                    future_observation: future,
                    out_of_bounds_window: window,
                };
                Ok(())
            },
            Err(error) => Err(error),
        }
    }
}

} // verus!

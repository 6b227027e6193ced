//! Installation sessions and the queue together: a request of the queue is carried out by a session,
//! and only one session runs for the queue at a time.

use crate::contracts::OperationId;
use crate::install_queue::{
    enqueued, is_linked, is_started, is_unlinked, lane_discarded, lane_given, lane_released,
    lane_returned, outcome_of, queue_is_sound, request_removed, reservation_completed,
    returning_the_lane_undoes_giving_it, session_completed, start_failure_settled, start_parted,
    start_reconciled, InstallQueue, InstallQueueView,
};
use crate::install_sessions::{
    admitted, admitted_or_existing, end_given_up, end_reserved, finished, initialization_reconciled,
    initialized, installing, key_admitted, live, live_sessions, named, new_session, plain_record,
    preparation_of, record_emitted, reserved_finished, session_of, session_removed, snapshot_of,
    uses_operation, InstallAdmissionError, InstallInitializationStatus, InstallSessions, Sessions,
};
use crate::install_types::{
    ActiveQueuedInstallEntry, ActiveQueuedInstallEntryView, DownloadProgress, DownloadProgressView,
    InstallKey, InstallKeyView, InstallProgressRecord, InstallQueueAdmission,
    InstallQueueAdmissionView, InstallQueueEnqueueOutcome, InstallQueuePlacement,
    InstallQueueReservation, InstallQueueReservationView, InstallQueueSnapshot,
    InstallQueueSnapshotView, InstallQueueSpec, InstallQueueStartFailureDisposition,
    InstallQueueStartReconciliation, InstallSessionView, InstallSnapshot, InstallWorkerExit,
    InstallWorkerExitView, LoaderComponentId, QueuedInstallEntry, QueuedInstallEntryView,
};
use crate::places::{first_place, first_place_found, kept_are};
use crate::record::{opt_view, Record};
use crate::text::{trim, trimmed};
use vstd::prelude::*;

verus! {

/// Installation sessions and the queue.
pub struct InstallStore {
    pub sessions: InstallSessions,
    pub queue: InstallQueue,
}

/// The model of [`InstallStore`].
pub struct InstallStoreView {
    pub sessions: Sessions,
    pub queue: InstallQueueView,
}

impl View for InstallStore {
    type V = InstallStoreView;

    open spec fn view(&self) -> InstallStoreView {
        InstallStoreView { sessions: self.sessions@, queue: self.queue@ }
    }
}

/// Whether a new session was admitted for a request.
#[derive(Clone, Copy, Debug, PartialEq, Eq, Structural)]
pub struct InstallAdmissionMarker {
    pub admitted: bool,
}

impl InstallAdmissionMarker {
    /// Nothing has been admitted.
    pub fn new() -> (r: InstallAdmissionMarker)
        ensures
            !r.admitted,
    {
        InstallAdmissionMarker { admitted: false }
    }

    /// Whether a new session was admitted.
    pub fn is_admitted(&self) -> (r: bool)
        ensures
            r == self.admitted,
    {
        self.admitted
    }
}

/// The right to begin a session for the request that has the lane.
pub struct InstallQueueStartAuthority {
    pub queue_id: String,
}

impl InstallQueueStartAuthority {
    /// The right to begin a session for this request.
    pub fn authorize(queue_id: &str) -> (r: InstallQueueStartAuthority)
        ensures
            r.queue_id@ == queue_id@,
    {
        InstallQueueStartAuthority { queue_id: queue_id.to_owned() }
    }
}

/// What the owner of a worker does next.
pub enum WorkerStep {
    /// Nothing: the session has ended already.
    Stop,
    /// Leave the session as it is until the program ends.
    Defer,
    /// Settle the interruption, which shows this.
    Interrupt(DownloadProgress),
    /// Settle the end, which shows this.
    Reconcile(DownloadProgress),
}

/// The model of [`WorkerStep`].
pub enum WorkerStepView {
    Stop,
    Defer,
    Interrupt(DownloadProgressView),
    Reconcile(DownloadProgressView),
}

impl View for WorkerStep {
    type V = WorkerStepView;

    open spec fn view(&self) -> WorkerStepView {
        match self {
            WorkerStep::Stop => WorkerStepView::Stop,
            WorkerStep::Defer => WorkerStepView::Defer,
            WorkerStep::Interrupt(progress) => WorkerStepView::Interrupt(progress@),
            WorkerStep::Reconcile(progress) => WorkerStepView::Reconcile(progress@),
        }
    }
}

/// The queue once its active request is carried out by this session.
pub open spec fn linked_to(
    q: InstallQueueView,
    install_id: Seq<char>,
    started_at_ms: u64,
) -> InstallQueueView {
    InstallQueueView {
        active: match q.active {
            Some(active) => Some(
                ActiveQueuedInstallEntryView {
                    install_id: Some(install_id),
                    install_started_at_ms: Some(started_at_ms),
                    ..active
                },
            ),
            None => None,
        },
        ..q
    }
}

/// The store once a session has been asked for on behalf of the active request, and what is answered.
/// A session that installs the same and runs alone is taken; any other session that runs is in the
/// way.
pub open spec fn queued_admitted(
    store: InstallStoreView,
    queue_id: Seq<char>,
    install_id: Seq<char>,
    operation_id: OperationId,
    key: Option<InstallKeyView>,
    initializing: bool,
    now_ms: u64,
) -> (InstallStoreView, InstallQueueAdmissionView) {
    let left = live_sessions(store.sessions);
    if !is_unlinked(store.queue, queue_id) {
        (store, InstallQueueAdmissionView::ReservationLost)
    } else if left.len() == 0 {
        (
            InstallStoreView {
                sessions: seq![new_session(install_id, operation_id, key, initializing, now_ms)],
                queue: linked_to(store.queue, install_id, now_ms),
            },
            InstallQueueAdmissionView::Inserted,
        )
    } else if left.len() == 1 && key is Some && left[0].key == key {
        (
            InstallStoreView {
                sessions: left,
                queue: linked_to(store.queue, left[0].install_id, left[0].started_at_ms),
            },
            InstallQueueAdmissionView::Existing {
                install_id: left[0].install_id,
                operation_id: left[0].operation_id,
            },
        )
    } else {
        (
            InstallStoreView { sessions: left, ..store },
            InstallQueueAdmissionView::BlockedByLiveSession,
        )
    }
}

/// The store once the lane has been asked for, and what is answered. While a session runs, nobody gets
/// the lane.
pub open spec fn lane_reserved(store: InstallStoreView) -> (
    InstallStoreView,
    InstallQueueReservationView,
) {
    if live_sessions(store.sessions).len() > 0 {
        (store, InstallQueueReservationView::BlockedByLiveSession)
    } else {
        match lane_given(store.queue) {
            Some((queue, entry)) => (
                InstallStoreView { queue, ..store },
                InstallQueueReservationView::Reserved(entry),
            ),
            None => (store, InstallQueueReservationView::Empty),
        }
    }
}

/// The version of the game that a session installs.
pub open spec fn vanilla_key(version_id: Seq<char>) -> InstallKeyView {
    InstallKeyView::Vanilla { version_id }
}

/// The loader that a session installs.
pub open spec fn loader_key(component_id: LoaderComponentId, build_id: Seq<char>) -> InstallKeyView {
    InstallKeyView::Loader { component_id, build_id }
}

/// What becomes of the active request when a session is said to carry it out. The time at which the
/// request began is kept; where there is none, the session's own counts, and else the present.
pub open spec fn start_marked(
    store: InstallStoreView,
    queue_id: Seq<char>,
    install_id: Seq<char>,
    now_ms: u64,
) -> (InstallStoreView, bool) {
    match store.queue.active {
        Some(active) => if active.queue_id == queue_id {
            let started_at_ms = match active.install_started_at_ms {
                Some(started_at_ms) => started_at_ms,
                None => match session_of(store.sessions, install_id) {
                    Some(session) => session.started_at_ms,
                    None => now_ms,
                },
            };
            (
                InstallStoreView {
                    queue: linked_to(store.queue, install_id, started_at_ms),
                    ..store
                },
                true,
            )
        } else {
            (store, false)
        },
        None => (store, false),
    }
}

/// What happens once the work of a session has ended: its end is reserved, unless it is left to be
/// taken up again or has ended already, and it is said what has to be settled.
pub open spec fn work_ended(
    s: Sessions,
    install_id: Seq<char>,
    exit: InstallWorkerExitView,
    interrupted_progress: DownloadProgressView,
) -> (Sessions, WorkerStepView) {
    let (reserved, taken) = end_reserved(s, install_id);
    if exit is DeferredNonterminal {
        (s, WorkerStepView::Defer)
    } else if !taken {
        (reserved, WorkerStepView::Stop)
    } else {
        (
            reserved,
            match exit {
                InstallWorkerExitView::ReconcileTerminal(progress) => {
                    WorkerStepView::Reconcile(progress)
                },
                _ => WorkerStepView::Interrupt(interrupted_progress),
            },
        )
    }
}

/// What becomes of a session once its end has been settled, or could not be.
pub open spec fn work_settled(
    s: Sessions,
    install_id: Seq<char>,
    outcome: Option<DownloadProgressView>,
) -> (Sessions, bool) {
    match outcome {
        Some(progress) => {
            reserved_finished(s, install_id, progress)
        },
        None => (end_given_up(s, install_id), false),
    }
}

/// The first session that has not ended and installs this.
pub open spec fn session_installing(s: Sessions, key: InstallKeyView) -> Option<Seq<char>> {
    let place = first_place(s, installing(key));
    if 0 <= place < s.len() {
        Some(s[place].install_id)
    } else {
        None
    }
}

/// A session that is admitted for a request is linked to it and runs alone.
pub proof fn admitted_session_runs_alone(
    store: InstallStoreView,
    queue_id: Seq<char>,
    install_id: Seq<char>,
    operation_id: OperationId,
    key: Option<InstallKeyView>,
    initializing: bool,
    now_ms: u64,
)
    ensures
        ({
            let (after, answer) = queued_admitted(
                store,
                queue_id,
                install_id,
                operation_id,
                key,
                initializing,
                now_ms,
            );
            &&& answer is Inserted ==> live_sessions(after.sessions).len() == 1 && is_linked(
                after.queue,
                install_id,
            )
            &&& answer matches InstallQueueAdmissionView::Existing { install_id: taken, .. }
                ==> live_sessions(after.sessions).len() == 1 && is_linked(after.queue, taken)
            &&& answer !is Inserted && answer !is Existing ==> after.queue == store.queue
                && live_sessions(after.sessions) == live_sessions(store.sessions)
        }),
{
    let left = live_sessions(store.sessions);
    live_again(store.sessions);
    let made = new_session(install_id, operation_id, key, initializing, now_ms);
    let alone = seq![made];
    assert(alone.drop_last() =~= Seq::empty());
    assert(alone.last() == made);
    assert(live()(made));
    assert(live_sessions(alone.drop_last()).len() == 0);
    assert(live_sessions(alone).len() == 1);
}

/// Sessions that have not ended stay when those that have ended leave.
pub proof fn live_again(s: Sessions)
    ensures
        live_sessions(live_sessions(s)) == live_sessions(s),
    decreases s.len(),
{
    if s.len() > 0 {
        live_again(s.drop_last());
        let r = live_sessions(s.drop_last());
        if live()(s.last()) {
            assert(r.push(s.last()).drop_last() =~= r);
        }
    }
}

/// A request that could not begin can be put back at the head of the queue, which is then as it was
/// before the request got the lane.
pub proof fn blocked_request_returns_to_the_head(
    store: InstallStoreView,
    install_id: Seq<char>,
    operation_id: OperationId,
    key: Option<InstallKeyView>,
    initializing: bool,
    now_ms: u64,
    sessions: Sessions,
)
    requires
        lane_reserved(store).1 is Reserved,
        live_sessions(sessions).len() > 0,
        queued_admitted(
            InstallStoreView { sessions, queue: lane_reserved(store).0.queue },
            lane_reserved(store).1->Reserved_0.queue_id,
            install_id,
            operation_id,
            key,
            initializing,
            now_ms,
        ).1 is BlockedByLiveSession,
    ensures
        ({
            let (after, _) = queued_admitted(
                InstallStoreView { sessions, queue: lane_reserved(store).0.queue },
                lane_reserved(store).1->Reserved_0.queue_id,
                install_id,
                operation_id,
                key,
                initializing,
                now_ms,
            );
            &&& is_unlinked(after.queue, lane_reserved(store).1->Reserved_0.queue_id)
            &&& lane_returned(after.queue) == store.queue
        }),
{
    returning_the_lane_undoes_giving_it(store.queue);
}

/// Milliseconds since 1970, given how much time has passed; zero where the clock stands before that.
pub open spec fn since_epoch(elapsed: Option<u128>) -> u64 {
    match elapsed {
        Some(millis) => if millis > u64::MAX {
            u64::MAX
        } else {
            millis as u64
        },
        None => 0,
    }
}

/// How the work of a session ended if the worker broke down.
pub open spec fn failure_exit(outcome: Option<DownloadProgressView>) -> InstallWorkerExitView {
    match outcome {
        Some(progress) => InstallWorkerExitView::ReconcileTerminal(progress),
        None => InstallWorkerExitView::DeferredNonterminal,
    }
}

/// The request that got the lane.
pub open spec fn lane_holder(reservation: InstallQueueReservationView) -> Option<
    QueuedInstallEntryView,
> {
    match reservation {
        InstallQueueReservationView::Reserved(entry) => Some(entry),
        _ => None,
    }
}

/// Milliseconds since 1970, given how much time has passed; zero where the clock stands before that.
pub fn unix_millis(elapsed: Option<u128>) -> (r: u64)
    ensures
        r == since_epoch(elapsed),
{
    match elapsed {
        Some(millis) => {
            if millis > u64::MAX as u128 {
                u64::MAX
            } else {
                millis as u64
            }
        },
        None => 0,
    }
}

/// The work of a session ended without saying how: it was interrupted, unless the session has ended.
pub fn worker_exit_interrupt_if_active() -> (r: InstallWorkerExit)
    ensures
        r@ is InterruptIfActive,
{
    InstallWorkerExit::InterruptIfActive
}

/// The work of a session ended with this.
pub fn worker_exit_reconcile_terminal(progress: DownloadProgress) -> (r: InstallWorkerExit)
    ensures
        r@ == InstallWorkerExitView::ReconcileTerminal(progress@),
{
    InstallWorkerExit::ReconcileTerminal(progress)
}

/// The work of a session is left to be taken up again later.
pub fn worker_exit_deferred_nonterminal() -> (r: InstallWorkerExit)
    ensures
        r@ is DeferredNonterminal,
{
    InstallWorkerExit::DeferredNonterminal
}

/// How the work of a session ended if the worker broke down, given what the one who was asked about it
/// said.
pub fn worker_failure_exit(outcome: Option<DownloadProgress>) -> (r: InstallWorkerExit)
    ensures
        r@ == failure_exit(opt_view(outcome)),
{
    match outcome {
        Some(progress) => InstallWorkerExit::ReconcileTerminal(progress),
        None => InstallWorkerExit::DeferredNonterminal,
    }
}

impl InstallStore {
    /// No sessions and an empty queue.
    pub fn new() -> (r: InstallStore)
        ensures
            r@.sessions == Seq::<InstallSessionView>::empty(),
            r@.queue == (InstallQueueView {
                active: None,
                pending: Seq::empty(),
                outcomes: Seq::empty(),
            }),
    {
        InstallStore { sessions: InstallSessions::new(), queue: InstallQueue::new() }
    }

    fn admit_queued(
        &mut self,
        authority: &InstallQueueStartAuthority,
        admission: &mut InstallAdmissionMarker,
        install_id: String,
        operation_id: OperationId,
        key: Option<InstallKey>,
        initializing: bool,
        now_ms: u64,
    ) -> (r: InstallQueueAdmission)
        ensures
            (final(self)@, r@) == queued_admitted(
                old(self)@,
                authority.queue_id@,
                install_id@,
                operation_id,
                opt_view(key),
                initializing,
                now_ms,
            ),
            final(admission).admitted == (old(admission).admitted || r@ is Inserted),
    {
        if !self.queue.unlinked(authority.queue_id.as_str()) {
            return InstallQueueAdmission::ReservationLost;
        }
        let ghost before = self@.sessions;
        self.sessions.prune_done();
        proof {
            live_again(before);
            kept_are(before, live());
        }
        let count: usize = self.sessions.len();
        if count == 0 {
            let id = install_id.duplicate();
            proof {
                first_place_found(self.sessions@, named(install_id@));
            }
            self.sessions.begin(install_id, operation_id, key, initializing, now_ms);
            assert(self.sessions@ =~= seq![
                new_session(install_id@, operation_id, opt_view(key), initializing, now_ms),
            ]);
            self.queue.link(Some(id), Some(now_ms));
            admission.admitted = true;
            return InstallQueueAdmission::Inserted;
        }
        if count == 1 {
            let session = self.sessions.at(0);
            let matching = match (&key, &session.key) {
                (Some(wanted), Some(existing)) => existing.same(wanted),
                _ => false,
            };
            if matching {
                let id = session.install_id.duplicate();
                let taken = session.operation_id;
                let started: u64 = session.started_at_ms;
                self.queue.link(Some(id.duplicate()), Some(started));
                return InstallQueueAdmission::Existing { install_id: id, operation_id: taken };
            }
        }
        InstallQueueAdmission::BlockedByLiveSession
    }

    /// Begins a session that installs a version of the game, for the active request.
    pub fn admit_queued_vanilla(
        &mut self,
        authority: &InstallQueueStartAuthority,
        admission: &mut InstallAdmissionMarker,
        install_id: String,
        operation_id: OperationId,
        version_id: String,
        now_ms: u64,
    ) -> (r: InstallQueueAdmission)
        ensures
            (final(self)@, r@) == queued_admitted(
                old(self)@,
                authority.queue_id@,
                install_id@,
                operation_id,
                Some(vanilla_key(trimmed(version_id@))),
                true,
                now_ms,
            ),
            final(admission).admitted == (old(admission).admitted || r@ is Inserted),
    {
        let key = InstallKey::Vanilla { version_id: trim(version_id.as_str()).to_owned() };
        self.admit_queued(
            authority,
            admission,
            install_id,
            operation_id,
            Some(key),
            true,
            now_ms,
        )
    }

    /// Begins a session that installs a loader, for the active request.
    pub fn admit_queued_loader(
        &mut self,
        authority: &InstallQueueStartAuthority,
        admission: &mut InstallAdmissionMarker,
        install_id: String,
        operation_id: OperationId,
        component_id: LoaderComponentId,
        build_id: String,
        now_ms: u64,
    ) -> (r: InstallQueueAdmission)
        ensures
            (final(self)@, r@) == queued_admitted(
                old(self)@,
                authority.queue_id@,
                install_id@,
                operation_id,
                Some(loader_key(component_id, trimmed(build_id@))),
                true,
                now_ms,
            ),
            final(admission).admitted == (old(admission).admitted || r@ is Inserted),
    {
        let key = InstallKey::Loader {
            component_id,
            build_id: trim(build_id.as_str()).to_owned(),
        };
        self.admit_queued(
            authority,
            admission,
            install_id,
            operation_id,
            Some(key),
            true,
            now_ms,
        )
    }

    /// Begins a session that changes the content of an instance, for the active request.
    pub fn admit_queued_content(
        &mut self,
        authority: &InstallQueueStartAuthority,
        admission: &mut InstallAdmissionMarker,
        install_id: String,
        operation_id: OperationId,
        now_ms: u64,
    ) -> (r: InstallQueueAdmission)
        ensures
            (final(self)@, r@) == queued_admitted(
                old(self)@,
                authority.queue_id@,
                install_id@,
                operation_id,
                None,
                false,
                now_ms,
            ),
            final(admission).admitted == (old(admission).admitted || r@ is Inserted),
    {
        self.admit_queued(authority, admission, install_id, operation_id, None, false, now_ms)
    }

    /// Begins a session that installs nothing in particular.
    pub fn admit_install(&mut self, install_id: String, operation_id: OperationId, now_ms: u64) -> (r:
        Result<(), InstallAdmissionError>)
        ensures
            (final(self)@.sessions, r) == admitted(
                old(self)@.sessions,
                install_id@,
                operation_id,
                now_ms,
            ),
            final(self)@.queue == old(self)@.queue,
    {
        self.sessions.admit_install(install_id, operation_id, now_ms)
    }

    /// Begins a session that installs a version of the game, unless one runs.
    pub fn admit_or_existing_vanilla(
        &mut self,
        install_id: String,
        operation_id: OperationId,
        version_id: String,
        now_ms: u64,
    ) -> (r: Result<(String, bool), InstallAdmissionError>)
        ensures
            (
                final(self)@.sessions,
                match r {
                    Ok((id, inserted)) => Ok((id@, inserted)),
                    Err(error) => Err(error),
                },
            ) == admitted_or_existing(
                old(self)@.sessions,
                install_id@,
                operation_id,
                vanilla_key(trimmed(version_id@)),
                now_ms,
            ),
            final(self)@.queue == old(self)@.queue,
    {
        let key = InstallKey::Vanilla { version_id: trim(version_id.as_str()).to_owned() };
        self.sessions.admit_or_existing(install_id, operation_id, key, now_ms)
    }

    /// Begins a session that installs a loader, unless one runs.
    pub fn admit_or_existing_loader(
        &mut self,
        install_id: String,
        operation_id: OperationId,
        component_id: LoaderComponentId,
        build_id: String,
        now_ms: u64,
    ) -> (r: Result<(String, bool), InstallAdmissionError>)
        ensures
            (
                final(self)@.sessions,
                match r {
                    Ok((id, inserted)) => Ok((id@, inserted)),
                    Err(error) => Err(error),
                },
            ) == admitted_or_existing(
                old(self)@.sessions,
                install_id@,
                operation_id,
                loader_key(component_id, trimmed(build_id@)),
                now_ms,
            ),
            final(self)@.queue == old(self)@.queue,
    {
        let key = InstallKey::Loader {
            component_id,
            build_id: trim(build_id.as_str()).to_owned(),
        };
        self.sessions.admit_or_existing(install_id, operation_id, key, now_ms)
    }

    /// Begins a session that takes the installation of a version of the game up again.
    pub fn admit_recovering_vanilla(
        &mut self,
        install_id: String,
        operation_id: OperationId,
        version_id: String,
        now_ms: u64,
    ) -> (r: Result<(), InstallAdmissionError>)
        ensures
            (final(self)@.sessions, r) == key_admitted(
                old(self)@.sessions,
                install_id@,
                operation_id,
                vanilla_key(version_id@),
                false,
                now_ms,
            ),
            final(self)@.queue == old(self)@.queue,
    {
        self.sessions.admit_key(
            install_id,
            operation_id,
            InstallKey::Vanilla { version_id },
            false,
            now_ms,
        )
    }

    /// Begins a session that takes the installation of a loader up again.
    pub fn admit_recovering_loader(
        &mut self,
        install_id: String,
        operation_id: OperationId,
        component_id: LoaderComponentId,
        build_id: String,
        now_ms: u64,
    ) -> (r: Result<(), InstallAdmissionError>)
        ensures
            (final(self)@.sessions, r) == key_admitted(
                old(self)@.sessions,
                install_id@,
                operation_id,
                loader_key(component_id, build_id@),
                false,
                now_ms,
            ),
            final(self)@.queue == old(self)@.queue,
    {
        self.sessions.admit_key(
            install_id,
            operation_id,
            InstallKey::Loader { component_id, build_id },
            false,
            now_ms,
        )
    }

    /// The operation that a session carries out.
    pub fn operation_id(&self, install_id: &str) -> (r: Option<OperationId>)
        ensures
            r == (match session_of(self@.sessions, install_id@) {
                Some(session) => Some(session.operation_id),
                None => None,
            }),
    {
        match self.sessions.get(install_id) {
            Some(session) => Some(session.operation_id),
            None => None,
        }
    }

    /// Whether a session carries this operation out.
    pub fn contains_operation_id(&self, operation_id: &OperationId) -> (r: bool)
        ensures
            r == uses_operation(self@.sessions, *operation_id),
    {
        self.sessions.contains_operation_id(operation_id)
    }

    /// Takes note that a session is prepared. Returns whether there is one.
    pub fn mark_initialized(&mut self, install_id: &str) -> (r: bool)
        ensures
            (final(self)@.sessions, r) == initialized(old(self)@.sessions, install_id@),
            final(self)@.queue == old(self)@.queue,
    {
        self.sessions.mark_initialized(install_id)
    }

    /// Takes note that the preparation of a session is being reconciled. Returns whether one is being
    /// prepared.
    pub fn mark_initialization_reconciling(&mut self, install_id: &str) -> (r: bool)
        ensures
            (final(self)@.sessions, r) == initialization_reconciled(old(self)@.sessions, install_id@),
            final(self)@.queue == old(self)@.queue,
    {
        self.sessions.mark_initialization_reconciling(install_id)
    }

    /// How far the preparation of a session has got; `None` while one has to wait for it.
    pub fn wait_for_initialization(&self, install_id: &str) -> (r: Option<
        InstallInitializationStatus,
    >)
        ensures
            r == preparation_of(self@.sessions, install_id@),
    {
        self.sessions.initialization_status(install_id)
    }

    /// Whether a session is prepared; `None` while one has to wait for it.
    pub fn wait_until_initialized(&self, install_id: &str) -> (r: Option<bool>)
        ensures
            r == (match preparation_of(self@.sessions, install_id@) {
                Some(status) => Some(status == InstallInitializationStatus::Initialized),
                None => None,
            }),
    {
        match self.wait_for_initialization(install_id) {
            Some(status) => Some(status == InstallInitializationStatus::Initialized),
            None => None,
        }
    }

    /// Takes progress in. Returns whether the session took it, so that it is sent on.
    pub fn emit(&mut self, install_id: &str, progress: DownloadProgress) -> (r: bool)
        ensures
            (final(self)@.sessions, r) == record_emitted(old(self)@.sessions, install_id@, plain_record(progress@)),
            final(self)@.queue == old(self)@.queue,
    {
        self.emit_record(install_id, InstallProgressRecord::new(progress))
    }

    /// Takes progress in. Returns whether the session took it, so that it is sent on.
    pub fn emit_record(&mut self, install_id: &str, record: InstallProgressRecord) -> (r: bool)
        ensures
            (final(self)@.sessions, r) == record_emitted(old(self)@.sessions, install_id@, record@),
            final(self)@.queue == old(self)@.queue,
    {
        self.sessions.emit_record(install_id, record)
    }

    /// Ends a session that has not ended. Returns whether it did, so that its end is sent on.
    pub fn finish_if_active(&mut self, install_id: &str, progress: DownloadProgress) -> (r: bool)
        ensures
            (final(self)@.sessions, r) == finished(old(self)@.sessions, install_id@, progress@),
            final(self)@.queue == old(self)@.queue,
    {
        self.sessions.finish_if_active(install_id, progress)
    }

    /// What is shown of a session to one who follows it from now on.
    pub fn subscribe_records(&self, install_id: &str) -> (r: Option<InstallSnapshot>)
        ensures
            opt_view(r) == snapshot_of(self@.sessions, install_id@),
    {
        self.sessions.snapshot(install_id)
    }

    /// What is shown of a session.
    pub fn snapshot(&self, install_id: &str) -> (r: Option<InstallSnapshot>)
        ensures
            opt_view(r) == snapshot_of(self@.sessions, install_id@),
    {
        self.sessions.snapshot(install_id)
    }

    /// When a session began.
    pub fn install_started_at_ms(&self, install_id: &str) -> (r: Option<u64>)
        ensures
            r == (match session_of(self@.sessions, install_id@) {
                Some(session) => Some(session.started_at_ms),
                None => None,
            }),
    {
        match self.sessions.get(install_id) {
            Some(session) => Some(session.started_at_ms),
            None => None,
        }
    }

    /// The first session that has not ended and installs this version of the game.
    pub fn active_vanilla_install(&self, version_id: &str) -> (r: Option<String>)
        ensures
            opt_view(r) == session_installing(
                self@.sessions,
                vanilla_key(trimmed(version_id@)),
            ),
    {
        let key = InstallKey::Vanilla { version_id: trim(version_id).to_owned() };
        let place: usize = self.sessions.place_installing(&key);
        if place < self.sessions.len() {
            Some(self.sessions.at(place).install_id.duplicate())
        } else {
            None
        }
    }

    /// How many sessions have not ended.
    pub fn active_install_count(&self) -> (r: usize)
        ensures
            r == live_sessions(self@.sessions).len(),
    {
        self.sessions.active_install_count()
    }

    /// Removes a session. Returns whether there was one, so that those who wait for it are told.
    pub fn remove(&mut self, install_id: &str) -> (r: bool)
        ensures
            (final(self)@.sessions, r) == session_removed(old(self)@.sessions, install_id@),
            final(self)@.queue == old(self)@.queue,
    {
        self.sessions.remove(install_id)
    }

    /// What happens once the work of a session has ended in this way. Where the session has not ended,
    /// its end is reserved until what was asked for is settled.
    pub fn worker_ended(
        &mut self,
        install_id: &str,
        exit: InstallWorkerExit,
        interrupted_progress: DownloadProgress,
    ) -> (r: WorkerStep)
        ensures
            (final(self)@.sessions, r@) == work_ended(
                old(self)@.sessions,
                install_id@,
                exit@,
                interrupted_progress@,
            ),
            final(self)@.queue == old(self)@.queue,
    {
        match exit {
            InstallWorkerExit::DeferredNonterminal => WorkerStep::Defer,
            InstallWorkerExit::InterruptIfActive => {
                if self.sessions.reserve_terminal_if_active(install_id) {
                    WorkerStep::Interrupt(interrupted_progress)
                } else {
                    WorkerStep::Stop
                }
            },
            InstallWorkerExit::ReconcileTerminal(progress) => {
                if self.sessions.reserve_terminal_if_active(install_id) {
                    WorkerStep::Reconcile(progress)
                } else {
                    WorkerStep::Stop
                }
            },
        }
    }

    /// Takes note of what came of settling the end of a session. It ends with what was settled; where
    /// nothing was, it goes on without an end. Returns whether it ended, so that its end is sent on.
    pub fn worker_settled(&mut self, install_id: &str, outcome: Option<DownloadProgress>) -> (r: bool)
        ensures
            (final(self)@.sessions, r) == work_settled(
                old(self)@.sessions,
                install_id@,
                opt_view(outcome),
            ),
            final(self)@.queue == old(self)@.queue,
    {
        match outcome {
            Some(progress) => self.sessions.finish_reserved(install_id, progress),
            None => {
                self.sessions.cancel_reserved_terminal(install_id);
                false
            },
        }
    }

    /// Asks for something through the queue.
    pub fn enqueue_queued_install(
        &mut self,
        queue_id: String,
        spec: InstallQueueSpec,
        placement: InstallQueuePlacement,
    ) -> (r: InstallQueueEnqueueOutcome)
        ensures
            (final(self)@.queue, r@) == enqueued(old(self)@.queue, queue_id@, spec@, placement),
            final(self)@.sessions == old(self)@.sessions,
    {
        self.queue.enqueue_queued_install(queue_id, spec, placement)
    }

    /// Gives the lane to the first waiting request, if it is free and no session runs.
    pub fn reserve_next_queued_install(&mut self) -> (r: InstallQueueReservation)
        ensures
            (final(self)@, r@) == lane_reserved(old(self)@),
    {
        if self.sessions.any_live() {
            return InstallQueueReservation::BlockedByLiveSession;
        }
        match self.queue.give_lane() {
            Some(entry) => InstallQueueReservation::Reserved(entry),
            None => InstallQueueReservation::Empty,
        }
    }

    /// Says which session carries the active request out. Returns whether this request has the lane.
    pub fn mark_queued_install_started(
        &mut self,
        queue_id: &str,
        install_id: String,
        now_ms: u64,
    ) -> (r: bool)
        ensures
            (final(self)@, r) == start_marked(old(self)@, queue_id@, install_id@, now_ms),
    {
        let found = match self.install_started_at_ms(install_id.as_str()) {
            Some(started_at_ms) => started_at_ms,
            None => now_ms,
        };
        match self.queue.active_start(queue_id) {
            Some(Some(started_at_ms)) => {
                self.queue.link(Some(install_id), Some(started_at_ms));
                true
            },
            Some(None) => {
                self.queue.link(Some(install_id), Some(found));
                true
            },
            None => false,
        }
    }

    /// Ends the request that this session carries out.
    pub fn complete_active_queued_install(&mut self, install_id: &str, succeeded: bool) -> (r: Option<
        ActiveQueuedInstallEntry,
    >)
        ensures
            (final(self)@.queue, opt_view(r)) == session_completed(old(self)@.queue, install_id@, succeeded),
            final(self)@.sessions == old(self)@.sessions,
    {
        self.queue.complete_active_queued_install(install_id, succeeded)
    }

    /// Ends a request for which no session has begun.
    pub fn complete_reserved_queued_install(&mut self, queue_id: &str, succeeded: bool) -> (r: Option<
        ActiveQueuedInstallEntry,
    >)
        ensures
            (final(self)@.queue, opt_view(r)) == reservation_completed(old(self)@.queue, queue_id@, succeeded),
            final(self)@.sessions == old(self)@.sessions,
    {
        self.queue.complete_reserved_queued_install(queue_id, succeeded)
    }

    /// Settles a request whose start failed.
    pub fn settle_queued_install_start_failure(
        &mut self,
        authority: &InstallQueueStartAuthority,
    ) -> (r: InstallQueueStartFailureDisposition)
        ensures
            (final(self)@.queue, r@) == start_failure_settled(old(self)@.queue, authority.queue_id@),
            final(self)@.sessions == old(self)@.sessions,
    {
        self.queue.settle_start_failure(authority.queue_id.as_str())
    }

    /// Whether the lane belongs to this request and this session carries it out.
    pub fn queued_install_start_matches(
        &self,
        authority: &InstallQueueStartAuthority,
        install_id: &str,
    ) -> (r: bool)
        ensures
            r == is_started(self@.queue, authority.queue_id@, install_id@),
    {
        self.queue.start_matches(authority.queue_id.as_str(), install_id)
    }

    /// Parts the active request from its session, if they are these.
    pub fn reset_removed_queued_install_start(
        &mut self,
        authority: &InstallQueueStartAuthority,
        install_id: &str,
    ) -> (r: bool)
        ensures
            (final(self)@.queue, r) == start_parted(
                old(self)@.queue,
                authority.queue_id@,
                install_id@,
            ),
            final(self)@.sessions == old(self)@.sessions,
    {
        self.queue.reset_start(authority.queue_id.as_str(), install_id)
    }

    /// Settles a request whose start was interrupted.
    pub fn reconcile_queued_install_start(&mut self, queue_id: &str) -> (r:
        InstallQueueStartReconciliation)
        ensures
            (final(self)@.queue, r@) == start_reconciled(old(self)@.queue, queue_id@),
            final(self)@.sessions == old(self)@.sessions,
    {
        self.queue.reconcile_queued_install_start(queue_id)
    }

    /// How a request ended, if that is remembered.
    pub fn queued_install_succeeded(&self, queue_id: &str) -> (r: Option<bool>)
        ensures
            r == outcome_of(self@.queue, queue_id@),
    {
        self.queue.queued_install_succeeded(queue_id)
    }

    /// Puts the active request back at the head, if no session has begun for it.
    pub fn release_active_queued_install_to_front(&mut self, queue_id: &str) -> (r: bool)
        ensures
            (final(self)@.queue, r) == lane_released(old(self)@.queue, queue_id@),
            final(self)@.sessions == old(self)@.sessions,
    {
        self.queue.release_active_queued_install_to_front(queue_id)
    }

    /// Drops the active request, if no session has begun for it.
    pub fn discard_active_queued_install(&mut self, queue_id: &str) -> (r: bool)
        ensures
            (final(self)@.queue, r) == lane_discarded(old(self)@.queue, queue_id@),
            final(self)@.sessions == old(self)@.sessions,
    {
        self.queue.discard_active_queued_install(queue_id)
    }

    /// Takes a waiting request out of the queue.
    pub fn remove_queued_install(&mut self, queue_id: &str) -> (r: Option<QueuedInstallEntry>)
        ensures
            (final(self)@.queue, opt_view(r)) == request_removed(old(self)@.queue, queue_id@),
            final(self)@.sessions == old(self)@.sessions,
    {
        self.queue.remove_queued_install(queue_id)
    }

    /// The queue as it is. No two of its requests ask for the same.
    pub fn queue_snapshot(&self) -> (r: InstallQueueSnapshot)
        ensures
            r@ == (InstallQueueSnapshotView {
                active: self@.queue.active,
                pending: self@.queue.pending,
            }),
            queue_is_sound(self@.queue),
    {
        self.queue.queue_snapshot()
    }
}

impl InstallQueueReservation {
    /// The request that got the lane.
    pub fn reserved(self) -> (r: Option<QueuedInstallEntry>)
        ensures
            opt_view(r) == lane_holder(self@),
    {
        match self {
            InstallQueueReservation::Reserved(entry) => Some(entry),
            _ => None,
        }
    }
}

} // verus!

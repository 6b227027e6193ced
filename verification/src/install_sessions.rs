//! The sessions that install something: who is admitted, how far they have got, and how they end.

use crate::contracts::OperationId;
use crate::install_types::{
    DownloadProgress, DownloadProgressView, InstallKey, InstallKeyView, InstallProgressRecord,
    InstallProgressRecordView, InstallSession, InstallSessionView, InstallSnapshot,
    InstallSnapshotView,
};
use crate::places::{first_place, first_place_found, first_place_is, kept, kept_are};
use crate::record::{list_duplicate, opt_duplicate, opt_view, views, Record};
use crate::text::same_text;
use vstd::prelude::*;

verus! {

/// Why a session is not admitted.
#[derive(Clone, Copy, Debug, PartialEq, Eq, Structural)]
pub enum InstallAdmissionError {
    InstallIdCollision,
    OperationIdCollision,
}

/// How far the preparation of a session has got.
#[derive(Clone, Copy, Debug, PartialEq, Eq, Structural)]
pub enum InstallInitializationStatus {
    Initialized,
    Reconciling,
    Removed,
}

impl InstallProgressRecord {
    /// Progress without texts that are sent about it.
    pub fn new(progress: DownloadProgress) -> (r: InstallProgressRecord)
        ensures
            r@ == plain_record(progress@),
    {
        InstallProgressRecord { progress, vanilla_event_json: None, loader_event_json: None }
    }

    /// Progress with the texts that are sent about it.
    pub fn with_event_json(
        progress: DownloadProgress,
        vanilla_event_json: String,
        loader_event_json: String,
    ) -> (r: InstallProgressRecord)
        ensures
            r@ == told_record(progress@, vanilla_event_json@, loader_event_json@),
    {
        InstallProgressRecord {
            progress,
            vanilla_event_json: Some(vanilla_event_json),
            loader_event_json: Some(loader_event_json),
        }
    }

    /// The text that is sent about the progress of a loader, or of a version of the game.
    pub fn event_json(&self, loader_install: bool) -> (r: Option<&str>)
        ensures
            opt_view(r) == event_text(self@, loader_install),
    {
        let text = if loader_install {
            &self.loader_event_json
        } else {
            &self.vanilla_event_json
        };
        match text {
            Some(text) => Some(text.as_str()),
            None => None,
        }
    }
}

/// Progress with the texts that are sent about it.
pub open spec fn told_record(
    progress: DownloadProgressView,
    vanilla: Seq<char>,
    loader: Seq<char>,
) -> InstallProgressRecordView {
    InstallProgressRecordView {
        progress,
        vanilla_event_json: Some(vanilla),
        loader_event_json: Some(loader),
    }
}

/// The text that is sent about the progress of a loader, or of a version of the game.
pub open spec fn event_text(record: InstallProgressRecordView, loader_install: bool) -> Option<
    Seq<char>,
> {
    if loader_install {
        record.loader_event_json
    } else {
        record.vanilla_event_json
    }
}

/// Progress without texts that are sent about it.
pub open spec fn plain_record(progress: DownloadProgressView) -> InstallProgressRecordView {
    InstallProgressRecordView { progress, vanilla_event_json: None, loader_event_json: None }
}

/// Progress that is the last.
pub open spec fn last_progress(progress: DownloadProgressView) -> DownloadProgressView {
    DownloadProgressView { done: true, ..progress }
}

/// The models of the sessions.
pub type Sessions = Seq<InstallSessionView>;

/// The sessions, none of which shares its identity or its operation with another one.
pub struct InstallSessions {
    list: Vec<InstallSession>,
}

impl View for InstallSessions {
    type V = Sessions;

    closed spec fn view(&self) -> Sessions {
        views(self.list@)
    }
}

/// Whether no two sessions share their identity or their operation.
pub open spec fn sessions_are_apart(s: Sessions) -> bool {
    forall|i: int, j: int|
        0 <= i < j < s.len() ==> (#[trigger] s[i]).install_id != (#[trigger] s[j]).install_id
            && s[i].operation_id != s[j].operation_id
}

/// Is the session of this identity.
pub open spec fn named(install_id: Seq<char>) -> spec_fn(InstallSessionView) -> bool {
    |session: InstallSessionView| session.install_id == install_id
}

/// Has not ended.
pub open spec fn live() -> spec_fn(InstallSessionView) -> bool {
    |session: InstallSessionView| !session.done
}

/// Has not ended and installs this.
pub open spec fn installing(key: InstallKeyView) -> spec_fn(InstallSessionView) -> bool {
    |session: InstallSessionView| !session.done && session.key == Some(key)
}

/// The sessions that have not ended.
pub open spec fn live_sessions(s: Sessions) -> Sessions {
    kept(s, live())
}

/// The session of this identity.
pub open spec fn session_of(s: Sessions, install_id: Seq<char>) -> Option<InstallSessionView> {
    let place = first_place(s, named(install_id));
    if 0 <= place < s.len() {
        Some(s[place])
    } else {
        None
    }
}

/// Whether a session carries this operation out.
pub open spec fn uses_operation(s: Sessions, operation_id: OperationId) -> bool {
    exists|i: int| 0 <= i < s.len() && (#[trigger] s[i]).operation_id == operation_id
}

/// A session that has just begun.
pub open spec fn new_session(
    install_id: Seq<char>,
    operation_id: OperationId,
    key: Option<InstallKeyView>,
    initializing: bool,
    now_ms: u64,
) -> InstallSessionView {
    InstallSessionView {
        install_id,
        operation_id,
        key,
        started_at_ms: now_ms,
        latest: None,
        done: false,
        initializing,
        initialization_reconciling: false,
        terminalizing: false,
    }
}

/// The sessions once one has been asked for, and what is answered. Sessions that have ended leave. To
/// ask for the same session again, which installs nothing in particular, is in order.
pub open spec fn admitted(
    s: Sessions,
    install_id: Seq<char>,
    operation_id: OperationId,
    now_ms: u64,
) -> (Sessions, Result<(), InstallAdmissionError>) {
    let left = live_sessions(s);
    match session_of(left, install_id) {
        Some(existing) => (
            left,
            if existing.operation_id == operation_id && existing.key is None {
                Ok(())
            } else {
                Err(InstallAdmissionError::InstallIdCollision)
            },
        ),
        None => if uses_operation(left, operation_id) {
            (left, Err(InstallAdmissionError::OperationIdCollision))
        } else {
            (left.push(new_session(install_id, operation_id, None, false, now_ms)), Ok(()))
        },
    }
}

/// The sessions once one that installs this has been asked for, and what is answered. Sessions that
/// have ended leave.
pub open spec fn key_admitted(
    s: Sessions,
    install_id: Seq<char>,
    operation_id: OperationId,
    key: InstallKeyView,
    initializing: bool,
    now_ms: u64,
) -> (Sessions, Result<(), InstallAdmissionError>) {
    let left = live_sessions(s);
    if session_of(left, install_id) is Some {
        (left, Err(InstallAdmissionError::InstallIdCollision))
    } else if uses_operation(left, operation_id) {
        (left, Err(InstallAdmissionError::OperationIdCollision))
    } else {
        (
            left.push(new_session(install_id, operation_id, Some(key), initializing, now_ms)),
            Ok(()),
        )
    }
}

/// The sessions once one that installs this has been asked for unless there is one, and the identity of
/// the session that does, with whether it is new.
pub open spec fn admitted_or_existing(
    s: Sessions,
    install_id: Seq<char>,
    operation_id: OperationId,
    key: InstallKeyView,
    now_ms: u64,
) -> (Sessions, Result<(Seq<char>, bool), InstallAdmissionError>) {
    let left = live_sessions(s);
    let place = first_place(left, installing(key));
    if 0 <= place < left.len() {
        (left, Ok((left[place].install_id, false)))
    } else {
        match key_admitted(s, install_id, operation_id, key, true, now_ms) {
            (after, Ok(())) => (after, Ok((install_id, true))),
            (after, Err(error)) => (after, Err(error)),
        }
    }
}

/// The sessions once the one of this identity has become another; `None` stands for no change.
pub open spec fn with_session(
    s: Sessions,
    install_id: Seq<char>,
    becomes: Option<InstallSessionView>,
) -> Sessions {
    match becomes {
        Some(session) => s.update(first_place(s, named(install_id)), session),
        None => s,
    }
}

/// What a session of this identity becomes by a change; `None` where there is none or it stays as it
/// is.
pub open spec fn becoming(
    s: Sessions,
    install_id: Seq<char>,
    change: spec_fn(InstallSessionView) -> Option<InstallSessionView>,
) -> Option<InstallSessionView> {
    match session_of(s, install_id) {
        Some(session) => change(session),
        None => None,
    }
}

/// Takes progress in, unless the session has ended or is about to.
pub open spec fn progressing(record: InstallProgressRecordView) -> spec_fn(
    InstallSessionView,
) -> Option<InstallSessionView> {
    |session: InstallSessionView|
        if session.done || session.terminalizing {
            None
        } else {
            Some(
                InstallSessionView {
                    done: record.progress.done,
                    latest: Some(record),
                    ..session
                },
            )
        }
}

/// Reserves the end of a session that has not ended.
pub open spec fn reserving_the_end() -> spec_fn(InstallSessionView) -> Option<InstallSessionView> {
    |session: InstallSessionView|
        if session.done || session.terminalizing {
            None
        } else {
            Some(InstallSessionView { terminalizing: true, ..session })
        }
}

/// Ends a session whose end is reserved.
pub open spec fn ending(progress: DownloadProgressView) -> spec_fn(InstallSessionView) -> Option<
    InstallSessionView,
> {
    |session: InstallSessionView|
        if session.done || !session.terminalizing {
            None
        } else {
            Some(
                InstallSessionView {
                    terminalizing: false,
                    done: true,
                    latest: Some(plain_record(last_progress(progress))),
                    ..session
                },
            )
        }
}

/// Gives the reserved end up.
pub open spec fn giving_the_end_up() -> spec_fn(InstallSessionView) -> Option<InstallSessionView> {
    |session: InstallSessionView| Some(InstallSessionView { terminalizing: false, ..session })
}

/// Takes note that the session is prepared.
pub open spec fn initializing_done() -> spec_fn(InstallSessionView) -> Option<InstallSessionView> {
    |session: InstallSessionView|
        Some(
            InstallSessionView {
                initializing: false,
                initialization_reconciling: false,
                ..session
            },
        )
}

/// Takes note that the preparation of the session is being reconciled.
pub open spec fn reconciling_initialization() -> spec_fn(InstallSessionView) -> Option<
    InstallSessionView,
> {
    |session: InstallSessionView|
        if session.initializing {
            Some(InstallSessionView { initialization_reconciling: true, ..session })
        } else {
            None
        }
}

/// What is shown of a session.
pub open spec fn shown(session: InstallSessionView) -> InstallSnapshotView {
    InstallSnapshotView {
        operation_id: session.operation_id,
        latest: session.latest,
        done: session.done,
        loader_install: session.key matches Some(key) && key is Loader,
    }
}

/// The sessions once the one of this identity has changed in this way, and whether it has.
pub open spec fn changed(
    s: Sessions,
    install_id: Seq<char>,
    change: spec_fn(InstallSessionView) -> Option<InstallSessionView>,
) -> (Sessions, bool) {
    let becomes = becoming(s, install_id, change);
    (with_session(s, install_id, becomes), becomes is Some)
}

/// The sessions once progress has been sent to one, and whether it took the progress in.
pub open spec fn record_emitted(
    s: Sessions,
    install_id: Seq<char>,
    record: InstallProgressRecordView,
) -> (Sessions, bool) {
    changed(s, install_id, progressing(record))
}

/// The sessions once one has been ended, and whether it has.
pub open spec fn finished(s: Sessions, install_id: Seq<char>, progress: DownloadProgressView) -> (
    Sessions,
    bool,
) {
    record_emitted(s, install_id, plain_record(last_progress(progress)))
}

/// The sessions once the end of one has been reserved, and whether it has.
pub open spec fn end_reserved(s: Sessions, install_id: Seq<char>) -> (Sessions, bool) {
    changed(s, install_id, reserving_the_end())
}

/// The sessions once one whose end is reserved has ended, and whether it has.
pub open spec fn reserved_finished(
    s: Sessions,
    install_id: Seq<char>,
    progress: DownloadProgressView,
) -> (Sessions, bool) {
    changed(s, install_id, ending(progress))
}

/// The sessions once the reserved end of one has been given up.
pub open spec fn end_given_up(s: Sessions, install_id: Seq<char>) -> Sessions {
    changed(s, install_id, giving_the_end_up()).0
}

/// The sessions once one is prepared, and whether there is one.
pub open spec fn initialized(s: Sessions, install_id: Seq<char>) -> (Sessions, bool) {
    changed(s, install_id, initializing_done())
}

/// The sessions once the preparation of one is being reconciled, and whether it is.
pub open spec fn initialization_reconciled(s: Sessions, install_id: Seq<char>) -> (Sessions, bool) {
    changed(s, install_id, reconciling_initialization())
}

/// How far the preparation of a session has got; `None` while it goes on.
pub open spec fn preparation_of(s: Sessions, install_id: Seq<char>) -> Option<
    InstallInitializationStatus,
> {
    match session_of(s, install_id) {
        None => Some(InstallInitializationStatus::Removed),
        Some(session) => if session.initialization_reconciling {
            Some(InstallInitializationStatus::Reconciling)
        } else if session.initializing {
            None
        } else {
            Some(InstallInitializationStatus::Initialized)
        },
    }
}

/// What is shown of the session of this identity.
pub open spec fn snapshot_of(s: Sessions, install_id: Seq<char>) -> Option<InstallSnapshotView> {
    match session_of(s, install_id) {
        Some(session) => Some(shown(session)),
        None => None,
    }
}

/// The sessions once one has been removed, and whether there was one.
pub open spec fn session_removed(s: Sessions, install_id: Seq<char>) -> (Sessions, bool) {
    if session_of(s, install_id) is Some {
        (s.remove(first_place(s, named(install_id))), true)
    } else {
        (s, false)
    }
}

/// A session that has ended takes nothing in any more.
pub proof fn ended_sessions_stay_as_they_are(
    session: InstallSessionView,
    record: InstallProgressRecordView,
)
    requires
        session.done,
    ensures
        progressing(record)(session) is None,
        reserving_the_end()(session) is None,
        ending(record.progress)(session) is None,
{
}

/// While the end of a session is reserved, it takes no progress in and its end cannot be reserved
/// again. It then ends, or it is as it was before.
pub proof fn reserved_end_is_exclusive(
    session: InstallSessionView,
    record: InstallProgressRecordView,
)
    requires
        reserving_the_end()(session) is Some,
    ensures
        ({
            let reserved = reserving_the_end()(session)->0;
            &&& progressing(record)(reserved) is None
            &&& reserving_the_end()(reserved) is None
            &&& ending(record.progress)(session) is None
            &&& ending(record.progress)(reserved) matches Some(ended) && ended.done
            &&& giving_the_end_up()(reserved) == Some(session)
        }),
{
}

proof fn live_sessions_are_apart(s: Sessions)
    requires
        sessions_are_apart(s),
    ensures
        sessions_are_apart(live_sessions(s)),
        forall|i: int| 0 <= i < live_sessions(s).len() ==> !(#[trigger] live_sessions(s)[i]).done,
    decreases s.len(),
{
    kept_are(s, live());
    assert forall|i: int| 0 <= i < live_sessions(s).len() implies !(#[trigger] live_sessions(
        s,
    )[i]).done by {
        assert(live()(live_sessions(s)[i]));
    }
    if s.len() > 0 {
        let rest = s.drop_last();
        assert(sessions_are_apart(rest));
        live_sessions_are_apart(rest);
        kept_are(rest, live());
        let r = live_sessions(rest);
        let k = live_sessions(s);
        assert forall|i: int, j: int| 0 <= i < j < k.len() implies (#[trigger] k[i]).install_id != (
        #[trigger] k[j]).install_id && k[i].operation_id != k[j].operation_id by {
            assert(k[i] == r[i]);
            if j == r.len() {
                let a = choose|a: int| 0 <= a < rest.len() && rest[a] == r[i];
                assert(s[a] == r[i]);
                assert(k[j] == s[s.len() - 1]);
            } else {
                assert(k[j] == r[j]);
            }
        }
    }
}

proof fn pushed_sessions_are_apart(s: Sessions, session: InstallSessionView)
    requires
        sessions_are_apart(s),
        session_of(s, session.install_id) is None,
        !uses_operation(s, session.operation_id),
    ensures
        sessions_are_apart(s.push(session)),
{
    first_place_found(s, named(session.install_id));
    assert forall|i: int| 0 <= i < s.len() implies (#[trigger] s[i]).install_id
        != session.install_id && s[i].operation_id != session.operation_id by {
        assert(!named(session.install_id)(s[i]));
    }
}

/// However sessions are asked for, no two of them share their identity or their operation.
pub proof fn admission_keeps_sessions_apart(
    s: Sessions,
    install_id: Seq<char>,
    operation_id: OperationId,
    key: InstallKeyView,
    initializing: bool,
    now_ms: u64,
)
    requires
        sessions_are_apart(s),
    ensures
        sessions_are_apart(live_sessions(s)),
        sessions_are_apart(admitted(s, install_id, operation_id, now_ms).0),
        sessions_are_apart(
            key_admitted(s, install_id, operation_id, key, initializing, now_ms).0,
        ),
        sessions_are_apart(admitted_or_existing(s, install_id, operation_id, key, now_ms).0),
{
    let left = live_sessions(s);
    live_sessions_are_apart(s);
    if session_of(left, install_id) is None && !uses_operation(left, operation_id) {
        pushed_sessions_are_apart(left, new_session(install_id, operation_id, None, false, now_ms));
        pushed_sessions_are_apart(
            left,
            new_session(install_id, operation_id, Some(key), initializing, now_ms),
        );
        pushed_sessions_are_apart(
            left,
            new_session(install_id, operation_id, Some(key), true, now_ms),
        );
    }
}

proof fn changed_sessions_are_apart(s: Sessions, place: int, session: InstallSessionView)
    requires
        sessions_are_apart(s),
        0 <= place < s.len(),
        session.install_id == s[place].install_id,
        session.operation_id == s[place].operation_id,
    ensures
        sessions_are_apart(s.update(place, session)),
{
    let after = s.update(place, session);
    assert forall|i: int, j: int| 0 <= i < j < after.len() implies (#[trigger] after[i]).install_id
        != (#[trigger] after[j]).install_id && after[i].operation_id != after[j].operation_id by {
        assert(s[i].install_id != s[j].install_id);
    }
}

impl InstallSessions {
    #[verifier::type_invariant]
    spec fn apart(self) -> bool {
        sessions_are_apart(views(self.list@))
    }

    /// No sessions.
    pub fn new() -> (r: InstallSessions)
        ensures
            r@ == Seq::<InstallSessionView>::empty(),
    {
        let list: Vec<InstallSession> = Vec::new();
        assert(views(list@) =~= Seq::empty());
        InstallSessions { list }
    }

    /// The number of sessions. No two of them share their identity or their operation.
    pub fn len(&self) -> (r: usize)
        ensures
            r == self@.len(),
            sessions_are_apart(self@),
    {
        proof {
            use_type_invariant(self);
        }
        self.list.len()
    }

    /// The session at a place.
    pub fn at(&self, i: usize) -> (r: &InstallSession)
        requires
            i < self@.len(),
        ensures
            r@ == self@[i as int],
    {
        &self.list[i]
    }

    /// The place of the session of this identity; the number of sessions where there is none.
    pub fn place(&self, install_id: &str) -> (r: usize)
        ensures
            r == first_place(self@, named(install_id@)),
            r <= self@.len(),
    {
        let mut i: usize = 0;
        while i < self.list.len()
            invariant
                i <= self.list.len(),
                forall|k: int| 0 <= k < i ==> !named(install_id@)(#[trigger] self@[k]),
            decreases self.list.len() - i,
        {
            assert(self@[i as int] == self.list@[i as int]@);
            if same_text(self.list[i].install_id.as_str(), install_id) {
                proof {
                    first_place_is(self@, named(install_id@), i as int);
                }
                return i;
            }
            i = i + 1;
        }
        proof {
            first_place_is(self@, named(install_id@), i as int);
        }
        i
    }

    /// The session of this identity.
    pub fn get(&self, install_id: &str) -> (r: Option<&InstallSession>)
        ensures
            opt_view(r) == session_of(self@, install_id@),
    {
        let place: usize = self.place(install_id);
        if place < self.list.len() {
            Some(&self.list[place])
        } else {
            None
        }
    }

    /// The place of the first session that has not ended and installs this; the number of sessions
    /// where there is none.
    pub fn place_installing(&self, key: &InstallKey) -> (r: usize)
        ensures
            r == first_place(self@, installing(key@)),
            r <= self@.len(),
    {
        let mut i: usize = 0;
        while i < self.list.len()
            invariant
                i <= self.list.len(),
                forall|k: int| 0 <= k < i ==> !installing(key@)(#[trigger] self@[k]),
            decreases self.list.len() - i,
        {
            assert(self@[i as int] == self.list@[i as int]@);
            let found = !self.list[i].done && match &self.list[i].key {
                Some(other) => other.same(key),
                None => false,
            };
            if found {
                proof {
                    first_place_is(self@, installing(key@), i as int);
                }
                return i;
            }
            i = i + 1;
        }
        proof {
            first_place_is(self@, installing(key@), i as int);
        }
        i
    }

    /// Whether a session carries this operation out.
    pub fn contains_operation_id(&self, operation_id: &OperationId) -> (r: bool)
        ensures
            r == uses_operation(self@, *operation_id),
    {
        let mut i: usize = 0;
        while i < self.list.len()
            invariant
                i <= self.list.len(),
                forall|k: int| 0 <= k < i ==> (#[trigger] self@[k]).operation_id != *operation_id,
            decreases self.list.len() - i,
        {
            assert(self@[i as int] == self.list@[i as int]@);
            if self.list[i].operation_id == *operation_id {
                return true;
            }
            i = i + 1;
        }
        false
    }

    /// How many sessions have not ended.
    pub fn active_install_count(&self) -> (r: usize)
        ensures
            r == live_sessions(self@).len(),
    {
        let mut r: usize = 0;
        let mut i: usize = 0;
        assert(self@.subrange(0, 0) =~= Seq::empty());
        while i < self.list.len()
            invariant
                i <= self.list.len(),
                r <= i,
                r == live_sessions(self@.subrange(0, i as int)).len(),
            decreases self.list.len() - i,
        {
            let ghost upto = self@.subrange(0, i + 1);
            assert(upto.drop_last() =~= self@.subrange(0, i as int));
            assert(upto.last() == self.list@[i as int]@);
            if !self.list[i].done {
                r = r + 1;
            }
            i = i + 1;
        }
        assert(self@.subrange(0, self@.len() as int) =~= self@);
        r
    }

    /// Whether a session has not ended.
    pub fn any_live(&self) -> (r: bool)
        ensures
            r == (live_sessions(self@).len() > 0),
    {
        self.active_install_count() > 0
    }

    /// Lets sessions that have ended leave.
    pub fn prune_done(&mut self)
        ensures
            final(self)@ == live_sessions(old(self)@),
            sessions_are_apart(final(self)@),
    {
        proof {
            use_type_invariant(&*self);
            live_sessions_are_apart(self@);
        }
        let ghost all = self@;
        let mut left: Vec<InstallSession> = Vec::new();
        let mut i: usize = 0;
        assert(all.subrange(0, 0) =~= Seq::empty());
        assert(views(left@) =~= Seq::empty());
        while i < self.list.len()
            invariant
                i <= self.list.len(),
                all == self@,
                all == old(self)@,
                views(left@) == live_sessions(all.subrange(0, i as int)),
            decreases self.list.len() - i,
        {
            let ghost upto = all.subrange(0, i + 1);
            assert(upto.drop_last() =~= all.subrange(0, i as int));
            assert(upto.last() == self.list@[i as int]@);
            if !self.list[i].done {
                let ghost held = views(left@);
                left.push(self.list[i].duplicate());
                assert(views(left@) =~= held.push(upto.last()));
            }
            i = i + 1;
        }
        assert(all.subrange(0, all.len() as int) =~= all);
        self.list = left;
    }

    /// Adds a session that has just begun.
    pub fn begin(
        &mut self,
        install_id: String,
        operation_id: OperationId,
        key: Option<InstallKey>,
        initializing: bool,
        now_ms: u64,
    )
        requires
            session_of(old(self)@, install_id@) is None,
            !uses_operation(old(self)@, operation_id),
        ensures
            final(self)@ == old(self)@.push(
                new_session(install_id@, operation_id, opt_view(key), initializing, now_ms),
            ),
    {
        proof {
            use_type_invariant(&*self);
        }
        let ghost all = self@;
        let session = InstallSession {
            install_id,
            operation_id,
            key,
            started_at_ms: now_ms,
            latest: None,
            done: false,
            initializing,
            initialization_reconciling: false,
            terminalizing: false,
        };
        proof {
            pushed_sessions_are_apart(all, session@);
        }
        let mut list = list_duplicate(&self.list);
        list.push(session);
        assert(views(list@) =~= all.push(session@));
        self.list = list;
    }

    fn change(&mut self, place: usize, session: InstallSession)
        requires
            place < old(self)@.len(),
            session@.install_id == old(self)@[place as int].install_id,
            session@.operation_id == old(self)@[place as int].operation_id,
        ensures
            final(self)@ == old(self)@.update(place as int, session@),
    {
        proof {
            use_type_invariant(&*self);
            changed_sessions_are_apart(self@, place as int, session@);
        }
        let ghost all = self@;
        let mut list = list_duplicate(&self.list);
        assert(list.len() == all.len());
        list.set(place, session);
        assert(views(list@) =~= all.update(place as int, session@));
        self.list = list;
    }

    /// Admits a session that installs nothing in particular.
    pub fn admit_install(&mut self, install_id: String, operation_id: OperationId, now_ms: u64) -> (r: Result<
        (),
        InstallAdmissionError,
    >)
        ensures
            (final(self)@, r) == admitted(old(self)@, install_id@, operation_id, now_ms),
    {
        self.prune_done();
        match self.get(install_id.as_str()) {
            Some(existing) => {
                return if existing.operation_id == operation_id && existing.key.is_none() {
                    Ok(())
                } else {
                    Err(InstallAdmissionError::InstallIdCollision)
                };
            },
            None => {},
        }
        if self.contains_operation_id(&operation_id) {
            return Err(InstallAdmissionError::OperationIdCollision);
        }
        self.begin(install_id, operation_id, None, false, now_ms);
        Ok(())
    }

    /// Admits a session that installs this.
    pub fn admit_key(
        &mut self,
        install_id: String,
        operation_id: OperationId,
        key: InstallKey,
        initializing: bool,
        now_ms: u64,
    ) -> (r: Result<(), InstallAdmissionError>)
        ensures
            (final(self)@, r) == key_admitted(
                old(self)@,
                install_id@,
                operation_id,
                key@,
                initializing,
                now_ms,
            ),
    {
        self.prune_done();
        if self.get(install_id.as_str()).is_some() {
            return Err(InstallAdmissionError::InstallIdCollision);
        }
        if self.contains_operation_id(&operation_id) {
            return Err(InstallAdmissionError::OperationIdCollision);
        }
        self.begin(install_id, operation_id, Some(key), initializing, now_ms);
        Ok(())
    }

    /// Admits a session that installs this, unless there is one that has not ended.
    pub fn admit_or_existing(
        &mut self,
        install_id: String,
        operation_id: OperationId,
        key: InstallKey,
        now_ms: u64,
    ) -> (r: Result<(String, bool), InstallAdmissionError>)
        ensures
            (
                final(self)@,
                match r {
                    Ok((id, inserted)) => Ok((id@, inserted)),
                    Err(error) => Err(error),
                },
            ) == admitted_or_existing(old(self)@, install_id@, operation_id, key@, now_ms),
    {
        let ghost all = self@;
        self.prune_done();
        let place: usize = self.place_installing(&key);
        if place < self.list.len() {
            return Ok((self.list[place].install_id.duplicate(), false));
        }
        if self.get(install_id.as_str()).is_some() {
            return Err(InstallAdmissionError::InstallIdCollision);
        }
        if self.contains_operation_id(&operation_id) {
            return Err(InstallAdmissionError::OperationIdCollision);
        }
        let id = install_id.duplicate();
        self.begin(install_id, operation_id, Some(key), true, now_ms);
        Ok((id, true))
    }

    /// Takes progress in. Returns whether the session took it.
    pub fn emit_record(&mut self, install_id: &str, record: InstallProgressRecord) -> (r: bool)
        ensures
            (final(self)@, r) == record_emitted(old(self)@, install_id@, record@),
    {
        let place: usize = self.place(install_id);
        if place == self.list.len() {
            return false;
        }
        let mut session = self.list[place].duplicate();
        if session.done || session.terminalizing {
            return false;
        }
        session.done = record.progress.done;
        session.latest = Some(record);
        self.change(place, session);
        true
    }

    /// Ends a session. Returns whether it did: one that has ended, or whose end is reserved, does not.
    pub fn finish_if_active(&mut self, install_id: &str, progress: DownloadProgress) -> (r: bool)
        ensures
            (final(self)@, r) == finished(old(self)@, install_id@, progress@),
    {
        let mut progress = progress;
        progress.done = true;
        self.emit_record(install_id, InstallProgressRecord::new(progress))
    }

    /// Reserves the end of a session. Returns whether it did.
    pub fn reserve_terminal_if_active(&mut self, install_id: &str) -> (r: bool)
        ensures
            (final(self)@, r) == end_reserved(old(self)@, install_id@),
    {
        let place: usize = self.place(install_id);
        if place == self.list.len() {
            return false;
        }
        let mut session = self.list[place].duplicate();
        if session.done || session.terminalizing {
            return false;
        }
        session.terminalizing = true;
        self.change(place, session);
        true
    }

    /// Ends a session whose end is reserved. Returns whether it did.
    pub fn finish_reserved(&mut self, install_id: &str, progress: DownloadProgress) -> (r: bool)
        ensures
            (final(self)@, r) == reserved_finished(old(self)@, install_id@, progress@),
    {
        let place: usize = self.place(install_id);
        if place == self.list.len() {
            return false;
        }
        let mut session = self.list[place].duplicate();
        if session.done || !session.terminalizing {
            return false;
        }
        let mut progress = progress;
        progress.done = true;
        session.terminalizing = false;
        session.done = true;
        session.latest = Some(InstallProgressRecord::new(progress));
        self.change(place, session);
        true
    }

    /// Gives the reserved end of a session up.
    pub fn cancel_reserved_terminal(&mut self, install_id: &str)
        ensures
            final(self)@ == end_given_up(old(self)@, install_id@),
    {
        let place: usize = self.place(install_id);
        if place < self.list.len() {
            let mut session = self.list[place].duplicate();
            session.terminalizing = false;
            self.change(place, session);
        }
    }

    /// Takes note that a session is prepared. Returns whether there is one.
    pub fn mark_initialized(&mut self, install_id: &str) -> (r: bool)
        ensures
            (final(self)@, r) == initialized(old(self)@, install_id@),
    {
        let place: usize = self.place(install_id);
        if place == self.list.len() {
            return false;
        }
        let mut session = self.list[place].duplicate();
        session.initializing = false;
        session.initialization_reconciling = false;
        self.change(place, session);
        true
    }

    /// Takes note that the preparation of a session is being reconciled. Returns whether one is being
    /// prepared.
    pub fn mark_initialization_reconciling(&mut self, install_id: &str) -> (r: bool)
        ensures
            (final(self)@, r) == initialization_reconciled(old(self)@, install_id@),
    {
        let place: usize = self.place(install_id);
        if place == self.list.len() {
            return false;
        }
        let mut session = self.list[place].duplicate();
        if !session.initializing {
            return false;
        }
        session.initialization_reconciling = true;
        self.change(place, session);
        true
    }

    /// How far the preparation of a session has got; `None` while it goes on.
    pub fn initialization_status(&self, install_id: &str) -> (r: Option<
        InstallInitializationStatus,
    >)
        ensures
            r == preparation_of(self@, install_id@),
    {
        match self.get(install_id) {
            None => Some(InstallInitializationStatus::Removed),
            Some(session) => if session.initialization_reconciling {
                Some(InstallInitializationStatus::Reconciling)
            } else if session.initializing {
                None
            } else {
                Some(InstallInitializationStatus::Initialized)
            },
        }
    }

    /// What is shown of a session.
    pub fn snapshot(&self, install_id: &str) -> (r: Option<InstallSnapshot>)
        ensures
            opt_view(r) == snapshot_of(self@, install_id@),
    {
        match self.get(install_id) {
            Some(session) => Some(
                InstallSnapshot {
                    operation_id: session.operation_id,
                    latest: opt_duplicate(&session.latest),
                    done: session.done,
                    loader_install: match &session.key {
                        Some(InstallKey::Loader { .. }) => true,
                        _ => false,
                    },
                },
            ),
            None => None,
        }
    }

    /// Removes a session. Returns whether there was one.
    pub fn remove(&mut self, install_id: &str) -> (r: bool)
        ensures
            (final(self)@, r) == session_removed(old(self)@, install_id@),
    {
        proof {
            use_type_invariant(&*self);
        }
        let ghost all = self@;
        let place: usize = self.place(install_id);
        if place == self.list.len() {
            return false;
        }
        let mut list = list_duplicate(&self.list);
        assert(list.len() == all.len());
        list.remove(place);
        proof {
            let rest = all.remove(place as int);
            assert(views(list@) =~= rest);
            assert forall|i: int, j: int| 0 <= i < j < rest.len() implies (
            #[trigger] rest[i]).install_id != (#[trigger] rest[j]).install_id
                && rest[i].operation_id != rest[j].operation_id by {
                let a = if i < place { i } else { i + 1 };
                let b = if j < place { j } else { j + 1 };
                assert(rest[i] == all[a]);
                assert(rest[j] == all[b]);
            }
        }
        self.list = list;
        true
    }
}

} // verus!

//! The queue of installations: one request has the lane, others wait, and the outcomes of those that
//! ended are remembered.

use crate::install_types::{
    ActiveQueuedInstallEntry, ActiveQueuedInstallEntryView, InstallQueueEnqueueOutcome,
    InstallQueueEnqueueOutcomeView, InstallQueuePlacement, InstallQueueSnapshot,
    InstallQueueSnapshotView, InstallQueueSpec, InstallQueueSpecView,
    InstallQueueStartFailureDisposition, InstallQueueStartFailureDispositionView,
    InstallQueueStartReconciliation, InstallQueueStartReconciliationView, LoaderComponentId,
    QueueOutcome, QueueOutcomeView, QueuedInstallEntry, QueuedInstallEntryView,
};
use crate::places::{first_place, first_place_found, first_place_is, kept, kept_are};
use crate::record::{list_duplicate, opt_duplicate, opt_view, views, Record};
use crate::text::{same_text, trim, trimmed};
use vstd::prelude::*;

verus! {

/// How many outcomes are remembered, unless more are needed.
pub const MAX_COMPLETED_QUEUE_OUTCOMES: usize = 256;

/// What a request is about: the version that is installed, or the instance whose content is changed.
pub open spec fn target_of(spec: InstallQueueSpecView) -> Seq<char> {
    match spec {
        InstallQueueSpecView::Vanilla { version_id } => version_id,
        InstallQueueSpecView::Loader { target_version_id, .. } => target_version_id,
        InstallQueueSpecView::Content { instance_id, .. } => instance_id,
    }
}

/// The request that stands for what was asked.
pub open spec fn stands_for(outcome: InstallQueueEnqueueOutcomeView) -> Seq<char> {
    match outcome {
        InstallQueueEnqueueOutcomeView::Enqueued { queue_id } => queue_id,
        InstallQueueEnqueueOutcomeView::AlreadyActive { queue_id } => queue_id,
        InstallQueueEnqueueOutcomeView::AlreadyQueued { queue_id } => queue_id,
        InstallQueueEnqueueOutcomeView::MovedToFront { queue_id } => queue_id,
    }
}

/// When the session of the active request began; `None` where another request has the lane.
pub open spec fn begun_at(q: InstallQueueView, queue_id: Seq<char>) -> Option<Option<u64>> {
    match q.active {
        Some(active) => if active.queue_id == queue_id {
            Some(active.install_started_at_ms)
        } else {
            None
        },
        None => None,
    }
}

impl InstallQueueSpec {
    /// The request for a version of the game.
    pub fn vanilla(version_id: String) -> (r: InstallQueueSpec)
        ensures
            r@ == (InstallQueueSpecView::Vanilla { version_id: trimmed(version_id@) }),
    {
        InstallQueueSpec::Vanilla { version_id: trim(version_id.as_str()).to_owned() }
    }

    /// The request for a mod loader.
    pub fn loader(
        component_id: LoaderComponentId,
        build_id: String,
        target_version_id: String,
        minecraft_version: String,
        loader_version: String,
    ) -> (r: InstallQueueSpec)
        ensures
            r@ == (InstallQueueSpecView::Loader {
                component_id,
                build_id: trimmed(build_id@),
                target_version_id: trimmed(target_version_id@),
                minecraft_version: trimmed(minecraft_version@),
                loader_version: trimmed(loader_version@),
            }),
    {
        InstallQueueSpec::Loader {
            component_id,
            build_id: trim(build_id.as_str()).to_owned(),
            target_version_id: trim(target_version_id.as_str()).to_owned(),
            minecraft_version: trim(minecraft_version.as_str()).to_owned(),
            loader_version: trim(loader_version.as_str()).to_owned(),
        }
    }

    /// What the request is about: the version that is installed, or the instance whose content is
    /// changed.
    pub fn target_version_id(&self) -> (r: &str)
        ensures
            r@ == target_of(self@),
    {
        match self {
            InstallQueueSpec::Vanilla { version_id } => version_id.as_str(),
            InstallQueueSpec::Loader { target_version_id, .. } => target_version_id.as_str(),
            InstallQueueSpec::Content { instance_id, .. } => instance_id.as_str(),
        }
    }

    /// Whether the request is for a mod loader.
    pub fn is_loader(&self) -> (r: bool)
        ensures
            r == (self@ is Loader),
    {
        match self {
            InstallQueueSpec::Loader { .. } => true,
            _ => false,
        }
    }

    /// Whether the request is about the content of an instance.
    pub fn is_content(&self) -> (r: bool)
        ensures
            r == (self@ is Content),
    {
        match self {
            InstallQueueSpec::Content { .. } => true,
            _ => false,
        }
    }
}

impl InstallQueueEnqueueOutcome {
    /// The request that stands for what was asked.
    pub fn queue_id(&self) -> (r: &str)
        ensures
            r@ == stands_for(self@),
    {
        match self {
            InstallQueueEnqueueOutcome::Enqueued { queue_id } => queue_id.as_str(),
            InstallQueueEnqueueOutcome::AlreadyActive { queue_id } => queue_id.as_str(),
            InstallQueueEnqueueOutcome::AlreadyQueued { queue_id } => queue_id.as_str(),
            InstallQueueEnqueueOutcome::MovedToFront { queue_id } => queue_id.as_str(),
        }
    }
}

/// The queue of installations.
pub struct InstallQueue {
    active: Option<ActiveQueuedInstallEntry>,
    pending: Vec<QueuedInstallEntry>,
    outcomes: Vec<QueueOutcome>,
}

/// The model of [`InstallQueue`].
pub struct InstallQueueView {
    pub active: Option<ActiveQueuedInstallEntryView>,
    pub pending: Seq<QueuedInstallEntryView>,
    /// The outcomes that are remembered, the oldest first.
    pub outcomes: Seq<QueueOutcomeView>,
}

impl View for InstallQueue {
    type V = InstallQueueView;

    closed spec fn view(&self) -> InstallQueueView {
        InstallQueueView {
            active: opt_view(self.active),
            pending: views(self.pending@),
            outcomes: views(self.outcomes@),
        }
    }
}

/// Whether no two waiting requests ask for the same.
pub open spec fn requests_differ(pending: Seq<QueuedInstallEntryView>) -> bool {
    forall|i: int, j: int|
        0 <= i < j < pending.len() ==> (#[trigger] pending[i]).spec != (#[trigger] pending[j]).spec
}

/// Whether no waiting request asks for this.
pub open spec fn nobody_asks(
    pending: Seq<QueuedInstallEntryView>,
    spec: InstallQueueSpecView,
) -> bool {
    forall|i: int| 0 <= i < pending.len() ==> (#[trigger] pending[i]).spec != spec
}

/// Whether each request has at most one outcome.
pub open spec fn outcomes_differ(outcomes: Seq<QueueOutcomeView>) -> bool {
    forall|i: int, j: int|
        0 <= i < j < outcomes.len() ==> (#[trigger] outcomes[i]).queue_id != (
        #[trigger] outcomes[j]).queue_id
}

/// What holds of a queue at all times: no two of its requests ask for the same, and each request that
/// has ended has one outcome.
pub open spec fn queue_is_sound(q: InstallQueueView) -> bool {
    &&& requests_differ(q.pending)
    &&& q.active matches Some(active) ==> nobody_asks(q.pending, active.spec)
    &&& outcomes_differ(q.outcomes)
}

/// Asks for this.
pub open spec fn asking_for(spec: InstallQueueSpecView) -> spec_fn(QueuedInstallEntryView) -> bool {
    |entry: QueuedInstallEntryView| entry.spec == spec
}

/// Is the request of this identity.
pub open spec fn queued_as(queue_id: Seq<char>) -> spec_fn(QueuedInstallEntryView) -> bool {
    |entry: QueuedInstallEntryView| entry.queue_id == queue_id
}

/// Is the outcome of this request.
pub open spec fn outcome_for(queue_id: Seq<char>) -> spec_fn(QueueOutcomeView) -> bool {
    |outcome: QueueOutcomeView| outcome.queue_id == queue_id
}

/// Is the outcome of another request.
pub open spec fn outcome_for_others(queue_id: Seq<char>) -> spec_fn(QueueOutcomeView) -> bool {
    |outcome: QueueOutcomeView| outcome.queue_id != queue_id
}

/// Whether a request waits for the outcome of another one.
pub open spec fn depends_on(spec: InstallQueueSpecView, queue_id: Seq<char>) -> bool {
    spec matches InstallQueueSpecView::Content { prerequisite_queue_id, .. }
        && prerequisite_queue_id == Some(queue_id)
}

/// Whether some request of the queue depends on the outcome of this one.
pub open spec fn is_referenced(q: InstallQueueView, queue_id: Seq<char>) -> bool {
    ||| q.active matches Some(active) && depends_on(active.spec, queue_id)
    ||| exists|i: int| 0 <= i < q.pending.len() && depends_on((#[trigger] q.pending[i]).spec, queue_id)
}

/// Is an outcome that no request of the queue depends on.
pub open spec fn unreferenced(q: InstallQueueView) -> spec_fn(QueueOutcomeView) -> bool {
    |outcome: QueueOutcomeView| !is_referenced(q, outcome.queue_id)
}

/// The outcomes that stay: while there are too many, the oldest that no request depends on leaves.
pub open spec fn outcomes_pruned(
    outcomes: Seq<QueueOutcomeView>,
    disposable: spec_fn(QueueOutcomeView) -> bool,
) -> Seq<QueueOutcomeView>
    decreases outcomes.len(),
{
    let place = first_place(outcomes, disposable);
    if outcomes.len() <= MAX_COMPLETED_QUEUE_OUTCOMES || !(0 <= place < outcomes.len()) {
        outcomes
    } else {
        outcomes_pruned(outcomes.remove(place), disposable)
    }
}

/// The queue once outcomes that are not needed any more have left.
pub open spec fn pruned_queue(q: InstallQueueView) -> InstallQueueView {
    InstallQueueView { outcomes: outcomes_pruned(q.outcomes, unreferenced(q)), ..q }
}

/// The queue once an outcome has been recorded.
pub open spec fn outcome_recorded(
    q: InstallQueueView,
    queue_id: Seq<char>,
    succeeded: bool,
) -> InstallQueueView {
    pruned_queue(
        InstallQueueView {
            outcomes: kept(q.outcomes, outcome_for_others(queue_id)).push(
                QueueOutcomeView { queue_id, succeeded },
            ),
            ..q
        },
    )
}

/// The outcome of a request, if it is remembered.
pub open spec fn outcome_of(q: InstallQueueView, queue_id: Seq<char>) -> Option<bool> {
    let place = first_place(q.outcomes, outcome_for(queue_id));
    if 0 <= place < q.outcomes.len() {
        Some(q.outcomes[place].succeeded)
    } else {
        None
    }
}

/// What becomes of a request for the queue.
pub open spec fn enqueued(
    q: InstallQueueView,
    queue_id: Seq<char>,
    spec: InstallQueueSpecView,
    placement: InstallQueuePlacement,
) -> (InstallQueueView, InstallQueueEnqueueOutcomeView) {
    let place = first_place(q.pending, asking_for(spec));
    let entry = QueuedInstallEntryView { queue_id, spec };
    if q.active matches Some(active) && active.spec == spec {
        (
            q,
            InstallQueueEnqueueOutcomeView::AlreadyActive {
                queue_id: q.active->0.queue_id,
            },
        )
    } else if 0 <= place < q.pending.len() {
        if placement == InstallQueuePlacement::Front && place > 0 {
            (
                InstallQueueView {
                    pending: seq![q.pending[place]] + q.pending.remove(place),
                    ..q
                },
                InstallQueueEnqueueOutcomeView::MovedToFront {
                    queue_id: q.pending[place].queue_id,
                },
            )
        } else {
            (
                q,
                InstallQueueEnqueueOutcomeView::AlreadyQueued {
                    queue_id: q.pending[place].queue_id,
                },
            )
        }
    } else {
        (
            InstallQueueView {
                pending: match placement {
                    InstallQueuePlacement::Back => q.pending.push(entry),
                    InstallQueuePlacement::Front => seq![entry] + q.pending,
                },
                ..q
            },
            InstallQueueEnqueueOutcomeView::Enqueued { queue_id },
        )
    }
}

/// The queue once the first waiting request has the lane; `None` where the lane is taken or nobody
/// waits.
pub open spec fn lane_given(q: InstallQueueView) -> Option<(InstallQueueView, QueuedInstallEntryView)> {
    if q.active is Some || q.pending.len() == 0 {
        None
    } else {
        Some(
            (
                InstallQueueView {
                    active: Some(
                        ActiveQueuedInstallEntryView {
                            queue_id: q.pending[0].queue_id,
                            install_id: None,
                            install_started_at_ms: None,
                            spec: q.pending[0].spec,
                        },
                    ),
                    pending: q.pending.subrange(1, q.pending.len() as int),
                    ..q
                },
                q.pending[0],
            ),
        )
    }
}

/// Whether the lane belongs to this request and no session has begun for it.
pub open spec fn is_unlinked(q: InstallQueueView, queue_id: Seq<char>) -> bool {
    q.active matches Some(active) && active.queue_id == queue_id && active.install_id is None
}

/// Whether the lane belongs to the request that this session carries out.
pub open spec fn is_linked(q: InstallQueueView, install_id: Seq<char>) -> bool {
    q.active matches Some(active) && active.install_id == Some(install_id)
}

/// The queue once the active request has been put back at the head.
pub open spec fn lane_returned(q: InstallQueueView) -> InstallQueueView
    recommends
        q.active is Some,
{
    let active = q.active->0;
    InstallQueueView {
        active: None,
        pending: seq![QueuedInstallEntryView { queue_id: active.queue_id, spec: active.spec }]
            + q.pending,
        ..q
    }
}

/// The queue once the active request has ended.
pub open spec fn lane_completed(q: InstallQueueView, succeeded: bool) -> InstallQueueView
    recommends
        q.active is Some,
{
    outcome_recorded(InstallQueueView { active: None, ..q }, q.active->0.queue_id, succeeded)
}

/// What becomes of the request that this session carries out, once it has ended.
pub open spec fn session_completed(
    q: InstallQueueView,
    install_id: Seq<char>,
    succeeded: bool,
) -> (InstallQueueView, Option<ActiveQueuedInstallEntryView>) {
    if is_linked(q, install_id) {
        (lane_completed(q, succeeded), q.active)
    } else {
        (q, None)
    }
}

/// What becomes of a request for which no session has begun, once it has ended.
pub open spec fn reservation_completed(
    q: InstallQueueView,
    queue_id: Seq<char>,
    succeeded: bool,
) -> (InstallQueueView, Option<ActiveQueuedInstallEntryView>) {
    if is_unlinked(q, queue_id) {
        (lane_completed(q, succeeded), q.active)
    } else {
        (q, None)
    }
}

/// What becomes of a request whose start failed.
pub open spec fn start_failure_settled(q: InstallQueueView, queue_id: Seq<char>) -> (
    InstallQueueView,
    InstallQueueStartFailureDispositionView,
) {
    match q.active {
        Some(active) => if active.queue_id == queue_id {
            match active.install_id {
                Some(install_id) => (
                    q,
                    InstallQueueStartFailureDispositionView::Started { install_id },
                ),
                None => (
                    lane_completed(q, false),
                    InstallQueueStartFailureDispositionView::CompletedUnlinked,
                ),
            }
        } else {
            (q, InstallQueueStartFailureDispositionView::Settled)
        },
        None => (q, InstallQueueStartFailureDispositionView::Settled),
    }
}

/// Whether the lane belongs to this request and this session carries it out.
pub open spec fn is_started(q: InstallQueueView, queue_id: Seq<char>, install_id: Seq<char>) -> bool {
    q.active matches Some(active) && active.queue_id == queue_id && active.install_id == Some(
        install_id,
    )
}

/// What becomes of the active request when it is parted from its session.
pub open spec fn start_parted(
    q: InstallQueueView,
    queue_id: Seq<char>,
    install_id: Seq<char>,
) -> (InstallQueueView, bool) {
    if is_started(q, queue_id, install_id) {
        (
            InstallQueueView {
                active: Some(
                    ActiveQueuedInstallEntryView {
                        install_id: None,
                        install_started_at_ms: None,
                        ..q.active->0
                    },
                ),
                ..q
            },
            true,
        )
    } else {
        (q, false)
    }
}

/// What becomes of a request whose start was interrupted.
pub open spec fn start_reconciled(q: InstallQueueView, queue_id: Seq<char>) -> (
    InstallQueueView,
    InstallQueueStartReconciliationView,
) {
    match q.active {
        Some(active) => if active.queue_id == queue_id {
            match active.install_id {
                Some(install_id) => (
                    q,
                    InstallQueueStartReconciliationView::Started { install_id },
                ),
                None => (lane_returned(q), InstallQueueStartReconciliationView::Requeued),
            }
        } else {
            (q, InstallQueueStartReconciliationView::Settled)
        },
        None => (q, InstallQueueStartReconciliationView::Settled),
    }
}

/// What becomes of the active request when it is put back.
pub open spec fn lane_released(q: InstallQueueView, queue_id: Seq<char>) -> (InstallQueueView, bool) {
    if is_unlinked(q, queue_id) {
        (lane_returned(q), true)
    } else {
        (q, false)
    }
}

/// What becomes of the active request when it is dropped.
pub open spec fn lane_discarded(q: InstallQueueView, queue_id: Seq<char>) -> (
    InstallQueueView,
    bool,
) {
    if is_unlinked(q, queue_id) {
        (pruned_queue(InstallQueueView { active: None, ..q }), true)
    } else {
        (q, false)
    }
}

/// What becomes of a waiting request when it is taken out of the queue.
pub open spec fn request_removed(q: InstallQueueView, queue_id: Seq<char>) -> (
    InstallQueueView,
    Option<QueuedInstallEntryView>,
) {
    let place = first_place(q.pending, queued_as(queue_id));
    if 0 <= place < q.pending.len() {
        (
            pruned_queue(InstallQueueView { pending: q.pending.remove(place), ..q }),
            Some(q.pending[place]),
        )
    } else {
        (q, None)
    }
}

/// Outcomes of different requests stay apart when some are forgotten.
pub proof fn pruning_keeps_outcomes_apart(
    outcomes: Seq<QueueOutcomeView>,
    disposable: spec_fn(QueueOutcomeView) -> bool,
)
    requires
        outcomes_differ(outcomes),
    ensures
        outcomes_differ(outcomes_pruned(outcomes, disposable)),
    decreases outcomes.len(),
{
    let place = first_place(outcomes, disposable);
    if outcomes.len() > MAX_COMPLETED_QUEUE_OUTCOMES && 0 <= place < outcomes.len() {
        let rest = outcomes.remove(place);
        assert forall|i: int, j: int| 0 <= i < j < rest.len() implies (#[trigger] rest[i]).queue_id
            != (#[trigger] rest[j]).queue_id by {
            let a = if i < place { i } else { i + 1 };
            let b = if j < place { j } else { j + 1 };
            assert(rest[i] == outcomes[a]);
            assert(rest[j] == outcomes[b]);
        }
        pruning_keeps_outcomes_apart(rest, disposable);
    }
}

proof fn kept_outcomes_differ(outcomes: Seq<QueueOutcomeView>, queue_id: Seq<char>)
    requires
        outcomes_differ(outcomes),
    ensures
        outcomes_differ(kept(outcomes, outcome_for_others(queue_id))),
        forall|i: int|
            0 <= i < kept(outcomes, outcome_for_others(queue_id)).len() ==> (#[trigger] kept(
                outcomes,
                outcome_for_others(queue_id),
            )[i]).queue_id != queue_id,
    decreases outcomes.len(),
{
    kept_are(outcomes, outcome_for_others(queue_id));
    if outcomes.len() > 0 {
        let rest = outcomes.drop_last();
        assert(outcomes_differ(rest));
        kept_outcomes_differ(rest, queue_id);
        kept_are(rest, outcome_for_others(queue_id));
        let r = kept(rest, outcome_for_others(queue_id));
        let k = kept(outcomes, outcome_for_others(queue_id));
        assert forall|i: int, j: int| 0 <= i < j < k.len() implies (#[trigger] k[i]).queue_id != (
        #[trigger] k[j]).queue_id by {
            assert(k[i] == r[i]);
            if j == r.len() {
                let a = choose|a: int| 0 <= a < rest.len() && rest[a] == r[i];
                assert(outcomes[a] == r[i]);
                assert(k[j] == outcomes[outcomes.len() - 1]);
            } else {
                assert(k[j] == r[j]);
            }
        }
    }
}

/// Recording an outcome keeps a queue sound.
pub proof fn recording_keeps_the_queue_sound(
    q: InstallQueueView,
    queue_id: Seq<char>,
    succeeded: bool,
)
    requires
        queue_is_sound(q),
    ensures
        queue_is_sound(outcome_recorded(q, queue_id, succeeded)),
        queue_is_sound(pruned_queue(q)),
{
    kept_outcomes_differ(q.outcomes, queue_id);
    let all = kept(q.outcomes, outcome_for_others(queue_id)).push(
        QueueOutcomeView { queue_id, succeeded },
    );
    assert(outcomes_differ(all));
    let with = InstallQueueView { outcomes: all, ..q };
    pruning_keeps_outcomes_apart(all, unreferenced(with));
    pruning_keeps_outcomes_apart(q.outcomes, unreferenced(q));
}

/// Asking for something keeps a queue sound: it is in the queue once afterwards, whether it was there
/// before or not.
pub proof fn enqueueing_keeps_the_queue_sound(
    q: InstallQueueView,
    queue_id: Seq<char>,
    spec: InstallQueueSpecView,
    placement: InstallQueuePlacement,
)
    requires
        queue_is_sound(q),
    ensures
        ({
            let after = enqueued(q, queue_id, spec, placement).0;
            &&& queue_is_sound(after)
            &&& (after.active matches Some(active) && active.spec == spec) || exists|i: int|
                0 <= i < after.pending.len() && (#[trigger] after.pending[i]).spec == spec
            &&& after.active == q.active
            &&& after.outcomes == q.outcomes
        }),
{
    let after = enqueued(q, queue_id, spec, placement).0;
    let place = first_place(q.pending, asking_for(spec));
    first_place_found(q.pending, asking_for(spec));
    if q.active matches Some(active) && active.spec == spec {
    } else if place < q.pending.len() {
        if placement == InstallQueuePlacement::Front && place > 0 {
            assert(after.pending[0] == q.pending[place]);
            if let Some(active) = q.active {
                assert forall|i: int| 0 <= i < after.pending.len() implies (
                #[trigger] after.pending[i]).spec != active.spec by {
                    let a = if i == 0 { place } else if i <= place { i - 1 } else { i };
                    assert(q.pending[a] == after.pending[i]);
                }
            }
            assert forall|i: int, j: int| 0 <= i < j < after.pending.len() implies (
            #[trigger] after.pending[i]).spec != (#[trigger] after.pending[j]).spec by {
                let a = if i == 0 { place } else if i <= place { i - 1 } else { i };
                let b = if j <= place { j - 1 } else { j };
                assert(q.pending[a] == after.pending[i]);
                assert(q.pending[b] == after.pending[j]);
            }
        } else {
            assert(q.pending[place].spec == spec);
        }
    } else {
        assert forall|i: int| 0 <= i < q.pending.len() implies (#[trigger] q.pending[i]).spec
            != spec by {
            assert(!asking_for(spec)(q.pending[i]));
        }
        match placement {
            InstallQueuePlacement::Back => {
                assert(after.pending[q.pending.len() as int].spec == spec);
            },
            InstallQueuePlacement::Front => {
                assert(after.pending[0].spec == spec);
                assert forall|i: int| 0 < i < after.pending.len() implies #[trigger] after.pending[i]
                    == q.pending[i - 1] by {}
            },
        }
    }
}

/// Giving the lane to a request and putting the request back leaves the queue as it was.
pub proof fn returning_the_lane_undoes_giving_it(q: InstallQueueView)
    requires
        lane_given(q) is Some,
    ensures
        lane_returned((lane_given(q)->0).0) == q,
        is_unlinked((lane_given(q)->0).0, (lane_given(q)->0).1.queue_id),
{
    let given = (lane_given(q)->0).0;
    assert(lane_returned(given).pending =~= q.pending);
}

/// Giving the lane, returning it and completing a request keep a queue sound.
pub proof fn the_lane_keeps_the_queue_sound(q: InstallQueueView, succeeded: bool)
    requires
        queue_is_sound(q),
    ensures
        lane_given(q) matches Some((given, _)) ==> queue_is_sound(given),
        q.active is Some ==> queue_is_sound(lane_returned(q)) && queue_is_sound(
            lane_completed(q, succeeded),
        ),
{
    if lane_given(q) is Some {
        let given = (lane_given(q)->0).0;
        let first = q.pending[0].spec;
        assert forall|i: int| 0 <= i < given.pending.len() implies (#[trigger] given.pending[i]).spec
            != first by {
            assert(given.pending[i] == q.pending[i + 1]);
        }
        assert forall|i: int, j: int| 0 <= i < j < given.pending.len() implies (
        #[trigger] given.pending[i]).spec != (#[trigger] given.pending[j]).spec by {
            assert(given.pending[i] == q.pending[i + 1]);
            assert(given.pending[j] == q.pending[j + 1]);
        }
    }
    if q.active is Some {
        let returned = lane_returned(q);
        assert forall|i: int, j: int| 0 <= i < j < returned.pending.len() implies (
        #[trigger] returned.pending[i]).spec != (#[trigger] returned.pending[j]).spec by {
            assert(returned.pending[j] == q.pending[j - 1]);
            if i > 0 {
                assert(returned.pending[i] == q.pending[i - 1]);
            }
        }
        recording_keeps_the_queue_sound(
            InstallQueueView { active: None, ..q },
            q.active->0.queue_id,
            succeeded,
        );
    }
}

/// An outcome that a request depends on is never forgotten.
pub proof fn needed_outcomes_stay(
    outcomes: Seq<QueueOutcomeView>,
    disposable: spec_fn(QueueOutcomeView) -> bool,
    needed: QueueOutcomeView,
)
    requires
        outcomes.contains(needed),
        !disposable(needed),
    ensures
        outcomes_pruned(outcomes, disposable).contains(needed),
    decreases outcomes.len(),
{
    let place = first_place(outcomes, disposable);
    if outcomes.len() > MAX_COMPLETED_QUEUE_OUTCOMES && 0 <= place < outcomes.len() {
        first_place_found(outcomes, disposable);
        let i = choose|i: int| 0 <= i < outcomes.len() && outcomes[i] == needed;
        let rest = outcomes.remove(place);
        assert(i != place);
        let a = if i < place { i } else { i - 1 };
        assert(rest[a] == needed);
        needed_outcomes_stay(rest, disposable, needed);
    }
}

/// Only so many outcomes stay, unless requests depend on all that do.
pub proof fn outcomes_are_bounded(
    outcomes: Seq<QueueOutcomeView>,
    disposable: spec_fn(QueueOutcomeView) -> bool,
)
    ensures
        outcomes_pruned(outcomes, disposable).len() <= MAX_COMPLETED_QUEUE_OUTCOMES || forall|i: int|
            0 <= i < outcomes_pruned(outcomes, disposable).len() ==> !disposable(
                #[trigger] outcomes_pruned(outcomes, disposable)[i],
            ),
        outcomes.len() <= MAX_COMPLETED_QUEUE_OUTCOMES ==> outcomes_pruned(outcomes, disposable)
            == outcomes,
    decreases outcomes.len(),
{
    first_place_found(outcomes, disposable);
    let place = first_place(outcomes, disposable);
    if outcomes.len() > MAX_COMPLETED_QUEUE_OUTCOMES && 0 <= place < outcomes.len() {
        outcomes_are_bounded(outcomes.remove(place), disposable);
    }
}

/// The outcome of a request that has just ended is remembered, while there is room for it or an older
/// outcome can leave.
pub proof fn recorded_outcome_is_remembered(
    q: InstallQueueView,
    queue_id: Seq<char>,
    succeeded: bool,
)
    requires
        queue_is_sound(q),
        q.outcomes.len() <= MAX_COMPLETED_QUEUE_OUTCOMES,
        kept(q.outcomes, outcome_for_others(queue_id)).len() < MAX_COMPLETED_QUEUE_OUTCOMES
            || exists|i: int|
            0 <= i < q.outcomes.len() && (#[trigger] q.outcomes[i]).queue_id != queue_id
                && !is_referenced(q, q.outcomes[i].queue_id),
    ensures
        outcome_of(outcome_recorded(q, queue_id, succeeded), queue_id) == Some(succeeded),
{
    let others = kept(q.outcomes, outcome_for_others(queue_id));
    let made = QueueOutcomeView { queue_id, succeeded };
    let all = others.push(made);
    let with = InstallQueueView { outcomes: all, ..q };
    let after = outcome_recorded(q, queue_id, succeeded);
    kept_outcomes_differ(q.outcomes, queue_id);
    kept_are(q.outcomes, outcome_for_others(queue_id));
    recording_keeps_the_queue_sound(q, queue_id, succeeded);
    first_place_found(all, unreferenced(with));
    assert(all[others.len() as int] == made);
    if all.len() > MAX_COMPLETED_QUEUE_OUTCOMES {
        let i = choose|i: int|
            0 <= i < q.outcomes.len() && (#[trigger] q.outcomes[i]).queue_id != queue_id
                && !is_referenced(q, q.outcomes[i].queue_id);
        assert(outcome_for_others(queue_id)(q.outcomes[i]));
        assert(others.contains(q.outcomes[i]));
        let k = choose|k: int| 0 <= k < others.len() && others[k] == q.outcomes[i];
        assert(all[k] == others[k]);
        same_references(q, with, q.outcomes[i].queue_id);
        assert(unreferenced(with)(all[k]));
        let place = first_place(all, unreferenced(with));
        assert(place <= k);
        let rest = all.remove(place);
        assert(outcomes_pruned(all, unreferenced(with)) == outcomes_pruned(
            rest,
            unreferenced(with),
        ));
        outcomes_are_bounded(rest, unreferenced(with));
        assert(after.outcomes == rest);
        assert(rest[others.len() - 1] == made);
    } else {
        outcomes_are_bounded(all, unreferenced(with));
        assert(after.outcomes == all);
    }
    assert(after.outcomes.last() == made);
    let last = after.outcomes.len() - 1;
    assert forall|i: int| 0 <= i < last implies !outcome_for(queue_id)(
        #[trigger] after.outcomes[i],
    ) by {
        assert(after.outcomes[last].queue_id == queue_id);
    }
    first_place_is(after.outcomes, outcome_for(queue_id), last);
}

proof fn same_references(q: InstallQueueView, other: InstallQueueView, queue_id: Seq<char>)
    requires
        q.active == other.active,
        q.pending == other.pending,
    ensures
        is_referenced(q, queue_id) == is_referenced(other, queue_id),
{
}

fn depends(spec: &InstallQueueSpec, queue_id: &str) -> (r: bool)
    ensures
        r == depends_on(spec@, queue_id@),
{
    match spec {
        InstallQueueSpec::Content { prerequisite_queue_id, .. } => match prerequisite_queue_id {
            Some(prerequisite) => same_text(prerequisite.as_str(), queue_id),
            None => false,
        },
        _ => false,
    }
}

impl InstallQueue {
    #[verifier::type_invariant]
    spec fn sound(self) -> bool {
        queue_is_sound(self@)
    }

    /// An empty queue.
    pub fn new() -> (r: InstallQueue)
        ensures
            r@ == (InstallQueueView {
                active: None,
                pending: Seq::empty(),
                outcomes: Seq::empty(),
            }),
    {
        let pending: Vec<QueuedInstallEntry> = Vec::new();
        let outcomes: Vec<QueueOutcome> = Vec::new();
        assert(views(pending@) =~= Seq::empty());
        assert(views(outcomes@) =~= Seq::empty());
        InstallQueue { active: None, pending, outcomes }
    }

    fn references(&self, queue_id: &str) -> (r: bool)
        ensures
            r == is_referenced(self@, queue_id@),
    {
        match &self.active {
            Some(active) => {
                if depends(&active.spec, queue_id) {
                    return true;
                }
            },
            None => {},
        }
        let mut i: usize = 0;
        while i < self.pending.len()
            invariant
                i <= self.pending.len(),
                self@.active matches Some(active) ==> !depends_on(active.spec, queue_id@),
                forall|k: int|
                    0 <= k < i ==> !depends_on((#[trigger] self@.pending[k]).spec, queue_id@),
            decreases self.pending.len() - i,
        {
            assert(self@.pending[i as int] == self.pending@[i as int]@);
            if depends(&self.pending[i].spec, queue_id) {
                return true;
            }
            i = i + 1;
        }
        false
    }

    fn disposable_place(&self, outcomes: &Vec<QueueOutcome>) -> (r: usize)
        ensures
            r == first_place(views(outcomes@), unreferenced(self@)),
            r <= outcomes.len(),
    {
        let mut i: usize = 0;
        while i < outcomes.len()
            invariant
                i <= outcomes.len(),
                forall|k: int|
                    0 <= k < i ==> !unreferenced(self@)(#[trigger] views(outcomes@)[k]),
            decreases outcomes.len() - i,
        {
            if !self.references(outcomes[i].queue_id.as_str()) {
                proof {
                    assert(unreferenced(self@)(views(outcomes@)[i as int]));
                    first_place_is(views(outcomes@), unreferenced(self@), i as int);
                }
                return i;
            }
            i = i + 1;
        }
        proof {
            first_place_is(views(outcomes@), unreferenced(self@), i as int);
        }
        i
    }

    /// Forgets outcomes that are not needed any more.
    fn prune_outcomes(&self, outcomes: Vec<QueueOutcome>) -> (r: Vec<QueueOutcome>)
        ensures
            views(r@) == outcomes_pruned(views(outcomes@), unreferenced(self@)),
    {
        let mut left = outcomes;
        let ghost all = views(outcomes@);
        while left.len() > MAX_COMPLETED_QUEUE_OUTCOMES
            invariant
                all == views(outcomes@),
                outcomes_pruned(views(left@), unreferenced(self@)) == outcomes_pruned(
                    all,
                    unreferenced(self@),
                ),
            decreases left.len(),
        {
            let place: usize = self.disposable_place(&left);
            if place == left.len() {
                return left;
            }
            let ghost before = views(left@);
            left.remove(place);
            assert(views(left@) =~= before.remove(place as int));
        }
        left
    }

    fn other_outcomes(&self, queue_id: &str) -> (r: Vec<QueueOutcome>)
        ensures
            views(r@) == kept(self@.outcomes, outcome_for_others(queue_id@)),
    {
        let ghost all = self@.outcomes;
        let mut others: Vec<QueueOutcome> = Vec::new();
        let mut i: usize = 0;
        assert(all.subrange(0, 0) =~= Seq::empty());
        assert(views(others@) =~= Seq::empty());
        while i < self.outcomes.len()
            invariant
                i <= self.outcomes.len(),
                all == self@.outcomes,
                views(others@) == kept(all.subrange(0, i as int), outcome_for_others(queue_id@)),
            decreases self.outcomes.len() - i,
        {
            let ghost upto = all.subrange(0, i + 1);
            assert(upto.drop_last() =~= all.subrange(0, i as int));
            assert(upto.last() == self.outcomes@[i as int]@);
            if !same_text(self.outcomes[i].queue_id.as_str(), queue_id) {
                let ghost held = views(others@);
                others.push(self.outcomes[i].duplicate());
                assert(views(others@) =~= held.push(upto.last()));
            }
            i = i + 1;
        }
        assert(all.subrange(0, all.len() as int) =~= all);
        others
    }

    /// Records how a request ended.
    pub fn record_queue_outcome(&mut self, queue_id: &str, succeeded: bool)
        ensures
            final(self)@ == outcome_recorded(old(self)@, queue_id@, succeeded),
    {
        let ghost q = self@;
        let mut outcomes = self.other_outcomes(queue_id);
        let ghost held = views(outcomes@);
        outcomes.push(QueueOutcome { queue_id: queue_id.to_owned(), succeeded });
        proof {
            use_type_invariant(&*self);
            assert(views(outcomes@) =~= held.push(
                QueueOutcomeView { queue_id: queue_id@, succeeded },
            ));
            same_disposables(q, InstallQueueView { outcomes: views(outcomes@), ..q });
            recording_keeps_the_queue_sound(q, queue_id@, succeeded);
        }
        let left = self.prune_outcomes(outcomes);
        self.outcomes = left;
    }

    fn forget_outcomes(&mut self)
        ensures
            final(self)@ == pruned_queue(old(self)@),
    {
        proof {
            use_type_invariant(&*self);
            recording_keeps_the_queue_sound(self@, Seq::empty(), false);
        }
        let outcomes = list_duplicate(&self.outcomes);
        let left = self.prune_outcomes(outcomes);
        self.outcomes = left;
    }

    /// The queue as it is. No two of its requests ask for the same.
    pub fn queue_snapshot(&self) -> (r: InstallQueueSnapshot)
        ensures
            r@ == (InstallQueueSnapshotView {
                active: self@.active,
                pending: self@.pending,
            }),
            queue_is_sound(self@),
    {
        proof {
            use_type_invariant(self);
        }
        InstallQueueSnapshot {
            active: opt_duplicate(&self.active),
            pending: list_duplicate(&self.pending),
        }
    }

    /// The outcomes that are remembered, the oldest first.
    pub fn outcomes(&self) -> (r: Vec<QueueOutcome>)
        ensures
            views(r@) == self@.outcomes,
    {
        list_duplicate(&self.outcomes)
    }

    /// How a request ended, if that is remembered.
    pub fn queued_install_succeeded(&self, queue_id: &str) -> (r: Option<bool>)
        ensures
            r == outcome_of(self@, queue_id@),
    {
        let mut i: usize = 0;
        while i < self.outcomes.len()
            invariant
                i <= self.outcomes.len(),
                forall|k: int|
                    0 <= k < i ==> !outcome_for(queue_id@)(#[trigger] self@.outcomes[k]),
            decreases self.outcomes.len() - i,
        {
            assert(self@.outcomes[i as int] == self.outcomes@[i as int]@);
            if same_text(self.outcomes[i].queue_id.as_str(), queue_id) {
                proof {
                    first_place_is(self@.outcomes, outcome_for(queue_id@), i as int);
                }
                return Some(self.outcomes[i].succeeded);
            }
            i = i + 1;
        }
        proof {
            first_place_is(self@.outcomes, outcome_for(queue_id@), i as int);
        }
        None
    }

    fn place_asking(&self, spec: &InstallQueueSpec) -> (r: usize)
        ensures
            r == first_place(self@.pending, asking_for(spec@)),
            r <= self.pending.len(),
    {
        let mut i: usize = 0;
        while i < self.pending.len()
            invariant
                i <= self.pending.len(),
                forall|k: int| 0 <= k < i ==> !asking_for(spec@)(#[trigger] self@.pending[k]),
            decreases self.pending.len() - i,
        {
            assert(self@.pending[i as int] == self.pending@[i as int]@);
            if self.pending[i].spec.same(spec) {
                proof {
                    first_place_is(self@.pending, asking_for(spec@), i as int);
                }
                return i;
            }
            i = i + 1;
        }
        proof {
            first_place_is(self@.pending, asking_for(spec@), i as int);
        }
        i
    }

    /// Asks for something. What is asked for already is not asked for twice; if it waits, it can be
    /// moved to the head.
    pub fn enqueue_queued_install(
        &mut self,
        queue_id: String,
        spec: InstallQueueSpec,
        placement: InstallQueuePlacement,
    ) -> (r: InstallQueueEnqueueOutcome)
        ensures
            (final(self)@, r@) == enqueued(old(self)@, queue_id@, spec@, placement),
    {
        proof {
            use_type_invariant(&*self);
            enqueueing_keeps_the_queue_sound(self@, queue_id@, spec@, placement);
        }
        let ghost q = self@;
        match &self.active {
            Some(active) => {
                if active.spec.same(&spec) {
                    return InstallQueueEnqueueOutcome::AlreadyActive {
                        queue_id: active.queue_id.duplicate(),
                    };
                }
            },
            None => {},
        }
        let place: usize = self.place_asking(&spec);
        let mut pending = list_duplicate(&self.pending);
        assert(pending.len() == q.pending.len());
        if place < pending.len() {
            assert(views(pending@)[place as int] == pending@[place as int]@);
            let existing = pending[place].queue_id.duplicate();
            if placement == InstallQueuePlacement::Front && place > 0 {
                let entry = pending.remove(place);
                assert(views(pending@) =~= q.pending.remove(place as int));
                pending.insert(0, entry);
                assert(views(pending@) =~= seq![q.pending[place as int]] + q.pending.remove(
                    place as int,
                ));
                self.pending = pending;
                return InstallQueueEnqueueOutcome::MovedToFront { queue_id: existing };
            }
            return InstallQueueEnqueueOutcome::AlreadyQueued { queue_id: existing };
        }
        let entry = QueuedInstallEntry { queue_id: queue_id.duplicate(), spec };
        match placement {
            InstallQueuePlacement::Back => {
                pending.push(entry);
                assert(views(pending@) =~= q.pending.push(entry@));
            },
            InstallQueuePlacement::Front => {
                pending.insert(0, entry);
                assert(views(pending@) =~= seq![entry@] + q.pending);
            },
        }
        self.pending = pending;
        InstallQueueEnqueueOutcome::Enqueued { queue_id }
    }

    /// Gives the lane to the first waiting request, if it is free.
    pub fn give_lane(&mut self) -> (r: Option<QueuedInstallEntry>)
        ensures
            match lane_given(old(self)@) {
                Some((given, entry)) => final(self)@ == given && opt_view(r) == Some(entry),
                None => final(self)@ == old(self)@ && r is None,
            },
    {
        proof {
            use_type_invariant(&*self);
            the_lane_keeps_the_queue_sound(self@, false);
        }
        let ghost q = self@;
        if self.active.is_some() || self.pending.len() == 0 {
            return None;
        }
        let mut pending = list_duplicate(&self.pending);
        assert(pending.len() == q.pending.len());
        let next = pending.remove(0);
        assert(views(self.pending@)[0] == next@);
        assert(views(pending@) =~= q.pending.subrange(1, q.pending.len() as int));
        let active = ActiveQueuedInstallEntry {
            queue_id: next.queue_id.duplicate(),
            install_id: None,
            install_started_at_ms: None,
            spec: next.spec.duplicate(),
        };
        let outcomes = list_duplicate(&self.outcomes);
        *self = InstallQueue { active: Some(active), pending, outcomes };
        Some(next)
    }

    /// When the session of the active request began; `None` where another request has the lane.
    pub fn active_start(&self, queue_id: &str) -> (r: Option<Option<u64>>)
        ensures
            r == begun_at(self@, queue_id@),
    {
        match &self.active {
            Some(active) => if same_text(active.queue_id.as_str(), queue_id) {
                Some(active.install_started_at_ms)
            } else {
                None
            },
            None => None,
        }
    }

    /// Whether the lane belongs to this request and no session has begun for it.
    pub fn unlinked(&self, queue_id: &str) -> (r: bool)
        ensures
            r == is_unlinked(self@, queue_id@),
    {
        match &self.active {
            Some(active) => same_text(active.queue_id.as_str(), queue_id)
                && active.install_id.is_none(),
            None => false,
        }
    }

    fn linked(&self, install_id: &str) -> (r: bool)
        ensures
            r == is_linked(self@, install_id@),
    {
        match &self.active {
            Some(active) => match &active.install_id {
                Some(linked) => same_text(linked.as_str(), install_id),
                None => false,
            },
            None => false,
        }
    }

    fn complete_lane(&mut self, succeeded: bool) -> (r: Option<ActiveQueuedInstallEntry>)
        requires
            old(self)@.active is Some,
        ensures
            final(self)@ == lane_completed(old(self)@, succeeded),
            opt_view(r) == old(self)@.active,
    {
        proof {
            use_type_invariant(&*self);
        }
        let completed = opt_duplicate(&self.active);
        self.active = None;
        match &completed {
            Some(entry) => self.record_queue_outcome(entry.queue_id.as_str(), succeeded),
            None => {},
        }
        completed
    }

    fn return_lane(&mut self)
        requires
            old(self)@.active is Some,
        ensures
            final(self)@ == lane_returned(old(self)@),
    {
        proof {
            use_type_invariant(&*self);
            the_lane_keeps_the_queue_sound(self@, false);
        }
        let ghost q = self@;
        let mut pending = list_duplicate(&self.pending);
        match &self.active {
            Some(active) => {
                let entry = QueuedInstallEntry {
                    queue_id: active.queue_id.duplicate(),
                    spec: active.spec.duplicate(),
                };
                pending.insert(0, entry);
                assert(views(pending@) =~= seq![entry@] + q.pending);
            },
            None => {},
        }
        let outcomes = list_duplicate(&self.outcomes);
        *self = InstallQueue { active: None, pending, outcomes };
    }

    /// Ends the request that this session carries out.
    pub fn complete_active_queued_install(&mut self, install_id: &str, succeeded: bool) -> (r: Option<
        ActiveQueuedInstallEntry,
    >)
        ensures
            (final(self)@, opt_view(r)) == session_completed(old(self)@, install_id@, succeeded),
    {
        if !self.linked(install_id) {
            return None;
        }
        self.complete_lane(succeeded)
    }

    /// Ends a request for which no session has begun.
    pub fn complete_reserved_queued_install(&mut self, queue_id: &str, succeeded: bool) -> (r: Option<
        ActiveQueuedInstallEntry,
    >)
        ensures
            (final(self)@, opt_view(r)) == reservation_completed(old(self)@, queue_id@, succeeded),
    {
        if !self.unlinked(queue_id) {
            return None;
        }
        self.complete_lane(succeeded)
    }

    /// Settles a request whose start failed: it has failed too, unless a session has begun for it.
    pub fn settle_start_failure(&mut self, queue_id: &str) -> (r:
        InstallQueueStartFailureDisposition)
        ensures
            (final(self)@, r@) == start_failure_settled(old(self)@, queue_id@),
    {
        match &self.active {
            Some(active) => {
                if !same_text(active.queue_id.as_str(), queue_id) {
                    return InstallQueueStartFailureDisposition::Settled;
                }
                match &active.install_id {
                    Some(install_id) => {
                        return InstallQueueStartFailureDisposition::Started {
                            install_id: install_id.duplicate(),
                        };
                    },
                    None => {},
                }
            },
            None => {
                return InstallQueueStartFailureDisposition::Settled;
            },
        }
        let _ = self.complete_lane(false);
        InstallQueueStartFailureDisposition::CompletedUnlinked
    }

    /// Whether the lane belongs to this request and this session carries it out.
    pub fn start_matches(&self, queue_id: &str, install_id: &str) -> (r: bool)
        ensures
            r == is_started(self@, queue_id@, install_id@),
    {
        match &self.active {
            Some(active) => same_text(active.queue_id.as_str(), queue_id) && self.linked(
                install_id,
            ),
            None => false,
        }
    }

    /// Parts the active request from its session, if they are these.
    pub fn reset_start(&mut self, queue_id: &str, install_id: &str) -> (r: bool)
        ensures
            (final(self)@, r) == start_parted(old(self)@, queue_id@, install_id@),
    {
        if !self.start_matches(queue_id, install_id) {
            return false;
        }
        self.link(None, None);
        true
    }

    /// Says which session carries the active request out, and when it began.
    pub fn link(&mut self, install_id: Option<String>, started_at_ms: Option<u64>)
        ensures
            final(self)@ == (InstallQueueView {
                active: match old(self)@.active {
                    Some(active) => Some(
                        ActiveQueuedInstallEntryView {
                            install_id: opt_view(install_id),
                            install_started_at_ms: started_at_ms,
                            ..active
                        },
                    ),
                    None => None,
                },
                ..old(self)@
            }),
    {
        proof {
            use_type_invariant(&*self);
        }
        let active = match &self.active {
            Some(active) => Some(
                ActiveQueuedInstallEntry {
                    queue_id: active.queue_id.duplicate(),
                    install_id,
                    install_started_at_ms: started_at_ms,
                    spec: active.spec.duplicate(),
                },
            ),
            None => None,
        };
        self.active = active;
    }

    /// Settles a request whose start was interrupted: it waits again at the head, unless a session
    /// has begun for it.
    pub fn reconcile_queued_install_start(&mut self, queue_id: &str) -> (r:
        InstallQueueStartReconciliation)
        ensures
            (final(self)@, r@) == start_reconciled(old(self)@, queue_id@),
    {
        match &self.active {
            Some(active) => {
                if !same_text(active.queue_id.as_str(), queue_id) {
                    return InstallQueueStartReconciliation::Settled;
                }
                match &active.install_id {
                    Some(install_id) => {
                        return InstallQueueStartReconciliation::Started {
                            install_id: install_id.duplicate(),
                        };
                    },
                    None => {},
                }
            },
            None => {
                return InstallQueueStartReconciliation::Settled;
            },
        }
        self.return_lane();
        InstallQueueStartReconciliation::Requeued
    }

    /// Puts the active request back at the head, if no session has begun for it.
    pub fn release_active_queued_install_to_front(&mut self, queue_id: &str) -> (r: bool)
        ensures
            (final(self)@, r) == lane_released(old(self)@, queue_id@),
    {
        if !self.unlinked(queue_id) {
            return false;
        }
        self.return_lane();
        true
    }

    /// Drops the active request, if no session has begun for it. Nothing is said of its outcome.
    pub fn discard_active_queued_install(&mut self, queue_id: &str) -> (r: bool)
        ensures
            (final(self)@, r) == lane_discarded(old(self)@, queue_id@),
    {
        proof {
            use_type_invariant(&*self);
        }
        if !self.unlinked(queue_id) {
            return false;
        }
        self.active = None;
        self.forget_outcomes();
        true
    }

    /// Takes a waiting request out of the queue.
    pub fn remove_queued_install(&mut self, queue_id: &str) -> (r: Option<QueuedInstallEntry>)
        ensures
            (final(self)@, opt_view(r)) == request_removed(old(self)@, queue_id@),
    {
        proof {
            use_type_invariant(&*self);
        }
        let ghost q = self@;
        let mut i: usize = 0;
        while i < self.pending.len()
            invariant
                i <= self.pending.len(),
                q == self@,
                q == old(self)@,
                queue_is_sound(q),
                forall|k: int| 0 <= k < i ==> !queued_as(queue_id@)(#[trigger] q.pending[k]),
            decreases self.pending.len() - i,
        {
            assert(q.pending[i as int] == self.pending@[i as int]@);
            if same_text(self.pending[i].queue_id.as_str(), queue_id) {
                proof {
                    first_place_is(q.pending, queued_as(queue_id@), i as int);
                    removal_keeps_the_queue_sound(q, i as int);
                }
                let mut pending = list_duplicate(&self.pending);
                assert(pending.len() == q.pending.len());
                let removed = pending.remove(i);
                assert(views(self.pending@)[i as int] == removed@);
                assert(views(pending@) =~= q.pending.remove(i as int));
                self.pending = pending;
                self.forget_outcomes();
                return Some(removed);
            }
            i = i + 1;
        }
        proof {
            first_place_is(q.pending, queued_as(queue_id@), i as int);
        }
        None
    }
}

proof fn removal_keeps_the_queue_sound(q: InstallQueueView, place: int)
    requires
        queue_is_sound(q),
        0 <= place < q.pending.len(),
    ensures
        queue_is_sound(InstallQueueView { pending: q.pending.remove(place), ..q }),
{
    let rest = q.pending.remove(place);
    assert forall|i: int| 0 <= i < rest.len() implies #[trigger] rest[i] == q.pending[if i < place {
        i
    } else {
        i + 1
    }] by {}
    assert forall|i: int, j: int| 0 <= i < j < rest.len() implies (#[trigger] rest[i]).spec != (
    #[trigger] rest[j]).spec by {
        let a = if i < place { i } else { i + 1 };
        let b = if j < place { j } else { j + 1 };
        assert(q.pending[a] == rest[i]);
        assert(q.pending[b] == rest[j]);
    }
}

proof fn same_disposables(q: InstallQueueView, other: InstallQueueView)
    requires
        q.active == other.active,
        q.pending == other.pending,
    ensures
        unreferenced(q) == unreferenced(other),
{
    assert forall|outcome: QueueOutcomeView| #[trigger] unreferenced(q)(outcome) == unreferenced(
        other,
    )(outcome) by {
        same_references(q, other, outcome.queue_id);
    }
    assert(unreferenced(q) =~= unreferenced(other));
}

} // verus!

//! What the queue and the sessions of installations are for, said of what goes in and what comes out.

use crate::contracts::OperationId;
use crate::install_queue::{
    asking_for, begun_at, depends_on, enqueued, is_referenced, is_started, lane_discarded,
    lane_given, lane_released, needed_outcomes_stay, outcome_for, outcome_for_others, outcome_of,
    outcome_recorded, outcomes_are_bounded, outcomes_differ, outcomes_pruned, pruned_queue,
    pruning_keeps_outcomes_apart, queue_is_sound, queued_as, recording_keeps_the_queue_sound,
    request_removed, reservation_completed, session_completed, stands_for, start_failure_settled,
    start_parted, start_reconciled, target_of, unreferenced, InstallQueueView,
    MAX_COMPLETED_QUEUE_OUTCOMES,
};
use crate::install_sessions::{
    admission_keeps_sessions_apart, admitted, admitted_or_existing, end_given_up, end_reserved,
    event_text, finished, initialization_reconciled, initialized, installing, key_admitted, live,
    live_sessions, named, plain_record, preparation_of, record_emitted, reserved_finished,
    session_of, session_removed, sessions_are_apart, snapshot_of, told_record, uses_operation,
    InstallAdmissionError, InstallInitializationStatus, Sessions,
};
use crate::install_store::{
    failure_exit, lane_holder, lane_reserved, loader_key, queued_admitted, session_installing,
    since_epoch, start_marked, vanilla_key, work_ended, work_settled, InstallStoreView,
    WorkerStepView,
};
use crate::install_types::{
    DownloadProgressView, InstallKeyView, InstallProgressRecordView, InstallQueueAdmissionView,
    InstallQueueEnqueueOutcomeView, InstallQueuePlacement, InstallQueueReservationView,
    InstallQueueSpecView, InstallQueueStartFailureDispositionView,
    InstallQueueStartReconciliationView, InstallSessionView, InstallWorkerExitView,
    LoaderComponentId, QueueOutcomeView,
};
use crate::places::{first_place, first_place_found, first_place_is, kept, kept_are};
use vstd::prelude::*;

verus! {

/// Something that the queue has not been asked for waits at its end, or before all others where it is
/// asked for at the front. Those that waited before wait in the same order.
pub proof fn new_request_takes_its_place(
    q: InstallQueueView,
    queue_id: Seq<char>,
    spec: InstallQueueSpecView,
    placement: InstallQueuePlacement,
)
    requires
        q.active matches Some(active) ==> active.spec != spec,
        forall|i: int| 0 <= i < q.pending.len() ==> (#[trigger] q.pending[i]).spec != spec,
    ensures
        ({
            let (after, answer) = enqueued(q, queue_id, spec, placement);
            let n = q.pending.len() as int;
            &&& answer matches InstallQueueEnqueueOutcomeView::Enqueued { queue_id: id } && id
                == queue_id
            &&& after.active == q.active
            &&& after.outcomes == q.outcomes
            &&& after.pending.len() == n + 1
            &&& placement == InstallQueuePlacement::Front ==> {
                &&& after.pending[0].queue_id == queue_id
                &&& after.pending[0].spec == spec
                &&& forall|i: int| 0 <= i < n ==> after.pending[i + 1] == #[trigger] q.pending[i]
            }
            &&& placement == InstallQueuePlacement::Back ==> {
                &&& after.pending[n].queue_id == queue_id
                &&& after.pending[n].spec == spec
                &&& forall|i: int| 0 <= i < n ==> after.pending[i] == #[trigger] q.pending[i]
            }
        }),
{
    let wanted = asking_for(spec);
    first_place_found(q.pending, wanted);
    let place = first_place(q.pending, wanted);
    if place < q.pending.len() {
        assert(wanted(q.pending[place]));
    }
}

/// What has the lane or waits already is not asked for twice: the answer names the request that
/// stands for it. One that waits comes before all others where it is asked for at the front, and the
/// others keep their order.
pub proof fn request_is_not_made_twice(
    q: InstallQueueView,
    queue_id: Seq<char>,
    spec: InstallQueueSpecView,
    placement: InstallQueuePlacement,
    at: int,
)
    requires
        queue_is_sound(q),
    ensures
        ({
            let (after, answer) = enqueued(q, queue_id, spec, placement);
            &&& (q.active matches Some(active) && active.spec == spec) ==> {
                &&& after == q
                &&& answer matches InstallQueueEnqueueOutcomeView::AlreadyActive { queue_id: id }
                    && id == q.active->0.queue_id
            }
            &&& 0 <= at < q.pending.len() && q.pending[at].spec == spec ==> {
                &&& after.active == q.active
                &&& after.outcomes == q.outcomes
                &&& after.pending.len() == q.pending.len()
                &&& placement == InstallQueuePlacement::Back || at == 0 ==> {
                    &&& after.pending == q.pending
                    &&& answer matches InstallQueueEnqueueOutcomeView::AlreadyQueued { queue_id: id }
                        && id == q.pending[at].queue_id
                }
                &&& placement == InstallQueuePlacement::Front && at > 0 ==> {
                    &&& answer matches InstallQueueEnqueueOutcomeView::MovedToFront { queue_id: id }
                        && id == q.pending[at].queue_id
                    &&& after.pending[0] == q.pending[at]
                    &&& forall|i: int| 0 <= i < at ==> after.pending[i + 1] == #[trigger] q.pending[i]
                    &&& forall|i: int|
                        at < i < q.pending.len() ==> after.pending[i] == #[trigger] q.pending[i]
                }
            }
        }),
{
    if 0 <= at < q.pending.len() && q.pending[at].spec == spec {
        let wanted = asking_for(spec);
        assert forall|i: int| 0 <= i < at implies !wanted(#[trigger] q.pending[i]) by {
            assert(q.pending[i].spec != q.pending[at].spec);
        }
        first_place_is(q.pending, wanted, at);
    }
}

/// The lane goes to the request that has waited longest, if it is free and someone waits. The request
/// keeps its identity and what it asks for, and no session carries it out yet.
pub proof fn lane_goes_to_the_first(q: InstallQueueView)
    ensures
        lane_given(q) is Some <==> q.active is None && q.pending.len() > 0,
        lane_given(q) matches Some((given, entry)) ==> {
            &&& entry == q.pending[0]
            &&& given.active is Some
            &&& given.active->0.queue_id == q.pending[0].queue_id
            &&& given.active->0.spec == q.pending[0].spec
            &&& given.active->0.install_id is None
            &&& given.active->0.install_started_at_ms is None
            &&& given.outcomes == q.outcomes
            &&& given.pending.len() == q.pending.len() - 1
            &&& forall|i: int|
                0 <= i < given.pending.len() ==> #[trigger] given.pending[i] == q.pending[i + 1]
        },
{
}

/// Requests that are asked for at the back get the lane in the order in which they were asked for.
pub proof fn first_asked_is_first_served(
    q: InstallQueueView,
    first: Seq<char>,
    second: Seq<char>,
    a: InstallQueueSpecView,
    b: InstallQueueSpecView,
)
    requires
        q.active is None,
        q.pending.len() == 0,
        a != b,
    ensures
        ({
            let one = enqueued(q, first, a, InstallQueuePlacement::Back).0;
            let two = enqueued(one, second, b, InstallQueuePlacement::Back).0;
            let jumped = enqueued(one, second, b, InstallQueuePlacement::Front).0;
            &&& lane_given(two) matches Some((_, entry)) && entry.queue_id == first && entry.spec == a
            &&& lane_given(jumped) matches Some((_, entry)) && entry.queue_id == second && entry.spec
                == b
        }),
{
    new_request_takes_its_place(q, first, a, InstallQueuePlacement::Back);
    let one = enqueued(q, first, a, InstallQueuePlacement::Back).0;
    new_request_takes_its_place(one, second, b, InstallQueuePlacement::Back);
    new_request_takes_its_place(one, second, b, InstallQueuePlacement::Front);
    assert(one.pending[0].spec == a);
}

/// A request that gives the lane back waits before all others, as what it was, and the others keep
/// their order. Only one that no session carries out gives it back.
pub proof fn released_request_waits_first(q: InstallQueueView, queue_id: Seq<char>)
    ensures
        ({
            let (after, released) = lane_released(q, queue_id);
            &&& released <==> (q.active matches Some(active) && active.queue_id == queue_id
                && active.install_id is None)
            &&& !released ==> after == q
            &&& released ==> {
                &&& after.active is None
                &&& after.outcomes == q.outcomes
                &&& after.pending.len() == q.pending.len() + 1
                &&& after.pending[0].queue_id == queue_id
                &&& after.pending[0].spec == q.active->0.spec
                &&& forall|i: int|
                    0 <= i < q.pending.len() ==> after.pending[i + 1] == #[trigger] q.pending[i]
            }
        }),
{
}

/// A start that was interrupted is settled by what has become of it: a session that has begun is
/// named and the queue stays as it is, a request without one waits first again, and a request that
/// does not have the lane is settled already.
pub proof fn interrupted_start_is_reconciled(q: InstallQueueView, queue_id: Seq<char>)
    ensures
        ({
            let (after, answer) = start_reconciled(q, queue_id);
            let mine = q.active matches Some(active) && active.queue_id == queue_id;
            &&& !mine ==> answer is Settled && after == q
            &&& mine && q.active->0.install_id is Some ==> {
                &&& answer matches InstallQueueStartReconciliationView::Started { install_id }
                    && Some(install_id) == q.active->0.install_id
                &&& after == q
            }
            &&& mine && q.active->0.install_id is None ==> {
                &&& answer is Requeued
                &&& after.active is None
                &&& after.outcomes == q.outcomes
                &&& after.pending.len() == q.pending.len() + 1
                &&& after.pending[0].queue_id == queue_id
                &&& after.pending[0].spec == q.active->0.spec
                &&& forall|i: int|
                    0 <= i < q.pending.len() ==> after.pending[i + 1] == #[trigger] q.pending[i]
            }
        }),
{
}

/// The active request is parted from its session only where both are named. It keeps the lane, its
/// identity and what it asks for.
pub proof fn parted_request_keeps_the_lane(
    q: InstallQueueView,
    queue_id: Seq<char>,
    install_id: Seq<char>,
)
    ensures
        ({
            let (after, parted) = start_parted(q, queue_id, install_id);
            &&& parted <==> (q.active matches Some(active) && active.queue_id == queue_id
                && active.install_id == Some(install_id))
            &&& !parted ==> after == q
            &&& parted ==> {
                &&& after.active is Some
                &&& after.active->0.queue_id == queue_id
                &&& after.active->0.spec == q.active->0.spec
                &&& after.active->0.install_id is None
                &&& after.active->0.install_started_at_ms is None
                &&& after.pending == q.pending
                &&& after.outcomes == q.outcomes
            }
        }),
{
}

/// How a request ended can be asked for exactly where it is remembered.
pub proof fn remembered_outcome_is_told(q: InstallQueueView, queue_id: Seq<char>)
    requires
        outcomes_differ(q.outcomes),
    ensures
        forall|i: int|
            0 <= i < q.outcomes.len() && (#[trigger] q.outcomes[i]).queue_id == queue_id
                ==> outcome_of(q, queue_id) == Some(q.outcomes[i].succeeded),
        outcome_of(q, queue_id) is None <==> forall|i: int|
            0 <= i < q.outcomes.len() ==> (#[trigger] q.outcomes[i]).queue_id != queue_id,
{
    let wanted = outcome_for(queue_id);
    first_place_found(q.outcomes, wanted);
    let place = first_place(q.outcomes, wanted);
    assert forall|i: int| 0 <= i < q.outcomes.len() && (#[trigger] q.outcomes[i]).queue_id
        == queue_id implies outcome_of(q, queue_id) == Some(q.outcomes[i].succeeded) by {
        assert(wanted(q.outcomes[i]));
        assert(place < q.outcomes.len());
        assert(wanted(q.outcomes[place]));
        if place != i {
            assert(q.outcomes[place].queue_id != q.outcomes[i].queue_id);
        }
    }
    if place < q.outcomes.len() {
        assert(wanted(q.outcomes[place]));
    }
    if outcome_of(q, queue_id) is None {
        assert forall|i: int| 0 <= i < q.outcomes.len() implies (#[trigger] q.outcomes[i]).queue_id
            != queue_id by {
            assert(!wanted(q.outcomes[i]));
        }
    }
}

proof fn pruned_outcomes_were_there(
    outcomes: Seq<QueueOutcomeView>,
    disposable: spec_fn(QueueOutcomeView) -> bool,
)
    ensures
        forall|o: QueueOutcomeView| #[trigger]
            outcomes_pruned(outcomes, disposable).contains(o) ==> outcomes.contains(o),
        outcomes.len() > MAX_COMPLETED_QUEUE_OUTCOMES ==> outcomes_pruned(
            outcomes,
            disposable,
        ).len() >= MAX_COMPLETED_QUEUE_OUTCOMES,
        outcomes_pruned(outcomes, disposable).len() <= outcomes.len(),
    decreases outcomes.len(),
{
    first_place_found(outcomes, disposable);
    let place = first_place(outcomes, disposable);
    if outcomes.len() > MAX_COMPLETED_QUEUE_OUTCOMES && 0 <= place < outcomes.len() {
        let rest = outcomes.remove(place);
        pruned_outcomes_were_there(rest, disposable);
        assert forall|o: QueueOutcomeView| #[trigger]
            outcomes_pruned(outcomes, disposable).contains(o) implies outcomes.contains(o) by {
            assert(rest.contains(o));
            let i = choose|i: int| 0 <= i < rest.len() && rest[i] == o;
            assert(outcomes[if i < place { i } else { i + 1 }] == o);
        }
    }
}

/// Outcomes are forgotten only beyond the bound, never more of them than that takes, and the oldest
/// ones first.
pub proof fn oldest_outcomes_are_forgotten_first(
    outcomes: Seq<QueueOutcomeView>,
    disposable: spec_fn(QueueOutcomeView) -> bool,
)
    requires
        outcomes.no_duplicates(),
    ensures
        ({
            let left = outcomes_pruned(outcomes, disposable);
            &&& outcomes.len() <= MAX_COMPLETED_QUEUE_OUTCOMES ==> left == outcomes
            &&& outcomes.len() > MAX_COMPLETED_QUEUE_OUTCOMES ==> left.len()
                >= MAX_COMPLETED_QUEUE_OUTCOMES
            &&& forall|o: QueueOutcomeView| #[trigger] left.contains(o) ==> outcomes.contains(o)
            &&& forall|a: int, b: int|
                0 <= a < b < outcomes.len() && disposable(#[trigger] outcomes[a]) && !left.contains(
                    #[trigger] outcomes[b],
                ) ==> !left.contains(outcomes[a])
        }),
    decreases outcomes.len(),
{
    pruned_outcomes_were_there(outcomes, disposable);
    first_place_found(outcomes, disposable);
    let left = outcomes_pruned(outcomes, disposable);
    let place = first_place(outcomes, disposable);
    if outcomes.len() > MAX_COMPLETED_QUEUE_OUTCOMES && 0 <= place < outcomes.len() {
        let rest = outcomes.remove(place);
        assert(rest.no_duplicates()) by {
            assert forall|i: int, j: int| 0 <= i < rest.len() && 0 <= j < rest.len() && i != j implies
                rest[i] != rest[j] by {
                assert(rest[i] == outcomes[if i < place { i } else { i + 1 }]);
                assert(rest[j] == outcomes[if j < place { j } else { j + 1 }]);
            }
        }
        oldest_outcomes_are_forgotten_first(rest, disposable);
        pruned_outcomes_were_there(rest, disposable);
        assert(!left.contains(outcomes[place])) by {
            if left.contains(outcomes[place]) {
                assert(rest.contains(outcomes[place]));
                let i = choose|i: int| 0 <= i < rest.len() && rest[i] == outcomes[place];
                assert(rest[i] == outcomes[if i < place { i } else { i + 1 }]);
            }
        }
        assert forall|a: int, b: int|
            0 <= a < b < outcomes.len() && disposable(#[trigger] outcomes[a]) && !left.contains(
                #[trigger] outcomes[b],
            ) implies !left.contains(outcomes[a]) by {
            if a > place {
                assert(rest[a - 1] == outcomes[a]);
                assert(rest[b - 1] == outcomes[b]);
                assert(disposable(rest[a - 1]));
                assert(!left.contains(rest[b - 1]));
            } else if a < place {
                assert(!disposable(outcomes[a]));
            }
        }
    } else {
        assert forall|a: int, b: int|
            0 <= a < b < outcomes.len() && disposable(#[trigger] outcomes[a]) && !left.contains(
                #[trigger] outcomes[b],
            ) implies !left.contains(outcomes[a]) by {
            assert(left == outcomes);
            assert(left[b] == outcomes[b]);
        }
    }
}

/// Recording how a request ended changes what is remembered of that request and nothing else: no
/// other outcome turns into its opposite, and none is lost while there is room.
pub proof fn recording_an_outcome_changes_that_one(
    q: InstallQueueView,
    queue_id: Seq<char>,
    succeeded: bool,
    other: Seq<char>,
)
    requires
        queue_is_sound(q),
        other != queue_id,
    ensures
        ({
            let after = outcome_recorded(q, queue_id, succeeded);
            &&& after.active == q.active
            &&& after.pending == q.pending
            &&& outcome_of(after, queue_id) is None || outcome_of(after, queue_id) == Some(succeeded)
            &&& outcome_of(after, other) is None || outcome_of(after, other) == outcome_of(q, other)
            &&& q.outcomes.len() < MAX_COMPLETED_QUEUE_OUTCOMES ==> {
                &&& outcome_of(after, queue_id) == Some(succeeded)
                &&& outcome_of(after, other) == outcome_of(q, other)
            }
        }),
{
    let after = outcome_recorded(q, queue_id, succeeded);
    let others = kept(q.outcomes, outcome_for_others(queue_id));
    let wanted = outcome_for_others(queue_id);
    let made = QueueOutcomeView { queue_id, succeeded };
    let all = others.push(made);
    let with = InstallQueueView { outcomes: all, ..q };
    kept_are(q.outcomes, wanted);
    recording_keeps_the_queue_sound(q, queue_id, succeeded);
    pruned_outcomes_were_there(all, unreferenced(with));
    outcomes_are_bounded(all, unreferenced(with));
    remembered_outcome_is_told(after, queue_id);
    remembered_outcome_is_told(after, other);
    remembered_outcome_is_told(q, other);
    assert forall|i: int| 0 <= i < after.outcomes.len() implies (#[trigger] after.outcomes[i]) == made
        || (q.outcomes.contains(after.outcomes[i]) && after.outcomes[i].queue_id != queue_id) by {
        assert(after.outcomes.contains(after.outcomes[i]));
        assert(all.contains(after.outcomes[i]));
        let k = choose|k: int| 0 <= k < all.len() && all[k] == after.outcomes[i];
        if k < others.len() {
            assert(all[k] == others[k]);
            assert(wanted(others[k]));
        }
    }
    if outcome_of(after, queue_id) is Some {
        let i = choose|i: int|
            0 <= i < after.outcomes.len() && (#[trigger] after.outcomes[i]).queue_id == queue_id;
        assert(after.outcomes[i] == made);
    }
    if outcome_of(after, other) is Some {
        let i = choose|i: int|
            0 <= i < after.outcomes.len() && (#[trigger] after.outcomes[i]).queue_id == other;
        let k = choose|k: int| 0 <= k < q.outcomes.len() && q.outcomes[k] == after.outcomes[i];
        assert(q.outcomes[k].queue_id == other);
    }
    if q.outcomes.len() < MAX_COMPLETED_QUEUE_OUTCOMES {
        assert(after.outcomes == all);
        assert(all[others.len() as int] == made);
        if outcome_of(q, other) is Some {
            let k = choose|k: int|
                0 <= k < q.outcomes.len() && (#[trigger] q.outcomes[k]).queue_id == other;
            assert(wanted(q.outcomes[k]));
            assert(others.contains(q.outcomes[k]));
            let i = choose|i: int| 0 <= i < others.len() && others[i] == q.outcomes[k];
            assert(all[i] == q.outcomes[k]);
        }
    }
}

/// While a request for content waits or has the lane, the outcome of the request that it depends on is
/// not forgotten, whatever else is recorded.
pub proof fn prerequisite_outcome_is_kept(
    q: InstallQueueView,
    queue_id: Seq<char>,
    succeeded: bool,
    needed: Seq<char>,
    at: int,
)
    requires
        queue_is_sound(q),
        needed != queue_id,
        outcome_of(q, needed) is Some,
        ({
            let asks = if at < 0 {
                q.active->0.spec
            } else {
                q.pending[at].spec
            };
            &&& if at < 0 {
                q.active is Some
            } else {
                at < q.pending.len()
            }
            &&& asks is Content
            &&& asks->prerequisite_queue_id == Some(needed)
        }),
    ensures
        outcome_of(outcome_recorded(q, queue_id, succeeded), needed) == outcome_of(q, needed),
        outcome_of(pruned_queue(q), needed) == outcome_of(q, needed),
{
    let wanted = outcome_for_others(queue_id);
    let others = kept(q.outcomes, wanted);
    let all = others.push(QueueOutcomeView { queue_id, succeeded });
    let with = InstallQueueView { outcomes: all, ..q };
    let after = outcome_recorded(q, queue_id, succeeded);
    kept_are(q.outcomes, wanted);
    recording_keeps_the_queue_sound(q, queue_id, succeeded);
    remembered_outcome_is_told(q, needed);
    remembered_outcome_is_told(after, needed);
    remembered_outcome_is_told(pruned_queue(q), needed);
    let k = choose|k: int|
        0 <= k < q.outcomes.len() && (#[trigger] q.outcomes[k]).queue_id == needed;
    let held = q.outcomes[k];
    assert(wanted(held));
    assert(others.contains(held));
    let i = choose|i: int| 0 <= i < others.len() && others[i] == held;
    assert(all[i] == held);
    assert(all.contains(held));
    assert(q.outcomes.contains(held));
    assert(is_referenced(q, needed)) by {
        if at >= 0 {
            assert(depends_on(q.pending[at].spec, needed));
        }
    }
    assert(is_referenced(with, needed));
    needed_outcomes_stay(all, unreferenced(with), held);
    needed_outcomes_stay(q.outcomes, unreferenced(q), held);
    let a = choose|a: int| 0 <= a < after.outcomes.len() && after.outcomes[a] == held;
    assert(after.outcomes[a].queue_id == needed);
    let b = choose|b: int|
        0 <= b < pruned_queue(q).outcomes.len() && pruned_queue(q).outcomes[b] == held;
    assert(pruned_queue(q).outcomes[b].queue_id == needed);
}

/// A request ends with the outcome that is given, and only where it has the lane and is named: by its
/// session, or by its own identity where no session carries it out. The lane is then free, those that
/// wait go on waiting, and the request is handed back.
pub proof fn completed_request_frees_the_lane(
    q: InstallQueueView,
    id: Seq<char>,
    succeeded: bool,
)
    requires
        queue_is_sound(q),
    ensures
        ({
            let (after, ended) = session_completed(q, id, succeeded);
            &&& ended is Some <==> (q.active matches Some(active) && active.install_id == Some(id))
            &&& ended is None ==> after == q
            &&& ended is Some ==> {
                &&& ended == q.active
                &&& after.active is None
                &&& after.pending == q.pending
                &&& q.outcomes.len() < MAX_COMPLETED_QUEUE_OUTCOMES ==> outcome_of(
                    after,
                    q.active->0.queue_id,
                ) == Some(succeeded)
            }
        }),
        ({
            let (after, ended) = reservation_completed(q, id, succeeded);
            &&& ended is Some <==> (q.active matches Some(active) && active.queue_id == id
                && active.install_id is None)
            &&& ended is None ==> after == q
            &&& ended is Some ==> {
                &&& ended == q.active
                &&& after.active is None
                &&& after.pending == q.pending
                &&& q.outcomes.len() < MAX_COMPLETED_QUEUE_OUTCOMES ==> outcome_of(after, id) == Some(
                    succeeded,
                )
            }
        }),
        ({
            let (after, answer) = start_failure_settled(q, id);
            let mine = q.active matches Some(active) && active.queue_id == id;
            &&& !mine ==> answer is Settled && after == q
            &&& mine && q.active->0.install_id is Some ==> {
                &&& answer matches InstallQueueStartFailureDispositionView::Started { install_id }
                    && Some(install_id) == q.active->0.install_id
                &&& after == q
            }
            &&& mine && q.active->0.install_id is None ==> {
                &&& answer is CompletedUnlinked
                &&& after.active is None
                &&& after.pending == q.pending
                &&& q.outcomes.len() < MAX_COMPLETED_QUEUE_OUTCOMES ==> outcome_of(after, id) == Some(
                    false,
                )
            }
        }),
{
    if q.active is Some {
        let free = InstallQueueView { active: None, ..q };
        let mine = q.active->0.queue_id;
        assert(mine.push('x').len() != mine.len());
        recording_an_outcome_changes_that_one(free, mine, succeeded, mine.push('x'));
        recording_an_outcome_changes_that_one(free, mine, false, mine.push('x'));
    }
}

/// A request that is dropped or taken out leaves no outcome: what was remembered stays or is forgotten,
/// and the others wait in the same order.
pub proof fn dropped_request_leaves_no_outcome(
    q: InstallQueueView,
    queue_id: Seq<char>,
    other: Seq<char>,
)
    requires
        queue_is_sound(q),
    ensures
        ({
            let (after, dropped) = lane_discarded(q, queue_id);
            &&& dropped <==> (q.active matches Some(active) && active.queue_id == queue_id
                && active.install_id is None)
            &&& !dropped ==> after == q
            &&& dropped ==> after.active is None && after.pending == q.pending
            &&& outcome_of(after, other) is None || outcome_of(after, other) == outcome_of(q, other)
        }),
        ({
            let (after, taken) = request_removed(q, queue_id);
            &&& after.active == q.active
            &&& outcome_of(after, other) is None || outcome_of(after, other) == outcome_of(q, other)
            &&& taken is None <==> forall|i: int|
                0 <= i < q.pending.len() ==> (#[trigger] q.pending[i]).queue_id != queue_id
            &&& taken is None ==> after == q
            &&& taken matches Some(entry) ==> {
                &&& entry.queue_id == queue_id
                &&& after.pending.len() == q.pending.len() - 1
                &&& exists|at: int|
                    0 <= at < q.pending.len() && #[trigger] q.pending[at] == entry
                        && after.pending == q.pending.take(at) + q.pending.skip(at + 1)
            }
        }),
{
    let wanted = queued_as(queue_id);
    first_place_found(q.pending, wanted);
    let place = first_place(q.pending, wanted);
    let free = InstallQueueView { active: None, ..q };
    let less = InstallQueueView { pending: q.pending.remove(place), ..q };
    outcomes_only_leave(q, free, other);
    outcomes_only_leave(q, less, other);
    if place < q.pending.len() {
        assert(wanted(q.pending[place]));
        assert(q.pending.remove(place) =~= q.pending.take(place) + q.pending.skip(place + 1));
    } else {
        assert forall|i: int| 0 <= i < q.pending.len() implies (#[trigger] q.pending[i]).queue_id
            != queue_id by {
            assert(!wanted(q.pending[i]));
        }
    }
}

proof fn outcomes_only_leave(q: InstallQueueView, changed: InstallQueueView, other: Seq<char>)
    requires
        queue_is_sound(q),
        changed.outcomes == q.outcomes,
    ensures
        ({
            let after = pruned_queue(changed);
            outcome_of(after, other) is None || outcome_of(after, other) == outcome_of(q, other)
        }),
{
    let after = pruned_queue(changed);
    let bare = InstallQueueView { active: None, pending: Seq::empty(), outcomes: q.outcomes };
    recording_keeps_the_queue_sound(bare, other, true);
    pruned_outcomes_were_there(q.outcomes, unreferenced(changed));
    pruning_keeps_outcomes_apart(
        q.outcomes,
        unreferenced(changed),
    );
    remembered_outcome_is_told(q, other);
    remembered_outcome_is_told(after, other);
    if outcome_of(after, other) is Some {
        let i = choose|i: int|
            0 <= i < after.outcomes.len() && (#[trigger] after.outcomes[i]).queue_id == other;
        assert(after.outcomes.contains(after.outcomes[i]));
        let k = choose|k: int| 0 <= k < q.outcomes.len() && q.outcomes[k] == after.outcomes[i];
        assert(q.outcomes[k].queue_id == other);
    }
}

proof fn session_at(s: Sessions, at: int)
    requires
        sessions_are_apart(s),
        0 <= at < s.len(),
    ensures
        first_place(s, named(s[at].install_id)) == at,
        session_of(s, s[at].install_id) == Some(s[at]),
{
    let wanted = named(s[at].install_id);
    assert forall|i: int| 0 <= i < at implies !wanted(#[trigger] s[i]) by {
        assert(s[i].install_id != s[at].install_id);
    }
    first_place_is(s, wanted, at);
}

proof fn no_session(s: Sessions, install_id: Seq<char>)
    requires
        forall|i: int| 0 <= i < s.len() ==> (#[trigger] s[i]).install_id != install_id,
    ensures
        session_of(s, install_id) is None,
{
    let wanted = named(install_id);
    assert forall|i: int| 0 <= i < s.len() implies !wanted(#[trigger] s[i]) by {}
    first_place_is(s, wanted, s.len() as int);
}

/// A session is found by its identity.
pub proof fn session_is_found(s: Sessions, install_id: Seq<char>)
    requires
        sessions_are_apart(s),
    ensures
        forall|i: int|
            0 <= i < s.len() && (#[trigger] s[i]).install_id == install_id ==> session_of(
                s,
                install_id,
            ) == Some(s[i]),
        session_of(s, install_id) is None <==> forall|i: int|
            0 <= i < s.len() ==> (#[trigger] s[i]).install_id != install_id,
{
    if forall|i: int| 0 <= i < s.len() ==> (#[trigger] s[i]).install_id != install_id {
        no_session(s, install_id);
    } else {
        let at = choose|at: int| 0 <= at < s.len() && (#[trigger] s[at]).install_id == install_id;
        session_at(s, at);
        assert forall|i: int| 0 <= i < s.len() && (#[trigger] s[i]).install_id == install_id implies
            session_of(s, install_id) == Some(s[i]) by {
            session_at(s, i);
        }
    }
}

/// Whether only the session at a place may have changed, and not who it is.
pub open spec fn only_this_changes(before: Sessions, after: Sessions, at: int) -> bool {
    &&& after.len() == before.len()
    &&& forall|i: int| 0 <= i < before.len() && i != at ==> #[trigger] after[i] == before[i]
    &&& after[at].install_id == before[at].install_id
    &&& after[at].operation_id == before[at].operation_id
    &&& after[at].key == before[at].key
    &&& after[at].started_at_ms == before[at].started_at_ms
}

/// Whether a session shows this progress as its last: it has ended, and its phase, its counts, its
/// file, its error and its bytes are those that were given.
pub open spec fn has_ended_with(session: InstallSessionView, progress: DownloadProgressView) -> bool {
    &&& session.done
    &&& session.latest is Some
    &&& session.latest->0.progress.done
    &&& session.latest->0.progress.phase == progress.phase
    &&& session.latest->0.progress.current == progress.current
    &&& session.latest->0.progress.total == progress.total
    &&& session.latest->0.progress.file == progress.file
    &&& session.latest->0.progress.error == progress.error
    &&& session.latest->0.progress.bytes_done == progress.bytes_done
    &&& session.latest->0.progress.bytes_total == progress.bytes_total
}

/// A session that is ended shows the very progress it was ended with, and is done. One that has ended
/// already, or whose end is reserved, is not ended again, and no other session changes.
pub proof fn ended_session_shows_its_end(s: Sessions, at: int, progress: DownloadProgressView)
    requires
        sessions_are_apart(s),
        0 <= at < s.len(),
    ensures
        ({
            let (after, ended) = finished(s, s[at].install_id, progress);
            &&& ended <==> !s[at].done && !s[at].terminalizing
            &&& !ended ==> after == s
            &&& ended ==> {
                &&& only_this_changes(s, after, at)
                &&& has_ended_with(after[at], progress)
                &&& after[at].latest->0.vanilla_event_json is None
                &&& after[at].latest->0.loader_event_json is None
                &&& !after[at].terminalizing
                &&& after[at].initializing == s[at].initializing
                &&& after[at].initialization_reconciling == s[at].initialization_reconciling
                &&& snapshot_of(after, s[at].install_id) is Some
                &&& snapshot_of(after, s[at].install_id)->0.done
                &&& snapshot_of(after, s[at].install_id)->0.latest == after[at].latest
            }
        }),
{
    session_at(s, at);
    let after = finished(s, s[at].install_id, progress).0;
    if !s[at].done && !s[at].terminalizing {
        changed_stay_apart(s, after, at);
        session_at(after, at);
    }
}

proof fn changed_stay_apart(s: Sessions, after: Sessions, at: int)
    requires
        sessions_are_apart(s),
        0 <= at < s.len(),
        only_this_changes(s, after, at),
    ensures
        sessions_are_apart(after),
{
    assert forall|i: int, j: int| 0 <= i < j < after.len() implies (#[trigger] after[i]).install_id
        != (#[trigger] after[j]).install_id && after[i].operation_id != after[j].operation_id by {
        assert(s[i].install_id != s[j].install_id);
        assert(i != at ==> after[i] == s[i]);
        assert(j != at ==> after[j] == s[j]);
    }
}

/// A session that has not ended, and whose end is not reserved, shows the progress that it is sent,
/// with the texts about it, and has ended where the progress says so. Any other one stays as it is.
pub proof fn session_shows_its_progress(s: Sessions, at: int, record: InstallProgressRecordView)
    requires
        sessions_are_apart(s),
        0 <= at < s.len(),
    ensures
        ({
            let (after, taken) = record_emitted(s, s[at].install_id, record);
            &&& taken <==> !s[at].done && !s[at].terminalizing
            &&& !taken ==> after == s
            &&& taken ==> {
                &&& only_this_changes(s, after, at)
                &&& after[at].latest == Some(record)
                &&& after[at].done == record.progress.done
                &&& after[at].terminalizing == s[at].terminalizing
                &&& after[at].initializing == s[at].initializing
                &&& after[at].initialization_reconciling == s[at].initialization_reconciling
            }
        }),
{
    session_at(s, at);
}

/// A session whose end is reserved takes nothing in but its end, and then shows it. Where the end is
/// given up, the session is as it was before.
pub proof fn reserved_end_is_kept(
    s: Sessions,
    at: int,
    progress: DownloadProgressView,
    record: InstallProgressRecordView,
)
    requires
        sessions_are_apart(s),
        0 <= at < s.len(),
    ensures
        ({
            let id = s[at].install_id;
            let (reserved, taken) = end_reserved(s, id);
            &&& taken <==> !s[at].done && !s[at].terminalizing
            &&& !taken ==> reserved == s
            &&& reserved_finished(s, id, progress).1 <==> !s[at].done && s[at].terminalizing
            &&& !reserved_finished(s, id, progress).1 ==> reserved_finished(s, id, progress).0 == s
            &&& taken ==> {
                &&& only_this_changes(s, reserved, at)
                &&& reserved[at].terminalizing
                &&& !reserved[at].done
                &&& reserved[at].latest == s[at].latest
                &&& reserved[at].initializing == s[at].initializing
                &&& reserved[at].initialization_reconciling == s[at].initialization_reconciling
                &&& record_emitted(reserved, id, record) == (reserved, false)
                &&& end_reserved(reserved, id) == (reserved, false)
                &&& finished(reserved, id, progress) == (reserved, false)
                &&& end_given_up(reserved, id) == s
                &&& reserved_finished(reserved, id, progress).1
                &&& only_this_changes(s, reserved_finished(reserved, id, progress).0, at)
                &&& has_ended_with(reserved_finished(reserved, id, progress).0[at], progress)
                &&& !reserved_finished(reserved, id, progress).0[at].terminalizing
            }
        }),
{
    session_at(s, at);
    let reserved = end_reserved(s, s[at].install_id).0;
    if !s[at].done && !s[at].terminalizing {
        changed_stay_apart(s, reserved, at);
        session_at(reserved, at);
        assert(end_given_up(reserved, s[at].install_id) =~= s);
    }
}

/// When the work on a session has ended with a result, the session shows that result once it has been
/// settled. Work that is left for later changes nothing, and a session that has ended is left alone.
pub proof fn settled_work_shows_in_its_session(
    s: Sessions,
    at: int,
    exit: InstallWorkerExitView,
    interrupted: DownloadProgressView,
    progress: DownloadProgressView,
)
    requires
        sessions_are_apart(s),
        0 <= at < s.len(),
    ensures
        ({
            let id = s[at].install_id;
            let (after, step) = work_ended(s, id, exit, interrupted);
            let over = s[at].done || s[at].terminalizing;
            &&& exit is DeferredNonterminal ==> step is Defer && after == s
            &&& exit !is DeferredNonterminal && over ==> step is Stop && after == s
            &&& exit !is DeferredNonterminal && !over ==> {
                &&& (exit matches InstallWorkerExitView::ReconcileTerminal(told) ==> step
                    == WorkerStepView::Reconcile(told))
                &&& (exit is InterruptIfActive ==> step == WorkerStepView::Interrupt(interrupted))
                &&& work_settled(after, id, Some(progress)).1
                &&& only_this_changes(s, work_settled(after, id, Some(progress)).0, at)
                &&& has_ended_with(work_settled(after, id, Some(progress)).0[at], progress)
                &&& !work_settled(after, id, None).1
                &&& work_settled(after, id, None).0 == s
            }
        }),
{
    reserved_end_is_kept(
        s,
        at,
        progress,
        InstallProgressRecordView { progress, vanilla_event_json: None, loader_event_json: None },
    );
}

/// The preparation of a session goes on until it is said to be done, and says meanwhile whether it is
/// being reconciled. Nothing else of the session changes.
pub proof fn preparation_is_followed(s: Sessions, at: int)
    requires
        sessions_are_apart(s),
        0 <= at < s.len(),
    ensures
        ({
            let id = s[at].install_id;
            let (ready, found) = initialized(s, id);
            let (open, reconciling) = initialization_reconciled(s, id);
            &&& found
            &&& only_this_changes(s, ready, at)
            &&& ready[at].latest == s[at].latest
            &&& ready[at].done == s[at].done
            &&& ready[at].terminalizing == s[at].terminalizing
            &&& preparation_of(ready, id) == Some(InstallInitializationStatus::Initialized)
            &&& reconciling <==> s[at].initializing
            &&& !reconciling ==> open == s
            &&& reconciling ==> {
                &&& only_this_changes(s, open, at)
                &&& open[at].latest == s[at].latest
                &&& open[at].done == s[at].done
                &&& open[at].terminalizing == s[at].terminalizing
                &&& open[at].initializing
                &&& preparation_of(open, id) == Some(InstallInitializationStatus::Reconciling)
            }
            &&& s[at].initializing && !s[at].initialization_reconciling ==> preparation_of(s, id)
                is None
        }),
{
    session_at(s, at);
    let id = s[at].install_id;
    changed_stay_apart(s, initialized(s, id).0, at);
    session_at(initialized(s, id).0, at);
    if s[at].initializing {
        changed_stay_apart(s, initialization_reconciled(s, id).0, at);
        session_at(initialization_reconciled(s, id).0, at);
    }
}

/// What is sent to a session that there is not changes nothing, and nothing is shown of it.
pub proof fn unknown_session_is_left_alone(
    s: Sessions,
    install_id: Seq<char>,
    progress: DownloadProgressView,
    record: InstallProgressRecordView,
)
    requires
        forall|i: int| 0 <= i < s.len() ==> (#[trigger] s[i]).install_id != install_id,
    ensures
        finished(s, install_id, progress) == (s, false),
        record_emitted(s, install_id, record) == (s, false),
        end_reserved(s, install_id) == (s, false),
        reserved_finished(s, install_id, progress) == (s, false),
        end_given_up(s, install_id) == s,
        initialized(s, install_id) == (s, false),
        initialization_reconciled(s, install_id) == (s, false),
        session_removed(s, install_id) == (s, false),
        snapshot_of(s, install_id) is None,
        preparation_of(s, install_id) == Some(InstallInitializationStatus::Removed),
{
    no_session(s, install_id);
}

/// What is shown of a session: its operation, its latest progress, whether it has ended, and whether it
/// installs a loader. A session that is removed is gone, and the others stay in their order.
pub proof fn shown_session_is_the_one_asked_for(s: Sessions, at: int)
    requires
        sessions_are_apart(s),
        0 <= at < s.len(),
    ensures
        ({
            let id = s[at].install_id;
            let shown = snapshot_of(s, id)->0;
            let (after, removed) = session_removed(s, id);
            &&& snapshot_of(s, id) is Some
            &&& shown.operation_id == s[at].operation_id
            &&& shown.latest == s[at].latest
            &&& shown.done == s[at].done
            &&& shown.loader_install <==> (s[at].key matches Some(key)
                && key is Loader)
            &&& removed
            &&& after == s.take(at) + s.skip(at + 1)
        }),
{
    session_at(s, at);
    assert(s.remove(at) =~= s.take(at) + s.skip(at + 1));
}

/// The sessions that have not ended are all there, and no others.
pub proof fn live_sessions_have_not_ended(s: Sessions)
    ensures
        forall|session: InstallSessionView| #[trigger]
            live_sessions(s).contains(session) <==> s.contains(session) && !session.done,
        live_sessions(s).len() == 0 <==> forall|i: int| 0 <= i < s.len() ==> (#[trigger] s[i]).done,
        live_sessions(s).len() <= s.len(),
{
    let wanted = live();
    kept_are(s, wanted);
    let left = live_sessions(s);
    assert forall|session: InstallSessionView| #[trigger] left.contains(session) <==> s.contains(
        session,
    ) && !session.done by {
        if left.contains(session) {
            let i = choose|i: int| 0 <= i < left.len() && left[i] == session;
            assert(wanted(left[i]));
        }
        if s.contains(session) && !session.done {
            let j = choose|j: int| 0 <= j < s.len() && s[j] == session;
            assert(wanted(s[j]));
        }
    }
    if left.len() == 0 {
        assert forall|i: int| 0 <= i < s.len() implies (#[trigger] s[i]).done by {
            if !s[i].done {
                assert(s.contains(s[i]));
                assert(left.contains(s[i]));
            }
        }
    } else {
        assert(left.contains(left[0]));
        let j = choose|j: int| 0 <= j < s.len() && s[j] == left[0];
        assert(!s[j].done);
    }
}

/// Whether a session is as it is when it begins.
pub open spec fn has_just_begun(
    session: InstallSessionView,
    install_id: Seq<char>,
    operation_id: OperationId,
    now_ms: u64,
) -> bool {
    &&& session.install_id == install_id
    &&& session.operation_id == operation_id
    &&& session.started_at_ms == now_ms
    &&& session.latest is None
    &&& !session.done
    &&& !session.initialization_reconciling
    &&& !session.terminalizing
}

/// A session is admitted where no session that has not ended has its identity or its operation. It is
/// new, and comes after those that go on. Asking again for a session that installs nothing in
/// particular is in order; any other clash is refused, and then nobody is added.
pub proof fn admitted_session_is_new(
    s: Sessions,
    install_id: Seq<char>,
    operation_id: OperationId,
    now_ms: u64,
)
    requires
        sessions_are_apart(s),
    ensures
        ({
            let (after, answer) = admitted(s, install_id, operation_id, now_ms);
            let clash = exists|i: int|
                0 <= i < s.len() && !(#[trigger] s[i]).done && s[i].install_id == install_id;
            let shared = exists|i: int|
                0 <= i < s.len() && !(#[trigger] s[i]).done && s[i].operation_id == operation_id;
            let same = exists|i: int|
                0 <= i < s.len() && !(#[trigger] s[i]).done && s[i].install_id == install_id
                    && s[i].operation_id == operation_id && s[i].key is None;
            &&& !clash && !shared ==> {
                &&& answer is Ok
                &&& after.len() == live_sessions(s).len() + 1
                &&& after.drop_last() == live_sessions(s)
                &&& has_just_begun(after.last(), install_id, operation_id, now_ms)
                &&& after.last().key is None
                &&& !after.last().initializing
            }
            &&& clash || shared ==> after == live_sessions(s)
            &&& same ==> answer is Ok
            &&& clash && !same ==> answer == Err::<(), _>(InstallAdmissionError::InstallIdCollision)
            &&& !clash && shared ==> answer == Err::<(), _>(
                InstallAdmissionError::OperationIdCollision,
            )
        }),
{
    live_view(s, install_id, operation_id);
    let left = live_sessions(s);
    admission_keeps_sessions_apart(
        s,
        install_id,
        operation_id,
        InstallKeyView::Vanilla { version_id: install_id },
        false,
        now_ms,
    );
    assert(left.push(admitted(s, install_id, operation_id, now_ms).0.last()).drop_last() =~= left);
    if session_of(left, install_id) is Some {
        let at = first_place(left, named(install_id));
        first_place_found(left, named(install_id));
        assert(left.contains(left[at]));
        let i = choose|i: int| 0 <= i < s.len() && s[i] == left[at];
        assert(s[i].install_id == install_id && !s[i].done);
        assert forall|j: int|
            0 <= j < s.len() && !(#[trigger] s[j]).done && s[j].install_id == install_id implies s[j]
            == left[at] by {
            if i < j {
                assert(s[i].install_id != s[j].install_id);
            }
            if j < i {
                assert(s[j].install_id != s[i].install_id);
            }
        }
    }
}

proof fn live_view(s: Sessions, install_id: Seq<char>, operation_id: OperationId)
    requires
        sessions_are_apart(s),
    ensures
        sessions_are_apart(live_sessions(s)),
        forall|session: InstallSessionView| #[trigger]
            live_sessions(s).contains(session) <==> s.contains(session) && !session.done,
        session_of(live_sessions(s), install_id) is Some <==> exists|i: int|
            0 <= i < s.len() && !(#[trigger] s[i]).done && s[i].install_id == install_id,
        uses_operation(live_sessions(s), operation_id) <==> exists|i: int|
            0 <= i < s.len() && !(#[trigger] s[i]).done && s[i].operation_id == operation_id,
{
    let left = live_sessions(s);
    live_sessions_have_not_ended(s);
    admission_keeps_sessions_apart(
        s,
        install_id,
        operation_id,
        InstallKeyView::Vanilla { version_id: install_id },
        false,
        0,
    );
    session_is_found(left, install_id);
    if session_of(left, install_id) is Some {
        let k = choose|k: int| 0 <= k < left.len() && (#[trigger] left[k]).install_id == install_id;
        assert(left.contains(left[k]));
        let i = choose|i: int| 0 <= i < s.len() && s[i] == left[k];
        assert(!s[i].done && s[i].install_id == install_id);
    }
    if exists|i: int| 0 <= i < s.len() && !(#[trigger] s[i]).done && s[i].install_id == install_id {
        let i = choose|i: int|
            0 <= i < s.len() && !(#[trigger] s[i]).done && s[i].install_id == install_id;
        assert(s.contains(s[i]));
        assert(left.contains(s[i]));
        let k = choose|k: int| 0 <= k < left.len() && left[k] == s[i];
        assert(left[k].install_id == install_id);
    }
    if uses_operation(left, operation_id) {
        let k = choose|k: int|
            0 <= k < left.len() && (#[trigger] left[k]).operation_id == operation_id;
        assert(left.contains(left[k]));
        let i = choose|i: int| 0 <= i < s.len() && s[i] == left[k];
        assert(!s[i].done && s[i].operation_id == operation_id);
    }
    if exists|i: int|
        0 <= i < s.len() && !(#[trigger] s[i]).done && s[i].operation_id == operation_id {
        let i = choose|i: int|
            0 <= i < s.len() && !(#[trigger] s[i]).done && s[i].operation_id == operation_id;
        assert(s.contains(s[i]));
        assert(left.contains(s[i]));
        let k = choose|k: int| 0 <= k < left.len() && left[k] == s[i];
        assert(left[k].operation_id == operation_id);
    }
}

/// A session that installs something is admitted where no session that has not ended has its identity
/// or its operation, and it then installs that. Otherwise it is refused and nobody is added.
pub proof fn admitted_session_installs_what_was_asked(
    s: Sessions,
    install_id: Seq<char>,
    operation_id: OperationId,
    key: InstallKeyView,
    initializing: bool,
    now_ms: u64,
)
    requires
        sessions_are_apart(s),
    ensures
        ({
            let (after, answer) = key_admitted(
                s,
                install_id,
                operation_id,
                key,
                initializing,
                now_ms,
            );
            let clash = exists|i: int|
                0 <= i < s.len() && !(#[trigger] s[i]).done && s[i].install_id == install_id;
            let shared = exists|i: int|
                0 <= i < s.len() && !(#[trigger] s[i]).done && s[i].operation_id == operation_id;
            &&& !clash && !shared ==> {
                &&& answer is Ok
                &&& after.len() == live_sessions(s).len() + 1
                &&& after.drop_last() == live_sessions(s)
                &&& has_just_begun(after.last(), install_id, operation_id, now_ms)
                &&& after.last().key == Some(key)
                &&& after.last().initializing == initializing
            }
            &&& clash || shared ==> after == live_sessions(s)
            &&& clash ==> answer == Err::<(), _>(InstallAdmissionError::InstallIdCollision)
            &&& !clash && shared ==> answer == Err::<(), _>(
                InstallAdmissionError::OperationIdCollision,
            )
        }),
{
    live_view(s, install_id, operation_id);
    let left = live_sessions(s);
    let after = key_admitted(s, install_id, operation_id, key, initializing, now_ms).0;
    assert(left.push(after.last()).drop_last() =~= left);
}

/// Where a session that has not ended installs the same, that one is named and nobody is added.
/// Otherwise a new one is admitted, which is still being prepared.
pub proof fn running_session_is_taken(
    s: Sessions,
    install_id: Seq<char>,
    operation_id: OperationId,
    key: InstallKeyView,
    now_ms: u64,
)
    requires
        sessions_are_apart(s),
    ensures
        ({
            let (after, answer) = admitted_or_existing(s, install_id, operation_id, key, now_ms);
            let runs = exists|i: int|
                0 <= i < s.len() && !(#[trigger] s[i]).done && s[i].key == Some(key);
            let fresh = key_admitted(s, install_id, operation_id, key, true, now_ms);
            &&& runs ==> {
                &&& after == live_sessions(s)
                &&& answer is Ok
                &&& !(answer->Ok_0).1
                &&& exists|i: int|
                    0 <= i < s.len() && !(#[trigger] s[i]).done && s[i].key == Some(key)
                        && s[i].install_id == (answer->Ok_0).0
            }
            &&& !runs ==> {
                &&& after == fresh.0
                &&& answer is Ok <==> fresh.1 is Ok
                &&& answer is Ok ==> answer->Ok_0 == (install_id, true)
                &&& answer is Err ==> answer->Err_0 == fresh.1->Err_0
            }
        }),
{
    let left = live_sessions(s);
    let wanted = installing(key);
    live_sessions_have_not_ended(s);
    first_place_found(left, wanted);
    let place = first_place(left, wanted);
    if place < left.len() {
        assert(wanted(left[place]));
        assert(left.contains(left[place]));
        let i = choose|i: int| 0 <= i < s.len() && s[i] == left[place];
        assert(!s[i].done && s[i].key == Some(key));
    }
    if exists|i: int| 0 <= i < s.len() && !(#[trigger] s[i]).done && s[i].key == Some(key) {
        let i = choose|i: int| 0 <= i < s.len() && !(#[trigger] s[i]).done && s[i].key == Some(key);
        assert(s.contains(s[i]));
        assert(left.contains(s[i]));
        let k = choose|k: int| 0 <= k < left.len() && left[k] == s[i];
        assert(wanted(left[k]));
    }
}

/// The session that is named as installing something has not ended and installs that; none is named
/// only where there is none.
pub proof fn session_that_installs_is_named(s: Sessions, key: InstallKeyView)
    ensures
        session_installing(s, key) matches Some(id) ==> exists|i: int|
            0 <= i < s.len() && !(#[trigger] s[i]).done && s[i].key == Some(key) && s[i].install_id
                == id,
        session_installing(s, key) is None <==> forall|i: int|
            0 <= i < s.len() ==> (#[trigger] s[i]).done || s[i].key != Some(key),
{
    let wanted = installing(key);
    first_place_found(s, wanted);
    let place = first_place(s, wanted);
    if place < s.len() {
        assert(wanted(s[place]));
        assert(!s[place].done && s[place].key == Some(key));
    } else {
        assert forall|i: int| 0 <= i < s.len() implies (#[trigger] s[i]).done || s[i].key != Some(
            key,
        ) by {
            assert(!wanted(s[i]));
        }
    }
}

/// What a session installs tells it apart: a version by its name, a loader by its component and build.
pub proof fn install_keys_tell_apart(
    version: Seq<char>,
    other: Seq<char>,
    component: LoaderComponentId,
    another: LoaderComponentId,
)
    ensures
        vanilla_key(version) == vanilla_key(other) <==> version == other,
        loader_key(component, version) == loader_key(another, other) <==> component == another
            && version == other,
        vanilla_key(version) is Vanilla,
        loader_key(component, version) is Loader,
{
}

/// The lane is reserved for the request that waits first, and for nobody while a session runs. The
/// sessions stay as they are.
pub proof fn lane_is_reserved_for_the_first(store: InstallStoreView)
    ensures
        ({
            let (after, answer) = lane_reserved(store);
            let busy = exists|i: int| 0 <= i < store.sessions.len() && !(#[trigger] store.sessions[i]).done;
            let waits = store.queue.active is None && store.queue.pending.len() > 0;
            &&& after.sessions == store.sessions
            &&& busy ==> answer is BlockedByLiveSession && after == store
            &&& !busy && !waits ==> answer is Empty && after == store
            &&& !busy && waits ==> {
                &&& answer == InstallQueueReservationView::Reserved(store.queue.pending[0])
                &&& after.queue.active is Some
                &&& after.queue.active->0.queue_id == store.queue.pending[0].queue_id
                &&& after.queue.active->0.spec == store.queue.pending[0].spec
                &&& after.queue.active->0.install_id is None
                &&& after.queue.pending == store.queue.pending.skip(1)
                &&& after.queue.outcomes == store.queue.outcomes
            }
        }),
{
    live_sessions_have_not_ended(store.sessions);
    if store.queue.pending.len() > 0 {
        assert(store.queue.pending.skip(1) =~= store.queue.pending.subrange(
            1,
            store.queue.pending.len() as int,
        ));
    }
}

/// A session begins for the request that has the lane where no other session runs, and the request is
/// then carried out by it. A session that runs alone and installs the same is taken instead. Any other
/// session is in the way, and a request that does not have the lane, or has a session, gets none.
pub proof fn session_begins_for_the_active_request(
    store: InstallStoreView,
    queue_id: Seq<char>,
    install_id: Seq<char>,
    operation_id: OperationId,
    key: Option<InstallKeyView>,
    initializing: bool,
    now_ms: u64,
)
    ensures
        ({
            let (after, answer) = queued_admitted(
                store,
                queue_id,
                install_id,
                operation_id,
                key,
                initializing,
                now_ms,
            );
            let mine = store.queue.active matches Some(active) && active.queue_id == queue_id
                && active.install_id is None;
            let left = live_sessions(store.sessions);
            let taken = left.len() == 1 && key is Some && left[0].key == key;
            &&& after.queue.pending == store.queue.pending
            &&& after.queue.outcomes == store.queue.outcomes
            &&& !mine ==> answer is ReservationLost && after == store
            &&& mine ==> {
                &&& after.queue.active is Some
                &&& after.queue.active->0.queue_id == queue_id
                &&& after.queue.active->0.spec == store.queue.active->0.spec
            }
            &&& mine && left.len() == 0 ==> {
                &&& answer is Inserted
                &&& after.sessions.len() == 1
                &&& has_just_begun(after.sessions[0], install_id, operation_id, now_ms)
                &&& after.sessions[0].key == key
                &&& after.sessions[0].initializing == initializing
                &&& after.queue.active->0.install_id == Some(install_id)
                &&& after.queue.active->0.install_started_at_ms == Some(now_ms)
            }
            &&& mine && taken ==> {
                &&& answer == (InstallQueueAdmissionView::Existing {
                    install_id: left[0].install_id,
                    operation_id: left[0].operation_id,
                })
                &&& after.sessions == left
                &&& after.queue.active->0.install_id == Some(left[0].install_id)
                &&& after.queue.active->0.install_started_at_ms == Some(left[0].started_at_ms)
            }
            &&& mine && left.len() > 0 && !taken ==> {
                &&& answer is BlockedByLiveSession
                &&& after.sessions == left
                &&& after.queue == store.queue
            }
        }),
{
}

/// A session is said to carry out the request that has the lane, and no other. The request keeps the
/// time at which it began; where it has none, the session's counts, and else the present.
pub proof fn started_request_names_its_session(
    store: InstallStoreView,
    queue_id: Seq<char>,
    install_id: Seq<char>,
    now_ms: u64,
)
    ensures
        ({
            let (after, marked) = start_marked(store, queue_id, install_id, now_ms);
            &&& marked <==> (store.queue.active matches Some(active) && active.queue_id == queue_id)
            &&& !marked ==> after == store
            &&& marked ==> {
                let before = store.queue.active->0;
                let now = after.queue.active->0;
                &&& after.sessions == store.sessions
                &&& after.queue.pending == store.queue.pending
                &&& after.queue.outcomes == store.queue.outcomes
                &&& after.queue.active is Some
                &&& now.queue_id == queue_id
                &&& now.spec == before.spec
                &&& now.install_id == Some(install_id)
                &&& before.install_started_at_ms is Some ==> now.install_started_at_ms
                    == before.install_started_at_ms
                &&& before.install_started_at_ms is None ==> now.install_started_at_ms == Some(
                    match session_of(store.sessions, install_id) {
                        Some(session) => session.started_at_ms,
                        None => now_ms,
                    },
                )
            }
        }),
{
}

/// What is kept of a list stands in its order.
pub proof fn kept_items_stay_in_order<A>(s: Seq<A>, wanted: spec_fn(A) -> bool, i: int, j: int)
    requires
        0 <= i < j < kept(s, wanted).len(),
    ensures
        exists|a: int, b: int|
            0 <= a < b < s.len() && #[trigger] s[a] == kept(s, wanted)[i] && #[trigger] s[b] == kept(
                s,
                wanted,
            )[j],
    decreases s.len(),
{
    let rest = s.drop_last();
    let k = kept(s, wanted);
    let r = kept(rest, wanted);
    if j < r.len() {
        kept_items_stay_in_order(rest, wanted, i, j);
        let (a, b) = choose|a: int, b: int|
            0 <= a < b < rest.len() && #[trigger] rest[a] == r[i] && #[trigger] rest[b] == r[j];
        assert(s[a] == k[i] && s[b] == k[j]);
    } else {
        kept_are(rest, wanted);
        assert(rest.contains(r[i]));
        let a = choose|a: int| 0 <= a < rest.len() && rest[a] == r[i];
        assert(s[a] == k[i]);
        assert(s[s.len() - 1] == k[j]);
    }
}

/// A session that takes progress in shows that very progress, and no texts about it.
pub proof fn emitted_progress_shows(s: Sessions, at: int, progress: DownloadProgressView)
    requires
        sessions_are_apart(s),
        0 <= at < s.len(),
        !s[at].done,
        !s[at].terminalizing,
    ensures
        ({
            let (after, taken) = record_emitted(
                s,
                s[at].install_id,
                plain_record(progress),
            );
            &&& taken
            &&& only_this_changes(s, after, at)
            &&& after[at].latest is Some
            &&& after[at].latest->0.progress == progress
            &&& after[at].latest->0.vanilla_event_json is None
            &&& after[at].latest->0.loader_event_json is None
            &&& after[at].done <==> progress.done
        }),
{
    session_shows_its_progress(s, at, plain_record(progress));
}

/// Progress that is recorded with its texts gives back the one for a loader to who installs a loader,
/// and the other one to who installs a version of the game. Without texts nothing is sent.
pub proof fn recorded_texts_are_given_back(
    progress: DownloadProgressView,
    vanilla: Seq<char>,
    loader: Seq<char>,
    loader_install: bool,
)
    ensures
        ({
            let record = told_record(progress, vanilla, loader);
            let plain = plain_record(progress);
            &&& record.progress == progress
            &&& event_text(record, true) == Some(loader)
            &&& event_text(record, false) == Some(vanilla)
            &&& plain.progress == progress
            &&& event_text(plain, loader_install) is None
        }),
{
}

/// A request is about the version that it installs, or the instance whose content it changes.
pub proof fn request_names_its_target(spec: InstallQueueSpecView)
    ensures
        spec is Vanilla ==> target_of(spec) == spec->Vanilla_version_id,
        spec is Loader ==> target_of(spec) == spec->Loader_target_version_id,
        spec is Content ==> target_of(spec) == spec->Content_instance_id,
{
}

/// What was asked for is stood for by the request itself where it is new, and by the one that was asked
/// for before where it is not.
pub proof fn asked_request_is_stood_for(
    q: InstallQueueView,
    queue_id: Seq<char>,
    spec: InstallQueueSpecView,
    placement: InstallQueuePlacement,
)
    ensures
        ({
            let (after, answer) = enqueued(q, queue_id, spec, placement);
            let id = stands_for(answer);
            &&& answer is Enqueued ==> id == queue_id
            &&& answer is AlreadyActive ==> q.active is Some && q.active->0.queue_id == id
                && q.active->0.spec == spec
            &&& answer is AlreadyQueued || answer is MovedToFront ==> exists|i: int|
                0 <= i < q.pending.len() && (#[trigger] q.pending[i]).queue_id == id
                    && q.pending[i].spec == spec
        }),
{
    let wanted = asking_for(spec);
    first_place_found(q.pending, wanted);
    let place = first_place(q.pending, wanted);
    if place < q.pending.len() {
        assert(wanted(q.pending[place]));
    }
}

/// The time at which the session of a request began is told of the request that has the lane, and of no
/// other. A session is said to carry a request out where it is the one that does.
pub proof fn start_is_told_of_the_active_request(
    q: InstallQueueView,
    queue_id: Seq<char>,
    install_id: Seq<char>,
)
    ensures
        ({
            let mine = q.active is Some && q.active->0.queue_id == queue_id;
            let begun = begun_at(q, queue_id);
            &&& begun is Some <==> mine
            &&& mine ==> begun->0 == q.active->0.install_started_at_ms
            &&& is_started(q, queue_id, install_id) <==> mine
                && q.active->0.install_id is Some && q.active->0.install_id->0 == install_id
        }),
{
}

/// An operation is in use where a session carries it out, also one that has ended.
pub proof fn operation_in_use_has_a_session(s: Sessions, operation_id: OperationId)
    ensures
        !uses_operation(s, operation_id) <==> forall|i: int|
            0 <= i < s.len() ==> (#[trigger] s[i]).operation_id != operation_id,
{
}

/// A worker that broke down has ended with what is said of it, and is left for later where nothing is.
pub proof fn broken_worker_ends_as_it_is_said(outcome: Option<DownloadProgressView>)
    ensures
        outcome is Some ==> failure_exit(outcome)
            == InstallWorkerExitView::ReconcileTerminal(outcome->0),
        outcome is None ==> failure_exit(outcome) is DeferredNonterminal,
{
}

/// Time is counted from the epoch on, and as far as can be counted.
pub proof fn time_is_counted_from_the_epoch(elapsed: Option<u128>)
    ensures
        ({
            let millis = since_epoch(elapsed);
            &&& elapsed is None ==> millis == 0
            &&& elapsed is Some && elapsed->0 <= u64::MAX ==> millis == elapsed->0
            &&& elapsed is Some && elapsed->0 > u64::MAX ==> millis == u64::MAX
        }),
{
}

/// The lane is held by the request that got it, and by nobody where none did.
pub proof fn lane_is_held_by_who_got_it(store: InstallStoreView)
    ensures
        ({
            let answer = lane_reserved(store).1;
            let holder = lane_holder(answer);
            &&& holder is Some <==> answer is Reserved
            &&& holder is Some ==> store.queue.pending.len() > 0 && holder->0
                == store.queue.pending[0]
        }),
{
}

} // verus!

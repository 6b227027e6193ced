//! What holds of performance operations, whatever they are asked to do.

use crate::contracts::{OperationId, OwnershipClass, RollbackState, StabilizationSystem, TargetKind};
use crate::entry::OperationJournalEntryView;
use crate::evidence::{DurableGuardianEvidenceView, TargetDescriptorView};
use crate::guardian_evidence::evidence_position;
use crate::instants::millis_instant;
use crate::journal_errors::{OperationJournalStoreError, OperationJournalValidationError};
use crate::journal_performance::{
    accepted_performance, created_performance, first_free, performance_evidence_recorded, restarted,
    transition_answer, transition_requested, transitioned,
};
use crate::journal_queries::projections;
use crate::journal_revision::JournalMap;
use crate::journal_snapshot::active_performance_instance;
use crate::journal_store::OperationJournalStoreView;
use crate::journal_validation::entry_verdict;
use crate::lifecycle::{
    PerformanceOperationIntentView, PerformanceOperationLifecycleView,
    PerformanceOperationPhaseView, PerformanceOperationPreparedView,
    PerformanceOperationTerminalView, PerformanceOperationTransitionView,
};
use crate::operation_id::operation_text;
use crate::performance::{
    guardian_evidence_is_visible, intent_is_valid, lifecycle_is_valid, phase_prepared,
    prepared_is_valid, terminal_is_valid, transition_shows,
};
use crate::projection::projection_of;
use crate::record_laws::{
    are_taken_in, can_stand, has_ended, merging_takes_in, same_ends, same_findings,
};
use crate::rulings::{ruled_evidence, LauncherRulingsView};
use crate::settlement_laws::is_new_draft;
use crate::tokens::{is_canonical_fragment, is_canonical_safe_token, is_safe_token, is_sha512_text};
use vstd::prelude::*;

verus! {

/// Whether a phase is the end of an operation that succeeded.
pub open spec fn has_succeeded(phase: PerformanceOperationPhaseView) -> bool {
    phase is Terminal && phase->Terminal_terminal is Succeeded
}

/// Whether a phase is the end of an operation that failed.
pub open spec fn has_failed(phase: PerformanceOperationPhaseView) -> bool {
    phase is Terminal && (phase->Terminal_terminal is FailedBeforeEffect
        || phase->Terminal_terminal is FailedAfterEffect)
}

/// Whether a phase is the end of an operation that was abandoned.
pub open spec fn was_abandoned(phase: PerformanceOperationPhaseView) -> bool {
    phase is Terminal && phase->Terminal_terminal is AbandonedBeforeEffect
}

/// Whether an entry says of an operation what its phase is: it succeeded exactly where it ended so, it
/// failed where it ended in a failure, before or after it took effect, it is cancelled where it was
/// abandoned, and it has no outcome until it ends.
pub open spec fn shows_its_phase(
    entry: OperationJournalEntryView,
    phase: PerformanceOperationPhaseView,
) -> bool {
    &&& entry.status is Succeeded <==> has_succeeded(phase)
    &&& entry.status is Failed <==> has_failed(phase)
    &&& entry.status is Cancelled <==> was_abandoned(phase)
    &&& entry.status is Planned <==> phase is Accepted
    &&& entry.status is Running <==> phase !is Accepted && phase !is Terminal
    &&& entry.outcome is Some <==> phase is Terminal
    &&& entry.outcome is Some ==> {
        &&& entry.outcome->0 is Succeeded <==> has_succeeded(phase)
        &&& entry.outcome->0 is Failed <==> has_failed(phase)
        &&& entry.outcome->0 is Cancelled <==> was_abandoned(phase)
    }
    &&& entry.failure_point is Some <==> has_failed(phase) || was_abandoned(phase)
    &&& has_failed(phase) ==> entry.failure_point == Some("performance_operation_failed"@)
    &&& was_abandoned(phase) ==> entry.failure_point == Some(
        "performance_operation_abandoned_before_effect"@,
    )
}

/// Whether an entry says what can be rolled back: what the operation reports once it has taken effect,
/// and what it was accepted with in any other case.
pub open spec fn shows_its_rollback(
    rollback: RollbackState,
    accepted: RollbackState,
    phase: PerformanceOperationPhaseView,
) -> bool {
    if has_succeeded(phase) {
        rollback == phase->Terminal_terminal->Succeeded_rollback
    } else if phase is Terminal && phase->Terminal_terminal is FailedAfterEffect {
        rollback == phase->Terminal_terminal->FailedAfterEffect_rollback
    } else {
        rollback == accepted
    }
}

/// The journal of a performance operation that is in order has status and outcome `Succeeded` exactly
/// where its lifecycle has ended in success. Where it has ended in a failure, before or after it took
/// effect, both are `Failed`.
pub proof fn journal_shows_how_the_operation_ended(
    entry: OperationJournalEntryView,
    lifecycle: PerformanceOperationLifecycleView,
    rulings: LauncherRulingsView,
)
    requires
        lifecycle_is_valid(entry, lifecycle, rulings),
    ensures
        shows_its_phase(entry, lifecycle.phase),
        shows_its_rollback(entry.rollback, lifecycle.intent.rollback, lifecycle.phase),
{
}

/// Whether an entry is another of the same operation, in another phase and at another time.
pub open spec fn moved_on(
    before: OperationJournalEntryView,
    after: OperationJournalEntryView,
    phase: PerformanceOperationPhaseView,
    now: Seq<char>,
) -> bool {
    &&& before.intent is Performance
    &&& after.intent is Performance
    &&& after.intent->Performance_0.intent == before.intent->Performance_0.intent
    &&& after.intent->Performance_0.created_at == before.intent->Performance_0.created_at
    &&& after.intent->Performance_0.updated_at == now
    &&& after.intent->Performance_0.phase == phase
    &&& shows_its_phase(after, phase)
    &&& phase is Terminal ==> shows_its_rollback(
        after.rollback,
        before.intent->Performance_0.intent.rollback,
        phase,
    )
    &&& phase !is Terminal ==> after.rollback == before.rollback
    &&& after.journal_id == before.journal_id
    &&& after.operation_id == before.operation_id
    &&& after.sequence == before.sequence
    &&& after.parent_operation_id == before.parent_operation_id
    &&& after.command == before.command
    &&& after.owner == before.owner
    &&& after.ownership == before.ownership
    &&& after.targets == before.targets
    &&& after.planned_steps == before.planned_steps
    &&& after.completed_steps == before.completed_steps
    &&& after.reconciliation_attempt == before.reconciliation_attempt
    &&& after.persisted_state_repair_attempt == before.persisted_state_repair_attempt
    &&& same_findings(before, after)
    &&& same_ends(before, after)
}

/// Whether an end tells of what was prepared.
pub open spec fn tells_of(
    terminal: PerformanceOperationTerminalView,
    prepared: PerformanceOperationPreparedView,
) -> bool {
    ||| terminal is Succeeded && terminal->Succeeded_prepared == prepared
    ||| terminal is FailedAfterEffect && terminal->FailedAfterEffect_prepared == prepared
}

/// Whether an operation in a phase may ask to end in this way: before it took effect only as failed or
/// abandoned, or where there was nothing to do; afterwards only with what it had prepared.
pub open spec fn may_ask_to_end(
    phase: PerformanceOperationPhaseView,
    terminal: PerformanceOperationTerminalView,
) -> bool {
    let early = terminal is FailedBeforeEffect || terminal is AbandonedBeforeEffect;
    ||| (phase is Accepted || phase is Planning || phase is Prepared) && early
    ||| phase is Prepared && terminal is Succeeded && tells_of(terminal, phase->Prepared_prepared)
        && !terminal->Succeeded_changed_target && (
    phase->Prepared_prepared.proof is ManagedStateAbsent
        || phase->Prepared_prepared.proof is InstallPlan)
    ||| phase is EffectStarted && tells_of(terminal, phase->EffectStarted_prepared)
}

/// Each transition leads from the phases that it may be made in to the one that it names, takes what
/// was prepared along, and changes nothing else but the time of the change. In any other phase it is
/// refused.
pub proof fn transitions_lead_where_they_say(
    entry: OperationJournalEntryView,
    transition: PerformanceOperationTransitionView,
    now: Seq<char>,
)
    ensures
        ({
            let answer = transitioned(entry, transition, now);
            let after = answer->Ok_0;
            let phase = entry.intent->Performance_0.phase;
            let next = after.intent->Performance_0.phase;
            &&& entry.intent is Generic ==> answer is Err && answer->Err_0 is MissingOperation
            &&& entry.intent is Performance && answer is Err ==> answer->Err_0 is AlreadyExists
            &&& answer is Ok ==> moved_on(entry, after, next, now)
            &&& entry.intent is Performance ==> match transition {
                PerformanceOperationTransitionView::Planning => {
                    &&& answer is Ok <==> phase is Accepted
                    &&& answer is Ok ==> next is Planning
                },
                PerformanceOperationTransitionView::Prepared(prepared) => {
                    &&& answer is Ok <==> phase is Planning
                    &&& answer is Ok ==> next is Prepared && next->Prepared_prepared == prepared
                },
                PerformanceOperationTransitionView::EffectStarted => {
                    &&& answer is Ok <==> phase is Prepared
                        && phase->Prepared_prepared.proof !is ManagedStateAbsent
                    &&& answer is Ok ==> next is EffectStarted && next->EffectStarted_prepared
                        == phase->Prepared_prepared
                },
                PerformanceOperationTransitionView::MarkAppliedUnverified(error) => {
                    &&& answer is Ok <==> phase is EffectStarted
                    &&& answer is Ok ==> next is AppliedUnverified
                        && next->AppliedUnverified_prepared == phase->EffectStarted_prepared
                        && next->AppliedUnverified_error == error
                },
                PerformanceOperationTransitionView::RequestTerminal(terminal) => {
                    &&& answer is Ok <==> may_ask_to_end(phase, terminal)
                    &&& answer is Ok ==> next is TerminalIntent && next->TerminalIntent_terminal
                        == terminal
                },
                PerformanceOperationTransitionView::CommitTerminal(terminal) => {
                    &&& answer is Ok <==> phase is TerminalIntent && phase->TerminalIntent_terminal
                        == terminal
                    &&& answer is Ok ==> next is Terminal && next->Terminal_terminal == terminal
                },
            }
        }),
{
}

/// A restart abandons an operation that had not been prepared, leaves one that was prepared, holds one
/// that was at work for unconfirmed, and ends one that had asked for its end in the way that it asked
/// for. It changes nothing else.
pub proof fn restart_settles_by_phase(entry: OperationJournalEntryView, now: Seq<char>)
    ensures
        ({
            let answer = restarted(entry, now);
            let after = answer->0;
            let phase = entry.intent->Performance_0.phase;
            let next = after.intent->Performance_0.phase;
            &&& entry.intent is Generic ==> answer is None
            &&& answer is Some ==> moved_on(entry, after, next, now)
            &&& entry.intent is Performance ==> {
                &&& answer is None <==> phase is Prepared || phase is AppliedUnverified
                    || phase is Terminal
                &&& phase is Accepted || phase is Planning ==> was_abandoned(next)
                &&& phase is EffectStarted ==> {
                    &&& next is AppliedUnverified
                    &&& next->AppliedUnverified_prepared == phase->EffectStarted_prepared
                    &&& next->AppliedUnverified_error
                        == "performance operation outcome could not be confirmed after restart"@
                }
                &&& phase is TerminalIntent ==> next is Terminal && next->Terminal_terminal
                    == phase->TerminalIntent_terminal
            }
        }),
{
}

/// What was prepared in a phase, where anything was.
pub open spec fn had_prepared(
    phase: PerformanceOperationPhaseView,
    prepared: PerformanceOperationPreparedView,
) -> bool {
    ||| phase is Prepared && phase->Prepared_prepared == prepared
    ||| phase is EffectStarted && phase->EffectStarted_prepared == prepared
    ||| phase is AppliedUnverified && phase->AppliedUnverified_prepared == prepared
    ||| phase is TerminalIntent && tells_of(phase->TerminalIntent_terminal, prepared)
    ||| phase is Terminal && tells_of(phase->Terminal_terminal, prepared)
}

/// A transition shows in an operation that has been through it: what was prepared stays visible, the
/// start of the effect shows until the end, and an end that was asked for shows once it is reached.
pub proof fn made_transitions_show(
    phase: PerformanceOperationPhaseView,
    prepared: PerformanceOperationPreparedView,
    error: Seq<char>,
    terminal: PerformanceOperationTerminalView,
)
    ensures
        transition_shows(
            phase,
            PerformanceOperationTransitionView::Planning,
        ) <==> (phase is Planning || exists|any: PerformanceOperationPreparedView|
            #[trigger]
            had_prepared(phase, any)),
        transition_shows(
            phase,
            PerformanceOperationTransitionView::Prepared(prepared),
        ) <==> had_prepared(phase, prepared),
        transition_shows(
            phase,
            PerformanceOperationTransitionView::EffectStarted,
        ) <==> ({
            let ended = if phase is TerminalIntent {
                phase->TerminalIntent_terminal
            } else {
                phase->Terminal_terminal
            };
            ||| phase is EffectStarted
            ||| phase is AppliedUnverified
            ||| (phase is TerminalIntent || phase is Terminal) && (ended is FailedAfterEffect || (
            ended is Succeeded && ended->Succeeded_changed_target))
        }),
        transition_shows(
            phase,
            PerformanceOperationTransitionView::MarkAppliedUnverified(error),
        ) <==> (phase is AppliedUnverified && phase->AppliedUnverified_error == error),
        transition_shows(
            phase,
            PerformanceOperationTransitionView::RequestTerminal(terminal),
        ) <==> ((phase is TerminalIntent && phase->TerminalIntent_terminal == terminal) || (
        phase is Terminal && phase->Terminal_terminal == terminal)),
        transition_shows(
            phase,
            PerformanceOperationTransitionView::CommitTerminal(terminal),
        ) <==> (phase is Terminal && phase->Terminal_terminal == terminal),
{
    if phase_prepared(phase) is Some {
        assert(had_prepared(phase, phase_prepared(phase)->0));
    }
}

/// What is shown of a performance operation is what its journal says of it. It is over where it has
/// ended. What it failed with is shown once that is known. A restart resumes what was only prepared,
/// has what may have taken effect confirmed, and abandons what had not been prepared.
pub proof fn shown_operation_is_the_recorded_one(entry: OperationJournalEntryView)
    ensures
        ({
            let shown = projection_of(entry);
            let lifecycle = entry.intent->Performance_0;
            let phase = lifecycle.phase;
            &&& shown is Some <==> entry.intent is Performance
            &&& shown is Some ==> {
                &&& shown->0.operation_id == entry.operation_id
                &&& shown->0.sequence == entry.sequence
                &&& shown->0.intent == lifecycle.intent
                &&& shown->0.phase == phase
                &&& shown->0.created_at == lifecycle.created_at
                &&& shown->0.updated_at == lifecycle.updated_at
                &&& shown->0.terminal <==> phase is Terminal
                &&& shown->0.restart is AbandonedBeforeEffect <==> phase is Accepted
                    || phase is Planning
                &&& shown->0.restart is Resumable <==> phase is Prepared
                &&& shown->0.restart is AppliedUnverified <==> phase is EffectStarted
                    || phase is AppliedUnverified
                &&& shown->0.restart is TerminalIntent <==> phase is TerminalIntent
                &&& shown->0.restart is Terminal <==> phase is Terminal
            }
        }),
{
}

/// The error that is shown of an operation is the one that it could not be confirmed or has failed
/// with. There is none before, and none where it succeeded.
pub proof fn shown_error_is_the_recorded_one(entry: OperationJournalEntryView)
    requires
        entry.intent is Performance,
    ensures
        ({
            let error = projection_of(entry)->0.error;
            let phase = entry.intent->Performance_0.phase;
            let ended = if phase is TerminalIntent {
                phase->TerminalIntent_terminal
            } else {
                phase->Terminal_terminal
            };
            let ends = phase is TerminalIntent || phase is Terminal;
            &&& phase is AppliedUnverified ==> error == Some(phase->AppliedUnverified_error)
            &&& ends && ended is FailedBeforeEffect ==> error == Some(
                ended->FailedBeforeEffect_error,
            )
            &&& ends && ended is FailedAfterEffect ==> error == Some(ended->FailedAfterEffect_error)
            &&& ends && ended is AbandonedBeforeEffect ==> error == Some(
                "performance operation abandoned before effect"@,
            )
            &&& ends && ended is Succeeded ==> error is None
            &&& !ends && phase !is AppliedUnverified ==> error is None
        }),
{
}

/// The word that is shown for the state of an operation says how far it is and, while it is at work,
/// what it does. Operations that succeeded, failed and were interrupted have different words.
pub proof fn shown_state_says_how_far_it_is(entry: OperationJournalEntryView)
    requires
        entry.intent is Performance,
    ensures
        ({
            let state = projection_of(entry)->0.state;
            let phase = entry.intent->Performance_0.phase;
            let action = entry.intent->Performance_0.intent.action;
            &&& phase is Accepted ==> state == "queued"@
            &&& phase is Planning || phase is Prepared ==> state == "planning"@
            &&& phase is EffectStarted && action is Install ==> state == "applying"@
            &&& phase is EffectStarted && action is Remove ==> state == "removing"@
            &&& phase is EffectStarted && action is Rollback ==> state == "rolling_back"@
            &&& phase is AppliedUnverified ==> state == "applied_unverified"@
            &&& phase is TerminalIntent && phase->TerminalIntent_terminal is Succeeded ==> state
                == "committing_complete"@
            &&& phase is TerminalIntent && phase->TerminalIntent_terminal !is Succeeded ==> state
                == "committing_failed"@
            &&& has_succeeded(phase) ==> state == "complete"@
            &&& has_failed(phase) ==> state == "failed"@
            &&& was_abandoned(phase) ==> state == "interrupted"@
        }),
{
}

/// A new performance operation is accepted and planned, names its instance and its composition, is
/// managed by the application, and offers the rollback that was asked for. It begins now.
pub proof fn accepted_operation_says_what_was_asked(
    operation_id: OperationId,
    intent: PerformanceOperationIntentView,
    now: Seq<char>,
)
    ensures
        ({
            let entry = accepted_performance(operation_id, intent, now);
            &&& entry.operation_id == operation_id
            &&& entry.journal_id == "journal-"@ + operation_text(operation_id)
            &&& entry.intent is Performance
            &&& entry.intent->Performance_0.intent == intent
            &&& entry.intent->Performance_0.phase is Accepted
            &&& entry.intent->Performance_0.created_at == now
            &&& entry.intent->Performance_0.updated_at == now
            &&& shows_its_phase(entry, entry.intent->Performance_0.phase)
            &&& entry.rollback == intent.rollback
            &&& entry.command is ApplyPerformancePlan
            &&& entry.owner is Application
            &&& entry.ownership is CompositionManaged
            &&& entry.parent_operation_id is None
            &&& entry.targets.len() == 2
            &&& entry.targets[0].system is State
            &&& entry.targets[0].kind is Instance
            &&& entry.targets[0].id == intent.instance_id
            &&& entry.targets[0].ownership is CompositionManaged
            &&& entry.targets[1].system is Performance
            &&& entry.targets[1].kind is PerformanceComposition
            &&& entry.targets[1].id == intent.base_target_id
            &&& entry.targets[1].ownership is CompositionManaged
            &&& entry.planned_steps.len() == 0
            &&& entry.completed_steps.len() == 0
            &&& entry.guardian_diagnosis_ids.len() == 0
            &&& entry.guardian_install_terminal is None
            &&& entry.reconciliation_attempt is None
            &&& entry.reconciliation_terminal is None
            &&& entry.persisted_state_repair_attempt is None
            &&& entry.persisted_state_repair_terminal is None
        }),
{
}

/// A performance operation is created under the first of the minted identities that is free, with the
/// next sequence, where its intent is in order and nothing of its instance is under way. Otherwise the
/// answer says what stood in the way.
pub proof fn created_operation_takes_the_first_free_identity(
    store: OperationJournalStoreView,
    intent: PerformanceOperationIntentView,
    minted: Seq<OperationId>,
    now: Seq<char>,
    rulings: LauncherRulingsView,
    at: int,
)
    requires
        0 <= at <= minted.len(),
        forall|i: int|
            0 <= i < at ==> store.visible.entries.contains_key((#[trigger] minted[i]).value),
        at < minted.len() ==> !store.visible.entries.contains_key(minted[at].value),
    ensures
        ({
            let answer = created_performance(
                store,
                intent,
                minted,
                now,
                rulings,
            );
            let entry = accepted_performance(minted[at], intent, now);
            let valid = intent_is_valid(intent, rulings);
            let sound = entry_verdict(entry, rulings) is Ok;
            let busy = exists|key: u128|
                store.visible.entries.contains_key(key) && is_at_work(
                    (#[trigger] store.visible.entries[key]).entry,
                    intent.instance_id,
                );
            &&& !valid ==> answer is Err && answer->Err_0 is Validation
            &&& valid && at == minted.len() ==> answer is Err && answer->Err_0 is SequenceExhausted
            &&& valid && at < minted.len() ==> {
                &&& !sound ==> answer is Err && answer->Err_0 is Validation
                &&& sound && store.retry_candidate is Some ==> answer is Err
                    && answer->Err_0 is RetryRequired
                &&& sound && store.retry_candidate is None && busy ==> answer is Err
                    && answer->Err_0 is Conflict
                &&& sound && store.retry_candidate is None && !busy ==> {
                    &&& store.visible.next_sequence == u64::MAX ==> answer is Err
                        && answer->Err_0 is SequenceExhausted
                    &&& store.visible.next_sequence < u64::MAX ==> {
                        &&& answer is Ok
                        &&& is_new_draft(store, entry, answer->Ok_0)
                    }
                }
            }
        }),
{
    first_free_is_first(store.visible.entries, minted, at);
    let entries = store.visible.entries;
    assert forall|key: u128| entries.contains_key(key) implies is_at_work(
        (#[trigger] entries[key]).entry,
        intent.instance_id,
    ) == (active_performance_instance(entries[key].entry) == Some(
        intent.instance_id,
    )) by {}
}

/// Whether an entry is of a performance operation of this instance that has not ended.
pub open spec fn is_at_work(
    entry: OperationJournalEntryView,
    instance_id: Seq<char>,
) -> bool {
    &&& entry.intent is Performance
    &&& entry.intent->Performance_0.intent.instance_id == instance_id
    &&& !has_ended(entry)
}

proof fn first_free_is_first(
    map: JournalMap,
    minted: Seq<OperationId>,
    at: int,
)
    requires
        0 <= at <= minted.len(),
        forall|i: int| 0 <= i < at ==> map.contains_key((#[trigger] minted[i]).value),
        at < minted.len() ==> !map.contains_key(minted[at].value),
    ensures
        first_free(map, minted) == if at < minted.len() {
            Some(minted[at])
        } else {
            None
        },
    decreases minted.len(),
{
    if minted.len() > 0 && at > 0 {
        let rest = minted.drop_first();
        assert(map.contains_key(minted[0].value));
        assert forall|i: int| 0 <= i < at - 1 implies map.contains_key(
            (#[trigger] rest[i]).value,
        ) by {
            assert(rest[i] == minted[i + 1]);
        }
        first_free_is_first(map, rest, at - 1);
    }
}

/// A transition is asked of the store: one that shows already needs no change, and any other one is
/// made where its phase allows it and the journal it leaves is in order.
pub proof fn asked_transition_is_made_or_shows(
    store: OperationJournalStoreView,
    id: OperationId,
    transition: PerformanceOperationTransitionView,
    now: Seq<char>,
    rulings: LauncherRulingsView,
)
    ensures
        ({
            let before = store.visible.entries[id.value].entry;
            let there = store.visible.entries.contains_key(id.value);
            let answer = transition_answer(
                store,
                id,
                transition,
                now,
                rulings,
            );
            let made = transitioned(before, transition, now);
            let shows = there && before.intent is Performance
                && transition_shows(
                before.intent->Performance_0.phase,
                transition,
            );
            &&& shows ==> answer is Ok && answer->Ok_0 is None
            &&& !shows && store.retry_candidate is Some ==> answer is Err
                && answer->Err_0 is RetryRequired
            &&& !shows && store.retry_candidate is None ==> {
                &&& !there ==> answer is Err && answer->Err_0 is MissingOperation
                &&& there && has_ended(before) ==> answer is Err && answer->Err_0 is AlreadyTerminal
                &&& there && !has_ended(before) ==> {
                    &&& made is Err ==> answer is Err && answer->Err_0 == made->Err_0
                    &&& made is Ok ==> {
                        &&& answer is Ok <==> can_stand(
                            store,
                            made->Ok_0,
                            false,
                            rulings,
                        )
                        &&& answer is Ok ==> {
                            &&& answer->Ok_0 is Some
                            &&& answer->Ok_0->0.entry == made->Ok_0
                            &&& answer->Ok_0->0.next_sequence == store.visible.next_sequence
                            &&& !answer->Ok_0->0.fresh
                        }
                        &&& answer is Err ==> answer->Err_0 is Validation
                    }
                }
            }
        }),
{
}

/// Whether an error was made safe to show: it is what was ruled of it, and a general one where nothing
/// was.
pub open spec fn is_made_safe(
    before: Seq<char>,
    after: Seq<char>,
    general: Seq<char>,
    rulings: LauncherRulingsView,
) -> bool {
    let ruled = ruled_evidence(rulings.sanitized_evidence, before, 160);
    &&& ruled is Some ==> after == ruled->0
    &&& ruled is None ==> after == general
}

/// Whether an end is another whose error was made safe to show.
pub open spec fn is_safe_end(
    before: PerformanceOperationTerminalView,
    after: PerformanceOperationTerminalView,
    rulings: LauncherRulingsView,
) -> bool {
    &&& before is Succeeded || before is AbandonedBeforeEffect ==> after == before
    &&& before is FailedBeforeEffect ==> after is FailedBeforeEffect && is_made_safe(
        before->FailedBeforeEffect_error,
        after->FailedBeforeEffect_error,
        "performance operation failed"@,
        rulings,
    )
    &&& before is FailedAfterEffect ==> {
        &&& after is FailedAfterEffect
        &&& after->FailedAfterEffect_prepared == before->FailedAfterEffect_prepared
        &&& after->FailedAfterEffect_changed_target == before->FailedAfterEffect_changed_target
        &&& after->FailedAfterEffect_rollback == before->FailedAfterEffect_rollback
        &&& is_made_safe(
            before->FailedAfterEffect_error,
            after->FailedAfterEffect_error,
            "performance operation failed"@,
            rulings,
        )
    }
}

/// A transition that is requested stays the one that was asked for, but for an error that is made safe
/// to show. It is refused where there is no such operation, and where what it brings does not fit what
/// the operation is to do.
pub proof fn requested_transition_is_kept_but_for_its_error(
    store: OperationJournalStoreView,
    id: OperationId,
    transition: PerformanceOperationTransitionView,
    rulings: LauncherRulingsView,
)
    ensures
        ({
            let answer = transition_requested(
                store,
                id,
                transition,
                rulings,
            );
            let made = answer->Ok_0;
            let held = store.visible.entries[id.value].entry;
            let there = store.visible.entries.contains_key(id.value) && held.intent is Performance;
            let intent = held.intent->Performance_0.intent;
            &&& !there ==> answer is Err && answer->Err_0 is MissingOperation
            &&& there && answer is Err ==> answer->Err_0
                == OperationJournalStoreError::Validation(
                OperationJournalValidationError::InvalidPerformanceLifecycle,
            )
            &&& answer is Ok ==> match transition {
                PerformanceOperationTransitionView::MarkAppliedUnverified(error) => {
                    &&& made is MarkAppliedUnverified
                    &&& is_made_safe(
                        error,
                        made->MarkAppliedUnverified_0,
                        "performance operation outcome is unverified"@,
                        rulings,
                    )
                },
                PerformanceOperationTransitionView::RequestTerminal(terminal) => {
                    &&& made is RequestTerminal
                    &&& is_safe_end(terminal, made->RequestTerminal_0, rulings)
                    &&& terminal_is_valid(
                        intent,
                        made->RequestTerminal_0,
                        rulings,
                    )
                },
                PerformanceOperationTransitionView::CommitTerminal(terminal) => {
                    &&& made is CommitTerminal
                    &&& is_safe_end(terminal, made->CommitTerminal_0, rulings)
                    &&& terminal_is_valid(
                        intent,
                        made->CommitTerminal_0,
                        rulings,
                    )
                },
                PerformanceOperationTransitionView::Prepared(prepared) => {
                    made == transition && prepared_is_valid(intent, prepared)
                },
                _ => made == transition,
            }
            &&& there && (transition is Planning || transition is EffectStarted
                || transition is MarkAppliedUnverified) ==> answer is Ok
            &&& there && transition is Prepared && prepared_is_valid(
                intent,
                transition->Prepared_0,
            ) ==> answer is Ok
        }),
{
}

/// Evidence of the Guardian is taken in once by a performance operation that has not been prepared yet
/// and holds none: its facts go to a step of their own. The same evidence needs no change afterwards,
/// and any other is refused. An end of an installation is never taken in.
pub proof fn performance_evidence_is_taken_in_once(
    store: OperationJournalStoreView,
    evidence: DurableGuardianEvidenceView,
    now: Seq<char>,
    rulings: LauncherRulingsView,
)
    ensures
        ({
            let id = evidence.operation_id;
            let before = store.visible.entries[id.value].entry;
            let there = store.visible.entries.contains_key(id.value) && before.intent
                is Performance;
            let phase = before.intent->Performance_0.phase;
            let early = phase is Accepted || phase is Planning;
            let empty = before.completed_steps.len() == 0 && before.guardian_diagnosis_ids.len()
                == 0;
            let same_facts = if before.completed_steps.len() > 0 {
                before.completed_steps[0].guardian_fact_ids == evidence.fact_ids
            } else {
                evidence.fact_ids.len() == 0
            };
            let alike = same_facts && before.guardian_diagnosis_ids == evidence.diagnosis_ids
                && before.guardian_install_terminal is None;
            let answer = performance_evidence_recorded(
                store,
                evidence,
                now,
                rulings,
            );
            let after = answer->Ok_0->0.entry;
            if evidence.install_terminal is Some {
                answer is Err && answer->Err_0 is InvalidGuardianOutcome
            } else if !there {
                answer is Err && answer->Err_0 is MissingOperation
            } else if has_ended(before) {
                answer is Err && answer->Err_0 is AlreadyTerminal
            } else if early && empty {
                &&& store.retry_candidate is Some ==> answer is Err
                    && answer->Err_0 is RetryRequired
                &&& answer is Ok ==> {
                    &&& answer->Ok_0 is Some
                    &&& store.retry_candidate is None
                    &&& can_stand(store, after, false, rulings)
                    &&& !answer->Ok_0->0.fresh
                    &&& answer->Ok_0->0.next_sequence == store.visible.next_sequence
                    &&& after.intent is Performance
                    &&& after.intent->Performance_0.intent == before.intent->Performance_0.intent
                    &&& after.intent->Performance_0.phase == phase
                    &&& after.intent->Performance_0.created_at
                        == before.intent->Performance_0.created_at
                    &&& after.intent->Performance_0.updated_at == now
                    &&& after.status == before.status
                    &&& after.outcome == before.outcome
                    &&& after.failure_point == before.failure_point
                    &&& after.rollback == before.rollback
                    &&& after.operation_id == before.operation_id
                    &&& after.sequence == before.sequence
                    &&& after.targets == before.targets
                    &&& after.planned_steps == before.planned_steps
                    &&& after.guardian_install_terminal == before.guardian_install_terminal
                    &&& are_taken_in(
                        Seq::empty(),
                        evidence.diagnosis_ids,
                        after.guardian_diagnosis_ids,
                    )
                    &&& evidence.fact_ids.len() == 0 ==> after.completed_steps.len() == 0
                    &&& evidence.fact_ids.len() > 0 ==> {
                        &&& after.completed_steps.len() == 1
                        &&& after.completed_steps[0].step_id == "guardian_evidence"@
                        &&& after.completed_steps[0].phase is Running
                        &&& after.completed_steps[0].result is Completed
                        &&& after.completed_steps[0].changed_target is None
                        &&& after.completed_steps[0].generated_facts.len() == 0
                        &&& after.completed_steps[0].metrics is None
                        &&& after.completed_steps[0].rollback is NotApplicable
                        &&& are_taken_in(
                            Seq::empty(),
                            evidence.fact_ids,
                            after.completed_steps[0].guardian_fact_ids,
                        )
                    }
                }
            } else if (early || phase is Prepared) && alike {
                answer is Ok && answer->Ok_0 is None
            } else {
                answer is Err && answer->Err_0 is AlreadyExists
            }
        }),
{
    let before = store.visible.entries[evidence.operation_id.value].entry;
    merging_takes_in(Seq::empty(), evidence.fact_ids);
    merging_takes_in(Seq::empty(), evidence.diagnosis_ids);
    if before.guardian_diagnosis_ids.len() == 0 {
        assert(before.guardian_diagnosis_ids =~= Seq::empty());
    }
    if evidence.fact_ids.len() == 0 {
        assert(evidence.fact_ids =~= Seq::empty());
    }
    if before.completed_steps.len() == 0 {
        assert(evidence_position(before.completed_steps) == 0);
    }
}

/// An intent is in order where its instance and its target are named well, the action is the one that
/// was requested or the removal that an installation comes to, something is said of the rollback, and
/// the target is the one that stands for nothing exactly where nothing can be rolled back.
pub proof fn valid_intents_are_these(
    intent: PerformanceOperationIntentView,
    rulings: LauncherRulingsView,
)
    ensures
        intent_is_valid(intent, rulings) <==> {
            &&& rulings.instance_ids.contains(intent.instance_id)
            &&& is_safe_token(intent.base_target_id, 96)
            &&& intent.action != intent.requested_action ==> intent.requested_action is Install
                && intent.action is Remove
            &&& intent.rollback is Available || intent.rollback is Unavailable
            &&& intent.action is Remove ==> (intent.rollback is Unavailable <==> intent.base_target_id
                == "performance_composition_lock"@)
            &&& intent.action is Rollback ==> (intent.rollback is Unavailable
                <==> intent.base_target_id == "performance_rollback_snapshot"@)
            &&& intent.game_version is Some ==> is_canonical_fragment(
                intent.game_version->0,
                96,
                rulings,
            )
            &&& intent.loader is Some ==> is_canonical_fragment(
                intent.loader->0,
                96,
                rulings,
            )
            &&& intent.mode is Some ==> is_canonical_fragment(
                intent.mode->0,
                96,
                rulings,
            )
            &&& intent.rollback_id is Some ==> is_canonical_safe_token(
                intent.rollback_id->0,
                96,
            )
        },
{
}

/// What is prepared fits an intent where it is about the same target and what was established is of
/// the kind that the action asks for: a plan for an installation, what is there or that nothing is for
/// a removal, and the snapshot that was asked for, if one was, for a rollback.
pub proof fn valid_preparations_are_these(
    intent: PerformanceOperationIntentView,
    prepared: PerformanceOperationPreparedView,
)
    ensures
        prepared_is_valid(intent, prepared) <==> {
            let proof_of = prepared.proof;
            &&& is_canonical_safe_token(prepared.result_target_id, 96)
            &&& prepared.result_target_id == intent.base_target_id
            &&& intent.rollback is Available || intent.rollback is Unavailable
            &&& proof_of is InstallPlan <==> intent.action is Install
            &&& proof_of is RollbackSnapshot <==> intent.action is Rollback
            &&& proof_of is ManagedStateAbsent <==> intent.action is Remove && intent.rollback
                is Unavailable
            &&& proof_of is RollbackSnapshot ==> intent.rollback is Available
            &&& proof_of is InstallPlan ==> {
                &&& proof_of->InstallPlan_artifact_count <= 1_000_000
                &&& is_sha512_text(proof_of->InstallPlan_graph_sha512)
            }
            &&& proof_of is RemoveCurrent ==> {
                &&& proof_of->RemoveCurrent_artifact_count <= 1_000_000
                &&& is_sha512_text(proof_of->RemoveCurrent_graph_sha512)
            }
            &&& proof_of is RollbackSnapshot ==> {
                &&& proof_of->RollbackSnapshot_artifact_count <= 1_000_000
                &&& is_canonical_safe_token(
                    proof_of->RollbackSnapshot_snapshot_id,
                    96,
                )
                &&& proof_of->RollbackSnapshot_target is ManagedStateAbsent
                    <==> prepared.result_target_id == "performance_managed_state_absent"@
                &&& intent.rollback_id is Some ==> intent.rollback_id->0
                    == proof_of->RollbackSnapshot_snapshot_id
            }
        },
{
}

/// What a valid success of an operation says of its effect: a removal of what was there and a rollback
/// changed the target, and finding nothing to remove did not. What can be rolled back afterwards
/// follows from that.
pub proof fn valid_success_says_what_it_changed(
    intent: PerformanceOperationIntentView,
    terminal: PerformanceOperationTerminalView,
    rulings: LauncherRulingsView,
)
    requires
        terminal is Succeeded,
    ensures
        terminal_is_valid(intent, terminal, rulings) <==> {
            let proof_of = terminal->Succeeded_prepared.proof;
            let changed = terminal->Succeeded_changed_target;
            let rollback = terminal->Succeeded_rollback;
            &&& prepared_is_valid(intent, terminal->Succeeded_prepared)
            &&& proof_of is ManagedStateAbsent ==> !changed && rollback is Unavailable
            &&& proof_of is RemoveCurrent ==> changed && rollback is Available
            &&& proof_of is RollbackSnapshot ==> changed && rollback is Applied
            &&& proof_of is InstallPlan && changed ==> rollback is Available
            &&& proof_of is InstallPlan && !changed ==> rollback == intent.rollback
        },
{
}

/// What a valid failure of an operation says: one before the effect only its error, and one after it
/// what had been prepared, of a kind that can take effect, and what can be rolled back.
pub proof fn valid_failure_says_what_is_left(
    intent: PerformanceOperationIntentView,
    terminal: PerformanceOperationTerminalView,
    rulings: LauncherRulingsView,
)
    ensures
        terminal is FailedBeforeEffect ==> (terminal_is_valid(
            intent,
            terminal,
            rulings,
        ) <==> is_canonical_fragment(
            terminal->FailedBeforeEffect_error,
            160,
            rulings,
        )),
        terminal is AbandonedBeforeEffect ==> (terminal_is_valid(
            intent,
            terminal,
            rulings,
        ) <==> is_canonical_fragment(
            "performance operation abandoned before effect"@,
            160,
            rulings,
        )),
        terminal is FailedAfterEffect ==> (terminal_is_valid(
            intent,
            terminal,
            rulings,
        ) <==> {
            let rollback = terminal->FailedAfterEffect_rollback;
            &&& prepared_is_valid(intent, terminal->FailedAfterEffect_prepared)
            &&& is_canonical_fragment(
                terminal->FailedAfterEffect_error,
                160,
                rulings,
            )
            &&& terminal->FailedAfterEffect_prepared.proof !is ManagedStateAbsent
            &&& rollback !is NotApplicable
            &&& rollback is Applied ==> intent.action is Rollback
        }),
{
}

/// Evidence of the Guardian shows in a performance operation that has not been prepared yet where it
/// holds exactly that evidence.
pub proof fn performance_evidence_shows_as_it_was(
    entry: OperationJournalEntryView,
    evidence: DurableGuardianEvidenceView,
)
    ensures
        guardian_evidence_is_visible(entry, evidence) <==> {
            let phase = entry.intent->Performance_0.phase;
            &&& entry.intent is Performance
            &&& phase is Accepted || phase is Planning
            &&& entry.completed_steps.len() > 0 ==> entry.completed_steps[0].guardian_fact_ids
                == evidence.fact_ids
            &&& entry.completed_steps.len() == 0 ==> evidence.fact_ids.len() == 0
            &&& entry.guardian_diagnosis_ids == evidence.diagnosis_ids
            &&& entry.guardian_install_terminal == evidence.install_terminal
        },
{
    if evidence.fact_ids.len() == 0 {
        assert(evidence.fact_ids =~= Seq::empty());
    }
}

/// What is shown of the operations that a restart handles is what is shown of each, in the same order.
pub proof fn restart_shows_each_operation(
    map: JournalMap,
    keys: Seq<u128>,
    i: int,
)
    requires
        0 <= i < keys.len(),
    ensures
        projections(map, keys).len() == keys.len(),
        projection_of(map[keys[i]].entry) is Some ==> projection_of(map[keys[i]].entry) == Some(
            projections(map, keys)[i],
        ),
{
}

/// Whether a phase holds what it needs: what was prepared once something has been, the error of what
/// could not be verified, and how the operation ended or is to end.
pub open spec fn phase_holds_its_parts(
    intent: PerformanceOperationIntentView,
    phase: PerformanceOperationPhaseView,
    rulings: LauncherRulingsView,
) -> bool {
    &&& phase is Prepared ==> prepared_is_valid(intent, phase->Prepared_prepared)
    &&& phase is EffectStarted ==> prepared_is_valid(intent, phase->EffectStarted_prepared)
    &&& phase is AppliedUnverified ==> {
        &&& prepared_is_valid(intent, phase->AppliedUnverified_prepared)
        &&& is_canonical_fragment(phase->AppliedUnverified_error, 160, rulings)
    }
    &&& phase is TerminalIntent ==> terminal_is_valid(
        intent,
        phase->TerminalIntent_terminal,
        rulings,
    )
    &&& phase is Terminal ==> terminal_is_valid(intent, phase->Terminal_terminal, rulings)
}

/// Whether a journal is made as that of a performance operation: it is the one of its operation, has no
/// parent, is managed by the application, and names the instance and the composition. It was not changed
/// before it was created, has no planned steps, and at most the one step that holds evidence.
pub open spec fn is_made_for_performance(
    entry: OperationJournalEntryView,
    lifecycle: PerformanceOperationLifecycleView,
) -> bool {
    let created = millis_instant(lifecycle.created_at);
    let updated = millis_instant(lifecycle.updated_at);
    &&& entry.journal_id == "journal-"@ + operation_text(entry.operation_id)
    &&& entry.parent_operation_id is None
    &&& entry.command is ApplyPerformancePlan
    &&& entry.owner is Application
    &&& entry.ownership is CompositionManaged
    &&& created is Some
    &&& updated is Some
    &&& !updated->0.is_before(created->0)
    &&& entry.targets.len() == 2
    &&& exists|i: int|
        0 <= i < 2 && (#[trigger] entry.targets[i]).system is State && entry.targets[i].kind
            is Instance && entry.targets[i].id == lifecycle.intent.instance_id
            && entry.targets[i].ownership is CompositionManaged
    &&& exists|i: int|
        0 <= i < 2 && (#[trigger] entry.targets[i]).system is Performance && entry.targets[i].kind
            is PerformanceComposition && entry.targets[i].id == lifecycle.intent.base_target_id
            && entry.targets[i].ownership is CompositionManaged
    &&& entry.planned_steps.len() == 0
    &&& entry.completed_steps.len() <= 1
    &&& entry.completed_steps.len() == 1 ==> {
        &&& entry.completed_steps[0].step_id == "guardian_evidence"@
        &&& entry.completed_steps[0].phase is Running
        &&& entry.completed_steps[0].result is Completed
        &&& entry.completed_steps[0].changed_target is None
        &&& entry.completed_steps[0].generated_facts.len() == 0
        &&& entry.completed_steps[0].metrics is None
        &&& entry.completed_steps[0].rollback is NotApplicable
        &&& entry.completed_steps[0].guardian_fact_ids.len() > 0
        &&& entry.completed_steps[0].guardian_fact_ids.no_duplicates()
    }
    &&& entry.guardian_diagnosis_ids.no_duplicates()
    &&& entry.guardian_install_terminal is None
}

/// The journal of a performance operation is in order exactly where it is made as one, its intent is in
/// order, its phase holds what it needs, and it says what its phase is.
pub proof fn valid_performance_journals_are_these(
    entry: OperationJournalEntryView,
    lifecycle: PerformanceOperationLifecycleView,
    rulings: LauncherRulingsView,
)
    ensures
        lifecycle_is_valid(entry, lifecycle, rulings) <==> {
            &&& is_made_for_performance(entry, lifecycle)
            &&& intent_is_valid(lifecycle.intent, rulings)
            &&& phase_holds_its_parts(lifecycle.intent, lifecycle.phase, rulings)
            &&& shows_its_phase(entry, lifecycle.phase)
            &&& shows_its_rollback(entry.rollback, lifecycle.intent.rollback, lifecycle.phase)
        },
{
    let a = TargetDescriptorView {
        system: StabilizationSystem::State,
        kind: TargetKind::Instance,
        id: lifecycle.intent.instance_id,
        ownership: OwnershipClass::CompositionManaged,
    };
    let b = TargetDescriptorView {
        system: StabilizationSystem::Performance,
        kind: TargetKind::PerformanceComposition,
        id: lifecycle.intent.base_target_id,
        ownership: OwnershipClass::CompositionManaged,
    };
    if lifecycle_is_valid(entry, lifecycle, rulings) {
        assert(entry.targets.contains(a) && entry.targets.contains(b));
        let i = choose|i: int| 0 <= i < entry.targets.len() && entry.targets[i] == a;
        let j = choose|j: int| 0 <= j < entry.targets.len() && entry.targets[j] == b;
        assert(entry.targets[i].system is State);
        assert(entry.targets[j].system is Performance);
    }
    if is_made_for_performance(entry, lifecycle) {
        let i = choose|i: int|
            0 <= i < 2 && (#[trigger] entry.targets[i]).system is State && entry.targets[i].kind
                is Instance && entry.targets[i].id == lifecycle.intent.instance_id
                && entry.targets[i].ownership is CompositionManaged;
        let j = choose|j: int|
            0 <= j < 2 && (#[trigger] entry.targets[j]).system is Performance
                && entry.targets[j].kind is PerformanceComposition && entry.targets[j].id
                == lifecycle.intent.base_target_id && entry.targets[j].ownership
                is CompositionManaged;
        assert(entry.targets[i] == a);
        assert(entry.targets[j] == b);
        assert(entry.targets.contains(a) && entry.targets.contains(b));
    }
}

} // verus!

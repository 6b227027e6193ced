//! Performance operations in the store of journals.

use crate::contracts::{CommandKind, OperationId, OwnershipClass, StabilizationSystem, TargetKind};
use crate::entry::{
    OperationIntent, OperationIntentView, OperationJournalEntry, OperationJournalEntryView,
};
use crate::evidence::{
    DurableGuardianEvidence, DurableGuardianEvidenceView, JournalId, TargetDescriptor,
    TargetDescriptorView,
};
use crate::guardian_evidence::{
    apply_idempotent_guardian_evidence, evidence_agrees, with_own_evidence,
};
use crate::instants::millis_instant;
use crate::journal_errors::{OperationJournalStoreError, OperationJournalValidationError};
use crate::journal_records::{fresh_draft, performance_update, updated, UpdatePolicy};
use crate::journal_revision::{
    replaced, AcceptedJournalEntry, AcceptedJournalEntryView, AcceptedJournalRevision,
    AcceptedJournalRevisionView, JournalMap,
};
use crate::journal_snapshot::active_performance_instance;
use crate::journal_store::{
    optional_result_view, result_view, rows, JournalDraft, JournalDraftView, OperationJournalStore,
    OperationJournalStoreView,
};
use crate::journal_validation::{
    entry_verdict, is_terminal, operation_journal_status_is_terminal, validate_entry,
};
use crate::journal_visibility::new_entry;
use crate::lifecycle::{
    PerformanceOperationIntent, PerformanceOperationIntentView, PerformanceOperationLifecycle,
    PerformanceOperationLifecycleView, PerformanceOperationPhase, PerformanceOperationPhaseView,
    PerformanceOperationTerminal, PerformanceOperationTerminalView, PerformanceOperationTransition,
    PerformanceOperationTransitionView,
};
use crate::operation_id::operation_text;
use crate::ordered::{ascending, lists};
use crate::performance::{
    apply_performance_phase_shape, apply_performance_transition, guardian_evidence_matches,
    intent_is_valid, journal_text, lifecycle_is_valid, lifecycle_of, moved_to, next_phase,
    performance_guardian_evidence_matches, performance_transition_is_visible,
    sanitize_performance_transition, sanitized_transition, transition_fits, transition_is_visible,
    transition_shows, validate_performance_intent,
};
use crate::record::{opt_view, views, Record};
use crate::rulings::{LauncherRulings, LauncherRulingsView};
use crate::text::same_text;
use crate::tokens::is_canonical_fragment;
use vstd::prelude::*;

verus! {

/// How many identities are tried for a new operation.
pub const OPERATION_ID_MINT_ATTEMPTS: usize = 8;

/// The journal of a performance operation that has just been accepted.
pub open spec fn accepted_performance(
    operation_id: OperationId,
    intent: PerformanceOperationIntentView,
    now: Seq<char>,
) -> OperationJournalEntryView {
    OperationJournalEntryView {
        targets: seq![
            TargetDescriptorView {
                system: StabilizationSystem::State,
                kind: TargetKind::Instance,
                id: intent.instance_id,
                ownership: OwnershipClass::CompositionManaged,
            },
            TargetDescriptorView {
                system: StabilizationSystem::Performance,
                kind: TargetKind::PerformanceComposition,
                id: intent.base_target_id,
                ownership: OwnershipClass::CompositionManaged,
            },
        ],
        intent: OperationIntentView::Performance(
            PerformanceOperationLifecycleView {
                intent,
                phase: PerformanceOperationPhaseView::Accepted {  },
                created_at: now,
                updated_at: now,
            },
        ),
        ..new_entry(
            "journal-"@ + operation_text(operation_id),
            operation_id,
            CommandKind::ApplyPerformancePlan,
            StabilizationSystem::Application,
            OwnershipClass::CompositionManaged,
            intent.rollback,
        )
    }
}

/// The first identity that no visible journal has.
pub open spec fn first_free(map: JournalMap, minted: Seq<OperationId>) -> Option<OperationId>
    decreases minted.len(),
{
    if minted.len() == 0 {
        None
    } else if !map.contains_key(minted[0].value) {
        Some(minted[0])
    } else {
        first_free(map, minted.drop_first())
    }
}

/// Whether a performance operation of this instance is under way.
pub open spec fn instance_is_busy(map: JournalMap, instance_id: Seq<char>) -> bool {
    exists|key: u128|
        map.contains_key(key) && active_performance_instance((#[trigger] map[key]).entry) == Some(
            instance_id,
        )
}

/// What becomes of a request for a performance operation, given the identities that were minted.
pub open spec fn created_performance(
    store: OperationJournalStoreView,
    intent: PerformanceOperationIntentView,
    minted: Seq<OperationId>,
    now: Seq<char>,
    rulings: LauncherRulingsView,
) -> Result<JournalDraftView, OperationJournalStoreError> {
    if !intent_is_valid(intent, rulings) {
        Err(
            OperationJournalStoreError::Validation(
                OperationJournalValidationError::InvalidPerformanceLifecycle,
            ),
        )
    } else {
        match first_free(store.visible.entries, minted) {
            None => Err(OperationJournalStoreError::SequenceExhausted),
            Some(operation_id) => {
                let entry = accepted_performance(operation_id, intent, now);
                if let Err(error) = entry_verdict(entry, rulings) {
                    Err(OperationJournalStoreError::Validation(error))
                } else if store.retry_candidate is Some {
                    Err(OperationJournalStoreError::RetryRequired)
                } else if instance_is_busy(store.visible.entries, intent.instance_id) {
                    Err(OperationJournalStoreError::Conflict)
                } else {
                    fresh_draft(store, entry)
                }
            },
        }
    }
}

/// The intent of a performance operation that the store holds.
pub open spec fn held_intent(
    store: OperationJournalStoreView,
    operation_id: OperationId,
) -> Option<PerformanceOperationIntentView> {
    if store.visible.entries.contains_key(operation_id.value) {
        match lifecycle_of(store.visible.entries[operation_id.value].entry) {
            Some(lifecycle) => Some(lifecycle.intent),
            None => None,
        }
    } else {
        None
    }
}

/// An entry whose performance operation has made a transition, if the transition is allowed.
pub open spec fn transitioned(
    entry: OperationJournalEntryView,
    transition: PerformanceOperationTransitionView,
    now: Seq<char>,
) -> Result<OperationJournalEntryView, OperationJournalStoreError> {
    match lifecycle_of(entry) {
        None => Err(OperationJournalStoreError::MissingOperation),
        Some(lifecycle) => match next_phase(lifecycle.phase, transition) {
            None => Err(OperationJournalStoreError::AlreadyExists),
            Some(phase) => Ok(moved_to(entry, lifecycle, phase, now)),
        },
    }
}

/// Whether the store shows that a transition has been made.
pub open spec fn transition_is_held(
    store: OperationJournalStoreView,
    operation_id: OperationId,
    transition: PerformanceOperationTransitionView,
) -> bool {
    store.visible.entries.contains_key(operation_id.value) && transition_is_visible(
        store.visible.entries[operation_id.value].entry,
        transition,
    )
}

/// The draft of a performance operation's transition.
pub open spec fn transition_draft(
    store: OperationJournalStoreView,
    operation_id: OperationId,
    transition: PerformanceOperationTransitionView,
    now: Seq<char>,
    rulings: LauncherRulingsView,
) -> Result<JournalDraftView, OperationJournalStoreError> {
    updated(
        store,
        operation_id,
        performance_update(),
        |entry: OperationJournalEntryView| transitioned(entry, transition, now),
        rulings,
    )
}

/// What becomes of a request for a transition: one that shows already needs no draft.
pub open spec fn transition_answer(
    store: OperationJournalStoreView,
    operation_id: OperationId,
    transition: PerformanceOperationTransitionView,
    now: Seq<char>,
    rulings: LauncherRulingsView,
) -> Result<Option<JournalDraftView>, OperationJournalStoreError> {
    if transition_is_held(store, operation_id, transition) {
        Ok(None)
    } else {
        match transition_draft(store, operation_id, transition, now, rulings) {
            Ok(draft) => Ok(Some(draft)),
            Err(error) => Err(error),
        }
    }
}

/// An entry whose performance operation has Guardian evidence.
pub open spec fn performance_evidenced(
    entry: OperationJournalEntryView,
    evidence: DurableGuardianEvidenceView,
    now: Seq<char>,
) -> Result<OperationJournalEntryView, OperationJournalStoreError> {
    match lifecycle_of(entry) {
        None => Err(OperationJournalStoreError::MissingOperation),
        Some(lifecycle) => {
            let touched = OperationJournalEntryView {
                intent: OperationIntentView::Performance(
                    PerformanceOperationLifecycleView { updated_at: now, ..lifecycle },
                ),
                ..entry
            };
            if evidence_agrees(touched, evidence) {
                Ok(with_own_evidence(touched, evidence))
            } else {
                Err(OperationJournalStoreError::InvalidGuardianOutcome)
            }
        },
    }
}

/// Whether Guardian evidence is new to a performance operation: `Ok(false)` where it holds exactly
/// this evidence already.
pub open spec fn evidence_is_new(
    store: OperationJournalStoreView,
    evidence: DurableGuardianEvidenceView,
) -> Result<bool, OperationJournalStoreError> {
    let entry = store.visible.entries[evidence.operation_id.value].entry;
    if evidence.install_terminal is Some {
        Err(OperationJournalStoreError::InvalidGuardianOutcome)
    } else if !store.visible.entries.contains_key(evidence.operation_id.value) {
        Err(OperationJournalStoreError::MissingOperation)
    } else {
        match lifecycle_of(entry) {
            None => Err(OperationJournalStoreError::MissingOperation),
            Some(lifecycle) => if is_terminal(entry.status) {
                Err(OperationJournalStoreError::AlreadyTerminal)
            } else {
                let early = lifecycle.phase is Accepted || lifecycle.phase is Planning;
                if early && entry.completed_steps.len() == 0 && entry.guardian_diagnosis_ids.len()
                    == 0 {
                    Ok(true)
                } else if (early || lifecycle.phase is Prepared) && guardian_evidence_matches(
                    entry,
                    evidence,
                ) {
                    Ok(false)
                } else {
                    Err(OperationJournalStoreError::AlreadyExists)
                }
            },
        }
    }
}

/// The error of an operation whose effect was under way at a restart.
pub open spec fn unconfirmed_error() -> Seq<char> {
    "performance operation outcome could not be confirmed after restart"@
}

/// The phase into which a restart puts an operation, if it cannot stay in its own.
pub open spec fn restart_phase(phase: PerformanceOperationPhaseView) -> Option<
    PerformanceOperationPhaseView,
> {
    match phase {
        PerformanceOperationPhaseView::Accepted {  } => Some(
            PerformanceOperationPhaseView::Terminal {
                terminal: PerformanceOperationTerminalView::AbandonedBeforeEffect {  },
            },
        ),
        PerformanceOperationPhaseView::Planning {  } => Some(
            PerformanceOperationPhaseView::Terminal {
                terminal: PerformanceOperationTerminalView::AbandonedBeforeEffect {  },
            },
        ),
        PerformanceOperationPhaseView::EffectStarted { prepared } => Some(
            PerformanceOperationPhaseView::AppliedUnverified {
                prepared,
                error: unconfirmed_error(),
            },
        ),
        PerformanceOperationPhaseView::TerminalIntent { terminal } => Some(
            PerformanceOperationPhaseView::Terminal { terminal },
        ),
        _ => None,
    }
}

/// The entry as a restart leaves it, if the restart changes it.
pub open spec fn restarted(entry: OperationJournalEntryView, now: Seq<char>) -> Option<
    OperationJournalEntryView,
> {
    match lifecycle_of(entry) {
        Some(lifecycle) => match restart_phase(lifecycle.phase) {
            Some(phase) => Some(moved_to(entry, lifecycle, phase, now)),
            None => None,
        },
        None => None,
    }
}

/// The entries that a restart changes, as it leaves them, or what is wrong with the first of them
/// that cannot stand.
pub open spec fn restarted_entries(
    map: JournalMap,
    keys: Seq<u128>,
    now: Seq<char>,
    rulings: LauncherRulingsView,
) -> Result<Seq<OperationJournalEntryView>, OperationJournalStoreError>
    decreases keys.len(),
{
    if keys.len() == 0 {
        Ok(Seq::empty())
    } else {
        match restarted_entries(map, keys.drop_last(), now, rulings) {
            Err(error) => Err(error),
            Ok(entries) => match restarted(map[keys.last()].entry, now) {
                None => Ok(entries),
                Some(entry) => match entry_verdict(entry, rulings) {
                    Ok(()) => Ok(entries.push(entry)),
                    Err(error) => Err(OperationJournalStoreError::Validation(error)),
                },
            },
        }
    }
}

proof fn restart_error_stays(
    map: JournalMap,
    keys: Seq<u128>,
    n: int,
    now: Seq<char>,
    rulings: LauncherRulingsView,
)
    requires
        0 <= n <= keys.len(),
        restarted_entries(map, keys.subrange(0, n), now, rulings) is Err,
    ensures
        restarted_entries(map, keys, now, rulings) == restarted_entries(
            map,
            keys.subrange(0, n),
            now,
            rulings,
        ),
    decreases keys.len() - n,
{
    if n == keys.len() {
        assert(keys.subrange(0, n) =~= keys);
    } else {
        assert(keys.subrange(0, n + 1).drop_last() =~= keys.subrange(0, n));
        restart_error_stays(map, keys, n + 1, now, rulings);
    }
}

/// How far a performance operation has come.
pub open spec fn phase_rank(phase: PerformanceOperationPhaseView) -> nat {
    match phase {
        PerformanceOperationPhaseView::Accepted {  } => 0,
        PerformanceOperationPhaseView::Planning {  } => 1,
        PerformanceOperationPhaseView::Prepared { .. } => 2,
        PerformanceOperationPhaseView::EffectStarted { .. } => 3,
        PerformanceOperationPhaseView::AppliedUnverified { .. } => 4,
        PerformanceOperationPhaseView::TerminalIntent { .. } => 5,
        PerformanceOperationPhaseView::Terminal { .. } => 6,
    }
}

/// A performance operation only goes forward, and shows each transition that it has made.
pub proof fn transitions_go_forward(
    phase: PerformanceOperationPhaseView,
    transition: PerformanceOperationTransitionView,
)
    requires
        next_phase(phase, transition) is Some,
    ensures
        phase_rank(next_phase(phase, transition)->0) > phase_rank(phase),
        transition_shows(next_phase(phase, transition)->0, transition),
{
}

/// An operation that has ended makes no transition any more.
pub proof fn ended_operation_stays_ended(
    phase: PerformanceOperationPhaseView,
    transition: PerformanceOperationTransitionView,
)
    requires
        phase is Terminal,
    ensures
        next_phase(phase, transition) is None,
        restart_phase(phase) is None,
{
}

/// The effect of an operation starts at most once: no phase from the effect on, and no end, leads
/// back to where it could start again.
pub proof fn effect_starts_once(
    phase: PerformanceOperationPhaseView,
    transition: PerformanceOperationTransitionView,
)
    requires
        next_phase(phase, transition) is Some,
        next_phase(phase, transition)->0 is EffectStarted,
    ensures
        phase is Prepared,
        transition is EffectStarted,
{
}

/// Whether the error that a transition brings reads as it should.
pub open spec fn transition_error_is_canonical(
    transition: PerformanceOperationTransitionView,
    rulings: LauncherRulingsView,
) -> bool {
    transition matches PerformanceOperationTransitionView::MarkAppliedUnverified(error)
        ==> is_canonical_fragment(error, 160, rulings)
}

/// Whether a time can follow the time at which a lifecycle began.
pub open spec fn follows_creation(
    lifecycle: PerformanceOperationLifecycleView,
    now: Seq<char>,
) -> bool {
    match (millis_instant(lifecycle.created_at), millis_instant(now)) {
        (Some(created_at), Some(updated_at)) => !updated_at.is_before(created_at),
        _ => false,
    }
}

/// A transition that is allowed and fits the intent takes a valid journal to a valid one.
pub proof fn transitions_keep_journals_valid(
    entry: OperationJournalEntryView,
    lifecycle: PerformanceOperationLifecycleView,
    transition: PerformanceOperationTransitionView,
    now: Seq<char>,
    rulings: LauncherRulingsView,
)
    requires
        lifecycle_of(entry) == Some(lifecycle),
        lifecycle_is_valid(entry, lifecycle, rulings),
        transition_fits(lifecycle.intent, transition, rulings),
        transition_error_is_canonical(transition, rulings),
        follows_creation(lifecycle, now),
        next_phase(lifecycle.phase, transition) is Some,
    ensures
        ({
            let moved = moved_to(
                entry,
                lifecycle,
                next_phase(lifecycle.phase, transition)->0,
                now,
            );
            lifecycle_is_valid(moved, lifecycle_of(moved)->0, rulings)
        }),
{
}

/// A restart settles everything that it changes: settled operations can be resumed, wait for their
/// effect to be confirmed, or have ended, and another restart changes nothing.
pub proof fn restart_settles(phase: PerformanceOperationPhaseView)
    ensures
        ({
            let after = match restart_phase(phase) {
                Some(changed) => changed,
                None => phase,
            };
            &&& after is Prepared || after is AppliedUnverified || after is Terminal
            &&& restart_phase(after) is None
            &&& phase_rank(after) >= phase_rank(phase)
        }),
{
}

/// A restart takes a valid journal to a valid one, where its own words read as errors should.
pub proof fn restarts_keep_journals_valid(
    entry: OperationJournalEntryView,
    lifecycle: PerformanceOperationLifecycleView,
    now: Seq<char>,
    rulings: LauncherRulingsView,
)
    requires
        lifecycle_of(entry) == Some(lifecycle),
        lifecycle_is_valid(entry, lifecycle, rulings),
        follows_creation(lifecycle, now),
        is_canonical_fragment(unconfirmed_error(), 160, rulings),
        is_canonical_fragment("performance operation abandoned before effect"@, 160, rulings),
        restarted(entry, now) is Some,
    ensures
        ({
            let moved = restarted(entry, now)->0;
            lifecycle_is_valid(moved, lifecycle_of(moved)->0, rulings)
        }),
{
}

/// A new performance operation is only created where no other one of its instance is under way, and
/// under an identity that no visible journal has.
pub proof fn created_performance_is_alone(
    store: OperationJournalStoreView,
    intent: PerformanceOperationIntentView,
    minted: Seq<OperationId>,
    now: Seq<char>,
    rulings: LauncherRulingsView,
)
    requires
        created_performance(store, intent, minted, now, rulings) is Ok,
    ensures
        ({
            let draft = created_performance(store, intent, minted, now, rulings)->Ok_0;
            &&& !store.visible.entries.contains_key(draft.entry.operation_id.value)
            &&& minted.contains(draft.entry.operation_id)
            &&& active_performance_instance(draft.entry) == Some(intent.instance_id)
            &&& !instance_is_busy(store.visible.entries, intent.instance_id)
        }),
{
    first_free_is_free(store.visible.entries, minted);
}

/// The identity that is chosen is one of those that were minted, and no visible journal has it.
pub proof fn first_free_is_free(map: JournalMap, minted: Seq<OperationId>)
    ensures
        first_free(map, minted) matches Some(id) ==> !map.contains_key(id.value)
            && minted.contains(id),
    decreases minted.len(),
{
    if minted.len() > 0 {
        assert(minted.contains(minted[0]));
        let rest = minted.drop_first();
        first_free_is_free(map, rest);
        if let Some(id) = first_free(map, rest) {
            if rest.contains(id) {
                let i = choose|i: int| 0 <= i < rest.len() && rest[i] == id;
                assert(minted[i + 1] == id);
            }
        }
    }
}

/// What becomes of a requested transition: what is to be made of it, or why it cannot be.
pub open spec fn transition_requested(
    store: OperationJournalStoreView,
    operation_id: OperationId,
    transition: PerformanceOperationTransitionView,
    rulings: LauncherRulingsView,
) -> Result<PerformanceOperationTransitionView, OperationJournalStoreError> {
    match held_intent(store, operation_id) {
        None => Err(OperationJournalStoreError::MissingOperation),
        Some(intent) => if transition_fits(
            intent,
            sanitized_transition(transition, rulings),
            rulings,
        ) {
            Ok(sanitized_transition(transition, rulings))
        } else {
            Err(
                OperationJournalStoreError::Validation(
                    OperationJournalValidationError::InvalidPerformanceLifecycle,
                ),
            )
        },
    }
}

/// What becomes of Guardian evidence on a performance operation.
pub open spec fn performance_evidence_recorded(
    store: OperationJournalStoreView,
    evidence: DurableGuardianEvidenceView,
    now: Seq<char>,
    rulings: LauncherRulingsView,
) -> Result<Option<JournalDraftView>, OperationJournalStoreError> {
    match evidence_is_new(store, evidence) {
        Err(error) => Err(error),
        Ok(false) => Ok(None),
        Ok(true) => match updated(
            store,
            evidence.operation_id,
            performance_update(),
            |entry: OperationJournalEntryView| performance_evidenced(entry, evidence, now),
            rulings,
        ) {
            Ok(draft) => Ok(Some(draft)),
            Err(error) => Err(error),
        },
    }
}

/// What a restart makes of the operations of a store.
pub open spec fn restarts_settled(
    store: OperationJournalStoreView,
    now: Seq<char>,
    rulings: LauncherRulingsView,
) -> Result<Seq<OperationJournalEntryView>, OperationJournalStoreError> {
    if store.retry_candidate is Some {
        Err(OperationJournalStoreError::RetryRequired)
    } else {
        restarted_entries(
            store.visible.entries,
            ascending(store.visible.entries.dom()),
            now,
            rulings,
        )
    }
}

/// The revision that takes in what a restart has changed, where it has changed anything.
pub open spec fn restarts_prepared(
    store: OperationJournalStoreView,
    values: Seq<AcceptedJournalEntryView>,
) -> Result<Option<AcceptedJournalRevisionView>, OperationJournalStoreError> {
    if values.len() == 0 {
        Ok(None)
    } else {
        match replaced(store.visible.entries, values, store.visible.next_sequence) {
            Ok(map) => Ok(
                Some(
                    AcceptedJournalRevisionView {
                        entries: map,
                        next_sequence: store.visible.next_sequence,
                    },
                ),
            ),
            Err(error) => Err(error),
        }
    }
}

fn performance_policy() -> (r: UpdatePolicy)
    ensures
        r == performance_update(),
{
    UpdatePolicy {
        post_terminal_obligation: false,
        performance_transition: true,
        allow_expired_terminal: false,
    }
}

fn accept_performance(
    operation_id: OperationId,
    intent: &PerformanceOperationIntent,
    now: &str,
) -> (r: OperationJournalEntry)
    ensures
        r@ == accepted_performance(operation_id, intent@, now@),
{
    let mut entry = OperationJournalEntry::new(
        JournalId { text: journal_text(&operation_id) },
        operation_id,
        CommandKind::ApplyPerformancePlan,
        StabilizationSystem::Application,
        OwnershipClass::CompositionManaged,
        intent.rollback,
    );
    assert(entry@.targets.len() == 0);
    entry.targets.push(
        TargetDescriptor {
            system: StabilizationSystem::State,
            kind: TargetKind::Instance,
            id: intent.instance_id.duplicate(),
            ownership: OwnershipClass::CompositionManaged,
        },
    );
    entry.targets.push(
        TargetDescriptor {
            system: StabilizationSystem::Performance,
            kind: TargetKind::PerformanceComposition,
            id: intent.base_target_id.duplicate(),
            ownership: OwnershipClass::CompositionManaged,
        },
    );
    entry.intent = OperationIntent::Performance(
        PerformanceOperationLifecycle {
            intent: intent.duplicate(),
            phase: PerformanceOperationPhase::Accepted {  },
            created_at: now.to_owned(),
            updated_at: now.to_owned(),
        },
    );
    assert(entry@.targets =~= accepted_performance(operation_id, intent@, now@).targets);
    entry
}

fn restart_entry(entry: &OperationJournalEntry, now: &str) -> (r: Option<OperationJournalEntry>)
    ensures
        opt_view(r) == restarted(entry@, now@),
{
    let lifecycle = match &entry.intent {
        OperationIntent::Performance(lifecycle) => lifecycle,
        OperationIntent::Generic {  } => {
            return None;
        },
    };
    let phase = match &lifecycle.phase {
        PerformanceOperationPhase::Accepted {  } => PerformanceOperationPhase::Terminal {
            terminal: PerformanceOperationTerminal::AbandonedBeforeEffect {  },
        },
        PerformanceOperationPhase::Planning {  } => PerformanceOperationPhase::Terminal {
            terminal: PerformanceOperationTerminal::AbandonedBeforeEffect {  },
        },
        PerformanceOperationPhase::EffectStarted { prepared } => {
            PerformanceOperationPhase::AppliedUnverified {
                prepared: prepared.duplicate(),
                error: "performance operation outcome could not be confirmed after restart".to_owned(),
            }
        },
        PerformanceOperationPhase::TerminalIntent { terminal } => {
            PerformanceOperationPhase::Terminal { terminal: terminal.duplicate() }
        },
        _ => {
            return None;
        },
    };
    let mut moved = entry.duplicate();
    moved.intent = OperationIntent::Performance(
        PerformanceOperationLifecycle {
            intent: lifecycle.intent.duplicate(),
            phase,
            created_at: lifecycle.created_at.duplicate(),
            updated_at: now.to_owned(),
        },
    );
    apply_performance_phase_shape(&mut moved);
    Some(moved)
}

fn apply_performance_evidence(
    entry: &mut OperationJournalEntry,
    evidence: &DurableGuardianEvidence,
    now: &str,
) -> (r: Result<(), OperationJournalStoreError>)
    ensures
        match performance_evidenced(old(entry)@, evidence@, now@) {
            Ok(changed) => r is Ok && final(entry)@ == changed,
            Err(error) => r == Err::<(), OperationJournalStoreError>(error),
        },
{
    let touched = match &entry.intent {
        OperationIntent::Performance(lifecycle) => PerformanceOperationLifecycle {
            intent: lifecycle.intent.duplicate(),
            phase: lifecycle.phase.duplicate(),
            created_at: lifecycle.created_at.duplicate(),
            updated_at: now.to_owned(),
        },
        OperationIntent::Generic {  } => {
            return Err(OperationJournalStoreError::MissingOperation);
        },
    };
    entry.intent = OperationIntent::Performance(touched);
    apply_idempotent_guardian_evidence(entry, evidence)
}

impl OperationJournalStore {
    /// Whether a performance operation of this instance is under way.
    fn is_busy(&self, instance_id: &str) -> (r: bool)
        ensures
            r == instance_is_busy(self@.visible.entries, instance_id@),
    {
        let keys = self.visible().keys();
        let ghost map = self@.visible.entries;
        let mut i: usize = 0;
        while i < keys.len()
            invariant
                i <= keys.len(),
                map == self@.visible.entries,
                lists(keys@, map.dom()),
                forall|k: int|
                    0 <= k < i ==> active_performance_instance(map[#[trigger] keys@[k]].entry)
                        != Some(instance_id@),
            decreases keys.len() - i,
        {
            assert(keys@.contains(keys@[i as int]));
            match self.visible().entry(&OperationId { value: keys[i] }) {
                Some(entry) => {
                    if !operation_journal_status_is_terminal(entry.status) {
                        match &entry.intent {
                            OperationIntent::Performance(lifecycle) => {
                                if same_text(lifecycle.intent.instance_id.as_str(), instance_id) {
                                    assert(active_performance_instance(
                                        map[keys@[i as int]].entry,
                                    ) == Some(instance_id@));
                                    return true;
                                }
                            },
                            OperationIntent::Generic {  } => {},
                        }
                    }
                },
                None => {},
            }
            i = i + 1;
        }
        assert forall|key: u128| map.contains_key(key) implies active_performance_instance(
            (#[trigger] map[key]).entry,
        ) != Some(instance_id@) by {
            assert(keys@.contains(key));
            let k = choose|k: int| 0 <= k < keys@.len() && keys@[k] == key;
            assert(active_performance_instance(map[keys@[k]].entry) != Some(instance_id@));
        }
        false
    }

    /// Creates a performance operation at the time `now`, under the first of the minted identities
    /// that is free.
    pub fn create_performance(
        &self,
        intent: &PerformanceOperationIntent,
        minted: &Vec<OperationId>,
        now: &str,
        rulings: &LauncherRulings,
    ) -> (r: Result<JournalDraft, OperationJournalStoreError>)
        ensures
            result_view(r) == created_performance(self@, intent@, minted@, now@, rulings@),
    {
        match validate_performance_intent(intent, rulings) {
            Ok(()) => {},
            Err(error) => {
                return Err(OperationJournalStoreError::Validation(error));
            },
        }
        let ghost map = self@.visible.entries;
        let mut i: usize = 0;
        assert(minted@.subrange(0, minted@.len() as int) =~= minted@);
        while i < minted.len() && self.visible().entry(&minted[i]).is_some()
            invariant
                i <= minted.len(),
                map == self@.visible.entries,
                first_free(map, minted@) == first_free(
                    map,
                    minted@.subrange(i as int, minted@.len() as int),
                ),
            decreases minted.len() - i,
        {
            assert(minted@.subrange(i as int, minted@.len() as int).drop_first()
                =~= minted@.subrange(i + 1, minted@.len() as int));
            i = i + 1;
        }
        if i == minted.len() {
            return Err(OperationJournalStoreError::SequenceExhausted);
        }
        let operation_id = minted[i];
        let entry = accept_performance(operation_id, intent, now);
        match validate_entry(&entry, rulings) {
            Ok(()) => {},
            Err(error) => {
                return Err(OperationJournalStoreError::Validation(error));
            },
        }
        if self.has_retry_candidate() {
            return Err(OperationJournalStoreError::RetryRequired);
        }
        if self.is_busy(intent.instance_id.as_str()) {
            return Err(OperationJournalStoreError::Conflict);
        }
        self.draft_fresh(entry)
    }

    /// A transition made safe for the operation that it is for.
    pub fn request_performance_transition(
        &self,
        operation_id: &OperationId,
        transition: PerformanceOperationTransition,
        rulings: &LauncherRulings,
    ) -> (r: Result<PerformanceOperationTransition, OperationJournalStoreError>)
        ensures
            result_view(r) == transition_requested(self@, *operation_id, transition@, rulings@),
    {
        match self.visible().entry(operation_id) {
            Some(entry) => match &entry.intent {
                OperationIntent::Performance(lifecycle) => sanitize_performance_transition(
                    &lifecycle.intent,
                    transition,
                    rulings,
                ),
                OperationIntent::Generic {  } => Err(OperationJournalStoreError::MissingOperation),
            },
            None => Err(OperationJournalStoreError::MissingOperation),
        }
    }

    /// Makes a transition at the time `now`. A transition that shows already needs no draft.
    pub fn transition_performance(
        &self,
        operation_id: &OperationId,
        transition: &PerformanceOperationTransition,
        now: &str,
        rulings: &LauncherRulings,
    ) -> (r: Result<Option<JournalDraft>, OperationJournalStoreError>)
        ensures
            optional_result_view(r) == transition_answer(
                self@,
                *operation_id,
                transition@,
                now@,
                rulings@,
            ),
    {
        match self.visible().entry(operation_id) {
            Some(entry) => {
                if performance_transition_is_visible(entry, transition) {
                    return Ok(None);
                }
            },
            None => {},
        }
        let policy = performance_policy();
        let mut entry = match self.open_update(operation_id, policy) {
            Ok(entry) => entry,
            Err(error) => {
                return Err(error);
            },
        };
        match apply_performance_transition(&mut entry, transition, now) {
            Ok(()) => {},
            Err(error) => {
                return Err(error);
            },
        }
        match self.close_update(entry, policy, rulings) {
            Ok(draft) => Ok(Some(draft)),
            Err(error) => Err(error),
        }
    }

    /// Whether Guardian evidence is new to a performance operation.
    fn needs_evidence(&self, evidence: &DurableGuardianEvidence) -> (r: Result<
        bool,
        OperationJournalStoreError,
    >)
        ensures
            r == evidence_is_new(self@, evidence@),
    {
        if evidence.install_terminal.is_some() {
            return Err(OperationJournalStoreError::InvalidGuardianOutcome);
        }
        let held = match self.visible().entry(&evidence.operation_id) {
            Some(entry) => entry,
            None => {
                return Err(OperationJournalStoreError::MissingOperation);
            },
        };
        let lifecycle = match &held.intent {
            OperationIntent::Performance(lifecycle) => lifecycle,
            OperationIntent::Generic {  } => {
                return Err(OperationJournalStoreError::MissingOperation);
            },
        };
        if operation_journal_status_is_terminal(held.status) {
            return Err(OperationJournalStoreError::AlreadyTerminal);
        }
        let (early, prepared) = match &lifecycle.phase {
            PerformanceOperationPhase::Accepted {  } => (true, false),
            PerformanceOperationPhase::Planning {  } => (true, false),
            PerformanceOperationPhase::Prepared { .. } => (false, true),
            _ => (false, false),
        };
        if !(early && held.completed_steps.len() == 0 && held.guardian_diagnosis_ids.len() == 0) {
            if (early || prepared) && performance_guardian_evidence_matches(held, evidence) {
                return Ok(false);
            }
            return Err(OperationJournalStoreError::AlreadyExists);
        }
        Ok(true)
    }

    /// Records the first Guardian evidence of a performance operation at the time `now`. The same
    /// evidence again needs no draft.
    pub fn record_performance_guardian_evidence(
        &self,
        evidence: &DurableGuardianEvidence,
        now: &str,
        rulings: &LauncherRulings,
    ) -> (r: Result<Option<JournalDraft>, OperationJournalStoreError>)
        ensures
            optional_result_view(r) == performance_evidence_recorded(
                self@,
                evidence@,
                now@,
                rulings@,
            ),
    {
        match self.needs_evidence(evidence) {
            Ok(true) => {},
            Ok(false) => {
                return Ok(None);
            },
            Err(error) => {
                return Err(error);
            },
        }
        let policy = performance_policy();
        let mut entry = match self.open_update(&evidence.operation_id, policy) {
            Ok(entry) => entry,
            Err(error) => {
                return Err(error);
            },
        };
        match apply_performance_evidence(&mut entry, evidence, now) {
            Ok(()) => {},
            Err(error) => {
                return Err(error);
            },
        }
        match self.close_update(entry, policy, rulings) {
            Ok(draft) => Ok(Some(draft)),
            Err(error) => Err(error),
        }
    }

    /// The entries that a restart at the time `now` changes, as it leaves them.
    pub fn settle_performance_restarts(&self, now: &str, rulings: &LauncherRulings) -> (r: Result<
        Vec<OperationJournalEntry>,
        OperationJournalStoreError,
    >)
        ensures
            (match r {
                Ok(entries) => Ok(views(entries@)),
                Err(error) => Err(error),
            }) == restarts_settled(self@, now@, rulings@),
    {
        if self.has_retry_candidate() {
            return Err(OperationJournalStoreError::RetryRequired);
        }
        let keys = self.visible().keys();
        let ghost map = self@.visible.entries;
        let mut changed: Vec<OperationJournalEntry> = Vec::new();
        let mut i: usize = 0;
        assert(keys@.subrange(0, 0) =~= Seq::empty());
        assert(views(changed@) =~= Seq::empty());
        while i < keys.len()
            invariant
                i <= keys.len(),
                self@.retry_candidate is None,
                map == self@.visible.entries,
                keys@ == ascending(map.dom()),
                lists(keys@, map.dom()),
                restarted_entries(map, keys@.subrange(0, i as int), now@, rulings@) == Ok::<
                    Seq<OperationJournalEntryView>,
                    OperationJournalStoreError,
                >(views(changed@)),
            decreases keys.len() - i,
        {
            assert(keys@.contains(keys@[i as int]));
            let ghost upto = keys@.subrange(0, i + 1);
            assert(upto.drop_last() =~= keys@.subrange(0, i as int));
            assert(upto.last() == keys@[i as int]);
            match self.visible().entry(&OperationId { value: keys[i] }) {
                Some(entry) => match restart_entry(entry, now) {
                    Some(moved) => {
                        match validate_entry(&moved, rulings) {
                            Ok(()) => {},
                            Err(error) => {
                                proof {
                                    restart_error_stays(map, keys@, i + 1, now@, rulings@);
                                }
                                return Err(OperationJournalStoreError::Validation(error));
                            },
                        }
                        let ghost before = views(changed@);
                        changed.push(moved);
                        assert(views(changed@) =~= before.push(moved@));
                    },
                    None => {},
                },
                None => {},
            }
            i = i + 1;
        }
        assert(keys@.subrange(0, keys@.len() as int) =~= keys@);
        Ok(changed)
    }

    /// The revision in which these entries stand in place of the ones before, given their texts;
    /// none where there is nothing to change.
    pub fn prepare_restarts(
        &self,
        entries: Vec<OperationJournalEntry>,
        canonical: Vec<Vec<u8>>,
    ) -> (r: Result<Option<AcceptedJournalRevision>, OperationJournalStoreError>)
        requires
            canonical.len() == entries.len(),
        ensures
            optional_result_view(r) == restarts_prepared(self@, rows(views(entries@), canonical@)),
    {
        if entries.len() == 0 {
            return Ok(None);
        }
        let mut values: Vec<AcceptedJournalEntry> = Vec::new();
        let mut i: usize = 0;
        while i < entries.len()
            invariant
                i <= entries.len(),
                canonical.len() == entries.len(),
                values.len() == i,
                forall|k: int|
                    0 <= k < i ==> (#[trigger] values@[k])@ == rows(
                        views(entries@),
                        canonical@,
                    )[k],
            decreases entries.len() - i,
        {
            values.push(
                AcceptedJournalEntry {
                    entry: entries[i].duplicate(),
                    canonical: canonical[i].clone(),
                },
            );
            i = i + 1;
        }
        assert(views(values@) =~= rows(views(entries@), canonical@));
        match self.visible().with_replaced(values) {
            Ok(revision) => Ok(Some(revision)),
            Err(error) => Err(error),
        }
    }
}

} // verus!

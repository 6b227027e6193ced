//! Which journals and memories are in order, and what tells memories apart.

use crate::contracts::{
    DiagnosisId, GuardianDomain, GuardianMode, ReconciliationComponent, ReconciliationRung,
    StabilizationSystem, TargetKind,
};
use crate::entry::{OperationJournalEntryView, OperationJournalStepView, OperationStepMetricsView};
use crate::evidence::{
    PersistedStateRepairAttemptView, PersistedStateRepairTerminalView, ReconciliationScopeView,
    ReconciliationTerminalView, TargetDescriptorView,
};
use crate::failure_entry::GuardianFailureMemoryEntryView;
use crate::failure_keys::{kept_intent, observation_key, reconciliation_key, repair_key, safe_id};
use crate::failure_validation::{expected_key, is_memory_fragment, memory_verdict};
use crate::instants::text_instant;
use crate::journal_validation::{
    completed_steps_verdict, entry_verdict, holds_completed_quarantine, is_completed_quarantine,
    metrics_are_in_place, planned_steps_verdict, step_verdict, sweep_is_measured, target_verdict,
};
use crate::rulings::{ruled_id, LauncherRulingsView};
use crate::tokens::{is_safe_generated_fact, is_safe_token};
use vstd::prelude::*;

verus! {

/// Whether a step is in order: it and what it changed are named safely, its facts are few and safe, the
/// Guardian's are few and different, and its metrics are consistent.
pub open spec fn step_is_in_order(
    step: OperationJournalStepView,
    rulings: LauncherRulingsView,
) -> bool {
    &&& is_safe_token(step.step_id, 96)
    &&& step.changed_target is Some ==> is_safe_token(step.changed_target->0.id, 96)
    &&& step.generated_facts.len() <= 64
    &&& forall|i: int|
        0 <= i < step.generated_facts.len() ==> is_safe_generated_fact(
            #[trigger] step.generated_facts[i],
            rulings,
        )
    &&& step.guardian_fact_ids.len() <= rulings.max_guardian_fact_ids
    &&& step.guardian_fact_ids.no_duplicates()
    &&& step.metrics is Some ==> match step.metrics->0 {
        OperationStepMetricsView::Tier2Integrity(record) => record.consistent,
        OperationStepMetricsView::ContentDownload(record) => record.consistent,
    }
}

/// A step is accepted exactly where it is in order.
pub proof fn accepted_steps_are_in_order(
    step: OperationJournalStepView,
    rulings: LauncherRulingsView,
)
    ensures
        step_verdict(step, rulings) is Ok <==> step_is_in_order(
            step,
            rulings,
        ),
{
}

/// Completed steps are accepted exactly where each is in order.
pub proof fn completed_steps_in_order(
    steps: Seq<OperationJournalStepView>,
    rulings: LauncherRulingsView,
)
    ensures
        completed_steps_verdict(steps, rulings) is Ok <==> forall|i: int|
            0 <= i < steps.len() ==> step_is_in_order(#[trigger] steps[i], rulings),
    decreases steps.len(),
{
    if steps.len() > 0 {
        let front = steps.drop_last();
        completed_steps_in_order(front, rulings);
        accepted_steps_are_in_order(steps.last(), rulings);
        if forall|i: int| 0 <= i < steps.len() ==> step_is_in_order(#[trigger] steps[i], rulings) {
            assert forall|i: int| 0 <= i < front.len() implies step_is_in_order(
                #[trigger] front[i],
                rulings,
            ) by {
                assert(front[i] == steps[i]);
            }
            assert(steps[steps.len() - 1] == steps.last());
        }
        if completed_steps_verdict(steps, rulings) is Ok {
            assert forall|i: int| 0 <= i < steps.len() implies step_is_in_order(
                #[trigger] steps[i],
                rulings,
            ) by {
                if i < front.len() {
                    assert(front[i] == steps[i]);
                }
            }
        }
    }
}

/// Whether a planned step is in order: as any other one, and it has neither facts of the Guardian nor
/// metrics yet.
pub open spec fn plan_step_is_in_order(
    step: OperationJournalStepView,
    rulings: LauncherRulingsView,
) -> bool {
    step_is_in_order(step, rulings) && step.guardian_fact_ids.len() == 0 && step.metrics is None
}

/// Planned steps are accepted exactly where each is in order.
pub proof fn planned_steps_in_order(
    steps: Seq<OperationJournalStepView>,
    rulings: LauncherRulingsView,
)
    ensures
        planned_steps_verdict(steps, rulings) is Ok <==> forall|i: int|
            0 <= i < steps.len() ==> plan_step_is_in_order(#[trigger] steps[i], rulings),
    decreases steps.len(),
{
    if steps.len() > 0 {
        let front = steps.drop_last();
        planned_steps_in_order(front, rulings);
        accepted_steps_are_in_order(steps.last(), rulings);
        if forall|i: int|
            0 <= i < steps.len() ==> plan_step_is_in_order(#[trigger] steps[i], rulings) {
            assert forall|i: int| 0 <= i < front.len() implies plan_step_is_in_order(
                #[trigger] front[i],
                rulings,
            ) by {
                assert(front[i] == steps[i]);
            }
            assert(steps[steps.len() - 1] == steps.last());
        }
        if planned_steps_verdict(steps, rulings) is Ok {
            assert forall|i: int| 0 <= i < steps.len() implies plan_step_is_in_order(
                #[trigger] steps[i],
                rulings,
            ) by {
                if i < front.len() {
                    assert(front[i] == steps[i]);
                }
            }
        }
    }
}

/// Whether the parts that every journal has are in order: it is named safely, is not its own parent,
/// and has no more targets, steps and diagnoses than it may, each in order.
pub open spec fn parts_are_in_order(
    entry: OperationJournalEntryView,
    rulings: LauncherRulingsView,
) -> bool {
    &&& is_safe_token(entry.journal_id, 128)
    &&& entry.parent_operation_id is Some ==> entry.parent_operation_id->0 != entry.operation_id
    &&& entry.targets.len() <= 16
    &&& forall|i: int|
        0 <= i < entry.targets.len() ==> is_safe_token(
            (#[trigger] entry.targets[i]).id,
            96,
        )
    &&& entry.planned_steps.len() <= 128
    &&& forall|i: int|
        0 <= i < entry.planned_steps.len() ==> plan_step_is_in_order(
            #[trigger] entry.planned_steps[i],
            rulings,
        )
    &&& entry.completed_steps.len() <= 256
    &&& forall|i: int|
        0 <= i < entry.completed_steps.len() ==> step_is_in_order(
            #[trigger] entry.completed_steps[i],
            rulings,
        )
    &&& entry.failure_point is Some ==> is_safe_token(entry.failure_point->0, 96)
    &&& entry.guardian_diagnosis_ids.len() <= rulings.max_guardian_diagnoses
    &&& entry.guardian_diagnosis_ids.no_duplicates()
}

/// Whether the metrics of the steps are where they may be: those of a sweep in the sweep of a
/// validation, which always has them, and those of a download in the downloads of an operation that
/// downloads.
pub open spec fn metrics_are_in_their_place(
    entry: OperationJournalEntryView,
) -> bool {
    &&& forall|i: int|
        0 <= i < entry.completed_steps.len() ==> {
            let step = #[trigger] entry.completed_steps[i];
            &&& step.metrics is Some && step.metrics->0 is Tier2Integrity ==> {
                &&& entry.command is ValidateInstance
                &&& step.step_id == "tier2_integrity_sweep"@
                &&& step.phase is Validating
            }
            &&& step.metrics is Some && step.metrics->0 is ContentDownload ==> {
                &&& entry.command is InstallVersion || entry.command is ModifyInstanceContent
                &&& step.phase is Downloading
            }
            &&& step.step_id == "tier2_integrity_sweep"@ ==> step.metrics is Some
                && step.metrics->0 is Tier2Integrity
        }
}

/// Whether what the Guardian found of how an installation ended fits the journal: the operation is one
/// that installs and has failed, and the diagnosis is among those that are recorded.
pub open spec fn install_end_fits(entry: OperationJournalEntryView) -> bool {
    entry.guardian_install_terminal is Some ==> {
        let terminal = entry.guardian_install_terminal->0;
        &&& terminal.consistent
        &&& entry.status is Failed
        &&& entry.outcome is Some
        &&& entry.outcome->0 is Failed
        &&& entry.command is InstallVersion || entry.command is ModifyInstanceContent
        &&& entry.guardian_diagnosis_ids.contains(terminal.diagnosis_id)
        &&& terminal.memory is Some ==> is_safe_token(terminal.memory->0.target.id, 96)
    }
}

/// Whether the attempt at a reconciliation fits the journal: it is a repair by the Guardian of the
/// target, of the instance and for the diagnosis that the journal names.
pub open spec fn attempt_is_in_order(entry: OperationJournalEntryView) -> bool {
    entry.reconciliation_attempt is Some ==> {
        let attempt = entry.reconciliation_attempt->0;
        &&& attempt.consistent
        &&& attempt.operation_id == entry.operation_id
        &&& entry.command is RepairInstance
        &&& entry.owner is Guardian
        &&& attempt.ownership == entry.ownership
        &&& entry.targets.contains(attempt.target)
        &&& entry.guardian_diagnosis_ids.contains(attempt.diagnosis_id)
        &&& exists|i: int|
            0 <= i < entry.targets.len() && (#[trigger] entry.targets[i]).system is State
                && entry.targets[i].kind is Instance && entry.targets[i].id
                == attempt.scope.instance_id && entry.targets[i].ownership == attempt.ownership
    }
}

/// Whether the end of a reconciliation fits the journal: it is of the attempt, a quarantine is recorded
/// where there was one, and the journal has ended as it did, in a step that changed the target.
pub open spec fn reconciliation_end_is_in_order(
    entry: OperationJournalEntryView,
) -> bool {
    let ended = entry.status is Succeeded || entry.status is Failed;
    &&& entry.reconciliation_terminal is None ==> !(entry.command is RepairInstance
        && entry.owner is Guardian && ended)
    &&& entry.reconciliation_terminal is Some ==> {
        let terminal = entry.reconciliation_terminal->0;
        let last = entry.completed_steps[entry.completed_steps.len() - 1];
        let held = exists|i: int|
            0 <= i < entry.completed_steps.len() && (#[trigger] entry.completed_steps[i]).step_id
                == "quarantine_launcher_managed_target"@
                && entry.completed_steps[i].result is Completed;
        &&& terminal.consistent
        &&& entry.reconciliation_attempt == Some(terminal.attempt)
        &&& held <==> terminal.quarantine_checkpoint.records.len() > 0
        &&& entry.completed_steps.len() > 0
        &&& last.changed_target == Some(terminal.attempt.target)
        &&& entry.outcome is Some
        &&& terminal.outcome is Succeeded ==> entry.status is Succeeded
            && entry.outcome->0 is Succeeded && entry.failure_point is None
            && last.result is Completed
        &&& terminal.outcome is Failed ==> entry.status is Failed && entry.outcome->0 is Failed
            && entry.failure_point is Some && last.result is Failed
    }
}

/// What a journal that is in order says: its parts are in order, its metrics are in their place, and
/// what was found of an installation and of a reconciliation fits it.
pub proof fn accepted_journals_are_in_order(
    entry: OperationJournalEntryView,
    rulings: LauncherRulingsView,
)
    requires
        entry_verdict(entry, rulings) is Ok,
    ensures
        parts_are_in_order(entry, rulings),
        metrics_are_in_their_place(entry),
        install_end_fits(entry),
        attempt_is_in_order(entry),
        reconciliation_end_is_in_order(entry),
        entry.intent is Generic ==> entry.command !is ApplyPerformancePlan,
        entry.command is RepairPersistedState <==> entry.persisted_state_repair_attempt is Some,
        entry.reconciliation_attempt is Some || entry.reconciliation_terminal is Some
            ==> entry.persisted_state_repair_attempt is None
            && entry.persisted_state_repair_terminal is None,
{
    completed_steps_in_order(entry.completed_steps, rulings);
    planned_steps_in_order(entry.planned_steps, rulings);
    assert forall|i: int| 0 <= i < entry.targets.len() implies is_safe_token(
        (#[trigger] entry.targets[i]).id,
        96,
    ) by {
        assert(target_verdict(entry.targets[i]) is Ok);
    }
    assert forall|i: int| 0 <= i < entry.completed_steps.len() implies {
        let step = #[trigger] entry.completed_steps[i];
        &&& step.metrics is Some && step.metrics->0 is Tier2Integrity ==> {
            &&& entry.command is ValidateInstance
            &&& step.step_id == "tier2_integrity_sweep"@
            &&& step.phase is Validating
        }
        &&& step.metrics is Some && step.metrics->0 is ContentDownload ==> {
            &&& entry.command is InstallVersion || entry.command is ModifyInstanceContent
            &&& step.phase is Downloading
        }
        &&& step.step_id == "tier2_integrity_sweep"@ ==> step.metrics is Some
            && step.metrics->0 is Tier2Integrity
    } by {
        assert(metrics_are_in_place(
            entry.command,
            entry.completed_steps[i],
        ));
        assert(sweep_is_measured(entry.completed_steps[i]));
    }
    if let Some(attempt) = entry.reconciliation_attempt {
        let wanted = TargetDescriptorView {
            system: StabilizationSystem::State,
            kind: TargetKind::Instance,
            id: attempt.scope.instance_id,
            ownership: attempt.ownership,
        };
        assert(entry.targets.contains(wanted));
        let i = choose|i: int| 0 <= i < entry.targets.len() && entry.targets[i] == wanted;
        assert(entry.targets[i].system is State);
    }
    if let Some(terminal) = entry.reconciliation_terminal {
        let steps = entry.completed_steps;
        if holds_completed_quarantine(steps) {
            let i = choose|i: int|
                0 <= i < steps.len() && is_completed_quarantine(
                    #[trigger] steps[i],
                );
            assert(steps[i].step_id == "quarantine_launcher_managed_target"@);
        }
        if exists|i: int|
            0 <= i < steps.len() && (#[trigger] steps[i]).step_id
                == "quarantine_launcher_managed_target"@ && steps[i].result is Completed {
            let i = choose|i: int|
                0 <= i < steps.len() && (#[trigger] steps[i]).step_id
                    == "quarantine_launcher_managed_target"@ && steps[i].result is Completed;
            assert(is_completed_quarantine(steps[i]));
        }
    }
}

/// A journal of an operation that is under way, is no repair and is not about performance is accepted
/// where its parts are in order, no metrics are recorded and no sweep, and the Guardian found nothing
/// of how an installation ended.
pub proof fn plain_journals_in_order_are_accepted(
    entry: OperationJournalEntryView,
    rulings: LauncherRulingsView,
)
    requires
        parts_are_in_order(entry, rulings),
        forall|i: int|
            0 <= i < entry.completed_steps.len() ==> (#[trigger] entry.completed_steps[i]).metrics
                is None && entry.completed_steps[i].step_id != "tier2_integrity_sweep"@,
        entry.guardian_install_terminal is None,
        entry.intent is Generic,
        entry.command !is ApplyPerformancePlan,
        entry.command !is RepairPersistedState,
        entry.command !is RepairInstance,
        entry.reconciliation_attempt is None,
        entry.reconciliation_terminal is None,
        entry.persisted_state_repair_attempt is None,
        entry.persisted_state_repair_terminal is None,
    ensures
        entry_verdict(entry, rulings) is Ok,
{
    completed_steps_in_order(entry.completed_steps, rulings);
    planned_steps_in_order(entry.planned_steps, rulings);
    assert forall|i: int| 0 <= i < entry.targets.len() implies target_verdict(
        #[trigger] entry.targets[i],
    ) is Ok by {
        assert(is_safe_token(entry.targets[i].id, 96));
    }
    assert forall|i: int|
        0 <= i < entry.planned_steps.len() implies metrics_are_in_place(
        entry.command,
        #[trigger] entry.planned_steps[i],
    ) && !(entry.planned_steps[i].step_id == "tier2_integrity_sweep"@
        && entry.planned_steps[i].metrics is Some) by {
        assert(plan_step_is_in_order(entry.planned_steps[i], rulings));
    }
}

/// A repair of a record that is in order has its one target and its one planned step, and shows nothing
/// until it has ended. Then it shows exactly how it ended.
pub proof fn accepted_repairs_show_how_they_ended(
    entry: OperationJournalEntryView,
    rulings: LauncherRulingsView,
)
    requires
        entry_verdict(entry, rulings) is Ok,
        entry.persisted_state_repair_attempt is Some,
    ensures
        ({
            let attempt = entry.persisted_state_repair_attempt->0;
            let end = entry.persisted_state_repair_terminal;
            &&& attempt.consistent
            &&& entry.operation_id == attempt.operation_id
            &&& entry.journal_id == attempt.journal_id
            &&& entry.command is RepairPersistedState
            &&& entry.owner is Guardian
            &&& entry.ownership is LauncherManaged
            &&& entry.rollback is NotApplicable
            &&& entry.targets.len() == 1
            &&& entry.targets[0] == attempt.target
            &&& entry.planned_steps.len() == 1
            &&& entry.planned_steps[0].step_id == "quarantine_rejected_restart_record"@
            &&& entry.guardian_diagnosis_ids.len() == 1
            &&& entry.guardian_diagnosis_ids[0] is PersistedStateSchemaInvalid
            &&& end is None ==> {
                &&& entry.status is Planned
                &&& entry.completed_steps.len() == 0
                &&& entry.failure_point is None
                &&& entry.outcome is None
            }
            &&& end is Some ==> {
                &&& end->0.consistent
                &&& end->0.attempt == attempt
                &&& entry.completed_steps.len() == 1
                &&& entry.completed_steps[0].changed_target == Some(attempt.target)
                &&& entry.outcome is Some
                &&& entry.status is Succeeded <==> end->0.outcome is Quarantined
                &&& entry.status is Failed <==> end->0.outcome !is Quarantined
                &&& entry.outcome->0 is Succeeded <==> end->0.outcome is Quarantined
                &&& entry.outcome->0 is Failed <==> end->0.outcome !is Quarantined
                &&& entry.failure_point is None <==> end->0.outcome is Quarantined
                &&& entry.completed_steps[0].result is Completed <==> end->0.outcome is Quarantined
            }
        }),
{
}

/// Whether the parts that every memory has are in order.
pub open spec fn memory_is_in_order(
    entry: GuardianFailureMemoryEntryView,
    rulings: LauncherRulingsView,
) -> bool {
    let first = text_instant(entry.first_observed_at);
    let last = text_instant(entry.last_observed_at);
    &&& is_memory_fragment(entry.key)
    &&& entry.key == expected_key(entry, rulings)
    &&& is_memory_fragment(entry.target.id)
    &&& entry.ownership == entry.target.ownership
    &&& entry.occurrence_count >= 1
    &&& first is Some
    &&& last is Some
    &&& !last->0.is_before(first->0)
    &&& entry.quarantine_checkpoint.bounded
    &&& entry.suppression_until is Some ==> text_instant(
        entry.suppression_until->0,
    ) is Some
    &&& entry.target_content_hash is Some ==> is_memory_fragment(
        entry.target_content_hash->0,
    )
    &&& entry.user_intent_hash is Some ==> is_memory_fragment(
        entry.user_intent_hash->0,
    )
}

/// Whether a memory shows the end of a reconciliation as it was.
pub open spec fn shows_the_reconciliation(
    entry: GuardianFailureMemoryEntryView,
    terminal: ReconciliationTerminalView,
) -> bool {
    &&& terminal.consistent
    &&& entry.mode == terminal.attempt.mode
    &&& entry.diagnosis_id == terminal.attempt.diagnosis_id
    &&& entry.domain == terminal.attempt.domain
    &&& entry.ownership == terminal.attempt.ownership
    &&& entry.target == terminal.attempt.target
    &&& entry.user_intent_hash is None
    &&& entry.last_action_kind is Some
    &&& entry.last_action_kind->0 is Repair
    &&& entry.last_action_outcome is Some
    &&& entry.last_action_outcome->0 is Repaired <==> terminal.outcome is Succeeded
    &&& entry.last_action_outcome->0 is Failed <==> terminal.outcome is Failed
    &&& entry.repair_attempt_count >= 1
    &&& entry.last_observed_at == terminal.attempt.observed_at
    &&& entry.suppression_until == Some(terminal.attempt.suppression_until)
    &&& entry.quarantine_checkpoint == terminal.quarantine_checkpoint
}

/// Whether a memory shows the end of a repair as it was.
pub open spec fn shows_the_repair(
    entry: GuardianFailureMemoryEntryView,
    terminal: PersistedStateRepairTerminalView,
) -> bool {
    &&& terminal.consistent
    &&& entry.diagnosis_id is PersistedStateSchemaInvalid
    &&& entry.domain is State
    &&& entry.mode is Managed
    &&& entry.ownership is LauncherManaged
    &&& entry.target == terminal.attempt.target
    &&& entry.user_intent_hash is None
    &&& entry.target_content_hash is None
    &&& entry.last_action_kind is Some
    &&& entry.last_action_kind->0 is Quarantine
    &&& entry.last_action_outcome is Some
    &&& entry.last_action_outcome->0 is Repaired <==> terminal.outcome is Quarantined
    &&& entry.last_action_outcome->0 is Failed <==> terminal.outcome !is Quarantined
    &&& entry.first_observed_at == terminal.attempt.observed_at
    &&& entry.last_observed_at == terminal.attempt.observed_at
    &&& entry.occurrence_count == 1
    &&& entry.repair_attempt_count == 1
    &&& entry.suppression_until == Some(terminal.attempt.suppression_until)
    &&& entry.quarantine_checkpoint.records.len() == 0
}

/// A memory is accepted exactly where its parts are in order and it shows the one end that it holds, if
/// it holds one.
pub proof fn accepted_memories_are_in_order(
    entry: GuardianFailureMemoryEntryView,
    rulings: LauncherRulingsView,
)
    ensures
        memory_verdict(entry, rulings) is Ok <==> {
            &&& memory_is_in_order(entry, rulings)
            &&& entry.reconciliation_terminal is None || entry.persisted_state_repair_terminal
                is None
            &&& entry.reconciliation_terminal is Some ==> shows_the_reconciliation(
                entry,
                entry.reconciliation_terminal->0,
            )
            &&& entry.persisted_state_repair_terminal is Some ==> shows_the_repair(
                entry,
                entry.persisted_state_repair_terminal->0,
            )
        },
{
}

/// Texts one after the other, up to one of them.
spec fn joined(texts: Seq<Seq<char>>, n: int) -> Seq<char>
    decreases n,
{
    if n <= 0 {
        texts[0]
    } else {
        joined(texts, n - 1) + texts[n]
    }
}

proof fn joined_alike(a: Seq<Seq<char>>, b: Seq<Seq<char>>, n: int)
    requires
        0 <= n,
        forall|i: int| 0 <= i <= n ==> #[trigger] a[i] == b[i],
    ensures
        joined(a, n) == joined(b, n),
    decreases n,
{
    if n > 0 {
        joined_alike(a, b, n - 1);
    }
    assert(a[n] == b[n]);
}

proof fn ends_leave_the_same(a: Seq<char>, b: Seq<char>, end: Seq<char>)
    requires
        a + end == b + end,
    ensures
        a == b,
{
    assert((a + end).len() == a.len() + end.len());
    assert((b + end).len() == b.len() + end.len());
    assert forall|i: int| 0 <= i < a.len() implies a[i] == b[i] by {
        assert((a + end)[i] == a[i]);
        assert((b + end)[i] == b[i]);
    }
    assert(a =~= b);
}

proof fn starts_leave_the_same(start: Seq<char>, a: Seq<char>, b: Seq<char>)
    requires
        start + a == start + b,
    ensures
        a == b,
{
    assert((start + a).len() == start.len() + a.len());
    assert((start + b).len() == start.len() + b.len());
    assert forall|i: int| 0 <= i < a.len() implies a[i] == b[i] by {
        assert((start + a)[start.len() + i] == a[i]);
        assert((start + b)[start.len() + i] == b[i]);
    }
    assert(a =~= b);
}

proof fn one_text_decides(a: Seq<Seq<char>>, b: Seq<Seq<char>>, n: int, at: int)
    requires
        0 <= at <= n,
        forall|i: int| 0 <= i <= n && i != at ==> #[trigger] a[i] == b[i],
        joined(a, n) == joined(b, n),
    ensures
        a[at] == b[at],
    decreases n,
{
    if n > 0 {
        if at == n {
            joined_alike(a, b, n - 1);
            starts_leave_the_same(joined(a, n - 1), a[n], b[n]);
        } else {
            assert(a[n] == b[n]);
            ends_leave_the_same(joined(a, n - 1), joined(b, n - 1), a[n]);
            one_text_decides(a, b, n - 1, at);
        }
    }
}

spec fn observation_texts(
    domain: GuardianDomain,
    diagnosis: DiagnosisId,
    target: TargetDescriptorView,
    mode: GuardianMode,
    intent: Option<Seq<char>>,
    rulings: LauncherRulingsView,
) -> Seq<Seq<char>> {
    seq![
        domain.memory_text(),
        ":"@,
        diagnosis.text(),
        ":"@,
        target.system.memory_text(),
        "."@,
        target.kind.memory_text(),
        "."@,
        safe_id(target.id, "target"@, rulings),
        ":"@,
        mode.memory_text(),
        ":"@,
        match kept_intent(intent, rulings) {
            Some(text) => text,
            None => "no_intent"@,
        },
    ]
}

proof fn observation_key_is_joined(
    domain: GuardianDomain,
    diagnosis: DiagnosisId,
    target: TargetDescriptorView,
    mode: GuardianMode,
    intent: Option<Seq<char>>,
    rulings: LauncherRulingsView,
)
    ensures
        observation_key(domain, diagnosis, target, mode, intent, rulings) == joined(
            observation_texts(domain, diagnosis, target, mode, intent, rulings),
            12,
        ),
{
    reveal_with_fuel(joined, 14);
}

spec fn reconciliation_texts(
    start: Seq<char>,
    rung: ReconciliationRung,
    component: ReconciliationComponent,
    scope: ReconciliationScopeView,
) -> Seq<Seq<char>> {
    seq![
        start,
        ":rung."@,
        rung.memory_text(),
        ":component."@,
        component.memory_text(),
        ":scope."@,
        "registered."@,
        scope.instance_id,
        "."@,
        scope.fingerprint,
        "."@,
        scope.inventory_fingerprint,
        "."@,
        scope.activation_contract_id,
    ]
}

proof fn reconciliation_key_is_joined(
    domain: GuardianDomain,
    diagnosis: DiagnosisId,
    target: TargetDescriptorView,
    mode: GuardianMode,
    rung: ReconciliationRung,
    component: ReconciliationComponent,
    scope: ReconciliationScopeView,
    rulings: LauncherRulingsView,
)
    ensures
        reconciliation_key(domain, diagnosis, target, mode, rung, component, scope, rulings)
            == joined(
            reconciliation_texts(
                observation_key(domain, diagnosis, target, mode, None, rulings),
                rung,
                component,
                scope,
            ),
            13,
        ),
{
    reveal_with_fuel(joined, 15);
}

proof fn joined_is_longer(texts: Seq<Seq<char>>, n: int)
    requires
        1 <= n,
    ensures
        joined(texts, n).len() >= texts[0].len() + texts[1].len(),
    decreases n,
{
    if n > 1 {
        joined_is_longer(texts, n - 1);
    } else {
        assert(joined(texts, 0) == texts[0]);
    }
}

spec fn repair_texts(attempt: PersistedStateRepairAttemptView) -> Seq<Seq<char>> {
    seq![
        "State:"@,
        DiagnosisId::PersistedStateSchemaInvalid.text(),
        ":Managed:"@,
        attempt.store.memory_text(),
        ":"@,
        attempt.record_id,
        ":"@,
        attempt.physical_identity,
    ]
}

proof fn repair_key_is_joined(attempt: PersistedStateRepairAttemptView)
    ensures
        repair_key(attempt) == joined(repair_texts(attempt), 7),
{
    reveal_with_fuel(joined, 9);
}

/// The words for domains are different.
pub proof fn domains_have_different_words(
    a: GuardianDomain,
    b: GuardianDomain,
)
    ensures
        a.memory_text() == b.memory_text() <==> a == b,
{
    reveal_strlit("Launch");
    reveal_strlit("Runtime");
    reveal_strlit("Download");
    reveal_strlit("Library");
    reveal_strlit("Performance");
    reveal_strlit("State");
    assert("Runtime"@[0] != "Library"@[0]);
    assert("Launch"@.len() == 6);
    assert("Runtime"@.len() == 7);
    assert("Download"@.len() == 8);
    assert("Library"@.len() == 7);
    assert("Performance"@.len() == 11);
    assert("State"@.len() == 5);
}

/// The words for modes are different.
pub proof fn modes_have_different_words(
    a: GuardianMode,
    b: GuardianMode,
)
    ensures
        a.memory_text() == b.memory_text() <==> a == b,
{
    reveal_strlit("Managed");
    reveal_strlit("Custom");
    assert("Managed"@.len() == 7);
    assert("Custom"@.len() == 6);
}

/// The words for diagnoses are different.
pub proof fn diagnoses_have_different_words(
    a: DiagnosisId,
    b: DiagnosisId,
)
    ensures
        a.text() == b.text() <==> a == b,
{
    reveal_strlit("java_override_unavailable");
    reveal_strlit("managed_runtime_corrupt");
    reveal_strlit("download_unavailable");
    reveal_strlit("out_of_memory");
    reveal_strlit("performance_rules_invalid");
    reveal_strlit("performance_fallback_selected");
    reveal_strlit("launch_prepare_failed");
    reveal_strlit("startup_failed_unknown");
    reveal_strlit("launcher_managed_artifact_corrupt");
    reveal_strlit("persisted_state_schema_invalid");
    assert("java_override_unavailable"@[0] != "performance_rules_invalid"@[0]);
    assert("java_override_unavailable"@.len() == 25);
    assert("managed_runtime_corrupt"@.len() == 23);
    assert("download_unavailable"@.len() == 20);
    assert("out_of_memory"@.len() == 13);
    assert("performance_rules_invalid"@.len() == 25);
    assert("performance_fallback_selected"@.len() == 29);
    assert("launch_prepare_failed"@.len() == 21);
    assert("startup_failed_unknown"@.len() == 22);
    assert("launcher_managed_artifact_corrupt"@.len() == 33);
    assert("persisted_state_schema_invalid"@.len() == 30);
}

/// The words for systems and for kinds of targets are different.
pub proof fn targets_have_different_words(
    a: StabilizationSystem,
    b: StabilizationSystem,
    c: TargetKind,
    d: TargetKind,
)
    ensures
        a.memory_text() == b.memory_text() <==> a == b,
        c.memory_text() == d.memory_text() <==> c == d,
{
    reveal_strlit("Application");
    reveal_strlit("Execution");
    reveal_strlit("Guardian");
    reveal_strlit("State");
    reveal_strlit("Performance");
    assert("Application"@[0] != "Performance"@[0]);
    reveal_strlit("Instance");
    reveal_strlit("Artifact");
    reveal_strlit("Version");
    reveal_strlit("FilesystemPath");
    reveal_strlit("JvmArguments");
    reveal_strlit("PerformanceComposition");
    reveal_strlit("PerformanceRules");
    assert("Instance"@[0] != "Artifact"@[0]);
    assert("Application"@.len() == 11);
    assert("Execution"@.len() == 9);
    assert("Guardian"@.len() == 8);
    assert("State"@.len() == 5);
    assert("Performance"@.len() == 11);
    assert("Instance"@.len() == 8);
    assert("Artifact"@.len() == 8);
    assert("Version"@.len() == 7);
    assert("FilesystemPath"@.len() == 14);
    assert("JvmArguments"@.len() == 12);
    assert("PerformanceComposition"@.len() == 22);
    assert("PerformanceRules"@.len() == 16);
}

/// The words for the rungs and the components of a reconciliation are different.
pub proof fn reconciliations_have_different_words(
    a: ReconciliationRung,
    b: ReconciliationRung,
    c: ReconciliationComponent,
    d: ReconciliationComponent,
)
    ensures
        a.memory_text() == b.memory_text() <==> a == b,
        c.memory_text() == d.memory_text() <==> c == d,
{
    reveal_strlit("RepairArtifact");
    reveal_strlit("RebuildComponent");
    reveal_strlit("Libraries");
    reveal_strlit("Runtime");
    reveal_strlit("VersionBundle");
    assert("RepairArtifact"@.len() == 14);
    assert("RebuildComponent"@.len() == 16);
    assert("Libraries"@.len() == 9);
    assert("Runtime"@.len() == 7);
    assert("VersionBundle"@.len() == 13);
}

/// Observations that differ in one respect only are remembered under different keys: in the domain, in
/// the diagnosis, in the system or the kind of the target, in its name as it is made safe, in the mode,
/// or in the intent as it is kept.
pub proof fn observation_keys_tell_apart(
    domain: GuardianDomain,
    other_domain: GuardianDomain,
    diagnosis: DiagnosisId,
    other_diagnosis: DiagnosisId,
    target: TargetDescriptorView,
    other_target: TargetDescriptorView,
    mode: GuardianMode,
    other_mode: GuardianMode,
    intent: Option<Seq<char>>,
    rulings: LauncherRulingsView,
)
    ensures
        ({
            let key = observation_key(
                domain,
                diagnosis,
                target,
                mode,
                intent,
                rulings,
            );
            &&& domain != other_domain ==> key != observation_key(
                other_domain,
                diagnosis,
                target,
                mode,
                intent,
                rulings,
            )
            &&& diagnosis != other_diagnosis ==> key != observation_key(
                domain,
                other_diagnosis,
                target,
                mode,
                intent,
                rulings,
            )
            &&& mode != other_mode ==> key != observation_key(
                domain,
                diagnosis,
                target,
                other_mode,
                intent,
                rulings,
            )
            &&& target.system != other_target.system ==> key
                != observation_key(
                domain,
                diagnosis,
                TargetDescriptorView { system: other_target.system, ..target },
                mode,
                intent,
                rulings,
            )
            &&& target.kind != other_target.kind ==> key != observation_key(
                domain,
                diagnosis,
                TargetDescriptorView { kind: other_target.kind, ..target },
                mode,
                intent,
                rulings,
            )
            &&& ruled_id(rulings.sanitized_ids, target.id, "target"@)
                != ruled_id(rulings.sanitized_ids, other_target.id, "target"@)
                ==> key != observation_key(
                domain,
                diagnosis,
                TargetDescriptorView { id: other_target.id, ..target },
                mode,
                intent,
                rulings,
            )
        }),
{
    domains_have_different_words(domain, other_domain);
    diagnoses_have_different_words(diagnosis, other_diagnosis);
    modes_have_different_words(mode, other_mode);
    targets_have_different_words(target.system, other_target.system, target.kind, other_target.kind);
    let key = observation_key(domain, diagnosis, target, mode, intent, rulings);
    let texts = observation_texts(domain, diagnosis, target, mode, intent, rulings);
    observation_key_is_joined(domain, diagnosis, target, mode, intent, rulings);
    observation_key_is_joined(other_domain, diagnosis, target, mode, intent, rulings);
    observation_key_is_joined(domain, other_diagnosis, target, mode, intent, rulings);
    observation_key_is_joined(domain, diagnosis, target, other_mode, intent, rulings);
    let other_system = TargetDescriptorView { system: other_target.system, ..target };
    let other_kind = TargetDescriptorView { kind: other_target.kind, ..target };
    let other_id = TargetDescriptorView { id: other_target.id, ..target };
    observation_key_is_joined(domain, diagnosis, other_system, mode, intent, rulings);
    observation_key_is_joined(domain, diagnosis, other_kind, mode, intent, rulings);
    observation_key_is_joined(domain, diagnosis, other_id, mode, intent, rulings);
    if key == observation_key(other_domain, diagnosis, target, mode, intent, rulings) {
        let b = observation_texts(other_domain, diagnosis, target, mode, intent, rulings);
        one_text_decides(texts, b, 12, 0);
    }
    if key == observation_key(domain, other_diagnosis, target, mode, intent, rulings) {
        let b = observation_texts(domain, other_diagnosis, target, mode, intent, rulings);
        one_text_decides(texts, b, 12, 2);
    }
    if key == observation_key(domain, diagnosis, target, other_mode, intent, rulings) {
        let b = observation_texts(domain, diagnosis, target, other_mode, intent, rulings);
        one_text_decides(texts, b, 12, 10);
    }
    if key == observation_key(domain, diagnosis, other_system, mode, intent, rulings) {
        let b = observation_texts(domain, diagnosis, other_system, mode, intent, rulings);
        one_text_decides(texts, b, 12, 4);
    }
    if key == observation_key(domain, diagnosis, other_kind, mode, intent, rulings) {
        let b = observation_texts(domain, diagnosis, other_kind, mode, intent, rulings);
        one_text_decides(texts, b, 12, 6);
    }
    if key == observation_key(domain, diagnosis, other_id, mode, intent, rulings) {
        let b = observation_texts(domain, diagnosis, other_id, mode, intent, rulings);
        one_text_decides(texts, b, 12, 8);
    }
}

/// Ends of reconciliations that differ in one respect only are remembered under different keys: in the
/// rung, in the component, or in any part of their scope. None is remembered under the key of the
/// observation that it is about.
pub proof fn reconciliation_keys_tell_apart(
    domain: GuardianDomain,
    diagnosis: DiagnosisId,
    target: TargetDescriptorView,
    mode: GuardianMode,
    rung: ReconciliationRung,
    other_rung: ReconciliationRung,
    component: ReconciliationComponent,
    other_component: ReconciliationComponent,
    scope: ReconciliationScopeView,
    other: ReconciliationScopeView,
    rulings: LauncherRulingsView,
)
    ensures
        ({
            let key = reconciliation_key(
                domain,
                diagnosis,
                target,
                mode,
                rung,
                component,
                scope,
                rulings,
            );
            &&& key != observation_key(
                domain,
                diagnosis,
                target,
                mode,
                None,
                rulings,
            )
            &&& rung != other_rung ==> key != reconciliation_key(
                domain,
                diagnosis,
                target,
                mode,
                other_rung,
                component,
                scope,
                rulings,
            )
            &&& component != other_component ==> key != reconciliation_key(
                domain,
                diagnosis,
                target,
                mode,
                rung,
                other_component,
                scope,
                rulings,
            )
            &&& scope.instance_id != other.instance_id ==> key
                != reconciliation_key(
                domain,
                diagnosis,
                target,
                mode,
                rung,
                component,
                ReconciliationScopeView { instance_id: other.instance_id, ..scope },
                rulings,
            )
            &&& scope.fingerprint != other.fingerprint ==> key
                != reconciliation_key(
                domain,
                diagnosis,
                target,
                mode,
                rung,
                component,
                ReconciliationScopeView { fingerprint: other.fingerprint, ..scope },
                rulings,
            )
            &&& scope.inventory_fingerprint != other.inventory_fingerprint ==> key
                != reconciliation_key(
                domain,
                diagnosis,
                target,
                mode,
                rung,
                component,
                ReconciliationScopeView {
                    inventory_fingerprint: other.inventory_fingerprint,
                    ..scope
                },
                rulings,
            )
            &&& scope.activation_contract_id != other.activation_contract_id ==> key
                != reconciliation_key(
                domain,
                diagnosis,
                target,
                mode,
                rung,
                component,
                ReconciliationScopeView {
                    activation_contract_id: other.activation_contract_id,
                    ..scope
                },
                rulings,
            )
        }),
{
    reconciliations_have_different_words(rung, other_rung, component, other_component);
    let start = observation_key(domain, diagnosis, target, mode, None, rulings);
    let key = reconciliation_key(
        domain,
        diagnosis,
        target,
        mode,
        rung,
        component,
        scope,
        rulings,
    );
    let texts = reconciliation_texts(start, rung, component, scope);
    let a = ReconciliationScopeView { instance_id: other.instance_id, ..scope };
    let b = ReconciliationScopeView { fingerprint: other.fingerprint, ..scope };
    let c = ReconciliationScopeView { inventory_fingerprint: other.inventory_fingerprint, ..scope };
    let d = ReconciliationScopeView {
        activation_contract_id: other.activation_contract_id,
        ..scope
    };
    assert forall|r: ReconciliationRung, m: ReconciliationComponent, s: ReconciliationScopeView|
        #[trigger]
        reconciliation_key(domain, diagnosis, target, mode, r, m, s, rulings) == joined(
            reconciliation_texts(start, r, m, s),
            13,
        ) by {
        reconciliation_key_is_joined(domain, diagnosis, target, mode, r, m, s, rulings);
    }
    joined_is_longer(texts, 13);
    reveal_strlit(":rung.");
    assert(texts[1].len() == 6);
    if key == reconciliation_key(
        domain,
        diagnosis,
        target,
        mode,
        other_rung,
        component,
        scope,
        rulings,
    ) {
        one_text_decides(texts, reconciliation_texts(start, other_rung, component, scope), 13, 2);
    }
    if key == reconciliation_key(
        domain,
        diagnosis,
        target,
        mode,
        rung,
        other_component,
        scope,
        rulings,
    ) {
        one_text_decides(texts, reconciliation_texts(start, rung, other_component, scope), 13, 4);
    }
    if key == reconciliation_key(domain, diagnosis, target, mode, rung, component, a, rulings) {
        one_text_decides(texts, reconciliation_texts(start, rung, component, a), 13, 7);
    }
    if key == reconciliation_key(domain, diagnosis, target, mode, rung, component, b, rulings) {
        one_text_decides(texts, reconciliation_texts(start, rung, component, b), 13, 9);
    }
    if key == reconciliation_key(domain, diagnosis, target, mode, rung, component, c, rulings) {
        one_text_decides(texts, reconciliation_texts(start, rung, component, c), 13, 11);
    }
    if key == reconciliation_key(domain, diagnosis, target, mode, rung, component, d, rulings) {
        one_text_decides(texts, reconciliation_texts(start, rung, component, d), 13, 13);
    }
}

/// Repairs of different records, or of records that are not physically the same, are remembered under
/// different keys.
pub proof fn repair_keys_tell_apart(
    attempt: PersistedStateRepairAttemptView,
    other: PersistedStateRepairAttemptView,
)
    requires
        attempt.store == other.store,
    ensures
        attempt.record_id != other.record_id && attempt.physical_identity
            == other.physical_identity ==> repair_key(attempt)
            != repair_key(other),
        attempt.record_id == other.record_id && attempt.physical_identity
            != other.physical_identity ==> repair_key(attempt)
            != repair_key(other),
{
    let a = repair_texts(attempt);
    let b = repair_texts(other);
    repair_key_is_joined(attempt);
    repair_key_is_joined(other);
    if repair_key(attempt) == repair_key(other) {
        if attempt.physical_identity == other.physical_identity {
            one_text_decides(a, b, 7, 5);
        }
        if attempt.record_id == other.record_id {
            one_text_decides(a, b, 7, 7);
        }
    }
}

} // verus!

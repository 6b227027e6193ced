//! Whether what was asked for shows in a journal entry.

use crate::contracts::{
    CommandKind, OperationId, OperationStatus, OwnershipClass, RollbackState, StabilizationSystem,
};
use crate::entry::{
    OperationIntent, OperationIntentView, OperationJournalEntry, OperationJournalEntryView,
    OperationJournalStep, OperationJournalStepView,
};
use crate::evidence::{
    JournalId, PersistedStateRepairAttempt, PersistedStateRepairAttemptView,
    PersistedStateRepairTerminal, PersistedStateRepairTerminalView,
};
use crate::journal_validation::{entry_verdict, validate_entry};
use crate::record::{list_has, list_same, opt_same, views, Record};
use crate::rulings::{LauncherRulings, LauncherRulingsView};
use vstd::prelude::*;

verus! {

/// The journal of an operation that has only been planned.
pub open spec fn new_entry(
    journal_id: Seq<char>,
    operation_id: OperationId,
    command: CommandKind,
    owner: StabilizationSystem,
    ownership: OwnershipClass,
    rollback: RollbackState,
) -> OperationJournalEntryView {
    OperationJournalEntryView {
        journal_id,
        operation_id,
        sequence: 0,
        parent_operation_id: None,
        command,
        intent: OperationIntentView::Generic {  },
        owner,
        ownership,
        targets: Seq::empty(),
        planned_steps: Seq::empty(),
        completed_steps: Seq::empty(),
        status: OperationStatus::Planned,
        failure_point: None,
        rollback,
        guardian_diagnosis_ids: Seq::empty(),
        guardian_install_terminal: None,
        outcome: None,
        reconciliation_attempt: None,
        reconciliation_terminal: None,
        persisted_state_repair_attempt: None,
        persisted_state_repair_terminal: None,
    }
}

impl OperationJournalEntry {
    /// The journal of an operation that has only been planned.
    pub fn new(
        journal_id: JournalId,
        operation_id: OperationId,
        command: CommandKind,
        owner: StabilizationSystem,
        ownership: OwnershipClass,
        rollback: RollbackState,
    ) -> (r: OperationJournalEntry)
        ensures
            r@ == new_entry(journal_id@, operation_id, command, owner, ownership, rollback),
    {
        let r = OperationJournalEntry {
            journal_id,
            operation_id,
            sequence: 0,
            parent_operation_id: None,
            command,
            intent: OperationIntent::Generic {  },
            owner,
            ownership,
            targets: Vec::new(),
            planned_steps: Vec::new(),
            completed_steps: Vec::new(),
            status: OperationStatus::Planned,
            failure_point: None,
            rollback,
            guardian_diagnosis_ids: Vec::new(),
            guardian_install_terminal: None,
            outcome: None,
            reconciliation_attempt: None,
            reconciliation_terminal: None,
            persisted_state_repair_attempt: None,
            persisted_state_repair_terminal: None,
        };
        assert(r@.targets =~= Seq::empty());
        assert(r@.planned_steps =~= Seq::empty());
        assert(r@.completed_steps =~= Seq::empty());
        r
    }

    /// Whether the two entries agree in everything but the sequence, which the store assigns.
    pub fn matches_store_entry(&self, other: &OperationJournalEntry) -> (r: bool)
        ensures
            r == same_but_sequence(self@, other@),
    {
        let mut aligned = other.duplicate();
        aligned.sequence = self.sequence;
        self.same(&aligned)
    }
}

/// Whether two entries agree in everything but the sequence, which the store assigns.
pub open spec fn same_but_sequence(
    left: OperationJournalEntryView,
    right: OperationJournalEntryView,
) -> bool {
    left == (OperationJournalEntryView { sequence: left.sequence, ..right })
}

/// Whether two entries are of the same operation and plan the same.
pub open spec fn same_identity_and_plan(
    entry: OperationJournalEntryView,
    expected: OperationJournalEntryView,
) -> bool {
    &&& entry.journal_id == expected.journal_id
    &&& entry.operation_id == expected.operation_id
    &&& entry.parent_operation_id == expected.parent_operation_id
    &&& entry.command == expected.command
    &&& entry.intent == expected.intent
    &&& entry.owner == expected.owner
    &&& entry.ownership == expected.ownership
    &&& entry.targets == expected.targets
    &&& entry.planned_steps == expected.planned_steps
    &&& entry.rollback == expected.rollback
}

/// Whether two entries carry the same evidence of a repair.
pub open spec fn same_repair(
    entry: OperationJournalEntryView,
    expected: OperationJournalEntryView,
) -> bool {
    &&& entry.guardian_install_terminal == expected.guardian_install_terminal
    &&& entry.outcome == expected.outcome
    &&& entry.reconciliation_attempt == expected.reconciliation_attempt
    &&& entry.reconciliation_terminal == expected.reconciliation_terminal
    &&& entry.persisted_state_repair_attempt == expected.persisted_state_repair_attempt
    &&& entry.persisted_state_repair_terminal == expected.persisted_state_repair_terminal
}

/// Whether the entry stands as it was planned.
pub open spec fn plan_is_visible(
    entry: OperationJournalEntryView,
    expected: OperationJournalEntryView,
) -> bool {
    &&& same_identity_and_plan(entry, expected)
    &&& entry.status == expected.status
    &&& entry.completed_steps == expected.completed_steps
    &&& entry.failure_point == expected.failure_point
    &&& entry.guardian_diagnosis_ids == expected.guardian_diagnosis_ids
    &&& same_repair(entry, expected)
}

/// Whether a step says at least what is expected of it.
pub open spec fn step_covers(
    step: OperationJournalStepView,
    expected: OperationJournalStepView,
) -> bool {
    &&& step.step_id == expected.step_id
    &&& step.phase == expected.phase
    &&& step.result == expected.result
    &&& step.changed_target == expected.changed_target
    &&& step.rollback == expected.rollback
    &&& step.metrics == expected.metrics
    &&& holds_all(step.generated_facts, expected.generated_facts)
    &&& holds_all(step.guardian_fact_ids, expected.guardian_fact_ids)
}

/// Whether one list holds every item of another.
pub open spec fn holds_all<T>(items: Seq<T>, expected: Seq<T>) -> bool {
    forall|i: int| 0 <= i < expected.len() ==> items.contains(#[trigger] expected[i])
}

/// Whether a completed step says at least what is expected.
pub open spec fn completed_step_is_visible(
    entry: OperationJournalEntryView,
    expected: OperationJournalStepView,
) -> bool {
    exists|i: int|
        0 <= i < entry.completed_steps.len() && step_covers(
            #[trigger] entry.completed_steps[i],
            expected,
        )
}

/// Whether the entry ended as expected, and says at least as much.
pub open spec fn terminal_is_visible(
    entry: OperationJournalEntryView,
    expected: OperationJournalEntryView,
) -> bool {
    &&& same_identity_and_plan(entry, expected)
    &&& entry.status == expected.status
    &&& entry.failure_point == expected.failure_point
    &&& holds_all(entry.guardian_diagnosis_ids, expected.guardian_diagnosis_ids)
    &&& same_repair(entry, expected)
    &&& forall|i: int|
        0 <= i < expected.completed_steps.len() ==> completed_step_is_visible(
            entry,
            #[trigger] expected.completed_steps[i],
        )
}

/// What an entry shows whose plan is visible, is visible as an end too.
pub proof fn visible_plan_is_visible_as_end(
    entry: OperationJournalEntryView,
    expected: OperationJournalEntryView,
)
    requires
        plan_is_visible(entry, expected),
    ensures
        terminal_is_visible(entry, expected),
{
    let steps = expected.completed_steps;
    assert(holds_all(entry.guardian_diagnosis_ids, expected.guardian_diagnosis_ids));
    assert forall|i: int| 0 <= i < steps.len() implies completed_step_is_visible(
        entry,
        #[trigger] steps[i],
    ) by {
        assert(entry.completed_steps[i] == steps[i]);
        assert(holds_all(steps[i].generated_facts, steps[i].generated_facts));
        assert(holds_all(steps[i].guardian_fact_ids, steps[i].guardian_fact_ids));
        assert(step_covers(entry.completed_steps[i], steps[i]));
    }
}

fn has_all<T: Record>(items: &Vec<T>, expected: &Vec<T>) -> (r: bool)
    ensures
        r == holds_all(views(items@), views(expected@)),
{
    let ghost wanted = views(expected@);
    let mut i: usize = 0;
    while i < expected.len()
        invariant
            i <= expected.len(),
            wanted == views(expected@),
            forall|k: int| 0 <= k < i ==> views(items@).contains(#[trigger] wanted[k]),
        decreases expected.len() - i,
    {
        assert(wanted[i as int] == expected@[i as int]@);
        if !list_has(items, &expected[i]) {
            return false;
        }
        i = i + 1;
    }
    true
}

/// Whether two entries are of the same operation and plan the same.
pub fn operation_journal_identity_and_plan_match(
    entry: &OperationJournalEntry,
    expected: &OperationJournalEntry,
) -> (r: bool)
    ensures
        r == same_identity_and_plan(entry@, expected@),
{
    entry.journal_id.same(&expected.journal_id) && entry.operation_id == expected.operation_id
        && opt_same(&entry.parent_operation_id, &expected.parent_operation_id) && entry.command
        == expected.command && entry.intent.same(&expected.intent) && entry.owner == expected.owner
        && entry.ownership == expected.ownership && list_same(&entry.targets, &expected.targets)
        && list_same(&entry.planned_steps, &expected.planned_steps) && entry.rollback
        == expected.rollback
}

fn repair_matches(entry: &OperationJournalEntry, expected: &OperationJournalEntry) -> (r: bool)
    ensures
        r == same_repair(entry@, expected@),
{
    opt_same(&entry.guardian_install_terminal, &expected.guardian_install_terminal) && opt_same(
        &entry.outcome,
        &expected.outcome,
    ) && opt_same(&entry.reconciliation_attempt, &expected.reconciliation_attempt) && opt_same(
        &entry.reconciliation_terminal,
        &expected.reconciliation_terminal,
    ) && opt_same(&entry.persisted_state_repair_attempt, &expected.persisted_state_repair_attempt)
        && opt_same(
        &entry.persisted_state_repair_terminal,
        &expected.persisted_state_repair_terminal,
    )
}

/// Whether the entry stands as it was planned.
pub fn operation_journal_plan_is_visible(
    entry: &OperationJournalEntry,
    expected: &OperationJournalEntry,
) -> (r: bool)
    ensures
        r == plan_is_visible(entry@, expected@),
{
    proof {
        assert(views(entry.guardian_diagnosis_ids@) =~= entry.guardian_diagnosis_ids@);
        assert(views(expected.guardian_diagnosis_ids@) =~= expected.guardian_diagnosis_ids@);
    }
    operation_journal_identity_and_plan_match(entry, expected) && entry.status == expected.status
        && list_same(&entry.completed_steps, &expected.completed_steps) && opt_same(
        &entry.failure_point,
        &expected.failure_point,
    ) && list_same(&entry.guardian_diagnosis_ids, &expected.guardian_diagnosis_ids)
        && repair_matches(entry, expected)
}

fn covers(step: &OperationJournalStep, expected: &OperationJournalStep) -> (r: bool)
    ensures
        r == step_covers(step@, expected@),
{
    proof {
        assert(views(step.guardian_fact_ids@) =~= step.guardian_fact_ids@);
        assert(views(expected.guardian_fact_ids@) =~= expected.guardian_fact_ids@);
    }
    step.step_id.same(&expected.step_id) && step.phase == expected.phase && step.result
        == expected.result && opt_same(&step.changed_target, &expected.changed_target)
        && step.rollback == expected.rollback && opt_same(&step.metrics, &expected.metrics)
        && has_all(&step.generated_facts, &expected.generated_facts) && has_all(
        &step.guardian_fact_ids,
        &expected.guardian_fact_ids,
    )
}

/// Whether a completed step says at least what is expected.
pub fn operation_journal_completed_step_is_visible(
    entry: &OperationJournalEntry,
    expected: &OperationJournalStep,
) -> (r: bool)
    ensures
        r == completed_step_is_visible(entry@, expected@),
{
    let ghost steps = entry@.completed_steps;
    let mut i: usize = 0;
    while i < entry.completed_steps.len()
        invariant
            i <= entry.completed_steps.len(),
            steps == entry@.completed_steps,
            forall|k: int| 0 <= k < i ==> !step_covers(#[trigger] steps[k], expected@),
        decreases entry.completed_steps.len() - i,
    {
        assert(steps[i as int] == entry.completed_steps@[i as int]@);
        if covers(&entry.completed_steps[i], expected) {
            assert(step_covers(steps[i as int], expected@));
            return true;
        }
        i = i + 1;
    }
    false
}

/// Whether the entry ended as expected, and says at least as much.
pub fn operation_journal_terminal_is_visible(
    entry: &OperationJournalEntry,
    expected: &OperationJournalEntry,
) -> (r: bool)
    ensures
        r == terminal_is_visible(entry@, expected@),
{
    proof {
        assert(views(entry.guardian_diagnosis_ids@) =~= entry.guardian_diagnosis_ids@);
        assert(views(expected.guardian_diagnosis_ids@) =~= expected.guardian_diagnosis_ids@);
    }
    if !operation_journal_identity_and_plan_match(entry, expected) || entry.status
        != expected.status || !opt_same(&entry.failure_point, &expected.failure_point) || !has_all(
        &entry.guardian_diagnosis_ids,
        &expected.guardian_diagnosis_ids,
    ) || !repair_matches(entry, expected) {
        return false;
    }
    let ghost steps = expected@.completed_steps;
    let mut i: usize = 0;
    while i < expected.completed_steps.len()
        invariant
            i <= expected.completed_steps.len(),
            steps == expected@.completed_steps,
            forall|k: int|
                0 <= k < i ==> completed_step_is_visible(entry@, #[trigger] steps[k]),
        decreases expected.completed_steps.len() - i,
    {
        assert(steps[i as int] == expected.completed_steps@[i as int]@);
        if !operation_journal_completed_step_is_visible(entry, &expected.completed_steps[i]) {
            return false;
        }
        i = i + 1;
    }
    true
}

/// Whether the entry is the valid plan of this repair of a persisted record.
pub open spec fn repair_plan_is_visible(
    entry: OperationJournalEntryView,
    attempt: PersistedStateRepairAttemptView,
    rulings: LauncherRulingsView,
) -> bool {
    &&& entry.persisted_state_repair_attempt == Some(attempt)
    &&& entry.persisted_state_repair_terminal is None
    &&& entry_verdict(entry, rulings) is Ok
}

/// Whether the entry is the valid plan of this repair of a persisted record.
pub fn persisted_state_repair_plan_is_visible(
    entry: &OperationJournalEntry,
    attempt: &PersistedStateRepairAttempt,
    rulings: &LauncherRulings,
) -> (r: bool)
    ensures
        r == repair_plan_is_visible(entry@, attempt@, rulings@),
{
    let same = match &entry.persisted_state_repair_attempt {
        Some(current) => current.same(attempt),
        None => false,
    };
    same && entry.persisted_state_repair_terminal.is_none() && validate_entry(
        entry,
        rulings,
    ).is_ok()
}

/// Whether the entry is the valid journal of this end of a repair.
pub open spec fn repair_terminal_is_visible(
    entry: OperationJournalEntryView,
    terminal: PersistedStateRepairTerminalView,
    rulings: LauncherRulingsView,
) -> bool {
    &&& entry.persisted_state_repair_terminal == Some(terminal)
    &&& entry_verdict(entry, rulings) is Ok
}

/// Whether the entry is the valid journal of this end of a repair.
pub fn persisted_state_repair_terminal_is_visible(
    entry: &OperationJournalEntry,
    terminal: &PersistedStateRepairTerminal,
    rulings: &LauncherRulings,
) -> (r: bool)
    ensures
        r == repair_terminal_is_visible(entry@, terminal@, rulings@),
{
    let same = match &entry.persisted_state_repair_terminal {
        Some(current) => current.same(terminal),
        None => false,
    };
    same && validate_entry(entry, rulings).is_ok()
}

} // verus!

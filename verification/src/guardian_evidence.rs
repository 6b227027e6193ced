//! How the Guardian's evidence enters a journal entry.

use crate::contracts::{
    DiagnosisId, GuardianFactId, OperationPhase, OperationStepResult, RollbackState,
};
use crate::entry::{
    OperationJournalEntry, OperationJournalEntryView, OperationJournalStep,
    OperationJournalStepView,
};
use crate::evidence::{
    DurableGuardianEvidence, DurableGuardianEvidenceView, GuardianInstallTerminalEvidence,
    GuardianInstallTerminalEvidenceView,
};
use crate::journal_errors::OperationJournalStoreError;
use crate::record::{list_has, opt_duplicate, opt_same, opt_view, views, Record};
use crate::text::same_text;
use vstd::prelude::*;

verus! {

/// A list followed by the items of another that it does not hold yet, each once.
pub open spec fn merged<T>(base: Seq<T>, more: Seq<T>) -> Seq<T>
    decreases more.len(),
{
    if more.len() == 0 {
        base
    } else {
        let before = merged(base, more.drop_last());
        if before.contains(more.last()) {
            before
        } else {
            before.push(more.last())
        }
    }
}

/// A merged list begins with the list it was made from, and holds what was added to it.
pub proof fn merged_keeps_and_adds<T>(base: Seq<T>, more: Seq<T>)
    ensures
        base.len() <= merged(base, more).len(),
        merged(base, more).subrange(0, base.len() as int) == base,
        forall|x: T| merged(base, more).contains(x) <==> base.contains(x) || more.contains(x),
    decreases more.len(),
{
    if more.len() == 0 {
        assert(base.subrange(0, base.len() as int) =~= base);
    } else {
        let before = merged(base, more.drop_last());
        merged_keeps_and_adds(base, more.drop_last());
        assert(merged(base, more).subrange(0, base.len() as int) =~= before.subrange(
            0,
            base.len() as int,
        ));
        assert forall|x: T|
            merged(base, more).contains(x) <==> base.contains(x) || more.contains(x) by {
            assert(more.contains(x) <==> more.drop_last().contains(x) || x == more.last()) by {
                if more.contains(x) {
                    let i = choose|i: int| 0 <= i < more.len() && more[i] == x;
                    if i < more.len() - 1 {
                        assert(more.drop_last()[i] == x);
                    }
                }
                if more.drop_last().contains(x) {
                    let i = choose|i: int| 0 <= i < more.drop_last().len() && more.drop_last()[i] == x;
                    assert(more[i] == x);
                }
                if x == more.last() {
                    assert(more[more.len() - 1] == x);
                }
            }
            if before.contains(more.last()) {
            } else {
                let pushed = before.push(more.last());
                assert(pushed.contains(x) <==> before.contains(x) || x == more.last()) by {
                    if before.contains(x) {
                        let i = choose|i: int| 0 <= i < before.len() && before[i] == x;
                        assert(pushed[i] == x);
                    }
                    if x == more.last() {
                        assert(pushed[before.len() as int] == x);
                    }
                }
            }
        }
    }
}

/// What a list holds already is not added again.
pub proof fn merging_what_is_held_changes_nothing<T>(base: Seq<T>, more: Seq<T>)
    requires
        forall|i: int| 0 <= i < more.len() ==> base.contains(#[trigger] more[i]),
    ensures
        merged(base, more) == base,
    decreases more.len(),
{
    if more.len() > 0 {
        assert forall|i: int| 0 <= i < more.drop_last().len() implies base.contains(
            #[trigger] more.drop_last()[i],
        ) by {
            assert(more.drop_last()[i] == more[i]);
        }
        merging_what_is_held_changes_nothing(base, more.drop_last());
    }
}

/// Merging the same items twice is merging them once.
pub proof fn merging_twice_is_merging_once<T>(base: Seq<T>, more: Seq<T>)
    ensures
        merged(merged(base, more), more) == merged(base, more),
{
    merged_keeps_and_adds(base, more);
    assert forall|i: int| 0 <= i < more.len() implies merged(base, more).contains(
        #[trigger] more[i],
    ) by {
        assert(more.contains(more[i]));
    }
    merging_what_is_held_changes_nothing(merged(base, more), more);
}

/// Merging into a list without duplicates leaves it without duplicates.
pub proof fn merging_makes_no_duplicates<T>(base: Seq<T>, more: Seq<T>)
    requires
        base.no_duplicates(),
    ensures
        merged(base, more).no_duplicates(),
    decreases more.len(),
{
    if more.len() > 0 {
        merging_makes_no_duplicates(base, more.drop_last());
    }
}

/// A step as it is planned: nothing has come of it yet.
pub open spec fn planned_step(step_id: Seq<char>, phase: OperationPhase) -> OperationJournalStepView {
    OperationJournalStepView {
        step_id,
        phase,
        result: OperationStepResult::Planned,
        changed_target: None,
        generated_facts: Seq::empty(),
        guardian_fact_ids: Seq::empty(),
        metrics: None,
        rollback: RollbackState::NotApplicable,
    }
}

/// The step that carries Guardian facts where no other step can.
pub open spec fn evidence_step() -> OperationJournalStepView {
    OperationJournalStepView {
        result: OperationStepResult::Completed,
        ..planned_step("guardian_evidence"@, OperationPhase::Running)
    }
}

/// The steps with Guardian facts merged into one of them.
pub open spec fn facts_merged_at(
    steps: Seq<OperationJournalStepView>,
    at: int,
    facts: Seq<GuardianFactId>,
) -> Seq<OperationJournalStepView> {
    steps.update(
        at,
        OperationJournalStepView {
            guardian_fact_ids: merged(steps[at].guardian_fact_ids, facts),
            ..steps[at]
        },
    )
}

/// The steps with Guardian facts merged into the last of them, which is made where there is none.
pub open spec fn facts_in_last_step(
    steps: Seq<OperationJournalStepView>,
    facts: Seq<GuardianFactId>,
) -> Seq<OperationJournalStepView> {
    if steps.len() > 0 {
        facts_merged_at(steps, steps.len() - 1, facts)
    } else if facts.len() > 0 {
        facts_merged_at(seq![evidence_step()], 0, facts)
    } else {
        steps
    }
}

/// The position of the first step that carries Guardian facts, or the number of steps.
pub open spec fn evidence_position(steps: Seq<OperationJournalStepView>) -> int
    decreases steps.len(),
{
    if steps.len() == 0 || steps[0].step_id == "guardian_evidence"@ {
        0
    } else {
        1 + evidence_position(steps.subrange(1, steps.len() as int))
    }
}

/// The steps with Guardian facts merged into the step that carries them, which is made where there
/// is none.
pub open spec fn facts_in_evidence_step(
    steps: Seq<OperationJournalStepView>,
    facts: Seq<GuardianFactId>,
) -> Seq<OperationJournalStepView> {
    let at = evidence_position(steps);
    if facts.len() == 0 {
        steps
    } else if at < steps.len() {
        facts_merged_at(steps, at, facts)
    } else {
        facts_merged_at(steps.push(evidence_step()), at, facts)
    }
}

/// Whether evidence can enter an entry: it is about the same operation, and does not contradict the
/// verdict that the entry holds.
pub open spec fn evidence_agrees(
    entry: OperationJournalEntryView,
    evidence: DurableGuardianEvidenceView,
) -> bool {
    &&& entry.operation_id == evidence.operation_id
    &&& install_terminal_agrees(entry.guardian_install_terminal, evidence.install_terminal)
}

/// Whether a verdict can be added to the one that is there.
pub open spec fn install_terminal_agrees(
    current: Option<GuardianInstallTerminalEvidenceView>,
    added: Option<GuardianInstallTerminalEvidenceView>,
) -> bool {
    current is None || added is None || current == added
}

/// The verdict that results where one is added to the one that is there.
pub open spec fn install_terminal_merged(
    current: Option<GuardianInstallTerminalEvidenceView>,
    added: Option<GuardianInstallTerminalEvidenceView>,
) -> Option<GuardianInstallTerminalEvidenceView> {
    if current is None {
        added
    } else {
        current
    }
}

/// An entry with Guardian evidence, the facts in its last step.
pub open spec fn with_evidence(
    entry: OperationJournalEntryView,
    evidence: DurableGuardianEvidenceView,
) -> OperationJournalEntryView {
    OperationJournalEntryView {
        completed_steps: facts_in_last_step(entry.completed_steps, evidence.fact_ids),
        guardian_diagnosis_ids: merged(entry.guardian_diagnosis_ids, evidence.diagnosis_ids),
        guardian_install_terminal: install_terminal_merged(
            entry.guardian_install_terminal,
            evidence.install_terminal,
        ),
        ..entry
    }
}

/// An entry with Guardian evidence, the facts in a step of their own.
pub open spec fn with_own_evidence(
    entry: OperationJournalEntryView,
    evidence: DurableGuardianEvidenceView,
) -> OperationJournalEntryView {
    OperationJournalEntryView {
        completed_steps: facts_in_evidence_step(entry.completed_steps, evidence.fact_ids),
        guardian_diagnosis_ids: merged(entry.guardian_diagnosis_ids, evidence.diagnosis_ids),
        guardian_install_terminal: install_terminal_merged(
            entry.guardian_install_terminal,
            evidence.install_terminal,
        ),
        ..entry
    }
}

/// Where the step that carries Guardian facts is found.
proof fn evidence_position_is_first(steps: Seq<OperationJournalStepView>, at: int)
    requires
        0 <= at <= steps.len(),
        forall|i: int| 0 <= i < at ==> (#[trigger] steps[i]).step_id != "guardian_evidence"@,
        at < steps.len() ==> steps[at].step_id == "guardian_evidence"@,
    ensures
        evidence_position(steps) == at,
    decreases steps.len(),
{
    if steps.len() > 0 && at > 0 {
        assert(steps[0].step_id != "guardian_evidence"@);
        let tail = steps.subrange(1, steps.len() as int);
        assert forall|i: int| 0 <= i < at - 1 implies (#[trigger] tail[i]).step_id
            != "guardian_evidence"@ by {
            assert(tail[i] == steps[i + 1]);
        }
        evidence_position_is_first(tail, at - 1);
    }
}

proof fn evidence_position_bounds(steps: Seq<OperationJournalStepView>)
    ensures
        0 <= evidence_position(steps) <= steps.len(),
        forall|i: int|
            0 <= i < evidence_position(steps) ==> (#[trigger] steps[i]).step_id
                != "guardian_evidence"@,
        evidence_position(steps) < steps.len() ==> steps[evidence_position(steps)].step_id
            == "guardian_evidence"@,
    decreases steps.len(),
{
    if steps.len() > 0 && steps[0].step_id != "guardian_evidence"@ {
        let tail = steps.subrange(1, steps.len() as int);
        evidence_position_bounds(tail);
        assert forall|i: int| 0 <= i < evidence_position(steps) implies (#[trigger] steps[i]).step_id
            != "guardian_evidence"@ by {
            if i > 0 {
                assert(tail[i - 1] == steps[i]);
            }
        }
    }
}

/// Recording the same evidence twice in the last step is recording it once.
pub proof fn recording_evidence_is_idempotent(
    entry: OperationJournalEntryView,
    evidence: DurableGuardianEvidenceView,
)
    requires
        evidence_agrees(entry, evidence),
    ensures
        evidence_agrees(with_evidence(entry, evidence), evidence),
        with_evidence(with_evidence(entry, evidence), evidence) == with_evidence(entry, evidence),
{
    let once = with_evidence(entry, evidence);
    merging_twice_is_merging_once(entry.guardian_diagnosis_ids, evidence.diagnosis_ids);
    if once.completed_steps.len() > 0 {
        let base = if entry.completed_steps.len() > 0 {
            entry.completed_steps.last().guardian_fact_ids
        } else {
            evidence_step().guardian_fact_ids
        };
        merging_twice_is_merging_once(base, evidence.fact_ids);
    }
    assert(with_evidence(once, evidence).completed_steps =~= once.completed_steps);
}

/// Recording the same evidence twice in a step of its own is recording it once.
pub proof fn recording_own_evidence_is_idempotent(
    entry: OperationJournalEntryView,
    evidence: DurableGuardianEvidenceView,
)
    requires
        evidence_agrees(entry, evidence),
    ensures
        evidence_agrees(with_own_evidence(entry, evidence), evidence),
        with_own_evidence(with_own_evidence(entry, evidence), evidence) == with_own_evidence(
            entry,
            evidence,
        ),
{
    let once = with_own_evidence(entry, evidence);
    merging_twice_is_merging_once(entry.guardian_diagnosis_ids, evidence.diagnosis_ids);
    if evidence.fact_ids.len() > 0 {
        let steps = entry.completed_steps;
        let at = evidence_position(steps);
        evidence_position_bounds(steps);
        let base = if at < steps.len() {
            steps[at].guardian_fact_ids
        } else {
            evidence_step().guardian_fact_ids
        };
        merging_twice_is_merging_once(base, evidence.fact_ids);
        assert forall|i: int| 0 <= i < at implies (#[trigger] once.completed_steps[i]).step_id
            != "guardian_evidence"@ by {
            assert(once.completed_steps[i] == steps[i]);
        }
        evidence_position_is_first(once.completed_steps, at);
    }
    assert(with_own_evidence(once, evidence).completed_steps =~= once.completed_steps);
}

/// Adds the items of a list that another does not hold yet, each once.
fn merge_into<T: Record>(base: &mut Vec<T>, more: &Vec<T>)
    ensures
        views(final(base)@) == merged(views(old(base)@), views(more@)),
{
    let ghost before = views(base@);
    let ghost added = views(more@);
    let mut i: usize = 0;
    assert(added.subrange(0, 0) =~= Seq::empty());
    while i < more.len()
        invariant
            i <= more.len(),
            added == views(more@),
            views(base@) == merged(before, added.subrange(0, i as int)),
        decreases more.len() - i,
    {
        let ghost upto = added.subrange(0, i + 1);
        assert(upto.drop_last() =~= added.subrange(0, i as int));
        assert(upto.last() == more@[i as int]@);
        let ghost held = views(base@);
        if !list_has(base, &more[i]) {
            base.push(more[i].duplicate());
            assert(views(base@) =~= held.push(more@[i as int]@));
        }
        i = i + 1;
    }
    assert(added.subrange(0, added.len() as int) =~= added);
}

impl OperationJournalStep {
    /// A step as it is planned.
    pub fn new(step_id: &str, phase: OperationPhase) -> (r: OperationJournalStep)
        ensures
            r@ == planned_step(step_id@, phase),
    {
        let r = OperationJournalStep {
            step_id: step_id.to_owned(),
            phase,
            result: OperationStepResult::Planned,
            changed_target: None,
            generated_facts: Vec::new(),
            guardian_fact_ids: Vec::new(),
            metrics: None,
            rollback: RollbackState::NotApplicable,
        };
        proof {
            assert(r@.generated_facts =~= Seq::empty());
            assert(r@.guardian_fact_ids =~= Seq::empty());
        }
        r
    }

    /// Adds the Guardian facts that the step does not hold yet.
    pub fn merge_guardian_fact_ids(&mut self, facts: &Vec<GuardianFactId>)
        ensures
            final(self)@ == (OperationJournalStepView {
                guardian_fact_ids: merged(old(self)@.guardian_fact_ids, facts@),
                ..old(self)@
            }),
    {
        proof {
            assert(views(self.guardian_fact_ids@) =~= self.guardian_fact_ids@);
            assert(views(facts@) =~= facts@);
        }
        merge_into(&mut self.guardian_fact_ids, facts);
        assert(views(self.guardian_fact_ids@) =~= self.guardian_fact_ids@);
    }
}

/// The step that carries Guardian facts where no other step can.
fn new_evidence_step() -> (r: OperationJournalStep)
    ensures
        r@ == evidence_step(),
{
    let mut step = OperationJournalStep::new("guardian_evidence", OperationPhase::Running);
    step.result = OperationStepResult::Completed;
    step
}

/// Merges Guardian facts into one of the steps.
fn merge_facts_at(steps: &mut Vec<OperationJournalStep>, at: usize, facts: &Vec<GuardianFactId>)
    requires
        at < old(steps).len(),
    ensures
        views(final(steps)@) == facts_merged_at(views(old(steps)@), at as int, facts@),
{
    let ghost before = views(steps@);
    let mut step = steps[at].duplicate();
    step.merge_guardian_fact_ids(facts);
    steps[at] = step;
    assert(views(steps@) =~= facts_merged_at(before, at as int, facts@));
}

/// Merges a verdict on an installation into the one that is there, which it may not contradict.
pub fn merge_install_terminal(
    entry: &mut OperationJournalEntry,
    terminal: &Option<GuardianInstallTerminalEvidence>,
) -> (r: Result<(), OperationJournalStoreError>)
    ensures
        if install_terminal_agrees(old(entry)@.guardian_install_terminal, opt_view(*terminal)) {
            &&& r is Ok
            &&& final(entry)@ == (OperationJournalEntryView {
                guardian_install_terminal: install_terminal_merged(
                    old(entry)@.guardian_install_terminal,
                    opt_view(*terminal),
                ),
                ..old(entry)@
            })
        } else {
            &&& r == Err::<(), OperationJournalStoreError>(
                OperationJournalStoreError::InvalidGuardianOutcome,
            )
            &&& *final(entry) == *old(entry)
        },
{
    if terminal.is_none() {
        return Ok(());
    }
    if entry.guardian_install_terminal.is_none() {
        entry.guardian_install_terminal = opt_duplicate(terminal);
        return Ok(());
    }
    if opt_same(&entry.guardian_install_terminal, terminal) {
        Ok(())
    } else {
        Err(OperationJournalStoreError::InvalidGuardianOutcome)
    }
}

/// Merges diagnoses into those of an entry.
fn merge_diagnoses(entry: &mut OperationJournalEntry, diagnoses: &Vec<DiagnosisId>)
    ensures
        final(entry)@ == (OperationJournalEntryView {
            guardian_diagnosis_ids: merged(old(entry)@.guardian_diagnosis_ids, diagnoses@),
            ..old(entry)@
        }),
{
    proof {
        assert(views(entry.guardian_diagnosis_ids@) =~= entry.guardian_diagnosis_ids@);
        assert(views(diagnoses@) =~= diagnoses@);
    }
    merge_into(&mut entry.guardian_diagnosis_ids, diagnoses);
    assert(views(entry.guardian_diagnosis_ids@) =~= entry.guardian_diagnosis_ids@);
}

/// Records Guardian evidence in an entry, the facts in its last step.
pub fn apply_guardian_evidence(
    entry: &mut OperationJournalEntry,
    evidence: &DurableGuardianEvidence,
) -> (r: Result<(), OperationJournalStoreError>)
    ensures
        if evidence_agrees(old(entry)@, evidence@) {
            r is Ok && final(entry)@ == with_evidence(old(entry)@, evidence@)
        } else {
            &&& r == Err::<(), OperationJournalStoreError>(
                OperationJournalStoreError::InvalidGuardianOutcome,
            )
            &&& *final(entry) == *old(entry)
        },
{
    if entry.operation_id != evidence.operation_id {
        return Err(OperationJournalStoreError::InvalidGuardianOutcome);
    }
    match merge_install_terminal(entry, &evidence.install_terminal) {
        Ok(()) => {},
        Err(error) => {
            return Err(error);
        },
    }
    let ghost before = views(entry.completed_steps@);
    if evidence.fact_ids.len() > 0 && entry.completed_steps.len() == 0 {
        entry.completed_steps.push(new_evidence_step());
        assert(views(entry.completed_steps@) =~= seq![evidence_step()]);
    }
    let count: usize = entry.completed_steps.len();
    if count > 0 {
        merge_facts_at(&mut entry.completed_steps, count - 1, &evidence.fact_ids);
    }
    assert(views(entry.completed_steps@) =~= facts_in_last_step(before, evidence.fact_ids@));
    merge_diagnoses(entry, &evidence.diagnosis_ids);
    Ok(())
}

/// Records Guardian evidence in an entry, the facts in a step of their own.
pub fn apply_idempotent_guardian_evidence(
    entry: &mut OperationJournalEntry,
    evidence: &DurableGuardianEvidence,
) -> (r: Result<(), OperationJournalStoreError>)
    ensures
        if evidence_agrees(old(entry)@, evidence@) {
            r is Ok && final(entry)@ == with_own_evidence(old(entry)@, evidence@)
        } else {
            &&& r == Err::<(), OperationJournalStoreError>(
                OperationJournalStoreError::InvalidGuardianOutcome,
            )
            &&& *final(entry) == *old(entry)
        },
{
    if entry.operation_id != evidence.operation_id {
        return Err(OperationJournalStoreError::InvalidGuardianOutcome);
    }
    match merge_install_terminal(entry, &evidence.install_terminal) {
        Ok(()) => {},
        Err(error) => {
            return Err(error);
        },
    }
    let ghost before = views(entry.completed_steps@);
    if evidence.fact_ids.len() > 0 {
        let mut at: usize = 0;
        while at < entry.completed_steps.len() && !same_text(
            entry.completed_steps[at].step_id.as_str(),
            "guardian_evidence",
        )
            invariant
                at <= entry.completed_steps.len(),
                before == views(entry.completed_steps@),
                forall|i: int| 0 <= i < at ==> (#[trigger] before[i]).step_id != "guardian_evidence"@,
            decreases entry.completed_steps.len() - at,
        {
            assert(before[at as int] == entry.completed_steps@[at as int]@);
            at = at + 1;
        }
        proof {
            if at < before.len() {
                assert(before[at as int] == entry.completed_steps@[at as int]@);
            }
            evidence_position_is_first(before, at as int);
        }
        if at == entry.completed_steps.len() {
            entry.completed_steps.push(new_evidence_step());
            assert(views(entry.completed_steps@) =~= before.push(evidence_step()));
        }
        merge_facts_at(&mut entry.completed_steps, at, &evidence.fact_ids);
    }
    merge_diagnoses(entry, &evidence.diagnosis_ids);
    Ok(())
}

} // verus!

//! What becomes of a request that is made again once it has been carried out.

use crate::contracts::{GuardianFactId, OperationId};
use crate::entry::{OperationJournalEntryView, OperationJournalStepView};
use crate::evidence::{DurableGuardianEvidenceView, ReconciliationTerminalView};
use crate::guardian_evidence::{evidence_step, merged};
use crate::journal_errors::OperationJournalStoreError;
use crate::journal_laws::{
    coherent, draft_fits, keeps_identity, nothing_leaves_while_there_is_room, update_drafts_fit,
    writing_keeps_the_store_coherent,
};
use crate::journal_performance::{
    created_performance, created_performance_is_alone, evidence_is_new, first_free,
    performance_evidenced, restart_phase, restart_settles, restarted, restarted_entries,
    transition_answer, transition_draft, transition_is_held, transitioned,
};
use crate::journal_queries::{acknowledged_in, held_terminal};
use crate::journal_records::{
    acknowledged, acknowledgement, checkpoint_is_new, created, performance_update, progressed,
    under_way, updated,
};
use crate::journal_revision::{inserted, AcceptedJournalEntryView, JournalMap};
use crate::journal_store::{prepared_revision, JournalDraftView, OperationJournalStoreView};
use crate::lifecycle::{PerformanceOperationIntentView, PerformanceOperationTransitionView};
use crate::ordered::{ascending, ascending_lists};
use crate::performance::{create_is_visible, lifecycle_of, next_phase, transition_shows};
use crate::rulings::LauncherRulingsView;
use vstd::prelude::*;

verus! {

/// The store once a draft is written and shows.
pub open spec fn written(
    store: OperationJournalStoreView,
    draft: JournalDraftView,
    canonical: Seq<u8>,
) -> OperationJournalStoreView {
    OperationJournalStoreView {
        visible: prepared_revision(store, draft, canonical)->Ok_0,
        retry_candidate: None,
        ..store
    }
}

/// Whether the journals of a store fit together, and there are no more of them than there may be.
pub open spec fn store_is_coherent(store: OperationJournalStoreView) -> bool {
    &&& store.visible.entries.dom().finite()
    &&& store.visible.entries.dom().len() <= store.max_entries
    &&& store.visible.next_sequence >= 1
    &&& coherent(store.visible.entries, store.visible.next_sequence)
}

/// The draft of a checkpoint.
pub open spec fn checkpoint_draft(
    store: OperationJournalStoreView,
    operation_id: OperationId,
    step: OperationJournalStepView,
    rulings: LauncherRulingsView,
) -> Result<JournalDraftView, OperationJournalStoreError> {
    updated(
        store,
        operation_id,
        under_way(),
        |entry: OperationJournalEntryView| Ok(progressed(entry, step)),
        rulings,
    )
}

/// The draft of an acknowledgement.
pub open spec fn acknowledgement_draft(
    store: OperationJournalStoreView,
    expected: ReconciliationTerminalView,
    rulings: LauncherRulingsView,
) -> Result<JournalDraftView, OperationJournalStoreError> {
    updated(
        store,
        expected.attempt.operation_id,
        acknowledgement(),
        |entry: OperationJournalEntryView| acknowledged_in(entry, expected),
        rulings,
    )
}

/// The draft of Guardian evidence on a performance operation.
pub open spec fn evidence_draft(
    store: OperationJournalStoreView,
    evidence: DurableGuardianEvidenceView,
    now: Seq<char>,
    rulings: LauncherRulingsView,
) -> Result<JournalDraftView, OperationJournalStoreError> {
    updated(
        store,
        evidence.operation_id,
        performance_update(),
        |entry: OperationJournalEntryView| performance_evidenced(entry, evidence, now),
        rulings,
    )
}

/// A journal that has been created is there as it was asked for. To ask for it again changes nothing,
/// and to ask for it as a new one is refused.
pub proof fn creating_again_changes_nothing(
    store: OperationJournalStoreView,
    entry: OperationJournalEntryView,
    canonical: Seq<u8>,
    rulings: LauncherRulingsView,
)
    requires
        store_is_coherent(store),
        created(store, entry, true, rulings) matches Ok(Some(_)),
        prepared_revision(store, created(store, entry, true, rulings)->Ok_0->0, canonical) is Ok,
    ensures
        ({
            let after = written(store, created(store, entry, true, rulings)->Ok_0->0, canonical);
            &&& after.visible.entries.contains_key(entry.operation_id.value)
            &&& created(after, entry, true, rulings) == Ok::<
                Option<JournalDraftView>,
                OperationJournalStoreError,
            >(None)
            &&& created(after, entry, false, rulings) == Err::<Option<JournalDraftView>, _>(
                OperationJournalStoreError::AlreadyExists,
            )
        }),
{
    let draft = created(store, entry, true, rulings)->Ok_0->0;
    assert(draft_fits(store, draft));
    writing_keeps_the_store_coherent(store, draft, canonical);
}

/// A performance operation that has been created is there, in its first phase, with the intent that
/// was asked for.
pub proof fn created_performance_shows(
    store: OperationJournalStoreView,
    intent: PerformanceOperationIntentView,
    minted: Seq<OperationId>,
    now: Seq<char>,
    canonical: Seq<u8>,
    rulings: LauncherRulingsView,
)
    requires
        store_is_coherent(store),
        created_performance(store, intent, minted, now, rulings) is Ok,
        prepared_revision(
            store,
            created_performance(store, intent, minted, now, rulings)->Ok_0,
            canonical,
        ) is Ok,
    ensures
        ({
            let draft = created_performance(store, intent, minted, now, rulings)->Ok_0;
            let after = written(store, draft, canonical).visible.entries;
            let key = draft.entry.operation_id.value;
            &&& after.contains_key(key)
            &&& create_is_visible(after[key].entry, intent)
            &&& lifecycle_of(after[key].entry)->0.phase is Accepted
        }),
{
    let draft = created_performance(store, intent, minted, now, rulings)->Ok_0;
    created_performance_is_alone(store, intent, minted, now, rulings);
    assert(first_free(store.visible.entries, minted) == Some(draft.entry.operation_id));
    assert(draft_fits(store, draft));
    writing_keeps_the_store_coherent(store, draft, canonical);
}

/// A transition that has been made shows, so that it is not made again, whenever it is asked for.
pub proof fn made_transition_is_not_made_again(
    store: OperationJournalStoreView,
    operation_id: OperationId,
    transition: PerformanceOperationTransitionView,
    now: Seq<char>,
    later: Seq<char>,
    canonical: Seq<u8>,
    rulings: LauncherRulingsView,
)
    requires
        store_is_coherent(store),
        transition_draft(store, operation_id, transition, now, rulings) matches Ok(draft)
            && prepared_revision(store, draft, canonical) is Ok,
    ensures
        ({
            let draft = transition_draft(store, operation_id, transition, now, rulings)->Ok_0;
            let after = written(store, draft, canonical);
            &&& transition_is_held(after, operation_id, transition)
            &&& transition_answer(after, operation_id, transition, later, rulings) == Ok::<
                Option<JournalDraftView>,
                OperationJournalStoreError,
            >(None)
        }),
{
    let change = |entry: OperationJournalEntryView| transitioned(entry, transition, now);
    let draft = updated(store, operation_id, performance_update(), change, rulings)->Ok_0;
    let before = store.visible.entries[operation_id.value].entry;
    assert(keeps_identity(change));
    update_drafts_fit(store, operation_id, performance_update(), change, rulings);
    writing_keeps_the_store_coherent(store, draft, canonical);
    nothing_leaves_while_there_is_room(store, draft, canonical);
    assert(change(before) is Ok);
    let lifecycle = lifecycle_of(before)->0;
    assert(transition_shows(next_phase(lifecycle.phase, transition)->0, transition));
    assert(written(store, draft, canonical).visible.entries[operation_id.value].entry
        == draft.entry);
}

/// A checkpoint that has been recorded is not recorded again.
pub proof fn recorded_checkpoint_is_not_recorded_again(
    store: OperationJournalStoreView,
    operation_id: OperationId,
    step: OperationJournalStepView,
    canonical: Seq<u8>,
    rulings: LauncherRulingsView,
)
    requires
        store_is_coherent(store),
        checkpoint_draft(store, operation_id, step, rulings) matches Ok(draft)
            && prepared_revision(store, draft, canonical) is Ok,
    ensures
        ({
            let draft = checkpoint_draft(store, operation_id, step, rulings)->Ok_0;
            checkpoint_is_new(written(store, draft, canonical), operation_id, step) == Ok::<
                bool,
                OperationJournalStoreError,
            >(false)
        }),
{
    let change = |entry: OperationJournalEntryView|
        Ok::<OperationJournalEntryView, OperationJournalStoreError>(progressed(entry, step));
    let draft = updated(store, operation_id, under_way(), change, rulings)->Ok_0;
    let before = store.visible.entries[operation_id.value].entry;
    assert(keeps_identity(change));
    update_drafts_fit(store, operation_id, under_way(), change, rulings);
    writing_keeps_the_store_coherent(store, draft, canonical);
    assert(change(before) is Ok);
    assert(draft.entry == progressed(before, step));
    let steps = draft.entry.completed_steps;
    assert(steps[before.completed_steps.len() as int] == step);
}

/// A publication that has been acknowledged is not acknowledged again.
pub proof fn acknowledged_publication_stays_acknowledged(
    store: OperationJournalStoreView,
    expected: ReconciliationTerminalView,
    canonical: Seq<u8>,
    rulings: LauncherRulingsView,
)
    requires
        store_is_coherent(store),
        acknowledgement_draft(store, expected, rulings) matches Ok(draft) && prepared_revision(
            store,
            draft,
            canonical,
        ) is Ok,
    ensures
        ({
            let draft = acknowledgement_draft(store, expected, rulings)->Ok_0;
            let after = written(store, draft, canonical);
            &&& held_terminal(after, expected.attempt.operation_id) == Some(acknowledged(expected))
            &&& acknowledged(acknowledged(expected)) == acknowledged(expected)
        }),
{
    let operation_id = expected.attempt.operation_id;
    let change = |entry: OperationJournalEntryView| acknowledged_in(entry, expected);
    let draft = updated(store, operation_id, acknowledgement(), change, rulings)->Ok_0;
    let before = store.visible.entries[operation_id.value].entry;
    assert(keeps_identity(change));
    update_drafts_fit(store, operation_id, acknowledgement(), change, rulings);
    writing_keeps_the_store_coherent(store, draft, canonical);
    nothing_leaves_while_there_is_room(store, draft, canonical);
    assert(change(before) is Ok);
}

proof fn merging_into_nothing_gives_the_same<T>(more: Seq<T>)
    requires
        more.no_duplicates(),
    ensures
        merged(Seq::empty(), more) == more,
    decreases more.len(),
{
    if more.len() > 0 {
        merging_into_nothing_gives_the_same(more.drop_last());
        if more.drop_last().contains(more.last()) {
            let i = choose|i: int| 0 <= i < more.drop_last().len() && more.drop_last()[i]
                == more.last();
            assert(more[i] == more[more.len() - 1]);
        }
        assert(more.drop_last().push(more.last()) =~= more);
    }
}

/// Guardian evidence that a performance operation has taken is not taken again.
pub proof fn recorded_performance_evidence_is_not_recorded_again(
    store: OperationJournalStoreView,
    evidence: DurableGuardianEvidenceView,
    now: Seq<char>,
    canonical: Seq<u8>,
    rulings: LauncherRulingsView,
)
    requires
        store_is_coherent(store),
        evidence.fact_ids.no_duplicates(),
        evidence.diagnosis_ids.no_duplicates(),
        evidence.fact_ids.len() > 0 || evidence.diagnosis_ids.len() > 0,
        store.visible.entries[evidence.operation_id.value].entry.guardian_install_terminal is None,
        evidence_is_new(store, evidence) == Ok::<bool, OperationJournalStoreError>(true),
        evidence_draft(store, evidence, now, rulings) matches Ok(draft) && prepared_revision(
            store,
            draft,
            canonical,
        ) is Ok,
    ensures
        ({
            let draft = evidence_draft(store, evidence, now, rulings)->Ok_0;
            evidence_is_new(written(store, draft, canonical), evidence) == Ok::<
                bool,
                OperationJournalStoreError,
            >(false)
        }),
{
    let operation_id = evidence.operation_id;
    let change = |entry: OperationJournalEntryView| performance_evidenced(entry, evidence, now);
    let draft = updated(store, operation_id, performance_update(), change, rulings)->Ok_0;
    let before = store.visible.entries[operation_id.value].entry;
    assert(keeps_identity(change));
    update_drafts_fit(store, operation_id, performance_update(), change, rulings);
    writing_keeps_the_store_coherent(store, draft, canonical);
    assert(change(before) is Ok);
    merging_into_nothing_gives_the_same(evidence.fact_ids);
    merging_into_nothing_gives_the_same(evidence.diagnosis_ids);
    assert(before.guardian_diagnosis_ids =~= Seq::empty());
    assert(before.completed_steps =~= Seq::empty());
    assert(evidence_step().guardian_fact_ids == Seq::<GuardianFactId>::empty());
    let entry = draft.entry;
    assert(entry.guardian_diagnosis_ids == evidence.diagnosis_ids);
    assert(evidence.fact_ids.len() == 0 ==> evidence.fact_ids =~= Seq::empty());
}

/// Once the journals that a restart changes stand where they were, each journal is as the restart
/// leaves it, and the others are as they were.
pub proof fn restarted_journals_stand(
    map: JournalMap,
    keys: Seq<u128>,
    now: Seq<char>,
    rulings: LauncherRulingsView,
    texts: Seq<AcceptedJournalEntryView>,
)
    requires
        forall|i: int| 0 <= i < keys.len() ==> map.contains_key(#[trigger] keys[i]),
        forall|i: int|
            0 <= i < keys.len() ==> map[#[trigger] keys[i]].entry.operation_id.value == keys[i],
        forall|i: int, j: int| 0 <= i < j < keys.len() ==> keys[i] != keys[j],
        restarted_entries(map, keys, now, rulings) is Ok,
        texts.len() == restarted_entries(map, keys, now, rulings)->Ok_0.len(),
        forall|i: int|
            0 <= i < texts.len() ==> (#[trigger] texts[i]).entry == restarted_entries(
                map,
                keys,
                now,
                rulings,
            )->Ok_0[i],
    ensures
        ({
            let after = inserted(map, texts);
            &&& after.dom() == map.dom()
            &&& forall|i: int|
                0 <= i < keys.len() ==> (match restarted(map[keys[i]].entry, now) {
                    Some(entry) => (#[trigger] after[keys[i]]).entry == entry,
                    None => after[keys[i]] == map[keys[i]],
                })
            &&& forall|key: u128|
                map.contains_key(key) && !keys.contains(key) ==> #[trigger] after[key] == map[key]
        }),
    decreases keys.len(),
{
    if keys.len() > 0 {
        let first = keys.drop_last();
        let last = keys.last();
        assert forall|i: int| 0 <= i < first.len() implies map.contains_key(#[trigger] first[i]) by {
            assert(first[i] == keys[i]);
        }
        assert forall|i: int| 0 <= i < first.len() implies map[#[trigger] first[i]].entry.operation_id.value
            == first[i] by {
            assert(first[i] == keys[i]);
        }
        assert(keys[keys.len() - 1] == last);
        let entries = restarted_entries(map, first, now, rulings)->Ok_0;
        match restarted(map[last].entry, now) {
            None => {
                restarted_journals_stand(map, first, now, rulings, texts);
                let after = inserted(map, texts);
                assert(!first.contains(last));
                assert(after[last] == map[last]);
                assert forall|i: int| 0 <= i < keys.len() implies (match restarted(
                    map[keys[i]].entry,
                    now,
                ) {
                    Some(entry) => (#[trigger] after[keys[i]]).entry == entry,
                    None => after[keys[i]] == map[keys[i]],
                }) by {
                    if i < first.len() {
                        assert(first[i] == keys[i]);
                        assert(after[first[i]] == after[keys[i]]);
                    }
                }
                assert forall|key: u128| map.contains_key(key) && !keys.contains(key) implies
                    #[trigger] after[key] == map[key] by {
                    assert(!first.contains(key)) by {
                        if first.contains(key) {
                            let i = choose|i: int| 0 <= i < first.len() && first[i] == key;
                            assert(keys[i] == key);
                        }
                    }
                }
            },
            Some(entry) => {
                let rest = texts.drop_last();
                assert(texts.last().entry == entry);
                assert forall|i: int| 0 <= i < rest.len() implies (#[trigger] rest[i]).entry
                    == entries[i] by {
                    assert(rest[i] == texts[i]);
                }
                restarted_journals_stand(map, first, now, rulings, rest);
                let between = inserted(map, rest);
                let after = inserted(map, texts);
                assert(entry.operation_id.value == last);
                assert(after == between.insert(last, texts.last()));
                assert(after.dom() =~= map.dom());
                assert forall|i: int| 0 <= i < keys.len() implies (match restarted(
                    map[keys[i]].entry,
                    now,
                ) {
                    Some(entry) => (#[trigger] after[keys[i]]).entry == entry,
                    None => after[keys[i]] == map[keys[i]],
                }) by {
                    if i < first.len() {
                        assert(first[i] == keys[i]);
                        assert(keys[i] != last);
                        assert(after[keys[i]] == between[first[i]]);
                    }
                }
                assert forall|key: u128| map.contains_key(key) && !keys.contains(key) implies
                    #[trigger] after[key] == map[key] by {
                    assert(!first.contains(key)) by {
                        if first.contains(key) {
                            let i = choose|i: int| 0 <= i < first.len() && first[i] == key;
                            assert(keys[i] == key);
                        }
                    }
                    assert(keys.contains(last));
                    assert(between[key] == map[key]);
                }
            },
        }
    }
}

proof fn nothing_restarts(
    map: JournalMap,
    keys: Seq<u128>,
    now: Seq<char>,
    rulings: LauncherRulingsView,
)
    requires
        forall|i: int| 0 <= i < keys.len() ==> restarted(map[#[trigger] keys[i]].entry, now) is None,
    ensures
        restarted_entries(map, keys, now, rulings) == Ok::<
            Seq<OperationJournalEntryView>,
            OperationJournalStoreError,
        >(Seq::empty()),
    decreases keys.len(),
{
    if keys.len() > 0 {
        assert forall|i: int| 0 <= i < keys.drop_last().len() implies restarted(
            map[#[trigger] keys.drop_last()[i]].entry,
            now,
        ) is None by {
            assert(keys.drop_last()[i] == keys[i]);
        }
        nothing_restarts(map, keys.drop_last(), now, rulings);
        assert(restarted(map[keys[keys.len() - 1]].entry, now) is None);
    }
}

/// A restart settles every operation at once: it takes no journal away, and after it another restart
/// finds nothing to settle, whenever it comes.
pub proof fn second_restart_changes_nothing(
    map: JournalMap,
    next_sequence: u64,
    now: Seq<char>,
    later: Seq<char>,
    rulings: LauncherRulingsView,
    texts: Seq<AcceptedJournalEntryView>,
)
    requires
        map.dom().finite(),
        coherent(map, next_sequence),
        restarted_entries(map, ascending(map.dom()), now, rulings) is Ok,
        ({
            let entries = restarted_entries(
                map,
                ascending(map.dom()),
                now,
                rulings,
            )->Ok_0;
            &&& texts.len() == entries.len()
            &&& forall|i: int| 0 <= i < texts.len() ==> (#[trigger] texts[i]).entry == entries[i]
        }),
    ensures
        ({
            let after = inserted(map, texts);
            &&& after.dom() == map.dom()
            &&& restarted_entries(after, ascending(after.dom()), later, rulings)
                == Ok::<Seq<OperationJournalEntryView>, OperationJournalStoreError>(Seq::empty())
        }),
{
    let keys = ascending(map.dom());
    ascending_lists(map.dom());
    assert forall|i: int| 0 <= i < keys.len() implies map.contains_key(#[trigger] keys[i]) by {
        assert(keys.contains(keys[i]));
    }
    restarted_journals_stand(map, keys, now, rulings, texts);
    let after = inserted(map, texts);
    assert forall|i: int| 0 <= i < keys.len() implies restarted(
        after[#[trigger] keys[i]].entry,
        later,
    ) is None by {
        let before = map[keys[i]].entry;
        assert(after[keys[i]].entry == (match restarted(before, now) {
            Some(entry) => entry,
            None => before,
        }));
        if let Some(lifecycle) = lifecycle_of(before) {
            restart_settles(lifecycle.phase);
            if let Some(phase) = restart_phase(lifecycle.phase) {
                assert(restart_phase(phase) is None);
            }
        }
    }
    nothing_restarts(after, keys, later, rulings);
}

} // verus!

//! What the operations of the failure memory keep, and what they give back.

use crate::contracts::{DiagnosisId, GuardianDomain, GuardianMode};
use crate::evidence::{
    PersistedStateRepairTerminalView, ReconciliationTerminalView, TargetDescriptorView,
};
use crate::failure_entry::{
    FailureMemoryStoreError, FailureMemoryValidationError, GuardianFailureMemoryEntryView,
};
use crate::failure_keys::{observed_entry, reconciled_entry, repair_entry};
use crate::failure_records::{
    in_force, in_force_keeps_exactly, in_key_order, memory_assessment, memory_at, memory_of,
    ordered_keys_are_unique, protecting, putting_in_keeps_order, remembers, stays_in_force,
    thinning_keeps_what_must_stay, with_memory, Memories, MemoryRules,
};
use crate::failure_store::{
    base_memories, end_recorded, expired_carriers, fatal_memory_error, is_loaded,
    is_publication_carrier, loaded_memories, memory_closed, memory_is_blocked, memory_loaded,
    memory_recorded, nobody, protected_by, publication_acknowledged, reservation_verdict,
    retries_reconciled, retry_pending, FailureMemoryStoreView, ReconciliationAttemptReserveError,
};
use crate::failure_validation::{expected_key, memory_snapshot_verdict, FailureMemorySnapshotView};
use crate::rulings::LauncherRulingsView;
use crate::temporal::{BoundedTemporalDisposition, ClockView};
use crate::text::text_less;
use vstd::prelude::*;

verus! {

/// Memories are made under the identity that is expected of them.
pub proof fn made_keys_are_expected(
    diagnosis_id: DiagnosisId,
    domain: GuardianDomain,
    target: TargetDescriptorView,
    mode: GuardianMode,
    user_intent_hash: Option<Seq<char>>,
    observed_at: Seq<char>,
    reconciliation: ReconciliationTerminalView,
    repair: PersistedStateRepairTerminalView,
    rulings: LauncherRulingsView,
)
    ensures
        ({
            let observed = observed_entry(
                diagnosis_id,
                domain,
                target,
                mode,
                user_intent_hash,
                observed_at,
                rulings,
            );
            let reconciled = reconciled_entry(observed, reconciliation, rulings);
            let repaired = repair_entry(repair);
            &&& expected_key(observed, rulings) == observed.key
            &&& expected_key(reconciled, rulings) == reconciled.key
            &&& expected_key(repaired, rulings) == repaired.key
        }),
{
}

/// What is written is in the order of the identities and no more than the memory holds.
pub proof fn memory_drafts_are_ordered_and_bounded(
    store: FailureMemoryStoreView,
    changed: Memories,
    protected: Seq<Seq<char>>,
    rulings: LauncherRulingsView,
)
    requires
        in_key_order(changed),
    ensures
        memory_closed(store, changed, protected, rulings) matches Ok(left) ==> in_key_order(left)
            && left.len() <= store.max_entries,
{
    let rules = protecting(protected, store.now, rulings);
    in_force_keeps_exactly(changed, rules);
    thinning_keeps_what_must_stay(in_force(changed, rules), store.max_entries, rules);
}

/// The end of a repair that has been recorded is remembered as it was given.
pub proof fn recorded_end_is_remembered(
    store: FailureMemoryStoreView,
    entry: GuardianFailureMemoryEntryView,
    rulings: LauncherRulingsView,
)
    requires
        in_key_order(store.visible),
        entry.reconciliation_terminal is Some || entry.persisted_state_repair_terminal is Some,
    ensures
        end_recorded(store, entry, rulings) matches Ok(left) ==> memory_of(left, entry.key) == Some(
            entry,
        ),
{
    if end_recorded(store, entry, rulings) is Ok {
        let base = base_memories(store, rulings);
        in_force_keeps_exactly(store.visible, protecting(nobody(), store.now, rulings));
        let changed = with_memory(base, entry);
        putting_in_keeps_order(base, entry);
        let rules = protecting(protected_by(entry), store.now, rulings);
        assert(protected_by(entry)[0] == entry.key);
        assert(rules.protected.contains(entry.key));
        let at = choose|i: int| 0 <= i < changed.len() && (#[trigger] changed[i]).key == entry.key;
        assert(changed[at] == entry);
        assert(changed.contains(entry));
        in_force_keeps_exactly(changed, rules);
        let forced = in_force(changed, rules);
        assert(stays_in_force(rules, entry));
        assert(forced.contains(entry));
        thinning_keeps_what_must_stay(forced, store.max_entries, rules);
        let left = end_recorded(store, entry, rulings)->Ok_0;
        assert(left.contains(entry));
        let i = choose|i: int| 0 <= i < left.len() && left[i] == entry;
        memory_at(left, i);
    }
}

/// A publication that has been acknowledged is remembered as acknowledged. To acknowledge it again
/// changes nothing, as long as the memory is in force.
pub proof fn acknowledged_memory_stays_acknowledged(
    store: FailureMemoryStoreView,
    expected: GuardianFailureMemoryEntryView,
    entry: GuardianFailureMemoryEntryView,
    rulings: LauncherRulingsView,
)
    requires
        in_key_order(store.visible),
        publication_acknowledged(store, expected, entry, rulings) matches Ok(Some(_)),
    ensures
        ({
            let left = publication_acknowledged(store, expected, entry, rulings)->Ok_0->0;
            let after = FailureMemoryStoreView { visible: left, ..store };
            &&& memory_of(left, expected.key) == Some(entry)
            &&& memory_assessment(store.now, entry, rulings) == Ok::<
                _,
                FailureMemoryValidationError,
            >(BoundedTemporalDisposition::Current) ==> publication_acknowledged(
                after,
                expected,
                entry,
                rulings,
            ) == Ok::<Option<Memories>, FailureMemoryStoreError>(None)
        }),
{
    let left = publication_acknowledged(store, expected, entry, rulings)->Ok_0->0;
    let after = FailureMemoryStoreView { visible: left, ..store };
    assert(end_recorded(store, entry, rulings) == Ok::<Memories, FailureMemoryStoreError>(left));
    recorded_end_is_remembered(store, entry, rulings);
    memory_drafts_are_ordered_and_bounded_at(store, entry, rulings);
    let rules = protecting(nobody(), store.now, rulings);
    in_force_keeps_exactly(left, rules);
    if memory_assessment(store.now, entry, rulings) == Ok::<_, FailureMemoryValidationError>(
        BoundedTemporalDisposition::Current,
    ) {
        let base = base_memories(after, rulings);
        assert(stays_in_force(rules, entry));
        assert(remembers(left, entry.key));
        let i = choose|i: int| 0 <= i < left.len() && (#[trigger] left[i]).key == entry.key;
        memory_at(left, i);
        assert(left.contains(entry));
        assert(base.contains(entry));
        let j = choose|j: int| 0 <= j < base.len() && base[j] == entry;
        memory_at(base, j);
    }
}

proof fn memory_drafts_are_ordered_and_bounded_at(
    store: FailureMemoryStoreView,
    entry: GuardianFailureMemoryEntryView,
    rulings: LauncherRulingsView,
)
    requires
        in_key_order(store.visible),
    ensures
        end_recorded(store, entry, rulings) matches Ok(left) ==> in_key_order(left),
{
    in_force_keeps_exactly(store.visible, protecting(nobody(), store.now, rulings));
    let base = base_memories(store, rulings);
    putting_in_keeps_order(base, entry);
    memory_drafts_are_ordered_and_bounded(
        store,
        with_memory(base, entry),
        protected_by(entry),
        rulings,
    );
}

/// While the outcome of a write is open, nothing is recorded and nothing is reserved.
pub proof fn open_write_blocks_every_change(
    store: FailureMemoryStoreView,
    entry: GuardianFailureMemoryEntryView,
    batch: Memories,
    rulings: LauncherRulingsView,
)
    requires
        memory_is_blocked(store),
    ensures
        memory_recorded(store, entry, rulings) == Err::<Memories, _>(retry_pending()),
        end_recorded(store, entry, rulings) == Err::<Memories, _>(retry_pending()),
        retries_reconciled(store, batch, rulings) is Err,
        reservation_verdict(store, entry.key) == Err::<(), _>(
            ReconciliationAttemptReserveError::PersistencePending,
        ),
{
}

/// Loading what was written gives the memories back, as long as none of them has left by its times.
pub proof fn loading_gives_back_what_was_written(
    store: FailureMemoryStoreView,
    loading: FailureMemoryStoreView,
    snapshot: FailureMemorySnapshotView,
    sizes: Seq<u64>,
    rulings: LauncherRulingsView,
)
    requires
        in_key_order(store.visible),
        store.visible.len() <= loading.max_entries,
        snapshot.entries == store.visible,
        memory_snapshot_verdict(snapshot, sizes, rulings) is Ok,
        forall|i: int|
            0 <= i < store.visible.len() ==> is_loaded(
                #[trigger] store.visible[i],
                loading.now,
                rulings,
            ),
    ensures
        memory_loaded(loading, snapshot, sizes, rulings).1 is Ok,
        memory_loaded(loading, snapshot, sizes, rulings).0.visible == store.visible,
{
    let all = store.visible;
    let rules = protecting(expired_carriers(all, loading.now, rulings), loading.now, rulings);
    all_are_loaded(all, loading.now, rulings);
    assert forall|i: int| 0 <= i < all.len() implies stays_in_force(rules, #[trigger] all[i]) by {
        if memory_assessment(loading.now, all[i], rulings) is Ok && memory_assessment(
            loading.now,
            all[i],
            rulings,
        )->Ok_0 == BoundedTemporalDisposition::Expired {
            carriers_are_listed(all, loading.now, rulings, i);
        }
    }
    all_stay_in_force(all, rules);
}

proof fn all_are_loaded(all: Memories, now: ClockView, rulings: LauncherRulingsView)
    requires
        in_key_order(all),
        forall|i: int| 0 <= i < all.len() ==> is_loaded(#[trigger] all[i], now, rulings),
    ensures
        loaded_memories(all, now, rulings) == all,
        fatal_memory_error(all, now, rulings) is None,
    decreases all.len(),
{
    if all.len() > 0 {
        let rest = all.drop_last();
        let last = all.last();
        assert forall|i: int| 0 <= i < rest.len() implies is_loaded(
            #[trigger] rest[i],
            now,
            rulings,
        ) by {
            assert(rest[i] == all[i]);
        }
        assert(in_key_order(rest)) by {
            assert forall|i: int, j: int| 0 <= i < j < rest.len() implies text_less(
                (#[trigger] rest[i]).key,
                (#[trigger] rest[j]).key,
            ) by {
                assert(rest[i] == all[i]);
                assert(rest[j] == all[j]);
            }
        }
        all_are_loaded(rest, now, rulings);
        assert(is_loaded(all[all.len() - 1], now, rulings));
        assert(!remembers(rest, last.key)) by {
            if remembers(rest, last.key) {
                let i = choose|i: int| 0 <= i < rest.len() && (#[trigger] rest[i]).key == last.key;
                assert(all[i].key == last.key);
                ordered_keys_are_unique(all, i, all.len() - 1);
            }
        }
        if rest.len() > 0 {
            assert(text_less(all[rest.len() - 1].key, all[all.len() - 1].key));
            assert(rest.last() == all[rest.len() - 1]);
        }
        assert(with_memory(rest, last) =~= all);
    } else {
        assert(loaded_memories(all, now, rulings) =~= all);
    }
}

proof fn carriers_are_listed(all: Memories, now: ClockView, rulings: LauncherRulingsView, i: int)
    requires
        0 <= i < all.len(),
        memory_assessment(now, all[i], rulings) == Ok::<
            _,
            FailureMemoryValidationError,
        >(BoundedTemporalDisposition::Expired),
        is_publication_carrier(all[i]),
    ensures
        expired_carriers(all, now, rulings).contains(all[i].key),
    decreases all.len(),
{
    let carriers = expired_carriers(all, now, rulings);
    let rest = all.drop_last();
    if i == all.len() - 1 {
        assert(carriers[carriers.len() - 1] == all[i].key);
    } else {
        assert(rest[i] == all[i]);
        carriers_are_listed(rest, now, rulings, i);
        let before = expired_carriers(rest, now, rulings);
        let k = choose|k: int| 0 <= k < before.len() && before[k] == all[i].key;
        assert(carriers[k] == all[i].key);
    }
}

proof fn all_stay_in_force(all: Memories, rules: MemoryRules)
    requires
        forall|i: int| 0 <= i < all.len() ==> stays_in_force(rules, #[trigger] all[i]),
    ensures
        in_force(all, rules) == all,
    decreases all.len(),
{
    if all.len() > 0 {
        let rest = all.drop_last();
        assert forall|i: int| 0 <= i < rest.len() implies stays_in_force(
            rules,
            #[trigger] rest[i],
        ) by {
            assert(rest[i] == all[i]);
        }
        all_stay_in_force(rest, rules);
        assert(stays_in_force(rules, all[all.len() - 1]));
        assert(rest.push(all.last()) =~= all);
    } else {
        assert(in_force(all, rules) =~= all);
    }
}

} // verus!

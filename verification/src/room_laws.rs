//! What there is room for in the memory and among the journals.

use crate::failure_apply::memory_has_key;
use crate::failure_entry::GuardianFailureMemoryEntryView;
use crate::failure_records::{
    in_force, in_force_keeps_exactly, in_key_order, memory_at, memory_of, memory_times, protecting,
    putting_in_keeps_order, with_memory, Memories,
};
use crate::failure_store::{
    base_memories, constructed, end_recorded, memory_recorded, protected_by, FailureMemoryStoreView,
};
use crate::failure_validation::memory_verdict;
use crate::journal_revision::{
    bytes_of, encoded, inserted, replaced, AcceptedJournalEntryView, JournalMap,
};
use crate::journal_store::{prepared_revision, JournalDraftView, OperationJournalStoreView};
use crate::memory_laws::{base_is_what_is_in_force, held_in_base, is_in_force};
use crate::rulings::LauncherRulingsView;
use crate::temporal::assessment;
use vstd::prelude::*;

verus! {

/// Whether an answer of the memory holds an entry, and everything else that was in force.
pub open spec fn holds_beside_the_rest(
    left: Memories,
    store: FailureMemoryStoreView,
    entry: GuardianFailureMemoryEntryView,
    rulings: LauncherRulingsView,
) -> bool {
    &&& memory_of(left, entry.key) == Some(entry)
    &&& forall|other: GuardianFailureMemoryEntryView|
        #![trigger store.visible.contains(other)]
        store.visible.contains(other) && other.key != entry.key && is_in_force(store, other, rulings)
            ==> left.contains(other)
}

proof fn put_in_with_room(
    store: FailureMemoryStoreView,
    entry: GuardianFailureMemoryEntryView,
    rulings: LauncherRulingsView,
)
    requires
        in_key_order(store.visible),
        store.visible.len() < store.max_entries,
        is_in_force(store, entry, rulings) || entry.reconciliation_terminal is Some
            || entry.persisted_state_repair_terminal is Some,
    ensures
        ({
            let rules = protecting(protected_by(entry), store.now, rulings);
            let left = in_force(with_memory(base_memories(store, rulings), entry), rules);
            &&& left.len() <= store.max_entries
            &&& holds_beside_the_rest(left, store, entry, rulings)
        }),
{
    let base = base_memories(store, rulings);
    let rules = protecting(protected_by(entry), store.now, rulings);
    let changed = with_memory(base, entry);
    let left = in_force(changed, rules);
    in_force_keeps_exactly(
        store.visible,
        protecting(Seq::empty(), store.now, rulings),
    );
    base_is_what_is_in_force(store, rulings);
    putting_in_keeps_order(base, entry);
    in_force_keeps_exactly(changed, rules);
    memory_has_key(changed, entry.key);
    if entry.reconciliation_terminal is Some || entry.persisted_state_repair_terminal is Some {
        assert(protected_by(entry)[0] == entry.key);
        assert(rules.protected.contains(entry.key));
    }
    assert(left.contains(entry));
    let at = choose|at: int| 0 <= at < left.len() && left[at] == entry;
    memory_at(left, at);
    assert forall|other: GuardianFailureMemoryEntryView|
        #![trigger store.visible.contains(other)]
        store.visible.contains(other) && other.key != entry.key && is_in_force(
            store,
            other,
            rulings,
        ) implies left.contains(other) by {
        assert(base.contains(other));
        let k = choose|k: int| 0 <= k < base.len() && base[k] == other;
        memory_at(base, k);
        assert(memory_of(changed, other.key) == Some(other));
        memory_has_key(changed, other.key);
        assert(changed.contains(other));
    }
}

/// Where there is room, no write is open, and nothing of the failure is in force, an entry that is in
/// force is remembered as it is given, beside everything that was.
pub proof fn new_entry_is_remembered_where_there_is_room(
    store: FailureMemoryStoreView,
    entry: GuardianFailureMemoryEntryView,
    rulings: LauncherRulingsView,
)
    requires
        in_key_order(store.visible),
        store.retry_candidate is None,
        !store.critical_pending,
        store.visible.len() < store.max_entries,
        is_in_force(store, entry, rulings),
        memory_of(store.visible, entry.key) is None,
    ensures
        memory_recorded(store, entry, rulings) is Ok,
        holds_beside_the_rest(memory_recorded(store, entry, rulings)->Ok_0, store, entry, rulings),
{
    put_in_with_room(store, entry, rulings);
    held_in_base(store, entry.key, rulings);
}

/// Where there is room and no write is open, the end of a repair that is in order is remembered as it is
/// given, beside everything that was, also once its times have expired.
pub proof fn end_is_remembered_where_there_is_room(
    store: FailureMemoryStoreView,
    entry: GuardianFailureMemoryEntryView,
    rulings: LauncherRulingsView,
)
    requires
        in_key_order(store.visible),
        store.retry_candidate is None,
        !store.critical_pending,
        store.visible.len() < store.max_entries,
        entry.reconciliation_terminal is Some || entry.persisted_state_repair_terminal is Some,
        memory_verdict(entry, rulings) is Ok,
        assessment(store.now, memory_times(entry)) is Ok,
    ensures
        end_recorded(store, entry, rulings) is Ok,
        holds_beside_the_rest(end_recorded(store, entry, rulings)->Ok_0, store, entry, rulings),
{
    put_in_with_room(store, entry, rulings);
}

/// An entry that cannot be remembered now is refused for being out of order or out of time, and one whose
/// times have passed for that.
pub proof fn refused_entry_says_why(
    store: FailureMemoryStoreView,
    entry: GuardianFailureMemoryEntryView,
    rulings: LauncherRulingsView,
)
    ensures
        ({
            let answer = constructed(store, entry, rulings);
            let verdict = memory_verdict(entry, rulings);
            let times = assessment(store.now, memory_times(entry));
            &&& verdict is Err ==> answer is Err && answer->Err_0 is Validation
                && answer->Err_0->Validation_0 == verdict->Err_0
            &&& verdict is Ok && times is Err ==> answer is Err && answer->Err_0 is Validation
            &&& verdict is Ok && times is Ok && times->Ok_0 is Expired ==> answer is Err
                && answer->Err_0 is Expired
        }),
{
}

/// A draft is refused only where too many journals would have to stay or their text would be too large.
/// Where it makes no journal too many, all of them are kept, and it is refused only for the text.
pub proof fn journal_is_written_where_there_is_room(
    store: OperationJournalStoreView,
    draft: JournalDraftView,
    canonical: Seq<u8>,
)
    requires
        store.visible.entries.dom().finite(),
    ensures
        ({
            let answer = prepared_revision(store, draft, canonical);
            let more = store.visible.entries.insert(
                draft.entry.operation_id.value,
                AcceptedJournalEntryView { entry: draft.entry, canonical },
            );
            let room = more.dom().len() <= store.max_entries && bytes_of(more) <= usize::MAX;
            &&& answer is Err ==> answer->Err_0 is CapacityExhausted || (answer->Err_0
                is Persistence && answer->Err_0->Persistence_0 is SnapshotTooLarge)
            &&& answer is Err && answer->Err_0 is CapacityExhausted ==> more.dom().len()
                > store.max_entries
            &&& answer is Ok ==> encoded(
                answer->Ok_0.entries,
                draft.next_sequence,
            ).len() <= 8_388_608
            &&& room ==> (answer is Ok <==> encoded(more, draft.next_sequence).len()
                <= 8_388_608)
            &&& room && answer is Ok ==> answer->Ok_0.entries == more
        }),
{
}

/// Journals that are replaced all stay, each as the last one given for it, unless their text would be
/// too large.
pub proof fn replaced_journals_all_stay(
    map: JournalMap,
    values: Seq<AcceptedJournalEntryView>,
    next_sequence: u64,
    key: u128,
)
    ensures
        ({
            let answer = replaced(map, values, next_sequence);
            let after = answer->Ok_0;
            &&& answer is Err ==> answer->Err_0 is Persistence && answer->Err_0->Persistence_0
                is SnapshotTooLarge
            &&& answer is Ok ==> encoded(after, next_sequence).len() <= 8_388_608
            &&& answer is Ok && map.contains_key(key) ==> after.contains_key(key)
            &&& answer is Ok && (forall|i: int|
                0 <= i < values.len() ==> (#[trigger] values[i]).entry.operation_id.value != key)
                ==> after.contains_key(key) == map.contains_key(key) && (map.contains_key(key)
                ==> after[key] == map[key])
            &&& answer is Ok && values.len() > 0 && values.last().entry.operation_id.value == key
                ==> after.contains_key(key) && after[key] == values.last()
        }),
{
    put_in_one_by_one(map, values, key);
}

proof fn put_in_one_by_one(map: JournalMap, values: Seq<AcceptedJournalEntryView>, key: u128)
    ensures
        map.contains_key(key) ==> inserted(map, values).contains_key(key),
        (forall|i: int|
            0 <= i < values.len() ==> (#[trigger] values[i]).entry.operation_id.value != key)
            ==> inserted(map, values).contains_key(key) == map.contains_key(key) && (
        map.contains_key(key) ==> inserted(map, values)[key] == map[key]),
    decreases values.len(),
{
    if values.len() > 0 {
        let front = values.drop_last();
        put_in_one_by_one(map, front, key);
        if forall|i: int|
            0 <= i < values.len() ==> (#[trigger] values[i]).entry.operation_id.value != key {
            assert forall|i: int| 0 <= i < front.len() implies (
            #[trigger] front[i]).entry.operation_id.value != key by {
                assert(front[i] == values[i]);
            }
            assert(values[values.len() - 1].entry.operation_id.value != key);
        }
    }
}

} // verus!

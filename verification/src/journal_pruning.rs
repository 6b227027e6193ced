//! Which journals give way when a store holds more than it may.

use crate::contracts::{OperationId, OperationStatus, ReconciliationLineage};
use crate::entry::{OperationJournalEntry, OperationJournalEntryView};
use crate::journal_revision::{
    bytes_after_removal, bytes_of, contents, map_get, map_keys, map_len, map_remove,
    AcceptedJournalEntry, JournalMap,
};
use crate::journal_temporal::{active_reconciliation_terminal, ended_in_force};
use crate::journal_validation::{is_terminal, operation_journal_status_is_terminal};
use crate::ordered::{ascending, ascending_lists, lists};
use crate::temporal::{BoundedTemporalPolicy, ClockView};
use im::OrdMap;
use std::sync::Arc;
use vstd::prelude::*;

verus! {

/// Whether an operation that is under way needs the journal of another one.
pub open spec fn obliges(entry: OperationJournalEntryView, key: u128) -> bool {
    &&& entry.status == OperationStatus::Planned || entry.status == OperationStatus::Running
    &&& entry.reconciliation_terminal is None
    &&& entry.persisted_state_repair_terminal is None
    &&& {
        ||| entry.parent_operation_id == Some(OperationId { value: key })
        ||| entry.reconciliation_attempt matches Some(attempt) && attempt.lineage == (
        ReconciliationLineage::Predecessor { operation_id: OperationId { value: key } })
    }
}

/// The operations whose journals are needed by operations that are under way.
pub open spec fn obliged(map: JournalMap) -> Set<u128> {
    Set::new(
        |key: u128|
            exists|holder: u128|
                map.contains_key(holder) && obliges((#[trigger] map[holder]).entry, key),
    )
}

/// What decides which journals may give way.
pub struct PruneRules {
    /// The journal that is being written.
    pub protected: Option<u128>,
    /// The journals that are needed.
    pub referenced: Set<u128>,
    pub now: ClockView,
}

/// The rules for a set of journals.
pub open spec fn rules_for(map: JournalMap, protected: Option<u128>, now: ClockView) -> PruneRules {
    PruneRules { protected, referenced: obliged(map), now }
}

/// Whether a journal may give way: its operation has ended, nothing needs it, it is not the one that
/// is being written, and what it ended is no longer in force.
pub open spec fn may_leave(
    rules: PruneRules,
    key: u128,
    entry: OperationJournalEntryView,
) -> bool {
    &&& rules.protected != Some(key)
    &&& !rules.referenced.contains(key)
    &&& is_terminal(entry.status)
    &&& !ended_in_force(rules.now, entry)
}

/// Whether one journal is older than another.
pub open spec fn older(map: JournalMap, a: u128, b: u128) -> bool {
    map[a].entry.sequence < map[b].entry.sequence || (map[a].entry.sequence == map[b].entry.sequence
        && a < b)
}

/// Whether a journal may give way, and no older one may.
pub open spec fn is_oldest(map: JournalMap, rules: PruneRules, key: u128) -> bool {
    &&& map.contains_key(key)
    &&& may_leave(rules, key, map[key].entry)
    &&& forall|other: u128|
        map.contains_key(other) && other != key && may_leave(
            rules,
            other,
            (#[trigger] map[other]).entry,
        ) ==> older(map, key, other)
}

/// The oldest journal that may give way.
pub open spec fn oldest(map: JournalMap, rules: PruneRules) -> u128 {
    choose|key: u128| is_oldest(map, rules, key)
}

/// What is left once the oldest journals that may give way have left, so that at most `max` stay;
/// `None` where too many have to stay.
pub open spec fn pruned(map: JournalMap, max: nat, rules: PruneRules) -> Option<JournalMap>
    decreases map.dom().len(),
    when map.dom().finite()
{
    if map.dom().len() <= max {
        Some(map)
    } else if exists|key: u128| is_oldest(map, rules, key) {
        proof {
            let key = oldest(map, rules);
            assert(map.remove(key).dom() =~= map.dom().remove(key));
        }
        pruned(map.remove(oldest(map, rules)), max, rules)
    } else {
        None
    }
}

/// The journals that may not give way.
pub open spec fn staying(map: JournalMap, rules: PruneRules) -> JournalMap {
    map.restrict(Set::new(|key: u128| map.contains_key(key) && !may_leave(rules, key, map[key].entry)))
}

/// Whether nothing has happened to some journals but that a few have left that may.
pub open spec fn thinned(map: JournalMap, left: JournalMap, rules: PruneRules) -> bool {
    &&& left.dom().subset_of(map.dom())
    &&& forall|key: u128| left.contains_key(key) ==> #[trigger] left[key] == map[key]
    &&& forall|key: u128|
        map.contains_key(key) && !may_leave(rules, key, (#[trigger] map[key]).entry)
            ==> left.contains_key(key)
}

/// There is only one oldest journal.
proof fn oldest_is_unique(map: JournalMap, rules: PruneRules, key: u128)
    requires
        is_oldest(map, rules, key),
    ensures
        oldest(map, rules) == key,
{
    let other = oldest(map, rules);
    assert(is_oldest(map, rules, other));
    if other != key {
        assert(may_leave(rules, other, map[other].entry));
        assert(may_leave(rules, key, map[key].entry));
        assert(older(map, key, other));
        assert(older(map, other, key));
    }
}

/// The oldest among the first keys of a list.
spec fn oldest_among(map: JournalMap, rules: PruneRules, keys: Seq<u128>, n: int, key: u128) -> bool {
    &&& exists|i: int| 0 <= i < n && #[trigger] keys[i] == key
    &&& map.contains_key(key)
    &&& may_leave(rules, key, map[key].entry)
    &&& forall|i: int|
        0 <= i < n && #[trigger] keys[i] != key && may_leave(rules, keys[i], map[keys[i]].entry)
            ==> older(map, key, keys[i])
}

/// Where some journal may give way, there is an oldest one.
pub proof fn some_oldest(map: JournalMap, rules: PruneRules, key: u128)
    requires
        map.dom().finite(),
        map.contains_key(key),
        may_leave(rules, key, map[key].entry),
    ensures
        is_oldest(map, rules, oldest(map, rules)),
{
    let keys = ascending(map.dom());
    ascending_lists(map.dom());
    oldest_up_to(map, rules, keys, keys.len() as int);
    assert(keys.contains(key));
    let at = choose|i: int| 0 <= i < keys.len() && keys[i] == key;
    assert(keys[at] == key);
    let found = choose|k: u128| oldest_among(map, rules, keys, keys.len() as int, k);
    assert(oldest_among(map, rules, keys, keys.len() as int, found));
    assert forall|other: u128|
        map.contains_key(other) && other != found && may_leave(
            rules,
            other,
            (#[trigger] map[other]).entry,
        ) implies older(map, found, other) by {
        assert(keys.contains(other));
        let i = choose|i: int| 0 <= i < keys.len() && keys[i] == other;
        assert(keys[i] != found);
    }
    assert(is_oldest(map, rules, found));
}

proof fn oldest_up_to(map: JournalMap, rules: PruneRules, keys: Seq<u128>, n: int)
    requires
        lists(keys, map.dom()),
        0 <= n <= keys.len(),
    ensures
        (exists|i: int| 0 <= i < n && may_leave(rules, #[trigger] keys[i], map[keys[i]].entry))
            ==> exists|key: u128| oldest_among(map, rules, keys, n, key),
    decreases n,
{
    if n > 0 {
        oldest_up_to(map, rules, keys, n - 1);
        let last = keys[n - 1];
        assert(keys.contains(last));
        let before = exists|i: int|
            0 <= i < n - 1 && may_leave(rules, #[trigger] keys[i], map[keys[i]].entry);
        if before {
            let m = n - 1;
            let best = choose|key: u128| oldest_among(map, rules, keys, m, key);
            assert(oldest_among(map, rules, keys, m, best));
            let at = choose|i: int| 0 <= i < n - 1 && #[trigger] keys[i] == best;
            assert(keys[at] < keys[n - 1]);
            if may_leave(rules, last, map[last].entry) && map[last].entry.sequence
                < map[best].entry.sequence {
                assert(oldest_among(map, rules, keys, n, last));
            } else {
                assert(oldest_among(map, rules, keys, n, best));
            }
        } else if may_leave(rules, last, map[last].entry) {
            assert(oldest_among(map, rules, keys, n, last));
        }
    }
}

/// Pruning leaves at most so many, invents nothing and changes nothing, and never takes what may not
/// leave: neither the journal that is being written, nor one that is needed, nor one whose operation
/// is under way or whose end is in force.
pub proof fn pruning_keeps_what_must_stay(map: JournalMap, max: nat, rules: PruneRules)
    requires
        map.dom().finite(),
        pruned(map, max, rules) is Some,
    ensures
        ({
            let left = pruned(map, max, rules)->0;
            &&& left.dom().finite()
            &&& left.dom().len() <= max
            &&& thinned(map, left, rules)
        }),
    decreases map.dom().len(),
{
    if map.dom().len() > max {
        let key = oldest(map, rules);
        let less = map.remove(key);
        assert(is_oldest(map, rules, key));
        assert(less.dom() =~= map.dom().remove(key));
        pruning_keeps_what_must_stay(less, max, rules);
        let left = pruned(map, max, rules)->0;
        assert forall|other: u128|
            map.contains_key(other) && !may_leave(
                rules,
                other,
                (#[trigger] map[other]).entry,
            ) implies left.contains_key(other) by {
            assert(less[other] == map[other]);
        }
        assert forall|other: u128| left.contains_key(other) implies #[trigger] left[other]
            == map[other] by {
            assert(left[other] == less[other]);
        }
    }
}

/// What pruning takes is older than whatever it could have taken and left.
pub proof fn pruning_takes_the_oldest(
    map: JournalMap,
    max: nat,
    rules: PruneRules,
    gone: u128,
    kept: u128,
)
    requires
        map.dom().finite(),
        pruned(map, max, rules) is Some,
        map.contains_key(gone),
        !pruned(map, max, rules)->0.contains_key(gone),
        pruned(map, max, rules)->0.contains_key(kept),
        may_leave(rules, kept, map[kept].entry),
    ensures
        older(map, gone, kept),
        may_leave(rules, gone, map[gone].entry),
    decreases map.dom().len(),
{
    let key = oldest(map, rules);
    let less = map.remove(key);
    assert(is_oldest(map, rules, key));
    assert(less.dom() =~= map.dom().remove(key));
    pruning_keeps_what_must_stay(less, max, rules);
    assert(less.dom().contains(kept));
    assert(may_leave(rules, kept, map[kept].entry));
    if gone != key {
        pruning_takes_the_oldest(less, max, rules, gone, kept);
    }
}

/// Pruning takes no more than it has to.
pub proof fn pruning_fills_the_bound(map: JournalMap, max: nat, rules: PruneRules)
    requires
        map.dom().finite(),
        pruned(map, max, rules) is Some,
    ensures
        pruned(map, max, rules)->0.dom().len() == (if map.dom().len() <= max {
            map.dom().len()
        } else {
            max
        }),
    decreases map.dom().len(),
{
    if map.dom().len() > max {
        let key = oldest(map, rules);
        assert(is_oldest(map, rules, key));
        assert(map.remove(key).dom() =~= map.dom().remove(key));
        pruning_fills_the_bound(map.remove(key), max, rules);
    }
}

/// Pruning fails only where more journals have to stay than the bound allows.
pub proof fn pruning_fails_only_at_capacity(map: JournalMap, max: nat, rules: PruneRules) -> (stay:
    Set<u128>)
    requires
        map.dom().finite(),
        pruned(map, max, rules) is None,
    ensures
        stay.finite(),
        stay.len() > max,
        forall|key: u128| #[trigger]
            stay.contains(key) ==> map.contains_key(key) && !may_leave(rules, key, map[key].entry),
    decreases map.dom().len(),
{
    if exists|key: u128| is_oldest(map, rules, key) {
        let key = oldest(map, rules);
        assert(is_oldest(map, rules, key));
        let less = map.remove(key);
        assert(less.dom() =~= map.dom().remove(key));
        let stay = pruning_fails_only_at_capacity(less, max, rules);
        assert forall|other: u128| #[trigger] stay.contains(other) implies map.contains_key(other)
            && !may_leave(rules, other, map[other].entry) by {
            assert(less[other] == map[other]);
        }
        stay
    } else {
        assert forall|key: u128| #[trigger] map.dom().contains(key) implies !may_leave(
            rules,
            key,
            map[key].entry,
        ) by {
            if may_leave(rules, key, map[key].entry) {
                some_oldest(map, rules, key);
            }
        }
        map.dom()
    }
}

/// Pruning succeeds exactly where no more journals have to stay than the bound allows.
pub proof fn pruning_succeeds_within_capacity(map: JournalMap, max: nat, rules: PruneRules)
    requires
        map.dom().finite(),
    ensures
        staying(map, rules).dom().finite(),
        pruned(map, max, rules) is Some <==> staying(map, rules).dom().len() <= max,
{
    let stays = staying(map, rules).dom();
    assert(stays.subset_of(map.dom()));
    vstd::set_lib::lemma_len_subset(stays, map.dom());
    if pruned(map, max, rules) is Some {
        pruning_keeps_what_must_stay(map, max, rules);
        let left = pruned(map, max, rules)->0;
        assert forall|key: u128| stays.contains(key) implies left.dom().contains(key) by {
            assert(!may_leave(rules, key, map[key].entry));
        }
        vstd::set_lib::lemma_len_subset(stays, left.dom());
    } else {
        let stay = pruning_fails_only_at_capacity(map, max, rules);
        assert forall|key: u128| stay.contains(key) implies stays.contains(key) by {}
        vstd::set_lib::lemma_len_subset(stay, stays);
    }
}

/// Notes the operations whose journals an entry needs.
pub fn push_obligations(referenced: &mut Vec<u128>, entry: &OperationJournalEntry)
    ensures
        forall|key: u128| #[trigger]
            final(referenced)@.contains(key) <==> old(referenced)@.contains(key) || obliges(
                entry@,
                key,
            ),
{
    let under_way = match entry.status {
        OperationStatus::Planned => true,
        OperationStatus::Running => true,
        _ => false,
    };
    if !under_way || entry.reconciliation_terminal.is_some()
        || entry.persisted_state_repair_terminal.is_some() {
        return;
    }
    match entry.parent_operation_id {
        Some(parent) => {
            let ghost before = referenced@;
            referenced.push(parent.value);
            proof {
                pushed_is_contained(before, parent.value);
            }
        },
        None => {},
    }
    match &entry.reconciliation_attempt {
        Some(attempt) => match attempt.lineage {
            ReconciliationLineage::Predecessor { operation_id } => {
                let ghost before = referenced@;
                referenced.push(operation_id.value);
                proof {
                    pushed_is_contained(before, operation_id.value);
                }
            },
            ReconciliationLineage::Initial => {},
        },
        None => {},
    }
}

proof fn pushed_is_contained(list: Seq<u128>, key: u128)
    ensures
        forall|other: u128| #[trigger]
            list.push(key).contains(other) <==> list.contains(other) || other == key,
{
    let more = list.push(key);
    assert forall|other: u128| #[trigger] more.contains(other) <==> list.contains(other) || other
        == key by {
        if list.contains(other) {
            let i = choose|i: int| 0 <= i < list.len() && list[i] == other;
            assert(more[i] == other);
        }
        assert(more[list.len() as int] == key);
        if more.contains(other) && other != key {
            let i = choose|i: int| 0 <= i < more.len() && more[i] == other;
            assert(list[i] == other);
        }
    }
}

/// Whether a list of keys holds a key.
pub fn lists_key(keys: &Vec<u128>, key: u128) -> (r: bool)
    ensures
        r == keys@.contains(key),
{
    let mut i: usize = 0;
    while i < keys.len()
        invariant
            i <= keys.len(),
            forall|k: int| 0 <= k < i ==> keys@[k] != key,
        decreases keys.len() - i,
    {
        if keys[i] == key {
            assert(keys@[i as int] == key);
            return true;
        }
        i = i + 1;
    }
    false
}

fn live_journal_predecessor_obligations(
    records: &OrdMap<u128, Arc<AcceptedJournalEntry>>,
) -> (r: Vec<u128>)
    ensures
        forall|key: u128| #[trigger] r@.contains(key) <==> obliged(contents(*records)).contains(key),
{
    let keys = map_keys(records);
    let ghost map = contents(*records);
    let mut referenced: Vec<u128> = Vec::new();
    let mut i: usize = 0;
    while i < keys.len()
        invariant
            i <= keys.len(),
            map == contents(*records),
            lists(keys@, map.dom()),
            forall|key: u128| #[trigger]
                referenced@.contains(key) <==> exists|k: int|
                    0 <= k < i && obliges(map[#[trigger] keys@[k]].entry, key),
        decreases keys.len() - i,
    {
        let ghost before = referenced@;
        assert(keys@.contains(keys@[i as int]));
        match map_get(records, keys[i]) {
            Some(accepted) => {
                push_obligations(&mut referenced, &accepted.entry);
            },
            None => {},
        }
        assert forall|key: u128| #[trigger] referenced@.contains(key) <==> exists|k: int|
            0 <= k < i + 1 && obliges(map[#[trigger] keys@[k]].entry, key) by {
            if before.contains(key) {
                let k = choose|k: int| 0 <= k < i && obliges(map[#[trigger] keys@[k]].entry, key);
                assert(obliges(map[keys@[k]].entry, key));
            }
            if obliges(map[keys@[i as int]].entry, key) {
                assert(0 <= i as int && (i as int) < i + 1);
            }
        }
        i = i + 1;
    }
    assert forall|key: u128| #[trigger] referenced@.contains(key) <==> obliged(map).contains(
        key,
    ) by {
        if referenced@.contains(key) {
            let k = choose|k: int| 0 <= k < keys@.len() && obliges(map[#[trigger] keys@[k]].entry, key);
            assert(keys@.contains(keys@[k]));
            assert(map.contains_key(keys@[k]) && obliges(map[keys@[k]].entry, key));
        }
        if obliged(map).contains(key) {
            let holder = choose|holder: u128|
                map.contains_key(holder) && obliges((#[trigger] map[holder]).entry, key);
            assert(keys@.contains(holder));
            let k = choose|k: int| 0 <= k < keys@.len() && keys@[k] == holder;
            assert(obliges(map[keys@[k]].entry, key));
        }
    }
    referenced
}

/// The oldest journal that may give way, if one may.
fn find_oldest(
    records: &OrdMap<u128, Arc<AcceptedJournalEntry>>,
    protected: Option<u128>,
    referenced: &Vec<u128>,
    temporal: &BoundedTemporalPolicy,
    Ghost(rules): Ghost<PruneRules>,
) -> (r: Option<u128>)
    requires
        contents(*records).dom().finite(),
        rules.protected == protected,
        rules.now == temporal@,
        forall|key: u128| #[trigger]
            referenced@.contains(key) <==> rules.referenced.contains(key),
    ensures
        match r {
            Some(key) => is_oldest(contents(*records), rules, key),
            None => forall|key: u128| !is_oldest(contents(*records), rules, key),
        },
{
    let keys = map_keys(records);
    let ghost map = contents(*records);
    let mut best: Option<(u64, u128)> = None;
    let mut i: usize = 0;
    while i < keys.len()
        invariant
            i <= keys.len(),
            map == contents(*records),
            lists(keys@, map.dom()),
            rules.protected == protected,
            rules.now == temporal@,
            forall|key: u128| #[trigger]
                referenced@.contains(key) <==> rules.referenced.contains(key),
            match best {
                Some((sequence, key)) => sequence == map[key].entry.sequence && oldest_among(
                    map,
                    rules,
                    keys@,
                    i as int,
                    key,
                ),
                None => forall|k: int|
                    0 <= k < i ==> !may_leave(rules, #[trigger] keys@[k], map[keys@[k]].entry),
            },
        decreases keys.len() - i,
    {
        let key: u128 = keys[i];
        assert(keys@.contains(keys@[i as int]));
        match map_get(records, key) {
            Some(accepted) => {
                let is_protected = match protected {
                    Some(protected_key) => protected_key == key,
                    None => false,
                };
                let leaves = !is_protected && !lists_key(referenced, key)
                    && operation_journal_status_is_terminal(accepted.entry.status)
                    && !active_reconciliation_terminal(&accepted.entry, temporal);
                assert(leaves == may_leave(rules, key, map[key].entry));
                if leaves {
                    let take = match best {
                        Some((sequence, _)) => accepted.entry.sequence < sequence,
                        None => true,
                    };
                    proof {
                        if let Some((_, found)) = best {
                            let at = choose|k: int| 0 <= k < i && #[trigger] keys@[k] == found;
                            assert(keys@[at] < keys@[i as int]);
                        }
                    }
                    if take {
                        best = Some((accepted.entry.sequence, key));
                        assert(keys@[i as int] == key);
                    }
                }
            },
            None => {},
        }
        i = i + 1;
    }
    match best {
        Some((_, key)) => {
            assert forall|other: u128|
                map.contains_key(other) && other != key && may_leave(
                    rules,
                    other,
                    (#[trigger] map[other]).entry,
                ) implies older(map, key, other) by {
                assert(keys@.contains(other));
                let k = choose|k: int| 0 <= k < keys@.len() && keys@[k] == other;
                assert(keys@[k] != key);
            }
            Some(key)
        },
        None => {
            assert forall|key: u128| !is_oldest(map, rules, key) by {
                if map.contains_key(key) {
                    assert(keys@.contains(key));
                    let k = choose|k: int| 0 <= k < keys@.len() && keys@[k] == key;
                    assert(!may_leave(rules, keys@[k], map[keys@[k]].entry));
                }
            }
            None
        },
    }
}

/// Lets the oldest journals that may give way leave until at most `max_entries` are left. Says how
/// many bytes left with them. Where too many have to stay, all that may give way have left, and the
/// others stand as they were.
pub(crate) fn prune_records(
    records: &mut OrdMap<u128, Arc<AcceptedJournalEntry>>,
    max_entries: usize,
    protected_key: Option<u128>,
    temporal: &BoundedTemporalPolicy,
) -> (r: Option<usize>)
    requires
        contents(*old(records)).dom().finite(),
    ensures
        ({
            let before = contents(*old(records));
            let rules = rules_for(before, protected_key, temporal@);
            match r {
                Some(removed) => {
                    &&& pruned(before, max_entries as nat, rules) == Some(contents(*final(records)))
                    &&& contents(*final(records)).dom().finite()
                    &&& bytes_of(before) == bytes_of(contents(*final(records))) + removed
                },
                None => {
                    &&& pruned(before, max_entries as nat, rules) is None || bytes_of(before)
                        > usize::MAX
                    &&& bytes_of(before) <= usize::MAX ==> contents(*final(records)) == staying(
                        before,
                        rules,
                    )
                },
            }
        }),
        thinned(
            contents(*old(records)),
            contents(*final(records)),
            rules_for(contents(*old(records)), protected_key, temporal@),
        ),
{
    let ghost before = contents(*records);
    let ghost rules = rules_for(before, protected_key, temporal@);
    if map_len(records) <= max_entries {
        return Some(0);
    }
    let referenced = live_journal_predecessor_obligations(records);
    let mut removed: usize = 0;
    while map_len(records) > max_entries
        invariant
            before == contents(*old(records)),
            rules == rules_for(before, protected_key, temporal@),
            contents(*records).dom().finite(),
            forall|key: u128| #[trigger]
                referenced@.contains(key) <==> rules.referenced.contains(key),
            pruned(before, max_entries as nat, rules) == pruned(
                contents(*records),
                max_entries as nat,
                rules,
            ),
            bytes_of(before) == bytes_of(contents(*records)) + removed,
            thinned(before, contents(*records), rules),
        decreases contents(*records).dom().len(),
    {
        let ghost now_held = contents(*records);
        let key: u128 = match find_oldest(
            records,
            protected_key,
            &referenced,
            temporal,
            Ghost(rules),
        ) {
            Some(key) => key,
            None => {
                proof {
                    assert forall|other: u128| now_held.contains_key(other) implies !may_leave(
                        rules,
                        other,
                        (#[trigger] now_held[other]).entry,
                    ) by {
                        if may_leave(rules, other, now_held[other].entry) {
                            some_oldest(now_held, rules, other);
                        }
                    }
                    let stay = staying(before, rules);
                    assert forall|other: u128| now_held.contains_key(other) <==> stay.contains_key(
                        other,
                    ) by {
                        if now_held.contains_key(other) {
                            assert(now_held[other] == before[other]);
                        }
                        if stay.contains_key(other) {
                            assert(!may_leave(rules, other, before[other].entry));
                        }
                    }
                    assert(now_held =~= stay);
                }
                return None;
            },
        };
        proof {
            oldest_is_unique(now_held, rules, key);
            bytes_after_removal(now_held, key);
            assert(now_held.remove(key).dom() =~= now_held.dom().remove(key));
        }
        let bytes: usize = match map_get(records, key) {
            Some(accepted) => accepted.canonical.len(),
            None => 0,
        };
        map_remove(records, key);
        removed = match removed.checked_add(bytes) {
            Some(total) => total,
            None => {
                return None;
            },
        };
    }
    Some(removed)
}

} // verus!

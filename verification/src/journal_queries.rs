//! What can be asked of the store of journals.

use crate::contracts::{CommandKind, OperationId};
use crate::entry::{OperationJournalEntry, OperationJournalEntryView};
use crate::evidence::{
    ReconciliationPublication, ReconciliationTerminal, ReconciliationTerminalView,
};
use crate::journal_errors::{OperationJournalStoreError, OperationJournalValidationError};
use crate::journal_pruning::older;
use crate::journal_records::{
    acknowledged, acknowledgement, reconciliation_mismatch, updated, UpdatePolicy,
};
use crate::journal_revision::{listed, JournalMap};
use crate::journal_store::{
    JournalDraft, JournalDraftView, OperationJournalStore, OperationJournalStoreView,
};
use crate::ordered::lists;
use crate::performance::lifecycle_of;
use crate::projection::{
    performance_operation_projection, performance_restart_disposition, projection_of, restart_of,
    OperationRestartDisposition, PerformanceOperationProjection, PerformanceOperationProjectionView,
};
use crate::record::{opt_view, views, Record};
use crate::rulings::{LauncherRulings, LauncherRulingsView};
use crate::text::same_text;
use vstd::prelude::*;

verus! {

/// Whether a journal is of this command, and none of this command is newer.
pub open spec fn is_latest_of(map: JournalMap, command: CommandKind, key: u128) -> bool {
    &&& map.contains_key(key)
    &&& map[key].entry.command == command
    &&& forall|other: u128|
        map.contains_key(other) && other != key && (#[trigger] map[other]).entry.command == command
            ==> older(map, other, key)
}

/// Whether an entry is of a performance operation of this instance.
pub open spec fn is_of_instance(entry: OperationJournalEntryView, instance_id: Seq<char>) -> bool {
    lifecycle_of(entry) matches Some(lifecycle) && lifecycle.intent.instance_id == instance_id
}

/// Whether the performance operation of an entry has ended.
pub open spec fn performance_has_ended(entry: OperationJournalEntryView) -> bool {
    lifecycle_of(entry) matches Some(lifecycle) && lifecycle.phase is Terminal
}

/// Whether one performance operation is shown rather than another: one that is under way rather than
/// one that has ended, and then the newer one.
pub open spec fn is_shown_before(map: JournalMap, a: u128, b: u128) -> bool {
    if performance_has_ended(map[a].entry) != performance_has_ended(map[b].entry) {
        !performance_has_ended(map[a].entry)
    } else {
        older(map, b, a)
    }
}

/// Whether a performance operation is the one that is shown of an instance.
pub open spec fn is_shown(map: JournalMap, instance_id: Seq<char>, key: u128) -> bool {
    &&& map.contains_key(key)
    &&& is_of_instance(map[key].entry, instance_id)
    &&& forall|other: u128|
        map.contains_key(other) && other != key && is_of_instance(
            (#[trigger] map[other]).entry,
            instance_id,
        ) ==> is_shown_before(map, key, other)
}

/// Whether a restart leaves the operation of an entry in this state.
pub open spec fn restarts_as(
    entry: OperationJournalEntryView,
    restart: OperationRestartDisposition,
) -> bool {
    lifecycle_of(entry) matches Some(lifecycle) && restart_of(lifecycle.phase) == restart
}

/// Whether these are the operations that a restart leaves in this state, the oldest first.
pub open spec fn lists_restarts(
    keys: Seq<u128>,
    map: JournalMap,
    restart: OperationRestartDisposition,
) -> bool {
    &&& forall|i: int, j: int| 0 <= i < j < keys.len() ==> older(map, keys[i], keys[j])
    &&& forall|key: u128| #[trigger]
        keys.contains(key) <==> map.contains_key(key) && restarts_as(map[key].entry, restart)
}

/// What is shown of these operations.
pub open spec fn projections(map: JournalMap, keys: Seq<u128>) -> Seq<
    PerformanceOperationProjectionView,
> {
    Seq::new(keys.len(), |i: int| projection_of(map[keys[i]].entry)->0)
}

/// What remains to be done for performance operations after a restart.
pub struct PerformanceRestartPlan {
    pub resumable: Vec<PerformanceOperationProjection>,
    pub applied_unverified: Vec<PerformanceOperationProjection>,
}

/// There is only one such list.
pub proof fn restart_list_is_unique(
    a: Seq<u128>,
    b: Seq<u128>,
    map: JournalMap,
    restart: OperationRestartDisposition,
)
    requires
        lists_restarts(a, map, restart),
        lists_restarts(b, map, restart),
    ensures
        a == b,
{
    age_order_decides(a, b, map);
}

proof fn age_order_decides(a: Seq<u128>, b: Seq<u128>, map: JournalMap)
    requires
        forall|i: int, j: int| 0 <= i < j < a.len() ==> older(map, a[i], a[j]),
        forall|i: int, j: int| 0 <= i < j < b.len() ==> older(map, b[i], b[j]),
        forall|key: u128| a.contains(key) <==> b.contains(key),
    ensures
        a == b,
    decreases a.len(),
{
    if a.len() == 0 {
        if b.len() > 0 {
            assert(b.contains(b[0]));
            assert(a.contains(b[0]));
        }
        assert(a =~= b);
    } else {
        assert(a.contains(a.last()));
        assert(b.contains(a.last()));
        assert(b.contains(b.last()));
        assert(a.contains(b.last()));
        let i = choose|i: int| 0 <= i < b.len() && b[i] == a.last();
        let j = choose|j: int| 0 <= j < a.len() && a[j] == b.last();
        assert(a.last() == b.last()) by {
            if i < b.len() - 1 {
                assert(older(map, b[i], b[b.len() - 1]));
                assert(j < a.len() - 1 ==> older(map, a[j], a[a.len() - 1]));
            }
        }
        let last = a.last();
        let ra = a.drop_last();
        let rb = b.drop_last();
        assert forall|key: u128| ra.contains(key) <==> rb.contains(key) by {
            if ra.contains(key) {
                let k = choose|k: int| 0 <= k < ra.len() && ra[k] == key;
                assert(a[k] == key);
                assert(older(map, a[k], a[a.len() - 1]));
                assert(a.contains(key));
                let m = choose|m: int| 0 <= m < b.len() && b[m] == key;
                assert(rb[m] == key);
            }
            if rb.contains(key) {
                let k = choose|k: int| 0 <= k < rb.len() && rb[k] == key;
                assert(b[k] == key);
                assert(older(map, b[k], b[b.len() - 1]));
                assert(b.contains(key));
                let m = choose|m: int| 0 <= m < a.len() && a[m] == key;
                assert(ra[m] == key);
            }
        }
        age_order_decides(ra, rb, map);
        assert(a =~= ra.push(last));
        assert(b =~= rb.push(last));
    }
}

/// The end of a reconciliation once what it published has been acknowledged.
pub fn acknowledge(terminal: &ReconciliationTerminal) -> (r: ReconciliationTerminal)
    ensures
        r@ == acknowledged(terminal@),
{
    let mut r = terminal.duplicate();
    match &terminal.version_bundle_publication {
        Some(publication) => {
            r.version_bundle_publication = Some(
                ReconciliationPublication {
                    evidence: publication.evidence.duplicate(),
                    outcome: publication.outcome,
                    pending: false,
                },
            );
        },
        None => {},
    }
    r
}

/// The end of a reconciliation that the store holds for an operation.
pub open spec fn held_terminal(
    store: OperationJournalStoreView,
    operation_id: OperationId,
) -> Option<ReconciliationTerminalView> {
    if store.visible.entries.contains_key(operation_id.value) {
        store.visible.entries[operation_id.value].entry.reconciliation_terminal
    } else {
        None
    }
}

/// An entry in which the end of a reconciliation is acknowledged.
pub open spec fn acknowledged_in(
    entry: OperationJournalEntryView,
    expected: ReconciliationTerminalView,
) -> Result<OperationJournalEntryView, OperationJournalStoreError> {
    if entry.reconciliation_terminal == Some(expected) || entry.reconciliation_terminal == Some(
        acknowledged(expected),
    ) {
        Ok(
            OperationJournalEntryView {
                reconciliation_terminal: Some(acknowledged(expected)),
                ..entry
            },
        )
    } else {
        Err(reconciliation_mismatch())
    }
}

/// What becomes of the acknowledgement of what a reconciliation published: its end as it is held
/// then, and the draft that this takes.
pub open spec fn bundle_acknowledged(
    store: OperationJournalStoreView,
    expected: ReconciliationTerminalView,
    rulings: LauncherRulingsView,
) -> Result<(ReconciliationTerminalView, Option<JournalDraftView>), OperationJournalStoreError> {
    let id = expected.attempt.operation_id;
    match expected.version_bundle_publication {
        None => Err(reconciliation_mismatch()),
        Some(publication) => if !publication.pending {
            if held_terminal(store, id) == Some(expected) {
                Ok((expected, None))
            } else {
                Err(reconciliation_mismatch())
            }
        } else if held_terminal(store, id) == Some(acknowledged(expected)) {
            Ok((acknowledged(expected), None))
        } else {
            match updated(
                store,
                id,
                acknowledgement(),
                |entry: OperationJournalEntryView| acknowledged_in(entry, expected),
                rulings,
            ) {
                Ok(draft) => Ok((acknowledged(expected), Some(draft))),
                Err(error) => Err(error),
            }
        },
    }
}

/// What the store makes of an acknowledgement: the end as it then stands, and a draft where it did
/// not stand so before.
pub struct Acknowledgement {
    pub terminal: ReconciliationTerminal,
    pub draft: Option<JournalDraft>,
}

impl OperationJournalStore {
    /// The newest journal of a command.
    pub fn latest_for_command(&self, command: CommandKind) -> (r: Option<OperationJournalEntry>)
        ensures
            match r {
                Some(entry) => exists|key: u128|
                    is_latest_of(self@.visible.entries, command, key) && entry@
                        == self@.visible.entries[key].entry,
                None => forall|key: u128|
                    self@.visible.entries.contains_key(key) ==> (
                    #[trigger] self@.visible.entries[key]).entry.command != command,
            },
    {
        let keys = self.visible().keys();
        let ghost map = self@.visible.entries;
        let mut best: Option<OperationJournalEntry> = None;
        let mut best_key: u128 = 0;
        let mut i: usize = 0;
        while i < keys.len()
            invariant
                i <= keys.len(),
                map == self@.visible.entries,
                lists(keys@, map.dom()),
                match best {
                    Some(entry) => {
                        &&& map.contains_key(best_key)
                        &&& entry@ == map[best_key].entry
                        &&& entry@.command == command
                        &&& exists|k: int| 0 <= k < i && #[trigger] keys@[k] == best_key
                        &&& forall|k: int|
                            0 <= k < i && #[trigger] keys@[k] != best_key
                                && map[keys@[k]].entry.command == command ==> older(
                                map,
                                keys@[k],
                                best_key,
                            )
                    },
                    None => forall|k: int|
                        0 <= k < i ==> map[#[trigger] keys@[k]].entry.command != command,
                },
            decreases keys.len() - i,
        {
            let key: u128 = keys[i];
            assert(keys@.contains(keys@[i as int]));
            match self.visible().entry(&OperationId { value: key }) {
                Some(entry) => {
                    if entry.command == command {
                        let newer = match &best {
                            Some(held) => entry.sequence >= held.sequence,
                            None => true,
                        };
                        proof {
                            if best is Some {
                                let k = choose|k: int|
                                    0 <= k < i && #[trigger] keys@[k] == best_key;
                                assert(keys@[k] < keys@[i as int]);
                            }
                        }
                        if newer {
                            best = Some(entry.duplicate());
                            best_key = key;
                            assert(keys@[i as int] == best_key);
                        }
                    }
                },
                None => {},
            }
            i = i + 1;
        }
        proof {
            assert forall|other: u128| map.contains_key(other) implies exists|k: int|
                0 <= k < keys@.len() && #[trigger] keys@[k] == other by {
                assert(keys@.contains(other));
            }
            if best is Some {
                assert(is_latest_of(map, command, best_key));
            }
        }
        best
    }

    /// What is shown of a performance operation.
    pub fn performance_operation(&self, operation_id: &OperationId) -> (r: Option<
        PerformanceOperationProjection,
    >)
        ensures
            opt_view(r) == (if self@.visible.entries.contains_key(operation_id.value) {
                projection_of(self@.visible.entries[operation_id.value].entry)
            } else {
                None
            }),
    {
        match self.visible().entry(operation_id) {
            Some(entry) => performance_operation_projection(entry),
            None => None,
        }
    }

    /// What is shown of an instance: its performance operation that is under way, or else the one
    /// that ended last.
    pub fn current_or_latest_performance_operation(&self, instance_id: &str) -> (r: Option<
        PerformanceOperationProjection,
    >)
        ensures
            match r {
                Some(projection) => exists|key: u128|
                    is_shown(self@.visible.entries, instance_id@, key) && Some(projection@)
                        == projection_of(self@.visible.entries[key].entry),
                None => forall|key: u128|
                    self@.visible.entries.contains_key(key) ==> !is_of_instance(
                        (#[trigger] self@.visible.entries[key]).entry,
                        instance_id@,
                    ),
            },
    {
        let keys = self.visible().keys();
        let ghost map = self@.visible.entries;
        let mut best: Option<PerformanceOperationProjection> = None;
        let mut best_key: u128 = 0;
        let mut i: usize = 0;
        while i < keys.len()
            invariant
                i <= keys.len(),
                map == self@.visible.entries,
                lists(keys@, map.dom()),
                match best {
                    Some(projection) => {
                        &&& map.contains_key(best_key)
                        &&& Some(projection@) == projection_of(map[best_key].entry)
                        &&& is_of_instance(map[best_key].entry, instance_id@)
                        &&& exists|k: int| 0 <= k < i && #[trigger] keys@[k] == best_key
                        &&& forall|k: int|
                            0 <= k < i && #[trigger] keys@[k] != best_key && is_of_instance(
                                map[keys@[k]].entry,
                                instance_id@,
                            ) ==> is_shown_before(map, best_key, keys@[k])
                    },
                    None => forall|k: int|
                        0 <= k < i ==> !is_of_instance(
                            map[#[trigger] keys@[k]].entry,
                            instance_id@,
                        ),
                },
            decreases keys.len() - i,
        {
            let key: u128 = keys[i];
            assert(keys@.contains(keys@[i as int]));
            match self.visible().entry(&OperationId { value: key }) {
                Some(entry) => match performance_operation_projection(entry) {
                    Some(projection) => {
                        if same_text(projection.intent.instance_id.as_str(), instance_id) {
                            let first = match &best {
                                Some(held) => if projection.terminal != held.terminal {
                                    held.terminal
                                } else {
                                    projection.sequence >= held.sequence
                                },
                                None => true,
                            };
                            proof {
                                if best is Some {
                                    let k = choose|k: int|
                                        0 <= k < i && #[trigger] keys@[k] == best_key;
                                    assert(keys@[k] < keys@[i as int]);
                                }
                            }
                            if first {
                                best = Some(projection);
                                best_key = key;
                                assert(keys@[i as int] == best_key);
                            }
                        }
                    },
                    None => {},
                },
                None => {},
            }
            i = i + 1;
        }
        proof {
            assert forall|other: u128| map.contains_key(other) implies exists|k: int|
                0 <= k < keys@.len() && #[trigger] keys@[k] == other by {
                assert(keys@.contains(other));
            }
            if best is Some {
                assert(is_shown(map, instance_id@, best_key));
            }
        }
        best
    }

    fn restart_keys(&self, restart: OperationRestartDisposition) -> (r: Vec<u128>)
        ensures
            lists_restarts(r@, self@.visible.entries, restart),
    {
        let keys = self.visible().keys();
        let ghost map = self@.visible.entries;
        let mut r: Vec<u128> = Vec::new();
        let mut ages: Vec<u64> = Vec::new();
        let mut i: usize = 0;
        while i < keys.len()
            invariant
                i <= keys.len(),
                map == self@.visible.entries,
                lists(keys@, map.dom()),
                ages.len() == r.len(),
                forall|k: int| 0 <= k < r.len() ==> ages@[k] == map[#[trigger] r@[k]].entry.sequence,
                forall|a: int, b: int| 0 <= a < b < r.len() ==> older(map, r@[a], r@[b]),
                forall|key: u128| #[trigger]
                    r@.contains(key) <==> restarts_as(map[key].entry, restart) && exists|k: int|
                        0 <= k < i && #[trigger] keys@[k] == key,
            decreases keys.len() - i,
        {
            let key: u128 = keys[i];
            assert(keys@.contains(keys@[i as int]));
            match self.visible().entry(&OperationId { value: key }) {
                Some(entry) => {
                    let wanted = match performance_restart_disposition(entry) {
                        Some(found) => found == restart,
                        None => false,
                    };
                    assert(wanted == restarts_as(map[key].entry, restart));
                    if wanted {
                        let ghost before = r@;
                        assert forall|k: int| 0 <= k < r.len() implies #[trigger] r@[k] < key by {
                            assert(r@.contains(r@[k]));
                            let m = choose|m: int| 0 <= m < i && #[trigger] keys@[m] == r@[k];
                            assert(keys@[m] < keys@[i as int]);
                        }
                        let mut at: usize = r.len();
                        while at > 0 && ages[at - 1] > entry.sequence
                            invariant
                                at <= r.len(),
                                ages.len() == r.len(),
                                r@ == before,
                                entry.sequence == map[key].entry.sequence,
                                forall|k: int|
                                    0 <= k < r.len() ==> ages@[k]
                                        == map[#[trigger] r@[k]].entry.sequence,
                                forall|k: int|
                                    at <= k < r.len() ==> older(map, key, #[trigger] r@[k]),
                            decreases at,
                        {
                            at = at - 1;
                        }
                        r.insert(at, key);
                        ages.insert(at, entry.sequence);
                        proof {
                            let p = at as int;
                            assert(r@ =~= before.insert(p, key));
                            assert forall|k: int| 0 <= k < p implies older(
                                map,
                                #[trigger] before[k],
                                key,
                            ) by {
                                if k < p - 1 {
                                    assert(older(map, before[k], before[p - 1]));
                                }
                            }
                            assert forall|a: int, b: int| 0 <= a < b < r.len() implies older(
                                map,
                                r@[a],
                                r@[b],
                            ) by {
                                let fa = if a < p { a } else { a - 1 };
                                let fb = if b < p { b } else { b - 1 };
                                if a != p {
                                    assert(r@[a] == before[fa]);
                                }
                                if b != p {
                                    assert(r@[b] == before[fb]);
                                }
                            }
                            assert forall|k: int| 0 <= k < r.len() implies ages@[k]
                                == map[#[trigger] r@[k]].entry.sequence by {
                                if k != p {
                                    let f = if k < p { k } else { k - 1 };
                                    assert(r@[k] == before[f]);
                                }
                            }
                            assert forall|other: u128| #[trigger]
                                r@.contains(other) <==> before.contains(other) || other == key by {
                                if before.contains(other) {
                                    let k = choose|k: int| 0 <= k < before.len() && before[k] == other;
                                    let t = if k < p { k } else { k + 1 };
                                    assert(r@[t] == other);
                                }
                                assert(r@[p] == key);
                                if r@.contains(other) && other != key {
                                    let k = choose|k: int| 0 <= k < r@.len() && r@[k] == other;
                                    let f = if k < p { k } else { k - 1 };
                                    assert(before[f] == other);
                                }
                            }
                            assert forall|other: u128| #[trigger]
                                r@.contains(other) <==> restarts_as(map[other].entry, restart)
                                    && exists|k: int|
                                    0 <= k < i + 1 && #[trigger] keys@[k] == other by {
                                assert(keys@[i as int] == key);
                                if before.contains(other) {
                                    let k = choose|k: int|
                                        0 <= k < i && #[trigger] keys@[k] == other;
                                    assert(keys@[k] == other);
                                }
                            }
                        }
                    }
                },
                None => {},
            }
            i = i + 1;
        }
        proof {
            assert forall|key: u128| #[trigger] r@.contains(key) <==> map.contains_key(key)
                && restarts_as(map[key].entry, restart) by {
                if r@.contains(key) {
                    let k = choose|k: int| 0 <= k < keys@.len() && #[trigger] keys@[k] == key;
                    assert(keys@.contains(key));
                }
                if map.contains_key(key) {
                    assert(keys@.contains(key));
                }
            }
        }
        r
    }

    fn restart_projections(&self, keys: &Vec<u128>) -> (r: Vec<PerformanceOperationProjection>)
        requires
            forall|i: int|
                0 <= i < keys.len() ==> self@.visible.entries.contains_key(#[trigger] keys@[i])
                    && lifecycle_of(self@.visible.entries[keys@[i]].entry) is Some,
        ensures
            views(r@) == projections(self@.visible.entries, keys@),
    {
        let ghost map = self@.visible.entries;
        let mut r: Vec<PerformanceOperationProjection> = Vec::new();
        let mut i: usize = 0;
        while i < keys.len()
            invariant
                i <= keys.len(),
                map == self@.visible.entries,
                forall|k: int|
                    0 <= k < keys.len() ==> map.contains_key(#[trigger] keys@[k]) && lifecycle_of(
                        map[keys@[k]].entry,
                    ) is Some,
                r.len() == i,
                forall|k: int|
                    0 <= k < i ==> (#[trigger] r@[k])@ == projection_of(map[keys@[k]].entry)->0,
            decreases keys.len() - i,
        {
            assert(map.contains_key(keys@[i as int]));
            match self.performance_operation(&OperationId { value: keys[i] }) {
                Some(projection) => {
                    r.push(projection);
                },
                None => {},
            }
            i = i + 1;
        }
        assert(views(r@) =~= projections(map, keys@));
        r
    }

    /// What remains to be done for performance operations after a restart, the oldest first.
    pub fn performance_restart_plan(&self) -> (r: PerformanceRestartPlan)
        ensures
            exists|keys: Seq<u128>|
                lists_restarts(
                    keys,
                    self@.visible.entries,
                    OperationRestartDisposition::Resumable,
                ) && views(r.resumable@) == #[trigger] projections(self@.visible.entries, keys),
            exists|keys: Seq<u128>|
                lists_restarts(
                    keys,
                    self@.visible.entries,
                    OperationRestartDisposition::AppliedUnverified,
                ) && views(r.applied_unverified@) == #[trigger] projections(
                    self@.visible.entries,
                    keys,
                ),
    {
        let resumable = self.restart_keys(OperationRestartDisposition::Resumable);
        let applied = self.restart_keys(OperationRestartDisposition::AppliedUnverified);
        proof {
            assert forall|i: int| 0 <= i < resumable.len() implies
                self@.visible.entries.contains_key(#[trigger] resumable@[i]) && lifecycle_of(
                self@.visible.entries[resumable@[i]].entry,
            ) is Some by {
                assert(resumable@.contains(resumable@[i]));
            }
            assert forall|i: int| 0 <= i < applied.len() implies
                self@.visible.entries.contains_key(#[trigger] applied@[i]) && lifecycle_of(
                self@.visible.entries[applied@[i]].entry,
            ) is Some by {
                assert(applied@.contains(applied@[i]));
            }
        }
        PerformanceRestartPlan {
            resumable: self.restart_projections(&resumable),
            applied_unverified: self.restart_projections(&applied),
        }
    }

    /// Whether a journal answers to a description.
    pub fn any_matching<F: Fn(&OperationJournalEntry) -> bool>(&self, matches: F) -> (r: bool)
        requires
            forall|entry: &OperationJournalEntry| call_requires(matches, (entry,)),
        ensures
            r ==> exists|i: int|
                0 <= i < listed(self@.visible.entries).len() && #[trigger] answers(
                    matches,
                    listed(self@.visible.entries)[i],
                    true,
                ),
            !r ==> forall|i: int|
                0 <= i < listed(self@.visible.entries).len() ==> #[trigger] answers(
                    matches,
                    listed(self@.visible.entries)[i],
                    false,
                ),
    {
        let all = self.list();
        let ghost wanted = listed(self@.visible.entries);
        let mut i: usize = 0;
        while i < all.len()
            invariant
                i <= all.len(),
                wanted == listed(self@.visible.entries),
                views(all@) == wanted,
                forall|entry: &OperationJournalEntry| call_requires(matches, (entry,)),
                forall|k: int| 0 <= k < i ==> #[trigger] answers(matches, wanted[k], false),
            decreases all.len() - i,
        {
            let entry = &all[i];
            assert(wanted[i as int] == entry@);
            let found = matches(entry);
            assert(answers(matches, wanted[i as int], found));
            if found {
                return true;
            }
            i = i + 1;
        }
        assert(all.len() == wanted.len());
        false
    }

    /// The journals that answer to a description, in the order of their operations.
    pub fn matching_entries<F: Fn(&OperationJournalEntry) -> bool>(&self, matches: F) -> (r: Vec<
        OperationJournalEntry,
    >)
        requires
            forall|entry: &OperationJournalEntry| call_requires(matches, (entry,)),
        ensures
            exists|given: Seq<bool>| #[trigger]
                answered(matches, listed(self@.visible.entries), given) && views(r@) == selected(
                    listed(self@.visible.entries),
                    given,
                ),
    {
        let all = self.list();
        let ghost wanted = listed(self@.visible.entries);
        let ghost mut given: Seq<bool> = Seq::empty();
        let mut r: Vec<OperationJournalEntry> = Vec::new();
        let mut i: usize = 0;
        assert(wanted.subrange(0, 0) =~= Seq::empty());
        assert(views(r@) =~= selected(wanted.subrange(0, 0), given));
        while i < all.len()
            invariant
                i <= all.len(),
                wanted == listed(self@.visible.entries),
                views(all@) == wanted,
                given.len() == i,
                forall|entry: &OperationJournalEntry| call_requires(matches, (entry,)),
                views(r@) == selected(wanted.subrange(0, i as int), given),
                forall|k: int| 0 <= k < i ==> answers(matches, wanted[k], #[trigger] given[k]),
            decreases all.len() - i,
        {
            let entry = &all[i];
            assert(wanted[i as int] == entry@);
            let found = matches(entry);
            assert(answers(matches, wanted[i as int], found));
            proof {
                let before = given;
                given = given.push(found);
                let upto = wanted.subrange(0, i + 1);
                assert(upto.drop_last() =~= wanted.subrange(0, i as int));
                assert(given.drop_last() =~= before);
                assert(upto.last() == entry@);
            }
            if found {
                let ghost kept = views(r@);
                r.push(entry.duplicate());
                assert(views(r@) =~= kept.push(entry@));
            }
            i = i + 1;
        }
        assert(wanted.subrange(0, wanted.len() as int) =~= wanted);
        assert(all.len() == wanted.len());
        assert(answered(matches, wanted, given));
        r
    }

    /// Acknowledges what a reconciliation published. To acknowledge it again changes nothing.
    pub fn acknowledge_reconciliation_version_bundle_publication(
        &self,
        expected: &ReconciliationTerminal,
        rulings: &LauncherRulings,
    ) -> (r: Result<Acknowledgement, OperationJournalStoreError>)
        ensures
            (match r {
                Ok(made) => Ok((made.terminal@, opt_view(made.draft))),
                Err(error) => Err(error),
            }) == bundle_acknowledged(self@, expected@, rulings@),
    {
        let pending = match &expected.version_bundle_publication {
            Some(publication) => publication.pending,
            None => {
                return Err(
                    OperationJournalStoreError::Validation(
                        OperationJournalValidationError::ReconciliationTerminalMismatch,
                    ),
                );
            },
        };
        let operation_id = expected.attempt.operation_id;
        let wanted = if pending {
            acknowledge(expected)
        } else {
            expected.duplicate()
        };
        let held = match self.visible().entry(&operation_id) {
            Some(entry) => match &entry.reconciliation_terminal {
                Some(terminal) => terminal.same(&wanted),
                None => false,
            },
            None => false,
        };
        if held {
            return Ok(Acknowledgement { terminal: wanted, draft: None });
        }
        if !pending {
            return Err(
                OperationJournalStoreError::Validation(
                    OperationJournalValidationError::ReconciliationTerminalMismatch,
                ),
            );
        }
        let policy = UpdatePolicy {
            post_terminal_obligation: true,
            performance_transition: false,
            allow_expired_terminal: true,
        };
        let mut entry = match self.open_update(&operation_id, policy) {
            Ok(entry) => entry,
            Err(error) => {
                return Err(error);
            },
        };
        let fits = match &entry.reconciliation_terminal {
            Some(terminal) => terminal.same(expected) || terminal.same(&wanted),
            None => false,
        };
        if !fits {
            return Err(
                OperationJournalStoreError::Validation(
                    OperationJournalValidationError::ReconciliationTerminalMismatch,
                ),
            );
        }
        entry.reconciliation_terminal = Some(wanted.duplicate());
        match self.close_update(entry, policy, rulings) {
            Ok(draft) => Ok(Acknowledgement { terminal: wanted, draft: Some(draft) }),
            Err(error) => Err(error),
        }
    }
}

/// Whether a description can give this answer on a journal.
pub open spec fn answers<F: Fn(&OperationJournalEntry) -> bool>(
    matches: F,
    entry: OperationJournalEntryView,
    answer: bool,
) -> bool {
    exists|held: &OperationJournalEntry|
        held@ == entry && #[trigger] call_ensures(matches, (held,), answer)
}

/// Whether a description can give these answers on these journals.
pub open spec fn answered<F: Fn(&OperationJournalEntry) -> bool>(
    matches: F,
    entries: Seq<OperationJournalEntryView>,
    given: Seq<bool>,
) -> bool {
    &&& given.len() == entries.len()
    &&& forall|i: int| 0 <= i < given.len() ==> answers(matches, entries[i], #[trigger] given[i])
}

/// The items whose answer is yes.
pub open spec fn selected(
    items: Seq<OperationJournalEntryView>,
    answers: Seq<bool>,
) -> Seq<OperationJournalEntryView>
    decreases items.len(),
{
    if items.len() == 0 {
        Seq::empty()
    } else if answers.last() {
        selected(items.drop_last(), answers.drop_last()).push(items.last())
    } else {
        selected(items.drop_last(), answers.drop_last())
    }
}

} // verus!

//! The failures that are remembered, in the order of their identities, and which of them are
//! forgotten.

use crate::failure_entry::{
    FailureMemoryValidationError, GuardianFailureMemoryEntry, GuardianFailureMemoryEntryView,
};
use crate::failure_keys::publication_is_pending;
use crate::failure_validation::memory_verdict;
use crate::instants::{parse_timestamp, text_instant};
use crate::record::{list_duplicate, views, Record};
use crate::rulings::{LauncherRulings, LauncherRulingsView};
use crate::temporal::{
    assessment, suppresses, BoundedTemporalDisposition, BoundedTemporalPolicy,
    BoundedTemporalRecord, BoundedTemporalRecordView, BoundedTemporalViolation, ClockView,
};
use crate::text::{
    precedes, same_text, text_less, text_order_irreflexive, text_order_total, text_order_transitive,
};
use vstd::prelude::*;

verus! {

/// The memories of failures.
pub type Memories = Seq<GuardianFailureMemoryEntryView>;

/// Whether memories stand in the order of their identities, each identity once.
pub open spec fn in_key_order(s: Memories) -> bool {
    forall|i: int, j: int| 0 <= i < j < s.len() ==> text_less((#[trigger] s[i]).key, (#[trigger] s[j]).key)
}

/// Whether a failure is remembered under this identity.
pub open spec fn remembers(s: Memories, key: Seq<char>) -> bool {
    exists|i: int| 0 <= i < s.len() && (#[trigger] s[i]).key == key
}

/// What is remembered under this identity.
pub open spec fn memory_of(s: Memories, key: Seq<char>) -> Option<GuardianFailureMemoryEntryView> {
    if remembers(s, key) {
        Some(s[choose|i: int| 0 <= i < s.len() && (#[trigger] s[i]).key == key])
    } else {
        None
    }
}

/// How many identities come before this one.
pub open spec fn key_place(s: Memories, key: Seq<char>) -> int
    decreases s.len(),
{
    if s.len() == 0 {
        0
    } else if text_less(s.last().key, key) {
        s.len() as int
    } else {
        key_place(s.drop_last(), key)
    }
}

/// The memories with one put in, in place of what was remembered under its identity.
pub open spec fn with_memory(s: Memories, entry: GuardianFailureMemoryEntryView) -> Memories {
    let at = key_place(s, entry.key);
    if remembers(s, entry.key) {
        s.update(at, entry)
    } else {
        s.insert(at, entry)
    }
}

/// The times of a memory.
pub open spec fn memory_times(entry: GuardianFailureMemoryEntryView) -> BoundedTemporalRecordView {
    BoundedTemporalRecordView {
        first_observed_at: entry.first_observed_at,
        last_observed_at: entry.last_observed_at,
        suppression_until: entry.suppression_until,
        pending: publication_is_pending(entry),
    }
}

/// What stands for bad times in a memory.
pub open spec fn violation_error(
    violation: BoundedTemporalViolation,
) -> FailureMemoryValidationError {
    match violation {
        BoundedTemporalViolation::MalformedTimestamp => {
            FailureMemoryValidationError::InvalidObservedTimestamp
        },
        BoundedTemporalViolation::ObservationTooFarInFuture => {
            FailureMemoryValidationError::ObservedTimestampTooFarInFuture
        },
        BoundedTemporalViolation::SuppressionWindowOutOfBounds => {
            FailureMemoryValidationError::SuppressionWindowOutOfBounds
        },
    }
}

/// Whether a memory is in force, or what is wrong with it.
pub open spec fn memory_assessment(
    now: ClockView,
    entry: GuardianFailureMemoryEntryView,
    rulings: LauncherRulingsView,
) -> Result<BoundedTemporalDisposition, FailureMemoryValidationError> {
    match memory_verdict(entry, rulings) {
        Err(error) => Err(error),
        Ok(()) => match assessment(now, memory_times(entry)) {
            Ok(disposition) => Ok(disposition),
            Err(violation) => Err(violation_error(violation)),
        },
    }
}

/// Whether a memory is in force.
pub open spec fn memory_is_current(
    now: ClockView,
    entry: GuardianFailureMemoryEntryView,
    rulings: LauncherRulingsView,
) -> bool {
    memory_assessment(now, entry, rulings) == Ok::<_, FailureMemoryValidationError>(
        BoundedTemporalDisposition::Current,
    )
}

/// Whether a memory holds the end of a repair that must not be forgotten yet.
pub open spec fn end_is_in_force(now: ClockView, entry: GuardianFailureMemoryEntryView) -> bool {
    publication_is_pending(entry) || ((entry.reconciliation_terminal is Some
        || entry.persisted_state_repair_terminal is Some) && suppresses(now, memory_times(entry)))
}

/// What decides which memories are forgotten.
pub struct MemoryRules {
    /// The identities that are kept whatever their times.
    pub protected: Set<Seq<char>>,
    pub now: ClockView,
    pub rulings: LauncherRulingsView,
}

/// Whether a memory is kept as far as its times go.
pub open spec fn stays_in_force(rules: MemoryRules, entry: GuardianFailureMemoryEntryView) -> bool {
    rules.protected.contains(entry.key) || memory_is_current(rules.now, entry, rules.rulings)
}

/// The memories that are kept as far as their times go.
pub open spec fn in_force(s: Memories, rules: MemoryRules) -> Memories
    decreases s.len(),
{
    if s.len() == 0 {
        Seq::empty()
    } else if stays_in_force(rules, s.last()) {
        in_force(s.drop_last(), rules).push(s.last())
    } else {
        in_force(s.drop_last(), rules)
    }
}

/// Whether a memory may be forgotten to make room.
pub open spec fn may_be_forgotten(
    rules: MemoryRules,
    entry: GuardianFailureMemoryEntryView,
) -> bool {
    !rules.protected.contains(entry.key) && !end_is_in_force(rules.now, entry)
}

/// When a failure was last observed, in milliseconds.
pub open spec fn last_seen_millis(entry: GuardianFailureMemoryEntryView) -> int {
    match text_instant(entry.last_observed_at) {
        Some(instant) => instant.millis(),
        None => 0,
    }
}

/// Whether one memory is forgotten before another.
pub open spec fn forgotten_before(
    a: GuardianFailureMemoryEntryView,
    b: GuardianFailureMemoryEntryView,
) -> bool {
    last_seen_millis(a) < last_seen_millis(b) || (last_seen_millis(a) == last_seen_millis(b)
        && text_less(a.key, b.key))
}

/// Whether the memory at an index is the next to be forgotten.
pub open spec fn is_next_forgotten(s: Memories, rules: MemoryRules, at: int) -> bool {
    &&& 0 <= at < s.len()
    &&& may_be_forgotten(rules, s[at])
    &&& forall|j: int|
        0 <= j < s.len() && j != at && may_be_forgotten(rules, #[trigger] s[j]) ==> forgotten_before(
            s[at],
            s[j],
        )
}

/// The memories that are left once those last observed longest ago have been forgotten, so that at
/// most `max` are left if that can be.
pub open spec fn thinned(s: Memories, max: nat, rules: MemoryRules) -> Memories
    decreases s.len(),
{
    if s.len() <= max {
        s
    } else if exists|at: int| is_next_forgotten(s, rules, at) {
        thinned(s.remove(choose|at: int| is_next_forgotten(s, rules, at)), max, rules)
    } else {
        s
    }
}

/// The memories that are left: those in force or protected, thinned to at most `max`.
pub open spec fn survivors(s: Memories, max: nat, rules: MemoryRules) -> Memories {
    thinned(in_force(s, rules), max, rules)
}

/// No two memories share an identity in an ordered list.
pub proof fn ordered_keys_are_unique(s: Memories, i: int, j: int)
    requires
        in_key_order(s),
        0 <= i < s.len(),
        0 <= j < s.len(),
        s[i].key == s[j].key,
    ensures
        i == j,
{
    text_order_irreflexive(s[i].key);
}

/// What is remembered under an identity is found at its place.
pub proof fn memory_at(s: Memories, i: int)
    requires
        in_key_order(s),
        0 <= i < s.len(),
    ensures
        memory_of(s, s[i].key) == Some(s[i]),
{
    let j = choose|j: int| 0 <= j < s.len() && (#[trigger] s[j]).key == s[i].key;
    assert(s[i].key == s[i].key);
    ordered_keys_are_unique(s, i, j);
}

proof fn place_divides(s: Memories, key: Seq<char>)
    requires
        in_key_order(s),
    ensures
        0 <= key_place(s, key) <= s.len(),
        forall|i: int| 0 <= i < key_place(s, key) ==> text_less((#[trigger] s[i]).key, key),
        forall|i: int| key_place(s, key) <= i < s.len() ==> !text_less((#[trigger] s[i]).key, key),
    decreases s.len(),
{
    if s.len() > 0 {
        let last = s.len() - 1;
        if text_less(s.last().key, key) {
            assert forall|i: int| 0 <= i < s.len() implies text_less((#[trigger] s[i]).key, key) by {
                if i < last {
                    assert(text_less(s[i].key, s[last].key));
                    text_order_transitive(s[i].key, s[last].key, key);
                }
            }
        } else {
            let rest = s.drop_last();
            assert(in_key_order(rest)) by {
                assert forall|i: int, j: int| 0 <= i < j < rest.len() implies text_less(
                    (#[trigger] rest[i]).key,
                    (#[trigger] rest[j]).key,
                ) by {
                    assert(rest[i] == s[i] && rest[j] == s[j]);
                }
            }
            place_divides(rest, key);
            assert forall|i: int| 0 <= i < key_place(s, key) implies text_less(
                (#[trigger] s[i]).key,
                key,
            ) by {
                assert(rest[i] == s[i]);
            }
            assert forall|i: int| key_place(s, key) <= i < s.len() implies !text_less(
                (#[trigger] s[i]).key,
                key,
            ) by {
                if i < last {
                    assert(rest[i] == s[i]);
                }
            }
        }
    }
}

/// Where all before an index come before a key and the one at it does not, that is its place.
proof fn place_is(s: Memories, key: Seq<char>, at: int)
    requires
        in_key_order(s),
        0 <= at <= s.len(),
        forall|i: int| 0 <= i < at ==> text_less((#[trigger] s[i]).key, key),
        at < s.len() ==> !text_less(s[at].key, key),
    ensures
        key_place(s, key) == at,
        remembers(s, key) <==> (at < s.len() && s[at].key == key),
{
    place_divides(s, key);
    let p = key_place(s, key);
    if p < at {
        assert(text_less(s[p].key, key));
    }
    if at < p {
        assert(text_less(s[at].key, key));
    }
    if remembers(s, key) {
        let i = choose|i: int| 0 <= i < s.len() && (#[trigger] s[i]).key == key;
        text_order_irreflexive(key);
        if i < at {
            assert(text_less(s[i].key, key));
        }
        if i > at {
            assert(text_less(s[at].key, s[i].key));
        }
    }
}

proof fn putting_over_keeps_order(s: Memories, entry: GuardianFailureMemoryEntryView)
    requires
        in_key_order(s),
        remembers(s, entry.key),
    ensures
        in_key_order(with_memory(s, entry)),
        with_memory(s, entry).len() == s.len(),
        memory_of(with_memory(s, entry), entry.key) == Some(entry),
        forall|key: Seq<char>|
            key != entry.key ==> #[trigger] memory_of(with_memory(s, entry), key) == memory_of(
                s,
                key,
            ),
{
    let key = entry.key;
    place_divides(s, key);
    let p = key_place(s, key);
    let more = with_memory(s, entry);
    let i = choose|i: int| 0 <= i < s.len() && (#[trigger] s[i]).key == key;
    text_order_irreflexive(key);
    assert(p <= i) by {
        if i < p {
            assert(text_less(s[i].key, key));
        }
    }
    if p < i {
        assert(text_less(s[p].key, s[i].key));
    }
    assert(p == i);
    assert forall|a: int, b: int| 0 <= a < b < more.len() implies text_less(
        (#[trigger] more[a]).key,
        (#[trigger] more[b]).key,
    ) by {
        assert(more[a].key == s[a].key && more[b].key == s[b].key);
        assert(text_less(s[a].key, s[b].key));
    }
    assert(more[p] == entry);
    memory_at(more, p);
    assert forall|other: Seq<char>| other != key implies #[trigger] memory_of(more, other)
        == memory_of(s, other) by {
        if remembers(s, other) {
            let j = choose|j: int| 0 <= j < s.len() && (#[trigger] s[j]).key == other;
            assert(more[j] == s[j]);
            memory_at(more, j);
            memory_at(s, j);
        }
        if remembers(more, other) {
            let j = choose|j: int| 0 <= j < more.len() && (#[trigger] more[j]).key == other;
            assert(more[j] == s[j]);
            memory_at(s, j);
        }
    }
}

proof fn putting_between_keeps_order(s: Memories, entry: GuardianFailureMemoryEntryView)
    requires
        in_key_order(s),
        !remembers(s, entry.key),
    ensures
        in_key_order(with_memory(s, entry)),
        with_memory(s, entry).len() == s.len() + 1,
        memory_of(with_memory(s, entry), entry.key) == Some(entry),
        forall|key: Seq<char>|
            key != entry.key ==> #[trigger] memory_of(with_memory(s, entry), key) == memory_of(
                s,
                key,
            ),
{
    let key = entry.key;
    place_divides(s, key);
    let p = key_place(s, key);
    let more = with_memory(s, entry);
    assert forall|i: int| p <= i < s.len() implies text_less(key, (#[trigger] s[i]).key) by {
        text_order_total(key, s[i].key);
    }
    assert forall|a: int, b: int| 0 <= a < b < more.len() implies text_less(
        (#[trigger] more[a]).key,
        (#[trigger] more[b]).key,
    ) by {
        let fa = if a < p {
            a
        } else {
            a - 1
        };
        let fb = if b < p {
            b
        } else {
            b - 1
        };
        if a != p {
            assert(more[a] == s[fa]);
        }
        if b != p {
            assert(more[b] == s[fb]);
        }
        if a != p && b != p {
            assert(text_less(s[fa].key, s[fb].key));
        }
    }
    assert(more[p] == entry);
    memory_at(more, p);
    assert forall|other: Seq<char>| other != key implies #[trigger] memory_of(more, other)
        == memory_of(s, other) by {
        if remembers(s, other) {
            let j = choose|j: int| 0 <= j < s.len() && (#[trigger] s[j]).key == other;
            let t = if j < p {
                j
            } else {
                j + 1
            };
            assert(more[t] == s[j]);
            memory_at(more, t);
            memory_at(s, j);
        }
        if remembers(more, other) {
            let t = choose|t: int| 0 <= t < more.len() && (#[trigger] more[t]).key == other;
            let j = if t < p {
                t
            } else {
                t - 1
            };
            assert(more[t] == s[j]);
            memory_at(s, j);
        }
    }
}

/// What is put in keeps the order, is found under its identity, and changes nothing else.
pub proof fn putting_in_keeps_order(s: Memories, entry: GuardianFailureMemoryEntryView)
    requires
        in_key_order(s),
    ensures
        in_key_order(with_memory(s, entry)),
        memory_of(with_memory(s, entry), entry.key) == Some(entry),
        with_memory(s, entry).len() == s.len() + if remembers(s, entry.key) {
            0int
        } else {
            1int
        },
        forall|key: Seq<char>|
            key != entry.key ==> #[trigger] memory_of(with_memory(s, entry), key) == memory_of(
                s,
                key,
            ),
{
    if remembers(s, entry.key) {
        putting_over_keeps_order(s, entry);
    } else {
        putting_between_keeps_order(s, entry);
    }
}

/// What is kept as far as its times go is exactly what was remembered and stays in force, in the same
/// order.
pub proof fn in_force_keeps_exactly(s: Memories, rules: MemoryRules)
    requires
        in_key_order(s),
    ensures
        in_key_order(in_force(s, rules)),
        in_force(s, rules).len() <= s.len(),
        forall|entry: GuardianFailureMemoryEntryView| #[trigger]
            in_force(s, rules).contains(entry) <==> s.contains(entry) && stays_in_force(
                rules,
                entry,
            ),
    decreases s.len(),
{
    if s.len() > 0 {
        let rest = s.drop_last();
        let last = s.last();
        assert(in_key_order(rest)) by {
            assert forall|i: int, j: int| 0 <= i < j < rest.len() implies text_less(
                (#[trigger] rest[i]).key,
                (#[trigger] rest[j]).key,
            ) by {
                assert(rest[i] == s[i] && rest[j] == s[j]);
            }
        }
        in_force_keeps_exactly(rest, rules);
        let kept = in_force(rest, rules);
        let all = in_force(s, rules);
        assert forall|i: int| 0 <= i < kept.len() implies text_less(
            (#[trigger] kept[i]).key,
            last.key,
        ) by {
            assert(kept.contains(kept[i]));
            let j = choose|j: int| 0 <= j < rest.len() && rest[j] == kept[i];
            assert(s[j] == kept[i]);
            assert(s[s.len() - 1] == last);
        }
        assert forall|i: int, j: int| 0 <= i < j < all.len() implies text_less(
            (#[trigger] all[i]).key,
            (#[trigger] all[j]).key,
        ) by {
            assert(all[i] == kept[i]);
            if j < kept.len() {
                assert(all[j] == kept[j]);
            }
        }
        assert forall|entry: GuardianFailureMemoryEntryView| #[trigger]
            all.contains(entry) <==> s.contains(entry) && stays_in_force(rules, entry) by {
            if all.contains(entry) {
                let i = choose|i: int| 0 <= i < all.len() && all[i] == entry;
                if i < kept.len() {
                    assert(kept[i] == entry);
                    assert(kept.contains(entry));
                    let j = choose|j: int| 0 <= j < rest.len() && rest[j] == entry;
                    assert(s[j] == entry);
                } else {
                    assert(entry == last);
                    assert(s[s.len() - 1] == entry);
                }
            }
            if s.contains(entry) && stays_in_force(rules, entry) {
                let j = choose|j: int| 0 <= j < s.len() && s[j] == entry;
                if j < rest.len() {
                    assert(rest[j] == entry);
                    assert(rest.contains(entry));
                    assert(kept.contains(entry));
                    let i = choose|i: int| 0 <= i < kept.len() && kept[i] == entry;
                    assert(all[i] == entry);
                } else {
                    assert(all[kept.len() as int] == entry);
                }
            }
        }
    }
}

proof fn removing_keeps_order(s: Memories, at: int)
    requires
        in_key_order(s),
        0 <= at < s.len(),
    ensures
        in_key_order(s.remove(at)),
        forall|entry: GuardianFailureMemoryEntryView| #[trigger]
            s.remove(at).contains(entry) <==> s.contains(entry) && entry.key != s[at].key,
{
    let less = s.remove(at);
    assert forall|i: int, j: int| 0 <= i < j < less.len() implies text_less(
        (#[trigger] less[i]).key,
        (#[trigger] less[j]).key,
    ) by {
        let fi = if i < at {
            i
        } else {
            i + 1
        };
        let fj = if j < at {
            j
        } else {
            j + 1
        };
        assert(less[i] == s[fi] && less[j] == s[fj]);
    }
    assert forall|entry: GuardianFailureMemoryEntryView| #[trigger]
        less.contains(entry) <==> s.contains(entry) && entry.key != s[at].key by {
        if less.contains(entry) {
            let i = choose|i: int| 0 <= i < less.len() && less[i] == entry;
            let f = if i < at {
                i
            } else {
                i + 1
            };
            assert(s[f] == entry);
            if entry.key == s[at].key {
                ordered_keys_are_unique(s, f, at);
            }
        }
        if s.contains(entry) && entry.key != s[at].key {
            let j = choose|j: int| 0 <= j < s.len() && s[j] == entry;
            let t = if j < at {
                j
            } else {
                j - 1
            };
            assert(less[t] == entry);
        }
    }
}

/// There is only one memory that is the next to be forgotten.
proof fn next_forgotten_is_unique(s: Memories, rules: MemoryRules, a: int, b: int)
    requires
        is_next_forgotten(s, rules, a),
        is_next_forgotten(s, rules, b),
    ensures
        a == b,
{
    if a != b {
        assert(forgotten_before(s[a], s[b]));
        assert(forgotten_before(s[b], s[a]));
        text_order_transitive(s[a].key, s[b].key, s[a].key);
        text_order_irreflexive(s[a].key);
    }
}

/// Thinning keeps the order and forgets nothing that must be kept: neither a protected memory nor
/// one whose end is in force.
pub proof fn thinning_keeps_what_must_stay(s: Memories, max: nat, rules: MemoryRules)
    requires
        in_key_order(s),
    ensures
        in_key_order(thinned(s, max, rules)),
        thinned(s, max, rules).len() <= s.len(),
        forall|entry: GuardianFailureMemoryEntryView| #[trigger]
            thinned(s, max, rules).contains(entry) ==> s.contains(entry),
        forall|entry: GuardianFailureMemoryEntryView| #[trigger]
            s.contains(entry) && !may_be_forgotten(rules, entry) ==> thinned(
                s,
                max,
                rules,
            ).contains(entry),
    decreases s.len(),
{
    if s.len() > max && exists|at: int| is_next_forgotten(s, rules, at) {
        let at = choose|at: int| is_next_forgotten(s, rules, at);
        removing_keeps_order(s, at);
        thinning_keeps_what_must_stay(s.remove(at), max, rules);
        assert forall|entry: GuardianFailureMemoryEntryView| #[trigger]
            s.contains(entry) && !may_be_forgotten(rules, entry) implies thinned(
            s,
            max,
            rules,
        ).contains(entry) by {
            if entry.key == s[at].key {
                let j = choose|j: int| 0 <= j < s.len() && s[j] == entry;
                ordered_keys_are_unique(s, j, at);
            }
            assert(s.remove(at).contains(entry));
        }
    }
}

/// Thinning forgets the memories last observed longest ago first.
pub proof fn thinning_forgets_the_oldest(
    s: Memories,
    max: nat,
    rules: MemoryRules,
    gone: GuardianFailureMemoryEntryView,
    kept: GuardianFailureMemoryEntryView,
)
    requires
        in_key_order(s),
        s.contains(gone),
        !thinned(s, max, rules).contains(gone),
        thinned(s, max, rules).contains(kept),
        may_be_forgotten(rules, kept),
    ensures
        forgotten_before(gone, kept),
    decreases s.len(),
{
    let at = choose|at: int| is_next_forgotten(s, rules, at);
    assert(is_next_forgotten(s, rules, at));
    removing_keeps_order(s, at);
    let less = s.remove(at);
    thinning_keeps_what_must_stay(less, max, rules);
    assert(less.contains(kept));
    if gone.key == s[at].key {
        let j = choose|j: int| 0 <= j < s.len() && s[j] == gone;
        ordered_keys_are_unique(s, j, at);
        let k = choose|k: int| 0 <= k < s.len() && s[k] == kept;
        assert(may_be_forgotten(rules, s[k]));
        assert(k != at);
    } else {
        assert(less.contains(gone));
        thinning_forgets_the_oldest(less, max, rules, gone, kept);
    }
}

/// Thinning forgets no more than it has to.
pub proof fn thinning_fills_the_bound(s: Memories, max: nat, rules: MemoryRules)
    ensures
        thinned(s, max, rules).len() >= (if s.len() <= max {
            s.len()
        } else {
            max
        }),
    decreases s.len(),
{
    if s.len() > max && exists|at: int| is_next_forgotten(s, rules, at) {
        let at = choose|at: int| is_next_forgotten(s, rules, at);
        thinning_fills_the_bound(s.remove(at), max, rules);
    }
}

/// The times of a memory.
pub fn temporal_record<'a>(entry: &'a GuardianFailureMemoryEntry) -> (r: BoundedTemporalRecord<'a>)
    ensures
        r@ == memory_times(entry@),
{
    BoundedTemporalRecord {
        first_observed_at: entry.first_observed_at.as_str(),
        last_observed_at: entry.last_observed_at.as_str(),
        suppression_until: match &entry.suppression_until {
            Some(text) => Some(text.as_str()),
            None => None,
        },
        pending: entry.has_pending_publication(),
    }
}

/// Whether a memory is in force, or what is wrong with it.
pub fn assess_temporal(
    temporal: &BoundedTemporalPolicy,
    entry: &GuardianFailureMemoryEntry,
    rulings: &LauncherRulings,
) -> (r: Result<BoundedTemporalDisposition, FailureMemoryValidationError>)
    ensures
        r == memory_assessment(temporal@, entry@, rulings@),
{
    match entry.validate(rulings) {
        Ok(()) => {},
        Err(error) => {
            return Err(error);
        },
    }
    match temporal.assess(temporal_record(entry)) {
        Ok(disposition) => Ok(disposition),
        Err(BoundedTemporalViolation::MalformedTimestamp) => Err(
            FailureMemoryValidationError::InvalidObservedTimestamp,
        ),
        Err(BoundedTemporalViolation::ObservationTooFarInFuture) => Err(
            FailureMemoryValidationError::ObservedTimestampTooFarInFuture,
        ),
        Err(BoundedTemporalViolation::SuppressionWindowOutOfBounds) => Err(
            FailureMemoryValidationError::SuppressionWindowOutOfBounds,
        ),
    }
}

/// Whether a memory holds the end of a repair that must not be forgotten yet.
pub fn active_durable_terminal(
    entry: &GuardianFailureMemoryEntry,
    temporal: &BoundedTemporalPolicy,
) -> (r: bool)
    ensures
        r == end_is_in_force(temporal@, entry@),
{
    entry.has_pending_publication() || ((entry.reconciliation_terminal.is_some()
        || entry.persisted_state_repair_terminal.is_some()) && temporal.suppression_active(
        temporal_record(entry),
    ))
}

/// Whether a list of identities holds one.
pub fn lists_memory_key(keys: &Vec<String>, key: &str) -> (r: bool)
    ensures
        r == views(keys@).contains(key@),
{
    let mut i: usize = 0;
    while i < keys.len()
        invariant
            i <= keys.len(),
            forall|k: int| 0 <= k < i ==> (#[trigger] views(keys@)[k]) != key@,
        decreases keys.len() - i,
    {
        assert(views(keys@)[i as int] == keys@[i as int]@);
        if same_text(keys[i].as_str(), key) {
            assert(views(keys@)[i as int] == key@);
            return true;
        }
        i = i + 1;
    }
    assert forall|k: int| 0 <= k < views(keys@).len() implies views(keys@)[k] != key@ by {}
    false
}

/// The rules under which these identities are kept.
pub open spec fn protecting(
    protected: Seq<Seq<char>>,
    now: ClockView,
    rulings: LauncherRulingsView,
) -> MemoryRules {
    MemoryRules { protected: protected.to_set(), now, rulings }
}

/// The failures that are remembered, in the order of their identities.
pub struct FailureRecords {
    entries: Vec<GuardianFailureMemoryEntry>,
}

impl View for FailureRecords {
    type V = Memories;

    closed spec fn view(&self) -> Memories {
        views(self.entries@)
    }
}

impl FailureRecords {
    #[verifier::type_invariant]
    spec fn well_formed(self) -> bool {
        in_key_order(views(self.entries@))
    }

    /// No failures.
    pub fn new() -> (r: FailureRecords)
        ensures
            r@ == Seq::<GuardianFailureMemoryEntryView>::empty(),
            in_key_order(r@),
    {
        let r = FailureRecords { entries: Vec::new() };
        assert(r@ =~= Seq::empty());
        r
    }

    /// The memories again.
    pub fn duplicate(&self) -> (r: FailureRecords)
        ensures
            r@ == self@,
            in_key_order(r@),
    {
        proof {
            use_type_invariant(self);
        }
        FailureRecords { entries: list_duplicate(&self.entries) }
    }

    /// How many failures are remembered.
    pub fn len(&self) -> (r: usize)
        ensures
            r == self@.len(),
            in_key_order(self@),
    {
        proof {
            use_type_invariant(self);
        }
        self.entries.len()
    }

    /// The memory at an index.
    pub fn at(&self, i: usize) -> (r: &GuardianFailureMemoryEntry)
        requires
            i < self@.len(),
        ensures
            r@ == self@[i as int],
    {
        &self.entries[i]
    }

    /// All memories, in the order of their identities.
    pub fn list(&self) -> (r: Vec<GuardianFailureMemoryEntry>)
        ensures
            views(r@) == self@,
            in_key_order(self@),
    {
        proof {
            use_type_invariant(self);
        }
        list_duplicate(&self.entries)
    }

    fn place(&self, key: &str) -> (r: usize)
        ensures
            r == key_place(self@, key@),
            r <= self@.len(),
            remembers(self@, key@) <==> (r < self@.len() && self@[r as int].key == key@),
            in_key_order(self@),
    {
        proof {
            use_type_invariant(self);
        }
        let mut i: usize = 0;
        while i < self.entries.len() && precedes(self.entries[i].key.as_str(), key)
            invariant
                i <= self.entries.len(),
                forall|k: int| 0 <= k < i ==> text_less((#[trigger] self@[k]).key, key@),
            decreases self.entries.len() - i,
        {
            assert(self@[i as int].key == self.entries@[i as int]@.key);
            i = i + 1;
        }
        proof {
            if i < self.entries.len() {
                assert(self@[i as int].key == self.entries@[i as int]@.key);
            }
            place_is(self@, key@, i as int);
        }
        i
    }

    /// What is remembered under an identity.
    pub fn get(&self, key: &str) -> (r: Option<&GuardianFailureMemoryEntry>)
        ensures
            (match r {
                Some(entry) => Some(entry@),
                None => None,
            }) == memory_of(self@, key@),
            in_key_order(self@),
    {
        let i: usize = self.place(key);
        if i < self.entries.len() && same_text(self.entries[i].key.as_str(), key) {
            proof {
                assert(self@[i as int] == self.entries@[i as int]@);
                memory_at(self@, i as int);
            }
            Some(&self.entries[i])
        } else {
            proof {
                if i < self.entries.len() {
                    assert(self@[i as int] == self.entries@[i as int]@);
                }
            }
            None
        }
    }

    /// Puts a memory in, in place of what was remembered under its identity.
    pub fn insert(&mut self, entry: GuardianFailureMemoryEntry)
        ensures
            final(self)@ == with_memory(old(self)@, entry@),
            in_key_order(final(self)@),
    {
        let at: usize = self.place(entry.key.as_str());
        let replaces = at < self.entries.len() && self.entries[at].key.same(&entry.key);
        let ghost before = self@;
        proof {
            if at < self.entries.len() {
                assert(before[at as int] == self.entries@[at as int]@);
            }
            putting_in_keeps_order(before, entry@);
        }
        let mut entries = list_duplicate(&self.entries);
        if replaces {
            entries.set(at, entry);
            assert(views(entries@) =~= before.update(at as int, entry@));
        } else {
            entries.insert(at, entry);
            assert(views(entries@) =~= before.insert(at as int, entry@));
        }
        *self = FailureRecords { entries };
    }

    /// Forgets what is neither protected nor in force.
    pub fn retain_in_force(
        &mut self,
        protected: &Vec<String>,
        temporal: &BoundedTemporalPolicy,
        rulings: &LauncherRulings,
    )
        ensures
            final(self)@ == in_force(
                old(self)@,
                protecting(views(protected@), temporal@, rulings@),
            ),
            in_key_order(final(self)@),
    {
        proof {
            use_type_invariant(&*self);
        }
        let ghost before = self@;
        let ghost rules = protecting(views(protected@), temporal@, rulings@);
        let mut kept: Vec<GuardianFailureMemoryEntry> = Vec::new();
        let mut i: usize = 0;
        assert(before.subrange(0, 0) =~= Seq::empty());
        assert(views(kept@) =~= in_force(before.subrange(0, 0), rules));
        while i < self.entries.len()
            invariant
                i <= self.entries.len(),
                before == self@,
                self@ == old(self)@,
                before == views(self.entries@),
                rules == protecting(views(protected@), temporal@, rulings@),
                views(kept@) == in_force(before.subrange(0, i as int), rules),
            decreases self.entries.len() - i,
        {
            let entry = &self.entries[i];
            let ghost upto = before.subrange(0, i + 1);
            assert(upto.drop_last() =~= before.subrange(0, i as int));
            assert(upto.last() == entry@);
            let current = match assess_temporal(temporal, entry, rulings) {
                Ok(BoundedTemporalDisposition::Current) => true,
                _ => false,
            };
            if lists_memory_key(protected, entry.key.as_str()) || current {
                let ghost held = views(kept@);
                kept.push(entry.duplicate());
                assert(views(kept@) =~= held.push(entry@));
            }
            i = i + 1;
        }
        proof {
            assert(before.subrange(0, before.len() as int) =~= before);
            in_force_keeps_exactly(before, rules);
        }
        *self = FailureRecords { entries: kept };
    }

    /// The next memory to be forgotten, if one may be.
    fn next_forgotten(
        &self,
        protected: &Vec<String>,
        temporal: &BoundedTemporalPolicy,
        Ghost(rulings): Ghost<LauncherRulingsView>,
    ) -> (r: Option<usize>)
        ensures
            match r {
                Some(at) => is_next_forgotten(
                    self@,
                    protecting(views(protected@), temporal@, rulings),
                    at as int,
                ),
                None => forall|at: int|
                    !is_next_forgotten(
                        self@,
                        protecting(views(protected@), temporal@, rulings),
                        at,
                    ),
            },
    {
        proof {
            use_type_invariant(self);
        }
        let ghost s = self@;
        let ghost rules = protecting(views(protected@), temporal@, rulings);
        let mut best: Option<(usize, i128)> = None;
        let mut i: usize = 0;
        while i < self.entries.len()
            invariant
                i <= self.entries.len(),
                s == self@,
                in_key_order(s),
                rules == protecting(views(protected@), temporal@, rulings),
                match best {
                    Some((at, millis)) => {
                        &&& at < i
                        &&& millis == last_seen_millis(s[at as int])
                        &&& may_be_forgotten(rules, s[at as int])
                        &&& forall|j: int|
                            0 <= j < i && j != at && may_be_forgotten(rules, #[trigger] s[j])
                                ==> forgotten_before(s[at as int], s[j])
                    },
                    None => forall|j: int| 0 <= j < i ==> !may_be_forgotten(rules, #[trigger] s[j]),
                },
            decreases self.entries.len() - i,
        {
            let entry = &self.entries[i];
            assert(s[i as int] == entry@);
            let leaves = !lists_memory_key(protected, entry.key.as_str())
                && !active_durable_terminal(entry, temporal);
            assert(leaves == may_be_forgotten(rules, s[i as int]));
            if leaves {
                let millis: i128 = match parse_timestamp(entry.last_observed_at.as_str()) {
                    Some(instant) => instant.timestamp_millis(),
                    None => 0,
                };
                let take = match best {
                    Some((_, held)) => millis < held,
                    None => true,
                };
                proof {
                    if let Some((at, _)) = best {
                        assert(text_less(s[at as int].key, s[i as int].key));
                    }
                }
                if take {
                    best = Some((i, millis));
                }
            }
            i = i + 1;
        }
        match best {
            Some((at, _)) => Some(at),
            None => None,
        }
    }

    /// Forgets what is neither protected nor in force, and then the memories last observed longest
    /// ago, until at most `max_entries` are left. Says whether that could be done.
    pub fn prune_protecting(
        &mut self,
        max_entries: usize,
        protected: &Vec<String>,
        temporal: &BoundedTemporalPolicy,
        rulings: &LauncherRulings,
    ) -> (r: bool)
        ensures
            final(self)@ == survivors(
                old(self)@,
                max_entries as nat,
                protecting(views(protected@), temporal@, rulings@),
            ),
            r == (final(self)@.len() <= max_entries),
            in_key_order(final(self)@),
    {
        let ghost rules = protecting(views(protected@), temporal@, rulings@);
        let ghost start = in_force(self@, rules);
        self.retain_in_force(protected, temporal, rulings);
        let mut stuck = false;
        while !stuck && self.len() > max_entries
            invariant
                rules == protecting(views(protected@), temporal@, rulings@),
                start == in_force(old(self)@, rules),
                in_key_order(self@),
                thinned(start, max_entries as nat, rules) == thinned(
                    self@,
                    max_entries as nat,
                    rules,
                ),
                stuck ==> thinned(self@, max_entries as nat, rules) == self@ && self@.len()
                    > max_entries,
            decreases self@.len(), if stuck { 0int } else { 1int },
        {
            match self.next_forgotten(protected, temporal, Ghost(rulings@)) {
                Some(at) => {
                    proof {
                        let chosen = choose|i: int| is_next_forgotten(self@, rules, i);
                        next_forgotten_is_unique(self@, rules, chosen, at as int);
                        removing_keeps_order(self@, at as int);
                    }
                    let ghost held = self@;
                    let mut entries = list_duplicate(&self.entries);
                    let _ = entries.remove(at);
                    assert(views(entries@) =~= held.remove(at as int));
                    *self = FailureRecords { entries };
                },
                None => {
                    stuck = true;
                },
            }
        }
        !stuck
    }
}

} // verus!

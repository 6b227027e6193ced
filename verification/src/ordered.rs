//! Finite sets of numbers as ascending lists.

use vstd::prelude::*;

verus! {

/// Whether a list is strictly ascending.
pub open spec fn strictly_ascending(keys: Seq<u128>) -> bool {
    forall|i: int, j: int| 0 <= i < j < keys.len() ==> keys[i] < keys[j]
}

/// Whether a list holds exactly the keys of a set, in ascending order.
pub open spec fn lists(keys: Seq<u128>, set: Set<u128>) -> bool {
    &&& strictly_ascending(keys)
    &&& forall|key: u128| #[trigger] keys.contains(key) <==> set.contains(key)
}

/// The keys of a set in ascending order.
pub open spec fn ascending(set: Set<u128>) -> Seq<u128> {
    choose|keys: Seq<u128>| lists(keys, set)
}

/// There is only one ascending list of the keys of a set.
pub proof fn listing_is_unique(a: Seq<u128>, b: Seq<u128>, set: Set<u128>)
    requires
        lists(a, set),
        lists(b, set),
    ensures
        a == b,
    decreases a.len(),
{
    if a.len() == 0 {
        if b.len() > 0 {
            assert(b.contains(b[0]));
            assert(a.contains(b[0]));
        }
        assert(a =~= b);
    } else {
        assert(a.contains(a.last()));
        assert(b.contains(a.last()));
        assert(b.contains(b.last()));
        assert(a.contains(b.last()));
        let i = choose|i: int| 0 <= i < b.len() && b[i] == a.last();
        let j = choose|j: int| 0 <= j < a.len() && a[j] == b.last();
        assert(a.last() == b.last()) by {
            if i < b.len() - 1 {
                assert(b[i] < b[b.len() - 1]);
                assert(j < a.len() - 1 ==> a[j] < a[a.len() - 1]);
            }
        }
        let last = a.last();
        let rest = set.remove(last);
        drop_last_lists(a, set);
        drop_last_lists(b, set);
        listing_is_unique(a.drop_last(), b.drop_last(), rest);
        assert(a =~= a.drop_last().push(last));
        assert(b =~= b.drop_last().push(last));
    }
}

proof fn drop_last_lists(keys: Seq<u128>, set: Set<u128>)
    requires
        lists(keys, set),
        keys.len() > 0,
    ensures
        lists(keys.drop_last(), set.remove(keys.last())),
{
    let rest = keys.drop_last();
    assert forall|key: u128| #[trigger] rest.contains(key) <==> set.remove(keys.last()).contains(
        key,
    ) by {
        if rest.contains(key) {
            let i = choose|i: int| 0 <= i < rest.len() && rest[i] == key;
            assert(keys[i] == key);
            assert(keys.contains(key));
            assert(keys[i] < keys[keys.len() - 1]);
        }
        if set.remove(keys.last()).contains(key) {
            assert(keys.contains(key));
            let i = choose|i: int| 0 <= i < keys.len() && keys[i] == key;
            assert(rest[i] == key);
        }
    }
}

/// What an ascending list lists is finite, and as large as the list is long.
pub proof fn listed_set_is_finite(keys: Seq<u128>, set: Set<u128>)
    requires
        lists(keys, set),
    ensures
        set.finite(),
        set.len() == keys.len(),
    decreases keys.len(),
{
    if keys.len() == 0 {
        assert forall|key: u128| !set.contains(key) by {
            assert(!keys.contains(key));
        }
        assert(set =~= Set::empty());
    } else {
        let last = keys.last();
        drop_last_lists(keys, set);
        listed_set_is_finite(keys.drop_last(), set.remove(last));
        assert(keys.contains(last));
        assert(set =~= set.remove(last).insert(last));
    }
}

/// How many keys of an ascending list lie before a key.
pub open spec fn place(keys: Seq<u128>, key: u128) -> int
    decreases keys.len(),
{
    if keys.len() == 0 {
        0
    } else if keys.last() < key {
        keys.len() as int
    } else {
        place(keys.drop_last(), key)
    }
}

proof fn place_parts(keys: Seq<u128>, key: u128)
    requires
        strictly_ascending(keys),
        !keys.contains(key),
    ensures
        0 <= place(keys, key) <= keys.len(),
        forall|i: int| 0 <= i < place(keys, key) ==> keys[i] < key,
        forall|i: int| place(keys, key) <= i < keys.len() ==> keys[i] > key,
    decreases keys.len(),
{
    if keys.len() > 0 && !(keys.last() < key) {
        let rest = keys.drop_last();
        assert(!rest.contains(key)) by {
            if rest.contains(key) {
                let i = choose|i: int| 0 <= i < rest.len() && rest[i] == key;
                assert(keys[i] == key);
            }
        }
        place_parts(rest, key);
        assert(keys.contains(keys[keys.len() - 1]));
        assert forall|i: int| 0 <= i < place(keys, key) implies keys[i] < key by {
            assert(rest[i] == keys[i]);
        }
        assert forall|i: int| place(keys, key) <= i < keys.len() implies keys[i] > key by {
            if i < rest.len() {
                assert(rest[i] == keys[i]);
            }
        }
    }
}

/// A new key put in its place keeps an ascending list ascending.
proof fn insertion_lists(keys: Seq<u128>, set: Set<u128>, key: u128)
    requires
        lists(keys, set),
        !set.contains(key),
    ensures
        lists(keys.insert(place(keys, key), key), set.insert(key)),
{
    assert(!keys.contains(key));
    place_parts(keys, key);
    let p = place(keys, key);
    let more = keys.insert(p, key);
    assert forall|i: int, j: int| 0 <= i < j < more.len() implies more[i] < more[j] by {
        assert(more[i] == (if i < p {
            keys[i]
        } else if i == p {
            key
        } else {
            keys[i - 1]
        }));
        assert(more[j] == (if j < p {
            keys[j]
        } else if j == p {
            key
        } else {
            keys[j - 1]
        }));
    }
    assert forall|other: u128| #[trigger] more.contains(other) <==> set.insert(key).contains(
        other,
    ) by {
        if more.contains(other) && other != key {
            let i = choose|i: int| 0 <= i < more.len() && more[i] == other;
            let at = if i < p {
                i
            } else {
                i - 1
            };
            assert(keys[at] == other);
            assert(keys.contains(other));
        }
        if set.insert(key).contains(other) {
            if other == key {
                assert(more[p] == key);
            } else {
                assert(keys.contains(other));
                let i = choose|i: int| 0 <= i < keys.len() && keys[i] == other;
                let at = if i < p {
                    i
                } else {
                    i + 1
                };
                assert(more[at] == other);
            }
        }
    }
}

/// Every finite set has its ascending list.
pub proof fn ascending_lists(set: Set<u128>)
    requires
        set.finite(),
    ensures
        lists(ascending(set), set),
    decreases set.len(),
{
    if set.len() == 0 {
        assert(set =~= Set::empty());
        assert(lists(Seq::<u128>::empty(), set));
    } else {
        let key = set.choose();
        let rest = set.remove(key);
        ascending_lists(rest);
        insertion_lists(ascending(rest), rest, key);
        assert(rest.insert(key) =~= set);
        assert(lists(ascending(rest).insert(place(ascending(rest), key), key), set));
    }
}

/// The list of a set without one of its keys is the list without that key.
pub proof fn removal_lists(keys: Seq<u128>, set: Set<u128>, at: int)
    requires
        lists(keys, set),
        0 <= at < keys.len(),
    ensures
        lists(keys.remove(at), set.remove(keys[at])),
        keys.remove(at) == ascending(set.remove(keys[at])),
{
    let key = keys[at];
    let less = keys.remove(at);
    assert forall|i: int, j: int| 0 <= i < j < less.len() implies less[i] < less[j] by {
        assert(less[i] == keys[if i < at {
            i
        } else {
            i + 1
        }]);
        assert(less[j] == keys[if j < at {
            j
        } else {
            j + 1
        }]);
    }
    assert forall|other: u128| #[trigger] less.contains(other) <==> set.remove(key).contains(
        other,
    ) by {
        if less.contains(other) {
            let i = choose|i: int| 0 <= i < less.len() && less[i] == other;
            let from = if i < at {
                i
            } else {
                i + 1
            };
            assert(keys[from] == other);
            assert(keys.contains(other));
            assert(from < at ==> keys[from] < keys[at]);
            assert(from > at ==> keys[at] < keys[from]);
        }
        if set.remove(key).contains(other) {
            assert(keys.contains(other));
            let i = choose|i: int| 0 <= i < keys.len() && keys[i] == other;
            let to = if i < at {
                i
            } else {
                i - 1
            };
            assert(less[to] == other);
        }
    }
    listing_is_unique(less, ascending(set.remove(key)), set.remove(key));
}

} // verus!

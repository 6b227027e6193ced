//! The first place in a list where something holds, and the items of a list of which it holds.

use vstd::prelude::*;

verus! {

/// The first place where something holds; the length of the list where it holds nowhere.
pub open spec fn first_place<A>(s: Seq<A>, wanted: spec_fn(A) -> bool) -> int
    decreases s.len(),
{
    if s.len() == 0 {
        0
    } else if wanted(s[0]) {
        0
    } else {
        1 + first_place(s.subrange(1, s.len() as int), wanted)
    }
}

/// The items of which something holds, in order.
pub open spec fn kept<A>(s: Seq<A>, wanted: spec_fn(A) -> bool) -> Seq<A>
    decreases s.len(),
{
    if s.len() == 0 {
        Seq::empty()
    } else if wanted(s.last()) {
        kept(s.drop_last(), wanted).push(s.last())
    } else {
        kept(s.drop_last(), wanted)
    }
}

/// The first place is the only one of its kind.
pub proof fn first_place_is<A>(s: Seq<A>, wanted: spec_fn(A) -> bool, n: int)
    requires
        0 <= n <= s.len(),
        forall|i: int| 0 <= i < n ==> !wanted(#[trigger] s[i]),
        n < s.len() ==> wanted(s[n]),
    ensures
        first_place(s, wanted) == n,
    decreases s.len(),
{
    if s.len() > 0 && n > 0 {
        let rest = s.subrange(1, s.len() as int);
        assert(!wanted(s[0]));
        assert forall|i: int| 0 <= i < n - 1 implies !wanted(#[trigger] rest[i]) by {
            assert(rest[i] == s[i + 1]);
        }
        if n < s.len() {
            assert(rest[n - 1] == s[n]);
        }
        first_place_is(rest, wanted, n - 1);
    }
}

/// Something holds at the first place, and nowhere before it.
pub proof fn first_place_found<A>(s: Seq<A>, wanted: spec_fn(A) -> bool)
    ensures
        0 <= first_place(s, wanted) <= s.len(),
        forall|i: int| 0 <= i < first_place(s, wanted) ==> !wanted(#[trigger] s[i]),
        first_place(s, wanted) < s.len() ==> wanted(s[first_place(s, wanted)]),
    decreases s.len(),
{
    if s.len() > 0 && !wanted(s[0]) {
        let rest = s.subrange(1, s.len() as int);
        first_place_found(rest, wanted);
        assert forall|i: int| 0 <= i < first_place(s, wanted) implies !wanted(#[trigger] s[i]) by {
            if i > 0 {
                assert(rest[i - 1] == s[i]);
            }
        }
        let p = first_place(rest, wanted);
        if p < rest.len() {
            assert(rest[p] == s[p + 1]);
        }
    }
}

/// What is kept is in the list, and something holds of it; and all of which it holds is kept.
pub proof fn kept_are<A>(s: Seq<A>, wanted: spec_fn(A) -> bool)
    ensures
        kept(s, wanted).len() <= s.len(),
        forall|i: int|
            0 <= i < kept(s, wanted).len() ==> wanted(#[trigger] kept(s, wanted)[i]) && s.contains(
                kept(s, wanted)[i],
            ),
        forall|j: int|
            0 <= j < s.len() && wanted(#[trigger] s[j]) ==> kept(s, wanted).contains(s[j]),
    decreases s.len(),
{
    if s.len() > 0 {
        let rest = s.drop_last();
        let k = kept(s, wanted);
        let r = kept(rest, wanted);
        kept_are(rest, wanted);
        assert forall|i: int| 0 <= i < k.len() implies wanted(#[trigger] k[i]) && s.contains(
            k[i],
        ) by {
            if i < r.len() {
                assert(k[i] == r[i]);
                let j = choose|j: int| 0 <= j < rest.len() && rest[j] == r[i];
                assert(s[j] == k[i]);
            } else {
                assert(s[s.len() - 1] == k[i]);
            }
        }
        assert forall|j: int| 0 <= j < s.len() && wanted(#[trigger] s[j]) implies k.contains(
            s[j],
        ) by {
            if j < rest.len() {
                assert(rest[j] == s[j]);
                assert(r.contains(rest[j]));
                let i = choose|i: int| 0 <= i < r.len() && r[i] == s[j];
                assert(k[i] == s[j]);
            } else {
                assert(k[k.len() - 1] == s[j]);
            }
        }
    }
}

} // verus!

//! Values that are known by a mathematical model, which tells how they are compared and duplicated.

use vstd::prelude::*;

verus! {

/// The models of the items of a list, in order.
pub open spec fn views<T: View>(items: Seq<T>) -> Seq<T::V> {
    Seq::new(items.len(), |i: int| items[i]@)
}

/// The model of an optional value.
pub open spec fn opt_view<T: View>(item: Option<T>) -> Option<T::V> {
    match item {
        Some(value) => Some(value@),
        None => None,
    }
}

/// A value that is known by its model: it can be compared and duplicated.
pub trait Record: View + Sized {
    /// Whether the two values have the same model.
    fn same(&self, other: &Self) -> (r: bool)
        ensures
            r == (self@ == other@),
    ;

    /// A second value with the same model.
    fn duplicate(&self) -> (r: Self)
        ensures
            r@ == self@,
    ;
}

impl Record for u64 {
    fn same(&self, other: &Self) -> (r: bool) {
        *self == *other
    }

    fn duplicate(&self) -> (r: Self) {
        *self
    }
}

impl Record for String {
    fn same(&self, other: &Self) -> (r: bool) {
        *self == *other
    }

    fn duplicate(&self) -> (r: Self) {
        self.clone()
    }
}

/// Whether two lists hold items with the same models in the same order.
pub fn list_same<T: Record>(left: &Vec<T>, right: &Vec<T>) -> (r: bool)
    ensures
        r == (views(left@) == views(right@)),
{
    if left.len() != right.len() {
        assert(views(left@).len() != views(right@).len());
        return false;
    }
    let mut i: usize = 0;
    while i < left.len()
        invariant
            i <= left.len(),
            left.len() == right.len(),
            forall|k: int| 0 <= k < i ==> left@[k]@ == right@[k]@,
        decreases left.len() - i,
    {
        if !left[i].same(&right[i]) {
            assert(views(left@)[i as int] != views(right@)[i as int]);
            return false;
        }
        i = i + 1;
    }
    assert(views(left@) =~= views(right@));
    true
}

/// A list with the same models.
pub fn list_duplicate<T: Record>(items: &Vec<T>) -> (r: Vec<T>)
    ensures
        views(r@) == views(items@),
{
    let mut r: Vec<T> = Vec::new();
    let mut i: usize = 0;
    while i < items.len()
        invariant
            i <= items.len(),
            r.len() == i,
            forall|k: int| 0 <= k < i ==> r@[k]@ == items@[k]@,
        decreases items.len() - i,
    {
        r.push(items[i].duplicate());
        i = i + 1;
    }
    assert(views(r@) =~= views(items@));
    r
}

/// Whether a list holds an item with the model of `item`.
pub fn list_has<T: Record>(items: &Vec<T>, item: &T) -> (r: bool)
    ensures
        r == views(items@).contains(item@),
{
    let mut i: usize = 0;
    while i < items.len()
        invariant
            i <= items.len(),
            forall|k: int| 0 <= k < i ==> items@[k]@ != item@,
        decreases items.len() - i,
    {
        if items[i].same(item) {
            assert(views(items@)[i as int] == item@);
            return true;
        }
        i = i + 1;
    }
    assert forall|k: int| 0 <= k < views(items@).len() implies views(items@)[k] != item@ by {
        assert(views(items@)[k] == items@[k]@);
    }
    false
}

/// Whether a list holds two items with the same model.
pub fn contains_duplicate<T: Record>(values: &Vec<T>) -> (r: bool)
    ensures
        r == !views(values@).no_duplicates(),
{
    let ghost all = views(values@);
    let mut i: usize = 0;
    while i < values.len()
        invariant
            i <= values.len(),
            all == views(values@),
            forall|a: int, b: int| 0 <= a < b < i ==> all[a] != all[b],
        decreases values.len() - i,
    {
        let mut k: usize = 0;
        while k < i
            invariant
                k <= i < values.len(),
                all == views(values@),
                forall|a: int| 0 <= a < k ==> all[a] != all[i as int],
            decreases i - k,
        {
            if values[k].same(&values[i]) {
                assert(all[k as int] == all[i as int]);
                return true;
            }
            k = k + 1;
        }
        i = i + 1;
    }
    false
}

/// Whether two optional values have the same model.
pub fn opt_same<T: Record>(left: &Option<T>, right: &Option<T>) -> (r: bool)
    ensures
        r == (opt_view(*left) == opt_view(*right)),
{
    match (left, right) {
        (Some(a), Some(b)) => a.same(b),
        (None, None) => true,
        _ => false,
    }
}

/// An optional value with the same model.
pub fn opt_duplicate<T: Record>(item: &Option<T>) -> (r: Option<T>)
    ensures
        opt_view(r) == opt_view(*item),
{
    match item {
        Some(value) => Some(value.duplicate()),
        None => None,
    }
}

} // verus!

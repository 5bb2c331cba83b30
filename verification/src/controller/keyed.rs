//! Comparison of lists whose order does not matter: items are matched by
//! their name.
//!
//! Two lists agree if, for every name, the items of that name are alike,
//! one by one in the order in which they stand. Where items of different
//! names stand is of no account. The module `sorted` proves that this is
//! comparison after sorting by name.

use vstd::prelude::*;

verus! {

/// An item that is found by its name.
pub trait Keyed: DeepView + Sized {
    /// The name of an item.
    spec fn key_of(item: Self::V) -> Seq<char>;

    /// Whether two items count as equal.
    spec fn alike(a: Self::V, b: Self::V) -> bool;

    /// The name of this item.
    fn key(&self) -> (r: &str)
        ensures
            r@ == Self::key_of(self.deep_view()),
    ;

    /// Whether this item and `other` count as equal.
    fn is_alike(&self, other: &Self) -> (r: bool)
        ensures
            r == Self::alike(self.deep_view(), other.deep_view()),
    ;
}

/// The items named `k`, in the order in which they stand.
pub open spec fn group<T: Keyed>(s: Seq<T::V>, k: Seq<char>) -> Seq<T::V>
    decreases s.len(),
{
    if s.len() == 0 {
        Seq::empty()
    } else {
        let rest = group::<T>(s.drop_last(), k);
        if T::key_of(s.last()) == k {
            rest.push(s.last())
        } else {
            rest
        }
    }
}

/// Whether the items named `k` are alike in both lists.
pub open spec fn groups_alike<T: Keyed>(a: Seq<T::V>, b: Seq<T::V>, k: Seq<char>) -> bool {
    let x = group::<T>(a, k);
    let y = group::<T>(b, k);
    &&& x.len() == y.len()
    &&& forall|i: int| 0 <= i < x.len() ==> T::alike(#[trigger] x[i], y[i])
}

/// Whether two lists differ once their order is set aside.
pub open spec fn keyed_lists_differ<T: Keyed>(a: Seq<T::V>, b: Seq<T::V>) -> bool {
    exists|k: Seq<char>| !#[trigger] groups_alike::<T>(a, b, k)
}

/// A name that no item carries has an empty group.
pub proof fn lemma_group_of_absent_key<T: Keyed>(s: Seq<T::V>, k: Seq<char>)
    requires
        forall|i: int| 0 <= i < s.len() ==> T::key_of(#[trigger] s[i]) != k,
    ensures
        group::<T>(s, k).len() == 0,
    decreases s.len(),
{
    if s.len() > 0 {
        let t = s.drop_last();
        assert forall|i: int| 0 <= i < t.len() implies T::key_of(#[trigger] t[i]) != k by {
            assert(t[i] == s[i]);
        }
        lemma_group_of_absent_key::<T>(t, k);
        assert(s.last() == s[s.len() - 1]);
    }
}

/// The items of `items` that are named `key`.
fn group_of<'a, T: Keyed>(items: &'a Vec<T>, key: &str) -> (r: Vec<&'a T>)
    ensures
        r.deep_view() == group::<T>(items.deep_view(), key@),
{
    let mut out: Vec<&'a T> = Vec::new();
    assert(out.deep_view() =~= Seq::empty());
    let mut i: usize = 0;
    while i < items.len()
        invariant
            i <= items.len(),
            out.deep_view() == group::<T>(items.deep_view().take(i as int), key@),
        decreases items.len() - i,
    {
        let ghost before = out.deep_view();
        proof {
            let next = items.deep_view().take(i + 1);
            assert(next.drop_last() =~= items.deep_view().take(i as int));
            assert(next.last() == items[i as int].deep_view());
        }
        if crate::common::text::str_eq(items[i].key(), key) {
            out.push(&items[i]);
            assert(out.deep_view() =~= before.push(items[i as int].deep_view()));
        }
        i += 1;
    }
    assert(items.deep_view().take(items.len() as int) =~= items.deep_view());
    out
}

/// Whether the items named `key` are alike in both lists.
fn groups_agree<T: Keyed>(a: &Vec<T>, b: &Vec<T>, key: &str) -> (r: bool)
    ensures
        r == groups_alike::<T>(a.deep_view(), b.deep_view(), key@),
{
    let x = group_of(a, key);
    let y = group_of(b, key);
    if x.len() != y.len() {
        assert(x.deep_view().len() != y.deep_view().len());
        return false;
    }
    let mut i: usize = 0;
    while i < x.len()
        invariant
            i <= x.len(),
            x.len() == y.len(),
            x.deep_view() == group::<T>(a.deep_view(), key@),
            y.deep_view() == group::<T>(b.deep_view(), key@),
            forall|j: int| 0 <= j < i ==> T::alike(#[trigger] x.deep_view()[j], y.deep_view()[j]),
        decreases x.len() - i,
    {
        if !x[i].is_alike(y[i]) {
            assert(!T::alike(x.deep_view()[i as int], y.deep_view()[i as int]));
            return false;
        }
        i += 1;
    }
    true
}

/// Whether two lists differ once their order is set aside.
pub fn lists_differ<T: Keyed>(a: &Vec<T>, b: &Vec<T>) -> (r: bool)
    ensures
        r == keyed_lists_differ::<T>(a.deep_view(), b.deep_view()),
{
    let ghost av = a.deep_view();
    let ghost bv = b.deep_view();
    let mut i: usize = 0;
    while i < a.len()
        invariant
            i <= a.len(),
            av == a.deep_view(),
            bv == b.deep_view(),
            forall|j: int| 0 <= j < i ==> groups_alike::<T>(av, bv, T::key_of(#[trigger] av[j])),
        decreases a.len() - i,
    {
        if !groups_agree(a, b, a[i].key()) {
            return true;
        }
        i += 1;
    }
    let mut j: usize = 0;
    while j < b.len()
        invariant
            j <= b.len(),
            av == a.deep_view(),
            bv == b.deep_view(),
            forall|n: int| 0 <= n < av.len() ==> groups_alike::<T>(av, bv, T::key_of(#[trigger] av[n])),
            forall|n: int| 0 <= n < j ==> groups_alike::<T>(av, bv, T::key_of(#[trigger] bv[n])),
        decreases b.len() - j,
    {
        if !groups_agree(a, b, b[j].key()) {
            return true;
        }
        j += 1;
    }
    proof {
        assert forall|k: Seq<char>| #[trigger] groups_alike::<T>(av, bv, k) by {
            if exists|n: int| 0 <= n < av.len() && T::key_of(#[trigger] av[n]) == k {
                let n = choose|n: int| 0 <= n < av.len() && T::key_of(#[trigger] av[n]) == k;
                assert(groups_alike::<T>(av, bv, T::key_of(av[n])));
            } else if exists|n: int| 0 <= n < bv.len() && T::key_of(#[trigger] bv[n]) == k {
                let n = choose|n: int| 0 <= n < bv.len() && T::key_of(#[trigger] bv[n]) == k;
                assert(groups_alike::<T>(av, bv, T::key_of(bv[n])));
            } else {
                lemma_group_of_absent_key::<T>(av, k);
                lemma_group_of_absent_key::<T>(bv, k);
            }
        }
    }
    false
}

} // verus!

//! Matching by name against sorting by name.
//!
//! Comparing two lists by the groups of their names comes to the same as
//! sorting both by name, with a sort that keeps items of one name in their
//! order, and comparing the sorted lists place by place. This holds for any
//! total order on names, so it holds for the order of strings.

use crate::controller::drift::volumes_equal;
use crate::controller::keyed::{group, groups_alike, keyed_lists_differ, lemma_group_of_absent_key, Keyed};
use crate::objects::{EnvVar, EnvVarView, Volume, VolumeView};
use vstd::prelude::*;

verus! {

/// Whether a relation on names is a total order.
pub open spec fn total_order(le: spec_fn(Seq<char>, Seq<char>) -> bool) -> bool {
    &&& forall|a: Seq<char>, b: Seq<char>| #[trigger] le(a, b) || le(b, a)
    &&& forall|a: Seq<char>, b: Seq<char>| #[trigger] le(a, b) && le(b, a) ==> a == b
    &&& forall|a: Seq<char>, b: Seq<char>, c: Seq<char>| #[trigger] le(a, b) && #[trigger] le(b, c) ==> le(a, c)
}

/// A sorted list with one more item, put behind every item whose name is
/// not greater.
pub open spec fn insert_sorted<T: Keyed>(
    s: Seq<T::V>,
    x: T::V,
    le: spec_fn(Seq<char>, Seq<char>) -> bool,
) -> Seq<T::V>
    decreases s.len(),
{
    if s.len() == 0 {
        seq![x]
    } else if le(T::key_of(s.last()), T::key_of(x)) {
        s.push(x)
    } else {
        insert_sorted::<T>(s.drop_last(), x, le).push(s.last())
    }
}

/// The list sorted by name; items of one name keep their order.
pub open spec fn stable_sort<T: Keyed>(s: Seq<T::V>, le: spec_fn(Seq<char>, Seq<char>) -> bool) -> Seq<T::V>
    decreases s.len(),
{
    if s.len() == 0 {
        Seq::empty()
    } else {
        insert_sorted::<T>(stable_sort::<T>(s.drop_last(), le), s.last(), le)
    }
}

/// Whether the names of a list ascend.
pub open spec fn ascending<T: Keyed>(s: Seq<T::V>, le: spec_fn(Seq<char>, Seq<char>) -> bool) -> bool {
    forall|i: int, j: int| 0 <= i < j < s.len() ==> le(T::key_of(#[trigger] s[i]), T::key_of(#[trigger] s[j]))
}

/// Whether two lists have the same length and are alike place by place.
pub open spec fn alike_in_place<T: Keyed>(x: Seq<T::V>, y: Seq<T::V>) -> bool {
    &&& x.len() == y.len()
    &&& forall|i: int| 0 <= i < x.len() ==> T::alike(#[trigger] x[i], y[i])
}

/// Whether items that are alike have the same name.
pub open spec fn alike_items_share_name<T: Keyed>() -> bool {
    forall|a: T::V, b: T::V| #[trigger] T::alike(a, b) ==> T::key_of(a) == T::key_of(b)
}

proof fn lemma_group_push<T: Keyed>(s: Seq<T::V>, x: T::V, k: Seq<char>)
    ensures
        group::<T>(s.push(x), k) == (if T::key_of(x) == k {
            group::<T>(s, k).push(x)
        } else {
            group::<T>(s, k)
        }),
{
    assert(s.push(x).drop_last() =~= s);
    assert(s.push(x).last() == x);
}

proof fn lemma_insert_len<T: Keyed>(s: Seq<T::V>, x: T::V, le: spec_fn(Seq<char>, Seq<char>) -> bool)
    ensures
        insert_sorted::<T>(s, x, le).len() == s.len() + 1,
        forall|i: int|
            0 <= i < s.len() + 1 ==> (#[trigger] insert_sorted::<T>(s, x, le)[i]) == x || exists|j: int|
                0 <= j < s.len() && s[j] == insert_sorted::<T>(s, x, le)[i],
    decreases s.len(),
{
    let r = insert_sorted::<T>(s, x, le);
    if s.len() == 0 {
    } else if le(T::key_of(s.last()), T::key_of(x)) {
        assert forall|i: int| 0 <= i < s.len() + 1 implies (#[trigger] r[i]) == x || exists|j: int|
            0 <= j < s.len() && s[j] == r[i] by {
            if i < s.len() {
                assert(s[i] == r[i]);
            }
        }
    } else {
        let t = s.drop_last();
        lemma_insert_len::<T>(t, x, le);
        let u = insert_sorted::<T>(t, x, le);
        assert forall|i: int| 0 <= i < s.len() + 1 implies (#[trigger] r[i]) == x || exists|j: int|
            0 <= j < s.len() && s[j] == r[i] by {
            if i < u.len() {
                assert(r[i] == u[i]);
                if u[i] != x {
                    let j = choose|j: int| 0 <= j < t.len() && t[j] == u[i];
                    assert(s[j] == r[i]);
                }
            } else {
                assert(s[s.len() - 1] == r[i]);
            }
        }
    }
}

proof fn lemma_insert_group<T: Keyed>(
    s: Seq<T::V>,
    x: T::V,
    le: spec_fn(Seq<char>, Seq<char>) -> bool,
    k: Seq<char>,
)
    requires
        total_order(le),
    ensures
        group::<T>(insert_sorted::<T>(s, x, le), k) == (if T::key_of(x) == k {
            group::<T>(s, k).push(x)
        } else {
            group::<T>(s, k)
        }),
    decreases s.len(),
{
    if s.len() == 0 {
        assert(s =~= Seq::empty());
        lemma_group_push::<T>(Seq::empty(), x, k);
        assert(Seq::<T::V>::empty().push(x) =~= seq![x]);
    } else if le(T::key_of(s.last()), T::key_of(x)) {
        lemma_group_push::<T>(s, x, k);
    } else {
        let t = s.drop_last();
        lemma_insert_group::<T>(t, x, le, k);
        lemma_group_push::<T>(insert_sorted::<T>(t, x, le), s.last(), k);
        assert(le(T::key_of(x), T::key_of(s.last())) || le(T::key_of(s.last()), T::key_of(x)));
        assert(T::key_of(s.last()) != T::key_of(x));
    }
}

proof fn lemma_sort_group<T: Keyed>(s: Seq<T::V>, le: spec_fn(Seq<char>, Seq<char>) -> bool, k: Seq<char>)
    requires
        total_order(le),
    ensures
        group::<T>(stable_sort::<T>(s, le), k) == group::<T>(s, k),
    decreases s.len(),
{
    if s.len() > 0 {
        lemma_sort_group::<T>(s.drop_last(), le, k);
        lemma_insert_group::<T>(stable_sort::<T>(s.drop_last(), le), s.last(), le, k);
    }
}

proof fn lemma_insert_ascending<T: Keyed>(s: Seq<T::V>, x: T::V, le: spec_fn(Seq<char>, Seq<char>) -> bool)
    requires
        total_order(le),
        ascending::<T>(s, le),
    ensures
        ascending::<T>(insert_sorted::<T>(s, x, le), le),
    decreases s.len(),
{
    let r = insert_sorted::<T>(s, x, le);
    if s.len() == 0 {
    } else if le(T::key_of(s.last()), T::key_of(x)) {
        assert forall|i: int, j: int| 0 <= i < j < r.len() implies le(
            T::key_of(#[trigger] r[i]),
            T::key_of(#[trigger] r[j]),
        ) by {
            if j < s.len() {
                assert(r[i] == s[i] && r[j] == s[j]);
            } else {
                assert(r[i] == s[i]);
                if i < s.len() - 1 {
                    assert(le(T::key_of(s[i]), T::key_of(s[s.len() - 1])));
                }
                assert(le(T::key_of(s[i]), T::key_of(s.last())) && le(T::key_of(s.last()), T::key_of(x)));
            }
        }
    } else {
        let t = s.drop_last();
        assert forall|i: int, j: int| 0 <= i < j < t.len() implies le(
            T::key_of(#[trigger] t[i]),
            T::key_of(#[trigger] t[j]),
        ) by {
            assert(t[i] == s[i] && t[j] == s[j]);
        }
        lemma_insert_ascending::<T>(t, x, le);
        lemma_insert_len::<T>(t, x, le);
        let u = insert_sorted::<T>(t, x, le);
        assert(le(T::key_of(x), T::key_of(s.last())) || le(T::key_of(s.last()), T::key_of(x)));
        assert forall|i: int, j: int| 0 <= i < j < r.len() implies le(
            T::key_of(#[trigger] r[i]),
            T::key_of(#[trigger] r[j]),
        ) by {
            if j < u.len() {
                assert(r[i] == u[i] && r[j] == u[j]);
            } else {
                assert(r[j] == s.last());
                assert(r[i] == u[i]);
                if u[i] != x {
                    let n = choose|n: int| 0 <= n < t.len() && t[n] == u[i];
                    assert(s[n] == u[i]);
                    assert(le(T::key_of(s[n]), T::key_of(s[s.len() - 1])));
                }
            }
        }
    }
}

proof fn lemma_sort_ascending<T: Keyed>(s: Seq<T::V>, le: spec_fn(Seq<char>, Seq<char>) -> bool)
    requires
        total_order(le),
    ensures
        ascending::<T>(stable_sort::<T>(s, le), le),
        stable_sort::<T>(s, le).len() == s.len(),
    decreases s.len(),
{
    if s.len() > 0 {
        lemma_sort_ascending::<T>(s.drop_last(), le);
        lemma_insert_ascending::<T>(stable_sort::<T>(s.drop_last(), le), s.last(), le);
        lemma_insert_len::<T>(stable_sort::<T>(s.drop_last(), le), s.last(), le);
    }
}

proof fn lemma_in_place_gives_groups<T: Keyed>(x: Seq<T::V>, y: Seq<T::V>, k: Seq<char>)
    requires
        alike_items_share_name::<T>(),
        alike_in_place::<T>(x, y),
    ensures
        groups_alike::<T>(x, y, k),
    decreases x.len(),
{
    if x.len() > 0 {
        let a = x.drop_last();
        let b = y.drop_last();
        assert forall|i: int| 0 <= i < a.len() implies T::alike(#[trigger] a[i], b[i]) by {
            assert(T::alike(x[i], y[i]));
        }
        lemma_in_place_gives_groups::<T>(a, b, k);
        assert(T::alike(x[x.len() - 1], y[x.len() - 1]));
        assert(T::key_of(x.last()) == T::key_of(y.last()));
        let g = group::<T>(x, k);
        let h = group::<T>(y, k);
        assert forall|i: int| 0 <= i < g.len() implies T::alike(#[trigger] g[i], h[i]) by {
            if i < group::<T>(a, k).len() {
                assert(T::alike(group::<T>(a, k)[i], group::<T>(b, k)[i]));
            }
        }
    }
}

proof fn lemma_groups_give_in_place<T: Keyed>(
    x: Seq<T::V>,
    y: Seq<T::V>,
    le: spec_fn(Seq<char>, Seq<char>) -> bool,
)
    requires
        total_order(le),
        ascending::<T>(x, le),
        ascending::<T>(y, le),
        forall|k: Seq<char>| #[trigger] groups_alike::<T>(x, y, k),
    ensures
        alike_in_place::<T>(x, y),
    decreases x.len() + y.len(),
{
    if x.len() == 0 && y.len() == 0 {
    } else if x.len() == 0 {
        let k = T::key_of(y.last());
        assert(groups_alike::<T>(x, y, k));
        assert(group::<T>(y, k).len() > 0);
    } else if y.len() == 0 {
        let k = T::key_of(x.last());
        assert(groups_alike::<T>(x, y, k));
        assert(group::<T>(x, k).len() > 0);
    } else {
        let kx = T::key_of(x.last());
        let ky = T::key_of(y.last());
        assert(groups_alike::<T>(x, y, kx));
        assert(groups_alike::<T>(x, y, ky));
        assert(group::<T>(x, kx).len() > 0);
        assert(group::<T>(y, ky).len() > 0);
        if forall|i: int| 0 <= i < y.len() ==> T::key_of(#[trigger] y[i]) != kx {
            lemma_group_of_absent_key::<T>(y, kx);
        }
        let i = choose|i: int| 0 <= i < y.len() && T::key_of(#[trigger] y[i]) == kx;
        assert(le(kx, ky)) by {
            if i < y.len() - 1 {
                assert(le(T::key_of(y[i]), T::key_of(y[y.len() - 1])));
            } else {
                assert(le(kx, ky) || le(ky, kx));
            }
        }
        if forall|j: int| 0 <= j < x.len() ==> T::key_of(#[trigger] x[j]) != ky {
            lemma_group_of_absent_key::<T>(x, ky);
        }
        let j = choose|j: int| 0 <= j < x.len() && T::key_of(#[trigger] x[j]) == ky;
        assert(le(ky, kx)) by {
            if j < x.len() - 1 {
                assert(le(T::key_of(x[j]), T::key_of(x[x.len() - 1])));
            } else {
                assert(le(kx, ky) || le(ky, kx));
            }
        }
        assert(kx == ky);
        let a = x.drop_last();
        let b = y.drop_last();
        let g = group::<T>(x, kx);
        let h = group::<T>(y, kx);
        assert(g == group::<T>(a, kx).push(x.last()));
        assert(h == group::<T>(b, kx).push(y.last()));
        assert(T::alike(g[g.len() - 1], h[g.len() - 1]));
        assert(T::alike(x.last(), y.last()));
        assert forall|k: Seq<char>| #[trigger] groups_alike::<T>(a, b, k) by {
            assert(groups_alike::<T>(x, y, k));
            let p = group::<T>(a, k);
            let q = group::<T>(b, k);
            assert forall|n: int| 0 <= n < p.len() implies T::alike(#[trigger] p[n], q[n]) by {
                assert(T::alike(group::<T>(x, k)[n], group::<T>(y, k)[n]));
            }
        }
        assert forall|m: int, n: int| 0 <= m < n < a.len() implies le(
            T::key_of(#[trigger] a[m]),
            T::key_of(#[trigger] a[n]),
        ) by {
            assert(a[m] == x[m] && a[n] == x[n]);
        }
        assert forall|m: int, n: int| 0 <= m < n < b.len() implies le(
            T::key_of(#[trigger] b[m]),
            T::key_of(#[trigger] b[n]),
        ) by {
            assert(b[m] == y[m] && b[n] == y[n]);
        }
        lemma_groups_give_in_place::<T>(a, b, le);
        assert forall|n: int| 0 <= n < x.len() implies T::alike(#[trigger] x[n], y[n]) by {
            if n < a.len() {
                assert(T::alike(a[n], b[n]));
            }
        }
    }
}

/// Two lists differ, matched by name, exactly if their sorted forms differ
/// at some place or in length.
pub proof fn law_matching_is_sorted_comparison<T: Keyed>(
    a: Seq<T::V>,
    b: Seq<T::V>,
    le: spec_fn(Seq<char>, Seq<char>) -> bool,
)
    requires
        total_order(le),
        alike_items_share_name::<T>(),
    ensures
        keyed_lists_differ::<T>(a, b) == !alike_in_place::<T>(stable_sort::<T>(a, le), stable_sort::<T>(b, le)),
        ascending::<T>(stable_sort::<T>(a, le), le),
        ascending::<T>(stable_sort::<T>(b, le), le),
{
    let x = stable_sort::<T>(a, le);
    let y = stable_sort::<T>(b, le);
    lemma_sort_ascending::<T>(a, le);
    lemma_sort_ascending::<T>(b, le);
    assert forall|k: Seq<char>| #[trigger] groups_alike::<T>(x, y, k) == groups_alike::<T>(a, b, k) by {
        lemma_sort_group::<T>(a, le, k);
        lemma_sort_group::<T>(b, le, k);
    }
    if alike_in_place::<T>(x, y) {
        assert forall|k: Seq<char>| #[trigger] groups_alike::<T>(a, b, k) by {
            lemma_in_place_gives_groups::<T>(x, y, k);
            assert(groups_alike::<T>(x, y, k));
        }
    }
    if !keyed_lists_differ::<T>(a, b) {
        assert forall|k: Seq<char>| #[trigger] groups_alike::<T>(x, y, k) by {
            assert(groups_alike::<T>(a, b, k));
        }
        lemma_groups_give_in_place::<T>(x, y, le);
    }
}

/// Environments are compared as after sorting by name: two environments
/// differ, matched by name, exactly if their sorted forms are not the same
/// list.
pub proof fn law_env_comparison_sorts_by_name(
    a: Seq<EnvVarView>,
    b: Seq<EnvVarView>,
    le: spec_fn(Seq<char>, Seq<char>) -> bool,
)
    requires
        total_order(le),
    ensures
        keyed_lists_differ::<EnvVar>(a, b) == (stable_sort::<EnvVar>(a, le) != stable_sort::<EnvVar>(b, le)),
{
    law_matching_is_sorted_comparison::<EnvVar>(a, b, le);
    let x = stable_sort::<EnvVar>(a, le);
    let y = stable_sort::<EnvVar>(b, le);
    if alike_in_place::<EnvVar>(x, y) {
        assert(x =~= y);
    }
}

/// Volumes are compared as after sorting by name: two lists of volumes
/// differ, matched by name, exactly if their sorted forms differ in length
/// or hold, at some place, two volumes that are not equal.
pub proof fn law_volume_comparison_sorts_by_name(
    a: Seq<VolumeView>,
    b: Seq<VolumeView>,
    le: spec_fn(Seq<char>, Seq<char>) -> bool,
)
    requires
        total_order(le),
    ensures
        keyed_lists_differ::<Volume>(a, b) == !alike_in_place::<Volume>(
            stable_sort::<Volume>(a, le),
            stable_sort::<Volume>(b, le),
        ),
{
    assert(alike_items_share_name::<Volume>()) by {
        assert forall|p: VolumeView, q: VolumeView| #[trigger] volumes_equal(p, q) implies p.name == q.name by {}
    }
    law_matching_is_sorted_comparison::<Volume>(a, b, le);
}

} // verus!

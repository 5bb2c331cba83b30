//! String-to-string maps (labels, annotations, selectors, config data).
//!
//! A map is kept as a list of entries in insertion order. Its meaning is the
//! mathematical map in which a later entry for a key replaces an earlier one.

use crate::common::content::Content;
use vstd::prelude::*;

verus! {

/// The mathematical view of string maps.
pub type Labels = Map<Seq<char>, Seq<char>>;

/// The map that a list of entries stands for: later entries win.
pub open spec fn entries_map(s: Seq<(Seq<char>, Seq<char>)>) -> Labels
    decreases s.len(),
{
    if s.len() == 0 {
        Map::empty()
    } else {
        entries_map(s.drop_last()).insert(s.last().0, s.last().1)
    }
}

/// A key is in the map exactly if some entry carries it.
pub proof fn lemma_entries_map_dom(s: Seq<(Seq<char>, Seq<char>)>, k: Seq<char>)
    ensures
        entries_map(s).contains_key(k) <==> exists|i: int| 0 <= i < s.len() && (#[trigger] s[i]).0 == k,
    decreases s.len(),
{
    if s.len() == 0 {
    } else {
        let t = s.drop_last();
        lemma_entries_map_dom(t, k);
        if entries_map(s).contains_key(k) {
            if s.last().0 == k {
                assert(s[s.len() - 1].0 == k);
            } else {
                let i = choose|i: int| 0 <= i < t.len() && (#[trigger] t[i]).0 == k;
                assert(s[i].0 == k);
            }
        }
        if exists|i: int| 0 <= i < s.len() && (#[trigger] s[i]).0 == k {
            let i = choose|i: int| 0 <= i < s.len() && (#[trigger] s[i]).0 == k;
            if i < t.len() {
                assert(t[i].0 == k);
            }
        }
    }
}

/// Entries that do not carry a key do not change what the key maps to.
pub proof fn lemma_entries_map_skip(s: Seq<(Seq<char>, Seq<char>)>, n: int, k: Seq<char>)
    requires
        0 <= n <= s.len(),
        forall|j: int| n <= j < s.len() ==> (#[trigger] s[j]).0 != k,
    ensures
        entries_map(s).contains_key(k) == entries_map(s.take(n)).contains_key(k),
        entries_map(s).contains_key(k) ==> entries_map(s)[k] == entries_map(s.take(n))[k],
    decreases s.len() - n,
{
    if n == s.len() {
        assert(s.take(n) =~= s);
    } else {
        let t = s.drop_last();
        assert(s[s.len() - 1].0 != k);
        assert(t.take(n) =~= s.take(n));
        lemma_entries_map_skip(t, n, k);
    }
}

/// Appending entries is a union in which the appended entries win.
pub proof fn lemma_entries_map_append(a: Seq<(Seq<char>, Seq<char>)>, b: Seq<(Seq<char>, Seq<char>)>)
    ensures
        entries_map(a + b) == entries_map(a).union_prefer_right(entries_map(b)),
    decreases b.len(),
{
    if b.len() == 0 {
        assert(a + b =~= a);
        assert(entries_map(a).union_prefer_right(entries_map(b)) =~= entries_map(a));
    } else {
        let t = b.drop_last();
        assert((a + b).drop_last() =~= a + t);
        lemma_entries_map_append(a, t);
        assert(entries_map(a + b) =~= entries_map(a).union_prefer_right(entries_map(b)));
    }
}

/// A map from strings to strings.
#[derive(Debug, Clone)]
pub struct StringMap {
    pub entries: Vec<(String, String)>,
}

impl DeepView for StringMap {
    type V = Labels;

    open spec fn deep_view(&self) -> Labels {
        entries_map(self.entries.deep_view())
    }
}

impl StringMap {
    /// The empty map.
    pub fn new() -> (r: Self)
        ensures
            r.deep_view() == Labels::empty(),
    {
        let r = StringMap { entries: Vec::new() };
        assert(r.entries.deep_view() =~= Seq::empty());
        r
    }

    /// Sets `key` to `value`, replacing what the key had.
    pub fn insert(&mut self, key: String, value: String)
        ensures
            final(self).deep_view() == old(self).deep_view().insert(key@, value@),
    {
        let ghost before = self.entries.deep_view();
        self.entries.push((key, value));
        proof {
            let after = self.entries.deep_view();
            assert(after.drop_last() =~= before);
            assert(after.last() == (key@, value@));
        }
    }

    /// What `key` maps to, if anything.
    pub fn get(&self, key: &str) -> (r: Option<&String>)
        ensures
            r.deep_view() == (if self.deep_view().contains_key(key@) {
                Some(self.deep_view()[key@])
            } else {
                None
            }),
    {
        let ghost s = self.entries.deep_view();
        let mut i: usize = self.entries.len();
        while i > 0
            invariant
                i <= self.entries.len(),
                s == self.entries.deep_view(),
                forall|j: int| i <= j < s.len() ==> (#[trigger] s[j]).0 != key@,
            decreases i,
        {
            i -= 1;
            if crate::common::text::str_eq(self.entries[i].0.as_str(), key) {
                proof {
                    lemma_entries_map_skip(s, i + 1, key@);
                    assert(s.take(i + 1).drop_last() =~= s.take(i as int));
                    assert(s.take(i + 1).last() == s[i as int]);
                }
                return Some(&self.entries[i].1);
            }
        }
        proof {
            lemma_entries_map_skip(s, 0, key@);
            assert(s.take(0) =~= Seq::empty());
        }
        None
    }

    /// Whether `key` is in the map.
    pub fn contains_key(&self, key: &str) -> (r: bool)
        ensures
            r == self.deep_view().contains_key(key@),
    {
        self.get(key).is_some()
    }

    /// Adds every entry of `other`, replacing what its keys had.
    pub fn extend(&mut self, other: &StringMap)
        ensures
            final(self).deep_view() == old(self).deep_view().union_prefer_right(other.deep_view()),
    {
        let ghost a = self.entries.deep_view();
        let ghost b = other.entries.deep_view();
        let mut i: usize = 0;
        while i < other.entries.len()
            invariant
                i <= other.entries.len(),
                b == other.entries.deep_view(),
                self.entries.deep_view() == a + b.take(i as int),
            decreases other.entries.len() - i,
        {
            let ghost before = self.entries.deep_view();
            let k = other.entries[i].0.clone();
            let v = other.entries[i].1.clone();
            self.entries.push((k, v));
            proof {
                assert(self.entries.deep_view() =~= before.push(b[i as int]));
                assert(b.take(i + 1) =~= b.take(i as int).push(b[i as int]));
                assert(self.entries.deep_view() =~= a + b.take(i + 1));
            }
            i += 1;
        }
        proof {
            assert(b.take(b.len() as int) =~= b);
            lemma_entries_map_append(a, b);
        }
    }

    /// Whether every entry of `self` is an entry of `other`.
    pub fn included_in(&self, other: &StringMap) -> (r: bool)
        ensures
            r == self.deep_view().submap_of(other.deep_view()),
    {
        let ghost s = self.entries.deep_view();
        let ghost m = self.deep_view();
        let ghost n = other.deep_view();
        let mut i: usize = 0;
        while i < self.entries.len()
            invariant
                i <= self.entries.len(),
                s == self.entries.deep_view(),
                m == self.deep_view(),
                n == other.deep_view(),
                forall|j: int| 0 <= j < i ==> n.contains_key((#[trigger] s[j]).0) && n[s[j].0] == m[s[j].0],
            decreases self.entries.len() - i,
        {
            let key = self.entries[i].0.as_str();
            proof {
                lemma_entries_map_dom(s, key@);
                assert(s[i as int].0 == key@);
            }
            let mine = self.get(key);
            let theirs = other.get(key);
            match (mine, theirs) {
                (Some(x), Some(y)) => {
                    if !x.same(y) {
                        return false;
                    }
                },
                _ => {
                    return false;
                },
            }
            i += 1;
        }
        proof {
            assert forall|k: Seq<char>| m.contains_key(k) implies #[trigger] n.contains_key(k) && m[k] == n[k] by {
                lemma_entries_map_dom(s, k);
                let j = choose|j: int| 0 <= j < s.len() && (#[trigger] s[j]).0 == k;
                assert(n.contains_key(s[j].0));
            }
        }
        true
    }
}

impl Content for StringMap {
    fn dup(&self) -> (r: Self) {
        StringMap { entries: self.entries.dup() }
    }

    fn same(&self, other: &Self) -> (r: bool) {
        let r = self.included_in(other) && other.included_in(self);
        proof {
            if r {
                let m = self.deep_view();
                let n = other.deep_view();
                assert forall|k: Seq<char>| m.dom().contains(k) == n.dom().contains(k) by {
                    if m.dom().contains(k) {
                        assert(n.dom().contains(k));
                    }
                    if n.dom().contains(k) {
                        assert(m.dom().contains(k));
                    }
                }
                assert(m.dom() =~= n.dom());
                assert forall|k: Seq<char>| m.dom().contains(k) implies #[trigger] m[k] == n[k] by {}
                assert(m =~= n);
            }
        }
        r
    }
}

} // verus!

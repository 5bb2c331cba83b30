//! Looking up dotted paths in JSON documents.

use crate::common::json::{json_get, json_members};
use vstd::prelude::*;
use vstd::string::StrSliceExecFns;

verus! {

/// The parts of a text between its separators. A text without separator
/// is its own single part; a separator at either end bounds an empty part.
pub open spec fn split_on(s: Seq<char>, separator: char) -> Seq<Seq<char>>
    decreases s.len(),
{
    if s.len() == 0 {
        seq![Seq::<char>::empty()]
    } else {
        let head = split_on(s.drop_last(), separator);
        if s.last() == separator {
            head.push(Seq::empty())
        } else {
            head.drop_last().push(head.last().push(s.last()))
        }
    }
}

/// A text always has at least one part.
pub proof fn lemma_split_on_nonempty(s: Seq<char>, separator: char)
    ensures
        split_on(s, separator).len() >= 1,
    decreases s.len(),
{
    if s.len() > 0 {
        lemma_split_on_nonempty(s.drop_last(), separator);
    }
}

/// Whether a path of keys leads through nested objects to a value.
pub open spec fn path_exists(value: serde_json::Value, path: Seq<Seq<char>>) -> bool
    decreases path.len(),
{
    if path.len() == 0 {
        true
    } else {
        json_members(value).contains_key(path[0]) && path_exists(
            json_members(value)[path[0]],
            path.drop_first(),
        )
    }
}

/// Whether a dotted key leads through nested objects to a value.
pub open spec fn key_exists(value: serde_json::Value, key: Seq<char>) -> bool {
    path_exists(value, split_on(key, '.'))
}

/// Splits a text at a separator.
pub fn split<'a>(s: &'a str, separator: char) -> (r: Vec<&'a str>)
    ensures
        r.deep_view() == split_on(s@, separator),
{
    let n = s.unicode_len();
    let mut parts: Vec<&'a str> = Vec::new();
    let mut start: usize = 0;
    let mut i: usize = 0;
    assert(s@.take(0) =~= Seq::empty());
    assert(s@.subrange(0, 0) =~= Seq::empty());
    assert(parts.deep_view().push(s@.subrange(0, 0)) =~= split_on(s@.take(0), separator));
    while i < n
        invariant
            n == s@.len(),
            start <= i <= n,
            parts.deep_view().push(s@.subrange(start as int, i as int)) == split_on(
                s@.take(i as int),
                separator,
            ),
        decreases n - i,
    {
        let c = s.get_char(i);
        let ghost before = parts.deep_view();
        let ghost segment = s@.subrange(start as int, i as int);
        proof {
            assert(s@.take(i + 1).drop_last() =~= s@.take(i as int));
            assert(s@.take(i + 1).last() == c);
            assert(before.push(segment).drop_last() =~= before);
            assert(before.push(segment).last() == segment);
        }
        if c == separator {
            parts.push(s.substring_char(start, i));
            start = i + 1;
            proof {
                assert(parts.deep_view() =~= before.push(segment));
                assert(s@.subrange(start as int, i + 1) =~= Seq::empty());
            }
        } else {
            proof {
                assert(s@.subrange(start as int, i + 1) =~= segment.push(c));
            }
        }
        i += 1;
    }
    let ghost before = parts.deep_view();
    parts.push(s.substring_char(start, n));
    proof {
        assert(s@.take(n as int) =~= s@);
        assert(parts.deep_view() =~= before.push(s@.subrange(start as int, n as int)));
    }
    parts
}

/// The last of the parts of a text between its separators.
pub fn last_part<'a>(s: &'a str, separator: char) -> (r: &'a str)
    ensures
        r@ == split_on(s@, separator).last(),
{
    let parts = split(s, separator);
    proof {
        lemma_split_on_nonempty(s@, separator);
    }
    parts[parts.len() - 1]
}

/// Whether the dotted key leads to a value in the payload: each part of
/// the key names a member of the object that the parts before it led to.
pub fn check_key_exists(payload: &serde_json::Value, key: &str) -> (r: bool)
    ensures
        r == key_exists(*payload, key@),
{
    let parts = split(key, '.');
    let ghost path = parts.deep_view();
    let mut current = payload;
    let mut i: usize = 0;
    assert(path.skip(0) =~= path);
    while i < parts.len()
        invariant
            i <= parts.len(),
            path == parts.deep_view(),
            path == split_on(key@, '.'),
            path_exists(*payload, path) == path_exists(*current, path.skip(i as int)),
        decreases parts.len() - i,
    {
        proof {
            assert(path.skip(i as int)[0] == path[i as int]);
            assert(path.skip(i as int).drop_first() =~= path.skip(i + 1));
        }
        match json_get(current, parts[i]) {
            Some(next) => {
                current = next;
            },
            None => {
                return false;
            },
        }
        i += 1;
    }
    true
}

} // verus!

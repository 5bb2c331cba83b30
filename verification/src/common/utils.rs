//! The hash by which a change of configuration is noticed.

use crate::common::string_map::{Labels, StringMap};
use std::collections::BTreeMap;
use vstd::prelude::*;

verus! {

/// The JSON text of a string map, keys in ascending order: what
/// `serde_json::to_string` writes for it, and `null` for an absent map.
pub uninterp spec fn string_map_json_text(data: Option<Labels>) -> Seq<char>;

/// The BLAKE3 hash of a text, in lowercase hexadecimal.
pub uninterp spec fn blake3_hex(text: Seq<char>) -> Seq<char>;

/// Calls `serde_json::to_string` on the map, held as a `BTreeMap` so that
/// its keys are written in ascending order. The call succeeds: the text is
/// written into memory, and keys and values are strings. Its result is the
/// JSON text of the map.
#[verifier::external_body]
pub(crate) fn serialize_string_map(data: &Option<StringMap>) -> (r: Result<String, serde_json::Error>)
    ensures
        r is Ok,
        r->Ok_0@ == string_map_json_text(data.deep_view()),
{
    let map: Option<BTreeMap<&str, &str>> = data.as_ref().map(
        |m| {
            let mut sorted = BTreeMap::new();
            for (k, v) in m.entries.iter() {
                sorted.insert(k.as_str(), v.as_str());
            }
            sorted
        },
    );
    serde_json::to_string(&map)
}

/// Whether a character is a digit of lowercase hexadecimal.
pub open spec fn is_lower_hex(c: char) -> bool {
    ('0' <= c && c <= '9') || ('a' <= c && c <= 'f')
}

/// Whether a text is a hash as the operator records it: 64 digits of
/// lowercase hexadecimal.
pub open spec fn is_hex_digest(s: Seq<char>) -> bool {
    &&& s.len() == 64
    &&& forall|i: int| 0 <= i < s.len() ==> is_lower_hex(#[trigger] s[i])
}

/// Calls `blake3::hash` on the bytes of the text and `Hash::to_hex` on the
/// digest: the result is the hash of the text, written as two lowercase
/// hexadecimal digits for each of its 32 bytes.
#[verifier::external_body]
pub(crate) fn blake3_hex_digest(text: &str) -> (r: String)
    ensures
        r@ == blake3_hex(text@),
        is_hex_digest(r@),
{
    blake3::hash(text.as_bytes()).to_hex().to_string()
}

/// Why no hash could be computed.
#[derive(Debug, Clone, Copy, PartialEq, Eq, Structural)]
pub enum HashError {
    /// The object could not be written as JSON.
    Serialization,
}

/// The hash of a string map: the BLAKE3 hash of its canonical JSON text.
/// It depends on the entries alone, not on the order in which they were
/// inserted.
pub open spec fn object_hash(data: Option<Labels>) -> Seq<char> {
    blake3_hex(string_map_json_text(data))
}

/// The hash of an object from the outcome of writing it as JSON: the hash
/// of the text, or the failure handed on.
pub fn hash_of_serialized(serialized: Result<String, serde_json::Error>) -> (r: Result<String, HashError>)
    ensures
        match serialized {
            Ok(text) => r is Ok && r->Ok_0@ == blake3_hex(text@) && is_hex_digest(r->Ok_0@),
            Err(_) => r == Err::<String, HashError>(HashError::Serialization),
        },
{
    match serialized {
        Ok(text) => Ok(blake3_hex_digest(text.as_str())),
        Err(_) => Err(HashError::Serialization),
    }
}

/// Computes the hash of a string map. Every map has a hash: 64 digits of
/// lowercase hexadecimal that depend on the entries of the map alone.
pub fn compute_object_hash(data: &Option<StringMap>) -> (r: Result<String, HashError>)
    ensures
        r is Ok,
        r->Ok_0@ == object_hash(data.deep_view()),
        is_hex_digest(r->Ok_0@),
{
    hash_of_serialized(serialize_string_map(data))
}

} // verus!

//! JSON documents, as `serde_json` holds and writes them.

use std::collections::BTreeMap;
use vstd::prelude::*;

verus! {

/// A JSON value of `serde_json`. Nothing inside it is visible to proofs.
#[verifier::external_type_specification]
#[verifier::external_body]
pub struct ExJsonValue(serde_json::Value);

/// An error of `serde_json`.
#[verifier::external_type_specification]
#[verifier::external_body]
pub struct ExJsonError(serde_json::Error);

/// The JSON text of a bot's configuration: what `serde_json::to_string`
/// writes for it.
pub uninterp spec fn config_json_text(config: Option<BTreeMap<String, serde_json::Value>>) -> Seq<char>;

/// Calls `serde_json::to_string` on a bot's configuration. The call
/// succeeds: the text is written into memory, every key is a string, and
/// the serializer of `Value` fails on no value. Its result is the JSON text
/// of the configuration, which is `null` for an absent configuration.
#[verifier::external_body]
pub(crate) fn serialize_config(config: &Option<BTreeMap<String, serde_json::Value>>) -> (r: Result<
    String,
    serde_json::Error,
>)
    ensures
        r is Ok,
        r->Ok_0@ == config_json_text(*config),
        *config is None ==> r->Ok_0@ == "null"@,
{
    serde_json::to_string(config)
}

/// The members of a JSON object, by key; the empty map for a value that is
/// no object.
pub uninterp spec fn json_members(value: serde_json::Value) -> Map<Seq<char>, serde_json::Value>;

/// Calls `Value::get` with a string index: the member of that key where
/// the value is an object that has one, else nothing.
#[verifier::external_body]
pub(crate) fn json_get<'a>(value: &'a serde_json::Value, key: &str) -> (r: Option<&'a serde_json::Value>)
    ensures
        r == (if json_members(*value).contains_key(key@) {
            Some(&json_members(*value)[key@])
        } else {
            None
        }),
{
    value.get(key)
}

} // verus!

//! The rules that a bot has to meet to be admitted.

use crate::common::content::push_item;
use crate::common::json::{json_get, json_members};
use crate::common::text::{join3, owned, str_eq};
use crate::webhook::admission::error::{AdmissionError, AdmissionResult};
use crate::webhook::admission::utils::{check_key_exists, key_exists, last_part, split_on};
use vstd::prelude::*;

verus! {

/// The version and kind that an object states.
#[derive(Debug, Clone)]
pub struct TypeMeta {
    pub api_version: String,
    pub kind: String,
}

/// An object as it is handed in for review: what it says it is, and its
/// content as JSON.
#[derive(Debug)]
pub struct DynamicObject {
    pub types: Option<TypeMeta>,
    pub data: serde_json::Value,
}

/// The keys of the configuration that the operator sets itself or does not
/// support. A bot that sets one is denied.
pub open spec fn reserved_config_keys() -> Seq<Seq<char>> {
    seq![
        "config.add_config_files"@,
        "config.recursive_strategy_search"@,
        "config.strategy_path"@,
        "config.strategy"@,
        "config.bot_name"@,
        "config.db_url"@,
        "config.api_server.enabled"@,
        "config.api_server.listen_ip_address"@,
        "config.api_server.listen_port"@,
        "config.api_server.jwt_secret_key"@,
        "config.api_server.username"@,
        "config.api_server.password"@,
        "config.api_server.ws_token"@,
        "config.telegram.token"@,
        "config.telegram.chat_id"@,
        "config.exchange.name"@,
        "config.exchange.key"@,
        "config.exchange.secret"@,
        "config.exchange.password"@,
        "config.freqai.enabled"@,
    ]
}

/// The environment variables that the operator sets itself. A bot that
/// sets one is denied.
pub open spec fn reserved_env_vars() -> Seq<Seq<char>> {
    seq![
        "FREQTRADE__STRATEGY"@,
        "FREQTRADE__STRATEGY_PATH"@,
        "FREQTRADE__DB_URL"@,
        "FREQTRADE__BOT_NAME"@,
        "FREQTRADE__API_SERVER__ENABLED"@,
        "FREQTRADE__API_SERVER__LISTEN_IP_ADDRESS"@,
        "FREQTRADE__API_SERVER__LISTEN_PORT"@,
        "FREQTRADE__API_SERVER__USERNAME"@,
        "FREQTRADE__API_SERVER__PASSWORD"@,
        "FREQTRADE__API_SERVER__JWT_SECRET_KEY"@,
        "FREQTRADE__API_SERVER__WS_TOKEN"@,
        "FREQTRADE__EXCHANGE__NAME"@,
        "FREQTRADE__EXCHANGE__KEY"@,
        "FREQTRADE__EXCHANGE__SECRET"@,
        "FREQTRADE__EXCHANGE__PASSWORD"@,
        "FREQTRADE__EXCHANGE__UID"@,
        "FREQTRADE__TELEGRAM__TOKEN"@,
        "FREQTRADE__TELEGRAM__CHAT_ID"@,
    ]
}

/// The reserved keys of the configuration.
fn config_keys() -> (r: Vec<&'static str>)
    ensures
        r.deep_view() == reserved_config_keys(),
{
    let mut keys: Vec<&'static str> = Vec::new();
    assert(keys.deep_view() =~= Seq::empty());
    push_item(&mut keys, "config.add_config_files");
    push_item(&mut keys, "config.recursive_strategy_search");
    push_item(&mut keys, "config.strategy_path");
    push_item(&mut keys, "config.strategy");
    push_item(&mut keys, "config.bot_name");
    push_item(&mut keys, "config.db_url");
    push_item(&mut keys, "config.api_server.enabled");
    push_item(&mut keys, "config.api_server.listen_ip_address");
    push_item(&mut keys, "config.api_server.listen_port");
    push_item(&mut keys, "config.api_server.jwt_secret_key");
    push_item(&mut keys, "config.api_server.username");
    push_item(&mut keys, "config.api_server.password");
    push_item(&mut keys, "config.api_server.ws_token");
    push_item(&mut keys, "config.telegram.token");
    push_item(&mut keys, "config.telegram.chat_id");
    push_item(&mut keys, "config.exchange.name");
    push_item(&mut keys, "config.exchange.key");
    push_item(&mut keys, "config.exchange.secret");
    push_item(&mut keys, "config.exchange.password");
    push_item(&mut keys, "config.freqai.enabled");
    assert(keys.deep_view() =~= reserved_config_keys());
    keys
}

/// The reserved environment variables.
fn env_vars() -> (r: Vec<&'static str>)
    ensures
        r.deep_view() == reserved_env_vars(),
{
    let mut keys: Vec<&'static str> = Vec::new();
    assert(keys.deep_view() =~= Seq::empty());
    push_item(&mut keys, "FREQTRADE__STRATEGY");
    push_item(&mut keys, "FREQTRADE__STRATEGY_PATH");
    push_item(&mut keys, "FREQTRADE__DB_URL");
    push_item(&mut keys, "FREQTRADE__BOT_NAME");
    push_item(&mut keys, "FREQTRADE__API_SERVER__ENABLED");
    push_item(&mut keys, "FREQTRADE__API_SERVER__LISTEN_IP_ADDRESS");
    push_item(&mut keys, "FREQTRADE__API_SERVER__LISTEN_PORT");
    push_item(&mut keys, "FREQTRADE__API_SERVER__USERNAME");
    push_item(&mut keys, "FREQTRADE__API_SERVER__PASSWORD");
    push_item(&mut keys, "FREQTRADE__API_SERVER__JWT_SECRET_KEY");
    push_item(&mut keys, "FREQTRADE__API_SERVER__WS_TOKEN");
    push_item(&mut keys, "FREQTRADE__EXCHANGE__NAME");
    push_item(&mut keys, "FREQTRADE__EXCHANGE__KEY");
    push_item(&mut keys, "FREQTRADE__EXCHANGE__SECRET");
    push_item(&mut keys, "FREQTRADE__EXCHANGE__PASSWORD");
    push_item(&mut keys, "FREQTRADE__EXCHANGE__UID");
    push_item(&mut keys, "FREQTRADE__TELEGRAM__TOKEN");
    push_item(&mut keys, "FREQTRADE__TELEGRAM__CHAT_ID");
    assert(keys.deep_view() =~= reserved_env_vars());
    keys
}

/// The first of the keys, from `from` on, that the document holds.
pub open spec fn first_present(value: serde_json::Value, keys: Seq<Seq<char>>, from: int) -> Option<int>
    decreases keys.len() - from,
{
    if from < 0 || from >= keys.len() {
        None
    } else if key_exists(value, keys[from]) {
        Some(from)
    } else {
        first_present(value, keys, from + 1)
    }
}

/// Finds the first of the keys that the document holds.
fn find_present(value: &serde_json::Value, keys: &Vec<&'static str>) -> (r: Option<usize>)
    ensures
        match r {
            Some(i) => first_present(*value, keys.deep_view(), 0) == Some(i as int) && i < keys.len(),
            None => first_present(*value, keys.deep_view(), 0) is None,
        },
{
    let mut i: usize = 0;
    while i < keys.len()
        invariant
            i <= keys.len(),
            first_present(*value, keys.deep_view(), 0) == first_present(*value, keys.deep_view(), i as int),
        decreases keys.len() - i,
    {
        if check_key_exists(value, keys[i]) {
            return Some(i);
        }
        i += 1;
    }
    None
}

/// What the validation of a spec yields: the first reserved configuration
/// key that it holds is named; else the first reserved environment
/// variable; else the spec passes.
pub open spec fn v1alpha1_outcome(spec: serde_json::Value, r: AdmissionResult<()>) -> bool {
    match first_present(spec, reserved_config_keys(), 0) {
        Some(i) => r is Err && r->Err_0 is ValidationError && r->Err_0->ValidationError_0@ == "config key `"@
            + reserved_config_keys()[i] + "` is reserved"@,
        None => match first_present(spec, reserved_env_vars(), 0) {
            Some(j) => r is Err && r->Err_0 is ValidationError && r->Err_0->ValidationError_0@
                == "env var `"@ + reserved_env_vars()[j] + "` is reserved"@,
            None => r is Ok,
        },
    }
}

/// Validates the spec of a bot of version `v1alpha1`.
pub fn validate_bot_v1alpha1(spec: &serde_json::Value) -> (r: AdmissionResult<()>)
    ensures
        v1alpha1_outcome(*spec, r),
{
    let reserved_keys = config_keys();
    match find_present(spec, &reserved_keys) {
        Some(i) => {
            return Err(
                AdmissionError::ValidationError(join3("config key `", reserved_keys[i], "` is reserved")),
            );
        },
        None => {},
    }
    let reserved_vars = env_vars();
    match find_present(spec, &reserved_vars) {
        Some(j) => {
            return Err(
                AdmissionError::ValidationError(join3("env var `", reserved_vars[j], "` is reserved")),
            );
        },
        None => {},
    }
    Ok(())
}

/// The version of an API version: what follows its last `/`.
pub open spec fn version_of(api_version: Seq<char>) -> Seq<char> {
    split_on(api_version, '/').last()
}

/// The kind that an object states; empty where it states none.
pub open spec fn stated_kind(payload: &DynamicObject) -> Seq<char> {
    match payload.types {
        Some(t) => t.kind@,
        None => Seq::empty(),
    }
}

/// What the validation of an object yields. An object that is no `Bot`,
/// or that does not say what it is, is of an invalid kind; one of a version
/// other than `v1alpha1` is of an invalid version; else its spec is
/// validated, and an object without a spec passes.
pub open spec fn crd_outcome(payload: &DynamicObject, r: AdmissionResult<()>) -> bool {
    let types = payload.types->0;
    if payload.types is None || types.kind@ != "Bot"@ {
        r is Err && r->Err_0 is InvalidKind && r->Err_0->InvalidKind_0@ == stated_kind(payload)
            && r->Err_0->InvalidKind_1@ == "Bot"@
    } else if version_of(types.api_version@) != "v1alpha1"@ {
        r is Err && r->Err_0 is InvalidVersion && r->Err_0->InvalidVersion_0@ == version_of(
            types.api_version@,
        ) && r->Err_0->InvalidVersion_1@ == "Bot"@
    } else if json_members(payload.data).contains_key("spec"@) {
        v1alpha1_outcome(json_members(payload.data)["spec"@], r)
    } else {
        r is Ok
    }
}

/// Validates an object that is handed in for review.
pub fn validate_bot_crd(payload: &DynamicObject) -> (r: AdmissionResult<()>)
    ensures
        crd_outcome(payload, r),
{
    let types = match &payload.types {
        Some(t) => t,
        None => {
            return Err(AdmissionError::InvalidKind(String::new(), owned("Bot")));
        },
    };
    if !str_eq(types.kind.as_str(), "Bot") {
        return Err(AdmissionError::InvalidKind(types.kind.clone(), owned("Bot")));
    }
    let version = last_part(types.api_version.as_str(), '/');
    if !str_eq(version, "v1alpha1") {
        return Err(AdmissionError::InvalidVersion(owned(version), owned("Bot")));
    }
    match json_get(&payload.data, "spec") {
        Some(spec) => validate_bot_v1alpha1(spec),
        None => Ok(()),
    }
}

/// The answer to a review.
#[derive(Debug, Clone)]
pub struct AdmissionVerdict {
    pub allowed: bool,
    /// Why the object is denied; empty for an object that is allowed.
    pub message: String,
}

/// The answer that a validation leads to: allowed if it passed, else
/// denied with the message of the error.
pub fn verdict_of(result: &AdmissionResult<()>) -> (r: AdmissionVerdict)
    ensures
        r.allowed == (result is Ok),
        match result {
            Ok(_) => r.message@.len() == 0,
            Err(e) => r.message@ == e.message(),
        },
{
    match result {
        Ok(_) => AdmissionVerdict { allowed: true, message: String::new() },
        Err(e) => AdmissionVerdict { allowed: false, message: e.to_string() },
    }
}

} // verus!

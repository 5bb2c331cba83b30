use ft_operator::webhook::admission::bot::{
    validate_bot_crd, validate_bot_v1alpha1, verdict_of, DynamicObject, TypeMeta,
};
use ft_operator::webhook::admission::error::AdmissionError;
use ft_operator::webhook::admission::utils::{check_key_exists, last_part, split};
use ft_operator::webhook::error::APIError;
use serde_json::Value;

fn parse(text: &str) -> Value {
    serde_json::from_str(text).unwrap()
}

fn review_object(api_version: &str, kind: &str, data: &str) -> DynamicObject {
    DynamicObject {
        types: Some(TypeMeta { api_version: api_version.to_string(), kind: kind.to_string() }),
        data: parse(data),
    }
}

#[test]
fn check_key_exists_walks_nested_objects() {
    let v = parse(r#"{"config":{"api_server":{"enabled":true},"strategy":null},"list":[{"a":1}]}"#);
    assert!(check_key_exists(&v, "config"));
    assert!(check_key_exists(&v, "config.api_server"));
    assert!(check_key_exists(&v, "config.api_server.enabled"));
    assert!(check_key_exists(&v, "config.strategy"));
    assert!(!check_key_exists(&v, "config.api_server.port"));
    assert!(!check_key_exists(&v, "config.api_server.enabled.deeper"));
    assert!(!check_key_exists(&v, "missing"));
    assert!(!check_key_exists(&v, "list.0"));
    assert!(!check_key_exists(&v, "list.a"));
    assert!(!check_key_exists(&v, ""));
    assert!(!check_key_exists(&v, "config."));
    assert!(!check_key_exists(&v, ".config"));
}

#[test]
fn check_key_exists_on_values_that_are_no_objects() {
    assert!(!check_key_exists(&Value::Null, "a"));
    assert!(!check_key_exists(&parse("[1,2]"), "0"));
    assert!(!check_key_exists(&parse("\"text\""), "text"));
    assert!(check_key_exists(&parse(r#"{"":{"":1}}"#), "."));
    assert!(check_key_exists(&parse(r#"{"":1}"#), ""));
    assert!(check_key_exists(&parse(r#"{"a.b":1,"a":{"b":2}}"#), "a.b"));
    assert!(!check_key_exists(&parse(r#"{"a.b":1}"#), "a.b"));
}

#[test]
fn split_keeps_empty_parts() {
    assert_eq!(split("a.b.c", '.'), vec!["a", "b", "c"]);
    assert_eq!(split("abc", '.'), vec!["abc"]);
    assert_eq!(split("", '.'), vec![""]);
    assert_eq!(split(".", '.'), vec!["", ""]);
    assert_eq!(split("a..b", '.'), vec!["a", "", "b"]);
    assert_eq!(split("a.", '.'), vec!["a", ""]);
    assert_eq!(split("é.ü", '.'), vec!["é", "ü"]);
    assert_eq!(last_part("freqtrade.io/v1alpha1", '/'), "v1alpha1");
    assert_eq!(last_part("v1", '/'), "v1");
    assert_eq!(last_part("a/b/", '/'), "");
}

#[test]
fn admission_reserved_key_denial() {
    let object = review_object(
        "freqtrade.io/v1alpha1",
        "Bot",
        r#"{"spec":{"exchange":"binance","config":{"api_server":{"enabled":true}}}}"#,
    );
    let result = validate_bot_crd(&object);
    match &result {
        Err(AdmissionError::ValidationError(m)) => assert_eq!(m, "config key `config.api_server.enabled` is reserved"),
        _ => panic!("a denial was expected"),
    }
    let verdict = verdict_of(&result);
    assert!(!verdict.allowed);
    assert_eq!(verdict.message, "validation error: config key `config.api_server.enabled` is reserved");
}

#[test]
fn admission_wrong_version() {
    let object = review_object("freqtrade.io/v1beta1", "Bot", r#"{"spec":{"exchange":"binance"}}"#);
    let result = validate_bot_crd(&object);
    match &result {
        Err(AdmissionError::InvalidVersion(found, kind)) => {
            assert_eq!(found, "v1beta1");
            assert_eq!(kind, "Bot");
        },
        _ => panic!("an invalid version was expected"),
    }
    let verdict = verdict_of(&result);
    assert!(!verdict.allowed);
    assert_eq!(verdict.message, "invalid version: v1beta1 for Bot");
    assert!(verdict.message.contains("invalid version"));
}

#[test]
fn admission_wrong_kind() {
    let object = review_object("freqtrade.io/v1alpha1", "Pod", r#"{"spec":{}}"#);
    let result = validate_bot_crd(&object);
    match &result {
        Err(AdmissionError::InvalidKind(found, expected)) => {
            assert_eq!(found, "Pod");
            assert_eq!(expected, "Bot");
        },
        _ => panic!("an invalid kind was expected"),
    }
    assert_eq!(verdict_of(&result).message, "invalid kind: Pod expected Bot");
    let object = review_object("freqtrade.io/v1beta1", "Pod", r#"{}"#);
    assert!(matches!(validate_bot_crd(&object), Err(AdmissionError::InvalidKind(_, _))));
}

#[test]
fn admission_denies_an_object_that_does_not_say_what_it_is() {
    let object = DynamicObject { types: None, data: parse(r#"{"spec":{"exchange":"binance"}}"#) };
    let result = validate_bot_crd(&object);
    match &result {
        Err(AdmissionError::InvalidKind(found, expected)) => {
            assert_eq!(found, "");
            assert_eq!(expected, "Bot");
        },
        _ => panic!("an invalid kind was expected"),
    }
    let verdict = verdict_of(&result);
    assert!(!verdict.allowed);
    assert_eq!(verdict.message, "invalid kind:  expected Bot");
}

#[test]
fn admission_allows_a_clean_bot() {
    let object = review_object(
        "freqtrade.io/v1alpha1",
        "Bot",
        r#"{"spec":{"exchange":"binance","config":{"max_open_trades":3,"exchange":{"pair_whitelist":["BTC/USDT"]}}}}"#,
    );
    let result = validate_bot_crd(&object);
    assert!(result.is_ok());
    let verdict = verdict_of(&result);
    assert!(verdict.allowed);
    assert_eq!(verdict.message, "");
    assert!(validate_bot_crd(&review_object("v1alpha1", "Bot", r#"{"metadata":{}}"#)).is_ok());
    assert!(validate_bot_crd(&review_object("freqtrade.io/v1alpha1", "Bot", r#"{"spec":null}"#)).is_ok());
}

#[test]
fn every_reserved_config_key_is_denied() {
    let keys = [
        "add_config_files",
        "recursive_strategy_search",
        "strategy_path",
        "strategy",
        "bot_name",
        "db_url",
        "api_server.enabled",
        "api_server.listen_ip_address",
        "api_server.listen_port",
        "api_server.jwt_secret_key",
        "api_server.username",
        "api_server.password",
        "api_server.ws_token",
        "telegram.token",
        "telegram.chat_id",
        "exchange.name",
        "exchange.key",
        "exchange.secret",
        "exchange.password",
        "freqai.enabled",
    ];
    for key in keys {
        let parts: Vec<&str> = key.split('.').collect();
        let inner = if parts.len() == 1 {
            format!("{{\"{}\":1}}", parts[0])
        } else {
            format!("{{\"{}\":{{\"{}\":1}}}}", parts[0], parts[1])
        };
        let spec = parse(&format!("{{\"config\":{}}}", inner));
        match validate_bot_v1alpha1(&spec) {
            Err(AdmissionError::ValidationError(m)) => assert_eq!(m, format!("config key `config.{}` is reserved", key)),
            _ => panic!("a denial was expected"),
        }
    }
}

#[test]
fn every_reserved_env_var_is_denied() {
    let vars = [
        "FREQTRADE__STRATEGY",
        "FREQTRADE__STRATEGY_PATH",
        "FREQTRADE__DB_URL",
        "FREQTRADE__BOT_NAME",
        "FREQTRADE__API_SERVER__ENABLED",
        "FREQTRADE__API_SERVER__LISTEN_IP_ADDRESS",
        "FREQTRADE__API_SERVER__LISTEN_PORT",
        "FREQTRADE__API_SERVER__USERNAME",
        "FREQTRADE__API_SERVER__PASSWORD",
        "FREQTRADE__API_SERVER__JWT_SECRET_KEY",
        "FREQTRADE__API_SERVER__WS_TOKEN",
        "FREQTRADE__EXCHANGE__NAME",
        "FREQTRADE__EXCHANGE__KEY",
        "FREQTRADE__EXCHANGE__SECRET",
        "FREQTRADE__EXCHANGE__PASSWORD",
        "FREQTRADE__EXCHANGE__UID",
        "FREQTRADE__TELEGRAM__TOKEN",
        "FREQTRADE__TELEGRAM__CHAT_ID",
    ];
    for var in vars {
        let spec = parse(&format!("{{\"{}\":\"x\"}}", var));
        match validate_bot_v1alpha1(&spec) {
            Err(AdmissionError::ValidationError(m)) => assert_eq!(m, format!("env var `{}` is reserved", var)),
            _ => panic!("a denial was expected"),
        }
    }
}

#[test]
fn the_first_reserved_key_is_named() {
    let spec = parse(r#"{"config":{"db_url":"x","strategy":"y"},"FREQTRADE__DB_URL":"z"}"#);
    match validate_bot_v1alpha1(&spec) {
        Err(AdmissionError::ValidationError(m)) => assert_eq!(m, "config key `config.strategy` is reserved"),
        _ => panic!("a denial was expected"),
    }
    assert!(validate_bot_v1alpha1(&parse(r#"{"config":{"exchange":{"uid":"x"}}}"#)).is_ok());
    assert!(validate_bot_v1alpha1(&Value::Null).is_ok());
}

#[test]
fn admission_error_messages() {
    assert_eq!(AdmissionError::InvalidKind("A".to_string(), "B".to_string()).to_string(), "invalid kind: A expected B");
    assert_eq!(AdmissionError::InvalidVersion("v9".to_string(), "Bot".to_string()).to_string(), "invalid version: v9 for Bot");
    assert_eq!(AdmissionError::ValidationError("nope".to_string()).to_string(), "validation error: nope");
}

#[test]
fn api_errors_carry_their_codes() {
    let e = APIError::new(418, "teapot".to_string());
    assert_eq!((e.code, e.message.as_str()), (418, "teapot"));
    let e = APIError::unexpected_error("boom");
    assert_eq!((e.code, e.message.as_str()), (50000, "boom"));
    let e = APIError::invalid_content_type("text/plain");
    assert_eq!((e.code, e.message.as_str()), (40001, "Invalid content type: text/plain"));
    let e = APIError::invalid_data_format("bad json");
    assert_eq!((e.code, e.message.as_str()), (40002, "bad json"));
    let e = APIError::not_implemented();
    assert_eq!((e.code, e.message.as_str()), (50001, "Not implemented"));
}

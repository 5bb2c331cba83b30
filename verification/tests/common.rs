use ft_operator::common::config::{AppConfig, ControllerConfig, TLSConfig, WebhookConfig};
use ft_operator::common::content::{append_items, push_item, Content};
use ft_operator::common::string_map::StringMap;
use ft_operator::common::text::{bool_to_string, join2, join3, owned, str_eq, u16_to_string};
use ft_operator::common::utils::{compute_object_hash, hash_of_serialized, HashError};
use ft_operator::crd::hub::bot::{
    default_database, Bot, BotApiSpec, BotDeploymentSpec, BotImageSpec, BotModelSpec, BotPhase,
    BotPvcSpec, BotServiceSpec,
};
use ft_operator::crd::hub::common::SecretItem;
use ft_operator::crd::v1alpha1;
use ft_operator::objects::ObjectMeta;

fn map_of(entries: &[(&str, &str)]) -> StringMap {
    let mut m = StringMap::new();
    for (k, v) in entries {
        m.insert(k.to_string(), v.to_string());
    }
    m
}

#[test]
fn numbers_are_written_in_decimal() {
    assert_eq!(u16_to_string(0), "0");
    assert_eq!(u16_to_string(7), "7");
    assert_eq!(u16_to_string(10), "10");
    assert_eq!(u16_to_string(8080), "8080");
    assert_eq!(u16_to_string(8443), "8443");
    assert_eq!(u16_to_string(65535), "65535");
    for n in [1u16, 99, 100, 1000, 12345, 40001] {
        assert_eq!(u16_to_string(n), n.to_string());
    }
}

#[test]
fn text_helpers() {
    assert_eq!(bool_to_string(true), "true");
    assert_eq!(bool_to_string(false), "false");
    assert!(str_eq("abc", "abc"));
    assert!(!str_eq("abc", "abd"));
    assert!(!str_eq("abc", "ab"));
    assert!(str_eq("", ""));
    assert_eq!(owned("x"), "x");
    assert_eq!(join2("a", "b"), "ab");
    assert_eq!(join3("repo", ":", "tag"), "repo:tag");
}

#[test]
fn string_map_later_entries_win() {
    let mut m = StringMap::new();
    assert!(m.get("a").is_none());
    assert!(!m.contains_key("a"));
    m.insert("a".to_string(), "1".to_string());
    m.insert("b".to_string(), "2".to_string());
    m.insert("a".to_string(), "3".to_string());
    assert_eq!(m.get("a").map(|s| s.as_str()), Some("3"));
    assert_eq!(m.get("b").map(|s| s.as_str()), Some("2"));
    assert!(m.contains_key("b"));
    assert!(m.get("c").is_none());
}

#[test]
fn string_map_extend_prefers_the_added_entries() {
    let mut m = map_of(&[("a", "1"), ("b", "2")]);
    m.extend(&map_of(&[("b", "9"), ("c", "3")]));
    assert_eq!(m.get("a").map(|s| s.as_str()), Some("1"));
    assert_eq!(m.get("b").map(|s| s.as_str()), Some("9"));
    assert_eq!(m.get("c").map(|s| s.as_str()), Some("3"));
}

#[test]
fn string_map_equality_ignores_order() {
    let a = map_of(&[("a", "1"), ("b", "2")]);
    let b = map_of(&[("b", "2"), ("a", "1")]);
    let c = map_of(&[("a", "1"), ("b", "3")]);
    let d = map_of(&[("a", "1")]);
    let e = map_of(&[("a", "0"), ("b", "2"), ("a", "1")]);
    assert!(a.same(&b) && b.same(&a));
    assert!(!a.same(&c));
    assert!(!a.same(&d) && !d.same(&a));
    assert!(a.same(&e));
    assert!(d.included_in(&a));
    assert!(!a.included_in(&d));
    assert!(StringMap::new().included_in(&d));
    assert!(a.dup().same(&a));
}

#[test]
fn content_of_options_and_lists() {
    let a = vec!["x".to_string(), "y".to_string()];
    assert!(a.same(&a.dup()));
    assert!(!a.same(&vec!["x".to_string()]));
    assert!(!a.same(&vec!["y".to_string(), "x".to_string()]));
    assert!(Some(1i32).same(&Some(1)));
    assert!(!Some(1i32).same(&None));
    assert!(None::<i32>.same(&None));
    assert!(!Some(true).same(&Some(false)));
    assert!(("a".to_string(), 1u16).same(&("a".to_string(), 1u16)));
    let mut v = vec![1i32];
    push_item(&mut v, 2);
    append_items(&mut v, &vec![3, 4]);
    assert_eq!(v, vec![1, 2, 3, 4]);
}

#[test]
fn hash_is_the_blake3_of_the_canonical_json() {
    let data = Some(map_of(&[("strategy.py", "pass"), ("config.json", "null")]));
    let expected = blake3::hash(br#"{"config.json":"null","strategy.py":"pass"}"#).to_hex().to_string();
    assert_eq!(compute_object_hash(&data), Ok(expected));
    let none = blake3::hash(b"null").to_hex().to_string();
    assert_eq!(compute_object_hash(&None), Ok(none));
    let escaped = Some(map_of(&[("k", "a\"b\n")]));
    let expected = blake3::hash(br#"{"k":"a\"b\n"}"#).to_hex().to_string();
    assert_eq!(compute_object_hash(&escaped), Ok(expected));
}

#[test]
fn hash_is_stable_under_reordering_and_changes_with_values() {
    let a = Some(map_of(&[("a", "1"), ("b", "2"), ("c", "3")]));
    let b = Some(map_of(&[("c", "3"), ("a", "1"), ("b", "2")]));
    let c = Some(map_of(&[("a", "1"), ("b", "2"), ("c", "4")]));
    let ha = compute_object_hash(&a).unwrap();
    assert_eq!(ha.len(), 64);
    assert!(ha.chars().all(|ch| ch.is_ascii_digit() || ('a'..='f').contains(&ch)));
    assert_eq!(ha, compute_object_hash(&b).unwrap());
    assert_ne!(ha, compute_object_hash(&c).unwrap());
    assert_ne!(ha, compute_object_hash(&Some(StringMap::new())).unwrap());
}

#[test]
fn hash_of_a_failed_serialisation_is_an_error() {
    let failure = serde_json::from_str::<serde_json::Value>("{").unwrap_err();
    assert_eq!(hash_of_serialized(Err(failure)), Err(HashError::Serialization));
    let expected = blake3::hash(b"{}").to_hex().to_string();
    assert_eq!(hash_of_serialized(Ok("{}".to_string())), Ok(expected));
}

#[test]
fn configuration_defaults() {
    let config = AppConfig::default();
    assert_eq!(config.controller.default_image_repo, "freqtradeorg/freqtrade");
    assert_eq!(config.controller.default_image_tag, "stable");
    assert_eq!(config.webhook.host, "0.0.0.0");
    assert_eq!(config.webhook.port, 8443);
    assert_eq!(config.webhook.tls.cert_file, "/etc/ssl/certs/tls.crt");
    assert_eq!(config.webhook.tls.key_file, "/etc/ssl/certs/tls.key");
    assert_eq!(ControllerConfig::default().default_image_tag, "stable");
    assert_eq!(WebhookConfig::default().port, 8443);
    assert_eq!(TLSConfig::default().key_file, "/etc/ssl/certs/tls.key");
}

#[test]
fn spec_defaults() {
    assert_eq!(default_database(), "sqlite:///database.db");
    assert_eq!(v1alpha1::bot::default_database(), "sqlite:///database.db");
    let image = BotImageSpec::default();
    assert_eq!(image.repository.as_deref(), Some("freqtradeorg/freqtrade"));
    assert_eq!(image.tag.as_deref(), Some("stable"));
    assert!(image.pull_policy.is_none() && image.pull_secrets.is_none());
    let api = BotApiSpec::default();
    assert!(api.enabled);
    assert_eq!(api.host, "0.0.0.0");
    assert_eq!(api.port, 8080);
    let service = BotServiceSpec::default();
    assert_eq!(service.service_type, "ClusterIP");
    assert!(service.ports.is_empty() && service.labels.is_none() && service.annotations.is_none());
    let pvc = BotPvcSpec::default();
    assert!(pvc.enabled);
    assert_eq!(pvc.size, "1Gi");
    assert!(pvc.storage_class.is_none());
    assert_eq!(BotModelSpec::default().name, "LightGBMRegressor");
    let deployment = BotDeploymentSpec::default();
    assert!(deployment.command.is_none() && deployment.env.is_empty() && deployment.volumes.is_empty());
    let wire = v1alpha1::bot::BotSecrets::default();
    assert!(wire.api.is_none() && wire.exchange.is_none() && wire.telegram.is_none());
    assert_eq!(v1alpha1::bot::BotPhase::Running.to_string(), "running");
}

#[test]
fn wire_version_is_carried_over_into_the_hub() {
    let wire = v1alpha1::bot::Bot {
        metadata: ObjectMeta {
            name: Some("bot".to_string()),
            namespace: Some("ns".to_string()),
            uid: None,
            owner_references: None,
            annotations: None,
            labels: None,
            finalizers: None,
            deletion_timestamp: None,
        },
        spec: v1alpha1::bot::BotSpec {
            exchange: "kraken".to_string(),
            database: v1alpha1::bot::default_database(),
            config: None,
            strategy: v1alpha1::bot::BotStrategySpec { name: "S".to_string(), config_map_name: Some("cm".to_string()), source: None },
            model: Some(v1alpha1::bot::BotModelSpec::default()),
            image: v1alpha1::bot::BotImageSpec::default(),
            secrets: v1alpha1::bot::BotSecrets {
                exchange: Some(v1alpha1::bot::ExchangeSecrets {
                    key: Some(v1alpha1::common::SecretItem::Value { value: "k".to_string() }),
                    secret: Some(v1alpha1::common::SecretItem::SecretKeyRef {
                        secret_key_ref: v1alpha1::common::SecretKeyRef { name: "n".to_string(), key: "s".to_string() },
                    }),
                    password: None,
                    uid: None,
                }),
                api: None,
                telegram: Some(v1alpha1::bot::TelegramSecrets { token: None, chat_id: Some("42".to_string()) }),
            },
            api: v1alpha1::bot::BotApiSpec { enabled: false, host: "h".to_string(), port: 1 },
            service: v1alpha1::bot::BotServiceSpec {
                service_type: "NodePort".to_string(),
                annotations: None,
                labels: None,
                ports: vec![
                    v1alpha1::bot::BotServicePort { name: "a".to_string(), port: 1, target_port: "x".to_string() },
                    v1alpha1::bot::BotServicePort { name: "b".to_string(), port: 2, target_port: "y".to_string() },
                ],
            },
            pvc: v1alpha1::bot::BotPvcSpec::default(),
            deployment: v1alpha1::bot::BotDeploymentSpec::default(),
        },
        status: Some(v1alpha1::bot::BotStatus { phase: "running".to_string(), last_updated: None }),
    };
    let hub = Bot::from(wire);
    assert_eq!(hub.metadata.name.as_deref(), Some("bot"));
    assert_eq!(hub.spec.exchange, "kraken");
    assert_eq!(hub.spec.database, "sqlite:///database.db");
    assert_eq!(hub.spec.strategy.config_map_name.as_deref(), Some("cm"));
    assert_eq!(hub.spec.model.as_ref().unwrap().name, "LightGBMRegressor");
    assert_eq!(hub.spec.image.tag.as_deref(), Some("stable"));
    let exchange = hub.spec.secrets.exchange.as_ref().unwrap();
    assert!(matches!(exchange.key.as_ref().unwrap(), SecretItem::Value { value } if value == "k"));
    assert!(matches!(exchange.secret.as_ref().unwrap(), SecretItem::SecretKeyRef { secret_key_ref } if secret_key_ref.name == "n" && secret_key_ref.key == "s"));
    assert_eq!(hub.spec.secrets.telegram.as_ref().unwrap().chat_id.as_deref(), Some("42"));
    assert!(!hub.spec.api.enabled);
    assert_eq!(hub.spec.api.port, 1);
    assert_eq!(hub.spec.service.service_type, "NodePort");
    assert_eq!(hub.spec.service.ports.len(), 2);
    assert_eq!(hub.spec.service.ports[1].name, "b");
    assert_eq!(hub.spec.service.ports[1].port, 2);
    assert_eq!(hub.spec.service.ports[1].target_port, "y");
    assert!(hub.spec.pvc.enabled);
    assert_eq!(hub.status.as_ref().unwrap().phase, "running");
    assert_eq!(BotPhase::from(v1alpha1::bot::BotPhase::Deleting), BotPhase::Deleting);
    assert_eq!(BotPhase::from(v1alpha1::bot::BotPhase::Error), BotPhase::Error);
}

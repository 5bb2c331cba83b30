use ft_operator::common::config::AppConfig;
use ft_operator::common::content::Content;
use ft_operator::common::string_map::StringMap;
use ft_operator::controller::config_map::config_map_with_text;
use ft_operator::controller::env::{create_env_var, create_secret_env_var};
use ft_operator::controller::traits::FromHub;
use ft_operator::crd::hub::bot::{
    ApiSecrets, Bot, BotApiSpec, BotDeploymentSpec, BotImageSpec, BotModelSpec, BotPvcSpec, BotSecrets,
    BotServicePort, BotServiceSpec, BotSpec, BotStrategySpec, TelegramSecrets,
};
use ft_operator::crd::hub::common::{SecretItem, SecretKeyRef};
use ft_operator::objects::{
    ConfigMap, Deployment, EnvVar, EnvVarSource, Fragment, IntOrString, ObjectMeta, OwnerReference,
    PersistentVolumeClaim, Service, Volume, VolumeSource,
};
use std::collections::BTreeMap;

fn projection_meta() -> ObjectMeta {
    ObjectMeta {
        name: Some("bot".to_string()),
        namespace: Some("ns".to_string()),
        uid: Some("uid-1".to_string()),
        owner_references: None,
        annotations: None,
        labels: None,
        finalizers: None,
        deletion_timestamp: None,
    }
}

fn projection_bot() -> Bot {
    Bot {
        metadata: projection_meta(),
        spec: BotSpec {
            exchange: "binance".to_string(),
            database: "sqlite:///database.db".to_string(),
            config: None,
            strategy: BotStrategySpec {
                name: "S".to_string(),
                config_map_name: None,
                source: Some("pass".to_string()),
            },
            model: None,
            image: BotImageSpec::default(),
            secrets: BotSecrets { exchange: None, api: None, telegram: None },
            api: BotApiSpec::default(),
            service: BotServiceSpec::default(),
            pvc: BotPvcSpec::default(),
            deployment: BotDeploymentSpec::default(),
        },
        status: None,
    }
}

fn projection_owner() -> OwnerReference {
    OwnerReference {
        api_version: "freqtrade.io/v1alpha1".to_string(),
        kind: "Bot".to_string(),
        name: "bot".to_string(),
        uid: "uid-1".to_string(),
        controller: Some(true),
        block_owner_deletion: None,
    }
}

fn env_of(deployment: &Deployment) -> Vec<EnvVar> {
    deployment.spec.as_ref().unwrap().template.spec.as_ref().unwrap().containers[0].env.clone().unwrap()
}

fn value_of(env: &[EnvVar], name: &str) -> Option<String> {
    env.iter().find(|e| e.name == name).unwrap().value.clone()
}

#[test]
fn deployment_has_one_replica_and_one_container() {
    let d = Deployment::from_hub(&projection_bot(), "bot", "ns", projection_owner(), &AppConfig::default());
    let spec = d.spec.as_ref().unwrap();
    assert_eq!(spec.replicas, Some(1));
    let pod = spec.template.spec.as_ref().unwrap();
    assert_eq!(pod.containers.len(), 1);
    let c = &pod.containers[0];
    assert_eq!(c.name, "bot");
    assert_eq!(c.image.as_deref(), Some("freqtradeorg/freqtrade:stable"));
    assert_eq!(c.image_pull_policy, None);
    let ports = c.ports.as_ref().unwrap();
    assert_eq!(ports.len(), 1);
    assert_eq!(ports[0].container_port, 8080);
    assert_eq!(ports[0].name.as_deref(), Some("api"));
    let mounts = c.volume_mounts.as_ref().unwrap();
    assert_eq!(mounts.len(), 1);
    assert_eq!(mounts[0].name, "config");
    assert_eq!(mounts[0].mount_path, "/etc/freqtrade");
    assert!(pod.init_containers.is_none());
    assert!(d.status.is_none());
}

#[test]
fn deployment_metadata_names_owner_and_namespace() {
    let d = Deployment::from_hub(&projection_bot(), "bot", "ns", projection_owner(), &AppConfig::default());
    assert_eq!(d.metadata.name.as_deref(), Some("bot"));
    assert_eq!(d.metadata.namespace.as_deref(), Some("ns"));
    let owners = d.metadata.owner_references.as_ref().unwrap();
    assert_eq!(owners.len(), 1);
    assert_eq!(owners[0].uid, "uid-1");
    assert_eq!(owners[0].kind, "Bot");
    assert_eq!(owners[0].controller, Some(true));
}

#[test]
fn image_falls_back_to_operator_defaults() {
    let mut bot = projection_bot();
    bot.spec.image = BotImageSpec { repository: None, tag: None, pull_policy: Some("Always".to_string()), pull_secrets: Some(vec!["regcred".to_string()]) };
    let mut config = AppConfig::default();
    config.controller.default_image_repo = "example.org/ft".to_string();
    config.controller.default_image_tag = "2024.1".to_string();
    let d = Deployment::from_hub(&bot, "bot", "ns", projection_owner(), &config);
    let pod = d.spec.as_ref().unwrap().template.spec.as_ref().unwrap();
    assert_eq!(pod.containers[0].image.as_deref(), Some("example.org/ft:2024.1"));
    assert_eq!(pod.containers[0].image_pull_policy.as_deref(), Some("Always"));
    assert_eq!(pod.image_pull_secrets, Some(vec!["regcred".to_string()]));
    bot.spec.image.repository = Some("mine/ft".to_string());
    let d = Deployment::from_hub(&bot, "bot", "ns", projection_owner(), &config);
    let pod = d.spec.as_ref().unwrap().template.spec.as_ref().unwrap();
    assert_eq!(pod.containers[0].image.as_deref(), Some("mine/ft:2024.1"));
}

#[test]
fn default_command_without_and_with_model() {
    let mut bot = projection_bot();
    let d = Deployment::from_hub(&bot, "bot", "ns", projection_owner(), &AppConfig::default());
    let c = &d.spec.as_ref().unwrap().template.spec.as_ref().unwrap().containers[0];
    assert_eq!(
        c.command,
        Some(vec![
            "freqtrade".to_string(),
            "trade".to_string(),
            "--config".to_string(),
            "/etc/freqtrade/config.json".to_string()
        ])
    );
    bot.spec.model = Some(BotModelSpec::default());
    let d = Deployment::from_hub(&bot, "bot", "ns", projection_owner(), &AppConfig::default());
    let c = &d.spec.as_ref().unwrap().template.spec.as_ref().unwrap().containers[0];
    assert_eq!(
        c.command,
        Some(vec![
            "freqtrade".to_string(),
            "trade".to_string(),
            "--config".to_string(),
            "/etc/freqtrade/config.json".to_string(),
            "--freqaimodel".to_string(),
            "LightGBMRegressor".to_string()
        ])
    );
}

#[test]
fn user_command_expands_cmd_token_in_place() {
    let mut bot = projection_bot();
    bot.spec.deployment.command =
        Some(vec!["sh".to_string(), "-c".to_string(), "$CMD".to_string(), "--verbose".to_string()]);
    let d = Deployment::from_hub(&bot, "bot", "ns", projection_owner(), &AppConfig::default());
    let c = &d.spec.as_ref().unwrap().template.spec.as_ref().unwrap().containers[0];
    assert_eq!(
        c.command,
        Some(vec![
            "sh".to_string(),
            "-c".to_string(),
            "freqtrade".to_string(),
            "trade".to_string(),
            "--config".to_string(),
            "/etc/freqtrade/config.json".to_string(),
            "--verbose".to_string()
        ])
    );
}

#[test]
fn user_command_without_token_replaces_default() {
    let mut bot = projection_bot();
    bot.spec.deployment.command = Some(vec!["sleep".to_string(), "1".to_string()]);
    let d = Deployment::from_hub(&bot, "bot", "ns", projection_owner(), &AppConfig::default());
    let c = &d.spec.as_ref().unwrap().template.spec.as_ref().unwrap().containers[0];
    assert_eq!(c.command, Some(vec!["sleep".to_string(), "1".to_string()]));
    bot.spec.deployment.command = Some(vec![]);
    let d = Deployment::from_hub(&bot, "bot", "ns", projection_owner(), &AppConfig::default());
    let c = &d.spec.as_ref().unwrap().template.spec.as_ref().unwrap().containers[0];
    assert_eq!(c.command, Some(vec![]));
}

#[test]
fn environment_has_fixed_order() {
    let d = Deployment::from_hub(&projection_bot(), "bot", "ns", projection_owner(), &AppConfig::default());
    let env = env_of(&d);
    let names: Vec<&str> = env.iter().map(|e| e.name.as_str()).collect();
    assert_eq!(
        names,
        vec![
            "FREQTRADE__STRATEGY",
            "FREQTRADE__STRATEGY_PATH",
            "FREQTRADE__FREQAIMODEL_PATH",
            "FREQTRADE__DB_URL",
            "FREQTRADE__BOT_NAME",
            "FREQTRADE__API_SERVER__ENABLED",
            "FREQTRADE__API_SERVER__LISTEN_IP_ADDRESS",
            "FREQTRADE__API_SERVER__LISTEN_PORT",
            "FREQTRADE__EXCHANGE__NAME",
            "FREQTRADE__TELEGRAM__CHAT_ID",
            "FREQTRADE__API_SERVER__USERNAME",
            "FREQTRADE__API_SERVER__PASSWORD",
            "FREQTRADE__API_SERVER__WS_TOKEN",
            "FREQTRADE__API_SERVER__JWT_SECRET_KEY",
            "FREQTRADE__TELEGRAM__TOKEN",
            "FREQTRADE__EXCHANGE__KEY",
            "FREQTRADE__EXCHANGE__SECRET",
            "FREQTRADE__EXCHANGE__PASSWORD",
            "FREQTRADE__EXCHANGE__UID",
        ]
    );
}

#[test]
fn environment_values_come_from_the_spec() {
    let mut bot = projection_bot();
    bot.spec.api = BotApiSpec { enabled: false, host: "127.0.0.1".to_string(), port: 65535 };
    let d = Deployment::from_hub(&bot, "bot", "ns", projection_owner(), &AppConfig::default());
    let env = env_of(&d);
    assert_eq!(value_of(&env, "FREQTRADE__STRATEGY").as_deref(), Some("S"));
    assert_eq!(value_of(&env, "FREQTRADE__STRATEGY_PATH").as_deref(), Some("/etc/freqtrade"));
    assert_eq!(value_of(&env, "FREQTRADE__FREQAIMODEL_PATH").as_deref(), Some("/etc/freqtrade"));
    assert_eq!(value_of(&env, "FREQTRADE__DB_URL").as_deref(), Some("sqlite:///database.db"));
    assert_eq!(value_of(&env, "FREQTRADE__BOT_NAME").as_deref(), Some("bot"));
    assert_eq!(value_of(&env, "FREQTRADE__API_SERVER__ENABLED").as_deref(), Some("false"));
    assert_eq!(value_of(&env, "FREQTRADE__API_SERVER__LISTEN_IP_ADDRESS").as_deref(), Some("127.0.0.1"));
    assert_eq!(value_of(&env, "FREQTRADE__API_SERVER__LISTEN_PORT").as_deref(), Some("65535"));
    assert_eq!(value_of(&env, "FREQTRADE__EXCHANGE__NAME").as_deref(), Some("binance"));
    assert_eq!(value_of(&env, "FREQTRADE__TELEGRAM__CHAT_ID"), None);
    assert_eq!(value_of(&env, "FREQTRADE__EXCHANGE__KEY"), None);
    let ports = d.spec.as_ref().unwrap().template.spec.as_ref().unwrap().containers[0].ports.clone().unwrap();
    assert_eq!(ports[0].container_port, 65535);
}

#[test]
fn absent_secrets_leave_name_only_variables() {
    let d = Deployment::from_hub(&projection_bot(), "bot", "ns", projection_owner(), &AppConfig::default());
    for e in env_of(&d).iter().skip(9) {
        assert!(e.value.is_none());
        assert!(e.value_from.is_none());
    }
}

#[test]
fn secrets_become_values_or_references() {
    let mut bot = projection_bot();
    bot.spec.secrets = BotSecrets {
        exchange: None,
        api: Some(ApiSecrets {
            username: Some(SecretItem::Value { value: "admin".to_string() }),
            password: Some(SecretItem::SecretKeyRef {
                secret_key_ref: SecretKeyRef { name: "creds".to_string(), key: "pw".to_string() },
            }),
            ws_token: None,
            jwt_secret_key: None,
        }),
        telegram: Some(TelegramSecrets { token: None, chat_id: None }),
    };
    let d = Deployment::from_hub(&bot, "bot", "ns", projection_owner(), &AppConfig::default());
    let env = env_of(&d);
    assert_eq!(value_of(&env, "FREQTRADE__API_SERVER__USERNAME").as_deref(), Some("admin"));
    let password = env.iter().find(|e| e.name == "FREQTRADE__API_SERVER__PASSWORD").unwrap();
    assert!(password.value.is_none());
    match password.value_from.as_ref().unwrap() {
        EnvVarSource::SecretKeyRef(s) => {
            assert_eq!(s.name, "creds");
            assert_eq!(s.key, "pw");
            assert_eq!(s.optional, None);
        },
        EnvVarSource::Other(_) => panic!("a reference to a secret was expected"),
    }
    assert_eq!(value_of(&env, "FREQTRADE__TELEGRAM__CHAT_ID").as_deref(), Some(""));
    assert_eq!(value_of(&env, "FREQTRADE__API_SERVER__WS_TOKEN"), None);
}

#[test]
fn model_adds_flag_then_user_env_follows() {
    let mut bot = projection_bot();
    bot.spec.model = Some(BotModelSpec::default());
    bot.spec.deployment.env = vec![create_env_var("EXTRA", Some("1".to_string()))];
    let d = Deployment::from_hub(&bot, "bot", "ns", projection_owner(), &AppConfig::default());
    let env = env_of(&d);
    assert_eq!(env.len(), 21);
    assert_eq!(env[19].name, "FREQTRADE__FREQAI__ENABLED");
    assert_eq!(env[19].value.as_deref(), Some("true"));
    assert_eq!(env[20].name, "EXTRA");
    assert_eq!(env[20].value.as_deref(), Some("1"));
}

#[test]
fn create_secret_env_var_of_each_kind() {
    let none = create_secret_env_var("A", &None);
    assert!(none.value.is_none() && none.value_from.is_none());
    assert_eq!(none.name, "A");
    let inline = create_secret_env_var("B", &Some(SecretItem::Value { value: "v".to_string() }));
    assert_eq!(inline.value.as_deref(), Some("v"));
    assert!(inline.value_from.is_none());
    let plain = create_env_var("C", None);
    assert!(plain.value.is_none() && plain.value_from.is_none());
}

#[test]
fn volumes_follow_the_spec() {
    let mut bot = projection_bot();
    let d = Deployment::from_hub(&bot, "bot", "ns", projection_owner(), &AppConfig::default());
    let volumes = d.spec.as_ref().unwrap().template.spec.as_ref().unwrap().volumes.clone().unwrap();
    let names: Vec<&str> = volumes.iter().map(|v| v.name.as_str()).collect();
    assert_eq!(names, vec!["config", "user-data"]);
    match &volumes[0].source {
        VolumeSource::ConfigMap(cm) => {
            assert_eq!(cm.name, "bot");
            let keys: Vec<&str> = cm.items.as_ref().unwrap().iter().map(|i| i.key.as_str()).collect();
            assert_eq!(keys, vec!["config.json", "strategy.py"]);
            assert_eq!(cm.items.as_ref().unwrap()[1].path, "strategy.py");
            assert_eq!(cm.default_mode, None);
        },
        _ => panic!("a ConfigMap volume was expected"),
    }
    match &volumes[1].source {
        VolumeSource::PersistentVolumeClaim(p) => assert_eq!(p.claim_name, "bot"),
        _ => panic!("a claim volume was expected"),
    }

    bot.spec.pvc.enabled = false;
    bot.spec.strategy.config_map_name = Some("strategies".to_string());
    bot.spec.model = Some(BotModelSpec {
        name: "M".to_string(),
        config_map_name: Some("models".to_string()),
        source: Some("code".to_string()),
    });
    bot.spec.deployment.volumes =
        vec![Volume { name: "scratch".to_string(), source: VolumeSource::Other(Fragment { json: "{\"emptyDir\":{}}".to_string() }) }];
    let d = Deployment::from_hub(&bot, "bot", "ns", projection_owner(), &AppConfig::default());
    let volumes = d.spec.as_ref().unwrap().template.spec.as_ref().unwrap().volumes.clone().unwrap();
    let names: Vec<&str> = volumes.iter().map(|v| v.name.as_str()).collect();
    assert_eq!(names, vec!["config", "strategy", "model", "scratch"]);
    match &volumes[0].source {
        VolumeSource::ConfigMap(cm) => {
            let keys: Vec<&str> = cm.items.as_ref().unwrap().iter().map(|i| i.key.as_str()).collect();
            assert_eq!(keys, vec!["config.json"]);
        },
        _ => panic!("a ConfigMap volume was expected"),
    }
    match &volumes[1].source {
        VolumeSource::ConfigMap(cm) => {
            assert_eq!(cm.name, "strategies");
            assert!(cm.items.is_none());
        },
        _ => panic!("a ConfigMap volume was expected"),
    }
    match &volumes[2].source {
        VolumeSource::ConfigMap(cm) => assert_eq!(cm.name, "models"),
        _ => panic!("a ConfigMap volume was expected"),
    }
}

#[test]
fn inline_model_is_mounted_from_the_config_volume() {
    let mut bot = projection_bot();
    bot.spec.model = Some(BotModelSpec { name: "M".to_string(), config_map_name: None, source: Some("code".to_string()) });
    let d = Deployment::from_hub(&bot, "bot", "ns", projection_owner(), &AppConfig::default());
    let volumes = d.spec.as_ref().unwrap().template.spec.as_ref().unwrap().volumes.clone().unwrap();
    match &volumes[0].source {
        VolumeSource::ConfigMap(cm) => {
            let keys: Vec<&str> = cm.items.as_ref().unwrap().iter().map(|i| i.key.as_str()).collect();
            assert_eq!(keys, vec!["config.json", "strategy.py", "model.py"]);
        },
        _ => panic!("a ConfigMap volume was expected"),
    }
}

#[test]
fn every_projected_object_carries_the_identifying_labels() {
    let mut bot = projection_bot();
    let mut user = StringMap::new();
    user.insert("team".to_string(), "quant".to_string());
    user.insert("app.kubernetes.io/name".to_string(), "spoofed".to_string());
    bot.spec.deployment.labels = Some(user.clone());
    bot.spec.service.labels = Some(user.clone());
    bot.spec.pvc.labels = Some(user);
    let config = AppConfig::default();
    let d = Deployment::from_hub(&bot, "bot", "ns", projection_owner(), &config);
    let s = Service::from_hub(&bot, "bot", "ns", projection_owner(), &config);
    let p = PersistentVolumeClaim::from_hub(&bot, "bot", "ns", projection_owner(), &config);
    let c = ConfigMap::from_hub(&bot, "bot", "ns", projection_owner(), &config);
    let template = d.spec.as_ref().unwrap().template.metadata.as_ref().unwrap().labels.clone();
    for labels in [d.metadata.labels.clone(), template, s.metadata.labels.clone(), p.metadata.labels.clone(), c.metadata.labels.clone()] {
        let labels = labels.unwrap();
        assert_eq!(labels.get("freqtrade.io/bot-name").map(|s| s.as_str()), Some("bot"));
        assert_eq!(labels.get("app.kubernetes.io/name").map(|s| s.as_str()), Some("bot"));
        assert_eq!(labels.get("app.kubernetes.io/instance").map(|s| s.as_str()), Some("bot"));
        assert_eq!(labels.get("app.kubernetes.io/component").map(|s| s.as_str()), Some("bot"));
        assert_eq!(labels.get("app.kubernetes.io/part-of").map(|s| s.as_str()), Some("freqtrade"));
        assert_eq!(labels.get("app.kubernetes.io/managed-by").map(|s| s.as_str()), Some("freqtrade-operator"));
    }
    assert_eq!(d.metadata.labels.as_ref().unwrap().get("team").map(|s| s.as_str()), Some("quant"));
    assert!(c.metadata.labels.as_ref().unwrap().get("team").is_none());
    for selector in [d.spec.as_ref().unwrap().selector.clone(), s.spec.as_ref().unwrap().selector.clone()] {
        let selector = selector.unwrap();
        assert_eq!(selector.get("freqtrade.io/bot-name").map(|s| s.as_str()), Some("bot"));
        assert_eq!(selector.get("app.kubernetes.io/name").map(|s| s.as_str()), Some("bot"));
        assert_eq!(selector.get("app.kubernetes.io/instance").map(|s| s.as_str()), Some("bot"));
        assert!(selector.get("app.kubernetes.io/component").is_none());
    }
}

#[test]
fn projection_is_deterministic() {
    let bot = projection_bot();
    let config = AppConfig::default();
    let d1 = Deployment::from_hub(&bot, "bot", "ns", projection_owner(), &config);
    let d2 = Deployment::from_hub(&bot, "bot", "ns", projection_owner(), &config);
    assert!(d1.same(&d2));
    assert_eq!(format!("{:?}", d1), format!("{:?}", d2));
    let s1 = Service::from_hub(&bot, "bot", "ns", projection_owner(), &config);
    let s2 = Service::from_hub(&bot, "bot", "ns", projection_owner(), &config);
    assert!(s1.same(&s2));
    let p1 = PersistentVolumeClaim::from_hub(&bot, "bot", "ns", projection_owner(), &config);
    let p2 = PersistentVolumeClaim::from_hub(&bot, "bot", "ns", projection_owner(), &config);
    assert!(p1.same(&p2));
    let c1 = ConfigMap::from_hub(&bot, "bot", "ns", projection_owner(), &config);
    let c2 = ConfigMap::from_hub(&bot, "bot", "ns", projection_owner(), &config);
    assert!(c1.same(&c2));
    let other = Deployment::from_hub(&bot, "other", "ns", projection_owner(), &config);
    assert!(!d1.same(&other));
}

#[test]
fn config_map_holds_config_and_strategy() {
    let bot = projection_bot();
    let c = ConfigMap::from_hub(&bot, "bot", "ns", projection_owner(), &AppConfig::default());
    let data = c.data.as_ref().unwrap();
    assert_eq!(data.get("config.json").map(|s| s.as_str()), Some("null"));
    assert_eq!(data.get("strategy.py").map(|s| s.as_str()), Some("pass"));
    assert!(data.get("model.py").is_none());
    assert_eq!(data.entries.len(), 2);
    assert_eq!(c.metadata.name.as_deref(), Some("bot"));
    assert_eq!(c.metadata.namespace.as_deref(), Some("ns"));
}

#[test]
fn config_map_serialises_the_configuration() {
    let mut bot = projection_bot();
    let mut config = BTreeMap::new();
    config.insert("key".to_string(), serde_json::Value::String("v1".to_string()));
    config.insert("depth".to_string(), serde_json::Value::Bool(true));
    bot.spec.config = Some(config);
    bot.spec.strategy.source = None;
    let c = ConfigMap::from_hub(&bot, "bot", "ns", projection_owner(), &AppConfig::default());
    let data = c.data.as_ref().unwrap();
    assert_eq!(data.get("config.json").map(|s| s.as_str()), Some("{\"depth\":true,\"key\":\"v1\"}"));
    assert_eq!(data.get("strategy.py").map(|s| s.as_str()), Some(""));
}

#[test]
fn config_map_leaves_out_external_strategy_and_adds_model() {
    let mut bot = projection_bot();
    bot.spec.strategy.config_map_name = Some("strategies".to_string());
    bot.spec.model = Some(BotModelSpec {
        name: "M".to_string(),
        config_map_name: Some("models".to_string()),
        source: Some("code".to_string()),
    });
    let c = config_map_with_text(&bot, "bot", "ns", projection_owner(), "{}".to_string());
    let data = c.data.as_ref().unwrap();
    assert_eq!(data.get("config.json").map(|s| s.as_str()), Some("{}"));
    assert!(data.get("strategy.py").is_none());
    assert_eq!(data.get("model.py").map(|s| s.as_str()), Some("code"));
}

#[test]
fn pvc_asks_for_the_declared_storage() {
    let mut bot = projection_bot();
    let p = PersistentVolumeClaim::from_hub(&bot, "bot", "ns", projection_owner(), &AppConfig::default());
    let spec = p.spec.as_ref().unwrap();
    assert_eq!(spec.access_modes, Some(vec!["ReadWriteOnce".to_string()]));
    let requests = spec.resources.as_ref().unwrap().requests.as_ref().unwrap();
    assert_eq!(requests.get("storage").map(|s| s.as_str()), Some("1Gi"));
    assert!(spec.resources.as_ref().unwrap().limits.is_none());
    assert_eq!(spec.storage_class_name, None);
    bot.spec.pvc.size = "5Gi".to_string();
    bot.spec.pvc.storage_class = Some("fast".to_string());
    let p = PersistentVolumeClaim::from_hub(&bot, "bot", "ns", projection_owner(), &AppConfig::default());
    let spec = p.spec.as_ref().unwrap();
    assert_eq!(spec.resources.as_ref().unwrap().requests.as_ref().unwrap().get("storage").map(|s| s.as_str()), Some("5Gi"));
    assert_eq!(spec.storage_class_name.as_deref(), Some("fast"));
}

#[test]
fn service_gets_an_api_port() {
    let bot = projection_bot();
    let s = Service::from_hub(&bot, "bot", "ns", projection_owner(), &AppConfig::default());
    let spec = s.spec.as_ref().unwrap();
    assert_eq!(spec.type_.as_deref(), Some("ClusterIP"));
    let ports = spec.ports.as_ref().unwrap();
    assert_eq!(ports.len(), 1);
    assert_eq!(ports[0].name.as_deref(), Some("api"));
    assert_eq!(ports[0].port, 8080);
    match ports[0].target_port.as_ref().unwrap() {
        IntOrString::String(t) => assert_eq!(t, "api"),
        IntOrString::Int(_) => panic!("a named target was expected"),
    }
    assert_eq!(ports[0].protocol, None);
}

#[test]
fn service_keeps_a_declared_api_port() {
    let mut bot = projection_bot();
    bot.spec.service.ports = vec![
        BotServicePort { name: "metrics".to_string(), port: 9000, target_port: "metrics".to_string() },
        BotServicePort { name: "api".to_string(), port: 9999, target_port: "http".to_string() },
    ];
    let s = Service::from_hub(&bot, "bot", "ns", projection_owner(), &AppConfig::default());
    let ports = s.spec.as_ref().unwrap().ports.clone().unwrap();
    assert_eq!(ports.len(), 2);
    assert_eq!(ports[0].name.as_deref(), Some("metrics"));
    assert_eq!(ports[1].name.as_deref(), Some("api"));
    assert_eq!(ports[1].port, 9999);
}

#[test]
fn service_without_api_has_only_declared_ports() {
    let mut bot = projection_bot();
    bot.spec.api.enabled = false;
    bot.spec.service.ports =
        vec![BotServicePort { name: "metrics".to_string(), port: 9000, target_port: "metrics".to_string() }];
    let s = Service::from_hub(&bot, "bot", "ns", projection_owner(), &AppConfig::default());
    let ports = s.spec.as_ref().unwrap().ports.clone().unwrap();
    assert_eq!(ports.len(), 1);
    assert_eq!(ports[0].port, 9000);
}

#[test]
fn ensure_api_port_adds_once() {
    let mut service = BotServiceSpec::default();
    service.ensure_api_port(8080);
    assert_eq!(service.ports.len(), 1);
    assert_eq!(service.ports[0].name, "api");
    assert_eq!(service.ports[0].port, 8080);
    assert_eq!(service.ports[0].target_port, "api");
    service.ensure_api_port(9090);
    assert_eq!(service.ports.len(), 1);
    assert_eq!(service.ports[0].port, 8080);
}

#[test]
fn extra_containers_and_mounts_are_appended() {
    let mut bot = projection_bot();
    let d0 = Deployment::from_hub(&bot, "sidecar", "ns", projection_owner(), &AppConfig::default());
    let sidecar = d0.spec.as_ref().unwrap().template.spec.as_ref().unwrap().containers[0].clone();
    let mount = sidecar.volume_mounts.as_ref().unwrap()[0].clone();
    bot.spec.deployment.containers = vec![sidecar.clone()];
    bot.spec.deployment.init_containers = vec![sidecar];
    bot.spec.deployment.volume_mounts = vec![mount];
    let d = Deployment::from_hub(&bot, "bot", "ns", projection_owner(), &AppConfig::default());
    let pod = d.spec.as_ref().unwrap().template.spec.as_ref().unwrap();
    assert_eq!(pod.containers.len(), 2);
    assert_eq!(pod.containers[0].name, "bot");
    assert_eq!(pod.containers[1].name, "sidecar");
    assert_eq!(pod.init_containers.as_ref().unwrap().len(), 1);
    assert_eq!(pod.containers[0].volume_mounts.as_ref().unwrap().len(), 2);
}

use ft_operator::common::config::AppConfig;
use ft_operator::common::content::Content;
use ft_operator::common::string_map::StringMap;
use ft_operator::controller::drift::{compare_container_ports, compare_env_vars, compare_volumes, volumes_are_equal};
use ft_operator::controller::env::create_env_var;
use ft_operator::controller::traits::{FromHub, ResourceDrift};
use ft_operator::crd::hub::bot::{
    Bot, BotApiSpec, BotDeploymentSpec, BotImageSpec, BotPvcSpec, BotSecrets, BotServicePort,
    BotServiceSpec, BotSpec, BotStrategySpec,
};
use ft_operator::objects::{
    ConfigMap, ConfigMapVolumeSource, ContainerPort, Deployment, Fragment, KeyToPath, ObjectMeta,
    OwnerReference, PersistentVolumeClaim, PersistentVolumeClaimVolumeSource, Service, Volume,
    VolumeSource,
};

fn drift_bot() -> Bot {
    Bot {
        metadata: ObjectMeta {
            name: Some("bot".to_string()),
            namespace: Some("ns".to_string()),
            uid: Some("uid-1".to_string()),
            owner_references: None,
            annotations: None,
            labels: None,
            finalizers: None,
            deletion_timestamp: None,
        },
        spec: BotSpec {
            exchange: "binance".to_string(),
            database: "sqlite:///database.db".to_string(),
            config: None,
            strategy: BotStrategySpec { name: "S".to_string(), config_map_name: None, source: Some("pass".to_string()) },
            model: None,
            image: BotImageSpec::default(),
            secrets: BotSecrets { exchange: None, api: None, telegram: None },
            api: BotApiSpec::default(),
            service: BotServiceSpec::default(),
            pvc: BotPvcSpec::default(),
            deployment: BotDeploymentSpec::default(),
        },
        status: None,
    }
}

fn drift_owner() -> OwnerReference {
    OwnerReference {
        api_version: "freqtrade.io/v1alpha1".to_string(),
        kind: "Bot".to_string(),
        name: "bot".to_string(),
        uid: "uid-1".to_string(),
        controller: Some(true),
        block_owner_deletion: None,
    }
}

fn drift_deployment() -> Deployment {
    Deployment::from_hub(&drift_bot(), "bot", "ns", drift_owner(), &AppConfig::default())
}

fn cm_volume(name: &str, mode: Option<i32>) -> Volume {
    Volume {
        name: name.to_string(),
        source: VolumeSource::ConfigMap(ConfigMapVolumeSource {
            name: "cm".to_string(),
            items: Some(vec![KeyToPath { key: "k".to_string(), path: "k".to_string(), mode: None }]),
            optional: None,
            default_mode: mode,
        }),
    }
}

fn claim_volume(name: &str, claim: &str) -> Volume {
    Volume {
        name: name.to_string(),
        source: VolumeSource::PersistentVolumeClaim(PersistentVolumeClaimVolumeSource {
            claim_name: claim.to_string(),
            read_only: None,
        }),
    }
}

fn port(number: i32, name: Option<&str>, protocol: Option<&str>) -> ContainerPort {
    ContainerPort {
        container_port: number,
        name: name.map(|s| s.to_string()),
        protocol: protocol.map(|s| s.to_string()),
        host_ip: None,
        host_port: None,
    }
}

#[test]
fn no_object_drifts_from_itself() {
    let bot = drift_bot();
    let config = AppConfig::default();
    let d = Deployment::from_hub(&bot, "bot", "ns", drift_owner(), &config);
    assert!(!d.has_drifted(&d));
    let s = Service::from_hub(&bot, "bot", "ns", drift_owner(), &config);
    assert!(!s.has_drifted(&s));
    let p = PersistentVolumeClaim::from_hub(&bot, "bot", "ns", drift_owner(), &config);
    assert!(!p.has_drifted(&p));
    let c = ConfigMap::from_hub(&bot, "bot", "ns", drift_owner(), &config);
    assert!(!c.has_drifted(&c));
}

#[test]
fn config_map_drifts_on_data_only() {
    let bot = drift_bot();
    let desired = ConfigMap::from_hub(&bot, "bot", "ns", drift_owner(), &AppConfig::default());
    let mut observed = desired.dup();
    observed.metadata.labels = None;
    observed.metadata.annotations = Some(StringMap::new());
    assert!(!observed.has_drifted(&desired));
    observed.data.as_mut().unwrap().insert("strategy.py".to_string(), "other".to_string());
    assert!(observed.has_drifted(&desired));
    observed.data = None;
    assert!(observed.has_drifted(&desired));
}

#[test]
fn config_map_data_order_is_of_no_account() {
    let mut a = StringMap::new();
    a.insert("x".to_string(), "1".to_string());
    a.insert("y".to_string(), "2".to_string());
    let mut b = StringMap::new();
    b.insert("y".to_string(), "2".to_string());
    b.insert("x".to_string(), "0".to_string());
    b.insert("x".to_string(), "1".to_string());
    let meta = drift_deployment().metadata;
    let one = ConfigMap { metadata: meta.clone(), data: Some(a) };
    let two = ConfigMap { metadata: meta, data: Some(b) };
    assert!(!one.has_drifted(&two));
    assert!(!two.has_drifted(&one));
}

#[test]
fn pvc_tolerates_a_defaulted_storage_class() {
    let mut bot = drift_bot();
    let desired = PersistentVolumeClaim::from_hub(&bot, "bot", "ns", drift_owner(), &AppConfig::default());
    let mut observed = desired.dup();
    observed.spec.as_mut().unwrap().storage_class_name = Some("standard".to_string());
    assert!(!observed.has_drifted(&desired));
    bot.spec.pvc.storage_class = Some("fast".to_string());
    let desired = PersistentVolumeClaim::from_hub(&bot, "bot", "ns", drift_owner(), &AppConfig::default());
    assert!(observed.has_drifted(&desired));
    observed.spec.as_mut().unwrap().storage_class_name = Some("fast".to_string());
    assert!(!observed.has_drifted(&desired));
}

#[test]
fn pvc_drifts_on_resources_and_missing_spec() {
    let mut bot = drift_bot();
    let observed = PersistentVolumeClaim::from_hub(&bot, "bot", "ns", drift_owner(), &AppConfig::default());
    bot.spec.pvc.size = "2Gi".to_string();
    let desired = PersistentVolumeClaim::from_hub(&bot, "bot", "ns", drift_owner(), &AppConfig::default());
    assert!(observed.has_drifted(&desired));
    let mut empty = desired.dup();
    empty.spec = None;
    assert!(empty.has_drifted(&desired));
    assert!(desired.has_drifted(&empty));
    assert!(!empty.has_drifted(&empty));
}

#[test]
fn service_drifts_on_type_selector_and_ports() {
    let mut bot = drift_bot();
    let desired = Service::from_hub(&bot, "bot", "ns", drift_owner(), &AppConfig::default());
    let mut observed = desired.dup();
    observed.spec.as_mut().unwrap().ports.as_mut().unwrap()[0].protocol = Some("TCP".to_string());
    assert!(!observed.has_drifted(&desired));
    observed.spec.as_mut().unwrap().ports.as_mut().unwrap()[0].protocol = Some("UDP".to_string());
    assert!(observed.has_drifted(&desired));
    let mut observed = desired.dup();
    observed.spec.as_mut().unwrap().type_ = Some("NodePort".to_string());
    assert!(observed.has_drifted(&desired));
    let mut observed = desired.dup();
    observed.spec.as_mut().unwrap().selector.as_mut().unwrap().insert("extra".to_string(), "x".to_string());
    assert!(observed.has_drifted(&desired));
    bot.spec.api.port = 9000;
    let moved = Service::from_hub(&bot, "bot", "ns", drift_owner(), &AppConfig::default());
    assert!(desired.has_drifted(&moved));
}

#[test]
fn service_drifts_on_the_number_of_ports() {
    let mut bot = drift_bot();
    let short = Service::from_hub(&bot, "bot", "ns", drift_owner(), &AppConfig::default());
    bot.spec.service.ports = vec![
        BotServicePort { name: "api".to_string(), port: 8080, target_port: "api".to_string() },
        BotServicePort { name: "metrics".to_string(), port: 9000, target_port: "metrics".to_string() },
    ];
    let long = Service::from_hub(&bot, "bot", "ns", drift_owner(), &AppConfig::default());
    assert!(short.has_drifted(&long));
    assert!(long.has_drifted(&short));
    let mut none = long.dup();
    none.spec.as_mut().unwrap().ports = None;
    assert!(none.has_drifted(&short));
    assert!(short.has_drifted(&none));
    let mut empty = long.dup();
    empty.spec.as_mut().unwrap().ports = Some(vec![]);
    assert!(!none.has_drifted(&empty));
    assert!(!empty.has_drifted(&none));
}

#[test]
fn deployment_drifts_on_replicas_and_container_count() {
    let desired = drift_deployment();
    let mut observed = desired.dup();
    observed.spec.as_mut().unwrap().replicas = Some(2);
    assert!(observed.has_drifted(&desired));
    let mut observed = desired.dup();
    let extra = observed.spec.as_ref().unwrap().template.spec.as_ref().unwrap().containers[0].dup();
    observed.spec.as_mut().unwrap().template.spec.as_mut().unwrap().containers.push(extra);
    assert!(observed.has_drifted(&desired));
    let mut observed = desired.dup();
    observed.spec = None;
    assert!(observed.has_drifted(&desired));
}

#[test]
fn deployment_drifts_on_image_command_and_mounts() {
    let desired = drift_deployment();
    let mut observed = desired.dup();
    observed.spec.as_mut().unwrap().template.spec.as_mut().unwrap().containers[0].image = Some("other:1".to_string());
    assert!(observed.has_drifted(&desired));
    let mut observed = desired.dup();
    observed.spec.as_mut().unwrap().template.spec.as_mut().unwrap().containers[0].command = None;
    assert!(observed.has_drifted(&desired));
    let mut observed = desired.dup();
    observed.spec.as_mut().unwrap().template.spec.as_mut().unwrap().containers[0].volume_mounts.as_mut().unwrap()[0].read_only = Some(true);
    assert!(observed.has_drifted(&desired));
}

#[test]
fn deployment_tolerates_server_side_defaults() {
    let desired = drift_deployment();
    let mut observed = desired.dup();
    {
        let pod = observed.spec.as_mut().unwrap().template.spec.as_mut().unwrap();
        pod.containers[0].image_pull_policy = Some("IfNotPresent".to_string());
        pod.containers[0].resources = Some(Fragment { json: "{}".to_string() });
        pod.containers[0].security_context = Some(Fragment { json: "{}".to_string() });
        pod.containers[0].ports.as_mut().unwrap()[0].protocol = Some("TCP".to_string());
        pod.containers[0].extra = Some(Fragment { json: "{\"terminationMessagePath\":\"/dev/termination-log\"}".to_string() });
        pod.security_context = Some(Fragment { json: "{}".to_string() });
        let mut selector = StringMap::new();
        selector.insert("zone".to_string(), "a".to_string());
        pod.node_selector = Some(selector);
        match &mut pod.volumes.as_mut().unwrap()[0].source {
            VolumeSource::ConfigMap(cm) => cm.default_mode = Some(420),
            _ => panic!("a ConfigMap volume was expected"),
        }
    }
    observed.metadata.annotations = Some(StringMap::new());
    assert!(!observed.has_drifted(&desired));
}

#[test]
fn deployment_compares_fields_that_both_sides_set() {
    let mut desired = drift_deployment();
    {
        let pod = desired.spec.as_mut().unwrap().template.spec.as_mut().unwrap();
        pod.containers[0].image_pull_policy = Some("Always".to_string());
        pod.security_context = Some(Fragment { json: "{\"runAsUser\":1}".to_string() });
    }
    let mut observed = desired.dup();
    observed.spec.as_mut().unwrap().template.spec.as_mut().unwrap().containers[0].image_pull_policy = Some("Never".to_string());
    assert!(observed.has_drifted(&desired));
    let mut observed = desired.dup();
    observed.spec.as_mut().unwrap().template.spec.as_mut().unwrap().security_context = Some(Fragment { json: "{\"runAsUser\":2}".to_string() });
    assert!(observed.has_drifted(&desired));
    let mut observed = desired.dup();
    observed.spec.as_mut().unwrap().template.spec.as_mut().unwrap().security_context = None;
    assert!(!observed.has_drifted(&desired));
}

#[test]
fn deployment_compares_scheduling_by_equality() {
    let desired = drift_deployment();
    let mut observed = desired.dup();
    observed.spec.as_mut().unwrap().template.spec.as_mut().unwrap().affinity = Some(Fragment { json: "{}".to_string() });
    assert!(observed.has_drifted(&desired));
    let mut observed = desired.dup();
    observed.spec.as_mut().unwrap().template.spec.as_mut().unwrap().tolerations = Some(vec![]);
    assert!(observed.has_drifted(&desired));
    let mut observed = desired.dup();
    observed.spec.as_mut().unwrap().template.spec.as_mut().unwrap().image_pull_secrets = Some(vec!["s".to_string()]);
    assert!(observed.has_drifted(&desired));
}

#[test]
fn env_order_is_of_no_account() {
    let desired = drift_deployment();
    let mut observed = desired.dup();
    observed.spec.as_mut().unwrap().template.spec.as_mut().unwrap().containers[0].env.as_mut().unwrap().reverse();
    assert!(!observed.has_drifted(&desired));
    observed.spec.as_mut().unwrap().template.spec.as_mut().unwrap().containers[0].env.as_mut().unwrap()[0].value = Some("x".to_string());
    assert!(observed.has_drifted(&desired));
}

#[test]
fn compare_env_vars_cases() {
    let a = vec![create_env_var("A", Some("1".to_string())), create_env_var("B", None)];
    let b = vec![create_env_var("B", None), create_env_var("A", Some("1".to_string()))];
    let c = vec![create_env_var("A", Some("2".to_string())), create_env_var("B", None)];
    let d = vec![create_env_var("A", Some("1".to_string()))];
    assert!(!compare_env_vars(Some(&a), Some(&b)));
    assert!(compare_env_vars(Some(&a), Some(&c)));
    assert!(compare_env_vars(Some(&a), Some(&d)));
    assert!(compare_env_vars(Some(&a), None));
    assert!(compare_env_vars(None, Some(&a)));
    assert!(!compare_env_vars(None, None));
    let twice = vec![create_env_var("A", Some("1".to_string())), create_env_var("A", Some("2".to_string()))];
    let swapped = vec![create_env_var("A", Some("2".to_string())), create_env_var("A", Some("1".to_string()))];
    assert!(compare_env_vars(Some(&twice), Some(&swapped)));
    assert!(!compare_env_vars(Some(&twice), Some(&twice)));
}

#[test]
fn compare_container_ports_cases() {
    let a = vec![port(8080, Some("api"), None)];
    let tcp = vec![port(8080, Some("api"), Some("TCP"))];
    let udp = vec![port(8080, Some("api"), Some("UDP"))];
    let renamed = vec![port(8080, Some("web"), None)];
    let moved = vec![port(8081, Some("api"), None)];
    let two = vec![port(8080, Some("api"), None), port(9000, None, None)];
    assert!(!compare_container_ports(Some(&a), Some(&a)));
    assert!(!compare_container_ports(Some(&a), Some(&tcp)));
    assert!(compare_container_ports(Some(&a), Some(&udp)));
    assert!(compare_container_ports(Some(&a), Some(&renamed)));
    assert!(compare_container_ports(Some(&a), Some(&moved)));
    assert!(compare_container_ports(Some(&a), Some(&two)));
    assert!(compare_container_ports(Some(&a), None));
    assert!(compare_container_ports(None, Some(&a)));
    assert!(!compare_container_ports(None, None));
    let mut host = vec![port(8080, Some("api"), None)];
    host[0].host_port = Some(80);
    assert!(!compare_container_ports(Some(&a), Some(&host)));
}

#[test]
fn volumes_are_equal_cases() {
    assert!(volumes_are_equal(&cm_volume("config", None), &cm_volume("config", None)));
    assert!(volumes_are_equal(&cm_volume("config", None), &cm_volume("config", Some(420))));
    assert!(volumes_are_equal(&cm_volume("config", Some(420)), &cm_volume("config", None)));
    assert!(!volumes_are_equal(&cm_volume("config", Some(421)), &cm_volume("config", None)));
    assert!(!volumes_are_equal(&cm_volume("config", Some(256)), &cm_volume("config", Some(420))));
    assert!(!volumes_are_equal(&cm_volume("config", None), &cm_volume("other", None)));
    assert!(volumes_are_equal(&claim_volume("data", "bot"), &claim_volume("data", "bot")));
    assert!(!volumes_are_equal(&claim_volume("data", "bot"), &claim_volume("data", "other")));
    assert!(!volumes_are_equal(&claim_volume("config", "bot"), &cm_volume("config", None)));
    let mut other_items = cm_volume("config", None);
    match &mut other_items.source {
        VolumeSource::ConfigMap(cm) => cm.items = None,
        _ => panic!("a ConfigMap volume was expected"),
    }
    assert!(!volumes_are_equal(&other_items, &cm_volume("config", Some(420))));
}

#[test]
fn compare_volumes_cases() {
    let a = vec![cm_volume("config", None), claim_volume("data", "bot")];
    let b = vec![claim_volume("data", "bot"), cm_volume("config", Some(420))];
    let c = vec![cm_volume("config", None), claim_volume("data", "other")];
    let d = vec![cm_volume("config", None)];
    assert!(!compare_volumes(Some(&a), Some(&b)));
    assert!(compare_volumes(Some(&a), Some(&c)));
    assert!(compare_volumes(Some(&a), Some(&d)));
    assert!(compare_volumes(Some(&a), None));
    assert!(compare_volumes(None, Some(&a)));
    assert!(!compare_volumes(None, None));
    let renamed = vec![cm_volume("config", None), claim_volume("cache", "bot")];
    assert!(compare_volumes(Some(&a), Some(&renamed)));
}

//! The bot as version `v1alpha1` of the API writes it.

use crate::common::string_map::StringMap;
use crate::common::text::owned;
use crate::crd::v1alpha1::common::SecretItem;
use crate::objects::{Container, EnvVar, Fragment, ObjectMeta, Volume, VolumeMount};
use std::collections::BTreeMap;
use vstd::prelude::*;

verus! {

/// The database URL of a bot that names none.
pub fn default_database() -> (r: String)
    ensures
        r@ == "sqlite:///database.db"@,
{
    owned("sqlite:///database.db")
}

/// The observed status of a bot.
#[derive(Debug, Clone)]
pub struct BotStatus {
    pub phase: String,
    pub last_updated: Option<String>,
}

/// The image that the bot runs.
#[derive(Debug, Clone)]
pub struct BotImageSpec {
    pub repository: Option<String>,
    pub tag: Option<String>,
    pub pull_policy: Option<String>,
    pub pull_secrets: Option<Vec<String>>,
}

impl Default for BotImageSpec {
    fn default() -> (r: Self)
        ensures
            r.repository.deep_view() == Some("freqtradeorg/freqtrade"@),
            r.tag.deep_view() == Some("stable"@),
            r.pull_policy is None,
            r.pull_secrets is None,
    {
        BotImageSpec {
            repository: Some(owned("freqtradeorg/freqtrade")),
            tag: Some(owned("stable")),
            pull_policy: None,
            pull_secrets: None,
        }
    }
}

/// The secrets of a bot, by group.
#[derive(Debug, Clone)]
pub struct BotSecrets {
    pub exchange: Option<ExchangeSecrets>,
    pub api: Option<ApiSecrets>,
    pub telegram: Option<TelegramSecrets>,
}

impl Default for BotSecrets {
    fn default() -> (r: Self)
        ensures
            r.exchange is None,
            r.api is None,
            r.telegram is None,
    {
        BotSecrets { exchange: None, api: None, telegram: None }
    }
}

/// The credentials of the bot's API server.
#[derive(Debug, Clone)]
pub struct ApiSecrets {
    pub username: Option<SecretItem>,
    pub password: Option<SecretItem>,
    pub ws_token: Option<SecretItem>,
    pub jwt_secret_key: Option<SecretItem>,
}

impl Default for ApiSecrets {
    fn default() -> (r: Self)
        ensures
            r.username is None,
            r.password is None,
            r.ws_token is None,
            r.jwt_secret_key is None,
    {
        ApiSecrets { username: None, password: None, ws_token: None, jwt_secret_key: None }
    }
}

/// The credentials of the bot's Telegram channel.
#[derive(Debug, Clone)]
pub struct TelegramSecrets {
    pub token: Option<SecretItem>,
    pub chat_id: Option<String>,
}

impl Default for TelegramSecrets {
    fn default() -> (r: Self)
        ensures
            r.token is None,
            r.chat_id is None,
    {
        TelegramSecrets { token: None, chat_id: None }
    }
}

/// The credentials of the exchange account.
#[derive(Debug, Clone)]
pub struct ExchangeSecrets {
    pub key: Option<SecretItem>,
    pub secret: Option<SecretItem>,
    pub password: Option<SecretItem>,
    pub uid: Option<SecretItem>,
}

impl Default for ExchangeSecrets {
    fn default() -> (r: Self)
        ensures
            r.key is None,
            r.secret is None,
            r.password is None,
            r.uid is None,
    {
        ExchangeSecrets { key: None, secret: None, password: None, uid: None }
    }
}

/// The trading strategy: its name, and its code inline or in a ConfigMap.
#[derive(Debug, Clone)]
pub struct BotStrategySpec {
    pub name: String,
    pub config_map_name: Option<String>,
    pub source: Option<String>,
}

/// The prediction model: its name, and its code inline or in a ConfigMap.
#[derive(Debug, Clone)]
pub struct BotModelSpec {
    pub name: String,
    pub config_map_name: Option<String>,
    pub source: Option<String>,
}

impl Default for BotModelSpec {
    fn default() -> (r: Self)
        ensures
            r.name@ == "LightGBMRegressor"@,
            r.config_map_name is None,
            r.source is None,
    {
        BotModelSpec { name: owned("LightGBMRegressor"), config_map_name: None, source: None }
    }
}

/// The bot's API server.
#[derive(Debug, Clone)]
pub struct BotApiSpec {
    pub enabled: bool,
    pub host: String,
    pub port: u16,
}

impl Default for BotApiSpec {
    fn default() -> (r: Self)
        ensures
            r.enabled,
            r.host@ == "0.0.0.0"@,
            r.port == 8080,
    {
        BotApiSpec { enabled: true, host: owned("0.0.0.0"), port: 8080 }
    }
}

/// A port of the bot's Service.
#[derive(Debug, Clone)]
pub struct BotServicePort {
    pub name: String,
    pub port: u16,
    pub target_port: String,
}

/// What the bot asks of its Service.
#[derive(Debug, Clone)]
pub struct BotServiceSpec {
    pub service_type: String,
    pub annotations: Option<StringMap>,
    pub labels: Option<StringMap>,
    pub ports: Vec<BotServicePort>,
}

impl Default for BotServiceSpec {
    fn default() -> (r: Self)
        ensures
            r.service_type@ == "ClusterIP"@,
            r.annotations is None,
            r.labels is None,
            r.ports@.len() == 0,
    {
        BotServiceSpec {
            service_type: owned("ClusterIP"),
            annotations: None,
            labels: None,
            ports: Vec::new(),
        }
    }
}

/// The bot's volume claim.
#[derive(Debug, Clone)]
pub struct BotPvcSpec {
    pub enabled: bool,
    pub annotations: Option<StringMap>,
    pub labels: Option<StringMap>,
    pub storage_class: Option<String>,
    pub size: String,
}

impl Default for BotPvcSpec {
    fn default() -> (r: Self)
        ensures
            r.enabled,
            r.annotations is None,
            r.labels is None,
            r.storage_class is None,
            r.size@ == "1Gi"@,
    {
        BotPvcSpec {
            enabled: true,
            annotations: None,
            labels: None,
            storage_class: None,
            size: owned("1Gi"),
        }
    }
}

/// What the bot asks of its Deployment beyond the defaults.
#[derive(Debug, Clone)]
pub struct BotDeploymentSpec {
    pub command: Option<Vec<String>>,
    pub annotations: Option<StringMap>,
    pub labels: Option<StringMap>,
    pub node_selector: Option<StringMap>,
    pub resources: Option<Fragment>,
    pub affinity: Option<Fragment>,
    pub tolerations: Option<Vec<Fragment>>,
    pub pod_security_context: Option<Fragment>,
    pub security_context: Option<Fragment>,
    pub containers: Vec<Container>,
    pub init_containers: Vec<Container>,
    pub volumes: Vec<Volume>,
    pub volume_mounts: Vec<VolumeMount>,
    pub env: Vec<EnvVar>,
}

impl Default for BotDeploymentSpec {
    fn default() -> (r: Self)
        ensures
            r.command is None,
            r.annotations is None,
            r.labels is None,
            r.node_selector is None,
            r.resources is None,
            r.affinity is None,
            r.tolerations is None,
            r.pod_security_context is None,
            r.security_context is None,
            r.containers@.len() == 0,
            r.init_containers@.len() == 0,
            r.volumes@.len() == 0,
            r.volume_mounts@.len() == 0,
            r.env@.len() == 0,
    {
        BotDeploymentSpec {
            command: None,
            annotations: None,
            labels: None,
            node_selector: None,
            resources: None,
            affinity: None,
            tolerations: None,
            pod_security_context: None,
            security_context: None,
            containers: Vec::new(),
            init_containers: Vec::new(),
            volumes: Vec::new(),
            volume_mounts: Vec::new(),
            env: Vec::new(),
        }
    }
}

/// The desired state of a bot, as version `v1alpha1` writes it.
#[derive(Debug, Clone)]
pub struct BotSpec {
    pub exchange: String,
    pub database: String,
    pub config: Option<BTreeMap<String, serde_json::Value>>,
    pub strategy: BotStrategySpec,
    pub model: Option<BotModelSpec>,
    pub image: BotImageSpec,
    pub secrets: BotSecrets,
    pub api: BotApiSpec,
    pub service: BotServiceSpec,
    pub pvc: BotPvcSpec,
    pub deployment: BotDeploymentSpec,
}

/// A bot of version `v1alpha1`.
#[derive(Debug, Clone)]
pub struct Bot {
    pub metadata: ObjectMeta,
    pub spec: BotSpec,
    pub status: Option<BotStatus>,
}

/// The phase of a bot.
#[derive(Debug, Clone, Copy, PartialEq, Eq, Structural)]
pub enum BotPhase {
    /// Not yet available.
    Pending,
    /// Available.
    Running,
    /// The rollout does not progress.
    Error,
    /// Deletion was requested.
    Deleting,
}

impl BotPhase {
    /// The label of the phase.
    pub open spec fn label(self) -> Seq<char> {
        match self {
            BotPhase::Pending => "pending"@,
            BotPhase::Running => "running"@,
            BotPhase::Error => "error"@,
            BotPhase::Deleting => "deleting"@,
        }
    }

    /// The label of the phase, as the status carries it.
    pub fn to_string(&self) -> (r: String)
        ensures
            r@ == self.label(),
    {
        match self {
            BotPhase::Pending => owned("pending"),
            BotPhase::Running => owned("running"),
            BotPhase::Error => owned("error"),
            BotPhase::Deleting => owned("deleting"),
        }
    }
}

} // verus!

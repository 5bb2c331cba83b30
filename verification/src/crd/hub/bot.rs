//! The hub form of a bot.

use crate::common::string_map::StringMap;
use crate::common::text::owned;
use crate::crd::hub::common::SecretItem;
use crate::crd::hub::traits::Hub;
use crate::objects::{Container, EnvVar, Fragment, ObjectMeta, Volume, VolumeMount};
use std::collections::BTreeMap;
use vstd::prelude::*;

verus! {

/// A bot: metadata, desired state and observed status.
#[derive(Debug, Clone)]
pub struct Bot {
    pub metadata: ObjectMeta,
    pub spec: BotSpec,
    pub status: Option<BotStatus>,
}

impl Hub for Bot {

}

/// The desired state of a bot.
#[derive(Debug, Clone)]
pub struct BotSpec {
    /// The exchange that the bot trades on.
    pub exchange: String,
    /// The database URL.
    pub database: String,
    /// The bot's own configuration, handed on as it is.
    pub config: Option<BTreeMap<String, serde_json::Value>>,
    pub strategy: BotStrategySpec,
    pub model: Option<BotModelSpec>,
    pub image: BotImageSpec,
    pub secrets: BotSecrets,
    pub api: BotApiSpec,
    pub service: BotServiceSpec,
    pub pvc: BotPvcSpec,
    pub deployment: BotDeploymentSpec,
}

/// The database URL of a bot that names none.
pub fn default_database() -> (r: String)
    ensures
        r@ == "sqlite:///database.db"@,
{
    owned("sqlite:///database.db")
}

/// The observed status of a bot.
#[derive(Debug, Clone)]
pub struct BotStatus {
    /// The label of the phase.
    pub phase: String,
    /// When the status was written, as an RFC 3339 timestamp.
    pub last_updated: Option<String>,
}

/// The image that the bot runs.
#[derive(Debug, Clone)]
pub struct BotImageSpec {
    pub repository: Option<String>,
    pub tag: Option<String>,
    pub pull_policy: Option<String>,
    pub pull_secrets: Option<Vec<String>>,
}

impl Default for BotImageSpec {
    fn default() -> (r: Self)
        ensures
            r.repository.deep_view() == Some("freqtradeorg/freqtrade"@),
            r.tag.deep_view() == Some("stable"@),
            r.pull_policy is None,
            r.pull_secrets is None,
    {
        BotImageSpec {
            repository: Some(owned("freqtradeorg/freqtrade")),
            tag: Some(owned("stable")),
            pull_policy: None,
            pull_secrets: None,
        }
    }
}

/// The secrets of a bot, by group.
#[derive(Debug, Clone)]
pub struct BotSecrets {
    pub exchange: Option<ExchangeSecrets>,
    pub api: Option<ApiSecrets>,
    pub telegram: Option<TelegramSecrets>,
}

/// The credentials of the bot's API server.
#[derive(Debug, Clone)]
pub struct ApiSecrets {
    pub username: Option<SecretItem>,
    pub password: Option<SecretItem>,
    pub ws_token: Option<SecretItem>,
    pub jwt_secret_key: Option<SecretItem>,
}

/// The credentials of the bot's Telegram channel.
#[derive(Debug, Clone)]
pub struct TelegramSecrets {
    pub token: Option<SecretItem>,
    pub chat_id: Option<String>,
}

/// The credentials of the exchange account.
#[derive(Debug, Clone)]
pub struct ExchangeSecrets {
    pub key: Option<SecretItem>,
    pub secret: Option<SecretItem>,
    pub password: Option<SecretItem>,
    pub uid: Option<SecretItem>,
}

/// The trading strategy: its name, and its code inline or in a ConfigMap.
#[derive(Debug, Clone)]
pub struct BotStrategySpec {
    pub name: String,
    pub config_map_name: Option<String>,
    pub source: Option<String>,
}

/// The prediction model: its name, and its code inline or in a ConfigMap.
#[derive(Debug, Clone)]
pub struct BotModelSpec {
    pub name: String,
    pub config_map_name: Option<String>,
    pub source: Option<String>,
}

impl Default for BotModelSpec {
    fn default() -> (r: Self)
        ensures
            r.name@ == "LightGBMRegressor"@,
            r.config_map_name is None,
            r.source is None,
    {
        BotModelSpec { name: owned("LightGBMRegressor"), config_map_name: None, source: None }
    }
}

/// The bot's API server.
#[derive(Debug, Clone)]
pub struct BotApiSpec {
    pub enabled: bool,
    pub host: String,
    pub port: u16,
}

impl Default for BotApiSpec {
    fn default() -> (r: Self)
        ensures
            r.enabled,
            r.host@ == "0.0.0.0"@,
            r.port == 8080,
    {
        BotApiSpec { enabled: true, host: owned("0.0.0.0"), port: 8080 }
    }
}

/// What the bot asks of its Service.
#[derive(Debug, Clone)]
pub struct BotServiceSpec {
    pub service_type: String,
    pub annotations: Option<StringMap>,
    pub labels: Option<StringMap>,
    pub ports: Vec<BotServicePort>,
}

impl Default for BotServiceSpec {
    fn default() -> (r: Self)
        ensures
            r.service_type@ == "ClusterIP"@,
            r.annotations is None,
            r.labels is None,
            r.ports@.len() == 0,
    {
        BotServiceSpec {
            service_type: owned("ClusterIP"),
            annotations: None,
            labels: None,
            ports: Vec::new(),
        }
    }
}

/// Whether a port carries the name `api`.
pub open spec fn is_api_port(port: BotServicePort) -> bool {
    port.name@ == "api"@
}

/// Whether some port of the list is named `api`.
pub open spec fn has_api_port(ports: Seq<BotServicePort>) -> bool {
    exists|i: int| 0 <= i < ports.len() && is_api_port(#[trigger] ports[i])
}

impl BotServiceSpec {
    /// Adds a port named `api` for `api_port`, unless a port of that name is
    /// declared already: a declared one is kept as it is.
    pub fn ensure_api_port(&mut self, api_port: u16)
        ensures
            final(self).service_type == old(self).service_type,
            final(self).annotations == old(self).annotations,
            final(self).labels == old(self).labels,
            has_api_port(old(self).ports@) ==> final(self).ports@ == old(self).ports@,
            !has_api_port(old(self).ports@) ==> {
                &&& final(self).ports@.len() == old(self).ports@.len() + 1
                &&& final(self).ports@.drop_last() == old(self).ports@
                &&& final(self).ports@.last().name@ == "api"@
                &&& final(self).ports@.last().port == api_port
                &&& final(self).ports@.last().target_port@ == "api"@
            },
    {
        let mut found = false;
        let mut i: usize = 0;
        while i < self.ports.len()
            invariant
                i <= self.ports.len(),
                *self == *old(self),
                found == has_api_port(self.ports@.take(i as int)),
            decreases self.ports.len() - i,
        {
            let named = crate::common::text::str_eq(self.ports[i].name.as_str(), "api");
            proof {
                let before = self.ports@.take(i as int);
                let after = self.ports@.take(i + 1);
                assert(after[i as int] == self.ports@[i as int]);
                if has_api_port(before) {
                    let j = choose|j: int| 0 <= j < before.len() && is_api_port(#[trigger] before[j]);
                    assert(is_api_port(after[j]));
                }
                if has_api_port(after) {
                    let j = choose|j: int| 0 <= j < after.len() && is_api_port(#[trigger] after[j]);
                    if j < i {
                        assert(is_api_port(before[j]));
                    }
                }
            }
            if named {
                found = true;
            }
            i += 1;
        }
        assert(self.ports@.take(i as int) =~= self.ports@);
        if !found {
            self.ports.push(
                BotServicePort { name: owned("api"), port: api_port, target_port: owned("api") },
            );
            assert(self.ports@.drop_last() =~= old(self).ports@);
        }
    }
}

/// A port of the bot's Service.
#[derive(Debug, Clone)]
pub struct BotServicePort {
    pub name: String,
    pub port: u16,
    pub target_port: String,
}

/// The bot's volume claim.
#[derive(Debug, Clone)]
pub struct BotPvcSpec {
    pub enabled: bool,
    pub annotations: Option<StringMap>,
    pub labels: Option<StringMap>,
    pub storage_class: Option<String>,
    pub size: String,
}

impl Default for BotPvcSpec {
    fn default() -> (r: Self)
        ensures
            r.enabled,
            r.annotations is None,
            r.labels is None,
            r.storage_class is None,
            r.size@ == "1Gi"@,
    {
        BotPvcSpec {
            enabled: true,
            annotations: None,
            labels: None,
            storage_class: None,
            size: owned("1Gi"),
        }
    }
}

/// What the bot asks of its Deployment beyond the defaults.
#[derive(Debug, Clone)]
pub struct BotDeploymentSpec {
    /// A command of the user's own; the token `$CMD` stands for the default command.
    pub command: Option<Vec<String>>,
    pub annotations: Option<StringMap>,
    pub labels: Option<StringMap>,
    pub node_selector: Option<StringMap>,
    pub resources: Option<Fragment>,
    pub affinity: Option<Fragment>,
    pub tolerations: Option<Vec<Fragment>>,
    pub pod_security_context: Option<Fragment>,
    pub security_context: Option<Fragment>,
    pub containers: Vec<Container>,
    pub init_containers: Vec<Container>,
    pub volumes: Vec<Volume>,
    pub volume_mounts: Vec<VolumeMount>,
    pub env: Vec<EnvVar>,
}

impl BotDeploymentSpec {
    /// Nothing asked for.
    pub open spec fn is_default(&self) -> bool {
        &&& self.command is None
        &&& self.annotations is None
        &&& self.labels is None
        &&& self.node_selector is None
        &&& self.resources is None
        &&& self.affinity is None
        &&& self.tolerations is None
        &&& self.pod_security_context is None
        &&& self.security_context is None
        &&& self.containers@.len() == 0
        &&& self.init_containers@.len() == 0
        &&& self.volumes@.len() == 0
        &&& self.volume_mounts@.len() == 0
        &&& self.env@.len() == 0
    }
}

impl Default for BotDeploymentSpec {
    fn default() -> (r: Self)
        ensures
            r.is_default(),
    {
        BotDeploymentSpec {
            command: None,
            annotations: None,
            labels: None,
            node_selector: None,
            resources: None,
            affinity: None,
            tolerations: None,
            pod_security_context: None,
            security_context: None,
            containers: Vec::new(),
            init_containers: Vec::new(),
            volumes: Vec::new(),
            volume_mounts: Vec::new(),
            env: Vec::new(),
        }
    }
}

/// The phase of a bot.
#[derive(Debug, Clone, Copy, PartialEq, Eq, Structural)]
pub enum BotPhase {
    /// Not yet available.
    Pending,
    /// Available.
    Running,
    /// The rollout does not progress.
    Error,
    /// Deletion was requested.
    Deleting,
}

impl BotPhase {
    /// The label of the phase.
    pub open spec fn label(self) -> Seq<char> {
        match self {
            BotPhase::Pending => "pending"@,
            BotPhase::Running => "running"@,
            BotPhase::Error => "error"@,
            BotPhase::Deleting => "deleting"@,
        }
    }

    /// The label of the phase, as the status carries it.
    pub fn to_string(&self) -> (r: String)
        ensures
            r@ == self.label(),
    {
        match self {
            BotPhase::Pending => owned("pending"),
            BotPhase::Running => owned("running"),
            BotPhase::Error => owned("error"),
            BotPhase::Deleting => owned("deleting"),
        }
    }
}

} // verus!

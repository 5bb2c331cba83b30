//! From version `v1alpha1` into the hub form. Every field is carried over
//! as it is.

use crate::crd::hub::bot::{
    ApiSecrets, Bot, BotApiSpec, BotDeploymentSpec, BotImageSpec, BotModelSpec, BotPhase, BotPvcSpec,
    BotSecrets, BotServicePort, BotServiceSpec, BotSpec, BotStatus, BotStrategySpec, ExchangeSecrets,
    TelegramSecrets,
};
use crate::crd::hub::common::{SecretItem, SecretKeyRef};
use crate::crd::v1alpha1;
use vstd::prelude::*;
use vstd::std_specs::convert::FromSpec;

verus! {

impl From<v1alpha1::common::SecretKeyRef> for SecretKeyRef {
    fn from(secret_key_ref: v1alpha1::common::SecretKeyRef) -> (r: Self) {
        SecretKeyRef { name: secret_key_ref.name, key: secret_key_ref.key }
    }
}

impl vstd::std_specs::convert::FromSpecImpl<v1alpha1::common::SecretKeyRef> for SecretKeyRef {
    open spec fn obeys_from_spec() -> bool {
        true
    }

    open spec fn from_spec(secret_key_ref: v1alpha1::common::SecretKeyRef) -> Self {
        SecretKeyRef { name: secret_key_ref.name, key: secret_key_ref.key }
    }
}

impl From<v1alpha1::common::SecretItem> for SecretItem {
    fn from(secret_item: v1alpha1::common::SecretItem) -> (r: Self) {
        match secret_item {
            v1alpha1::common::SecretItem::Value { value } => SecretItem::Value { value },
            v1alpha1::common::SecretItem::SecretKeyRef { secret_key_ref } => SecretItem::SecretKeyRef {
                secret_key_ref: SecretKeyRef::from(secret_key_ref),
            },
        }
    }
}

impl vstd::std_specs::convert::FromSpecImpl<v1alpha1::common::SecretItem> for SecretItem {
    open spec fn obeys_from_spec() -> bool {
        true
    }

    open spec fn from_spec(secret_item: v1alpha1::common::SecretItem) -> Self {
        match secret_item {
            v1alpha1::common::SecretItem::Value { value } => SecretItem::Value { value },
            v1alpha1::common::SecretItem::SecretKeyRef { secret_key_ref } => SecretItem::SecretKeyRef {
                secret_key_ref: <SecretKeyRef as FromSpec<v1alpha1::common::SecretKeyRef>>::from_spec(secret_key_ref),
            },
        }
    }
}

impl From<v1alpha1::bot::BotPhase> for BotPhase {
    fn from(phase: v1alpha1::bot::BotPhase) -> (r: Self) {
        match phase {
            v1alpha1::bot::BotPhase::Pending => BotPhase::Pending,
            v1alpha1::bot::BotPhase::Running => BotPhase::Running,
            v1alpha1::bot::BotPhase::Error => BotPhase::Error,
            v1alpha1::bot::BotPhase::Deleting => BotPhase::Deleting,
        }
    }
}

impl vstd::std_specs::convert::FromSpecImpl<v1alpha1::bot::BotPhase> for BotPhase {
    open spec fn obeys_from_spec() -> bool {
        true
    }

    open spec fn from_spec(phase: v1alpha1::bot::BotPhase) -> Self {
        match phase {
            v1alpha1::bot::BotPhase::Pending => BotPhase::Pending,
            v1alpha1::bot::BotPhase::Running => BotPhase::Running,
            v1alpha1::bot::BotPhase::Error => BotPhase::Error,
            v1alpha1::bot::BotPhase::Deleting => BotPhase::Deleting,
        }
    }
}

impl From<v1alpha1::bot::BotStatus> for BotStatus {
    fn from(spec: v1alpha1::bot::BotStatus) -> (r: Self) {
        BotStatus {
            phase: spec.phase,
            last_updated: spec.last_updated,
        }
    }
}

impl vstd::std_specs::convert::FromSpecImpl<v1alpha1::bot::BotStatus> for BotStatus {
    open spec fn obeys_from_spec() -> bool {
        true
    }

    open spec fn from_spec(spec: v1alpha1::bot::BotStatus) -> Self {
        BotStatus {
            phase: spec.phase,
            last_updated: spec.last_updated,
        }
    }
}

impl From<v1alpha1::bot::BotImageSpec> for BotImageSpec {
    fn from(spec: v1alpha1::bot::BotImageSpec) -> (r: Self) {
        BotImageSpec {
            repository: spec.repository,
            tag: spec.tag,
            pull_policy: spec.pull_policy,
            pull_secrets: spec.pull_secrets,
        }
    }
}

impl vstd::std_specs::convert::FromSpecImpl<v1alpha1::bot::BotImageSpec> for BotImageSpec {
    open spec fn obeys_from_spec() -> bool {
        true
    }

    open spec fn from_spec(spec: v1alpha1::bot::BotImageSpec) -> Self {
        BotImageSpec {
            repository: spec.repository,
            tag: spec.tag,
            pull_policy: spec.pull_policy,
            pull_secrets: spec.pull_secrets,
        }
    }
}

impl From<v1alpha1::bot::ApiSecrets> for ApiSecrets {
    fn from(spec: v1alpha1::bot::ApiSecrets) -> (r: Self) {
        ApiSecrets {
            username: match spec.username {
                Some(x) => Some(SecretItem::from(x)),
                None => None,
            },
            password: match spec.password {
                Some(x) => Some(SecretItem::from(x)),
                None => None,
            },
            ws_token: match spec.ws_token {
                Some(x) => Some(SecretItem::from(x)),
                None => None,
            },
            jwt_secret_key: match spec.jwt_secret_key {
                Some(x) => Some(SecretItem::from(x)),
                None => None,
            },
        }
    }
}

impl vstd::std_specs::convert::FromSpecImpl<v1alpha1::bot::ApiSecrets> for ApiSecrets {
    open spec fn obeys_from_spec() -> bool {
        true
    }

    open spec fn from_spec(spec: v1alpha1::bot::ApiSecrets) -> Self {
        ApiSecrets {
            username: match spec.username {
                Some(x) => Some(<SecretItem as FromSpec<v1alpha1::common::SecretItem>>::from_spec(x)),
                None => None,
            },
            password: match spec.password {
                Some(x) => Some(<SecretItem as FromSpec<v1alpha1::common::SecretItem>>::from_spec(x)),
                None => None,
            },
            ws_token: match spec.ws_token {
                Some(x) => Some(<SecretItem as FromSpec<v1alpha1::common::SecretItem>>::from_spec(x)),
                None => None,
            },
            jwt_secret_key: match spec.jwt_secret_key {
                Some(x) => Some(<SecretItem as FromSpec<v1alpha1::common::SecretItem>>::from_spec(x)),
                None => None,
            },
        }
    }
}

impl From<v1alpha1::bot::TelegramSecrets> for TelegramSecrets {
    fn from(spec: v1alpha1::bot::TelegramSecrets) -> (r: Self) {
        TelegramSecrets {
            token: match spec.token {
                Some(x) => Some(SecretItem::from(x)),
                None => None,
            },
            chat_id: spec.chat_id,
        }
    }
}

impl vstd::std_specs::convert::FromSpecImpl<v1alpha1::bot::TelegramSecrets> for TelegramSecrets {
    open spec fn obeys_from_spec() -> bool {
        true
    }

    open spec fn from_spec(spec: v1alpha1::bot::TelegramSecrets) -> Self {
        TelegramSecrets {
            token: match spec.token {
                Some(x) => Some(<SecretItem as FromSpec<v1alpha1::common::SecretItem>>::from_spec(x)),
                None => None,
            },
            chat_id: spec.chat_id,
        }
    }
}

impl From<v1alpha1::bot::ExchangeSecrets> for ExchangeSecrets {
    fn from(spec: v1alpha1::bot::ExchangeSecrets) -> (r: Self) {
        ExchangeSecrets {
            key: match spec.key {
                Some(x) => Some(SecretItem::from(x)),
                None => None,
            },
            secret: match spec.secret {
                Some(x) => Some(SecretItem::from(x)),
                None => None,
            },
            password: match spec.password {
                Some(x) => Some(SecretItem::from(x)),
                None => None,
            },
            uid: match spec.uid {
                Some(x) => Some(SecretItem::from(x)),
                None => None,
            },
        }
    }
}

impl vstd::std_specs::convert::FromSpecImpl<v1alpha1::bot::ExchangeSecrets> for ExchangeSecrets {
    open spec fn obeys_from_spec() -> bool {
        true
    }

    open spec fn from_spec(spec: v1alpha1::bot::ExchangeSecrets) -> Self {
        ExchangeSecrets {
            key: match spec.key {
                Some(x) => Some(<SecretItem as FromSpec<v1alpha1::common::SecretItem>>::from_spec(x)),
                None => None,
            },
            secret: match spec.secret {
                Some(x) => Some(<SecretItem as FromSpec<v1alpha1::common::SecretItem>>::from_spec(x)),
                None => None,
            },
            password: match spec.password {
                Some(x) => Some(<SecretItem as FromSpec<v1alpha1::common::SecretItem>>::from_spec(x)),
                None => None,
            },
            uid: match spec.uid {
                Some(x) => Some(<SecretItem as FromSpec<v1alpha1::common::SecretItem>>::from_spec(x)),
                None => None,
            },
        }
    }
}

impl From<v1alpha1::bot::BotSecrets> for BotSecrets {
    fn from(spec: v1alpha1::bot::BotSecrets) -> (r: Self) {
        BotSecrets {
            exchange: match spec.exchange {
                Some(x) => Some(ExchangeSecrets::from(x)),
                None => None,
            },
            api: match spec.api {
                Some(x) => Some(ApiSecrets::from(x)),
                None => None,
            },
            telegram: match spec.telegram {
                Some(x) => Some(TelegramSecrets::from(x)),
                None => None,
            },
        }
    }
}

impl vstd::std_specs::convert::FromSpecImpl<v1alpha1::bot::BotSecrets> for BotSecrets {
    open spec fn obeys_from_spec() -> bool {
        true
    }

    open spec fn from_spec(spec: v1alpha1::bot::BotSecrets) -> Self {
        BotSecrets {
            exchange: match spec.exchange {
                Some(x) => Some(<ExchangeSecrets as FromSpec<v1alpha1::bot::ExchangeSecrets>>::from_spec(x)),
                None => None,
            },
            api: match spec.api {
                Some(x) => Some(<ApiSecrets as FromSpec<v1alpha1::bot::ApiSecrets>>::from_spec(x)),
                None => None,
            },
            telegram: match spec.telegram {
                Some(x) => Some(<TelegramSecrets as FromSpec<v1alpha1::bot::TelegramSecrets>>::from_spec(x)),
                None => None,
            },
        }
    }
}

impl From<v1alpha1::bot::BotStrategySpec> for BotStrategySpec {
    fn from(spec: v1alpha1::bot::BotStrategySpec) -> (r: Self) {
        BotStrategySpec {
            name: spec.name,
            config_map_name: spec.config_map_name,
            source: spec.source,
        }
    }
}

impl vstd::std_specs::convert::FromSpecImpl<v1alpha1::bot::BotStrategySpec> for BotStrategySpec {
    open spec fn obeys_from_spec() -> bool {
        true
    }

    open spec fn from_spec(spec: v1alpha1::bot::BotStrategySpec) -> Self {
        BotStrategySpec {
            name: spec.name,
            config_map_name: spec.config_map_name,
            source: spec.source,
        }
    }
}

impl From<v1alpha1::bot::BotModelSpec> for BotModelSpec {
    fn from(spec: v1alpha1::bot::BotModelSpec) -> (r: Self) {
        BotModelSpec {
            name: spec.name,
            config_map_name: spec.config_map_name,
            source: spec.source,
        }
    }
}

impl vstd::std_specs::convert::FromSpecImpl<v1alpha1::bot::BotModelSpec> for BotModelSpec {
    open spec fn obeys_from_spec() -> bool {
        true
    }

    open spec fn from_spec(spec: v1alpha1::bot::BotModelSpec) -> Self {
        BotModelSpec {
            name: spec.name,
            config_map_name: spec.config_map_name,
            source: spec.source,
        }
    }
}

impl From<v1alpha1::bot::BotApiSpec> for BotApiSpec {
    fn from(spec: v1alpha1::bot::BotApiSpec) -> (r: Self) {
        BotApiSpec {
            enabled: spec.enabled,
            host: spec.host,
            port: spec.port,
        }
    }
}

impl vstd::std_specs::convert::FromSpecImpl<v1alpha1::bot::BotApiSpec> for BotApiSpec {
    open spec fn obeys_from_spec() -> bool {
        true
    }

    open spec fn from_spec(spec: v1alpha1::bot::BotApiSpec) -> Self {
        BotApiSpec {
            enabled: spec.enabled,
            host: spec.host,
            port: spec.port,
        }
    }
}

impl From<v1alpha1::bot::BotServicePort> for BotServicePort {
    fn from(spec: v1alpha1::bot::BotServicePort) -> (r: Self) {
        BotServicePort {
            name: spec.name,
            port: spec.port,
            target_port: spec.target_port,
        }
    }
}

impl vstd::std_specs::convert::FromSpecImpl<v1alpha1::bot::BotServicePort> for BotServicePort {
    open spec fn obeys_from_spec() -> bool {
        true
    }

    open spec fn from_spec(spec: v1alpha1::bot::BotServicePort) -> Self {
        BotServicePort {
            name: spec.name,
            port: spec.port,
            target_port: spec.target_port,
        }
    }
}

impl From<v1alpha1::bot::BotPvcSpec> for BotPvcSpec {
    fn from(spec: v1alpha1::bot::BotPvcSpec) -> (r: Self) {
        BotPvcSpec {
            enabled: spec.enabled,
            annotations: spec.annotations,
            labels: spec.labels,
            storage_class: spec.storage_class,
            size: spec.size,
        }
    }
}

impl vstd::std_specs::convert::FromSpecImpl<v1alpha1::bot::BotPvcSpec> for BotPvcSpec {
    open spec fn obeys_from_spec() -> bool {
        true
    }

    open spec fn from_spec(spec: v1alpha1::bot::BotPvcSpec) -> Self {
        BotPvcSpec {
            enabled: spec.enabled,
            annotations: spec.annotations,
            labels: spec.labels,
            storage_class: spec.storage_class,
            size: spec.size,
        }
    }
}

impl From<v1alpha1::bot::BotDeploymentSpec> for BotDeploymentSpec {
    fn from(spec: v1alpha1::bot::BotDeploymentSpec) -> (r: Self) {
        BotDeploymentSpec {
            command: spec.command,
            annotations: spec.annotations,
            labels: spec.labels,
            node_selector: spec.node_selector,
            resources: spec.resources,
            affinity: spec.affinity,
            tolerations: spec.tolerations,
            pod_security_context: spec.pod_security_context,
            security_context: spec.security_context,
            containers: spec.containers,
            init_containers: spec.init_containers,
            volumes: spec.volumes,
            volume_mounts: spec.volume_mounts,
            env: spec.env,
        }
    }
}

impl vstd::std_specs::convert::FromSpecImpl<v1alpha1::bot::BotDeploymentSpec> for BotDeploymentSpec {
    open spec fn obeys_from_spec() -> bool {
        true
    }

    open spec fn from_spec(spec: v1alpha1::bot::BotDeploymentSpec) -> Self {
        BotDeploymentSpec {
            command: spec.command,
            annotations: spec.annotations,
            labels: spec.labels,
            node_selector: spec.node_selector,
            resources: spec.resources,
            affinity: spec.affinity,
            tolerations: spec.tolerations,
            pod_security_context: spec.pod_security_context,
            security_context: spec.security_context,
            containers: spec.containers,
            init_containers: spec.init_containers,
            volumes: spec.volumes,
            volume_mounts: spec.volume_mounts,
            env: spec.env,
        }
    }
}

/// Whether a hub Service spec carries over what the wire form says: the
/// same type, annotations and labels, and the same ports in the same order.
pub open spec fn service_carried_over(spec: v1alpha1::bot::BotServiceSpec, r: BotServiceSpec) -> bool {
    &&& r.service_type == spec.service_type
    &&& r.annotations == spec.annotations
    &&& r.labels == spec.labels
    &&& r.ports@.len() == spec.ports@.len()
    &&& forall|i: int| 0 <= i < r.ports@.len() ==> #[trigger] r.ports@[i] == <BotServicePort as FromSpec<v1alpha1::bot::BotServicePort>>::from_spec(spec.ports@[i])
}

/// Carries a Service spec over into the hub form.
pub fn service_from(spec: v1alpha1::bot::BotServiceSpec) -> (r: BotServiceSpec)
    ensures
        service_carried_over(spec, r),
{
    let mut ports: Vec<BotServicePort> = Vec::new();
    let mut from = spec.ports;
    let ghost all = from@;
    let n = from.len();
    let mut i: usize = 0;
    while i < n
        invariant
            i <= n,
            n == all.len(),
            from@.len() == n,
            ports@.len() == i,
            forall|j: int| 0 <= j < i ==> #[trigger] ports@[j] == <BotServicePort as FromSpec<v1alpha1::bot::BotServicePort>>::from_spec(all[j]),
            forall|j: int| i <= j < n ==> #[trigger] from@[j] == all[j],
        decreases n - i,
    {
        let port = &from[i];
        ports.push(
            BotServicePort { name: port.name.clone(), port: port.port, target_port: port.target_port.clone() },
        );
        i += 1;
    }
    BotServiceSpec {
        service_type: spec.service_type,
        annotations: spec.annotations,
        labels: spec.labels,
        ports: ports,
    }
}

impl From<v1alpha1::bot::BotServiceSpec> for BotServiceSpec {
    fn from(spec: v1alpha1::bot::BotServiceSpec) -> (r: Self)
        ensures
            service_carried_over(spec, r),
    {
        service_from(spec)
    }
}

impl vstd::std_specs::convert::FromSpecImpl<v1alpha1::bot::BotServiceSpec> for BotServiceSpec {
    open spec fn obeys_from_spec() -> bool {
        false
    }

    open spec fn from_spec(spec: v1alpha1::bot::BotServiceSpec) -> Self {
        arbitrary()
    }
}

/// Whether a hub spec carries over what the wire form says.
pub open spec fn spec_carried_over(spec: v1alpha1::bot::BotSpec, r: BotSpec) -> bool {
    &&& r.exchange == spec.exchange
    &&& r.database == spec.database
    &&& r.config == spec.config
    &&& r.strategy == <BotStrategySpec as FromSpec<v1alpha1::bot::BotStrategySpec>>::from_spec(spec.strategy)
    &&& r.model == (match spec.model {
        Some(m) => Some(<BotModelSpec as FromSpec<v1alpha1::bot::BotModelSpec>>::from_spec(m)),
        None => None,
    })
    &&& r.image == <BotImageSpec as FromSpec<v1alpha1::bot::BotImageSpec>>::from_spec(spec.image)
    &&& r.secrets == <BotSecrets as FromSpec<v1alpha1::bot::BotSecrets>>::from_spec(spec.secrets)
    &&& r.api == <BotApiSpec as FromSpec<v1alpha1::bot::BotApiSpec>>::from_spec(spec.api)
    &&& service_carried_over(spec.service, r.service)
    &&& r.pvc == <BotPvcSpec as FromSpec<v1alpha1::bot::BotPvcSpec>>::from_spec(spec.pvc)
    &&& r.deployment == <BotDeploymentSpec as FromSpec<v1alpha1::bot::BotDeploymentSpec>>::from_spec(spec.deployment)
}

impl From<v1alpha1::bot::BotSpec> for BotSpec {
    fn from(spec: v1alpha1::bot::BotSpec) -> (r: Self)
        ensures
            spec_carried_over(spec, r),
    {
        BotSpec {
            exchange: spec.exchange,
            database: spec.database,
            config: spec.config,
            strategy: BotStrategySpec::from(spec.strategy),
            model: match spec.model {
                Some(m) => Some(BotModelSpec::from(m)),
                None => None,
            },
            image: BotImageSpec::from(spec.image),
            secrets: BotSecrets::from(spec.secrets),
            api: BotApiSpec::from(spec.api),
            service: BotServiceSpec::from(spec.service),
            pvc: BotPvcSpec::from(spec.pvc),
            deployment: BotDeploymentSpec::from(spec.deployment),
        }
    }
}

impl vstd::std_specs::convert::FromSpecImpl<v1alpha1::bot::BotSpec> for BotSpec {
    open spec fn obeys_from_spec() -> bool {
        false
    }

    open spec fn from_spec(spec: v1alpha1::bot::BotSpec) -> Self {
        arbitrary()
    }
}

impl From<v1alpha1::bot::Bot> for Bot {
    fn from(bot: v1alpha1::bot::Bot) -> (r: Self)
        ensures
            r.metadata == bot.metadata,
            spec_carried_over(bot.spec, r.spec),
            r.status == (match bot.status {
                Some(s) => Some(<BotStatus as FromSpec<v1alpha1::bot::BotStatus>>::from_spec(s)),
                None => None,
            }),
    {
        Bot {
            metadata: bot.metadata,
            spec: BotSpec::from(bot.spec),
            status: match bot.status {
                Some(s) => Some(BotStatus::from(s)),
                None => None,
            },
        }
    }
}

impl vstd::std_specs::convert::FromSpecImpl<v1alpha1::bot::Bot> for Bot {
    open spec fn obeys_from_spec() -> bool {
        false
    }

    open spec fn from_spec(bot: v1alpha1::bot::Bot) -> Self {
        arbitrary()
    }
}

} // verus!

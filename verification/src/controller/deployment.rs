//! The Deployment of a bot: its projection.

use crate::common::config::AppConfig;
use crate::common::content::{append_items, push_item, Content};
use crate::common::text::{join3, owned, str_eq};
use crate::controller::env::{container_env, make_container_env};
use crate::controller::labels::{
    identifying_labels, make_identifying_labels, make_managed_meta, make_template_meta, managed_meta,
    template_meta,
};
use crate::controller::traits::FromHub;
use crate::crd::hub::bot::Bot;
use crate::objects::{
    ConfigMapVolumeSource, ConfigMapVolumeSourceView, Container, ContainerPort, ContainerPortView,
    ContainerView, Deployment, DeploymentSpec, DeploymentSpecView, DeploymentView, KeyToPath,
    KeyToPathView, OwnerReference, OwnerReferenceView, PersistentVolumeClaimVolumeSource,
    PersistentVolumeClaimVolumeSourceView, PodSpec, PodSpecView, PodTemplateSpec,
    PodTemplateSpecView, Volume, VolumeMount, VolumeMountView, VolumeSource, VolumeSourceView,
    VolumeView,
};
use vstd::prelude::*;

verus! {

/// The image that the bot runs: repository and tag, each from the bot or,
/// where the bot names none, from the operator's defaults.
pub open spec fn image_of(bot: &Bot, config: &AppConfig) -> Seq<char> {
    let repository = match bot.spec.image.repository {
        Some(r) => r@,
        None => config.controller.default_image_repo@,
    };
    let tag = match bot.spec.image.tag {
        Some(t) => t@,
        None => config.controller.default_image_tag@,
    };
    repository + ":"@ + tag
}

/// The command that starts the bot, with the model flag where a model is
/// declared.
pub open spec fn default_command(bot: &Bot) -> Seq<Seq<char>> {
    let base = seq!["freqtrade"@, "trade"@, "--config"@, "/etc/freqtrade/config.json"@];
    match bot.spec.model {
        Some(m) => base + seq!["--freqaimodel"@, m.name@],
        None => base,
    }
}

/// A user command in which every token `$CMD` is replaced, in place, by the
/// default command.
pub open spec fn expand_command(user: Seq<Seq<char>>, default: Seq<Seq<char>>) -> Seq<Seq<char>>
    decreases user.len(),
{
    if user.len() == 0 {
        Seq::empty()
    } else {
        let head = expand_command(user.drop_last(), default);
        if user.last() == "$CMD"@ {
            head + default
        } else {
            head.push(user.last())
        }
    }
}

/// The command of the bot's container.
pub open spec fn command_of(bot: &Bot) -> Seq<Seq<char>> {
    match bot.spec.deployment.command {
        Some(user) => expand_command(user.deep_view(), default_command(bot)),
        None => default_command(bot),
    }
}

/// The one port of the bot's container: the API port, named `api`.
pub open spec fn api_container_port(bot: &Bot) -> ContainerPortView {
    ContainerPortView {
        container_port: bot.spec.api.port as i32,
        name: Some("api"@),
        protocol: None,
        host_ip: None,
        host_port: None,
    }
}

/// The mount of the configuration volume.
pub open spec fn config_mount() -> VolumeMountView {
    VolumeMountView {
        name: "config"@,
        mount_path: "/etc/freqtrade"@,
        read_only: None,
        sub_path: None,
        sub_path_expr: None,
        mount_propagation: None,
        recursive_read_only: None,
    }
}

/// A key of the ConfigMap, mounted under its own name.
pub open spec fn config_item(key: Seq<char>) -> KeyToPathView {
    KeyToPathView { key: key, path: key, mode: None }
}

/// The keys of the bot's ConfigMap that the configuration volume shows:
/// the configuration, the strategy unless a ConfigMap of the user holds it,
/// and the model where its source is inline and no ConfigMap holds it.
pub open spec fn config_items(bot: &Bot) -> Seq<KeyToPathView> {
    let strategy = if bot.spec.strategy.config_map_name is None {
        seq![config_item("strategy.py"@)]
    } else {
        Seq::empty()
    };
    let model = if bot.spec.model is Some && bot.spec.model->0.source is Some
        && bot.spec.model->0.config_map_name is None {
        seq![config_item("model.py"@)]
    } else {
        Seq::empty()
    };
    seq![config_item("config.json"@)] + strategy + model
}

/// A volume filled from the ConfigMap `config_map`.
pub open spec fn config_map_volume(
    name: Seq<char>,
    config_map: Seq<char>,
    items: Option<Seq<KeyToPathView>>,
) -> VolumeView {
    VolumeView {
        name: name,
        source: VolumeSourceView::ConfigMap(
            ConfigMapVolumeSourceView {
                name: config_map,
                items: items,
                optional: None,
                default_mode: None,
            },
        ),
    }
}

/// The volume that holds the bot's data.
pub open spec fn user_data_volume(name: Seq<char>) -> VolumeView {
    VolumeView {
        name: "user-data"@,
        source: VolumeSourceView::PersistentVolumeClaim(
            PersistentVolumeClaimVolumeSourceView { claim_name: name, read_only: None },
        ),
    }
}

/// The volumes of the pod: always `config`; `user-data` with the claim
/// enabled; `strategy` and `model` where a ConfigMap of the user holds the
/// code; then the user's volumes.
pub open spec fn volumes_of(bot: &Bot, name: Seq<char>) -> Seq<VolumeView> {
    let data = if bot.spec.pvc.enabled {
        seq![user_data_volume(name)]
    } else {
        Seq::empty()
    };
    let strategy = match bot.spec.strategy.config_map_name {
        Some(cm) => seq![config_map_volume("strategy"@, cm@, None)],
        None => Seq::empty(),
    };
    let model = if bot.spec.model is Some && bot.spec.model->0.config_map_name is Some {
        seq![config_map_volume("model"@, bot.spec.model->0.config_map_name->0@, None)]
    } else {
        Seq::empty()
    };
    seq![config_map_volume("config"@, name, Some(config_items(bot)))] + data + strategy + model
        + bot.spec.deployment.volumes.deep_view()
}

/// The bot's own container.
pub open spec fn bot_container(bot: &Bot, name: Seq<char>, config: &AppConfig) -> ContainerView {
    ContainerView {
        name: name,
        image: Some(image_of(bot, config)),
        image_pull_policy: bot.spec.image.pull_policy.deep_view(),
        command: Some(command_of(bot)),
        env: Some(container_env(bot, name)),
        ports: Some(seq![api_container_port(bot)]),
        volume_mounts: Some(seq![config_mount()] + bot.spec.deployment.volume_mounts.deep_view()),
        resources: None,
        security_context: None,
        extra: None,
    }
}

/// The pod of the bot.
pub open spec fn pod_of(bot: &Bot, name: Seq<char>, config: &AppConfig) -> PodSpecView {
    PodSpecView {
        containers: seq![bot_container(bot, name, config)] + bot.spec.deployment.containers.deep_view(),
        init_containers: if bot.spec.deployment.init_containers@.len() == 0 {
            None
        } else {
            Some(bot.spec.deployment.init_containers.deep_view())
        },
        volumes: Some(volumes_of(bot, name)),
        image_pull_secrets: bot.spec.image.pull_secrets.deep_view(),
        node_selector: None,
        affinity: None,
        tolerations: None,
        security_context: None,
    }
}

/// The Deployment that a bot projects to. It always asks for one replica.
pub open spec fn deployment_of(
    bot: &Bot,
    name: Seq<char>,
    namespace: Seq<char>,
    owner_ref: OwnerReferenceView,
    config: &AppConfig,
) -> DeploymentView {
    DeploymentView {
        metadata: managed_meta(
            name,
            namespace,
            owner_ref,
            bot.spec.deployment.annotations.deep_view(),
            bot.spec.deployment.labels.deep_view(),
        ),
        spec: Some(
            DeploymentSpecView {
                replicas: Some(1i32),
                selector: Some(identifying_labels(name)),
                template: PodTemplateSpecView {
                    metadata: Some(
                        template_meta(
                            name,
                            bot.spec.deployment.annotations.deep_view(),
                            bot.spec.deployment.labels.deep_view(),
                        ),
                    ),
                    spec: Some(pod_of(bot, name, config)),
                },
            },
        ),
        status: None,
    }
}

/// Builds the image reference.
fn make_image(bot: &Bot, config: &AppConfig) -> (r: String)
    ensures
        r@ == image_of(bot, config),
{
    let repository = match &bot.spec.image.repository {
        Some(r) => r.as_str(),
        None => config.controller.default_image_repo.as_str(),
    };
    let tag = match &bot.spec.image.tag {
        Some(t) => t.as_str(),
        None => config.controller.default_image_tag.as_str(),
    };
    join3(repository, ":", tag)
}

/// Builds the default command.
fn make_default_command(bot: &Bot) -> (r: Vec<String>)
    ensures
        r.deep_view() == default_command(bot),
{
    let mut command: Vec<String> = Vec::new();
    assert(command.deep_view() =~= Seq::empty());
    push_item(&mut command, owned("freqtrade"));
    push_item(&mut command, owned("trade"));
    push_item(&mut command, owned("--config"));
    push_item(&mut command, owned("/etc/freqtrade/config.json"));
    match &bot.spec.model {
        Some(m) => {
            push_item(&mut command, owned("--freqaimodel"));
            push_item(&mut command, m.name.clone());
        },
        None => {},
    }
    assert(command.deep_view() =~= default_command(bot));
    command
}

/// Builds the command of the bot's container.
fn make_command(bot: &Bot) -> (r: Vec<String>)
    ensures
        r.deep_view() == command_of(bot),
{
    let default = make_default_command(bot);
    match &bot.spec.deployment.command {
        Some(user) => {
            let mut command: Vec<String> = Vec::new();
            assert(command.deep_view() =~= Seq::empty());
            let mut i: usize = 0;
            while i < user.len()
                invariant
                    i <= user.len(),
                    default.deep_view() == default_command(bot),
                    command.deep_view() == expand_command(
                        user.deep_view().take(i as int),
                        default_command(bot),
                    ),
                decreases user.len() - i,
            {
                proof {
                    let next = user.deep_view().take(i + 1);
                    assert(next.drop_last() =~= user.deep_view().take(i as int));
                    assert(next.last() == user[i as int]@);
                }
                if str_eq(user[i].as_str(), "$CMD") {
                    append_items(&mut command, &default);
                } else {
                    push_item(&mut command, user[i].clone());
                }
                i += 1;
            }
            assert(user.deep_view().take(user.len() as int) =~= user.deep_view());
            command
        },
        None => default,
    }
}

/// Builds a key of the ConfigMap mounted under its own name.
fn make_config_item(key: &str) -> (r: KeyToPath)
    ensures
        r.deep_view() == config_item(key@),
{
    KeyToPath { key: owned(key), path: owned(key), mode: None }
}

/// Builds a volume filled from a ConfigMap.
fn make_config_map_volume(name: &str, config_map: &str, items: Option<Vec<KeyToPath>>) -> (r: Volume)
    ensures
        r.deep_view() == config_map_volume(name@, config_map@, items.deep_view()),
{
    Volume {
        name: owned(name),
        source: VolumeSource::ConfigMap(
            ConfigMapVolumeSource {
                name: owned(config_map),
                items: items,
                optional: None,
                default_mode: None,
            },
        ),
    }
}

/// Builds the volumes of the pod.
fn make_volumes(bot: &Bot, name: &str) -> (r: Vec<Volume>)
    ensures
        r.deep_view() == volumes_of(bot, name@),
{
    let mut items: Vec<KeyToPath> = Vec::new();
    assert(items.deep_view() =~= Seq::empty());
    push_item(&mut items, make_config_item("config.json"));
    if bot.spec.strategy.config_map_name.is_none() {
        push_item(&mut items, make_config_item("strategy.py"));
    }
    match &bot.spec.model {
        Some(m) => {
            if m.source.is_some() && m.config_map_name.is_none() {
                push_item(&mut items, make_config_item("model.py"));
            }
        },
        None => {},
    }
    assert(items.deep_view() =~= config_items(bot));

    let mut volumes: Vec<Volume> = Vec::new();
    assert(volumes.deep_view() =~= Seq::empty());
    push_item(&mut volumes, make_config_map_volume("config", name, Some(items)));
    if bot.spec.pvc.enabled {
        push_item(
            &mut volumes,
            Volume {
                name: owned("user-data"),
                source: VolumeSource::PersistentVolumeClaim(
                    PersistentVolumeClaimVolumeSource { claim_name: owned(name), read_only: None },
                ),
            },
        );
    }
    match &bot.spec.strategy.config_map_name {
        Some(cm) => {
            push_item(&mut volumes, make_config_map_volume("strategy", cm.as_str(), None));
        },
        None => {},
    }
    match &bot.spec.model {
        Some(m) => {
            match &m.config_map_name {
                Some(cm) => {
                    push_item(&mut volumes, make_config_map_volume("model", cm.as_str(), None));
                },
                None => {},
            }
        },
        None => {},
    }
    append_items(&mut volumes, &bot.spec.deployment.volumes);
    assert(volumes.deep_view() =~= volumes_of(bot, name@));
    volumes
}

/// Builds the bot's own container.
fn make_bot_container(bot: &Bot, name: &str, config: &AppConfig) -> (r: Container)
    ensures
        r.deep_view() == bot_container(bot, name@, config),
{
    let mut ports: Vec<ContainerPort> = Vec::new();
    push_item(
        &mut ports,
        ContainerPort {
            container_port: bot.spec.api.port as i32,
            name: Some(owned("api")),
            protocol: None,
            host_ip: None,
            host_port: None,
        },
    );
    assert(ports.deep_view() =~= seq![api_container_port(bot)]);
    let mut mounts: Vec<VolumeMount> = Vec::new();
    push_item(
        &mut mounts,
        VolumeMount {
            name: owned("config"),
            mount_path: owned("/etc/freqtrade"),
            read_only: None,
            sub_path: None,
            sub_path_expr: None,
            mount_propagation: None,
            recursive_read_only: None,
        },
    );
    append_items(&mut mounts, &bot.spec.deployment.volume_mounts);
    assert(mounts.deep_view() =~= seq![config_mount()] + bot.spec.deployment.volume_mounts.deep_view());
    Container {
        name: owned(name),
        image: Some(make_image(bot, config)),
        image_pull_policy: bot.spec.image.pull_policy.dup(),
        command: Some(make_command(bot)),
        env: Some(make_container_env(bot, name)),
        ports: Some(ports),
        volume_mounts: Some(mounts),
        resources: None,
        security_context: None,
        extra: None,
    }
}

/// Builds the pod of the bot.
fn make_pod(bot: &Bot, name: &str, config: &AppConfig) -> (r: PodSpec)
    ensures
        r.deep_view() == pod_of(bot, name@, config),
{
    let mut containers: Vec<Container> = Vec::new();
    push_item(&mut containers, make_bot_container(bot, name, config));
    append_items(&mut containers, &bot.spec.deployment.containers);
    assert(containers.deep_view() =~= seq![bot_container(bot, name@, config)]
        + bot.spec.deployment.containers.deep_view());
    let init_containers = if bot.spec.deployment.init_containers.len() == 0 {
        None
    } else {
        Some(bot.spec.deployment.init_containers.dup())
    };
    PodSpec {
        containers: containers,
        init_containers: init_containers,
        volumes: Some(make_volumes(bot, name)),
        image_pull_secrets: bot.spec.image.pull_secrets.dup(),
        node_selector: None,
        affinity: None,
        tolerations: None,
        security_context: None,
    }
}

impl FromHub<Bot> for Deployment {
    open spec fn is_projection(
        hub: &Bot,
        name: Seq<char>,
        namespace: Seq<char>,
        owner_ref: OwnerReferenceView,
        config: &AppConfig,
        object: DeploymentView,
    ) -> bool {
        object == deployment_of(hub, name, namespace, owner_ref, config)
    }

    /// Projects a bot onto its Deployment.
    fn from_hub(bot: &Bot, name: &str, namespace: &str, owner_ref: OwnerReference, config: &AppConfig) -> (r:
        Self) {
        Deployment {
            metadata: make_managed_meta(
                name,
                namespace,
                owner_ref,
                &bot.spec.deployment.annotations,
                &bot.spec.deployment.labels,
            ),
            spec: Some(
                DeploymentSpec {
                    replicas: Some(1),
                    selector: Some(make_identifying_labels(name)),
                    template: PodTemplateSpec {
                        metadata: Some(
                            make_template_meta(
                                name,
                                &bot.spec.deployment.annotations,
                                &bot.spec.deployment.labels,
                            ),
                        ),
                        spec: Some(make_pod(bot, name, config)),
                    },
                },
            ),
            status: None,
        }
    }
}

} // verus!

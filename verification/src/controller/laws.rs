//! Laws of the reconciliation engine.

use crate::common::config::AppConfig;
use crate::common::string_map::{entries_map, lemma_entries_map_dom, Labels};
use crate::common::json::config_json_text;
use crate::common::utils::{is_hex_digest, object_hash};
use crate::controller::bot::{next_action, Decisions, ReconcileAction, ReconcileStep};
use crate::controller::config_map::config_map_of;
use crate::controller::deployment::deployment_of;
use crate::controller::drift::{deployment_drifted, volumes_equal};
use crate::controller::keyed::{group, groups_alike, keyed_lists_differ};
use crate::controller::labels::lemma_managed_labels_identify;
use crate::controller::phase::phase_of_deployment;
use crate::controller::pvc::{pvc_drifted, pvc_of};
use crate::controller::service::{api_service_port, service_drifted, service_of, service_port_of, service_ports_of};
use crate::controller::traits::{FromHub, ResourceDrift};
use crate::controller::utils::Action;
use crate::crd::hub::bot::{has_api_port, is_api_port, Bot};
use crate::objects::{
    ConfigMap, ConfigMapView, Deployment, DeploymentView, EnvVar, OwnerReferenceView,
    PersistentVolumeClaim, PersistentVolumeClaimView, Service, ServicePortView, ServiceView, Volume,
};
use vstd::prelude::*;

verus! {

/// Projection is deterministic: two Deployments, two claims, two Services
/// or two ConfigMaps projected from the same bot under the same name,
/// namespace, owner and defaults have the same content.
pub proof fn law_projection_deterministic(
    bot: &Bot,
    name: Seq<char>,
    namespace: Seq<char>,
    owner_ref: OwnerReferenceView,
    config: &AppConfig,
    d1: DeploymentView,
    d2: DeploymentView,
    p1: PersistentVolumeClaimView,
    p2: PersistentVolumeClaimView,
    s1: ServiceView,
    s2: ServiceView,
    c1: ConfigMapView,
    c2: ConfigMapView,
)
    requires
        <Deployment as FromHub<Bot>>::is_projection(bot, name, namespace, owner_ref, config, d1),
        <Deployment as FromHub<Bot>>::is_projection(bot, name, namespace, owner_ref, config, d2),
        <PersistentVolumeClaim as FromHub<Bot>>::is_projection(bot, name, namespace, owner_ref, config, p1),
        <PersistentVolumeClaim as FromHub<Bot>>::is_projection(bot, name, namespace, owner_ref, config, p2),
        <Service as FromHub<Bot>>::is_projection(bot, name, namespace, owner_ref, config, s1),
        <Service as FromHub<Bot>>::is_projection(bot, name, namespace, owner_ref, config, s2),
        <ConfigMap as FromHub<Bot>>::is_projection(bot, name, namespace, owner_ref, config, c1),
        <ConfigMap as FromHub<Bot>>::is_projection(bot, name, namespace, owner_ref, config, c2),
    ensures
        d1 == d2,
        p1 == p2,
        s1 == s2,
        c1 == c2,
{
}

/// No object has drifted from itself.
pub proof fn law_drift_reflexive(c: ConfigMapView, p: PersistentVolumeClaimView, d: DeploymentView, s: ServiceView)
    ensures
        !<ConfigMap as ResourceDrift<Bot>>::drifted(c, c),
        !<PersistentVolumeClaim as ResourceDrift<Bot>>::drifted(p, p),
        !<Deployment as ResourceDrift<Bot>>::drifted(d, d),
        !<Service as ResourceDrift<Bot>>::drifted(s, s),
{
    assert(!pvc_drifted(p, p));
    assert(!service_drifted(s, s));
    assert forall|a: Seq<crate::objects::EnvVarView>| !keyed_lists_differ::<EnvVar>(a, a) by {
        assert forall|k: Seq<char>| #[trigger] groups_alike::<EnvVar>(a, a, k) by {}
    }
    assert forall|a: Seq<crate::objects::VolumeView>| !keyed_lists_differ::<Volume>(a, a) by {
        assert forall|k: Seq<char>| #[trigger] groups_alike::<Volume>(a, a, k) by {
            let x = group::<Volume>(a, k);
            assert forall|i: int| 0 <= i < x.len() implies volumes_equal(#[trigger] x[i], x[i]) by {}
        }
    }
    assert(!deployment_drifted(d, d));
}

/// A reconcile that finds nothing to do calls the API server for nothing:
/// its one action is to ask for the next reconcile in 30 seconds.
pub proof fn law_noop_reconcile(
    decisions: Decisions,
    status_phase: Option<Seq<char>>,
    latest: Option<DeploymentView>,
)
    requires
        !decisions.initial_status,
        !decisions.apply_config_map,
        !decisions.apply_pvc,
        !decisions.delete_pvc,
        !decisions.apply_deployment,
        !decisions.patch_config_hash,
        !decisions.rollout,
        !decisions.apply_service,
        !decisions.delete_service,
        status_phase == Some(phase_of_deployment(latest).label()),
    ensures
        next_action(decisions, status_phase, ReconcileStep::Status, latest) == Some(
            (ReconcileAction::Finish(Action::Requeue(30)), ReconcileStep::Done),
        ),
        next_action(decisions, status_phase, ReconcileStep::Done, latest) is None,
{
    reveal_with_fuel(next_action, 10);
}

/// A reconcile of a converged bot is a no-op. Where every enabled
/// dependent exists and has not drifted from its projection, no disabled
/// dependent exists, the recorded hash is the incoming one and the status
/// carries the phase that the Deployment stands for, the reconcile asks for
/// the next reconcile in 30 seconds and does nothing else. This is what a
/// reconcile finds right after a successful one.
pub proof fn law_converged_reconcile_is_noop(
    bot: &Bot,
    observed: &crate::controller::bot::Observed,
    config_map: ConfigMapView,
    pvc: PersistentVolumeClaimView,
    deployment: DeploymentView,
    service: ServiceView,
    hash: Seq<char>,
)
    requires
        bot.status is Some,
        bot.status->0.phase@ == phase_of_deployment(observed.deployment.deep_view()).label(),
        observed.config_map is Some,
        !<ConfigMap as ResourceDrift<Bot>>::drifted(observed.config_map.deep_view()->0, config_map),
        observed.deployment is Some,
        !<Deployment as ResourceDrift<Bot>>::drifted(observed.deployment.deep_view()->0, deployment),
        bot.spec.pvc.enabled ==> observed.pvc is Some && !<PersistentVolumeClaim as ResourceDrift<
            Bot,
        >>::drifted(observed.pvc.deep_view()->0, pvc),
        !bot.spec.pvc.enabled ==> observed.pvc is None,
        bot.spec.api.enabled ==> observed.service is Some && !<Service as ResourceDrift<Bot>>::drifted(
            observed.service.deep_view()->0,
            service,
        ),
        !bot.spec.api.enabled ==> observed.service is None,
    ensures
        next_action(
            crate::controller::bot::decide(bot, observed, config_map, pvc, deployment, service, hash, hash),
            Some(bot.status->0.phase@),
            ReconcileStep::Status,
            observed.deployment.deep_view(),
        ) == Some((ReconcileAction::Finish(Action::Requeue(30)), ReconcileStep::Done)),
{
    let decisions = crate::controller::bot::decide(bot, observed, config_map, pvc, deployment, service, hash, hash);
    law_noop_reconcile(decisions, Some(bot.status->0.phase@), observed.deployment.deep_view());
}

/// After a successful reconcile the next one is a no-op. Where the API
/// server holds the dependents as they were projected (the Deployment with
/// the projected spec, whatever its metadata and status; the claim and the
/// Service if they are enabled, and not otherwise), the Deployment records
/// the incoming hash and the bot's status carries the phase of the
/// Deployment, nothing is left to do but to ask for the next reconcile.
pub proof fn law_reconcile_after_success_is_noop(
    bot: &Bot,
    observed: &crate::controller::bot::Observed,
    config_map: ConfigMapView,
    pvc: PersistentVolumeClaimView,
    deployment: DeploymentView,
    service: ServiceView,
    hash: Seq<char>,
)
    requires
        bot.status is Some,
        bot.status->0.phase@ == phase_of_deployment(observed.deployment.deep_view()).label(),
        observed.config_map.deep_view() == Some(config_map),
        observed.deployment is Some,
        observed.deployment.deep_view()->0.spec == deployment.spec,
        bot.spec.pvc.enabled ==> observed.pvc.deep_view() == Some(pvc),
        !bot.spec.pvc.enabled ==> observed.pvc is None,
        bot.spec.api.enabled ==> observed.service.deep_view() == Some(service),
        !bot.spec.api.enabled ==> observed.service is None,
    ensures
        next_action(
            crate::controller::bot::decide(bot, observed, config_map, pvc, deployment, service, hash, hash),
            Some(bot.status->0.phase@),
            ReconcileStep::Status,
            observed.deployment.deep_view(),
        ) == Some((ReconcileAction::Finish(Action::Requeue(30)), ReconcileStep::Done)),
{
    let stored = observed.deployment.deep_view()->0;
    law_drift_reflexive(config_map, pvc, deployment, service);
    assert(!deployment_drifted(stored, deployment)) by {
        assert(crate::controller::drift::replicas_of(stored) == crate::controller::drift::replicas_of(
            deployment,
        ));
        assert(crate::controller::drift::pod_spec_of(stored) == crate::controller::drift::pod_spec_of(
            deployment,
        ));
        assert(crate::controller::drift::containers_of(stored) == crate::controller::drift::containers_of(
            deployment,
        ));
    }
    law_converged_reconcile_is_noop(bot, observed, config_map, pvc, deployment, service, hash);
}

/// Every reconcile ends: whatever is to be done, the last action asks for
/// the next reconcile in 30 seconds, and none follows it.
pub proof fn law_reconcile_ends_with_requeue(
    decisions: Decisions,
    status_phase: Option<Seq<char>>,
    latest: Option<DeploymentView>,
)
    ensures
        next_action(decisions, status_phase, ReconcileStep::Requeue, latest) == Some(
            (ReconcileAction::Finish(Action::Requeue(30)), ReconcileStep::Done),
        ),
        next_action(decisions, status_phase, ReconcileStep::Done, latest) is None,
{
    reveal_with_fuel(next_action, 3);
}

/// The pods are restarted only after the new hash was recorded, and never
/// on the first materialisation, when no hash was recorded before.
pub proof fn law_rollout_needs_recorded_hash(
    bot: &Bot,
    observed: &crate::controller::bot::Observed,
    config_map: ConfigMapView,
    pvc: PersistentVolumeClaimView,
    deployment: DeploymentView,
    service: ServiceView,
    current_hash: Seq<char>,
    incoming_hash: Seq<char>,
)
    ensures
        ({
            let decisions = crate::controller::bot::decide(
                bot,
                observed,
                config_map,
                pvc,
                deployment,
                service,
                current_hash,
                incoming_hash,
            );
            &&& decisions.rollout ==> decisions.patch_config_hash
            &&& current_hash.len() == 0 ==> !decisions.rollout
            &&& current_hash == incoming_hash ==> !decisions.patch_config_hash && !decisions.rollout
            &&& !(decisions.apply_pvc && decisions.delete_pvc)
            &&& !(decisions.apply_service && decisions.delete_service)
        }),
{
}

/// The hash of the projected data is recorded whenever it differs from the
/// recorded one. On the first materialisation, when nothing was recorded,
/// it is recorded without a restart; where another hash was recorded, the
/// new one is recorded first and the pods are restarted next.
pub proof fn law_hash_change_is_recorded_then_rolled_out(
    bot: &Bot,
    observed: &crate::controller::bot::Observed,
    config_map: ConfigMapView,
    pvc: PersistentVolumeClaimView,
    deployment: DeploymentView,
    service: ServiceView,
    current_hash: Seq<char>,
    incoming_hash: Seq<char>,
    status_phase: Option<Seq<char>>,
    latest: Option<DeploymentView>,
)
    requires
        is_hex_digest(incoming_hash),
    ensures
        ({
            let decisions = crate::controller::bot::decide(
                bot,
                observed,
                config_map,
                pvc,
                deployment,
                service,
                current_hash,
                incoming_hash,
            );
            &&& current_hash.len() == 0 ==> decisions.patch_config_hash && !decisions.rollout
            &&& current_hash.len() > 0 && current_hash != incoming_hash ==> decisions.patch_config_hash
                && decisions.rollout
            &&& decisions.patch_config_hash ==> next_action(
                decisions,
                status_phase,
                ReconcileStep::ConfigHash,
                latest,
            ) == Some((ReconcileAction::PatchConfigHash, ReconcileStep::Rollout))
            &&& decisions.rollout ==> next_action(decisions, status_phase, ReconcileStep::Rollout, latest)
                == Some((ReconcileAction::Rollout, ReconcileStep::Phase))
            &&& current_hash.len() == 0 ==> next_action(decisions, status_phase, ReconcileStep::Rollout, latest)
                == next_action(decisions, status_phase, ReconcileStep::Phase, latest)
        }),
{
    reveal_with_fuel(next_action, 3);
}

/// A change of phase on a converged bot patches the status and does
/// nothing else: where nothing is to be applied, deleted or recorded and
/// the status carries another phase than the Deployment stands for, the
/// status is patched with that phase and the reconcile asks for the next
/// one in 30 seconds.
pub proof fn law_phase_change_patches_status_only(
    decisions: Decisions,
    status_phase: Option<Seq<char>>,
    latest: Option<DeploymentView>,
)
    requires
        !decisions.initial_status,
        !decisions.apply_config_map,
        !decisions.apply_pvc,
        !decisions.delete_pvc,
        !decisions.apply_deployment,
        !decisions.patch_config_hash,
        !decisions.rollout,
        !decisions.apply_service,
        !decisions.delete_service,
        status_phase != Some(phase_of_deployment(latest).label()),
    ensures
        next_action(decisions, status_phase, ReconcileStep::Status, latest) == Some(
            (ReconcileAction::PatchStatus(phase_of_deployment(latest)), ReconcileStep::Service),
        ),
        next_action(decisions, status_phase, ReconcileStep::Service, latest) == Some(
            (ReconcileAction::Finish(Action::Requeue(30)), ReconcileStep::Done),
        ),
{
    reveal_with_fuel(next_action, 10);
}

/// The projected ConfigMap carries the JSON text of the configuration
/// under `config.json`, which is `null` for a bot without configuration,
/// and the strategy's inline source under `strategy.py`.
pub proof fn law_config_map_carries_configuration(
    bot: &Bot,
    name: Seq<char>,
    namespace: Seq<char>,
    owner_ref: OwnerReferenceView,
    config: &AppConfig,
    object: ConfigMapView,
)
    requires
        <ConfigMap as FromHub<Bot>>::is_projection(bot, name, namespace, owner_ref, config, object),
    ensures
        object.data is Some,
        object.data->0.contains_pair("config.json"@, config_json_text(bot.spec.config)),
        bot.spec.config is None ==> object.data->0.contains_pair("config.json"@, "null"@),
        bot.spec.strategy.config_map_name is None && bot.spec.strategy.source is Some
            ==> object.data->0.contains_pair("strategy.py"@, bot.spec.strategy.source->0@),
{
    reveal_strlit("config.json");
    reveal_strlit("strategy.py");
    reveal_strlit("model.py");
    let a = "config.json"@;
    let b = "strategy.py"@;
    let c = "model.py"@;
    assert(a[0] == 'c' && b[0] == 's' && c[0] == 'm');
}

/// What a key maps to is the value of its last entry.
pub proof fn lemma_entries_map_value(s: Seq<(Seq<char>, Seq<char>)>, i: int)
    requires
        0 <= i < s.len(),
        forall|j: int| i < j < s.len() ==> (#[trigger] s[j]).0 != s[i].0,
    ensures
        entries_map(s).contains_key(s[i].0),
        entries_map(s)[s[i].0] == s[i].1,
    decreases s.len(),
{
    if i == s.len() - 1 {
    } else {
        let t = s.drop_last();
        assert(s[s.len() - 1].0 != s[i].0);
        assert forall|j: int| i < j < t.len() implies (#[trigger] t[j]).0 != t[i].0 by {
            assert(t[j] == s[j]);
        }
        lemma_entries_map_value(t, i);
    }
}

/// The hash does not depend on the order of the entries: two lists of
/// entries with pairwise distinct keys that hold the same entries stand for
/// the same map, and so have the same hash.
pub proof fn law_hash_ignores_order(a: Seq<(Seq<char>, Seq<char>)>, b: Seq<(Seq<char>, Seq<char>)>)
    requires
        forall|i: int, j: int| 0 <= i < j < a.len() ==> (#[trigger] a[i]).0 != (#[trigger] a[j]).0,
        forall|i: int, j: int| 0 <= i < j < b.len() ==> (#[trigger] b[i]).0 != (#[trigger] b[j]).0,
        forall|i: int| 0 <= i < a.len() ==> b.contains(#[trigger] a[i]),
        forall|i: int| 0 <= i < b.len() ==> a.contains(#[trigger] b[i]),
    ensures
        entries_map(a) == entries_map(b),
        object_hash(Some(entries_map(a))) == object_hash(Some(entries_map(b))),
{
    let m = entries_map(a);
    let n = entries_map(b);
    assert forall|k: Seq<char>| #[trigger] m.contains_key(k) implies n.contains_key(k) && m[k] == n[k] by {
        lemma_entries_map_dom(a, k);
        let i = choose|i: int| 0 <= i < a.len() && (#[trigger] a[i]).0 == k;
        lemma_entries_map_value(a, i);
        assert(b.contains(a[i]));
        let j = choose|j: int| 0 <= j < b.len() && b[j] == a[i];
        lemma_entries_map_value(b, j);
    }
    assert forall|k: Seq<char>| #[trigger] n.contains_key(k) implies m.contains_key(k) by {
        lemma_entries_map_dom(b, k);
        let j = choose|j: int| 0 <= j < b.len() && (#[trigger] b[j]).0 == k;
        lemma_entries_map_value(b, j);
        assert(a.contains(b[j]));
        let i = choose|i: int| 0 <= i < a.len() && a[i] == b[j];
        lemma_entries_map_value(a, i);
    }
    assert forall|k: Seq<char>| m.dom().contains(k) == n.dom().contains(k) by {
        if m.dom().contains(k) {
            assert(m.contains_key(k));
        }
        if n.dom().contains(k) {
            assert(n.contains_key(k));
        }
    }
    assert(m.dom() =~= n.dom());
    assert forall|k: Seq<char>| m.dom().contains(k) implies #[trigger] m[k] == n[k] by {
        assert(m.contains_key(k));
    }
    assert(m =~= n);
}

/// Whether a map of labels carries the three identifying labels with the
/// bot's name.
pub open spec fn identifies(labels: Option<Labels>, name: Seq<char>) -> bool {
    &&& labels is Some
    &&& labels->0.contains_pair("freqtrade.io/bot-name"@, name)
    &&& labels->0.contains_pair("app.kubernetes.io/name"@, name)
    &&& labels->0.contains_pair("app.kubernetes.io/instance"@, name)
}

/// Every projected object carries the three identifying labels with the
/// bot's name, whatever labels the user gave; so do the pods of the
/// Deployment, and the Deployment and the Service select by them.
pub proof fn law_labels_identify(
    bot: &Bot,
    name: Seq<char>,
    namespace: Seq<char>,
    owner_ref: OwnerReferenceView,
    config: &AppConfig,
    text: Seq<char>,
)
    ensures
        identifies(config_map_of(bot, name, namespace, owner_ref, text).metadata.labels, name),
        identifies(pvc_of(bot, name, namespace, owner_ref).metadata.labels, name),
        identifies(deployment_of(bot, name, namespace, owner_ref, config).metadata.labels, name),
        identifies(
            deployment_of(bot, name, namespace, owner_ref, config).spec->0.template.metadata->0.labels,
            name,
        ),
        identifies(deployment_of(bot, name, namespace, owner_ref, config).spec->0.selector, name),
        identifies(service_of(bot, name, namespace, owner_ref).metadata.labels, name),
        identifies(service_of(bot, name, namespace, owner_ref).spec->0.selector, name),
{
    lemma_managed_labels_identify(None, name);
    lemma_managed_labels_identify(bot.spec.pvc.labels.deep_view(), name);
    lemma_managed_labels_identify(bot.spec.deployment.labels.deep_view(), name);
    lemma_managed_labels_identify(bot.spec.service.labels.deep_view(), name);
    reveal_strlit("freqtrade.io/bot-name");
    reveal_strlit("app.kubernetes.io/name");
    reveal_strlit("app.kubernetes.io/instance");
    let a = "freqtrade.io/bot-name"@;
    let b = "app.kubernetes.io/name"@;
    let c = "app.kubernetes.io/instance"@;
    assert(a[0] == 'f' && b[0] == 'a' && b.len() == 22 && c.len() == 26);
}

/// The projected Deployment asks for exactly one replica, whatever the bot
/// says.
pub proof fn law_single_replica(
    bot: &Bot,
    name: Seq<char>,
    namespace: Seq<char>,
    owner_ref: OwnerReferenceView,
    config: &AppConfig,
)
    ensures
        deployment_of(bot, name, namespace, owner_ref, config).spec is Some,
        deployment_of(bot, name, namespace, owner_ref, config).spec->0.replicas == Some(1i32),
{
}

/// Whether a Service port is named `api`.
pub open spec fn named_api(port: ServicePortView) -> bool {
    port.name == Some("api"@)
}

/// With the API enabled the Service has a port named `api`. Where the bot
/// declares no port of that name, the Service has exactly one: the last
/// port, for the API port. A declared port named `api` is kept as it is,
/// and no other is added.
pub proof fn law_api_port(bot: &Bot)
    requires
        bot.spec.api.enabled,
    ensures
        exists|i: int| 0 <= i < service_ports_of(bot).len() && named_api(#[trigger] service_ports_of(bot)[i]),
        !has_api_port(bot.spec.service.ports@) ==> {
            let ports = service_ports_of(bot);
            &&& ports.len() == bot.spec.service.ports@.len() + 1
            &&& ports.last() == api_service_port(bot.spec.api.port)
            &&& ports.last().port == bot.spec.api.port as i32
            &&& forall|i: int| 0 <= i < ports.len() && named_api(#[trigger] ports[i]) ==> i == ports.len() - 1
        },
        has_api_port(bot.spec.service.ports@) ==> service_ports_of(bot).len() == bot.spec.service.ports@.len(),
{
    let declared = bot.spec.service.ports@;
    let ports = service_ports_of(bot);
    if has_api_port(declared) {
        let i = choose|i: int| 0 <= i < declared.len() && is_api_port(#[trigger] declared[i]);
        assert(named_api(ports[i]));
    } else {
        assert(named_api(ports[ports.len() - 1]));
        assert forall|i: int| 0 <= i < ports.len() && named_api(#[trigger] ports[i]) implies i == ports.len()
            - 1 by {
            if i < declared.len() {
                assert(ports[i] == service_port_of(declared[i]));
                assert(is_api_port(declared[i]));
            }
        }
    }
}

/// With the API enabled, the Service has exactly one port named `api`, and
/// it is the port of the API, provided that the bot declares at most one
/// port of that name and declares it for the API port. (A bot that
/// declares a port named `api` for another number keeps that port, and one
/// that declares two keeps both.)
pub proof fn law_exclusive_api_port(bot: &Bot)
    requires
        bot.spec.api.enabled,
        forall|i: int, j: int|
            0 <= i < bot.spec.service.ports@.len() && 0 <= j < bot.spec.service.ports@.len() && is_api_port(
                #[trigger] bot.spec.service.ports@[i],
            ) && is_api_port(#[trigger] bot.spec.service.ports@[j]) ==> i == j,
        forall|i: int|
            0 <= i < bot.spec.service.ports@.len() && is_api_port(#[trigger] bot.spec.service.ports@[i])
                ==> bot.spec.service.ports@[i].port == bot.spec.api.port,
    ensures
        exists|i: int|
            0 <= i < service_ports_of(bot).len() && named_api(#[trigger] service_ports_of(bot)[i])
                && service_ports_of(bot)[i].port == bot.spec.api.port as i32 && forall|j: int|
                0 <= j < service_ports_of(bot).len() && named_api(#[trigger] service_ports_of(bot)[j]) ==> j
                    == i,
{
    let declared = bot.spec.service.ports@;
    let ports = service_ports_of(bot);
    if has_api_port(declared) {
        let i = choose|i: int| 0 <= i < declared.len() && is_api_port(#[trigger] declared[i]);
        assert(ports[i] == service_port_of(declared[i]));
        assert(named_api(ports[i]));
        assert forall|j: int| 0 <= j < ports.len() && named_api(#[trigger] ports[j]) implies j == i by {
            assert(ports[j] == service_port_of(declared[j]));
            assert(is_api_port(declared[j]));
        }
    } else {
        law_api_port(bot);
        let i = ports.len() - 1;
        assert(named_api(ports[i]));
    }
}

} // verus!

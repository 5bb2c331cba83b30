//! The reconcile of a bot: what is to be done, and in which order.
//!
//! A reconcile alternates calls to the API server with decisions. The
//! decisions are made here: [`reconcile_bot`] projects the bot, compares
//! with what the API server holds and settles what is to be done;
//! [`Reconciliation::next`] hands out the actions one by one, in their fixed
//! order. The caller performs each action and comes back for the next.

use crate::common::config::AppConfig;
use crate::common::content::Content;
use crate::common::text::owned;
use crate::common::utils::{compute_object_hash, is_hex_digest, object_hash};
use crate::controller::phase::{phase_from_deployment, phase_of_deployment};
use crate::controller::traits::{FromHub, ResourceDrift};
use crate::controller::utils::Action;
use crate::crd::hub::bot::{Bot, BotPhase};
use crate::error::ControllerError;
use crate::objects::{
    ConfigMap, ConfigMapView, Deployment, DeploymentView, ObjectMeta, OwnerReference,
    OwnerReferenceView, PersistentVolumeClaim, PersistentVolumeClaimView, Service, ServiceView,
};
use vstd::prelude::*;

verus! {

/// The finalizer that holds a bot back until its status was updated.
pub const FINALIZER: &'static str = "bots.finalizers.freqtrade.io";

/// The annotation of the Deployment that records the hash of the
/// configuration.
pub const CONFIG_HASH_ANNOTATION: &'static str = "bots.freqtrade.io/config-hash";

/// The dependents of a bot as the API server holds them; an absent one
/// does not exist.
#[derive(Debug, Clone)]
pub struct Observed {
    pub config_map: Option<ConfigMap>,
    pub pvc: Option<PersistentVolumeClaim>,
    pub deployment: Option<Deployment>,
    pub service: Option<Service>,
}

/// One call to the API server, or the end of the reconcile.
#[derive(Debug, Clone, Copy, PartialEq, Eq, Structural)]
pub enum ReconcileAction {
    /// Patch the status of the bot with the phase.
    PatchStatus(BotPhase),
    /// Apply the projected ConfigMap.
    ApplyConfigMap,
    /// Apply the projected PersistentVolumeClaim.
    ApplyPvc,
    /// Delete the PersistentVolumeClaim.
    DeletePvc,
    /// Apply the projected Deployment.
    ApplyDeployment,
    /// Patch the Deployment's annotation with the incoming hash.
    PatchConfigHash,
    /// Restart the pods of the Deployment.
    Rollout,
    /// Apply the projected Service.
    ApplyService,
    /// Delete the Service.
    DeleteService,
    /// End the reconcile with this request to the runtime.
    Finish(Action),
}

/// The steps of the apply path, in their order.
#[derive(Debug, Clone, Copy, PartialEq, Eq, Structural)]
pub enum ReconcileStep {
    Status,
    ConfigMap,
    Pvc,
    Deployment,
    ConfigHash,
    Rollout,
    Phase,
    Service,
    Requeue,
    Done,
}

impl ReconcileStep {
    /// The step that follows.
    pub open spec fn following(self) -> ReconcileStep {
        match self {
            ReconcileStep::Status => ReconcileStep::ConfigMap,
            ReconcileStep::ConfigMap => ReconcileStep::Pvc,
            ReconcileStep::Pvc => ReconcileStep::Deployment,
            ReconcileStep::Deployment => ReconcileStep::ConfigHash,
            ReconcileStep::ConfigHash => ReconcileStep::Rollout,
            ReconcileStep::Rollout => ReconcileStep::Phase,
            ReconcileStep::Phase => ReconcileStep::Service,
            ReconcileStep::Service => ReconcileStep::Requeue,
            ReconcileStep::Requeue => ReconcileStep::Done,
            ReconcileStep::Done => ReconcileStep::Done,
        }
    }

    /// How many steps are left after this one.
    pub open spec fn remaining(self) -> nat {
        match self {
            ReconcileStep::Status => 9,
            ReconcileStep::ConfigMap => 8,
            ReconcileStep::Pvc => 7,
            ReconcileStep::Deployment => 6,
            ReconcileStep::ConfigHash => 5,
            ReconcileStep::Rollout => 4,
            ReconcileStep::Phase => 3,
            ReconcileStep::Service => 2,
            ReconcileStep::Requeue => 1,
            ReconcileStep::Done => 0,
        }
    }

    /// The step that follows.
    pub fn next_step(self) -> (r: ReconcileStep)
        ensures
            r == self.following(),
    {
        match self {
            ReconcileStep::Status => ReconcileStep::ConfigMap,
            ReconcileStep::ConfigMap => ReconcileStep::Pvc,
            ReconcileStep::Pvc => ReconcileStep::Deployment,
            ReconcileStep::Deployment => ReconcileStep::ConfigHash,
            ReconcileStep::ConfigHash => ReconcileStep::Rollout,
            ReconcileStep::Rollout => ReconcileStep::Phase,
            ReconcileStep::Phase => ReconcileStep::Service,
            ReconcileStep::Service => ReconcileStep::Requeue,
            ReconcileStep::Requeue => ReconcileStep::Done,
            ReconcileStep::Done => ReconcileStep::Done,
        }
    }
}

/// What a reconcile has to do, step by step. The phase is the one step
/// that is settled later, from the Deployment as it stands then.
#[derive(Debug, Clone, Copy, PartialEq, Eq, Structural)]
pub struct Decisions {
    /// The bot has no status yet: it is set to `pending`.
    pub initial_status: bool,
    pub apply_config_map: bool,
    pub apply_pvc: bool,
    pub delete_pvc: bool,
    pub apply_deployment: bool,
    pub patch_config_hash: bool,
    pub rollout: bool,
    pub apply_service: bool,
    pub delete_service: bool,
}

/// Whether a dependent has to be applied: it does not exist, or it has
/// drifted from the projected one.
pub open spec fn needs_apply<K: ResourceDrift<Bot>>(observed: Option<K::V>, desired: K::V) -> bool {
    observed is None || K::drifted(observed->0, desired)
}

/// The hash that the Deployment's annotation records; empty where there is
/// no Deployment or no such annotation.
pub open spec fn recorded_hash(deployment: Option<DeploymentView>) -> Seq<char> {
    match deployment {
        Some(d) => match d.metadata.annotations {
            Some(a) => if a.contains_key("bots.freqtrade.io/config-hash"@) {
                a["bots.freqtrade.io/config-hash"@]
            } else {
                Seq::empty()
            },
            None => Seq::empty(),
        },
        None => Seq::empty(),
    }
}

/// What is to be done for a bot, given what the API server holds, the
/// projected dependents, and the recorded and the incoming hash.
///
/// A dependent is applied where it is missing or has drifted. The claim
/// and the Service exist exactly while they are enabled: a disabled one
/// that exists is deleted. A hash that differs from the recorded one is
/// recorded; the pods are restarted as well unless nothing was recorded
/// before (the first materialisation) or the incoming hash is empty, as it
/// is where none could be computed.
pub open spec fn decide(
    bot: &Bot,
    observed: &Observed,
    config_map: ConfigMapView,
    pvc: PersistentVolumeClaimView,
    deployment: DeploymentView,
    service: ServiceView,
    current_hash: Seq<char>,
    incoming_hash: Seq<char>,
) -> Decisions {
    Decisions {
        initial_status: bot.status is None,
        apply_config_map: needs_apply::<ConfigMap>(observed.config_map.deep_view(), config_map),
        apply_pvc: bot.spec.pvc.enabled && needs_apply::<PersistentVolumeClaim>(
            observed.pvc.deep_view(),
            pvc,
        ),
        delete_pvc: !bot.spec.pvc.enabled && observed.pvc is Some,
        apply_deployment: needs_apply::<Deployment>(observed.deployment.deep_view(), deployment),
        patch_config_hash: incoming_hash != current_hash,
        rollout: incoming_hash != current_hash && current_hash.len() > 0 && incoming_hash.len() > 0,
        apply_service: bot.spec.api.enabled && needs_apply::<Service>(observed.service.deep_view(), service),
        delete_service: !bot.spec.api.enabled && observed.service is Some,
    }
}

/// The outcome of planning a reconcile: the projected dependents, the two
/// hashes, and what is to be done.
#[derive(Debug, Clone)]
pub struct Reconciliation {
    pub config_map: ConfigMap,
    pub pvc: PersistentVolumeClaim,
    pub deployment: Deployment,
    pub service: Service,
    /// The hash that the Deployment records; empty where it records none.
    pub current_config_hash: String,
    /// The hash of the projected ConfigMap's data.
    pub incoming_config_hash: String,
    /// The label of the phase in the bot's status, if it has a status.
    pub status_phase: Option<String>,
    pub decisions: Decisions,
}

/// The phase to patch the status with, if any: the phase that the latest
/// Deployment stands for, where the bot has no status or its status
/// carries another label.
pub open spec fn phase_update(status_phase: Option<Seq<char>>, latest: Option<DeploymentView>) -> Option<
    BotPhase,
> {
    let phase = phase_of_deployment(latest);
    if status_phase is None || status_phase->0 != phase.label() {
        Some(phase)
    } else {
        None
    }
}

/// What a step does, if it does anything.
pub open spec fn step_action(
    decisions: Decisions,
    status_phase: Option<Seq<char>>,
    step: ReconcileStep,
    latest: Option<DeploymentView>,
) -> Option<ReconcileAction> {
    match step {
        ReconcileStep::Status => if decisions.initial_status {
            Some(ReconcileAction::PatchStatus(BotPhase::Pending))
        } else {
            None
        },
        ReconcileStep::ConfigMap => if decisions.apply_config_map {
            Some(ReconcileAction::ApplyConfigMap)
        } else {
            None
        },
        ReconcileStep::Pvc => if decisions.apply_pvc {
            Some(ReconcileAction::ApplyPvc)
        } else if decisions.delete_pvc {
            Some(ReconcileAction::DeletePvc)
        } else {
            None
        },
        ReconcileStep::Deployment => if decisions.apply_deployment {
            Some(ReconcileAction::ApplyDeployment)
        } else {
            None
        },
        ReconcileStep::ConfigHash => if decisions.patch_config_hash {
            Some(ReconcileAction::PatchConfigHash)
        } else {
            None
        },
        ReconcileStep::Rollout => if decisions.rollout {
            Some(ReconcileAction::Rollout)
        } else {
            None
        },
        ReconcileStep::Phase => match phase_update(status_phase, latest) {
            Some(phase) => Some(ReconcileAction::PatchStatus(phase)),
            None => None,
        },
        ReconcileStep::Service => if decisions.apply_service {
            Some(ReconcileAction::ApplyService)
        } else if decisions.delete_service {
            Some(ReconcileAction::DeleteService)
        } else {
            None
        },
        ReconcileStep::Requeue => Some(ReconcileAction::Finish(Action::Requeue(30))),
        ReconcileStep::Done => None,
    }
}

/// The first action at or after `step`, with the step to go on from; none
/// once the reconcile is done.
pub open spec fn next_action(
    decisions: Decisions,
    status_phase: Option<Seq<char>>,
    step: ReconcileStep,
    latest: Option<DeploymentView>,
) -> Option<(ReconcileAction, ReconcileStep)>
    decreases step.remaining(),
{
    if step == ReconcileStep::Done {
        None
    } else {
        match step_action(decisions, status_phase, step, latest) {
            Some(action) => Some((action, step.following())),
            None => next_action(decisions, status_phase, step.following(), latest),
        }
    }
}

impl Reconciliation {
    /// The first step of a reconcile.
    pub fn first_step() -> (r: ReconcileStep)
        ensures
            r == ReconcileStep::Status,
    {
        ReconcileStep::Status
    }

    /// What `step` does, if it does anything.
    fn action_at(&self, step: ReconcileStep, latest: Option<&Deployment>) -> (r: Option<ReconcileAction>)
        ensures
            r == step_action(self.decisions, self.status_phase.deep_view(), step, latest.deep_view()),
    {
        match step {
            ReconcileStep::Status => if self.decisions.initial_status {
                Some(ReconcileAction::PatchStatus(BotPhase::Pending))
            } else {
                None
            },
            ReconcileStep::ConfigMap => if self.decisions.apply_config_map {
                Some(ReconcileAction::ApplyConfigMap)
            } else {
                None
            },
            ReconcileStep::Pvc => if self.decisions.apply_pvc {
                Some(ReconcileAction::ApplyPvc)
            } else if self.decisions.delete_pvc {
                Some(ReconcileAction::DeletePvc)
            } else {
                None
            },
            ReconcileStep::Deployment => if self.decisions.apply_deployment {
                Some(ReconcileAction::ApplyDeployment)
            } else {
                None
            },
            ReconcileStep::ConfigHash => if self.decisions.patch_config_hash {
                Some(ReconcileAction::PatchConfigHash)
            } else {
                None
            },
            ReconcileStep::Rollout => if self.decisions.rollout {
                Some(ReconcileAction::Rollout)
            } else {
                None
            },
            ReconcileStep::Phase => {
                let phase = phase_from_deployment(latest);
                let stale = match &self.status_phase {
                    Some(label) => !label.same(&phase.to_string()),
                    None => true,
                };
                if stale {
                    Some(ReconcileAction::PatchStatus(phase))
                } else {
                    None
                }
            },
            ReconcileStep::Service => if self.decisions.apply_service {
                Some(ReconcileAction::ApplyService)
            } else if self.decisions.delete_service {
                Some(ReconcileAction::DeleteService)
            } else {
                None
            },
            ReconcileStep::Requeue => Some(ReconcileAction::Finish(Action::Requeue(30))),
            ReconcileStep::Done => None,
        }
    }

    /// The next action of the reconcile and the step to go on from, or
    /// none once the reconcile is done. `latest` is the Deployment as it
    /// stands now: the one that came back from the apply, else the one
    /// that was observed.
    pub fn next(&self, step: ReconcileStep, latest: Option<&Deployment>) -> (r: Option<
        (ReconcileAction, ReconcileStep),
    >)
        ensures
            r == next_action(self.decisions, self.status_phase.deep_view(), step, latest.deep_view()),
    {
        let mut at = step;
        while at != ReconcileStep::Done
            invariant
                next_action(self.decisions, self.status_phase.deep_view(), at, latest.deep_view())
                    == next_action(self.decisions, self.status_phase.deep_view(), step, latest.deep_view()),
            decreases at.remaining(),
        {
            match self.action_at(at, latest) {
                Some(action) => {
                    return Some((action, at.next_step()));
                },
                None => {
                    at = at.next_step();
                },
            }
        }
        None
    }
}

/// Reads the hash that a Deployment records.
pub fn current_config_hash(deployment: Option<&Deployment>) -> (r: String)
    ensures
        r@ == recorded_hash(deployment.deep_view()),
{
    match deployment {
        Some(d) => match &d.metadata.annotations {
            Some(a) => match a.get("bots.freqtrade.io/config-hash") {
                Some(hash) => hash.clone(),
                None => String::new(),
            },
            None => String::new(),
        },
        None => String::new(),
    }
}

/// Whether a dependent has to be applied.
fn is_stale<K: ResourceDrift<Bot>>(observed: &Option<K>, desired: &K) -> (r: bool)
    ensures
        r == needs_apply::<K>(observed.deep_view(), desired.deep_view()),
{
    match observed {
        Some(o) => o.has_drifted(desired),
        None => true,
    }
}

/// Settles what is to be done, from the projected dependents and the two
/// hashes.
pub fn decide_actions(
    bot: &Bot,
    observed: &Observed,
    config_map: &ConfigMap,
    pvc: &PersistentVolumeClaim,
    deployment: &Deployment,
    service: &Service,
    current_hash: &str,
    incoming_hash: &str,
) -> (r: Decisions)
    ensures
        r == decide(
            bot,
            observed,
            config_map.deep_view(),
            pvc.deep_view(),
            deployment.deep_view(),
            service.deep_view(),
            current_hash@,
            incoming_hash@,
        ),
{
    let changed = !crate::common::text::str_eq(incoming_hash, current_hash);
    let current_empty = crate::common::text::str_eq(current_hash, "");
    let incoming_empty = crate::common::text::str_eq(incoming_hash, "");
    proof {
        reveal_strlit("");
        assert(current_empty == (current_hash@.len() == 0)) by {
            if current_hash@.len() == 0 {
                assert(current_hash@ =~= ""@);
            }
        }
        assert(incoming_empty == (incoming_hash@.len() == 0)) by {
            if incoming_hash@.len() == 0 {
                assert(incoming_hash@ =~= ""@);
            }
        }
    }
    Decisions {
        initial_status: bot.status.is_none(),
        apply_config_map: is_stale(&observed.config_map, config_map),
        apply_pvc: bot.spec.pvc.enabled && is_stale(&observed.pvc, pvc),
        delete_pvc: !bot.spec.pvc.enabled && observed.pvc.is_some(),
        apply_deployment: is_stale(&observed.deployment, deployment),
        patch_config_hash: changed,
        rollout: changed && !current_empty && !incoming_empty,
        apply_service: bot.spec.api.enabled && is_stale(&observed.service, service),
        delete_service: !bot.spec.api.enabled && observed.service.is_some(),
    }
}

/// Whether `plan` is a plan for the bot against what was observed: its
/// dependents are the projections of the bot, its hashes are the recorded
/// one and that of the projected ConfigMap's data, and its decisions follow
/// from these.
pub open spec fn is_reconciliation(
    plan: &Reconciliation,
    bot: &Bot,
    name: Seq<char>,
    namespace: Seq<char>,
    owner_ref: OwnerReferenceView,
    config: &AppConfig,
    observed: &Observed,
) -> bool {
    &&& <ConfigMap as FromHub<Bot>>::is_projection(
        bot,
        name,
        namespace,
        owner_ref,
        config,
        plan.config_map.deep_view(),
    )
    &&& <PersistentVolumeClaim as FromHub<Bot>>::is_projection(
        bot,
        name,
        namespace,
        owner_ref,
        config,
        plan.pvc.deep_view(),
    )
    &&& <Deployment as FromHub<Bot>>::is_projection(
        bot,
        name,
        namespace,
        owner_ref,
        config,
        plan.deployment.deep_view(),
    )
    &&& <Service as FromHub<Bot>>::is_projection(
        bot,
        name,
        namespace,
        owner_ref,
        config,
        plan.service.deep_view(),
    )
    &&& plan.current_config_hash@ == recorded_hash(observed.deployment.deep_view())
    &&& plan.incoming_config_hash@ == object_hash(plan.config_map.data.deep_view())
    &&& is_hex_digest(plan.incoming_config_hash@)
    &&& plan.status_phase.deep_view() == (match bot.status {
        Some(s) => Some(s.phase@),
        None => None,
    })
    &&& plan.decisions == decide(
        bot,
        observed,
        plan.config_map.deep_view(),
        plan.pvc.deep_view(),
        plan.deployment.deep_view(),
        plan.service.deep_view(),
        plan.current_config_hash@,
        plan.incoming_config_hash@,
    )
}

/// Plans the reconcile of a bot that is not being deleted: projects the
/// four dependents, reads the recorded hash, computes the incoming one and
/// settles what is to be done.
pub fn reconcile_bot(
    bot: &Bot,
    name: &str,
    namespace: &str,
    owner_ref: &OwnerReference,
    config: &AppConfig,
    observed: &Observed,
) -> (plan: Reconciliation)
    ensures
        is_reconciliation(&plan, bot, name@, namespace@, owner_ref.deep_view(), config, observed),
{
    let config_map = ConfigMap::from_hub(bot, name, namespace, owner_ref.dup(), config);
    let deployment = Deployment::from_hub(bot, name, namespace, owner_ref.dup(), config);
    let service = Service::from_hub(bot, name, namespace, owner_ref.dup(), config);
    let pvc = PersistentVolumeClaim::from_hub(bot, name, namespace, owner_ref.dup(), config);
    let current = current_config_hash(observed.deployment.as_ref());
    let incoming = match compute_object_hash(&config_map.data) {
        Ok(hash) => hash,
        Err(_) => String::new(),
    };
    let status_phase = match &bot.status {
        Some(s) => Some(s.phase.clone()),
        None => None,
    };
    let decisions = decide_actions(
        bot,
        observed,
        &config_map,
        &pvc,
        &deployment,
        &service,
        current.as_str(),
        incoming.as_str(),
    );
    Reconciliation {
        config_map: config_map,
        pvc: pvc,
        deployment: deployment,
        service: service,
        current_config_hash: current,
        incoming_config_hash: incoming,
        status_phase: status_phase,
        decisions: decisions,
    }
}

/// The cleanup of a bot that is being deleted: its status is set to
/// `deleting`, then the reconcile waits for the next change.
pub fn cleanup_bot() -> (r: Vec<ReconcileAction>)
    ensures
        r@ == seq![
            ReconcileAction::PatchStatus(BotPhase::Deleting),
            ReconcileAction::Finish(Action::AwaitChange),
        ],
{
    let mut actions: Vec<ReconcileAction> = Vec::new();
    actions.push(ReconcileAction::PatchStatus(BotPhase::Deleting));
    actions.push(ReconcileAction::Finish(Action::AwaitChange));
    assert(actions@ =~= seq![
        ReconcileAction::PatchStatus(BotPhase::Deleting),
        ReconcileAction::Finish(Action::AwaitChange),
    ]);
    actions
}

/// The path that a reconcile takes.
#[derive(Debug, Clone, Copy, PartialEq, Eq, Structural)]
pub enum ReconcilePath {
    /// The bot is not being deleted: converge its dependents. The
    /// finalizer is added first where the bot does not carry it yet.
    Apply { add_finalizer: bool },
    /// The bot is being deleted: clean up. The finalizer is removed after
    /// the cleanup where the bot carries it.
    Cleanup { remove_finalizer: bool },
}

/// Whether the metadata carries the operator's finalizer.
pub open spec fn has_finalizer(meta: &ObjectMeta) -> bool {
    meta.finalizers is Some && meta.finalizers->0.deep_view().contains("bots.finalizers.freqtrade.io"@)
}

/// The path of a bot: cleanup once its deletion was requested, else apply.
pub open spec fn path_of(bot: &Bot) -> ReconcilePath {
    if bot.metadata.deletion_timestamp is None {
        ReconcilePath::Apply { add_finalizer: !has_finalizer(&bot.metadata) }
    } else {
        ReconcilePath::Cleanup { remove_finalizer: has_finalizer(&bot.metadata) }
    }
}

/// What a reconcile works with, once the bot was found fit for it.
#[derive(Debug, Clone)]
pub struct ReconcileTarget {
    pub name: String,
    pub namespace: String,
    pub owner_ref: OwnerReference,
    pub path: ReconcilePath,
}

/// The controller of bots.
pub struct BotController;

impl BotController {
    /// Whether the metadata carries the operator's finalizer.
    fn carries_finalizer(meta: &ObjectMeta) -> (r: bool)
        ensures
            r == has_finalizer(meta),
    {
        match &meta.finalizers {
            Some(list) => {
                let mut i: usize = 0;
                while i < list.len()
                    invariant
                        i <= list.len(),
                        meta.finalizers is Some,
                        meta.finalizers->0.deep_view() == list.deep_view(),
                        forall|j: int|
                            0 <= j < i ==> #[trigger] list.deep_view()[j] != "bots.finalizers.freqtrade.io"@,
                    decreases list.len() - i,
                {
                    if crate::common::text::str_eq(list[i].as_str(), "bots.finalizers.freqtrade.io") {
                        assert(list.deep_view()[i as int] == "bots.finalizers.freqtrade.io"@);
                        return true;
                    }
                    i += 1;
                }
                false
            },
            None => false,
        }
    }

    /// Opens the reconcile of a bot. A bot without a namespace cannot be
    /// reconciled, nor one for which no owner reference could be computed
    /// (`owner_ref` is absent). Else the reconcile takes the path that the
    /// bot's deletion timestamp and finalizers give.
    pub fn reconcile(bot: &Bot, owner_ref: Option<OwnerReference>) -> (r: Result<
        ReconcileTarget,
        ControllerError,
    >)
        ensures
            bot.metadata.namespace is None ==> r is Err && r->Err_0 is MissingObjectKeyError
                && r->Err_0->MissingObjectKeyError_0@
                == "Expected Bot to be namespaced via metadata.namespace"@,
            bot.metadata.namespace is Some && owner_ref is None ==> r is Err
                && r->Err_0 is MissingObjectKeyError && r->Err_0->MissingObjectKeyError_0@
                == "Expected Bot to have an owner reference"@,
            bot.metadata.namespace is Some && owner_ref is Some ==> r is Ok && {
                let target = r->Ok_0;
                &&& target.namespace@ == bot.metadata.namespace->0@
                &&& target.name@ == (match bot.metadata.name {
                    Some(n) => n@,
                    None => Seq::empty(),
                })
                &&& target.owner_ref == owner_ref->0
                &&& target.path == path_of(bot)
            },
    {
        let namespace = match &bot.metadata.namespace {
            Some(ns) => ns.clone(),
            None => {
                return Err(
                    ControllerError::MissingObjectKeyError(
                        owned("Expected Bot to be namespaced via metadata.namespace"),
                    ),
                );
            },
        };
        let owner_ref = match owner_ref {
            Some(o) => o,
            None => {
                return Err(
                    ControllerError::MissingObjectKeyError(owned("Expected Bot to have an owner reference")),
                );
            },
        };
        let name = match &bot.metadata.name {
            Some(n) => n.clone(),
            None => String::new(),
        };
        let carries = Self::carries_finalizer(&bot.metadata);
        let path = if bot.metadata.deletion_timestamp.is_none() {
            ReconcilePath::Apply { add_finalizer: !carries }
        } else {
            ReconcilePath::Cleanup { remove_finalizer: carries }
        };
        Ok(ReconcileTarget { name: name, namespace: namespace, owner_ref: owner_ref, path: path })
    }
}

} // verus!

//! What a reconcile sends besides whole objects: patches and the requeue.

use crate::common::text::owned;
use crate::crd::hub::bot::{BotPhase, BotStatus};
use crate::error::ControllerError;
use vstd::prelude::*;

verus! {

/// The field manager under which the operator applies and patches.
pub const FIELD_MANAGER: &'static str = "operator.freqtrade.io";

/// The seconds after which a bot is reconciled again, after success and
/// after failure alike.
pub const REQUEUE_SECONDS: u64 = 30;

/// What a reconcile asks the runtime to do next.
#[derive(Debug, Clone, Copy, PartialEq, Eq, Structural)]
pub enum Action {
    /// Reconcile again after so many seconds.
    Requeue(u64),
    /// Wait for the next change of the bot or of a dependent.
    AwaitChange,
}

/// After an error the bot is reconciled again in 30 seconds, whatever the
/// error was.
pub fn error_policy(_error: &ControllerError) -> (r: Action)
    ensures
        r == Action::Requeue(30),
{
    Action::Requeue(REQUEUE_SECONDS)
}

/// Where an annotation patch lands.
#[derive(Debug, Clone, Copy, PartialEq, Eq, Structural)]
pub enum PatchTarget {
    /// The annotations of the object itself.
    Metadata,
    /// The annotations of the pod template.
    PodTemplate,
}

/// A merge patch that sets one annotation.
#[derive(Debug, Clone)]
pub struct AnnotationPatch {
    pub target: PatchTarget,
    pub key: String,
    pub value: String,
}

/// The patch that restarts the pods of a Deployment: the pod template is
/// annotated with the time of the restart.
pub fn rollout(timestamp: &str) -> (r: AnnotationPatch)
    ensures
        r.target == PatchTarget::PodTemplate,
        r.key@ == "kube.kubernetes.io/restartedAt"@,
        r.value@ == timestamp@,
{
    AnnotationPatch {
        target: PatchTarget::PodTemplate,
        key: owned("kube.kubernetes.io/restartedAt"),
        value: owned(timestamp),
    }
}

/// The patch that records the hash of the configuration on the Deployment.
pub fn config_hash_patch(hash: &str) -> (r: AnnotationPatch)
    ensures
        r.target == PatchTarget::Metadata,
        r.key@ == "bots.freqtrade.io/config-hash"@,
        r.value@ == hash@,
{
    AnnotationPatch {
        target: PatchTarget::Metadata,
        key: owned("bots.freqtrade.io/config-hash"),
        value: owned(hash),
    }
}

/// The status that a bot is patched with: the label of the phase, and the
/// time of the patch.
pub fn update_status(phase: &BotPhase, timestamp: String) -> (r: BotStatus)
    ensures
        r.phase@ == phase.label(),
        r.last_updated == Some(timestamp),
{
    BotStatus { phase: phase.to_string(), last_updated: Some(timestamp) }
}

} // verus!

//! The phase of a bot, derived from what its Deployment reports.

use crate::common::text::str_eq;
use crate::crd::hub::bot::BotPhase;
use crate::objects::{Deployment, DeploymentCondition, DeploymentConditionView, DeploymentStatus, DeploymentStatusView, DeploymentView};
use vstd::prelude::*;

verus! {

/// Whether some condition has the given type and status.
pub open spec fn has_condition(
    conditions: Seq<DeploymentConditionView>,
    type_: Seq<char>,
    status: Seq<char>,
) -> bool {
    exists|i: int|
        0 <= i < conditions.len() && (#[trigger] conditions[i]).type_ == type_ && conditions[i].status
            == status
}

/// The phase that a Deployment status stands for: `error` where the rollout
/// does not progress; else `running` where the Deployment is available;
/// else `pending`, also where no conditions are reported.
pub open spec fn phase_of(status: DeploymentStatusView) -> BotPhase {
    match status.conditions {
        Some(conditions) => if has_condition(conditions, "Progressing"@, "False"@) {
            BotPhase::Error
        } else if has_condition(conditions, "Available"@, "True"@) {
            BotPhase::Running
        } else {
            BotPhase::Pending
        },
        None => BotPhase::Pending,
    }
}

/// The phase that a Deployment stands for: that of its status, and
/// `pending` where there is no Deployment or it reports no status.
pub open spec fn phase_of_deployment(deployment: Option<DeploymentView>) -> BotPhase {
    match deployment {
        Some(d) => match d.status {
            Some(s) => phase_of(s),
            None => BotPhase::Pending,
        },
        None => BotPhase::Pending,
    }
}

/// Whether some condition has the given type and status.
fn find_condition(conditions: &Vec<DeploymentCondition>, type_: &str, status: &str) -> (r: bool)
    ensures
        r == has_condition(conditions.deep_view(), type_@, status@),
{
    let mut i: usize = 0;
    while i < conditions.len()
        invariant
            i <= conditions.len(),
            forall|j: int|
                0 <= j < i ==> !((#[trigger] conditions.deep_view()[j]).type_ == type_@
                    && conditions.deep_view()[j].status == status@),
        decreases conditions.len() - i,
    {
        if str_eq(conditions[i].type_.as_str(), type_) && str_eq(conditions[i].status.as_str(), status) {
            assert(conditions.deep_view()[i as int].type_ == type_@);
            return true;
        }
        i += 1;
    }
    false
}

/// Derives the phase from a Deployment status.
pub fn phase_from_status(status: &DeploymentStatus) -> (r: BotPhase)
    ensures
        r == phase_of(status.deep_view()),
{
    match &status.conditions {
        Some(conditions) => {
            if find_condition(conditions, "Progressing", "False") {
                BotPhase::Error
            } else if find_condition(conditions, "Available", "True") {
                BotPhase::Running
            } else {
                BotPhase::Pending
            }
        },
        None => BotPhase::Pending,
    }
}

/// Derives the phase from the latest Deployment.
pub fn phase_from_deployment(deployment: Option<&Deployment>) -> (r: BotPhase)
    ensures
        r == phase_of_deployment(deployment.deep_view()),
{
    match deployment {
        Some(d) => match &d.status {
            Some(s) => phase_from_status(s),
            None => BotPhase::Pending,
        },
        None => BotPhase::Pending,
    }
}

impl From<DeploymentStatus> for BotPhase {
    /// Derives the phase from a Deployment status.
    fn from(status: DeploymentStatus) -> (r: Self) {
        phase_from_status(&status)
    }
}

impl vstd::std_specs::convert::FromSpecImpl<DeploymentStatus> for BotPhase {
    open spec fn obeys_from_spec() -> bool {
        true
    }

    open spec fn from_spec(status: DeploymentStatus) -> Self {
        phase_of(status.deep_view())
    }
}

} // verus!

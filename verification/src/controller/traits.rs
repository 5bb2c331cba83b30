//! What every dependent kind offers: projection and drift detection.

use crate::common::config::AppConfig;
use crate::crd::hub::traits::Hub;
use crate::objects::{OwnerReference, OwnerReferenceView};
use vstd::prelude::*;

verus! {

/// A dependent object that is projected from a hub resource.
pub trait FromHub<T: Hub>: DeepView + Sized {
    /// Whether `object` is what the resource projects to under the given
    /// name, namespace, owner and operator defaults.
    spec fn is_projection(
        hub: &T,
        name: Seq<char>,
        namespace: Seq<char>,
        owner_ref: OwnerReferenceView,
        config: &AppConfig,
        object: Self::V,
    ) -> bool;

    /// Projects the resource onto this kind.
    fn from_hub(hub: &T, name: &str, namespace: &str, owner_ref: OwnerReference, config: &AppConfig) -> (r:
        Self)
        ensures
            Self::is_projection(hub, name@, namespace@, owner_ref.deep_view(), config, r.deep_view()),
    ;
}

/// A dependent object that can tell whether the stored object has to be
/// mutated to meet the projected one.
pub trait ResourceDrift<T: Hub>: DeepView + Sized {
    /// Whether `observed` differs from `desired` in a way that calls for a
    /// mutation.
    spec fn drifted(observed: Self::V, desired: Self::V) -> bool;

    /// Whether this object, as observed, has drifted from `other`, the
    /// desired one.
    fn has_drifted(&self, other: &Self) -> (r: bool)
        ensures
            r == Self::drifted(self.deep_view(), other.deep_view()),
    ;
}

} // verus!

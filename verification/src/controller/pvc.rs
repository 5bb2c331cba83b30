//! The PersistentVolumeClaim of a bot.

use crate::common::config::AppConfig;
use crate::common::content::{push_item, Content};
use crate::common::string_map::StringMap;
use crate::common::text::owned;
use crate::controller::drift::set_and_different;
use crate::controller::labels::{make_managed_meta, managed_meta};
use crate::controller::traits::{FromHub, ResourceDrift};
use crate::crd::hub::bot::Bot;
use crate::objects::{
    OwnerReference, OwnerReferenceView, PersistentVolumeClaim, PersistentVolumeClaimSpec,
    PersistentVolumeClaimSpecView, PersistentVolumeClaimView, VolumeResourceRequirements,
    VolumeResourceRequirementsView,
};
use vstd::prelude::*;

verus! {

/// The claim that a bot projects to: one writer at a time, the storage that
/// the bot asks for, and its storage class if it names one.
pub open spec fn pvc_of(
    bot: &Bot,
    name: Seq<char>,
    namespace: Seq<char>,
    owner_ref: OwnerReferenceView,
) -> PersistentVolumeClaimView {
    PersistentVolumeClaimView {
        metadata: managed_meta(
            name,
            namespace,
            owner_ref,
            bot.spec.pvc.annotations.deep_view(),
            bot.spec.pvc.labels.deep_view(),
        ),
        spec: Some(
            PersistentVolumeClaimSpecView {
                access_modes: Some(seq!["ReadWriteOnce"@]),
                resources: Some(
                    VolumeResourceRequirementsView {
                        limits: None,
                        requests: Some(
                            Map::<Seq<char>, Seq<char>>::empty().insert("storage"@, bot.spec.pvc.size@),
                        ),
                    },
                ),
                storage_class_name: bot.spec.pvc.storage_class.deep_view(),
            },
        ),
    }
}

impl FromHub<Bot> for PersistentVolumeClaim {
    open spec fn is_projection(
        hub: &Bot,
        name: Seq<char>,
        namespace: Seq<char>,
        owner_ref: OwnerReferenceView,
        config: &AppConfig,
        object: PersistentVolumeClaimView,
    ) -> bool {
        object == pvc_of(hub, name, namespace, owner_ref)
    }

    /// Projects a bot onto its PersistentVolumeClaim.
    fn from_hub(bot: &Bot, name: &str, namespace: &str, owner_ref: OwnerReference, _config: &AppConfig) -> (r:
        Self) {
        let mut access_modes: Vec<String> = Vec::new();
        push_item(&mut access_modes, owned("ReadWriteOnce"));
        assert(access_modes.deep_view() =~= seq!["ReadWriteOnce"@]);
        let mut requests = StringMap::new();
        requests.insert(owned("storage"), bot.spec.pvc.size.clone());
        PersistentVolumeClaim {
            metadata: make_managed_meta(
                name,
                namespace,
                owner_ref,
                &bot.spec.pvc.annotations,
                &bot.spec.pvc.labels,
            ),
            spec: Some(
                PersistentVolumeClaimSpec {
                    access_modes: Some(access_modes),
                    resources: Some(VolumeResourceRequirements { limits: None, requests: Some(requests) }),
                    storage_class_name: bot.spec.pvc.storage_class.dup(),
                },
            ),
        }
    }
}

/// Whether a claim has drifted: exactly one side has a spec; or both have
/// one and the resources differ, or both name a storage class and the two
/// differ. A storage class that only one side names is no drift: the API
/// server may have filled it in.
pub open spec fn pvc_drifted(observed: PersistentVolumeClaimView, desired: PersistentVolumeClaimView) -> bool {
    match (observed.spec, desired.spec) {
        (Some(o), Some(d)) => set_and_different(o.storage_class_name, d.storage_class_name) || o.resources
            != d.resources,
        (None, None) => false,
        _ => true,
    }
}

impl ResourceDrift<Bot> for PersistentVolumeClaim {
    open spec fn drifted(observed: PersistentVolumeClaimView, desired: PersistentVolumeClaimView) -> bool {
        pvc_drifted(observed, desired)
    }

    /// Whether the stored claim has drifted from the projected one.
    fn has_drifted(&self, other: &Self) -> (r: bool) {
        match (&self.spec, &other.spec) {
            (Some(o), Some(d)) => {
                let class_differs = match (&o.storage_class_name, &d.storage_class_name) {
                    (Some(a), Some(b)) => !a.same(b),
                    _ => false,
                };
                class_differs || !o.resources.same(&d.resources)
            },
            (None, None) => false,
            _ => true,
        }
    }
}

} // verus!

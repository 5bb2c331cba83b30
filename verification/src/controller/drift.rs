//! Drift detection: does the stored object have to be mutated to meet the
//! projected one?
//!
//! The comparison is lenient where the API server fills in defaults: such a
//! field is compared only where both sides set it.

use crate::common::content::Content;
use crate::common::string_map::Labels;
use crate::common::text::str_eq;
use crate::controller::keyed::{keyed_lists_differ, lists_differ, Keyed};
use crate::controller::traits::ResourceDrift;
use crate::crd::hub::bot::Bot;
use crate::objects::{
    Container, ContainerPort, ContainerPortView, ContainerView, Deployment, DeploymentView, EnvVar,
    EnvVarView, PodSpec, PodSpecView, Volume, VolumeSource, VolumeSourceView, VolumeView,
};
use vstd::prelude::*;

verus! {

/// Both sides set the field, and to different values.
pub open spec fn set_and_different<A>(observed: Option<A>, desired: Option<A>) -> bool {
    observed is Some && desired is Some && observed != desired
}

/// Whether both sides set the field, and to different values.
fn both_set_and_differ<T: Content>(observed: &Option<T>, desired: &Option<T>) -> (r: bool)
    ensures
        r == set_and_different(observed.deep_view(), desired.deep_view()),
{
    match (observed, desired) {
        (Some(a), Some(b)) => !a.same(b),
        _ => false,
    }
}

/// The protocol of a port; a port that names none speaks TCP.
pub open spec fn protocol_of(protocol: Option<Seq<char>>) -> Seq<char> {
    match protocol {
        Some(p) => p,
        None => "TCP"@,
    }
}

/// Whether two protocols differ, an unnamed one counting as TCP.
fn protocols_differ(a: &Option<String>, b: &Option<String>) -> (r: bool)
    ensures
        r == (protocol_of(a.deep_view()) != protocol_of(b.deep_view())),
{
    let x = match a {
        Some(p) => p.as_str(),
        None => "TCP",
    };
    let y = match b {
        Some(p) => p.as_str(),
        None => "TCP",
    };
    !str_eq(x, y)
}

/// Whether two container ports differ in number, name or protocol.
pub open spec fn container_port_differs(a: ContainerPortView, b: ContainerPortView) -> bool {
    a.container_port != b.container_port || a.name != b.name || protocol_of(a.protocol) != protocol_of(
        b.protocol,
    )
}

/// Whether the port lists of two containers differ: one is absent, or the
/// lengths differ, or two ports at the same place differ.
pub open spec fn container_ports_differ(
    a: Option<Seq<ContainerPortView>>,
    b: Option<Seq<ContainerPortView>>,
) -> bool {
    match (a, b) {
        (Some(x), Some(y)) => x.len() != y.len() || exists|i: int|
            0 <= i < x.len() && i < y.len() && container_port_differs(#[trigger] x[i], y[i]),
        (None, None) => false,
        _ => true,
    }
}

/// Compares the ports of two containers, place by place.
pub fn compare_container_ports(
    self_ports: Option<&Vec<ContainerPort>>,
    other_ports: Option<&Vec<ContainerPort>>,
) -> (r: bool)
    ensures
        r == container_ports_differ(self_ports.deep_view(), other_ports.deep_view()),
{
    match (self_ports, other_ports) {
        (Some(a), Some(b)) => {
            if a.len() != b.len() {
                assert(a.deep_view().len() != b.deep_view().len());
                return true;
            }
            let mut i: usize = 0;
            while i < a.len()
                invariant
                    i <= a.len(),
                    a.len() == b.len(),
                    self_ports.deep_view() == Some(a.deep_view()),
                    other_ports.deep_view() == Some(b.deep_view()),
                    forall|j: int|
                        0 <= j < i ==> !container_port_differs(
                            #[trigger] a.deep_view()[j],
                            b.deep_view()[j],
                        ),
                decreases a.len() - i,
            {
                if a[i].container_port != b[i].container_port || !a[i].name.same(&b[i].name)
                    || protocols_differ(&a[i].protocol, &b[i].protocol) {
                    assert(container_port_differs(a.deep_view()[i as int], b.deep_view()[i as int]));
                    return true;
                }
                i += 1;
            }
            false
        },
        (None, None) => false,
        _ => true,
    }
}

impl Keyed for EnvVar {
    open spec fn key_of(item: EnvVarView) -> Seq<char> {
        item.name
    }

    open spec fn alike(a: EnvVarView, b: EnvVarView) -> bool {
        a == b
    }

    fn key(&self) -> (r: &str) {
        self.name.as_str()
    }

    fn is_alike(&self, other: &Self) -> (r: bool) {
        self.same(other)
    }
}

/// Whether the environments of two containers differ: one is absent, or
/// the lengths differ, or, matched by name, two variables differ. The order
/// of the variables is of no account.
pub open spec fn env_vars_differ(a: Option<Seq<EnvVarView>>, b: Option<Seq<EnvVarView>>) -> bool {
    match (a, b) {
        (Some(x), Some(y)) => x.len() != y.len() || keyed_lists_differ::<EnvVar>(x, y),
        (None, None) => false,
        _ => true,
    }
}

/// Compares the environments of two containers.
pub fn compare_env_vars(self_vars: Option<&Vec<EnvVar>>, other_vars: Option<&Vec<EnvVar>>) -> (r: bool)
    ensures
        r == env_vars_differ(self_vars.deep_view(), other_vars.deep_view()),
{
    match (self_vars, other_vars) {
        (Some(a), Some(b)) => {
            if a.len() != b.len() {
                assert(a.deep_view().len() != b.deep_view().len());
                return true;
            }
            lists_differ(a, b)
        },
        (None, None) => false,
        _ => true,
    }
}

/// Two default modes are equal, an unset mode counting as 420, the value
/// that the API server fills in.
pub open spec fn modes_equal(a: Option<i32>, b: Option<i32>) -> bool {
    a == b || (a is None && b == Some(420i32)) || (a == Some(420i32) && b is None)
}

/// Two volumes are equal if they are the same field by field, or if both
/// are filled from a ConfigMap and are the same but for default modes that
/// count as equal.
pub open spec fn volumes_equal(a: VolumeView, b: VolumeView) -> bool {
    a == b || (a.name == b.name && match (a.source, b.source) {
        (VolumeSourceView::ConfigMap(x), VolumeSourceView::ConfigMap(y)) => {
            &&& x.name == y.name
            &&& x.items == y.items
            &&& x.optional == y.optional
            &&& modes_equal(x.default_mode, y.default_mode)
        },
        _ => false,
    })
}

/// Compares two volumes.
pub fn volumes_are_equal(self_vol: &Volume, other_vol: &Volume) -> (r: bool)
    ensures
        r == volumes_equal(self_vol.deep_view(), other_vol.deep_view()),
{
    if self_vol.same(other_vol) {
        return true;
    }
    if !self_vol.name.same(&other_vol.name) {
        return false;
    }
    match (&self_vol.source, &other_vol.source) {
        (VolumeSource::ConfigMap(x), VolumeSource::ConfigMap(y)) => {
            let modes = match (x.default_mode, y.default_mode) {
                (None, Some(m)) => m == 420,
                (Some(m), None) => m == 420,
                (a, b) => a.same(&b),
            };
            x.name.same(&y.name) && x.items.same(&y.items) && x.optional.same(&y.optional) && modes
        },
        _ => false,
    }
}

impl Keyed for Volume {
    open spec fn key_of(item: VolumeView) -> Seq<char> {
        item.name
    }

    open spec fn alike(a: VolumeView, b: VolumeView) -> bool {
        volumes_equal(a, b)
    }

    fn key(&self) -> (r: &str) {
        self.name.as_str()
    }

    fn is_alike(&self, other: &Self) -> (r: bool) {
        volumes_are_equal(self, other)
    }
}

/// Whether the volumes of two pods differ: one list is absent, or the
/// lengths differ, or, matched by name, two volumes are not equal. The
/// order of the volumes is of no account.
pub open spec fn volumes_differ(a: Option<Seq<VolumeView>>, b: Option<Seq<VolumeView>>) -> bool {
    match (a, b) {
        (Some(x), Some(y)) => x.len() != y.len() || keyed_lists_differ::<Volume>(x, y),
        (None, None) => false,
        _ => true,
    }
}

/// Compares the volumes of two pods.
pub fn compare_volumes(self_vols: Option<&Vec<Volume>>, other_vols: Option<&Vec<Volume>>) -> (r: bool)
    ensures
        r == volumes_differ(self_vols.deep_view(), other_vols.deep_view()),
{
    match (self_vols, other_vols) {
        (Some(a), Some(b)) => {
            if a.len() != b.len() {
                assert(a.deep_view().len() != b.deep_view().len());
                return true;
            }
            lists_differ(a, b)
        },
        (None, None) => false,
        _ => true,
    }
}

/// Whether a container has drifted: image, command, ports and volume
/// mounts are compared as they are; the environment without regard to
/// order; pull policy, resources and security context only where both
/// sides set them.
pub open spec fn container_drifted(observed: ContainerView, desired: ContainerView) -> bool {
    ||| observed.image != desired.image
    ||| observed.command != desired.command
    ||| container_ports_differ(observed.ports, desired.ports)
    ||| set_and_different(observed.image_pull_policy, desired.image_pull_policy)
    ||| env_vars_differ(observed.env, desired.env)
    ||| observed.volume_mounts != desired.volume_mounts
    ||| set_and_different(observed.resources, desired.resources)
    ||| set_and_different(observed.security_context, desired.security_context)
}

/// Whether a container has drifted.
fn container_has_drifted(observed: &Container, desired: &Container) -> (r: bool)
    ensures
        r == container_drifted(observed.deep_view(), desired.deep_view()),
{
    if !observed.image.same(&desired.image) || !observed.command.same(&desired.command)
        || compare_container_ports(observed.ports.as_ref(), desired.ports.as_ref()) {
        return true;
    }
    if both_set_and_differ(&observed.image_pull_policy, &desired.image_pull_policy) {
        return true;
    }
    if compare_env_vars(observed.env.as_ref(), desired.env.as_ref()) {
        return true;
    }
    if !observed.volume_mounts.same(&desired.volume_mounts) {
        return true;
    }
    if both_set_and_differ(&observed.resources, &desired.resources) {
        return true;
    }
    both_set_and_differ(&observed.security_context, &desired.security_context)
}

/// The replicas that a Deployment asks for.
pub open spec fn replicas_of(d: DeploymentView) -> Option<i32> {
    match d.spec {
        Some(s) => s.replicas,
        None => None,
    }
}

/// The pod of a Deployment.
pub open spec fn pod_spec_of(d: DeploymentView) -> Option<PodSpecView> {
    match d.spec {
        Some(s) => s.template.spec,
        None => None,
    }
}

/// The containers of a Deployment; none where it has no pod.
pub open spec fn containers_of(d: DeploymentView) -> Seq<ContainerView> {
    match pod_spec_of(d) {
        Some(p) => p.containers,
        None => Seq::empty(),
    }
}

/// Whether the containers differ in number, or one has drifted from the
/// container at the same place.
pub open spec fn containers_drifted(observed: Seq<ContainerView>, desired: Seq<ContainerView>) -> bool {
    observed.len() != desired.len() || exists|i: int|
        0 <= i < observed.len() && i < desired.len() && container_drifted(#[trigger] observed[i], desired[i])
}

/// The volumes of a pod, if there is a pod.
pub open spec fn pod_volumes(p: Option<PodSpecView>) -> Option<Seq<VolumeView>> {
    match p {
        Some(p) => p.volumes,
        None => None,
    }
}

/// The node selector of a pod, if there is a pod.
pub open spec fn pod_node_selector(p: Option<PodSpecView>) -> Option<Labels> {
    match p {
        Some(p) => p.node_selector,
        None => None,
    }
}

/// The security context of a pod, if there is a pod.
pub open spec fn pod_security_context(p: Option<PodSpecView>) -> Option<Seq<char>> {
    match p {
        Some(p) => p.security_context,
        None => None,
    }
}

/// What is compared by plain equality between two pods: affinity,
/// tolerations and image pull secrets. A missing pod differs from a pod
/// that sets none of them.
pub open spec fn pod_scheduling_differs(observed: Option<PodSpecView>, desired: Option<PodSpecView>) -> bool {
    match (observed, desired) {
        (Some(o), Some(d)) => o.affinity != d.affinity || o.tolerations != d.tolerations
            || o.image_pull_secrets != d.image_pull_secrets,
        (None, None) => false,
        _ => true,
    }
}

/// Whether a Deployment has drifted.
pub open spec fn deployment_drifted(observed: DeploymentView, desired: DeploymentView) -> bool {
    ||| replicas_of(observed) != replicas_of(desired)
    ||| containers_drifted(containers_of(observed), containers_of(desired))
    ||| volumes_differ(pod_volumes(pod_spec_of(observed)), pod_volumes(pod_spec_of(desired)))
    ||| set_and_different(
        pod_node_selector(pod_spec_of(observed)),
        pod_node_selector(pod_spec_of(desired)),
    )
    ||| pod_scheduling_differs(pod_spec_of(observed), pod_spec_of(desired))
    ||| set_and_different(
        pod_security_context(pod_spec_of(observed)),
        pod_security_context(pod_spec_of(desired)),
    )
}

/// The pod of a Deployment.
fn pod_of_deployment(d: &Deployment) -> (r: Option<&PodSpec>)
    ensures
        r.deep_view() == pod_spec_of(d.deep_view()),
{
    match &d.spec {
        Some(s) => s.template.spec.as_ref(),
        None => None,
    }
}

/// Whether the containers of two Deployments have drifted.
fn containers_have_drifted(observed: Option<&PodSpec>, desired: Option<&PodSpec>) -> (r: bool)
    ensures
        r == containers_drifted(
            match observed.deep_view() {
                Some(p) => p.containers,
                None => Seq::empty(),
            },
            match desired.deep_view() {
                Some(p) => p.containers,
                None => Seq::empty(),
            },
        ),
{
    let empty: Vec<Container> = Vec::new();
    assert(empty.deep_view() =~= Seq::empty());
    let a = match observed {
        Some(p) => &p.containers,
        None => &empty,
    };
    let b = match desired {
        Some(p) => &p.containers,
        None => &empty,
    };
    let ghost av = a.deep_view();
    let ghost bv = b.deep_view();
    if a.len() != b.len() {
        assert(av.len() != bv.len());
        return true;
    }
    let mut i: usize = 0;
    while i < a.len()
        invariant
            i <= a.len(),
            a.len() == b.len(),
            av == a.deep_view(),
            bv == b.deep_view(),
            av == (match observed.deep_view() {
                Some(p) => p.containers,
                None => Seq::empty(),
            }),
            bv == (match desired.deep_view() {
                Some(p) => p.containers,
                None => Seq::empty(),
            }),
            forall|j: int| 0 <= j < i ==> !container_drifted(#[trigger] a.deep_view()[j], b.deep_view()[j]),
        decreases a.len() - i,
    {
        if container_has_drifted(&a[i], &b[i]) {
            assert(container_drifted(a.deep_view()[i as int], b.deep_view()[i as int]));
            return true;
        }
        i += 1;
    }
    false
}

impl ResourceDrift<Bot> for Deployment {
    open spec fn drifted(observed: DeploymentView, desired: DeploymentView) -> bool {
        deployment_drifted(observed, desired)
    }

    /// Whether the stored Deployment has drifted from the projected one.
    fn has_drifted(&self, other: &Self) -> (r: bool) {
        let mine = match &self.spec {
            Some(s) => s.replicas,
            None => None,
        };
        let theirs = match &other.spec {
            Some(s) => s.replicas,
            None => None,
        };
        if !mine.same(&theirs) {
            return true;
        }
        let observed = pod_of_deployment(self);
        let desired = pod_of_deployment(other);
        if containers_have_drifted(observed, desired) {
            return true;
        }
        let volumes_a = match observed {
            Some(p) => p.volumes.as_ref(),
            None => None,
        };
        let volumes_b = match desired {
            Some(p) => p.volumes.as_ref(),
            None => None,
        };
        if compare_volumes(volumes_a, volumes_b) {
            return true;
        }
        match (observed, desired) {
            (Some(o), Some(d)) => {
                if both_set_and_differ(&o.node_selector, &d.node_selector) {
                    return true;
                }
                if !o.affinity.same(&d.affinity) || !o.tolerations.same(&d.tolerations)
                    || !o.image_pull_secrets.same(&d.image_pull_secrets) {
                    return true;
                }
                both_set_and_differ(&o.security_context, &d.security_context)
            },
            (None, None) => false,
            _ => true,
        }
    }
}

} // verus!

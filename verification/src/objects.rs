//! Plain model of the Kubernetes objects that the operator reads and writes.
//!
//! Each type holds, as plain values, the fields that the operator decides
//! on. Parts that the operator only carries and compares, never interprets,
//! are kept as a [`Fragment`]: the part in its JSON form.

use crate::common::content::Content;
use crate::common::string_map::{Labels, StringMap};
use vstd::prelude::*;

verus! {

/// A part of an object that is carried and compared as a whole, in JSON.
#[derive(Debug, Clone)]
pub struct Fragment {
    pub json: String,
}

impl DeepView for Fragment {
    type V = Seq<char>;

    open spec fn deep_view(&self) -> Seq<char> {
        self.json@
    }
}

impl Content for Fragment {
    fn dup(&self) -> (r: Self) {
        Fragment { json: self.json.clone() }
    }

    fn same(&self, other: &Self) -> (r: bool) {
        self.json == other.json
    }
}

/// A link from a dependent object to the object that owns it.
#[derive(Debug, Clone)]
pub struct OwnerReference {
    pub api_version: String,
    pub kind: String,
    pub name: String,
    pub uid: String,
    pub controller: Option<bool>,
    pub block_owner_deletion: Option<bool>,
}

/// The content of a [`OwnerReference`].
pub struct OwnerReferenceView {
    pub api_version: Seq<char>,
    pub kind: Seq<char>,
    pub name: Seq<char>,
    pub uid: Seq<char>,
    pub controller: Option<bool>,
    pub block_owner_deletion: Option<bool>,
}

impl DeepView for OwnerReference {
    type V = OwnerReferenceView;

    open spec fn deep_view(&self) -> OwnerReferenceView {
        OwnerReferenceView {
            api_version: self.api_version.deep_view(),
            kind: self.kind.deep_view(),
            name: self.name.deep_view(),
            uid: self.uid.deep_view(),
            controller: self.controller.deep_view(),
            block_owner_deletion: self.block_owner_deletion.deep_view(),
        }
    }
}

impl Content for OwnerReference {
    fn dup(&self) -> (r: Self) {
        OwnerReference {
            api_version: self.api_version.dup(),
            kind: self.kind.dup(),
            name: self.name.dup(),
            uid: self.uid.dup(),
            controller: self.controller.dup(),
            block_owner_deletion: self.block_owner_deletion.dup(),
        }
    }

    fn same(&self, other: &Self) -> (r: bool) {
        self.api_version.same(&other.api_version)
            && self.kind.same(&other.kind)
            && self.name.same(&other.name)
            && self.uid.same(&other.uid)
            && self.controller.same(&other.controller)
            && self.block_owner_deletion.same(&other.block_owner_deletion)
    }
}

/// The metadata of an object.
#[derive(Debug, Clone)]
pub struct ObjectMeta {
    pub name: Option<String>,
    pub namespace: Option<String>,
    pub uid: Option<String>,
    pub owner_references: Option<Vec<OwnerReference>>,
    pub annotations: Option<StringMap>,
    pub labels: Option<StringMap>,
    pub finalizers: Option<Vec<String>>,
    /// Set once deletion of the object was requested.
    pub deletion_timestamp: Option<String>,
}

/// The content of a [`ObjectMeta`].
pub struct ObjectMetaView {
    pub name: Option<Seq<char>>,
    pub namespace: Option<Seq<char>>,
    pub uid: Option<Seq<char>>,
    pub owner_references: Option<Seq<OwnerReferenceView>>,
    pub annotations: Option<Labels>,
    pub labels: Option<Labels>,
    pub finalizers: Option<Seq<Seq<char>>>,
    pub deletion_timestamp: Option<Seq<char>>,
}

impl DeepView for ObjectMeta {
    type V = ObjectMetaView;

    open spec fn deep_view(&self) -> ObjectMetaView {
        ObjectMetaView {
            name: self.name.deep_view(),
            namespace: self.namespace.deep_view(),
            uid: self.uid.deep_view(),
            owner_references: self.owner_references.deep_view(),
            annotations: self.annotations.deep_view(),
            labels: self.labels.deep_view(),
            finalizers: self.finalizers.deep_view(),
            deletion_timestamp: self.deletion_timestamp.deep_view(),
        }
    }
}

impl Content for ObjectMeta {
    fn dup(&self) -> (r: Self) {
        ObjectMeta {
            name: self.name.dup(),
            namespace: self.namespace.dup(),
            uid: self.uid.dup(),
            owner_references: self.owner_references.dup(),
            annotations: self.annotations.dup(),
            labels: self.labels.dup(),
            finalizers: self.finalizers.dup(),
            deletion_timestamp: self.deletion_timestamp.dup(),
        }
    }

    fn same(&self, other: &Self) -> (r: bool) {
        self.name.same(&other.name)
            && self.namespace.same(&other.namespace)
            && self.uid.same(&other.uid)
            && self.owner_references.same(&other.owner_references)
            && self.annotations.same(&other.annotations)
            && self.labels.same(&other.labels)
            && self.finalizers.same(&other.finalizers)
            && self.deletion_timestamp.same(&other.deletion_timestamp)
    }
}

/// A ConfigMap.
#[derive(Debug, Clone)]
pub struct ConfigMap {
    pub metadata: ObjectMeta,
    pub data: Option<StringMap>,
}

/// The content of a [`ConfigMap`].
pub struct ConfigMapView {
    pub metadata: ObjectMetaView,
    pub data: Option<Labels>,
}

impl DeepView for ConfigMap {
    type V = ConfigMapView;

    open spec fn deep_view(&self) -> ConfigMapView {
        ConfigMapView {
            metadata: self.metadata.deep_view(),
            data: self.data.deep_view(),
        }
    }
}

impl Content for ConfigMap {
    fn dup(&self) -> (r: Self) {
        ConfigMap {
            metadata: self.metadata.dup(),
            data: self.data.dup(),
        }
    }

    fn same(&self, other: &Self) -> (r: bool) {
        self.metadata.same(&other.metadata)
            && self.data.same(&other.data)
    }
}

/// The storage that a claim asks for; quantities are kept as text.
#[derive(Debug, Clone)]
pub struct VolumeResourceRequirements {
    pub limits: Option<StringMap>,
    pub requests: Option<StringMap>,
}

/// The content of a [`VolumeResourceRequirements`].
pub struct VolumeResourceRequirementsView {
    pub limits: Option<Labels>,
    pub requests: Option<Labels>,
}

impl DeepView for VolumeResourceRequirements {
    type V = VolumeResourceRequirementsView;

    open spec fn deep_view(&self) -> VolumeResourceRequirementsView {
        VolumeResourceRequirementsView {
            limits: self.limits.deep_view(),
            requests: self.requests.deep_view(),
        }
    }
}

impl Content for VolumeResourceRequirements {
    fn dup(&self) -> (r: Self) {
        VolumeResourceRequirements {
            limits: self.limits.dup(),
            requests: self.requests.dup(),
        }
    }

    fn same(&self, other: &Self) -> (r: bool) {
        self.limits.same(&other.limits)
            && self.requests.same(&other.requests)
    }
}

/// The desired state of a PersistentVolumeClaim.
#[derive(Debug, Clone)]
pub struct PersistentVolumeClaimSpec {
    pub access_modes: Option<Vec<String>>,
    pub resources: Option<VolumeResourceRequirements>,
    pub storage_class_name: Option<String>,
}

/// The content of a [`PersistentVolumeClaimSpec`].
pub struct PersistentVolumeClaimSpecView {
    pub access_modes: Option<Seq<Seq<char>>>,
    pub resources: Option<VolumeResourceRequirementsView>,
    pub storage_class_name: Option<Seq<char>>,
}

impl DeepView for PersistentVolumeClaimSpec {
    type V = PersistentVolumeClaimSpecView;

    open spec fn deep_view(&self) -> PersistentVolumeClaimSpecView {
        PersistentVolumeClaimSpecView {
            access_modes: self.access_modes.deep_view(),
            resources: self.resources.deep_view(),
            storage_class_name: self.storage_class_name.deep_view(),
        }
    }
}

impl Content for PersistentVolumeClaimSpec {
    fn dup(&self) -> (r: Self) {
        PersistentVolumeClaimSpec {
            access_modes: self.access_modes.dup(),
            resources: self.resources.dup(),
            storage_class_name: self.storage_class_name.dup(),
        }
    }

    fn same(&self, other: &Self) -> (r: bool) {
        self.access_modes.same(&other.access_modes)
            && self.resources.same(&other.resources)
            && self.storage_class_name.same(&other.storage_class_name)
    }
}

/// A PersistentVolumeClaim.
#[derive(Debug, Clone)]
pub struct PersistentVolumeClaim {
    pub metadata: ObjectMeta,
    pub spec: Option<PersistentVolumeClaimSpec>,
}

/// The content of a [`PersistentVolumeClaim`].
pub struct PersistentVolumeClaimView {
    pub metadata: ObjectMetaView,
    pub spec: Option<PersistentVolumeClaimSpecView>,
}

impl DeepView for PersistentVolumeClaim {
    type V = PersistentVolumeClaimView;

    open spec fn deep_view(&self) -> PersistentVolumeClaimView {
        PersistentVolumeClaimView {
            metadata: self.metadata.deep_view(),
            spec: self.spec.deep_view(),
        }
    }
}

impl Content for PersistentVolumeClaim {
    fn dup(&self) -> (r: Self) {
        PersistentVolumeClaim {
            metadata: self.metadata.dup(),
            spec: self.spec.dup(),
        }
    }

    fn same(&self, other: &Self) -> (r: bool) {
        self.metadata.same(&other.metadata)
            && self.spec.same(&other.spec)
    }
}

/// A key of a Secret in the same namespace.
#[derive(Debug, Clone)]
pub struct SecretKeySelector {
    pub name: String,
    pub key: String,
    pub optional: Option<bool>,
}

/// The content of a [`SecretKeySelector`].
pub struct SecretKeySelectorView {
    pub name: Seq<char>,
    pub key: Seq<char>,
    pub optional: Option<bool>,
}

impl DeepView for SecretKeySelector {
    type V = SecretKeySelectorView;

    open spec fn deep_view(&self) -> SecretKeySelectorView {
        SecretKeySelectorView {
            name: self.name.deep_view(),
            key: self.key.deep_view(),
            optional: self.optional.deep_view(),
        }
    }
}

impl Content for SecretKeySelector {
    fn dup(&self) -> (r: Self) {
        SecretKeySelector {
            name: self.name.dup(),
            key: self.key.dup(),
            optional: self.optional.dup(),
        }
    }

    fn same(&self, other: &Self) -> (r: bool) {
        self.name.same(&other.name)
            && self.key.same(&other.key)
            && self.optional.same(&other.optional)
    }
}

/// Where the value of an environment variable comes from.
#[derive(Debug, Clone)]
pub enum EnvVarSource {
    /// A key of a Secret, and nothing else.
    SecretKeyRef(SecretKeySelector),
    /// Any other source.
    Other(Fragment),
}

/// The content of a [`EnvVarSource`].
pub enum EnvVarSourceView {
    SecretKeyRef(SecretKeySelectorView),
    Other(Seq<char>),
}

impl DeepView for EnvVarSource {
    type V = EnvVarSourceView;

    open spec fn deep_view(&self) -> EnvVarSourceView {
        match self {
            EnvVarSource::SecretKeyRef(x) => EnvVarSourceView::SecretKeyRef(x.deep_view()),
            EnvVarSource::Other(x) => EnvVarSourceView::Other(x.deep_view()),
        }
    }
}

impl Content for EnvVarSource {
    fn dup(&self) -> (r: Self) {
        match self {
            EnvVarSource::SecretKeyRef(x) => EnvVarSource::SecretKeyRef(x.dup()),
            EnvVarSource::Other(x) => EnvVarSource::Other(x.dup()),
        }
    }

    fn same(&self, other: &Self) -> (r: bool) {
        match (self, other) {
            (EnvVarSource::SecretKeyRef(a), EnvVarSource::SecretKeyRef(b)) => a.same(b),
            (EnvVarSource::Other(a), EnvVarSource::Other(b)) => a.same(b),
            _ => false,
        }
    }
}

/// An environment variable of a container.
#[derive(Debug, Clone)]
pub struct EnvVar {
    pub name: String,
    pub value: Option<String>,
    pub value_from: Option<EnvVarSource>,
}

/// The content of a [`EnvVar`].
pub struct EnvVarView {
    pub name: Seq<char>,
    pub value: Option<Seq<char>>,
    pub value_from: Option<EnvVarSourceView>,
}

impl DeepView for EnvVar {
    type V = EnvVarView;

    open spec fn deep_view(&self) -> EnvVarView {
        EnvVarView {
            name: self.name.deep_view(),
            value: self.value.deep_view(),
            value_from: self.value_from.deep_view(),
        }
    }
}

impl Content for EnvVar {
    fn dup(&self) -> (r: Self) {
        EnvVar {
            name: self.name.dup(),
            value: self.value.dup(),
            value_from: self.value_from.dup(),
        }
    }

    fn same(&self, other: &Self) -> (r: bool) {
        self.name.same(&other.name)
            && self.value.same(&other.value)
            && self.value_from.same(&other.value_from)
    }
}

/// A port that a container exposes.
#[derive(Debug, Clone)]
pub struct ContainerPort {
    pub container_port: i32,
    pub name: Option<String>,
    pub protocol: Option<String>,
    pub host_ip: Option<String>,
    pub host_port: Option<i32>,
}

/// The content of a [`ContainerPort`].
pub struct ContainerPortView {
    pub container_port: i32,
    pub name: Option<Seq<char>>,
    pub protocol: Option<Seq<char>>,
    pub host_ip: Option<Seq<char>>,
    pub host_port: Option<i32>,
}

impl DeepView for ContainerPort {
    type V = ContainerPortView;

    open spec fn deep_view(&self) -> ContainerPortView {
        ContainerPortView {
            container_port: self.container_port.deep_view(),
            name: self.name.deep_view(),
            protocol: self.protocol.deep_view(),
            host_ip: self.host_ip.deep_view(),
            host_port: self.host_port.deep_view(),
        }
    }
}

impl Content for ContainerPort {
    fn dup(&self) -> (r: Self) {
        ContainerPort {
            container_port: self.container_port.dup(),
            name: self.name.dup(),
            protocol: self.protocol.dup(),
            host_ip: self.host_ip.dup(),
            host_port: self.host_port.dup(),
        }
    }

    fn same(&self, other: &Self) -> (r: bool) {
        self.container_port.same(&other.container_port)
            && self.name.same(&other.name)
            && self.protocol.same(&other.protocol)
            && self.host_ip.same(&other.host_ip)
            && self.host_port.same(&other.host_port)
    }
}

/// A volume mounted into a container.
#[derive(Debug, Clone)]
pub struct VolumeMount {
    pub name: String,
    pub mount_path: String,
    pub read_only: Option<bool>,
    pub sub_path: Option<String>,
    pub sub_path_expr: Option<String>,
    pub mount_propagation: Option<String>,
    pub recursive_read_only: Option<String>,
}

/// The content of a [`VolumeMount`].
pub struct VolumeMountView {
    pub name: Seq<char>,
    pub mount_path: Seq<char>,
    pub read_only: Option<bool>,
    pub sub_path: Option<Seq<char>>,
    pub sub_path_expr: Option<Seq<char>>,
    pub mount_propagation: Option<Seq<char>>,
    pub recursive_read_only: Option<Seq<char>>,
}

impl DeepView for VolumeMount {
    type V = VolumeMountView;

    open spec fn deep_view(&self) -> VolumeMountView {
        VolumeMountView {
            name: self.name.deep_view(),
            mount_path: self.mount_path.deep_view(),
            read_only: self.read_only.deep_view(),
            sub_path: self.sub_path.deep_view(),
            sub_path_expr: self.sub_path_expr.deep_view(),
            mount_propagation: self.mount_propagation.deep_view(),
            recursive_read_only: self.recursive_read_only.deep_view(),
        }
    }
}

impl Content for VolumeMount {
    fn dup(&self) -> (r: Self) {
        VolumeMount {
            name: self.name.dup(),
            mount_path: self.mount_path.dup(),
            read_only: self.read_only.dup(),
            sub_path: self.sub_path.dup(),
            sub_path_expr: self.sub_path_expr.dup(),
            mount_propagation: self.mount_propagation.dup(),
            recursive_read_only: self.recursive_read_only.dup(),
        }
    }

    fn same(&self, other: &Self) -> (r: bool) {
        self.name.same(&other.name)
            && self.mount_path.same(&other.mount_path)
            && self.read_only.same(&other.read_only)
            && self.sub_path.same(&other.sub_path)
            && self.sub_path_expr.same(&other.sub_path_expr)
            && self.mount_propagation.same(&other.mount_propagation)
            && self.recursive_read_only.same(&other.recursive_read_only)
    }
}

/// A key of a ConfigMap mapped to a file path.
#[derive(Debug, Clone)]
pub struct KeyToPath {
    pub key: String,
    pub path: String,
    pub mode: Option<i32>,
}

/// The content of a [`KeyToPath`].
pub struct KeyToPathView {
    pub key: Seq<char>,
    pub path: Seq<char>,
    pub mode: Option<i32>,
}

impl DeepView for KeyToPath {
    type V = KeyToPathView;

    open spec fn deep_view(&self) -> KeyToPathView {
        KeyToPathView {
            key: self.key.deep_view(),
            path: self.path.deep_view(),
            mode: self.mode.deep_view(),
        }
    }
}

impl Content for KeyToPath {
    fn dup(&self) -> (r: Self) {
        KeyToPath {
            key: self.key.dup(),
            path: self.path.dup(),
            mode: self.mode.dup(),
        }
    }

    fn same(&self, other: &Self) -> (r: bool) {
        self.key.same(&other.key)
            && self.path.same(&other.path)
            && self.mode.same(&other.mode)
    }
}

/// A volume filled from a ConfigMap.
#[derive(Debug, Clone)]
pub struct ConfigMapVolumeSource {
    pub name: String,
    pub items: Option<Vec<KeyToPath>>,
    pub optional: Option<bool>,
    pub default_mode: Option<i32>,
}

/// The content of a [`ConfigMapVolumeSource`].
pub struct ConfigMapVolumeSourceView {
    pub name: Seq<char>,
    pub items: Option<Seq<KeyToPathView>>,
    pub optional: Option<bool>,
    pub default_mode: Option<i32>,
}

impl DeepView for ConfigMapVolumeSource {
    type V = ConfigMapVolumeSourceView;

    open spec fn deep_view(&self) -> ConfigMapVolumeSourceView {
        ConfigMapVolumeSourceView {
            name: self.name.deep_view(),
            items: self.items.deep_view(),
            optional: self.optional.deep_view(),
            default_mode: self.default_mode.deep_view(),
        }
    }
}

impl Content for ConfigMapVolumeSource {
    fn dup(&self) -> (r: Self) {
        ConfigMapVolumeSource {
            name: self.name.dup(),
            items: self.items.dup(),
            optional: self.optional.dup(),
            default_mode: self.default_mode.dup(),
        }
    }

    fn same(&self, other: &Self) -> (r: bool) {
        self.name.same(&other.name)
            && self.items.same(&other.items)
            && self.optional.same(&other.optional)
            && self.default_mode.same(&other.default_mode)
    }
}

/// A volume backed by a PersistentVolumeClaim.
#[derive(Debug, Clone)]
pub struct PersistentVolumeClaimVolumeSource {
    pub claim_name: String,
    pub read_only: Option<bool>,
}

/// The content of a [`PersistentVolumeClaimVolumeSource`].
pub struct PersistentVolumeClaimVolumeSourceView {
    pub claim_name: Seq<char>,
    pub read_only: Option<bool>,
}

impl DeepView for PersistentVolumeClaimVolumeSource {
    type V = PersistentVolumeClaimVolumeSourceView;

    open spec fn deep_view(&self) -> PersistentVolumeClaimVolumeSourceView {
        PersistentVolumeClaimVolumeSourceView {
            claim_name: self.claim_name.deep_view(),
            read_only: self.read_only.deep_view(),
        }
    }
}

impl Content for PersistentVolumeClaimVolumeSource {
    fn dup(&self) -> (r: Self) {
        PersistentVolumeClaimVolumeSource {
            claim_name: self.claim_name.dup(),
            read_only: self.read_only.dup(),
        }
    }

    fn same(&self, other: &Self) -> (r: bool) {
        self.claim_name.same(&other.claim_name)
            && self.read_only.same(&other.read_only)
    }
}

/// What backs a volume.
#[derive(Debug, Clone)]
pub enum VolumeSource {
    /// A ConfigMap, and nothing else.
    ConfigMap(ConfigMapVolumeSource),
    /// A claim, and nothing else.
    PersistentVolumeClaim(PersistentVolumeClaimVolumeSource),
    /// Any other source.
    Other(Fragment),
}

/// The content of a [`VolumeSource`].
pub enum VolumeSourceView {
    ConfigMap(ConfigMapVolumeSourceView),
    PersistentVolumeClaim(PersistentVolumeClaimVolumeSourceView),
    Other(Seq<char>),
}

impl DeepView for VolumeSource {
    type V = VolumeSourceView;

    open spec fn deep_view(&self) -> VolumeSourceView {
        match self {
            VolumeSource::ConfigMap(x) => VolumeSourceView::ConfigMap(x.deep_view()),
            VolumeSource::PersistentVolumeClaim(x) => VolumeSourceView::PersistentVolumeClaim(x.deep_view()),
            VolumeSource::Other(x) => VolumeSourceView::Other(x.deep_view()),
        }
    }
}

impl Content for VolumeSource {
    fn dup(&self) -> (r: Self) {
        match self {
            VolumeSource::ConfigMap(x) => VolumeSource::ConfigMap(x.dup()),
            VolumeSource::PersistentVolumeClaim(x) => VolumeSource::PersistentVolumeClaim(x.dup()),
            VolumeSource::Other(x) => VolumeSource::Other(x.dup()),
        }
    }

    fn same(&self, other: &Self) -> (r: bool) {
        match (self, other) {
            (VolumeSource::ConfigMap(a), VolumeSource::ConfigMap(b)) => a.same(b),
            (VolumeSource::PersistentVolumeClaim(a), VolumeSource::PersistentVolumeClaim(b)) => a.same(b),
            (VolumeSource::Other(a), VolumeSource::Other(b)) => a.same(b),
            _ => false,
        }
    }
}

/// A volume of a pod.
#[derive(Debug, Clone)]
pub struct Volume {
    pub name: String,
    pub source: VolumeSource,
}

/// The content of a [`Volume`].
pub struct VolumeView {
    pub name: Seq<char>,
    pub source: VolumeSourceView,
}

impl DeepView for Volume {
    type V = VolumeView;

    open spec fn deep_view(&self) -> VolumeView {
        VolumeView {
            name: self.name.deep_view(),
            source: self.source.deep_view(),
        }
    }
}

impl Content for Volume {
    fn dup(&self) -> (r: Self) {
        Volume {
            name: self.name.dup(),
            source: self.source.dup(),
        }
    }

    fn same(&self, other: &Self) -> (r: bool) {
        self.name.same(&other.name)
            && self.source.same(&other.source)
    }
}

/// A container of a pod.
#[derive(Debug, Clone)]
pub struct Container {
    pub name: String,
    pub image: Option<String>,
    pub image_pull_policy: Option<String>,
    pub command: Option<Vec<String>>,
    pub env: Option<Vec<EnvVar>>,
    pub ports: Option<Vec<ContainerPort>>,
    pub volume_mounts: Option<Vec<VolumeMount>>,
    pub resources: Option<Fragment>,
    pub security_context: Option<Fragment>,
    /// Every other field of the container.
    pub extra: Option<Fragment>,
}

/// The content of a [`Container`].
pub struct ContainerView {
    pub name: Seq<char>,
    pub image: Option<Seq<char>>,
    pub image_pull_policy: Option<Seq<char>>,
    pub command: Option<Seq<Seq<char>>>,
    pub env: Option<Seq<EnvVarView>>,
    pub ports: Option<Seq<ContainerPortView>>,
    pub volume_mounts: Option<Seq<VolumeMountView>>,
    pub resources: Option<Seq<char>>,
    pub security_context: Option<Seq<char>>,
    pub extra: Option<Seq<char>>,
}

impl DeepView for Container {
    type V = ContainerView;

    open spec fn deep_view(&self) -> ContainerView {
        ContainerView {
            name: self.name.deep_view(),
            image: self.image.deep_view(),
            image_pull_policy: self.image_pull_policy.deep_view(),
            command: self.command.deep_view(),
            env: self.env.deep_view(),
            ports: self.ports.deep_view(),
            volume_mounts: self.volume_mounts.deep_view(),
            resources: self.resources.deep_view(),
            security_context: self.security_context.deep_view(),
            extra: self.extra.deep_view(),
        }
    }
}

impl Content for Container {
    fn dup(&self) -> (r: Self) {
        Container {
            name: self.name.dup(),
            image: self.image.dup(),
            image_pull_policy: self.image_pull_policy.dup(),
            command: self.command.dup(),
            env: self.env.dup(),
            ports: self.ports.dup(),
            volume_mounts: self.volume_mounts.dup(),
            resources: self.resources.dup(),
            security_context: self.security_context.dup(),
            extra: self.extra.dup(),
        }
    }

    fn same(&self, other: &Self) -> (r: bool) {
        self.name.same(&other.name)
            && self.image.same(&other.image)
            && self.image_pull_policy.same(&other.image_pull_policy)
            && self.command.same(&other.command)
            && self.env.same(&other.env)
            && self.ports.same(&other.ports)
            && self.volume_mounts.same(&other.volume_mounts)
            && self.resources.same(&other.resources)
            && self.security_context.same(&other.security_context)
            && self.extra.same(&other.extra)
    }
}

/// The desired state of a pod.
#[derive(Debug, Clone)]
pub struct PodSpec {
    pub containers: Vec<Container>,
    pub init_containers: Option<Vec<Container>>,
    pub volumes: Option<Vec<Volume>>,
    /// Names of the secrets used to pull images.
    pub image_pull_secrets: Option<Vec<String>>,
    pub node_selector: Option<StringMap>,
    pub affinity: Option<Fragment>,
    pub tolerations: Option<Vec<Fragment>>,
    pub security_context: Option<Fragment>,
}

/// The content of a [`PodSpec`].
pub struct PodSpecView {
    pub containers: Seq<ContainerView>,
    pub init_containers: Option<Seq<ContainerView>>,
    pub volumes: Option<Seq<VolumeView>>,
    pub image_pull_secrets: Option<Seq<Seq<char>>>,
    pub node_selector: Option<Labels>,
    pub affinity: Option<Seq<char>>,
    pub tolerations: Option<Seq<Seq<char>>>,
    pub security_context: Option<Seq<char>>,
}

impl DeepView for PodSpec {
    type V = PodSpecView;

    open spec fn deep_view(&self) -> PodSpecView {
        PodSpecView {
            containers: self.containers.deep_view(),
            init_containers: self.init_containers.deep_view(),
            volumes: self.volumes.deep_view(),
            image_pull_secrets: self.image_pull_secrets.deep_view(),
            node_selector: self.node_selector.deep_view(),
            affinity: self.affinity.deep_view(),
            tolerations: self.tolerations.deep_view(),
            security_context: self.security_context.deep_view(),
        }
    }
}

impl Content for PodSpec {
    fn dup(&self) -> (r: Self) {
        PodSpec {
            containers: self.containers.dup(),
            init_containers: self.init_containers.dup(),
            volumes: self.volumes.dup(),
            image_pull_secrets: self.image_pull_secrets.dup(),
            node_selector: self.node_selector.dup(),
            affinity: self.affinity.dup(),
            tolerations: self.tolerations.dup(),
            security_context: self.security_context.dup(),
        }
    }

    fn same(&self, other: &Self) -> (r: bool) {
        self.containers.same(&other.containers)
            && self.init_containers.same(&other.init_containers)
            && self.volumes.same(&other.volumes)
            && self.image_pull_secrets.same(&other.image_pull_secrets)
            && self.node_selector.same(&other.node_selector)
            && self.affinity.same(&other.affinity)
            && self.tolerations.same(&other.tolerations)
            && self.security_context.same(&other.security_context)
    }
}

/// The template from which a Deployment creates its pods.
#[derive(Debug, Clone)]
pub struct PodTemplateSpec {
    pub metadata: Option<ObjectMeta>,
    pub spec: Option<PodSpec>,
}

/// The content of a [`PodTemplateSpec`].
pub struct PodTemplateSpecView {
    pub metadata: Option<ObjectMetaView>,
    pub spec: Option<PodSpecView>,
}

impl DeepView for PodTemplateSpec {
    type V = PodTemplateSpecView;

    open spec fn deep_view(&self) -> PodTemplateSpecView {
        PodTemplateSpecView {
            metadata: self.metadata.deep_view(),
            spec: self.spec.deep_view(),
        }
    }
}

impl Content for PodTemplateSpec {
    fn dup(&self) -> (r: Self) {
        PodTemplateSpec {
            metadata: self.metadata.dup(),
            spec: self.spec.dup(),
        }
    }

    fn same(&self, other: &Self) -> (r: bool) {
        self.metadata.same(&other.metadata)
            && self.spec.same(&other.spec)
    }
}

/// The desired state of a Deployment.
#[derive(Debug, Clone)]
pub struct DeploymentSpec {
    pub replicas: Option<i32>,
    /// The labels that the selector matches.
    pub selector: Option<StringMap>,
    pub template: PodTemplateSpec,
}

/// The content of a [`DeploymentSpec`].
pub struct DeploymentSpecView {
    pub replicas: Option<i32>,
    pub selector: Option<Labels>,
    pub template: PodTemplateSpecView,
}

impl DeepView for DeploymentSpec {
    type V = DeploymentSpecView;

    open spec fn deep_view(&self) -> DeploymentSpecView {
        DeploymentSpecView {
            replicas: self.replicas.deep_view(),
            selector: self.selector.deep_view(),
            template: self.template.deep_view(),
        }
    }
}

impl Content for DeploymentSpec {
    fn dup(&self) -> (r: Self) {
        DeploymentSpec {
            replicas: self.replicas.dup(),
            selector: self.selector.dup(),
            template: self.template.dup(),
        }
    }

    fn same(&self, other: &Self) -> (r: bool) {
        self.replicas.same(&other.replicas)
            && self.selector.same(&other.selector)
            && self.template.same(&other.template)
    }
}

/// One observed condition of a Deployment.
#[derive(Debug, Clone)]
pub struct DeploymentCondition {
    pub type_: String,
    pub status: String,
}

/// The content of a [`DeploymentCondition`].
pub struct DeploymentConditionView {
    pub type_: Seq<char>,
    pub status: Seq<char>,
}

impl DeepView for DeploymentCondition {
    type V = DeploymentConditionView;

    open spec fn deep_view(&self) -> DeploymentConditionView {
        DeploymentConditionView {
            type_: self.type_.deep_view(),
            status: self.status.deep_view(),
        }
    }
}

impl Content for DeploymentCondition {
    fn dup(&self) -> (r: Self) {
        DeploymentCondition {
            type_: self.type_.dup(),
            status: self.status.dup(),
        }
    }

    fn same(&self, other: &Self) -> (r: bool) {
        self.type_.same(&other.type_)
            && self.status.same(&other.status)
    }
}

/// The observed state of a Deployment.
#[derive(Debug, Clone)]
pub struct DeploymentStatus {
    pub conditions: Option<Vec<DeploymentCondition>>,
}

/// The content of a [`DeploymentStatus`].
pub struct DeploymentStatusView {
    pub conditions: Option<Seq<DeploymentConditionView>>,
}

impl DeepView for DeploymentStatus {
    type V = DeploymentStatusView;

    open spec fn deep_view(&self) -> DeploymentStatusView {
        DeploymentStatusView {
            conditions: self.conditions.deep_view(),
        }
    }
}

impl Content for DeploymentStatus {
    fn dup(&self) -> (r: Self) {
        DeploymentStatus {
            conditions: self.conditions.dup(),
        }
    }

    fn same(&self, other: &Self) -> (r: bool) {
        self.conditions.same(&other.conditions)
    }
}

/// A Deployment.
#[derive(Debug, Clone)]
pub struct Deployment {
    pub metadata: ObjectMeta,
    pub spec: Option<DeploymentSpec>,
    pub status: Option<DeploymentStatus>,
}

/// The content of a [`Deployment`].
pub struct DeploymentView {
    pub metadata: ObjectMetaView,
    pub spec: Option<DeploymentSpecView>,
    pub status: Option<DeploymentStatusView>,
}

impl DeepView for Deployment {
    type V = DeploymentView;

    open spec fn deep_view(&self) -> DeploymentView {
        DeploymentView {
            metadata: self.metadata.deep_view(),
            spec: self.spec.deep_view(),
            status: self.status.deep_view(),
        }
    }
}

impl Content for Deployment {
    fn dup(&self) -> (r: Self) {
        Deployment {
            metadata: self.metadata.dup(),
            spec: self.spec.dup(),
            status: self.status.dup(),
        }
    }

    fn same(&self, other: &Self) -> (r: bool) {
        self.metadata.same(&other.metadata)
            && self.spec.same(&other.spec)
            && self.status.same(&other.status)
    }
}

/// A port given by number or by name.
#[derive(Debug, Clone)]
pub enum IntOrString {
    Int(i32),
    String(String),
}

/// The content of a [`IntOrString`].
pub enum IntOrStringView {
    Int(i32),
    String(Seq<char>),
}

impl DeepView for IntOrString {
    type V = IntOrStringView;

    open spec fn deep_view(&self) -> IntOrStringView {
        match self {
            IntOrString::Int(x) => IntOrStringView::Int(x.deep_view()),
            IntOrString::String(x) => IntOrStringView::String(x.deep_view()),
        }
    }
}

impl Content for IntOrString {
    fn dup(&self) -> (r: Self) {
        match self {
            IntOrString::Int(x) => IntOrString::Int(x.dup()),
            IntOrString::String(x) => IntOrString::String(x.dup()),
        }
    }

    fn same(&self, other: &Self) -> (r: bool) {
        match (self, other) {
            (IntOrString::Int(a), IntOrString::Int(b)) => a.same(b),
            (IntOrString::String(a), IntOrString::String(b)) => a.same(b),
            _ => false,
        }
    }
}

/// A port of a Service.
#[derive(Debug, Clone)]
pub struct ServicePort {
    pub name: Option<String>,
    pub port: i32,
    pub target_port: Option<IntOrString>,
    pub protocol: Option<String>,
}

/// The content of a [`ServicePort`].
pub struct ServicePortView {
    pub name: Option<Seq<char>>,
    pub port: i32,
    pub target_port: Option<IntOrStringView>,
    pub protocol: Option<Seq<char>>,
}

impl DeepView for ServicePort {
    type V = ServicePortView;

    open spec fn deep_view(&self) -> ServicePortView {
        ServicePortView {
            name: self.name.deep_view(),
            port: self.port.deep_view(),
            target_port: self.target_port.deep_view(),
            protocol: self.protocol.deep_view(),
        }
    }
}

impl Content for ServicePort {
    fn dup(&self) -> (r: Self) {
        ServicePort {
            name: self.name.dup(),
            port: self.port.dup(),
            target_port: self.target_port.dup(),
            protocol: self.protocol.dup(),
        }
    }

    fn same(&self, other: &Self) -> (r: bool) {
        self.name.same(&other.name)
            && self.port.same(&other.port)
            && self.target_port.same(&other.target_port)
            && self.protocol.same(&other.protocol)
    }
}

/// The desired state of a Service.
#[derive(Debug, Clone)]
pub struct ServiceSpec {
    pub type_: Option<String>,
    pub selector: Option<StringMap>,
    pub ports: Option<Vec<ServicePort>>,
}

/// The content of a [`ServiceSpec`].
pub struct ServiceSpecView {
    pub type_: Option<Seq<char>>,
    pub selector: Option<Labels>,
    pub ports: Option<Seq<ServicePortView>>,
}

impl DeepView for ServiceSpec {
    type V = ServiceSpecView;

    open spec fn deep_view(&self) -> ServiceSpecView {
        ServiceSpecView {
            type_: self.type_.deep_view(),
            selector: self.selector.deep_view(),
            ports: self.ports.deep_view(),
        }
    }
}

impl Content for ServiceSpec {
    fn dup(&self) -> (r: Self) {
        ServiceSpec {
            type_: self.type_.dup(),
            selector: self.selector.dup(),
            ports: self.ports.dup(),
        }
    }

    fn same(&self, other: &Self) -> (r: bool) {
        self.type_.same(&other.type_)
            && self.selector.same(&other.selector)
            && self.ports.same(&other.ports)
    }
}

/// A Service.
#[derive(Debug, Clone)]
pub struct Service {
    pub metadata: ObjectMeta,
    pub spec: Option<ServiceSpec>,
}

/// The content of a [`Service`].
pub struct ServiceView {
    pub metadata: ObjectMetaView,
    pub spec: Option<ServiceSpecView>,
}

impl DeepView for Service {
    type V = ServiceView;

    open spec fn deep_view(&self) -> ServiceView {
        ServiceView {
            metadata: self.metadata.deep_view(),
            spec: self.spec.deep_view(),
        }
    }
}

impl Content for Service {
    fn dup(&self) -> (r: Self) {
        Service {
            metadata: self.metadata.dup(),
            spec: self.spec.dup(),
        }
    }

    fn same(&self, other: &Self) -> (r: bool) {
        self.metadata.same(&other.metadata)
            && self.spec.same(&other.spec)
    }
}
} // verus!

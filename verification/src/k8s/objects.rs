//! Plain-data views of the Kubernetes API objects that the listing and
//! detail logic reads. Each field mirrors the field of the API object it is
//! taken from, with the same optionality.
use vstd::prelude::*;
use crate::k8s::age::Instant;
use crate::model::detail::KeyValue;

verus! {

#[derive(Debug, Clone)]
pub struct OwnerReference {
    pub kind: String,
    pub name: String,
}

/// Object metadata.
#[derive(Debug, Clone)]
pub struct ObjectMeta {
    pub name: Option<String>,
    pub generate_name: Option<String>,
    pub namespace: Option<String>,
    pub creation_timestamp: Option<Instant>,
    /// Labels, in ascending key order as the map keeps them (see
    /// `keys_ascending`).
    pub labels: Option<Vec<KeyValue>>,
    /// Annotations, in ascending key order as the map keeps them.
    pub annotations: Option<Vec<KeyValue>>,
    pub owner_references: Option<Vec<OwnerReference>>,
}

/// A status condition (of a pod, deployment, job or node).
#[derive(Debug, Clone)]
pub struct ObjectCondition {
    pub type_: String,
    pub status: String,
    pub reason: Option<String>,
    pub message: Option<String>,
    pub last_transition_time: Option<Instant>,
}

#[derive(Debug, Clone)]
pub struct ContainerPort {
    pub container_port: i32,
    pub protocol: Option<String>,
    pub name: Option<String>,
}

/// A container of a pod spec or pod template.
#[derive(Debug, Clone)]
pub struct Container {
    pub name: String,
    pub image: Option<String>,
    pub ports: Option<Vec<ContainerPort>>,
}

#[derive(Debug, Clone)]
pub struct PodSpec {
    pub node_name: Option<String>,
    pub containers: Vec<Container>,
}

#[derive(Debug, Clone)]
pub struct StateWaiting {
    pub reason: Option<String>,
}

#[derive(Debug, Clone)]
pub struct StateTerminated {
    pub reason: Option<String>,
    pub exit_code: i32,
    pub finished_at: Option<Instant>,
}

/// A container state; `running` records whether the running variant is set.
#[derive(Debug, Clone)]
pub struct ContainerState {
    pub running: bool,
    pub waiting: Option<StateWaiting>,
    pub terminated: Option<StateTerminated>,
}

#[derive(Debug, Clone)]
pub struct ContainerStatus {
    pub name: String,
    pub image: String,
    pub ready: bool,
    pub restart_count: i32,
    pub state: Option<ContainerState>,
    pub last_state: Option<ContainerState>,
}

#[derive(Debug, Clone)]
pub struct PodStatus {
    pub phase: Option<String>,
    pub conditions: Option<Vec<ObjectCondition>>,
    pub container_statuses: Option<Vec<ContainerStatus>>,
    pub pod_ip: Option<String>,
}

#[derive(Debug, Clone)]
pub struct Pod {
    pub metadata: ObjectMeta,
    pub spec: Option<PodSpec>,
    pub status: Option<PodStatus>,
}

/// The part of a workload spec the logic reads: the selector's match labels
/// (in ascending key order, as `keys_ascending` states) and the pod
/// template's spec.
#[derive(Debug, Clone)]
pub struct WorkloadSpec {
    pub match_labels: Option<Vec<KeyValue>>,
    pub template_spec: Option<PodSpec>,
}

#[derive(Debug, Clone)]
pub struct DeploymentStatus {
    pub replicas: Option<i32>,
    pub ready_replicas: Option<i32>,
    pub updated_replicas: Option<i32>,
    pub available_replicas: Option<i32>,
    pub conditions: Option<Vec<ObjectCondition>>,
}

#[derive(Debug, Clone)]
pub struct Deployment {
    pub metadata: ObjectMeta,
    pub spec: Option<WorkloadSpec>,
    pub status: Option<DeploymentStatus>,
}

#[derive(Debug, Clone)]
pub struct StatefulSetStatus {
    pub replicas: i32,
    pub ready_replicas: Option<i32>,
}

#[derive(Debug, Clone)]
pub struct StatefulSet {
    pub metadata: ObjectMeta,
    pub spec: Option<WorkloadSpec>,
    pub status: Option<StatefulSetStatus>,
}

#[derive(Debug, Clone)]
pub struct DaemonSetStatus {
    pub desired_number_scheduled: i32,
    pub current_number_scheduled: i32,
    pub number_ready: i32,
}

#[derive(Debug, Clone)]
pub struct DaemonSet {
    pub metadata: ObjectMeta,
    pub spec: Option<WorkloadSpec>,
    pub status: Option<DaemonSetStatus>,
}

#[derive(Debug, Clone)]
pub struct ReplicaSetStatus {
    pub replicas: i32,
    pub fully_labeled_replicas: Option<i32>,
    pub ready_replicas: Option<i32>,
}

#[derive(Debug, Clone)]
pub struct ReplicaSet {
    pub metadata: ObjectMeta,
    pub spec: Option<WorkloadSpec>,
    pub status: Option<ReplicaSetStatus>,
}

/// A service port's target: a number or a named port.
#[derive(Debug, Clone)]
pub enum IntOrString {
    Int(i32),
    String(String),
}

#[derive(Debug, Clone)]
pub struct ServicePort {
    pub port: i32,
    pub protocol: Option<String>,
    pub target_port: Option<IntOrString>,
}

#[derive(Debug, Clone)]
pub struct ServiceSpec {
    pub type_: Option<String>,
    pub cluster_ip: Option<String>,
    pub ports: Option<Vec<ServicePort>>,
}

#[derive(Debug, Clone)]
pub struct Service {
    pub metadata: ObjectMeta,
    pub spec: Option<ServiceSpec>,
}

#[derive(Debug, Clone)]
pub struct NodeStatus {
    pub conditions: Option<Vec<ObjectCondition>>,
    /// The kubelet version from the node info, when there is node info.
    pub kubelet_version: Option<String>,
}

#[derive(Debug, Clone)]
pub struct Node {
    pub metadata: ObjectMeta,
    pub status: Option<NodeStatus>,
}

/// A status that carries only a phase.
#[derive(Debug, Clone)]
pub struct PhaseStatus {
    pub phase: Option<String>,
}

#[derive(Debug, Clone)]
pub struct Namespace {
    pub metadata: ObjectMeta,
    pub status: Option<PhaseStatus>,
}

/// A config map; `data_len` is the number of entries of `data`, when set.
#[derive(Debug, Clone)]
pub struct ConfigMap {
    pub metadata: ObjectMeta,
    pub data_len: Option<usize>,
}

/// A secret; `data_len` is the number of entries of `data`, when set.
#[derive(Debug, Clone)]
pub struct Secret {
    pub metadata: ObjectMeta,
    pub type_: Option<String>,
    pub data_len: Option<usize>,
}

/// A service account; `secrets_len` is the number of its secrets, when set.
#[derive(Debug, Clone)]
pub struct ServiceAccount {
    pub metadata: ObjectMeta,
    pub secrets_len: Option<usize>,
}

#[derive(Debug, Clone)]
pub struct EventSource {
    pub component: Option<String>,
}

#[derive(Debug, Clone)]
pub struct Event {
    pub metadata: ObjectMeta,
    pub type_: Option<String>,
    pub reason: Option<String>,
    pub message: Option<String>,
    pub involved_object_name: Option<String>,
    pub source: Option<EventSource>,
}

#[derive(Debug, Clone)]
pub struct JobStatus {
    pub succeeded: Option<i32>,
    pub conditions: Option<Vec<ObjectCondition>>,
}

#[derive(Debug, Clone)]
pub struct Job {
    pub metadata: ObjectMeta,
    /// `spec.completions`, when there is a spec.
    pub spec_completions: Option<Option<i32>>,
    pub status: Option<JobStatus>,
}

#[derive(Debug, Clone)]
pub struct CronJobSpec {
    pub schedule: String,
    pub suspend: Option<bool>,
}

#[derive(Debug, Clone)]
pub struct CronJob {
    pub metadata: ObjectMeta,
    pub spec: Option<CronJobSpec>,
    /// The number of active jobs, when the status lists them.
    pub active_len: Option<usize>,
}

#[derive(Debug, Clone)]
pub struct ClaimRef {
    pub namespace: Option<String>,
    pub name: Option<String>,
}

#[derive(Debug, Clone)]
pub struct PersistentVolumeSpec {
    /// Capacity quantities by resource name, in key order.
    pub capacity: Option<Vec<KeyValue>>,
    pub claim_ref: Option<ClaimRef>,
}

#[derive(Debug, Clone)]
pub struct PersistentVolume {
    pub metadata: ObjectMeta,
    pub spec: Option<PersistentVolumeSpec>,
    pub status: Option<PhaseStatus>,
}

#[derive(Debug, Clone)]
pub struct PersistentVolumeClaimStatus {
    pub phase: Option<String>,
    /// Capacity quantities by resource name, in key order.
    pub capacity: Option<Vec<KeyValue>>,
}

#[derive(Debug, Clone)]
pub struct PersistentVolumeClaim {
    pub metadata: ObjectMeta,
    /// `spec.volumeName`, when there is a spec.
    pub spec_volume_name: Option<Option<String>>,
    pub status: Option<PersistentVolumeClaimStatus>,
}

#[derive(Debug, Clone)]
pub struct IngressRule {
    pub host: Option<String>,
}

#[derive(Debug, Clone)]
pub struct IngressSpec {
    pub ingress_class_name: Option<String>,
    pub rules: Option<Vec<IngressRule>>,
}

#[derive(Debug, Clone)]
pub struct Ingress {
    pub metadata: ObjectMeta,
    pub spec: Option<IngressSpec>,
}

} // verus!

//! The cluster client: what it computes from what a fetch brought back.
//! The fetches themselves run outside the library; each operation here takes
//! their results as plain values.
use vstd::prelude::*;
use crate::k8s::age::{rfc3339, rfc3339_text, Instant};
use crate::k8s::common::{name_any, object_name};
use crate::k8s::detail::{
    cronjob_detail, cronjob_detail_view, daemonset_detail, daemonset_detail_view, deployment_detail,
    deployment_detail_view, event_entries, event_entry_view, generic_detail, generic_detail_view,
    job_detail, job_detail_view, namespace_detail, node_detail, node_detail_view, phase_detail_view,
    pod_detail, pod_detail_view, pod_info_view, pv_detail, replicaset_detail, replicaset_detail_view,
    service_detail, service_detail_view, statefulset_detail, statefulset_detail_view, typed_detail,
    typed_detail_view, workload_pods,
};
use crate::k8s::listing::{listing_kind, listing_ok, listing_table, listing_table_is, pod_ok, pods_in_range, Listing};
use crate::k8s::objects::{
    CronJob, DaemonSet, Deployment, Event, Job, Namespace, Node, ObjectMeta, PersistentVolume, Pod,
    ReplicaSet, Service, StatefulSet,
};
use crate::k8s::ops::{detail_kind_of, kind_of, resource_kind, unknown_resource_message, DetailKind, restart_action, restart_action_of, restart_done_message, restart_message, RestartAction};
use crate::model::detail::{seq_views, EventEntryView, PodInfoView, ResourceDetail, ResourceDetailView};
use crate::model::table::TableData;

verus! {

/// The Kubernetes client of the application.
pub struct K8sClient;

/// Whether a fetched listing holds the resource type a name asks for.
pub open spec fn listing_matches(resource: Seq<char>, l: Listing) -> bool {
    kind_of(resource) matches Some(k) ==> listing_kind(l) == k
}

/// Whether a fetched listing holds the resource type a name asks for.
pub fn listing_in_line(resource: &str, listing: &Listing) -> (r: bool)
    ensures
        r == listing_matches(resource@, *listing),
{
    match resource_kind(resource) {
        Ok(k) => listing.kind() == k,
        Err(_) => true,
    }
}

impl K8sClient {
    /// The table of a resource type, from its fetched listing, its ages
    /// taken at `now`; an unknown type is an error (and then nothing was
    /// fetched).
    pub fn list_resources(resource: &str, listing: &Listing, now: Instant) -> (r: Result<TableData, String>)
        requires
            listing_matches(resource@, *listing),
            listing_ok(*listing),
        ensures
            match r {
                Ok(t) => kind_of(resource@) is Some && listing_table_is(t, *listing, now),
                Err(m) => kind_of(resource@) is None && m@ == unknown_resource_message(resource@),
            },
    {
        match resource_kind(resource) {
            Ok(_) => Ok(listing_table(listing, now)),
            Err(m) => Err(m),
        }
    }
}

impl K8sClient {
    /// The names of the fetched namespaces, in listing order.
    pub fn list_namespace_names(items: &Vec<Namespace>) -> (names: Vec<String>)
        ensures
            names@.len() == items@.len(),
            forall|i: int| 0 <= i < items@.len() ==> (#[trigger] names@[i])@ == name_any(items@[i].metadata),
    {
        let mut names: Vec<String> = Vec::new();
        for i in 0..items.len()
            invariant
                names@.len() == i,
                forall|j: int| 0 <= j < i ==> (#[trigger] names@[j])@ == name_any(items@[j].metadata),
        {
            names.push(object_name(&items[i].metadata));
        }
        names
    }
}

// ── Details ────────────────────────────────────────────────────────────

/// The object fetched for a detail view, with the pods of a workload where
/// the detail lists them.
#[derive(Debug, Clone)]
pub enum FetchedObject {
    Pod(Pod),
    Deployment(Deployment, Vec<Pod>),
    Service(Service),
    StatefulSet(StatefulSet, Vec<Pod>),
    DaemonSet(DaemonSet, Vec<Pod>),
    ReplicaSet(ReplicaSet, Vec<Pod>),
    Job(Job, Vec<Pod>),
    CronJob(CronJob),
    Node(Node),
    /// A config map, secret, service account, ingress, claim or event:
    /// only its metadata shows.
    Typed(ObjectMeta),
    PersistentVolume(PersistentVolume),
    Namespace(Namespace),
    /// A resource type without a handler: nothing was fetched.
    Other,
}

/// The pod rows of a workload's detail.
pub open spec fn pod_rows(pods: Seq<Pod>, now: Instant) -> Seq<PodInfoView> {
    pods.map_values(|p: Pod| pod_info_view(p, now))
}

/// The event rows of a detail.
pub open spec fn event_rows(events: Seq<Event>, now: Instant) -> Seq<EventEntryView> {
    events.map_values(|e: Event| event_entry_view(e, now))
}

/// Whether every pod of a workload sums its restarts within range.
pub open spec fn pods_ok(pods: Seq<Pod>) -> bool {
    forall|i: int| 0 <= i < pods.len() ==> pod_ok(#[trigger] pods[i])
}

/// Whether the pods a fetched object carries are all in range.
pub open spec fn fetched_ok(f: FetchedObject) -> bool {
    match f {
        FetchedObject::Deployment(_, pods) => pods_ok(pods@),
        FetchedObject::StatefulSet(_, pods) => pods_ok(pods@),
        FetchedObject::DaemonSet(_, pods) => pods_ok(pods@),
        FetchedObject::ReplicaSet(_, pods) => pods_ok(pods@),
        FetchedObject::Job(_, pods) => pods_ok(pods@),
        _ => true,
    }
}

/// The detail of a fetched object seen at `now`:
/// each kind by its own handler, persistent volumes and namespaces without
/// events, other types by name alone.
pub open spec fn fetched_detail_view(
    f: FetchedObject,
    resource_type: Seq<char>,
    name: Seq<char>,
    namespace: Seq<char>,
    yaml: Seq<char>,
    events: Seq<Event>,
    now: Instant,
) -> ResourceDetailView {
    let ev = event_rows(events, now);
    match f {
        FetchedObject::Pod(p) => pod_detail_view(p, yaml, ev, now),
        FetchedObject::Deployment(d, pods) => deployment_detail_view(d, yaml, pod_rows(pods@, now), ev, now),
        FetchedObject::Service(s) => service_detail_view(s, yaml, ev, now),
        FetchedObject::StatefulSet(s, pods) => statefulset_detail_view(s, yaml, pod_rows(pods@, now), ev, now),
        FetchedObject::DaemonSet(d, pods) => daemonset_detail_view(d, yaml, pod_rows(pods@, now), ev, now),
        FetchedObject::ReplicaSet(r, pods) => replicaset_detail_view(r, yaml, pod_rows(pods@, now), ev, now),
        FetchedObject::Job(j, pods) => job_detail_view(j, yaml, pod_rows(pods@, now), ev, now),
        FetchedObject::CronJob(c) => cronjob_detail_view(c, yaml, ev, now),
        FetchedObject::Node(n) => node_detail_view(n, yaml, ev, now),
        FetchedObject::Typed(meta) => typed_detail_view(meta, resource_type, yaml, ev, now),
        FetchedObject::PersistentVolume(pv) => phase_detail_view(pv.metadata, "persistentvolumes"@, pv.status, yaml, now),
        FetchedObject::Namespace(ns) => phase_detail_view(ns.metadata, "namespaces"@, ns.status, yaml, now),
        FetchedObject::Other => generic_detail_view(resource_type, name, namespace, ev),
    }
}

/// Whether the pods a fetched object carries all have their restarts add
/// up within range.
pub fn fetched_in_range(f: &FetchedObject) -> (r: bool)
    ensures
        r == fetched_ok(*f),
{
    match f {
        FetchedObject::Deployment(_, pods) => pods_in_range(pods),
        FetchedObject::StatefulSet(_, pods) => pods_in_range(pods),
        FetchedObject::DaemonSet(_, pods) => pods_in_range(pods),
        FetchedObject::ReplicaSet(_, pods) => pods_in_range(pods),
        FetchedObject::Job(_, pods) => pods_in_range(pods),
        _ => true,
    }
}

fn pod_infos(pods: &Vec<Pod>, now: Instant) -> (r: Vec<crate::model::detail::PodInfo>)
    requires
        pods_ok(pods@),
    ensures
        seq_views(r@) == pod_rows(pods@, now),
{
    let r = workload_pods(pods, now);
    assert(seq_views(r@) =~= pod_rows(pods@, now));
    r
}

fn event_infos(events: &Vec<Event>, now: Instant) -> (r: Vec<crate::model::detail::EventEntry>)
    ensures
        seq_views(r@) == event_rows(events@, now),
{
    let r = event_entries(events, now);
    assert(seq_views(r@) =~= event_rows(events@, now));
    r
}

/// Whether a fetched object is of the kind a resource type asks for.
pub open spec fn fetched_matches(f: FetchedObject, resource_type: Seq<char>) -> bool {
    let k = detail_kind_of(resource_type);
    match f {
        FetchedObject::Pod(_) => k == DetailKind::Pod,
        FetchedObject::Deployment(_, _) => k == DetailKind::Deployment,
        FetchedObject::Service(_) => k == DetailKind::Service,
        FetchedObject::StatefulSet(_, _) => k == DetailKind::StatefulSet,
        FetchedObject::DaemonSet(_, _) => k == DetailKind::DaemonSet,
        FetchedObject::ReplicaSet(_, _) => k == DetailKind::ReplicaSet,
        FetchedObject::Job(_, _) => k == DetailKind::Job,
        FetchedObject::CronJob(_) => k == DetailKind::CronJob,
        FetchedObject::Node(_) => k == DetailKind::Node,
        FetchedObject::Typed(_) => k == DetailKind::ConfigMap || k == DetailKind::Secret
            || k == DetailKind::ServiceAccount || k == DetailKind::Ingress
            || k == DetailKind::PersistentVolumeClaim || k == DetailKind::Event,
        FetchedObject::PersistentVolume(_) => k == DetailKind::PersistentVolume,
        FetchedObject::Namespace(_) => k == DetailKind::Namespace,
        FetchedObject::Other => k == DetailKind::Other,
    }
}

/// Whether a fetched object is of the kind a resource type asks for.
pub fn fetched_in_line(f: &FetchedObject, resource_type: &str) -> (r: bool)
    ensures
        r == fetched_matches(*f, resource_type@),
{
    let k = crate::k8s::ops::detail_kind(resource_type);
    match f {
        FetchedObject::Pod(_) => k == DetailKind::Pod,
        FetchedObject::Deployment(_, _) => k == DetailKind::Deployment,
        FetchedObject::Service(_) => k == DetailKind::Service,
        FetchedObject::StatefulSet(_, _) => k == DetailKind::StatefulSet,
        FetchedObject::DaemonSet(_, _) => k == DetailKind::DaemonSet,
        FetchedObject::ReplicaSet(_, _) => k == DetailKind::ReplicaSet,
        FetchedObject::Job(_, _) => k == DetailKind::Job,
        FetchedObject::CronJob(_) => k == DetailKind::CronJob,
        FetchedObject::Node(_) => k == DetailKind::Node,
        FetchedObject::Typed(_) => k == DetailKind::ConfigMap || k == DetailKind::Secret
            || k == DetailKind::ServiceAccount || k == DetailKind::Ingress
            || k == DetailKind::PersistentVolumeClaim || k == DetailKind::Event,
        FetchedObject::PersistentVolume(_) => k == DetailKind::PersistentVolume,
        FetchedObject::Namespace(_) => k == DetailKind::Namespace,
        FetchedObject::Other => k == DetailKind::Other,
    }
}

impl K8sClient {
    /// The detail of a resource from the object fetched for it, its ages taken
    /// at `now`. The object is of the kind the type asks for, so the detail
    /// names that type.
    pub fn get_resource_detail(
        f: &FetchedObject,
        resource_type: &str,
        name: &str,
        namespace: &str,
        yaml: String,
        events: &Vec<Event>,
        now: Instant,
    ) -> (r: ResourceDetail)
        requires
            fetched_ok(*f),
            fetched_matches(*f, resource_type@),
        ensures
            r@ == fetched_detail_view(*f, resource_type@, name@, namespace@, yaml@, events@, now),
            r@.resource_type == resource_type@,
    {
        let ev = event_infos(events, now);
        match f {
            FetchedObject::Pod(p) => pod_detail(p, yaml, ev, now),
            FetchedObject::Deployment(d, pods) => deployment_detail(d, yaml, pod_infos(pods, now), ev, now),
            FetchedObject::Service(s) => service_detail(s, yaml, ev, now),
            FetchedObject::StatefulSet(s, pods) => statefulset_detail(s, yaml, pod_infos(pods, now), ev, now),
            FetchedObject::DaemonSet(d, pods) => daemonset_detail(d, yaml, pod_infos(pods, now), ev, now),
            FetchedObject::ReplicaSet(rs, pods) => replicaset_detail(rs, yaml, pod_infos(pods, now), ev, now),
            FetchedObject::Job(j, pods) => job_detail(j, yaml, pod_infos(pods, now), ev, now),
            FetchedObject::CronJob(c) => cronjob_detail(c, yaml, ev, now),
            FetchedObject::Node(n) => node_detail(n, yaml, ev, now),
            FetchedObject::Typed(meta) => typed_detail(meta, resource_type, yaml, ev, now),
            FetchedObject::PersistentVolume(pv) => pv_detail(pv, yaml, now),
            FetchedObject::Namespace(ns) => namespace_detail(ns, yaml, now),
            FetchedObject::Other => generic_detail(resource_type, name, namespace, ev),
        }
    }
}

// ── Restarts ───────────────────────────────────────────────────────────

/// A restart to perform: what to do, the time to stamp on the pod template
/// of a workload, and the message to show once it is done.
#[derive(Debug, Clone)]
pub struct RestartPlan {
    pub action: RestartAction,
    pub restarted_at: String,
    pub message: String,
}

impl K8sClient {
    /// The restart of a resource stamped at `at`, before the delete or patch
    /// is sent; or the message that its type cannot be restarted.
    pub fn restart_resource(resource_type: &str, name: &str, at: Instant) -> (r: Result<RestartPlan, String>)
        ensures
            match r {
                Ok(p) => {
                    &&& restart_action_of(resource_type@) == Some(p.action)
                    &&& p.restarted_at@ == rfc3339_text(at.seconds(), at.subsec_nanos())
                    &&& p.message@ == restart_message(p.action, name@)
                },
                Err(m) => restart_action_of(resource_type@) is None
                    && m@ == crate::k8s::ops::restart_unsupported_message(resource_type@),
            },
    {
        match restart_action(resource_type) {
            Ok(action) => {
                let restarted_at = rfc3339(at);
                let message = restart_done_message(action, name);
                Ok(RestartPlan { action, restarted_at, message })
            },
            Err(m) => Err(m),
        }
    }
}

} // verus!

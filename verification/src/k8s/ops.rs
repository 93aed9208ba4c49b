//! Decisions around the cluster operations: which listing or detail a
//! resource type asks for, label selectors, log gathering, restarts,
//! applying YAML and port forwarding.
use vstd::prelude::*;
use crate::k8s::age::div_trunc;
use crate::k8s::client::K8sClient;
use crate::sorting::keys_ascending;
use crate::k8s::objects::{ContainerPort, PodSpec, WorkloadSpec};
use crate::model::detail::KeyValue;
use crate::model::port_forward::PodPort;
use crate::text::{
    join, join_seq, lemma_views_push, lines, lines_of, push_char, push_str, str_eq, to_owned_string, trim, trimmed,
    u64_to_string, decimal_nat, views,
};

verus! {

// ── Resource types ─────────────────────────────────────────────────────

/// The resource types that have a listing.
#[derive(Debug, Clone, Copy, PartialEq, Eq, Structural)]
pub enum ResourceKind {
    Pods,
    Deployments,
    Services,
    Nodes,
    Namespaces,
    DaemonSets,
    StatefulSets,
    ReplicaSets,
    ConfigMaps,
    Secrets,
    ServiceAccounts,
    Events,
    Jobs,
    CronJobs,
    PersistentVolumes,
    PersistentVolumeClaims,
    Ingresses,
}

/// The resource type an API name denotes, if any.
pub open spec fn kind_of(api_name: Seq<char>) -> Option<ResourceKind> {
    if api_name == "pods"@ { Some(ResourceKind::Pods) }
    else if api_name == "deployments"@ { Some(ResourceKind::Deployments) }
    else if api_name == "services"@ { Some(ResourceKind::Services) }
    else if api_name == "nodes"@ { Some(ResourceKind::Nodes) }
    else if api_name == "namespaces"@ { Some(ResourceKind::Namespaces) }
    else if api_name == "daemonsets"@ { Some(ResourceKind::DaemonSets) }
    else if api_name == "statefulsets"@ { Some(ResourceKind::StatefulSets) }
    else if api_name == "replicasets"@ { Some(ResourceKind::ReplicaSets) }
    else if api_name == "configmaps"@ { Some(ResourceKind::ConfigMaps) }
    else if api_name == "secrets"@ { Some(ResourceKind::Secrets) }
    else if api_name == "serviceaccounts"@ { Some(ResourceKind::ServiceAccounts) }
    else if api_name == "events"@ { Some(ResourceKind::Events) }
    else if api_name == "jobs"@ { Some(ResourceKind::Jobs) }
    else if api_name == "cronjobs"@ { Some(ResourceKind::CronJobs) }
    else if api_name == "persistentvolumes"@ { Some(ResourceKind::PersistentVolumes) }
    else if api_name == "persistentvolumeclaims"@ { Some(ResourceKind::PersistentVolumeClaims) }
    else if api_name == "ingresses"@ { Some(ResourceKind::Ingresses) }
    else { None }
}

/// The message for a resource type without a listing.
pub open spec fn unknown_resource_message(api_name: Seq<char>) -> Seq<char> {
    "Unknown resource type: "@ + api_name
}

/// Which listing a resource type asks for; an unknown
/// type is an error.
pub fn resource_kind(api_name: &str) -> (r: Result<ResourceKind, String>)
    ensures
        match r {
            Ok(k) => kind_of(api_name@) == Some(k),
            Err(msg) => kind_of(api_name@) is None && msg@ == unknown_resource_message(api_name@),
        },
{
    if str_eq(api_name, "pods") { Ok(ResourceKind::Pods) }
    else if str_eq(api_name, "deployments") { Ok(ResourceKind::Deployments) }
    else if str_eq(api_name, "services") { Ok(ResourceKind::Services) }
    else if str_eq(api_name, "nodes") { Ok(ResourceKind::Nodes) }
    else if str_eq(api_name, "namespaces") { Ok(ResourceKind::Namespaces) }
    else if str_eq(api_name, "daemonsets") { Ok(ResourceKind::DaemonSets) }
    else if str_eq(api_name, "statefulsets") { Ok(ResourceKind::StatefulSets) }
    else if str_eq(api_name, "replicasets") { Ok(ResourceKind::ReplicaSets) }
    else if str_eq(api_name, "configmaps") { Ok(ResourceKind::ConfigMaps) }
    else if str_eq(api_name, "secrets") { Ok(ResourceKind::Secrets) }
    else if str_eq(api_name, "serviceaccounts") { Ok(ResourceKind::ServiceAccounts) }
    else if str_eq(api_name, "events") { Ok(ResourceKind::Events) }
    else if str_eq(api_name, "jobs") { Ok(ResourceKind::Jobs) }
    else if str_eq(api_name, "cronjobs") { Ok(ResourceKind::CronJobs) }
    else if str_eq(api_name, "persistentvolumes") { Ok(ResourceKind::PersistentVolumes) }
    else if str_eq(api_name, "persistentvolumeclaims") { Ok(ResourceKind::PersistentVolumeClaims) }
    else if str_eq(api_name, "ingresses") { Ok(ResourceKind::Ingresses) }
    else {
        let mut msg = to_owned_string("Unknown resource type: ");
        push_str(&mut msg, api_name);
        Err(msg)
    }
}

/// Whether a listing is cluster-wide rather than per namespace.
pub open spec fn cluster_scoped(k: ResourceKind) -> bool {
    k == ResourceKind::Nodes || k == ResourceKind::Namespaces || k == ResourceKind::PersistentVolumes
}

impl ResourceKind {
    /// Whether the listing is fetched for the whole cluster (nodes,
    /// namespaces, persistent volumes) rather than one namespace.
    pub fn is_cluster_scoped(&self) -> (r: bool)
        ensures
            r == cluster_scoped(*self),
    {
        match self {
            ResourceKind::Nodes | ResourceKind::Namespaces | ResourceKind::PersistentVolumes => true,
            _ => false,
        }
    }
}

/// How the detail of a resource type is built.
#[derive(Debug, Clone, Copy, PartialEq, Eq, Structural)]
pub enum DetailKind {
    Pod,
    Deployment,
    Service,
    StatefulSet,
    DaemonSet,
    ReplicaSet,
    Job,
    CronJob,
    ConfigMap,
    Secret,
    ServiceAccount,
    Ingress,
    PersistentVolumeClaim,
    Event,
    PersistentVolume,
    Namespace,
    Node,
    /// A type without a handler of its own.
    Other,
}

pub open spec fn detail_kind_of(resource_type: Seq<char>) -> DetailKind {
    if resource_type == "pods"@ { DetailKind::Pod }
    else if resource_type == "deployments"@ { DetailKind::Deployment }
    else if resource_type == "services"@ { DetailKind::Service }
    else if resource_type == "statefulsets"@ { DetailKind::StatefulSet }
    else if resource_type == "daemonsets"@ { DetailKind::DaemonSet }
    else if resource_type == "replicasets"@ { DetailKind::ReplicaSet }
    else if resource_type == "jobs"@ { DetailKind::Job }
    else if resource_type == "cronjobs"@ { DetailKind::CronJob }
    else if resource_type == "configmaps"@ { DetailKind::ConfigMap }
    else if resource_type == "secrets"@ { DetailKind::Secret }
    else if resource_type == "serviceaccounts"@ { DetailKind::ServiceAccount }
    else if resource_type == "ingresses"@ { DetailKind::Ingress }
    else if resource_type == "persistentvolumeclaims"@ { DetailKind::PersistentVolumeClaim }
    else if resource_type == "persistentvolumes"@ { DetailKind::PersistentVolume }
    else if resource_type == "namespaces"@ { DetailKind::Namespace }
    else if resource_type == "nodes"@ { DetailKind::Node }
    else if resource_type == "events"@ { DetailKind::Event }
    else { DetailKind::Other }
}

/// Which detail a resource type asks for.
pub fn detail_kind(resource_type: &str) -> (r: DetailKind)
    ensures
        r == detail_kind_of(resource_type@),
{
    if str_eq(resource_type, "pods") { DetailKind::Pod }
    else if str_eq(resource_type, "deployments") { DetailKind::Deployment }
    else if str_eq(resource_type, "services") { DetailKind::Service }
    else if str_eq(resource_type, "statefulsets") { DetailKind::StatefulSet }
    else if str_eq(resource_type, "daemonsets") { DetailKind::DaemonSet }
    else if str_eq(resource_type, "replicasets") { DetailKind::ReplicaSet }
    else if str_eq(resource_type, "jobs") { DetailKind::Job }
    else if str_eq(resource_type, "cronjobs") { DetailKind::CronJob }
    else if str_eq(resource_type, "configmaps") { DetailKind::ConfigMap }
    else if str_eq(resource_type, "secrets") { DetailKind::Secret }
    else if str_eq(resource_type, "serviceaccounts") { DetailKind::ServiceAccount }
    else if str_eq(resource_type, "ingresses") { DetailKind::Ingress }
    else if str_eq(resource_type, "persistentvolumeclaims") { DetailKind::PersistentVolumeClaim }
    else if str_eq(resource_type, "persistentvolumes") { DetailKind::PersistentVolume }
    else if str_eq(resource_type, "namespaces") { DetailKind::Namespace }
    else if str_eq(resource_type, "nodes") { DetailKind::Node }
    else if str_eq(resource_type, "events") { DetailKind::Event }
    else { DetailKind::Other }
}

// ── Selectors ──────────────────────────────────────────────────────────

/// `key=value`.
pub open spec fn pair_text(kv: KeyValue) -> Seq<char> {
    kv.0@ + seq!['='] + kv.1@
}

/// A label selector: `key=value` pairs joined with commas.
pub open spec fn selector_text(labels: Seq<KeyValue>) -> Seq<char> {
    join_seq(labels.map_values(|kv: KeyValue| pair_text(kv)), ","@)
}

/// The selector of match labels, which come in ascending key order as the
/// map they are taken from keeps them.
pub fn label_selector(labels: &Vec<KeyValue>) -> (r: String)
    requires
        keys_ascending(labels@),
    ensures
        r@ == selector_text(labels@),
{
    let mut parts: Vec<String> = Vec::new();
    for i in 0..labels.len()
        invariant
            parts@.len() == i,
            forall|j: int| 0 <= j < i ==> (#[trigger] parts@[j])@ == pair_text(labels@[j]),
    {
        let mut t = labels[i].0.clone();
        push_char(&mut t, '=');
        push_str(&mut t, labels[i].1.as_str());
        parts.push(t);
    }
    assert(views(parts@) =~= labels@.map_values(|kv: KeyValue| pair_text(kv)));
    join(&parts, ",")
}

/// The selector of a workload's pods, when its spec has match labels.
pub open spec fn workload_selector_text(spec: Option<WorkloadSpec>) -> Option<Seq<char>> {
    match spec {
        Some(s) => match s.match_labels {
            Some(l) => Some(selector_text(l@)),
            None => None,
        },
        None => None,
    }
}

/// Whether a workload's match labels, when it has them, come in ascending
/// key order.
pub open spec fn workload_keys_ascending(spec: Option<WorkloadSpec>) -> bool {
    spec matches Some(s) ==> (s.match_labels matches Some(l) ==> keys_ascending(l@))
}

/// The label selector of the pods a workload runs, if its spec names one.
pub fn workload_selector(spec: &Option<WorkloadSpec>) -> (r: Option<String>)
    requires
        workload_keys_ascending(*spec),
    ensures
        match r {
            Some(s) => workload_selector_text(*spec) == Some(s@),
            None => workload_selector_text(*spec) is None,
        },
{
    match spec {
        Some(s) => match &s.match_labels {
            Some(l) => Some(label_selector(l)),
            None => None,
        },
        None => None,
    }
}

/// The selector of a job's pods: `job-name=<name>`.
pub fn job_selector(name: &str) -> (r: String)
    ensures
        r@ == "job-name="@ + name@,
{
    let mut r = to_owned_string("job-name=");
    push_str(&mut r, name);
    r
}

/// The field selector of the events about an object.
pub fn event_field_selector(name: &str) -> (r: String)
    ensures
        r@ == "involvedObject.name="@ + name@,
{
    let mut r = to_owned_string("involvedObject.name=");
    push_str(&mut r, name);
    r
}

// ── Logs ───────────────────────────────────────────────────────────────

/// Where the logs of a resource come from.
#[derive(Debug, Clone, PartialEq, Eq)]
pub enum LogSource {
    /// The pod itself.
    Pod,
    /// The pods that the workload's selector matches.
    Workload,
    /// The pods that match the given selector.
    Selector(String),
}

/// Where the logs of a resource type come from, or the
/// message for a type that has none.
pub open spec fn log_source_of(resource_type: Seq<char>, name: Seq<char>) -> Result<Option<Seq<char>>, Seq<char>> {
    if resource_type == "pods"@ {
        Ok(None)
    } else if resource_type == "deployments"@ || resource_type == "statefulsets"@
        || resource_type == "daemonsets"@ || resource_type == "replicasets"@ {
        Ok(Some(Seq::empty()))
    } else if resource_type == "jobs"@ {
        Ok(Some("job-name="@ + name))
    } else {
        Err("Logs not supported for "@ + resource_type)
    }
}

pub fn log_source(resource_type: &str, name: &str) -> (r: Result<LogSource, String>)
    ensures
        match r {
            Ok(LogSource::Pod) => log_source_of(resource_type@, name@) == Ok::<Option<Seq<char>>, Seq<char>>(None),
            Ok(LogSource::Workload) => log_source_of(resource_type@, name@) == Ok::<Option<Seq<char>>, Seq<char>>(Some(Seq::empty())),
            Ok(LogSource::Selector(s)) => resource_type@ == "jobs"@ && log_source_of(resource_type@, name@) == Ok::<Option<Seq<char>>, Seq<char>>(Some(s@)),
            Err(msg) => log_source_of(resource_type@, name@) == Err::<Option<Seq<char>>, Seq<char>>(msg@),
        },
{
    if str_eq(resource_type, "pods") {
        Ok(LogSource::Pod)
    } else if str_eq(resource_type, "deployments") || str_eq(resource_type, "statefulsets")
        || str_eq(resource_type, "daemonsets") || str_eq(resource_type, "replicasets") {
        Ok(LogSource::Workload)
    } else if str_eq(resource_type, "jobs") {
        Ok(LogSource::Selector(job_selector(name)))
    } else {
        let mut msg = to_owned_string("Logs not supported for ");
        push_str(&mut msg, resource_type);
        Err(msg)
    }
}

/// The selector of a workload's pods, or the message when the workload
/// names none.
pub open spec fn selector_or_message(labels: Option<Vec<KeyValue>>, resource_type: Seq<char>, name: Seq<char>) -> Result<Seq<char>, Seq<char>> {
    match labels {
        Some(l) => Ok(selector_text(l@)),
        None => Err("No selector found for "@ + resource_type + seq!['/'] + name),
    }
}

pub fn selector_or_error(labels: &Option<Vec<KeyValue>>, resource_type: &str, name: &str) -> (r: Result<String, String>)
    requires
        *labels matches Some(l) ==> keys_ascending(l@),
    ensures
        r is Ok <==> labels is Some,
        r is Ok ==> selector_or_message(*labels, resource_type@, name@) == Ok::<Seq<char>, Seq<char>>(r->Ok_0@),
        r is Err ==> selector_or_message(*labels, resource_type@, name@) == Err::<Seq<char>, Seq<char>>(r->Err_0@),
{
    match labels {
        Some(l) => {
            let s = label_selector(l);
            assert(selector_or_message(*labels, resource_type@, name@) == Ok::<Seq<char>, Seq<char>>(s@));
            Ok(s)
        },
        None => {
            let mut msg = to_owned_string("No selector found for ");
            push_str(&mut msg, resource_type);
            push_char(&mut msg, '/');
            push_str(&mut msg, name);
            assert(msg@ =~= "No selector found for "@ + resource_type@ + seq!['/'] + name@);
            Err(msg)
        },
    }
}

/// How many lines to fetch per pod: the tail split evenly over the pods
/// (rounding toward zero), but at least 20.
pub open spec fn per_pod_tail(tail: Option<i64>, pods: nat) -> Option<int> {
    match tail {
        Some(t) => {
            let share = div_trunc(t as int, if pods > 1 { pods as int } else { 1 });
            Some(if share > 20 { share } else { 20 })
        },
        None => None,
    }
}

pub fn tail_per_pod(tail: Option<i64>, pods: usize) -> (r: Option<i64>)
    requires
        pods <= i64::MAX,
    ensures
        match r {
            Some(n) => per_pod_tail(tail, pods as nat) == Some(n as int),
            None => tail is None,
        },
{
    match tail {
        Some(t) => {
            let d: i128 = if pods > 1 { pods as i128 } else { 1 };
            let t: i128 = t as i128;
            let share: i128 = if t >= 0 { t / d } else { 0 - ((0 - t) / d) };
            assert(i64::MIN <= share <= i64::MAX) by (nonlinear_arith)
                requires
                    d >= 1,
                    i64::MIN <= t <= i64::MAX,
                    share as int == (if t >= 0 { t as int / d as int } else { -((-(t as int)) / d as int) }),
            ;
            Some(if share > 20 { share as i64 } else { 20 })
        },
        None => None,
    }
}

/// The log lines of one pod: each line of its log prefixed with
/// `[pod] `, or one line saying why the log could not be fetched.
pub open spec fn pod_log_lines(pod: Seq<char>, log: Result<String, String>) -> Seq<Seq<char>> {
    match log {
        Ok(text) => lines_of(text@).map_values(|l: Seq<char>| seq!['['] + pod + "] "@ + l),
        Err(e) => seq![seq!['['] + pod + "] Error fetching logs: "@ + e@],
    }
}

/// The log lines of all pods, in pod order.
pub open spec fn all_log_lines(results: Seq<(String, Result<String, String>)>) -> Seq<Seq<char>>
    decreases results.len(),
{
    if results.len() == 0 {
        Seq::empty()
    } else {
        all_log_lines(results.drop_last()) + pod_log_lines(results.last().0@, results.last().1)
    }
}

/// The aggregated logs of the pods: all lines
/// joined with newlines, or a note when there are none.
pub open spec fn aggregated_logs(results: Seq<(String, Result<String, String>)>) -> Seq<char> {
    let all = all_log_lines(results);
    if all.len() == 0 {
        "No logs found for matching pods"@
    } else {
        join_seq(all, "\n"@)
    }
}

fn prefixed(pod: &String, rest: &str, line: &str) -> (r: String)
    ensures
        r@ == seq!['['] + pod@ + rest@ + line@,
{
    let mut r = String::new();
    push_char(&mut r, '[');
    push_str(&mut r, pod.as_str());
    push_str(&mut r, rest);
    push_str(&mut r, line);
    r
}

pub fn aggregate_logs(results: &Vec<(String, Result<String, String>)>) -> (r: String)
    ensures
        r@ == aggregated_logs(results@),
{
    let mut all: Vec<String> = Vec::new();
    for i in 0..results.len()
        invariant
            views(all@) == all_log_lines(results@.take(i as int)),
    {
        assert(results@.take(i + 1).drop_last() == results@.take(i as int));
        let pod = &results[i].0;
        let ghost before = views(all@);
        match &results[i].1 {
            Ok(log) => {
                let ls = lines(log.as_str());
                let ghost target = lines_of(log@).map_values(|l: Seq<char>| seq!['['] + pod@ + "] "@ + l);
                for k in 0..ls.len()
                    invariant
                        views(ls@) == lines_of(log@),
                        target == lines_of(log@).map_values(|l: Seq<char>| seq!['['] + pod@ + "] "@ + l),
                        views(all@) == before + target.take(k as int),
                {
                    let line = prefixed(pod, "] ", ls[k].as_str());
                    assert(ls@[k as int]@ == views(ls@)[k as int]);
                    proof {
                        lemma_views_push(all@, line);
                    }
                    all.push(line);
                    assert(target.take(k + 1) == target.take(k as int).push(target[k as int]));
                    assert(views(all@) =~= before + target.take(k + 1));
                }
                assert(target.take(ls.len() as int) == target);
            },
            Err(e) => {
                let line = prefixed(pod, "] Error fetching logs: ", e.as_str());
                proof {
                    lemma_views_push(all@, line);
                }
                all.push(line);
                assert(views(all@) =~= before + pod_log_lines(pod@, results@[i as int].1));
            },
        }
    }
    assert(results@.take(results.len() as int) == results@);
    if all.len() == 0 {
        to_owned_string("No logs found for matching pods")
    } else {
        join(&all, "\n")
    }
}

// ── Restarting ─────────────────────────────────────────────────────────

/// What a restart does to a resource.
#[derive(Debug, Clone, Copy, PartialEq, Eq, Structural)]
pub enum RestartAction {
    /// Delete the pod, letting its controller recreate it.
    DeletePod,
    /// Stamp the pod template of a deployment with the restart time.
    RestartDeployment,
    /// Stamp the pod template of a stateful set with the restart time.
    RestartStatefulSet,
    /// Stamp the pod template of a daemon set with the restart time.
    RestartDaemonSet,
}

/// The restart a resource type supports, if any.
pub open spec fn restart_action_of(resource_type: Seq<char>) -> Option<RestartAction> {
    if resource_type == "pods"@ { Some(RestartAction::DeletePod) }
    else if resource_type == "deployments"@ { Some(RestartAction::RestartDeployment) }
    else if resource_type == "statefulsets"@ { Some(RestartAction::RestartStatefulSet) }
    else if resource_type == "daemonsets"@ { Some(RestartAction::RestartDaemonSet) }
    else { None }
}

/// The message for a resource type that cannot be restarted.
pub open spec fn restart_unsupported_message(resource_type: Seq<char>) -> Seq<char> {
    "Restart not supported for "@ + resource_type
}

/// How a resource type is restarted.
pub fn restart_action(resource_type: &str) -> (r: Result<RestartAction, String>)
    ensures
        match r {
            Ok(a) => restart_action_of(resource_type@) == Some(a),
            Err(m) => restart_action_of(resource_type@) is None && m@ == restart_unsupported_message(resource_type@),
        },
{
    if str_eq(resource_type, "pods") {
        Ok(RestartAction::DeletePod)
    } else if str_eq(resource_type, "deployments") {
        Ok(RestartAction::RestartDeployment)
    } else if str_eq(resource_type, "statefulsets") {
        Ok(RestartAction::RestartStatefulSet)
    } else if str_eq(resource_type, "daemonsets") {
        Ok(RestartAction::RestartDaemonSet)
    } else {
        let mut m = to_owned_string("Restart not supported for ");
        push_str(&mut m, resource_type);
        Err(m)
    }
}

/// The message after a successful restart.
pub open spec fn restart_message(a: RestartAction, name: Seq<char>) -> Seq<char> {
    match a {
        RestartAction::DeletePod => "Pod "@ + name + " deleted"@,
        RestartAction::RestartDeployment => "Deployment "@ + name + " restarted"@,
        RestartAction::RestartStatefulSet => "StatefulSet "@ + name + " restarted"@,
        RestartAction::RestartDaemonSet => "DaemonSet "@ + name + " restarted"@,
    }
}

pub fn restart_done_message(a: RestartAction, name: &str) -> (r: String)
    ensures
        r@ == restart_message(a, name@),
{
    let (head, tail) = match a {
        RestartAction::DeletePod => ("Pod ", " deleted"),
        RestartAction::RestartDeployment => ("Deployment ", " restarted"),
        RestartAction::RestartStatefulSet => ("StatefulSet ", " restarted"),
        RestartAction::RestartDaemonSet => ("DaemonSet ", " restarted"),
    };
    let mut r = to_owned_string(head);
    push_str(&mut r, name);
    push_str(&mut r, tail);
    r
}

/// The annotation whose value a rollout restart sets to the current time.
pub fn restart_annotation() -> (r: &'static str)
    ensures
        r@ == "kubectl.kubernetes.io/restartedAt"@,
{
    "kubectl.kubernetes.io/restartedAt"
}

// ── Applying YAML ──────────────────────────────────────────────────────

/// The result of `kubectl apply`: its trimmed output on success ("Applied
/// successfully" when that is empty), else its trimmed error output.
pub open spec fn apply_result(success: bool, stdout: Seq<char>, stderr: Seq<char>) -> Result<Seq<char>, Seq<char>> {
    if success {
        if trimmed(stdout).len() == 0 {
            Ok("Applied successfully"@)
        } else {
            Ok(trimmed(stdout))
        }
    } else {
        Err(trimmed(stderr))
    }
}

impl K8sClient {
    /// The outcome of `kubectl apply`.
    pub fn apply_yaml(success: bool, stdout: &str, stderr: &str) -> (r: Result<String, String>)
        ensures
            match r {
                Ok(s) => apply_result(success, stdout@, stderr@) == Ok::<Seq<char>, Seq<char>>(s@),
                Err(e) => apply_result(success, stdout@, stderr@) == Err::<Seq<char>, Seq<char>>(e@),
            },
    {
        if success {
            let out = trim(stdout);
            if out.as_str().unicode_len() == 0 {
                Ok(to_owned_string("Applied successfully"))
            } else {
                Ok(out)
            }
        } else {
            Err(trim(stderr))
        }
    }
}

/// The arguments of `kubectl apply` for a file and namespace.
pub fn apply_args(file: &str, namespace: &str) -> (r: Vec<String>)
    ensures
        views(r@) == seq!["apply"@, "-f"@, file@, "-n"@, namespace@],
{
    let mut r: Vec<String> = Vec::new();
    r.push(to_owned_string("apply"));
    r.push(to_owned_string("-f"));
    r.push(to_owned_string(file));
    r.push(to_owned_string("-n"));
    r.push(to_owned_string(namespace));
    assert(views(r@) =~= seq!["apply"@, "-f"@, file@, "-n"@, namespace@]);
    r
}

// ── Ports and port forwarding ──────────────────────────────────────────

/// The port of a container port entry as a `u16` (the number truncated to
/// 16 bits, as `as u16` does).
pub open spec fn port_u16(p: ContainerPort) -> u16 {
    p.container_port as u16
}

/// The ports one container declares.
pub open spec fn container_pod_ports(name: String, ports: Option<Vec<ContainerPort>>) -> Seq<(Seq<char>, u16, Seq<char>, Option<Seq<char>>)> {
    match ports {
        Some(ps) => ps@.map_values(|p: ContainerPort| (name@, port_u16(p), crate::k8s::common::or_text(p.protocol, "TCP"@), crate::model::detail::opt_view(p.name))),
        None => Seq::empty(),
    }
}

/// The ports all containers of a spec declare, in container order.
pub open spec fn spec_ports(cs: Seq<crate::k8s::objects::Container>) -> Seq<(Seq<char>, u16, Seq<char>, Option<Seq<char>>)>
    decreases cs.len(),
{
    if cs.len() == 0 {
        Seq::empty()
    } else {
        spec_ports(cs.drop_last()) + container_pod_ports(cs.last().name, cs.last().ports)
    }
}

/// The view of a detected port.
pub open spec fn pod_port_view(p: PodPort) -> (Seq<char>, u16, Seq<char>, Option<Seq<char>>) {
    (p.container_name@, p.port, p.protocol@, crate::model::detail::opt_view(p.name))
}

/// The views of detected ports.
pub open spec fn port_views(s: Seq<PodPort>) -> Seq<(Seq<char>, u16, Seq<char>, Option<Seq<char>>)> {
    s.map_values(|p: PodPort| pod_port_view(p))
}

proof fn lemma_port_views_push(s: Seq<PodPort>, x: PodPort)
    ensures
        port_views(s.push(x)) == port_views(s).push(pod_port_view(x)),
{
    assert(port_views(s.push(x)) =~= port_views(s).push(pod_port_view(x)));
}

fn truncate_port(n: i32) -> (r: u16)
    ensures
        r == n as u16,
{
    n as u16
}

impl K8sClient {
    /// The ports a pod's containers declare.
    pub fn get_pod_ports(spec: &Option<PodSpec>) -> (r: Vec<PodPort>)
        ensures
            port_views(r@) == match *spec {
                Some(s) => spec_ports(s.containers@),
                None => Seq::empty(),
            },
    {
        let mut ports: Vec<PodPort> = Vec::new();
        match spec {
            Some(s) => {
                for i in 0..s.containers.len()
                    invariant
                        port_views(ports@) == spec_ports(s.containers@.take(i as int)),
                {
                    assert(s.containers@.take(i + 1).drop_last() == s.containers@.take(i as int));
                    let c = &s.containers[i];
                    let ghost before = port_views(ports@);
                    match &c.ports {
                        Some(cps) => {
                            let ghost target = container_pod_ports(c.name, c.ports);
                            for k in 0..cps.len()
                                invariant
                                    target == container_pod_ports(c.name, c.ports),
                                    c.ports == Some(*cps),
                                    port_views(ports@) == before + target.take(k as int),
                            {
                                let p = &cps[k];
                                let port = PodPort {
                                    container_name: c.name.clone(),
                                    port: truncate_port(p.container_port),
                                    protocol: crate::k8s::common::text_or(&p.protocol, "TCP"),
                                    name: p.name.clone(),
                                };
                                proof {
                                    lemma_port_views_push(ports@, port);
                                }
                                ports.push(port);
                                assert(target.take(k + 1) == target.take(k as int).push(target[k as int]));
                                assert(port_views(ports@) =~= before + target.take(k + 1));
                            }
                            assert(target.take(cps.len() as int) == target);
                        },
                        None => {
                            assert(before + container_pod_ports(c.name, c.ports) =~= before);
                        },
                    }
                }
                assert(s.containers@.take(s.containers.len() as int) == s.containers@);
            },
            None => {
                assert(port_views(ports@) =~= Seq::<(Seq<char>, u16, Seq<char>, Option<Seq<char>>)>::empty());
            },
        }
        ports
    }
}

/// The arguments of `kubectl port-forward` for a pod and port pair.
pub open spec fn port_forward_argv(pod: Seq<char>, namespace: Seq<char>, local: u16, remote: u16) -> Seq<Seq<char>> {
    seq![
        "port-forward"@,
        "pod/"@ + pod,
        decimal_nat(local as nat) + seq![':'] + decimal_nat(remote as nat),
        "-n"@,
        namespace,
    ]
}

impl K8sClient {
    /// The arguments of the `kubectl port-forward` process that
    /// `start_port_forward` spawns.
    pub fn start_port_forward(pod: &str, namespace: &str, local: u16, remote: u16) -> (r: Vec<String>)
        ensures
            views(r@) == port_forward_argv(pod@, namespace@, local, remote),
    {
        let mut target = to_owned_string("pod/");
        push_str(&mut target, pod);
        let mut ports = u64_to_string(local as u64);
        push_char(&mut ports, ':');
        let remote_text = u64_to_string(remote as u64);
        push_str(&mut ports, remote_text.as_str());
        assert(ports@ =~= decimal_nat(local as nat) + seq![':'] + decimal_nat(remote as nat));
        let mut r: Vec<String> = Vec::new();
        r.push(to_owned_string("port-forward"));
        r.push(target);
        r.push(ports);
        r.push(to_owned_string("-n"));
        r.push(to_owned_string(namespace));
        assert(views(r@) =~= port_forward_argv(pod@, namespace@, local, remote));
        r
    }
}

// ── Kubeconfig ─────────────────────────────────────────────────────────

impl K8sClient {
    /// The current context of a kubeconfig, or the message that none is set.
    pub fn current_context(current: Option<String>) -> (r: Result<String, String>)
        ensures
            match current {
                Some(c) => r == Ok::<String, String>(c),
                None => r is Err && r->Err_0@ == "No current context set"@,
            },
    {
        match current {
            Some(c) => Ok(c),
            None => Err(to_owned_string("No current context set")),
        }
    }
}

} // verus!

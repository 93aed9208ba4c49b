//! The detail view of a single resource, built from the fetched object.
use vstd::prelude::*;
use crate::k8s::age::{age_or, age_or_else, Instant};
use crate::k8s::common::{
    age_cell, count_ratio, count_ratio_text, int_text, name_any, object_age, object_name, or_text,
    ratio, ratio_text, text_or, text_or_empty,
};
use crate::k8s::listing::{
    container_counts, container_statuses, job_completions, job_counts, job_succeeded,
    readiness, readiness_text, restart_total, restarts_fit, ready_count,
};
use crate::k8s::objects::{
    Container, ContainerPort, ContainerState, ContainerStatus, CronJob, DaemonSet, Deployment,
    Event, Job, Namespace, Node, ObjectCondition, ObjectMeta, OwnerReference, PersistentVolume,
    Pod, ReplicaSet, Service, StatefulSet,
};
use crate::model::detail::{
    kv_views, opt_view, seq_views, Condition, ConditionView, ContainerInfo, ContainerInfoView,
    EventEntry, EventEntryView, KeyValue, OwnerRef, OwnerRefView, PodInfo, PodInfoView,
    ResourceDetail, ResourceDetailView,
};
use crate::text::{
    decimal_int, join, join_seq, push_char, push_str, str_eq, to_owned_string, views,
};

verus! {

// ── Metadata ───────────────────────────────────────────────────────────

pub open spec fn owner_view(o: OwnerReference) -> OwnerRefView {
    OwnerRefView { kind: o.kind@, name: o.name@ }
}

/// The views of the owner references of an object.
pub open spec fn owner_views(refs: Seq<OwnerReference>) -> Seq<OwnerRefView> {
    refs.map_values(|o: OwnerReference| owner_view(o))
}

/// The detail holding only what the metadata says.
pub open spec fn meta_detail(meta: ObjectMeta, resource_type: Seq<char>, now: Instant) -> ResourceDetailView {
    ResourceDetailView {
        name: or_text(meta.name, Seq::empty()),
        namespace: opt_view(meta.namespace),
        resource_type,
        age: age_cell(now, meta),
        phase: Seq::empty(),
        labels: match meta.labels {
            Some(l) => kv_views(l@),
            None => Seq::empty(),
        },
        annotations: match meta.annotations {
            Some(a) => kv_views(a@),
            None => Seq::empty(),
        },
        owner_references: match meta.owner_references {
            Some(r) => owner_views(r@),
            None => Seq::empty(),
        },
        conditions: Seq::empty(),
        containers: Seq::empty(),
        pods: Seq::empty(),
        yaml: Seq::empty(),
        events: Seq::empty(),
    }
}

/// A copy of a list of key/value pairs.
pub fn copy_pairs(kvs: &Vec<KeyValue>) -> (r: Vec<KeyValue>)
    ensures
        r@ == kvs@,
{
    let mut r: Vec<KeyValue> = Vec::new();
    for i in 0..kvs.len()
        invariant
            r@ == kvs@.take(i as int),
    {
        r.push((kvs[i].0.clone(), kvs[i].1.clone()));
        assert(kvs@.take(i + 1) == kvs@.take(i as int).push(kvs@[i as int]));
    }
    assert(kvs@.take(kvs.len() as int) == kvs@);
    r
}

fn owner_refs(refs: &Vec<OwnerReference>) -> (r: Vec<OwnerRef>)
    ensures
        seq_views(r@) == owner_views(refs@),
{
    let mut r: Vec<OwnerRef> = Vec::new();
    for i in 0..refs.len()
        invariant
            r@.len() == i,
            forall|j: int| 0 <= j < i ==> (#[trigger] r@[j])@ == owner_view(refs@[j]),
    {
        r.push(OwnerRef { kind: refs[i].kind.clone(), name: refs[i].name.clone() });
    }
    assert(seq_views(r@) =~= owner_views(refs@));
    r
}

/// Extract common metadata fields into a ResourceDetail
pub fn extract_metadata(meta: &ObjectMeta, resource_type: &str, now: Instant) -> (d: ResourceDetail)
    ensures
        d@ == meta_detail(*meta, resource_type@, now),
{
    let labels = match &meta.labels {
        Some(l) => copy_pairs(l),
        None => Vec::new(),
    };
    let annotations = match &meta.annotations {
        Some(a) => copy_pairs(a),
        None => Vec::new(),
    };
    let owner_references = match &meta.owner_references {
        Some(r) => owner_refs(r),
        None => Vec::new(),
    };
    let d = ResourceDetail {
        name: text_or_empty(&meta.name),
        namespace: meta.namespace.clone(),
        resource_type: to_owned_string(resource_type),
        age: object_age(now, meta),
        phase: String::new(),
        labels,
        annotations,
        owner_references,
        conditions: Vec::new(),
        containers: Vec::new(),
        pods: Vec::new(),
        yaml: String::new(),
        events: Vec::new(),
    };
    assert(d@ =~= meta_detail(*meta, resource_type@, now));
    d
}

// ── Conditions ─────────────────────────────────────────────────────────

pub open spec fn condition_view(c: ObjectCondition, now: Instant) -> ConditionView {
    ConditionView {
        type_: c.type_@,
        status: c.status@,
        reason: or_text(c.reason, Seq::empty()),
        message: or_text(c.message, Seq::empty()),
        last_transition: age_or(now, c.last_transition_time, Seq::empty()),
    }
}

pub open spec fn conditions_view(cs: Seq<ObjectCondition>, now: Instant) -> Seq<ConditionView> {
    cs.map_values(|c: ObjectCondition| condition_view(c, now))
}

/// The conditions of an optional list, or none.
pub open spec fn opt_conditions_view(cs: Option<Vec<ObjectCondition>>, now: Instant) -> Seq<ConditionView> {
    match cs {
        Some(c) => conditions_view(c@, now),
        None => Seq::empty(),
    }
}

fn empty_age(now: Instant, t: Option<Instant>) -> (r: String)
    ensures
        r@ == age_or(now, t, Seq::empty()),
{
    match t {
        Some(t) => crate::k8s::age::format_age(now, t),
        None => String::new(),
    }
}

pub fn conditions(cs: &Vec<ObjectCondition>, now: Instant) -> (r: Vec<Condition>)
    ensures
        seq_views(r@) == conditions_view(cs@, now),
{
    let mut r: Vec<Condition> = Vec::new();
    for i in 0..cs.len()
        invariant
            r@.len() == i,
            forall|j: int| 0 <= j < i ==> (#[trigger] r@[j])@ == condition_view(cs@[j], now),
    {
        let c = &cs[i];
        r.push(Condition {
            type_: c.type_.clone(),
            status: c.status.clone(),
            reason: text_or_empty(&c.reason),
            message: text_or_empty(&c.message),
            last_transition: empty_age(now, c.last_transition_time),
        });
    }
    assert(seq_views(r@) =~= conditions_view(cs@, now));
    r
}

fn opt_conditions(cs: &Option<Vec<ObjectCondition>>, now: Instant) -> (r: Vec<Condition>)
    ensures
        seq_views(r@) == opt_conditions_view(*cs, now),
{
    match cs {
        Some(c) => conditions(c, now),
        None => {
            let r: Vec<Condition> = Vec::new();
            assert(seq_views(r@) =~= Seq::<ConditionView>::empty());
            r
        },
    }
}

// ── Containers ─────────────────────────────────────────────────────────

/// How a container's state is described: "Running", "Waiting: reason",
/// "Terminated: reason" (reason "Unknown" when unset), else "Unknown".
pub open spec fn state_text(s: Option<ContainerState>) -> Seq<char> {
    match s {
        Some(st) => if st.running {
            "Running"@
        } else {
            match st.waiting {
                Some(w) => "Waiting: "@ + or_text(w.reason, "Unknown"@),
                None => match st.terminated {
                    Some(t) => "Terminated: "@ + or_text(t.reason, "Unknown"@),
                    None => "Unknown"@,
                },
            }
        },
        None => "Unknown"@,
    }
}

pub fn container_state(s: &Option<ContainerState>) -> (r: String)
    ensures
        r@ == state_text(*s),
{
    match s {
        Some(st) => if st.running {
            to_owned_string("Running")
        } else {
            match &st.waiting {
                Some(w) => {
                    let mut r = to_owned_string("Waiting: ");
                    let reason = text_or(&w.reason, "Unknown");
                    push_str(&mut r, reason.as_str());
                    r
                },
                None => match &st.terminated {
                    Some(t) => {
                        let mut r = to_owned_string("Terminated: ");
                        let reason = text_or(&t.reason, "Unknown");
                        push_str(&mut r, reason.as_str());
                        r
                    },
                    None => to_owned_string("Unknown"),
                },
            }
        },
        None => to_owned_string("Unknown"),
    }
}

/// One container port as `port/protocol`.
pub open spec fn port_text(p: ContainerPort) -> Seq<char> {
    decimal_int(p.container_port as int) + seq!['/'] + or_text(p.protocol, "TCP"@)
}

/// A container's ports, `port/protocol` joined with ", ", or empty.
pub open spec fn ports_text(ports: Option<Vec<ContainerPort>>) -> Seq<char> {
    match ports {
        Some(ps) => join_seq(ps@.map_values(|p: ContainerPort| port_text(p)), ", "@),
        None => Seq::empty(),
    }
}

pub fn container_ports(ports: &Option<Vec<ContainerPort>>) -> (r: String)
    ensures
        r@ == ports_text(*ports),
{
    match ports {
        Some(ps) => {
            let mut parts: Vec<String> = Vec::new();
            for i in 0..ps.len()
                invariant
                    parts@.len() == i,
                    forall|j: int| 0 <= j < i ==> (#[trigger] parts@[j])@ == port_text(ps@[j]),
            {
                let mut t = int_text(ps[i].container_port);
                push_char(&mut t, '/');
                let proto = text_or(&ps[i].protocol, "TCP");
                push_str(&mut t, proto.as_str());
                parts.push(t);
            }
            assert(views(parts@) =~= ps@.map_values(|p: ContainerPort| port_text(p)));
            join(&parts, ", ")
        },
        None => String::new(),
    }
}

/// A container as its status reports it (ports are filled in later).
pub open spec fn status_container_view(c: ContainerStatus) -> ContainerInfoView {
    ContainerInfoView {
        name: c.name@,
        image: c.image@,
        ready: c.ready,
        restart_count: c.restart_count,
        state: state_text(c.state),
        ports: Seq::empty(),
    }
}

/// A container of a pod template, with or without its ports.
pub open spec fn template_container_view(c: Container, with_ports: bool) -> ContainerInfoView {
    ContainerInfoView {
        name: c.name@,
        image: or_text(c.image, Seq::empty()),
        ready: true,
        restart_count: 0,
        state: "Template"@,
        ports: if with_ports { ports_text(c.ports) } else { Seq::empty() },
    }
}

pub open spec fn template_containers_view(cs: Seq<Container>, with_ports: bool) -> Seq<ContainerInfoView> {
    cs.map_values(|c: Container| template_container_view(c, with_ports))
}

fn template_containers(cs: &Vec<Container>, with_ports: bool) -> (r: Vec<ContainerInfo>)
    ensures
        seq_views(r@) == template_containers_view(cs@, with_ports),
{
    let mut r: Vec<ContainerInfo> = Vec::new();
    for i in 0..cs.len()
        invariant
            r@.len() == i,
            forall|j: int| 0 <= j < i ==> (#[trigger] r@[j])@ == template_container_view(cs@[j], with_ports),
    {
        let c = &cs[i];
        let ports = if with_ports { container_ports(&c.ports) } else { String::new() };
        r.push(ContainerInfo {
            name: c.name.clone(),
            image: text_or_empty(&c.image),
            ready: true,
            restart_count: 0,
            state: to_owned_string("Template"),
            ports,
        });
    }
    assert(seq_views(r@) =~= template_containers_view(cs@, with_ports));
    r
}

/// The index of the first container with the given name.
pub open spec fn first_named(cs: Seq<ContainerInfoView>, name: Seq<char>) -> Option<int>
    decreases cs.len(),
{
    if cs.len() == 0 {
        None
    } else if cs[0].name == name {
        Some(0)
    } else {
        match first_named(cs.drop_first(), name) {
            Some(i) => Some(i + 1),
            None => None,
        }
    }
}

/// The containers with the ports of the spec's containers filled in: for
/// each spec container in order, the first container of the same name takes
/// its port list.
pub open spec fn with_spec_ports(cs: Seq<ContainerInfoView>, specs: Seq<Container>) -> Seq<ContainerInfoView>
    decreases specs.len(),
{
    if specs.len() == 0 {
        cs
    } else {
        let earlier = with_spec_ports(cs, specs.drop_last());
        let s = specs.last();
        match first_named(earlier, s.name@) {
            Some(k) => earlier.update(k, ContainerInfoView { ports: ports_text(s.ports), ..earlier[k] }),
            None => earlier,
        }
    }
}

proof fn lemma_first_named(cs: Seq<ContainerInfoView>, name: Seq<char>)
    ensures
        match first_named(cs, name) {
            Some(i) => 0 <= i < cs.len() && cs[i].name == name && forall|j: int|
                0 <= j < i ==> cs[j].name != name,
            None => forall|j: int| 0 <= j < cs.len() ==> cs[j].name != name,
        },
    decreases cs.len(),
{
    if cs.len() > 0 && cs[0].name != name {
        lemma_first_named(cs.drop_first(), name);
        assert forall|j: int| 0 < j < cs.len() implies cs[j] == cs.drop_first()[j - 1] by {}
    }
}

fn find_named(cs: &Vec<ContainerInfo>, name: &String) -> (r: Option<usize>)
    ensures
        match r {
            Some(i) => i < cs@.len() && first_named(seq_views(cs@), name@) == Some(i as int),
            None => first_named(seq_views(cs@), name@) is None,
        },
{
    proof {
        lemma_first_named(seq_views(cs@), name@);
    }
    let mut i: usize = 0;
    while i < cs.len()
        invariant
            i <= cs@.len(),
            forall|j: int| 0 <= j < i ==> (#[trigger] seq_views(cs@)[j]).name != name@,
            match first_named(seq_views(cs@), name@) {
                Some(k) => 0 <= k < cs@.len() && seq_views(cs@)[k].name == name@ && forall|j: int|
                    0 <= j < k ==> (#[trigger] seq_views(cs@)[j]).name != name@,
                None => forall|j: int| 0 <= j < cs@.len() ==> (#[trigger] seq_views(cs@)[j]).name != name@,
            },
        decreases cs.len() - i,
    {
        if str_eq(cs[i].name.as_str(), name.as_str()) {
            proof {
                match first_named(seq_views(cs@), name@) {
                    Some(k) => {
                        assert(seq_views(cs@)[i as int].name == name@);
                        if k > i {
                            assert(seq_views(cs@)[i as int].name != name@);
                        }
                    },
                    None => {
                        assert(seq_views(cs@)[i as int].name == name@);
                    },
                }
            }
            return Some(i);
        }
        i = i + 1;
    }
    None
}

fn apply_spec_ports(cs: &mut Vec<ContainerInfo>, specs: &Vec<Container>)
    ensures
        seq_views(final(cs)@) == with_spec_ports(seq_views(old(cs)@), specs@),
{
    let ghost start = seq_views(cs@);
    for i in 0..specs.len()
        invariant
            seq_views(cs@) == with_spec_ports(start, specs@.take(i as int)),
            cs@.len() == start.len(),
    {
        assert(specs@.take(i + 1).drop_last() == specs@.take(i as int));
        let s = &specs[i];
        match find_named(cs, &s.name) {
            Some(k) => {
                let ports = container_ports(&s.ports);
                let old_c = cs[k].clone_info();
                let updated = ContainerInfo { ports, ..old_c };
                cs.set(k, updated);
                assert(seq_views(cs@) =~= with_spec_ports(start, specs@.take(i + 1)));
            },
            None => {},
        }
    }
    assert(specs@.take(specs.len() as int) == specs@);
}

impl ContainerInfo {
    /// A copy of this container description.
    pub fn clone_info(&self) -> (c: ContainerInfo)
        ensures
            c@ == self@,
    {
        ContainerInfo {
            name: self.name.clone(),
            image: self.image.clone(),
            ready: self.ready,
            restart_count: self.restart_count,
            state: self.state.clone(),
            ports: self.ports.clone(),
        }
    }
}

fn status_containers(cs: &Vec<ContainerStatus>) -> (r: Vec<ContainerInfo>)
    ensures
        seq_views(r@) == cs@.map_values(|c: ContainerStatus| status_container_view(c)),
{
    let mut r: Vec<ContainerInfo> = Vec::new();
    for i in 0..cs.len()
        invariant
            r@.len() == i,
            forall|j: int| 0 <= j < i ==> (#[trigger] r@[j])@ == status_container_view(cs@[j]),
    {
        let c = &cs[i];
        r.push(ContainerInfo {
            name: c.name.clone(),
            image: c.image.clone(),
            ready: c.ready,
            restart_count: c.restart_count,
            state: container_state(&c.state),
            ports: String::new(),
        });
    }
    assert(seq_views(r@) =~= cs@.map_values(|c: ContainerStatus| status_container_view(c)));
    r
}


// ── Pods of a workload, events ─────────────────────────────────────────

/// The time and reason of the last termination reported by the first
/// container that has one, or two empty texts.
pub open spec fn last_restart(cs: Seq<ContainerStatus>, now: Instant) -> (Seq<char>, Seq<char>)
    decreases cs.len(),
{
    if cs.len() == 0 {
        (Seq::empty(), Seq::empty())
    } else {
        match cs[0].last_state {
            Some(ls) => match ls.terminated {
                Some(t) => (
                    age_or(now, t.finished_at, Seq::empty()),
                    match t.reason {
                        Some(r) => r@,
                        None => "exit code "@ + decimal_int(t.exit_code as int),
                    },
                ),
                None => last_restart(cs.drop_first(), now),
            },
            None => last_restart(cs.drop_first(), now),
        }
    }
}

/// The row of a pod in a workload's pod table.
pub open spec fn pod_info_view(p: Pod, now: Instant) -> PodInfoView {
    let (time, reason) = match container_statuses(p) {
        Some(cs) => last_restart(cs, now),
        None => (Seq::empty(), Seq::empty()),
    };
    PodInfoView {
        name: name_any(p.metadata),
        ready: crate::k8s::listing::pod_ready(p),
        status: crate::k8s::listing::pod_phase(p),
        cpu: "-"@,
        memory: "-"@,
        restarts: crate::k8s::listing::pod_restarts(p) as i32,
        last_restart_time: time,
        last_restart_reason: reason,
        node: match p.spec {
            Some(s) => or_text(s.node_name, Seq::empty()),
            None => Seq::empty(),
        },
        ip: match p.status {
            Some(s) => or_text(s.pod_ip, Seq::empty()),
            None => Seq::empty(),
        },
        age: age_cell(now, p.metadata),
    }
}

fn last_restart_of(cs: &Vec<ContainerStatus>, now: Instant) -> (r: (String, String))
    ensures
        (r.0@, r.1@) == last_restart(cs@, now),
{
    let mut i: usize = 0;
    assert(cs@.skip(0) == cs@);
    while i < cs.len()
        invariant
            i <= cs@.len(),
            last_restart(cs@, now) == last_restart(cs@.skip(i as int), now),
        decreases cs.len() - i,
    {
        assert(cs@.skip(i as int).drop_first() == cs@.skip(i + 1));
        assert(cs@.skip(i as int)[0] == cs@[i as int]);
        match &cs[i].last_state {
            Some(ls) => match &ls.terminated {
                Some(t) => {
                    let time = empty_age(now, t.finished_at);
                    let reason = match &t.reason {
                        Some(r) => r.clone(),
                        None => {
                            let mut r = to_owned_string("exit code ");
                            let code = int_text(t.exit_code);
                            push_str(&mut r, code.as_str());
                            r
                        },
                    };
                    return (time, reason);
                },
                None => {},
            },
            None => {},
        }
        i = i + 1;
    }
    (String::new(), String::new())
}

pub fn pod_info(p: &Pod, now: Instant) -> (r: PodInfo)
    requires
        crate::k8s::listing::pod_ok(*p),
    ensures
        r@ == pod_info_view(*p, now),
{
    let name = object_name(&p.metadata);
    let status = match &p.status {
        Some(s) => text_or(&s.phase, "Unknown"),
        None => to_owned_string("Unknown"),
    };
    let (ready, total, restarts, time, reason) = match &p.status {
        Some(s) => match &s.container_statuses {
            Some(cs) => {
                let (ready, restarts) = container_counts(cs);
                let (time, reason) = last_restart_of(cs, now);
                (ready, cs.len(), restarts, time, reason)
            },
            None => (0, 0, 0, String::new(), String::new()),
        },
        None => (0, 0, 0, String::new(), String::new()),
    };
    let node = match &p.spec {
        Some(s) => text_or_empty(&s.node_name),
        None => String::new(),
    };
    let ip = match &p.status {
        Some(s) => text_or_empty(&s.pod_ip),
        None => String::new(),
    };
    let r = PodInfo {
        name,
        ready: count_ratio_text(ready, total),
        status,
        cpu: to_owned_string("-"),
        memory: to_owned_string("-"),
        restarts,
        last_restart_time: time,
        last_restart_reason: reason,
        node,
        ip,
        age: object_age(now, &p.metadata),
    };
    assert(r@ =~= pod_info_view(*p, now));
    r
}

/// The pods of a workload, in listing order.
pub fn workload_pods(pods: &Vec<Pod>, now: Instant) -> (r: Vec<PodInfo>)
    requires
        forall|i: int| 0 <= i < pods@.len() ==> crate::k8s::listing::pod_ok(#[trigger] pods@[i]),
    ensures
        r@.len() == pods@.len(),
        forall|i: int| 0 <= i < pods@.len() ==> (#[trigger] r@[i])@ == pod_info_view(pods@[i], now),
{
    let mut r: Vec<PodInfo> = Vec::new();
    for i in 0..pods.len()
        invariant
            forall|i: int| 0 <= i < pods@.len() ==> crate::k8s::listing::pod_ok(#[trigger] pods@[i]),
            r@.len() == i,
            forall|j: int| 0 <= j < i ==> (#[trigger] r@[j])@ == pod_info_view(pods@[j], now),
    {
        r.push(pod_info(&pods[i], now));
    }
    r
}

/// An event as the detail view lists it.
pub open spec fn event_entry_view(e: Event, now: Instant) -> EventEntryView {
    EventEntryView {
        type_: or_text(e.type_, Seq::empty()),
        reason: or_text(e.reason, Seq::empty()),
        age: age_or(now, e.metadata.creation_timestamp, Seq::empty()),
        from: match e.source {
            Some(src) => or_text(src.component, Seq::empty()),
            None => Seq::empty(),
        },
        message: or_text(e.message, Seq::empty()),
    }
}

/// The events of a resource, in listing order.
pub fn event_entries(events: &Vec<Event>, now: Instant) -> (r: Vec<EventEntry>)
    ensures
        r@.len() == events@.len(),
        forall|i: int| 0 <= i < events@.len() ==> (#[trigger] r@[i])@ == event_entry_view(events@[i], now),
{
    let mut r: Vec<EventEntry> = Vec::new();
    for i in 0..events.len()
        invariant
            r@.len() == i,
            forall|j: int| 0 <= j < i ==> (#[trigger] r@[j])@ == event_entry_view(events@[j], now),
    {
        let e = &events[i];
        let from = match &e.source {
            Some(src) => text_or_empty(&src.component),
            None => String::new(),
        };
        let entry = EventEntry {
            type_: text_or_empty(&e.type_),
            reason: text_or_empty(&e.reason),
            age: empty_age(now, e.metadata.creation_timestamp),
            from,
            message: text_or_empty(&e.message),
        };
        assert(entry@ =~= event_entry_view(*e, now));
        r.push(entry);
    }
    r
}


// ── Detail of each kind ────────────────────────────────────────────────

/// Takes over `yaml` and `events` into a detail.
fn finish(d: ResourceDetail, yaml: String, events: Vec<EventEntry>) -> (r: ResourceDetail)
    ensures
        r@ == (ResourceDetailView { yaml: yaml@, events: seq_views(events@), ..d@ }),
{
    let r = ResourceDetail { yaml, events, ..d };
    assert(r@ =~= (ResourceDetailView { yaml: yaml@, events: seq_views(events@), ..d@ }));
    r
}

/// The detail of a pod: its phase ("Unknown" when the
/// status has none), conditions and container statuses, each container then
/// given the ports its spec lists.
pub open spec fn pod_detail_view(p: Pod, yaml: Seq<char>, events: Seq<EventEntryView>, now: Instant) -> ResourceDetailView {
    let base = meta_detail(p.metadata, "pods"@, now);
    let (phase, conds, containers) = match p.status {
        Some(s) => (
            or_text(s.phase, "Unknown"@),
            opt_conditions_view(s.conditions, now),
            match s.container_statuses {
                Some(cs) => cs@.map_values(|c: ContainerStatus| status_container_view(c)),
                None => Seq::empty(),
            },
        ),
        None => (Seq::empty(), Seq::empty(), Seq::empty()),
    };
    let containers = match p.spec {
        Some(spec) => with_spec_ports(containers, spec.containers@),
        None => containers,
    };
    ResourceDetailView { phase, conditions: conds, containers, yaml, events, ..base }
}

pub fn pod_detail(p: &Pod, yaml: String, events: Vec<EventEntry>, now: Instant) -> (r: ResourceDetail)
    ensures
        r@ == pod_detail_view(*p, yaml@, seq_views(events@), now),
{
    let mut d = extract_metadata(&p.metadata, "pods", now);
    match &p.status {
        Some(status) => {
            d.phase = text_or(&status.phase, "Unknown");
            d.conditions = opt_conditions(&status.conditions, now);
            d.containers = match &status.container_statuses {
                Some(cs) => status_containers(cs),
                None => {
                    let v: Vec<ContainerInfo> = Vec::new();
                    assert(seq_views(v@) =~= Seq::<ContainerInfoView>::empty());
                    v
                },
            };
        },
        None => {
            assert(seq_views(d.conditions@) =~= Seq::<ConditionView>::empty());
        },
    }
    match &p.spec {
        Some(spec) => apply_spec_ports(&mut d.containers, &spec.containers),
        None => {},
    }
    let r = finish(d, yaml, events);
    assert(r@ =~= pod_detail_view(*p, yaml@, seq_views(events@), now));
    r
}

/// The phase "ready/desired ready" of a deployment's status.
pub open spec fn replicas_phase(ready: int, desired: int) -> Seq<char> {
    ratio(ready, desired) + " ready"@
}

fn replicas_phase_text(ready: i32, desired: i32) -> (r: String)
    ensures
        r@ == replicas_phase(ready as int, desired as int),
{
    let mut r = ratio_text(ready as i64, desired as i64);
    crate::text::push_str(&mut r, " ready");
    r
}

/// The detail of a deployment: the replica
/// readiness as phase, its conditions, the template's containers with their
/// ports, the given pods and events.
pub open spec fn deployment_detail_view(
    d: Deployment,
    yaml: Seq<char>,
    pods: Seq<PodInfoView>,
    events: Seq<EventEntryView>,
    now: Instant,
) -> ResourceDetailView {
    let base = meta_detail(d.metadata, "deployments"@, now);
    let (phase, conds) = match d.status {
        Some(s) => (
            replicas_phase(crate::k8s::listing::count_or_zero(s.ready_replicas), crate::k8s::listing::count_or_zero(s.replicas)),
            opt_conditions_view(s.conditions, now),
        ),
        None => (Seq::empty(), Seq::empty()),
    };
    let containers = match d.spec {
        Some(spec) => match spec.template_spec {
            Some(ps) => template_containers_view(ps.containers@, true),
            None => Seq::empty(),
        },
        None => Seq::empty(),
    };
    ResourceDetailView { phase, conditions: conds, containers, pods, yaml, events, ..base }
}

fn i32_or_zero(o: Option<i32>) -> (r: i32)
    ensures
        r == crate::k8s::listing::count_or_zero(o),
{
    match o {
        Some(n) => n,
        None => 0,
    }
}

fn template_of(spec: &Option<crate::k8s::objects::WorkloadSpec>, with_ports: bool) -> (r: Vec<ContainerInfo>)
    ensures
        seq_views(r@) == (match *spec {
            Some(sp) => match sp.template_spec {
                Some(ps) => template_containers_view(ps.containers@, with_ports),
                None => Seq::empty(),
            },
            None => Seq::empty(),
        }),
{
    let r = match spec {
        Some(sp) => match &sp.template_spec {
            Some(ps) => template_containers(&ps.containers, with_ports),
            None => Vec::new(),
        },
        None => Vec::new(),
    };
    proof {
        if r@.len() == 0 {
            assert(seq_views(r@) =~= Seq::<ContainerInfoView>::empty());
        }
    }
    r
}

pub fn deployment_detail(
    dep: &Deployment,
    yaml: String,
    pods: Vec<PodInfo>,
    events: Vec<EventEntry>,
    now: Instant,
) -> (r: ResourceDetail)
    ensures
        r@ == deployment_detail_view(*dep, yaml@, seq_views(pods@), seq_views(events@), now),
{
    let mut d = extract_metadata(&dep.metadata, "deployments", now);
    match &dep.status {
        Some(status) => {
            d.phase = replicas_phase_text(i32_or_zero(status.ready_replicas), i32_or_zero(status.replicas));
            d.conditions = opt_conditions(&status.conditions, now);
        },
        None => {},
    }
    d.containers = template_of(&dep.spec, true);
    d.pods = pods;
    let r = finish(d, yaml, events);
    assert(r@ =~= deployment_detail_view(*dep, yaml@, seq_views(pods@), seq_views(events@), now));
    r
}

/// The detail of a service: its type as phase
/// ("ClusterIP" when unset).
pub open spec fn service_detail_view(svc: Service, yaml: Seq<char>, events: Seq<EventEntryView>, now: Instant) -> ResourceDetailView {
    let base = meta_detail(svc.metadata, "services"@, now);
    let phase = match svc.spec {
        Some(spec) => or_text(spec.type_, "ClusterIP"@),
        None => Seq::empty(),
    };
    ResourceDetailView { phase, yaml, events, ..base }
}

pub fn service_detail(svc: &Service, yaml: String, events: Vec<EventEntry>, now: Instant) -> (r: ResourceDetail)
    ensures
        r@ == service_detail_view(*svc, yaml@, seq_views(events@), now),
{
    let mut d = extract_metadata(&svc.metadata, "services", now);
    match &svc.spec {
        Some(spec) => {
            d.phase = text_or(&spec.type_, "ClusterIP");
        },
        None => {},
    }
    let r = finish(d, yaml, events);
    assert(r@ =~= service_detail_view(*svc, yaml@, seq_views(events@), now));
    r
}

/// The detail of a stateful set: readiness as
/// phase, the template's containers without ports, the given pods.
pub open spec fn statefulset_detail_view(
    s: StatefulSet,
    yaml: Seq<char>,
    pods: Seq<PodInfoView>,
    events: Seq<EventEntryView>,
    now: Instant,
) -> ResourceDetailView {
    let base = meta_detail(s.metadata, "statefulsets"@, now);
    let phase = match s.status {
        Some(st) => replicas_phase(crate::k8s::listing::count_or_zero(st.ready_replicas), st.replicas as int),
        None => Seq::empty(),
    };
    let containers = match s.spec {
        Some(spec) => match spec.template_spec {
            Some(ps) => template_containers_view(ps.containers@, false),
            None => Seq::empty(),
        },
        None => Seq::empty(),
    };
    ResourceDetailView { phase, containers, pods, yaml, events, ..base }
}

pub fn statefulset_detail(
    sts: &StatefulSet,
    yaml: String,
    pods: Vec<PodInfo>,
    events: Vec<EventEntry>,
    now: Instant,
) -> (r: ResourceDetail)
    ensures
        r@ == statefulset_detail_view(*sts, yaml@, seq_views(pods@), seq_views(events@), now),
{
    let mut d = extract_metadata(&sts.metadata, "statefulsets", now);
    match &sts.status {
        Some(status) => {
            d.phase = replicas_phase_text(i32_or_zero(status.ready_replicas), status.replicas);
        },
        None => {},
    }
    d.containers = template_of(&sts.spec, false);
    d.pods = pods;
    let r = finish(d, yaml, events);
    assert(r@ =~= statefulset_detail_view(*sts, yaml@, seq_views(pods@), seq_views(events@), now));
    r
}

/// The detail of a daemon set: "ready/desired
/// ready" as phase, the given pods.
pub open spec fn daemonset_detail_view(
    s: DaemonSet,
    yaml: Seq<char>,
    pods: Seq<PodInfoView>,
    events: Seq<EventEntryView>,
    now: Instant,
) -> ResourceDetailView {
    let base = meta_detail(s.metadata, "daemonsets"@, now);
    let phase = match s.status {
        Some(st) => replicas_phase(st.number_ready as int, st.desired_number_scheduled as int),
        None => Seq::empty(),
    };
    ResourceDetailView { phase, pods, yaml, events, ..base }
}

pub fn daemonset_detail(
    ds: &DaemonSet,
    yaml: String,
    pods: Vec<PodInfo>,
    events: Vec<EventEntry>,
    now: Instant,
) -> (r: ResourceDetail)
    ensures
        r@ == daemonset_detail_view(*ds, yaml@, seq_views(pods@), seq_views(events@), now),
{
    let mut d = extract_metadata(&ds.metadata, "daemonsets", now);
    match &ds.status {
        Some(status) => {
            d.phase = replicas_phase_text(status.number_ready, status.desired_number_scheduled);
        },
        None => {},
    }
    d.pods = pods;
    let r = finish(d, yaml, events);
    assert(r@ =~= daemonset_detail_view(*ds, yaml@, seq_views(pods@), seq_views(events@), now));
    r
}

/// The detail of a replica set.
pub open spec fn replicaset_detail_view(
    s: ReplicaSet,
    yaml: Seq<char>,
    pods: Seq<PodInfoView>,
    events: Seq<EventEntryView>,
    now: Instant,
) -> ResourceDetailView {
    let base = meta_detail(s.metadata, "replicasets"@, now);
    let phase = match s.status {
        Some(st) => replicas_phase(crate::k8s::listing::count_or_zero(st.ready_replicas), st.replicas as int),
        None => Seq::empty(),
    };
    ResourceDetailView { phase, pods, yaml, events, ..base }
}

pub fn replicaset_detail(
    rs: &ReplicaSet,
    yaml: String,
    pods: Vec<PodInfo>,
    events: Vec<EventEntry>,
    now: Instant,
) -> (r: ResourceDetail)
    ensures
        r@ == replicaset_detail_view(*rs, yaml@, seq_views(pods@), seq_views(events@), now),
{
    let mut d = extract_metadata(&rs.metadata, "replicasets", now);
    match &rs.status {
        Some(status) => {
            d.phase = replicas_phase_text(i32_or_zero(status.ready_replicas), status.replicas);
        },
        None => {},
    }
    d.pods = pods;
    let r = finish(d, yaml, events);
    assert(r@ =~= replicaset_detail_view(*rs, yaml@, seq_views(pods@), seq_views(events@), now));
    r
}

/// The detail of a job: "succeeded/completions
/// completed" and the conditions when it has a status, the given pods.
pub open spec fn job_detail_view(
    j: Job,
    yaml: Seq<char>,
    pods: Seq<PodInfoView>,
    events: Seq<EventEntryView>,
    now: Instant,
) -> ResourceDetailView {
    let base = meta_detail(j.metadata, "jobs"@, now);
    let (phase, conds) = match j.status {
        Some(st) => (
            ratio(job_succeeded(j), job_completions(j)) + " completed"@,
            opt_conditions_view(st.conditions, now),
        ),
        None => (Seq::empty(), Seq::empty()),
    };
    ResourceDetailView { phase, conditions: conds, pods, yaml, events, ..base }
}

pub fn job_detail(job: &Job, yaml: String, pods: Vec<PodInfo>, events: Vec<EventEntry>, now: Instant) -> (r: ResourceDetail)
    ensures
        r@ == job_detail_view(*job, yaml@, seq_views(pods@), seq_views(events@), now),
{
    let mut d = extract_metadata(&job.metadata, "jobs", now);
    match &job.status {
        Some(status) => {
            let (succeeded, completions) = job_counts(job);
            let mut phase = ratio_text(succeeded as i64, completions as i64);
            push_str(&mut phase, " completed");
            d.phase = phase;
            d.conditions = opt_conditions(&status.conditions, now);
        },
        None => {},
    }
    d.pods = pods;
    let r = finish(d, yaml, events);
    assert(r@ =~= job_detail_view(*job, yaml@, seq_views(pods@), seq_views(events@), now));
    r
}

/// The detail of a cron job: "Suspended (schedule)"
/// or "Active (schedule)" as phase.
pub open spec fn cronjob_detail_view(c: CronJob, yaml: Seq<char>, events: Seq<EventEntryView>, now: Instant) -> ResourceDetailView {
    let base = meta_detail(c.metadata, "cronjobs"@, now);
    let phase = match c.spec {
        Some(spec) => if spec.suspend == Some(true) {
            "Suspended ("@ + spec.schedule@ + ")"@
        } else {
            "Active ("@ + spec.schedule@ + ")"@
        },
        None => Seq::empty(),
    };
    ResourceDetailView { phase, yaml, events, ..base }
}

pub fn cronjob_detail(cj: &CronJob, yaml: String, events: Vec<EventEntry>, now: Instant) -> (r: ResourceDetail)
    ensures
        r@ == cronjob_detail_view(*cj, yaml@, seq_views(events@), now),
{
    let mut d = extract_metadata(&cj.metadata, "cronjobs", now);
    match &cj.spec {
        Some(spec) => {
            let mut phase = if crate::k8s::listing::cronjob_suspend(cj) {
                to_owned_string("Suspended (")
            } else {
                to_owned_string("Active (")
            };
            push_str(&mut phase, spec.schedule.as_str());
            push_str(&mut phase, ")");
            d.phase = phase;
        },
        None => {},
    }
    let r = finish(d, yaml, events);
    assert(r@ =~= cronjob_detail_view(*cj, yaml@, seq_views(events@), now));
    r
}

/// The detail of a node: readiness as phase and its
/// conditions when it has a status.
pub open spec fn node_detail_view(n: Node, yaml: Seq<char>, events: Seq<EventEntryView>, now: Instant) -> ResourceDetailView {
    let base = meta_detail(n.metadata, "nodes"@, now);
    let (phase, conds) = match n.status {
        Some(st) => (
            readiness_text(
                match st.conditions {
                    Some(cs) => Some(cs@),
                    None => None,
                },
            ),
            opt_conditions_view(st.conditions, now),
        ),
        None => (Seq::empty(), Seq::empty()),
    };
    ResourceDetailView { phase, conditions: conds, yaml, events, ..base }
}

pub fn node_detail(node: &Node, yaml: String, events: Vec<EventEntry>, now: Instant) -> (r: ResourceDetail)
    ensures
        r@ == node_detail_view(*node, yaml@, seq_views(events@), now),
{
    let mut d = extract_metadata(&node.metadata, "nodes", now);
    match &node.status {
        Some(status) => {
            d.phase = readiness(&status.conditions);
            d.conditions = opt_conditions(&status.conditions, now);
        },
        None => {},
    }
    let r = finish(d, yaml, events);
    assert(r@ =~= node_detail_view(*node, yaml@, seq_views(events@), now));
    r
}

/// The detail of an object of a kind without its own view (config maps,
/// secrets, service accounts, ingresses, claims, events): its metadata,
/// YAML and events.
pub open spec fn typed_detail_view(meta: ObjectMeta, resource_type: Seq<char>, yaml: Seq<char>, events: Seq<EventEntryView>, now: Instant) -> ResourceDetailView {
    ResourceDetailView { yaml, events, ..meta_detail(meta, resource_type, now) }
}

pub fn typed_detail(meta: &ObjectMeta, resource_type: &str, yaml: String, events: Vec<EventEntry>, now: Instant) -> (r: ResourceDetail)
    ensures
        r@ == typed_detail_view(*meta, resource_type@, yaml@, seq_views(events@), now),
{
    let d = extract_metadata(meta, resource_type, now);
    finish(d, yaml, events)
}

/// The detail of a cluster-scoped object that carries only a phase
/// (persistent volumes, namespaces): the phase, empty when unset, and no
/// events.
pub open spec fn phase_detail_view(meta: ObjectMeta, resource_type: Seq<char>, status: Option<crate::k8s::objects::PhaseStatus>, yaml: Seq<char>, now: Instant) -> ResourceDetailView {
    let phase = match status {
        Some(st) => or_text(st.phase, Seq::empty()),
        None => Seq::empty(),
    };
    ResourceDetailView { phase, yaml, ..meta_detail(meta, resource_type, now) }
}

fn phase_detail(meta: &ObjectMeta, resource_type: &str, status: &Option<crate::k8s::objects::PhaseStatus>, yaml: String, now: Instant) -> (r: ResourceDetail)
    ensures
        r@ == phase_detail_view(*meta, resource_type@, *status, yaml@, now),
{
    let mut d = extract_metadata(meta, resource_type, now);
    match status {
        Some(st) => {
            d.phase = text_or_empty(&st.phase);
        },
        None => {},
    }
    d.yaml = yaml;
    assert(d@ =~= phase_detail_view(*meta, resource_type@, *status, yaml@, now));
    d
}

/// The detail of a persistent volume.
pub fn pv_detail(pv: &PersistentVolume, yaml: String, now: Instant) -> (r: ResourceDetail)
    ensures
        r@ == phase_detail_view(pv.metadata, "persistentvolumes"@, pv.status, yaml@, now),
{
    phase_detail(&pv.metadata, "persistentvolumes", &pv.status, yaml, now)
}

/// The detail of a namespace.
pub fn namespace_detail(ns: &Namespace, yaml: String, now: Instant) -> (r: ResourceDetail)
    ensures
        r@ == phase_detail_view(ns.metadata, "namespaces"@, ns.status, yaml@, now),
{
    phase_detail(&ns.metadata, "namespaces", &ns.status, yaml, now)
}

/// The detail of a resource type without a handler:
/// name, namespace and type as given, the events, nothing else.
pub open spec fn generic_detail_view(resource_type: Seq<char>, name: Seq<char>, namespace: Seq<char>, events: Seq<EventEntryView>) -> ResourceDetailView {
    ResourceDetailView {
        name,
        namespace: Some(namespace),
        resource_type,
        age: Seq::empty(),
        phase: Seq::empty(),
        labels: Seq::empty(),
        annotations: Seq::empty(),
        owner_references: Seq::empty(),
        conditions: Seq::empty(),
        containers: Seq::empty(),
        pods: Seq::empty(),
        yaml: Seq::empty(),
        events,
    }
}

pub fn generic_detail(resource_type: &str, name: &str, namespace: &str, events: Vec<EventEntry>) -> (r: ResourceDetail)
    ensures
        r@ == generic_detail_view(resource_type@, name@, namespace@, seq_views(events@)),
{
    let r = ResourceDetail {
        name: to_owned_string(name),
        namespace: Some(to_owned_string(namespace)),
        resource_type: to_owned_string(resource_type),
        age: String::new(),
        phase: String::new(),
        labels: Vec::new(),
        annotations: Vec::new(),
        owner_references: Vec::new(),
        conditions: Vec::new(),
        containers: Vec::new(),
        pods: Vec::new(),
        yaml: String::new(),
        events,
    };
    assert(r@ =~= generic_detail_view(resource_type@, name@, namespace@, seq_views(events@)));
    r
}

} // verus!

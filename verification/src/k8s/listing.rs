//! The rows and columns of each resource listing.
use vstd::prelude::*;
use crate::k8s::age::Instant;
use crate::k8s::common::{
    age_cell, count_ratio, count_ratio_text, int_text, lookup, lookup_value, name_any, object_age,
    object_name, or_text, ratio, ratio_text, text_or, text_or_empty,
};
use crate::k8s::objects::{
    ConfigMap, ContainerStatus, CronJob, DaemonSet, Deployment, Event, Ingress, IntOrString, Job,
    Namespace, Node, ObjectCondition, PersistentVolume, PersistentVolumeClaim, Pod, ReplicaSet,
    Secret, Service, ServiceAccount, ServicePort, StatefulSet,
};
use crate::k8s::ops::ResourceKind;
use crate::model::detail::KeyValue;
use crate::model::table::{column_specs, row_cells, TableColumn, TableData, TableRow};
use crate::text::{
    debug_quoted, debug_string, decimal_int, decimal_nat, has_prefix, join, join_seq, push_char,
    push_str, starts_with, to_owned_string, usize_to_string, views,
};

verus! {

/// A column of a listing: its header and minimum width.
pub type ColumnSpec = (Seq<char>, u32);

fn col(name: &str, width: u32) -> (c: TableColumn)
    ensures
        c.name@ == name@,
        c.min_width == width,
{
    TableColumn::new(name, width)
}

/// Whether a table has the given columns and one row per item, each row
/// holding the cells `cells(i)`.
pub open spec fn table_is(
    t: TableData,
    columns: Seq<ColumnSpec>,
    n: nat,
    cells: spec_fn(int) -> Seq<Seq<char>>,
) -> bool {
    &&& column_specs(t.columns@) == columns
    &&& t.rows@.len() == n
    &&& forall|i: int| 0 <= i < n ==> row_cells(#[trigger] t.rows@[i]) == cells(i)
}

fn row5(a: String, b: String, c: String, d: String, e: String) -> (r: TableRow)
    ensures
        row_cells(r) == seq![a@, b@, c@, d@, e@],
{
    let mut cells: Vec<String> = Vec::new();
    cells.push(a);
    cells.push(b);
    cells.push(c);
    cells.push(d);
    cells.push(e);
    let r = TableRow { cells };
    assert(row_cells(r) =~= seq![a@, b@, c@, d@, e@]);
    r
}

fn row4(a: String, b: String, c: String, d: String) -> (r: TableRow)
    ensures
        row_cells(r) == seq![a@, b@, c@, d@],
{
    let mut cells: Vec<String> = Vec::new();
    cells.push(a);
    cells.push(b);
    cells.push(c);
    cells.push(d);
    let r = TableRow { cells };
    assert(row_cells(r) =~= seq![a@, b@, c@, d@]);
    r
}

fn row3(a: String, b: String, c: String) -> (r: TableRow)
    ensures
        row_cells(r) == seq![a@, b@, c@],
{
    let mut cells: Vec<String> = Vec::new();
    cells.push(a);
    cells.push(b);
    cells.push(c);
    let r = TableRow { cells };
    assert(row_cells(r) =~= seq![a@, b@, c@]);
    r
}

fn columns5(
    a: (&str, u32),
    b: (&str, u32),
    c: (&str, u32),
    d: (&str, u32),
    e: (&str, u32),
) -> (v: Vec<TableColumn>)
    ensures
        column_specs(v@) == seq![(a.0@, a.1), (b.0@, b.1), (c.0@, c.1), (d.0@, d.1), (e.0@, e.1)],
{
    let mut v: Vec<TableColumn> = Vec::new();
    v.push(col(a.0, a.1));
    v.push(col(b.0, b.1));
    v.push(col(c.0, c.1));
    v.push(col(d.0, d.1));
    v.push(col(e.0, e.1));
    assert(column_specs(v@) =~= seq![
        (a.0@, a.1),
        (b.0@, b.1),
        (c.0@, c.1),
        (d.0@, d.1),
        (e.0@, e.1),
    ]);
    v
}

fn columns4(a: (&str, u32), b: (&str, u32), c: (&str, u32), d: (&str, u32)) -> (v: Vec<
    TableColumn,
>)
    ensures
        column_specs(v@) == seq![(a.0@, a.1), (b.0@, b.1), (c.0@, c.1), (d.0@, d.1)],
{
    let mut v: Vec<TableColumn> = Vec::new();
    v.push(col(a.0, a.1));
    v.push(col(b.0, b.1));
    v.push(col(c.0, c.1));
    v.push(col(d.0, d.1));
    assert(column_specs(v@) =~= seq![(a.0@, a.1), (b.0@, b.1), (c.0@, c.1), (d.0@, d.1)]);
    v
}

fn columns3(a: (&str, u32), b: (&str, u32), c: (&str, u32)) -> (v: Vec<TableColumn>)
    ensures
        column_specs(v@) == seq![(a.0@, a.1), (b.0@, b.1), (c.0@, c.1)],
{
    let mut v: Vec<TableColumn> = Vec::new();
    v.push(col(a.0, a.1));
    v.push(col(b.0, b.1));
    v.push(col(c.0, c.1));
    assert(column_specs(v@) =~= seq![(a.0@, a.1), (b.0@, b.1), (c.0@, c.1)]);
    v
}

// ── Pods ───────────────────────────────────────────────────────────────

/// The number of ready containers.
pub open spec fn ready_count(cs: Seq<ContainerStatus>) -> nat
    decreases cs.len(),
{
    if cs.len() == 0 {
        0
    } else {
        ready_count(cs.drop_last()) + if cs.last().ready { 1nat } else { 0nat }
    }
}

/// The sum of the containers' restart counts.
pub open spec fn restart_total(cs: Seq<ContainerStatus>) -> int
    decreases cs.len(),
{
    if cs.len() == 0 {
        0
    } else {
        restart_total(cs.drop_last()) + cs.last().restart_count
    }
}

/// Summing the restart counts left to right never leaves the range of `i32`
/// (the sum the listing shows is an `i32`, which would overflow otherwise).
pub open spec fn restarts_fit(cs: Seq<ContainerStatus>) -> bool {
    forall|k: int|
        0 <= k <= cs.len() ==> i32::MIN <= #[trigger] restart_total(cs.take(k)) <= i32::MAX
}

/// The container statuses of a pod, when its status lists them.
pub open spec fn container_statuses(p: Pod) -> Option<Seq<ContainerStatus>> {
    match p.status {
        Some(s) => match s.container_statuses {
            Some(cs) => Some(cs@),
            None => None,
        },
        None => None,
    }
}

/// A pod's phase, or "Unknown".
pub open spec fn pod_phase(p: Pod) -> Seq<char> {
    match p.status {
        Some(s) => or_text(s.phase, "Unknown"@),
        None => "Unknown"@,
    }
}

/// Whether a pod's restart counts sum within range.
pub open spec fn pod_ok(p: Pod) -> bool {
    match container_statuses(p) {
        Some(cs) => restarts_fit(cs),
        None => true,
    }
}

/// Ready containers of all, as `ready/total`.
pub open spec fn pod_ready(p: Pod) -> Seq<char> {
    match container_statuses(p) {
        Some(cs) => count_ratio(ready_count(cs), cs.len()),
        None => count_ratio(0, 0),
    }
}

/// The restart total of a pod (zero without container statuses).
pub open spec fn pod_restarts(p: Pod) -> int {
    match container_statuses(p) {
        Some(cs) => restart_total(cs),
        None => 0,
    }
}

pub open spec fn pod_columns() -> Seq<ColumnSpec> {
    seq![("NAME"@, 30), ("READY"@, 8), ("STATUS"@, 12), ("RESTARTS"@, 10), ("AGE"@, 10)]
}

pub open spec fn pod_cells(p: Pod, now: Instant) -> Seq<Seq<char>> {
    seq![
        name_any(p.metadata),
        pod_ready(p),
        pod_phase(p),
        decimal_int(pod_restarts(p)),
        age_cell(now, p.metadata),
    ]
}

/// Whether summing the restart counts stays within `i32` at every step.
pub fn restarts_in_range(cs: &Vec<ContainerStatus>) -> (r: bool)
    ensures
        r == restarts_fit(cs@),
{
    let mut total: i64 = 0;
    for i in 0..cs.len()
        invariant
            total == restart_total(cs@.take(i as int)),
            forall|k: int| 0 <= k <= i ==> i32::MIN <= #[trigger] restart_total(cs@.take(k)) <= i32::MAX,
    {
        assert(cs@.take(i + 1).drop_last() == cs@.take(i as int));
        total = total + cs[i].restart_count as i64;
        if total < i32::MIN as i64 || total > i32::MAX as i64 {
            assert(!(i32::MIN <= restart_total(cs@.take(i + 1)) <= i32::MAX));
            return false;
        }
    }
    assert(cs@.take(cs.len() as int) == cs@);
    true
}

/// Whether a pod's restarts add up within range.
pub fn pod_in_range(p: &Pod) -> (r: bool)
    ensures
        r == pod_ok(*p),
{
    match &p.status {
        Some(s) => match &s.container_statuses {
            Some(cs) => restarts_in_range(cs),
            None => true,
        },
        None => true,
    }
}

/// Whether every pod of a list has its restarts add up within range.
pub fn pods_in_range(pods: &Vec<Pod>) -> (r: bool)
    ensures
        r == (forall|i: int| 0 <= i < pods@.len() ==> pod_ok(#[trigger] pods@[i])),
{
    for i in 0..pods.len()
        invariant
            forall|j: int| 0 <= j < i ==> pod_ok(#[trigger] pods@[j]),
    {
        if !pod_in_range(&pods[i]) {
            return false;
        }
    }
    true
}

/// Counts the ready containers and sums the restarts.
pub fn container_counts(cs: &Vec<ContainerStatus>) -> (r: (usize, i32))
    requires
        restarts_fit(cs@),
    ensures
        r.0 == ready_count(cs@),
        r.1 == restart_total(cs@),
{
    let mut ready: usize = 0;
    let mut restarts: i32 = 0;
    for i in 0..cs.len()
        invariant
            restarts_fit(cs@),
            ready == ready_count(cs@.take(i as int)),
            ready <= i,
            restarts == restart_total(cs@.take(i as int)),
    {
        assert(cs@.take(i + 1).drop_last() == cs@.take(i as int));
        assert(i32::MIN <= restart_total(cs@.take(i + 1)) <= i32::MAX);
        if cs[i].ready {
            ready = ready + 1;
        }
        restarts = restarts + cs[i].restart_count;
    }
    assert(cs@.take(cs.len() as int) == cs@);
    (ready, restarts)
}

pub fn pod_row(p: &Pod, now: Instant) -> (r: TableRow)
    requires
        pod_ok(*p),
    ensures
        row_cells(r) == pod_cells(*p, now),
{
    let name = object_name(&p.metadata);
    let status = match &p.status {
        Some(s) => text_or(&s.phase, "Unknown"),
        None => to_owned_string("Unknown"),
    };
    let (ready, total, restarts) = match &p.status {
        Some(s) => match &s.container_statuses {
            Some(cs) => {
                let (ready, restarts) = container_counts(cs);
                (ready, cs.len(), restarts)
            },
            None => (0, 0, 0),
        },
        None => (0, 0, 0),
    };
    let age = object_age(now, &p.metadata);
    row5(name, count_ratio_text(ready, total), status, int_text(restarts), age)
}

/// The pod listing.
pub fn pods_table(items: &Vec<Pod>, now: Instant) -> (t: TableData)
    requires
        forall|i: int| 0 <= i < items@.len() ==> pod_ok(#[trigger] items@[i]),
    ensures
        table_is(t, pod_columns(), items@.len(), |i: int| pod_cells(items@[i], now)),
{
    let columns = columns5(("NAME", 30), ("READY", 8), ("STATUS", 12), ("RESTARTS", 10), ("AGE", 10));
    let mut rows: Vec<TableRow> = Vec::new();
    for i in 0..items.len()
        invariant
                forall|i: int| 0 <= i < items@.len() ==> pod_ok(#[trigger] items@[i]),
            rows@.len() == i,
            forall|j: int| 0 <= j < i ==> row_cells(#[trigger] rows@[j]) == pod_cells(items@[j], now),
    {
        rows.push(pod_row(&items[i], now));
    }
    TableData { columns, rows }
}


// ── Deployments ────────────────────────────────────────────────────────

/// An optional count, or zero.
pub open spec fn count_or_zero(o: Option<i32>) -> int {
    match o {
        Some(n) => n as int,
        None => 0,
    }
}

fn i32_or(o: Option<i32>, d: i32) -> (r: i32)
    ensures
        r == match o {
            Some(n) => n,
            None => d,
        },
{
    match o {
        Some(n) => n,
        None => d,
    }
}

pub open spec fn deployment_columns() -> Seq<ColumnSpec> {
    seq![("NAME"@, 30), ("READY"@, 10), ("UP-TO-DATE"@, 20), ("AVAILABLE"@, 15), ("AGE"@, 10)]
}

pub open spec fn deployment_cells(d: Deployment, now: Instant) -> Seq<Seq<char>> {
    let (replicas, ready, updated, available) = match d.status {
        Some(s) => (
            count_or_zero(s.replicas),
            count_or_zero(s.ready_replicas),
            count_or_zero(s.updated_replicas),
            count_or_zero(s.available_replicas),
        ),
        None => (0, 0, 0, 0),
    };
    seq![
        name_any(d.metadata),
        ratio(ready, replicas),
        decimal_int(updated),
        decimal_int(available),
        age_cell(now, d.metadata),
    ]
}

pub fn deployment_row(d: &Deployment, now: Instant) -> (r: TableRow)
    ensures
        row_cells(r) == deployment_cells(*d, now),
{
    let name = object_name(&d.metadata);
    let (replicas, ready, updated, available) = match &d.status {
        Some(s) => (
            i32_or(s.replicas, 0),
            i32_or(s.ready_replicas, 0),
            i32_or(s.updated_replicas, 0),
            i32_or(s.available_replicas, 0),
        ),
        None => (0, 0, 0, 0),
    };
    let age = object_age(now, &d.metadata);
    row5(name, ratio_text(ready as i64, replicas as i64), int_text(updated), int_text(available), age)
}

/// The deployment listing.
pub fn deployments_table(items: &Vec<Deployment>, now: Instant) -> (t: TableData)
    ensures
        table_is(t, deployment_columns(), items@.len(), |i: int| deployment_cells(items@[i], now)),
{
    let columns = columns5(("NAME", 30), ("READY", 10), ("UP-TO-DATE", 20), ("AVAILABLE", 15), ("AGE", 10));
    let mut rows: Vec<TableRow> = Vec::new();
    for i in 0..items.len()
        invariant
                    rows@.len() == i,
            forall|j: int| 0 <= j < i ==> row_cells(#[trigger] rows@[j]) == deployment_cells(items@[j], now),
    {
        rows.push(deployment_row(&items[i], now));
    }
    TableData { columns, rows }
}

// ── Services ───────────────────────────────────────────────────────────

/// The `Debug` rendering of a port target.
pub open spec fn target_text(t: Option<IntOrString>) -> Seq<char> {
    match t {
        Some(IntOrString::Int(n)) => "Int("@ + decimal_int(n as int) + ")"@,
        Some(IntOrString::String(s)) => "String("@ + debug_quoted(s@) + ")"@,
        None => Seq::empty(),
    }
}

/// One port of a service: `port:target/protocol`.
pub open spec fn service_port_text(p: ServicePort) -> Seq<char> {
    decimal_int(p.port as int) + seq![':'] + target_text(p.target_port) + seq!['/'] + or_text(
        p.protocol,
        "TCP"@,
    )
}

pub open spec fn service_ports_text(ports: Seq<ServicePort>) -> Seq<char> {
    join_seq(ports.map_values(|p: ServicePort| service_port_text(p)), ","@)
}

pub open spec fn service_columns() -> Seq<ColumnSpec> {
    seq![("NAME"@, 25), ("TYPE"@, 12), ("CLUSTER-IP"@, 16), ("PORTS"@, 20), ("AGE"@, 10)]
}

pub open spec fn service_cells(s: Service, now: Instant) -> Seq<Seq<char>> {
    let (ty, ip, ports) = match s.spec {
        Some(spec) => (
            or_text(spec.type_, "ClusterIP"@),
            or_text(spec.cluster_ip, "None"@),
            match spec.ports {
                Some(ps) => service_ports_text(ps@),
                None => service_ports_text(Seq::empty()),
            },
        ),
        None => ("ClusterIP"@, "None"@, service_ports_text(Seq::empty())),
    };
    seq![name_any(s.metadata), ty, ip, ports, age_cell(now, s.metadata)]
}

fn target_string(t: &Option<IntOrString>) -> (r: String)
    ensures
        r@ == target_text(*t),
{
    match t {
        Some(IntOrString::Int(n)) => {
            let mut r = to_owned_string("Int(");
            let digits = int_text(*n);
            push_str(&mut r, digits.as_str());
            push_char(&mut r, ')');
            proof {
                reveal_strlit(")");
                assert(")"@ == seq![')']);
            }
            r
        },
        Some(IntOrString::String(s)) => {
            let mut r = to_owned_string("String(");
            let quoted = debug_string(s.as_str());
            push_str(&mut r, quoted.as_str());
            push_char(&mut r, ')');
            proof {
                reveal_strlit(")");
                assert(")"@ == seq![')']);
            }
            r
        },
        None => String::new(),
    }
}

fn service_port_string(p: &ServicePort) -> (r: String)
    ensures
        r@ == service_port_text(*p),
{
    let mut r = int_text(p.port);
    push_char(&mut r, ':');
    let target = target_string(&p.target_port);
    push_str(&mut r, target.as_str());
    push_char(&mut r, '/');
    let proto = text_or(&p.protocol, "TCP");
    push_str(&mut r, proto.as_str());
    r
}

fn service_ports_string(ports: &Vec<ServicePort>) -> (r: String)
    ensures
        r@ == service_ports_text(ports@),
{
    let mut parts: Vec<String> = Vec::new();
    for i in 0..ports.len()
        invariant
            views(parts@) == ports@.take(i as int).map_values(|p: ServicePort| service_port_text(p)),
    {
        parts.push(service_port_string(&ports[i]));
        assert(ports@.take(i + 1).map_values(|p: ServicePort| service_port_text(p))
            =~= ports@.take(i as int).map_values(|p: ServicePort| service_port_text(p)).push(
            service_port_text(ports@[i as int]),
        ));
        assert(views(parts@) =~= ports@.take(i + 1).map_values(|p: ServicePort| service_port_text(p)));
    }
    assert(ports@.take(ports.len() as int) == ports@);
    join(&parts, ",")
}

pub fn service_row(s: &Service, now: Instant) -> (r: TableRow)
    ensures
        row_cells(r) == service_cells(*s, now),
{
    let name = object_name(&s.metadata);
    let (ty, ip, ports) = match &s.spec {
        Some(spec) => (
            text_or(&spec.type_, "ClusterIP"),
            text_or(&spec.cluster_ip, "None"),
            match &spec.ports {
                Some(ps) => service_ports_string(ps),
                None => service_ports_string(&Vec::new()),
            },
        ),
        None => (
            to_owned_string("ClusterIP"),
            to_owned_string("None"),
            service_ports_string(&Vec::new()),
        ),
    };
    let age = object_age(now, &s.metadata);
    row5(name, ty, ip, ports, age)
}

/// The service listing.
pub fn services_table(items: &Vec<Service>, now: Instant) -> (t: TableData)
    ensures
        table_is(t, service_columns(), items@.len(), |i: int| service_cells(items@[i], now)),
{
    let columns = columns5(("NAME", 25), ("TYPE", 12), ("CLUSTER-IP", 16), ("PORTS", 20), ("AGE", 10));
    let mut rows: Vec<TableRow> = Vec::new();
    for i in 0..items.len()
        invariant
                    rows@.len() == i,
            forall|j: int| 0 <= j < i ==> row_cells(#[trigger] rows@[j]) == service_cells(items@[j], now),
    {
        rows.push(service_row(&items[i], now));
    }
    TableData { columns, rows }
}


// ── Nodes ──────────────────────────────────────────────────────────────

/// The first condition of type "Ready".
pub open spec fn ready_condition(conds: Seq<ObjectCondition>) -> Option<ObjectCondition>
    decreases conds.len(),
{
    if conds.len() == 0 {
        None
    } else if conds[0].type_@ == "Ready"@ {
        Some(conds[0])
    } else {
        ready_condition(conds.drop_first())
    }
}

/// "Ready" or "NotReady" by the first Ready condition, else "Unknown".
pub open spec fn readiness_text(conds: Option<Seq<ObjectCondition>>) -> Seq<char> {
    match conds {
        Some(cs) => match ready_condition(cs) {
            Some(c) => if c.status@ == "True"@ { "Ready"@ } else { "NotReady"@ },
            None => "Unknown"@,
        },
        None => "Unknown"@,
    }
}

/// The readiness text of a node.
pub open spec fn node_readiness(n: Node) -> Seq<char> {
    match n.status {
        Some(s) => readiness_text(
            match s.conditions {
                Some(cs) => Some(cs@),
                None => None,
            },
        ),
        None => "Unknown"@,
    }
}

pub fn readiness(conds: &Option<Vec<ObjectCondition>>) -> (r: String)
    ensures
        r@ == readiness_text(
            match *conds {
                Some(cs) => Some(cs@),
                None => None,
            },
        ),
{
    match conds {
        Some(cs) => {
            let mut i: usize = 0;
            assert(cs@.skip(0) == cs@);
            while i < cs.len()
                invariant
                    i <= cs@.len(),
                    *conds == Some(*cs),
                    ready_condition(cs@) == ready_condition(cs@.skip(i as int)),
                decreases cs.len() - i,
            {
                assert(cs@.skip(i as int).drop_first() == cs@.skip(i + 1));
                if crate::text::str_eq(cs[i].type_.as_str(), "Ready") {
                    if crate::text::str_eq(cs[i].status.as_str(), "True") {
                        return to_owned_string("Ready");
                    } else {
                        return to_owned_string("NotReady");
                    }
                }
                i = i + 1;
            }
            to_owned_string("Unknown")
        },
        None => to_owned_string("Unknown"),
    }
}

/// The label prefix that marks a node role.
pub open spec fn role_prefix() -> Seq<char> {
    "node-role.kubernetes.io/"@
}

/// The roles named by a node's labels, in key order.
pub open spec fn roles_of(labels: Seq<KeyValue>) -> Seq<Seq<char>>
    decreases labels.len(),
{
    if labels.len() == 0 {
        Seq::empty()
    } else {
        let earlier = roles_of(labels.drop_last());
        let key = labels.last().0@;
        if has_prefix(key, role_prefix()) {
            earlier.push(crate::text::strip_all(key, role_prefix()))
        } else {
            earlier
        }
    }
}

/// The roles column: the roles joined with commas, or "<none>".
pub open spec fn node_roles(n: Node) -> Seq<char> {
    let joined = match n.metadata.labels {
        Some(l) => join_seq(roles_of(l@), ","@),
        None => Seq::empty(),
    };
    if joined.len() == 0 { "<none>"@ } else { joined }
}

pub open spec fn node_columns() -> Seq<ColumnSpec> {
    seq![("NAME"@, 30), ("STATUS"@, 10), ("ROLES"@, 15), ("VERSION"@, 15), ("AGE"@, 10)]
}

pub open spec fn node_cells(n: Node, now: Instant) -> Seq<Seq<char>> {
    let version = match n.status {
        Some(s) => or_text(s.kubelet_version, Seq::empty()),
        None => Seq::empty(),
    };
    seq![name_any(n.metadata), node_readiness(n), node_roles(n), version, age_cell(now, n.metadata)]
}

fn roles_string(labels: &Option<Vec<KeyValue>>) -> (r: String)
    ensures
        r@ == (match *labels {
            Some(l) => join_seq(roles_of(l@), ","@),
            None => Seq::empty(),
        }),
{
    match labels {
        Some(l) => {
            let mut roles: Vec<String> = Vec::new();
            for i in 0..l.len()
                invariant
                    views(roles@) == roles_of(l@.take(i as int)),
            {
                assert(l@.take(i + 1).drop_last() == l@.take(i as int));
                if starts_with(l[i].0.as_str(), "node-role.kubernetes.io/") {
                    roles.push(
                        crate::text::trim_start_matches(l[i].0.as_str(), "node-role.kubernetes.io/"),
                    );
                    assert(views(roles@) =~= roles_of(l@.take(i + 1)));
                }
            }
            assert(l@.take(l.len() as int) == l@);
            join(&roles, ",")
        },
        None => String::new(),
    }
}

pub fn node_row(n: &Node, now: Instant) -> (r: TableRow)
    ensures
        row_cells(r) == node_cells(*n, now),
{
    let name = object_name(&n.metadata);
    let status = match &n.status {
        Some(s) => readiness(&s.conditions),
        None => to_owned_string("Unknown"),
    };
    let joined = roles_string(&n.metadata.labels);
    let roles = if joined.as_str().unicode_len() == 0 {
        to_owned_string("<none>")
    } else {
        joined
    };
    let version = match &n.status {
        Some(s) => text_or_empty(&s.kubelet_version),
        None => String::new(),
    };
    proof {
        reveal_strlit("");
    }
    let age = object_age(now, &n.metadata);
    assert(status@ == node_readiness(*n));
    assert(roles@ == node_roles(*n));
    assert(version@ == node_cells(*n, now)[3]);
    row5(name, status, roles, version, age)
}

/// The node listing.
pub fn nodes_table(items: &Vec<Node>, now: Instant) -> (t: TableData)
    ensures
        table_is(t, node_columns(), items@.len(), |i: int| node_cells(items@[i], now)),
{
    let columns = columns5(("NAME", 30), ("STATUS", 10), ("ROLES", 15), ("VERSION", 15), ("AGE", 10));
    let mut rows: Vec<TableRow> = Vec::new();
    for i in 0..items.len()
        invariant
                    rows@.len() == i,
            forall|j: int| 0 <= j < i ==> row_cells(#[trigger] rows@[j]) == node_cells(items@[j], now),
    {
        rows.push(node_row(&items[i], now));
    }
    TableData { columns, rows }
}

// ── Namespaces ─────────────────────────────────────────────────────────

pub open spec fn namespace_columns() -> Seq<ColumnSpec> {
    seq![("NAME"@, 30), ("STATUS"@, 12), ("AGE"@, 10)]
}

pub open spec fn namespace_phase(n: Namespace, fallback: Seq<char>) -> Seq<char> {
    match n.status {
        Some(s) => or_text(s.phase, fallback),
        None => fallback,
    }
}

pub open spec fn namespace_cells(n: Namespace, now: Instant) -> Seq<Seq<char>> {
    seq![name_any(n.metadata), namespace_phase(n, "Unknown"@), age_cell(now, n.metadata)]
}

pub fn namespace_row(n: &Namespace, now: Instant) -> (r: TableRow)
    ensures
        row_cells(r) == namespace_cells(*n, now),
{
    let name = object_name(&n.metadata);
    let status = match &n.status {
        Some(s) => text_or(&s.phase, "Unknown"),
        None => to_owned_string("Unknown"),
    };
    let age = object_age(now, &n.metadata);
    row3(name, status, age)
}

/// The namespace listing.
pub fn namespaces_table(items: &Vec<Namespace>, now: Instant) -> (t: TableData)
    ensures
        table_is(t, namespace_columns(), items@.len(), |i: int| namespace_cells(items@[i], now)),
{
    let columns = columns3(("NAME", 30), ("STATUS", 12), ("AGE", 10));
    let mut rows: Vec<TableRow> = Vec::new();
    for i in 0..items.len()
        invariant
                    rows@.len() == i,
            forall|j: int| 0 <= j < i ==> row_cells(#[trigger] rows@[j]) == namespace_cells(items@[j], now),
    {
        rows.push(namespace_row(&items[i], now));
    }
    TableData { columns, rows }
}


// ── Daemon sets ────────────────────────────────────────────────────────

pub open spec fn daemonset_columns() -> Seq<ColumnSpec> {
    seq![("NAME"@, 30), ("DESIRED"@, 8), ("CURRENT"@, 8), ("READY"@, 8), ("AGE"@, 10)]
}

pub open spec fn daemonset_cells(d: DaemonSet, now: Instant) -> Seq<Seq<char>> {
    let (desired, current, ready) = match d.status {
        Some(s) => (s.desired_number_scheduled as int, s.current_number_scheduled as int, s.number_ready as int),
        None => (0, 0, 0),
    };
    seq![name_any(d.metadata), decimal_int(desired), decimal_int(current), decimal_int(ready), age_cell(now, d.metadata)]
}

pub fn daemonset_row(d: &DaemonSet, now: Instant) -> (r: TableRow)
    ensures
        row_cells(r) == daemonset_cells(*d, now),
{
    let name = object_name(&d.metadata);
    let (desired, current, ready) = match &d.status {
        Some(s) => (s.desired_number_scheduled, s.current_number_scheduled, s.number_ready),
        None => (0, 0, 0),
    };
    let age = object_age(now, &d.metadata);
    row5(name, int_text(desired), int_text(current), int_text(ready), age)
}

/// The daemonsets listing.
pub fn daemonsets_table(items: &Vec<DaemonSet>, now: Instant) -> (t: TableData)
    ensures
        table_is(t, daemonset_columns(), items@.len(), |i: int| daemonset_cells(items@[i], now)),
{
    let columns = columns5(("NAME", 30), ("DESIRED", 8), ("CURRENT", 8), ("READY", 8), ("AGE", 10));
    let mut rows: Vec<TableRow> = Vec::new();
    for i in 0..items.len()
        invariant
                    rows@.len() == i,
            forall|j: int| 0 <= j < i ==> row_cells(#[trigger] rows@[j]) == daemonset_cells(items@[j], now),
    {
        rows.push(daemonset_row(&items[i], now));
    }
    TableData { columns, rows }
}

// ── Stateful sets ──────────────────────────────────────────────────────

pub open spec fn statefulset_columns() -> Seq<ColumnSpec> {
    seq![("NAME"@, 30), ("READY"@, 10), ("AGE"@, 10)]
}

pub open spec fn statefulset_cells(d: StatefulSet, now: Instant) -> Seq<Seq<char>> {
    let (replicas, ready) = match d.status {
        Some(s) => (s.replicas as int, count_or_zero(s.ready_replicas)),
        None => (0, 0),
    };
    seq![name_any(d.metadata), ratio(ready, replicas), age_cell(now, d.metadata)]
}

pub fn statefulset_row(d: &StatefulSet, now: Instant) -> (r: TableRow)
    ensures
        row_cells(r) == statefulset_cells(*d, now),
{
    let name = object_name(&d.metadata);
    let (replicas, ready) = match &d.status {
        Some(s) => (s.replicas, i32_or(s.ready_replicas, 0)),
        None => (0, 0),
    };
    let age = object_age(now, &d.metadata);
    row3(name, ratio_text(ready as i64, replicas as i64), age)
}

/// The statefulsets listing.
pub fn statefulsets_table(items: &Vec<StatefulSet>, now: Instant) -> (t: TableData)
    ensures
        table_is(t, statefulset_columns(), items@.len(), |i: int| statefulset_cells(items@[i], now)),
{
    let columns = columns3(("NAME", 30), ("READY", 10), ("AGE", 10));
    let mut rows: Vec<TableRow> = Vec::new();
    for i in 0..items.len()
        invariant
                    rows@.len() == i,
            forall|j: int| 0 <= j < i ==> row_cells(#[trigger] rows@[j]) == statefulset_cells(items@[j], now),
    {
        rows.push(statefulset_row(&items[i], now));
    }
    TableData { columns, rows }
}

// ── Replica sets ───────────────────────────────────────────────────────

pub open spec fn replicaset_columns() -> Seq<ColumnSpec> {
    seq![("NAME"@, 35), ("DESIRED"@, 8), ("CURRENT"@, 8), ("READY"@, 8), ("AGE"@, 10)]
}

pub open spec fn replicaset_cells(d: ReplicaSet, now: Instant) -> Seq<Seq<char>> {
    let (replicas, labeled, ready) = match d.status {
        Some(s) => (s.replicas as int, count_or_zero(s.fully_labeled_replicas), count_or_zero(s.ready_replicas)),
        None => (0, 0, 0),
    };
    seq![name_any(d.metadata), decimal_int(replicas), decimal_int(labeled), decimal_int(ready), age_cell(now, d.metadata)]
}

pub fn replicaset_row(d: &ReplicaSet, now: Instant) -> (r: TableRow)
    ensures
        row_cells(r) == replicaset_cells(*d, now),
{
    let name = object_name(&d.metadata);
    let (replicas, labeled, ready) = match &d.status {
        Some(s) => (s.replicas, i32_or(s.fully_labeled_replicas, 0), i32_or(s.ready_replicas, 0)),
        None => (0, 0, 0),
    };
    let age = object_age(now, &d.metadata);
    row5(name, int_text(replicas), int_text(labeled), int_text(ready), age)
}

/// The replicasets listing.
pub fn replicasets_table(items: &Vec<ReplicaSet>, now: Instant) -> (t: TableData)
    ensures
        table_is(t, replicaset_columns(), items@.len(), |i: int| replicaset_cells(items@[i], now)),
{
    let columns = columns5(("NAME", 35), ("DESIRED", 8), ("CURRENT", 8), ("READY", 8), ("AGE", 10));
    let mut rows: Vec<TableRow> = Vec::new();
    for i in 0..items.len()
        invariant
                    rows@.len() == i,
            forall|j: int| 0 <= j < i ==> row_cells(#[trigger] rows@[j]) == replicaset_cells(items@[j], now),
    {
        rows.push(replicaset_row(&items[i], now));
    }
    TableData { columns, rows }
}

// ── Config maps, secrets, service accounts ─────────────────────────────

/// An optional count, or zero.
pub open spec fn len_or_zero(o: Option<usize>) -> nat {
    match o {
        Some(n) => n as nat,
        None => 0,
    }
}

fn usize_or_zero(o: Option<usize>) -> (r: usize)
    ensures
        r == len_or_zero(o),
{
    match o {
        Some(n) => n,
        None => 0,
    }
}

pub open spec fn configmap_columns() -> Seq<ColumnSpec> {
    seq![("NAME"@, 35), ("DATA"@, 6), ("AGE"@, 10)]
}

pub open spec fn configmap_cells(c: ConfigMap, now: Instant) -> Seq<Seq<char>> {
    seq![name_any(c.metadata), decimal_nat(len_or_zero(c.data_len)), age_cell(now, c.metadata)]
}

pub fn configmap_row(c: &ConfigMap, now: Instant) -> (r: TableRow)
    ensures
        row_cells(r) == configmap_cells(*c, now),
{
    let name = object_name(&c.metadata);
    let count = usize_to_string(usize_or_zero(c.data_len));
    let age = object_age(now, &c.metadata);
    row3(name, count, age)
}

/// The configmaps listing.
pub fn configmaps_table(items: &Vec<ConfigMap>, now: Instant) -> (t: TableData)
    ensures
        table_is(t, configmap_columns(), items@.len(), |i: int| configmap_cells(items@[i], now)),
{
    let columns = columns3(("NAME", 35), ("DATA", 6), ("AGE", 10));
    let mut rows: Vec<TableRow> = Vec::new();
    for i in 0..items.len()
        invariant
                    rows@.len() == i,
            forall|j: int| 0 <= j < i ==> row_cells(#[trigger] rows@[j]) == configmap_cells(items@[j], now),
    {
        rows.push(configmap_row(&items[i], now));
    }
    TableData { columns, rows }
}

pub open spec fn secret_columns() -> Seq<ColumnSpec> {
    seq![("NAME"@, 35), ("TYPE"@, 25), ("DATA"@, 6), ("AGE"@, 10)]
}

pub open spec fn secret_cells(c: Secret, now: Instant) -> Seq<Seq<char>> {
    seq![name_any(c.metadata), or_text(c.type_, Seq::empty()), decimal_nat(len_or_zero(c.data_len)), age_cell(now, c.metadata)]
}

pub fn secret_row(c: &Secret, now: Instant) -> (r: TableRow)
    ensures
        row_cells(r) == secret_cells(*c, now),
{
    let name = object_name(&c.metadata);
    proof {
        reveal_strlit("");
    }
    let ty = text_or_empty(&c.type_);
    let count = usize_to_string(usize_or_zero(c.data_len));
    let age = object_age(now, &c.metadata);
    row4(name, ty, count, age)
}

/// The secrets listing.
pub fn secrets_table(items: &Vec<Secret>, now: Instant) -> (t: TableData)
    ensures
        table_is(t, secret_columns(), items@.len(), |i: int| secret_cells(items@[i], now)),
{
    let columns = columns4(("NAME", 35), ("TYPE", 25), ("DATA", 6), ("AGE", 10));
    let mut rows: Vec<TableRow> = Vec::new();
    for i in 0..items.len()
        invariant
                    rows@.len() == i,
            forall|j: int| 0 <= j < i ==> row_cells(#[trigger] rows@[j]) == secret_cells(items@[j], now),
    {
        rows.push(secret_row(&items[i], now));
    }
    TableData { columns, rows }
}

pub open spec fn serviceaccount_columns() -> Seq<ColumnSpec> {
    seq![("NAME"@, 30), ("SECRETS"@, 8), ("AGE"@, 10)]
}

pub open spec fn serviceaccount_cells(c: ServiceAccount, now: Instant) -> Seq<Seq<char>> {
    seq![name_any(c.metadata), decimal_nat(len_or_zero(c.secrets_len)), age_cell(now, c.metadata)]
}

pub fn serviceaccount_row(c: &ServiceAccount, now: Instant) -> (r: TableRow)
    ensures
        row_cells(r) == serviceaccount_cells(*c, now),
{
    let name = object_name(&c.metadata);
    let count = usize_to_string(usize_or_zero(c.secrets_len));
    let age = object_age(now, &c.metadata);
    row3(name, count, age)
}

/// The serviceaccounts listing.
pub fn serviceaccounts_table(items: &Vec<ServiceAccount>, now: Instant) -> (t: TableData)
    ensures
        table_is(t, serviceaccount_columns(), items@.len(), |i: int| serviceaccount_cells(items@[i], now)),
{
    let columns = columns3(("NAME", 30), ("SECRETS", 8), ("AGE", 10));
    let mut rows: Vec<TableRow> = Vec::new();
    for i in 0..items.len()
        invariant
                    rows@.len() == i,
            forall|j: int| 0 <= j < i ==> row_cells(#[trigger] rows@[j]) == serviceaccount_cells(items@[j], now),
    {
        rows.push(serviceaccount_row(&items[i], now));
    }
    TableData { columns, rows }
}

// ── Events ─────────────────────────────────────────────────────────────

pub open spec fn event_columns() -> Seq<ColumnSpec> {
    seq![("TYPE"@, 8), ("REASON"@, 15), ("OBJECT"@, 25), ("MESSAGE"@, 40)]
}

pub open spec fn event_cells(e: Event, now: Instant) -> Seq<Seq<char>> {
    seq![
        or_text(e.type_, Seq::empty()),
        or_text(e.reason, Seq::empty()),
        or_text(e.involved_object_name, Seq::empty()),
        or_text(e.message, Seq::empty()),
    ]
}

pub fn event_row(e: &Event, now: Instant) -> (r: TableRow)
    ensures
        row_cells(r) == event_cells(*e, now),
{
    proof {
        reveal_strlit("");
    }
    row4(text_or_empty(&e.type_), text_or_empty(&e.reason), text_or_empty(&e.involved_object_name), text_or_empty(&e.message))
}

/// The events listing.
pub fn events_table(items: &Vec<Event>, now: Instant) -> (t: TableData)
    ensures
        table_is(t, event_columns(), items@.len(), |i: int| event_cells(items@[i], now)),
{
    let columns = columns4(("TYPE", 8), ("REASON", 15), ("OBJECT", 25), ("MESSAGE", 40));
    let mut rows: Vec<TableRow> = Vec::new();
    for i in 0..items.len()
        invariant
                    rows@.len() == i,
            forall|j: int| 0 <= j < i ==> row_cells(#[trigger] rows@[j]) == event_cells(items@[j], now),
    {
        rows.push(event_row(&items[i], now));
    }
    TableData { columns, rows }
}

// ── Jobs and cron jobs ─────────────────────────────────────────────────

/// The completions a job asks for (one when unset).
pub open spec fn job_completions(j: Job) -> int {
    match j.spec_completions {
        Some(Some(c)) => c as int,
        _ => 1,
    }
}

/// The pods a job has seen succeed (zero when unset).
pub open spec fn job_succeeded(j: Job) -> int {
    match j.status {
        Some(s) => count_or_zero(s.succeeded),
        None => 0,
    }
}

pub open spec fn job_columns() -> Seq<ColumnSpec> {
    seq![("NAME"@, 30), ("COMPLETIONS"@, 12), ("AGE"@, 10)]
}

pub open spec fn job_cells(j: Job, now: Instant) -> Seq<Seq<char>> {
    seq![name_any(j.metadata), ratio(job_succeeded(j), job_completions(j)), age_cell(now, j.metadata)]
}

pub fn job_counts(j: &Job) -> (r: (i32, i32))
    ensures
        r.0 == job_succeeded(*j),
        r.1 == job_completions(*j),
{
    let succeeded = match &j.status {
        Some(s) => i32_or(s.succeeded, 0),
        None => 0,
    };
    let completions = match j.spec_completions {
        Some(Some(c)) => c,
        _ => 1,
    };
    (succeeded, completions)
}

pub fn job_row(j: &Job, now: Instant) -> (r: TableRow)
    ensures
        row_cells(r) == job_cells(*j, now),
{
    let name = object_name(&j.metadata);
    let (succeeded, completions) = job_counts(j);
    let age = object_age(now, &j.metadata);
    row3(name, ratio_text(succeeded as i64, completions as i64), age)
}

/// The jobs listing.
pub fn jobs_table(items: &Vec<Job>, now: Instant) -> (t: TableData)
    ensures
        table_is(t, job_columns(), items@.len(), |i: int| job_cells(items@[i], now)),
{
    let columns = columns3(("NAME", 30), ("COMPLETIONS", 12), ("AGE", 10));
    let mut rows: Vec<TableRow> = Vec::new();
    for i in 0..items.len()
        invariant
                    rows@.len() == i,
            forall|j: int| 0 <= j < i ==> row_cells(#[trigger] rows@[j]) == job_cells(items@[j], now),
    {
        rows.push(job_row(&items[i], now));
    }
    TableData { columns, rows }
}

pub open spec fn cronjob_columns() -> Seq<ColumnSpec> {
    seq![("NAME"@, 30), ("SCHEDULE"@, 15), ("SUSPEND"@, 8), ("ACTIVE"@, 8), ("AGE"@, 10)]
}

/// Whether a cron job is suspended (false when unset).
pub open spec fn cronjob_suspended(c: CronJob) -> bool {
    match c.spec {
        Some(s) => s.suspend == Some(true),
        None => false,
    }
}

pub open spec fn bool_text(b: bool) -> Seq<char> {
    if b { "true"@ } else { "false"@ }
}

pub open spec fn cronjob_cells(c: CronJob, now: Instant) -> Seq<Seq<char>> {
    let schedule = match c.spec {
        Some(s) => s.schedule@,
        None => Seq::empty(),
    };
    seq![name_any(c.metadata), schedule, bool_text(cronjob_suspended(c)), decimal_nat(len_or_zero(c.active_len)), age_cell(now, c.metadata)]
}

pub fn cronjob_suspend(c: &CronJob) -> (r: bool)
    ensures
        r == cronjob_suspended(*c),
{
    match &c.spec {
        Some(s) => match s.suspend {
            Some(b) => b,
            None => false,
        },
        None => false,
    }
}

pub fn cronjob_row(c: &CronJob, now: Instant) -> (r: TableRow)
    ensures
        row_cells(r) == cronjob_cells(*c, now),
{
    let name = object_name(&c.metadata);
    let schedule = match &c.spec {
        Some(s) => s.schedule.clone(),
        None => String::new(),
    };
    let suspend = if cronjob_suspend(c) { to_owned_string("true") } else { to_owned_string("false") };
    let active = usize_to_string(usize_or_zero(c.active_len));
    let age = object_age(now, &c.metadata);
    row5(name, schedule, suspend, active, age)
}

/// The cronjobs listing.
pub fn cronjobs_table(items: &Vec<CronJob>, now: Instant) -> (t: TableData)
    ensures
        table_is(t, cronjob_columns(), items@.len(), |i: int| cronjob_cells(items@[i], now)),
{
    let columns = columns5(("NAME", 30), ("SCHEDULE", 15), ("SUSPEND", 8), ("ACTIVE", 8), ("AGE", 10));
    let mut rows: Vec<TableRow> = Vec::new();
    for i in 0..items.len()
        invariant
                    rows@.len() == i,
            forall|j: int| 0 <= j < i ==> row_cells(#[trigger] rows@[j]) == cronjob_cells(items@[j], now),
    {
        rows.push(cronjob_row(&items[i], now));
    }
    TableData { columns, rows }
}

// ── Volumes and claims ─────────────────────────────────────────────────

/// The "storage" quantity of a capacity map, or empty.
pub open spec fn storage_of(capacity: Option<Vec<KeyValue>>) -> Seq<char> {
    match capacity {
        Some(kvs) => match lookup(kvs@, "storage"@) {
            Some(v) => v,
            None => Seq::empty(),
        },
        None => Seq::empty(),
    }
}

fn storage_string(capacity: &Option<Vec<KeyValue>>) -> (r: String)
    ensures
        r@ == storage_of(*capacity),
{
    match capacity {
        Some(kvs) => match lookup_value(kvs, "storage") {
            Some(v) => v,
            None => String::new(),
        },
        None => String::new(),
    }
}

pub open spec fn pv_columns() -> Seq<ColumnSpec> {
    seq![("NAME"@, 30), ("CAPACITY"@, 10), ("STATUS"@, 10), ("CLAIM"@, 25), ("AGE"@, 10)]
}

pub open spec fn pv_cells(v: PersistentVolume, now: Instant) -> Seq<Seq<char>> {
    let capacity = match v.spec {
        Some(s) => storage_of(s.capacity),
        None => Seq::empty(),
    };
    let phase = match v.status {
        Some(s) => or_text(s.phase, Seq::empty()),
        None => Seq::empty(),
    };
    let claim = match v.spec {
        Some(s) => match s.claim_ref {
            Some(c) => or_text(c.namespace, Seq::empty()) + seq!['/'] + or_text(c.name, Seq::empty()),
            None => Seq::empty(),
        },
        None => Seq::empty(),
    };
    seq![name_any(v.metadata), capacity, phase, claim, age_cell(now, v.metadata)]
}

pub fn pv_row(v: &PersistentVolume, now: Instant) -> (r: TableRow)
    ensures
        row_cells(r) == pv_cells(*v, now),
{
    proof {
        reveal_strlit("");
    }
    let name = object_name(&v.metadata);
    let capacity = match &v.spec {
        Some(s) => storage_string(&s.capacity),
        None => String::new(),
    };
    let phase = match &v.status {
        Some(s) => text_or_empty(&s.phase),
        None => String::new(),
    };
    let claim = match &v.spec {
        Some(s) => match &s.claim_ref {
            Some(c) => {
                let mut t = text_or_empty(&c.namespace);
                push_char(&mut t, '/');
                let n = text_or_empty(&c.name);
                push_str(&mut t, n.as_str());
                t
            },
            None => String::new(),
        },
        None => String::new(),
    };
    let age = object_age(now, &v.metadata);
    assert(capacity@ == pv_cells(*v, now)[1]);
    assert(phase@ == pv_cells(*v, now)[2]);
    assert(claim@ == pv_cells(*v, now)[3]);
    row5(name, capacity, phase, claim, age)
}

/// The persistentvolumes listing.
pub fn persistentvolumes_table(items: &Vec<PersistentVolume>, now: Instant) -> (t: TableData)
    ensures
        table_is(t, pv_columns(), items@.len(), |i: int| pv_cells(items@[i], now)),
{
    let columns = columns5(("NAME", 30), ("CAPACITY", 10), ("STATUS", 10), ("CLAIM", 25), ("AGE", 10));
    let mut rows: Vec<TableRow> = Vec::new();
    for i in 0..items.len()
        invariant
                    rows@.len() == i,
            forall|j: int| 0 <= j < i ==> row_cells(#[trigger] rows@[j]) == pv_cells(items@[j], now),
    {
        rows.push(pv_row(&items[i], now));
    }
    TableData { columns, rows }
}

pub open spec fn pvc_columns() -> Seq<ColumnSpec> {
    seq![("NAME"@, 30), ("STATUS"@, 10), ("VOLUME"@, 25), ("CAPACITY"@, 10), ("AGE"@, 10)]
}

pub open spec fn pvc_cells(v: PersistentVolumeClaim, now: Instant) -> Seq<Seq<char>> {
    let phase = match v.status {
        Some(s) => or_text(s.phase, Seq::empty()),
        None => Seq::empty(),
    };
    let volume = match v.spec_volume_name {
        Some(n) => or_text(n, Seq::empty()),
        None => Seq::empty(),
    };
    let capacity = match v.status {
        Some(s) => storage_of(s.capacity),
        None => Seq::empty(),
    };
    seq![name_any(v.metadata), phase, volume, capacity, age_cell(now, v.metadata)]
}

pub fn pvc_row(v: &PersistentVolumeClaim, now: Instant) -> (r: TableRow)
    ensures
        row_cells(r) == pvc_cells(*v, now),
{
    proof {
        reveal_strlit("");
    }
    let name = object_name(&v.metadata);
    let phase = match &v.status {
        Some(s) => text_or_empty(&s.phase),
        None => String::new(),
    };
    let volume = match &v.spec_volume_name {
        Some(n) => text_or_empty(n),
        None => String::new(),
    };
    let capacity = match &v.status {
        Some(s) => storage_string(&s.capacity),
        None => String::new(),
    };
    let age = object_age(now, &v.metadata);
    row5(name, phase, volume, capacity, age)
}

/// The persistentvolumeclaims listing.
pub fn persistentvolumeclaims_table(items: &Vec<PersistentVolumeClaim>, now: Instant) -> (t: TableData)
    ensures
        table_is(t, pvc_columns(), items@.len(), |i: int| pvc_cells(items@[i], now)),
{
    let columns = columns5(("NAME", 30), ("STATUS", 10), ("VOLUME", 25), ("CAPACITY", 10), ("AGE", 10));
    let mut rows: Vec<TableRow> = Vec::new();
    for i in 0..items.len()
        invariant
                    rows@.len() == i,
            forall|j: int| 0 <= j < i ==> row_cells(#[trigger] rows@[j]) == pvc_cells(items@[j], now),
    {
        rows.push(pvc_row(&items[i], now));
    }
    TableData { columns, rows }
}

// ── Ingresses ──────────────────────────────────────────────────────────

/// The hosts of the rules that name one, in rule order.
pub open spec fn rule_hosts(rules: Seq<crate::k8s::objects::IngressRule>) -> Seq<Seq<char>>
    decreases rules.len(),
{
    if rules.len() == 0 {
        Seq::empty()
    } else {
        let earlier = rule_hosts(rules.drop_last());
        match rules.last().host {
            Some(h) => earlier.push(h@),
            None => earlier,
        }
    }
}

pub open spec fn ingress_columns() -> Seq<ColumnSpec> {
    seq![("NAME"@, 25), ("CLASS"@, 15), ("HOSTS"@, 30), ("AGE"@, 10)]
}

pub open spec fn ingress_cells(g: Ingress, now: Instant) -> Seq<Seq<char>> {
    let class = match g.spec {
        Some(s) => or_text(s.ingress_class_name, "<none>"@),
        None => "<none>"@,
    };
    let hosts = match g.spec {
        Some(s) => match s.rules {
            Some(rs) => join_seq(rule_hosts(rs@), ","@),
            None => "*"@,
        },
        None => "*"@,
    };
    seq![name_any(g.metadata), class, hosts, age_cell(now, g.metadata)]
}

fn hosts_string(rules: &Vec<crate::k8s::objects::IngressRule>) -> (r: String)
    ensures
        r@ == join_seq(rule_hosts(rules@), ","@),
{
    let mut hosts: Vec<String> = Vec::new();
    for i in 0..rules.len()
        invariant
            views(hosts@) == rule_hosts(rules@.take(i as int)),
    {
        assert(rules@.take(i + 1).drop_last() == rules@.take(i as int));
        match &rules[i].host {
            Some(h) => {
                hosts.push(h.clone());
                assert(views(hosts@) =~= rule_hosts(rules@.take(i + 1)));
            },
            None => {},
        }
    }
    assert(rules@.take(rules.len() as int) == rules@);
    join(&hosts, ",")
}

pub fn ingress_row(g: &Ingress, now: Instant) -> (r: TableRow)
    ensures
        row_cells(r) == ingress_cells(*g, now),
{
    let name = object_name(&g.metadata);
    let class = match &g.spec {
        Some(s) => text_or(&s.ingress_class_name, "<none>"),
        None => to_owned_string("<none>"),
    };
    let hosts = match &g.spec {
        Some(s) => match &s.rules {
            Some(rs) => hosts_string(rs),
            None => to_owned_string("*"),
        },
        None => to_owned_string("*"),
    };
    let age = object_age(now, &g.metadata);
    row4(name, class, hosts, age)
}

/// The ingresses listing.
pub fn ingresses_table(items: &Vec<Ingress>, now: Instant) -> (t: TableData)
    ensures
        table_is(t, ingress_columns(), items@.len(), |i: int| ingress_cells(items@[i], now)),
{
    let columns = columns4(("NAME", 25), ("CLASS", 15), ("HOSTS", 30), ("AGE", 10));
    let mut rows: Vec<TableRow> = Vec::new();
    for i in 0..items.len()
        invariant
                    rows@.len() == i,
            forall|j: int| 0 <= j < i ==> row_cells(#[trigger] rows@[j]) == ingress_cells(items@[j], now),
    {
        rows.push(ingress_row(&items[i], now));
    }
    TableData { columns, rows }
}


// ── Any listing ────────────────────────────────────────────────────────

/// The fetched objects of one resource type.
#[derive(Debug, Clone)]
pub enum Listing {
    Pods(Vec<Pod>),
    Deployments(Vec<Deployment>),
    Services(Vec<Service>),
    Nodes(Vec<Node>),
    Namespaces(Vec<Namespace>),
    DaemonSets(Vec<DaemonSet>),
    StatefulSets(Vec<StatefulSet>),
    ReplicaSets(Vec<ReplicaSet>),
    ConfigMaps(Vec<ConfigMap>),
    Secrets(Vec<Secret>),
    ServiceAccounts(Vec<ServiceAccount>),
    Events(Vec<Event>),
    Jobs(Vec<Job>),
    CronJobs(Vec<CronJob>),
    PersistentVolumes(Vec<PersistentVolume>),
    PersistentVolumeClaims(Vec<PersistentVolumeClaim>),
    Ingresses(Vec<Ingress>),
}

/// The resource type a listing holds.
pub open spec fn listing_kind(l: Listing) -> ResourceKind {
    match l {
        Listing::Pods(_) => ResourceKind::Pods,
        Listing::Deployments(_) => ResourceKind::Deployments,
        Listing::Services(_) => ResourceKind::Services,
        Listing::Nodes(_) => ResourceKind::Nodes,
        Listing::Namespaces(_) => ResourceKind::Namespaces,
        Listing::DaemonSets(_) => ResourceKind::DaemonSets,
        Listing::StatefulSets(_) => ResourceKind::StatefulSets,
        Listing::ReplicaSets(_) => ResourceKind::ReplicaSets,
        Listing::ConfigMaps(_) => ResourceKind::ConfigMaps,
        Listing::Secrets(_) => ResourceKind::Secrets,
        Listing::ServiceAccounts(_) => ResourceKind::ServiceAccounts,
        Listing::Events(_) => ResourceKind::Events,
        Listing::Jobs(_) => ResourceKind::Jobs,
        Listing::CronJobs(_) => ResourceKind::CronJobs,
        Listing::PersistentVolumes(_) => ResourceKind::PersistentVolumes,
        Listing::PersistentVolumeClaims(_) => ResourceKind::PersistentVolumeClaims,
        Listing::Ingresses(_) => ResourceKind::Ingresses,
    }
}

/// Whether `t` is the table of a listing.
pub open spec fn listing_table_is(t: TableData, l: Listing, now: Instant) -> bool {
    match l {
        Listing::Pods(v) => table_is(t, pod_columns(), v@.len(), |i: int| pod_cells(v@[i], now)),
        Listing::Deployments(v) => table_is(t, deployment_columns(), v@.len(), |i: int| deployment_cells(v@[i], now)),
        Listing::Services(v) => table_is(t, service_columns(), v@.len(), |i: int| service_cells(v@[i], now)),
        Listing::Nodes(v) => table_is(t, node_columns(), v@.len(), |i: int| node_cells(v@[i], now)),
        Listing::Namespaces(v) => table_is(t, namespace_columns(), v@.len(), |i: int| namespace_cells(v@[i], now)),
        Listing::DaemonSets(v) => table_is(t, daemonset_columns(), v@.len(), |i: int| daemonset_cells(v@[i], now)),
        Listing::StatefulSets(v) => table_is(t, statefulset_columns(), v@.len(), |i: int| statefulset_cells(v@[i], now)),
        Listing::ReplicaSets(v) => table_is(t, replicaset_columns(), v@.len(), |i: int| replicaset_cells(v@[i], now)),
        Listing::ConfigMaps(v) => table_is(t, configmap_columns(), v@.len(), |i: int| configmap_cells(v@[i], now)),
        Listing::Secrets(v) => table_is(t, secret_columns(), v@.len(), |i: int| secret_cells(v@[i], now)),
        Listing::ServiceAccounts(v) => table_is(t, serviceaccount_columns(), v@.len(), |i: int| serviceaccount_cells(v@[i], now)),
        Listing::Events(v) => table_is(t, event_columns(), v@.len(), |i: int| event_cells(v@[i], now)),
        Listing::Jobs(v) => table_is(t, job_columns(), v@.len(), |i: int| job_cells(v@[i], now)),
        Listing::CronJobs(v) => table_is(t, cronjob_columns(), v@.len(), |i: int| cronjob_cells(v@[i], now)),
        Listing::PersistentVolumes(v) => table_is(t, pv_columns(), v@.len(), |i: int| pv_cells(v@[i], now)),
        Listing::PersistentVolumeClaims(v) => table_is(t, pvc_columns(), v@.len(), |i: int| pvc_cells(v@[i], now)),
        Listing::Ingresses(v) => table_is(t, ingress_columns(), v@.len(), |i: int| ingress_cells(v@[i], now)),
    }
}

/// Whether every pod of a listing sums its restarts within range.
pub open spec fn listing_ok(l: Listing) -> bool {
    match l {
        Listing::Pods(v) => forall|i: int| 0 <= i < v@.len() ==> pod_ok(#[trigger] v@[i]),
        _ => true,
    }
}

impl Listing {
    pub fn kind(&self) -> (k: ResourceKind)
        ensures
            k == listing_kind(*self),
    {
        match self {
        Listing::Pods(_) => ResourceKind::Pods,
        Listing::Deployments(_) => ResourceKind::Deployments,
        Listing::Services(_) => ResourceKind::Services,
        Listing::Nodes(_) => ResourceKind::Nodes,
        Listing::Namespaces(_) => ResourceKind::Namespaces,
        Listing::DaemonSets(_) => ResourceKind::DaemonSets,
        Listing::StatefulSets(_) => ResourceKind::StatefulSets,
        Listing::ReplicaSets(_) => ResourceKind::ReplicaSets,
        Listing::ConfigMaps(_) => ResourceKind::ConfigMaps,
        Listing::Secrets(_) => ResourceKind::Secrets,
        Listing::ServiceAccounts(_) => ResourceKind::ServiceAccounts,
        Listing::Events(_) => ResourceKind::Events,
        Listing::Jobs(_) => ResourceKind::Jobs,
        Listing::CronJobs(_) => ResourceKind::CronJobs,
        Listing::PersistentVolumes(_) => ResourceKind::PersistentVolumes,
        Listing::PersistentVolumeClaims(_) => ResourceKind::PersistentVolumeClaims,
        Listing::Ingresses(_) => ResourceKind::Ingresses,
        }
    }
}

/// Whether a listing's pods all have their restarts add up within range.
pub fn listing_in_range(l: &Listing) -> (r: bool)
    ensures
        r == listing_ok(*l),
{
    match l {
        Listing::Pods(v) => pods_in_range(v),
        _ => true,
    }
}

/// The table of a fetched listing.
pub fn listing_table(l: &Listing, now: Instant) -> (t: TableData)
    requires
        listing_ok(*l),
    ensures
        listing_table_is(t, *l, now),
{
    match l {
        Listing::Pods(v) => pods_table(v, now),
        Listing::Deployments(v) => deployments_table(v, now),
        Listing::Services(v) => services_table(v, now),
        Listing::Nodes(v) => nodes_table(v, now),
        Listing::Namespaces(v) => namespaces_table(v, now),
        Listing::DaemonSets(v) => daemonsets_table(v, now),
        Listing::StatefulSets(v) => statefulsets_table(v, now),
        Listing::ReplicaSets(v) => replicasets_table(v, now),
        Listing::ConfigMaps(v) => configmaps_table(v, now),
        Listing::Secrets(v) => secrets_table(v, now),
        Listing::ServiceAccounts(v) => serviceaccounts_table(v, now),
        Listing::Events(v) => events_table(v, now),
        Listing::Jobs(v) => jobs_table(v, now),
        Listing::CronJobs(v) => cronjobs_table(v, now),
        Listing::PersistentVolumes(v) => persistentvolumes_table(v, now),
        Listing::PersistentVolumeClaims(v) => persistentvolumeclaims_table(v, now),
        Listing::Ingresses(v) => ingresses_table(v, now),
    }
}

} // verus!

use k9rs::k8s::age::Instant;
use k9rs::k8s::client::{FetchedObject, K8sClient};
use k9rs::k8s::listing::{listing_in_range, listing_table, pod_in_range, Listing};
use k9rs::k8s::objects::{
    Container, ContainerPort, ContainerStatus, Deployment, DeploymentStatus, Event, EventSource,
    IntOrString, Namespace, Node, NodeStatus, ObjectCondition, ObjectMeta, PhaseStatus, Pod, PodSpec, PodStatus, Service, ServicePort,
    ServiceSpec,
};
use k9rs::sorting::keys_in_order;
use k9rs::k8s::ops::{
    aggregate_logs, label_selector, log_source, resource_kind, restart_action, restart_annotation,
    selector_or_error, tail_per_pod, LogSource, ResourceKind, RestartAction,
};

fn at(secs: i64) -> Instant {
    Instant::new(secs, 0).unwrap()
}

fn meta(name: &str, created: Option<i64>) -> ObjectMeta {
    ObjectMeta {
        name: Some(name.to_string()),
        generate_name: None,
        namespace: Some("default".to_string()),
        creation_timestamp: created.map(at),
        labels: None,
        annotations: None,
        owner_references: None,
    }
}

fn status(name: &str, ready: bool, restarts: i32) -> ContainerStatus {
    ContainerStatus {
        name: name.to_string(),
        image: "img".to_string(),
        ready,
        restart_count: restarts,
        state: None,
        last_state: None,
    }
}

fn cells(t: &k9rs::model::table::TableData, row: usize) -> Vec<String> {
    t.rows[row].cells.clone()
}

fn column_names(t: &k9rs::model::table::TableData) -> Vec<(String, u32)> {
    t.columns.iter().map(|c| (c.name.clone(), c.min_width)).collect()
}

#[test]
fn pods_table_counts_ready_and_restarts() {
    let pod = Pod {
        metadata: meta("web-1", Some(1_000)),
        spec: None,
        status: Some(PodStatus {
            phase: Some("Running".to_string()),
            conditions: None,
            container_statuses: Some(vec![status("a", true, 2), status("b", false, 3)]),
            pod_ip: None,
        }),
    };
    let bare = Pod { metadata: meta("lonely", None), spec: None, status: None };
    let t = listing_table(&Listing::Pods(vec![pod, bare]), at(1_000 + 2 * 3600));
    assert_eq!(
        column_names(&t),
        vec![
            ("NAME".to_string(), 30),
            ("READY".to_string(), 8),
            ("STATUS".to_string(), 12),
            ("RESTARTS".to_string(), 10),
            ("AGE".to_string(), 10)
        ]
    );
    assert_eq!(cells(&t, 0), vec!["web-1", "1/2", "Running", "5", "2h"]);
    assert_eq!(cells(&t, 1), vec!["lonely", "0/0", "Unknown", "0", "Unknown"]);
}

#[test]
fn deployments_table_reads_replica_counts() {
    let dep = Deployment {
        metadata: meta("api", Some(0)),
        spec: None,
        status: Some(DeploymentStatus {
            replicas: Some(3),
            ready_replicas: Some(2),
            updated_replicas: Some(3),
            available_replicas: None,
            conditions: None,
        }),
    };
    let t = listing_table(&Listing::Deployments(vec![dep]), at(90));
    assert_eq!(t.columns[2].name, "UP-TO-DATE");
    assert_eq!(cells(&t, 0), vec!["api", "2/3", "3", "0", "1m"]);
}

#[test]
fn services_table_lists_ports() {
    let svc = Service {
        metadata: meta("front", None),
        spec: Some(ServiceSpec {
            type_: None,
            cluster_ip: Some("10.0.0.1".to_string()),
            ports: Some(vec![
                ServicePort { port: 80, protocol: None, target_port: Some(IntOrString::Int(8080)) },
                ServicePort {
                    port: 443,
                    protocol: Some("TCP".to_string()),
                    target_port: Some(IntOrString::String("https".to_string())),
                },
                ServicePort { port: 53, protocol: Some("UDP".to_string()), target_port: None },
            ]),
        }),
    };
    let t = listing_table(&Listing::Services(vec![svc]), at(0));
    assert_eq!(
        cells(&t, 0),
        vec!["front", "ClusterIP", "10.0.0.1", "80:Int(8080)/TCP,443:String(\"https\")/TCP,53:/UDP", "Unknown"]
    );
}

#[test]
fn namespaces_table_reads_phase() {
    let ns = Namespace { metadata: meta("kube-system", Some(0)), status: Some(PhaseStatus { phase: Some("Active".to_string()) }) };
    let t = listing_table(&Listing::Namespaces(vec![ns]), at(3 * 86400));
    assert_eq!(cells(&t, 0), vec!["kube-system", "Active", "3d"]);
    assert_eq!(Listing::Namespaces(vec![]).kind(), ResourceKind::Namespaces);
}

#[test]
fn list_resources_checks_the_type() {
    let ns = Namespace { metadata: meta("old", Some(0)), status: None };
    let listing = Listing::Namespaces(vec![ns]);
    let t = K8sClient::list_resources("namespaces", &listing, at(2 * 86400)).unwrap();
    assert_eq!(t.rows.len(), 1);
    assert_eq!(t.rows[0].cells, vec!["old", "Unknown", "2d"]);
    assert_eq!(
        K8sClient::list_resources("widgets", &listing, at(0)).unwrap_err(),
        "Unknown resource type: widgets"
    );
}

#[test]
fn resource_kinds_and_unknown_type() {
    assert_eq!(resource_kind("pods"), Ok(ResourceKind::Pods));
    assert_eq!(resource_kind("ingresses"), Ok(ResourceKind::Ingresses));
    assert_eq!(resource_kind("widgets"), Err("Unknown resource type: widgets".to_string()));
    assert!(ResourceKind::Nodes.is_cluster_scoped());
    assert!(ResourceKind::PersistentVolumes.is_cluster_scoped());
    assert!(!ResourceKind::Pods.is_cluster_scoped());
}

#[test]
fn label_selectors_join_pairs() {
    let labels = vec![("app".to_string(), "web".to_string()), ("tier".to_string(), "front".to_string())];
    assert_eq!(label_selector(&labels), "app=web,tier=front");
    assert_eq!(label_selector(&vec![]), "");
    assert_eq!(selector_or_error(&Some(labels), "deployments", "web"), Ok("app=web,tier=front".to_string()));
    assert_eq!(
        selector_or_error(&None, "deployments", "web"),
        Err("No selector found for deployments/web".to_string())
    );
}

#[test]
fn log_sources_per_type() {
    assert_eq!(log_source("pods", "p"), Ok(LogSource::Pod));
    assert_eq!(log_source("replicasets", "r"), Ok(LogSource::Workload));
    assert_eq!(log_source("jobs", "backup"), Ok(LogSource::Selector("job-name=backup".to_string())));
    assert_eq!(log_source("services", "s"), Err("Logs not supported for services".to_string()));
}

#[test]
fn tail_is_split_over_pods_with_a_floor() {
    assert_eq!(tail_per_pod(Some(500), 4), Some(125));
    assert_eq!(tail_per_pod(Some(500), 0), Some(500));
    assert_eq!(tail_per_pod(Some(500), 100), Some(20));
    assert_eq!(tail_per_pod(Some(-7), 2), Some(20));
    assert_eq!(tail_per_pod(None, 3), None);
}

#[test]
fn logs_of_pods_are_prefixed_and_joined() {
    let results = vec![
        ("a".to_string(), Ok("one\ntwo\n".to_string())),
        ("b".to_string(), Err("gone".to_string())),
    ];
    assert_eq!(aggregate_logs(&results), "[a] one\n[a] two\n[b] Error fetching logs: gone");
    assert_eq!(aggregate_logs(&vec![("c".to_string(), Ok(String::new()))]), "No logs found for matching pods");
    assert_eq!(aggregate_logs(&vec![]), "No logs found for matching pods");
}

#[test]
fn restarts_per_type() {
    assert_eq!(restart_action("pods"), Ok(RestartAction::DeletePod));
    assert_eq!(restart_action("daemonsets"), Ok(RestartAction::RestartDaemonSet));
    assert_eq!(restart_action("jobs"), Err("Restart not supported for jobs".to_string()));
    assert_eq!(restart_annotation(), "kubectl.kubernetes.io/restartedAt");
    let plan = K8sClient::restart_resource("deployments", "api", at(0)).unwrap();
    assert_eq!(plan.action, RestartAction::RestartDeployment);
    assert_eq!(plan.message, "Deployment api restarted");
    assert_eq!(plan.restarted_at, "1970-01-01T00:00:00+00:00");
    assert!(K8sClient::restart_resource("services", "s", at(0)).is_err());
}

#[test]
fn restart_messages_per_type() {
    let plan = K8sClient::restart_resource("statefulsets", "db", at(0)).unwrap();
    assert_eq!(plan.message, "StatefulSet db restarted");
    assert_eq!(K8sClient::restart_resource("pods", "p", at(0)).unwrap().message, "Pod p deleted");
    assert_eq!(
        K8sClient::restart_resource("nodes", "n", at(0)).unwrap_err(),
        "Restart not supported for nodes"
    );
}

#[test]
fn restart_stamps_are_rfc3339() {
    let plan = K8sClient::restart_resource("pods", "p", at(1_431_648_000)).unwrap();
    assert_eq!(plan.restarted_at, "2015-05-15T00:00:00+00:00");
    let plan = K8sClient::restart_resource("daemonsets", "d", Instant::new(0, 500_000_000).unwrap()).unwrap();
    assert_eq!(plan.restarted_at, "1970-01-01T00:00:00.500+00:00");
}

#[test]
fn apply_outcomes() {
    assert_eq!(K8sClient::apply_yaml(true, "  \n", ""), Ok("Applied successfully".to_string()));
    assert_eq!(K8sClient::apply_yaml(true, " deployment.apps/api configured\n", ""), Ok("deployment.apps/api configured".to_string()));
    assert_eq!(K8sClient::apply_yaml(false, "", "\terror: bad yaml \n"), Err("error: bad yaml".to_string()));
}

#[test]
fn current_context_needs_one_set() {
    assert_eq!(K8sClient::current_context(Some("kind".to_string())), Ok("kind".to_string()));
    assert_eq!(K8sClient::current_context(None), Err("No current context set".to_string()));
}

#[test]
fn pod_ports_from_spec() {
    let spec = PodSpec {
        node_name: None,
        containers: vec![
            Container {
                name: "web".to_string(),
                image: None,
                ports: Some(vec![
                    ContainerPort { container_port: 80, protocol: None, name: Some("http".to_string()) },
                    ContainerPort { container_port: 9090, protocol: Some("UDP".to_string()), name: None },
                ]),
            },
            Container { name: "side".to_string(), image: None, ports: None },
        ],
    };
    let ports = K8sClient::get_pod_ports(&Some(spec));
    let shown: Vec<String> = ports.iter().map(|p| p.display()).collect();
    assert_eq!(shown, vec!["web:80/TCP (http)", "web:9090/UDP"]);
    assert!(K8sClient::get_pod_ports(&None).is_empty());
}

#[test]
fn port_forward_arguments() {
    assert_eq!(
        K8sClient::start_port_forward("web-1", "default", 8080, 80),
        vec!["port-forward", "pod/web-1", "8080:80", "-n", "default"]
    );
}

#[test]
fn generic_detail_names_the_resource() {
    let ev = Event {
        metadata: meta("e1", Some(0)),
        type_: Some("Warning".to_string()),
        reason: Some("BackOff".to_string()),
        message: Some("restarting".to_string()),
        involved_object_name: Some("x".to_string()),
        source: Some(EventSource { component: Some("kubelet".to_string()) }),
    };
    let d = K8sClient::get_resource_detail(&FetchedObject::Other, "widgets", "w", "default", String::new(), &vec![ev], at(120));
    assert_eq!(d.name, "w");
    assert_eq!(d.namespace, Some("default".to_string()));
    assert_eq!(d.resource_type, "widgets");
    assert_eq!(d.events.len(), 1);
    assert_eq!(d.events[0].type_, "Warning");
    assert_eq!(d.events[0].reason, "BackOff");
    assert_eq!(d.events[0].age, "2m");
    assert_eq!(d.events[0].from, "kubelet");
    assert_eq!(d.events[0].message, "restarting");
}

#[test]
fn namespace_detail_has_phase_and_yaml() {
    let ns = Namespace { metadata: meta("dev", Some(0)), status: Some(PhaseStatus { phase: Some("Active".to_string()) }) };
    let d = K8sClient::get_resource_detail(&FetchedObject::Namespace(ns), "namespaces", "dev", "", "kind: Namespace".to_string(), &vec![], at(60));
    assert_eq!(d.name, "dev");
    assert_eq!(d.resource_type, "namespaces");
    assert_eq!(d.phase, "Active");
    assert_eq!(d.age, "1m");
    assert_eq!(d.yaml, "kind: Namespace");
    let other = K8sClient::get_resource_detail(&FetchedObject::Other, "things", "t", "ns", String::new(), &vec![], at(0));
    assert_eq!(other.name, "t");
    assert_eq!(other.resource_type, "things");
}

#[test]
fn nodes_table_reads_roles_and_readiness() {
    let mut m = meta("cp-1", Some(0));
    m.labels = Some(vec![
        ("kubernetes.io/os".to_string(), "linux".to_string()),
        ("node-role.kubernetes.io/control-plane".to_string(), String::new()),
        ("node-role.kubernetes.io/master".to_string(), String::new()),
    ]);
    let ready = ObjectCondition {
        type_: "Ready".to_string(),
        status: "True".to_string(),
        reason: None,
        message: None,
        last_transition_time: None,
    };
    let node = Node {
        metadata: m,
        status: Some(NodeStatus { conditions: Some(vec![ready]), kubelet_version: Some("v1.30.1".to_string()) }),
    };
    let bare = Node { metadata: meta("w-1", None), status: None };
    let t = listing_table(&Listing::Nodes(vec![node, bare]), at(7200));
    assert_eq!(cells(&t, 0), vec!["cp-1", "Ready", "control-plane,master", "v1.30.1", "2h"]);
    assert_eq!(cells(&t, 1), vec!["w-1", "Unknown", "<none>", "", "Unknown"]);
}

#[test]
fn restart_sums_out_of_range_are_detected() {
    let big = Pod {
        metadata: meta("big", None),
        spec: None,
        status: Some(PodStatus {
            phase: None,
            conditions: None,
            container_statuses: Some(vec![status("a", true, i32::MAX), status("b", true, 1)]),
            pod_ip: None,
        }),
    };
    assert!(!pod_in_range(&big));
    assert!(!listing_in_range(&Listing::Pods(vec![big])));
    let fine = Pod {
        metadata: meta("fine", None),
        spec: None,
        status: Some(PodStatus {
            phase: None,
            conditions: None,
            container_statuses: Some(vec![status("a", true, i32::MAX), status("b", true, -5)]),
            pod_ip: None,
        }),
    };
    assert!(pod_in_range(&fine));
    assert!(k9rs::k8s::client::fetched_in_range(&FetchedObject::Other));
}

#[test]
fn namespace_names_in_listing_order() {
    let mut unnamed = meta("x", None);
    unnamed.name = None;
    unnamed.generate_name = Some("gen-".to_string());
    let items = vec![
        Namespace { metadata: meta("b", None), status: None },
        Namespace { metadata: unnamed, status: None },
        Namespace { metadata: meta("a", None), status: None },
    ];
    assert_eq!(K8sClient::list_namespace_names(&items), vec!["b", "gen-", "a"]);
}

#[test]
fn key_order_of_labels() {
    let pair = |k: &str| (k.to_string(), "v".to_string());
    assert!(keys_in_order(&vec![]));
    assert!(keys_in_order(&vec![pair("app"), pair("tier"), pair("zone")]));
    assert!(!keys_in_order(&vec![pair("tier"), pair("app")]));
    assert!(!keys_in_order(&vec![pair("app"), pair("app")]));
    assert!(keys_in_order(&vec![pair("B"), pair("a")]));
}

#[test]
fn restart_stamps_at_the_ends_of_the_range() {
    let last = K8sClient::restart_resource("pods", "p", Instant::new(8_210_266_876_799, 0).unwrap()).unwrap();
    assert_eq!(last.restarted_at, "+262142-12-31T23:59:59+00:00");
    let first = K8sClient::restart_resource("pods", "p", Instant::new(-8_334_601_228_800, 0).unwrap()).unwrap();
    assert_eq!(first.restarted_at, "-262143-01-01T00:00:00+00:00");
    let then = Instant::new(-8_334_601_228_800, 0).unwrap();
    let now = Instant::new(8_210_266_876_799, 0).unwrap();
    assert_eq!(k9rs::k8s::age::format_age(now, then), "191491528d");
}

use k9rs::k8s::age::{format_age, Instant};
use k9rs::model::detail::DetailTab;
use k9rs::model::port_forward::{PodPort, PortForwardStatus};
use k9rs::model::resources::{resource_index, resources};
use k9rs::model::table::{TableColumn, TableData};

fn at(secs: i64) -> Instant {
    Instant::new(secs, 0).unwrap()
}

#[test]
fn tabs_in_order_with_labels_and_keys() {
    let tabs = DetailTab::all();
    assert_eq!(tabs, [DetailTab::Overview, DetailTab::Yaml, DetailTab::Events, DetailTab::Logs]);
    let labels: Vec<&str> = tabs.iter().map(|t| t.label()).collect();
    assert_eq!(labels, vec!["Overview", "YAML", "Events", "Logs"]);
    let keys: Vec<&str> = tabs.iter().map(|t| t.key_hint()).collect();
    assert_eq!(keys, vec!["1", "2", "3", "4"]);
    for (i, t) in tabs.iter().enumerate() {
        assert_eq!(t.index(), i);
    }
}

#[test]
fn pod_port_display_with_and_without_name() {
    let named = PodPort {
        container_name: "web".to_string(),
        port: 8080,
        protocol: "TCP".to_string(),
        name: Some("http".to_string()),
    };
    assert_eq!(named.display(), "web:8080/TCP (http)");
    let bare = PodPort { container_name: "db".to_string(), port: 5432, protocol: "UDP".to_string(), name: None };
    assert_eq!(bare.display(), "db:5432/UDP");
}

#[test]
fn port_forward_status_labels() {
    assert_eq!(PortForwardStatus::Active.label(), "Active");
    assert_eq!(PortForwardStatus::Stopped.label(), "Stopped");
    assert_eq!(PortForwardStatus::Failed("port in use".to_string()).label(), "Failed: port in use");
}

#[test]
fn resource_index_finds_each_entry() {
    let table = resources();
    assert_eq!(table.len(), 17);
    for (i, e) in table.iter().enumerate() {
        assert_eq!(resource_index(e.api_name), Some(i));
    }
    assert_eq!(resource_index("pods"), Some(0));
    assert_eq!(resource_index("events"), Some(16));
    assert_eq!(resource_index("widgets"), None);
    assert_eq!(resource_index(""), None);
}

#[test]
fn resource_table_names_and_categories() {
    let table = resources();
    assert_eq!(table[0].display_name, "Pods");
    assert_eq!(table[0].category, "Workloads");
    assert_eq!(table[13].api_name, "persistentvolumeclaims");
    assert_eq!(table[13].category, "Storage");
    assert_eq!(table[16].display_name, "Events");
    assert_eq!(table[16].category, "Cluster");
}

#[test]
fn table_column_and_empty_table() {
    let c = TableColumn::new("NAME", 30);
    assert_eq!(c.name, "NAME");
    assert_eq!(c.min_width, 30);
    let t = TableData::empty();
    assert!(t.columns.is_empty());
    assert!(t.rows.is_empty());
}

#[test]
fn ages_pick_the_largest_unit() {
    let then = at(1_000_000);
    assert_eq!(format_age(at(1_000_000 + 5 * 86400 + 7200), then), "5d");
    assert_eq!(format_age(at(1_000_000 + 3 * 3600 + 59), then), "3h");
    assert_eq!(format_age(at(1_000_000 + 12 * 60 + 5), then), "12m");
    assert_eq!(format_age(at(1_000_000 + 7), then), "7s");
    assert_eq!(format_age(then, then), "0s");
    assert_eq!(format_age(at(999_999), then), "future");
}

#[test]
fn ages_round_partial_seconds_toward_zero() {
    let then = Instant::new(100, 500_000_000).unwrap();
    // 0.7 s after: zero whole seconds.
    assert_eq!(format_age(Instant::new(101, 200_000_000).unwrap(), then), "0s");
    // 0.3 s before: still zero whole seconds, so not in the future.
    assert_eq!(format_age(Instant::new(100, 200_000_000).unwrap(), then), "0s");
    // 1.2 s before: in the future.
    assert_eq!(format_age(Instant::new(99, 300_000_000).unwrap(), then), "future");
}

#[test]
fn instants_out_of_range_are_refused() {
    assert!(Instant::new(0, 1_000_000_000).is_none());
    assert!(Instant::new(9_000_000_000_000, 0).is_none());
    assert!(Instant::new(-9_000_000_000_000, 0).is_none());
    assert!(Instant::new(8_210_266_876_799, 999_999_999).is_some());
    assert!(Instant::new(8_210_266_876_800, 0).is_none());
    assert!(Instant::new(-8_334_601_228_800, 0).is_some());
    assert!(Instant::new(-8_334_601_228_801, 0).is_none());
    let i = Instant::new(42, 7).unwrap();
    assert_eq!(i.secs(), 42);
    assert_eq!(i.nanos(), 7);
}

use k9rs::app::{command_resource, AppView};
use k9rs::k8s::ops::{log_source, resource_kind, restart_action};
use k9rs::model::resources::resources;
use k9rs::ui::log_supported;

const TYPES: &[&str] = &[
    "pods", "deployments", "statefulsets", "daemonsets", "replicasets", "jobs", "cronjobs", "configmaps",
    "secrets", "serviceaccounts", "services", "ingresses", "persistentvolumes", "persistentvolumeclaims",
    "namespaces", "nodes", "events", "widgets", "",
];

#[test]
fn every_sidebar_type_has_a_listing() {
    for e in resources() {
        assert!(resource_kind(e.api_name).is_ok(), "{}", e.api_name);
    }
}

#[test]
fn commands_settle_after_one_mapping() {
    for cmd in ["po", "pod", "deploy", "svc", "no", "ns", "ds", "sts", "rs", "cm", "sec", "sa", "ing", "pv", "pvc", "ev", "cj", "job", "crd", "x"] {
        let once = command_resource(cmd);
        assert_eq!(command_resource(&once), once);
    }
}

#[test]
fn logs_tab_offered_exactly_where_logs_can_be_fetched() {
    for t in TYPES {
        assert_eq!(log_supported(t), log_source(t, "name").is_ok(), "{t}");
    }
}

#[test]
fn restart_allowed_exactly_where_a_restart_exists() {
    for t in TYPES {
        let v = AppView::new("default", Ok("kind".to_string()), t).0;
        assert_eq!(v.can_restart(), restart_action(t).is_ok(), "{t}");
    }
}

#[test]
fn typing_then_backspace_in_each_input() {
    let mut v = AppView::new("default", Ok("kind".to_string()), "pods").0;
    v.on_activate_command();
    v.on_key_char("d");
    v.on_key_char("p");
    v.on_backspace();
    assert_eq!(v.command_input, "d");
    v.command_mode = false;
    v.toggle_namespace_picker();
    v.on_key_char("k");
    v.on_backspace();
    assert_eq!(v.ns_picker_filter, "");
    assert_eq!(v.ns_picker_selected, 0);
}

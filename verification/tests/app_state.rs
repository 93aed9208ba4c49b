use k9rs::app::{command_resource, copy_row, AppView, Effect, FocusPanel};
use k9rs::k8s::age::Instant;
use k9rs::k8s::client::{FetchedObject, K8sClient};
use k9rs::model::table::{TableColumn, TableData, TableRow};

fn row(cells: &[&str]) -> TableRow {
    TableRow { cells: cells.iter().map(|c| c.to_string()).collect() }
}

fn pods_table() -> TableData {
    TableData {
        columns: vec![TableColumn::new("NAME", 30), TableColumn::new("STATUS", 12)],
        rows: vec![
            row(&["web-1", "Running"]),
            row(&["db-0", "Pending"]),
            row(&["Web-2", "CrashLoopBackOff"]),
        ],
    }
}

fn loaded_view() -> AppView {
    let mut v = AppView::new("default", Ok("kind".to_string()), "pods").0;
    v.resources_loaded(Ok(pods_table()));
    v
}

fn type_text(v: &mut AppView, s: &str) {
    for c in s.chars() {
        v.on_key_char(&c.to_string());
    }
}

#[test]
fn new_view_starts_on_the_resource() {
    let (v, first) = AppView::new("default", Ok("kind".to_string()), "deployments");
    assert_eq!(v.current_context, "kind");
    assert_eq!(v.status_message, "Connected");
    assert_eq!(v.sidebar_selected, 1);
    assert_eq!(v.active_panel, FocusPanel::Table);
    assert!(v.loading);
    assert_eq!(
        first,
        Effect::LoadResources { resource: "deployments".to_string(), namespace: "default".to_string() }
    );
    let (w, _) = AppView::new("ns", Err("no kubeconfig".to_string()), "widgets");
    assert_eq!(w.current_context, "unknown");
    assert_eq!(w.status_message, "No cluster: no kubeconfig");
    assert_eq!(w.sidebar_selected, 0);
}

#[test]
fn detect_context_sets_or_reports() {
    let mut v = AppView::new("default", Err("x".to_string()), "pods").0;
    v.detect_context(Ok("prod".to_string()));
    assert_eq!(v.current_context, "prod");
    assert_eq!(v.status_message, "Connected");
    let mut w = AppView::new("default", Err("x".to_string()), "pods").0;
    w.detect_context(Err("No current context set".to_string()));
    assert_eq!(w.current_context, "unknown");
    assert_eq!(w.status_message, "No cluster: No current context set");
}

#[test]
fn filter_is_case_insensitive_and_keeps_order() {
    let mut v = loaded_view();
    assert_eq!(v.filtered_rows(), vec![0, 1, 2]);
    v.on_activate_filter();
    type_text(&mut v, "WEB");
    assert_eq!(v.filter_text, "WEB");
    assert_eq!(v.filtered_rows(), vec![0, 2]);
    v.filter_text = "crash".to_string();
    assert_eq!(v.filtered_rows(), vec![2]);
    v.filter_text = "nothing".to_string();
    assert!(v.filtered_rows().is_empty());
}

#[test]
fn backspace_takes_back_the_last_character() {
    let mut v = loaded_view();
    v.on_activate_filter();
    type_text(&mut v, "db");
    v.selected_row = 0;
    v.on_key_char("x");
    v.on_backspace();
    assert_eq!(v.filter_text, "db");
    assert_eq!(v.selected_row, 0);
    v.on_backspace();
    v.on_backspace();
    v.on_backspace();
    assert_eq!(v.filter_text, "");
}

#[test]
fn selection_moves_within_the_visible_rows() {
    let mut v = loaded_view();
    v.move_selection(1);
    assert_eq!(v.selected_row, 1);
    v.move_selection(10);
    assert_eq!(v.selected_row, 2);
    v.move_selection(-7);
    assert_eq!(v.selected_row, 0);
    v.active_panel = FocusPanel::Sidebar;
    v.move_selection(100);
    assert_eq!(v.sidebar_selected, 16);
}

#[test]
fn commands_map_aliases() {
    assert_eq!(command_resource("po"), "pods");
    assert_eq!(command_resource("deploy"), "deployments");
    assert_eq!(command_resource("pvc"), "persistentvolumeclaims");
    assert_eq!(command_resource("cj"), "cronjobs");
    assert_eq!(command_resource("job"), "jobs");
    assert_eq!(command_resource("crd"), "crd");
    let mut v = loaded_view();
    v.on_activate_command();
    type_text(&mut v, " svc ");
    let e = v.on_enter();
    assert_eq!(
        e,
        Some(Effect::LoadResources { resource: "services".to_string(), namespace: "default".to_string() })
    );
    assert_eq!(v.current_resource, "services");
    assert_eq!(v.sidebar_selected, 10);
    assert!(v.loading);
    assert!(!v.command_mode);
    v.on_activate_command();
    type_text(&mut v, "   ");
    assert_eq!(v.handle_command(), None);
}

#[test]
fn failed_listing_empties_the_table() {
    let mut v = loaded_view();
    v.resources_loaded(Err("forbidden".to_string()));
    assert_eq!(v.status_message, "Error: forbidden");
    assert!(v.table_data.rows.is_empty());
    assert!(!v.loading);
}

#[test]
fn namespace_picker_sorts_and_selects() {
    let mut v = loaded_view();
    assert_eq!(v.toggle_namespace_picker(), Some(Effect::LoadNamespaces));
    assert!(v.ns_picker_visible);
    v.namespaces_loaded(Ok(vec!["kube-system".to_string(), "default".to_string(), "apps".to_string()]));
    assert_eq!(v.ns_picker_list, vec!["apps", "default", "kube-system"]);
    assert_eq!(v.ns_picker_selected, 1);
    type_text(&mut v, "KUBE");
    assert_eq!(v.filtered_namespaces(), vec!["kube-system"]);
    assert_eq!(v.ns_picker_selected, 0);
    let e = v.select_namespace();
    assert_eq!(
        e,
        Some(Effect::LoadResources { resource: "pods".to_string(), namespace: "kube-system".to_string() })
    );
    assert!(!v.ns_picker_visible);
    assert_eq!(v.ns_picker_filter, "");
    assert_eq!(v.toggle_namespace_picker(), Some(Effect::LoadNamespaces));
    assert_eq!(v.toggle_namespace_picker(), None);
    assert!(!v.ns_picker_visible);
}

#[test]
fn namespace_error_closes_the_picker() {
    let mut v = loaded_view();
    v.toggle_namespace_picker();
    v.namespaces_loaded(Err("timeout".to_string()));
    assert!(!v.ns_picker_visible);
    assert_eq!(v.status_message, "Error listing namespaces: timeout");
}

#[test]
fn opening_a_detail_asks_for_it() {
    let mut v = loaded_view();
    v.selected_row = 1;
    let e = v.open_detail();
    assert_eq!(
        e,
        Some(Effect::LoadDetail {
            resource_type: "pods".to_string(),
            name: "db-0".to_string(),
            namespace: "default".to_string()
        })
    );
    assert!(v.detail_visible);
    assert!(v.detail_loading);
    v.close_detail();
    assert!(!v.detail_visible);
    let mut empty = AppView::new("default", Ok("kind".to_string()), "pods").0;
    assert_eq!(empty.open_detail(), None);
}

#[test]
fn restarting_the_selected_pod() {
    let mut v = loaded_view();
    assert!(v.can_restart());
    let e = v.restart_current_resource();
    assert_eq!(
        e,
        Some(Effect::Restart {
            resource_type: "pods".to_string(),
            name: "web-1".to_string(),
            namespace: "default".to_string()
        })
    );
    assert_eq!(v.status_message, "Restarting web-1...");
    let next = v.restart_done(Ok("Pod web-1 deleted".to_string()));
    assert_eq!(v.status_message, "Pod web-1 deleted");
    assert_eq!(next, Some(Effect::LoadResources { resource: "pods".to_string(), namespace: "default".to_string() }));
    v.restart_done(Err("denied".to_string()));
    assert_eq!(v.status_message, "Restart failed: denied");
}

#[test]
fn services_cannot_be_restarted() {
    let mut v = AppView::new("default", Ok("kind".to_string()), "services").0;
    v.resources_loaded(Ok(TableData { columns: vec![], rows: vec![row(&["front"])] }));
    assert!(!v.can_restart());
    assert_eq!(v.restart_current_resource(), None);
    assert_eq!(v.status_message, "Restart not supported for services");
}

#[test]
fn escape_leaves_the_filter_then_goes_back_to_pods() {
    let mut v = AppView::new("default", Ok("kind".to_string()), "namespaces").0;
    v.on_activate_filter();
    type_text(&mut v, "x");
    assert_eq!(v.on_go_back(), None);
    assert!(!v.filter_mode);
    assert_eq!(v.filter_text, "");
    assert_eq!(
        v.on_go_back(),
        Some(Effect::LoadResources { resource: "pods".to_string(), namespace: "default".to_string() })
    );
}

#[test]
fn tab_toggles_the_sidebar() {
    let mut v = loaded_view();
    v.on_toggle_sidebar();
    assert_eq!(v.active_panel, FocusPanel::Sidebar);
    v.on_toggle_sidebar();
    assert_eq!(v.active_panel, FocusPanel::Table);
}

#[test]
fn spinner_turns_only_while_loading() {
    let mut v = loaded_view();
    assert!(!v.tick_spinner());
    assert_eq!(v.spinner_frame, 0);
    v.loading = true;
    v.spinner_frame = 9;
    assert!(v.tick_spinner());
    assert_eq!(v.spinner_frame, 0);
    assert!(v.tick_spinner());
    assert_eq!(v.spinner_frame, 1);
}

#[test]
fn filtered_table_and_row_copies() {
    let mut v = loaded_view();
    v.filter_text = "web".to_string();
    let t = v.filtered_table();
    assert_eq!(t.columns.len(), 2);
    assert_eq!(t.rows.len(), 2);
    assert_eq!(t.rows[1].cells, vec!["Web-2", "CrashLoopBackOff"]);
    let r = row(&["a", "b"]);
    assert_eq!(copy_row(&r).cells, r.cells);
}

#[test]
fn refresh_takes_live_fields_only() {
    let mut v = loaded_view();
    v.open_detail();
    let mut first = K8sClient::get_resource_detail(&FetchedObject::Other, "pods", "web-1", "default", "yaml: 1".to_string(), &vec![], Instant::new(0, 0).unwrap());
    first.phase = "Pending".to_string();
    first.yaml = "yaml: 1".to_string();
    v.detail_loaded(Ok(first));
    let mut fresh = K8sClient::get_resource_detail(&FetchedObject::Other, "pods", "other", "default", "yaml: 2".to_string(), &vec![], Instant::new(0, 0).unwrap());
    fresh.phase = "Running".to_string();
    fresh.yaml = "yaml: 2".to_string();
    assert!(v.detail_refreshed(Ok(fresh)));
    let d = v.detail_data.as_ref().unwrap();
    assert_eq!(d.phase, "Running");
    assert_eq!(d.name, "web-1");
    assert_eq!(d.yaml, "yaml: 1");
    assert!(v.detail_refreshed(Err("timeout".to_string())));
    assert_eq!(v.detail_data.as_ref().unwrap().phase, "Running");
    v.close_detail();
    assert!(!v.refresh_wanted());
    assert!(!v.detail_refreshed(Err("late".to_string())));
}

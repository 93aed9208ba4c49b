use k9rs::model::detail::{DetailTab, OwnerRef};
use k9rs::model::port_forward::{PodPort, PortForwardStatus};
use k9rs::ui::{PortPickerBody, ResourcePickerLine};
use k9rs::model::table::{TableColumn, TableData, TableRow};
use k9rs::ui::{
    build_sidebar, condition_tone, container_state_tone, event_type_tone, is_even_row, log_supported,
    logs_body, overview_subtitle, owners_text, phase_tone, pod_status_tone, port_forward_tone,
    resource_icon, sidebar_footer, tab_title, tag_text, to_title_case, Icon, LogsBody,
    ResourceTableDelegate, Tone,
};

#[test]
fn title_case_of_column_names() {
    assert_eq!(to_title_case("SOME_NAME"), "Some Name");
    assert_eq!(to_title_case("SOMENAME"), "Somename");
    assert_eq!(to_title_case("UP-TO-DATE"), "Up-to-date");
    assert_eq!(to_title_case("__A__b_"), "A B");
    assert_eq!(to_title_case(""), "");
    assert_eq!(to_title_case("___"), "");
    assert_eq!(to_title_case("éCOLE"), "École");
    assert_eq!(to_title_case("hello_world"), "Hello World");
}

#[test]
fn delegate_headers_follow_the_data() {
    let data = TableData {
        columns: vec![TableColumn::new("CLUSTER-IP", 16), TableColumn::new("LAST_SEEN", 10)],
        rows: vec![TableRow { cells: vec!["10.0.0.1".to_string()] }],
    };
    let mut d = ResourceTableDelegate::new(data);
    assert_eq!(d.columns_count(), 2);
    assert_eq!(d.rows_count(), 1);
    assert_eq!(d.header(0), "Cluster-ip");
    assert_eq!(d.header(1), "Last Seen");
    assert_eq!(d.header(2), "");
    assert_eq!(d.cell(0, 0), "10.0.0.1");
    assert_eq!(d.cell(0, 1), "");
    assert_eq!(d.cell(3, 0), "");
    d.update_data(TableData { columns: vec![TableColumn::new("NAME", 30)], rows: vec![] });
    assert_eq!(d.columns_count(), 1);
    assert_eq!(d.header(0), "Name");
}

#[test]
fn sidebar_groups_by_category() {
    let s = build_sidebar("services", 0);
    let cats: Vec<&str> = s.groups.iter().map(|g| g.category.as_str()).collect();
    assert_eq!(cats, vec!["Workloads", "Config", "Network", "Storage", "Cluster"]);
    let sizes: Vec<usize> = s.groups.iter().map(|g| g.items.len()).collect();
    assert_eq!(sizes, vec![7, 3, 2, 2, 3]);
    let mut next = 0;
    for g in &s.groups {
        for item in &g.items {
            assert_eq!(item.index, next);
            next += 1;
        }
    }
    assert_eq!(next, 17);
    let active: Vec<&str> = s
        .groups
        .iter()
        .flat_map(|g| g.items.iter())
        .filter(|i| i.active)
        .map(|i| i.api_name.as_str())
        .collect();
    assert_eq!(active, vec!["services"]);
    assert_eq!(s.groups[2].items[0].display_name, "Services");
    assert_eq!(s.groups[2].items[0].icon, Icon::Globe);
    assert_eq!(s.footer, None);
}

#[test]
fn sidebar_footer_counts_port_forwards() {
    assert_eq!(sidebar_footer(0), None);
    assert_eq!(sidebar_footer(3), Some("Port Forwards: 3".to_string()));
    assert_eq!(build_sidebar("pods", 12).footer, Some("Port Forwards: 12".to_string()));
}

#[test]
fn icons_per_resource() {
    assert_eq!(resource_icon("pods"), Icon::SquareTerminal);
    assert_eq!(resource_icon("daemonsets"), Icon::Globe);
    assert_eq!(resource_icon("nodes"), Icon::Building2);
    assert_eq!(resource_icon("events"), Icon::Bell);
    assert_eq!(resource_icon("widgets"), Icon::File);
}

#[test]
fn tones_by_meaning() {
    assert_eq!(phase_tone("Running"), Tone::Success);
    assert_eq!(phase_tone("NotReady"), Tone::Success);
    assert_eq!(phase_tone("Waiting: ContainerCreating"), Tone::Warning);
    assert_eq!(phase_tone("Failed"), Tone::Danger);
    assert_eq!(phase_tone("Complete"), Tone::Foreground);
    assert_eq!(condition_tone("True"), Tone::Success);
    assert_eq!(condition_tone("False"), Tone::Danger);
    assert_eq!(container_state_tone("Running"), Tone::Success);
    assert_eq!(container_state_tone("Waiting (CrashLoopBackOff)"), Tone::Warning);
    assert_eq!(container_state_tone("Terminated (Completed)"), Tone::Danger);
    assert_eq!(container_state_tone("Unknown"), Tone::MutedForeground);
    assert_eq!(pod_status_tone("Running"), Tone::Success);
    assert_eq!(pod_status_tone("PENDING"), Tone::Warning);
    assert_eq!(pod_status_tone("CrashLoopBackOff"), Tone::Danger);
    assert_eq!(pod_status_tone("Succeeded"), Tone::Primary);
    assert_eq!(pod_status_tone("Unknown"), Tone::Foreground);
    assert_eq!(event_type_tone("Warning"), Tone::Warning);
    assert_eq!(event_type_tone("Normal"), Tone::Success);
    assert_eq!(port_forward_tone(&PortForwardStatus::Active), Tone::Success);
    assert_eq!(port_forward_tone(&PortForwardStatus::Failed("x".to_string())), Tone::Danger);
    assert_eq!(port_forward_tone(&PortForwardStatus::Stopped), Tone::MutedForeground);
    assert!(is_even_row(0));
    assert!(!is_even_row(3));
}

#[test]
fn logs_tab_contents() {
    assert!(log_supported("jobs"));
    assert!(!log_supported("services"));
    assert_eq!(logs_body("services", false, Some("x")), LogsBody::NotAvailable);
    assert_eq!(logs_body("pods", true, None), LogsBody::Loading);
    assert_eq!(logs_body("pods", false, None), LogsBody::Hint);
    assert_eq!(logs_body("pods", false, Some("")), LogsBody::Empty);
    assert_eq!(
        logs_body("deployments", false, Some("a\r\nb\n")),
        LogsBody::Lines(vec!["a".to_string(), "b".to_string()])
    );
}

#[test]
fn detail_texts() {
    let owners = vec![
        OwnerRef { kind: "ReplicaSet".to_string(), name: "web-abc".to_string() },
        OwnerRef { kind: "Node".to_string(), name: "n1".to_string() },
    ];
    assert_eq!(owners_text(&owners), "ReplicaSet/web-abc, Node/n1");
    assert_eq!(owners_text(&vec![]), "");
    assert_eq!(tag_text("app", "web"), "app=web");
    assert_eq!(tab_title(DetailTab::Logs), "4 Logs");
    assert_eq!(tab_title(DetailTab::Yaml), "2 YAML");
    assert_eq!(overview_subtitle("pods", "3d"), "pods · Age: 3d");
}

#[test]
fn status_line_by_mode() {
    assert_eq!(
        k9rs::ui::status_line(true, "dep", true, "x", "Connected"),
        k9rs::ui::StatusLine::Command("dep".to_string())
    );
    assert_eq!(
        k9rs::ui::status_line(false, "", true, "web", "Connected"),
        k9rs::ui::StatusLine::Filter("web".to_string())
    );
    assert_eq!(
        k9rs::ui::status_line(false, "", false, "", "Connected"),
        k9rs::ui::StatusLine::Normal { message: "Connected".to_string(), filter: None }
    );
    assert_eq!(
        k9rs::ui::status_line(false, "", false, "web", "Connected"),
        k9rs::ui::StatusLine::Normal { message: "Connected".to_string(), filter: Some("web".to_string()) }
    );
}

#[test]
fn tabs_and_restart_colours() {
    assert!(k9rs::ui::tab_enabled(DetailTab::Logs, "pods"));
    assert!(!k9rs::ui::tab_enabled(DetailTab::Logs, "services"));
    assert!(k9rs::ui::tab_enabled(DetailTab::Yaml, "services"));
    assert_eq!(k9rs::ui::tab_icon(DetailTab::Events), Icon::Bell);
    assert_eq!(k9rs::ui::restarts_tone(3), Tone::Warning);
    assert_eq!(k9rs::ui::restarts_tone(0), Tone::SecondaryForeground);
}

#[test]
fn picker_marks_selected_and_current() {
    let names = vec!["apps".to_string(), "default".to_string(), "kube-system".to_string()];
    assert_eq!(k9rs::ui::picker_body(&names, 0, "default", true), k9rs::ui::PickerBody::Loading);
    assert_eq!(k9rs::ui::picker_body(&vec![], 0, "default", false), k9rs::ui::PickerBody::Empty);
    match k9rs::ui::picker_body(&names, 2, "default", false) {
        k9rs::ui::PickerBody::Rows(rows) => {
            assert_eq!(rows.len(), 3);
            assert_eq!(rows[0].tone, Tone::SecondaryForeground);
            assert!(rows[1].current && !rows[1].selected);
            assert_eq!(rows[1].tone, Tone::Success);
            assert!(rows[2].selected);
            assert_eq!(rows[2].tone, Tone::Foreground);
            assert_eq!(rows[2].text, "kube-system");
        }
        other => panic!("unexpected {other:?}"),
    }
}

#[test]
fn detail_buttons_by_tab() {
    let b = k9rs::ui::detail_buttons(DetailTab::Yaml, true, false, true);
    assert!(b.apply && !b.port_forward && b.restart);
    assert!(!k9rs::ui::detail_buttons(DetailTab::Yaml, false, true, false).apply);
    assert!(!k9rs::ui::detail_buttons(DetailTab::Overview, true, true, false).apply);
    assert!(k9rs::ui::detail_buttons(DetailTab::Overview, true, true, false).port_forward);
}

#[test]
fn context_filter_line() {
    assert_eq!(k9rs::ui::picker_filter_text(""), "(type to filter)");
    assert_eq!(k9rs::ui::picker_filter_text("kind"), "kind");
}

#[test]
fn resource_picker_headings() {
    let e = |d: &str, a: &str, c: &str| (d.to_string(), a.to_string(), c.to_string());
    let entries = vec![e("Pods", "pods", "Workloads"), e("Jobs", "jobs", "Workloads"), e("Secrets", "secrets", "Config")];
    let lines = k9rs::ui::resource_picker_body(&entries, 1, "secrets");
    assert_eq!(
        lines,
        vec![
            ResourcePickerLine::Header("Workloads".to_string()),
            ResourcePickerLine::Row { index: 0, text: "Pods".to_string(), selected: false, current: false, tone: Tone::SecondaryForeground },
            ResourcePickerLine::Row { index: 1, text: "Jobs".to_string(), selected: true, current: false, tone: Tone::Foreground },
            ResourcePickerLine::Header("Config".to_string()),
            ResourcePickerLine::Row { index: 2, text: "Secrets".to_string(), selected: false, current: true, tone: Tone::Danger },
        ]
    );
    assert!(k9rs::ui::resource_picker_body(&vec![], 0, "pods").is_empty());
}

#[test]
fn port_picker_and_total() {
    let ports = vec![
        PodPort { container_name: "web".to_string(), port: 80, protocol: "TCP".to_string(), name: None },
        PodPort { container_name: "web".to_string(), port: 443, protocol: "TCP".to_string(), name: Some("https".to_string()) },
    ];
    assert_eq!(k9rs::ui::port_picker_body(&ports, 0, true), PortPickerBody::Loading);
    assert_eq!(k9rs::ui::port_picker_body(&vec![], 0, false), PortPickerBody::Empty);
    match k9rs::ui::port_picker_body(&ports, 1, false) {
        PortPickerBody::Rows(rows) => {
            assert_eq!(rows[0].text, "web:80/TCP");
            assert!(!rows[0].selected);
            assert_eq!(rows[1].text, "web:443/TCP (https)");
            assert_eq!(rows[1].tone, Tone::Foreground);
        }
        other => panic!("unexpected {other:?}"),
    }
    assert_eq!(k9rs::ui::port_forward_total(3), "(3 total)");
}

#[test]
fn ascii_title_case_is_exact() {
    assert_eq!(to_title_case("last_transition_time"), "Last Transition Time");
    assert_eq!(to_title_case("9LIVES_2GO"), "9lives 2go");
    assert_eq!(to_title_case("a"), "A");
}

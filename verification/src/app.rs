//! The state of the main view and how it answers each key, click and fetch
//! result. Each step returns the cluster operation to start, if any; the
//! window runs the operation and hands its result back.
use vstd::prelude::*;
use crate::model::detail::{DetailTab, ResourceDetail, ResourceDetailView};
use crate::model::resources::{api_name_at, resource_index, resources, RESOURCE_COUNT};
use crate::model::table::{column_specs, row_cells, TableData, TableRow};
use crate::text::{
    contains, is_substring, lowercase, pop_char, push_str, str_eq, to_lowercase,
    to_owned_string, trim, trimmed, views,
};

verus! {

/// Which panel has the keyboard.
#[derive(Debug, Clone, Copy, PartialEq, Eq, Structural)]
pub enum FocusPanel {
    Sidebar,
    Table,
}

/// A cluster operation the view asks the window to run.
#[derive(Debug, Clone, PartialEq, Eq)]
pub enum Effect {
    /// List the resources of a type in a namespace.
    LoadResources { resource: String, namespace: String },
    /// List the namespace names.
    LoadNamespaces,
    /// Fetch the detail of a resource, and keep refreshing it while the
    /// detail stays open.
    LoadDetail { resource_type: String, name: String, namespace: String },
    /// Restart a resource.
    Restart { resource_type: String, name: String, namespace: String },
    /// Apply YAML in a namespace.
    ApplyYaml { yaml: String, namespace: String },
    /// Fetch the last 500 log lines of a pod.
    LoadLogs { name: String, namespace: String },
}

/// The view of an effect, with its strings as character sequences.
pub enum EffectView {
    LoadResources { resource: Seq<char>, namespace: Seq<char> },
    LoadNamespaces,
    LoadDetail { resource_type: Seq<char>, name: Seq<char>, namespace: Seq<char> },
    Restart { resource_type: Seq<char>, name: Seq<char>, namespace: Seq<char> },
    ApplyYaml { yaml: Seq<char>, namespace: Seq<char> },
    LoadLogs { name: Seq<char>, namespace: Seq<char> },
}

impl View for Effect {
    type V = EffectView;

    open spec fn view(&self) -> EffectView {
        match self {
            Effect::LoadResources { resource, namespace } => EffectView::LoadResources {
                resource: resource@,
                namespace: namespace@,
            },
            Effect::LoadNamespaces => EffectView::LoadNamespaces,
            Effect::LoadDetail { resource_type, name, namespace } => EffectView::LoadDetail {
                resource_type: resource_type@,
                name: name@,
                namespace: namespace@,
            },
            Effect::Restart { resource_type, name, namespace } => EffectView::Restart {
                resource_type: resource_type@,
                name: name@,
                namespace: namespace@,
            },
            Effect::ApplyYaml { yaml, namespace } => EffectView::ApplyYaml {
                yaml: yaml@,
                namespace: namespace@,
            },
            Effect::LoadLogs { name, namespace } => EffectView::LoadLogs {
                name: name@,
                namespace: namespace@,
            },
        }
    }
}

/// The view of an optional effect.
pub open spec fn effect_view(e: Option<Effect>) -> Option<EffectView> {
    match e {
        Some(x) => Some(x@),
        None => None,
    }
}

/// The frames of the loading spinner.
pub const SPINNER_FRAME_COUNT: usize = 10;

/// The state of the main view.
pub struct AppView {
    pub active_panel: FocusPanel,
    pub current_resource: String,
    pub current_namespace: String,
    pub current_context: String,
    pub table_data: TableData,
    pub selected_row: usize,
    pub sidebar_selected: usize,
    pub command_input: String,
    pub command_mode: bool,
    pub status_message: String,
    pub loading: bool,
    pub spinner_frame: usize,
    pub filter_mode: bool,
    pub filter_text: String,
    // Detail view
    pub detail_visible: bool,
    pub detail_data: Option<ResourceDetail>,
    pub detail_tab: DetailTab,
    pub detail_loading: bool,
    pub detail_logs: Option<String>,
    pub detail_logs_loading: bool,
    /// Whether the YAML editor has been created for the current detail.
    pub yaml_editor_open: bool,
    /// Whether the background refresh of the detail is running.
    pub detail_refresh_active: bool,
    // Namespace picker
    pub ns_picker_visible: bool,
    pub ns_picker_loading: bool,
    pub ns_picker_list: Vec<String>,
    pub ns_picker_selected: usize,
    pub ns_picker_filter: String,
}

/// The state of the main view as mathematical values.
#[verifier::ext_equal]
pub struct AppModel {
    pub active_panel: FocusPanel,
    pub current_resource: Seq<char>,
    pub current_namespace: Seq<char>,
    pub current_context: Seq<char>,
    pub table_columns: Seq<(Seq<char>, u32)>,
    pub table_rows: Seq<Seq<Seq<char>>>,
    pub selected_row: usize,
    pub sidebar_selected: usize,
    pub command_input: Seq<char>,
    pub command_mode: bool,
    pub status_message: Seq<char>,
    pub loading: bool,
    pub spinner_frame: usize,
    pub filter_mode: bool,
    pub filter_text: Seq<char>,
    pub detail_visible: bool,
    pub detail_data: Option<ResourceDetailView>,
    pub detail_tab: DetailTab,
    pub detail_loading: bool,
    pub detail_logs: Option<Seq<char>>,
    pub detail_logs_loading: bool,
    pub yaml_editor_open: bool,
    pub detail_refresh_active: bool,
    pub ns_picker_visible: bool,
    pub ns_picker_loading: bool,
    pub ns_picker_list: Seq<Seq<char>>,
    pub ns_picker_selected: usize,
    pub ns_picker_filter: Seq<char>,
}

/// The cells of each row of a table.
pub open spec fn rows_view(rows: Seq<TableRow>) -> Seq<Seq<Seq<char>>> {
    rows.map_values(|r: TableRow| row_cells(r))
}

/// The view of an optional detail.
pub open spec fn detail_view(d: Option<ResourceDetail>) -> Option<ResourceDetailView> {
    match d {
        Some(x) => Some(x@),
        None => None,
    }
}

impl View for AppView {
    type V = AppModel;

    open spec fn view(&self) -> AppModel {
        AppModel {
            active_panel: self.active_panel,
            current_resource: self.current_resource@,
            current_namespace: self.current_namespace@,
            current_context: self.current_context@,
            table_columns: column_specs(self.table_data.columns@),
            table_rows: rows_view(self.table_data.rows@),
            selected_row: self.selected_row,
            sidebar_selected: self.sidebar_selected,
            command_input: self.command_input@,
            command_mode: self.command_mode,
            status_message: self.status_message@,
            loading: self.loading,
            spinner_frame: self.spinner_frame,
            filter_mode: self.filter_mode,
            filter_text: self.filter_text@,
            detail_visible: self.detail_visible,
            detail_data: detail_view(self.detail_data),
            detail_tab: self.detail_tab,
            detail_loading: self.detail_loading,
            detail_logs: crate::model::detail::opt_view(self.detail_logs),
            detail_logs_loading: self.detail_logs_loading,
            yaml_editor_open: self.yaml_editor_open,
            detail_refresh_active: self.detail_refresh_active,
            ns_picker_visible: self.ns_picker_visible,
            ns_picker_loading: self.ns_picker_loading,
            ns_picker_list: views(self.ns_picker_list@),
            ns_picker_selected: self.ns_picker_selected,
            ns_picker_filter: self.ns_picker_filter@,
        }
    }
}

// ── Filtering ──────────────────────────────────────────────────────────

/// Whether `text` contains `filter`, both lower-cased.
pub open spec fn matches_filter(text: Seq<char>, filter: Seq<char>) -> bool {
    is_substring(lowercase(filter), lowercase(text))
}

/// Whether some cell of a row matches the filter.
pub open spec fn row_matches(cells: Seq<Seq<char>>, filter: Seq<char>) -> bool {
    exists|j: int| 0 <= j < cells.len() && matches_filter(#[trigger] cells[j], filter)
}

/// The indices of the rows the filter shows, in order: all rows when the
/// filter is empty, else those with a matching cell.
pub open spec fn visible_rows(rows: Seq<Seq<Seq<char>>>, filter: Seq<char>) -> Seq<int>
    decreases rows.len(),
{
    if rows.len() == 0 {
        Seq::empty()
    } else {
        let earlier = visible_rows(rows.drop_last(), filter);
        if filter.len() == 0 || row_matches(rows.last(), filter) {
            earlier.push(rows.len() - 1)
        } else {
            earlier
        }
    }
}

/// The namespace names the picker filter shows, in order.
pub open spec fn visible_names(names: Seq<Seq<char>>, filter: Seq<char>) -> Seq<Seq<char>>
    decreases names.len(),
{
    if names.len() == 0 {
        Seq::empty()
    } else {
        let earlier = visible_names(names.drop_last(), filter);
        if filter.len() == 0 || matches_filter(names.last(), filter) {
            earlier.push(names.last())
        } else {
            earlier
        }
    }
}

fn cells_match(cells: &Vec<String>, lower_filter: &String, filter: Ghost<Seq<char>>) -> (r: bool)
    requires
        lower_filter@ == lowercase(filter@),
    ensures
        r == row_matches(views(cells@), filter@),
{
    let mut j: usize = 0;
    while j < cells.len()
        invariant
            lower_filter@ == lowercase(filter@),
            j <= cells@.len(),
            forall|k: int| 0 <= k < j ==> !matches_filter(#[trigger] views(cells@)[k], filter@),
        decreases cells.len() - j,
    {
        let lc = to_lowercase(cells[j].as_str());
        if contains(lc.as_str(), lower_filter.as_str()) {
            assert(matches_filter(views(cells@)[j as int], filter@));
            return true;
        }
        assert(!matches_filter(views(cells@)[j as int], filter@));
        j = j + 1;
    }
    false
}

/// The indices as integers.
pub open spec fn as_ints(s: Seq<usize>) -> Seq<int> {
    s.map_values(|x: usize| x as int)
}

proof fn lemma_as_ints_push(s: Seq<usize>, x: usize)
    ensures
        as_ints(s.push(x)) == as_ints(s).push(x as int),
{
    assert(as_ints(s.push(x)) =~= as_ints(s).push(x as int));
}

pub proof fn lemma_visible_rows_bounds(rows: Seq<Seq<Seq<char>>>, filter: Seq<char>)
    ensures
        visible_rows(rows, filter).len() <= rows.len(),
        forall|i: int| 0 <= i < visible_rows(rows, filter).len() ==> 0 <= #[trigger] visible_rows(rows, filter)[i] < rows.len(),
        forall|i: int, j: int| 0 <= i < j < visible_rows(rows, filter).len() ==> #[trigger] visible_rows(rows, filter)[i] < #[trigger] visible_rows(rows, filter)[j],
    decreases rows.len(),
{
    if rows.len() > 0 {
        lemma_visible_rows_bounds(rows.drop_last(), filter);
    }
}

impl AppView {
    /// The indices of the table rows the current filter shows.
    pub fn filtered_rows(&self) -> (r: Vec<usize>)
        ensures
            as_ints(r@) == visible_rows(self@.table_rows, self@.filter_text),
    {
        let rows = &self.table_data.rows;
        let filter_empty = self.filter_text.as_str().unicode_len() == 0;
        let lower = to_lowercase(self.filter_text.as_str());
        let ghost all = rows_view(rows@);
        let mut r: Vec<usize> = Vec::new();
        for i in 0..rows.len()
            invariant
                all == rows_view(rows@),
                all == self@.table_rows,
                filter_empty == (self@.filter_text.len() == 0),
                lower@ == lowercase(self.filter_text@),
                as_ints(r@) == visible_rows(all.take(i as int), self@.filter_text),
        {
            assert(all.take(i + 1).drop_last() == all.take(i as int));
            assert(all.take(i + 1).last() == all[i as int]);
            assert(all[i as int] == views(rows@[i as int].cells@));
            if filter_empty || cells_match(&rows[i].cells, &lower, Ghost(self.filter_text@)) {
                proof {
                    lemma_as_ints_push(r@, i);
                }
                r.push(i);
            }
        }
        assert(all.take(rows.len() as int) == all);
        r
    }

    /// The namespace names the picker filter shows.
    pub fn filtered_namespaces(&self) -> (r: Vec<String>)
        ensures
            views(r@) == visible_names(self@.ns_picker_list, self@.ns_picker_filter),
    {
        let names = &self.ns_picker_list;
        let filter_empty = self.ns_picker_filter.as_str().unicode_len() == 0;
        let lower = to_lowercase(self.ns_picker_filter.as_str());
        let mut r: Vec<String> = Vec::new();
        for i in 0..names.len()
            invariant
                filter_empty == (self@.ns_picker_filter.len() == 0),
                lower@ == lowercase(self.ns_picker_filter@),
                views(r@) == visible_names(views(names@).take(i as int), self@.ns_picker_filter),
        {
            assert(views(names@).take(i + 1).drop_last() == views(names@).take(i as int));
            assert(views(names@).take(i + 1).last() == names@[i as int]@);
            let keep = if filter_empty {
                true
            } else {
                let lc = to_lowercase(names[i].as_str());
                contains(lc.as_str(), lower.as_str())
            };
            if keep {
                proof {
                    crate::text::lemma_views_push(r@, names@[i as int]);
                }
                r.push(names[i].clone());
            }
        }
        assert(views(names@).take(names.len() as int) == views(names@));
        r
    }
}


// ── Switching resources ────────────────────────────────────────────────

/// `i` is the first index of the resource table with API name `api`.
pub open spec fn is_first_index(i: int, api: Seq<char>) -> bool {
    &&& 0 <= i < RESOURCE_COUNT
    &&& api_name_at(i) == api
    &&& forall|j: int| 0 <= j < i ==> api_name_at(j) != api
}

/// The position of a resource type in the sidebar, if it is listed there.
pub open spec fn sidebar_position(api: Seq<char>) -> Option<int> {
    if exists|i: int| is_first_index(i, api) {
        Some(choose|i: int| is_first_index(i, api))
    } else {
        None
    }
}

/// The sidebar selection after switching to `api`: its position, else the
/// old selection.
pub open spec fn sidebar_after(old: usize, api: Seq<char>) -> usize {
    match sidebar_position(api) {
        Some(i) => i as usize,
        None => old,
    }
}

fn position_in_sidebar(api: &str) -> (r: Option<usize>)
    ensures
        match r {
            Some(i) => sidebar_position(api@) == Some(i as int) && i < RESOURCE_COUNT,
            None => sidebar_position(api@) is None,
        },
{
    let r = resource_index(api);
    proof {
        match r {
            Some(i) => {
                assert(is_first_index(i as int, api@));
                let c = choose|k: int| is_first_index(k, api@);
                if c < i {
                    assert(api_name_at(c) != api@);
                } else if c > i {
                    assert(api_name_at(i as int) != api@);
                }
            },
            None => {
                if exists|k: int| is_first_index(k, api@) {
                    let c = choose|k: int| is_first_index(k, api@);
                    assert(api_name_at(c) != api@);
                }
            },
        }
    }
    r
}

/// The state after switching to the resource type `api` (`switch_resource`
/// followed by `load_resource_data`).
pub open spec fn switched(m: AppModel, api: Seq<char>) -> AppModel {
    AppModel {
        current_resource: api,
        sidebar_selected: sidebar_after(m.sidebar_selected, api),
        filter_text: Seq::empty(),
        filter_mode: false,
        selected_row: 0,
        detail_visible: false,
        detail_data: None,
        detail_logs: None,
        loading: true,
        spinner_frame: 0,
        ..m
    }
}

/// What the `:` command line maps a command to: the resource type an alias
/// names, else the command itself.
pub open spec fn command_target(cmd: Seq<char>) -> Seq<char> {
    if cmd == "po"@ || cmd == "pods"@ || cmd == "pod"@ { "pods"@ }
    else if cmd == "dp"@ || cmd == "deploy"@ || cmd == "deployments"@ || cmd == "deployment"@ { "deployments"@ }
    else if cmd == "svc"@ || cmd == "services"@ || cmd == "service"@ { "services"@ }
    else if cmd == "no"@ || cmd == "nodes"@ || cmd == "node"@ { "nodes"@ }
    else if cmd == "ns"@ || cmd == "namespaces"@ || cmd == "namespace"@ { "namespaces"@ }
    else if cmd == "ds"@ || cmd == "daemonsets"@ || cmd == "daemonset"@ { "daemonsets"@ }
    else if cmd == "sts"@ || cmd == "statefulsets"@ || cmd == "statefulset"@ { "statefulsets"@ }
    else if cmd == "rs"@ || cmd == "replicasets"@ || cmd == "replicaset"@ { "replicasets"@ }
    else if cmd == "cm"@ || cmd == "configmaps"@ || cmd == "configmap"@ { "configmaps"@ }
    else if cmd == "sec"@ || cmd == "secrets"@ || cmd == "secret"@ { "secrets"@ }
    else if cmd == "sa"@ || cmd == "serviceaccounts"@ || cmd == "serviceaccount"@ { "serviceaccounts"@ }
    else if cmd == "ing"@ || cmd == "ingresses"@ || cmd == "ingress"@ { "ingresses"@ }
    else if cmd == "pv"@ || cmd == "persistentvolumes"@ { "persistentvolumes"@ }
    else if cmd == "pvc"@ || cmd == "persistentvolumeclaims"@ { "persistentvolumeclaims"@ }
    else if cmd == "ev"@ || cmd == "events"@ || cmd == "event"@ { "events"@ }
    else if cmd == "cj"@ || cmd == "cronjobs"@ || cmd == "cronjob"@ { "cronjobs"@ }
    else if cmd == "job"@ || cmd == "jobs"@ { "jobs"@ }
    else { cmd }
}

/// The resource type a command names.
pub fn command_resource(cmd: &str) -> (r: String)
    ensures
        r@ == command_target(cmd@),
{
    let c = cmd;
    if str_eq(c, "po") || str_eq(c, "pods") || str_eq(c, "pod") { to_owned_string("pods") }
    else if str_eq(c, "dp") || str_eq(c, "deploy") || str_eq(c, "deployments") || str_eq(c, "deployment") { to_owned_string("deployments") }
    else if str_eq(c, "svc") || str_eq(c, "services") || str_eq(c, "service") { to_owned_string("services") }
    else if str_eq(c, "no") || str_eq(c, "nodes") || str_eq(c, "node") { to_owned_string("nodes") }
    else if str_eq(c, "ns") || str_eq(c, "namespaces") || str_eq(c, "namespace") { to_owned_string("namespaces") }
    else if str_eq(c, "ds") || str_eq(c, "daemonsets") || str_eq(c, "daemonset") { to_owned_string("daemonsets") }
    else if str_eq(c, "sts") || str_eq(c, "statefulsets") || str_eq(c, "statefulset") { to_owned_string("statefulsets") }
    else if str_eq(c, "rs") || str_eq(c, "replicasets") || str_eq(c, "replicaset") { to_owned_string("replicasets") }
    else if str_eq(c, "cm") || str_eq(c, "configmaps") || str_eq(c, "configmap") { to_owned_string("configmaps") }
    else if str_eq(c, "sec") || str_eq(c, "secrets") || str_eq(c, "secret") { to_owned_string("secrets") }
    else if str_eq(c, "sa") || str_eq(c, "serviceaccounts") || str_eq(c, "serviceaccount") { to_owned_string("serviceaccounts") }
    else if str_eq(c, "ing") || str_eq(c, "ingresses") || str_eq(c, "ingress") { to_owned_string("ingresses") }
    else if str_eq(c, "pv") || str_eq(c, "persistentvolumes") { to_owned_string("persistentvolumes") }
    else if str_eq(c, "pvc") || str_eq(c, "persistentvolumeclaims") { to_owned_string("persistentvolumeclaims") }
    else if str_eq(c, "ev") || str_eq(c, "events") || str_eq(c, "event") { to_owned_string("events") }
    else if str_eq(c, "cj") || str_eq(c, "cronjobs") || str_eq(c, "cronjob") { to_owned_string("cronjobs") }
    else if str_eq(c, "job") || str_eq(c, "jobs") { to_owned_string("jobs") }
    else { to_owned_string(c) }
}

/// The message text of a failure with a prefix.
fn prefixed_message(prefix: &str, e: &str) -> (r: String)
    ensures
        r@ == prefix@ + e@,
{
    let mut r = to_owned_string(prefix);
    push_str(&mut r, e);
    r
}

impl AppView {
    /// The view as it starts: on the given namespace and resource type, with
    /// the context that was given on the command line or else read from the
    /// kubeconfig (`Err` when reading failed), and the first listing already
    /// asked for.
    pub fn new(namespace: &str, context: Result<String, String>, resource: &str) -> (r: (Self, Effect))
        ensures
            r.0@ == (AppModel {
                active_panel: FocusPanel::Table,
                current_resource: resource@,
                current_namespace: namespace@,
                current_context: match context {
                    Ok(c) => c@,
                    Err(_) => "unknown"@,
                },
                table_columns: Seq::empty(),
                table_rows: Seq::empty(),
                selected_row: 0,
                sidebar_selected: sidebar_after(0, resource@),
                command_input: Seq::empty(),
                command_mode: false,
                status_message: match context {
                    Ok(_) => "Connected"@,
                    Err(e) => "No cluster: "@ + e@,
                },
                loading: true,
                spinner_frame: 0,
                filter_mode: false,
                filter_text: Seq::empty(),
                detail_visible: false,
                detail_data: None,
                detail_tab: DetailTab::Overview,
                detail_loading: false,
                detail_logs: None,
                detail_logs_loading: false,
                yaml_editor_open: false,
                detail_refresh_active: false,
                ns_picker_visible: false,
                ns_picker_loading: false,
                ns_picker_list: Seq::empty(),
                ns_picker_selected: 0,
                ns_picker_filter: Seq::empty(),
            }),
            r.1@ == (EffectView::LoadResources { resource: resource@, namespace: namespace@ }),
    {
        let sidebar_selected = match position_in_sidebar(resource) {
            Some(i) => i,
            None => 0,
        };
        let (current_context, status_message) = match context {
            Ok(ctx) => (ctx, to_owned_string("Connected")),
            Err(e) => (to_owned_string("unknown"), prefixed_message("No cluster: ", e.as_str())),
        };
        let v = AppView {
            active_panel: FocusPanel::Table,
            current_resource: to_owned_string(resource),
            current_namespace: to_owned_string(namespace),
            current_context,
            table_data: TableData::empty(),
            selected_row: 0,
            sidebar_selected,
            command_input: String::new(),
            command_mode: false,
            status_message,
            loading: true,
            spinner_frame: 0,
            filter_mode: false,
            filter_text: String::new(),
            detail_visible: false,
            detail_data: None,
            detail_tab: DetailTab::Overview,
            detail_loading: false,
            detail_logs: None,
            detail_logs_loading: false,
            yaml_editor_open: false,
            detail_refresh_active: false,
            ns_picker_visible: false,
            ns_picker_loading: false,
            ns_picker_list: Vec::new(),
            ns_picker_selected: 0,
            ns_picker_filter: String::new(),
        };
        assert(rows_view(v.table_data.rows@) =~= Seq::<Seq<Seq<char>>>::empty());
        assert(column_specs(v.table_data.columns@) =~= Seq::<(Seq<char>, u32)>::empty());
        assert(views(v.ns_picker_list@) =~= Seq::<Seq<char>>::empty());
        let e = Effect::LoadResources { resource: to_owned_string(resource), namespace: to_owned_string(namespace) };
        (v, e)
    }

    /// Takes the result of reading the kubeconfig's current context.
    pub fn detect_context(&mut self, current: Result<String, String>)
        ensures
            final(self)@ == match current {
                Ok(ctx) => AppModel { current_context: ctx@, status_message: "Connected"@, ..old(self)@ },
                Err(e) => AppModel { status_message: "No cluster: "@ + e@, ..old(self)@ },
            },
    {
        match current {
            Ok(ctx) => {
                self.current_context = ctx;
                self.status_message = to_owned_string("Connected");
            },
            Err(e) => {
                self.status_message = prefixed_message("No cluster: ", e.as_str());
            },
        }
    }

    /// Marks the listing as loading and asks for it.
    pub fn load_resource_data(&mut self) -> (e: Effect)
        ensures
            final(self)@ == (AppModel { loading: true, spinner_frame: 0, ..old(self)@ }),
            e@ == (EffectView::LoadResources {
                resource: old(self)@.current_resource,
                namespace: old(self)@.current_namespace,
            }),
    {
        self.loading = true;
        self.spinner_frame = 0;
        Effect::LoadResources {
            resource: self.current_resource.clone(),
            namespace: self.current_namespace.clone(),
        }
    }

    /// Takes the result of a listing.
    pub fn resources_loaded(&mut self, result: Result<TableData, String>)
        ensures
            final(self)@ == match result {
                Ok(t) => AppModel {
                    loading: false,
                    table_columns: column_specs(t.columns@),
                    table_rows: rows_view(t.rows@),
                    selected_row: 0,
                    status_message: "Connected"@,
                    ..old(self)@
                },
                Err(e) => AppModel {
                    loading: false,
                    status_message: "Error: "@ + e@,
                    table_columns: Seq::empty(),
                    table_rows: Seq::empty(),
                    ..old(self)@
                },
            },
    {
        self.loading = false;
        match result {
            Ok(data) => {
                self.table_data = data;
                self.selected_row = 0;
                self.status_message = to_owned_string("Connected");
            },
            Err(e) => {
                self.status_message = prefixed_message("Error: ", e.as_str());
                self.table_data = TableData::empty();
                assert(rows_view(self.table_data.rows@) =~= Seq::<Seq<Seq<char>>>::empty());
                assert(column_specs(self.table_data.columns@) =~= Seq::<(Seq<char>, u32)>::empty());
            },
        }
    }

    /// Switches to another resource type and asks for
    /// its listing.
    pub fn switch_resource(&mut self, api_name: &str) -> (e: Effect)
        ensures
            final(self)@ == switched(old(self)@, api_name@),
            e@ == (EffectView::LoadResources {
                resource: api_name@,
                namespace: old(self)@.current_namespace,
            }),
    {
        self.current_resource = to_owned_string(api_name);
        self.sidebar_selected = match position_in_sidebar(api_name) {
            Some(i) => i,
            None => self.sidebar_selected,
        };
        self.filter_text = String::new();
        self.filter_mode = false;
        self.selected_row = 0;
        self.detail_visible = false;
        self.detail_data = None;
        self.detail_logs = None;
        self.load_resource_data()
    }

    /// Runs the `:` command line: clears it, and switches
    /// to the resource type the command names unless it is blank.
    pub fn handle_command(&mut self) -> (e: Option<Effect>)
        ensures
            ({
                let m = AppModel { command_input: Seq::empty(), command_mode: false, ..old(self)@ };
                let cmd = trimmed(old(self)@.command_input);
                if cmd.len() == 0 {
                    final(self)@ == m && e is None
                } else {
                    final(self)@ == switched(m, command_target(cmd))
                        && effect_view(e) == Some(EffectView::LoadResources {
                            resource: command_target(cmd),
                            namespace: m.current_namespace,
                        })
                }
            }),
    {
        let cmd = trim(self.command_input.as_str());
        self.command_input = String::new();
        self.command_mode = false;
        if cmd.as_str().unicode_len() == 0 {
            return None;
        }
        let resource = command_resource(cmd.as_str());
        Some(self.switch_resource(resource.as_str()))
    }
}


// ── Selection ──────────────────────────────────────────────────────────

/// `x` kept within `lo..=hi`.
pub open spec fn clamp(x: int, lo: int, hi: int) -> int {
    if x < lo { lo } else if x > hi { hi } else { x }
}

fn clamp_index(sel: usize, delta: i32, count: usize) -> (r: usize)
    requires
        count > 0,
    ensures
        r as int == clamp(sel + delta, 0, count - 1),
        r < count,
{
    let x: i128 = sel as i128 + delta as i128;
    let hi: i128 = count as i128 - 1;
    if x < 0 {
        0
    } else if x > hi {
        (count - 1) as usize
    } else {
        x as usize
    }
}

/// The index of the first name equal to `target`, or zero.
pub open spec fn position_or_zero(names: Seq<Seq<char>>, target: Seq<char>) -> int
    decreases names.len(),
{
    if names.len() == 0 {
        0
    } else if names[0] == target {
        0
    } else if exists|i: int| 0 <= i < names.len() && names[i] == target {
        1 + position_or_zero(names.drop_first(), target)
    } else {
        0
    }
}

proof fn lemma_position_step(names: Seq<Seq<char>>, target: Seq<char>)
    requires
        names.len() > 0,
        names[0] != target,
    ensures
        (exists|i: int| 0 <= i < names.len() && names[i] == target) <==> (exists|i: int|
            0 <= i < names.drop_first().len() && names.drop_first()[i] == target),
{
    if exists|i: int| 0 <= i < names.len() && names[i] == target {
        let i = choose|i: int| 0 <= i < names.len() && names[i] == target;
        assert(names.drop_first()[i - 1] == target);
    }
    if exists|i: int| 0 <= i < names.drop_first().len() && names.drop_first()[i] == target {
        let i = choose|i: int| 0 <= i < names.drop_first().len() && names.drop_first()[i] == target;
        assert(names[i + 1] == target);
    }
}

fn index_of_name(names: &Vec<String>, target: &String) -> (r: usize)
    ensures
        r as int == position_or_zero(views(names@), target@),
{
    let mut i: usize = 0;
    assert(views(names@).skip(0) == views(names@));
    proof {
        if views(names@).len() > 0 && views(names@)[0] == target@ {
            assert(exists|k: int| 0 <= k < views(names@).len() && views(names@)[k] == target@);
        }
    }
    while i < names.len()
        invariant
            i <= names@.len(),
            forall|k: int| 0 <= k < i ==> views(names@)[k] != target@,
            position_or_zero(views(names@), target@) == (if exists|k: int|
                0 <= k < views(names@).len() && views(names@)[k] == target@ {
                i + position_or_zero(views(names@).skip(i as int), target@)
            } else {
                0
            }),
        decreases names.len() - i,
    {
        let ghost rest = views(names@).skip(i as int);
        assert(rest.len() > 0 && rest[0] == views(names@)[i as int]);
        if str_eq(names[i].as_str(), target.as_str()) {
            return i;
        }
        proof {
            lemma_position_step(rest, target@);
            assert(rest.drop_first() == views(names@).skip(i + 1));
            if exists|k: int| 0 <= k < rest.len() && rest[k] == target@ {
                let k = choose|k: int| 0 <= k < rest.len() && rest[k] == target@;
                assert(views(names@)[i + k] == target@);
            }
            if exists|k: int| 0 <= k < views(names@).len() && views(names@)[k] == target@ {
                let k = choose|k: int| 0 <= k < views(names@).len() && views(names@)[k] == target@;
                assert(k >= i);
                assert(rest[k - i] == target@);
            }
        }
        i = i + 1;
    }
    proof {
        if exists|k: int| 0 <= k < views(names@).len() && views(names@)[k] == target@ {
            let k = choose|k: int| 0 <= k < views(names@).len() && views(names@)[k] == target@;
            assert(views(names@)[k] != target@);
        }
    }
    0
}

/// The state after moving the selection by `delta`: in the namespace picker
/// when it is open, else in the sidebar when it has focus, else among the
/// table rows the filter shows; kept in range, and unchanged when the list
/// is empty.
pub open spec fn moved(m: AppModel, delta: int) -> AppModel {
    if m.ns_picker_visible {
        let n = visible_names(m.ns_picker_list, m.ns_picker_filter).len();
        if n == 0 {
            m
        } else {
            AppModel { ns_picker_selected: clamp(m.ns_picker_selected + delta, 0, n - 1) as usize, ..m }
        }
    } else if m.active_panel == FocusPanel::Sidebar {
        AppModel { sidebar_selected: clamp(m.sidebar_selected + delta, 0, RESOURCE_COUNT - 1) as usize, ..m }
    } else {
        let n = visible_rows(m.table_rows, m.filter_text).len();
        if n == 0 {
            m
        } else {
            AppModel { selected_row: clamp(m.selected_row + delta, 0, n - 1) as usize, ..m }
        }
    }
}

impl AppView {
    /// Moves the selection of whatever has the keyboard by `delta`, kept in
    /// range: the namespace picker when it is open, else
    /// the sidebar when it has focus, else the table rows the filter shows.
    /// Nothing changes when the list is empty.
    pub fn move_selection(&mut self, delta: i32)
        ensures
            final(self)@ == moved(old(self)@, delta as int),
    {
        if self.ns_picker_visible {
            let count = self.filtered_namespaces().len();
            if count == 0 {
                return;
            }
            self.ns_picker_selected = clamp_index(self.ns_picker_selected, delta, count);
        } else if self.active_panel == FocusPanel::Sidebar {
            self.sidebar_selected = clamp_index(self.sidebar_selected, delta, RESOURCE_COUNT);
        } else {
            let shown = self.filtered_rows();
            let count = shown.len();
            assert(as_ints(shown@).len() == count);
            if count == 0 {
                return;
            }
            self.selected_row = clamp_index(self.selected_row, delta, count);
        }
    }

    /// Marks the namespace list as loading and asks for it.
    pub fn load_namespaces(&mut self) -> (e: Effect)
        ensures
            final(self)@ == (AppModel { ns_picker_loading: true, ..old(self)@ }),
            e@ == EffectView::LoadNamespaces,
    {
        self.ns_picker_loading = true;
        Effect::LoadNamespaces
    }

    /// Takes the namespace names: sorted, with the current namespace
    /// selected (the first name when it is absent).
    pub fn namespaces_loaded(&mut self, result: Result<Vec<String>, String>)
        ensures
            match result {
                Ok(names) => {
                    let l = final(self)@.ns_picker_list;
                    &&& l.to_multiset() == views(names@).to_multiset()
                    &&& crate::sorting::sorted(l)
                    &&& final(self)@ == (AppModel {
                        ns_picker_loading: false,
                        ns_picker_list: l,
                        ns_picker_selected: position_or_zero(l, old(self)@.current_namespace) as usize,
                        ..old(self)@
                    })
                },
                Err(e) => final(self)@ == (AppModel {
                    ns_picker_loading: false,
                    status_message: "Error listing namespaces: "@ + e@,
                    ns_picker_visible: false,
                    ..old(self)@
                }),
            },
    {
        self.ns_picker_loading = false;
        match result {
            Ok(names) => {
                let sorted = crate::sorting::sort_strings(names);
                self.ns_picker_selected = index_of_name(&sorted, &self.current_namespace);
                self.ns_picker_list = sorted;
            },
            Err(e) => {
                self.status_message = prefixed_message("Error listing namespaces: ", e.as_str());
                self.ns_picker_visible = false;
            },
        }
    }

    /// Switches to the selected namespace of the picker, if there is one, closing the picker and reloading the listing.
    pub fn select_namespace(&mut self) -> (e: Option<Effect>)
        ensures
            ({
                let m = old(self)@;
                let shown = visible_names(m.ns_picker_list, m.ns_picker_filter);
                if m.ns_picker_selected < shown.len() {
                    let ns = shown[m.ns_picker_selected as int];
                    &&& final(self)@ == (AppModel {
                        current_namespace: ns,
                        ns_picker_visible: false,
                        ns_picker_filter: Seq::empty(),
                        loading: true,
                        spinner_frame: 0,
                        ..m
                    })
                    &&& effect_view(e) == Some(EffectView::LoadResources { resource: m.current_resource, namespace: ns })
                } else {
                    final(self)@ == m && e is None
                }
            }),
    {
        let filtered = self.filtered_namespaces();
        if self.ns_picker_selected < filtered.len() {
            assert(filtered@[self.ns_picker_selected as int]@ == views(filtered@)[self.ns_picker_selected as int]);
            self.current_namespace = filtered[self.ns_picker_selected].clone();
            self.ns_picker_visible = false;
            self.ns_picker_filter = String::new();
            Some(self.load_resource_data())
        } else {
            None
        }
    }

    /// Opens or closes the namespace picker;
    /// opening it asks for the namespace names.
    pub fn toggle_namespace_picker(&mut self) -> (e: Option<Effect>)
        ensures
            ({
                let m = old(self)@;
                if m.ns_picker_visible {
                    final(self)@ == (AppModel { ns_picker_visible: false, ns_picker_filter: Seq::empty(), ..m })
                        && e is None
                } else {
                    final(self)@ == (AppModel {
                        ns_picker_visible: true,
                        ns_picker_filter: Seq::empty(),
                        ns_picker_selected: 0,
                        ns_picker_loading: true,
                        ..m
                    }) && effect_view(e) == Some(EffectView::LoadNamespaces)
                }
            }),
    {
        if self.ns_picker_visible {
            self.ns_picker_visible = false;
            self.ns_picker_filter = String::new();
            None
        } else {
            self.ns_picker_visible = true;
            self.ns_picker_filter = String::new();
            self.ns_picker_selected = 0;
            Some(self.load_namespaces())
        }
    }
}


// ── Detail view ────────────────────────────────────────────────────────

/// The state with the detail view opened and loading.
pub open spec fn detail_opened(m: AppModel) -> AppModel {
    AppModel {
        detail_visible: true,
        detail_loading: true,
        detail_data: None,
        detail_tab: DetailTab::Overview,
        detail_logs: None,
        detail_logs_loading: false,
        yaml_editor_open: false,
        detail_refresh_active: true,
        ..m
    }
}

/// The name in the first cell of the selected row among those the filter
/// shows, if there is one.
pub open spec fn selected_name(m: AppModel) -> Option<Seq<char>> {
    let shown = visible_rows(m.table_rows, m.filter_text);
    if m.selected_row < shown.len() && m.table_rows[shown[m.selected_row as int]].len() > 0 {
        Some(m.table_rows[shown[m.selected_row as int]][0])
    } else {
        None
    }
}

/// The detail after a refresh: pods, conditions, phase, containers and
/// events taken from the fresh detail, the rest kept.
pub open spec fn refreshed_detail(existing: ResourceDetailView, fresh: ResourceDetailView) -> ResourceDetailView {
    ResourceDetailView {
        pods: fresh.pods,
        conditions: fresh.conditions,
        phase: fresh.phase,
        containers: fresh.containers,
        events: fresh.events,
        ..existing
    }
}

/// The state after a refresh of the open detail brought back `fresh`
/// (`None` when the fetch failed): only the detail changes, and only while
/// it is open.
pub open spec fn refreshed(m: AppModel, fresh: Option<ResourceDetailView>) -> AppModel {
    if m.detail_visible {
        match (fresh, m.detail_data) {
            (Some(f), Some(existing)) => AppModel { detail_data: Some(refreshed_detail(existing, f)), ..m },
            _ => m,
        }
    } else {
        m
    }
}

/// Whether the resource type can be restarted.
pub open spec fn restartable(resource_type: Seq<char>) -> bool {
    resource_type == "pods"@ || resource_type == "deployments"@ || resource_type == "statefulsets"@
        || resource_type == "daemonsets"@
}

fn is_restartable(resource_type: &str) -> (r: bool)
    ensures
        r == restartable(resource_type@),
{
    str_eq(resource_type, "pods") || str_eq(resource_type, "deployments") || str_eq(
        resource_type,
        "statefulsets",
    ) || str_eq(resource_type, "daemonsets")
}

/// What a restart acts on: the open detail's resource, else the selected
/// row's name with the current resource type. `None` when there is nothing
/// to act on.
pub open spec fn restart_target(m: AppModel) -> Option<(Seq<char>, Seq<char>)> {
    match m.detail_data {
        Some(d) => if m.detail_visible { Some((d.name, d.resource_type)) } else { None },
        None => match selected_name(m) {
            Some(n) => Some((n, m.current_resource)),
            None => None,
        },
    }
}

impl AppView {
    /// The name of the selected row, if any.
    fn selected_row_name(&self) -> (r: Option<String>)
        ensures
            match r {
                Some(n) => selected_name(self@) == Some(n@),
                None => selected_name(self@) is None,
            },
    {
        let shown = self.filtered_rows();
        proof {
            lemma_visible_rows_bounds(self@.table_rows, self@.filter_text);
        }
        if self.selected_row < shown.len() {
            let idx = shown[self.selected_row];
            assert(idx as int == visible_rows(self@.table_rows, self@.filter_text)[self.selected_row as int]);
            assert(self@.table_rows[idx as int] == views(self.table_data.rows@[idx as int].cells@));
            let row = &self.table_data.rows[idx];
            if row.cells.len() > 0 {
                assert(views(row.cells@)[0] == row.cells@[0]@);
                Some(row.cells[0].clone())
            } else {
                None
            }
        } else {
            None
        }
    }

    /// What a restart would act on.
    fn restart_subject(&self) -> (r: Option<(String, String)>)
        ensures
            match r {
                Some((n, t)) => restart_target(self@) == Some((n@, t@)),
                None => restart_target(self@) is None,
            },
    {
        match &self.detail_data {
            Some(d) => if self.detail_visible {
                Some((d.name.clone(), d.resource_type.clone()))
            } else {
                None
            },
            None => match self.selected_row_name() {
                Some(n) => Some((n, self.current_resource.clone())),
                None => None,
            },
        }
    }

    /// Opens the detail of the selected row and asks for it;
    /// nothing happens when no row with a name is selected.
    pub fn open_detail(&mut self) -> (e: Option<Effect>)
        ensures
            match selected_name(old(self)@) {
                Some(name) => final(self)@ == detail_opened(old(self)@) && effect_view(e) == Some(
                    EffectView::LoadDetail {
                        resource_type: old(self)@.current_resource,
                        name,
                        namespace: old(self)@.current_namespace,
                    },
                ),
                None => final(self)@ == old(self)@ && e is None,
            },
    {
        let name = match self.selected_row_name() {
            Some(n) => n,
            None => return None,
        };
        self.open_detail_named(&self.current_resource.clone(), name)
    }

    fn open_detail_named(&mut self, resource_type: &String, name: String) -> (e: Option<Effect>)
        ensures
            final(self)@ == detail_opened(old(self)@),
            effect_view(e) == Some(
                EffectView::LoadDetail {
                    resource_type: resource_type@,
                    name: name@,
                    namespace: old(self)@.current_namespace,
                },
            ),
    {
        self.detail_visible = true;
        self.detail_loading = true;
        self.detail_data = None;
        self.detail_tab = DetailTab::Overview;
        self.detail_logs = None;
        self.detail_logs_loading = false;
        self.yaml_editor_open = false;
        self.detail_refresh_active = true;
        Some(Effect::LoadDetail {
            resource_type: resource_type.clone(),
            name,
            namespace: self.current_namespace.clone(),
        })
    }

    /// Opens the detail of a pod by name, as
    /// when a pod of a workload is clicked.
    pub fn open_pod_detail_by_name(&mut self, pod_name: &str) -> (e: Effect)
        ensures
            final(self)@ == detail_opened(old(self)@),
            e@ == (EffectView::LoadDetail {
                resource_type: "pods"@,
                name: pod_name@,
                namespace: old(self)@.current_namespace,
            }),
    {
        let e = self.open_detail_named(&to_owned_string("pods"), to_owned_string(pod_name));
        e.unwrap()
    }

    /// Takes the fetched detail.
    pub fn detail_loaded(&mut self, result: Result<ResourceDetail, String>)
        ensures
            final(self)@ == match result {
                Ok(d) => AppModel { detail_loading: false, detail_data: Some(d@), ..old(self)@ },
                Err(e) => AppModel {
                    detail_loading: false,
                    status_message: "Error: "@ + e@,
                    detail_visible: false,
                    ..old(self)@
                },
            },
    {
        self.detail_loading = false;
        match result {
            Ok(d) => {
                self.detail_data = Some(d);
            },
            Err(e) => {
                self.status_message = prefixed_message("Error: ", e.as_str());
                self.detail_visible = false;
            },
        }
    }

    /// Whether the background refresh should fetch again: only while the
    /// detail stays open.
    pub fn refresh_wanted(&self) -> (r: bool)
        ensures
            r == self@.detail_visible,
    {
        self.detail_visible
    }

    /// Takes a refreshed detail; answers whether the refresh goes on. The
    /// open detail keeps its name, labels, YAML and the rest, and takes the
    /// fresh pods, conditions, phase, containers and events.
    pub fn detail_refreshed(&mut self, result: Result<ResourceDetail, String>) -> (go_on: bool)
        ensures
            go_on == old(self)@.detail_visible,
            final(self)@ == refreshed(old(self)@, match result {
                Ok(fresh) => Some(fresh@),
                Err(_) => None,
            }),
    {
        if !self.detail_visible {
            return false;
        }
        match result {
            Ok(fresh) => {
                match self.detail_data.take() {
                    Some(existing) => {
                        let merged = ResourceDetail {
                            pods: fresh.pods,
                            conditions: fresh.conditions,
                            phase: fresh.phase,
                            containers: fresh.containers,
                            events: fresh.events,
                            ..existing
                        };
                        assert(merged@ =~= refreshed_detail(existing@, fresh@));
                        self.detail_data = Some(merged);
                    },
                    None => {},
                }
            },
            Err(_) => {},
        }
        true
    }

    /// Closes the detail view.
    pub fn close_detail(&mut self)
        ensures
            final(self)@ == (AppModel {
                detail_visible: false,
                detail_data: None,
                detail_logs: None,
                detail_logs_loading: false,
                yaml_editor_open: false,
                detail_refresh_active: false,
                ..old(self)@
            }),
    {
        self.detail_visible = false;
        self.detail_data = None;
        self.detail_logs = None;
        self.detail_logs_loading = false;
        self.yaml_editor_open = false;
        self.detail_refresh_active = false;
    }

    /// Whether the current resource type can be restarted.
    pub fn can_restart(&self) -> (r: bool)
        ensures
            r == restartable(self@.current_resource),
    {
        is_restartable(self.current_resource.as_str())
    }

    /// Restarts the resource of the open detail, else of the selected row. A type that cannot be restarted only
    /// gets a message.
    pub fn restart_current_resource(&mut self) -> (e: Option<Effect>)
        ensures
            match restart_target(old(self)@) {
                None => final(self)@ == old(self)@ && e is None,
                Some((name, rt)) => if restartable(rt) {
                    final(self)@ == (AppModel { status_message: "Restarting "@ + name + "..."@, ..old(self)@ })
                        && effect_view(e) == Some(EffectView::Restart {
                        resource_type: rt,
                        name,
                        namespace: old(self)@.current_namespace,
                    })
                } else {
                    final(self)@ == (AppModel { status_message: "Restart not supported for "@ + rt, ..old(self)@ })
                        && e is None
                },
            },
    {
        let (name, resource_type) = match self.restart_subject() {
            Some(t) => t,
            None => return None,
        };
        if !is_restartable(resource_type.as_str()) {
            self.status_message = prefixed_message("Restart not supported for ", resource_type.as_str());
            return None;
        }
        let mut msg = prefixed_message("Restarting ", name.as_str());
        push_str(&mut msg, "...");
        self.status_message = msg;
        Some(Effect::Restart { resource_type, name, namespace: self.current_namespace.clone() })
    }

    /// Takes the result of a restart: on success its message, then the
    /// detail or the listing is fetched again.
    pub fn restart_done(&mut self, result: Result<String, String>) -> (e: Option<Effect>)
        ensures
            match result {
                Ok(msg) => {
                    let m = AppModel { status_message: msg@, ..old(self)@ };
                    if m.detail_visible {
                        match selected_name(m) {
                            Some(name) => final(self)@ == detail_opened(m) && effect_view(e) == Some(
                                EffectView::LoadDetail { resource_type: m.current_resource, name, namespace: m.current_namespace },
                            ),
                            None => final(self)@ == m && e is None,
                        }
                    } else {
                        final(self)@ == (AppModel { loading: true, spinner_frame: 0, ..m })
                            && effect_view(e) == Some(EffectView::LoadResources {
                            resource: m.current_resource,
                            namespace: m.current_namespace,
                        })
                    }
                },
                Err(err) => final(self)@ == (AppModel { status_message: "Restart failed: "@ + err@, ..old(self)@ })
                    && e is None,
            },
    {
        match result {
            Ok(msg) => {
                self.status_message = msg;
                if self.detail_visible {
                    self.open_detail()
                } else {
                    Some(self.load_resource_data())
                }
            },
            Err(err) => {
                self.status_message = prefixed_message("Restart failed: ", err.as_str());
                None
            },
        }
    }

    /// Whether the YAML editor should be created, and with which text: once per detail, from the detail's YAML.
    pub fn ensure_yaml_editor(&mut self) -> (text: Option<String>)
        ensures
            if old(self)@.yaml_editor_open {
                final(self)@ == old(self)@ && text is None
            } else {
                final(self)@ == (AppModel { yaml_editor_open: true, ..old(self)@ }) && text is Some
                    && text->0@ == match old(self)@.detail_data {
                    Some(d) => d.yaml,
                    None => Seq::empty(),
                }
            },
    {
        if self.yaml_editor_open {
            return None;
        }
        let yaml = match &self.detail_data {
            Some(d) => d.yaml.clone(),
            None => String::new(),
        };
        self.yaml_editor_open = true;
        Some(yaml)
    }

    /// Applies the editor's text: nothing without an editor,
    /// a message when the text is blank, else it is sent.
    pub fn apply_yaml(&mut self, editor_text: &str) -> (e: Option<Effect>)
        ensures
            if !old(self)@.yaml_editor_open {
                final(self)@ == old(self)@ && e is None
            } else if trimmed(editor_text@).len() == 0 {
                final(self)@ == (AppModel { status_message: "YAML is empty"@, ..old(self)@ }) && e is None
            } else {
                final(self)@ == (AppModel { status_message: "Applying YAML..."@, ..old(self)@ })
                    && effect_view(e) == Some(EffectView::ApplyYaml { yaml: editor_text@, namespace: old(self)@.current_namespace })
            },
    {
        if !self.yaml_editor_open {
            return None;
        }
        let t = trim(editor_text);
        if t.as_str().unicode_len() == 0 {
            self.status_message = to_owned_string("YAML is empty");
            return None;
        }
        self.status_message = to_owned_string("Applying YAML...");
        Some(Effect::ApplyYaml { yaml: to_owned_string(editor_text), namespace: self.current_namespace.clone() })
    }

    /// Takes the result of applying YAML: on success its message and the
    /// detail fetched again.
    pub fn apply_done(&mut self, result: Result<String, String>) -> (e: Option<Effect>)
        ensures
            match result {
                Ok(msg) => {
                    let m = AppModel { status_message: msg@, ..old(self)@ };
                    match selected_name(m) {
                        Some(name) => final(self)@ == detail_opened(m) && effect_view(e) == Some(
                            EffectView::LoadDetail { resource_type: m.current_resource, name, namespace: m.current_namespace },
                        ),
                        None => final(self)@ == m && e is None,
                    }
                },
                Err(err) => final(self)@ == (AppModel { status_message: "Apply failed: "@ + err@, ..old(self)@ })
                    && e is None,
            },
    {
        match result {
            Ok(msg) => {
                self.status_message = msg;
                self.open_detail()
            },
            Err(err) => {
                self.status_message = prefixed_message("Apply failed: ", err.as_str());
                None
            },
        }
    }

    /// Switches the detail tab; the Logs tab fetches
    /// the logs the first time.
    pub fn switch_detail_tab(&mut self, tab: DetailTab) -> (e: Option<Effect>)
        ensures
            ({
                let m = AppModel { detail_tab: tab, ..old(self)@ };
                if tab == DetailTab::Logs && m.detail_logs is None && !m.detail_logs_loading {
                    logs_requested(m, final(self)@, e)
                } else {
                    final(self)@ == m && e is None
                }
            }),
    {
        self.detail_tab = tab;
        if tab == DetailTab::Logs && self.detail_logs.is_none() && !self.detail_logs_loading {
            self.load_detail_logs()
        } else {
            None
        }
    }

    /// Asks for the logs of the open pod detail;
    /// nothing happens for other resource types.
    pub fn load_detail_logs(&mut self) -> (e: Option<Effect>)
        ensures
            logs_requested(old(self)@, final(self)@, e),
    {
        let name = match &self.detail_data {
            Some(d) => if str_eq(d.resource_type.as_str(), "pods") {
                d.name.clone()
            } else {
                return None;
            },
            None => return None,
        };
        self.detail_logs_loading = true;
        Some(Effect::LoadLogs { name, namespace: self.current_namespace.clone() })
    }

    /// Takes the fetched logs, or the message why they could not be fetched.
    pub fn logs_loaded(&mut self, result: Result<String, String>)
        ensures
            final(self)@ == (AppModel {
                detail_logs_loading: false,
                detail_logs: Some(match result {
                    Ok(l) => l@,
                    Err(e) => "Error loading logs: "@ + e@,
                }),
                ..old(self)@
            }),
    {
        self.detail_logs_loading = false;
        match result {
            Ok(l) => {
                self.detail_logs = Some(l);
            },
            Err(e) => {
                self.detail_logs = Some(prefixed_message("Error loading logs: ", e.as_str()));
            },
        }
    }
}

/// The logs of a pod detail are asked for: from `m` to `after` with effect
/// `e`.
pub open spec fn logs_requested(m: AppModel, after: AppModel, e: Option<Effect>) -> bool {
    match m.detail_data {
        Some(d) => if d.resource_type == "pods"@ {
            after == (AppModel { detail_logs_loading: true, ..m }) && effect_view(e) == Some(
                EffectView::LoadLogs { name: d.name, namespace: m.current_namespace },
            )
        } else {
            after == m && e is None
        },
        None => after == m && e is None,
    }
}


// ── Keys and clicks ────────────────────────────────────────────────────

/// The state after Backspace: the open text input loses its last character.
pub open spec fn backspaced(m: AppModel) -> AppModel {
    if m.ns_picker_visible {
        AppModel { ns_picker_filter: without_last(m.ns_picker_filter), ns_picker_selected: 0, ..m }
    } else if m.filter_mode {
        AppModel { filter_text: without_last(m.filter_text), selected_row: 0, ..m }
    } else if m.command_mode {
        AppModel { command_input: without_last(m.command_input), ..m }
    } else {
        m
    }
}

/// A text without its last character; an empty text stays empty.
pub open spec fn without_last(s: Seq<char>) -> Seq<char> {
    if s.len() == 0 { s } else { s.drop_last() }
}

/// The state after typing `key`: it is appended to the open text input.
pub open spec fn typed(m: AppModel, key: Seq<char>) -> AppModel {
    if m.ns_picker_visible {
        AppModel { ns_picker_filter: m.ns_picker_filter + key, ns_picker_selected: 0, ..m }
    } else if m.filter_mode {
        AppModel { filter_text: m.filter_text + key, selected_row: 0, ..m }
    } else if m.command_mode {
        AppModel { command_input: m.command_input + key, ..m }
    } else {
        m
    }
}

/// The state after Tab: focus moves between sidebar and table, unless the
/// detail is open.
pub open spec fn sidebar_toggled(m: AppModel) -> AppModel {
    if m.detail_visible {
        m
    } else {
        AppModel {
            active_panel: if m.active_panel == FocusPanel::Sidebar { FocusPanel::Table } else { FocusPanel::Sidebar },
            ..m
        }
    }
}

/// The state after Escape, when it does not switch the resource type.
pub open spec fn went_back(m: AppModel) -> AppModel {
    if m.ns_picker_visible {
        AppModel { ns_picker_visible: false, ns_picker_filter: Seq::empty(), ..m }
    } else if m.detail_visible {
        AppModel {
            detail_visible: false,
            detail_data: None,
            detail_logs: None,
            detail_logs_loading: false,
            yaml_editor_open: false,
            detail_refresh_active: false,
            ..m
        }
    } else if m.filter_mode {
        AppModel { filter_mode: false, filter_text: Seq::empty(), selected_row: 0, ..m }
    } else if m.command_mode {
        AppModel { command_mode: false, command_input: Seq::empty(), ..m }
    } else if m.active_panel == FocusPanel::Sidebar {
        AppModel { active_panel: FocusPanel::Table, ..m }
    } else {
        m
    }
}

/// Whether Escape switches back from the namespace listing to the pods.
pub open spec fn back_to_pods(m: AppModel) -> bool {
    !m.ns_picker_visible && !m.detail_visible && !m.filter_mode && !m.command_mode
        && m.active_panel != FocusPanel::Sidebar && m.current_resource == "namespaces"@
}

/// Whether any fetch is running (the spinner turns).
pub open spec fn any_loading(m: AppModel) -> bool {
    m.loading || m.detail_loading || m.detail_logs_loading
}

impl AppView {
    /// `:` opens the command line.
    pub fn on_activate_command(&mut self)
        ensures
            final(self)@ == (AppModel { command_mode: true, command_input: Seq::empty(), ..old(self)@ }),
    {
        self.command_mode = true;
        self.command_input = String::new();
    }

    /// `/` opens the filter, unless the detail is open.
    pub fn on_activate_filter(&mut self)
        ensures
            final(self)@ == if old(self)@.detail_visible {
                old(self)@
            } else {
                AppModel { filter_mode: true, filter_text: Seq::empty(), selected_row: 0, ..old(self)@ }
            },
    {
        if !self.detail_visible {
            self.filter_mode = true;
            self.filter_text = String::new();
            self.selected_row = 0;
        }
    }

    /// Escape closes the innermost open thing; on the namespace listing it
    /// switches back to the pods.
    pub fn on_go_back(&mut self) -> (e: Option<Effect>)
        ensures
            if back_to_pods(old(self)@) {
                final(self)@ == switched(old(self)@, "pods"@) && effect_view(e) == Some(
                    EffectView::LoadResources { resource: "pods"@, namespace: old(self)@.current_namespace },
                )
            } else {
                final(self)@ == went_back(old(self)@) && e is None
            },
    {
        if self.ns_picker_visible {
            self.ns_picker_visible = false;
            self.ns_picker_filter = String::new();
            None
        } else if self.detail_visible {
            self.close_detail();
            None
        } else if self.filter_mode {
            self.filter_mode = false;
            self.filter_text = String::new();
            self.selected_row = 0;
            None
        } else if self.command_mode {
            self.command_mode = false;
            self.command_input = String::new();
            None
        } else if self.active_panel == FocusPanel::Sidebar {
            self.active_panel = FocusPanel::Table;
            None
        } else if str_eq(self.current_resource.as_str(), "namespaces") {
            Some(self.switch_resource("pods"))
        } else {
            None
        }
    }

    /// Tab moves the focus between sidebar and table.
    pub fn on_toggle_sidebar(&mut self)
        ensures
            final(self)@ == sidebar_toggled(old(self)@),
    {
        if !self.detail_visible {
            self.active_panel = match self.active_panel {
                FocusPanel::Sidebar => FocusPanel::Table,
                FocusPanel::Table => FocusPanel::Sidebar,
            };
        }
    }

    /// Backspace removes the last character of the open text input.
    pub fn on_backspace(&mut self)
        ensures
            final(self)@ == backspaced(old(self)@),
    {
        if self.ns_picker_visible {
            pop_char(&mut self.ns_picker_filter);
            self.ns_picker_selected = 0;
        } else if self.filter_mode {
            pop_char(&mut self.filter_text);
            self.selected_row = 0;
        } else if self.command_mode {
            pop_char(&mut self.command_input);
        }
    }

    /// A typed key goes to the open text input.
    pub fn on_key_char(&mut self, key: &str)
        ensures
            final(self)@ == typed(old(self)@, key@),
    {
        if self.ns_picker_visible {
            push_str(&mut self.ns_picker_filter, key);
            self.ns_picker_selected = 0;
        } else if self.filter_mode {
            push_str(&mut self.filter_text, key);
            self.selected_row = 0;
        } else if self.command_mode {
            push_str(&mut self.command_input, key);
        }
    }

    /// Keys 1-4 switch the detail tab while the detail is open.
    pub fn on_detail_tab(&mut self, tab: DetailTab) -> (e: Option<Effect>)
        ensures
            !old(self)@.detail_visible ==> final(self)@ == old(self)@ && e is None,
            old(self)@.detail_visible ==> ({
                let m = AppModel { detail_tab: tab, ..old(self)@ };
                if tab == DetailTab::Logs && m.detail_logs is None && !m.detail_logs_loading {
                    logs_requested(m, final(self)@, e)
                } else {
                    final(self)@ == m && e is None
                }
            }),
    {
        if self.detail_visible {
            self.switch_detail_tab(tab)
        } else {
            None
        }
    }

    /// `r` restarts, unless a text input is open.
    pub fn on_restart(&mut self) -> (e: Option<Effect>)
        ensures
            (old(self)@.command_mode || old(self)@.filter_mode || old(self)@.ns_picker_visible) ==> final(self)@ == old(self)@ && e is None,
            !(old(self)@.command_mode || old(self)@.filter_mode || old(self)@.ns_picker_visible) ==> match restart_target(old(self)@) {
                None => final(self)@ == old(self)@ && e is None,
                Some((name, rt)) => if restartable(rt) {
                    final(self)@ == (AppModel { status_message: "Restarting "@ + name + "..."@, ..old(self)@ })
                        && effect_view(e) == Some(EffectView::Restart {
                        resource_type: rt,
                        name,
                        namespace: old(self)@.current_namespace,
                    })
                } else {
                    final(self)@ == (AppModel { status_message: "Restart not supported for "@ + rt, ..old(self)@ })
                        && e is None
                },
            },
    {
        if !self.command_mode && !self.filter_mode && !self.ns_picker_visible {
            self.restart_current_resource()
        } else {
            None
        }
    }

    /// Ctrl-S applies the YAML while the YAML tab of the detail is shown.
    pub fn on_apply_yaml(&mut self, editor_text: &str) -> (e: Option<Effect>)
        ensures
            !(old(self)@.detail_visible && old(self)@.detail_tab == DetailTab::Yaml) ==> final(self)@ == old(self)@ && e is None,
            (old(self)@.detail_visible && old(self)@.detail_tab == DetailTab::Yaml) ==> (
            if !old(self)@.yaml_editor_open {
                final(self)@ == old(self)@ && e is None
            } else if trimmed(editor_text@).len() == 0 {
                final(self)@ == (AppModel { status_message: "YAML is empty"@, ..old(self)@ }) && e is None
            } else {
                final(self)@ == (AppModel { status_message: "Applying YAML..."@, ..old(self)@ })
                    && effect_view(e) == Some(EffectView::ApplyYaml { yaml: editor_text@, namespace: old(self)@.current_namespace })
            }),
    {
        if self.detail_visible && self.detail_tab == DetailTab::Yaml {
            self.apply_yaml(editor_text)
        } else {
            None
        }
    }

    /// A click on a sidebar entry switches to its resource type.
    pub fn on_sidebar_click(&mut self, idx: usize) -> (e: Option<Effect>)
        ensures
            idx >= RESOURCE_COUNT ==> final(self)@ == old(self)@ && e is None,
            idx < RESOURCE_COUNT ==> final(self)@ == (AppModel {
                active_panel: FocusPanel::Table,
                ..switched(old(self)@, api_name_at(idx as int))
            }) && effect_view(e) == Some(EffectView::LoadResources {
                resource: api_name_at(idx as int),
                namespace: old(self)@.current_namespace,
            }),
    {
        let table = resources();
        if idx < table.len() {
            assert(crate::model::resources::entry_view(table@[idx as int]) == crate::model::resources::resource_table()[idx as int]);
            let e = self.switch_resource(table[idx].api_name);
            self.active_panel = FocusPanel::Table;
            Some(e)
        } else {
            None
        }
    }

    /// A click on a table row selects it and opens its detail.
    pub fn on_table_click(&mut self, idx: usize) -> (e: Option<Effect>)
        ensures
            ({
                let m = AppModel { selected_row: idx, active_panel: FocusPanel::Table, ..old(self)@ };
                match selected_name(m) {
                    Some(name) => final(self)@ == detail_opened(m) && effect_view(e) == Some(
                        EffectView::LoadDetail { resource_type: m.current_resource, name, namespace: m.current_namespace },
                    ),
                    None => final(self)@ == m && e is None,
                }
            }),
    {
        self.selected_row = idx;
        self.active_panel = FocusPanel::Table;
        self.open_detail()
    }

    /// Enter acts on whatever has the keyboard: picks the namespace, closes
    /// the filter, runs the command, switches to the sidebar's resource
    /// type, enters the selected namespace, or opens the selected row.
    pub fn on_enter(&mut self) -> (e: Option<Effect>)
        ensures
            ({
                let m = old(self)@;
                if m.ns_picker_visible {
                    let shown = visible_names(m.ns_picker_list, m.ns_picker_filter);
                    if m.ns_picker_selected < shown.len() {
                        let ns = shown[m.ns_picker_selected as int];
                        final(self)@ == (AppModel {
                            current_namespace: ns,
                            ns_picker_visible: false,
                            ns_picker_filter: Seq::empty(),
                            loading: true,
                            spinner_frame: 0,
                            ..m
                        }) && effect_view(e) == Some(EffectView::LoadResources { resource: m.current_resource, namespace: ns })
                    } else {
                        final(self)@ == m && e is None
                    }
                } else if m.filter_mode {
                    final(self)@ == (AppModel { filter_mode: false, ..m }) && e is None
                } else if m.command_mode {
                    let c = AppModel { command_input: Seq::empty(), command_mode: false, ..m };
                    let cmd = trimmed(m.command_input);
                    if cmd.len() == 0 {
                        final(self)@ == c && e is None
                    } else {
                        final(self)@ == switched(c, command_target(cmd)) && effect_view(e) == Some(
                            EffectView::LoadResources { resource: command_target(cmd), namespace: c.current_namespace },
                        )
                    }
                } else if m.detail_visible {
                    final(self)@ == m && e is None
                } else if m.active_panel == FocusPanel::Sidebar {
                    if m.sidebar_selected < RESOURCE_COUNT {
                        final(self)@ == (AppModel {
                            active_panel: FocusPanel::Table,
                            ..switched(AppModel { active_panel: FocusPanel::Table, ..m }, api_name_at(m.sidebar_selected as int))
                        }) && effect_view(e) == Some(EffectView::LoadResources {
                            resource: api_name_at(m.sidebar_selected as int),
                            namespace: m.current_namespace,
                        })
                    } else {
                        final(self)@ == m && e is None
                    }
                } else if m.current_resource == "namespaces"@ {
                    if m.selected_row < m.table_rows.len() && m.table_rows[m.selected_row as int].len() > 0 {
                        let ns = m.table_rows[m.selected_row as int][0];
                        final(self)@ == switched(AppModel { current_namespace: ns, ..m }, "pods"@)
                            && effect_view(e) == Some(EffectView::LoadResources { resource: "pods"@, namespace: ns })
                    } else {
                        final(self)@ == m && e is None
                    }
                } else {
                    match selected_name(m) {
                        Some(name) => final(self)@ == detail_opened(m) && effect_view(e) == Some(
                            EffectView::LoadDetail { resource_type: m.current_resource, name, namespace: m.current_namespace },
                        ),
                        None => final(self)@ == m && e is None,
                    }
                }
            }),
    {
        if self.ns_picker_visible {
            self.select_namespace()
        } else if self.filter_mode {
            self.filter_mode = false;
            None
        } else if self.command_mode {
            self.handle_command()
        } else if self.detail_visible {
            None
        } else if self.active_panel == FocusPanel::Sidebar {
            let table = resources();
            if self.sidebar_selected < table.len() {
                let idx = self.sidebar_selected;
                assert(crate::model::resources::entry_view(table@[idx as int]) == crate::model::resources::resource_table()[idx as int]);
                self.active_panel = FocusPanel::Table;
                Some(self.switch_resource(table[idx].api_name))
            } else {
                None
            }
        } else if str_eq(self.current_resource.as_str(), "namespaces") {
            if self.selected_row < self.table_data.rows.len() {
                let ghost m = self@;
                assert(m.table_rows[self.selected_row as int] == views(self.table_data.rows@[self.selected_row as int].cells@));
                let row = &self.table_data.rows[self.selected_row];
                if row.cells.len() > 0 {
                    assert(views(row.cells@)[0] == row.cells@[0]@);
                    let ns = row.cells[0].clone();
                    self.current_namespace = ns;
                    Some(self.switch_resource("pods"))
                } else {
                    None
                }
            } else {
                None
            }
        } else {
            self.open_detail()
        }
    }

    /// Advances the spinner by one frame while anything loads; answers
    /// whether anything loads.
    pub fn tick_spinner(&mut self) -> (busy: bool)
        requires
            old(self).spinner_frame < usize::MAX,
        ensures
            busy == any_loading(old(self)@),
            final(self)@ == if busy {
                AppModel { spinner_frame: ((old(self)@.spinner_frame + 1) % (SPINNER_FRAME_COUNT as int)) as usize, ..old(self)@ }
            } else {
                old(self)@
            },
    {
        let busy = self.loading || self.detail_loading || self.detail_logs_loading;
        if busy {
            self.spinner_frame = (self.spinner_frame + 1) % SPINNER_FRAME_COUNT;
        }
        busy
    }

    /// The table the filter shows: all columns and the visible rows.
    pub fn filtered_table(&self) -> (t: TableData)
        ensures
            column_specs(t.columns@) == self@.table_columns,
            rows_view(t.rows@) == visible_rows(self@.table_rows, self@.filter_text).map_values(
                |i: int| self@.table_rows[i],
            ),
    {
        let shown = self.filtered_rows();
        proof {
            lemma_visible_rows_bounds(self@.table_rows, self@.filter_text);
        }
        let mut columns: Vec<crate::model::table::TableColumn> = Vec::new();
        for i in 0..self.table_data.columns.len()
            invariant
                columns@.len() == i,
                forall|j: int| 0 <= j < i ==> (#[trigger] columns@[j]).name@ == self.table_data.columns@[j].name@
                    && columns@[j].min_width == self.table_data.columns@[j].min_width,
        {
            let c = &self.table_data.columns[i];
            let name = c.name.clone();
            columns.push(crate::model::table::TableColumn { name, min_width: c.min_width });
        }
        assert(column_specs(columns@) =~= column_specs(self.table_data.columns@));
        let ghost target = visible_rows(self@.table_rows, self@.filter_text).map_values(|i: int| self@.table_rows[i]);
        let mut rows: Vec<TableRow> = Vec::new();
        for k in 0..shown.len()
            invariant
                as_ints(shown@) == visible_rows(self@.table_rows, self@.filter_text),
                forall|i: int| 0 <= i < as_ints(shown@).len() ==> 0 <= #[trigger] as_ints(shown@)[i] < self@.table_rows.len(),
                target == visible_rows(self@.table_rows, self@.filter_text).map_values(|i: int| self@.table_rows[i]),
                rows@.len() == k,
                forall|j: int| 0 <= j < k ==> row_cells(#[trigger] rows@[j]) == target[j],
        {
            let idx = shown[k];
            assert(as_ints(shown@)[k as int] == idx as int);
            assert(self@.table_rows[idx as int] == row_cells(self.table_data.rows@[idx as int]));
            let row = copy_row(&self.table_data.rows[idx]);
            rows.push(row);
        }
        assert(rows_view(rows@) =~= target);
        TableData { columns, rows }
    }
}

/// A copy of a table row.
pub fn copy_row(r: &TableRow) -> (c: TableRow)
    ensures
        row_cells(c) == row_cells(*r),
{
    let mut cells: Vec<String> = Vec::new();
    for i in 0..r.cells.len()
        invariant
            cells@ == r.cells@.take(i as int),
    {
        cells.push(r.cells[i].clone());
        assert(r.cells@.take(i + 1) == r.cells@.take(i as int).push(r.cells@[i as int]));
    }
    assert(r.cells@.take(r.cells.len() as int) == r.cells@);
    TableRow { cells }
}

} // verus!

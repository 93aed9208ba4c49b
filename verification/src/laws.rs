//! Properties that span several operations of the library.
use vstd::prelude::*;
use crate::app::{
    selected_name, backspaced, command_target, moved, refreshed, restartable, row_matches, typed, visible_names, visible_rows,
    AppModel, FocusPanel,
};
use crate::k8s::age::{age_text, elapsed_secs, Instant};
use crate::model::detail::ResourceDetailView;
use crate::k8s::ops::{kind_of, log_source_of, per_pod_tail, restart_action_of};
use crate::model::resources::{api_name_at, resource_table, RESOURCE_COUNT};
use crate::text::{decimal_int, decimal_nat, is_substring, lowercase};
use crate::k8s::listing::{container_statuses, pod_cells, ready_count};
use crate::k8s::objects::{ContainerStatus, Deployment, Pod};
use crate::k8s::detail::deployment_detail_view;
use crate::model::detail::{EventEntryView, PodInfoView};
use crate::ui::{category_runs, logs_offered, table_categories};

verus! {

// ── Filtering ──────────────────────────────────────────────────────────

/// A row is shown exactly when the filter is empty or one of its cells
/// matches it; the shown rows keep their order and appear once each.
pub proof fn law_filter_shows_matching_rows(rows: Seq<Seq<Seq<char>>>, filter: Seq<char>)
    ensures
        forall|i: int|
            (0 <= i < rows.len() && (filter.len() == 0 || row_matches(rows[i], filter)))
                <==> visible_rows(rows, filter).contains(i),
        forall|a: int, b: int|
            0 <= a < b < visible_rows(rows, filter).len() ==> visible_rows(rows, filter)[a]
                < visible_rows(rows, filter)[b],
    decreases rows.len(),
{
    crate::app::lemma_visible_rows_bounds(rows, filter);
    if rows.len() > 0 {
        let init = rows.drop_last();
        law_filter_shows_matching_rows(init, filter);
        crate::app::lemma_visible_rows_bounds(init, filter);
        let earlier = visible_rows(init, filter);
        assert forall|i: int|
            (0 <= i < rows.len() && (filter.len() == 0 || row_matches(rows[i], filter)))
                <==> visible_rows(rows, filter).contains(i) by {
            if 0 <= i < init.len() {
                assert(rows[i] == init[i]);
            }
            if visible_rows(rows, filter).contains(i) {
                let k = choose|k: int| 0 <= k < visible_rows(rows, filter).len() && visible_rows(rows, filter)[k] == i;
                if k < earlier.len() {
                    assert(earlier[k] == i);
                    assert(earlier.contains(i));
                }
            }
            if 0 <= i < init.len() && earlier.contains(i) {
                let k = choose|k: int| 0 <= k < earlier.len() && earlier[k] == i;
                assert(visible_rows(rows, filter)[k] == i);
            }
            if i == rows.len() - 1 && (filter.len() == 0 || row_matches(rows[i], filter)) {
                assert(visible_rows(rows, filter)[earlier.len() as int] == i);
            }
        }
    }
}

/// A row matches the filter exactly when one of its cells, lower-cased,
/// contains the lower-cased filter somewhere.
pub proof fn law_row_match_is_substring(cells: Seq<Seq<char>>, filter: Seq<char>)
    ensures
        row_matches(cells, filter) <==> exists|j: int, i: int|
            0 <= j < cells.len() && 0 <= i && i + lowercase(filter).len() <= lowercase(#[trigger] cells[j]).len()
                && #[trigger] lowercase(cells[j]).subrange(i, i + lowercase(filter).len()) == lowercase(filter),
{
}

/// With an empty filter every row shows, in order.
pub proof fn law_empty_filter_shows_all(rows: Seq<Seq<Seq<char>>>)
    ensures
        visible_rows(rows, Seq::empty()) == Seq::new(rows.len(), |i: int| i),
    decreases rows.len(),
{
    if rows.len() > 0 {
        law_empty_filter_shows_all(rows.drop_last());
        assert(visible_rows(rows, Seq::empty()) =~= Seq::new(rows.len(), |i: int| i));
    }
}

/// With an empty filter the namespace picker lists every name.
pub proof fn law_empty_filter_lists_all_names(names: Seq<Seq<char>>)
    ensures
        visible_names(names, Seq::empty()) == names,
    decreases names.len(),
{
    if names.len() > 0 {
        law_empty_filter_lists_all_names(names.drop_last());
        assert(names.drop_last().push(names.last()) =~= names);
    }
}

/// Moving the selection never leaves the list it moves in: the picker's
/// filtered names, the sidebar, or the rows the filter shows.
pub proof fn law_selection_stays_in_range(m: AppModel, delta: int)
    ensures
        ({
            let after = moved(m, delta);
            let names = visible_names(m.ns_picker_list, m.ns_picker_filter).len();
            let rows = visible_rows(m.table_rows, m.filter_text).len();
            &&& m.ns_picker_visible && names > 0 ==> after.ns_picker_selected < names
            &&& !m.ns_picker_visible && m.active_panel == FocusPanel::Sidebar ==> after.sidebar_selected < RESOURCE_COUNT
            &&& !m.ns_picker_visible && m.active_panel == FocusPanel::Table && rows > 0 ==> after.selected_row < rows
        }),
{
    crate::app::lemma_visible_rows_bounds(m.table_rows, m.filter_text);
    lemma_visible_names_bound(m.ns_picker_list, m.ns_picker_filter);
}

proof fn lemma_visible_names_bound(names: Seq<Seq<char>>, filter: Seq<char>)
    ensures
        visible_names(names, filter).len() <= names.len(),
    decreases names.len(),
{
    if names.len() > 0 {
        lemma_visible_names_bound(names.drop_last(), filter);
    }
}

/// Backspace takes back a typed character: the text input is as it was,
/// and only the selection stays reset as typing left it.
pub proof fn law_backspace_undoes_typing(m: AppModel, c: char)
    ensures
        backspaced(typed(m, seq![c])) == typed(m, Seq::empty()),
{
    assert((m.ns_picker_filter + seq![c]).drop_last() =~= m.ns_picker_filter + Seq::empty());
    assert((m.filter_text + seq![c]).drop_last() =~= m.filter_text + Seq::empty());
    assert((m.command_input + seq![c]).drop_last() =~= m.command_input + Seq::empty());
}

// ── Detail refresh ─────────────────────────────────────────────────────

/// A refresh of the open detail takes the fresh pods, conditions, phase,
/// containers and events, keeps the name, namespace, type, age, labels,
/// annotations, owners and YAML, and leaves the rest of the view (tab, logs,
/// editor) as it was; a failed fetch, or a detail closed meanwhile, changes
/// nothing.
pub proof fn law_refresh_updates_only_live_fields(m: AppModel, fresh: Option<ResourceDetailView>)
    ensures
        ({
            let after = refreshed(m, fresh);
            match (fresh, m.detail_data) {
                (Some(f), Some(d)) => m.detail_visible ==> {
                    &&& after.detail_data matches Some(d2)
                    &&& d2.pods == f.pods && d2.conditions == f.conditions && d2.phase == f.phase
                    &&& d2.containers == f.containers && d2.events == f.events
                    &&& d2.name == d.name && d2.namespace == d.namespace && d2.resource_type == d.resource_type
                    &&& d2.age == d.age && d2.labels == d.labels && d2.annotations == d.annotations
                    &&& d2.owner_references == d.owner_references && d2.yaml == d.yaml
                    &&& after == AppModel { detail_data: after.detail_data, ..m }
                },
                _ => after == m,
            }
        }),
        !m.detail_visible ==> refreshed(m, fresh) == m,
{
}

// ── Resource types ─────────────────────────────────────────────────────

/// Every resource type in the sidebar has a listing.
pub proof fn law_sidebar_types_are_listed(i: int)
    requires
        0 <= i < RESOURCE_COUNT,
    ensures
        kind_of(api_name_at(i)) is Some,
{
    assert(resource_table()[i].1 == api_name_at(i));
    assert(kind_of(api_name_at(i)) is Some) by {
        assert(i == 0 || i == 1 || i == 2 || i == 3 || i == 4 || i == 5 || i == 6 || i == 7 || i == 8
            || i == 9 || i == 10 || i == 11 || i == 12 || i == 13 || i == 14 || i == 15 || i == 16);
    }
}

/// A command that names a resource type, by alias or in full, names it in
/// full after one mapping: mapping again changes nothing.
pub proof fn law_command_target_settles(cmd: Seq<char>)
    ensures
        command_target(command_target(cmd)) == command_target(cmd),
{
    reveal_strlit("po");
    reveal_strlit("pod");
    reveal_strlit("pods");
    reveal_strlit("dp");
    reveal_strlit("deploy");
    reveal_strlit("deployment");
    reveal_strlit("deployments");
    reveal_strlit("svc");
    reveal_strlit("service");
    reveal_strlit("services");
    reveal_strlit("no");
    reveal_strlit("node");
    reveal_strlit("nodes");
    reveal_strlit("ns");
    reveal_strlit("namespace");
    reveal_strlit("namespaces");
    reveal_strlit("ds");
    reveal_strlit("daemonset");
    reveal_strlit("daemonsets");
    reveal_strlit("sts");
    reveal_strlit("statefulset");
    reveal_strlit("statefulsets");
    reveal_strlit("rs");
    reveal_strlit("replicaset");
    reveal_strlit("replicasets");
    reveal_strlit("cm");
    reveal_strlit("configmap");
    reveal_strlit("configmaps");
    reveal_strlit("sec");
    reveal_strlit("secret");
    reveal_strlit("secrets");
    reveal_strlit("sa");
    reveal_strlit("serviceaccount");
    reveal_strlit("serviceaccounts");
    reveal_strlit("ing");
    reveal_strlit("ingress");
    reveal_strlit("ingresses");
    reveal_strlit("pv");
    reveal_strlit("persistentvolumes");
    reveal_strlit("pvc");
    reveal_strlit("persistentvolumeclaims");
    reveal_strlit("ev");
    reveal_strlit("event");
    reveal_strlit("events");
    reveal_strlit("cj");
    reveal_strlit("cronjob");
    reveal_strlit("cronjobs");
    reveal_strlit("job");
    reveal_strlit("jobs");
    let t = command_target(cmd);
    if t != cmd {
        assert(command_target("pods"@) == "pods"@);
        assert(command_target("deployments"@) == "deployments"@);
        assert(command_target("services"@) == "services"@);
        assert(command_target("nodes"@) == "nodes"@);
        assert("namespaces"@[0] != "deployment"@[0]);
        assert(command_target("namespaces"@) == "namespaces"@);
        assert("daemonsets"@[1] != "deployment"@[1]);
        assert("daemonsets"@[0] != "namespaces"@[0]);
        assert(command_target("daemonsets"@) == "daemonsets"@);
        assert(command_target("statefulsets"@) == "statefulsets"@);
        assert("replicasets"@[0] != "deployments"@[0]);
        assert("replicasets"@[0] != "statefulset"@[0]);
        assert(command_target("replicasets"@) == "replicasets"@);
        assert("configmaps"@[0] != "deployment"@[0]);
        assert("configmaps"@[0] != "namespaces"@[0]);
        assert("configmaps"@[0] != "daemonsets"@[0]);
        assert("configmaps"@[0] != "replicaset"@[0]);
        assert(command_target("configmaps"@) == "configmaps"@);
        assert("secrets"@[2] != "service"@[2]);
        assert(command_target("secrets"@) == "secrets"@);
        assert(command_target("serviceaccounts"@) == "serviceaccounts"@);
        assert("ingresses"@[0] != "namespace"@[0]);
        assert("ingresses"@[0] != "daemonset"@[0]);
        assert("ingresses"@[0] != "configmap"@[0]);
        assert(command_target("ingresses"@) == "ingresses"@);
        assert(command_target("persistentvolumes"@) == "persistentvolumes"@);
        assert(command_target("persistentvolumeclaims"@) == "persistentvolumeclaims"@);
        assert("events"@[0] != "deploy"@[0]);
        assert("events"@[0] != "secret"@[0]);
        assert(command_target("events"@) == "events"@);
        assert("cronjobs"@[0] != "services"@[0]);
        assert(command_target("cronjobs"@) == "cronjobs"@);
        assert("jobs"@[0] != "pods"@[0]);
        assert("jobs"@[0] != "node"@[0]);
        assert(command_target("jobs"@) == "jobs"@);
    }
}

/// The Logs tab is offered exactly for the types whose logs can be fetched.
pub proof fn law_logs_tab_matches_log_fetch(resource_type: Seq<char>, name: Seq<char>)
    ensures
        logs_offered(resource_type) <==> log_source_of(resource_type, name) is Ok,
{
}

/// The restart button shows exactly for the types a restart supports.
pub proof fn law_restart_button_matches_restart(resource_type: Seq<char>)
    ensures
        restartable(resource_type) <==> restart_action_of(resource_type) is Some,
{
}

/// Logs of a workload fetch at least 20 lines from each pod.
pub proof fn law_at_least_twenty_lines_per_pod(tail: i64, pods: nat)
    ensures
        per_pod_tail(Some(tail), pods) matches Some(n) && n >= 20,
{
}

// ── Ages ───────────────────────────────────────────────────────────────

/// An age reads "future" exactly when the time lies ahead.
pub proof fn law_future_age(now: Instant, then: Instant)
    ensures
        (age_text(now, then) == "future"@) <==> elapsed_secs(now, then) < 0,
{
    reveal_strlit("future");
    let s = elapsed_secs(now, then);
    if s >= 0 {
        let t = age_text(now, then);
        assert(t.last() == 'd' || t.last() == 'h' || t.last() == 'm' || t.last() == 's');
        assert("future"@.last() == 'e');
    }
}

// ── Sidebar ────────────────────────────────────────────────────────────

/// The positions the runs cover, run after run.
pub open spec fn run_positions(runs: Seq<(Seq<char>, Seq<int>)>) -> Seq<int>
    decreases runs.len(),
{
    if runs.len() == 0 {
        Seq::empty()
    } else {
        run_positions(runs.drop_last()) + runs.last().1
    }
}

/// Grouping by category keeps every entry exactly once and in order; each
/// group is non-empty and holds entries of its own category only; groups
/// side by side differ in category.
pub proof fn law_category_groups_partition(cats: Seq<Seq<char>>)
    ensures
        run_positions(category_runs(cats)) == Seq::new(cats.len(), |i: int| i),
        forall|g: int| 0 <= g < category_runs(cats).len() ==> (#[trigger] category_runs(cats)[g]).1.len() > 0,
        forall|g: int, k: int|
            0 <= g < category_runs(cats).len() && 0 <= k < category_runs(cats)[g].1.len() ==> cats[
                #[trigger] category_runs(cats)[g].1[k]] == category_runs(cats)[g].0,
        forall|g: int|
            0 < g < category_runs(cats).len() ==> (#[trigger] category_runs(cats)[g]).0 != category_runs(cats)[g - 1].0,
    decreases cats.len(),
{
    if cats.len() > 0 {
        let init = cats.drop_last();
        law_category_groups_partition(init);
        let g = category_runs(init);
        let i = cats.len() - 1;
        let runs = category_runs(cats);
        assert forall|a: int, k: int|
            0 <= a < g.len() && 0 <= k < g[a].1.len() implies cats[#[trigger] g[a].1[k]] == g[a].0 by {
            assert(init[g[a].1[k]] == g[a].0);
            assert(0 <= g[a].1[k] < init.len()) by {
                lemma_run_positions_index(g, a, k);
                assert(run_positions(g) =~= Seq::new(init.len(), |j: int| j));
            }
        }
        if g.len() > 0 && g.last().0 == cats.last() {
            let last = g.last();
            assert(runs == g.update(g.len() - 1, (last.0, last.1.push(i))));
            assert(g.update(g.len() - 1, (last.0, last.1.push(i))).drop_last() =~= g.drop_last());
            let pre = run_positions(g.drop_last());
            assert(runs.last() == (last.0, last.1.push(i)));
            assert(run_positions(runs) == run_positions(runs.drop_last()) + runs.last().1);
            assert(run_positions(runs) == pre + last.1.push(i));
            assert(run_positions(g) == pre + last.1);
            assert(pre + last.1.push(i) =~= (pre + last.1).push(i));
            assert(Seq::new(init.len(), |j: int| j).push(i) =~= Seq::new(cats.len(), |j: int| j));
            assert(run_positions(runs) =~= Seq::new(cats.len(), |j: int| j));
            assert forall|a: int, k: int|
                0 <= a < runs.len() && 0 <= k < runs[a].1.len() implies cats[#[trigger] runs[a].1[k]] == runs[a].0 by {
                if a < g.len() - 1 {
                    assert(runs[a] == g[a]);
                } else if k < last.1.len() {
                    assert(runs[a].1[k] == last.1[k]);
                    assert(cats[g[a].1[k]] == g[a].0);
                }
            }
            assert forall|a: int| 0 < a < runs.len() implies (#[trigger] runs[a]).0 != runs[a - 1].0 by {
                assert(g[a].0 != g[a - 1].0);
            }
        } else {
            assert(runs == g.push((cats.last(), seq![i])));
            assert(runs.drop_last() =~= g);
            assert(run_positions(runs) =~= Seq::new(cats.len(), |j: int| j));
            assert forall|a: int, k: int|
                0 <= a < runs.len() && 0 <= k < runs[a].1.len() implies cats[#[trigger] runs[a].1[k]] == runs[a].0 by {
                if a < g.len() {
                    assert(runs[a] == g[a]);
                }
            }
            assert forall|a: int| 0 < a < runs.len() implies (#[trigger] runs[a]).0 != runs[a - 1].0 by {
                if a < g.len() {
                    assert(g[a].0 != g[a - 1].0);
                }
            }
        }
    }
}

/// A position held by a run appears among the positions of all runs.
proof fn lemma_run_positions_index(runs: Seq<(Seq<char>, Seq<int>)>, a: int, k: int)
    requires
        0 <= a < runs.len(),
        0 <= k < runs[a].1.len(),
    ensures
        run_positions(runs).contains(runs[a].1[k]),
    decreases runs.len(),
{
    let init = runs.drop_last();
    if a < runs.len() - 1 {
        lemma_run_positions_index(init, a, k);
        assert(runs[a] == init[a]);
        let j = choose|j: int| 0 <= j < run_positions(init).len() && run_positions(init)[j] == runs[a].1[k];
        assert(run_positions(runs)[j] == runs[a].1[k]);
    } else {
        let j = run_positions(init).len() + k;
        assert(run_positions(runs)[j] == runs[a].1[k]);
    }
}

/// The sidebar's groups follow the resource table: five categories, each
/// entry in its own category's group.
pub proof fn law_sidebar_groups()
    ensures
        run_positions(category_runs(table_categories())) == Seq::new(RESOURCE_COUNT as nat, |i: int| i),
        forall|g: int, k: int|
            0 <= g < category_runs(table_categories()).len() && 0 <= k < category_runs(table_categories())[g].1.len()
                ==> resource_table()[#[trigger] category_runs(table_categories())[g].1[k]].2 == category_runs(
                table_categories(),
            )[g].0,
{
    let cats = table_categories();
    law_category_groups_partition(cats);
    let runs = category_runs(cats);
    assert forall|g: int, k: int| 0 <= g < runs.len() && 0 <= k < runs[g].1.len() implies resource_table()[
        #[trigger] runs[g].1[k]].2 == runs[g].0 by {
        lemma_run_positions_index(runs, g, k);
        let x = runs[g].1[k];
        assert(Seq::new(RESOURCE_COUNT as nat, |i: int| i).contains(x));
        assert(cats[x] == resource_table()[x].2);
    }
}

// ── Commands ───────────────────────────────────────────────────────────

/// Each documented alias of the `:` command line, with the resource type it
/// names.
pub open spec fn command_aliases() -> Seq<(Seq<char>, Seq<char>)> {
    seq![
        ("po"@, "pods"@),
        ("pods"@, "pods"@),
        ("pod"@, "pods"@),
        ("dp"@, "deployments"@),
        ("deploy"@, "deployments"@),
        ("deployments"@, "deployments"@),
        ("deployment"@, "deployments"@),
        ("svc"@, "services"@),
        ("services"@, "services"@),
        ("service"@, "services"@),
        ("no"@, "nodes"@),
        ("nodes"@, "nodes"@),
        ("node"@, "nodes"@),
        ("ns"@, "namespaces"@),
        ("namespaces"@, "namespaces"@),
        ("namespace"@, "namespaces"@),
        ("ds"@, "daemonsets"@),
        ("daemonsets"@, "daemonsets"@),
        ("daemonset"@, "daemonsets"@),
        ("sts"@, "statefulsets"@),
        ("statefulsets"@, "statefulsets"@),
        ("statefulset"@, "statefulsets"@),
        ("rs"@, "replicasets"@),
        ("replicasets"@, "replicasets"@),
        ("replicaset"@, "replicasets"@),
        ("cm"@, "configmaps"@),
        ("configmaps"@, "configmaps"@),
        ("configmap"@, "configmaps"@),
        ("sec"@, "secrets"@),
        ("secrets"@, "secrets"@),
        ("secret"@, "secrets"@),
        ("sa"@, "serviceaccounts"@),
        ("serviceaccounts"@, "serviceaccounts"@),
        ("serviceaccount"@, "serviceaccounts"@),
        ("ing"@, "ingresses"@),
        ("ingresses"@, "ingresses"@),
        ("ingress"@, "ingresses"@),
        ("pv"@, "persistentvolumes"@),
        ("persistentvolumes"@, "persistentvolumes"@),
        ("pvc"@, "persistentvolumeclaims"@),
        ("persistentvolumeclaims"@, "persistentvolumeclaims"@),
        ("ev"@, "events"@),
        ("events"@, "events"@),
        ("event"@, "events"@),
        ("cj"@, "cronjobs"@),
        ("cronjobs"@, "cronjobs"@),
        ("cronjob"@, "cronjobs"@),
        ("job"@, "jobs"@),
        ("jobs"@, "jobs"@),
    ]
}

/// Every documented alias of the command line names its own resource type:
/// `:ds` shows daemon sets, `:dp` and `:deploy` deployments, `:sts` stateful
/// sets, and so on for each alias and full name.
pub proof fn law_command_aliases(i: int)
    requires
        0 <= i < command_aliases().len(),
    ensures
        command_target(command_aliases()[i].0) == command_aliases()[i].1,
{
    reveal_strlit("cj");
    reveal_strlit("cm");
    reveal_strlit("configmap");
    reveal_strlit("configmaps");
    reveal_strlit("cronjob");
    reveal_strlit("cronjobs");
    reveal_strlit("daemonset");
    reveal_strlit("daemonsets");
    reveal_strlit("deploy");
    reveal_strlit("deployment");
    reveal_strlit("deployments");
    reveal_strlit("dp");
    reveal_strlit("ds");
    reveal_strlit("ev");
    reveal_strlit("event");
    reveal_strlit("events");
    reveal_strlit("ing");
    reveal_strlit("ingress");
    reveal_strlit("ingresses");
    reveal_strlit("job");
    reveal_strlit("jobs");
    reveal_strlit("namespace");
    reveal_strlit("namespaces");
    reveal_strlit("no");
    reveal_strlit("node");
    reveal_strlit("nodes");
    reveal_strlit("ns");
    reveal_strlit("persistentvolumeclaims");
    reveal_strlit("persistentvolumes");
    reveal_strlit("po");
    reveal_strlit("pod");
    reveal_strlit("pods");
    reveal_strlit("pv");
    reveal_strlit("pvc");
    reveal_strlit("replicaset");
    reveal_strlit("replicasets");
    reveal_strlit("rs");
    reveal_strlit("sa");
    reveal_strlit("sec");
    reveal_strlit("secret");
    reveal_strlit("secrets");
    reveal_strlit("service");
    reveal_strlit("serviceaccount");
    reveal_strlit("serviceaccounts");
    reveal_strlit("services");
    reveal_strlit("statefulset");
    reveal_strlit("statefulsets");
    reveal_strlit("sts");
    reveal_strlit("svc");
    assert(
        "cj"@.len() == 2
        && "cm"@.len() == 2
        && "configmap"@.len() == 9
        && "configmaps"@.len() == 10
        && "cronjob"@.len() == 7
        && "cronjobs"@.len() == 8
        && "daemonset"@.len() == 9
        && "daemonsets"@.len() == 10
        && "deploy"@.len() == 6
        && "deployment"@.len() == 10
        && "deployments"@.len() == 11
        && "dp"@.len() == 2
        && "ds"@.len() == 2
        && "ev"@.len() == 2
        && "event"@.len() == 5
        && "events"@.len() == 6
        && "ing"@.len() == 3
        && "ingress"@.len() == 7
        && "ingresses"@.len() == 9
        && "job"@.len() == 3
        && "jobs"@.len() == 4
        && "namespace"@.len() == 9
        && "namespaces"@.len() == 10
        && "no"@.len() == 2
        && "node"@.len() == 4
        && "nodes"@.len() == 5
        && "ns"@.len() == 2
        && "persistentvolumeclaims"@.len() == 22
        && "persistentvolumes"@.len() == 17
        && "po"@.len() == 2
        && "pod"@.len() == 3
        && "pods"@.len() == 4
        && "pv"@.len() == 2
        && "pvc"@.len() == 3
        && "replicaset"@.len() == 10
        && "replicasets"@.len() == 11
        && "rs"@.len() == 2
        && "sa"@.len() == 2
        && "sec"@.len() == 3
        && "secret"@.len() == 6
        && "secrets"@.len() == 7
        && "service"@.len() == 7
        && "serviceaccount"@.len() == 14
        && "serviceaccounts"@.len() == 15
        && "services"@.len() == 8
        && "statefulset"@.len() == 11
        && "statefulsets"@.len() == 12
        && "sts"@.len() == 3
        && "svc"@.len() == 3
    );
    assert(
        "dp"@[0] != "po"@[0]
        && "svc"@[0] != "pod"@[0]
        && "no"@[0] != "po"@[0]
        && "no"@[0] != "dp"@[0]
        && "node"@[0] != "pods"@[0]
        && "ns"@[0] != "po"@[0]
        && "ns"@[0] != "dp"@[0]
        && "ns"@[1] != "no"@[1]
        && "namespaces"@[0] != "deployment"@[0]
        && "ds"@[0] != "po"@[0]
        && "ds"@[1] != "dp"@[1]
        && "ds"@[0] != "no"@[0]
        && "ds"@[0] != "ns"@[0]
        && "daemonsets"@[1] != "deployment"@[1]
        && "daemonsets"@[0] != "namespaces"@[0]
        && "daemonset"@[0] != "namespace"@[0]
        && "sts"@[0] != "pod"@[0]
        && "sts"@[1] != "svc"@[1]
        && "statefulset"@[0] != "deployments"@[0]
        && "rs"@[0] != "po"@[0]
        && "rs"@[0] != "dp"@[0]
        && "rs"@[0] != "no"@[0]
        && "rs"@[0] != "ns"@[0]
        && "rs"@[0] != "ds"@[0]
        && "replicasets"@[0] != "deployments"@[0]
        && "replicasets"@[0] != "statefulset"@[0]
        && "replicaset"@[0] != "deployment"@[0]
        && "replicaset"@[0] != "namespaces"@[0]
        && "replicaset"@[0] != "daemonsets"@[0]
        && "cm"@[0] != "po"@[0]
        && "cm"@[0] != "dp"@[0]
        && "cm"@[0] != "no"@[0]
        && "cm"@[0] != "ns"@[0]
        && "cm"@[0] != "ds"@[0]
        && "cm"@[0] != "rs"@[0]
        && "configmaps"@[0] != "deployment"@[0]
        && "configmaps"@[0] != "namespaces"@[0]
        && "configmaps"@[0] != "daemonsets"@[0]
        && "configmaps"@[0] != "replicaset"@[0]
        && "configmap"@[0] != "namespace"@[0]
        && "configmap"@[0] != "daemonset"@[0]
        && "sec"@[0] != "pod"@[0]
        && "sec"@[1] != "svc"@[1]
        && "sec"@[1] != "sts"@[1]
        && "secrets"@[2] != "service"@[2]
        && "secret"@[0] != "deploy"@[0]
        && "sa"@[0] != "po"@[0]
        && "sa"@[0] != "dp"@[0]
        && "sa"@[0] != "no"@[0]
        && "sa"@[0] != "ns"@[0]
        && "sa"@[0] != "ds"@[0]
        && "sa"@[0] != "rs"@[0]
        && "sa"@[0] != "cm"@[0]
        && "ing"@[0] != "pod"@[0]
        && "ing"@[0] != "svc"@[0]
        && "ing"@[0] != "sts"@[0]
        && "ing"@[0] != "sec"@[0]
        && "ingresses"@[0] != "namespace"@[0]
        && "ingresses"@[0] != "daemonset"@[0]
        && "ingresses"@[0] != "configmap"@[0]
        && "ingress"@[0] != "service"@[0]
        && "ingress"@[0] != "secrets"@[0]
        && "pv"@[1] != "po"@[1]
        && "pv"@[0] != "dp"@[0]
        && "pv"@[0] != "no"@[0]
        && "pv"@[0] != "ns"@[0]
        && "pv"@[0] != "ds"@[0]
        && "pv"@[0] != "rs"@[0]
        && "pv"@[0] != "cm"@[0]
        && "pv"@[0] != "sa"@[0]
        && "pvc"@[1] != "pod"@[1]
        && "pvc"@[0] != "svc"@[0]
        && "pvc"@[0] != "sts"@[0]
        && "pvc"@[0] != "sec"@[0]
        && "pvc"@[0] != "ing"@[0]
        && "ev"@[0] != "po"@[0]
        && "ev"@[0] != "dp"@[0]
        && "ev"@[0] != "no"@[0]
        && "ev"@[0] != "ns"@[0]
        && "ev"@[0] != "ds"@[0]
        && "ev"@[0] != "rs"@[0]
        && "ev"@[0] != "cm"@[0]
        && "ev"@[0] != "sa"@[0]
        && "ev"@[0] != "pv"@[0]
        && "events"@[0] != "deploy"@[0]
        && "events"@[0] != "secret"@[0]
        && "event"@[0] != "nodes"@[0]
        && "cj"@[0] != "po"@[0]
        && "cj"@[0] != "dp"@[0]
        && "cj"@[0] != "no"@[0]
        && "cj"@[0] != "ns"@[0]
        && "cj"@[0] != "ds"@[0]
        && "cj"@[0] != "rs"@[0]
        && "cj"@[1] != "cm"@[1]
        && "cj"@[0] != "sa"@[0]
        && "cj"@[0] != "pv"@[0]
        && "cj"@[0] != "ev"@[0]
        && "cronjobs"@[0] != "services"@[0]
        && "cronjob"@[0] != "service"@[0]
        && "cronjob"@[0] != "secrets"@[0]
        && "cronjob"@[0] != "ingress"@[0]
        && "job"@[0] != "pod"@[0]
        && "job"@[0] != "svc"@[0]
        && "job"@[0] != "sts"@[0]
        && "job"@[0] != "sec"@[0]
        && "job"@[0] != "ing"@[0]
        && "job"@[0] != "pvc"@[0]
        && "jobs"@[0] != "pods"@[0]
        && "jobs"@[0] != "node"@[0]
    );
    assert(command_target("po"@) == "pods"@);
    assert(command_target("pods"@) == "pods"@);
    assert(command_target("pod"@) == "pods"@);
    assert(command_target("dp"@) == "deployments"@);
    assert(command_target("deploy"@) == "deployments"@);
    assert(command_target("deployments"@) == "deployments"@);
    assert(command_target("deployment"@) == "deployments"@);
    assert(command_target("svc"@) == "services"@);
    assert(command_target("services"@) == "services"@);
    assert(command_target("service"@) == "services"@);
    assert(command_target("no"@) == "nodes"@);
    assert(command_target("nodes"@) == "nodes"@);
    assert(command_target("node"@) == "nodes"@);
    assert(command_target("ns"@) == "namespaces"@);
    assert(command_target("namespaces"@) == "namespaces"@);
    assert(command_target("namespace"@) == "namespaces"@);
    assert(command_target("ds"@) == "daemonsets"@);
    assert(command_target("daemonsets"@) == "daemonsets"@);
    assert(command_target("daemonset"@) == "daemonsets"@);
    assert(command_target("sts"@) == "statefulsets"@);
    assert(command_target("statefulsets"@) == "statefulsets"@);
    assert(command_target("statefulset"@) == "statefulsets"@);
    assert(command_target("rs"@) == "replicasets"@);
    assert(command_target("replicasets"@) == "replicasets"@);
    assert(command_target("replicaset"@) == "replicasets"@);
    assert(command_target("cm"@) == "configmaps"@);
    assert(command_target("configmaps"@) == "configmaps"@);
    assert(command_target("configmap"@) == "configmaps"@);
    assert(command_target("sec"@) == "secrets"@);
    assert(command_target("secrets"@) == "secrets"@);
    assert(command_target("secret"@) == "secrets"@);
    assert(command_target("sa"@) == "serviceaccounts"@);
    assert(command_target("serviceaccounts"@) == "serviceaccounts"@);
    assert(command_target("serviceaccount"@) == "serviceaccounts"@);
    assert(command_target("ing"@) == "ingresses"@);
    assert(command_target("ingresses"@) == "ingresses"@);
    assert(command_target("ingress"@) == "ingresses"@);
    assert(command_target("pv"@) == "persistentvolumes"@);
    assert(command_target("persistentvolumes"@) == "persistentvolumes"@);
    assert(command_target("pvc"@) == "persistentvolumeclaims"@);
    assert(command_target("persistentvolumeclaims"@) == "persistentvolumeclaims"@);
    assert(command_target("ev"@) == "events"@);
    assert(command_target("events"@) == "events"@);
    assert(command_target("event"@) == "events"@);
    assert(command_target("cj"@) == "cronjobs"@);
    assert(command_target("cronjobs"@) == "cronjobs"@);
    assert(command_target("cronjob"@) == "cronjobs"@);
    assert(command_target("job"@) == "jobs"@);
    assert(command_target("jobs"@) == "jobs"@);
}

// ── Ready containers ───────────────────────────────────────────────────

/// Counting ready containers counts exactly those whose ready flag is set.
proof fn lemma_ready_count_filters(cs: Seq<ContainerStatus>)
    ensures
        ready_count(cs) == cs.filter(|c: ContainerStatus| c.ready).len(),
    decreases cs.len(),
{
    reveal(Seq::filter);
    if cs.len() > 0 {
        lemma_ready_count_filters(cs.drop_last());
    }
}

/// The READY cell of a pod reads "k/n": k of its n container statuses have
/// the ready flag set. A pod whose containers are all ready shows "n/n",
/// one with none ready "0/n", and one without statuses "0/0".
pub proof fn law_pod_ready_cell(p: Pod, now: Instant)
    ensures
        pod_cells(p, now)[1] == match p.status {
            Some(s) => match s.container_statuses {
                Some(cs) => decimal_nat(cs@.filter(|c: ContainerStatus| c.ready).len()) + seq!['/']
                    + decimal_nat(cs@.len()),
                None => seq!['0', '/', '0'],
            },
            None => seq!['0', '/', '0'],
        },
        (p.status matches Some(s) && s.container_statuses matches Some(cs) && forall|i: int|
            0 <= i < cs@.len() ==> (#[trigger] cs@[i]).ready) ==> pod_cells(p, now)[1] == decimal_nat(
            container_statuses(p)->0.len(),
        ) + seq!['/'] + decimal_nat(container_statuses(p)->0.len()),
{
    assert(decimal_nat(0) == seq!['0']) by {
        reveal_with_fuel(decimal_nat, 2);
    }
    match p.status {
        Some(s) => match s.container_statuses {
            Some(cs) => {
                lemma_ready_count_filters(cs@);
                if forall|i: int| 0 <= i < cs@.len() ==> (#[trigger] cs@[i]).ready {
                    lemma_all_ready(cs@);
                }
            },
            None => {},
        },
        None => {},
    }
}

proof fn lemma_all_ready(cs: Seq<ContainerStatus>)
    requires
        forall|i: int| 0 <= i < cs.len() ==> (#[trigger] cs[i]).ready,
    ensures
        ready_count(cs) == cs.len(),
    decreases cs.len(),
{
    if cs.len() > 0 {
        assert(cs[cs.len() - 1].ready);
        lemma_all_ready(cs.drop_last());
    }
}

// ── Namespace picker filter ────────────────────────────────────────────

/// With a non-empty filter, the picker shows a namespace exactly when it is
/// listed and its lower-cased name contains the lower-cased filter anywhere
/// (not only at the start).
pub proof fn law_namespace_filter(names: Seq<Seq<char>>, filter: Seq<char>, n: Seq<char>)
    requires
        filter.len() > 0,
    ensures
        visible_names(names, filter).contains(n) <==> (names.contains(n) && exists|i: int|
            0 <= i && i + lowercase(filter).len() <= lowercase(n).len()
                && #[trigger] lowercase(n).subrange(i, i + lowercase(filter).len()) == lowercase(filter)),
    decreases names.len(),
{
    if names.len() > 0 {
        let init = names.drop_last();
        law_namespace_filter(init, filter, n);
        let earlier = visible_names(init, filter);
        if visible_names(names, filter).contains(n) {
            let k = choose|k: int| 0 <= k < visible_names(names, filter).len() && visible_names(names, filter)[k] == n;
            if k < earlier.len() {
                assert(earlier[k] == n);
                let j = choose|j: int| 0 <= j < init.len() && init[j] == n;
                assert(names[j] == n);
            } else {
                assert(names[names.len() - 1] == n);
            }
        }
        if names.contains(n) && is_substring(lowercase(filter), lowercase(n)) {
            let j = choose|j: int| 0 <= j < names.len() && names[j] == n;
            if j < init.len() {
                assert(init[j] == n);
                let k = choose|k: int| 0 <= k < earlier.len() && earlier[k] == n;
                assert(visible_names(names, filter)[k] == n);
            } else {
                assert(visible_names(names, filter)[earlier.len() as int] == n);
            }
        }
    }
}

// ── Deployment detail ──────────────────────────────────────────────────

/// A deployment's detail reads "ready/desired ready": the ready replicas
/// first, then the replicas wanted (absent counts read as zero).
pub proof fn law_deployment_phase(
    d: Deployment,
    yaml: Seq<char>,
    pods: Seq<PodInfoView>,
    events: Seq<EventEntryView>,
    now: Instant,
)
    ensures
        d.status matches Some(s) ==> deployment_detail_view(d, yaml, pods, events, now).phase == decimal_int(
            match s.ready_replicas { Some(k) => k as int, None => 0 },
        ) + "/"@ + decimal_int(match s.replicas { Some(r) => r as int, None => 0 }) + " ready"@,
{
    reveal_strlit("/");
    match d.status {
        Some(s) => {
            assert(decimal_int(match s.ready_replicas { Some(k) => k as int, None => 0 }) + "/"@
                + decimal_int(match s.replicas { Some(r) => r as int, None => 0 }) + " ready"@
                =~= crate::k8s::common::ratio(
                    crate::k8s::listing::count_or_zero(s.ready_replicas),
                    crate::k8s::listing::count_or_zero(s.replicas),
                ) + " ready"@);
        },
        None => {},
    }
}

// ── The selected row ───────────────────────────────────────────────────

/// The name that opening, restarting or Enter acts on is the first cell of
/// the row the user sees selected: the `selected_row`-th of the rows the
/// filter shows. With a non-empty filter that row has a cell whose
/// lower-cased text contains the lower-cased filter.
pub proof fn law_selected_row_is_shown(m: AppModel)
    ensures
        selected_name(m) matches Some(n) ==> {
            let shown = visible_rows(m.table_rows, m.filter_text);
            &&& m.selected_row < shown.len()
            &&& 0 <= shown[m.selected_row as int] < m.table_rows.len()
            &&& m.table_rows[shown[m.selected_row as int]].len() > 0
            &&& m.table_rows[shown[m.selected_row as int]][0] == n
            &&& m.filter_text.len() > 0 ==> exists|j: int|
                0 <= j < m.table_rows[shown[m.selected_row as int]].len() && is_substring(
                    lowercase(m.filter_text),
                    lowercase(#[trigger] m.table_rows[shown[m.selected_row as int]][j]),
                )
        },
{
    let shown = visible_rows(m.table_rows, m.filter_text);
    crate::app::lemma_visible_rows_bounds(m.table_rows, m.filter_text);
    law_filter_shows_matching_rows(m.table_rows, m.filter_text);
    if selected_name(m) is Some && m.filter_text.len() > 0 {
        let i = shown[m.selected_row as int];
        assert(shown.contains(i));
        assert(row_matches(m.table_rows[i], m.filter_text));
    }
}

} // verus!

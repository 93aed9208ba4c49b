//! The resource types the sidebar offers.
use vstd::prelude::*;
use crate::text::str_eq;

verus! {

/// A resource entry for the sidebar
pub struct ResourceEntry {
    pub display_name: &'static str,
    pub api_name: &'static str,
    pub category: &'static str,
}

/// The number of supported resource types.
pub const RESOURCE_COUNT: usize = 17;

/// The supported resource types as (display name, API name, category),
/// grouped by category.
pub open spec fn resource_table() -> Seq<(Seq<char>, Seq<char>, Seq<char>)> {
    seq![
        ("Pods"@, "pods"@, "Workloads"@),
        ("Deployments"@, "deployments"@, "Workloads"@),
        ("StatefulSets"@, "statefulsets"@, "Workloads"@),
        ("DaemonSets"@, "daemonsets"@, "Workloads"@),
        ("ReplicaSets"@, "replicasets"@, "Workloads"@),
        ("Jobs"@, "jobs"@, "Workloads"@),
        ("CronJobs"@, "cronjobs"@, "Workloads"@),
        ("ConfigMaps"@, "configmaps"@, "Config"@),
        ("Secrets"@, "secrets"@, "Config"@),
        ("ServiceAccounts"@, "serviceaccounts"@, "Config"@),
        ("Services"@, "services"@, "Network"@),
        ("Ingresses"@, "ingresses"@, "Network"@),
        ("PersistentVolumes"@, "persistentvolumes"@, "Storage"@),
        ("PersistentVolumeClaims"@, "persistentvolumeclaims"@, "Storage"@),
        ("Namespaces"@, "namespaces"@, "Cluster"@),
        ("Nodes"@, "nodes"@, "Cluster"@),
        ("Events"@, "events"@, "Cluster"@),
    ]
}

/// The API name of the resource type at index `i`.
pub open spec fn api_name_at(i: int) -> Seq<char> {
    resource_table()[i].1
}

/// The view of an entry: its three names.
pub open spec fn entry_view(e: ResourceEntry) -> (Seq<char>, Seq<char>, Seq<char>) {
    (e.display_name@, e.api_name@, e.category@)
}

fn entry(display_name: &'static str, api_name: &'static str, category: &'static str) -> (e: ResourceEntry)
    ensures
        e.display_name@ == display_name@,
        e.api_name@ == api_name@,
        e.category@ == category@,
{
    ResourceEntry { display_name, api_name, category }
}

/// All supported resource types, grouped by category
pub fn resources() -> (v: Vec<ResourceEntry>)
    ensures
        v@.len() == RESOURCE_COUNT,
        v@.map_values(|e: ResourceEntry| entry_view(e)) == resource_table(),
{
    let mut v: Vec<ResourceEntry> = Vec::new();
    // Workloads
    v.push(entry("Pods", "pods", "Workloads"));
    v.push(entry("Deployments", "deployments", "Workloads"));
    v.push(entry("StatefulSets", "statefulsets", "Workloads"));
    v.push(entry("DaemonSets", "daemonsets", "Workloads"));
    v.push(entry("ReplicaSets", "replicasets", "Workloads"));
    v.push(entry("Jobs", "jobs", "Workloads"));
    v.push(entry("CronJobs", "cronjobs", "Workloads"));
    // Config
    v.push(entry("ConfigMaps", "configmaps", "Config"));
    v.push(entry("Secrets", "secrets", "Config"));
    v.push(entry("ServiceAccounts", "serviceaccounts", "Config"));
    // Network
    v.push(entry("Services", "services", "Network"));
    v.push(entry("Ingresses", "ingresses", "Network"));
    // Storage
    v.push(entry("PersistentVolumes", "persistentvolumes", "Storage"));
    v.push(entry("PersistentVolumeClaims", "persistentvolumeclaims", "Storage"));
    // Cluster
    v.push(entry("Namespaces", "namespaces", "Cluster"));
    v.push(entry("Nodes", "nodes", "Cluster"));
    v.push(entry("Events", "events", "Cluster"));
    assert(v@.map_values(|e: ResourceEntry| entry_view(e)) =~= resource_table());
    v
}

/// Find the index of a resource by api_name
pub fn resource_index(api_name: &str) -> (r: Option<usize>)
    ensures
        match r {
            Some(i) => i < RESOURCE_COUNT && api_name_at(i as int) == api_name@ && forall|j: int|
                0 <= j < i ==> api_name_at(j) != api_name@,
            None => forall|j: int| 0 <= j < RESOURCE_COUNT ==> api_name_at(j) != api_name@,
        },
{
    let table = resources();
    let mut i: usize = 0;
    while i < table.len()
        invariant
            table@.len() == RESOURCE_COUNT,
            table@.map_values(|e: ResourceEntry| entry_view(e)) == resource_table(),
            i <= table@.len(),
            forall|j: int| 0 <= j < i ==> api_name_at(j) != api_name@,
        decreases table.len() - i,
    {
        assert(entry_view(table@[i as int]) == resource_table()[i as int]);
        if str_eq(table[i].api_name, api_name) {
            return Some(i);
        }
        i = i + 1;
    }
    None
}

/// No two resource types share an API name.
pub proof fn lemma_api_names_distinct()
    ensures
        forall|i: int, j: int|
            0 <= i < j < RESOURCE_COUNT ==> api_name_at(i) != api_name_at(j),
{
    reveal_strlit("pods");
    reveal_strlit("deployments");
    reveal_strlit("statefulsets");
    reveal_strlit("daemonsets");
    reveal_strlit("replicasets");
    reveal_strlit("jobs");
    reveal_strlit("cronjobs");
    reveal_strlit("configmaps");
    reveal_strlit("secrets");
    reveal_strlit("serviceaccounts");
    reveal_strlit("services");
    reveal_strlit("ingresses");
    reveal_strlit("persistentvolumes");
    reveal_strlit("persistentvolumeclaims");
    reveal_strlit("namespaces");
    reveal_strlit("nodes");
    reveal_strlit("events");
    assert forall|i: int, j: int| 0 <= i < j < RESOURCE_COUNT implies api_name_at(i) != api_name_at(j) by {
        let a = api_name_at(i);
        let b = api_name_at(j);
        if a == b {
            assert(a.len() == b.len());
            assert(a[0] == b[0]);
            assert(a[a.len() - 1] == b[b.len() - 1]);
            assert(a[1] == b[1]);
        }
    }
}

/// Looking up the API name of the entry at index `i` finds index `i`.
pub proof fn lemma_resource_index_roundtrip(i: int, r: Option<usize>)
    requires
        0 <= i < RESOURCE_COUNT,
        match r {
            Some(k) => k < RESOURCE_COUNT && api_name_at(k as int) == api_name_at(i) && forall|j: int|
                0 <= j < k ==> api_name_at(j) != api_name_at(i),
            None => forall|j: int| 0 <= j < RESOURCE_COUNT ==> api_name_at(j) != api_name_at(i),
        },
    ensures
        r == Some(i as usize),
{
    lemma_api_names_distinct();
    match r {
        Some(k) => {
            if (k as int) < i {
                assert(api_name_at(k as int) != api_name_at(i));
            } else if (k as int) > i {
                assert(api_name_at(i) != api_name_at(k as int));
            }
        },
        None => {
            assert(api_name_at(i) == api_name_at(i));
        },
    }
}

} // verus!

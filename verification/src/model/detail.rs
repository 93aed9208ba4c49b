//! The detail view of one resource: its tabs and what each shows.
use vstd::prelude::*;

verus! {

/// Which tab is active in the detail view
#[derive(Debug, Clone, Copy, PartialEq, Eq, Structural)]
pub enum DetailTab {
    Overview,
    Yaml,
    Events,
    Logs,
}

/// The tabs in the order the tab bar shows them.
pub open spec fn tab_order() -> Seq<DetailTab> {
    seq![DetailTab::Overview, DetailTab::Yaml, DetailTab::Events, DetailTab::Logs]
}

/// The label a tab carries in the tab bar.
pub open spec fn tab_label(t: DetailTab) -> Seq<char> {
    match t {
        DetailTab::Overview => "Overview"@,
        DetailTab::Yaml => "YAML"@,
        DetailTab::Events => "Events"@,
        DetailTab::Logs => "Logs"@,
    }
}

/// The key that switches to a tab.
pub open spec fn tab_key(t: DetailTab) -> Seq<char> {
    match t {
        DetailTab::Overview => "1"@,
        DetailTab::Yaml => "2"@,
        DetailTab::Events => "3"@,
        DetailTab::Logs => "4"@,
    }
}

impl DetailTab {
    /// All tabs, in tab-bar order.
    pub fn all() -> (tabs: [DetailTab; 4])
        ensures
            tabs@ == tab_order(),
    {
        let tabs = [DetailTab::Overview, DetailTab::Yaml, DetailTab::Events, DetailTab::Logs];
        assert(tabs@ == tab_order());
        tabs
    }

    pub fn label(&self) -> (s: &'static str)
        ensures
            s@ == tab_label(*self),
    {
        match self {
            DetailTab::Overview => "Overview",
            DetailTab::Yaml => "YAML",
            DetailTab::Events => "Events",
            DetailTab::Logs => "Logs",
        }
    }

    pub fn key_hint(&self) -> (s: &'static str)
        ensures
            s@ == tab_key(*self),
    {
        match self {
            DetailTab::Overview => "1",
            DetailTab::Yaml => "2",
            DetailTab::Events => "3",
            DetailTab::Logs => "4",
        }
    }

    /// The position of this tab in the tab bar.
    pub fn index(&self) -> (i: usize)
        ensures
            i < 4,
            tab_order()[i as int] == *self,
    {
        match self {
            DetailTab::Overview => 0,
            DetailTab::Yaml => 1,
            DetailTab::Events => 2,
            DetailTab::Logs => 3,
        }
    }
}

/// Each tab sits at exactly one position of the tab bar, and its key is the
/// digit of that position plus one.
pub proof fn lemma_tab_positions(t: DetailTab)
    ensures
        tab_order().len() == 4,
        exists|i: int| 0 <= i < 4 && tab_order()[i] == t,
        forall|i: int, j: int|
            0 <= i < 4 && 0 <= j < 4 && tab_order()[i] == tab_order()[j] ==> i == j,
{
    assert(tab_order()[0] == DetailTab::Overview);
    assert(tab_order()[1] == DetailTab::Yaml);
    assert(tab_order()[2] == DetailTab::Events);
    assert(tab_order()[3] == DetailTab::Logs);
}

/// A key/value pair of a label or annotation map, in key order.
pub type KeyValue = (String, String);

/// Full detail of a single Kubernetes resource
#[derive(Debug, Clone)]
pub struct ResourceDetail {
    pub name: String,
    pub namespace: Option<String>,
    pub resource_type: String,
    pub age: String,
    pub phase: String,
    /// Labels in key order.
    pub labels: Vec<KeyValue>,
    /// Annotations in key order.
    pub annotations: Vec<KeyValue>,
    pub owner_references: Vec<OwnerRef>,
    pub conditions: Vec<Condition>,
    pub containers: Vec<ContainerInfo>,
    /// Pods running under this workload (for deployments, statefulsets, etc.)
    pub pods: Vec<PodInfo>,
    pub yaml: String,
    pub events: Vec<EventEntry>,
}

#[derive(Debug, Clone)]
pub struct OwnerRef {
    pub kind: String,
    pub name: String,
}

#[derive(Debug, Clone)]
pub struct Condition {
    pub type_: String,
    pub status: String,
    pub reason: String,
    pub message: String,
    pub last_transition: String,
}

#[derive(Debug, Clone)]
pub struct ContainerInfo {
    pub name: String,
    pub image: String,
    pub ready: bool,
    pub restart_count: i32,
    pub state: String,
    pub ports: String,
}

#[derive(Debug, Clone)]
pub struct PodInfo {
    pub name: String,
    pub ready: String,
    pub status: String,
    pub cpu: String,
    pub memory: String,
    pub restarts: i32,
    pub last_restart_time: String,
    pub last_restart_reason: String,
    pub node: String,
    pub ip: String,
    pub age: String,
}

#[derive(Debug, Clone)]
pub struct EventEntry {
    pub type_: String,
    pub reason: String,
    pub age: String,
    pub from: String,
    pub message: String,
}


/// The view of a key/value pair.
pub open spec fn kv_view(kv: KeyValue) -> (Seq<char>, Seq<char>) {
    (kv.0@, kv.1@)
}

/// The views of a sequence of key/value pairs.
pub open spec fn kv_views(kvs: Seq<KeyValue>) -> Seq<(Seq<char>, Seq<char>)> {
    kvs.map_values(|kv: KeyValue| kv_view(kv))
}

#[verifier::ext_equal]
pub struct OwnerRefView {
    pub kind: Seq<char>,
    pub name: Seq<char>,
}

impl View for OwnerRef {
    type V = OwnerRefView;

    open spec fn view(&self) -> OwnerRefView {
        OwnerRefView { kind: self.kind@, name: self.name@ }
    }
}

#[verifier::ext_equal]
pub struct ConditionView {
    pub type_: Seq<char>,
    pub status: Seq<char>,
    pub reason: Seq<char>,
    pub message: Seq<char>,
    pub last_transition: Seq<char>,
}

impl View for Condition {
    type V = ConditionView;

    open spec fn view(&self) -> ConditionView {
        ConditionView {
            type_: self.type_@,
            status: self.status@,
            reason: self.reason@,
            message: self.message@,
            last_transition: self.last_transition@,
        }
    }
}

#[verifier::ext_equal]
pub struct ContainerInfoView {
    pub name: Seq<char>,
    pub image: Seq<char>,
    pub ready: bool,
    pub restart_count: i32,
    pub state: Seq<char>,
    pub ports: Seq<char>,
}

impl View for ContainerInfo {
    type V = ContainerInfoView;

    open spec fn view(&self) -> ContainerInfoView {
        ContainerInfoView {
            name: self.name@,
            image: self.image@,
            ready: self.ready,
            restart_count: self.restart_count,
            state: self.state@,
            ports: self.ports@,
        }
    }
}

#[verifier::ext_equal]
pub struct PodInfoView {
    pub name: Seq<char>,
    pub ready: Seq<char>,
    pub status: Seq<char>,
    pub cpu: Seq<char>,
    pub memory: Seq<char>,
    pub restarts: i32,
    pub last_restart_time: Seq<char>,
    pub last_restart_reason: Seq<char>,
    pub node: Seq<char>,
    pub ip: Seq<char>,
    pub age: Seq<char>,
}

impl View for PodInfo {
    type V = PodInfoView;

    open spec fn view(&self) -> PodInfoView {
        PodInfoView {
            name: self.name@,
            ready: self.ready@,
            status: self.status@,
            cpu: self.cpu@,
            memory: self.memory@,
            restarts: self.restarts,
            last_restart_time: self.last_restart_time@,
            last_restart_reason: self.last_restart_reason@,
            node: self.node@,
            ip: self.ip@,
            age: self.age@,
        }
    }
}

#[verifier::ext_equal]
pub struct EventEntryView {
    pub type_: Seq<char>,
    pub reason: Seq<char>,
    pub age: Seq<char>,
    pub from: Seq<char>,
    pub message: Seq<char>,
}

impl View for EventEntry {
    type V = EventEntryView;

    open spec fn view(&self) -> EventEntryView {
        EventEntryView {
            type_: self.type_@,
            reason: self.reason@,
            age: self.age@,
            from: self.from@,
            message: self.message@,
        }
    }
}

/// The views of the elements of a sequence.
pub open spec fn seq_views<T: View>(s: Seq<T>) -> Seq<T::V> {
    s.map_values(|x: T| x@)
}

#[verifier::ext_equal]
pub struct ResourceDetailView {
    pub name: Seq<char>,
    pub namespace: Option<Seq<char>>,
    pub resource_type: Seq<char>,
    pub age: Seq<char>,
    pub phase: Seq<char>,
    pub labels: Seq<(Seq<char>, Seq<char>)>,
    pub annotations: Seq<(Seq<char>, Seq<char>)>,
    pub owner_references: Seq<OwnerRefView>,
    pub conditions: Seq<ConditionView>,
    pub containers: Seq<ContainerInfoView>,
    pub pods: Seq<PodInfoView>,
    pub yaml: Seq<char>,
    pub events: Seq<EventEntryView>,
}

/// The view of an optional string.
pub open spec fn opt_view(o: Option<String>) -> Option<Seq<char>> {
    match o {
        Some(s) => Some(s@),
        None => None,
    }
}

impl View for ResourceDetail {
    type V = ResourceDetailView;

    open spec fn view(&self) -> ResourceDetailView {
        ResourceDetailView {
            name: self.name@,
            namespace: opt_view(self.namespace),
            resource_type: self.resource_type@,
            age: self.age@,
            phase: self.phase@,
            labels: kv_views(self.labels@),
            annotations: kv_views(self.annotations@),
            owner_references: seq_views(self.owner_references@),
            conditions: seq_views(self.conditions@),
            containers: seq_views(self.containers@),
            pods: seq_views(self.pods@),
            yaml: self.yaml@,
            events: seq_views(self.events@),
        }
    }
}

} // verus!

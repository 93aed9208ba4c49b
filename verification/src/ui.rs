//! What the screen shows, decided apart from how it is drawn: colours by
//! meaning, sidebar groups, column titles, the texts of the detail view.
use vstd::prelude::*;
use crate::k8s::ops::log_source_of;
use crate::model::detail::{OwnerRef, OwnerRefView};
use crate::model::port_forward::PortForwardStatus;
use crate::model::resources::{entry_view, resource_table, resources, ResourceEntry, RESOURCE_COUNT};
use crate::model::table::{TableColumn, TableData};
use crate::text::{
    ascii_lower, ascii_upper, char_ascii_lower, char_to_uppercase, chars_of, contains, is_substring, join,
    join_seq, lowercase, push_char, push_str, str_eq, string_of_chars, to_lowercase,
    to_owned_string, uppercase_char, views,
};

verus! {

/// The theme colour a piece of text takes, by what it means.
#[derive(Debug, Clone, Copy, PartialEq, Eq, Structural)]
pub enum Tone {
    Success,
    Warning,
    Danger,
    Primary,
    Foreground,
    MutedForeground,
    SecondaryForeground,
}

// ── Colours ────────────────────────────────────────────────────────────

/// The colour of a resource's phase: by the words its lower-cased text
/// holds, healthy words first. Because "ready" is tested first, a text
/// holding "notready" (a node's "NotReady") takes the healthy colour, and
/// the "notready" test further down never decides anything.
pub open spec fn phase_tone_of(lower: Seq<char>) -> Tone {
    if is_substring("running"@, lower) || is_substring("ready"@, lower) || is_substring("active"@, lower) {
        Tone::Success
    } else if is_substring("pending"@, lower) || is_substring("waiting"@, lower) {
        Tone::Warning
    } else if is_substring("failed"@, lower) || is_substring("error"@, lower) || is_substring(
        "terminated"@,
        lower,
    ) || is_substring("notready"@, lower) {
        Tone::Danger
    } else {
        Tone::Foreground
    }
}

/// The colour of a resource's phase in the overview.
pub fn phase_tone(phase: &str) -> (t: Tone)
    ensures
        t == phase_tone_of(lowercase(phase@)),
{
    let s = to_lowercase(phase);
    let s = s.as_str();
    if contains(s, "running") || contains(s, "ready") || contains(s, "active") {
        Tone::Success
    } else if contains(s, "pending") || contains(s, "waiting") {
        Tone::Warning
    } else if contains(s, "failed") || contains(s, "error") || contains(s, "terminated") || contains(
        s,
        "notready",
    ) {
        Tone::Danger
    } else {
        Tone::Foreground
    }
}

/// The colour of a condition's status: "True" is healthy, anything else not.
pub fn condition_tone(status: &str) -> (t: Tone)
    ensures
        t == if status@ == "True"@ { Tone::Success } else { Tone::Danger },
{
    if str_eq(status, "True") {
        Tone::Success
    } else {
        Tone::Danger
    }
}

/// The colour of a container state, by the state it names.
pub open spec fn container_state_tone_of(state: Seq<char>) -> Tone {
    if is_substring("Running"@, state) {
        Tone::Success
    } else if is_substring("Waiting"@, state) {
        Tone::Warning
    } else if is_substring("Terminated"@, state) {
        Tone::Danger
    } else {
        Tone::MutedForeground
    }
}

pub fn container_state_tone(state: &str) -> (t: Tone)
    ensures
        t == container_state_tone_of(state@),
{
    if contains(state, "Running") {
        Tone::Success
    } else if contains(state, "Waiting") {
        Tone::Warning
    } else if contains(state, "Terminated") {
        Tone::Danger
    } else {
        Tone::MutedForeground
    }
}

/// The colour of a pod's status in a workload's pod list, by its lower-cased
/// text.
pub open spec fn pod_status_tone_of(lower: Seq<char>) -> Tone {
    if lower == "running"@ {
        Tone::Success
    } else if lower == "pending"@ {
        Tone::Warning
    } else if is_substring("error"@, lower) || is_substring("fail"@, lower) || is_substring("crash"@, lower) {
        Tone::Danger
    } else if lower == "succeeded"@ {
        Tone::Primary
    } else {
        Tone::Foreground
    }
}

pub fn pod_status_tone(status: &str) -> (t: Tone)
    ensures
        t == pod_status_tone_of(lowercase(status@)),
{
    let s = to_lowercase(status);
    let s = s.as_str();
    if str_eq(s, "running") {
        Tone::Success
    } else if str_eq(s, "pending") {
        Tone::Warning
    } else if contains(s, "error") || contains(s, "fail") || contains(s, "crash") {
        Tone::Danger
    } else if str_eq(s, "succeeded") {
        Tone::Primary
    } else {
        Tone::Foreground
    }
}

/// The colour of an event's type: warnings stand out, the rest is healthy.
pub fn event_type_tone(type_: &str) -> (t: Tone)
    ensures
        t == if type_@ == "Warning"@ { Tone::Warning } else { Tone::Success },
{
    if str_eq(type_, "Warning") {
        Tone::Warning
    } else {
        Tone::Success
    }
}

/// The colour of a port forward's status.
pub fn port_forward_tone(status: &PortForwardStatus) -> (t: Tone)
    ensures
        t == match *status {
            PortForwardStatus::Active => Tone::Success,
            PortForwardStatus::Failed(_) => Tone::Danger,
            PortForwardStatus::Stopped => Tone::MutedForeground,
        },
{
    match status {
        PortForwardStatus::Active => Tone::Success,
        PortForwardStatus::Failed(_) => Tone::Danger,
        PortForwardStatus::Stopped => Tone::MutedForeground,
    }
}

/// Rows alternate between two backgrounds; the even ones take the first.
pub fn is_even_row(i: usize) -> (r: bool)
    ensures
        r == (i % 2 == 0),
{
    i % 2 == 0
}

// ── Detail view texts ──────────────────────────────────────────────────

/// The resource types whose detail view offers logs.
pub open spec fn logs_offered(resource_type: Seq<char>) -> bool {
    ||| resource_type == "pods"@
    ||| resource_type == "deployments"@
    ||| resource_type == "statefulsets"@
    ||| resource_type == "daemonsets"@
    ||| resource_type == "replicasets"@
    ||| resource_type == "jobs"@
}

/// Whether the detail view of a resource type offers the Logs tab.
pub fn log_supported(resource_type: &str) -> (r: bool)
    ensures
        r == logs_offered(resource_type@),
{
    str_eq(resource_type, "pods") || str_eq(resource_type, "deployments") || str_eq(
        resource_type,
        "statefulsets",
    ) || str_eq(resource_type, "daemonsets") || str_eq(resource_type, "replicasets") || str_eq(
        resource_type,
        "jobs",
    )
}

/// What the Logs tab shows.
#[derive(Debug, Clone, PartialEq, Eq)]
pub enum LogsBody {
    /// The resource type has no logs.
    NotAvailable,
    /// Logs are on their way.
    Loading,
    /// Nothing was asked for yet.
    Hint,
    /// The fetch brought back nothing.
    Empty,
    /// The lines of the logs.
    Lines(Vec<String>),
}

/// The Logs tab: unavailable for types without logs, then the loading
/// state, then a hint before any fetch, "empty", or the lines.
pub fn logs_body(resource_type: &str, logs_loading: bool, logs: Option<&str>) -> (b: LogsBody)
    ensures
        !logs_offered(resource_type@) ==> b == LogsBody::NotAvailable,
        logs_offered(resource_type@) && logs_loading ==> b == LogsBody::Loading,
        logs_offered(resource_type@) && !logs_loading ==> match logs {
            None => b == LogsBody::Hint,
            Some(l) => if l@.len() == 0 {
                b == LogsBody::Empty
            } else {
                b matches LogsBody::Lines(v) && views(v@) == crate::text::lines_of(l@)
            },
        },
{
    if !log_supported(resource_type) {
        LogsBody::NotAvailable
    } else if logs_loading {
        LogsBody::Loading
    } else {
        match logs {
            None => LogsBody::Hint,
            Some(l) => {
                if l.unicode_len() == 0 {
                    LogsBody::Empty
                } else {
                    LogsBody::Lines(crate::text::lines(l))
                }
            },
        }
    }
}

/// An owner as the overview names it: kind and name.
pub open spec fn owner_text(o: OwnerRefView) -> Seq<char> {
    o.kind + "/"@ + o.name
}

/// The owners of a resource, separated by commas.
pub open spec fn owners_line(owners: Seq<OwnerRefView>) -> Seq<char> {
    join_seq(owners.map_values(|o: OwnerRefView| owner_text(o)), ", "@)
}

pub fn owners_text(owners: &Vec<OwnerRef>) -> (s: String)
    ensures
        s@ == owners_line(owners@.map_values(|o: OwnerRef| o@)),
{
    let mut parts: Vec<String> = Vec::new();
    for i in 0..owners.len()
        invariant
            views(parts@) == owners@.take(i as int).map_values(|o: OwnerRef| owner_text(o@)),
    {
        let o = &owners[i];
        let mut t = o.kind.clone();
        push_char(&mut t, '/');
        push_str(&mut t, o.name.as_str());
        proof {
            reveal_strlit("/");
        }
        assert(t@ =~= owner_text(o@));
        assert(owners@.take(i + 1) == owners@.take(i as int).push(*o));
        proof {
            crate::text::lemma_views_push(parts@, t);
        }
        parts.push(t);
        assert(views(parts@) =~= owners@.take(i + 1).map_values(|o: OwnerRef| owner_text(o@)));
    }
    assert(owners@.take(owners.len() as int) == owners@);
    assert(owners@.map_values(|o: OwnerRef| owner_text(o@)) =~= owners@.map_values(|o: OwnerRef| o@).map_values(
        |o: OwnerRefView| owner_text(o),
    ));
    join(&parts, ", ")
}

/// A label or annotation as a tag: key, "=", value.
pub fn tag_text(key: &str, value: &str) -> (s: String)
    ensures
        s@ == key@ + "="@ + value@,
{
    let mut s = to_owned_string(key);
    push_char(&mut s, '=');
    push_str(&mut s, value);
    proof {
        reveal_strlit("=");
    }
    assert(s@ =~= key@ + "="@ + value@);
    s
}

/// A tab's title: its key, a space, its label.
pub fn tab_title(tab: crate::model::detail::DetailTab) -> (s: String)
    ensures
        s@ == crate::model::detail::tab_key(tab) + " "@ + crate::model::detail::tab_label(tab),
{
    let mut s = to_owned_string(tab.key_hint());
    push_char(&mut s, ' ');
    push_str(&mut s, tab.label());
    proof {
        reveal_strlit(" ");
    }
    assert(s@ =~= crate::model::detail::tab_key(tab) + " "@ + crate::model::detail::tab_label(tab));
    s
}

/// The line beside the phase: the resource type and its age.
pub fn overview_subtitle(resource_type: &str, age: &str) -> (s: String)
    ensures
        s@ == resource_type@ + " · Age: "@ + age@,
{
    let mut s = to_owned_string(resource_type);
    push_str(&mut s, " · Age: ");
    push_str(&mut s, age);
    s
}

// ── Column titles ──────────────────────────────────────────────────────

/// The finished words and the word in progress after reading `s` left to
/// right, words being the runs between underscores.
pub open spec fn word_scan(s: Seq<char>) -> (Seq<Seq<char>>, Seq<char>)
    decreases s.len(),
{
    if s.len() == 0 {
        (Seq::empty(), Seq::empty())
    } else {
        let (done, cur) = word_scan(s.drop_last());
        if s.last() == '_' {
            if cur.len() > 0 {
                (done.push(cur), Seq::empty())
            } else {
                (done, Seq::empty())
            }
        } else {
            (done, cur.push(s.last()))
        }
    }
}

/// The non-empty pieces of `s` between underscores, in order.
pub open spec fn words_of(s: Seq<char>) -> Seq<Seq<char>> {
    let (done, cur) = word_scan(s);
    if cur.len() == 0 {
        done
    } else {
        done.push(cur)
    }
}

/// A word in title case: its first character upper-cased, the rest in
/// ASCII lower case.
pub open spec fn title_word(w: Seq<char>) -> Seq<char> {
    uppercase_char(w[0]) + w.skip(1).map_values(|c: char| ascii_lower(c))
}

/// "SOME_NAME" as "Some Name".
pub open spec fn title_case(s: Seq<char>) -> Seq<char> {
    join_seq(words_of(s).map_values(|w: Seq<char>| title_word(w)), " "@)
}

/// Whether every character is ASCII.
pub open spec fn all_ascii(s: Seq<char>) -> bool {
    forall|k: int| 0 <= k < s.len() ==> (#[trigger] s[k] as u32) < 128
}

/// A word in title case when it is ASCII: its first letter in ASCII upper
/// case, the rest in ASCII lower case.
pub open spec fn ascii_title_word(w: Seq<char>) -> Seq<char> {
    seq![ascii_upper(w[0])] + w.skip(1).map_values(|c: char| ascii_lower(c))
}

/// "SOME_NAME" as "Some Name", for ASCII text.
pub open spec fn ascii_title_case(s: Seq<char>) -> Seq<char> {
    join_seq(words_of(s).map_values(|w: Seq<char>| ascii_title_word(w)), " "@)
}

/// The words of ASCII text are ASCII.
pub proof fn lemma_words_ascii(s: Seq<char>)
    requires
        all_ascii(s),
    ensures
        forall|i: int| 0 <= i < word_scan(s).0.len() ==> all_ascii(#[trigger] word_scan(s).0[i]),
        all_ascii(word_scan(s).1),
        forall|i: int| 0 <= i < words_of(s).len() ==> all_ascii(#[trigger] words_of(s)[i]),
    decreases s.len(),
{
    if s.len() > 0 {
        let init = s.drop_last();
        assert(all_ascii(init)) by {
            assert forall|k: int| 0 <= k < init.len() implies (#[trigger] init[k] as u32) < 128 by {
                assert(init[k] == s[k]);
            }
        }
        lemma_words_ascii(init);
        let (done, cur) = word_scan(init);
        assert((s.last() as u32) < 128) by {
            assert(s[s.len() - 1] == s.last());
        }
        if s.last() == '_' {
            if cur.len() > 0 {
                assert forall|i: int| 0 <= i < done.push(cur).len() implies all_ascii(#[trigger] done.push(cur)[i]) by {
                    if i < done.len() {
                        assert(done.push(cur)[i] == done[i]);
                    }
                }
            }
        } else {
            assert forall|k: int| 0 <= k < cur.push(s.last()).len() implies (#[trigger] cur.push(s.last())[k] as u32) < 128 by {
                if k < cur.len() {
                    assert(cur.push(s.last())[k] == cur[k]);
                }
            }
        }
    }
    let (done, cur) = word_scan(s);
    if cur.len() > 0 {
        assert forall|i: int| 0 <= i < done.push(cur).len() implies all_ascii(#[trigger] done.push(cur)[i]) by {
            if i < done.len() {
                assert(done.push(cur)[i] == done[i]);
            }
        }
    }
}

/// No word is empty.
pub proof fn lemma_words_nonempty(s: Seq<char>)
    ensures
        forall|i: int| 0 <= i < word_scan(s).0.len() ==> (#[trigger] word_scan(s).0[i]).len() > 0,
        forall|i: int| 0 <= i < words_of(s).len() ==> (#[trigger] words_of(s)[i]).len() > 0,
    decreases s.len(),
{
    if s.len() > 0 {
        lemma_words_nonempty(s.drop_last());
        let (done, cur) = word_scan(s.drop_last());
        if s.last() == '_' {
            if cur.len() > 0 {
                assert forall|i: int| 0 <= i < done.push(cur).len() implies (#[trigger] done.push(cur)[i]).len() > 0 by {
                    if i < done.len() {
                        assert(done.push(cur)[i] == done[i]);
                    }
                }
            }
        }
    }
    let (done, cur) = word_scan(s);
    if cur.len() > 0 {
        assert forall|i: int| 0 <= i < done.push(cur).len() implies (#[trigger] done.push(cur)[i]).len() > 0 by {
            if i < done.len() {
                assert(done.push(cur)[i] == done[i]);
            }
        }
    }
}

/// The words of a text between underscores.
fn split_words(s: &str) -> (r: Vec<Vec<char>>)
    ensures
        r@.map_values(|w: Vec<char>| w@) == words_of(s@),
{
    let v = chars_of(s);
    let mut done: Vec<Vec<char>> = Vec::new();
    let mut cur: Vec<char> = Vec::new();
    for i in 0..v.len()
        invariant
            v@ == s@,
            (done@.map_values(|w: Vec<char>| w@), cur@) == word_scan(s@.take(i as int)),
    {
        assert(s@.take(i + 1).drop_last() == s@.take(i as int));
        if v[i] == '_' {
            if cur.len() > 0 {
                let w = cur;
                let ghost wv = w@;
                done.push(w);
                assert(done@.map_values(|w: Vec<char>| w@) =~= word_scan(s@.take(i + 1)).0);
                cur = Vec::new();
            } else {
                cur = Vec::new();
            }
        } else {
            cur.push(v[i]);
        }
    }
    assert(s@.take(v.len() as int) == s@);
    if cur.len() > 0 {
        done.push(cur);
        assert(done@.map_values(|w: Vec<char>| w@) =~= words_of(s@));
    }
    done
}

fn titled_word(w: &Vec<char>) -> (r: String)
    requires
        w@.len() > 0,
    ensures
        r@ == title_word(w@),
        (w@[0] as u32) < 128 ==> r@ == ascii_title_word(w@),
{
    let mut r = char_to_uppercase(w[0]);
    let ghost head = r@;
    for i in 1..w.len()
        invariant
            w@.len() > 0,
            head == uppercase_char(w@[0]),
            r@ == head + w@.subrange(1, i as int).map_values(|c: char| ascii_lower(c)),
    {
        push_char(&mut r, char_ascii_lower(w[i]));
        assert(w@.subrange(1, i + 1).map_values(|c: char| ascii_lower(c)) =~= w@.subrange(1, i as int).map_values(
            |c: char| ascii_lower(c),
        ).push(ascii_lower(w@[i as int])));
    }
    assert(w@.subrange(1, w@.len() as int) == w@.skip(1));
    r
}

/// "SOME_NAME" or "SOMENAME" as "Some Name" or "Somename"; for ASCII text
/// the upper-casing is ASCII upper-casing.
pub fn to_title_case(s: &str) -> (r: String)
    ensures
        r@ == title_case(s@),
        all_ascii(s@) ==> r@ == ascii_title_case(s@),
{
    let words = split_words(s);
    proof {
        lemma_words_nonempty(s@);
        if all_ascii(s@) {
            lemma_words_ascii(s@);
        }
    }
    let mut titled: Vec<String> = Vec::new();
    for i in 0..words.len()
        invariant
            words@.map_values(|w: Vec<char>| w@) == words_of(s@),
            forall|j: int| 0 <= j < words_of(s@).len() ==> (#[trigger] words_of(s@)[j]).len() > 0,
            views(titled@) == words_of(s@).take(i as int).map_values(|w: Seq<char>| title_word(w)),
            all_ascii(s@) ==> forall|j: int| 0 <= j < words_of(s@).len() ==> all_ascii(#[trigger] words_of(s@)[j]),
            all_ascii(s@) ==> views(titled@) == words_of(s@).take(i as int).map_values(|w: Seq<char>| ascii_title_word(w)),
    {
        assert(words@[i as int]@ == words_of(s@)[i as int]);
        proof {
            if all_ascii(s@) {
                assert(all_ascii(words_of(s@)[i as int]));
                assert((words_of(s@)[i as int][0] as u32) < 128);
            }
        }
        let t = titled_word(&words[i]);
        proof {
            crate::text::lemma_views_push(titled@, t);
        }
        titled.push(t);
        assert(words_of(s@).take(i + 1) == words_of(s@).take(i as int).push(words_of(s@)[i as int]));
        assert(views(titled@) =~= words_of(s@).take(i + 1).map_values(|w: Seq<char>| title_word(w)));
        assert(all_ascii(s@) ==> views(titled@) =~= words_of(s@).take(i + 1).map_values(|w: Seq<char>| ascii_title_word(w)));
    }
    assert(words_of(s@).take(words.len() as int) == words_of(s@));
    join(&titled, " ")
}

// ── The resource table ─────────────────────────────────────────────────

/// The titles of a table's columns.
pub open spec fn column_titles(t: TableData) -> Seq<Seq<char>> {
    t.columns@.map_values(|c: TableColumn| title_case(c.name@))
}

/// What the resource table shows of its data: the title-cased column
/// headers and each cell.
pub struct ResourceTableDelegate {
    pub data: TableData,
    display_names: Vec<String>,
}

fn build_titles(data: &TableData) -> (r: Vec<String>)
    ensures
        views(r@) == column_titles(*data),
{
    let mut r: Vec<String> = Vec::new();
    for i in 0..data.columns.len()
        invariant
            views(r@) == data.columns@.take(i as int).map_values(|c: TableColumn| title_case(c.name@)),
    {
        let t = to_title_case(data.columns[i].name.as_str());
        proof {
            crate::text::lemma_views_push(r@, t);
        }
        r.push(t);
        assert(data.columns@.take(i + 1) == data.columns@.take(i as int).push(data.columns@[i as int]));
        assert(views(r@) =~= data.columns@.take(i + 1).map_values(|c: TableColumn| title_case(c.name@)));
    }
    assert(data.columns@.take(data.columns.len() as int) == data.columns@);
    r
}

impl ResourceTableDelegate {
    /// Whether the headers are the titles of the data's columns.
    pub closed spec fn wf(&self) -> bool {
        views(self.display_names@) == column_titles(self.data)
    }

    /// The data shown.
    pub closed spec fn table(&self) -> TableData {
        self.data
    }

    pub fn new(data: TableData) -> (d: Self)
        ensures
            d.wf(),
            d.table() == data,
    {
        let display_names = build_titles(&data);
        ResourceTableDelegate { data, display_names }
    }

    /// Replaces the data, and the headers with it.
    pub fn update_data(&mut self, data: TableData)
        ensures
            final(self).wf(),
            final(self).table() == data,
    {
        self.display_names = build_titles(&data);
        self.data = data;
    }

    pub fn columns_count(&self) -> (n: usize)
        ensures
            n == self.table().columns@.len(),
    {
        self.data.columns.len()
    }

    pub fn rows_count(&self) -> (n: usize)
        ensures
            n == self.table().rows@.len(),
    {
        self.data.rows.len()
    }

    /// The header of a column: its title, or nothing past the last column.
    pub fn header(&self, col_ix: usize) -> (s: String)
        requires
            self.wf(),
        ensures
            s@ == if col_ix < self.table().columns@.len() {
                title_case(self.table().columns@[col_ix as int].name@)
            } else {
                Seq::empty()
            },
    {
        assert(views(self.display_names@).len() == self.display_names@.len());
        assert(column_titles(self.data).len() == self.data.columns@.len());
        if col_ix < self.display_names.len() {
            assert(views(self.display_names@)[col_ix as int] == self.display_names@[col_ix as int]@);
            assert(column_titles(self.data)[col_ix as int] == title_case(self.data.columns@[col_ix as int].name@));
            self.display_names[col_ix].clone()
        } else {
            String::new()
        }
    }

    /// The text of a cell, or nothing outside the table.
    pub fn cell(&self, row_ix: usize, col_ix: usize) -> (s: String)
        ensures
            s@ == if row_ix < self.table().rows@.len() && col_ix < self.table().rows@[row_ix as int].cells@.len() {
                self.table().rows@[row_ix as int].cells@[col_ix as int]@
            } else {
                Seq::empty()
            },
    {
        if row_ix < self.data.rows.len() {
            let row = &self.data.rows[row_ix];
            if col_ix < row.cells.len() {
                return row.cells[col_ix].clone();
            }
        }
        String::new()
    }
}

// ── Sidebar ────────────────────────────────────────────────────────────

/// The icon of a sidebar entry.
#[derive(Debug, Clone, Copy, PartialEq, Eq, Structural)]
pub enum Icon {
    SquareTerminal,
    ArrowUp,
    LayoutDashboard,
    Globe,
    Copy,
    Loader,
    Calendar,
    File,
    EyeOff,
    User,
    ExternalLink,
    Folder,
    FolderOpen,
    Frame,
    Building2,
    Bell,
}

/// The icon of each resource type; unknown types get a file.
pub open spec fn icon_of(api_name: Seq<char>) -> Icon {
    if api_name == "pods"@ { Icon::SquareTerminal }
    else if api_name == "deployments"@ { Icon::ArrowUp }
    else if api_name == "statefulsets"@ { Icon::LayoutDashboard }
    else if api_name == "daemonsets"@ { Icon::Globe }
    else if api_name == "replicasets"@ { Icon::Copy }
    else if api_name == "jobs"@ { Icon::Loader }
    else if api_name == "cronjobs"@ { Icon::Calendar }
    else if api_name == "configmaps"@ { Icon::File }
    else if api_name == "secrets"@ { Icon::EyeOff }
    else if api_name == "serviceaccounts"@ { Icon::User }
    else if api_name == "services"@ { Icon::Globe }
    else if api_name == "ingresses"@ { Icon::ExternalLink }
    else if api_name == "persistentvolumes"@ { Icon::Folder }
    else if api_name == "persistentvolumeclaims"@ { Icon::FolderOpen }
    else if api_name == "namespaces"@ { Icon::Frame }
    else if api_name == "nodes"@ { Icon::Building2 }
    else if api_name == "events"@ { Icon::Bell }
    else { Icon::File }
}

/// Map a resource api_name to an appropriate icon
pub fn resource_icon(api_name: &str) -> (i: Icon)
    ensures
        i == icon_of(api_name@),
{
    if str_eq(api_name, "pods") { Icon::SquareTerminal }
    else if str_eq(api_name, "deployments") { Icon::ArrowUp }
    else if str_eq(api_name, "statefulsets") { Icon::LayoutDashboard }
    else if str_eq(api_name, "daemonsets") { Icon::Globe }
    else if str_eq(api_name, "replicasets") { Icon::Copy }
    else if str_eq(api_name, "jobs") { Icon::Loader }
    else if str_eq(api_name, "cronjobs") { Icon::Calendar }
    else if str_eq(api_name, "configmaps") { Icon::File }
    else if str_eq(api_name, "secrets") { Icon::EyeOff }
    else if str_eq(api_name, "serviceaccounts") { Icon::User }
    else if str_eq(api_name, "services") { Icon::Globe }
    else if str_eq(api_name, "ingresses") { Icon::ExternalLink }
    else if str_eq(api_name, "persistentvolumes") { Icon::Folder }
    else if str_eq(api_name, "persistentvolumeclaims") { Icon::FolderOpen }
    else if str_eq(api_name, "namespaces") { Icon::Frame }
    else if str_eq(api_name, "nodes") { Icon::Building2 }
    else if str_eq(api_name, "events") { Icon::Bell }
    else { Icon::File }
}

/// The runs of equal neighbours in a sequence of categories: each run's
/// category and the positions it covers, in order.
pub open spec fn category_runs(cats: Seq<Seq<char>>) -> Seq<(Seq<char>, Seq<int>)>
    decreases cats.len(),
{
    if cats.len() == 0 {
        Seq::empty()
    } else {
        let g = category_runs(cats.drop_last());
        let i = cats.len() - 1;
        if g.len() > 0 && g.last().0 == cats.last() {
            g.update(g.len() - 1, (g.last().0, g.last().1.push(i)))
        } else {
            g.push((cats.last(), seq![i]))
        }
    }
}

/// The categories of the resource table, in order.
pub open spec fn table_categories() -> Seq<Seq<char>> {
    resource_table().map_values(|e: (Seq<char>, Seq<char>, Seq<char>)| e.2)
}

/// An entry of the sidebar.
#[derive(Debug, Clone)]
pub struct SidebarItem {
    /// Its position in the resource table.
    pub index: usize,
    pub display_name: String,
    pub api_name: String,
    pub icon: Icon,
    /// Whether it is the resource type on screen.
    pub active: bool,
}

/// A category of the sidebar and its entries.
#[derive(Debug, Clone)]
pub struct SidebarGroup {
    pub category: String,
    pub items: Vec<SidebarItem>,
}

/// The sidebar: its groups, and the port-forward count below them when
/// there is any.
#[derive(Debug, Clone)]
pub struct SidebarView {
    pub groups: Vec<SidebarGroup>,
    pub footer: Option<String>,
}

/// Whether an item shows the table entry at `i` as the sidebar should.
pub open spec fn item_is(item: SidebarItem, i: int, current: Seq<char>) -> bool {
    &&& item.index == i
    &&& item.display_name@ == resource_table()[i].0
    &&& item.api_name@ == resource_table()[i].1
    &&& item.icon == icon_of(resource_table()[i].1)
    &&& item.active == (resource_table()[i].1 == current)
}

/// Whether a group shows a run of the table as the sidebar should.
pub open spec fn group_is(g: SidebarGroup, run: (Seq<char>, Seq<int>), current: Seq<char>) -> bool {
    &&& g.category@ == run.0
    &&& g.items@.len() == run.1.len()
    &&& forall|k: int| 0 <= k < run.1.len() ==> item_is(#[trigger] g.items@[k], run.1[k], current)
}

/// The footer text for a number of active port forwards.
pub open spec fn footer_of(active_pf_count: usize) -> Option<Seq<char>> {
    if active_pf_count > 0 {
        Some("Port Forwards: "@ + crate::text::decimal_nat(active_pf_count as nat))
    } else {
        None
    }
}

/// The view of an optional string.
pub open spec fn opt_text(s: Option<String>) -> Option<Seq<char>> {
    match s {
        Some(t) => Some(t@),
        None => None,
    }
}

fn sidebar_item(table: &Vec<ResourceEntry>, i: usize, current_resource: &str) -> (item: SidebarItem)
    requires
        table@.len() == RESOURCE_COUNT,
        table@.map_values(|e: ResourceEntry| entry_view(e)) == resource_table(),
        i < RESOURCE_COUNT,
    ensures
        item_is(item, i as int, current_resource@),
{
    let e = &table[i];
    assert(entry_view(table@[i as int]) == resource_table()[i as int]);
    SidebarItem {
        index: i,
        display_name: to_owned_string(e.display_name),
        api_name: to_owned_string(e.api_name),
        icon: resource_icon(e.api_name),
        active: str_eq(e.api_name, current_resource),
    }
}

/// The text below the sidebar groups.
pub fn sidebar_footer(active_pf_count: usize) -> (f: Option<String>)
    ensures
        opt_text(f) == footer_of(active_pf_count),
{
    if active_pf_count > 0 {
        let mut t = to_owned_string("Port Forwards: ");
        let n = crate::text::usize_to_string(active_pf_count);
        push_str(&mut t, n.as_str());
        Some(t)
    } else {
        None
    }
}

/// The sidebar: the resource types grouped by neighbouring category, the
/// one on screen marked active, and the port-forward count when there is any.
pub fn build_sidebar(current_resource: &str, active_pf_count: usize) -> (v: SidebarView)
    ensures
        v.groups@.len() == category_runs(table_categories()).len(),
        forall|g: int|
            0 <= g < v.groups@.len() ==> group_is(
                #[trigger] v.groups@[g],
                category_runs(table_categories())[g],
                current_resource@,
            ),
        opt_text(v.footer) == footer_of(active_pf_count),
{
    let table = resources();
    let ghost cats = table_categories();
    let mut groups: Vec<SidebarGroup> = Vec::new();
    let mut cur: Option<SidebarGroup> = None;
    for i in 0..table.len()
        invariant
            table@.len() == RESOURCE_COUNT,
            table@.map_values(|e: ResourceEntry| entry_view(e)) == resource_table(),
            cats == table_categories(),
            cats.len() == RESOURCE_COUNT,
            (cur is Some) == (i > 0),
            groups@.len() + (if cur is Some { 1int } else { 0int }) == category_runs(cats.take(i as int)).len(),
            forall|g: int|
                0 <= g < groups@.len() ==> group_is(
                    #[trigger] groups@[g],
                    category_runs(cats.take(i as int))[g],
                    current_resource@,
                ),
            cur is Some ==> group_is(
                cur->0,
                category_runs(cats.take(i as int)).last(),
                current_resource@,
            ),
    {
        let ghost runs = category_runs(cats.take(i as int));
        assert(cats.take(i + 1).drop_last() == cats.take(i as int));
        assert(entry_view(table@[i as int]) == resource_table()[i as int]);
        assert(cats[i as int] == table@[i as int].category@);
        assert(cats.take(i + 1).last() == cats[i as int]);
        let item = sidebar_item(&table, i, current_resource);
        let same = match &cur {
            Some(g) => str_eq(g.category.as_str(), table[i].category),
            None => false,
        };
        if same {
            let mut g = cur.unwrap();
            let ghost old_items = g.items@;
            g.items.push(item);
            let ghost last = runs.last();
            assert(category_runs(cats.take(i + 1)) == runs.update(runs.len() - 1, (last.0, last.1.push(i as int))));
            assert forall|k: int| 0 <= k < last.1.push(i as int).len() implies item_is(
                #[trigger] g.items@[k],
                last.1.push(i as int)[k],
                current_resource@,
            ) by {
                if k < old_items.len() {
                    assert(g.items@[k] == old_items[k]);
                }
            }
            cur = Some(g);
        } else {
            match cur {
                Some(g) => {
                    groups.push(g);
                },
                None => {},
            }
            let items = vec![item];
            cur = Some(SidebarGroup { category: to_owned_string(table[i].category), items });
            assert(category_runs(cats.take(i + 1)) == runs.push((cats[i as int], seq![i as int])));
        }
        assert(forall|g: int|
            0 <= g < groups@.len() ==> category_runs(cats.take(i + 1))[g] == runs[g]);
    }
    match cur {
        Some(g) => {
            groups.push(g);
        },
        None => {},
    }
    assert(cats.take(RESOURCE_COUNT as int) == cats);
    SidebarView { groups, footer: sidebar_footer(active_pf_count) }
}

// ── Pickers ────────────────────────────────────────────────────────────

/// A row of a picker list.
#[derive(Debug, Clone, PartialEq, Eq)]
pub struct PickerRow {
    pub text: String,
    /// Whether the keyboard selection is on it.
    pub selected: bool,
    /// Whether it is the one in use; it is marked with a star.
    pub current: bool,
    pub tone: Tone,
}

/// The list of a picker.
#[derive(Debug, Clone, PartialEq, Eq)]
pub enum PickerBody {
    Loading,
    /// Nothing matches the filter.
    Empty,
    Rows(Vec<PickerRow>),
}

/// The colour of a picker row: the one in use stands out, then the
/// selected one.
pub open spec fn picker_tone(selected: bool, current: bool) -> Tone {
    if current {
        Tone::Success
    } else if selected {
        Tone::Foreground
    } else {
        Tone::SecondaryForeground
    }
}

/// Whether a row shows the item at `i` as the picker should.
pub open spec fn picker_row_is(r: PickerRow, item: Seq<char>, i: int, selected: int, current: Seq<char>) -> bool {
    &&& r.text@ == item
    &&& r.selected == (i == selected)
    &&& r.current == (item == current)
    &&& r.tone == picker_tone(i == selected, item == current)
}

/// The list of the namespace or context picker: a loading note, a note
/// that nothing matches, or the items with the selected and the current
/// one marked.
pub fn picker_body(items: &Vec<String>, selected: usize, current: &str, loading: bool) -> (b: PickerBody)
    ensures
        loading ==> b == PickerBody::Loading,
        !loading && items@.len() == 0 ==> b == PickerBody::Empty,
        !loading && items@.len() > 0 ==> (b matches PickerBody::Rows(rows) && rows@.len() == items@.len()
            && forall|i: int| 0 <= i < items@.len() ==> picker_row_is(#[trigger] rows@[i], items@[i]@, i, selected as int, current@)),
{
    if loading {
        return PickerBody::Loading;
    }
    if items.len() == 0 {
        return PickerBody::Empty;
    }
    let mut rows: Vec<PickerRow> = Vec::new();
    for i in 0..items.len()
        invariant
            rows@.len() == i,
            forall|j: int| 0 <= j < i ==> picker_row_is(#[trigger] rows@[j], items@[j]@, j, selected as int, current@),
    {
        let is_selected = i == selected;
        let is_current = str_eq(items[i].as_str(), current);
        let tone = if is_current {
            Tone::Success
        } else if is_selected {
            Tone::Foreground
        } else {
            Tone::SecondaryForeground
        };
        rows.push(PickerRow { text: items[i].clone(), selected: is_selected, current: is_current, tone });
    }
    PickerBody::Rows(rows)
}

// ── Detail view tabs and pod rows ──────────────────────────────────────

/// The colour of a pod's restart count: any restart is worth a look.
pub fn restarts_tone(restarts: i32) -> (t: Tone)
    ensures
        t == if restarts > 0 { Tone::Warning } else { Tone::SecondaryForeground },
{
    if restarts > 0 {
        Tone::Warning
    } else {
        Tone::SecondaryForeground
    }
}

/// Whether a click on a tab switches to it: the Logs tab stays shut for
/// types without logs.
pub fn tab_enabled(tab: crate::model::detail::DetailTab, resource_type: &str) -> (r: bool)
    ensures
        r == !(tab == crate::model::detail::DetailTab::Logs && !logs_offered(resource_type@)),
{
    match tab {
        crate::model::detail::DetailTab::Logs => log_supported(resource_type),
        _ => true,
    }
}

/// The icon of a detail tab.
pub fn tab_icon(tab: crate::model::detail::DetailTab) -> (i: Icon)
    ensures
        i == match tab {
            crate::model::detail::DetailTab::Overview => Icon::LayoutDashboard,
            crate::model::detail::DetailTab::Yaml => Icon::File,
            crate::model::detail::DetailTab::Events => Icon::Bell,
            crate::model::detail::DetailTab::Logs => Icon::SquareTerminal,
        },
{
    match tab {
        crate::model::detail::DetailTab::Overview => Icon::LayoutDashboard,
        crate::model::detail::DetailTab::Yaml => Icon::File,
        crate::model::detail::DetailTab::Events => Icon::Bell,
        crate::model::detail::DetailTab::Logs => Icon::SquareTerminal,
    }
}

// ── Status bar ─────────────────────────────────────────────────────────

/// What the status bar shows.
#[derive(Debug, Clone, PartialEq, Eq)]
pub enum StatusLine {
    /// The command being typed after `:`.
    Command(String),
    /// The filter being typed.
    Filter(String),
    /// The status message, with the filter in force when there is one.
    Normal { message: String, filter: Option<String> },
}

/// The status bar: the command line while typing a command, else the filter
/// while typing one, else the message and any filter in force.
pub fn status_line(command_mode: bool, command_input: &str, filter_mode: bool, filter_text: &str, message: &str) -> (l: StatusLine)
    ensures
        command_mode ==> (l matches StatusLine::Command(c) && c@ == command_input@),
        !command_mode && filter_mode ==> (l matches StatusLine::Filter(f) && f@ == filter_text@),
        !command_mode && !filter_mode ==> (l matches StatusLine::Normal { message: m, filter: f }
            && m@ == message@ && opt_text(f) == (if filter_text@.len() == 0 { None } else { Some(filter_text@) })),
{
    if command_mode {
        StatusLine::Command(to_owned_string(command_input))
    } else if filter_mode {
        StatusLine::Filter(to_owned_string(filter_text))
    } else {
        let filter = if filter_text.unicode_len() == 0 { None } else { Some(to_owned_string(filter_text)) };
        StatusLine::Normal { message: to_owned_string(message), filter }
    }
}

/// The filter line of the context picker: the filter, or a hint while it is
/// empty.
pub fn picker_filter_text(filter: &str) -> (s: String)
    ensures
        s@ == if filter@.len() == 0 { "(type to filter)"@ } else { filter@ },
{
    if filter.unicode_len() == 0 {
        to_owned_string("(type to filter)")
    } else {
        to_owned_string(filter)
    }
}

// ── Detail view buttons ────────────────────────────────────────────────

/// The buttons beside the detail tabs.
#[derive(Debug, Clone, Copy, PartialEq, Eq)]
pub struct DetailButtons {
    /// Apply the edited YAML.
    pub apply: bool,
    pub port_forward: bool,
    pub restart: bool,
}

/// Apply shows on the YAML tab once its editor exists; Port Forward and
/// Restart show where they are possible.
pub fn detail_buttons(
    active_tab: crate::model::detail::DetailTab,
    has_editor: bool,
    can_port_forward: bool,
    can_restart: bool,
) -> (b: DetailButtons)
    ensures
        b.apply == (active_tab == crate::model::detail::DetailTab::Yaml && has_editor),
        b.port_forward == can_port_forward,
        b.restart == can_restart,
{
    let on_yaml = match active_tab {
        crate::model::detail::DetailTab::Yaml => true,
        _ => false,
    };
    DetailButtons { apply: on_yaml && has_editor, port_forward: can_port_forward, restart: can_restart }
}

// ── Resource picker ────────────────────────────────────────────────────

/// A line of the resource picker: a category heading or an entry.
#[derive(Debug, Clone, PartialEq, Eq)]
pub enum ResourcePickerLine {
    Header(String),
    Row { index: usize, text: String, selected: bool, current: bool, tone: Tone },
}

/// A line of the resource picker as values.
pub enum ResourcePickerLineView {
    Header(Seq<char>),
    Row { index: int, text: Seq<char>, selected: bool, current: bool, tone: Tone },
}

pub open spec fn picker_line_view(l: ResourcePickerLine) -> ResourcePickerLineView {
    match l {
        ResourcePickerLine::Header(c) => ResourcePickerLineView::Header(c@),
        ResourcePickerLine::Row { index, text, selected, current, tone } => ResourcePickerLineView::Row {
            index: index as int,
            text: text@,
            selected,
            current,
            tone,
        },
    }
}

pub open spec fn picker_line_views(ls: Seq<ResourcePickerLine>) -> Seq<ResourcePickerLineView> {
    ls.map_values(|l: ResourcePickerLine| picker_line_view(l))
}

/// The colour of a resource picker entry: the type on screen stands out,
/// then the selected one.
pub open spec fn resource_row_tone(selected: bool, current: bool) -> Tone {
    if current {
        Tone::Danger
    } else if selected {
        Tone::Foreground
    } else {
        Tone::SecondaryForeground
    }
}

/// The view of a (display name, API name, category) entry.
pub open spec fn triple_view(e: (String, String, String)) -> (Seq<char>, Seq<char>, Seq<char>) {
    (e.0@, e.1@, e.2@)
}

/// The lines of the resource picker: each entry in order, preceded by its
/// category's heading wherever the category differs from the entry before
/// (the first entry counts as following the empty category).
pub open spec fn resource_lines(
    entries: Seq<(Seq<char>, Seq<char>, Seq<char>)>,
    selected: int,
    current: Seq<char>,
) -> Seq<ResourcePickerLineView>
    decreases entries.len(),
{
    if entries.len() == 0 {
        Seq::empty()
    } else {
        let n = entries.len() - 1;
        let e = entries.last();
        let prev = resource_lines(entries.drop_last(), selected, current);
        let prev_cat = if n == 0 { Seq::<char>::empty() } else { entries[n - 1].2 };
        let with_header = if e.2 != prev_cat { prev.push(ResourcePickerLineView::Header(e.2)) } else { prev };
        with_header.push(ResourcePickerLineView::Row {
            index: n,
            text: e.0,
            selected: n == selected,
            current: e.1 == current,
            tone: resource_row_tone(n == selected, e.1 == current),
        })
    }
}

/// The lines of the resource picker for the filtered entries.
pub fn resource_picker_body(entries: &Vec<(String, String, String)>, selected: usize, current: &str) -> (b: Vec<ResourcePickerLine>)
    ensures
        picker_line_views(b@) == resource_lines(entries@.map_values(|e: (String, String, String)| triple_view(e)), selected as int, current@),
{
    let ghost all = entries@.map_values(|e: (String, String, String)| triple_view(e));
    let mut out: Vec<ResourcePickerLine> = Vec::new();
    let mut last: String = String::new();
    for i in 0..entries.len()
        invariant
            all == entries@.map_values(|e: (String, String, String)| triple_view(e)),
            picker_line_views(out@) == resource_lines(all.take(i as int), selected as int, current@),
            last@ == if i == 0 { Seq::<char>::empty() } else { all[i - 1].2 },
    {
        assert(all.take(i + 1).drop_last() == all.take(i as int));
        assert(all.take(i + 1).last() == all[i as int]);
        assert(i > 0 ==> all.take(i + 1)[i - 1] == all[i - 1]);
        let e = &entries[i];
        assert(triple_view(*e) == all[i as int]);
        if !str_eq(e.2.as_str(), last.as_str()) {
            let h = ResourcePickerLine::Header(e.2.clone());
            let ghost before = out@;
            out.push(h);
            assert(picker_line_views(out@) =~= picker_line_views(before).push(picker_line_view(h)));
            last = e.2.clone();
        }
        let is_selected = i == selected;
        let is_current = str_eq(e.1.as_str(), current);
        let tone = if is_current {
            Tone::Danger
        } else if is_selected {
            Tone::Foreground
        } else {
            Tone::SecondaryForeground
        };
        let row = ResourcePickerLine::Row { index: i, text: e.0.clone(), selected: is_selected, current: is_current, tone };
        let ghost before = out@;
        out.push(row);
        assert(picker_line_views(out@) =~= picker_line_views(before).push(picker_line_view(row)));
        assert(picker_line_views(out@) == resource_lines(all.take(i + 1), selected as int, current@));
        last = e.2.clone();
    }
    assert(all.take(entries.len() as int) == all);
    out
}

// ── Port forwarding ────────────────────────────────────────────────────

/// A port the port-forward dialog offers.
#[derive(Debug, Clone, PartialEq, Eq)]
pub struct PortRow {
    pub text: String,
    pub selected: bool,
    pub tone: Tone,
}

/// The port list of the port-forward dialog.
#[derive(Debug, Clone, PartialEq, Eq)]
pub enum PortPickerBody {
    /// The ports are being detected.
    Loading,
    /// The pod declares none; they are entered by hand.
    Empty,
    Rows(Vec<PortRow>),
}

/// The port list: a loading note, a note that the pod declares none, or its
/// ports with the selected one marked.
pub fn port_picker_body(ports: &Vec<crate::model::port_forward::PodPort>, selected: usize, loading: bool) -> (b: PortPickerBody)
    ensures
        loading ==> b == PortPickerBody::Loading,
        !loading && ports@.len() == 0 ==> b == PortPickerBody::Empty,
        !loading && ports@.len() > 0 ==> (b matches PortPickerBody::Rows(rows) && rows@.len() == ports@.len()
            && forall|i: int| 0 <= i < ports@.len() ==> {
                let r = #[trigger] rows@[i];
                &&& r.text@ == crate::model::port_forward::port_display(ports@[i])
                &&& r.selected == (i == selected)
                &&& r.tone == if i == selected { Tone::Foreground } else { Tone::SecondaryForeground }
            }),
{
    if loading {
        return PortPickerBody::Loading;
    }
    if ports.len() == 0 {
        return PortPickerBody::Empty;
    }
    let mut rows: Vec<PortRow> = Vec::new();
    for i in 0..ports.len()
        invariant
            rows@.len() == i,
            forall|j: int| 0 <= j < i ==> {
                let r = #[trigger] rows@[j];
                &&& r.text@ == crate::model::port_forward::port_display(ports@[j])
                &&& r.selected == (j == selected)
                &&& r.tone == if j == selected { Tone::Foreground } else { Tone::SecondaryForeground }
            },
    {
        let is_selected = i == selected;
        let tone = if is_selected { Tone::Foreground } else { Tone::SecondaryForeground };
        rows.push(PortRow { text: ports[i].display(), selected: is_selected, tone });
    }
    PortPickerBody::Rows(rows)
}

/// The count beside the port-forward list's title.
pub fn port_forward_total(n: usize) -> (s: String)
    ensures
        s@ == seq!['('] + crate::text::decimal_nat(n as nat) + " total)"@,
{
    let mut s = String::new();
    push_char(&mut s, '(');
    let d = crate::text::usize_to_string(n);
    push_str(&mut s, d.as_str());
    push_str(&mut s, " total)");
    s
}

} // verus!

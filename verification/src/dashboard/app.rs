//! The dashboard's state that does not depend on the terminal: which tab
//! and row are selected, how lists scroll, the rows of the process tree,
//! the users list and the details pane's filter.
use vstd::prelude::*;

use crate::dashboard::utils::{dash_bytes_text, format_bytes};
use crate::num::{dec, dec_string, parse_u32, parse_uint, parse_uint_chars};
use crate::config::ProcessSort;
use crate::sort::{reorder, sort_by_text, stable_order, text_eq, text_less, text_lt};
use crate::text::{
    chars_of, contains, contains_pat, filter_map, lemma_filter_map_step, lower, owned, starts_with, string_of,
    to_lower, trim, trim_ws,
};

verus! {

/// A file descriptor of a process: what it points to and its kind.
#[derive(Debug, Clone)]
pub struct ProcessResource {
    pub name: String,
    pub resource_type: String,
}

/// A row of the process tree as the table shows it.
#[derive(Debug, Clone)]
pub struct FlattenedTreeNode {
    pub pid: String,
    pub user: String,
    pub cpu: String,
    pub mem: String,
    pub virt: String,
    pub shared: String,
    pub threads: String,
    pub fds: String,
    pub name: String,
    pub depth: u32,
}

/// The number of rows that paging moves, and that the view shows before it
/// scrolls.
pub const PAGE: usize = 20;

/// The tabs of the dashboard, in order.
pub open spec fn tab_names() -> Seq<Seq<char>> {
    seq![
        "Overview"@,
        "Process"@,
        "Storage"@,
        "User"@,
        "Network"@,
        "Service"@,
        "Virtualization"@,
        "Sensors"@,
        "Charts"@,
    ]
}

/// The tabs of the dashboard.
pub fn dashboard_tabs() -> (r: Vec<&'static str>)
    ensures
        r@.map_values(|t: &str| t@) == tab_names(),
{
    let r = vec!["Overview", "Process", "Storage", "User", "Network", "Service", "Virtualization", "Sensors", "Charts"];
    assert(r@.map_values(|t: &str| t@) =~= tab_names());
    r
}

/// The selection and scroll after moving up one row: the scroll follows
/// the selection when it leaves the view at the top.
pub open spec fn step_up(sel: nat, scroll: nat) -> (nat, nat) {
    if sel > 0 {
        let s = (sel - 1) as nat;
        (s, if s < scroll { s } else { scroll })
    } else {
        (sel, scroll)
    }
}

/// The selection and scroll after moving down one row of a list of `len`
/// rows: the view scrolls by one when the selection reaches a page below
/// its top.
pub open spec fn step_down(sel: nat, scroll: nat, len: nat) -> (nat, nat) {
    if len > 0 && sel < len - 1 {
        let s = sel + 1;
        (s, if s >= scroll + PAGE { scroll + 1 } else { scroll })
    } else {
        (sel, scroll)
    }
}

/// The selection after moving a page up; the view starts there.
pub open spec fn page_up(sel: nat) -> nat {
    if sel >= PAGE {
        (sel - PAGE) as nat
    } else {
        0
    }
}

/// The selection after moving a page down a list of `len` rows, stopping
/// at the last row; the view starts there. An empty list stays as it is.
pub open spec fn page_down(sel: nat, len: nat) -> nat {
    if sel + PAGE <= len - 1 {
        (sel + PAGE) as nat
    } else {
        (len - 1) as nat
    }
}

/// `step_up` on machine integers.
fn up(sel: usize, scroll: usize) -> (r: (usize, usize))
    ensures
        (r.0 as nat, r.1 as nat) == step_up(sel as nat, scroll as nat),
{
    if sel > 0 {
        let s = sel - 1;
        if s < scroll {
            (s, s)
        } else {
            (s, scroll)
        }
    } else {
        (sel, scroll)
    }
}

/// `step_down` on machine integers.
fn down(sel: usize, scroll: usize, len: usize) -> (r: (usize, usize))
    ensures
        (r.0 as nat, r.1 as nat) == step_down(sel as nat, scroll as nat, len as nat),
{
    if len > 0 && sel < len - 1 {
        let s = sel + 1;
        if s >= scroll && s - scroll >= PAGE {
            (s, scroll + 1)
        } else {
            (s, scroll)
        }
    } else {
        (sel, scroll)
    }
}

/// The lengths of the lists that the tabs show.
pub struct ListLens {
    pub use_tree_view: bool,
    pub tree_expansion_depth: u32,
    pub flattened_tree: usize,
    pub sorted_processes: usize,
    pub disks: usize,
    pub sessions: usize,
    pub interfaces: usize,
    pub services: usize,
    pub containers: usize,
    pub sensors: usize,
}

/// The length of the list on tab `tab`: the process tab shows the tree when
/// it is on and expanded, else the sorted list; the overview and the charts
/// have none.
pub open spec fn list_len(tab: nat, l: ListLens) -> nat {
    if tab == 1 {
        if l.use_tree_view && l.tree_expansion_depth > 0 {
            l.flattened_tree as nat
        } else {
            l.sorted_processes as nat
        }
    } else if tab == 2 {
        l.disks as nat
    } else if tab == 3 {
        l.sessions as nat
    } else if tab == 4 {
        l.interfaces as nat
    } else if tab == 5 {
        l.services as nat
    } else if tab == 6 {
        l.containers as nat
    } else if tab == 7 {
        l.sensors as nat
    } else {
        0
    }
}

/// The length of the list on a tab.
pub fn get_current_list_len(tab_index: usize, lens: &ListLens) -> (r: usize)
    ensures
        r as nat == list_len(tab_index as nat, *lens),
{
    match tab_index {
        1 => {
            if lens.use_tree_view && lens.tree_expansion_depth > 0 {
                lens.flattened_tree
            } else {
                lens.sorted_processes
            }
        },
        2 => lens.disks,
        3 => lens.sessions,
        4 => lens.interfaces,
        5 => lens.services,
        6 => lens.containers,
        7 => lens.sensors,
        _ => 0,
    }
}

/// The tab after `tab`: the first after the last.
pub open spec fn next_tab_of(tab: nat, count: nat) -> nat {
    (tab + 1) % count
}

/// The tab before `tab`: the last before the first.
pub open spec fn prev_tab_of(tab: nat, count: nat) -> nat {
    if tab > 0 {
        (tab - 1) as nat
    } else {
        (count - 1) as nat
    }
}

/// Going to the next tab and back, or back and to the next, returns to
/// the same tab.
pub proof fn lemma_tab_round_trip(tab: nat, count: nat)
    requires
        tab < count,
    ensures
        prev_tab_of(next_tab_of(tab, count), count) == tab,
        next_tab_of(prev_tab_of(tab, count), count) == tab,
        next_tab_of(tab, count) < count && prev_tab_of(tab, count) < count,
{
    if tab + 1 < count {
        vstd::arithmetic::div_mod::lemma_small_mod((tab + 1) as nat, count);
    } else {
        vstd::arithmetic::div_mod::lemma_mod_self_0(count as int);
    }
    let p = prev_tab_of(tab, count);
    if p + 1 < count {
        vstd::arithmetic::div_mod::lemma_small_mod((p + 1) as nat, count);
    } else {
        vstd::arithmetic::div_mod::lemma_mod_self_0(count as int);
    }
}

/// The selected row stays on the page that the view shows: moving up or
/// down keeps it within a page below the top of the view, and paging puts
/// it at the top.
pub proof fn lemma_selection_in_view(sel: nat, scroll: nat, len: nat)
    requires
        scroll <= sel < scroll + PAGE,
    ensures
        step_up(sel, scroll).1 <= step_up(sel, scroll).0 < step_up(sel, scroll).1 + PAGE,
        step_down(sel, scroll, len).1 <= step_down(sel, scroll, len).0 < step_down(sel, scroll, len).1 + PAGE,
{
}

/// The selected row stays within the list: moving or paging down never
/// passes the last row, and moving up never goes below the first.
pub proof fn lemma_selection_in_list(sel: nat, scroll: nat, len: nat)
    requires
        sel < len,
    ensures
        step_down(sel, scroll, len).0 < len,
        step_up(sel, scroll).0 < len,
        page_down(sel, len) < len,
        page_up(sel) <= sel,
        step_down(sel, scroll, len).0 == (if sel + 1 < len { sel + 1 } else { sel }),
{
}

/// The tab, row and scroll position of the dashboard.
pub struct Navigation {
    pub tab_index: usize,
    pub tab_count: usize,
    pub selected_index: usize,
    pub scroll_offset: usize,
}

impl Navigation {
    /// Whether the tab is one of the tabs.
    pub open spec fn wf(&self) -> bool {
        0 < self.tab_count && self.tab_index < self.tab_count
    }

    /// The first tab, at the top of its list.
    pub fn new(tab_count: usize) -> (r: Navigation)
        requires
            tab_count > 0,
        ensures
            r.wf(),
            r.tab_index == 0 && r.tab_count == tab_count,
            r.selected_index == 0 && r.scroll_offset == 0,
    {
        Navigation { tab_index: 0, tab_count, selected_index: 0, scroll_offset: 0 }
    }

    /// The next tab, after the last the first, at the top of its list.
    pub fn next_tab(&mut self)
        requires
            old(self).wf(),
        ensures
            final(self).wf(),
            final(self).tab_count == old(self).tab_count,
            final(self).tab_index as nat == next_tab_of(old(self).tab_index as nat, old(self).tab_count as nat),
            final(self).selected_index == 0 && final(self).scroll_offset == 0,
    {
        self.tab_index = (self.tab_index + 1) % self.tab_count;
        self.selected_index = 0;
        self.scroll_offset = 0;
    }

    /// The previous tab, before the first the last, at the top of its list.
    pub fn prev_tab(&mut self)
        requires
            old(self).tab_count > 0,
        ensures
            final(self).tab_count == old(self).tab_count,
            final(self).tab_index as nat == prev_tab_of(old(self).tab_index as nat, old(self).tab_count as nat),
            final(self).selected_index == 0 && final(self).scroll_offset == 0,
    {
        if self.tab_index > 0 {
            self.tab_index -= 1;
        } else {
            self.tab_index = self.tab_count - 1;
        }
        self.selected_index = 0;
        self.scroll_offset = 0;
    }

    /// One row up.
    pub fn on_up(&mut self)
        ensures
            final(self).tab_index == old(self).tab_index && final(self).tab_count == old(self).tab_count,
            (final(self).selected_index as nat, final(self).scroll_offset as nat) == step_up(
                old(self).selected_index as nat,
                old(self).scroll_offset as nat,
            ),
    {
        let (s, o) = up(self.selected_index, self.scroll_offset);
        self.selected_index = s;
        self.scroll_offset = o;
    }

    /// One row down the current tab's list.
    pub fn on_down(&mut self, lens: &ListLens)
        ensures
            final(self).tab_index == old(self).tab_index && final(self).tab_count == old(self).tab_count,
            (final(self).selected_index as nat, final(self).scroll_offset as nat) == step_down(
                old(self).selected_index as nat,
                old(self).scroll_offset as nat,
                list_len(old(self).tab_index as nat, *lens),
            ),
    {
        let len = get_current_list_len(self.tab_index, lens);
        let (s, o) = down(self.selected_index, self.scroll_offset, len);
        self.selected_index = s;
        self.scroll_offset = o;
    }

    /// One page up.
    pub fn on_page_up(&mut self)
        ensures
            final(self).tab_index == old(self).tab_index && final(self).tab_count == old(self).tab_count,
            final(self).selected_index as nat == page_up(old(self).selected_index as nat),
            final(self).scroll_offset == final(self).selected_index,
    {
        if self.selected_index >= PAGE {
            self.selected_index -= PAGE;
        } else {
            self.selected_index = 0;
        }
        self.scroll_offset = self.selected_index;
    }

    /// One page down the current tab's list; nothing moves in an empty list.
    pub fn on_page_down(&mut self, lens: &ListLens)
        ensures
            final(self).tab_index == old(self).tab_index && final(self).tab_count == old(self).tab_count,
            list_len(old(self).tab_index as nat, *lens) > 0 ==> final(self).selected_index as nat == page_down(
                old(self).selected_index as nat,
                list_len(old(self).tab_index as nat, *lens),
            ) && final(self).scroll_offset == final(self).selected_index,
            list_len(old(self).tab_index as nat, *lens) == 0 ==> final(self).selected_index == old(
                self,
            ).selected_index && final(self).scroll_offset == old(self).scroll_offset,
    {
        let len = get_current_list_len(self.tab_index, lens);
        if len > 0 {
            let max_idx = len - 1;
            if max_idx >= PAGE && self.selected_index <= max_idx - PAGE {
                self.selected_index = self.selected_index + PAGE;
            } else {
                self.selected_index = max_idx;
            }
            self.scroll_offset = self.selected_index;
        }
    }
}

/// The selection within the details pane of a process.
pub struct DetailsCursor {
    pub selected_index: usize,
    pub scroll_offset: usize,
}

impl DetailsCursor {
    /// One row up.
    pub fn details_on_up(&mut self)
        ensures
            (final(self).selected_index as nat, final(self).scroll_offset as nat) == step_up(
                old(self).selected_index as nat,
                old(self).scroll_offset as nat,
            ),
    {
        let (s, o) = up(self.selected_index, self.scroll_offset);
        self.selected_index = s;
        self.scroll_offset = o;
    }

    /// One row down a list of `len` resources.
    pub fn details_on_down(&mut self, len: usize)
        ensures
            (final(self).selected_index as nat, final(self).scroll_offset as nat) == step_down(
                old(self).selected_index as nat,
                old(self).scroll_offset as nat,
                len as nat,
            ),
    {
        let (s, o) = down(self.selected_index, self.scroll_offset, len);
        self.selected_index = s;
        self.scroll_offset = o;
    }
}

/// The kind of what a file descriptor points to.
pub open spec fn resource_kind_text(target: Seq<char>) -> Seq<char> {
    if starts_with(target, "socket:["@) {
        "Socket"@
    } else if starts_with(target, "pipe:["@) {
        "Pipe"@
    } else if starts_with(target, "anon_inode:"@) {
        "Anon"@
    } else {
        "File"@
    }
}

/// The kind of what a file descriptor points to: a socket, a pipe, an
/// anonymous inode, or a file.
pub fn resource_kind(target: &str) -> (r: &'static str)
    ensures
        r@ == resource_kind_text(target@),
{
    let t = chars_of(target);
    if crate::text::has_prefix(&t, &chars_of("socket:[")) {
        "Socket"
    } else if crate::text::has_prefix(&t, &chars_of("pipe:[")) {
        "Pipe"
    } else if crate::text::has_prefix(&t, &chars_of("anon_inode:")) {
        "Anon"
    } else {
        "File"
    }
}

/// The name of a thread: the contents of its `comm` file, trimmed, or
/// `unknown` when it cannot be read.
pub fn thread_name(comm: Option<&str>) -> (r: String)
    ensures
        r@ == (match comm {
            Some(c) => trim(c@),
            None => "unknown"@,
        }),
{
    match comm {
        Some(c) => string_of(&trim_ws(&chars_of(c))),
        None => owned("unknown"),
    }
}

/// Whether a resource matches the details filter: its target or its kind
/// contains the filter, all in lower case.
pub open spec fn resource_matches(name: Seq<char>, kind: Seq<char>, filter: Seq<char>) -> bool {
    contains(lower(name), lower(filter)) || contains(lower(kind), lower(filter))
}

impl ProcessResource {
    pub open spec fn record(&self) -> (Seq<char>, Seq<char>) {
        (self.name@, self.resource_type@)
    }
}

/// The resources that match the filter, in order.
pub open spec fn filtered_resources(rs: Seq<ProcessResource>, filter: Seq<char>) -> Seq<(Seq<char>, Seq<char>)> {
    filter_map(
        rs,
        |r: ProcessResource| if resource_matches(r.name@, r.resource_type@, filter) { Some(r.record()) } else { None },
    )
}

/// The resources that the details pane shows for a filter.
pub fn update_details_filter(resources: &Vec<ProcessResource>, filter: &str) -> (r: Vec<ProcessResource>)
    ensures
        r@.map_values(|x: ProcessResource| x.record()) == filtered_resources(resources@, filter@),
{
    let f = to_lower(filter);
    let fc = chars_of(f.as_str());
    let ghost g = |r: ProcessResource|
        if resource_matches(r.name@, r.resource_type@, filter@) { Some(r.record()) } else { None };
    let mut out: Vec<ProcessResource> = Vec::new();
    let mut i: usize = 0;
    while i < resources.len()
        invariant
            0 <= i <= resources.len(),
            fc@ == lower(filter@),
            g == (|r: ProcessResource|
                if resource_matches(r.name@, r.resource_type@, filter@) { Some(r.record()) } else { None }),
            out@.map_values(|x: ProcessResource| x.record()) == filter_map(resources@.take(i as int), g),
        decreases resources.len() - i,
    {
        proof {
            lemma_filter_map_step(resources@, g, i as int);
        }
        let r = &resources[i];
        let n = chars_of(to_lower(r.name.as_str()).as_str());
        let k = chars_of(to_lower(r.resource_type.as_str()).as_str());
        if contains_pat(&n, &fc) || contains_pat(&k, &fc) {
            let c = ProcessResource { name: r.name.clone(), resource_type: r.resource_type.clone() };
            let ghost before = out@;
            out.push(c);
            assert(out@.map_values(|x: ProcessResource| x.record()) =~= before.map_values(
                |x: ProcessResource| x.record(),
            ).push(r.record()));
        }
        i += 1;
    }
    assert(resources@.take(resources@.len() as int) =~= resources@);
    out
}

/// The process id of a row of the tree, if it is one.
pub open spec fn row_pid(rows: Seq<FlattenedTreeNode>, index: nat) -> Option<nat> {
    if index < rows.len() {
        parse_uint(rows[index as int].pid@, usize::MAX as nat)
    } else {
        None
    }
}

/// The process of a row of the tree.
pub fn tree_pid(rows: &Vec<FlattenedTreeNode>, index: usize) -> (r: Option<usize>)
    ensures
        match r {
            Some(p) => row_pid(rows@, index as nat) == Some(p as nat),
            None => row_pid(rows@, index as nat) is None,
        },
{
    if index < rows.len() {
        match parse_uint_chars(&chars_of(rows[index].pid.as_str()), usize::MAX as u64) {
            Some(v) => Some(v as usize),
            None => None,
        }
    } else {
        None
    }
}

/// Whether a user id is a system account's: below 1000, or no number.
pub open spec fn system_uid(uid: Seq<char>) -> bool {
    match parse_uint(uid, u32::MAX as nat) {
        Some(v) => v < 1000,
        None => true,
    }
}

/// The order of the users list: people before system accounts, then by
/// name.
pub open spec fn user_key(name: Seq<char>, system: bool) -> Seq<char> {
    (if system { "1"@ } else { "0"@ }) + name
}

/// The users with their names and user ids, as rows of name and whether
/// the account is a system one.
pub open spec fn user_rows(users: Seq<(String, String)>) -> Seq<(Seq<char>, bool)> {
    users.map_values(|u: (String, String)| (u.0@, system_uid(u.1@)))
}

/// The users list: people first, then system accounts, each by name.
pub fn refresh_users_list(users: &Vec<(String, String)>) -> (r: Vec<(String, bool)>)
    ensures
        exists|p: Seq<int>|
            stable_order(
                user_rows(users@).map_values(|u: (Seq<char>, bool)| user_key(u.0, u.1)),
                p,
                |a: Seq<char>, b: Seq<char>| text_lt(a, b),
            ) && r@.map_values(|u: (String, bool)| (u.0@, u.1)) == reorder(user_rows(users@), p),
{
    let mut rows: Vec<(String, bool)> = Vec::new();
    let mut keys: Vec<Vec<char>> = Vec::new();
    let mut i: usize = 0;
    while i < users.len()
        invariant
            0 <= i <= users.len(),
            rows@.len() == i && keys@.len() == i,
            forall|j: int|
                0 <= j < i ==> (#[trigger] rows@[j]).0@ == users@[j].0@ && rows@[j].1 == system_uid(users@[j].1@),
            forall|j: int|
                0 <= j < i ==> (#[trigger] keys@[j])@ == user_key(users@[j].0@, system_uid(users@[j].1@)),
        decreases users.len() - i,
    {
        let uid = parse_u32(&chars_of(users[i].1.as_str()));
        let system = match uid {
            Some(v) => v < 1000,
            None => true,
        };
        let mut k: Vec<char> = if system { chars_of("1") } else { chars_of("0") };
        let name = chars_of(users[i].0.as_str());
        crate::text::extend_chars(&mut k, &name);
        rows.push((users[i].0.clone(), system));
        keys.push(k);
        i += 1;
    }
    let ghost rv = rows@.map_values(|u: (String, bool)| (u.0@, u.1));
    assert(rv =~= user_rows(users@));
    assert(keys@.map_values(|k: Vec<char>| k@) =~= user_rows(users@).map_values(
        |u: (Seq<char>, bool)| user_key(u.0, u.1),
    ));
    let sorted = sort_by_text(rows, &keys);
    proof {
        let p = choose|p: Seq<int>|
            stable_order(
                keys@.map_values(|k: Vec<char>| k@),
                p,
                |a: Seq<char>, b: Seq<char>| text_lt(a, b),
            ) && sorted@ == reorder(rows@, p);
        assert(sorted@.map_values(|u: (String, bool)| (u.0@, u.1)) =~= reorder(user_rows(users@), p));
    }
    sorted
}

/// What the process lists need to know of a process to decide whether to
/// show it.
pub struct ProcessFacts {
    pub pid: u32,
    pub parent: Option<u32>,
    /// Whether it is a thread of another process.
    pub is_thread: bool,
    /// The owner's user id as text, when known.
    pub uid: Option<String>,
    pub name: String,
    /// The path of the executable, when known.
    pub exe: Option<String>,
}

/// The settings that hide processes.
pub struct ProcessFilter {
    pub show_user_threads: bool,
    pub show_only_current_user: bool,
    pub current_uid: u32,
    pub hide_kernel_processes: bool,
    pub filter: String,
    /// Whether the text filter applies.
    pub apply_filter: bool,
}

/// The user id that an owner's id text gives; no number counts as the
/// largest id.
pub open spec fn owner_uid(uid: Seq<char>) -> nat {
    match parse_uint(uid, u32::MAX as nat) {
        Some(v) => v,
        None => u32::MAX as nat,
    }
}

/// Whether a process is listed: threads only when asked for, only the
/// current user's processes when asked for, no kernel threads (pid 0 and 2
/// and the children of 2) when they are hidden, and, with a text filter,
/// only processes whose name or executable contains it, ignoring case.
pub open spec fn process_listed(p: ProcessFacts, f: ProcessFilter) -> bool {
    &&& f.show_user_threads || !p.is_thread
    &&& f.show_only_current_user ==> (p.uid matches Some(u) && owner_uid(u@) == f.current_uid)
    &&& f.hide_kernel_processes ==> (p.pid != 0 && p.pid != 2 && p.parent != Some(2u32))
    &&& (f.apply_filter && f.filter@.len() > 0) ==> (contains(lower(p.name@), lower(f.filter@)) || contains(
        lower(
            match p.exe {
                Some(e) => e@,
                None => seq![],
            },
        ),
        lower(f.filter@),
    ))
}

/// Whether a process is listed.
pub fn keep_process(p: &ProcessFacts, f: &ProcessFilter) -> (r: bool)
    ensures
        r == process_listed(*p, *f),
{
    if !f.show_user_threads && p.is_thread {
        return false;
    }
    if f.show_only_current_user {
        match &p.uid {
            Some(u) => {
                let v = match parse_u32(&chars_of(u.as_str())) {
                    Some(v) => v,
                    None => u32::MAX,
                };
                if v != f.current_uid {
                    return false;
                }
            },
            None => {
                return false;
            },
        }
    }
    if f.hide_kernel_processes {
        if p.pid == 0 || p.pid == 2 {
            return false;
        }
        match p.parent {
            Some(pp) => {
                if pp == 2 {
                    return false;
                }
            },
            None => {},
        }
    }
    let raw = chars_of(f.filter.as_str());
    if f.apply_filter && raw.len() > 0 {
        proof {
            reveal_strlit("");
            assert(""@ =~= Seq::<char>::empty());
        }
        let filter = chars_of(to_lower(f.filter.as_str()).as_str());
        let name = chars_of(to_lower(p.name.as_str()).as_str());
        let exe = match &p.exe {
            Some(e) => to_lower(e.as_str()),
            None => to_lower(""),
        };
        let exe_c = chars_of(exe.as_str());
        if !contains_pat(&name, &filter) && !contains_pat(&exe_c, &filter) {
            return false;
        }
    }
    true
}

/// A process and its parent, as the tree is built from them.
pub struct ProcessLink {
    pub pid: u32,
    pub parent: Option<u32>,
}

/// Whether some process of the list has id `pid`.
pub open spec fn listed_pid(ls: Seq<ProcessLink>, pid: u32) -> bool {
    exists|j: int| 0 <= j < ls.len() && ls[j].pid == pid
}

/// Whether process `i` starts a tree: it has no parent, or its parent is
/// not listed.
pub open spec fn is_root(ls: Seq<ProcessLink>, i: int) -> bool {
    match ls[i].parent {
        Some(p) => !listed_pid(ls, p),
        None => true,
    }
}

/// The places of the processes that satisfy `f`, in list order.
pub open spec fn places(n: nat, f: spec_fn(int) -> bool) -> Seq<usize>
    decreases n,
{
    if n == 0 {
        seq![]
    } else {
        let rest = places((n - 1) as nat, f);
        if f(n - 1) { rest.push((n - 1) as usize) } else { rest }
    }
}

/// The trees of the listed processes: the places of the roots, and for
/// each process the places of its children, in list order.
pub open spec fn forest_links(ls: Seq<ProcessLink>) -> (Seq<usize>, Seq<Seq<usize>>) {
    (
        places(ls.len(), |i: int| is_root(ls, i)),
        Seq::new(ls.len(), |k: int| places(ls.len(), |i: int| ls[i].parent == Some(ls[k].pid))),
    )
}

/// Whether some process has id `pid`.
fn has_pid(ls: &Vec<ProcessLink>, pid: u32) -> (r: bool)
    ensures
        r == listed_pid(ls@, pid),
{
    let mut j: usize = 0;
    while j < ls.len()
        invariant
            0 <= j <= ls.len(),
            forall|k: int| 0 <= k < j ==> ls@[k].pid != pid,
        decreases ls.len() - j,
    {
        if ls[j].pid == pid {
            return true;
        }
        j += 1;
    }
    false
}

/// The children of the process with id `pid`, in list order.
fn children_of(ls: &Vec<ProcessLink>, pid: u32) -> (r: Vec<usize>)
    ensures
        r@ == places(ls@.len(), |i: int| ls@[i].parent == Some(pid)),
{
    let ghost f = |i: int| ls@[i].parent == Some(pid);
    let mut out: Vec<usize> = Vec::new();
    let mut j: usize = 0;
    while j < ls.len()
        invariant
            0 <= j <= ls.len(),
            f == (|i: int| ls@[i].parent == Some(pid)),
            out@ == places(j as nat, f),
        decreases ls.len() - j,
    {
        let hit = match ls[j].parent {
            Some(p) => p == pid,
            None => false,
        };
        if hit {
            out.push(j);
        }
        j += 1;
    }
    out
}

/// Groups the listed processes into trees: the roots, and the children of
/// each process, all in list order.
pub fn process_forest(ls: &Vec<ProcessLink>) -> (r: (Vec<usize>, Vec<Vec<usize>>))
    ensures
        r.0@ == forest_links(ls@).0,
        r.1@.len() == ls@.len(),
        forall|k: int| 0 <= k < ls@.len() ==> (#[trigger] r.1@[k])@ == forest_links(ls@).1[k],
{
    let ghost f = |i: int| is_root(ls@, i);
    let mut roots: Vec<usize> = Vec::new();
    let mut children: Vec<Vec<usize>> = Vec::new();
    let mut j: usize = 0;
    while j < ls.len()
        invariant
            0 <= j <= ls.len(),
            f == (|i: int| is_root(ls@, i)),
            roots@ == places(j as nat, f),
            children@.len() == j,
            forall|k: int| 0 <= k < j ==> (#[trigger] children@[k])@ == forest_links(ls@).1[k],
        decreases ls.len() - j,
    {
        let root = match ls[j].parent {
            Some(p) => !has_pid(ls, p),
            None => true,
        };
        if root {
            roots.push(j);
        }
        children.push(children_of(ls, ls[j].pid));
        j += 1;
    }
    (roots, children)
}

/// The samples of a history after one more: the newest is appended and,
/// past sixty, the oldest dropped.
pub open spec fn pushed_history<T>(h: Seq<T>, x: T) -> Seq<T> {
    let p = h.push(x);
    if p.len() > 60 { p.skip(1) } else { p }
}

/// A history never holds more than sixty samples, and its newest is the
/// one just recorded; a full history loses only its oldest sample, the
/// others kept in order.
pub proof fn lemma_history_bounded<T>(h: Seq<T>, x: T)
    requires
        h.len() <= 60,
    ensures
        pushed_history(h, x).len() <= 60,
        pushed_history(h, x).last() == x,
        pushed_history(h, x).len() == if h.len() < 60 { h.len() + 1 } else { 60 },
        pushed_history(h, x) == (if h.len() < 60 { h } else { h.skip(1) }).push(x),
{
    if h.len() == 60 {
        assert(h.push(x).skip(1) =~= h.skip(1).push(x));
    }
}

/// Records a sample in a history of at most sixty.
pub fn push_history<T>(h: &mut Vec<T>, x: T)
    ensures
        final(h)@ == pushed_history(old(h)@, x),
{
    h.push(x);
    if h.len() > 60 {
        h.remove(0);
        assert(h@ =~= pushed_history(old(h)@, x));
    }
}

/// The order in which processes are listed by memory: largest first, equal
/// sizes in list order, at most `count` of them.
pub open spec fn memory_order(mem: Seq<u64>, count: nat, r: Seq<usize>) -> bool {
    exists|p: Seq<int>|
        crate::sort::stable_order(
            mem.map_values(|m: u64| (u64::MAX - m) as u64),
            p,
            |a: u64, b: u64| crate::sort::num_lt(a, b),
        ) && r == p.take(if count < p.len() { count as int } else { p.len() as int }).map_values(
            |k: int| k as usize,
        )
}

/// The places of the processes with the most memory, largest first.
pub fn top_by_memory(mem: &Vec<u64>, count: usize) -> (r: Vec<usize>)
    ensures
        memory_order(mem@, count as nat, r@),
{
    let mut idx: Vec<usize> = Vec::new();
    let mut keys: Vec<u64> = Vec::new();
    let mut i: usize = 0;
    while i < mem.len()
        invariant
            0 <= i <= mem.len(),
            idx@.len() == i && keys@.len() == i,
            forall|j: int| 0 <= j < i ==> idx@[j] == j,
            forall|j: int| 0 <= j < i ==> keys@[j] == (u64::MAX - mem@[j]) as u64,
        decreases mem.len() - i,
    {
        idx.push(i);
        keys.push(u64::MAX - mem[i]);
        i += 1;
    }
    assert(keys@ =~= mem@.map_values(|m: u64| (u64::MAX - m) as u64));
    let sorted = crate::sort::sort_by_number(idx, &keys);
    let ghost p = choose|p: Seq<int>|
        crate::sort::stable_order(keys@, p, |a: u64, b: u64| crate::sort::num_lt(a, b))
            && sorted@ == crate::sort::reorder(idx@, p);
    let mut out: Vec<usize> = Vec::new();
    let n = if count < sorted.len() { count } else { sorted.len() };
    let mut k: usize = 0;
    while k < n
        invariant
            0 <= k <= n,
            n <= sorted@.len(),
            sorted@ == crate::sort::reorder(idx@, p),
            out@ =~= sorted@.take(k as int),
        decreases n - k,
    {
        out.push(sorted[k]);
        k += 1;
    }
    proof {
        assert forall|j: int| 0 <= j < p.len() implies 0 <= #[trigger] p[j] < idx@.len() by {}
        assert(out@ =~= p.take(n as int).map_values(|k: int| k as usize));
    }
    out
}

/// How two processes compare.
#[derive(Clone, Copy, Debug, PartialEq, Eq, Structural)]
pub enum KeyOrder {
    Less,
    Equal,
    Greater,
}

/// What the process orders compare, but for the CPU share: the pid, the
/// memory, the name and the owner's name.
pub struct ProcessKey {
    pub pid: u32,
    pub mem: u64,
    pub name: String,
    pub user: String,
}

/// The order of two numbers.
pub open spec fn num_order(a: int, b: int) -> KeyOrder {
    if a < b {
        KeyOrder::Less
    } else if a == b {
        KeyOrder::Equal
    } else {
        KeyOrder::Greater
    }
}

/// The order of two texts, code point by code point.
pub open spec fn text_order(a: Seq<char>, b: Seq<char>) -> KeyOrder {
    if text_lt(a, b) {
        KeyOrder::Less
    } else if a == b {
        KeyOrder::Equal
    } else {
        KeyOrder::Greater
    }
}

/// The order of two processes by a sort other than the CPU share.
pub open spec fn key_order(sort: ProcessSort, a: ProcessKey, b: ProcessKey) -> KeyOrder {
    match sort {
        ProcessSort::Pid => num_order(a.pid as int, b.pid as int),
        ProcessSort::Mem => num_order(a.mem as int, b.mem as int),
        ProcessSort::Name => text_order(a.name@, b.name@),
        ProcessSort::User => text_order(a.user@, b.user@),
        ProcessSort::Cpu => KeyOrder::Equal,
    }
}

/// The opposite order.
pub open spec fn flipped(o: KeyOrder) -> KeyOrder {
    match o {
        KeyOrder::Less => KeyOrder::Greater,
        KeyOrder::Equal => KeyOrder::Equal,
        KeyOrder::Greater => KeyOrder::Less,
    }
}

fn num_order_of(a: u64, b: u64) -> (r: KeyOrder)
    ensures
        r == num_order(a as int, b as int),
{
    if a < b {
        KeyOrder::Less
    } else if a == b {
        KeyOrder::Equal
    } else {
        KeyOrder::Greater
    }
}

fn text_order_of(a: &String, b: &String) -> (r: KeyOrder)
    ensures
        r == text_order(a@, b@),
{
    let x = chars_of(a.as_str());
    let y = chars_of(b.as_str());
    if text_less(&x, &y) {
        KeyOrder::Less
    } else if text_eq(&x, &y) {
        KeyOrder::Equal
    } else {
        KeyOrder::Greater
    }
}

/// The order of two processes in the lists and the tree, by pid, memory,
/// name or owner, reversed when descending. The CPU share is measured as a
/// floating-point figure and is compared by the front end.
pub fn process_order(sort: ProcessSort, descending: bool, a: &ProcessKey, b: &ProcessKey) -> (r: KeyOrder)
    requires
        sort != ProcessSort::Cpu,
    ensures
        r == (if descending { flipped(key_order(sort, *a, *b)) } else { key_order(sort, *a, *b) }),
{
    let o = match sort {
        ProcessSort::Pid => num_order_of(a.pid as u64, b.pid as u64),
        ProcessSort::Mem => num_order_of(a.mem, b.mem),
        ProcessSort::Name => text_order_of(&a.name, &b.name),
        ProcessSort::User => text_order_of(&a.user, &b.user),
        ProcessSort::Cpu => KeyOrder::Equal,
    };
    if descending {
        match o {
            KeyOrder::Less => KeyOrder::Greater,
            KeyOrder::Equal => KeyOrder::Equal,
            KeyOrder::Greater => KeyOrder::Less,
        }
    } else {
        o
    }
}

} // verus!

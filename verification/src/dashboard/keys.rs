//! What a key press does to the dashboard: the state it leaves and the
//! work it asks of the front end.
use vstd::prelude::*;

use crate::config::{ProcessSort, UiConfig};
use crate::dashboard::app::{
    DetailsCursor, ListLens, Navigation, ProcessResource, filtered_resources, list_len, page_down,
    page_up, step_down, step_up, update_details_filter,
};
use crate::text::{chars_of, push_char, string_of};

verus! {

/// The keys the dashboard reacts to.
#[derive(Clone, Copy, Debug, PartialEq, Eq, Structural)]
pub enum Key {
    Char(char),
    Enter,
    Esc,
    Backspace,
    Tab,
    BackTab,
    Left,
    Right,
    Up,
    Down,
    PageUp,
    PageDown,
    Other,
}

/// The details pane of a process: its cursor, its filter, and whether the
/// filter is being typed.
pub struct DetailsView {
    pub cursor: DetailsCursor,
    pub filter: String,
    pub is_searching: bool,
}

/// The state of the dashboard that keys change.
pub struct DashboardState {
    pub nav: Navigation,
    pub details: Option<DetailsView>,
    pub is_filtering: bool,
    pub process_filter: String,
    pub use_tree_view: bool,
    pub tree_expansion_depth: u32,
    pub show_only_current_user: bool,
    pub show_user_threads: bool,
    pub hide_kernel_processes: bool,
    pub process_sort: ProcessSort,
    pub sort_descending: bool,
    /// The time between refreshes, in nanoseconds.
    pub tick_nanos: u128,
}

/// What the front end does after a key.
#[derive(Clone, Copy, Debug, PartialEq, Eq, Structural)]
pub enum KeyEffect {
    Nothing,
    /// Leave the dashboard.
    Quit,
    /// Rebuild the process lists now.
    Refresh,
    /// Rebuild the process lists and keep the filter in the settings.
    RefreshAndSaveFilter,
    /// Recompute the details pane's resources for its filter.
    FilterDetails,
    /// Open the details of the selected process.
    FetchDetails,
}

/// The largest duration, in nanoseconds.
pub open spec fn max_nanos() -> nat {
    18446744073709551615 * 1000000000 + 999999999
}

/// A fifth of a second, in nanoseconds: the step and the floor of the
/// refresh interval.
pub open spec fn tick_step() -> nat {
    200000000
}

/// The interval after `+`: longer by the step, up to the largest duration.
pub open spec fn slower(t: nat) -> nat {
    if t + tick_step() <= max_nanos() {
        t + tick_step()
    } else {
        max_nanos()
    }
}

/// The interval after `-`: shorter by the step, but never below it.
pub open spec fn faster(t: nat) -> nat {
    let n = if t >= tick_step() { (t - tick_step()) as nat } else { 0 };
    if n >= tick_step() { n } else { tick_step() }
}

/// The refresh interval never goes below a fifth of a second nor above the
/// largest duration, and `+` lengthens it by the step while it can.
pub proof fn lemma_interval_bounds(t: nat)
    requires
        t <= max_nanos(),
    ensures
        faster(t) >= tick_step(),
        faster(t) <= max_nanos(),
        slower(t) <= max_nanos(),
        slower(t) >= t,
        t + tick_step() <= max_nanos() ==> slower(t) == t + tick_step(),
{
}

/// The state as plain values: the navigation, the details pane, the text
/// filter, the view switches, the sort, and the interval.
pub type Model = (
    (nat, nat, nat, nat),
    Option<(nat, nat, Seq<char>, bool)>,
    (bool, Seq<char>),
    (bool, u32, bool, bool, bool),
    (ProcessSort, bool),
    nat,
);

impl DashboardState {
    pub open spec fn model(&self) -> Model {
        (
            (
                self.nav.tab_index as nat,
                self.nav.tab_count as nat,
                self.nav.selected_index as nat,
                self.nav.scroll_offset as nat,
            ),
            match self.details {
                Some(d) => Some(
                    (d.cursor.selected_index as nat, d.cursor.scroll_offset as nat, d.filter@, d.is_searching),
                ),
                None => None,
            },
            (self.is_filtering, self.process_filter@),
            (
                self.use_tree_view,
                self.tree_expansion_depth,
                self.show_only_current_user,
                self.show_user_threads,
                self.hide_kernel_processes,
            ),
            (self.process_sort, self.sort_descending),
            self.tick_nanos as nat,
        )
    }

    /// Whether the tab is one of the tabs.
    pub open spec fn wf(&self) -> bool {
        self.nav.wf()
    }
}

/// A text without its last character.
pub open spec fn pop(s: Seq<char>) -> Seq<char> {
    if s.len() > 0 {
        s.drop_last()
    } else {
        s
    }
}

/// The sort that a key picks, if it picks one.
pub open spec fn sort_key(c: char) -> Option<ProcessSort> {
    if c == 'i' {
        Some(ProcessSort::Pid)
    } else if c == 'c' {
        Some(ProcessSort::Cpu)
    } else if c == 'm' {
        Some(ProcessSort::Mem)
    } else if c == 'n' {
        Some(ProcessSort::Name)
    } else if c == 'u' {
        Some(ProcessSort::User)
    } else {
        None
    }
}

/// The step of the details pane for a key.
pub open spec fn details_step(
    d: (nat, nat, Seq<char>, bool),
    key: Key,
    details_len: nat,
) -> (Option<(nat, nat, Seq<char>, bool)>, KeyEffect) {
    let (sel, scroll, filter, searching) = d;
    if searching {
        match key {
            Key::Enter | Key::Esc => (Some((sel, scroll, filter, false)), KeyEffect::Nothing),
            Key::Backspace => (Some((0, 0, pop(filter), true)), KeyEffect::FilterDetails),
            Key::Char(c) => (Some((0, 0, filter.push(c), true)), KeyEffect::FilterDetails),
            _ => (Some(d), KeyEffect::Nothing),
        }
    } else {
        match key {
            Key::Esc => (None, KeyEffect::Nothing),
            Key::Char('/') => (Some((sel, scroll, filter, true)), KeyEffect::Nothing),
            Key::Up | Key::Char('k') => {
                let (s, o) = step_up(sel, scroll);
                (Some((s, o, filter, false)), KeyEffect::Nothing)
            },
            Key::Down | Key::Char('j') => {
                let (s, o) = step_down(sel, scroll, details_len);
                (Some((s, o, filter, false)), KeyEffect::Nothing)
            },
            _ => (Some(d), KeyEffect::Nothing),
        }
    }
}

/// The state after a key, and what the front end does: the details pane
/// takes the keys while it is open, the text filter while it is typed;
/// otherwise keys move between tabs and rows, switch views and sorts, and
/// change the refresh interval.
pub open spec fn key_step(m: Model, key: Key, list_len: nat, details_len: nat) -> (Model, KeyEffect) {
    let (nav, details, filtering, view, sort, tick) = m;
    let (tab, count, sel, scroll) = nav;
    let (is_filtering, filter) = filtering;
    let (tree, depth, only_user, threads, hide_kernel) = view;
    let (by, desc) = sort;
    match details {
        Some(d) => {
            let (d2, e) = details_step(d, key, details_len);
            ((nav, d2, filtering, view, sort, tick), e)
        },
        None => if is_filtering {
            match key {
                Key::Enter | Key::Esc => ((nav, None, (false, filter), view, sort, tick), KeyEffect::RefreshAndSaveFilter),
                Key::Backspace => ((nav, None, (true, pop(filter)), view, sort, tick), KeyEffect::Refresh),
                Key::Char(c) => ((nav, None, (true, filter.push(c)), view, sort, tick), KeyEffect::Refresh),
                _ => (m, KeyEffect::Nothing),
            }
        } else {
            match key {
                Key::Char('q') => (m, KeyEffect::Quit),
                Key::Enter => if tab == 1 {
                    (m, KeyEffect::FetchDetails)
                } else {
                    (m, KeyEffect::Nothing)
                },
                Key::Tab | Key::Right => ((((tab + 1) % count, count, 0, 0), None, filtering, view, sort, tick), KeyEffect::Nothing),
                Key::BackTab | Key::Left => ((((if tab > 0 { (tab - 1) as nat } else { (count - 1) as nat }), count, 0, 0), None, filtering, view, sort, tick), KeyEffect::Nothing),
                Key::Up => {
                    let (s, o) = step_up(sel, scroll);
                    (((tab, count, s, o), None, filtering, view, sort, tick), KeyEffect::Nothing)
                },
                Key::Down => {
                    let (s, o) = step_down(sel, scroll, list_len);
                    (((tab, count, s, o), None, filtering, view, sort, tick), KeyEffect::Nothing)
                },
                Key::PageUp => (((tab, count, page_up(sel), page_up(sel)), None, filtering, view, sort, tick), KeyEffect::Nothing),
                Key::PageDown => if list_len > 0 {
                    (((tab, count, page_down(sel, list_len), page_down(sel, list_len)), None, filtering, view, sort, tick), KeyEffect::Nothing)
                } else {
                    (m, KeyEffect::Nothing)
                },
                Key::Char(c) => if c == '/' && tab == 1 {
                    ((nav, None, (true, filter), view, sort, tick), KeyEffect::Nothing)
                } else if c == 't' {
                    ((nav, None, filtering, (!tree, depth, only_user, threads, hide_kernel), sort, tick), KeyEffect::Refresh)
                } else if '0' <= c && c <= '9' {
                    ((nav, None, filtering, (true, (c as u32 - '0' as u32) as u32, only_user, threads, hide_kernel), sort, tick), KeyEffect::Refresh)
                } else if c == 'o' {
                    ((nav, None, filtering, (tree, depth, !only_user, threads, hide_kernel), sort, tick), KeyEffect::Refresh)
                } else if c == 'H' || c == 'h' {
                    ((nav, None, filtering, (tree, depth, only_user, !threads, hide_kernel), sort, tick), KeyEffect::Refresh)
                } else if c == 'k' {
                    if tab == 2 {
                        ((nav, None, filtering, (tree, depth, only_user, threads, !hide_kernel), sort, tick), KeyEffect::Refresh)
                    } else {
                        let (s, o) = step_up(sel, scroll);
                        (((tab, count, s, o), None, filtering, view, sort, tick), KeyEffect::Nothing)
                    }
                } else if c == 'j' {
                    let (s, o) = step_down(sel, scroll, list_len);
                    (((tab, count, s, o), None, filtering, view, sort, tick), KeyEffect::Nothing)
                } else if sort_key(c) is Some {
                    ((nav, None, filtering, view, (sort_key(c)->0, !desc), tick), KeyEffect::Refresh)
                } else if c == '+' || c == '=' {
                    ((nav, None, filtering, view, sort, slower(tick)), KeyEffect::Nothing)
                } else if c == '-' || c == '_' {
                    ((nav, None, filtering, view, sort, faster(tick)), KeyEffect::Nothing)
                } else {
                    (m, KeyEffect::Nothing)
                },
                _ => (m, KeyEffect::Nothing),
            }
        },
    }
}

/// Only `q`, and only on the main view, leaves the dashboard.
pub proof fn lemma_quit_only_on_q(m: Model, key: Key, list_len: nat, details_len: nat)
    requires
        key_step(m, key, list_len, details_len).1 == KeyEffect::Quit,
    ensures
        key == Key::Char('q'),
        m.1 is None,
        !m.2.0,
{
}

/// `Esc` closes the details pane unless its filter is being typed, in
/// which case it ends the typing.
pub proof fn lemma_escape_closes_details(m: Model, list_len: nat, details_len: nat)
    requires
        m.1 is Some,
    ensures
        match m.1 {
            Some((sel, scroll, filter, searching)) => if searching {
                key_step(m, Key::Esc, list_len, details_len).0.1 == Some((sel, scroll, filter, false))
            } else {
                key_step(m, Key::Esc, list_len, details_len).0.1 is None
            },
            None => true,
        },
{
}

/// A string without its last character.
fn pop_string(s: &String) -> (r: String)
    ensures
        r@ == pop(s@),
{
    let mut v = chars_of(s.as_str());
    if v.len() > 0 {
        v.pop();
    }
    assert(v@ =~= pop(s@));
    string_of(&v)
}

/// The largest duration, in nanoseconds.
pub const MAX_NANOS: u128 = 18446744073709551615999999999;

/// A fifth of a second, in nanoseconds.
pub const TICK_STEP: u128 = 200000000;

impl DashboardState {
    /// Applies a key; `lens` are the lengths of the lists and `details_len`
    /// that of the details pane's resources.
    pub fn handle_key(&mut self, key: Key, lens: &ListLens, details_len: usize) -> (e: KeyEffect)
        requires
            old(self).wf(),
            old(self).tick_nanos <= max_nanos(),
        ensures
            final(self).wf(),
            final(self).tick_nanos <= max_nanos(),
            (final(self).model(), e) == key_step(
                old(self).model(),
                key,
                list_len(old(self).nav.tab_index as nat, *lens),
                details_len as nat,
            ),
    {
        if self.details.is_some() {
            return self.details_key(key, details_len);
        }
        if self.is_filtering {
            match key {
                Key::Enter | Key::Esc => {
                    self.is_filtering = false;
                    return KeyEffect::RefreshAndSaveFilter;
                },
                Key::Backspace => {
                    self.process_filter = pop_string(&self.process_filter);
                    return KeyEffect::Refresh;
                },
                Key::Char(c) => {
                    push_char(&mut self.process_filter, c);
                    return KeyEffect::Refresh;
                },
                _ => {
                    return KeyEffect::Nothing;
                },
            }
        }
        match key {
            Key::Char('q') => KeyEffect::Quit,
            Key::Enter => if self.nav.tab_index == 1 {
                KeyEffect::FetchDetails
            } else {
                KeyEffect::Nothing
            },
            Key::Tab | Key::Right => {
                self.nav.next_tab();
                KeyEffect::Nothing
            },
            Key::BackTab | Key::Left => {
                self.nav.prev_tab();
                KeyEffect::Nothing
            },
            Key::Up => {
                self.nav.on_up();
                KeyEffect::Nothing
            },
            Key::Down => {
                self.nav.on_down(lens);
                KeyEffect::Nothing
            },
            Key::PageUp => {
                self.nav.on_page_up();
                KeyEffect::Nothing
            },
            Key::PageDown => {
                self.nav.on_page_down(lens);
                KeyEffect::Nothing
            },
            Key::Char(c) => self.char_key(c, lens),
            _ => KeyEffect::Nothing,
        }
    }

    /// A key while the details pane is open.
    fn details_key(&mut self, key: Key, details_len: usize) -> (e: KeyEffect)
        requires
            old(self).details is Some,
        ensures
            final(self).nav == old(self).nav,
            final(self).is_filtering == old(self).is_filtering,
            final(self).process_filter@ == old(self).process_filter@,
            final(self).use_tree_view == old(self).use_tree_view,
            final(self).tree_expansion_depth == old(self).tree_expansion_depth,
            final(self).show_only_current_user == old(self).show_only_current_user,
            final(self).show_user_threads == old(self).show_user_threads,
            final(self).hide_kernel_processes == old(self).hide_kernel_processes,
            final(self).process_sort == old(self).process_sort,
            final(self).sort_descending == old(self).sort_descending,
            final(self).tick_nanos == old(self).tick_nanos,
            (final(self).model().1, e) == details_step(old(self).model().1->0, key, details_len as nat),
    {
        let mut d = self.details.take().unwrap();
        if d.is_searching {
            match key {
                Key::Enter | Key::Esc => {
                    d.is_searching = false;
                    self.details = Some(d);
                    KeyEffect::Nothing
                },
                Key::Backspace => {
                    d.filter = pop_string(&d.filter);
                    d.cursor = DetailsCursor { selected_index: 0, scroll_offset: 0 };
                    self.details = Some(d);
                    KeyEffect::FilterDetails
                },
                Key::Char(c) => {
                    push_char(&mut d.filter, c);
                    d.cursor = DetailsCursor { selected_index: 0, scroll_offset: 0 };
                    self.details = Some(d);
                    KeyEffect::FilterDetails
                },
                _ => {
                    self.details = Some(d);
                    KeyEffect::Nothing
                },
            }
        } else {
            match key {
                Key::Esc => KeyEffect::Nothing,
                Key::Char('/') => {
                    d.is_searching = true;
                    self.details = Some(d);
                    KeyEffect::Nothing
                },
                Key::Up | Key::Char('k') => {
                    d.cursor.details_on_up();
                    self.details = Some(d);
                    KeyEffect::Nothing
                },
                Key::Down | Key::Char('j') => {
                    d.cursor.details_on_down(details_len);
                    self.details = Some(d);
                    KeyEffect::Nothing
                },
                _ => {
                    self.details = Some(d);
                    KeyEffect::Nothing
                },
            }
        }
    }

    /// A character key on the main view.
    fn char_key(&mut self, c: char, lens: &ListLens) -> (e: KeyEffect)
        requires
            old(self).wf(),
            old(self).details is None,
            !old(self).is_filtering,
            old(self).tick_nanos <= max_nanos(),
            c != 'q',
        ensures
            final(self).wf(),
            final(self).tick_nanos <= max_nanos(),
            (final(self).model(), e) == key_step(
                old(self).model(),
                Key::Char(c),
                list_len(old(self).nav.tab_index as nat, *lens),
                0,
            ),
    {
        if c == '/' && self.nav.tab_index == 1 {
            self.is_filtering = true;
            KeyEffect::Nothing
        } else if c == 't' {
            self.use_tree_view = !self.use_tree_view;
            KeyEffect::Refresh
        } else if '0' <= c && c <= '9' {
            self.tree_expansion_depth = (c as u32) - ('0' as u32);
            self.use_tree_view = true;
            KeyEffect::Refresh
        } else if c == 'o' {
            self.show_only_current_user = !self.show_only_current_user;
            KeyEffect::Refresh
        } else if c == 'H' || c == 'h' {
            self.show_user_threads = !self.show_user_threads;
            KeyEffect::Refresh
        } else if c == 'k' {
            if self.nav.tab_index == 2 {
                self.hide_kernel_processes = !self.hide_kernel_processes;
                KeyEffect::Refresh
            } else {
                self.nav.on_up();
                KeyEffect::Nothing
            }
        } else if c == 'j' {
            self.nav.on_down(lens);
            KeyEffect::Nothing
        } else if c == 'i' || c == 'c' || c == 'm' || c == 'n' || c == 'u' {
            self.process_sort = if c == 'i' {
                ProcessSort::Pid
            } else if c == 'c' {
                ProcessSort::Cpu
            } else if c == 'm' {
                ProcessSort::Mem
            } else if c == 'n' {
                ProcessSort::Name
            } else {
                ProcessSort::User
            };
            self.sort_descending = !self.sort_descending;
            KeyEffect::Refresh
        } else if c == '+' || c == '=' {
            self.tick_nanos = if self.tick_nanos <= MAX_NANOS - TICK_STEP {
                self.tick_nanos + TICK_STEP
            } else {
                MAX_NANOS
            };
            KeyEffect::Nothing
        } else if c == '-' || c == '_' {
            let n = if self.tick_nanos >= TICK_STEP {
                self.tick_nanos - TICK_STEP
            } else {
                0
            };
            self.tick_nanos = if n >= TICK_STEP {
                n
            } else {
                TICK_STEP
            };
            KeyEffect::Nothing
        } else {
            KeyEffect::Nothing
        }
    }
}

impl DashboardState {
    /// The state the dashboard opens with: the first of `tab_count` tabs,
    /// no pane or filter being typed, and the views, the sort, the text
    /// filter and the interval of the settings.
    pub fn from_config(ui: &UiConfig, tab_count: usize) -> (r: DashboardState)
        requires
            tab_count > 0,
        ensures
            r.wf(),
            r.nav.tab_index == 0 && r.nav.tab_count == tab_count,
            r.nav.selected_index == 0 && r.nav.scroll_offset == 0,
            r.details is None,
            !r.is_filtering,
            r.process_filter@ == ui.process_filter@,
            r.use_tree_view == ui.process_use_tree_view,
            r.tree_expansion_depth == ui.process_tree_depth,
            r.show_only_current_user == ui.process_current_user_only,
            r.show_user_threads == ui.show_user_threads,
            r.hide_kernel_processes == !ui.show_kernel_processes,
            r.process_sort == ui.process_sort,
            r.sort_descending == ui.process_sort_descending,
            r.tick_nanos == ui.refresh_rate_ms as nat * 1000000,
            r.tick_nanos <= max_nanos(),
    {
        DashboardState {
            nav: Navigation::new(tab_count),
            details: None,
            is_filtering: false,
            process_filter: ui.process_filter.clone(),
            use_tree_view: ui.process_use_tree_view,
            tree_expansion_depth: ui.process_tree_depth,
            show_only_current_user: ui.process_current_user_only,
            show_user_threads: ui.show_user_threads,
            hide_kernel_processes: !ui.show_kernel_processes,
            process_sort: ui.process_sort,
            sort_descending: ui.process_sort_descending,
            tick_nanos: (ui.refresh_rate_ms as u128) * 1000000,
        }
    }
}

/// The state once the details pane's list has been recomputed for its
/// filter: the cursor is back on the first row, the rest as it was.
pub open spec fn refiltered(m: Model) -> Model {
    let (nav, details, filtering, view, sort, tick) = m;
    match details {
        Some((_, _, filter, searching)) => (nav, Some((0nat, 0nat, filter, searching)), filtering, view, sort, tick),
        None => m,
    }
}

impl DashboardState {
    /// Recomputes the details pane's list for its filter: `filtered` becomes
    /// the resources that match, in order, and the cursor goes back to the
    /// first row. With no details pane open nothing changes.
    pub fn refilter_details(&mut self, resources: &Vec<ProcessResource>, filtered: &mut Vec<ProcessResource>)
        ensures
            final(self).model() == refiltered(old(self).model()),
            final(self).nav == old(self).nav,
            match old(self).details {
                Some(d) => final(filtered)@.map_values(|x: ProcessResource| x.record())
                    == filtered_resources(resources@, d.filter@),
                None => final(filtered)@ == old(filtered)@,
            },
    {
        match &mut self.details {
            Some(d) => {
                *filtered = update_details_filter(resources, d.filter.as_str());
                d.cursor.selected_index = 0;
                d.cursor.scroll_offset = 0;
            },
            None => {},
        }
    }
}

} // verus!

//! The orchestrator: one list state per resource view, the modal overlay
//! state, the search box, the two-key navigation chord, and the routing
//! of key and timer events to the right view. Everything that needs the
//! operating system — snapshots, process termination, service control,
//! lock searches, the clock — is handed in or handed back as plain
//! values; the decisions here are all checked.

use vstd::prelude::*;
use vstd::string::StrSliceExecFns;

use crate::handle::{lock_views, LockingProcess};
use crate::metrics;
use crate::metrics::{CpuSlot, MetricSample};
use crate::state::controller;
use crate::state::controller::ServiceInfo;
use crate::state::locker;
use crate::state::locker::ProcessInfo;
use crate::state::nexus;
use crate::state::nexus::ConnectionInfo;
use crate::text::{
    dec_str, join_lines, joined_nl, nonempty_lines, nonempty_lines_of, pop_char, push_char,
    str_to_owned,
};

verus! {

/// One event of the coordinating loop: a cadence tick, a request to poll
/// fresh data or metrics, or a snapshot arriving for one of the views.
#[derive(Debug)]
pub enum AppEvent {
    Tick,
    PollData,
    MetricsTick,
    ServiceUpdate(Vec<ServiceInfo>),
    ProcessUpdate(Vec<ProcessInfo>),
    NetworkUpdate(Vec<ConnectionInfo>),
}

/// The three resource views.
#[derive(Debug, Clone, Copy, PartialEq, Eq, Structural)]
pub enum Tab {
    Locker,
    Controller,
    Nexus,
}

/// The tab after `t`, cycling forwards.
pub open spec fn next_tab_of(t: Tab) -> Tab {
    match t {
        Tab::Locker => Tab::Controller,
        Tab::Controller => Tab::Nexus,
        Tab::Nexus => Tab::Locker,
    }
}

/// The tab before `t`, cycling backwards.
pub open spec fn prev_tab_of(t: Tab) -> Tab {
    match t {
        Tab::Locker => Tab::Nexus,
        Tab::Controller => Tab::Locker,
        Tab::Nexus => Tab::Controller,
    }
}

/// The display label of a tab.
pub open spec fn tab_label(t: Tab) -> Seq<char> {
    match t {
        Tab::Locker => "Locker"@,
        Tab::Controller => "Controller"@,
        Tab::Nexus => "Nexus"@,
    }
}

impl Tab {
    /// The display label of this tab.
    pub fn as_str(&self) -> (r: &'static str)
        ensures
            r@ == tab_label(*self),
    {
        match self {
            Tab::Locker => "Locker",
            Tab::Controller => "Controller",
            Tab::Nexus => "Nexus",
        }
    }

    /// Every tab, in display order.
    pub fn all() -> (r: Vec<Tab>)
        ensures
            r@ == seq![Tab::Locker, Tab::Controller, Tab::Nexus],
    {
        let mut r: Vec<Tab> = Vec::new();
        r.push(Tab::Locker);
        r.push(Tab::Controller);
        r.push(Tab::Nexus);
        proof {
            assert(r@ =~= seq![Tab::Locker, Tab::Controller, Tab::Nexus]);
        }
        r
    }
}

/// The modal overlay, at most one open at a time: either the kill
/// confirmation for one process, or the locking-process finder with its
/// input, results and progress.
#[derive(Debug)]
pub enum Modal {
    KillConfirmation { pid: u32, name: String },
    HandleSearch {
        input: String,
        results: Vec<LockingProcess>,
        selected: usize,
        loading: bool,
        error: Option<String>,
        is_directory: bool,
        files_scanned: Option<usize>,
    },
}

/// The three list states, one per view.
pub struct AppState {
    pub locker: locker::LockerState,
    pub controller: controller::ControllerState,
    pub nexus: nexus::NexusState,
}

impl AppState {
    /// Three fresh views.
    pub fn new() -> (r: Self)
        ensures
            r.locker.is_initial_load && r.locker.last_data_hash is None
                && r.locker.selected_pid is None && r.locker.active_filter is None
                && r.locker.processes@.len() == 0 && r.locker.sort_key == locker::SortKey::Cpu
                && r.locker.sort_order == locker::SortOrder::Descending && r.locker.cursor is None
                && r.locker.last_navigation == 0,
            r.controller.is_initial_load && r.controller.last_data_hash is None
                && r.controller.selected_service_name is None && r.controller.active_filter is None
                && r.controller.services@.len() == 0 && r.controller.sort_key
                == controller::SortKey::Status && r.controller.sort_order
                == controller::SortOrder::Ascending && r.controller.cursor is None
                && r.controller.last_navigation == 0,
            r.nexus.is_initial_load && r.nexus.last_data_hash is None
                && r.nexus.selected_connection_key is None && r.nexus.active_filter is None
                && r.nexus.connections@.len() == 0 && r.nexus.sort_key == nexus::SortKey::State
                && r.nexus.sort_order == nexus::SortOrder::Ascending && r.nexus.cursor is None
                && r.nexus.last_navigation == 0,
    {
        AppState {
            locker: locker::LockerState::new(),
            controller: controller::ControllerState::new(),
            nexus: nexus::NexusState::new(),
        }
    }
}

/// An outside call the caller is asked to carry out after a key event:
/// terminate the process the open confirmation names, start or stop a
/// service, re-fetch the current view's snapshot, or run the lock search
/// the open finder describes.
#[derive(Debug)]
pub enum AppAction {
    ConfirmKill,
    ToggleService(String, controller::ServiceStatus),
    RefreshCurrent,
    RunHandleSearch,
}

/// What one key press asks of the loop: whether to quit, and an outside
/// call to make, if any.
#[derive(Debug)]
pub struct KeyOutcome {
    pub quit: bool,
    pub action: Option<AppAction>,
}

/// A key, already freed of its terminal encoding.
#[derive(Debug, Clone, Copy, PartialEq, Eq, Structural)]
pub enum KeyCode {
    Char(char),
    Enter,
    Esc,
    Backspace,
    Up,
    Down,
    Tab,
    BackTab,
}

/// One key press with its modifiers.
#[derive(Debug, Clone, Copy, PartialEq, Eq, Structural)]
pub struct KeyPress {
    pub code: KeyCode,
    pub ctrl: bool,
    pub shift: bool,
}

/// The lock search the caller is asked to run: over every file of one
/// directory, or over a list of files.
#[derive(Debug)]
pub enum HandleSearchCall {
    Directory(String),
    Files(Vec<String>),
}

/// The dashboard state as a whole: the three views, the active tab, the
/// modal overlay, the search box and the chord flag.
pub struct App {
    pub current_tab: Tab,
    pub state: AppState,
    pub is_elevated: bool,
    pub search_mode: bool,
    pub search_query: String,
    pub status_message: Option<String>,
    pub modal: Option<Modal>,
    pub handle_search_input_mode: bool,
    pub pending_gg: bool,
    pub metrics_cache: Vec<CpuSlot>,
}

/// The orchestrator-level fields a routed view operation leaves alone.
pub open spec fn same_shell(pre: App, post: App) -> bool {
    &&& post.current_tab == pre.current_tab
    &&& post.is_elevated == pre.is_elevated
    &&& post.search_mode == pre.search_mode
    &&& post.search_query == pre.search_query
    &&& post.status_message == pre.status_message
    &&& post.modal == pre.modal
    &&& post.handle_search_input_mode == pre.handle_search_input_mode
    &&& post.pending_gg == pre.pending_gg
    &&& post.metrics_cache == pre.metrics_cache
}

/// All three views unchanged.
pub open spec fn same_states(pre: App, post: App) -> bool {
    &&& post.state.locker == pre.state.locker
    &&& post.state.controller == pre.state.controller
    &&& post.state.nexus == pre.state.nexus
}

/// The two views other than the current tab's unchanged.
pub open spec fn others_unchanged(pre: App, post: App) -> bool {
    match pre.current_tab {
        Tab::Locker => post.state.controller == pre.state.controller && post.state.nexus
            == pre.state.nexus,
        Tab::Controller => post.state.locker == pre.state.locker && post.state.nexus
            == pre.state.nexus,
        Tab::Nexus => post.state.locker == pre.state.locker && post.state.controller
            == pre.state.controller,
    }
}

/// One step down the current view.
pub open spec fn routed_select_next(pre: App, post: App, now: u64) -> bool {
    &&& others_unchanged(pre, post)
    &&& match pre.current_tab {
        Tab::Locker => locker::select_next_rel(
            pre.state.locker,
            post.state.locker,
            pre.search_query@,
            now,
        ),
        Tab::Controller => controller::select_next_rel(
            pre.state.controller,
            post.state.controller,
            pre.search_query@,
            now,
        ),
        Tab::Nexus => nexus::select_next_rel(
            pre.state.nexus,
            post.state.nexus,
            pre.search_query@,
            now,
        ),
    }}

pub open spec fn app_select_next_rel(pre: App, post: App, now: u64) -> bool {
    &&& same_shell(pre, post)
    &&& routed_select_next(pre, post, now)
}

/// One step up the current view.
pub open spec fn routed_select_prev(pre: App, post: App, now: u64) -> bool {
    &&& others_unchanged(pre, post)
    &&& match pre.current_tab {
        Tab::Locker => locker::select_prev_rel(
            pre.state.locker,
            post.state.locker,
            pre.search_query@,
            now,
        ),
        Tab::Controller => controller::select_prev_rel(
            pre.state.controller,
            post.state.controller,
            pre.search_query@,
            now,
        ),
        Tab::Nexus => nexus::select_prev_rel(
            pre.state.nexus,
            post.state.nexus,
            pre.search_query@,
            now,
        ),
    }}

pub open spec fn app_select_prev_rel(pre: App, post: App, now: u64) -> bool {
    &&& same_shell(pre, post)
    &&& routed_select_prev(pre, post, now)
}

/// A page up the current view.
pub open spec fn routed_page_up(pre: App, post: App, now: u64) -> bool {
    &&& others_unchanged(pre, post)
    &&& match pre.current_tab {
        Tab::Locker => locker::page_up_rel(
            pre.state.locker,
            post.state.locker,
            pre.search_query@,
            now,
        ),
        Tab::Controller => controller::page_up_rel(
            pre.state.controller,
            post.state.controller,
            pre.search_query@,
            now,
        ),
        Tab::Nexus => nexus::page_up_rel(pre.state.nexus, post.state.nexus, pre.search_query@, now),
    }}

pub open spec fn app_page_up_rel(pre: App, post: App, now: u64) -> bool {
    &&& same_shell(pre, post)
    &&& routed_page_up(pre, post, now)
}

/// A page down the current view.
pub open spec fn routed_page_down(pre: App, post: App, now: u64) -> bool {
    &&& others_unchanged(pre, post)
    &&& match pre.current_tab {
        Tab::Locker => locker::page_down_rel(
            pre.state.locker,
            post.state.locker,
            pre.search_query@,
            now,
        ),
        Tab::Controller => controller::page_down_rel(
            pre.state.controller,
            post.state.controller,
            pre.search_query@,
            now,
        ),
        Tab::Nexus => nexus::page_down_rel(
            pre.state.nexus,
            post.state.nexus,
            pre.search_query@,
            now,
        ),
    }}

pub open spec fn app_page_down_rel(pre: App, post: App, now: u64) -> bool {
    &&& same_shell(pre, post)
    &&& routed_page_down(pre, post, now)
}

/// A jump to the first row of the current view.
pub open spec fn routed_select_first(pre: App, post: App, now: u64) -> bool {
    &&& others_unchanged(pre, post)
    &&& match pre.current_tab {
        Tab::Locker => locker::select_first_rel(
            pre.state.locker,
            post.state.locker,
            pre.search_query@,
            now,
        ),
        Tab::Controller => controller::select_first_rel(
            pre.state.controller,
            post.state.controller,
            pre.search_query@,
            now,
        ),
        Tab::Nexus => nexus::select_first_rel(
            pre.state.nexus,
            post.state.nexus,
            pre.search_query@,
            now,
        ),
    }}

pub open spec fn app_select_first_rel(pre: App, post: App, now: u64) -> bool {
    &&& same_shell(pre, post)
    &&& routed_select_first(pre, post, now)
}

/// A jump to the last row of the current view.
pub open spec fn routed_select_last(pre: App, post: App, now: u64) -> bool {
    &&& others_unchanged(pre, post)
    &&& match pre.current_tab {
        Tab::Locker => locker::select_last_rel(
            pre.state.locker,
            post.state.locker,
            pre.search_query@,
            now,
        ),
        Tab::Controller => controller::select_last_rel(
            pre.state.controller,
            post.state.controller,
            pre.search_query@,
            now,
        ),
        Tab::Nexus => nexus::select_last_rel(
            pre.state.nexus,
            post.state.nexus,
            pre.search_query@,
            now,
        ),
    }}

pub open spec fn app_select_last_rel(pre: App, post: App, now: u64) -> bool {
    &&& same_shell(pre, post)
    &&& routed_select_last(pre, post, now)
}

/// Committing the search box as the current view's filter.
pub open spec fn app_set_filter_rel(pre: App, post: App, q: Seq<char>) -> bool {
    &&& others_unchanged(pre, post)
    &&& match pre.current_tab {
        Tab::Locker => locker::set_filter_rel(pre.state.locker, post.state.locker, q),
        Tab::Controller => controller::set_filter_rel(pre.state.controller, post.state.controller, q),
        Tab::Nexus => nexus::set_filter_rel(pre.state.nexus, post.state.nexus, q),
    }
}

/// Advancing the current view's sort key.
pub open spec fn routed_cycle_sort(pre: App, post: App) -> bool {
    &&& others_unchanged(pre, post)
    &&& match pre.current_tab {
        Tab::Locker => locker::cycle_key_rel(pre.state.locker, post.state.locker),
        Tab::Controller => controller::cycle_key_rel(pre.state.controller, post.state.controller),
        Tab::Nexus => nexus::cycle_key_rel(pre.state.nexus, post.state.nexus),
    }}

pub open spec fn app_cycle_sort_rel(pre: App, post: App) -> bool {
    &&& same_shell(pre, post)
    &&& routed_cycle_sort(pre, post)
}

/// Flipping the current view's sort order.
pub open spec fn routed_toggle_sort(pre: App, post: App) -> bool {
    &&& others_unchanged(pre, post)
    &&& match pre.current_tab {
        Tab::Locker => locker::toggle_order_rel(pre.state.locker, post.state.locker),
        Tab::Controller => controller::toggle_order_rel(pre.state.controller, post.state.controller),
        Tab::Nexus => nexus::toggle_order_rel(pre.state.nexus, post.state.nexus),
    }}

pub open spec fn app_toggle_sort_rel(pre: App, post: App) -> bool {
    &&& same_shell(pre, post)
    &&& routed_toggle_sort(pre, post)
}

/// Whether the open modal is the finder, with every field equal to the
/// given values.
pub open spec fn is_search_modal(
    m: Option<Modal>,
    input: Seq<char>,
    results: Seq<(u32, Seq<char>)>,
    selected: usize,
    loading: bool,
    error: Option<Seq<char>>,
    is_directory: bool,
    files_scanned: Option<usize>,
) -> bool {
    match m {
        Some(
            Modal::HandleSearch {
                input: i,
                results: r,
                selected: s,
                loading: l,
                error: e,
                is_directory: d,
                files_scanned: f,
            },
        ) => {
            &&& i@ == input
            &&& lock_views(r@) == results
            &&& s == selected
            &&& l == loading
            &&& crate::text::opt_str_view(e) == error
            &&& d == is_directory
            &&& f == files_scanned
        },
        _ => false,
    }
}

/// The finder modal's fields, shorn of strings, when it is open.
pub open spec fn search_modal_view(m: Option<Modal>) -> Option<
    (Seq<char>, Seq<(u32, Seq<char>)>, usize, bool, Option<Seq<char>>, bool, Option<usize>),
> {
    match m {
        Some(
            Modal::HandleSearch {
                input: i,
                results: r,
                selected: s,
                loading: l,
                error: e,
                is_directory: d,
                files_scanned: f,
            },
        ) => Some((i@, lock_views(r@), s, l, crate::text::opt_str_view(e), d, f)),
        _ => None,
    }
}

/// The kill confirmation's target, when it is open.
pub open spec fn kill_modal_view(m: Option<Modal>) -> Option<(u32, Seq<char>)> {
    match m {
        Some(Modal::KillConfirmation { pid, name }) => Some((pid, name@)),
        _ => None,
    }
}

/// The orchestrator-level fields a modal operation leaves alone.
pub open spec fn same_shell_but_modal(pre: App, post: App) -> bool {
    &&& post.current_tab == pre.current_tab
    &&& post.is_elevated == pre.is_elevated
    &&& post.search_mode == pre.search_mode
    &&& post.search_query == pre.search_query
    &&& post.status_message == pre.status_message
    &&& post.handle_search_input_mode == pre.handle_search_input_mode
    &&& post.pending_gg == pre.pending_gg
    &&& post.metrics_cache == pre.metrics_cache
}

/// The finder's selection moved one row down, wrapping; anything else
/// untouched.
pub open spec fn search_sel_next(m1: Option<Modal>, m2: Option<Modal>) -> bool {
    match search_modal_view(m1) {
        Some(v) => {
            let ns = if v.1.len() == 0 {
                v.2 as int
            } else {
                ((v.2 as int) + 1) % (v.1.len() as int)
            };
            search_modal_view(m2) == Some((v.0, v.1, ns as usize, v.3, v.4, v.5, v.6))
        },
        None => m2 == m1,
    }
}

/// The finder's selection moved one row up, wrapping.
pub open spec fn search_sel_prev(m1: Option<Modal>, m2: Option<Modal>) -> bool {
    match search_modal_view(m1) {
        Some(v) => {
            let ns = if v.1.len() == 0 {
                v.2 as int
            } else {
                ((v.2 as int) + (v.1.len() as int) - 1) % (v.1.len() as int)
            };
            search_modal_view(m2) == Some((v.0, v.1, ns as usize, v.3, v.4, v.5, v.6))
        },
        None => m2 == m1,
    }
}

/// The finder's selection jumped to the first result.
pub open spec fn search_sel_first(m1: Option<Modal>, m2: Option<Modal>) -> bool {
    match search_modal_view(m1) {
        Some(v) => {
            let ns = if v.1.len() == 0 {
                v.2
            } else {
                0usize
            };
            search_modal_view(m2) == Some((v.0, v.1, ns, v.3, v.4, v.5, v.6))
        },
        None => m2 == m1,
    }
}

/// The finder's selection jumped to the last result.
pub open spec fn search_sel_last(m1: Option<Modal>, m2: Option<Modal>) -> bool {
    match search_modal_view(m1) {
        Some(v) => {
            let ns = if v.1.len() == 0 {
                v.2 as int
            } else {
                v.1.len() - 1
            };
            search_modal_view(m2) == Some((v.0, v.1, ns as usize, v.3, v.4, v.5, v.6))
        },
        None => m2 == m1,
    }
}

/// A character appended to the finder's input.
pub open spec fn search_input_pushed(m1: Option<Modal>, m2: Option<Modal>, c: char) -> bool {
    match search_modal_view(m1) {
        Some(v) => search_modal_view(m2) == Some((v.0.push(c), v.1, v.2, v.3, v.4, v.5, v.6)),
        None => m2 == m1,
    }
}

/// The last character removed from the finder's input, if it has one.
pub open spec fn search_input_popped(m1: Option<Modal>, m2: Option<Modal>) -> bool {
    match search_modal_view(m1) {
        Some(v) => {
            let ni = if v.0.len() == 0 {
                v.0
            } else {
                v.0.drop_last()
            };
            search_modal_view(m2) == Some((ni, v.1, v.2, v.3, v.4, v.5, v.6))
        },
        None => m2 == m1,
    }
}

/// The selected finder result promoted to a kill confirmation.
pub open spec fn search_kill_pick(m1: Option<Modal>, m2: Option<Modal>) -> bool {
    match search_modal_view(m1) {
        Some(v) => if (v.2 as int) < v.1.len() {
            kill_modal_view(m2) == Some(v.1[v.2 as int])
        } else {
            m2 == m1
        },
        None => m2 == m1,
    }
}

impl App {
    /// A fresh dashboard: process view in front, no overlay, no search,
    /// not elevated until told otherwise.
    pub fn new() -> (r: Self)
        ensures
            r.current_tab == Tab::Locker,
            r.is_elevated == false,
            r.search_mode == false,
            r.search_query@ == Seq::<char>::empty(),
            r.status_message is None,
            r.modal is None,
            r.handle_search_input_mode == false,
            r.pending_gg == false,
            r.metrics_cache@ == Seq::<CpuSlot>::empty(),
            r.state.locker.is_initial_load && r.state.locker.last_data_hash is None
                && r.state.locker.selected_pid is None && r.state.locker.active_filter is None
                && r.state.locker.processes@.len() == 0 && r.state.locker.cursor is None,
            r.state.controller.is_initial_load && r.state.controller.last_data_hash is None,
            r.state.nexus.is_initial_load && r.state.nexus.last_data_hash is None,
    {
        App {
            current_tab: Tab::Locker,
            state: AppState::new(),
            is_elevated: false,
            search_mode: false,
            search_query: String::new(),
            status_message: None,
            modal: None,
            handle_search_input_mode: false,
            pending_gg: false,
            metrics_cache: Vec::new(),
        }
    }

    /// Records whether the process runs elevated; without elevation a
    /// standing notice says some actions are unavailable.
    pub fn check_elevation(&mut self, elevated: bool)
        ensures
            same_states(*old(self), *final(self)),
            final(self).is_elevated == elevated,
            elevated ==> final(self).status_message == old(self).status_message,
            !elevated ==> crate::text::opt_str_view(final(self).status_message) == Some(
                "Running without admin - some actions unavailable"@,
            ),
            final(self).current_tab == old(self).current_tab,
            final(self).search_mode == old(self).search_mode,
            final(self).search_query == old(self).search_query,
            final(self).modal == old(self).modal,
            final(self).handle_search_input_mode == old(self).handle_search_input_mode,
            final(self).pending_gg == old(self).pending_gg,
            final(self).metrics_cache == old(self).metrics_cache,
    {
        self.is_elevated = elevated;
        if !elevated {
            self.status_message = Some(
                str_to_owned("Running without admin - some actions unavailable"),
            );
        }
    }

    /// Brings the next tab to the front.
    pub fn next_tab(&mut self)
        ensures
            same_states(*old(self), *final(self)),
            final(self).current_tab == next_tab_of(old(self).current_tab),
            final(self).is_elevated == old(self).is_elevated,
            final(self).search_mode == old(self).search_mode,
            final(self).search_query == old(self).search_query,
            final(self).status_message == old(self).status_message,
            final(self).modal == old(self).modal,
            final(self).handle_search_input_mode == old(self).handle_search_input_mode,
            final(self).pending_gg == old(self).pending_gg,
            final(self).metrics_cache == old(self).metrics_cache,
    {
        self.current_tab = match self.current_tab {
            Tab::Locker => Tab::Controller,
            Tab::Controller => Tab::Nexus,
            Tab::Nexus => Tab::Locker,
        };
    }

    /// Brings the previous tab to the front.
    pub fn prev_tab(&mut self)
        ensures
            same_states(*old(self), *final(self)),
            final(self).current_tab == prev_tab_of(old(self).current_tab),
            final(self).is_elevated == old(self).is_elevated,
            final(self).search_mode == old(self).search_mode,
            final(self).search_query == old(self).search_query,
            final(self).status_message == old(self).status_message,
            final(self).modal == old(self).modal,
            final(self).handle_search_input_mode == old(self).handle_search_input_mode,
            final(self).pending_gg == old(self).pending_gg,
            final(self).metrics_cache == old(self).metrics_cache,
    {
        self.current_tab = match self.current_tab {
            Tab::Locker => Tab::Nexus,
            Tab::Controller => Tab::Locker,
            Tab::Nexus => Tab::Controller,
        };
    }

    /// One step down the current view, through the live search text.
    pub fn select_next(&mut self, now_ms: u64)
        ensures
            app_select_next_rel(*old(self), *final(self), now_ms),
    {
        match self.current_tab {
            Tab::Locker => self.state.locker.select_next(self_str(&self.search_query), now_ms),
            Tab::Controller => self.state.controller.select_next(
                self_str(&self.search_query),
                now_ms,
            ),
            Tab::Nexus => self.state.nexus.select_next(self_str(&self.search_query), now_ms),
        }
    }

    /// One step up the current view.
    pub fn select_prev(&mut self, now_ms: u64)
        ensures
            app_select_prev_rel(*old(self), *final(self), now_ms),
    {
        match self.current_tab {
            Tab::Locker => self.state.locker.select_prev(self_str(&self.search_query), now_ms),
            Tab::Controller => self.state.controller.select_prev(
                self_str(&self.search_query),
                now_ms,
            ),
            Tab::Nexus => self.state.nexus.select_prev(self_str(&self.search_query), now_ms),
        }
    }

    /// A page up the current view.
    pub fn select_page_up(&mut self, now_ms: u64)
        ensures
            app_page_up_rel(*old(self), *final(self), now_ms),
    {
        match self.current_tab {
            Tab::Locker => self.state.locker.select_page_up(self_str(&self.search_query), now_ms),
            Tab::Controller => self.state.controller.select_page_up(
                self_str(&self.search_query),
                now_ms,
            ),
            Tab::Nexus => self.state.nexus.select_page_up(self_str(&self.search_query), now_ms),
        }
    }

    /// A page down the current view.
    pub fn select_page_down(&mut self, now_ms: u64)
        ensures
            app_page_down_rel(*old(self), *final(self), now_ms),
    {
        match self.current_tab {
            Tab::Locker => self.state.locker.select_page_down(
                self_str(&self.search_query),
                now_ms,
            ),
            Tab::Controller => self.state.controller.select_page_down(
                self_str(&self.search_query),
                now_ms,
            ),
            Tab::Nexus => self.state.nexus.select_page_down(self_str(&self.search_query), now_ms),
        }
    }

    /// A jump to the first row of the current view.
    pub fn select_first(&mut self, now_ms: u64)
        ensures
            app_select_first_rel(*old(self), *final(self), now_ms),
    {
        match self.current_tab {
            Tab::Locker => self.state.locker.select_first(self_str(&self.search_query), now_ms),
            Tab::Controller => self.state.controller.select_first(
                self_str(&self.search_query),
                now_ms,
            ),
            Tab::Nexus => self.state.nexus.select_first(self_str(&self.search_query), now_ms),
        }
    }

    /// A jump to the last row of the current view.
    pub fn select_last(&mut self, now_ms: u64)
        ensures
            app_select_last_rel(*old(self), *final(self), now_ms),
    {
        match self.current_tab {
            Tab::Locker => self.state.locker.select_last(self_str(&self.search_query), now_ms),
            Tab::Controller => self.state.controller.select_last(
                self_str(&self.search_query),
                now_ms,
            ),
            Tab::Nexus => self.state.nexus.select_last(self_str(&self.search_query), now_ms),
        }
    }

    /// The start-or-stop request for the selected service, when the
    /// service view is in front and the process runs elevated; the caller
    /// carries it out.
    pub fn on_enter(&mut self) -> (r: Option<(String, controller::ServiceStatus)>)
        ensures
            *final(self) == *old(self),
            old(self).current_tab == Tab::Controller && old(self).is_elevated ==> match controller::selected_of(
                old(self).state.controller,
                old(self).search_query@,
            ) {
                Some(svc) => r matches Some(t) && t.0@ == svc.service_name@ && t.1 == svc.status,
                None => r is None,
            },
            !(old(self).current_tab == Tab::Controller && old(self).is_elevated) ==> r is None,
    {
        match self.current_tab {
            Tab::Controller => {
                if self.is_elevated {
                    let q = self.search_query.clone();
                    self.state.controller.toggle_selected_service(self_str(&q))
                } else {
                    None
                }
            },
            _ => None,
        }
    }

    /// Opens the search box with empty contents; keys now type into it.
    pub fn enter_search_mode(&mut self)
        ensures
            same_states(*old(self), *final(self)),
            final(self).search_mode == true,
            final(self).search_query@ == Seq::<char>::empty(),
            final(self).current_tab == old(self).current_tab,
            final(self).is_elevated == old(self).is_elevated,
            final(self).status_message == old(self).status_message,
            final(self).modal == old(self).modal,
            final(self).handle_search_input_mode == old(self).handle_search_input_mode,
            final(self).pending_gg == old(self).pending_gg,
            final(self).metrics_cache == old(self).metrics_cache,
    {
        self.search_mode = true;
        self.search_query = String::new();
    }

    /// Closes the search box, committing its text as the current view's
    /// filter.
    pub fn exit_search_mode(&mut self)
        ensures
            app_set_filter_rel(*old(self), *final(self), old(self).search_query@),
            final(self).search_mode == false,
            final(self).search_query@ == Seq::<char>::empty(),
            final(self).current_tab == old(self).current_tab,
            final(self).is_elevated == old(self).is_elevated,
            final(self).status_message == old(self).status_message,
            final(self).modal == old(self).modal,
            final(self).handle_search_input_mode == old(self).handle_search_input_mode,
            final(self).pending_gg == old(self).pending_gg,
            final(self).metrics_cache == old(self).metrics_cache,
    {
        let query = self.search_query.clone();
        match self.current_tab {
            Tab::Locker => self.state.locker.set_filter(query),
            Tab::Controller => self.state.controller.set_filter(query),
            Tab::Nexus => self.state.nexus.set_filter(query),
        }
        self.search_mode = false;
        self.search_query = String::new();
    }

    /// Drops the current view's committed filter.
    pub fn clear_current_filter(&mut self)
        ensures
            app_set_filter_rel(*old(self), *final(self), Seq::<char>::empty()),
            same_shell(*old(self), *final(self)),
    {
        match self.current_tab {
            Tab::Locker => self.state.locker.clear_filter(),
            Tab::Controller => self.state.controller.clear_filter(),
            Tab::Nexus => self.state.nexus.clear_filter(),
        }
    }

    /// Whether the current view has a committed filter.
    pub fn has_active_filter(&self) -> (r: bool)
        ensures
            r == match self.current_tab {
                Tab::Locker => self.state.locker.active_filter is Some,
                Tab::Controller => self.state.controller.active_filter is Some,
                Tab::Nexus => self.state.nexus.active_filter is Some,
            },
    {
        match self.current_tab {
            Tab::Locker => self.state.locker.active_filter.is_some(),
            Tab::Controller => self.state.controller.active_filter.is_some(),
            Tab::Nexus => self.state.nexus.active_filter.is_some(),
        }
    }

    /// Types one character into the search box.
    pub fn handle_search_char(&mut self, c: char)
        ensures
            same_states(*old(self), *final(self)),
            final(self).search_query@ == old(self).search_query@.push(c),
            final(self).current_tab == old(self).current_tab,
            final(self).is_elevated == old(self).is_elevated,
            final(self).search_mode == old(self).search_mode,
            final(self).status_message == old(self).status_message,
            final(self).modal == old(self).modal,
            final(self).handle_search_input_mode == old(self).handle_search_input_mode,
            final(self).pending_gg == old(self).pending_gg,
            final(self).metrics_cache == old(self).metrics_cache,
    {
        push_char(&mut self.search_query, c);
    }

    /// Deletes the last character of the search box, if any.
    pub fn handle_search_backspace(&mut self)
        ensures
            same_states(*old(self), *final(self)),
            final(self).search_query@ == (if old(self).search_query@.len() == 0 {
                old(self).search_query@
            } else {
                old(self).search_query@.drop_last()
            }),
            final(self).current_tab == old(self).current_tab,
            final(self).is_elevated == old(self).is_elevated,
            final(self).search_mode == old(self).search_mode,
            final(self).status_message == old(self).status_message,
            final(self).modal == old(self).modal,
            final(self).handle_search_input_mode == old(self).handle_search_input_mode,
            final(self).pending_gg == old(self).pending_gg,
            final(self).metrics_cache == old(self).metrics_cache,
    {
        let popped = pop_char(&mut self.search_query);
    }

    /// Opens the kill confirmation for the selected process, when the
    /// process view is in front and a row is selected.
    pub fn show_kill_confirmation(&mut self)
        ensures
            same_states(*old(self), *final(self)),
            same_shell_but_modal(*old(self), *final(self)),
            old(self).current_tab == Tab::Locker ==> match locker::selected_of(
                old(self).state.locker,
                old(self).search_query@,
            ) {
                Some(p) => kill_modal_view(final(self).modal) == Some((p.pid, p.name@)),
                None => final(self).modal == old(self).modal,
            },
            old(self).current_tab != Tab::Locker ==> final(self).modal == old(self).modal,
    {
        if !matches!(self.current_tab, Tab::Locker) {
            return ;
        }
        let target = {
            let sel = self.state.locker.get_selected_process(self_str(&self.search_query));
            match sel {
                Some(p) => Some((p.pid, p.name.clone())),
                None => None,
            }
        };
        match target {
            Some(t) => {
                self.modal = Some(Modal::KillConfirmation { pid: t.0, name: t.1 });
            },
            None => {},
        }
    }

    /// Closes the kill confirmation after the caller attempted the
    /// termination: a success leaves a short notice with the pid, a
    /// failure leaves the caller's error text. With no confirmation open
    /// only the overlay is closed.
    pub fn confirm_kill(&mut self, error: Option<String>)
        ensures
            same_states(*old(self), *final(self)),
            final(self).modal is None,
            match kill_modal_view(old(self).modal) {
                Some(t) => crate::text::opt_str_view(final(self).status_message) == Some(
                    match crate::text::opt_str_view(error) {
                        None => "Process "@ + dec_str(t.0 as nat) + " killed"@,
                        Some(e) => "Failed to kill process: "@ + e,
                    },
                ),
                None => final(self).status_message == old(self).status_message,
            },
            final(self).current_tab == old(self).current_tab,
            final(self).is_elevated == old(self).is_elevated,
            final(self).search_mode == old(self).search_mode,
            final(self).search_query == old(self).search_query,
            final(self).handle_search_input_mode == old(self).handle_search_input_mode,
            final(self).pending_gg == old(self).pending_gg,
            final(self).metrics_cache == old(self).metrics_cache,
    {
        let pid_opt = match &self.modal {
            Some(Modal::KillConfirmation { pid, .. }) => Some(*pid),
            _ => None,
        };
        match pid_opt {
            Some(pid) => {
                let msg = match error {
                    None => {
                        let mut s = str_to_owned("Process ");
                        let digits = crate::text::u32_to_decimal(pid);
                        s.append(digits.as_str());
                        s.append(" killed");
                        s
                    },
                    Some(e) => {
                        let mut s = str_to_owned("Failed to kill process: ");
                        s.append(e.as_str());
                        s
                    },
                };
                self.status_message = Some(msg);
            },
            None => {},
        }
        self.modal = None;
    }

    /// Closes whatever overlay is open.
    pub fn cancel_modal(&mut self)
        ensures
            same_states(*old(self), *final(self)),
            same_shell_but_modal(*old(self), *final(self)),
            final(self).modal is None,
    {
        self.modal = None;
    }

    /// Opens the locking-process finder, empty and idle.
    pub fn open_handle_search(&mut self)
        ensures
            same_states(*old(self), *final(self)),
            is_search_modal(
                final(self).modal,
                Seq::<char>::empty(),
                Seq::<(u32, Seq<char>)>::empty(),
                0,
                false,
                None,
                false,
                None,
            ),
            final(self).handle_search_input_mode == false,
            final(self).current_tab == old(self).current_tab,
            final(self).is_elevated == old(self).is_elevated,
            final(self).search_mode == old(self).search_mode,
            final(self).search_query == old(self).search_query,
            final(self).status_message == old(self).status_message,
            final(self).pending_gg == old(self).pending_gg,
            final(self).metrics_cache == old(self).metrics_cache,
    {
        let results: Vec<LockingProcess> = Vec::new();
        proof {
            assert(lock_views(results@) =~= Seq::<(u32, Seq<char>)>::empty());
        }
        self.modal = Some(
            Modal::HandleSearch {
                input: String::new(),
                results,
                selected: 0,
                loading: false,
                error: None,
                is_directory: false,
                files_scanned: None,
            },
        );
        self.handle_search_input_mode = false;
    }

    /// Keys now type into the finder's path box.
    pub fn enter_handle_search_input_mode(&mut self)
        ensures
            same_states(*old(self), *final(self)),
            final(self).handle_search_input_mode == true,
            final(self).current_tab == old(self).current_tab,
            final(self).is_elevated == old(self).is_elevated,
            final(self).search_mode == old(self).search_mode,
            final(self).search_query == old(self).search_query,
            final(self).status_message == old(self).status_message,
            final(self).modal == old(self).modal,
            final(self).pending_gg == old(self).pending_gg,
            final(self).metrics_cache == old(self).metrics_cache,
    {
        self.handle_search_input_mode = true;
    }

    /// Keys stop typing into the finder's path box.
    pub fn exit_handle_search_input_mode(&mut self)
        ensures
            same_states(*old(self), *final(self)),
            final(self).handle_search_input_mode == false,
            final(self).current_tab == old(self).current_tab,
            final(self).is_elevated == old(self).is_elevated,
            final(self).search_mode == old(self).search_mode,
            final(self).search_query == old(self).search_query,
            final(self).status_message == old(self).status_message,
            final(self).modal == old(self).modal,
            final(self).pending_gg == old(self).pending_gg,
            final(self).metrics_cache == old(self).metrics_cache,
    {
        self.handle_search_input_mode = false;
    }

    /// Types one character into the finder's path box.
    pub fn handle_search_modal_char(&mut self, c: char)
        ensures
            same_states(*old(self), *final(self)),
            same_shell_but_modal(*old(self), *final(self)),
            search_input_pushed(old(self).modal, final(self).modal, c),
    {
        if let Some(Modal::HandleSearch { input, .. }) = &mut self.modal {
            push_char(input, c);
        }
    }

    /// Deletes the last character of the finder's path box, if any.
    pub fn handle_search_modal_backspace(&mut self)
        ensures
            same_states(*old(self), *final(self)),
            same_shell_but_modal(*old(self), *final(self)),
            search_input_popped(old(self).modal, final(self).modal),
    {
        if let Some(Modal::HandleSearch { input, .. }) = &mut self.modal {
            let popped = pop_char(input);
        }
    }

    /// Moves the finder's selection one result down, wrapping.
    pub fn handle_search_modal_select_next(&mut self)
        ensures
            same_states(*old(self), *final(self)),
            same_shell_but_modal(*old(self), *final(self)),
            search_sel_next(old(self).modal, final(self).modal),
    {
        if let Some(Modal::HandleSearch { results, selected, .. }) = &mut self.modal {
            if results.len() > 0 {
                *selected = crate::nav::wrap_next(*selected, results.len());
            }
        }
    }

    /// Moves the finder's selection one result up, wrapping.
    pub fn handle_search_modal_select_prev(&mut self)
        ensures
            same_states(*old(self), *final(self)),
            same_shell_but_modal(*old(self), *final(self)),
            search_sel_prev(old(self).modal, final(self).modal),
    {
        if let Some(Modal::HandleSearch { results, selected, .. }) = &mut self.modal {
            if results.len() > 0 {
                *selected = crate::nav::wrap_prev(*selected, results.len());
            }
        }
    }

    /// Jumps the finder's selection to the first result.
    pub fn handle_search_modal_select_first(&mut self)
        ensures
            same_states(*old(self), *final(self)),
            same_shell_but_modal(*old(self), *final(self)),
            search_sel_first(old(self).modal, final(self).modal),
    {
        if let Some(Modal::HandleSearch { results, selected, .. }) = &mut self.modal {
            if results.len() > 0 {
                *selected = 0;
            }
        }
    }

    /// Jumps the finder's selection to the last result.
    pub fn handle_search_modal_select_last(&mut self)
        ensures
            same_states(*old(self), *final(self)),
            same_shell_but_modal(*old(self), *final(self)),
            search_sel_last(old(self).modal, final(self).modal),
    {
        if let Some(Modal::HandleSearch { results, selected, .. }) = &mut self.modal {
            if results.len() > 0 {
                *selected = results.len() - 1;
            }
        }
    }

    /// Promotes the selected finder result to a kill confirmation.
    pub fn kill_selected_locking_process(&mut self)
        ensures
            same_states(*old(self), *final(self)),
            same_shell_but_modal(*old(self), *final(self)),
            search_kill_pick(old(self).modal, final(self).modal),
    {
        let target = match &self.modal {
            Some(Modal::HandleSearch { results, selected, .. }) => {
                if *selected < results.len() {
                    Some((results[*selected].pid, results[*selected].name.clone()))
                } else {
                    None
                }
            },
            _ => None,
        };
        match target {
            Some(t) => {
                self.modal = Some(Modal::KillConfirmation { pid: t.0, name: t.1 });
            },
            None => {},
        }
    }

    /// The paths typed into the finder, one per non-empty line.
    pub fn handle_search_paths(&self) -> (r: Vec<String>)
        ensures
            match search_modal_view(self.modal) {
                Some(v) => r@.map_values(|l: String| l@) == nonempty_lines_of(v.0),
                None => r@.len() == 0,
            },
    {
        match &self.modal {
            Some(Modal::HandleSearch { input, .. }) => nonempty_lines(self_str(input)),
            _ => Vec::new(),
        }
    }

    /// Starts the lock search the finder describes: parses the typed
    /// paths, complains when there are none, else puts the finder into
    /// its loading shape and returns the call for the caller to run —
    /// over one directory when the first path is one, else over the
    /// files. The caller reports the outcome to `finish_handle_search`.
    pub fn execute_handle_search(&mut self, first_is_dir: bool) -> (r: Option<HandleSearchCall>)
        ensures
            same_states(*old(self), *final(self)),
            same_shell_but_modal(*old(self), *final(self)),
            match search_modal_view(old(self).modal) {
                None => final(self).modal == old(self).modal && r is None,
                Some(v) => {
                    let ls = nonempty_lines_of(v.0);
                    if ls.len() == 0 {
                        &&& r is None
                        &&& search_modal_view(final(self).modal) == Some(
                            (v.0, v.1, v.2, v.3, Some("Enter file path(s)"@), v.5, v.6),
                        )
                    } else {
                        &&& is_search_modal(
                            final(self).modal,
                            joined_nl(ls, ls.len() as int),
                            Seq::<(u32, Seq<char>)>::empty(),
                            0,
                            true,
                            None,
                            first_is_dir,
                            None,
                        )
                        &&& match r {
                            Some(HandleSearchCall::Directory(d)) => first_is_dir && d@ == ls[0],
                            Some(HandleSearchCall::Files(fs)) => !first_is_dir && fs@.map_values(
                                |l: String| l@,
                            ) == ls,
                            None => false,
                        }
                    }
                },
            },
    {
        let is_open = matches!(&self.modal, Some(Modal::HandleSearch { .. }));
        if !is_open {
            return None;
        }
        let lines = self.handle_search_paths();
        if lines.len() == 0 {
            if let Some(Modal::HandleSearch { error, .. }) = &mut self.modal {
                *error = Some(str_to_owned("Enter file path(s)"));
            }
            return None;
        }
        let joined = join_lines(&lines);
        let results: Vec<LockingProcess> = Vec::new();
        proof {
            assert(lock_views(results@) =~= Seq::<(u32, Seq<char>)>::empty());
        }
        self.modal = Some(
            Modal::HandleSearch {
                input: joined,
                results,
                selected: 0,
                loading: true,
                error: None,
                is_directory: first_is_dir,
                files_scanned: None,
            },
        );
        if first_is_dir {
            let first = lines[0].clone();
            Some(HandleSearchCall::Directory(first))
        } else {
            Some(HandleSearchCall::Files(lines))
        }
    }

    /// Takes the outcome of a lock search into the finder: the collated
    /// results with the count of files scanned, or the error text. With
    /// no finder open nothing changes.
    pub fn finish_handle_search(
        &mut self,
        outcome: Result<(Vec<LockingProcess>, Option<usize>), String>,
    )
        ensures
            same_states(*old(self), *final(self)),
            same_shell_but_modal(*old(self), *final(self)),
            match search_modal_view(old(self).modal) {
                None => final(self).modal == old(self).modal,
                Some(v) => match outcome {
                    Ok(ok) => is_search_modal(
                        final(self).modal,
                        v.0,
                        lock_views(ok.0@),
                        0,
                        false,
                        None,
                        v.5,
                        ok.1,
                    ),
                    Err(e) => is_search_modal(
                        final(self).modal,
                        v.0,
                        Seq::<(u32, Seq<char>)>::empty(),
                        0,
                        false,
                        Some(e@),
                        false,
                        None,
                    ),
                },
            },
    {
        let parts = match &self.modal {
            Some(Modal::HandleSearch { input, is_directory, .. }) => Some(
                (input.clone(), *is_directory),
            ),
            _ => None,
        };
        match parts {
            Some(p) => {
                match outcome {
                    Ok(ok) => {
                        self.modal = Some(
                            Modal::HandleSearch {
                                input: p.0,
                                results: ok.0,
                                selected: 0,
                                loading: false,
                                error: None,
                                is_directory: p.1,
                                files_scanned: ok.1,
                            },
                        );
                    },
                    Err(e) => {
                        let results: Vec<LockingProcess> = Vec::new();
                        proof {
                            assert(lock_views(results@) =~= Seq::<(u32, Seq<char>)>::empty());
                        }
                        self.modal = Some(
                            Modal::HandleSearch {
                                input: p.0,
                                results,
                                selected: 0,
                                loading: false,
                                error: Some(e),
                                is_directory: false,
                                files_scanned: None,
                            },
                        );
                    },
                }
            },
            None => {},
        }
    }

    /// Routes a loop event: a snapshot event feeds the matching view and
    /// says whether it was accepted; the cadence events ask for outside
    /// work and change nothing here.
    pub fn handle_event(&mut self, event: AppEvent, now_ms: u64) -> (accepted: bool)
        ensures
            same_shell(*old(self), *final(self)),
            match event {
                AppEvent::ProcessUpdate(ps) => locker::update_rel(
                    old(self).state.locker,
                    final(self).state.locker,
                    ps@,
                    now_ms,
                    accepted,
                ) && final(self).state.controller == old(self).state.controller && final(self).state.nexus == old(self).state.nexus,
                AppEvent::ServiceUpdate(ss) => controller::update_rel(
                    old(self).state.controller,
                    final(self).state.controller,
                    ss@,
                    now_ms,
                    accepted,
                ) && final(self).state.locker == old(self).state.locker && final(self).state.nexus
                    == old(self).state.nexus,
                AppEvent::NetworkUpdate(cs) => nexus::update_rel(
                    old(self).state.nexus,
                    final(self).state.nexus,
                    cs@,
                    now_ms,
                    accepted,
                ) && final(self).state.locker == old(self).state.locker && final(self).state.controller == old(self).state.controller,
                _ => same_states(*old(self), *final(self)) && !accepted,
            },
    {
        match event {
            AppEvent::ProcessUpdate(ps) => self.state.locker.update_processes(ps, now_ms),
            AppEvent::ServiceUpdate(ss) => self.state.controller.update_services(ss, now_ms),
            AppEvent::NetworkUpdate(cs) => self.state.nexus.update_connections(cs, now_ms),
            _ => false,
        }
    }

    /// One metrics pass over the process rows, from the caller's raw
    /// samples; the CPU-time cache is refreshed and pruned alongside.
    pub fn update_metrics(&mut self, samples: &Vec<MetricSample>, now_ms: u64, num_cpus: u32)
        ensures
            final(self).state.controller == old(self).state.controller,
            final(self).state.nexus == old(self).state.nexus,
            final(self).state.locker.processes@.len() == old(self).state.locker.processes@.len(),
            forall|i: int|
                0 <= i < old(self).state.locker.processes@.len() ==> metrics::metric_row_rel(
                    old(self).state.locker.processes@[i],
                    (#[trigger] final(self).state.locker.processes@[i]),
                    samples@,
                    old(self).metrics_cache@,
                    now_ms,
                    num_cpus,
                ),
            final(self).metrics_cache@ == metrics::refreshed_cache(
                old(self).state.locker.processes@,
                samples@,
                now_ms,
                old(self).state.locker.processes@.len() as int,
            ),
            final(self).state.locker.cursor == old(self).state.locker.cursor,
            final(self).state.locker.active_filter == old(self).state.locker.active_filter,
            final(self).state.locker.selected_pid == old(self).state.locker.selected_pid,
            final(self).state.locker.last_navigation == old(self).state.locker.last_navigation,
            final(self).state.locker.sort_key == old(self).state.locker.sort_key,
            final(self).state.locker.sort_order == old(self).state.locker.sort_order,
            final(self).state.locker.last_data_hash == old(self).state.locker.last_data_hash,
            final(self).state.locker.is_initial_load == old(self).state.locker.is_initial_load,
            final(self).current_tab == old(self).current_tab,
            final(self).is_elevated == old(self).is_elevated,
            final(self).search_mode == old(self).search_mode,
            final(self).search_query == old(self).search_query,
            final(self).status_message == old(self).status_message,
            final(self).modal == old(self).modal,
            final(self).handle_search_input_mode == old(self).handle_search_input_mode,
            final(self).pending_gg == old(self).pending_gg,
    {
        metrics::apply_metric_samples(
            &mut self.state.locker.processes,
            &mut self.metrics_cache,
            samples,
            now_ms,
            num_cpus,
        );
    }

    /// Advances the current view's sort key.
    pub fn cycle_sort_key(&mut self)
        ensures
            app_cycle_sort_rel(*old(self), *final(self)),
    {
        match self.current_tab {
            Tab::Locker => self.state.locker.cycle_sort_key(),
            Tab::Controller => self.state.controller.cycle_sort_key(),
            Tab::Nexus => self.state.nexus.cycle_sort_key(),
        }
    }

    /// Flips the current view's sort order.
    pub fn toggle_sort_order(&mut self)
        ensures
            app_toggle_sort_rel(*old(self), *final(self)),
    {
        match self.current_tab {
            Tab::Locker => self.state.locker.toggle_sort_order(),
            Tab::Controller => self.state.controller.toggle_sort_order(),
            Tab::Nexus => self.state.nexus.toggle_sort_order(),
        }
    }
}

/// `String::as_str` under a local name, so call sites stay terse.
fn self_str(s: &String) -> (r: &str)
    ensures
        r@ == s@,
{
    s.as_str()
}

/// Nothing changed at all.
pub open spec fn unchanged_app(pre: App, post: App) -> bool {
    same_states(pre, post) && same_shell(pre, post)
}

/// Only the chord flag dropped.
pub open spec fn disarmed_only(pre: App, post: App) -> bool {
    &&& same_states(pre, post)
    &&& post.current_tab == pre.current_tab
    &&& post.is_elevated == pre.is_elevated
    &&& post.search_mode == pre.search_mode
    &&& post.search_query == pre.search_query
    &&& post.status_message == pre.status_message
    &&& post.modal == pre.modal
    &&& post.handle_search_input_mode == pre.handle_search_input_mode
    &&& post.pending_gg == false
    &&& post.metrics_cache == pre.metrics_cache
}

/// Only the chord flag raised.
pub open spec fn armed_only(pre: App, post: App) -> bool {
    &&& same_states(pre, post)
    &&& post.current_tab == pre.current_tab
    &&& post.is_elevated == pre.is_elevated
    &&& post.search_mode == pre.search_mode
    &&& post.search_query == pre.search_query
    &&& post.status_message == pre.status_message
    &&& post.modal == pre.modal
    &&& post.handle_search_input_mode == pre.handle_search_input_mode
    &&& post.pending_gg == true
    &&& post.metrics_cache == pre.metrics_cache
}

/// The shell fields no key press touches.
pub open spec fn key_shell_frame(pre: App, post: App) -> bool {
    &&& post.is_elevated == pre.is_elevated
    &&& post.status_message == pre.status_message
    &&& post.metrics_cache == pre.metrics_cache
}

/// A navigation key's shell: only the chord flag moves, and it drops.
pub open spec fn nav_shell_disarmed(pre: App, post: App) -> bool {
    &&& post.current_tab == pre.current_tab
    &&& post.is_elevated == pre.is_elevated
    &&& post.search_mode == pre.search_mode
    &&& post.search_query == pre.search_query
    &&& post.status_message == pre.status_message
    &&& post.modal == pre.modal
    &&& post.handle_search_input_mode == pre.handle_search_input_mode
    &&& post.pending_gg == false
    &&& post.metrics_cache == pre.metrics_cache
}

/// The kill confirmation's keymap: yes asks for the termination, no and
/// escape close the overlay, anything else is ignored.
pub open spec fn kill_modal_key_rel(pre: App, post: App, key: KeyPress, r: KeyOutcome) -> bool {
    &&& r.quit == false
    &&& match key.code {
        KeyCode::Char(c) => if c == 'y' || c == 'Y' {
            &&& unchanged_app(pre, post)
            &&& r.action matches Some(AppAction::ConfirmKill)
        } else if c == 'n' || c == 'N' || c == 'q' {
            &&& same_states(pre, post)
            &&& same_shell_but_modal(pre, post)
            &&& post.modal is None
            &&& r.action is None
        } else {
            unchanged_app(pre, post) && r.action is None
        },
        KeyCode::Esc => {
            &&& same_states(pre, post)
            &&& same_shell_but_modal(pre, post)
            &&& post.modal is None
            &&& r.action is None
        },
        _ => unchanged_app(pre, post) && r.action is None,
    }
}

/// The finder's path-box keymap: characters type, backspace deletes,
/// escape stops typing, enter stops typing and asks for the search.
pub open spec fn finder_input_key_rel(pre: App, post: App, key: KeyPress, r: KeyOutcome) -> bool {
    &&& r.quit == false
    &&& same_states(pre, post)
    &&& key_shell_frame(pre, post)
    &&& post.current_tab == pre.current_tab
    &&& post.search_mode == pre.search_mode
    &&& post.search_query == pre.search_query
    &&& post.pending_gg == pre.pending_gg
    &&& match key.code {
        KeyCode::Esc => {
            &&& post.handle_search_input_mode == false
            &&& post.modal == pre.modal
            &&& r.action is None
        },
        KeyCode::Enter => {
            &&& post.handle_search_input_mode == false
            &&& post.modal == pre.modal
            &&& r.action matches Some(AppAction::RunHandleSearch)
        },
        KeyCode::Char(c) => {
            &&& post.handle_search_input_mode == pre.handle_search_input_mode
            &&& search_input_pushed(pre.modal, post.modal, c)
            &&& r.action is None
        },
        KeyCode::Backspace => {
            &&& post.handle_search_input_mode == pre.handle_search_input_mode
            &&& search_input_popped(pre.modal, post.modal)
            &&& r.action is None
        },
        _ => {
            &&& post.handle_search_input_mode == pre.handle_search_input_mode
            &&& post.modal == pre.modal
            &&& r.action is None
        },
    }
}

/// The finder's navigation keymap, sharing the two-key chord with the
/// plain keymap: the chord's first key arms it, a second jumps to the
/// first result, and any other key disarms it.
pub open spec fn finder_nav_key_rel(pre: App, post: App, key: KeyPress, r: KeyOutcome) -> bool {
    &&& r.quit == false
    &&& same_states(pre, post)
    &&& key_shell_frame(pre, post)
    &&& post.current_tab == pre.current_tab
    &&& post.search_mode == pre.search_mode
    &&& post.search_query == pre.search_query
    &&& match key.code {
        KeyCode::Esc => {
            &&& post.pending_gg == false
            &&& post.modal is None
            &&& post.handle_search_input_mode == pre.handle_search_input_mode
            &&& r.action is None
        },
        KeyCode::Enter => {
            &&& post.pending_gg == false
            &&& post.modal == pre.modal
            &&& post.handle_search_input_mode == pre.handle_search_input_mode
            &&& r.action matches Some(AppAction::RunHandleSearch)
        },
        KeyCode::Down => {
            &&& post.pending_gg == false
            &&& search_sel_next(pre.modal, post.modal)
            &&& post.handle_search_input_mode == pre.handle_search_input_mode
            &&& r.action is None
        },
        KeyCode::Up => {
            &&& post.pending_gg == false
            &&& search_sel_prev(pre.modal, post.modal)
            &&& post.handle_search_input_mode == pre.handle_search_input_mode
            &&& r.action is None
        },
        KeyCode::Backspace => {
            &&& post.pending_gg == false
            &&& search_input_popped(pre.modal, post.modal)
            &&& post.handle_search_input_mode == pre.handle_search_input_mode
            &&& r.action is None
        },
        KeyCode::Char(c) => if c == 'q' {
            &&& post.pending_gg == false
            &&& post.modal is None
            &&& post.handle_search_input_mode == pre.handle_search_input_mode
            &&& r.action is None
        } else if c == '/' {
            &&& post.pending_gg == false
            &&& post.modal == pre.modal
            &&& post.handle_search_input_mode == true
            &&& r.action is None
        } else if c == 'j' {
            &&& post.pending_gg == false
            &&& search_sel_next(pre.modal, post.modal)
            &&& post.handle_search_input_mode == pre.handle_search_input_mode
            &&& r.action is None
        } else if c == 'k' {
            &&& post.pending_gg == false
            &&& search_sel_prev(pre.modal, post.modal)
            &&& post.handle_search_input_mode == pre.handle_search_input_mode
            &&& r.action is None
        } else if c == 'g' {
            &&& post.handle_search_input_mode == pre.handle_search_input_mode
            &&& r.action is None
            &&& if pre.pending_gg {
                post.pending_gg == false && search_sel_first(pre.modal, post.modal)
            } else {
                post.pending_gg == true && post.modal == pre.modal
            }
        } else if c == 'G' {
            &&& post.pending_gg == false
            &&& search_sel_last(pre.modal, post.modal)
            &&& post.handle_search_input_mode == pre.handle_search_input_mode
            &&& r.action is None
        } else if c == 'K' {
            &&& post.pending_gg == false
            &&& post.handle_search_input_mode == pre.handle_search_input_mode
            &&& if pre.is_elevated {
                search_kill_pick(pre.modal, post.modal)
            } else {
                post.modal == pre.modal
            }
            &&& r.action is None
        } else {
            &&& post.pending_gg == false
            &&& post.modal == pre.modal
            &&& post.handle_search_input_mode == pre.handle_search_input_mode
            &&& r.action is None
        },
        _ => {
            &&& post.pending_gg == false
            &&& post.modal == pre.modal
            &&& post.handle_search_input_mode == pre.handle_search_input_mode
            &&& r.action is None
        },
    }
}

/// Closing the search box, committing its text as the filter.
pub open spec fn exit_search_shape(pre: App, post: App) -> bool {
    &&& app_set_filter_rel(pre, post, pre.search_query@)
    &&& post.search_mode == false
    &&& post.search_query@ == Seq::<char>::empty()
    &&& post.current_tab == pre.current_tab
    &&& post.is_elevated == pre.is_elevated
    &&& post.status_message == pre.status_message
    &&& post.modal == pre.modal
    &&& post.handle_search_input_mode == pre.handle_search_input_mode
    &&& post.pending_gg == pre.pending_gg
    &&& post.metrics_cache == pre.metrics_cache
}

/// The search box's keymap: characters type, backspace deletes, escape
/// and enter both commit the text as the filter and close the box.
pub open spec fn search_key_rel(pre: App, post: App, key: KeyPress, r: KeyOutcome) -> bool {
    &&& r.quit == false
    &&& r.action is None
    &&& match key.code {
        KeyCode::Esc => exit_search_shape(pre, post),
        KeyCode::Enter => exit_search_shape(pre, post),
        KeyCode::Char(c) => {
            &&& same_states(pre, post)
            &&& post.search_query@ == pre.search_query@.push(c)
            &&& post.current_tab == pre.current_tab
            &&& post.is_elevated == pre.is_elevated
            &&& post.search_mode == pre.search_mode
            &&& post.status_message == pre.status_message
            &&& post.modal == pre.modal
            &&& post.handle_search_input_mode == pre.handle_search_input_mode
            &&& post.pending_gg == pre.pending_gg
            &&& post.metrics_cache == pre.metrics_cache
        },
        KeyCode::Backspace => {
            &&& same_states(pre, post)
            &&& post.search_query@ == (if pre.search_query@.len() == 0 {
                pre.search_query@
            } else {
                pre.search_query@.drop_last()
            })
            &&& post.current_tab == pre.current_tab
            &&& post.is_elevated == pre.is_elevated
            &&& post.search_mode == pre.search_mode
            &&& post.status_message == pre.status_message
            &&& post.modal == pre.modal
            &&& post.handle_search_input_mode == pre.handle_search_input_mode
            &&& post.pending_gg == pre.pending_gg
            &&& post.metrics_cache == pre.metrics_cache
        },
        _ => unchanged_app(pre, post),
    }
}

/// Whether the current view has a committed filter.
pub open spec fn filter_active(pre: App) -> bool {
    match pre.current_tab {
        Tab::Locker => pre.state.locker.active_filter is Some,
        Tab::Controller => pre.state.controller.active_filter is Some,
        Tab::Nexus => pre.state.nexus.active_filter is Some,
    }
}

/// The kill confirmation opened for the selected process, when one is
/// selected.
pub open spec fn kill_confirm_opened(pre: App, post: App) -> bool {
    match locker::selected_of(pre.state.locker, pre.search_query@) {
        Some(p) => kill_modal_view(post.modal) == Some((p.pid, p.name@)),
        None => post.modal == pre.modal,
    }
}

/// The plain keymap, with no overlay and no search box open. Every key
/// but the chord's own disarms the two-key chord.
pub open spec fn main_key_rel(pre: App, post: App, key: KeyPress, now: u64, r: KeyOutcome) -> bool {
    if key.ctrl && key.code == KeyCode::Char('d') {
        &&& r.quit == false
        &&& r.action is None
        &&& nav_shell_disarmed(pre, post)
        &&& routed_page_down(pre, post, now)
    } else if key.ctrl && key.code == KeyCode::Char('u') {
        &&& r.quit == false
        &&& r.action is None
        &&& nav_shell_disarmed(pre, post)
        &&& routed_page_up(pre, post, now)
    } else {
        match key.code {
            KeyCode::Char(c) => if c == 'q' {
                r.quit == true && r.action is None && disarmed_only(pre, post)
            } else if c == 'j' {
                &&& r.quit == false
                &&& r.action is None
                &&& nav_shell_disarmed(pre, post)
                &&& routed_select_next(pre, post, now)
            } else if c == 'k' {
                &&& r.quit == false
                &&& r.action is None
                &&& nav_shell_disarmed(pre, post)
                &&& routed_select_prev(pre, post, now)
            } else if c == 'r' {
                &&& r.quit == false
                &&& r.action matches Some(AppAction::RefreshCurrent)
                &&& disarmed_only(pre, post)
            } else if c == '/' {
                &&& r.quit == false
                &&& r.action is None
                &&& same_states(pre, post)
                &&& key_shell_frame(pre, post)
                &&& post.current_tab == pre.current_tab
                &&& post.search_mode == true
                &&& post.search_query@ == Seq::<char>::empty()
                &&& post.modal == pre.modal
                &&& post.handle_search_input_mode == pre.handle_search_input_mode
                &&& post.pending_gg == false
            } else if c == 'f' {
                &&& r.quit == false
                &&& r.action is None
                &&& same_states(pre, post)
                &&& key_shell_frame(pre, post)
                &&& post.current_tab == pre.current_tab
                &&& post.search_mode == pre.search_mode
                &&& post.search_query == pre.search_query
                &&& is_search_modal(
                    post.modal,
                    Seq::<char>::empty(),
                    Seq::<(u32, Seq<char>)>::empty(),
                    0,
                    false,
                    None,
                    false,
                    None,
                )
                &&& post.handle_search_input_mode == false
                &&& post.pending_gg == false
            } else if c == 'K' {
                &&& r.quit == false
                &&& r.action is None
                &&& same_states(pre, post)
                &&& key_shell_frame(pre, post)
                &&& post.current_tab == pre.current_tab
                &&& post.search_mode == pre.search_mode
                &&& post.search_query == pre.search_query
                &&& post.handle_search_input_mode == pre.handle_search_input_mode
                &&& post.pending_gg == false
                &&& if pre.current_tab == Tab::Locker && pre.is_elevated {
                    kill_confirm_opened(pre, post)
                } else {
                    post.modal == pre.modal
                }
            } else if c == 's' {
                &&& r.quit == false
                &&& r.action is None
                &&& nav_shell_disarmed(pre, post)
                &&& if key.shift {
                    routed_toggle_sort(pre, post)
                } else {
                    routed_cycle_sort(pre, post)
                }
            } else if c == 'S' {
                &&& r.quit == false
                &&& r.action is None
                &&& nav_shell_disarmed(pre, post)
                &&& routed_toggle_sort(pre, post)
            } else if c == 'g' {
                &&& r.quit == false
                &&& r.action is None
                &&& if pre.pending_gg {
                    nav_shell_disarmed(pre, post) && routed_select_first(pre, post, now)
                } else {
                    armed_only(pre, post)
                }
            } else if c == 'G' {
                &&& r.quit == false
                &&& r.action is None
                &&& nav_shell_disarmed(pre, post)
                &&& routed_select_last(pre, post, now)
            } else {
                r.quit == false && r.action is None && disarmed_only(pre, post)
            },
            KeyCode::Tab => {
                &&& r.quit == false
                &&& r.action is None
                &&& same_states(pre, post)
                &&& key_shell_frame(pre, post)
                &&& post.current_tab == next_tab_of(pre.current_tab)
                &&& post.search_mode == pre.search_mode
                &&& post.search_query == pre.search_query
                &&& post.modal == pre.modal
                &&& post.handle_search_input_mode == pre.handle_search_input_mode
                &&& post.pending_gg == false
            },
            KeyCode::BackTab => {
                &&& r.quit == false
                &&& r.action is None
                &&& same_states(pre, post)
                &&& key_shell_frame(pre, post)
                &&& post.current_tab == prev_tab_of(pre.current_tab)
                &&& post.search_mode == pre.search_mode
                &&& post.search_query == pre.search_query
                &&& post.modal == pre.modal
                &&& post.handle_search_input_mode == pre.handle_search_input_mode
                &&& post.pending_gg == false
            },
            KeyCode::Down => {
                &&& r.quit == false
                &&& r.action is None
                &&& nav_shell_disarmed(pre, post)
                &&& routed_select_next(pre, post, now)
            },
            KeyCode::Up => {
                &&& r.quit == false
                &&& r.action is None
                &&& nav_shell_disarmed(pre, post)
                &&& routed_select_prev(pre, post, now)
            },
            KeyCode::Enter => {
                &&& r.quit == false
                &&& disarmed_only(pre, post)
                &&& if pre.current_tab == Tab::Controller && pre.is_elevated {
                    match controller::selected_of(pre.state.controller, pre.search_query@) {
                        Some(svc) => r.action matches Some(AppAction::ToggleService(n, st))
                            && n@ == svc.service_name@ && st == svc.status,
                        None => r.action is None,
                    }
                } else {
                    r.action is None
                }
            },
            KeyCode::Esc => {
                &&& r.quit == false
                &&& r.action is None
                &&& if filter_active(pre) {
                    nav_shell_disarmed(pre, post) && app_set_filter_rel(
                        pre,
                        post,
                        Seq::<char>::empty(),
                    )
                } else {
                    disarmed_only(pre, post)
                }
            },
            KeyCode::Backspace => {
                r.quit == false && r.action is None && disarmed_only(pre, post)
            },
        }
    }
}

/// What one key press does, by which keymap is in force: the open
/// overlay's, the search box's, or the plain one.
pub open spec fn key_event_rel(pre: App, post: App, key: KeyPress, now: u64, r: KeyOutcome) -> bool {
    match pre.modal {
        Some(Modal::KillConfirmation { .. }) => kill_modal_key_rel(pre, post, key, r),
        Some(Modal::HandleSearch { .. }) => if pre.handle_search_input_mode {
            finder_input_key_rel(pre, post, key, r)
        } else {
            finder_nav_key_rel(pre, post, key, r)
        },
        None => if pre.search_mode {
            search_key_rel(pre, post, key, r)
        } else {
            main_key_rel(pre, post, key, now, r)
        },
    }
}

/// Routes one key press to whichever keymap is in force and carries out
/// every decision that needs no outside call; what does need one comes
/// back in the outcome for the loop to run.
/// The kill confirmation's keymap.
fn handle_kill_modal_key(app: &mut App, key: KeyPress) -> (r: KeyOutcome)
    requires
        old(app).modal matches Some(Modal::KillConfirmation { .. }),
    ensures
        kill_modal_key_rel(*old(app), *final(app), key, r),
{
    match key.code {
        KeyCode::Char(c) => {
            if c == 'y' || c == 'Y' {
                return KeyOutcome { quit: false, action: Some(AppAction::ConfirmKill) };
            }
            if c == 'n' || c == 'N' || c == 'q' {
                app.cancel_modal();
            }
            KeyOutcome { quit: false, action: None }
        },
        KeyCode::Esc => {
            app.cancel_modal();
            KeyOutcome { quit: false, action: None }
        },
        _ => KeyOutcome { quit: false, action: None },
    }
}

/// The finder's path-box keymap.
fn handle_finder_input_key(app: &mut App, key: KeyPress) -> (r: KeyOutcome)
    ensures
        finder_input_key_rel(*old(app), *final(app), key, r),
{
    match key.code {
        KeyCode::Esc => {
            app.exit_handle_search_input_mode();
            KeyOutcome { quit: false, action: None }
        },
        KeyCode::Enter => {
            app.exit_handle_search_input_mode();
            KeyOutcome { quit: false, action: Some(AppAction::RunHandleSearch) }
        },
        KeyCode::Char(c) => {
            app.handle_search_modal_char(c);
            KeyOutcome { quit: false, action: None }
        },
        KeyCode::Backspace => {
            app.handle_search_modal_backspace();
            KeyOutcome { quit: false, action: None }
        },
        _ => KeyOutcome { quit: false, action: None },
    }
}

/// The finder's navigation keymap.
#[verifier::rlimit(60)]
fn handle_finder_nav_key(app: &mut App, key: KeyPress) -> (r: KeyOutcome)
    ensures
        finder_nav_key_rel(*old(app), *final(app), key, r),
{
    match key.code {
        KeyCode::Esc => {
            app.pending_gg = false;
            app.cancel_modal();
            KeyOutcome { quit: false, action: None }
        },
        KeyCode::Enter => {
            app.pending_gg = false;
            KeyOutcome { quit: false, action: Some(AppAction::RunHandleSearch) }
        },
        KeyCode::Down => {
            app.pending_gg = false;
            app.handle_search_modal_select_next();
            KeyOutcome { quit: false, action: None }
        },
        KeyCode::Up => {
            app.pending_gg = false;
            app.handle_search_modal_select_prev();
            KeyOutcome { quit: false, action: None }
        },
        KeyCode::Backspace => {
            app.pending_gg = false;
            app.handle_search_modal_backspace();
            KeyOutcome { quit: false, action: None }
        },
        KeyCode::Char(c) => {
            if c == 'q' {
                app.pending_gg = false;
                app.cancel_modal();
                return KeyOutcome { quit: false, action: None };
            }
            if c == '/' {
                app.pending_gg = false;
                app.enter_handle_search_input_mode();
                return KeyOutcome { quit: false, action: None };
            }
            if c == 'j' {
                app.pending_gg = false;
                app.handle_search_modal_select_next();
                return KeyOutcome { quit: false, action: None };
            }
            if c == 'k' {
                app.pending_gg = false;
                app.handle_search_modal_select_prev();
                return KeyOutcome { quit: false, action: None };
            }
            if c == 'g' {
                if app.pending_gg {
                    app.handle_search_modal_select_first();
                    app.pending_gg = false;
                } else {
                    app.pending_gg = true;
                }
                return KeyOutcome { quit: false, action: None };
            }
            if c == 'G' {
                app.pending_gg = false;
                app.handle_search_modal_select_last();
                return KeyOutcome { quit: false, action: None };
            }
            if c == 'K' {
                app.pending_gg = false;
                if app.is_elevated {
                    app.kill_selected_locking_process();
                }
                return KeyOutcome { quit: false, action: None };
            }
            app.pending_gg = false;
            KeyOutcome { quit: false, action: None }
        },
        _ => {
            app.pending_gg = false;
            KeyOutcome { quit: false, action: None }
        },
    }
}

/// The search box's keymap.
fn handle_search_mode_key(app: &mut App, key: KeyPress) -> (r: KeyOutcome)
    ensures
        search_key_rel(*old(app), *final(app), key, r),
{
    match key.code {
        KeyCode::Esc => {
            app.exit_search_mode();
        },
        KeyCode::Enter => {
            app.exit_search_mode();
        },
        KeyCode::Char(c) => {
            app.handle_search_char(c);
        },
        KeyCode::Backspace => {
            app.handle_search_backspace();
        },
        _ => {},
    }
    KeyOutcome { quit: false, action: None }
}

/// The plain keymap.
#[verifier::rlimit(100)]
#[verifier::spinoff_prover]
fn handle_main_key(app: &mut App, key: KeyPress, now_ms: u64) -> (r: KeyOutcome)
    ensures
        main_key_rel(*old(app), *final(app), key, now_ms, r),
{
    if key.ctrl {
        let page = match key.code {
            KeyCode::Char(c) => {
                if c == 'd' {
                    1u8
                } else if c == 'u' {
                    2u8
                } else {
                    0u8
                }
            },
            _ => 0u8,
        };
        if page == 1 {
            app.select_page_down(now_ms);
            app.pending_gg = false;
            return KeyOutcome { quit: false, action: None };
        }
        if page == 2 {
            app.select_page_up(now_ms);
            app.pending_gg = false;
            return KeyOutcome { quit: false, action: None };
        }
    }
    match key.code {
        KeyCode::Char(c) => {
            if c == 'q' {
                app.pending_gg = false;
                return KeyOutcome { quit: true, action: None };
            }
            if c == 'j' {
                app.select_next(now_ms);
                app.pending_gg = false;
                return KeyOutcome { quit: false, action: None };
            }
            if c == 'k' {
                app.select_prev(now_ms);
                app.pending_gg = false;
                return KeyOutcome { quit: false, action: None };
            }
            if c == 'r' {
                app.pending_gg = false;
                return KeyOutcome { quit: false, action: Some(AppAction::RefreshCurrent) };
            }
            if c == '/' {
                app.enter_search_mode();
                app.pending_gg = false;
                return KeyOutcome { quit: false, action: None };
            }
            if c == 'f' {
                app.open_handle_search();
                app.pending_gg = false;
                return KeyOutcome { quit: false, action: None };
            }
            if c == 'K' {
                if matches!(app.current_tab, Tab::Locker) && app.is_elevated {
                    app.show_kill_confirmation();
                }
                app.pending_gg = false;
                return KeyOutcome { quit: false, action: None };
            }
            if c == 's' {
                if key.shift {
                    app.toggle_sort_order();
                } else {
                    app.cycle_sort_key();
                }
                app.pending_gg = false;
                return KeyOutcome { quit: false, action: None };
            }
            if c == 'S' {
                app.toggle_sort_order();
                app.pending_gg = false;
                return KeyOutcome { quit: false, action: None };
            }
            if c == 'g' {
                if app.pending_gg {
                    app.select_first(now_ms);
                    app.pending_gg = false;
                } else {
                    app.pending_gg = true;
                }
                return KeyOutcome { quit: false, action: None };
            }
            if c == 'G' {
                app.select_last(now_ms);
                app.pending_gg = false;
                return KeyOutcome { quit: false, action: None };
            }
            app.pending_gg = false;
            KeyOutcome { quit: false, action: None }
        },
        KeyCode::Tab => {
            app.next_tab();
            app.pending_gg = false;
            KeyOutcome { quit: false, action: None }
        },
        KeyCode::BackTab => {
            app.prev_tab();
            app.pending_gg = false;
            KeyOutcome { quit: false, action: None }
        },
        KeyCode::Down => {
            app.select_next(now_ms);
            app.pending_gg = false;
            KeyOutcome { quit: false, action: None }
        },
        KeyCode::Up => {
            app.select_prev(now_ms);
            app.pending_gg = false;
            KeyOutcome { quit: false, action: None }
        },
        KeyCode::Enter => {
            let request = app.on_enter();
            app.pending_gg = false;
            match request {
                Some(t) => KeyOutcome {
                    quit: false,
                    action: Some(AppAction::ToggleService(t.0, t.1)),
                },
                None => KeyOutcome { quit: false, action: None },
            }
        },
        KeyCode::Esc => {
            app.pending_gg = false;
            if app.has_active_filter() {
                app.clear_current_filter();
            }
            KeyOutcome { quit: false, action: None }
        },
        KeyCode::Backspace => {
            app.pending_gg = false;
            KeyOutcome { quit: false, action: None }
        },
    }
}

/// Routes one key press to whichever keymap is in force and carries out
/// every decision that needs no outside call; what does need one comes
/// back in the outcome for the loop to run.
pub fn handle_key_event(app: &mut App, key: KeyPress, now_ms: u64) -> (r: KeyOutcome)
    ensures
        key_event_rel(*old(app), *final(app), key, now_ms, r),
{
    let modal_kind: u8 = match &app.modal {
        Some(Modal::KillConfirmation { .. }) => 1,
        Some(Modal::HandleSearch { .. }) => 2,
        None => 0,
    };
    if modal_kind == 1 {
        return handle_kill_modal_key(app, key);
    }
    if modal_kind == 2 {
        if app.handle_search_input_mode {
            return handle_finder_input_key(app, key);
        }
        return handle_finder_nav_key(app, key);
    }
    if app.search_mode {
        return handle_search_mode_key(app, key);
    }
    handle_main_key(app, key, now_ms)
}

} // verus!

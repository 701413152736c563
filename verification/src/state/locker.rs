//! List state for the process view: the authoritative process list, the
//! selection tracked by process id, the committed filter, the sort key and
//! order, the navigation debounce clock and the content fingerprint.

use vstd::prelude::*;
use vstd::string::StrSliceExecFns;

use crate::fingerprint::{fp_mix, fp_step, fp_str, fp_text, FP_OFFSET};
use crate::nav;
use crate::sorting::{sort_by_le, sort_spec};
use crate::text::{
    contains_seq, dec_str, lower_of, lowercase, seq_char_le, str_contains, str_le, u32_to_decimal,
};

verus! {

/// Snapshots arriving within this many milliseconds of a navigation step
/// are discarded, so the list does not jump under the user's cursor.
pub const DEBOUNCE_MS: u64 = 50;

#[derive(Debug, Clone, Copy, PartialEq, Eq, Structural)]
pub enum SortKey {
    Name,
    Pid,
    Cpu,
    Memory,
}

/// The key after `k` in the fixed sort-key cycle.
pub open spec fn next_key(k: SortKey) -> SortKey {
    match k {
        SortKey::Name => SortKey::Pid,
        SortKey::Pid => SortKey::Cpu,
        SortKey::Cpu => SortKey::Memory,
        SortKey::Memory => SortKey::Name,
    }
}

/// The display label of a sort key.
pub open spec fn sort_key_label(k: SortKey) -> Seq<char> {
    match k {
        SortKey::Name => "Name"@,
        SortKey::Pid => "PID"@,
        SortKey::Cpu => "CPU"@,
        SortKey::Memory => "Mem"@,
    }
}

impl SortKey {
    /// The key after this one in the fixed sort-key cycle.
    pub fn next(&self) -> (r: Self)
        ensures
            r == next_key(*self),
    {
        match self {
            SortKey::Name => SortKey::Pid,
            SortKey::Pid => SortKey::Cpu,
            SortKey::Cpu => SortKey::Memory,
            SortKey::Memory => SortKey::Name,
        }
    }

    /// The display label of this sort key.
    pub fn as_str(&self) -> (r: &'static str)
        ensures
            r@ == sort_key_label(*self),
    {
        match self {
            SortKey::Name => "Name",
            SortKey::Pid => "PID",
            SortKey::Cpu => "CPU",
            SortKey::Memory => "Mem",
        }
    }
}

#[derive(Debug, Clone, Copy, PartialEq, Eq, Structural)]
pub enum SortOrder {
    Ascending,
    Descending,
}

/// The opposite sort order.
pub open spec fn toggled(o: SortOrder) -> SortOrder {
    match o {
        SortOrder::Ascending => SortOrder::Descending,
        SortOrder::Descending => SortOrder::Ascending,
    }
}

/// The display marker of a sort order.
pub open spec fn sort_order_label(o: SortOrder) -> Seq<char> {
    match o {
        SortOrder::Ascending => "▲"@,
        SortOrder::Descending => "▼"@,
    }
}

impl SortOrder {
    /// The opposite order.
    pub fn toggle(&self) -> (r: Self)
        ensures
            r == toggled(*self),
    {
        match self {
            SortOrder::Ascending => SortOrder::Descending,
            SortOrder::Descending => SortOrder::Ascending,
        }
    }

    /// The display marker of this order.
    pub fn as_str(&self) -> (r: &'static str)
        ensures
            r@ == sort_order_label(*self),
    {
        match self {
            SortOrder::Ascending => "▲",
            SortOrder::Descending => "▼",
        }
    }
}

/// One process row. The identity key is `pid`; metrics are kept in fixed
/// point (hundredths of a percent of one CPU, and kilobytes), with a
/// last-known-good copy used when the live sample reads zero.
#[derive(Debug)]
pub struct ProcessInfo {
    pub pid: u32,
    pub name: String,
    pub path: Option<String>,
    pub cpu_centi: u32,
    pub memory_kb: u64,
    pub last_cpu_centi: u32,
    pub last_memory_kb: u64,
}

/// Whether two process rows carry the same visible data.
pub open spec fn proc_like(a: ProcessInfo, b: ProcessInfo) -> bool {
    &&& a.pid == b.pid
    &&& a.name@ == b.name@
    &&& crate::text::opt_str_view(a.path) == crate::text::opt_str_view(b.path)
    &&& a.cpu_centi == b.cpu_centi
    &&& a.memory_kb == b.memory_kb
    &&& a.last_cpu_centi == b.last_cpu_centi
    &&& a.last_memory_kb == b.last_memory_kb
}

impl ProcessInfo {
    /// A field-for-field copy.
    pub fn duplicate(&self) -> (r: ProcessInfo)
        ensures
            proc_like(r, *self),
    {
        ProcessInfo {
            pid: self.pid,
            name: self.name.clone(),
            path: match &self.path {
                Some(p) => Some(p.clone()),
                None => None,
            },
            cpu_centi: self.cpu_centi,
            memory_kb: self.memory_kb,
            last_cpu_centi: self.last_cpu_centi,
            last_memory_kb: self.last_memory_kb,
        }
    }
}

/// CPU metric used for display and ordering: the live sample, or the
/// cached last-known-good value when the sample reads zero.
pub open spec fn effective_cpu(p: ProcessInfo) -> u32 {
    if p.cpu_centi > 0 {
        p.cpu_centi
    } else {
        p.last_cpu_centi
    }
}

/// Memory metric used for display and ordering, with the same fallback.
pub open spec fn effective_memory(p: ProcessInfo) -> u64 {
    if p.memory_kb > 0 {
        p.memory_kb
    } else {
        p.last_memory_kb
    }
}

/// Whether `a` sorts at-or-before `b` under one sort key, ascending.
pub open spec fn proc_le_key(k: SortKey, a: ProcessInfo, b: ProcessInfo) -> bool {
    match k {
        SortKey::Name => seq_char_le(a.name@, b.name@),
        SortKey::Pid => a.pid <= b.pid,
        SortKey::Cpu => effective_cpu(a) <= effective_cpu(b),
        SortKey::Memory => effective_memory(a) <= effective_memory(b),
    }
}

/// The total preorder the list is kept sorted by. Descending order swaps
/// the operands, so rows that tie keep their incoming relative order
/// either way.
pub open spec fn proc_le(k: SortKey, o: SortOrder, a: ProcessInfo, b: ProcessInfo) -> bool {
    match o {
        SortOrder::Ascending => proc_le_key(k, a, b),
        SortOrder::Descending => proc_le_key(k, b, a),
    }
}

/// `proc_le` as a closed-over comparison function, for `sort_spec`.
pub open spec fn proc_le_fn(k: SortKey, o: SortOrder) -> spec_fn(ProcessInfo, ProcessInfo) -> bool {
    |a: ProcessInfo, b: ProcessInfo| proc_le(k, o, a, b)
}

fn effective_cpu_exec(p: &ProcessInfo) -> (r: u32)
    ensures
        r == effective_cpu(*p),
{
    if p.cpu_centi > 0 {
        p.cpu_centi
    } else {
        p.last_cpu_centi
    }
}

fn effective_memory_exec(p: &ProcessInfo) -> (r: u64)
    ensures
        r == effective_memory(*p),
{
    if p.memory_kb > 0 {
        p.memory_kb
    } else {
        p.last_memory_kb
    }
}

fn proc_le_key_exec(k: SortKey, a: &ProcessInfo, b: &ProcessInfo) -> (r: bool)
    ensures
        r == proc_le_key(k, *a, *b),
{
    match k {
        SortKey::Name => str_le(self_str(&a.name), self_str(&b.name)),
        SortKey::Pid => a.pid <= b.pid,
        SortKey::Cpu => effective_cpu_exec(a) <= effective_cpu_exec(b),
        SortKey::Memory => effective_memory_exec(a) <= effective_memory_exec(b),
    }
}

/// `String::as_str` under a local name, so call sites stay terse.
fn self_str(s: &String) -> (r: &str)
    ensures
        r@ == s@,
{
    s.as_str()
}

fn proc_le_exec(k: SortKey, o: SortOrder, a: &ProcessInfo, b: &ProcessInfo) -> (r: bool)
    ensures
        r == proc_le(k, o, *a, *b),
{
    match o {
        SortOrder::Ascending => proc_le_key_exec(k, a, b),
        SortOrder::Descending => proc_le_key_exec(k, b, a),
    }
}

/// Whether one process row matches a lowercase query: by name, by path,
/// or by the decimal digits of its pid.
pub open spec fn proc_matches(p: ProcessInfo, q: Seq<char>) -> bool {
    ||| contains_seq(lower_of(p.name@), q)
    ||| match p.path {
        Some(path) => contains_seq(lower_of(path@), q),
        None => false,
    }
    ||| contains_seq(dec_str(p.pid as nat), q)
}

fn proc_matches_exec(p: &ProcessInfo, q: &str) -> (r: bool)
    ensures
        r == proc_matches(*p, q@),
{
    let low_name = lowercase(self_str(&p.name));
    if str_contains(self_str(&low_name), q) {
        return true;
    }
    match &p.path {
        Some(path) => {
            let low_path = lowercase(self_str(path));
            if str_contains(self_str(&low_path), q) {
                return true;
            }
        },
        None => {},
    }
    let digits = u32_to_decimal(p.pid);
    str_contains(self_str(&digits), q)
}

/// Whether a row passes an optional lowercase filter; no filter passes all.
pub open spec fn matches_opt(p: ProcessInfo, f: Option<Seq<char>>) -> bool {
    match f {
        None => true,
        Some(q) => proc_matches(p, q),
    }
}

/// Indices below `n` of the rows that pass the filter, in ascending order.
pub open spec fn filtered_upto(s: Seq<ProcessInfo>, f: Option<Seq<char>>, n: int) -> Seq<usize>
    decreases n,
{
    if n <= 0 {
        Seq::empty()
    } else if matches_opt(s[n - 1], f) {
        filtered_upto(s, f, n - 1).push((n - 1) as usize)
    } else {
        filtered_upto(s, f, n - 1)
    }
}

/// Every index the filter keeps points into the first `n` rows.
pub proof fn lemma_filtered_bounds(s: Seq<ProcessInfo>, f: Option<Seq<char>>, n: int)
    ensures
        forall|j: int|
            0 <= j < filtered_upto(s, f, n).len() ==> (#[trigger] filtered_upto(s, f, n)[j])
                < n,
    decreases n,
{
    if n > 0 {
        lemma_filtered_bounds(s, f, n - 1);
        let prev = filtered_upto(s, f, n - 1);
        let cur = filtered_upto(s, f, n);
        assert forall|j: int| 0 <= j < cur.len() implies cur[j] < n by {
            if matches_opt(s[n - 1], f) {
                assert(cur == prev.push((n - 1) as usize));
                if j < prev.len() {
                    assert(cur[j] == prev[j]);
                }
            } else {
                assert(cur == prev);
                assert(cur[j] == prev[j]);
            }
        }
    }
}

/// List state for the process view.
pub struct LockerState {
    pub processes: Vec<ProcessInfo>,
    pub cursor: Option<usize>,
    pub active_filter: Option<String>,
    pub selected_pid: Option<u32>,
    pub last_navigation: u64,
    pub sort_key: SortKey,
    pub sort_order: SortOrder,
    pub last_data_hash: Option<u64>,
    pub is_initial_load: bool,
}

/// The filter a query-dependent operation uses: a non-empty transient
/// query takes precedence over the committed filter, without changing it.
pub open spec fn effective_filter(st: LockerState, q: Seq<char>) -> Option<Seq<char>> {
    if q.len() > 0 {
        Some(lower_of(q))
    } else {
        crate::text::opt_str_view(st.active_filter)
    }
}

/// The filtered view: indices of the rows the query keeps, in row order.
pub open spec fn filtered_of(st: LockerState, q: Seq<char>) -> Seq<usize> {
    filtered_upto(st.processes@, effective_filter(st, q), st.processes@.len() as int)
}

/// The filtered view under the committed filter alone.
pub open spec fn persisted_filtered(st: LockerState) -> Seq<usize> {
    filtered_upto(
        st.processes@,
        crate::text::opt_str_view(st.active_filter),
        st.processes@.len() as int,
    )
}

/// Position inside `idxs`, searching from `j` on, of the first row whose
/// pid is `pid`.
pub open spec fn find_pid_from(
    s: Seq<ProcessInfo>,
    idxs: Seq<usize>,
    pid: u32,
    j: int,
) -> Option<usize>
    decreases idxs.len() - j,
{
    if j < 0 || j >= idxs.len() {
        None
    } else if s[idxs[j] as int].pid == pid {
        Some(j as usize)
    } else {
        find_pid_from(s, idxs, pid, j + 1)
    }
}

/// The cursor after reconciling the selection against a filtered view:
/// the selected row's new position if it survived, else the top of the
/// view, else nothing.
pub open spec fn reconciled_cursor(
    s: Seq<ProcessInfo>,
    idxs: Seq<usize>,
    sel: Option<u32>,
) -> Option<usize> {
    match sel {
        Some(pid) => match find_pid_from(s, idxs, pid, 0) {
            Some(j) => Some(j),
            None => if idxs.len() > 0 {
                Some(0usize)
            } else {
                None
            },
        },
        None => if idxs.len() > 0 {
            Some(0usize)
        } else {
            None
        },
    }
}

/// The selected identity after the same reconciliation.
pub open spec fn reconciled_sel(
    s: Seq<ProcessInfo>,
    idxs: Seq<usize>,
    sel: Option<u32>,
) -> Option<u32> {
    match sel {
        Some(pid) => match find_pid_from(s, idxs, pid, 0) {
            Some(j) => Some(pid),
            None => if idxs.len() > 0 {
                Some(s[idxs[0] as int].pid)
            } else {
                None
            },
        },
        None => if idxs.len() > 0 {
            Some(s[idxs[0] as int].pid)
        } else {
            None
        },
    }
}

/// The identity fingerprint of one row: pid, then name.
pub open spec fn fp_row(h: u64, p: ProcessInfo) -> u64 {
    fp_text(fp_step(h, p.pid as u64), p.name@)
}

/// The fingerprint after folding in every row, first to last.
pub open spec fn fp_rows(h: u64, s: Seq<ProcessInfo>) -> u64
    decreases s.len(),
{
    if s.len() == 0 {
        h
    } else {
        fp_rows(fp_row(h, s[0]), s.drop_first())
    }
}

/// The identity fingerprint of a snapshot: its length, then each row's
/// pid and name. Volatile metrics are deliberately left out.
pub open spec fn snapshot_fingerprint(s: Seq<ProcessInfo>) -> u64 {
    fp_rows(fp_step(FP_OFFSET, s.len() as u64), s)
}

/// How long before `now` the moment `past` lies; zero when it does not.
pub open spec fn elapsed_since(now: u64, past: u64) -> u64 {
    if now >= past {
        (now - past) as u64
    } else {
        0
    }
}

/// Whether a snapshot is taken in: its identity content must differ from
/// the last accepted snapshot, and, once the first load is done, it must
/// not land inside the navigation debounce window.
pub open spec fn accepts(pre: LockerState, snap: Seq<ProcessInfo>, now: u64) -> bool {
    &&& pre.last_data_hash != Some(snapshot_fingerprint(snap))
    &&& (pre.is_initial_load || elapsed_since(now, pre.last_navigation) >= DEBOUNCE_MS)
}

/// How an accepted or rejected snapshot changes the state: a rejected one
/// changes nothing at all; an accepted one replaces the rows wholesale,
/// re-sorts them, refreshes the fingerprint and reconciles the selection
/// against the committed filter.
pub open spec fn update_rel(
    pre: LockerState,
    post: LockerState,
    snap: Seq<ProcessInfo>,
    now: u64,
    accepted: bool,
) -> bool {
    &&& accepted == accepts(pre, snap, now)
    &&& if !accepted {
        post == pre
    } else {
        &&& post.processes@ == sort_spec(proc_le_fn(pre.sort_key, pre.sort_order), snap)
        &&& post.active_filter == pre.active_filter
        &&& post.sort_key == pre.sort_key
        &&& post.sort_order == pre.sort_order
        &&& post.last_navigation == pre.last_navigation
        &&& post.last_data_hash == Some(snapshot_fingerprint(snap))
        &&& post.is_initial_load == false
        &&& post.cursor == reconciled_cursor(
            post.processes@,
            persisted_filtered(post),
            pre.selected_pid,
        )
        &&& post.selected_pid == reconciled_sel(
            post.processes@,
            persisted_filtered(post),
            pre.selected_pid,
        )
    }
}

/// The fields a navigation or filter operation leaves alone.
pub open spec fn same_rows_and_sort(pre: LockerState, post: LockerState) -> bool {
    &&& post.processes == pre.processes
    &&& post.sort_key == pre.sort_key
    &&& post.sort_order == pre.sort_order
    &&& post.last_data_hash == pre.last_data_hash
    &&& post.is_initial_load == pre.is_initial_load
}


/// Committing a filter: an empty query clears it, any other is kept
/// lowercased; the selection is reconciled against the new committed
/// view. Rows, sort and the navigation clock stay as they were.
pub open spec fn set_filter_rel(pre: LockerState, post: LockerState, query: Seq<char>) -> bool {
    &&& same_rows_and_sort(pre, post)
    &&& post.last_navigation == pre.last_navigation
    &&& crate::text::opt_str_view(post.active_filter) == (if query.len() == 0 {
        None::<Seq<char>>
    } else {
        Some(lower_of(query))
    })
    &&& post.cursor == reconciled_cursor(pre.processes@, persisted_filtered(post), pre.selected_pid)
    &&& post.selected_pid == reconciled_sel(pre.processes@, persisted_filtered(post), pre.selected_pid)
}

/// Advancing the sort key: the rows re-sorted under the next key, the
/// selection reconciled, everything else as it was.
pub open spec fn cycle_key_rel(pre: LockerState, post: LockerState) -> bool {
    &&& post.sort_key == next_key(pre.sort_key)
    &&& post.sort_order == pre.sort_order
    &&& post.processes@ == sort_spec(proc_le_fn(next_key(pre.sort_key), pre.sort_order), pre.processes@)
    &&& post.active_filter == pre.active_filter
    &&& post.last_navigation == pre.last_navigation
    &&& post.last_data_hash == pre.last_data_hash
    &&& post.is_initial_load == pre.is_initial_load
    &&& post.cursor == reconciled_cursor(post.processes@, persisted_filtered(post), pre.selected_pid)
    &&& post.selected_pid == reconciled_sel(post.processes@, persisted_filtered(post), pre.selected_pid)
}

/// Flipping the sort order: the rows re-sorted the other way round, the
/// selection reconciled, everything else as it was.
pub open spec fn toggle_order_rel(pre: LockerState, post: LockerState) -> bool {
    &&& post.sort_key == pre.sort_key
    &&& post.sort_order == toggled(pre.sort_order)
    &&& post.processes@ == sort_spec(proc_le_fn(pre.sort_key, toggled(pre.sort_order)), pre.processes@)
    &&& post.active_filter == pre.active_filter
    &&& post.last_navigation == pre.last_navigation
    &&& post.last_data_hash == pre.last_data_hash
    &&& post.is_initial_load == pre.is_initial_load
    &&& post.cursor == reconciled_cursor(post.processes@, persisted_filtered(post), pre.selected_pid)
    &&& post.selected_pid == reconciled_sel(post.processes@, persisted_filtered(post), pre.selected_pid)
}

/// The cursor index a wrapping or paging step starts from.
pub open spec fn cursor_base(c: Option<usize>) -> int {
    match c {
        Some(i) => i as int,
        None => 0,
    }
}

/// One step down the filtered view, wrapping at the bottom. Always stamps
/// the navigation clock; moves nothing when the view is empty.
pub open spec fn select_next_rel(
    pre: LockerState,
    post: LockerState,
    q: Seq<char>,
    now: u64,
) -> bool {
    let idxs = filtered_of(pre, q);
    &&& same_rows_and_sort(pre, post)
    &&& post.active_filter == pre.active_filter
    &&& post.last_navigation == now
    &&& if idxs.len() == 0 {
        post.cursor == pre.cursor && post.selected_pid == pre.selected_pid
    } else {
        let ni = (cursor_base(pre.cursor) + 1) % (idxs.len() as int);
        &&& post.cursor == Some(ni as usize)
        &&& post.selected_pid == Some(pre.processes@[idxs[ni] as int].pid)
    }
}

/// One step up the filtered view, wrapping at the top.
pub open spec fn select_prev_rel(
    pre: LockerState,
    post: LockerState,
    q: Seq<char>,
    now: u64,
) -> bool {
    let idxs = filtered_of(pre, q);
    &&& same_rows_and_sort(pre, post)
    &&& post.active_filter == pre.active_filter
    &&& post.last_navigation == now
    &&& if idxs.len() == 0 {
        post.cursor == pre.cursor && post.selected_pid == pre.selected_pid
    } else {
        let ni = (cursor_base(pre.cursor) + (idxs.len() as int) - 1) % (idxs.len() as int);
        &&& post.cursor == Some(ni as usize)
        &&& post.selected_pid == Some(pre.processes@[idxs[ni] as int].pid)
    }
}

/// A page-up jump: `PAGE_SIZE` rows towards the top, clamped at the first
/// row. A cursor stranded past the end of the view keeps no selection.
pub open spec fn page_up_rel(pre: LockerState, post: LockerState, q: Seq<char>, now: u64) -> bool {
    let idxs = filtered_of(pre, q);
    &&& same_rows_and_sort(pre, post)
    &&& post.active_filter == pre.active_filter
    &&& post.last_navigation == now
    &&& if idxs.len() == 0 {
        post.cursor == pre.cursor && post.selected_pid == pre.selected_pid
    } else {
        let i = cursor_base(pre.cursor);
        let ni = if i >= nav::PAGE_SIZE { i - nav::PAGE_SIZE } else { 0int };
        &&& post.cursor == Some(ni as usize)
        &&& post.selected_pid == (if ni < idxs.len() {
            Some(pre.processes@[idxs[ni] as int].pid)
        } else {
            None
        })
    }
}

/// A page-down jump: `PAGE_SIZE` rows towards the bottom, clamped at the
/// last row of the view.
pub open spec fn page_down_rel(
    pre: LockerState,
    post: LockerState,
    q: Seq<char>,
    now: u64,
) -> bool {
    let idxs = filtered_of(pre, q);
    &&& same_rows_and_sort(pre, post)
    &&& post.active_filter == pre.active_filter
    &&& post.last_navigation == now
    &&& if idxs.len() == 0 {
        post.cursor == pre.cursor && post.selected_pid == pre.selected_pid
    } else {
        let i = cursor_base(pre.cursor);
        let ni = if i + nav::PAGE_SIZE <= idxs.len() - 1 {
            i + nav::PAGE_SIZE
        } else {
            idxs.len() - 1
        };
        &&& post.cursor == Some(ni as usize)
        &&& post.selected_pid == Some(pre.processes@[idxs[ni] as int].pid)
    }
}

/// A jump to the first row of the filtered view.
pub open spec fn select_first_rel(
    pre: LockerState,
    post: LockerState,
    q: Seq<char>,
    now: u64,
) -> bool {
    let idxs = filtered_of(pre, q);
    &&& same_rows_and_sort(pre, post)
    &&& post.active_filter == pre.active_filter
    &&& post.last_navigation == now
    &&& if idxs.len() == 0 {
        post.cursor == pre.cursor && post.selected_pid == pre.selected_pid
    } else {
        &&& post.cursor == Some(0usize)
        &&& post.selected_pid == Some(pre.processes@[idxs[0] as int].pid)
    }
}

/// A jump to the last row of the filtered view.
pub open spec fn select_last_rel(
    pre: LockerState,
    post: LockerState,
    q: Seq<char>,
    now: u64,
) -> bool {
    let idxs = filtered_of(pre, q);
    &&& same_rows_and_sort(pre, post)
    &&& post.active_filter == pre.active_filter
    &&& post.last_navigation == now
    &&& if idxs.len() == 0 {
        post.cursor == pre.cursor && post.selected_pid == pre.selected_pid
    } else {
        &&& post.cursor == Some((idxs.len() - 1) as usize)
        &&& post.selected_pid == Some(pre.processes@[idxs[idxs.len() - 1] as int].pid)
    }
}

/// The row the cursor points at through the filtered view, if any.
pub open spec fn selected_of(st: LockerState, q: Seq<char>) -> Option<ProcessInfo> {
    let idxs = filtered_of(st, q);
    match st.cursor {
        Some(i) => if (i as int) < idxs.len() {
            Some(st.processes@[idxs[i as int] as int])
        } else {
            None
        },
        None => None,
    }
}

impl LockerState {
    /// A fresh process view: no rows, no selection, no filter, sorted by
    /// CPU descending, first load still pending.
    pub fn new() -> (r: Self)
        ensures
            r.processes@ == Seq::<ProcessInfo>::empty(),
            r.cursor is None,
            r.active_filter is None,
            r.selected_pid is None,
            r.last_navigation == 0,
            r.sort_key == SortKey::Cpu,
            r.sort_order == SortOrder::Descending,
            r.last_data_hash is None,
            r.is_initial_load == true,
    {
        LockerState {
            processes: Vec::new(),
            cursor: None,
            active_filter: None,
            selected_pid: None,
            last_navigation: 0,
            sort_key: SortKey::Cpu,
            sort_order: SortOrder::Descending,
            last_data_hash: None,
            is_initial_load: true,
        }
    }

    /// The identity fingerprint of a snapshot.
    fn compute_data_hash(&self, processes: &Vec<ProcessInfo>) -> (r: u64)
        ensures
            r == snapshot_fingerprint(processes@),
    {
        let n = processes.len();
        let mut acc = fp_mix(FP_OFFSET, n as u64);
        let mut i: usize = 0;
        proof {
            assert(processes@.skip(0) =~= processes@);
        }
        while i < n
            invariant
                i <= n,
                n == processes@.len(),
                snapshot_fingerprint(processes@) == fp_rows(acc, processes@.skip(i as int)),
            decreases n - i,
        {
            let p = &processes[i];
            proof {
                assert(processes@.skip(i as int)[0] == processes@[i as int]);
                assert(processes@.skip(i as int).drop_first() =~= processes@.skip(i + 1));
            }
            acc = fp_str(fp_mix(acc, p.pid as u64), self_str(&p.name));
            i = i + 1;
        }
        acc
    }

    /// Whether an arriving snapshot would be discarded by the navigation
    /// debounce alone: the first load never is.
    pub fn should_ignore_update(&self, now_ms: u64) -> (r: bool)
        ensures
            r == (!self.is_initial_load && elapsed_since(now_ms, self.last_navigation)
                < DEBOUNCE_MS),
    {
        if self.is_initial_load {
            return false;
        }
        let elapsed = if now_ms >= self.last_navigation {
            now_ms - self.last_navigation
        } else {
            0
        };
        elapsed < DEBOUNCE_MS
    }

    /// The filter in force for a query-dependent operation: the transient
    /// query, lowercased, when it is non-empty; else the committed filter.
    fn get_filter(&self, search_query: &str) -> (r: Option<String>)
        ensures
            crate::text::opt_str_view(r) == effective_filter(*self, search_query@),
    {
        if search_query.unicode_len() > 0 {
            Some(lowercase(search_query))
        } else {
            match &self.active_filter {
                Some(f) => Some(f.clone()),
                None => None,
            }
        }
    }

    /// Indices of the rows the query keeps, in row order.
    pub fn get_filtered_indices(&self, search_query: &str) -> (r: Vec<usize>)
        ensures
            r@ == filtered_of(*self, search_query@),
    {
        let f = self.get_filter(search_query);
        let ghost fv = effective_filter(*self, search_query@);
        let mut r: Vec<usize> = Vec::new();
        let mut i: usize = 0;
        let n = self.processes.len();
        while i < n
            invariant
                i <= n,
                n == self.processes@.len(),
                crate::text::opt_str_view(f) == fv,
                r@ == filtered_upto(self.processes@, fv, i as int),
            decreases n - i,
        {
            let keep = match &f {
                None => true,
                Some(q) => proc_matches_exec(&self.processes[i], self_str(q)),
            };
            if keep {
                r.push(i);
            }
            i = i + 1;
        }
        r
    }

    /// The rows the query keeps, each with its index in the full list.
    pub fn filtered_processes(&self, search_query: &str) -> (r: Vec<(usize, ProcessInfo)>)
        ensures
            r@.len() == filtered_of(*self, search_query@).len(),
            forall|j: int|
                0 <= j < r@.len() ==> {
                    &&& (#[trigger] r@[j]).0 == filtered_of(*self, search_query@)[j]
                    &&& proc_like(r@[j].1, self.processes@[filtered_of(*self, search_query@)[j] as int])
                },
    {
        let idxs = self.get_filtered_indices(search_query);
        proof {
            lemma_filtered_bounds(
                self.processes@,
                effective_filter(*self, search_query@),
                self.processes@.len() as int,
            );
        }
        let mut r: Vec<(usize, ProcessInfo)> = Vec::new();
        let mut j: usize = 0;
        while j < idxs.len()
            invariant
                j <= idxs@.len(),
                idxs@ == filtered_of(*self, search_query@),
                forall|t: int|
                    0 <= t < idxs@.len() ==> (#[trigger] idxs@[t]) < self.processes@.len(),
                r@.len() == j,
                forall|t: int|
                    0 <= t < j ==> {
                        &&& (#[trigger] r@[t]).0 == idxs@[t]
                        &&& proc_like(r@[t].1, self.processes@[idxs@[t] as int])
                    },
            decreases idxs@.len() - j,
        {
            let idx = idxs[j];
            r.push((idx, self.processes[idx].duplicate()));
            j = j + 1;
        }
        r
    }

    /// Re-points the cursor at the selected row inside the committed
    /// filtered view, falling back to the top of the view, or to no
    /// selection when the view is empty.
    #[verifier::loop_isolation(false)]
    fn reconcile_selection(&mut self)
        ensures
            same_rows_and_sort(*old(self), *final(self)),
            final(self).active_filter == old(self).active_filter,
            final(self).last_navigation == old(self).last_navigation,
            final(self).cursor == reconciled_cursor(
                old(self).processes@,
                persisted_filtered(*old(self)),
                old(self).selected_pid,
            ),
            final(self).selected_pid == reconciled_sel(
                old(self).processes@,
                persisted_filtered(*old(self)),
                old(self).selected_pid,
            ),
    {
        proof {
            reveal_strlit("");
        }
        let idxs = self.get_filtered_indices("");
        let ghost s = self.processes@;
        proof {
            assert(effective_filter(*self, ""@) == crate::text::opt_str_view(self.active_filter));
            assert(idxs@ == persisted_filtered(*self));
            lemma_filtered_bounds(s, crate::text::opt_str_view(self.active_filter), s.len() as int);
        }
        match self.selected_pid {
            Some(pid) => {
                let mut j: usize = 0;
                let n = idxs.len();
                while j < n
                    invariant
                        j <= n,
                        n == idxs@.len(),
                        forall|t: int| 0 <= t < idxs@.len() ==> (#[trigger] idxs@[t]) < s.len(),
                        *self == *old(self),
                        find_pid_from(s, idxs@, pid, 0) == find_pid_from(s, idxs@, pid, j as int),
                    decreases n - j,
                {
                    if self.processes[idxs[j]].pid == pid {
                        self.cursor = Some(j);
                        return ;
                    }
                    j = j + 1;
                }
                // The selected pid is gone from the view.
                if idxs.len() > 0 {
                    self.cursor = Some(0);
                    self.selected_pid = Some(self.processes[idxs[0]].pid);
                } else {
                    self.cursor = None;
                    self.selected_pid = None;
                }
            },
            None => {
                if idxs.len() > 0 {
                    self.cursor = Some(0);
                    self.selected_pid = Some(self.processes[idxs[0]].pid);
                } else {
                    self.cursor = None;
                    self.selected_pid = None;
                }
            },
        }
    }

    /// Sorts the rows by the current key and order.
    fn sort_processes(&mut self)
        ensures
            final(self).processes@ == sort_spec(
                proc_le_fn(old(self).sort_key, old(self).sort_order),
                old(self).processes@,
            ),
            final(self).cursor == old(self).cursor,
            final(self).active_filter == old(self).active_filter,
            final(self).selected_pid == old(self).selected_pid,
            final(self).last_navigation == old(self).last_navigation,
            final(self).sort_key == old(self).sort_key,
            final(self).sort_order == old(self).sort_order,
            final(self).last_data_hash == old(self).last_data_hash,
            final(self).is_initial_load == old(self).is_initial_load,
    {
        let k = self.sort_key;
        let o = self.sort_order;
        let mut owned: Vec<ProcessInfo> = Vec::new();
        core::mem::swap(&mut owned, &mut self.processes);
        let cmp = |a: &ProcessInfo, b: &ProcessInfo| -> (res: bool)
            ensures
                res == proc_le(k, o, *a, *b),
            { proc_le_exec(k, o, a, b) };
        let ghost le = proc_le_fn(k, o);
        proof {
            assert forall|a: &ProcessInfo, b: &ProcessInfo, ret: bool|
                #[trigger] call_ensures(cmp, (a, b), ret) implies ret == le(*a, *b) by {
                assert(le(*a, *b) == proc_le(k, o, *a, *b));
            }
        }
        let sorted = sort_by_le(owned, &cmp, Ghost(le));
        self.processes = sorted;
    }

    /// Takes one snapshot in, or discards it: discarded when its identity
    /// fingerprint matches the last accepted snapshot, or when it lands in
    /// the debounce window after a navigation step (never on first load).
    /// Returns whether the snapshot was accepted; a discarded snapshot
    /// leaves the state exactly as it was.
    pub fn update_processes(&mut self, processes: Vec<ProcessInfo>, now_ms: u64) -> (accepted:
        bool)
        ensures
            update_rel(*old(self), *final(self), processes@, now_ms, accepted),
    {
        let h = self.compute_data_hash(&processes);
        let same = match self.last_data_hash {
            Some(prev) => prev == h,
            None => false,
        };
        if same {
            return false;
        }
        if self.should_ignore_update(now_ms) {
            return false;
        }
        self.processes = processes;
        self.last_data_hash = Some(h);
        self.sort_processes();
        self.reconcile_selection();
        self.is_initial_load = false;
        true
    }

    /// Commits a filter: an empty query clears it, any other is kept
    /// lowercased. Applies at once — filtering is a content decision, so
    /// it neither stamps nor consults the navigation debounce.
    pub fn set_filter(&mut self, query: String)
        ensures
            set_filter_rel(*old(self), *final(self), query@),
    {
        if str_is_empty(&query) {
            self.active_filter = None;
        } else {
            self.active_filter = Some(lowercase(self_str(&query)));
        }
        self.reconcile_selection();
    }

    /// Clears the committed filter; the whole list shows again.
    pub fn clear_filter(&mut self)
        ensures
            set_filter_rel(*old(self), *final(self), Seq::<char>::empty()),
    {
        self.active_filter = None;
        self.reconcile_selection();
    }

    /// Advances to the next sort key, re-sorts and re-points the cursor.
    pub fn cycle_sort_key(&mut self)
        ensures
            cycle_key_rel(*old(self), *final(self)),
    {
        self.sort_key = self.sort_key.next();
        self.sort_processes();
        self.reconcile_selection();
    }

    /// Flips the sort order, re-sorts and re-points the cursor.
    pub fn toggle_sort_order(&mut self)
        ensures
            toggle_order_rel(*old(self), *final(self)),
    {
        self.sort_order = self.sort_order.toggle();
        self.sort_processes();
        self.reconcile_selection();
    }

    /// Moves the selection one row down the filtered view, wrapping at the
    /// bottom. Stamps the navigation clock, arming the debounce.
    pub fn select_next(&mut self, search_query: &str, now_ms: u64)
        ensures
            select_next_rel(*old(self), *final(self), search_query@, now_ms),
    {
        let idxs = self.get_filtered_indices(search_query);
        self.last_navigation = now_ms;
        if idxs.len() == 0 {
            return ;
        }
        proof {
            lemma_filtered_bounds(
                old(self).processes@,
                effective_filter(*old(self), search_query@),
                old(self).processes@.len() as int,
            );
        }
        let i = match self.cursor {
            Some(c) => c,
            None => 0,
        };
        let ni = nav::wrap_next(i, idxs.len());
        self.cursor = Some(ni);
        self.selected_pid = Some(self.processes[idxs[ni]].pid);
    }

    /// Moves the selection one row up the filtered view, wrapping at the
    /// top. Stamps the navigation clock.
    pub fn select_prev(&mut self, search_query: &str, now_ms: u64)
        ensures
            select_prev_rel(*old(self), *final(self), search_query@, now_ms),
    {
        let idxs = self.get_filtered_indices(search_query);
        self.last_navigation = now_ms;
        if idxs.len() == 0 {
            return ;
        }
        proof {
            lemma_filtered_bounds(
                old(self).processes@,
                effective_filter(*old(self), search_query@),
                old(self).processes@.len() as int,
            );
        }
        let i = match self.cursor {
            Some(c) => c,
            None => 0,
        };
        let ni = nav::wrap_prev(i, idxs.len());
        self.cursor = Some(ni);
        self.selected_pid = Some(self.processes[idxs[ni]].pid);
    }

    /// Jumps the selection a page towards the top, clamped at the first
    /// row. Stamps the navigation clock.
    pub fn select_page_up(&mut self, search_query: &str, now_ms: u64)
        ensures
            page_up_rel(*old(self), *final(self), search_query@, now_ms),
    {
        let idxs = self.get_filtered_indices(search_query);
        self.last_navigation = now_ms;
        if idxs.len() == 0 {
            return ;
        }
        proof {
            lemma_filtered_bounds(
                old(self).processes@,
                effective_filter(*old(self), search_query@),
                old(self).processes@.len() as int,
            );
        }
        let i = match self.cursor {
            Some(c) => c,
            None => 0,
        };
        let ni = nav::page_up_index(i);
        self.cursor = Some(ni);
        if ni < idxs.len() {
            self.selected_pid = Some(self.processes[idxs[ni]].pid);
        } else {
            self.selected_pid = None;
        }
    }

    /// Jumps the selection a page towards the bottom, clamped at the last
    /// row of the view. Stamps the navigation clock.
    pub fn select_page_down(&mut self, search_query: &str, now_ms: u64)
        ensures
            page_down_rel(*old(self), *final(self), search_query@, now_ms),
    {
        let idxs = self.get_filtered_indices(search_query);
        self.last_navigation = now_ms;
        if idxs.len() == 0 {
            return ;
        }
        proof {
            lemma_filtered_bounds(
                old(self).processes@,
                effective_filter(*old(self), search_query@),
                old(self).processes@.len() as int,
            );
        }
        let i = match self.cursor {
            Some(c) => c,
            None => 0,
        };
        let ni = nav::page_down_index(i, idxs.len());
        self.cursor = Some(ni);
        self.selected_pid = Some(self.processes[idxs[ni]].pid);
    }

    /// Jumps the selection to the first row of the filtered view. Stamps
    /// the navigation clock.
    pub fn select_first(&mut self, search_query: &str, now_ms: u64)
        ensures
            select_first_rel(*old(self), *final(self), search_query@, now_ms),
    {
        let idxs = self.get_filtered_indices(search_query);
        self.last_navigation = now_ms;
        if idxs.len() == 0 {
            return ;
        }
        proof {
            lemma_filtered_bounds(
                old(self).processes@,
                effective_filter(*old(self), search_query@),
                old(self).processes@.len() as int,
            );
        }
        self.cursor = Some(0);
        self.selected_pid = Some(self.processes[idxs[0]].pid);
    }

    /// Jumps the selection to the last row of the filtered view. Stamps
    /// the navigation clock.
    pub fn select_last(&mut self, search_query: &str, now_ms: u64)
        ensures
            select_last_rel(*old(self), *final(self), search_query@, now_ms),
    {
        let idxs = self.get_filtered_indices(search_query);
        self.last_navigation = now_ms;
        if idxs.len() == 0 {
            return ;
        }
        proof {
            lemma_filtered_bounds(
                old(self).processes@,
                effective_filter(*old(self), search_query@),
                old(self).processes@.len() as int,
            );
        }
        let last = idxs.len() - 1;
        self.cursor = Some(last);
        self.selected_pid = Some(self.processes[idxs[last]].pid);
    }

    /// The row the cursor points at through the filtered view, if any.
    pub fn get_selected_process(&self, search_query: &str) -> (r: Option<&ProcessInfo>)
        ensures
            match r {
                Some(p) => selected_of(*self, search_query@) == Some(*p),
                None => selected_of(*self, search_query@) is None,
            },
    {
        let idxs = self.get_filtered_indices(search_query);
        proof {
            lemma_filtered_bounds(
                self.processes@,
                effective_filter(*self, search_query@),
                self.processes@.len() as int,
            );
        }
        match self.cursor {
            Some(i) => {
                if i < idxs.len() {
                    Some(&self.processes[idxs[i]])
                } else {
                    None
                }
            },
            None => None,
        }
    }
}

/// Whether a string is empty.
fn str_is_empty(s: &String) -> (r: bool)
    ensures
        r == (s@.len() == 0),
{
    s.as_str().unicode_len() == 0
}

/// Updating twice with the same snapshot is the same as updating once:
/// the second call is rejected by the fingerprint and leaves the state
/// exactly as the first call left it.
pub proof fn lemma_update_idempotent(
    s0: LockerState,
    s1: LockerState,
    s2: LockerState,
    snap: Seq<ProcessInfo>,
    t1: u64,
    t2: u64,
    acc2: bool,
)
    requires
        update_rel(s0, s1, snap, t1, true),
        update_rel(s1, s2, snap, t2, acc2),
    ensures
        acc2 == false,
        s2 == s1,
{
}

/// The filter keeps at most the rows it looked at.
pub proof fn lemma_filtered_len(s: Seq<ProcessInfo>, f: Option<Seq<char>>, n: int)
    ensures
        n >= 0 ==> filtered_upto(s, f, n).len() <= n,
        n < 0 ==> filtered_upto(s, f, n).len() == 0,
    decreases n,
{
    if n > 0 {
        lemma_filtered_len(s, f, n - 1);
    }
}

/// A search from `j` finds a hit whenever one lies at or past `j`.
proof fn lemma_find_some(s: Seq<ProcessInfo>, idxs: Seq<usize>, pid: u32, j: int)
    requires
        0 <= j <= idxs.len(),
        idxs.len() <= usize::MAX,
        exists|t: int| j <= t < idxs.len() && (#[trigger] s[idxs[t] as int]).pid == pid,
    ensures
        find_pid_from(s, idxs, pid, j) is Some,
    decreases idxs.len() - j,
{
    if s[idxs[j] as int].pid != pid {
        let t = choose|t: int| j <= t < idxs.len() && (#[trigger] s[idxs[t] as int]).pid == pid;
        assert(j + 1 <= t < idxs.len());
        lemma_find_some(s, idxs, pid, j + 1);
    }
}

/// What a successful search means: the hit lies in range and matches.
proof fn lemma_find_hit(s: Seq<ProcessInfo>, idxs: Seq<usize>, pid: u32, j: int, r: usize)
    requires
        0 <= j,
        idxs.len() <= usize::MAX,
        find_pid_from(s, idxs, pid, j) == Some(r),
    ensures
        j <= r < idxs.len(),
        s[idxs[r as int] as int].pid == pid,
    decreases idxs.len() - j,
{
    if j >= idxs.len() {
        assert(find_pid_from(s, idxs, pid, j) is None);
    } else if s[idxs[j] as int].pid == pid {
        assert(find_pid_from(s, idxs, pid, j) == Some(j as usize));
    } else {
        lemma_find_hit(s, idxs, pid, j + 1, r);
    }
}

/// Selection stability: when an accepted snapshot still contains the
/// selected row inside the committed filtered view, the selection stays
/// on that identity and the cursor re-points to its new position.
pub proof fn lemma_selection_stable(
    pre: LockerState,
    post: LockerState,
    snap: Seq<ProcessInfo>,
    now: u64,
    pid: u32,
)
    requires
        update_rel(pre, post, snap, now, true),
        post.processes@.len() <= usize::MAX,
        pre.selected_pid == Some(pid),
        exists|t: int|
            0 <= t < persisted_filtered(post).len() && (#[trigger] post.processes@[persisted_filtered(
                post,
            )[t] as int]).pid == pid,
    ensures
        post.selected_pid == Some(pid),
        post.cursor is Some,
        post.processes@[persisted_filtered(post)[post.cursor.unwrap() as int] as int].pid == pid,
{
    let idxs = persisted_filtered(post);
    lemma_filtered_len(
        post.processes@,
        crate::text::opt_str_view(post.active_filter),
        post.processes@.len() as int,
    );
    lemma_find_some(post.processes@, idxs, pid, 0);
    let r = find_pid_from(post.processes@, idxs, pid, 0).unwrap();
    lemma_find_hit(post.processes@, idxs, pid, 0, r);
}

/// A snapshot with changed content arriving inside the debounce window of
/// a navigation step is discarded outright, once the first load is done.
pub proof fn lemma_debounce_rejects(
    pre: LockerState,
    post: LockerState,
    snap: Seq<ProcessInfo>,
    now: u64,
    acc: bool,
)
    requires
        update_rel(pre, post, snap, now, acc),
        !pre.is_initial_load,
        elapsed_since(now, pre.last_navigation) < DEBOUNCE_MS,
    ensures
        acc == false,
        post == pre,
{
}

/// Once the debounce window has elapsed, a snapshot whose content differs
/// from the last accepted one is accepted.
pub proof fn lemma_debounce_expires(
    pre: LockerState,
    post: LockerState,
    snap: Seq<ProcessInfo>,
    now: u64,
    acc: bool,
)
    requires
        update_rel(pre, post, snap, now, acc),
        pre.last_data_hash != Some(snapshot_fingerprint(snap)),
        elapsed_since(now, pre.last_navigation) >= DEBOUNCE_MS,
    ensures
        acc == true,
{
}

/// The very first update is always accepted, whatever the timing: the
/// debounce does not apply before the initial load, and no fingerprint
/// has been recorded yet.
pub proof fn lemma_first_update_accepted(
    pre: LockerState,
    post: LockerState,
    snap: Seq<ProcessInfo>,
    now: u64,
    acc: bool,
)
    requires
        update_rel(pre, post, snap, now, acc),
        pre.is_initial_load,
        pre.last_data_hash is None,
    ensures
        acc == true,
{
}

/// Navigation arms the debounce: after a navigation step at `t_nav`, a
/// snapshot with changed content arriving before the window closes is
/// rejected, and one arriving at or after the window is accepted.
pub proof fn lemma_navigation_arms_debounce(
    s0: LockerState,
    s1: LockerState,
    s2: LockerState,
    q: Seq<char>,
    t_nav: u64,
    snap: Seq<ProcessInfo>,
    t_up: u64,
    acc: bool,
)
    requires
        select_next_rel(s0, s1, q, t_nav),
        update_rel(s1, s2, snap, t_up, acc),
        !s0.is_initial_load,
        t_nav <= t_up,
    ensures
        t_up - t_nav < DEBOUNCE_MS ==> acc == false && s2 == s1,
        (t_up - t_nav >= DEBOUNCE_MS && s1.last_data_hash != Some(snapshot_fingerprint(snap)))
            ==> acc == true,
{
}

/// Filter precedence: a non-empty transient query decides the filtered
/// view by itself; an empty one defers to the committed filter.
pub proof fn lemma_filter_precedence(st: LockerState, q: Seq<char>)
    ensures
        q.len() > 0 ==> filtered_of(st, q) == filtered_upto(
            st.processes@,
            Some(lower_of(q)),
            st.processes@.len() as int,
        ),
        q.len() == 0 ==> filtered_of(st, q) == persisted_filtered(st),
{
}


/// The comparator in force is a total, transitive preorder, whatever the
/// key and order.
pub proof fn lemma_proc_le_total_trans(k: SortKey, o: SortOrder)
    ensures
        forall|a: ProcessInfo, b: ProcessInfo| #[trigger] proc_le(k, o, a, b) || #[trigger] proc_le(k, o, b, a),
        forall|a: ProcessInfo, b: ProcessInfo, c: ProcessInfo|
            #[trigger] proc_le(k, o, a, b) && #[trigger] proc_le(k, o, b, c) ==> proc_le(k, o, a, c),
{
    assert forall|a: ProcessInfo, b: ProcessInfo| #[trigger] proc_le(k, o, a, b) || #[trigger] proc_le(
        k,
        o,
        b,
        a,
    ) by {
        match k {
            SortKey::Name => {
                crate::text::lemma_seq_char_le_total(a.name@, b.name@);
            },
            _ => {},
        }
    }
    assert forall|a: ProcessInfo, b: ProcessInfo, c: ProcessInfo|
        #[trigger] proc_le(k, o, a, b) && #[trigger] proc_le(k, o, b, c) implies proc_le(
        k,
        o,
        a,
        c,
    ) by {
        match k {
            SortKey::Name => {
                match o {
                    SortOrder::Ascending => crate::text::lemma_seq_char_le_trans(
                        a.name@,
                        b.name@,
                        c.name@,
                    ),
                    SortOrder::Descending => crate::text::lemma_seq_char_le_trans(
                        c.name@,
                        b.name@,
                        a.name@,
                    ),
                }
            },
            _ => {},
        }
    }
}

/// Sorting is never partial: the re-sorted rows are fully ordered by the
/// comparator in force, and are exactly the given rows rearranged.
pub proof fn lemma_rows_fully_sorted(k: SortKey, o: SortOrder, rows: Seq<ProcessInfo>)
    ensures
        crate::sorting::sorted_by_le(proc_le_fn(k, o), sort_spec(proc_le_fn(k, o), rows)),
        sort_spec(proc_le_fn(k, o), rows).to_multiset() == rows.to_multiset(),
{
    let le = proc_le_fn(k, o);
    lemma_proc_le_total_trans(k, o);
    assert forall|a: ProcessInfo, b: ProcessInfo| #[trigger] le(a, b) || #[trigger] le(b, a) by {
        assert(le(a, b) == proc_le(k, o, a, b));
        assert(le(b, a) == proc_le(k, o, b, a));
    }
    assert forall|a: ProcessInfo, b: ProcessInfo, c: ProcessInfo| #[trigger] le(a, b) && #[trigger] le(b, c)
        implies le(a, c) by {
        assert(le(a, b) == proc_le(k, o, a, b));
        assert(le(b, c) == proc_le(k, o, b, c));
        assert(le(a, c) == proc_le(k, o, a, c));
    }
    crate::sorting::lemma_sort_spec_sorted(le, rows);
    crate::sorting::lemma_sort_spec_permutes(le, rows);
}


/// A snapshot whose identity fingerprint matches the last accepted one
/// is a guaranteed no-op: nothing is re-sorted, no selection moves, no
/// field changes.
pub proof fn lemma_fingerprint_noop(
    pre: LockerState,
    post: LockerState,
    snap: Seq<ProcessInfo>,
    now: u64,
    acc: bool,
)
    requires
        update_rel(pre, post, snap, now, acc),
        pre.last_data_hash == Some(snapshot_fingerprint(snap)),
    ensures
        acc == false,
        post == pre,
{
}

} // verus!

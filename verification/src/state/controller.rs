//! List state for the service view: the authoritative service list, the
//! selection tracked by service name, the committed filter, the sort key
//! and order, the navigation debounce clock and the content fingerprint.

use vstd::prelude::*;
use vstd::string::StrSliceExecFns;

use crate::fingerprint::{fp_mix, fp_step, fp_str, fp_text, FP_OFFSET};
use crate::nav;
use crate::sorting::{sort_by_le, sort_spec};
use crate::text::{
    contains_seq, lower_of, lowercase, opt_str_view, seq_char_le, str_contains, str_le,
};

verus! {

/// Snapshots arriving within this many milliseconds of a navigation step
/// are discarded, so the list does not jump under the user's cursor.
pub const DEBOUNCE_MS: u64 = 50;

#[derive(Debug, Clone, Copy, PartialEq, Eq, Structural)]
pub enum SortKey {
    Name,
    Status,
    Type,
}

/// The key after `k` in the fixed sort-key cycle.
pub open spec fn next_key(k: SortKey) -> SortKey {
    match k {
        SortKey::Name => SortKey::Status,
        SortKey::Status => SortKey::Type,
        SortKey::Type => SortKey::Name,
    }
}

/// The display label of a sort key.
pub open spec fn sort_key_label(k: SortKey) -> Seq<char> {
    match k {
        SortKey::Name => "Name"@,
        SortKey::Status => "Status"@,
        SortKey::Type => "Type"@,
    }
}

impl SortKey {
    /// The key after this one in the fixed sort-key cycle.
    pub fn next(&self) -> (r: Self)
        ensures
            r == next_key(*self),
    {
        match self {
            SortKey::Name => SortKey::Status,
            SortKey::Status => SortKey::Type,
            SortKey::Type => SortKey::Name,
        }
    }

    /// The display label of this sort key.
    pub fn as_str(&self) -> (r: &'static str)
        ensures
            r@ == sort_key_label(*self),
    {
        match self {
            SortKey::Name => "Name",
            SortKey::Status => "Status",
            SortKey::Type => "Type",
        }
    }
}

#[derive(Debug, Clone, Copy, PartialEq, Eq, Structural)]
pub enum SortOrder {
    Ascending,
    Descending,
}

/// The opposite sort order.
pub open spec fn toggled(o: SortOrder) -> SortOrder {
    match o {
        SortOrder::Ascending => SortOrder::Descending,
        SortOrder::Descending => SortOrder::Ascending,
    }
}

/// The display marker of a sort order.
pub open spec fn sort_order_label(o: SortOrder) -> Seq<char> {
    match o {
        SortOrder::Ascending => "▲"@,
        SortOrder::Descending => "▼"@,
    }
}

impl SortOrder {
    /// The opposite order.
    pub fn toggle(&self) -> (r: Self)
        ensures
            r == toggled(*self),
    {
        match self {
            SortOrder::Ascending => SortOrder::Descending,
            SortOrder::Descending => SortOrder::Ascending,
        }
    }

    /// The display marker of this order.
    pub fn as_str(&self) -> (r: &'static str)
        ensures
            r@ == sort_order_label(*self),
    {
        match self {
            SortOrder::Ascending => "▲",
            SortOrder::Descending => "▼",
        }
    }
}

/// A service's run state; an unrecognised control-manager code is kept as
/// it came.
#[derive(Debug, Clone, Copy, PartialEq, Eq, Structural)]
pub enum ServiceStatus {
    Stopped,
    StartPending,
    StopPending,
    Running,
    ContinuePending,
    PausePending,
    Paused,
    Unknown(u32),
}

/// The service status for a service-control-manager state code.
pub fn status_from_code(code: u32) -> (r: ServiceStatus)
    ensures
        r == spec_status_from_code(code),
{
    match code {
        1u32 => ServiceStatus::Stopped,
        2u32 => ServiceStatus::StartPending,
        3u32 => ServiceStatus::StopPending,
        4u32 => ServiceStatus::Running,
        5u32 => ServiceStatus::ContinuePending,
        6u32 => ServiceStatus::PausePending,
        7u32 => ServiceStatus::Paused,
        _ => ServiceStatus::Unknown(code),
    }
}

/// The status a service-control-manager state code denotes.
pub open spec fn spec_status_from_code(code: u32) -> ServiceStatus {
    if code == 1 {
        ServiceStatus::Stopped
    } else if code == 2 {
        ServiceStatus::StartPending
    } else if code == 3 {
        ServiceStatus::StopPending
    } else if code == 4 {
        ServiceStatus::Running
    } else if code == 5 {
        ServiceStatus::ContinuePending
    } else if code == 6 {
        ServiceStatus::PausePending
    } else if code == 7 {
        ServiceStatus::Paused
    } else {
        ServiceStatus::Unknown(code)
    }
}

/// The display label of a status; an unrecognised code shows as Unknown.
pub open spec fn status_label_of(st: ServiceStatus) -> Seq<char> {
    match st {
        ServiceStatus::Stopped => "Stopped"@,
        ServiceStatus::StartPending => "Start Pending"@,
        ServiceStatus::StopPending => "Stop Pending"@,
        ServiceStatus::Running => "Running"@,
        ServiceStatus::ContinuePending => "Continue Pending"@,
        ServiceStatus::PausePending => "Pause Pending"@,
        ServiceStatus::Paused => "Paused"@,
        ServiceStatus::Unknown(_) => "Unknown"@,
    }
}

impl ServiceStatus {
    /// The display label of this status.
    pub fn as_str(&self) -> (r: &'static str)
        ensures
            r@ == status_label_of(*self),
    {
        match self {
            ServiceStatus::Stopped => "Stopped",
            ServiceStatus::StartPending => "Start Pending",
            ServiceStatus::StopPending => "Stop Pending",
            ServiceStatus::Running => "Running",
            ServiceStatus::ContinuePending => "Continue Pending",
            ServiceStatus::PausePending => "Pause Pending",
            ServiceStatus::Paused => "Paused",
            ServiceStatus::Unknown(_) => "Unknown",
        }
    }
}

/// Rank used when sorting by status: operational states cluster first.
pub open spec fn spec_status_priority(st: ServiceStatus) -> u8 {
    match st {
        ServiceStatus::Running => 0u8,
        ServiceStatus::StartPending => 1u8,
        ServiceStatus::StopPending => 2u8,
        ServiceStatus::Paused => 3u8,
        ServiceStatus::PausePending => 4u8,
        ServiceStatus::ContinuePending => 5u8,
        ServiceStatus::Stopped => 6u8,
        ServiceStatus::Unknown(_) => 7u8,
    }
}

/// Rank used when sorting by status: operational states cluster first.
pub fn status_priority(status: &ServiceStatus) -> (r: u8)
    ensures
        r == spec_status_priority(*status),
{
    match status {
        ServiceStatus::Running => 0,
        ServiceStatus::StartPending => 1,
        ServiceStatus::StopPending => 2,
        ServiceStatus::Paused => 3,
        ServiceStatus::PausePending => 4,
        ServiceStatus::ContinuePending => 5,
        ServiceStatus::Stopped => 6,
        ServiceStatus::Unknown(_) => 7,
    }
}

/// How a service process is hosted; an unrecognised type code shows as
/// Unknown.
#[derive(Debug, Clone, Copy, PartialEq, Eq, Structural)]
pub enum ServiceKind {
    OwnProcess,
    OwnProcessInteractive,
    ShareProcess,
    ShareProcessInteractive,
    Unknown,
}

/// The service kind for a service-type code.
pub fn kind_from_code(code: u32) -> (r: ServiceKind)
    ensures
        r == spec_kind_from_code(code),
{
    match code {
        0x10u32 => ServiceKind::OwnProcess,
        0x20u32 => ServiceKind::ShareProcess,
        0x110u32 => ServiceKind::OwnProcessInteractive,
        0x120u32 => ServiceKind::ShareProcessInteractive,
        _ => ServiceKind::Unknown,
    }
}

/// The kind a service-type code denotes.
pub open spec fn spec_kind_from_code(code: u32) -> ServiceKind {
    if code == 0x10 {
        ServiceKind::OwnProcess
    } else if code == 0x20 {
        ServiceKind::ShareProcess
    } else if code == 0x110 {
        ServiceKind::OwnProcessInteractive
    } else if code == 0x120 {
        ServiceKind::ShareProcessInteractive
    } else {
        ServiceKind::Unknown
    }
}

/// The display label of a service kind.
pub open spec fn kind_label_of(k: ServiceKind) -> Seq<char> {
    match k {
        ServiceKind::OwnProcess => "Own Process"@,
        ServiceKind::OwnProcessInteractive => "Own Process (Interactive)"@,
        ServiceKind::ShareProcess => "Share Process"@,
        ServiceKind::ShareProcessInteractive => "Share Process (Interactive)"@,
        ServiceKind::Unknown => "Unknown"@,
    }
}

impl ServiceKind {
    /// The display label of this kind.
    pub fn as_str(&self) -> (r: &'static str)
        ensures
            r@ == kind_label_of(*self),
    {
        match self {
            ServiceKind::OwnProcess => "Own Process",
            ServiceKind::OwnProcessInteractive => "Own Process (Interactive)",
            ServiceKind::ShareProcess => "Share Process",
            ServiceKind::ShareProcessInteractive => "Share Process (Interactive)",
            ServiceKind::Unknown => "Unknown",
        }
    }
}

/// Rank used when sorting by type: the lexicographic order of the labels.
pub open spec fn spec_kind_priority(k: ServiceKind) -> u8 {
    match k {
        ServiceKind::OwnProcess => 0u8,
        ServiceKind::OwnProcessInteractive => 1u8,
        ServiceKind::ShareProcess => 2u8,
        ServiceKind::ShareProcessInteractive => 3u8,
        ServiceKind::Unknown => 4u8,
    }
}

fn kind_priority(k: &ServiceKind) -> (r: u8)
    ensures
        r == spec_kind_priority(*k),
{
    match k {
        ServiceKind::OwnProcess => 0,
        ServiceKind::OwnProcessInteractive => 1,
        ServiceKind::ShareProcess => 2,
        ServiceKind::ShareProcessInteractive => 3,
        ServiceKind::Unknown => 4,
    }
}

/// The display name of a service-type code, as the control manager's
/// type table has it.
pub fn service_type_to_string(service_type: u32) -> (r: String)
    ensures
        r@ == kind_label_of(spec_kind_from_code(service_type)),
{
    let k = kind_from_code(service_type);
    crate::text::str_to_owned(k.as_str())
}

/// How a service is started; an unrecognised code shows as Unknown.
#[derive(Debug, Clone, Copy, PartialEq, Eq, Structural)]
pub enum StartType {
    Boot,
    System,
    Auto,
    Manual,
    Disabled,
    Unknown,
}

/// The start type for a start-type code.
pub fn start_type_from_code(code: u32) -> (r: StartType)
    ensures
        r == spec_start_type_from_code(code),
{
    match code {
        0u32 => StartType::Boot,
        1u32 => StartType::System,
        2u32 => StartType::Auto,
        3u32 => StartType::Manual,
        4u32 => StartType::Disabled,
        _ => StartType::Unknown,
    }
}

/// The start type a start-type code denotes.
pub open spec fn spec_start_type_from_code(code: u32) -> StartType {
    if code == 0 {
        StartType::Boot
    } else if code == 1 {
        StartType::System
    } else if code == 2 {
        StartType::Auto
    } else if code == 3 {
        StartType::Manual
    } else if code == 4 {
        StartType::Disabled
    } else {
        StartType::Unknown
    }
}

/// The display label of a start type.
pub open spec fn start_label_of(t: StartType) -> Seq<char> {
    match t {
        StartType::Boot => "Boot"@,
        StartType::System => "System"@,
        StartType::Auto => "Auto"@,
        StartType::Manual => "Manual"@,
        StartType::Disabled => "Disabled"@,
        StartType::Unknown => "Unknown"@,
    }
}

impl StartType {
    /// The display label of this start type.
    pub fn as_str(&self) -> (r: &'static str)
        ensures
            r@ == start_label_of(*self),
    {
        match self {
            StartType::Boot => "Boot",
            StartType::System => "System",
            StartType::Auto => "Auto",
            StartType::Manual => "Manual",
            StartType::Disabled => "Disabled",
            StartType::Unknown => "Unknown",
        }
    }
}

/// The display name of a start-type code.
pub fn start_type_to_string(start_type: u32) -> (r: String)
    ensures
        r@ == start_label_of(spec_start_type_from_code(start_type)),
{
    let t = start_type_from_code(start_type);
    crate::text::str_to_owned(t.as_str())
}

/// One service row. The identity key is `service_name`.
#[derive(Debug)]
pub struct ServiceInfo {
    pub service_name: String,
    pub display_name: String,
    pub status: ServiceStatus,
    pub start_type: StartType,
    pub service_type: ServiceKind,
    pub pid: u32,
}

/// Whether two service rows carry the same visible data.
pub open spec fn svc_like(a: ServiceInfo, b: ServiceInfo) -> bool {
    &&& a.service_name@ == b.service_name@
    &&& a.display_name@ == b.display_name@
    &&& a.status == b.status
    &&& a.start_type == b.start_type
    &&& a.service_type == b.service_type
    &&& a.pid == b.pid
}

impl ServiceInfo {
    /// A field-for-field copy.
    pub fn duplicate(&self) -> (r: ServiceInfo)
        ensures
            svc_like(r, *self),
    {
        ServiceInfo {
            service_name: self.service_name.clone(),
            display_name: self.display_name.clone(),
            status: self.status,
            start_type: self.start_type,
            service_type: self.service_type,
            pid: self.pid,
        }
    }
}

/// Whether `a` sorts at-or-before `b` under one sort key, ascending.
pub open spec fn svc_le_key(k: SortKey, a: ServiceInfo, b: ServiceInfo) -> bool {
    match k {
        SortKey::Name => seq_char_le(a.display_name@, b.display_name@),
        SortKey::Status => spec_status_priority(a.status) <= spec_status_priority(b.status),
        SortKey::Type => spec_kind_priority(a.service_type) <= spec_kind_priority(b.service_type),
    }
}

/// The total preorder the list is kept sorted by. Descending order swaps
/// the operands, so rows that tie keep their incoming relative order.
pub open spec fn svc_le(k: SortKey, o: SortOrder, a: ServiceInfo, b: ServiceInfo) -> bool {
    match o {
        SortOrder::Ascending => svc_le_key(k, a, b),
        SortOrder::Descending => svc_le_key(k, b, a),
    }
}

/// `svc_le` as a closed-over comparison function, for `sort_spec`.
pub open spec fn svc_le_fn(k: SortKey, o: SortOrder) -> spec_fn(ServiceInfo, ServiceInfo) -> bool {
    |a: ServiceInfo, b: ServiceInfo| svc_le(k, o, a, b)
}

fn svc_le_key_exec(k: SortKey, a: &ServiceInfo, b: &ServiceInfo) -> (r: bool)
    ensures
        r == svc_le_key(k, *a, *b),
{
    match k {
        SortKey::Name => str_le(self_str(&a.display_name), self_str(&b.display_name)),
        SortKey::Status => status_priority(&a.status) <= status_priority(&b.status),
        SortKey::Type => kind_priority(&a.service_type) <= kind_priority(&b.service_type),
    }
}

/// `String::as_str` under a local name, so call sites stay terse.
fn self_str(s: &String) -> (r: &str)
    ensures
        r@ == s@,
{
    s.as_str()
}

fn svc_le_exec(k: SortKey, o: SortOrder, a: &ServiceInfo, b: &ServiceInfo) -> (r: bool)
    ensures
        r == svc_le(k, o, *a, *b),
{
    match o {
        SortOrder::Ascending => svc_le_key_exec(k, a, b),
        SortOrder::Descending => svc_le_key_exec(k, b, a),
    }
}

/// Whether one service row matches a lowercase query: by display name or
/// by service name.
pub open spec fn svc_matches(s: ServiceInfo, q: Seq<char>) -> bool {
    ||| contains_seq(lower_of(s.display_name@), q)
    ||| contains_seq(lower_of(s.service_name@), q)
}

fn svc_matches_exec(s: &ServiceInfo, q: &str) -> (r: bool)
    ensures
        r == svc_matches(*s, q@),
{
    let low_disp = lowercase(self_str(&s.display_name));
    if str_contains(self_str(&low_disp), q) {
        return true;
    }
    let low_name = lowercase(self_str(&s.service_name));
    str_contains(self_str(&low_name), q)
}

/// Whether a row passes an optional lowercase filter; no filter passes all.
pub open spec fn matches_opt(s: ServiceInfo, f: Option<Seq<char>>) -> bool {
    match f {
        None => true,
        Some(q) => svc_matches(s, q),
    }
}

/// Indices below `n` of the rows that pass the filter, in ascending order.
pub open spec fn filtered_upto(s: Seq<ServiceInfo>, f: Option<Seq<char>>, n: int) -> Seq<usize>
    decreases n,
{
    if n <= 0 {
        Seq::empty()
    } else if matches_opt(s[n - 1], f) {
        filtered_upto(s, f, n - 1).push((n - 1) as usize)
    } else {
        filtered_upto(s, f, n - 1)
    }
}

/// Every index the filter keeps points into the first `n` rows.
pub proof fn lemma_filtered_bounds(s: Seq<ServiceInfo>, f: Option<Seq<char>>, n: int)
    ensures
        forall|j: int|
            0 <= j < filtered_upto(s, f, n).len() ==> (#[trigger] filtered_upto(s, f, n)[j]) < n,
    decreases n,
{
    if n > 0 {
        lemma_filtered_bounds(s, f, n - 1);
        let prev = filtered_upto(s, f, n - 1);
        let cur = filtered_upto(s, f, n);
        assert forall|j: int| 0 <= j < cur.len() implies cur[j] < n by {
            if matches_opt(s[n - 1], f) {
                assert(cur == prev.push((n - 1) as usize));
                if j < prev.len() {
                    assert(cur[j] == prev[j]);
                }
            } else {
                assert(cur == prev);
                assert(cur[j] == prev[j]);
            }
        }
    }
}

/// The filter keeps at most the rows it looked at.
pub proof fn lemma_filtered_len(s: Seq<ServiceInfo>, f: Option<Seq<char>>, n: int)
    ensures
        n >= 0 ==> filtered_upto(s, f, n).len() <= n,
        n < 0 ==> filtered_upto(s, f, n).len() == 0,
    decreases n,
{
    if n > 0 {
        lemma_filtered_len(s, f, n - 1);
    }
}

/// List state for the service view.
pub struct ControllerState {
    pub services: Vec<ServiceInfo>,
    pub cursor: Option<usize>,
    pub active_filter: Option<String>,
    pub selected_service_name: Option<String>,
    pub last_navigation: u64,
    pub sort_key: SortKey,
    pub sort_order: SortOrder,
    pub last_data_hash: Option<u64>,
    pub is_initial_load: bool,
}

/// The filter a query-dependent operation uses: a non-empty transient
/// query takes precedence over the committed filter, without changing it.
pub open spec fn effective_filter(st: ControllerState, q: Seq<char>) -> Option<Seq<char>> {
    if q.len() > 0 {
        Some(lower_of(q))
    } else {
        opt_str_view(st.active_filter)
    }
}

/// The filtered view: indices of the rows the query keeps, in row order.
pub open spec fn filtered_of(st: ControllerState, q: Seq<char>) -> Seq<usize> {
    filtered_upto(st.services@, effective_filter(st, q), st.services@.len() as int)
}

/// The filtered view under the committed filter alone.
pub open spec fn persisted_filtered(st: ControllerState) -> Seq<usize> {
    filtered_upto(st.services@, opt_str_view(st.active_filter), st.services@.len() as int)
}

/// Position inside `idxs`, searching from `j` on, of the first row whose
/// service name reads `name`.
pub open spec fn find_name_from(
    s: Seq<ServiceInfo>,
    idxs: Seq<usize>,
    name: Seq<char>,
    j: int,
) -> Option<usize>
    decreases idxs.len() - j,
{
    if j < 0 || j >= idxs.len() {
        None
    } else if s[idxs[j] as int].service_name@ == name {
        Some(j as usize)
    } else {
        find_name_from(s, idxs, name, j + 1)
    }
}

/// The cursor after reconciling the selection against a filtered view:
/// the selected row's new position if it survived, else the top of the
/// view, else nothing.
pub open spec fn reconciled_cursor(
    s: Seq<ServiceInfo>,
    idxs: Seq<usize>,
    sel: Option<Seq<char>>,
) -> Option<usize> {
    match sel {
        Some(name) => match find_name_from(s, idxs, name, 0) {
            Some(j) => Some(j),
            None => if idxs.len() > 0 {
                Some(0usize)
            } else {
                None
            },
        },
        None => if idxs.len() > 0 {
            Some(0usize)
        } else {
            None
        },
    }
}

/// The selected identity after the same reconciliation.
pub open spec fn reconciled_sel(
    s: Seq<ServiceInfo>,
    idxs: Seq<usize>,
    sel: Option<Seq<char>>,
) -> Option<Seq<char>> {
    match sel {
        Some(name) => match find_name_from(s, idxs, name, 0) {
            Some(j) => Some(name),
            None => if idxs.len() > 0 {
                Some(s[idxs[0] as int].service_name@)
            } else {
                None
            },
        },
        None => if idxs.len() > 0 {
            Some(s[idxs[0] as int].service_name@)
        } else {
            None
        },
    }
}

/// A fingerprint-friendly code for a status; unrecognised codes keep
/// their raw value.
pub open spec fn status_code(st: ServiceStatus) -> u64 {
    match st {
        ServiceStatus::Stopped => 1u64,
        ServiceStatus::StartPending => 2u64,
        ServiceStatus::StopPending => 3u64,
        ServiceStatus::Running => 4u64,
        ServiceStatus::ContinuePending => 5u64,
        ServiceStatus::PausePending => 6u64,
        ServiceStatus::Paused => 7u64,
        ServiceStatus::Unknown(c) => c as u64,
    }
}

fn status_code_exec(st: &ServiceStatus) -> (r: u64)
    ensures
        r == status_code(*st),
{
    match st {
        ServiceStatus::Stopped => 1,
        ServiceStatus::StartPending => 2,
        ServiceStatus::StopPending => 3,
        ServiceStatus::Running => 4,
        ServiceStatus::ContinuePending => 5,
        ServiceStatus::PausePending => 6,
        ServiceStatus::Paused => 7,
        ServiceStatus::Unknown(c) => *c as u64,
    }
}

/// The identity fingerprint of one row: service name, then status.
pub open spec fn fp_row(h: u64, s: ServiceInfo) -> u64 {
    fp_step(fp_text(h, s.service_name@), status_code(s.status))
}

/// The fingerprint after folding in every row, first to last.
pub open spec fn fp_rows(h: u64, s: Seq<ServiceInfo>) -> u64
    decreases s.len(),
{
    if s.len() == 0 {
        h
    } else {
        fp_rows(fp_row(h, s[0]), s.drop_first())
    }
}

/// The identity fingerprint of a snapshot: its length, then each row's
/// service name and status.
pub open spec fn snapshot_fingerprint(s: Seq<ServiceInfo>) -> u64 {
    fp_rows(fp_step(FP_OFFSET, s.len() as u64), s)
}

/// How long before `now` the moment `past` lies; zero when it does not.
pub open spec fn elapsed_since(now: u64, past: u64) -> u64 {
    if now >= past {
        (now - past) as u64
    } else {
        0
    }
}

/// Whether a snapshot is taken in: its identity content must differ from
/// the last accepted snapshot, and, once the first load is done, it must
/// not land inside the navigation debounce window.
pub open spec fn accepts(pre: ControllerState, snap: Seq<ServiceInfo>, now: u64) -> bool {
    &&& pre.last_data_hash != Some(snapshot_fingerprint(snap))
    &&& (pre.is_initial_load || elapsed_since(now, pre.last_navigation) >= DEBOUNCE_MS)
}

/// How an accepted or rejected snapshot changes the state: a rejected one
/// changes nothing at all; an accepted one replaces the rows wholesale,
/// re-sorts them, refreshes the fingerprint and reconciles the selection
/// against the committed filter.
pub open spec fn update_rel(
    pre: ControllerState,
    post: ControllerState,
    snap: Seq<ServiceInfo>,
    now: u64,
    accepted: bool,
) -> bool {
    &&& accepted == accepts(pre, snap, now)
    &&& if !accepted {
        post == pre
    } else {
        &&& post.services@ == sort_spec(svc_le_fn(pre.sort_key, pre.sort_order), snap)
        &&& post.active_filter == pre.active_filter
        &&& post.sort_key == pre.sort_key
        &&& post.sort_order == pre.sort_order
        &&& post.last_navigation == pre.last_navigation
        &&& post.last_data_hash == Some(snapshot_fingerprint(snap))
        &&& post.is_initial_load == false
        &&& post.cursor == reconciled_cursor(
            post.services@,
            persisted_filtered(post),
            opt_str_view(pre.selected_service_name),
        )
        &&& opt_str_view(post.selected_service_name) == reconciled_sel(
            post.services@,
            persisted_filtered(post),
            opt_str_view(pre.selected_service_name),
        )
    }
}

/// The fields a navigation or filter operation leaves alone.
pub open spec fn same_rows_and_sort(pre: ControllerState, post: ControllerState) -> bool {
    &&& post.services == pre.services
    &&& post.sort_key == pre.sort_key
    &&& post.sort_order == pre.sort_order
    &&& post.last_data_hash == pre.last_data_hash
    &&& post.is_initial_load == pre.is_initial_load
}


/// Committing a filter: an empty query clears it, any other is kept
/// lowercased; the selection is reconciled against the new committed
/// view. Rows, sort and the navigation clock stay as they were.
pub open spec fn set_filter_rel(pre: ControllerState, post: ControllerState, query: Seq<char>) -> bool {
    &&& same_rows_and_sort(pre, post)
    &&& post.last_navigation == pre.last_navigation
    &&& crate::text::opt_str_view(post.active_filter) == (if query.len() == 0 {
        None::<Seq<char>>
    } else {
        Some(lower_of(query))
    })
    &&& post.cursor == reconciled_cursor(pre.services@, persisted_filtered(post), opt_str_view(pre.selected_service_name))
    &&& opt_str_view(post.selected_service_name) == reconciled_sel(pre.services@, persisted_filtered(post), opt_str_view(pre.selected_service_name))
}

/// Advancing the sort key: the rows re-sorted under the next key, the
/// selection reconciled, everything else as it was.
pub open spec fn cycle_key_rel(pre: ControllerState, post: ControllerState) -> bool {
    &&& post.sort_key == next_key(pre.sort_key)
    &&& post.sort_order == pre.sort_order
    &&& post.services@ == sort_spec(svc_le_fn(next_key(pre.sort_key), pre.sort_order), pre.services@)
    &&& post.active_filter == pre.active_filter
    &&& post.last_navigation == pre.last_navigation
    &&& post.last_data_hash == pre.last_data_hash
    &&& post.is_initial_load == pre.is_initial_load
    &&& post.cursor == reconciled_cursor(post.services@, persisted_filtered(post), opt_str_view(pre.selected_service_name))
    &&& opt_str_view(post.selected_service_name) == reconciled_sel(post.services@, persisted_filtered(post), opt_str_view(pre.selected_service_name))
}

/// Flipping the sort order: the rows re-sorted the other way round, the
/// selection reconciled, everything else as it was.
pub open spec fn toggle_order_rel(pre: ControllerState, post: ControllerState) -> bool {
    &&& post.sort_key == pre.sort_key
    &&& post.sort_order == toggled(pre.sort_order)
    &&& post.services@ == sort_spec(svc_le_fn(pre.sort_key, toggled(pre.sort_order)), pre.services@)
    &&& post.active_filter == pre.active_filter
    &&& post.last_navigation == pre.last_navigation
    &&& post.last_data_hash == pre.last_data_hash
    &&& post.is_initial_load == pre.is_initial_load
    &&& post.cursor == reconciled_cursor(post.services@, persisted_filtered(post), opt_str_view(pre.selected_service_name))
    &&& opt_str_view(post.selected_service_name) == reconciled_sel(post.services@, persisted_filtered(post), opt_str_view(pre.selected_service_name))
}

/// The cursor index a wrapping or paging step starts from.
pub open spec fn cursor_base(c: Option<usize>) -> int {
    match c {
        Some(i) => i as int,
        None => 0,
    }
}

/// One step down the filtered view, wrapping at the bottom. Always stamps
/// the navigation clock; moves nothing when the view is empty.
pub open spec fn select_next_rel(
    pre: ControllerState,
    post: ControllerState,
    q: Seq<char>,
    now: u64,
) -> bool {
    let idxs = filtered_of(pre, q);
    &&& same_rows_and_sort(pre, post)
    &&& post.active_filter == pre.active_filter
    &&& post.last_navigation == now
    &&& if idxs.len() == 0 {
        post.cursor == pre.cursor && post.selected_service_name == pre.selected_service_name
    } else {
        let ni = (cursor_base(pre.cursor) + 1) % (idxs.len() as int);
        &&& post.cursor == Some(ni as usize)
        &&& opt_str_view(post.selected_service_name) == Some(
            pre.services@[idxs[ni] as int].service_name@,
        )
    }
}

/// One step up the filtered view, wrapping at the top.
pub open spec fn select_prev_rel(
    pre: ControllerState,
    post: ControllerState,
    q: Seq<char>,
    now: u64,
) -> bool {
    let idxs = filtered_of(pre, q);
    &&& same_rows_and_sort(pre, post)
    &&& post.active_filter == pre.active_filter
    &&& post.last_navigation == now
    &&& if idxs.len() == 0 {
        post.cursor == pre.cursor && post.selected_service_name == pre.selected_service_name
    } else {
        let ni = (cursor_base(pre.cursor) + (idxs.len() as int) - 1) % (idxs.len() as int);
        &&& post.cursor == Some(ni as usize)
        &&& opt_str_view(post.selected_service_name) == Some(
            pre.services@[idxs[ni] as int].service_name@,
        )
    }
}

/// A page-up jump: `PAGE_SIZE` rows towards the top, clamped at the first
/// row. A cursor stranded past the end of the view keeps no selection.
pub open spec fn page_up_rel(
    pre: ControllerState,
    post: ControllerState,
    q: Seq<char>,
    now: u64,
) -> bool {
    let idxs = filtered_of(pre, q);
    &&& same_rows_and_sort(pre, post)
    &&& post.active_filter == pre.active_filter
    &&& post.last_navigation == now
    &&& if idxs.len() == 0 {
        post.cursor == pre.cursor && post.selected_service_name == pre.selected_service_name
    } else {
        let i = cursor_base(pre.cursor);
        let ni = if i >= nav::PAGE_SIZE {
            i - nav::PAGE_SIZE
        } else {
            0int
        };
        &&& post.cursor == Some(ni as usize)
        &&& opt_str_view(post.selected_service_name) == (if ni < idxs.len() {
            Some(pre.services@[idxs[ni] as int].service_name@)
        } else {
            None
        })
    }
}

/// A page-down jump: `PAGE_SIZE` rows towards the bottom, clamped at the
/// last row of the view.
pub open spec fn page_down_rel(
    pre: ControllerState,
    post: ControllerState,
    q: Seq<char>,
    now: u64,
) -> bool {
    let idxs = filtered_of(pre, q);
    &&& same_rows_and_sort(pre, post)
    &&& post.active_filter == pre.active_filter
    &&& post.last_navigation == now
    &&& if idxs.len() == 0 {
        post.cursor == pre.cursor && post.selected_service_name == pre.selected_service_name
    } else {
        let i = cursor_base(pre.cursor);
        let ni = if i + nav::PAGE_SIZE <= idxs.len() - 1 {
            i + nav::PAGE_SIZE
        } else {
            idxs.len() - 1
        };
        &&& post.cursor == Some(ni as usize)
        &&& opt_str_view(post.selected_service_name) == Some(
            pre.services@[idxs[ni] as int].service_name@,
        )
    }
}

/// A jump to the first row of the filtered view.
pub open spec fn select_first_rel(
    pre: ControllerState,
    post: ControllerState,
    q: Seq<char>,
    now: u64,
) -> bool {
    let idxs = filtered_of(pre, q);
    &&& same_rows_and_sort(pre, post)
    &&& post.active_filter == pre.active_filter
    &&& post.last_navigation == now
    &&& if idxs.len() == 0 {
        post.cursor == pre.cursor && post.selected_service_name == pre.selected_service_name
    } else {
        &&& post.cursor == Some(0usize)
        &&& opt_str_view(post.selected_service_name) == Some(
            pre.services@[idxs[0] as int].service_name@,
        )
    }
}

/// A jump to the last row of the filtered view.
pub open spec fn select_last_rel(
    pre: ControllerState,
    post: ControllerState,
    q: Seq<char>,
    now: u64,
) -> bool {
    let idxs = filtered_of(pre, q);
    &&& same_rows_and_sort(pre, post)
    &&& post.active_filter == pre.active_filter
    &&& post.last_navigation == now
    &&& if idxs.len() == 0 {
        post.cursor == pre.cursor && post.selected_service_name == pre.selected_service_name
    } else {
        &&& post.cursor == Some((idxs.len() - 1) as usize)
        &&& opt_str_view(post.selected_service_name) == Some(
            pre.services@[idxs[idxs.len() - 1] as int].service_name@,
        )
    }
}

/// The row the cursor points at through the filtered view, if any.
pub open spec fn selected_of(st: ControllerState, q: Seq<char>) -> Option<ServiceInfo> {
    let idxs = filtered_of(st, q);
    match st.cursor {
        Some(i) => if (i as int) < idxs.len() {
            Some(st.services@[idxs[i as int] as int])
        } else {
            None
        },
        None => None,
    }
}

impl ControllerState {
    /// A fresh service view: no rows, no selection, no filter, sorted by
    /// status ascending, first load still pending.
    pub fn new() -> (r: Self)
        ensures
            r.services@ == Seq::<ServiceInfo>::empty(),
            r.cursor is None,
            r.active_filter is None,
            r.selected_service_name is None,
            r.last_navigation == 0,
            r.sort_key == SortKey::Status,
            r.sort_order == SortOrder::Ascending,
            r.last_data_hash is None,
            r.is_initial_load == true,
    {
        ControllerState {
            services: Vec::new(),
            cursor: None,
            active_filter: None,
            selected_service_name: None,
            last_navigation: 0,
            sort_key: SortKey::Status,
            sort_order: SortOrder::Ascending,
            last_data_hash: None,
            is_initial_load: true,
        }
    }

    /// The identity fingerprint of a snapshot.
    fn compute_data_hash(&self, services: &Vec<ServiceInfo>) -> (r: u64)
        ensures
            r == snapshot_fingerprint(services@),
    {
        let n = services.len();
        let mut acc = fp_mix(FP_OFFSET, n as u64);
        let mut i: usize = 0;
        proof {
            assert(services@.skip(0) =~= services@);
        }
        while i < n
            invariant
                i <= n,
                n == services@.len(),
                snapshot_fingerprint(services@) == fp_rows(acc, services@.skip(i as int)),
            decreases n - i,
        {
            let s = &services[i];
            proof {
                assert(services@.skip(i as int)[0] == services@[i as int]);
                assert(services@.skip(i as int).drop_first() =~= services@.skip(i + 1));
            }
            acc = fp_step_row(acc, s);
            i = i + 1;
        }
        acc
    }

    /// Whether an arriving snapshot would be discarded by the navigation
    /// debounce alone: the first load never is.
    pub fn should_ignore_update(&self, now_ms: u64) -> (r: bool)
        ensures
            r == (!self.is_initial_load && elapsed_since(now_ms, self.last_navigation)
                < DEBOUNCE_MS),
    {
        if self.is_initial_load {
            return false;
        }
        let elapsed = if now_ms >= self.last_navigation {
            now_ms - self.last_navigation
        } else {
            0
        };
        elapsed < DEBOUNCE_MS
    }

    /// The filter in force for a query-dependent operation: the transient
    /// query, lowercased, when it is non-empty; else the committed filter.
    fn get_filter(&self, search_query: &str) -> (r: Option<String>)
        ensures
            opt_str_view(r) == effective_filter(*self, search_query@),
    {
        if search_query.unicode_len() > 0 {
            Some(lowercase(search_query))
        } else {
            match &self.active_filter {
                Some(f) => Some(f.clone()),
                None => None,
            }
        }
    }

    /// Indices of the rows the query keeps, in row order.
    pub fn get_filtered_indices(&self, search_query: &str) -> (r: Vec<usize>)
        ensures
            r@ == filtered_of(*self, search_query@),
    {
        let f = self.get_filter(search_query);
        let ghost fv = effective_filter(*self, search_query@);
        let mut r: Vec<usize> = Vec::new();
        let mut i: usize = 0;
        let n = self.services.len();
        while i < n
            invariant
                i <= n,
                n == self.services@.len(),
                opt_str_view(f) == fv,
                r@ == filtered_upto(self.services@, fv, i as int),
            decreases n - i,
        {
            let keep = match &f {
                None => true,
                Some(q) => svc_matches_exec(&self.services[i], self_str(q)),
            };
            if keep {
                r.push(i);
            }
            i = i + 1;
        }
        r
    }

    /// The rows the query keeps, each with its index in the full list.
    pub fn filtered_services(&self, search_query: &str) -> (r: Vec<(usize, ServiceInfo)>)
        ensures
            r@.len() == filtered_of(*self, search_query@).len(),
            forall|j: int|
                0 <= j < r@.len() ==> {
                    &&& (#[trigger] r@[j]).0 == filtered_of(*self, search_query@)[j]
                    &&& svc_like(r@[j].1, self.services@[filtered_of(*self, search_query@)[j] as int])
                },
    {
        let idxs = self.get_filtered_indices(search_query);
        proof {
            lemma_filtered_bounds(
                self.services@,
                effective_filter(*self, search_query@),
                self.services@.len() as int,
            );
        }
        let mut r: Vec<(usize, ServiceInfo)> = Vec::new();
        let mut j: usize = 0;
        while j < idxs.len()
            invariant
                j <= idxs@.len(),
                idxs@ == filtered_of(*self, search_query@),
                forall|t: int|
                    0 <= t < idxs@.len() ==> (#[trigger] idxs@[t]) < self.services@.len(),
                r@.len() == j,
                forall|t: int|
                    0 <= t < j ==> {
                        &&& (#[trigger] r@[t]).0 == idxs@[t]
                        &&& svc_like(r@[t].1, self.services@[idxs@[t] as int])
                    },
            decreases idxs@.len() - j,
        {
            let idx = idxs[j];
            r.push((idx, self.services[idx].duplicate()));
            j = j + 1;
        }
        r
    }

    /// Re-points the cursor at the selected row inside the committed
    /// filtered view, falling back to the top of the view, or to no
    /// selection when the view is empty.
    #[verifier::loop_isolation(false)]
    fn reconcile_selection(&mut self)
        ensures
            same_rows_and_sort(*old(self), *final(self)),
            final(self).active_filter == old(self).active_filter,
            final(self).last_navigation == old(self).last_navigation,
            final(self).cursor == reconciled_cursor(
                old(self).services@,
                persisted_filtered(*old(self)),
                opt_str_view(old(self).selected_service_name),
            ),
            opt_str_view(final(self).selected_service_name) == reconciled_sel(
                old(self).services@,
                persisted_filtered(*old(self)),
                opt_str_view(old(self).selected_service_name),
            ),
    {
        proof {
            reveal_strlit("");
        }
        let idxs = self.get_filtered_indices("");
        let ghost s = self.services@;
        proof {
            assert(effective_filter(*self, ""@) == opt_str_view(self.active_filter));
            assert(idxs@ == persisted_filtered(*self));
            lemma_filtered_bounds(s, opt_str_view(self.active_filter), s.len() as int);
        }
        let sel = match &self.selected_service_name {
            Some(n) => Some(n.clone()),
            None => None,
        };
        match sel {
            Some(name) => {
                let ghost nm = old(self).selected_service_name.unwrap()@;
                let mut j: usize = 0;
                let n = idxs.len();
                while j < n
                    invariant
                        j <= n,
                        n == idxs@.len(),
                        forall|t: int| 0 <= t < idxs@.len() ==> (#[trigger] idxs@[t]) < s.len(),
                        *self == *old(self),
                        name@ == nm,
                        find_name_from(s, idxs@, nm, 0) == find_name_from(s, idxs@, nm, j as int),
                    decreases n - j,
                {
                    if self.services[idxs[j]].service_name == name {
                        self.cursor = Some(j);
                        return ;
                    }
                    j = j + 1;
                }
                // The selected service is gone from the view.
                if idxs.len() > 0 {
                    self.cursor = Some(0);
                    self.selected_service_name = Some(self.services[idxs[0]].service_name.clone());
                } else {
                    self.cursor = None;
                    self.selected_service_name = None;
                }
            },
            None => {
                if idxs.len() > 0 {
                    self.cursor = Some(0);
                    self.selected_service_name = Some(self.services[idxs[0]].service_name.clone());
                } else {
                    self.cursor = None;
                    self.selected_service_name = None;
                }
            },
        }
    }

    /// Sorts the rows by the current key and order.
    fn sort_services(&mut self)
        ensures
            final(self).services@ == sort_spec(
                svc_le_fn(old(self).sort_key, old(self).sort_order),
                old(self).services@,
            ),
            final(self).cursor == old(self).cursor,
            final(self).active_filter == old(self).active_filter,
            final(self).selected_service_name == old(self).selected_service_name,
            final(self).last_navigation == old(self).last_navigation,
            final(self).sort_key == old(self).sort_key,
            final(self).sort_order == old(self).sort_order,
            final(self).last_data_hash == old(self).last_data_hash,
            final(self).is_initial_load == old(self).is_initial_load,
    {
        let k = self.sort_key;
        let o = self.sort_order;
        let mut owned: Vec<ServiceInfo> = Vec::new();
        core::mem::swap(&mut owned, &mut self.services);
        let cmp = |a: &ServiceInfo, b: &ServiceInfo| -> (res: bool)
            ensures
                res == svc_le(k, o, *a, *b),
            { svc_le_exec(k, o, a, b) };
        let ghost le = svc_le_fn(k, o);
        proof {
            assert forall|a: &ServiceInfo, b: &ServiceInfo, ret: bool| #[trigger]
                call_ensures(cmp, (a, b), ret) implies ret == le(*a, *b) by {
                assert(le(*a, *b) == svc_le(k, o, *a, *b));
            }
        }
        let sorted = sort_by_le(owned, &cmp, Ghost(le));
        self.services = sorted;
    }

    /// Takes one snapshot in, or discards it: discarded when its identity
    /// fingerprint matches the last accepted snapshot, or when it lands in
    /// the debounce window after a navigation step (never on first load).
    /// Returns whether the snapshot was accepted; a discarded snapshot
    /// leaves the state exactly as it was.
    pub fn update_services(&mut self, services: Vec<ServiceInfo>, now_ms: u64) -> (accepted: bool)
        ensures
            update_rel(*old(self), *final(self), services@, now_ms, accepted),
    {
        let h = self.compute_data_hash(&services);
        let same = match self.last_data_hash {
            Some(prev) => prev == h,
            None => false,
        };
        if same {
            return false;
        }
        if self.should_ignore_update(now_ms) {
            return false;
        }
        self.services = services;
        self.last_data_hash = Some(h);
        self.sort_services();
        self.reconcile_selection();
        self.is_initial_load = false;
        true
    }

    /// Commits a filter: an empty query clears it, any other is kept
    /// lowercased. Applies at once — filtering is a content decision, so
    /// it neither stamps nor consults the navigation debounce.
    pub fn set_filter(&mut self, query: String)
        ensures
            set_filter_rel(*old(self), *final(self), query@),
    {
        if str_is_empty(&query) {
            self.active_filter = None;
        } else {
            self.active_filter = Some(lowercase(self_str(&query)));
        }
        self.reconcile_selection();
    }

    /// Clears the committed filter; the whole list shows again.
    pub fn clear_filter(&mut self)
        ensures
            set_filter_rel(*old(self), *final(self), Seq::<char>::empty()),
    {
        self.active_filter = None;
        self.reconcile_selection();
    }

    /// Advances to the next sort key, re-sorts and re-points the cursor.
    pub fn cycle_sort_key(&mut self)
        ensures
            cycle_key_rel(*old(self), *final(self)),
    {
        self.sort_key = self.sort_key.next();
        self.sort_services();
        self.reconcile_selection();
    }

    /// Flips the sort order, re-sorts and re-points the cursor.
    pub fn toggle_sort_order(&mut self)
        ensures
            toggle_order_rel(*old(self), *final(self)),
    {
        self.sort_order = self.sort_order.toggle();
        self.sort_services();
        self.reconcile_selection();
    }

    /// Moves the selection one row down the filtered view, wrapping at the
    /// bottom. Stamps the navigation clock, arming the debounce.
    pub fn select_next(&mut self, search_query: &str, now_ms: u64)
        ensures
            select_next_rel(*old(self), *final(self), search_query@, now_ms),
    {
        let idxs = self.get_filtered_indices(search_query);
        self.last_navigation = now_ms;
        if idxs.len() == 0 {
            return ;
        }
        proof {
            lemma_filtered_bounds(
                old(self).services@,
                effective_filter(*old(self), search_query@),
                old(self).services@.len() as int,
            );
        }
        let i = match self.cursor {
            Some(c) => c,
            None => 0,
        };
        let ni = nav::wrap_next(i, idxs.len());
        self.cursor = Some(ni);
        self.selected_service_name = Some(self.services[idxs[ni]].service_name.clone());
    }

    /// Moves the selection one row up the filtered view, wrapping at the
    /// top. Stamps the navigation clock.
    pub fn select_prev(&mut self, search_query: &str, now_ms: u64)
        ensures
            select_prev_rel(*old(self), *final(self), search_query@, now_ms),
    {
        let idxs = self.get_filtered_indices(search_query);
        self.last_navigation = now_ms;
        if idxs.len() == 0 {
            return ;
        }
        proof {
            lemma_filtered_bounds(
                old(self).services@,
                effective_filter(*old(self), search_query@),
                old(self).services@.len() as int,
            );
        }
        let i = match self.cursor {
            Some(c) => c,
            None => 0,
        };
        let ni = nav::wrap_prev(i, idxs.len());
        self.cursor = Some(ni);
        self.selected_service_name = Some(self.services[idxs[ni]].service_name.clone());
    }

    /// Jumps the selection a page towards the top, clamped at the first
    /// row. Stamps the navigation clock.
    pub fn select_page_up(&mut self, search_query: &str, now_ms: u64)
        ensures
            page_up_rel(*old(self), *final(self), search_query@, now_ms),
    {
        let idxs = self.get_filtered_indices(search_query);
        self.last_navigation = now_ms;
        if idxs.len() == 0 {
            return ;
        }
        proof {
            lemma_filtered_bounds(
                old(self).services@,
                effective_filter(*old(self), search_query@),
                old(self).services@.len() as int,
            );
        }
        let i = match self.cursor {
            Some(c) => c,
            None => 0,
        };
        let ni = nav::page_up_index(i);
        self.cursor = Some(ni);
        if ni < idxs.len() {
            self.selected_service_name = Some(self.services[idxs[ni]].service_name.clone());
        } else {
            self.selected_service_name = None;
        }
    }

    /// Jumps the selection a page towards the bottom, clamped at the last
    /// row of the view. Stamps the navigation clock.
    pub fn select_page_down(&mut self, search_query: &str, now_ms: u64)
        ensures
            page_down_rel(*old(self), *final(self), search_query@, now_ms),
    {
        let idxs = self.get_filtered_indices(search_query);
        self.last_navigation = now_ms;
        if idxs.len() == 0 {
            return ;
        }
        proof {
            lemma_filtered_bounds(
                old(self).services@,
                effective_filter(*old(self), search_query@),
                old(self).services@.len() as int,
            );
        }
        let i = match self.cursor {
            Some(c) => c,
            None => 0,
        };
        let ni = nav::page_down_index(i, idxs.len());
        self.cursor = Some(ni);
        self.selected_service_name = Some(self.services[idxs[ni]].service_name.clone());
    }

    /// Jumps the selection to the first row of the filtered view. Stamps
    /// the navigation clock.
    pub fn select_first(&mut self, search_query: &str, now_ms: u64)
        ensures
            select_first_rel(*old(self), *final(self), search_query@, now_ms),
    {
        let idxs = self.get_filtered_indices(search_query);
        self.last_navigation = now_ms;
        if idxs.len() == 0 {
            return ;
        }
        proof {
            lemma_filtered_bounds(
                old(self).services@,
                effective_filter(*old(self), search_query@),
                old(self).services@.len() as int,
            );
        }
        self.cursor = Some(0);
        self.selected_service_name = Some(self.services[idxs[0]].service_name.clone());
    }

    /// Jumps the selection to the last row of the filtered view. Stamps
    /// the navigation clock.
    pub fn select_last(&mut self, search_query: &str, now_ms: u64)
        ensures
            select_last_rel(*old(self), *final(self), search_query@, now_ms),
    {
        let idxs = self.get_filtered_indices(search_query);
        self.last_navigation = now_ms;
        if idxs.len() == 0 {
            return ;
        }
        proof {
            lemma_filtered_bounds(
                old(self).services@,
                effective_filter(*old(self), search_query@),
                old(self).services@.len() as int,
            );
        }
        let last = idxs.len() - 1;
        self.cursor = Some(last);
        self.selected_service_name = Some(self.services[idxs[last]].service_name.clone());
    }

    /// The row the cursor points at through the filtered view, if any.
    pub fn get_selected_service(&self, search_query: &str) -> (r: Option<&ServiceInfo>)
        ensures
            match r {
                Some(s) => selected_of(*self, search_query@) == Some(*s),
                None => selected_of(*self, search_query@) is None,
            },
    {
        let idxs = self.get_filtered_indices(search_query);
        proof {
            lemma_filtered_bounds(
                self.services@,
                effective_filter(*self, search_query@),
                self.services@.len() as int,
            );
        }
        match self.cursor {
            Some(i) => {
                if i < idxs.len() {
                    Some(&self.services[idxs[i]])
                } else {
                    None
                }
            },
            None => None,
        }
    }

    /// The start-or-stop request for the selected service, for the caller
    /// to carry out: a running service is to be stopped, a stopped one
    /// started; any other state asks for nothing, as does an empty view.
    pub fn toggle_selected_service(&mut self, search_query: &str) -> (r: Option<(
        String,
        ServiceStatus,
    )>)
        ensures
            *final(self) == *old(self),
            match selected_of(*old(self), search_query@) {
                Some(svc) => r matches Some(t) && t.0@ == svc.service_name@ && t.1 == svc.status,
                None => r is None,
            },
    {
        let sel = self.get_selected_service(search_query);
        match sel {
            Some(svc) => Some((svc.service_name.clone(), svc.status)),
            None => None,
        }
    }
}

/// One fold step of the snapshot fingerprint: one service row.
fn fp_step_row(h: u64, s: &ServiceInfo) -> (r: u64)
    ensures
        r == fp_row(h, *s),
{
    fp_mix(fp_str(h, self_str(&s.service_name)), status_code_exec(&s.status))
}

/// Whether a string is empty.
fn str_is_empty(s: &String) -> (r: bool)
    ensures
        r == (s@.len() == 0),
{
    s.as_str().unicode_len() == 0
}

/// Updating twice with the same snapshot is the same as updating once:
/// the second call is rejected by the fingerprint and leaves the state
/// exactly as the first call left it.
pub proof fn lemma_update_idempotent(
    s0: ControllerState,
    s1: ControllerState,
    s2: ControllerState,
    snap: Seq<ServiceInfo>,
    t1: u64,
    t2: u64,
    acc2: bool,
)
    requires
        update_rel(s0, s1, snap, t1, true),
        update_rel(s1, s2, snap, t2, acc2),
    ensures
        acc2 == false,
        s2 == s1,
{
}

/// A snapshot with changed content arriving inside the debounce window of
/// a navigation step is discarded outright, once the first load is done.
pub proof fn lemma_debounce_rejects(
    pre: ControllerState,
    post: ControllerState,
    snap: Seq<ServiceInfo>,
    now: u64,
    acc: bool,
)
    requires
        update_rel(pre, post, snap, now, acc),
        !pre.is_initial_load,
        elapsed_since(now, pre.last_navigation) < DEBOUNCE_MS,
    ensures
        acc == false,
        post == pre,
{
}

/// Once the debounce window has elapsed, a snapshot whose content differs
/// from the last accepted one is accepted.
pub proof fn lemma_debounce_expires(
    pre: ControllerState,
    post: ControllerState,
    snap: Seq<ServiceInfo>,
    now: u64,
    acc: bool,
)
    requires
        update_rel(pre, post, snap, now, acc),
        pre.last_data_hash != Some(snapshot_fingerprint(snap)),
        elapsed_since(now, pre.last_navigation) >= DEBOUNCE_MS,
    ensures
        acc == true,
{
}

/// The very first update is always accepted, whatever the timing.
pub proof fn lemma_first_update_accepted(
    pre: ControllerState,
    post: ControllerState,
    snap: Seq<ServiceInfo>,
    now: u64,
    acc: bool,
)
    requires
        update_rel(pre, post, snap, now, acc),
        pre.is_initial_load,
        pre.last_data_hash is None,
    ensures
        acc == true,
{
}

/// Filter precedence: a non-empty transient query decides the filtered
/// view by itself; an empty one defers to the committed filter.
pub proof fn lemma_filter_precedence(st: ControllerState, q: Seq<char>)
    ensures
        q.len() > 0 ==> filtered_of(st, q) == filtered_upto(
            st.services@,
            Some(lower_of(q)),
            st.services@.len() as int,
        ),
        q.len() == 0 ==> filtered_of(st, q) == persisted_filtered(st),
{
}


/// The comparator in force is a total, transitive preorder, whatever the
/// key and order.
pub proof fn lemma_svc_le_total_trans(k: SortKey, o: SortOrder)
    ensures
        forall|a: ServiceInfo, b: ServiceInfo| #[trigger] svc_le(k, o, a, b) || #[trigger] svc_le(k, o, b, a),
        forall|a: ServiceInfo, b: ServiceInfo, c: ServiceInfo|
            #[trigger] svc_le(k, o, a, b) && #[trigger] svc_le(k, o, b, c) ==> svc_le(k, o, a, c),
{
    assert forall|a: ServiceInfo, b: ServiceInfo| #[trigger] svc_le(k, o, a, b) || #[trigger] svc_le(
        k,
        o,
        b,
        a,
    ) by {
        match k {
            SortKey::Name => {
                crate::text::lemma_seq_char_le_total(a.display_name@, b.display_name@);
            },
            _ => {},
        }
    }
    assert forall|a: ServiceInfo, b: ServiceInfo, c: ServiceInfo|
        #[trigger] svc_le(k, o, a, b) && #[trigger] svc_le(k, o, b, c) implies svc_le(
        k,
        o,
        a,
        c,
    ) by {
        match k {
            SortKey::Name => {
                match o {
                    SortOrder::Ascending => crate::text::lemma_seq_char_le_trans(
                        a.display_name@,
                        b.display_name@,
                        c.display_name@,
                    ),
                    SortOrder::Descending => crate::text::lemma_seq_char_le_trans(
                        c.display_name@,
                        b.display_name@,
                        a.display_name@,
                    ),
                }
            },
            _ => {},
        }
    }
}

/// Sorting is never partial: the re-sorted rows are fully ordered by the
/// comparator in force, and are exactly the given rows rearranged.
pub proof fn lemma_rows_fully_sorted(k: SortKey, o: SortOrder, rows: Seq<ServiceInfo>)
    ensures
        crate::sorting::sorted_by_le(svc_le_fn(k, o), sort_spec(svc_le_fn(k, o), rows)),
        sort_spec(svc_le_fn(k, o), rows).to_multiset() == rows.to_multiset(),
{
    let le = svc_le_fn(k, o);
    lemma_svc_le_total_trans(k, o);
    assert forall|a: ServiceInfo, b: ServiceInfo| #[trigger] le(a, b) || #[trigger] le(b, a) by {
        assert(le(a, b) == svc_le(k, o, a, b));
        assert(le(b, a) == svc_le(k, o, b, a));
    }
    assert forall|a: ServiceInfo, b: ServiceInfo, c: ServiceInfo| #[trigger] le(a, b) && #[trigger] le(b, c)
        implies le(a, c) by {
        assert(le(a, b) == svc_le(k, o, a, b));
        assert(le(b, c) == svc_le(k, o, b, c));
        assert(le(a, c) == svc_le(k, o, a, c));
    }
    crate::sorting::lemma_sort_spec_sorted(le, rows);
    crate::sorting::lemma_sort_spec_permutes(le, rows);
}


/// A search from `j` finds a hit whenever one lies at or past `j`.
proof fn lemma_find_name_some(s: Seq<ServiceInfo>, idxs: Seq<usize>, name: Seq<char>, j: int)
    requires
        0 <= j <= idxs.len(),
        idxs.len() <= usize::MAX,
        exists|t: int|
            j <= t < idxs.len() && (#[trigger] s[idxs[t] as int]).service_name@ == name,
    ensures
        find_name_from(s, idxs, name, j) is Some,
    decreases idxs.len() - j,
{
    if s[idxs[j] as int].service_name@ != name {
        let t = choose|t: int|
            j <= t < idxs.len() && (#[trigger] s[idxs[t] as int]).service_name@ == name;
        assert(j + 1 <= t < idxs.len());
        lemma_find_name_some(s, idxs, name, j + 1);
    }
}

/// What a successful search means: the hit lies in range and matches.
proof fn lemma_find_name_hit(s: Seq<ServiceInfo>, idxs: Seq<usize>, name: Seq<char>, j: int, r: usize)
    requires
        0 <= j,
        idxs.len() <= usize::MAX,
        find_name_from(s, idxs, name, j) == Some(r),
    ensures
        j <= r < idxs.len(),
        s[idxs[r as int] as int].service_name@ == name,
    decreases idxs.len() - j,
{
    if j >= idxs.len() {
        assert(find_name_from(s, idxs, name, j) is None);
    } else if s[idxs[j] as int].service_name@ == name {
        assert(find_name_from(s, idxs, name, j) == Some(j as usize));
    } else {
        lemma_find_name_hit(s, idxs, name, j + 1, r);
    }
}

/// Selection stability: when an accepted snapshot still contains the
/// selected service inside the committed filtered view, the selection
/// stays on that name and the cursor re-points to its new position.
pub proof fn lemma_selection_stable(
    pre: ControllerState,
    post: ControllerState,
    snap: Seq<ServiceInfo>,
    now: u64,
    name: Seq<char>,
)
    requires
        update_rel(pre, post, snap, now, true),
        post.services@.len() <= usize::MAX,
        opt_str_view(pre.selected_service_name) == Some(name),
        exists|t: int|
            0 <= t < persisted_filtered(post).len() && (#[trigger] post.services@[persisted_filtered(
                post,
            )[t] as int]).service_name@ == name,
    ensures
        opt_str_view(post.selected_service_name) == Some(name),
        post.cursor is Some,
        post.services@[persisted_filtered(post)[post.cursor.unwrap() as int] as int].service_name@
            == name,
{
    let idxs = persisted_filtered(post);
    lemma_filtered_len(post.services@, opt_str_view(post.active_filter), post.services@.len() as int);
    lemma_find_name_some(post.services@, idxs, name, 0);
    let r = find_name_from(post.services@, idxs, name, 0).unwrap();
    lemma_find_name_hit(post.services@, idxs, name, 0, r);
}


/// A snapshot whose identity fingerprint matches the last accepted one
/// is a guaranteed no-op: nothing is re-sorted, no selection moves, no
/// field changes.
pub proof fn lemma_fingerprint_noop(
    pre: ControllerState,
    post: ControllerState,
    snap: Seq<ServiceInfo>,
    now: u64,
    acc: bool,
)
    requires
        update_rel(pre, post, snap, now, acc),
        pre.last_data_hash == Some(snapshot_fingerprint(snap)),
    ensures
        acc == false,
        post == pre,
{
}

} // verus!

//! List state for the network-connection view: the authoritative
//! connection list, the selection tracked by the connection's five-part
//! identity, the committed filter, the sort key and order, the navigation
//! debounce clock and the content fingerprint.

use vstd::prelude::*;
use vstd::string::StrSliceExecFns;
use vstd::string::StringExecFns;

use crate::fingerprint::{fp_mix, fp_step, fp_str, fp_text, FP_OFFSET};
use crate::nav;
use crate::sorting::{sort_by_le, sort_spec};
use crate::text::{
    contains_seq, dec_str, lower_of, lowercase, opt_str_view, seq_char_le, str_contains, str_le,
    str_to_owned, u32_to_decimal,
};

verus! {

/// Snapshots arriving within this many milliseconds of a navigation step
/// are discarded, so the list does not jump under the user's cursor.
pub const DEBOUNCE_MS: u64 = 50;

#[derive(Debug, Clone, Copy, PartialEq, Eq, Structural)]
pub enum SortKey {
    State,
    Pid,
    Protocol,
    ProcessName,
}

/// The key after `k` in the fixed sort-key cycle.
pub open spec fn next_key(k: SortKey) -> SortKey {
    match k {
        SortKey::State => SortKey::Pid,
        SortKey::Pid => SortKey::Protocol,
        SortKey::Protocol => SortKey::ProcessName,
        SortKey::ProcessName => SortKey::State,
    }
}

/// The display label of a sort key.
pub open spec fn sort_key_label(k: SortKey) -> Seq<char> {
    match k {
        SortKey::State => "State"@,
        SortKey::Pid => "PID"@,
        SortKey::Protocol => "Proto"@,
        SortKey::ProcessName => "Process"@,
    }
}

impl SortKey {
    /// The key after this one in the fixed sort-key cycle.
    pub fn next(&self) -> (r: Self)
        ensures
            r == next_key(*self),
    {
        match self {
            SortKey::State => SortKey::Pid,
            SortKey::Pid => SortKey::Protocol,
            SortKey::Protocol => SortKey::ProcessName,
            SortKey::ProcessName => SortKey::State,
        }
    }

    /// The display label of this sort key.
    pub fn as_str(&self) -> (r: &'static str)
        ensures
            r@ == sort_key_label(*self),
    {
        match self {
            SortKey::State => "State",
            SortKey::Pid => "PID",
            SortKey::Protocol => "Proto",
            SortKey::ProcessName => "Process",
        }
    }
}

#[derive(Debug, Clone, Copy, PartialEq, Eq, Structural)]
pub enum SortOrder {
    Ascending,
    Descending,
}

/// The opposite sort order.
pub open spec fn toggled(o: SortOrder) -> SortOrder {
    match o {
        SortOrder::Ascending => SortOrder::Descending,
        SortOrder::Descending => SortOrder::Ascending,
    }
}

/// The display marker of a sort order.
pub open spec fn sort_order_label(o: SortOrder) -> Seq<char> {
    match o {
        SortOrder::Ascending => "▲"@,
        SortOrder::Descending => "▼"@,
    }
}

impl SortOrder {
    /// The opposite order.
    pub fn toggle(&self) -> (r: Self)
        ensures
            r == toggled(*self),
    {
        match self {
            SortOrder::Ascending => SortOrder::Descending,
            SortOrder::Descending => SortOrder::Ascending,
        }
    }

    /// The display marker of this order.
    pub fn as_str(&self) -> (r: &'static str)
        ensures
            r@ == sort_order_label(*self),
    {
        match self {
            SortOrder::Ascending => "▲",
            SortOrder::Descending => "▼",
        }
    }
}

/// The transport protocol of a connection row.
#[derive(Debug, Clone, Copy, PartialEq, Eq, Structural)]
pub enum Protocol {
    Tcp,
    Udp,
}

/// Rank used when sorting by protocol: the lexicographic order of the
/// labels.
pub open spec fn spec_proto_priority(p: Protocol) -> u8 {
    match p {
        Protocol::Tcp => 0u8,
        Protocol::Udp => 1u8,
    }
}

/// The display label of a protocol.
pub open spec fn proto_label_of(p: Protocol) -> Seq<char> {
    match p {
        Protocol::Tcp => "TCP"@,
        Protocol::Udp => "UDP"@,
    }
}

impl Protocol {
    /// The display label of this protocol.
    pub fn as_str(&self) -> (r: &'static str)
        ensures
            r@ == proto_label_of(*self),
    {
        match self {
            Protocol::Tcp => "TCP",
            Protocol::Udp => "UDP",
        }
    }
}

/// A TCP connection's state; UDP rows carry `NotApplicable`, and an
/// unrecognised state code is kept as it came.
#[derive(Debug, Clone, Copy, PartialEq, Eq, Structural)]
pub enum TcpState {
    Closed,
    Listening,
    SynSent,
    SynRcvd,
    Established,
    FinWait1,
    FinWait2,
    CloseWait,
    Closing,
    LastAck,
    TimeWait,
    DeleteTcb,
    NotApplicable,
    Unknown(u32),
}

/// The state a TCP-table state code denotes.
pub open spec fn spec_state_from_code(code: u32) -> TcpState {
    if code == 1 {
        TcpState::Closed
    } else if code == 2 {
        TcpState::Listening
    } else if code == 3 {
        TcpState::SynSent
    } else if code == 4 {
        TcpState::SynRcvd
    } else if code == 5 {
        TcpState::Established
    } else if code == 6 {
        TcpState::FinWait1
    } else if code == 7 {
        TcpState::FinWait2
    } else if code == 8 {
        TcpState::CloseWait
    } else if code == 9 {
        TcpState::Closing
    } else if code == 10 {
        TcpState::LastAck
    } else if code == 11 {
        TcpState::TimeWait
    } else if code == 12 {
        TcpState::DeleteTcb
    } else {
        TcpState::Unknown(code)
    }
}

/// The TCP state for a TCP-table state code.
pub fn state_from_code(code: u32) -> (r: TcpState)
    ensures
        r == spec_state_from_code(code),
{
    match code {
        1u32 => TcpState::Closed,
        2u32 => TcpState::Listening,
        3u32 => TcpState::SynSent,
        4u32 => TcpState::SynRcvd,
        5u32 => TcpState::Established,
        6u32 => TcpState::FinWait1,
        7u32 => TcpState::FinWait2,
        8u32 => TcpState::CloseWait,
        9u32 => TcpState::Closing,
        10u32 => TcpState::LastAck,
        11u32 => TcpState::TimeWait,
        12u32 => TcpState::DeleteTcb,
        _ => TcpState::Unknown(code),
    }
}

/// The display label of a TCP state; an unrecognised code shows as
/// UNKNOWN with its decimal value.
pub open spec fn state_label_of(st: TcpState) -> Seq<char> {
    match st {
        TcpState::Closed => "CLOSED"@,
        TcpState::Listening => "LISTENING"@,
        TcpState::SynSent => "SYN_SENT"@,
        TcpState::SynRcvd => "SYN_RCVD"@,
        TcpState::Established => "ESTABLISHED"@,
        TcpState::FinWait1 => "FIN_WAIT1"@,
        TcpState::FinWait2 => "FIN_WAIT2"@,
        TcpState::CloseWait => "CLOSE_WAIT"@,
        TcpState::Closing => "CLOSING"@,
        TcpState::LastAck => "LAST_ACK"@,
        TcpState::TimeWait => "TIME_WAIT"@,
        TcpState::DeleteTcb => "DELETE_TCB"@,
        TcpState::NotApplicable => "N/A"@,
        TcpState::Unknown(c) => "UNKNOWN("@ + dec_str(c as nat) + ")"@,
    }
}

/// The display label of a TCP state, as an owned string.
pub fn state_label(st: &TcpState) -> (r: String)
    ensures
        r@ == state_label_of(*st),
{
    match st {
        TcpState::Closed => str_to_owned("CLOSED"),
        TcpState::Listening => str_to_owned("LISTENING"),
        TcpState::SynSent => str_to_owned("SYN_SENT"),
        TcpState::SynRcvd => str_to_owned("SYN_RCVD"),
        TcpState::Established => str_to_owned("ESTABLISHED"),
        TcpState::FinWait1 => str_to_owned("FIN_WAIT1"),
        TcpState::FinWait2 => str_to_owned("FIN_WAIT2"),
        TcpState::CloseWait => str_to_owned("CLOSE_WAIT"),
        TcpState::Closing => str_to_owned("CLOSING"),
        TcpState::LastAck => str_to_owned("LAST_ACK"),
        TcpState::TimeWait => str_to_owned("TIME_WAIT"),
        TcpState::DeleteTcb => str_to_owned("DELETE_TCB"),
        TcpState::NotApplicable => str_to_owned("N/A"),
        TcpState::Unknown(c) => {
            let mut s = str_to_owned("UNKNOWN(");
            let digits = u32_to_decimal(*c);
            s.append(digits.as_str());
            s.append(")");
            s
        },
    }
}

/// The display name of a TCP-table state code.
pub fn tcp_state_to_string(state: u32) -> (r: String)
    ensures
        r@ == state_label_of(spec_state_from_code(state)),
{
    let st = state_from_code(state);
    state_label(&st)
}

/// Rank used when sorting by state: active states cluster first.
pub open spec fn spec_state_priority(st: TcpState) -> u8 {
    match st {
        TcpState::Established => 0u8,
        TcpState::Listening => 1u8,
        TcpState::SynSent => 2u8,
        TcpState::SynRcvd => 3u8,
        TcpState::FinWait1 => 4u8,
        TcpState::FinWait2 => 5u8,
        TcpState::CloseWait => 6u8,
        TcpState::Closing => 7u8,
        TcpState::LastAck => 8u8,
        TcpState::TimeWait => 9u8,
        TcpState::Closed => 10u8,
        TcpState::DeleteTcb => 11u8,
        TcpState::NotApplicable => 12u8,
        TcpState::Unknown(_) => 13u8,
    }
}

/// Rank used when sorting by state: active states cluster first.
pub fn state_priority(state: &TcpState) -> (r: u8)
    ensures
        r == spec_state_priority(*state),
{
    match state {
        TcpState::Established => 0,
        TcpState::Listening => 1,
        TcpState::SynSent => 2,
        TcpState::SynRcvd => 3,
        TcpState::FinWait1 => 4,
        TcpState::FinWait2 => 5,
        TcpState::CloseWait => 6,
        TcpState::Closing => 7,
        TcpState::LastAck => 8,
        TcpState::TimeWait => 9,
        TcpState::Closed => 10,
        TcpState::DeleteTcb => 11,
        TcpState::NotApplicable => 12,
        TcpState::Unknown(_) => 13,
    }
}

/// One connection row. The identity key is the five-part tuple of owning
/// pid, local address and port, and remote address and port.
#[derive(Debug)]
pub struct ConnectionInfo {
    pub protocol: Protocol,
    pub local_addr: String,
    pub local_port: u16,
    pub remote_addr: String,
    pub remote_port: u16,
    pub state: TcpState,
    pub pid: u32,
    pub process_name: Option<String>,
}

/// The five-part identity key of a connection row.
pub open spec fn conn_key(c: ConnectionInfo) -> (u32, Seq<char>, u16, Seq<char>, u16) {
    (c.pid, c.local_addr@, c.local_port, c.remote_addr@, c.remote_port)
}

/// The identity key a stored selection denotes.
pub open spec fn sel_key_view(k: Option<(u32, String, u16, String, u16)>) -> Option<
    (u32, Seq<char>, u16, Seq<char>, u16),
> {
    match k {
        Some(t) => Some((t.0, t.1@, t.2, t.3@, t.4)),
        None => None,
    }
}

/// Whether two connection rows carry the same visible data.
pub open spec fn conn_like(a: ConnectionInfo, b: ConnectionInfo) -> bool {
    &&& a.protocol == b.protocol
    &&& a.local_addr@ == b.local_addr@
    &&& a.local_port == b.local_port
    &&& a.remote_addr@ == b.remote_addr@
    &&& a.remote_port == b.remote_port
    &&& a.state == b.state
    &&& a.pid == b.pid
    &&& opt_str_view(a.process_name) == opt_str_view(b.process_name)
}

impl ConnectionInfo {
    /// A field-for-field copy.
    pub fn duplicate(&self) -> (r: ConnectionInfo)
        ensures
            conn_like(r, *self),
    {
        ConnectionInfo {
            protocol: self.protocol,
            local_addr: self.local_addr.clone(),
            local_port: self.local_port,
            remote_addr: self.remote_addr.clone(),
            remote_port: self.remote_port,
            state: self.state,
            pid: self.pid,
            process_name: match &self.process_name {
                Some(n) => Some(n.clone()),
                None => None,
            },
        }
    }
}

/// The process name used for ordering: absent names sort as empty text.
pub open spec fn name_or_empty(c: ConnectionInfo) -> Seq<char> {
    match c.process_name {
        Some(n) => n@,
        None => Seq::empty(),
    }
}

fn proto_priority(p: &Protocol) -> (r: u8)
    ensures
        r == spec_proto_priority(*p),
{
    match p {
        Protocol::Tcp => 0,
        Protocol::Udp => 1,
    }
}

/// Whether `a` sorts at-or-before `b` under one sort key, ascending.
pub open spec fn conn_le_key(k: SortKey, a: ConnectionInfo, b: ConnectionInfo) -> bool {
    match k {
        SortKey::State => spec_state_priority(a.state) <= spec_state_priority(b.state),
        SortKey::Pid => a.pid <= b.pid,
        SortKey::Protocol => spec_proto_priority(a.protocol) <= spec_proto_priority(b.protocol),
        SortKey::ProcessName => seq_char_le(name_or_empty(a), name_or_empty(b)),
    }
}

/// The total preorder the list is kept sorted by. Descending order swaps
/// the operands, so rows that tie keep their incoming relative order.
pub open spec fn conn_le(k: SortKey, o: SortOrder, a: ConnectionInfo, b: ConnectionInfo) -> bool {
    match o {
        SortOrder::Ascending => conn_le_key(k, a, b),
        SortOrder::Descending => conn_le_key(k, b, a),
    }
}

/// `conn_le` as a closed-over comparison function, for `sort_spec`.
pub open spec fn conn_le_fn(k: SortKey, o: SortOrder) -> spec_fn(
    ConnectionInfo,
    ConnectionInfo,
) -> bool {
    |a: ConnectionInfo, b: ConnectionInfo| conn_le(k, o, a, b)
}

/// `String::as_str` under a local name, so call sites stay terse.
fn self_str(s: &String) -> (r: &str)
    ensures
        r@ == s@,
{
    s.as_str()
}

fn conn_le_key_exec(k: SortKey, a: &ConnectionInfo, b: &ConnectionInfo) -> (r: bool)
    ensures
        r == conn_le_key(k, *a, *b),
{
    match k {
        SortKey::State => state_priority(&a.state) <= state_priority(&b.state),
        SortKey::Pid => a.pid <= b.pid,
        SortKey::Protocol => proto_priority(&a.protocol) <= proto_priority(&b.protocol),
        SortKey::ProcessName => {
            let an = match &a.process_name {
                Some(n) => self_str(n),
                None => "",
            };
            let bn = match &b.process_name {
                Some(n) => self_str(n),
                None => "",
            };
            proof {
                reveal_strlit("");
            }
            str_le(an, bn)
        },
    }
}

fn conn_le_exec(k: SortKey, o: SortOrder, a: &ConnectionInfo, b: &ConnectionInfo) -> (r: bool)
    ensures
        r == conn_le(k, o, *a, *b),
{
    match o {
        SortOrder::Ascending => conn_le_key_exec(k, a, b),
        SortOrder::Descending => conn_le_key_exec(k, b, a),
    }
}

/// Whether one connection row matches a lowercase query: by process name,
/// either address, or the decimal digits of the pid or local port.
pub open spec fn conn_matches(c: ConnectionInfo, q: Seq<char>) -> bool {
    ||| match c.process_name {
        Some(n) => contains_seq(lower_of(n@), q),
        None => false,
    }
    ||| contains_seq(lower_of(c.local_addr@), q)
    ||| contains_seq(lower_of(c.remote_addr@), q)
    ||| contains_seq(dec_str(c.pid as nat), q)
    ||| contains_seq(dec_str(c.local_port as nat), q)
}

fn conn_matches_exec(c: &ConnectionInfo, q: &str) -> (r: bool)
    ensures
        r == conn_matches(*c, q@),
{
    match &c.process_name {
        Some(n) => {
            let low = lowercase(self_str(n));
            if str_contains(self_str(&low), q) {
                return true;
            }
        },
        None => {},
    }
    let low_local = lowercase(self_str(&c.local_addr));
    if str_contains(self_str(&low_local), q) {
        return true;
    }
    let low_remote = lowercase(self_str(&c.remote_addr));
    if str_contains(self_str(&low_remote), q) {
        return true;
    }
    let pid_digits = u32_to_decimal(c.pid);
    if str_contains(self_str(&pid_digits), q) {
        return true;
    }
    let port_digits = u32_to_decimal(c.local_port as u32);
    str_contains(self_str(&port_digits), q)
}

/// Whether a row passes an optional lowercase filter; no filter passes all.
pub open spec fn matches_opt(c: ConnectionInfo, f: Option<Seq<char>>) -> bool {
    match f {
        None => true,
        Some(q) => conn_matches(c, q),
    }
}

/// Indices below `n` of the rows that pass the filter, in ascending order.
pub open spec fn filtered_upto(s: Seq<ConnectionInfo>, f: Option<Seq<char>>, n: int) -> Seq<usize>
    decreases n,
{
    if n <= 0 {
        Seq::empty()
    } else if matches_opt(s[n - 1], f) {
        filtered_upto(s, f, n - 1).push((n - 1) as usize)
    } else {
        filtered_upto(s, f, n - 1)
    }
}

/// Every index the filter keeps points into the first `n` rows.
pub proof fn lemma_filtered_bounds(s: Seq<ConnectionInfo>, f: Option<Seq<char>>, n: int)
    ensures
        forall|j: int|
            0 <= j < filtered_upto(s, f, n).len() ==> (#[trigger] filtered_upto(s, f, n)[j]) < n,
    decreases n,
{
    if n > 0 {
        lemma_filtered_bounds(s, f, n - 1);
        let prev = filtered_upto(s, f, n - 1);
        let cur = filtered_upto(s, f, n);
        assert forall|j: int| 0 <= j < cur.len() implies cur[j] < n by {
            if matches_opt(s[n - 1], f) {
                assert(cur == prev.push((n - 1) as usize));
                if j < prev.len() {
                    assert(cur[j] == prev[j]);
                }
            } else {
                assert(cur == prev);
                assert(cur[j] == prev[j]);
            }
        }
    }
}

/// The filter keeps at most the rows it looked at.
pub proof fn lemma_filtered_len(s: Seq<ConnectionInfo>, f: Option<Seq<char>>, n: int)
    ensures
        n >= 0 ==> filtered_upto(s, f, n).len() <= n,
        n < 0 ==> filtered_upto(s, f, n).len() == 0,
    decreases n,
{
    if n > 0 {
        lemma_filtered_len(s, f, n - 1);
    }
}

/// List state for the network-connection view.
pub struct NexusState {
    pub connections: Vec<ConnectionInfo>,
    pub cursor: Option<usize>,
    pub active_filter: Option<String>,
    pub selected_connection_key: Option<(u32, String, u16, String, u16)>,
    pub last_navigation: u64,
    pub sort_key: SortKey,
    pub sort_order: SortOrder,
    pub last_data_hash: Option<u64>,
    pub is_initial_load: bool,
}

/// The filter a query-dependent operation uses: a non-empty transient
/// query takes precedence over the committed filter, without changing it.
pub open spec fn effective_filter(st: NexusState, q: Seq<char>) -> Option<Seq<char>> {
    if q.len() > 0 {
        Some(lower_of(q))
    } else {
        opt_str_view(st.active_filter)
    }
}

/// The filtered view: indices of the rows the query keeps, in row order.
pub open spec fn filtered_of(st: NexusState, q: Seq<char>) -> Seq<usize> {
    filtered_upto(st.connections@, effective_filter(st, q), st.connections@.len() as int)
}

/// The filtered view under the committed filter alone.
pub open spec fn persisted_filtered(st: NexusState) -> Seq<usize> {
    filtered_upto(st.connections@, opt_str_view(st.active_filter), st.connections@.len() as int)
}

/// Position inside `idxs`, searching from `j` on, of the first row whose
/// identity key is `key`.
pub open spec fn find_key_from(
    s: Seq<ConnectionInfo>,
    idxs: Seq<usize>,
    key: (u32, Seq<char>, u16, Seq<char>, u16),
    j: int,
) -> Option<usize>
    decreases idxs.len() - j,
{
    if j < 0 || j >= idxs.len() {
        None
    } else if conn_key(s[idxs[j] as int]) == key {
        Some(j as usize)
    } else {
        find_key_from(s, idxs, key, j + 1)
    }
}

/// The cursor after reconciling the selection against a filtered view:
/// the selected row's new position if it survived, else the top of the
/// view, else nothing.
pub open spec fn reconciled_cursor(
    s: Seq<ConnectionInfo>,
    idxs: Seq<usize>,
    sel: Option<(u32, Seq<char>, u16, Seq<char>, u16)>,
) -> Option<usize> {
    match sel {
        Some(key) => match find_key_from(s, idxs, key, 0) {
            Some(j) => Some(j),
            None => if idxs.len() > 0 {
                Some(0usize)
            } else {
                None
            },
        },
        None => if idxs.len() > 0 {
            Some(0usize)
        } else {
            None
        },
    }
}

/// The selected identity after the same reconciliation.
pub open spec fn reconciled_sel(
    s: Seq<ConnectionInfo>,
    idxs: Seq<usize>,
    sel: Option<(u32, Seq<char>, u16, Seq<char>, u16)>,
) -> Option<(u32, Seq<char>, u16, Seq<char>, u16)> {
    match sel {
        Some(key) => match find_key_from(s, idxs, key, 0) {
            Some(j) => Some(key),
            None => if idxs.len() > 0 {
                Some(conn_key(s[idxs[0] as int]))
            } else {
                None
            },
        },
        None => if idxs.len() > 0 {
            Some(conn_key(s[idxs[0] as int]))
        } else {
            None
        },
    }
}

/// The identity fingerprint of one row: pid, local address, local port.
pub open spec fn fp_row(h: u64, c: ConnectionInfo) -> u64 {
    fp_step(fp_text(fp_step(h, c.pid as u64), c.local_addr@), c.local_port as u64)
}

/// The fingerprint after folding in every row, first to last.
pub open spec fn fp_rows(h: u64, s: Seq<ConnectionInfo>) -> u64
    decreases s.len(),
{
    if s.len() == 0 {
        h
    } else {
        fp_rows(fp_row(h, s[0]), s.drop_first())
    }
}

/// The identity fingerprint of a snapshot: its length, then each row's
/// pid, local address and local port.
pub open spec fn snapshot_fingerprint(s: Seq<ConnectionInfo>) -> u64 {
    fp_rows(fp_step(FP_OFFSET, s.len() as u64), s)
}

/// How long before `now` the moment `past` lies; zero when it does not.
pub open spec fn elapsed_since(now: u64, past: u64) -> u64 {
    if now >= past {
        (now - past) as u64
    } else {
        0
    }
}

/// Whether a snapshot is taken in: its identity content must differ from
/// the last accepted snapshot, and, once the first load is done, it must
/// not land inside the navigation debounce window.
pub open spec fn accepts(pre: NexusState, snap: Seq<ConnectionInfo>, now: u64) -> bool {
    &&& pre.last_data_hash != Some(snapshot_fingerprint(snap))
    &&& (pre.is_initial_load || elapsed_since(now, pre.last_navigation) >= DEBOUNCE_MS)
}

/// How an accepted or rejected snapshot changes the state: a rejected one
/// changes nothing at all; an accepted one replaces the rows wholesale,
/// re-sorts them, refreshes the fingerprint and reconciles the selection
/// against the committed filter.
pub open spec fn update_rel(
    pre: NexusState,
    post: NexusState,
    snap: Seq<ConnectionInfo>,
    now: u64,
    accepted: bool,
) -> bool {
    &&& accepted == accepts(pre, snap, now)
    &&& if !accepted {
        post == pre
    } else {
        &&& post.connections@ == sort_spec(conn_le_fn(pre.sort_key, pre.sort_order), snap)
        &&& post.active_filter == pre.active_filter
        &&& post.sort_key == pre.sort_key
        &&& post.sort_order == pre.sort_order
        &&& post.last_navigation == pre.last_navigation
        &&& post.last_data_hash == Some(snapshot_fingerprint(snap))
        &&& post.is_initial_load == false
        &&& post.cursor == reconciled_cursor(
            post.connections@,
            persisted_filtered(post),
            sel_key_view(pre.selected_connection_key),
        )
        &&& sel_key_view(post.selected_connection_key) == reconciled_sel(
            post.connections@,
            persisted_filtered(post),
            sel_key_view(pre.selected_connection_key),
        )
    }
}

/// The fields a navigation or filter operation leaves alone.
pub open spec fn same_rows_and_sort(pre: NexusState, post: NexusState) -> bool {
    &&& post.connections == pre.connections
    &&& post.sort_key == pre.sort_key
    &&& post.sort_order == pre.sort_order
    &&& post.last_data_hash == pre.last_data_hash
    &&& post.is_initial_load == pre.is_initial_load
}


/// Committing a filter: an empty query clears it, any other is kept
/// lowercased; the selection is reconciled against the new committed
/// view. Rows, sort and the navigation clock stay as they were.
pub open spec fn set_filter_rel(pre: NexusState, post: NexusState, query: Seq<char>) -> bool {
    &&& same_rows_and_sort(pre, post)
    &&& post.last_navigation == pre.last_navigation
    &&& crate::text::opt_str_view(post.active_filter) == (if query.len() == 0 {
        None::<Seq<char>>
    } else {
        Some(lower_of(query))
    })
    &&& post.cursor == reconciled_cursor(pre.connections@, persisted_filtered(post), sel_key_view(pre.selected_connection_key))
    &&& sel_key_view(post.selected_connection_key) == reconciled_sel(pre.connections@, persisted_filtered(post), sel_key_view(pre.selected_connection_key))
}

/// Advancing the sort key: the rows re-sorted under the next key, the
/// selection reconciled, everything else as it was.
pub open spec fn cycle_key_rel(pre: NexusState, post: NexusState) -> bool {
    &&& post.sort_key == next_key(pre.sort_key)
    &&& post.sort_order == pre.sort_order
    &&& post.connections@ == sort_spec(conn_le_fn(next_key(pre.sort_key), pre.sort_order), pre.connections@)
    &&& post.active_filter == pre.active_filter
    &&& post.last_navigation == pre.last_navigation
    &&& post.last_data_hash == pre.last_data_hash
    &&& post.is_initial_load == pre.is_initial_load
    &&& post.cursor == reconciled_cursor(post.connections@, persisted_filtered(post), sel_key_view(pre.selected_connection_key))
    &&& sel_key_view(post.selected_connection_key) == reconciled_sel(post.connections@, persisted_filtered(post), sel_key_view(pre.selected_connection_key))
}

/// Flipping the sort order: the rows re-sorted the other way round, the
/// selection reconciled, everything else as it was.
pub open spec fn toggle_order_rel(pre: NexusState, post: NexusState) -> bool {
    &&& post.sort_key == pre.sort_key
    &&& post.sort_order == toggled(pre.sort_order)
    &&& post.connections@ == sort_spec(conn_le_fn(pre.sort_key, toggled(pre.sort_order)), pre.connections@)
    &&& post.active_filter == pre.active_filter
    &&& post.last_navigation == pre.last_navigation
    &&& post.last_data_hash == pre.last_data_hash
    &&& post.is_initial_load == pre.is_initial_load
    &&& post.cursor == reconciled_cursor(post.connections@, persisted_filtered(post), sel_key_view(pre.selected_connection_key))
    &&& sel_key_view(post.selected_connection_key) == reconciled_sel(post.connections@, persisted_filtered(post), sel_key_view(pre.selected_connection_key))
}

/// The cursor index a wrapping or paging step starts from.
pub open spec fn cursor_base(c: Option<usize>) -> int {
    match c {
        Some(i) => i as int,
        None => 0,
    }
}

/// One step down the filtered view, wrapping at the bottom. Always stamps
/// the navigation clock; moves nothing when the view is empty.
pub open spec fn select_next_rel(pre: NexusState, post: NexusState, q: Seq<char>, now: u64) -> bool {
    let idxs = filtered_of(pre, q);
    &&& same_rows_and_sort(pre, post)
    &&& post.active_filter == pre.active_filter
    &&& post.last_navigation == now
    &&& if idxs.len() == 0 {
        post.cursor == pre.cursor && post.selected_connection_key == pre.selected_connection_key
    } else {
        let ni = (cursor_base(pre.cursor) + 1) % (idxs.len() as int);
        &&& post.cursor == Some(ni as usize)
        &&& sel_key_view(post.selected_connection_key) == Some(
            conn_key(pre.connections@[idxs[ni] as int]),
        )
    }
}

/// One step up the filtered view, wrapping at the top.
pub open spec fn select_prev_rel(pre: NexusState, post: NexusState, q: Seq<char>, now: u64) -> bool {
    let idxs = filtered_of(pre, q);
    &&& same_rows_and_sort(pre, post)
    &&& post.active_filter == pre.active_filter
    &&& post.last_navigation == now
    &&& if idxs.len() == 0 {
        post.cursor == pre.cursor && post.selected_connection_key == pre.selected_connection_key
    } else {
        let ni = (cursor_base(pre.cursor) + (idxs.len() as int) - 1) % (idxs.len() as int);
        &&& post.cursor == Some(ni as usize)
        &&& sel_key_view(post.selected_connection_key) == Some(
            conn_key(pre.connections@[idxs[ni] as int]),
        )
    }
}

/// A page-up jump: `PAGE_SIZE` rows towards the top, clamped at the first
/// row. A cursor stranded past the end of the view keeps no selection.
pub open spec fn page_up_rel(pre: NexusState, post: NexusState, q: Seq<char>, now: u64) -> bool {
    let idxs = filtered_of(pre, q);
    &&& same_rows_and_sort(pre, post)
    &&& post.active_filter == pre.active_filter
    &&& post.last_navigation == now
    &&& if idxs.len() == 0 {
        post.cursor == pre.cursor && post.selected_connection_key == pre.selected_connection_key
    } else {
        let i = cursor_base(pre.cursor);
        let ni = if i >= nav::PAGE_SIZE {
            i - nav::PAGE_SIZE
        } else {
            0int
        };
        &&& post.cursor == Some(ni as usize)
        &&& sel_key_view(post.selected_connection_key) == (if ni < idxs.len() {
            Some(conn_key(pre.connections@[idxs[ni] as int]))
        } else {
            None
        })
    }
}

/// A page-down jump: `PAGE_SIZE` rows towards the bottom, clamped at the
/// last row of the view.
pub open spec fn page_down_rel(pre: NexusState, post: NexusState, q: Seq<char>, now: u64) -> bool {
    let idxs = filtered_of(pre, q);
    &&& same_rows_and_sort(pre, post)
    &&& post.active_filter == pre.active_filter
    &&& post.last_navigation == now
    &&& if idxs.len() == 0 {
        post.cursor == pre.cursor && post.selected_connection_key == pre.selected_connection_key
    } else {
        let i = cursor_base(pre.cursor);
        let ni = if i + nav::PAGE_SIZE <= idxs.len() - 1 {
            i + nav::PAGE_SIZE
        } else {
            idxs.len() - 1
        };
        &&& post.cursor == Some(ni as usize)
        &&& sel_key_view(post.selected_connection_key) == Some(
            conn_key(pre.connections@[idxs[ni] as int]),
        )
    }
}

/// A jump to the first row of the filtered view.
pub open spec fn select_first_rel(
    pre: NexusState,
    post: NexusState,
    q: Seq<char>,
    now: u64,
) -> bool {
    let idxs = filtered_of(pre, q);
    &&& same_rows_and_sort(pre, post)
    &&& post.active_filter == pre.active_filter
    &&& post.last_navigation == now
    &&& if idxs.len() == 0 {
        post.cursor == pre.cursor && post.selected_connection_key == pre.selected_connection_key
    } else {
        &&& post.cursor == Some(0usize)
        &&& sel_key_view(post.selected_connection_key) == Some(
            conn_key(pre.connections@[idxs[0] as int]),
        )
    }
}

/// A jump to the last row of the filtered view.
pub open spec fn select_last_rel(pre: NexusState, post: NexusState, q: Seq<char>, now: u64) -> bool {
    let idxs = filtered_of(pre, q);
    &&& same_rows_and_sort(pre, post)
    &&& post.active_filter == pre.active_filter
    &&& post.last_navigation == now
    &&& if idxs.len() == 0 {
        post.cursor == pre.cursor && post.selected_connection_key == pre.selected_connection_key
    } else {
        &&& post.cursor == Some((idxs.len() - 1) as usize)
        &&& sel_key_view(post.selected_connection_key) == Some(
            conn_key(pre.connections@[idxs[idxs.len() - 1] as int]),
        )
    }
}

/// The row the cursor points at through the filtered view, if any.
pub open spec fn selected_of(st: NexusState, q: Seq<char>) -> Option<ConnectionInfo> {
    let idxs = filtered_of(st, q);
    match st.cursor {
        Some(i) => if (i as int) < idxs.len() {
            Some(st.connections@[idxs[i as int] as int])
        } else {
            None
        },
        None => None,
    }
}

impl NexusState {
    /// A fresh connection view: no rows, no selection, no filter, sorted
    /// by state ascending, first load still pending.
    pub fn new() -> (r: Self)
        ensures
            r.connections@ == Seq::<ConnectionInfo>::empty(),
            r.cursor is None,
            r.active_filter is None,
            r.selected_connection_key is None,
            r.last_navigation == 0,
            r.sort_key == SortKey::State,
            r.sort_order == SortOrder::Ascending,
            r.last_data_hash is None,
            r.is_initial_load == true,
    {
        NexusState {
            connections: Vec::new(),
            cursor: None,
            active_filter: None,
            selected_connection_key: None,
            last_navigation: 0,
            sort_key: SortKey::State,
            sort_order: SortOrder::Ascending,
            last_data_hash: None,
            is_initial_load: true,
        }
    }

    /// The identity fingerprint of a snapshot.
    fn compute_data_hash(&self, connections: &Vec<ConnectionInfo>) -> (r: u64)
        ensures
            r == snapshot_fingerprint(connections@),
    {
        let n = connections.len();
        let mut acc = fp_mix(FP_OFFSET, n as u64);
        let mut i: usize = 0;
        proof {
            assert(connections@.skip(0) =~= connections@);
        }
        while i < n
            invariant
                i <= n,
                n == connections@.len(),
                snapshot_fingerprint(connections@) == fp_rows(acc, connections@.skip(i as int)),
            decreases n - i,
        {
            let c = &connections[i];
            proof {
                assert(connections@.skip(i as int)[0] == connections@[i as int]);
                assert(connections@.skip(i as int).drop_first() =~= connections@.skip(i + 1));
            }
            acc = fp_mix(fp_str(fp_mix(acc, c.pid as u64), self_str(&c.local_addr)),
                c.local_port as u64);
            i = i + 1;
        }
        acc
    }

    /// Whether an arriving snapshot would be discarded by the navigation
    /// debounce alone: the first load never is.
    pub fn should_ignore_update(&self, now_ms: u64) -> (r: bool)
        ensures
            r == (!self.is_initial_load && elapsed_since(now_ms, self.last_navigation)
                < DEBOUNCE_MS),
    {
        if self.is_initial_load {
            return false;
        }
        let elapsed = if now_ms >= self.last_navigation {
            now_ms - self.last_navigation
        } else {
            0
        };
        elapsed < DEBOUNCE_MS
    }

    /// The filter in force for a query-dependent operation: the transient
    /// query, lowercased, when it is non-empty; else the committed filter.
    fn get_filter(&self, search_query: &str) -> (r: Option<String>)
        ensures
            opt_str_view(r) == effective_filter(*self, search_query@),
    {
        if search_query.unicode_len() > 0 {
            Some(lowercase(search_query))
        } else {
            match &self.active_filter {
                Some(f) => Some(f.clone()),
                None => None,
            }
        }
    }

    /// Indices of the rows the query keeps, in row order.
    pub fn get_filtered_indices(&self, search_query: &str) -> (r: Vec<usize>)
        ensures
            r@ == filtered_of(*self, search_query@),
    {
        let f = self.get_filter(search_query);
        let ghost fv = effective_filter(*self, search_query@);
        let mut r: Vec<usize> = Vec::new();
        let mut i: usize = 0;
        let n = self.connections.len();
        while i < n
            invariant
                i <= n,
                n == self.connections@.len(),
                opt_str_view(f) == fv,
                r@ == filtered_upto(self.connections@, fv, i as int),
            decreases n - i,
        {
            let keep = match &f {
                None => true,
                Some(q) => conn_matches_exec(&self.connections[i], self_str(q)),
            };
            if keep {
                r.push(i);
            }
            i = i + 1;
        }
        r
    }

    /// The rows the query keeps, each with its index in the full list.
    pub fn filtered_connections(&self, search_query: &str) -> (r: Vec<(usize, ConnectionInfo)>)
        ensures
            r@.len() == filtered_of(*self, search_query@).len(),
            forall|j: int|
                0 <= j < r@.len() ==> {
                    &&& (#[trigger] r@[j]).0 == filtered_of(*self, search_query@)[j]
                    &&& conn_like(
                        r@[j].1,
                        self.connections@[filtered_of(*self, search_query@)[j] as int],
                    )
                },
    {
        let idxs = self.get_filtered_indices(search_query);
        proof {
            lemma_filtered_bounds(
                self.connections@,
                effective_filter(*self, search_query@),
                self.connections@.len() as int,
            );
        }
        let mut r: Vec<(usize, ConnectionInfo)> = Vec::new();
        let mut j: usize = 0;
        while j < idxs.len()
            invariant
                j <= idxs@.len(),
                idxs@ == filtered_of(*self, search_query@),
                forall|t: int|
                    0 <= t < idxs@.len() ==> (#[trigger] idxs@[t]) < self.connections@.len(),
                r@.len() == j,
                forall|t: int|
                    0 <= t < j ==> {
                        &&& (#[trigger] r@[t]).0 == idxs@[t]
                        &&& conn_like(r@[t].1, self.connections@[idxs@[t] as int])
                    },
            decreases idxs@.len() - j,
        {
            let idx = idxs[j];
            r.push((idx, self.connections[idx].duplicate()));
            j = j + 1;
        }
        r
    }

    /// Re-points the cursor at the selected row inside the committed
    /// filtered view, falling back to the top of the view, or to no
    /// selection when the view is empty.
    #[verifier::loop_isolation(false)]
    fn reconcile_selection(&mut self)
        ensures
            same_rows_and_sort(*old(self), *final(self)),
            final(self).active_filter == old(self).active_filter,
            final(self).last_navigation == old(self).last_navigation,
            final(self).cursor == reconciled_cursor(
                old(self).connections@,
                persisted_filtered(*old(self)),
                sel_key_view(old(self).selected_connection_key),
            ),
            sel_key_view(final(self).selected_connection_key) == reconciled_sel(
                old(self).connections@,
                persisted_filtered(*old(self)),
                sel_key_view(old(self).selected_connection_key),
            ),
    {
        proof {
            reveal_strlit("");
        }
        let idxs = self.get_filtered_indices("");
        let ghost s = self.connections@;
        proof {
            assert(effective_filter(*self, ""@) == opt_str_view(self.active_filter));
            assert(idxs@ == persisted_filtered(*self));
            lemma_filtered_bounds(s, opt_str_view(self.active_filter), s.len() as int);
        }
        let sel = match &self.selected_connection_key {
            Some(t) => Some((t.0, t.1.clone(), t.2, t.3.clone(), t.4)),
            None => None,
        };
        match sel {
            Some(key) => {
                let ghost kv = sel_key_view(old(self).selected_connection_key).unwrap();
                let mut j: usize = 0;
                let n = idxs.len();
                while j < n
                    invariant
                        j <= n,
                        n == idxs@.len(),
                        forall|t: int| 0 <= t < idxs@.len() ==> (#[trigger] idxs@[t]) < s.len(),
                        *self == *old(self),
                        (key.0, key.1@, key.2, key.3@, key.4) == kv,
                        find_key_from(s, idxs@, kv, 0) == find_key_from(s, idxs@, kv, j as int),
                    decreases n - j,
                {
                    let row_hit = {
                        let c = &self.connections[idxs[j]];
                        c.pid == key.0 && c.local_addr == key.1 && c.local_port == key.2
                            && c.remote_addr == key.3 && c.remote_port == key.4
                    };
                    if row_hit {
                        self.cursor = Some(j);
                        return ;
                    }
                    j = j + 1;
                }
                // The selected connection is gone from the view.
                if idxs.len() > 0 {
                    self.cursor = Some(0);
                    self.selected_connection_key = Some(key_of(&self.connections[idxs[0]]));
                } else {
                    self.cursor = None;
                    self.selected_connection_key = None;
                }
            },
            None => {
                if idxs.len() > 0 {
                    self.cursor = Some(0);
                    self.selected_connection_key = Some(key_of(&self.connections[idxs[0]]));
                } else {
                    self.cursor = None;
                    self.selected_connection_key = None;
                }
            },
        }
    }

    /// Sorts the rows by the current key and order.
    fn sort_connections(&mut self)
        ensures
            final(self).connections@ == sort_spec(
                conn_le_fn(old(self).sort_key, old(self).sort_order),
                old(self).connections@,
            ),
            final(self).cursor == old(self).cursor,
            final(self).active_filter == old(self).active_filter,
            final(self).selected_connection_key == old(self).selected_connection_key,
            final(self).last_navigation == old(self).last_navigation,
            final(self).sort_key == old(self).sort_key,
            final(self).sort_order == old(self).sort_order,
            final(self).last_data_hash == old(self).last_data_hash,
            final(self).is_initial_load == old(self).is_initial_load,
    {
        let k = self.sort_key;
        let o = self.sort_order;
        let mut owned: Vec<ConnectionInfo> = Vec::new();
        core::mem::swap(&mut owned, &mut self.connections);
        let cmp = |a: &ConnectionInfo, b: &ConnectionInfo| -> (res: bool)
            ensures
                res == conn_le(k, o, *a, *b),
            { conn_le_exec(k, o, a, b) };
        let ghost le = conn_le_fn(k, o);
        proof {
            assert forall|a: &ConnectionInfo, b: &ConnectionInfo, ret: bool| #[trigger]
                call_ensures(cmp, (a, b), ret) implies ret == le(*a, *b) by {
                assert(le(*a, *b) == conn_le(k, o, *a, *b));
            }
        }
        let sorted = sort_by_le(owned, &cmp, Ghost(le));
        self.connections = sorted;
    }

    /// Takes one snapshot in, or discards it: discarded when its identity
    /// fingerprint matches the last accepted snapshot, or when it lands in
    /// the debounce window after a navigation step (never on first load).
    /// Returns whether the snapshot was accepted; a discarded snapshot
    /// leaves the state exactly as it was.
    pub fn update_connections(&mut self, connections: Vec<ConnectionInfo>, now_ms: u64) -> (accepted:
        bool)
        ensures
            update_rel(*old(self), *final(self), connections@, now_ms, accepted),
    {
        let h = self.compute_data_hash(&connections);
        let same = match self.last_data_hash {
            Some(prev) => prev == h,
            None => false,
        };
        if same {
            return false;
        }
        if self.should_ignore_update(now_ms) {
            return false;
        }
        self.connections = connections;
        self.last_data_hash = Some(h);
        self.sort_connections();
        self.reconcile_selection();
        self.is_initial_load = false;
        true
    }

    /// Commits a filter: an empty query clears it, any other is kept
    /// lowercased. Applies at once — filtering is a content decision, so
    /// it neither stamps nor consults the navigation debounce.
    pub fn set_filter(&mut self, query: String)
        ensures
            set_filter_rel(*old(self), *final(self), query@),
    {
        if str_is_empty(&query) {
            self.active_filter = None;
        } else {
            self.active_filter = Some(lowercase(self_str(&query)));
        }
        self.reconcile_selection();
    }

    /// Clears the committed filter; the whole list shows again.
    pub fn clear_filter(&mut self)
        ensures
            set_filter_rel(*old(self), *final(self), Seq::<char>::empty()),
    {
        self.active_filter = None;
        self.reconcile_selection();
    }

    /// Advances to the next sort key, re-sorts and re-points the cursor.
    pub fn cycle_sort_key(&mut self)
        ensures
            cycle_key_rel(*old(self), *final(self)),
    {
        self.sort_key = self.sort_key.next();
        self.sort_connections();
        self.reconcile_selection();
    }

    /// Flips the sort order, re-sorts and re-points the cursor.
    pub fn toggle_sort_order(&mut self)
        ensures
            toggle_order_rel(*old(self), *final(self)),
    {
        self.sort_order = self.sort_order.toggle();
        self.sort_connections();
        self.reconcile_selection();
    }

    /// Moves the selection one row down the filtered view, wrapping at the
    /// bottom. Stamps the navigation clock, arming the debounce.
    pub fn select_next(&mut self, search_query: &str, now_ms: u64)
        ensures
            select_next_rel(*old(self), *final(self), search_query@, now_ms),
    {
        let idxs = self.get_filtered_indices(search_query);
        self.last_navigation = now_ms;
        if idxs.len() == 0 {
            return ;
        }
        proof {
            lemma_filtered_bounds(
                old(self).connections@,
                effective_filter(*old(self), search_query@),
                old(self).connections@.len() as int,
            );
        }
        let i = match self.cursor {
            Some(c) => c,
            None => 0,
        };
        let ni = nav::wrap_next(i, idxs.len());
        self.cursor = Some(ni);
        self.selected_connection_key = Some(key_of(&self.connections[idxs[ni]]));
    }

    /// Moves the selection one row up the filtered view, wrapping at the
    /// top. Stamps the navigation clock.
    pub fn select_prev(&mut self, search_query: &str, now_ms: u64)
        ensures
            select_prev_rel(*old(self), *final(self), search_query@, now_ms),
    {
        let idxs = self.get_filtered_indices(search_query);
        self.last_navigation = now_ms;
        if idxs.len() == 0 {
            return ;
        }
        proof {
            lemma_filtered_bounds(
                old(self).connections@,
                effective_filter(*old(self), search_query@),
                old(self).connections@.len() as int,
            );
        }
        let i = match self.cursor {
            Some(c) => c,
            None => 0,
        };
        let ni = nav::wrap_prev(i, idxs.len());
        self.cursor = Some(ni);
        self.selected_connection_key = Some(key_of(&self.connections[idxs[ni]]));
    }

    /// Jumps the selection a page towards the top, clamped at the first
    /// row. Stamps the navigation clock.
    pub fn select_page_up(&mut self, search_query: &str, now_ms: u64)
        ensures
            page_up_rel(*old(self), *final(self), search_query@, now_ms),
    {
        let idxs = self.get_filtered_indices(search_query);
        self.last_navigation = now_ms;
        if idxs.len() == 0 {
            return ;
        }
        proof {
            lemma_filtered_bounds(
                old(self).connections@,
                effective_filter(*old(self), search_query@),
                old(self).connections@.len() as int,
            );
        }
        let i = match self.cursor {
            Some(c) => c,
            None => 0,
        };
        let ni = nav::page_up_index(i);
        self.cursor = Some(ni);
        if ni < idxs.len() {
            self.selected_connection_key = Some(key_of(&self.connections[idxs[ni]]));
        } else {
            self.selected_connection_key = None;
        }
    }

    /// Jumps the selection a page towards the bottom, clamped at the last
    /// row of the view. Stamps the navigation clock.
    pub fn select_page_down(&mut self, search_query: &str, now_ms: u64)
        ensures
            page_down_rel(*old(self), *final(self), search_query@, now_ms),
    {
        let idxs = self.get_filtered_indices(search_query);
        self.last_navigation = now_ms;
        if idxs.len() == 0 {
            return ;
        }
        proof {
            lemma_filtered_bounds(
                old(self).connections@,
                effective_filter(*old(self), search_query@),
                old(self).connections@.len() as int,
            );
        }
        let i = match self.cursor {
            Some(c) => c,
            None => 0,
        };
        let ni = nav::page_down_index(i, idxs.len());
        self.cursor = Some(ni);
        self.selected_connection_key = Some(key_of(&self.connections[idxs[ni]]));
    }

    /// Jumps the selection to the first row of the filtered view. Stamps
    /// the navigation clock.
    pub fn select_first(&mut self, search_query: &str, now_ms: u64)
        ensures
            select_first_rel(*old(self), *final(self), search_query@, now_ms),
    {
        let idxs = self.get_filtered_indices(search_query);
        self.last_navigation = now_ms;
        if idxs.len() == 0 {
            return ;
        }
        proof {
            lemma_filtered_bounds(
                old(self).connections@,
                effective_filter(*old(self), search_query@),
                old(self).connections@.len() as int,
            );
        }
        self.cursor = Some(0);
        self.selected_connection_key = Some(key_of(&self.connections[idxs[0]]));
    }

    /// Jumps the selection to the last row of the filtered view. Stamps
    /// the navigation clock.
    pub fn select_last(&mut self, search_query: &str, now_ms: u64)
        ensures
            select_last_rel(*old(self), *final(self), search_query@, now_ms),
    {
        let idxs = self.get_filtered_indices(search_query);
        self.last_navigation = now_ms;
        if idxs.len() == 0 {
            return ;
        }
        proof {
            lemma_filtered_bounds(
                old(self).connections@,
                effective_filter(*old(self), search_query@),
                old(self).connections@.len() as int,
            );
        }
        let last = idxs.len() - 1;
        self.cursor = Some(last);
        self.selected_connection_key = Some(key_of(&self.connections[idxs[last]]));
    }

    /// The row the cursor points at through the filtered view, if any.
    pub fn get_selected_connection(&self, search_query: &str) -> (r: Option<&ConnectionInfo>)
        ensures
            match r {
                Some(c) => selected_of(*self, search_query@) == Some(*c),
                None => selected_of(*self, search_query@) is None,
            },
    {
        let idxs = self.get_filtered_indices(search_query);
        proof {
            lemma_filtered_bounds(
                self.connections@,
                effective_filter(*self, search_query@),
                self.connections@.len() as int,
            );
        }
        match self.cursor {
            Some(i) => {
                if i < idxs.len() {
                    Some(&self.connections[idxs[i]])
                } else {
                    None
                }
            },
            None => None,
        }
    }
}

/// The five-part identity key of a row, with owned strings.
fn key_of(c: &ConnectionInfo) -> (r: (u32, String, u16, String, u16))
    ensures
        (r.0, r.1@, r.2, r.3@, r.4) == conn_key(*c),
{
    (c.pid, c.local_addr.clone(), c.local_port, c.remote_addr.clone(), c.remote_port)
}

/// Whether a string is empty.
fn str_is_empty(s: &String) -> (r: bool)
    ensures
        r == (s@.len() == 0),
{
    s.as_str().unicode_len() == 0
}

/// Updating twice with the same snapshot is the same as updating once:
/// the second call is rejected by the fingerprint and leaves the state
/// exactly as the first call left it.
pub proof fn lemma_update_idempotent(
    s0: NexusState,
    s1: NexusState,
    s2: NexusState,
    snap: Seq<ConnectionInfo>,
    t1: u64,
    t2: u64,
    acc2: bool,
)
    requires
        update_rel(s0, s1, snap, t1, true),
        update_rel(s1, s2, snap, t2, acc2),
    ensures
        acc2 == false,
        s2 == s1,
{
}

/// A snapshot with changed content arriving inside the debounce window of
/// a navigation step is discarded outright, once the first load is done.
pub proof fn lemma_debounce_rejects(
    pre: NexusState,
    post: NexusState,
    snap: Seq<ConnectionInfo>,
    now: u64,
    acc: bool,
)
    requires
        update_rel(pre, post, snap, now, acc),
        !pre.is_initial_load,
        elapsed_since(now, pre.last_navigation) < DEBOUNCE_MS,
    ensures
        acc == false,
        post == pre,
{
}

/// Once the debounce window has elapsed, a snapshot whose content differs
/// from the last accepted one is accepted.
pub proof fn lemma_debounce_expires(
    pre: NexusState,
    post: NexusState,
    snap: Seq<ConnectionInfo>,
    now: u64,
    acc: bool,
)
    requires
        update_rel(pre, post, snap, now, acc),
        pre.last_data_hash != Some(snapshot_fingerprint(snap)),
        elapsed_since(now, pre.last_navigation) >= DEBOUNCE_MS,
    ensures
        acc == true,
{
}

/// The very first update is always accepted, whatever the timing.
pub proof fn lemma_first_update_accepted(
    pre: NexusState,
    post: NexusState,
    snap: Seq<ConnectionInfo>,
    now: u64,
    acc: bool,
)
    requires
        update_rel(pre, post, snap, now, acc),
        pre.is_initial_load,
        pre.last_data_hash is None,
    ensures
        acc == true,
{
}

/// Filter precedence: a non-empty transient query decides the filtered
/// view by itself; an empty one defers to the committed filter.
pub proof fn lemma_filter_precedence(st: NexusState, q: Seq<char>)
    ensures
        q.len() > 0 ==> filtered_of(st, q) == filtered_upto(
            st.connections@,
            Some(lower_of(q)),
            st.connections@.len() as int,
        ),
        q.len() == 0 ==> filtered_of(st, q) == persisted_filtered(st),
{
}


/// The comparator in force is a total, transitive preorder, whatever the
/// key and order.
pub proof fn lemma_conn_le_total_trans(k: SortKey, o: SortOrder)
    ensures
        forall|a: ConnectionInfo, b: ConnectionInfo| #[trigger] conn_le(k, o, a, b) || #[trigger] conn_le(k, o, b, a),
        forall|a: ConnectionInfo, b: ConnectionInfo, c: ConnectionInfo|
            #[trigger] conn_le(k, o, a, b) && #[trigger] conn_le(k, o, b, c) ==> conn_le(k, o, a, c),
{
    assert forall|a: ConnectionInfo, b: ConnectionInfo| #[trigger] conn_le(k, o, a, b) || #[trigger] conn_le(
        k,
        o,
        b,
        a,
    ) by {
        match k {
            SortKey::ProcessName => {
                crate::text::lemma_seq_char_le_total(name_or_empty(a), name_or_empty(b));
            },
            _ => {},
        }
    }
    assert forall|a: ConnectionInfo, b: ConnectionInfo, c: ConnectionInfo|
        #[trigger] conn_le(k, o, a, b) && #[trigger] conn_le(k, o, b, c) implies conn_le(
        k,
        o,
        a,
        c,
    ) by {
        match k {
            SortKey::ProcessName => {
                match o {
                    SortOrder::Ascending => crate::text::lemma_seq_char_le_trans(
                        name_or_empty(a),
                        name_or_empty(b),
                        name_or_empty(c),
                    ),
                    SortOrder::Descending => crate::text::lemma_seq_char_le_trans(
                        name_or_empty(c),
                        name_or_empty(b),
                        name_or_empty(a),
                    ),
                }
            },
            _ => {},
        }
    }
}

/// Sorting is never partial: the re-sorted rows are fully ordered by the
/// comparator in force, and are exactly the given rows rearranged.
pub proof fn lemma_rows_fully_sorted(k: SortKey, o: SortOrder, rows: Seq<ConnectionInfo>)
    ensures
        crate::sorting::sorted_by_le(conn_le_fn(k, o), sort_spec(conn_le_fn(k, o), rows)),
        sort_spec(conn_le_fn(k, o), rows).to_multiset() == rows.to_multiset(),
{
    let le = conn_le_fn(k, o);
    lemma_conn_le_total_trans(k, o);
    assert forall|a: ConnectionInfo, b: ConnectionInfo| #[trigger] le(a, b) || #[trigger] le(b, a) by {
        assert(le(a, b) == conn_le(k, o, a, b));
        assert(le(b, a) == conn_le(k, o, b, a));
    }
    assert forall|a: ConnectionInfo, b: ConnectionInfo, c: ConnectionInfo| #[trigger] le(a, b) && #[trigger] le(b, c)
        implies le(a, c) by {
        assert(le(a, b) == conn_le(k, o, a, b));
        assert(le(b, c) == conn_le(k, o, b, c));
        assert(le(a, c) == conn_le(k, o, a, c));
    }
    crate::sorting::lemma_sort_spec_sorted(le, rows);
    crate::sorting::lemma_sort_spec_permutes(le, rows);
}


/// A search from `j` finds a hit whenever one lies at or past `j`.
proof fn lemma_find_key_some(
    s: Seq<ConnectionInfo>,
    idxs: Seq<usize>,
    key: (u32, Seq<char>, u16, Seq<char>, u16),
    j: int,
)
    requires
        0 <= j <= idxs.len(),
        idxs.len() <= usize::MAX,
        exists|t: int| j <= t < idxs.len() && conn_key(#[trigger] s[idxs[t] as int]) == key,
    ensures
        find_key_from(s, idxs, key, j) is Some,
    decreases idxs.len() - j,
{
    if conn_key(s[idxs[j] as int]) != key {
        let t = choose|t: int| j <= t < idxs.len() && conn_key(#[trigger] s[idxs[t] as int]) == key;
        assert(j + 1 <= t < idxs.len());
        lemma_find_key_some(s, idxs, key, j + 1);
    }
}

/// What a successful search means: the hit lies in range and matches.
proof fn lemma_find_key_hit(
    s: Seq<ConnectionInfo>,
    idxs: Seq<usize>,
    key: (u32, Seq<char>, u16, Seq<char>, u16),
    j: int,
    r: usize,
)
    requires
        0 <= j,
        idxs.len() <= usize::MAX,
        find_key_from(s, idxs, key, j) == Some(r),
    ensures
        j <= r < idxs.len(),
        conn_key(s[idxs[r as int] as int]) == key,
    decreases idxs.len() - j,
{
    if j >= idxs.len() {
        assert(find_key_from(s, idxs, key, j) is None);
    } else if conn_key(s[idxs[j] as int]) == key {
        assert(find_key_from(s, idxs, key, j) == Some(j as usize));
    } else {
        lemma_find_key_hit(s, idxs, key, j + 1, r);
    }
}

/// Selection stability: when an accepted snapshot still contains the
/// selected connection inside the committed filtered view, the selection
/// stays on that identity and the cursor re-points to its new position.
pub proof fn lemma_selection_stable(
    pre: NexusState,
    post: NexusState,
    snap: Seq<ConnectionInfo>,
    now: u64,
    key: (u32, Seq<char>, u16, Seq<char>, u16),
)
    requires
        update_rel(pre, post, snap, now, true),
        post.connections@.len() <= usize::MAX,
        sel_key_view(pre.selected_connection_key) == Some(key),
        exists|t: int|
            0 <= t < persisted_filtered(post).len() && conn_key(
                #[trigger] post.connections@[persisted_filtered(post)[t] as int],
            ) == key,
    ensures
        sel_key_view(post.selected_connection_key) == Some(key),
        post.cursor is Some,
        conn_key(post.connections@[persisted_filtered(post)[post.cursor.unwrap() as int] as int])
            == key,
{
    let idxs = persisted_filtered(post);
    lemma_filtered_len(
        post.connections@,
        opt_str_view(post.active_filter),
        post.connections@.len() as int,
    );
    lemma_find_key_some(post.connections@, idxs, key, 0);
    let r = find_key_from(post.connections@, idxs, key, 0).unwrap();
    lemma_find_key_hit(post.connections@, idxs, key, 0, r);
}


/// A snapshot whose identity fingerprint matches the last accepted one
/// is a guaranteed no-op: nothing is re-sorted, no selection moves, no
/// field changes.
pub proof fn lemma_fingerprint_noop(
    pre: NexusState,
    post: NexusState,
    snap: Seq<ConnectionInfo>,
    now: u64,
    acc: bool,
)
    requires
        update_rel(pre, post, snap, now, acc),
        pre.last_data_hash == Some(snapshot_fingerprint(snap)),
    ensures
        acc == false,
        post == pre,
{
}

} // verus!

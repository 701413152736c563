//! Collation of restart-manager lock reports: from the raw per-process
//! entries the platform returns to the deduplicated, running-only,
//! name-sorted list the finder shows.

use vstd::prelude::*;
use vstd::string::StringExecFns;

use crate::sorting::{lemma_sort_spec_map, sort_by_le, sort_spec};
use crate::text::{dec_str, seq_char_le, str_le, str_to_owned, u32_to_decimal};

verus! {

/// The process id the restart manager uses for an invalid entry.
pub const INVALID_LOCK_PID: u32 = 0xffff_ffff;

/// A process holding a lock on one of the files asked about.
#[derive(Debug)]
pub struct LockingProcess {
    pub pid: u32,
    pub name: String,
}

/// What a row shows: its pid and its name's characters.
pub open spec fn lock_view(p: LockingProcess) -> (u32, Seq<char>) {
    (p.pid, p.name@)
}

/// What a list of rows shows.
pub open spec fn lock_views(s: Seq<LockingProcess>) -> Seq<(u32, Seq<char>)> {
    s.map_values(|p: LockingProcess| lock_view(p))
}

impl LockingProcess {
    /// A field-for-field copy.
    pub fn duplicate(&self) -> (r: LockingProcess)
        ensures
            lock_view(r) == lock_view(*self),
    {
        LockingProcess { pid: self.pid, name: self.name.clone() }
    }
}

/// One raw entry of a restart-manager process list: the owning pid, the
/// application status bits, and the application name when one was given.
#[derive(Debug)]
pub struct RawLockEntry {
    pub pid: u32,
    pub app_status: u32,
    pub name: Option<String>,
}

/// Whether an earlier entry (before `n`) already claimed this pid; only
/// entries with a usable pid claim one.
pub open spec fn pid_seen(s: Seq<RawLockEntry>, n: int, pid: u32) -> bool {
    exists|i: int|
        0 <= i < n && (#[trigger] s[i]).pid == pid && s[i].pid != 0 && s[i].pid != INVALID_LOCK_PID
}

/// Whether entry `i` makes it into the report: a usable pid not claimed
/// earlier, and the running bit set in its status.
pub open spec fn entry_kept(s: Seq<RawLockEntry>, i: int) -> bool {
    &&& s[i].pid != 0
    &&& s[i].pid != INVALID_LOCK_PID
    &&& !pid_seen(s, i, s[i].pid)
    &&& s[i].app_status & 1 == 1
}

/// The name an entry shows: the one given, or `PID` and its number.
pub open spec fn entry_name(e: RawLockEntry) -> Seq<char> {
    match e.name {
        Some(n) => n@,
        None => "PID "@ + dec_str(e.pid as nat),
    }
}

/// The kept entries among the first `n`, in arrival order, as the rows
/// they will show.
pub open spec fn collated_upto(s: Seq<RawLockEntry>, n: int) -> Seq<(u32, Seq<char>)>
    decreases n,
{
    if n <= 0 {
        Seq::empty()
    } else if entry_kept(s, n - 1) {
        collated_upto(s, n - 1).push((s[n - 1].pid, entry_name(s[n - 1])))
    } else {
        collated_upto(s, n - 1)
    }
}

/// Name order on shown rows.
pub open spec fn lock_pair_le(a: (u32, Seq<char>), b: (u32, Seq<char>)) -> bool {
    seq_char_le(a.1, b.1)
}

/// `lock_pair_le` as a closed-over comparison function.
pub open spec fn lock_pair_le_fn() -> spec_fn((u32, Seq<char>), (u32, Seq<char>)) -> bool {
    |a: (u32, Seq<char>), b: (u32, Seq<char>)| lock_pair_le(a, b)
}

/// Name order on rows.
pub open spec fn lock_le_fn() -> spec_fn(LockingProcess, LockingProcess) -> bool {
    |a: LockingProcess, b: LockingProcess| seq_char_le(a.name@, b.name@)
}

/// Turns a raw restart-manager process list into the list the finder
/// shows: entries with no usable pid are dropped, each pid is reported
/// once, only running applications count, a missing name falls back to
/// the pid, and the result is sorted by name.
#[verifier::loop_isolation(false)]
pub fn collate_locking_processes(raw: Vec<RawLockEntry>) -> (r: Vec<LockingProcess>)
    ensures
        lock_views(r@) == sort_spec(lock_pair_le_fn(), collated_upto(raw@, raw@.len() as int)),
{
    let n = raw.len();
    let mut kept: Vec<LockingProcess> = Vec::new();
    let mut i: usize = 0;
    proof {
        assert(lock_views(kept@) =~= collated_upto(raw@, 0));
    }
    while i < n
        invariant
            i <= n,
            n == raw@.len(),
            lock_views(kept@) == collated_upto(raw@, i as int),
        decreases n - i,
    {
        let e = &raw[i];
        let mut usable = e.pid != 0 && e.pid != INVALID_LOCK_PID;
        if usable {
            // A usable pid is claimed by its first entry, whatever that
            // entry's status said.
            let mut j: usize = 0;
            while j < i
                invariant
                    j <= i,
                    i < n,
                    n == raw@.len(),
                    usable == !pid_seen(raw@, j as int, raw@[i as int].pid),
                    raw@[i as int].pid != 0,
                    raw@[i as int].pid != INVALID_LOCK_PID,
                decreases i - j,
            {
                let w = &raw[j];
                if w.pid == e.pid && w.pid != 0 && w.pid != INVALID_LOCK_PID {
                    usable = false;
                    proof {
                        let pid = raw@[i as int].pid;
                        assert((#[trigger] raw@[j as int]).pid == pid && raw@[j as int].pid != 0
                            && raw@[j as int].pid != INVALID_LOCK_PID);
                        assert(pid_seen(raw@, i as int, pid));
                    }
                    j = i;
                } else {
                    proof {
                        let pid = raw@[i as int].pid;
                        assert(raw@[j as int].pid != pid);
                        if pid_seen(raw@, j + 1, pid) {
                            let m = choose|m: int|
                                0 <= m < j + 1 && (#[trigger] raw@[m]).pid == pid && raw@[m].pid
                                    != 0 && raw@[m].pid != INVALID_LOCK_PID;
                            assert(m < j);
                            assert(pid_seen(raw@, j as int, pid));
                        }
                        if pid_seen(raw@, j as int, pid) {
                            let m = choose|m: int|
                                0 <= m < j && (#[trigger] raw@[m]).pid == pid && raw@[m].pid != 0
                                    && raw@[m].pid != INVALID_LOCK_PID;
                            assert(0 <= m < j + 1);
                            assert(pid_seen(raw@, j + 1, pid));
                        }
                    }
                    j = j + 1;
                }
            }
        }
        let running = e.app_status & 1 == 1;
        if usable && running {
            let name = match &e.name {
                Some(nm) => nm.clone(),
                None => {
                    let mut s = str_to_owned("PID ");
                    let digits = u32_to_decimal(e.pid);
                    s.append(digits.as_str());
                    s
                },
            };
            let row = LockingProcess { pid: e.pid, name };
            proof {
                assert(lock_views(kept@.push(row)) =~= lock_views(kept@).push(lock_view(row)));
            }
            kept.push(row);
        }
        i = i + 1;
    }
    let cmp = |a: &LockingProcess, b: &LockingProcess| -> (res: bool)
        ensures
            res == seq_char_le(a.name@, b.name@),
        { str_le(a.name.as_str(), b.name.as_str()) };
    let ghost le = lock_le_fn();
    proof {
        assert forall|a: &LockingProcess, b: &LockingProcess, ret: bool| #[trigger]
            call_ensures(cmp, (a, b), ret) implies ret == le(*a, *b) by {
            assert(le(*a, *b) == seq_char_le(a.name@, b.name@));
        }
    }
    let ghost pre_sort = kept@;
    let r = sort_by_le(kept, &cmp, Ghost(le));
    proof {
        lemma_sort_spec_map(
            |p: LockingProcess| lock_view(p),
            lock_le_fn(),
            lock_pair_le_fn(),
            pre_sort,
        );
    }
    r
}

} // verus!

//! CPU and memory metric refresh for the process list: turns raw
//! per-process CPU-time and working-set samples into the fixed-point
//! metrics the rows display, using a cache of the previous CPU-time
//! sample per pid to form the rate. The cache is rebuilt from the rows
//! seen in each pass, so pids that have exited are evicted.

use vstd::prelude::*;

use crate::state::locker::ProcessInfo;

verus! {

/// One raw metrics sample for a process: the total CPU time consumed so
/// far (in 100-nanosecond units) and the working-set size in bytes; each
/// absent when the platform query for it failed.
#[derive(Debug, Clone, Copy)]
pub struct MetricSample {
    pub pid: u32,
    pub total_time_100ns: Option<u64>,
    pub memory_bytes: Option<u64>,
}

/// A remembered CPU-time sample: what a pid's counter read, and when.
#[derive(Debug, Clone, Copy, PartialEq, Eq, Structural)]
pub struct CpuSlot {
    pub pid: u32,
    pub total_time_100ns: u64,
    pub at_ms: u64,
}

/// The first sample for a pid, searching from `j` on.
pub open spec fn find_sample(samples: Seq<MetricSample>, pid: u32, j: int) -> Option<MetricSample>
    decreases samples.len() - j,
{
    if j < 0 || j >= samples.len() {
        None
    } else if samples[j].pid == pid {
        Some(samples[j])
    } else {
        find_sample(samples, pid, j + 1)
    }
}

/// The first remembered slot for a pid, searching from `j` on.
pub open spec fn find_slot(cache: Seq<CpuSlot>, pid: u32, j: int) -> Option<CpuSlot>
    decreases cache.len() - j,
{
    if j < 0 || j >= cache.len() {
        None
    } else if cache[j].pid == pid {
        Some(cache[j])
    } else {
        find_slot(cache, pid, j + 1)
    }
}

/// How long before `now` the moment `past` lies; zero when it does not.
pub open spec fn elapsed_ms_since(now: u64, past: u64) -> u64 {
    if now >= past {
        (now - past) as u64
    } else {
        0
    }
}

/// CPU load in hundredths of a percent of the whole machine: the CPU
/// time consumed (100 ns units) over the wall time elapsed, spread over
/// the processors, clamped at one hundred percent.
pub open spec fn cpu_centi_of(delta: u64, elapsed_ms: u64, ncpu: u32) -> u32
    recommends
        elapsed_ms > 0,
        ncpu > 0,
{
    let q = (delta as int) / ((elapsed_ms as int) * (ncpu as int));
    if q > 10000 {
        10000u32
    } else {
        q as u32
    }
}

fn cpu_centi_exec(delta: u64, elapsed_ms: u64, ncpu: u32) -> (r: u32)
    requires
        elapsed_ms > 0,
        ncpu > 0,
    ensures
        r == cpu_centi_of(delta, elapsed_ms, ncpu),
{
    proof {
        vstd::arithmetic::mul::lemma_mul_strictly_positive(elapsed_ms as int, ncpu as int);
        vstd::arithmetic::mul::lemma_mul_upper_bound(
            elapsed_ms as int,
            u64::MAX as int,
            ncpu as int,
            u32::MAX as int,
        );
    }
    let denom = (elapsed_ms as u128) * (ncpu as u128);
    let q = (delta as u128) / denom;
    if q > 10000 {
        10000
    } else {
        q as u32
    }
}

/// How a metrics pass changes one row: a fresh rate when both the new
/// sample and a remembered one exist, with the last-known-good copies
/// refreshed alongside; a cleared last-known CPU value the first time a
/// pid is sampled; untouched fields wherever a sample is missing.
pub open spec fn metric_row_rel(
    p_old: ProcessInfo,
    p_new: ProcessInfo,
    samples: Seq<MetricSample>,
    cache: Seq<CpuSlot>,
    now: u64,
    ncpu: u32,
) -> bool {
    &&& p_new.pid == p_old.pid
    &&& p_new.name == p_old.name
    &&& p_new.path == p_old.path
    &&& match find_sample(samples, p_old.pid, 0) {
        None => {
            &&& p_new.cpu_centi == p_old.cpu_centi
            &&& p_new.last_cpu_centi == p_old.last_cpu_centi
            &&& p_new.memory_kb == p_old.memory_kb
            &&& p_new.last_memory_kb == p_old.last_memory_kb
        },
        Some(sm) => {
            &&& match sm.total_time_100ns {
                None => {
                    &&& p_new.cpu_centi == p_old.cpu_centi
                    &&& p_new.last_cpu_centi == p_old.last_cpu_centi
                },
                Some(total) => match find_slot(cache, p_old.pid, 0) {
                    None => {
                        &&& p_new.cpu_centi == p_old.cpu_centi
                        &&& p_new.last_cpu_centi == 0
                    },
                    Some(slot) => {
                        let elapsed = elapsed_ms_since(now, slot.at_ms);
                        if elapsed > 0 && ncpu > 0 {
                            let delta = if total >= slot.total_time_100ns {
                                (total - slot.total_time_100ns) as u64
                            } else {
                                0u64
                            };
                            let c = cpu_centi_of(delta, elapsed, ncpu);
                            &&& p_new.cpu_centi == c
                            &&& p_new.last_cpu_centi == c
                        } else {
                            &&& p_new.cpu_centi == p_old.cpu_centi
                            &&& p_new.last_cpu_centi == p_old.last_cpu_centi
                        }
                    },
                },
            }
            &&& match sm.memory_bytes {
                None => {
                    &&& p_new.memory_kb == p_old.memory_kb
                    &&& p_new.last_memory_kb == p_old.last_memory_kb
                },
                Some(bytes) => {
                    &&& p_new.memory_kb == bytes / 1024
                    &&& p_new.last_memory_kb == bytes / 1024
                },
            }
        },
    }
}

/// The cache a pass leaves behind: one slot per row whose CPU time was
/// sampled, in row order — rows of exited pids leave nothing behind.
pub open spec fn refreshed_cache(
    procs: Seq<ProcessInfo>,
    samples: Seq<MetricSample>,
    now: u64,
    n: int,
) -> Seq<CpuSlot>
    decreases n,
{
    if n <= 0 {
        Seq::empty()
    } else {
        let rest = refreshed_cache(procs, samples, now, n - 1);
        match find_sample(samples, procs[n - 1].pid, 0) {
            Some(sm) => match sm.total_time_100ns {
                Some(t) => rest.push(
                    CpuSlot { pid: procs[n - 1].pid, total_time_100ns: t, at_ms: now },
                ),
                None => rest,
            },
            None => rest,
        }
    }
}

/// The first sample for a pid.
#[verifier::loop_isolation(false)]
fn find_sample_exec(samples: &Vec<MetricSample>, pid: u32) -> (r: Option<MetricSample>)
    ensures
        r == find_sample(samples@, pid, 0),
{
    let mut j: usize = 0;
    while j < samples.len()
        invariant
            j <= samples@.len(),
            find_sample(samples@, pid, 0) == find_sample(samples@, pid, j as int),
        decreases samples@.len() - j,
    {
        if samples[j].pid == pid {
            return Some(samples[j]);
        }
        j = j + 1;
    }
    None
}

/// The first remembered slot for a pid.
#[verifier::loop_isolation(false)]
fn find_slot_exec(cache: &Vec<CpuSlot>, pid: u32) -> (r: Option<CpuSlot>)
    ensures
        r == find_slot(cache@, pid, 0),
{
    let mut j: usize = 0;
    while j < cache.len()
        invariant
            j <= cache@.len(),
            find_slot(cache@, pid, 0) == find_slot(cache@, pid, j as int),
        decreases cache@.len() - j,
    {
        if cache[j].pid == pid {
            return Some(cache[j]);
        }
        j = j + 1;
    }
    None
}

/// One metrics pass over the process rows: refreshes each row from its
/// sample as `metric_row_rel` says, and replaces the cache with the
/// slots of the rows just sampled.
#[verifier::loop_isolation(false)]
pub fn apply_metric_samples(
    processes: &mut Vec<ProcessInfo>,
    cache: &mut Vec<CpuSlot>,
    samples: &Vec<MetricSample>,
    now_ms: u64,
    num_cpus: u32,
)
    ensures
        final(processes)@.len() == old(processes)@.len(),
        forall|i: int|
            0 <= i < old(processes)@.len() ==> metric_row_rel(
                old(processes)@[i],
                (#[trigger] final(processes)@[i]),
                samples@,
                old(cache)@,
                now_ms,
                num_cpus,
            ),
        final(cache)@ == refreshed_cache(
            old(processes)@,
            samples@,
            now_ms,
            old(processes)@.len() as int,
        ),
{
    let ghost orig = processes@;
    let ghost oldcache = cache@;
    let mut src: Vec<ProcessInfo> = Vec::new();
    core::mem::swap(&mut src, processes);
    let mut oldc: Vec<CpuSlot> = Vec::new();
    core::mem::swap(&mut oldc, cache);
    let n = src.len();
    let mut k: usize = 0;
    proof {
        assert(orig.skip(0) =~= orig);
        assert(cache@ =~= refreshed_cache(orig, samples@, now_ms, 0));
    }
    while k < n
        invariant
            k <= n,
            n == orig.len(),
            src@ == orig.skip(k as int),
            oldc@ == oldcache,
            processes@.len() == k,
            forall|i: int|
                0 <= i < k ==> metric_row_rel(
                    orig[i],
                    (#[trigger] processes@[i]),
                    samples@,
                    oldcache,
                    now_ms,
                    num_cpus,
                ),
            cache@ == refreshed_cache(orig, samples@, now_ms, k as int),
        decreases n - k,
    {
        let mut q = src.remove(0);
        proof {
            assert(q == orig[k as int]);
            assert(src@ =~= orig.skip(k + 1));
        }
        let smp = find_sample_exec(samples, q.pid);
        match smp {
            None => {},
            Some(sm) => {
                match sm.total_time_100ns {
                    Some(total) => {
                        cache.push(
                            CpuSlot { pid: q.pid, total_time_100ns: total, at_ms: now_ms },
                        );
                        match find_slot_exec(&oldc, q.pid) {
                            Some(slot) => {
                                let elapsed = if now_ms >= slot.at_ms {
                                    now_ms - slot.at_ms
                                } else {
                                    0
                                };
                                if elapsed > 0 && num_cpus > 0 {
                                    let delta = if total >= slot.total_time_100ns {
                                        total - slot.total_time_100ns
                                    } else {
                                        0
                                    };
                                    let c = cpu_centi_exec(delta, elapsed, num_cpus);
                                    q.cpu_centi = c;
                                    q.last_cpu_centi = c;
                                }
                            },
                            None => {
                                q.last_cpu_centi = 0;
                            },
                        }
                    },
                    None => {},
                }
                match sm.memory_bytes {
                    Some(bytes) => {
                        let kb = bytes / 1024;
                        q.memory_kb = kb;
                        q.last_memory_kb = kb;
                    },
                    None => {},
                }
            },
        }
        processes.push(q);
        k = k + 1;
    }
}

} // verus!

use sysdash::state::locker::{LockerState, ProcessInfo, SortKey, SortOrder};

fn proc(pid: u32, name: &str, cpu_centi: u32) -> ProcessInfo {
    ProcessInfo {
        pid,
        name: name.to_string(),
        path: None,
        cpu_centi,
        memory_kb: 0,
        last_cpu_centi: 0,
        last_memory_kb: 0,
    }
}

fn snapshot_a() -> Vec<ProcessInfo> {
    vec![proc(10, "a", 500), proc(20, "b", 5000)]
}

#[test]
fn first_update_is_accepted() {
    let mut st = LockerState::new();
    assert!(st.update_processes(snapshot_a(), 0));
    assert!(!st.is_initial_load);
}

#[test]
fn update_twice_same_snapshot_is_noop() {
    let mut st = LockerState::new();
    assert!(st.update_processes(snapshot_a(), 1000));
    let cursor = st.cursor;
    let selected = st.selected_pid;
    let pids: Vec<u32> = st.processes.iter().map(|p| p.pid).collect();
    let accepted = st.update_processes(snapshot_a(), 2000);
    assert!(!accepted);
    assert_eq!(st.cursor, cursor);
    assert_eq!(st.selected_pid, selected);
    let pids2: Vec<u32> = st.processes.iter().map(|p| p.pid).collect();
    assert_eq!(pids, pids2);
}

#[test]
fn selection_follows_identity_across_updates() {
    let mut st = LockerState::new();
    // Sorted by CPU descending by default: b (pid 20) first.
    assert!(st.update_processes(snapshot_a(), 1000));
    assert_eq!(st.selected_pid, Some(20));
    assert_eq!(st.cursor, Some(0));
    // Same rows re-sampled and reordered: pid 10 now the hotter one.
    let resampled = vec![proc(20, "b", 5100), proc(10, "a", 5200)];
    assert!(st.update_processes(resampled, 2000));
    assert_eq!(st.selected_pid, Some(20));
    assert_eq!(st.cursor, Some(1));
    assert_eq!(st.processes[0].pid, 10);
    assert_eq!(st.processes[1].pid, 20);
}

#[test]
fn debounce_rejects_then_accepts() {
    let mut st = LockerState::new();
    assert!(st.update_processes(snapshot_a(), 1000));
    st.select_next("", 2000);
    let newer = vec![proc(10, "a", 500), proc(20, "b", 5000), proc(30, "c", 1)];
    // Within the 50 ms window: discarded, nothing changes.
    assert!(!st.update_processes(
        vec![proc(10, "a", 500), proc(20, "b", 5000), proc(30, "c", 1)],
        2030
    ));
    assert_eq!(st.processes.len(), 2);
    // After the window: the very same snapshot is accepted.
    assert!(st.update_processes(newer, 2050));
    assert_eq!(st.processes.len(), 3);
}

#[test]
fn very_first_update_ignores_debounce() {
    let mut st = LockerState::new();
    st.select_next("", 1000);
    assert!(st.update_processes(snapshot_a(), 1010));
}

#[test]
fn filter_precedence_transient_over_persisted() {
    let mut st = LockerState::new();
    let rows = vec![proc(1, "sysdaemon", 0), proc(2, "netdaemon", 0)];
    assert!(st.update_processes(rows, 1000));
    st.set_filter("sys".to_string());
    assert_eq!(st.get_filtered_indices(""), vec![0]);
    assert_eq!(st.processes[0].name, "sysdaemon");
    // A live query overrides the committed filter without changing it.
    let through_net = st.get_filtered_indices("net");
    assert_eq!(through_net.len(), 1);
    assert_eq!(st.processes[through_net[0]].name, "netdaemon");
    assert_eq!(st.active_filter.as_deref(), Some("sys"));
    // Committing replaces it; clearing restores the whole view.
    st.set_filter("net".to_string());
    assert_eq!(st.active_filter.as_deref(), Some("net"));
    st.clear_filter();
    assert_eq!(st.active_filter, None);
    assert_eq!(st.get_filtered_indices("").len(), 2);
}

#[test]
fn filter_is_lowercased_and_matches_mixed_case_names() {
    let mut st = LockerState::new();
    let rows = vec![proc(1, "SysTemHost", 0), proc(2, "other", 0)];
    assert!(st.update_processes(rows, 1000));
    st.set_filter("SYS".to_string());
    assert_eq!(st.active_filter.as_deref(), Some("sys"));
    assert_eq!(st.get_filtered_indices(""), vec![0]);
}

#[test]
fn filter_matches_pid_digits_and_path() {
    let mut st = LockerState::new();
    let mut with_path = proc(4242, "svc", 0);
    with_path.path = Some("C:\\Tools\\Helper.exe".to_string());
    let rows = vec![with_path, proc(7, "other", 0)];
    assert!(st.update_processes(rows, 1000));
    assert_eq!(st.get_filtered_indices("4242").len(), 1);
    assert_eq!(st.get_filtered_indices("helper").len(), 1);
    assert_eq!(st.get_filtered_indices("nothere").len(), 0);
}

#[test]
fn sort_and_wraparound_selection() {
    let mut st = LockerState::new();
    assert!(st.update_processes(snapshot_a(), 1000));
    // CPU descending: visible order [b, a]; selection starts on b.
    assert_eq!(st.processes[0].name, "b");
    assert_eq!(st.processes[1].name, "a");
    assert_eq!(st.selected_pid, Some(20));
    st.select_next("", 2000);
    assert_eq!(st.selected_pid, Some(10));
    st.select_next("", 3000);
    assert_eq!(st.selected_pid, Some(20));
}

#[test]
fn select_prev_wraps_to_bottom() {
    let mut st = LockerState::new();
    assert!(st.update_processes(snapshot_a(), 1000));
    assert_eq!(st.cursor, Some(0));
    st.select_prev("", 2000);
    assert_eq!(st.cursor, Some(1));
    assert_eq!(st.selected_pid, Some(10));
}

#[test]
fn pagination_clamps_at_both_ends() {
    let mut st = LockerState::new();
    let rows: Vec<ProcessInfo> = (0..15u32).map(|i| proc(i + 1, "p", 0)).collect();
    assert!(st.update_processes(rows, 1000));
    assert_eq!(st.get_filtered_indices("").len(), 15);
    st.cursor = Some(3);
    st.select_page_up("", 2000);
    assert_eq!(st.cursor, Some(0));
    st.cursor = Some(12);
    st.select_page_down("", 3000);
    assert_eq!(st.cursor, Some(14));
}

#[test]
fn select_first_and_last() {
    let mut st = LockerState::new();
    let rows: Vec<ProcessInfo> = (0..5u32).map(|i| proc(i + 1, "p", 0)).collect();
    assert!(st.update_processes(rows, 1000));
    st.select_last("", 2000);
    assert_eq!(st.cursor, Some(4));
    st.select_first("", 3000);
    assert_eq!(st.cursor, Some(0));
    assert_eq!(st.last_navigation, 3000);
}

#[test]
fn navigation_on_empty_view_changes_nothing_but_the_clock() {
    let mut st = LockerState::new();
    st.select_next("", 500);
    assert_eq!(st.cursor, None);
    assert_eq!(st.selected_pid, None);
    assert_eq!(st.last_navigation, 500);
}

#[test]
fn sort_key_cycle_and_order_toggle() {
    assert_eq!(SortKey::Name.next(), SortKey::Pid);
    assert_eq!(SortKey::Pid.next(), SortKey::Cpu);
    assert_eq!(SortKey::Cpu.next(), SortKey::Memory);
    assert_eq!(SortKey::Memory.next(), SortKey::Name);
    assert_eq!(SortOrder::Ascending.toggle(), SortOrder::Descending);
    assert_eq!(SortOrder::Descending.toggle(), SortOrder::Ascending);
    assert_eq!(SortKey::Cpu.as_str(), "CPU");
    assert_eq!(SortOrder::Ascending.as_str(), "▲");
}

#[test]
fn cycle_sort_key_resorts() {
    let mut st = LockerState::new();
    assert!(st.update_processes(snapshot_a(), 1000));
    // Cpu -> Memory -> Name: two steps, then ascending names need a toggle.
    st.cycle_sort_key();
    assert_eq!(st.sort_key, SortKey::Memory);
    st.cycle_sort_key();
    assert_eq!(st.sort_key, SortKey::Name);
    st.toggle_sort_order();
    assert_eq!(st.sort_order, SortOrder::Ascending);
    assert_eq!(st.processes[0].name, "a");
    assert_eq!(st.processes[1].name, "b");
}

#[test]
fn metric_fallback_orders_by_last_known_good() {
    let mut st = LockerState::new();
    let mut idle = proc(1, "idle-now", 0);
    idle.last_cpu_centi = 9000;
    let busy = proc(2, "busy", 100);
    assert!(st.update_processes(vec![busy, idle], 1000));
    // Descending by effective CPU: the idle row's cached 90% wins.
    assert_eq!(st.processes[0].pid, 1);
}

#[test]
fn stale_cursor_past_view_keeps_no_selection_on_page_up() {
    let mut st = LockerState::new();
    let rows: Vec<ProcessInfo> = (0..3u32).map(|i| proc(i + 1, "p", 0)).collect();
    assert!(st.update_processes(rows, 1000));
    st.cursor = Some(40);
    st.select_page_up("", 2000);
    assert_eq!(st.cursor, Some(30));
    assert_eq!(st.selected_pid, None);
}

#[test]
fn get_selected_process_resolves_through_view() {
    let mut st = LockerState::new();
    let rows = vec![proc(1, "alpha", 0), proc(2, "beta", 0)];
    assert!(st.update_processes(rows, 1000));
    st.toggle_sort_order();
    let sel = st.get_selected_process("").map(|p| p.pid);
    assert_eq!(sel, st.selected_pid);
    assert!(st.get_selected_process("zzz").is_none());
}

#[test]
fn filtered_processes_pairs_indices_with_rows() {
    let mut st = LockerState::new();
    let rows = vec![proc(1, "keep", 0), proc(2, "drop", 0), proc(3, "keeper", 0)];
    assert!(st.update_processes(rows, 1000));
    st.set_filter("keep".to_string());
    let shown = st.filtered_processes("");
    assert_eq!(shown.len(), 2);
    for (idx, p) in &shown {
        assert_eq!(st.processes[*idx].pid, p.pid);
        assert!(p.name.contains("keep"));
    }
}

#[test]
fn should_ignore_update_window() {
    let mut st = LockerState::new();
    assert!(st.update_processes(snapshot_a(), 1000));
    st.select_next("", 2000);
    assert!(st.should_ignore_update(2049));
    assert!(!st.should_ignore_update(2050));
}

use sysdash::app::App;
use sysdash::handle::{collate_locking_processes, RawLockEntry};
use sysdash::metrics::MetricSample;
use sysdash::nav;
use sysdash::state::locker::ProcessInfo;
use sysdash::text;

fn raw(pid: u32, app_status: u32, name: Option<&str>) -> RawLockEntry {
    RawLockEntry { pid, app_status, name: name.map(|s| s.to_string()) }
}

#[test]
fn decimal_rendering_is_exact() {
    assert_eq!(text::u32_to_decimal(0), "0");
    assert_eq!(text::u32_to_decimal(7), "7");
    assert_eq!(text::u32_to_decimal(10), "10");
    assert_eq!(text::u32_to_decimal(12345), "12345");
    assert_eq!(text::u32_to_decimal(u32::MAX), "4294967295");
}

#[test]
fn substring_search_matches_std() {
    assert!(text::str_contains("abcdef", "cde"));
    assert!(text::str_contains("abcdef", ""));
    assert!(text::str_contains("abc", "abc"));
    assert!(!text::str_contains("abc", "abcd"));
    assert!(!text::str_contains("abcdef", "ce"));
    assert!(text::str_contains("ααβ", "αβ"));
}

#[test]
fn lexicographic_order_matches_std() {
    let cases = [("a", "b"), ("abc", "abd"), ("ab", "abc"), ("", "a"), ("same", "same")];
    for (a, b) in cases {
        assert_eq!(text::str_le(a, b), a <= b, "{:?} <= {:?}", a, b);
        assert_eq!(text::str_le(b, a), b <= a, "{:?} <= {:?}", b, a);
    }
}

#[test]
fn file_name_of_path_takes_the_last_component() {
    assert_eq!(text::file_name_of_path("C:\\Tools\\helper.exe"), "helper.exe");
    assert_eq!(text::file_name_of_path("plain"), "plain");
    assert_eq!(text::file_name_of_path("trailing\\"), "");
    assert_eq!(text::file_name_of_path(""), "");
}

#[test]
fn nonempty_lines_drop_blanks_and_carriage_returns() {
    let lines = text::nonempty_lines("a\n\nb\r\nc\n");
    assert_eq!(lines, vec!["a".to_string(), "b".to_string(), "c".to_string()]);
    assert_eq!(text::nonempty_lines(""), Vec::<String>::new());
    assert_eq!(text::nonempty_lines("\r\n\n"), Vec::<String>::new());
    assert_eq!(text::join_lines(&lines), "a\nb\nc");
}

#[test]
fn wraparound_and_clamping_arithmetic() {
    assert_eq!(nav::wrap_next(0, 3), 1);
    assert_eq!(nav::wrap_next(2, 3), 0);
    assert_eq!(nav::wrap_prev(0, 3), 2);
    assert_eq!(nav::wrap_prev(2, 3), 1);
    assert_eq!(nav::page_up_index(3), 0);
    assert_eq!(nav::page_up_index(25), 15);
    assert_eq!(nav::page_down_index(12, 15), 14);
    assert_eq!(nav::page_down_index(1, 15), 11);
}

#[test]
fn collate_drops_duplicates_and_non_running() {
    let entries = vec![
        raw(100, 1, Some("beta")),
        raw(0, 1, Some("system-idle")),
        raw(100, 1, Some("beta-again")),
        raw(0xffff_ffff, 1, Some("invalid")),
        raw(200, 0, Some("stopped")),
        raw(300, 3, Some("alpha")),
    ];
    let out = collate_locking_processes(entries);
    assert_eq!(out.len(), 2);
    assert_eq!(out[0].name, "alpha");
    assert_eq!(out[0].pid, 300);
    assert_eq!(out[1].name, "beta");
    assert_eq!(out[1].pid, 100);
}

#[test]
fn collate_names_anonymous_entries_by_pid() {
    let out = collate_locking_processes(vec![raw(55, 1, None)]);
    assert_eq!(out.len(), 1);
    assert_eq!(out[0].name, "PID 55");
}

#[test]
fn collate_duplicate_claimed_even_by_non_running_entry() {
    // The first entry with a usable pid claims it, whatever its status.
    let out = collate_locking_processes(vec![raw(100, 0, Some("idle")), raw(100, 1, Some("run"))]);
    assert_eq!(out.len(), 0);
}

#[test]
fn metrics_pass_computes_the_rate_and_prunes_the_cache() {
    let mut app = App::new();
    app.handle_event(
        sysdash::app::AppEvent::ProcessUpdate(vec![
            ProcessInfo {
                pid: 1,
                name: "a".to_string(),
                path: None,
                cpu_centi: 0,
                memory_kb: 0,
                last_cpu_centi: 0,
                last_memory_kb: 0,
            },
            ProcessInfo {
                pid: 2,
                name: "b".to_string(),
                path: None,
                cpu_centi: 0,
                memory_kb: 0,
                last_cpu_centi: 7,
                last_memory_kb: 0,
            },
        ]),
        0,
    );
    // First pass: a baseline sample for pid 1; none for pid 2.
    let samples = vec![MetricSample { pid: 1, total_time_100ns: Some(0), memory_bytes: Some(2048) }];
    app.update_metrics(&samples, 1000, 2);
    let one = app.state.locker.processes.iter().find(|p| p.pid == 1).unwrap();
    assert_eq!(one.memory_kb, 2);
    assert_eq!(one.last_memory_kb, 2);
    assert_eq!(one.last_cpu_centi, 0);
    assert_eq!(app.metrics_cache.len(), 1);
    // Second pass, one second later: 2_000_000 units of 100 ns over
    // 1000 ms across 2 processors is ten percent.
    let samples2 = vec![MetricSample {
        pid: 1,
        total_time_100ns: Some(2_000_000),
        memory_bytes: None,
    }];
    app.update_metrics(&samples2, 2000, 2);
    let one = app.state.locker.processes.iter().find(|p| p.pid == 1).unwrap();
    assert_eq!(one.cpu_centi, 1000);
    assert_eq!(one.last_cpu_centi, 1000);
    let two = app.state.locker.processes.iter().find(|p| p.pid == 2).unwrap();
    assert_eq!(two.cpu_centi, 0);
    assert_eq!(two.last_cpu_centi, 7);
    assert_eq!(app.metrics_cache.len(), 1);
    assert_eq!(app.metrics_cache[0].pid, 1);
}

#[test]
fn metrics_rate_clamps_at_one_hundred_percent() {
    let mut app = App::new();
    app.handle_event(
        sysdash::app::AppEvent::ProcessUpdate(vec![ProcessInfo {
            pid: 1,
            name: "a".to_string(),
            path: None,
            cpu_centi: 0,
            memory_kb: 0,
            last_cpu_centi: 0,
            last_memory_kb: 0,
        }]),
        0,
    );
    let s1 = vec![MetricSample { pid: 1, total_time_100ns: Some(0), memory_bytes: None }];
    app.update_metrics(&s1, 1000, 1);
    let s2 = vec![MetricSample {
        pid: 1,
        total_time_100ns: Some(u64::MAX / 2),
        memory_bytes: None,
    }];
    app.update_metrics(&s2, 1001, 1);
    assert_eq!(app.state.locker.processes[0].cpu_centi, 10000);
}

#[test]
fn search_box_wrappers_push_and_pop() {
    let mut app = App::new();
    app.enter_search_mode();
    app.handle_search_char('a');
    app.handle_search_char('b');
    assert_eq!(app.search_query, "ab");
    app.handle_search_backspace();
    assert_eq!(app.search_query, "a");
    app.handle_search_backspace();
    app.handle_search_backspace();
    assert_eq!(app.search_query, "");
}

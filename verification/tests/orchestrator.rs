use sysdash::app::{
    handle_key_event, App, AppAction, AppEvent, HandleSearchCall, KeyCode, KeyPress, Modal, Tab,
};
use sysdash::handle::LockingProcess;
use sysdash::state::controller::{ServiceInfo, ServiceKind, ServiceStatus, StartType};
use sysdash::state::locker::ProcessInfo;

fn key(code: KeyCode) -> KeyPress {
    KeyPress { code, ctrl: false, shift: false }
}

fn ctrl(c: char) -> KeyPress {
    KeyPress { code: KeyCode::Char(c), ctrl: true, shift: false }
}

fn proc(pid: u32, name: &str, cpu_centi: u32) -> ProcessInfo {
    ProcessInfo {
        pid,
        name: name.to_string(),
        path: None,
        cpu_centi,
        memory_kb: 0,
        last_cpu_centi: 0,
        last_memory_kb: 0,
    }
}

fn svc(name: &str, status: ServiceStatus) -> ServiceInfo {
    ServiceInfo {
        service_name: name.to_string(),
        display_name: name.to_string(),
        status,
        start_type: StartType::Auto,
        service_type: ServiceKind::OwnProcess,
        pid: 0,
    }
}

#[test]
fn tabs_cycle_both_ways() {
    let mut app = App::new();
    assert_eq!(app.current_tab, Tab::Locker);
    app.next_tab();
    assert_eq!(app.current_tab, Tab::Controller);
    app.next_tab();
    assert_eq!(app.current_tab, Tab::Nexus);
    app.next_tab();
    assert_eq!(app.current_tab, Tab::Locker);
    app.prev_tab();
    assert_eq!(app.current_tab, Tab::Nexus);
    assert_eq!(Tab::all(), vec![Tab::Locker, Tab::Controller, Tab::Nexus]);
    assert_eq!(Tab::Nexus.as_str(), "Nexus");
}

#[test]
fn elevation_notice() {
    let mut app = App::new();
    app.check_elevation(false);
    assert!(!app.is_elevated);
    assert_eq!(
        app.status_message.as_deref(),
        Some("Running without admin - some actions unavailable")
    );
    let mut app2 = App::new();
    app2.check_elevation(true);
    assert!(app2.is_elevated);
    assert_eq!(app2.status_message, None);
}

#[test]
fn quit_key() {
    let mut app = App::new();
    let out = handle_key_event(&mut app, key(KeyCode::Char('q')), 0);
    assert!(out.quit);
}

#[test]
fn navigation_keys_route_to_current_tab() {
    let mut app = App::new();
    app.handle_event(AppEvent::ProcessUpdate(vec![proc(1, "a", 100), proc(2, "b", 50)]), 1000);
    let out = handle_key_event(&mut app, key(KeyCode::Down), 2000);
    assert!(!out.quit);
    assert_eq!(app.state.locker.cursor, Some(1));
    handle_key_event(&mut app, key(KeyCode::Up), 3000);
    assert_eq!(app.state.locker.cursor, Some(0));
}

#[test]
fn ctrl_d_pages_down() {
    let mut app = App::new();
    let rows: Vec<ProcessInfo> = (0..15u32).map(|i| proc(i + 1, "p", 0)).collect();
    app.handle_event(AppEvent::ProcessUpdate(rows), 1000);
    handle_key_event(&mut app, ctrl('d'), 2000);
    assert_eq!(app.state.locker.cursor, Some(10));
    handle_key_event(&mut app, ctrl('u'), 3000);
    assert_eq!(app.state.locker.cursor, Some(0));
}

#[test]
fn chord_jumps_to_first_and_disarms() {
    let mut app = App::new();
    let rows: Vec<ProcessInfo> = (0..5u32).map(|i| proc(i + 1, "p", 0)).collect();
    app.handle_event(AppEvent::ProcessUpdate(rows), 1000);
    handle_key_event(&mut app, key(KeyCode::Char('G')), 2000);
    assert_eq!(app.state.locker.cursor, Some(4));
    handle_key_event(&mut app, key(KeyCode::Char('g')), 3000);
    assert!(app.pending_gg);
    handle_key_event(&mut app, key(KeyCode::Char('g')), 4000);
    assert!(!app.pending_gg);
    assert_eq!(app.state.locker.cursor, Some(0));
}

#[test]
fn chord_disarmed_by_any_other_key() {
    let mut app = App::new();
    let rows: Vec<ProcessInfo> = (0..5u32).map(|i| proc(i + 1, "p", 0)).collect();
    app.handle_event(AppEvent::ProcessUpdate(rows), 1000);
    handle_key_event(&mut app, key(KeyCode::Char('g')), 2000);
    assert!(app.pending_gg);
    handle_key_event(&mut app, key(KeyCode::Down), 3000);
    assert!(!app.pending_gg);
    // The chord did not fire: the cursor moved one row, not to the top.
    assert_eq!(app.state.locker.cursor, Some(1));
}

#[test]
fn search_mode_types_and_commits() {
    let mut app = App::new();
    app.handle_event(
        AppEvent::ProcessUpdate(vec![proc(1, "sysdaemon", 0), proc(2, "netdaemon", 0)]),
        1000,
    );
    handle_key_event(&mut app, key(KeyCode::Char('/')), 2000);
    assert!(app.search_mode);
    handle_key_event(&mut app, key(KeyCode::Char('n')), 2001);
    handle_key_event(&mut app, key(KeyCode::Char('e')), 2002);
    handle_key_event(&mut app, key(KeyCode::Char('x')), 2003);
    handle_key_event(&mut app, key(KeyCode::Backspace), 2004);
    handle_key_event(&mut app, key(KeyCode::Char('t')), 2005);
    assert_eq!(app.search_query, "net");
    handle_key_event(&mut app, key(KeyCode::Enter), 2006);
    assert!(!app.search_mode);
    assert_eq!(app.search_query, "");
    assert_eq!(app.state.locker.active_filter.as_deref(), Some("net"));
    assert_eq!(app.state.locker.get_filtered_indices("").len(), 1);
    // Escape clears the committed filter.
    assert!(app.has_active_filter());
    handle_key_event(&mut app, key(KeyCode::Esc), 2007);
    assert!(!app.has_active_filter());
}

#[test]
fn sort_keys_from_keyboard() {
    let mut app = App::new();
    app.handle_event(AppEvent::ProcessUpdate(vec![proc(1, "a", 100), proc(2, "b", 50)]), 1000);
    handle_key_event(&mut app, key(KeyCode::Char('S')), 2000);
    assert_eq!(app.state.locker.sort_order, sysdash::state::locker::SortOrder::Ascending);
    handle_key_event(&mut app, key(KeyCode::Char('s')), 3000);
    assert_eq!(app.state.locker.sort_key, sysdash::state::locker::SortKey::Memory);
}

#[test]
fn enter_on_service_tab_requests_toggle() {
    let mut app = App::new();
    app.check_elevation(true);
    app.next_tab();
    app.handle_event(AppEvent::ServiceUpdate(vec![svc("spooler", ServiceStatus::Running)]), 1000);
    let out = handle_key_event(&mut app, key(KeyCode::Enter), 2000);
    match out.action {
        Some(AppAction::ToggleService(name, status)) => {
            assert_eq!(name, "spooler");
            assert_eq!(status, ServiceStatus::Running);
        },
        other => panic!("expected a toggle request, got {:?}", other),
    }
}

#[test]
fn enter_without_elevation_requests_nothing() {
    let mut app = App::new();
    app.next_tab();
    app.handle_event(AppEvent::ServiceUpdate(vec![svc("spooler", ServiceStatus::Running)]), 1000);
    let out = handle_key_event(&mut app, key(KeyCode::Enter), 2000);
    assert!(out.action.is_none());
}

#[test]
fn kill_confirmation_flow() {
    let mut app = App::new();
    app.check_elevation(true);
    app.handle_event(AppEvent::ProcessUpdate(vec![proc(42, "target", 10)]), 1000);
    handle_key_event(&mut app, key(KeyCode::Char('K')), 2000);
    match &app.modal {
        Some(Modal::KillConfirmation { pid, name }) => {
            assert_eq!(*pid, 42);
            assert_eq!(name, "target");
        },
        other => panic!("expected a confirmation, got {:?}", other),
    }
    let out = handle_key_event(&mut app, key(KeyCode::Char('y')), 3000);
    assert!(matches!(out.action, Some(AppAction::ConfirmKill)));
    app.confirm_kill(None);
    assert!(app.modal.is_none());
    assert_eq!(app.status_message.as_deref(), Some("Process 42 killed"));
}

#[test]
fn kill_failure_message() {
    let mut app = App::new();
    app.modal = Some(Modal::KillConfirmation { pid: 7, name: "x".to_string() });
    app.confirm_kill(Some("access denied".to_string()));
    assert_eq!(
        app.status_message.as_deref(),
        Some("Failed to kill process: access denied")
    );
    assert!(app.modal.is_none());
}

#[test]
fn kill_confirmation_cancelled() {
    let mut app = App::new();
    app.modal = Some(Modal::KillConfirmation { pid: 7, name: "x".to_string() });
    handle_key_event(&mut app, key(KeyCode::Char('n')), 0);
    assert!(app.modal.is_none());
}

#[test]
fn handle_search_empty_input_is_an_error() {
    let mut app = App::new();
    handle_key_event(&mut app, key(KeyCode::Char('f')), 0);
    assert!(matches!(app.modal, Some(Modal::HandleSearch { .. })));
    let call = app.execute_handle_search(false);
    assert!(call.is_none());
    match &app.modal {
        Some(Modal::HandleSearch { error, .. }) => {
            assert_eq!(error.as_deref(), Some("Enter file path(s)"));
        },
        other => panic!("expected the finder, got {:?}", other),
    }
}

#[test]
fn handle_search_full_flow() {
    let mut app = App::new();
    handle_key_event(&mut app, key(KeyCode::Char('f')), 0);
    handle_key_event(&mut app, key(KeyCode::Char('/')), 1);
    assert!(app.handle_search_input_mode);
    for c in "C:\\a.txt\nC:\\b.txt".chars() {
        handle_key_event(&mut app, key(KeyCode::Char(c)), 2);
    }
    let out = handle_key_event(&mut app, key(KeyCode::Enter), 3);
    assert!(!app.handle_search_input_mode);
    assert!(matches!(out.action, Some(AppAction::RunHandleSearch)));
    let paths = app.handle_search_paths();
    assert_eq!(paths, vec!["C:\\a.txt".to_string(), "C:\\b.txt".to_string()]);
    let call = app.execute_handle_search(false);
    match call {
        Some(HandleSearchCall::Files(fs)) => assert_eq!(fs.len(), 2),
        other => panic!("expected a file search, got {:?}", other),
    }
    match &app.modal {
        Some(Modal::HandleSearch { loading, .. }) => assert!(*loading),
        other => panic!("expected the finder, got {:?}", other),
    }
    let found = vec![
        LockingProcess { pid: 9, name: "holder".to_string() },
        LockingProcess { pid: 11, name: "another".to_string() },
    ];
    app.finish_handle_search(Ok((found, None)));
    match &app.modal {
        Some(Modal::HandleSearch { results, loading, error, selected, .. }) => {
            assert_eq!(results.len(), 2);
            assert!(!*loading);
            assert!(error.is_none());
            assert_eq!(*selected, 0);
        },
        other => panic!("expected results, got {:?}", other),
    }
    // Navigate the results and promote one to a kill confirmation.
    handle_key_event(&mut app, key(KeyCode::Down), 4);
    app.check_elevation(true);
    handle_key_event(&mut app, key(KeyCode::Char('K')), 5);
    match &app.modal {
        Some(Modal::KillConfirmation { pid, name }) => {
            assert_eq!(*pid, 11);
            assert_eq!(name, "another");
        },
        other => panic!("expected a confirmation, got {:?}", other),
    }
}

#[test]
fn handle_search_directory_call_and_error() {
    let mut app = App::new();
    app.open_handle_search();
    for c in "C:\\temp".chars() {
        app.handle_search_modal_char(c);
    }
    let call = app.execute_handle_search(true);
    match call {
        Some(HandleSearchCall::Directory(d)) => assert_eq!(d, "C:\\temp"),
        other => panic!("expected a directory search, got {:?}", other),
    }
    app.finish_handle_search(Err("path not accessible".to_string()));
    match &app.modal {
        Some(Modal::HandleSearch { error, results, is_directory, .. }) => {
            assert_eq!(error.as_deref(), Some("path not accessible"));
            assert!(results.is_empty());
            assert!(!*is_directory);
        },
        other => panic!("expected the finder, got {:?}", other),
    }
}

#[test]
fn handle_search_directory_reports_scan_count() {
    let mut app = App::new();
    app.open_handle_search();
    for c in "C:\\temp".chars() {
        app.handle_search_modal_char(c);
    }
    let _ = app.execute_handle_search(true);
    app.finish_handle_search(Ok((Vec::new(), Some(17))));
    match &app.modal {
        Some(Modal::HandleSearch { files_scanned, is_directory, .. }) => {
            assert_eq!(*files_scanned, Some(17));
            assert!(*is_directory);
        },
        other => panic!("expected the finder, got {:?}", other),
    }
}

#[test]
fn finder_results_wrap_and_chord() {
    let mut app = App::new();
    app.modal = Some(Modal::HandleSearch {
        input: String::new(),
        results: vec![
            LockingProcess { pid: 1, name: "a".to_string() },
            LockingProcess { pid: 2, name: "b".to_string() },
            LockingProcess { pid: 3, name: "c".to_string() },
        ],
        selected: 0,
        loading: false,
        error: None,
        is_directory: false,
        files_scanned: None,
    });
    handle_key_event(&mut app, key(KeyCode::Up), 0);
    let sel = |app: &App| match &app.modal {
        Some(Modal::HandleSearch { selected, .. }) => *selected,
        _ => panic!("finder closed"),
    };
    assert_eq!(sel(&app), 2);
    handle_key_event(&mut app, key(KeyCode::Char('g')), 1);
    handle_key_event(&mut app, key(KeyCode::Char('g')), 2);
    assert_eq!(sel(&app), 0);
    handle_key_event(&mut app, key(KeyCode::Char('G')), 3);
    assert_eq!(sel(&app), 2);
    handle_key_event(&mut app, key(KeyCode::Esc), 4);
    assert!(app.modal.is_none());
}

#[test]
fn snapshot_events_feed_their_views() {
    let mut app = App::new();
    assert!(app.handle_event(AppEvent::ProcessUpdate(vec![proc(1, "a", 0)]), 0));
    assert!(app.handle_event(AppEvent::ServiceUpdate(vec![svc("s", ServiceStatus::Running)]), 0));
    assert!(!app.handle_event(AppEvent::Tick, 0));
    assert!(!app.handle_event(AppEvent::PollData, 0));
    assert!(!app.handle_event(AppEvent::MetricsTick, 0));
    assert_eq!(app.state.locker.processes.len(), 1);
    assert_eq!(app.state.controller.services.len(), 1);
    assert_eq!(app.state.nexus.connections.len(), 0);
}

#[test]
fn refresh_key_asks_for_a_fetch() {
    let mut app = App::new();
    let out = handle_key_event(&mut app, key(KeyCode::Char('r')), 0);
    assert!(matches!(out.action, Some(AppAction::RefreshCurrent)));
}

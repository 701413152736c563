use sysdash::state::controller;
use sysdash::state::controller::{ControllerState, ServiceInfo, ServiceKind, ServiceStatus, StartType};
use sysdash::state::nexus;
use sysdash::state::nexus::{ConnectionInfo, NexusState, Protocol, TcpState};

fn svc(name: &str, display: &str, status: ServiceStatus) -> ServiceInfo {
    ServiceInfo {
        service_name: name.to_string(),
        display_name: display.to_string(),
        status,
        start_type: StartType::Auto,
        service_type: ServiceKind::OwnProcess,
        pid: 0,
    }
}

fn conn(pid: u32, local: &str, lport: u16, state: TcpState) -> ConnectionInfo {
    ConnectionInfo {
        protocol: Protocol::Tcp,
        local_addr: local.to_string(),
        local_port: lport,
        remote_addr: "10.0.0.9".to_string(),
        remote_port: 443,
        state,
        pid,
        process_name: None,
    }
}

#[test]
fn services_sort_by_status_priority() {
    let mut st = ControllerState::new();
    let rows = vec![
        svc("w", "W", ServiceStatus::Stopped),
        svc("x", "X", ServiceStatus::Running),
        svc("y", "Y", ServiceStatus::Paused),
    ];
    assert!(st.update_services(rows, 1000));
    assert_eq!(st.services[0].service_name, "x");
    assert_eq!(st.services[1].service_name, "y");
    assert_eq!(st.services[2].service_name, "w");
}

#[test]
fn service_selection_tracked_by_name() {
    let mut st = ControllerState::new();
    let rows = vec![
        svc("alpha", "Alpha", ServiceStatus::Running),
        svc("beta", "Beta", ServiceStatus::Running),
    ];
    assert!(st.update_services(rows, 1000));
    st.select_next("", 2000);
    assert_eq!(st.selected_service_name.as_deref(), Some("beta"));
    // The same pair arrives with beta now stopped: beta sorts last, but
    // stays selected.
    let rows2 = vec![
        svc("beta", "Beta", ServiceStatus::Stopped),
        svc("alpha", "Alpha", ServiceStatus::Running),
    ];
    assert!(st.update_services(rows2, 3000));
    assert_eq!(st.selected_service_name.as_deref(), Some("beta"));
    assert_eq!(st.cursor, Some(1));
}

#[test]
fn service_filter_matches_both_names() {
    let mut st = ControllerState::new();
    let rows = vec![
        svc("spooler", "Print Spooler", ServiceStatus::Running),
        svc("bits", "Background Transfer", ServiceStatus::Stopped),
    ];
    assert!(st.update_services(rows, 1000));
    assert_eq!(st.get_filtered_indices("print").len(), 1);
    assert_eq!(st.get_filtered_indices("bits").len(), 1);
    assert_eq!(st.get_filtered_indices("zzz").len(), 0);
}

#[test]
fn toggle_selected_service_hands_back_the_request() {
    let mut st = ControllerState::new();
    let rows = vec![svc("spooler", "Print Spooler", ServiceStatus::Running)];
    assert!(st.update_services(rows, 1000));
    let req = st.toggle_selected_service("");
    let (name, status) = req.expect("a service is selected");
    assert_eq!(name, "spooler");
    assert_eq!(status, ServiceStatus::Running);
}

#[test]
fn service_update_is_idempotent() {
    let mut st = ControllerState::new();
    let rows = || vec![svc("a", "A", ServiceStatus::Running)];
    assert!(st.update_services(rows(), 1000));
    assert!(!st.update_services(rows(), 2000));
}

#[test]
fn status_change_is_a_content_change() {
    let mut st = ControllerState::new();
    assert!(st.update_services(vec![svc("a", "A", ServiceStatus::Running)], 1000));
    // The fingerprint covers the status, so a stop shows up.
    assert!(st.update_services(vec![svc("a", "A", ServiceStatus::Stopped)], 2000));
    assert_eq!(st.services[0].status, ServiceStatus::Stopped);
}

#[test]
fn status_and_kind_tables() {
    assert_eq!(controller::status_priority(&ServiceStatus::Running), 0);
    assert_eq!(controller::status_priority(&ServiceStatus::Stopped), 6);
    assert_eq!(controller::status_priority(&ServiceStatus::Unknown(9)), 7);
    assert_eq!(controller::status_from_code(4), ServiceStatus::Running);
    assert_eq!(controller::status_from_code(1), ServiceStatus::Stopped);
    assert_eq!(controller::status_from_code(42), ServiceStatus::Unknown(42));
    assert_eq!(ServiceStatus::StartPending.as_str(), "Start Pending");
    assert_eq!(controller::service_type_to_string(0x10), "Own Process");
    assert_eq!(controller::service_type_to_string(0x120), "Share Process (Interactive)");
    assert_eq!(controller::service_type_to_string(3), "Unknown");
    assert_eq!(controller::start_type_to_string(2), "Auto");
    assert_eq!(controller::start_type_to_string(4), "Disabled");
    assert_eq!(controller::start_type_to_string(77), "Unknown");
}

#[test]
fn connections_sort_by_state_priority() {
    let mut st = NexusState::new();
    let rows = vec![
        conn(3, "127.0.0.1", 80, TcpState::TimeWait),
        conn(1, "127.0.0.1", 81, TcpState::Established),
        conn(2, "127.0.0.1", 82, TcpState::Listening),
    ];
    assert!(st.update_connections(rows, 1000));
    assert_eq!(st.connections[0].pid, 1);
    assert_eq!(st.connections[1].pid, 2);
    assert_eq!(st.connections[2].pid, 3);
}

#[test]
fn connection_selection_tracked_by_five_part_key() {
    let mut st = NexusState::new();
    let rows = vec![
        conn(1, "127.0.0.1", 80, TcpState::Established),
        conn(2, "127.0.0.1", 81, TcpState::Established),
    ];
    assert!(st.update_connections(rows, 1000));
    st.select_next("", 2000);
    let key = st.selected_connection_key.clone().expect("selected");
    assert_eq!(key.0, 2);
    // Reordered arrival: the same connection stays selected.
    let rows2 = vec![
        conn(2, "127.0.0.1", 81, TcpState::Established),
        conn(1, "127.0.0.1", 80, TcpState::Established),
    ];
    assert!(st.update_connections(rows2, 3000));
    assert_eq!(st.selected_connection_key.clone().map(|k| k.0), Some(2));
}

#[test]
fn connection_filter_matches_port_digits() {
    let mut st = NexusState::new();
    let rows = vec![
        conn(1, "127.0.0.1", 8080, TcpState::Established),
        conn(2, "192.168.0.4", 443, TcpState::Listening),
    ];
    assert!(st.update_connections(rows, 1000));
    assert_eq!(st.get_filtered_indices("8080").len(), 1);
    assert_eq!(st.get_filtered_indices("192.168").len(), 1);
    assert_eq!(st.get_filtered_indices("127").len(), 1);
}

#[test]
fn udp_rows_sort_after_tcp_by_protocol() {
    let mut st = NexusState::new();
    let mut udp = conn(5, "0.0.0.0", 53, TcpState::NotApplicable);
    udp.protocol = Protocol::Udp;
    let rows = vec![udp, conn(4, "127.0.0.1", 80, TcpState::Established)];
    assert!(st.update_connections(rows, 1000));
    st.cycle_sort_key(); // State -> Pid
    st.cycle_sort_key(); // Pid -> Protocol
    assert_eq!(st.sort_key, nexus::SortKey::Protocol);
    assert_eq!(st.connections[0].protocol, Protocol::Tcp);
    assert_eq!(st.connections[1].protocol, Protocol::Udp);
}

#[test]
fn tcp_state_labels() {
    assert_eq!(nexus::tcp_state_to_string(5), "ESTABLISHED");
    assert_eq!(nexus::tcp_state_to_string(2), "LISTENING");
    assert_eq!(nexus::tcp_state_to_string(12), "DELETE_TCB");
    assert_eq!(nexus::tcp_state_to_string(99), "UNKNOWN(99)");
    assert_eq!(nexus::state_priority(&TcpState::Established), 0);
    assert_eq!(nexus::state_priority(&TcpState::NotApplicable), 12);
    assert_eq!(nexus::state_priority(&TcpState::Unknown(77)), 13);
    assert_eq!(nexus::state_label(&TcpState::NotApplicable), "N/A");
    assert_eq!(nexus::state_label(&TcpState::Unknown(7)), "UNKNOWN(7)");
    assert_eq!(Protocol::Udp.as_str(), "UDP");
}

#[test]
fn connection_update_is_idempotent() {
    let mut st = NexusState::new();
    let rows = || vec![conn(1, "127.0.0.1", 80, TcpState::Established)];
    assert!(st.update_connections(rows(), 1000));
    assert!(!st.update_connections(rows(), 2000));
}

#[test]
fn connection_debounce() {
    let mut st = NexusState::new();
    assert!(st.update_connections(vec![conn(1, "127.0.0.1", 80, TcpState::Established)], 1000));
    st.select_next("", 2000);
    let newer = vec![
        conn(1, "127.0.0.1", 80, TcpState::Established),
        conn(2, "127.0.0.1", 81, TcpState::Listening),
    ];
    assert!(!st.update_connections(
        vec![
            conn(1, "127.0.0.1", 80, TcpState::Established),
            conn(2, "127.0.0.1", 81, TcpState::Listening),
        ],
        2010
    ));
    assert!(st.update_connections(newer, 2060));
    assert_eq!(st.connections.len(), 2);
}

#[test]
fn service_first_last_and_pairs() {
    let mut st = ControllerState::new();
    let rows = vec![
        svc("a", "A", ServiceStatus::Running),
        svc("b", "B", ServiceStatus::Running),
        svc("c", "C", ServiceStatus::Running),
    ];
    assert!(st.update_services(rows, 1000));
    st.select_last("", 2000);
    assert_eq!(st.cursor, Some(2));
    assert_eq!(st.selected_service_name.as_deref(), Some("c"));
    st.select_first("", 3000);
    assert_eq!(st.cursor, Some(0));
    let shown = st.filtered_services("b");
    assert_eq!(shown.len(), 1);
    assert_eq!(shown[0].1.service_name, "b");
    assert_eq!(st.services[shown[0].0].service_name, "b");
}

#[test]
fn connection_first_last_and_pairs() {
    let mut st = NexusState::new();
    let rows = vec![
        conn(1, "127.0.0.1", 80, TcpState::Established),
        conn(2, "127.0.0.1", 81, TcpState::Established),
        conn(3, "127.0.0.1", 82, TcpState::Established),
    ];
    assert!(st.update_connections(rows, 1000));
    st.select_last("", 2000);
    assert_eq!(st.cursor, Some(2));
    st.select_first("", 3000);
    assert_eq!(st.cursor, Some(0));
    let shown = st.filtered_connections("81");
    assert_eq!(shown.len(), 1);
    assert_eq!(shown[0].1.pid, 2);
    let sel = st.get_selected_connection("").map(|c| c.pid);
    assert_eq!(sel, Some(1));
}

#[test]
fn nexus_sort_by_process_name_treats_missing_as_empty() {
    let mut st = NexusState::new();
    let mut named = conn(1, "127.0.0.1", 80, TcpState::Established);
    named.process_name = Some("zeta.exe".to_string());
    let anon = conn(2, "127.0.0.1", 81, TcpState::Established);
    assert!(st.update_connections(vec![named, anon], 1000));
    st.cycle_sort_key(); // State -> Pid
    st.cycle_sort_key(); // Pid -> Protocol
    st.cycle_sort_key(); // Protocol -> ProcessName
    assert_eq!(st.sort_key, nexus::SortKey::ProcessName);
    assert_eq!(st.connections[0].pid, 2);
    assert_eq!(st.connections[1].pid, 1);
}

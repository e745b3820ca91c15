use comet::codec::{is_executor_secret, is_success_status};
use comet::connection::{ConnectionManager, ConnectionStatus, PollAction};
use comet::kind::{detect_executor, ExecutorKind};
use comet::scan::PortScan;

/// Drives a scan with a listener that accepts exactly the ports in `live`,
/// counting the attempts made.
fn run_scan(scan: &mut PortScan, live: &[u16]) -> usize {
    let mut calls = 0;
    while let Some(port) = scan.next_port() {
        calls += 1;
        scan.record(live.contains(&port));
    }
    calls
}

#[test]
fn connect_outside_range_is_refused_without_change() {
    let mut m = ConnectionManager::new(ExecutorKind::RawSocketExecutor);
    assert!(m.connect(5555, true));
    let before = m.status();
    for port in [0u16, 5552, 5563, 6969, 65535] {
        assert!(!m.accepts_port(port));
        assert!(!m.connect(port, true));
        assert_eq!(m.status(), before);
    }
    assert_eq!(m.bound_port(), Some(5555));
}

#[test]
fn failed_probe_in_range_clears_state() {
    let mut m = ConnectionManager::new(ExecutorKind::RawSocketExecutor);
    assert!(m.connect(5556, true));
    assert!(!m.connect(5557, false));
    assert_eq!(m.bound_port(), None);
    assert_eq!(m.current_port(), 5556);
}

#[test]
fn is_connected_on_closed_listener_clears_bound_port() {
    let mut m = ConnectionManager::new(ExecutorKind::HttpExecutor);
    assert!(m.connect(6969, true));
    assert!(m.is_connected(true));
    assert_eq!(m.bound_port(), Some(6969));
    assert!(!m.is_connected(false));
    assert_eq!(m.bound_port(), None);
    assert!(!m.status().is_connected);
    assert!(!m.is_connected(true));
}

#[test]
fn send_on_all_ports_prefers_previous_port() {
    let mut m = ConnectionManager::new(ExecutorKind::RawSocketExecutor);
    assert!(m.connect(5560, true));
    let mut scan = m.begin_send_on_all_ports();
    let calls = run_scan(&mut scan, &[5560]);
    assert_eq!(calls, 1);
    assert_eq!(scan.attempts(), 1);
    assert_eq!(scan.found(), Some(5560));
    assert!(m.finish_send_on_all_ports(&scan));
    assert_eq!(m.bound_port(), Some(5560));
}

#[test]
fn send_on_all_ports_rescans_after_previous_fails() {
    let mut m = ConnectionManager::new(ExecutorKind::RawSocketExecutor);
    assert!(m.connect(5560, true));
    let mut scan = m.begin_send_on_all_ports();
    let calls = run_scan(&mut scan, &[5558]);
    assert_eq!(calls, 7);
    assert!(m.finish_send_on_all_ports(&scan));
    assert_eq!(m.bound_port(), Some(5558));
    assert_eq!(m.current_port(), 5558);
}

#[test]
fn set_kind_always_clears_bound_port() {
    let mut m = ConnectionManager::new(ExecutorKind::RawSocketExecutor);
    assert!(m.connect(5553, true));
    m.set_kind(ExecutorKind::RawSocketExecutor);
    assert_eq!(m.bound_port(), None);
    assert!(m.connect(5554, true));
    m.set_kind(ExecutorKind::HttpExecutor);
    assert_eq!(
        m.status(),
        ConnectionStatus { is_connected: false, port: None, current_port: 6969, kind: ExecutorKind::HttpExecutor }
    );
}

#[test]
fn http_scenario_connect_and_send() {
    let mut m = ConnectionManager::new(ExecutorKind::HttpExecutor);
    assert!(m.accepts_port(6969));
    assert!(m.connect(6969, is_executor_secret("0xdeadbeef")));
    assert!(m.send(is_success_status(200)));
    assert_eq!(m.bound_port(), Some(6969));
}

#[test]
fn http_probe_with_wrong_secret_is_not_connected() {
    let mut m = ConnectionManager::new(ExecutorKind::HttpExecutor);
    assert!(!m.connect(6969, is_executor_secret("hello")));
    assert_eq!(m.bound_port(), None);
}

#[test]
fn raw_socket_scenario_no_listener() {
    let mut m = ConnectionManager::new(ExecutorKind::RawSocketExecutor);
    let mut scan = m.begin_send_on_all_ports();
    let calls = run_scan(&mut scan, &[]);
    assert_eq!(calls, 10);
    assert!(scan.is_finished());
    assert!(!m.finish_send_on_all_ports(&scan));
    assert_eq!(m.bound_port(), None);
}

#[test]
fn send_without_bound_port_fails() {
    let mut m = ConnectionManager::new(ExecutorKind::HttpExecutor);
    assert!(!m.send(true));
    assert!(m.connect(6969, true));
    assert!(!m.send(false));
    assert_eq!(m.bound_port(), None);
}

#[test]
fn increment_port_wraps_and_clears() {
    let mut m = ConnectionManager::new(ExecutorKind::RawSocketExecutor);
    assert!(m.connect(5561, true));
    m.increment_port();
    assert_eq!(m.current_port(), 5562);
    assert_eq!(m.bound_port(), None);
    m.increment_port();
    assert_eq!(m.current_port(), 5553);
    let mut h = ConnectionManager::new(ExecutorKind::HttpExecutor);
    h.increment_port();
    assert_eq!(h.current_port(), 6969);
}

#[test]
fn poll_action_follows_state() {
    let mut m = ConnectionManager::new(ExecutorKind::RawSocketExecutor);
    assert_eq!(m.poll_action(), PollAction::Connect(5553));
    assert!(m.connect(5553, true));
    assert_eq!(m.poll_action(), PollAction::Verify(5553));
    assert!(!m.is_connected(false));
    assert_eq!(m.poll_action(), PollAction::Connect(5553));
}

#[test]
fn scan_order_without_previous_is_ascending() {
    let mut scan = PortScan::new(ExecutorKind::RawSocketExecutor, None);
    let mut seen = Vec::new();
    while let Some(p) = scan.next_port() {
        seen.push(p);
        scan.record(false);
    }
    assert_eq!(seen, (5553..=5562).collect::<Vec<u16>>());
    assert_eq!(scan.found(), None);
}

#[test]
fn scan_ignores_previous_port_outside_range() {
    let scan = PortScan::new(ExecutorKind::HttpExecutor, Some(7000));
    assert_eq!(scan.next_port(), Some(6969));
}

#[test]
fn kind_ranges() {
    assert_eq!(ExecutorKind::HttpExecutor.min_port(), 6969);
    assert_eq!(ExecutorKind::HttpExecutor.max_port(), 6969);
    assert_eq!(ExecutorKind::RawSocketExecutor.min_port(), 5553);
    assert_eq!(ExecutorKind::RawSocketExecutor.max_port(), 5562);
    assert!(ExecutorKind::RawSocketExecutor.contains_port(5562));
    assert!(!ExecutorKind::RawSocketExecutor.contains_port(5563));
}

#[test]
fn detect_executor_prefers_http() {
    assert_eq!(detect_executor(true, false), ExecutorKind::HttpExecutor);
    assert_eq!(detect_executor(false, true), ExecutorKind::RawSocketExecutor);
    assert_eq!(detect_executor(true, true), ExecutorKind::HttpExecutor);
    assert_eq!(detect_executor(false, false), ExecutorKind::HttpExecutor);
}

use client_core::discovery::{
    discover, discover_by_process_scan, discover_on_port, find_listening_port, format_command, is_candidate,
    request_stop, stop_wait_step, ProcessEntry, SocketEntry, StopStep,
};
use client_core::spawn::{
    capture_url, health_wait_step, parse_port, port_argument, server_url_in_line, spawn_arguments,
    spawned_server_info, HealthStep, OutputScan, ScanStep,
};

#[test]
fn given_port_override_with_no_server_when_discover_called_then_returns_ok() {
    let result = discover(Some(65530));
    assert!(result.is_ok(), "Should not error when no server found");
}

#[test]
fn given_no_servers_running_when_discover_called_then_returns_ok() {
    let result = discover(None);
    assert!(result.is_ok(), "Discovery should not error when no servers found");
}

#[test]
fn given_valid_server_url_when_regex_applied_then_matches_and_extracts_parts() {
    let caps = capture_url("Server listening on http://127.0.0.1:4096");
    assert!(caps.is_some(), "Regex should match valid URL");
    let caps = caps.unwrap();
    assert_eq!(caps.host, "127.0.0.1");
    assert_eq!(caps.port, "4096");
}

#[test]
fn given_invalid_urls_when_regex_applied_then_does_not_match() {
    let invalid_cases = vec!["not a url at all", "http://", "http://localhost", "localhost:4096", "ftp://127.0.0.1:4096"];
    for invalid in invalid_cases {
        assert!(capture_url(invalid).is_none(), "Regex should not match: {invalid}");
    }
}

#[test]
fn given_various_port_numbers_when_regex_applied_then_extracts_correctly() {
    let test_cases = vec![
        ("http://127.0.0.1:80", "80"),
        ("http://127.0.0.1:8080", "8080"),
        ("http://127.0.0.1:65535", "65535"),
        ("http://127.0.0.1:1", "1"),
    ];
    for (line, expected_port) in test_cases {
        let caps = capture_url(line);
        assert!(caps.is_some(), "Should match: {line}");
        assert_eq!(caps.unwrap().port, expected_port, "Should extract correct port from: {line}");
    }
}

#[test]
fn pid_one_and_zero_are_never_signalled() {
    assert!(!request_stop(1));
    assert!(!request_stop(0));
}

#[test]
fn nonexistent_pid_is_not_signalled() {
    assert!(!request_stop(u32::MAX));
}

#[test]
fn parse_port_accepts_only_ascii_ports_in_range() {
    assert_eq!(parse_port("4096"), Some(4096));
    assert_eq!(parse_port("65535"), Some(65535));
    assert_eq!(parse_port("08080"), Some(8080));
    assert_eq!(parse_port("65536"), None);
    assert_eq!(parse_port("0"), None);
    assert_eq!(parse_port(""), None);
    assert_eq!(parse_port("12a"), None);
}

#[test]
fn url_line_gives_loopback_base_url() {
    let a = server_url_in_line("opencode server listening on http://localhost:4123").unwrap();
    assert_eq!(a.base_url, "http://127.0.0.1:4123");
    assert_eq!(a.port, 4123);
    assert!(server_url_in_line("http://127.0.0.1:99999").is_none());
}

#[test]
fn output_scan_gives_up_after_the_line_budget() {
    let mut scan = OutputScan::new();
    for _ in 0..99 {
        assert!(matches!(scan.feed(Some("starting...")), ScanStep::NeedMore));
    }
    assert!(matches!(scan.feed(Some("still starting")), ScanStep::NotFound));
    let mut scan = OutputScan::new();
    assert!(matches!(scan.feed(None), ScanStep::NotFound));
    match OutputScan::new().feed(Some("listening on http://127.0.0.1:5000")) {
        ScanStep::Found { base_url, port } => {
            assert_eq!(base_url, "http://127.0.0.1:5000");
            assert_eq!(port, 5000);
        }
        other => panic!("unexpected {:?}", other),
    }
}

#[test]
fn spawn_command_arguments() {
    assert_eq!(port_argument(None), "0");
    assert_eq!(port_argument(Some(4096)), "4096");
    assert_eq!(spawn_arguments("0"), vec!["serve", "--port", "0", "--hostname", "127.0.0.1"]);
}

#[test]
fn spawned_descriptor_is_owned_on_loopback() {
    let info = spawned_server_info(4242, 4096).unwrap();
    assert_eq!(info.pid, 4242);
    assert_eq!(info.port, 4096);
    assert_eq!(info.base_url, "http://127.0.0.1:4096");
    assert_eq!(info.command, "opencode serve");
    assert!(info.owned);
    assert!(spawned_server_info(0, 4096).is_err());
}

#[test]
fn wait_steps() {
    assert_eq!(health_wait_step(true, None), HealthStep::Ready);
    assert_eq!(health_wait_step(false, Some(500)), HealthStep::WaitMillis(500));
    assert_eq!(health_wait_step(false, None), HealthStep::TimedOut);
    assert_eq!(stop_wait_step(false, Some(1)), StopStep::Stopped);
    assert_eq!(stop_wait_step(true, Some(250)), StopStep::WaitMillis(250));
    assert_eq!(stop_wait_step(true, None), StopStep::GaveUp);
}

fn process(pid: u32, name: &str, cmd: &[&str]) -> ProcessEntry {
    ProcessEntry { pid, name: name.to_string(), cmd: cmd.iter().map(|s| s.to_string()).collect() }
}

#[test]
fn candidates_and_command_lines() {
    assert_eq!(format_command(&vec!["bun".to_string(), "run".to_string(), "opencode".to_string()]), "bun run opencode");
    assert_eq!(format_command(&vec![]), "");
    assert!(is_candidate("bun", "bun run opencode serve"));
    assert!(is_candidate("opencode", ""));
    assert!(!is_candidate("node", "node server.js"));
    assert!(!is_candidate("python", "python opencode.py"));
}

#[test]
fn scan_finds_candidate_listening_socket() {
    let sockets = vec![
        SocketEntry { local_port: 22, listening: true, pids: vec![1] },
        SocketEntry { local_port: 4096, listening: true, pids: vec![77] },
    ];
    let processes = vec![process(5, "node", &["node", "app.js"]), process(77, "bun", &["bun", "opencode", "serve"])];
    assert_eq!(find_listening_port(&sockets, 77), Some(4096));
    assert_eq!(find_listening_port(&sockets, 5), None);
    let found = discover_by_process_scan(&sockets, &processes).unwrap().unwrap();
    assert_eq!(found.pid, 77);
    assert_eq!(found.port, 4096);
    assert_eq!(found.base_url, "http://127.0.0.1:4096");
    assert_eq!(found.command, "opencode bun opencode serve");
    let on_port = discover_on_port(4096, &sockets, &processes).unwrap().unwrap();
    assert_eq!(on_port.pid, 77);
    assert!(discover_on_port(5000, &sockets, &processes).unwrap().is_none());
}

#[test]
fn zero_pid_or_port_is_a_validation_error() {
    let sockets = vec![SocketEntry { local_port: 4096, listening: true, pids: vec![0] }];
    let processes = vec![process(0, "bun", &["bun", "opencode"])];
    assert!(discover_on_port(4096, &sockets, &processes).is_err());
    assert!(discover_by_process_scan(&sockets, &processes).is_err());
    let sockets = vec![SocketEntry { local_port: 0, listening: true, pids: vec![9] }];
    let processes = vec![process(9, "bun", &["bun", "opencode"])];
    assert!(discover_on_port(0, &sockets, &processes).is_err());
    assert!(spawned_server_info(9, 0).is_err());
}

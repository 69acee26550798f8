use client_core::binding::{decimal_text, BackendBinding, ClientTarget, StateCommand};
use client_core::error::{DiscoveryError, ErrorLocation, IpcError, OpencodeClientError, SpawnError};
use client_core::server_info::ServerInfo;

fn info(pid: u32, base_url: &str) -> ServerInfo {
    ServerInfo {
        pid,
        port: 4001,
        base_url: base_url.to_string(),
        name: "opencode".to_string(),
        command: "opencode serve".to_string(),
        owned: true,
    }
}

#[test]
fn set_server_derives_client_for_same_url() {
    let mut b = BackendBinding::new();
    b.apply(StateCommand::SetServer(info(11111, "http://127.0.0.1:4001")));
    let got = b.get_server().unwrap();
    assert_eq!(got.pid, 11111);
    assert_eq!(got.name, "opencode");
    assert_eq!(got.command, "opencode serve");
    assert_eq!(b.get_client_url().unwrap(), "http://127.0.0.1:4001");
    assert_eq!(b.client_for_request().unwrap(), "http://127.0.0.1:4001");
}

#[test]
fn replacing_server_replaces_client() {
    let mut b = BackendBinding::new();
    b.apply(StateCommand::SetServer(info(1, "http://127.0.0.1:4001")));
    b.apply(StateCommand::SetServer(info(2, "http://127.0.0.1:4002")));
    assert_eq!(b.get_server().unwrap().pid, 2);
    assert_eq!(b.get_client_url().unwrap(), "http://127.0.0.1:4002");
}

#[test]
fn unparsable_url_keeps_descriptor_without_client() {
    let mut b = BackendBinding::new();
    b.apply(StateCommand::SetServer(info(3, "not a url")));
    assert!(b.get_server().is_some());
    assert!(b.get_client_url().is_none());
    match b.client_for_request() {
        Err(IpcError::Io { message, .. }) => assert_eq!(message, "No OpenCode server connected"),
        _ => panic!("expected an IO error"),
    }
}

#[test]
fn clear_server_drops_both() {
    let mut b = BackendBinding::new();
    b.apply(StateCommand::SetServer(info(1, "http://127.0.0.1:4001")));
    b.apply(StateCommand::ClearServer);
    assert!(b.get_server().is_none());
    assert!(b.get_client_url().is_none());
    match b.server_for_request() {
        Err(IpcError::Io { message, .. }) => assert_eq!(message, "No server connected"),
        _ => panic!("expected an IO error"),
    }
}

#[test]
fn client_target_rejects_relative_url() {
    assert!(ClientTarget::new("http://127.0.0.1:4096").is_ok());
    assert!(ClientTarget::new("/relative").is_err());
}

#[test]
fn decimal_text_and_error_description() {
    assert_eq!(decimal_text(0), "0");
    assert_eq!(decimal_text(65535), "65535");
    let e = IpcError::Io { message: "No server connected".to_string(), location: ErrorLocation::new("a.rs", 12, 5) };
    assert_eq!(e.describe(), "IO Error: No server connected [a.rs:12:5]");
}

#[test]
fn error_texts_carry_label_message_and_location() {
    let loc = || ErrorLocation::new("d.rs", 3, 9);
    assert_eq!(
        DiscoveryError::NetworkQuery { message: "no sockets".to_string(), location: loc() }.describe(),
        "Network Query Error: no sockets [d.rs:3:9]"
    );
    assert_eq!(SpawnError::Timeout { message: "slow".to_string(), location: loc() }.describe(), "Timeout Error: slow [d.rs:3:9]");
    assert_eq!(
        OpencodeClientError::Server { message: "HTTP 500 - x".to_string(), location: loc() }.describe(),
        "Server Error: HTTP 500 - x [d.rs:3:9]"
    );
}

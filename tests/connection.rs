use client_core::binding::{handler_error_reply, BackendBinding};
use client_core::connection::{ClientPayload, ConnAction, ConnectionState, ErrorCode, Incoming};

fn handshake(request_id: u64, token: &str) -> Incoming {
    Incoming::Message { request_id, payload: Some(ClientPayload::AuthHandshake { token: token.to_string() }) }
}

fn request(request_id: u64, payload: ClientPayload) -> Incoming {
    Incoming::Message { request_id, payload: Some(payload) }
}

#[test]
fn auth_accepted_then_list_sessions_is_dispatched() {
    let mut conn = ConnectionState::new("test-token-12345".to_string());
    match conn.on_frame(handshake(1, "test-token-12345")) {
        ConnAction::AuthReply { request_id, success, error } => {
            assert_eq!(request_id, 1);
            assert!(success);
            assert!(error.is_none());
        }
        other => panic!("unexpected {:?}", other),
    }
    assert!(conn.is_authenticated());
    match conn.on_frame(request(2, ClientPayload::ListSessions)) {
        ConnAction::Dispatch { request_id, payload: ClientPayload::ListSessions } => assert_eq!(request_id, 2),
        other => panic!("unexpected {:?}", other),
    }
}

#[test]
fn auth_rejected_replies_and_closes() {
    let mut conn = ConnectionState::new("test-token-12345".to_string());
    match conn.on_frame(handshake(1, "wrong")) {
        ConnAction::AuthReply { request_id, success, error } => {
            assert_eq!(request_id, 1);
            assert!(!success);
            assert_eq!(error.as_deref(), Some("Invalid authentication token"));
        }
        other => panic!("unexpected {:?}", other),
    }
    assert!(conn.is_closed());
    assert!(matches!(conn.on_frame(request(2, ClientPayload::ListSessions)), ConnAction::Close));
}

#[test]
fn non_auth_first_frame_closes_without_reply() {
    let mut conn = ConnectionState::new("test-token-12345".to_string());
    assert!(matches!(conn.on_frame(request(1, ClientPayload::ListSessions)), ConnAction::Close));
    assert!(!conn.is_authenticated());
    assert!(matches!(conn.on_frame(handshake(2, "test-token-12345")), ConnAction::Close));
}

#[test]
fn text_first_frame_closes() {
    let mut conn = ConnectionState::new("t".to_string());
    assert!(matches!(conn.on_frame(Incoming::NonBinary), ConnAction::Close));
    assert!(conn.is_closed());
}

#[test]
fn second_handshake_is_an_auth_error_and_connection_stays_open() {
    let mut conn = ConnectionState::new("test-token-12345".to_string());
    conn.on_frame(handshake(1, "test-token-12345"));
    match conn.on_frame(handshake(5, "test-token-12345")) {
        ConnAction::ErrorReply { request_id, code, message } => {
            assert_eq!(request_id, 5);
            assert_eq!(code, ErrorCode::AuthError);
            assert_eq!(message, "Auth handshake already completed");
        }
        other => panic!("unexpected {:?}", other),
    }
    assert!(!conn.is_closed());
    assert!(matches!(
        conn.on_frame(request(6, ClientPayload::ListSessions)),
        ConnAction::Dispatch { request_id: 6, .. }
    ));
}

#[test]
fn stop_without_binding_replies_internal_error() {
    let mut conn = ConnectionState::new("tok".to_string());
    conn.on_frame(handshake(1, "tok"));
    let request_id = match conn.on_frame(request(3, ClientPayload::StopServer)) {
        ConnAction::Dispatch { request_id, payload: ClientPayload::StopServer } => request_id,
        other => panic!("unexpected {:?}", other),
    };
    let binding = BackendBinding::new();
    let err = binding.server_for_request().unwrap_err();
    match handler_error_reply(request_id, &err) {
        ConnAction::ErrorReply { request_id, code, message } => {
            assert_eq!(request_id, 3);
            assert_eq!(code, ErrorCode::InternalError);
            assert!(message.contains("No server connected"));
        }
        other => panic!("unexpected {:?}", other),
    }
    assert!(!conn.is_closed());
}

#[test]
fn undecodable_frame_after_auth_is_invalid_message_with_id_zero() {
    let mut conn = ConnectionState::new("tok".to_string());
    conn.on_frame(handshake(1, "tok"));
    match conn.on_frame(Incoming::Undecodable) {
        ConnAction::ErrorReply { request_id, code, message } => {
            assert_eq!(request_id, 0);
            assert_eq!(code, ErrorCode::InvalidMessage);
            assert_eq!(message, "Invalid protobuf message");
        }
        other => panic!("unexpected {:?}", other),
    }
}

#[test]
fn missing_payload_and_unknown_payload_after_auth() {
    let mut conn = ConnectionState::new("tok".to_string());
    conn.on_frame(handshake(1, "tok"));
    match conn.on_frame(Incoming::Message { request_id: 9, payload: None }) {
        ConnAction::ErrorReply { request_id, code, message } => {
            assert_eq!(request_id, 9);
            assert_eq!(code, ErrorCode::InvalidMessage);
            assert_eq!(message, "No payload in message");
        }
        other => panic!("unexpected {:?}", other),
    }
    match conn.on_frame(request(10, ClientPayload::Unsupported)) {
        ConnAction::ErrorReply { code, message, .. } => {
            assert_eq!(code, ErrorCode::NotImplemented);
            assert_eq!(message, "Operation not yet implemented");
        }
        other => panic!("unexpected {:?}", other),
    }
    assert!(matches!(conn.on_frame(Incoming::NonBinary), ConnAction::Ignore));
    assert!(matches!(conn.on_frame(Incoming::Closed), ConnAction::Close));
}

#[test]
fn validate_token_compares_exactly() {
    let mut conn = ConnectionState::new("abc".to_string());
    assert!(!conn.validate_token("abcd"));
    assert!(!conn.is_authenticated());
    assert!(conn.validate_token("abc"));
    assert!(conn.is_authenticated());
}

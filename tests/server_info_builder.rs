use client_core::error::ModelError;
use client_core::server_info::ServerInfoBuilder;

fn message_of(result: Result<client_core::server_info::ServerInfo, ModelError>) -> String {
    match result {
        Err(ModelError::Validation { message, .. }) => message,
        Ok(_) => panic!("expected a validation error"),
    }
}

#[test]
fn given_zero_pid_when_building_server_info_then_returns_validation_error() {
    let builder = ServerInfoBuilder::default()
        .with_pid(0)
        .with_port(3000)
        .with_base_url("http://localhost:3000")
        .with_name("opencode")
        .with_command("opencode serve")
        .with_owned(true);
    let result = builder.build();
    assert!(result.is_err());
    assert_eq!(message_of(result), "PID must be non-zero");
}

#[test]
fn given_missing_pid_when_building_then_returns_validation_error() {
    let builder = ServerInfoBuilder::default()
        .with_port(3000)
        .with_base_url("http://localhost:3000")
        .with_name("opencode")
        .with_command("opencode serve")
        .with_owned(true);
    let result = builder.build();
    assert!(result.is_err());
    assert_eq!(message_of(result), "PID is required");
}

#[test]
fn given_invalid_url_scheme_when_building_then_returns_validation_error() {
    let builder = ServerInfoBuilder::default()
        .with_pid(12345)
        .with_port(3000)
        .with_base_url("ftp://invalid.com")
        .with_name("opencode")
        .with_command("opencode serve")
        .with_owned(true);
    let result = builder.build();
    assert!(result.is_err());
    let message = message_of(result);
    assert!(message.starts_with("Invalid base URL format:"));
    assert!(message.contains("ftp://"));
}

#[test]
fn given_empty_base_url_when_building_then_returns_validation_error() {
    let builder = ServerInfoBuilder::default()
        .with_pid(12345)
        .with_port(3000)
        .with_base_url("")
        .with_name("opencode")
        .with_command("opencode serve")
        .with_owned(true);
    let result = builder.build();
    assert!(result.is_err());
    assert_eq!(message_of(result), "Base URL cannot be empty");
}

#[test]
fn given_missing_base_url_when_building_then_returns_validation_error() {
    let builder = ServerInfoBuilder::default()
        .with_pid(12345)
        .with_port(3000)
        .with_name("opencode")
        .with_command("opencode serve")
        .with_owned(true);
    let result = builder.build();
    assert!(result.is_err());
    assert_eq!(message_of(result), "Base URL is required");
}

#[test]
fn given_empty_name_when_building_then_returns_validation_error() {
    let builder = ServerInfoBuilder::default()
        .with_pid(12345)
        .with_port(3000)
        .with_base_url("http://localhost:3000")
        .with_name("")
        .with_command("opencode serve")
        .with_owned(true);
    let result = builder.build();
    assert!(result.is_err());
    assert_eq!(message_of(result), "Server name cannot be empty");
}

#[test]
fn given_empty_command_when_building_then_returns_validation_error() {
    let builder = ServerInfoBuilder::default()
        .with_pid(12345)
        .with_port(3000)
        .with_base_url("http://localhost:3000")
        .with_name("opencode")
        .with_command("")
        .with_owned(true);
    let result = builder.build();
    assert!(result.is_err());
    assert_eq!(message_of(result), "Command cannot be empty");
}

#[test]
fn given_missing_owned_flag_when_building_then_returns_validation_error() {
    let builder = ServerInfoBuilder::default()
        .with_pid(12345)
        .with_port(3000)
        .with_base_url("http://localhost:3000")
        .with_name("opencode")
        .with_command("opencode serve");
    let result = builder.build();
    assert!(result.is_err());
    assert_eq!(message_of(result), "Owned is required");
}

#[test]
fn given_all_valid_fields_when_building_then_returns_server_info() {
    let builder = ServerInfoBuilder::default()
        .with_pid(12345)
        .with_port(3000)
        .with_base_url("https://localhost:3000")
        .with_name("opencode")
        .with_command("opencode serve")
        .with_owned(true);
    let result = builder.build();
    assert!(result.is_ok());
    let server_info = result.unwrap();
    assert_eq!(server_info.pid, 12345);
    assert_eq!(server_info.port, 3000);
    assert_eq!(server_info.base_url, "https://localhost:3000");
    assert_eq!(server_info.name, "opencode");
    assert_eq!(server_info.command, "opencode serve");
    assert_eq!(server_info.owned, true);
}

#[test]
fn given_u16_port_when_building_then_converts_to_u32_correctly() {
    let builder = ServerInfoBuilder::default()
        .with_pid(12345)
        .with_port(65535_u16)
        .with_base_url("http://localhost:65535")
        .with_name("opencode")
        .with_command("opencode serve")
        .with_owned(false);
    let result = builder.build();
    assert!(result.is_ok());
    let server_info = result.unwrap();
    assert_eq!(server_info.port, 65535_u32);
}

#[test]
fn given_http_scheme_when_building_then_accepts_url() {
    let builder = ServerInfoBuilder::default()
        .with_pid(12345)
        .with_port(3000)
        .with_base_url("http://localhost:3000")
        .with_name("opencode")
        .with_command("opencode serve")
        .with_owned(true);
    let result = builder.build();
    assert!(result.is_ok());
    assert_eq!(result.unwrap().base_url, "http://localhost:3000");
}

#[test]
fn given_https_scheme_when_building_then_accepts_url() {
    let builder = ServerInfoBuilder::default()
        .with_pid(12345)
        .with_port(3000)
        .with_base_url("https://localhost:3000")
        .with_name("opencode")
        .with_command("opencode serve")
        .with_owned(true);
    let result = builder.build();
    assert!(result.is_ok());
    assert_eq!(result.unwrap().base_url, "https://localhost:3000");
}

#[test]
fn given_owned_false_when_building_then_accepts_flag() {
    let builder = ServerInfoBuilder::default()
        .with_pid(12345)
        .with_port(3000)
        .with_base_url("http://localhost:3000")
        .with_name("opencode")
        .with_command("opencode serve")
        .with_owned(false);
    let result = builder.build();
    assert!(result.is_ok());
    assert_eq!(result.unwrap().owned, false);
}

#[test]
fn missing_port_is_reported_before_the_url() {
    let result = ServerInfoBuilder::default().with_pid(7).build();
    assert_eq!(message_of(result), "Port is required");
}

#[test]
fn missing_name_and_command_are_reported_in_order() {
    let base = || ServerInfoBuilder::default().with_pid(7).with_port(1).with_base_url("http://x");
    assert_eq!(message_of(base().build()), "Server name is required");
    assert_eq!(message_of(base().with_name("n").build()), "Command is required");
}

#[test]
fn zero_port_is_rejected() {
    let result = ServerInfoBuilder::default()
        .with_pid(7)
        .with_port(0)
        .with_base_url("http://x")
        .with_name("n")
        .with_command("c")
        .with_owned(true)
        .build();
    assert_eq!(message_of(result), "Port must be non-zero");
}

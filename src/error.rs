//! Error families of the library. Every variant carries a human message and
//! the place where it was raised.

use vstd::prelude::*;

use crate::http_status::{client_error_code, retryable_code, server_error_code, HttpStatusCode};

verus! {

/// Where an error was raised: file, line and column.
#[derive(Debug, Clone)]
pub struct ErrorLocation {
    pub file: String,
    pub line: u32,
    pub column: u32,
}

impl ErrorLocation {
    pub fn new(file: &str, line: u32, column: u32) -> (r: Self)
        ensures
            r.file@ == file@,
            r.line == line,
            r.column == column,
    {
        ErrorLocation { file: file.to_owned(), line, column }
    }

    /// The location of an error raised inside the library itself, where only
    /// the module is recorded (line and column stay 0).
    pub fn raised_in(module: &str) -> (r: Self)
        ensures
            r.file@ == module@,
            r.line == 0,
            r.column == 0,
    {
        ErrorLocation::new(module, 0, 0)
    }
}

/// Errors of the data model.
#[derive(Debug, Clone)]
pub enum ModelError {
    Validation { message: String, location: ErrorLocation },
}

/// Raised when a redacted secret is asked to serialize itself.
#[derive(Debug, Clone)]
pub enum RedactError {
    Serialization { message: String, location: ErrorLocation },
}

/// Specific reasons for key validation failure.
#[derive(Debug, Clone, PartialEq, Eq)]
pub enum KeyValidationFailure {
    Empty,
    TooShort { min: usize, actual: usize },
    TooLong { max: usize, actual: usize },
    InvalidPrefix { expected: String, actual: String },
    PlaceholderDetected { pattern: String },
    InvalidCharacters,
}

/// Errors that can occur during auth sync operations.
#[derive(Debug, Clone)]
pub enum AuthSyncError {
    EnvLoad { message: String, location: ErrorLocation },
    ProviderSync {
        provider: String,
        message: String,
        status_code: HttpStatusCode,
        location: ErrorLocation,
    },
    Network {
        provider: String,
        message: String,
        is_timeout: bool,
        is_connection: bool,
        location: ErrorLocation,
    },
    Cancelled { location: ErrorLocation },
    NoServer { location: ErrorLocation },
    OAuthCheck { provider: String, message: String, location: ErrorLocation },
    AuthPathDetection { message: String, location: ErrorLocation },
    KeyValidation { provider: String, reason: KeyValidationFailure, location: ErrorLocation },
    GlobalTimeout { timeout_secs: u64, location: ErrorLocation },
}

/// Whether an auth sync error is worth retrying: a network failure flagged as
/// a timeout or a refused connection, or an HTTP status in the retryable set.
pub open spec fn retryable_error(e: AuthSyncError) -> bool {
    match e {
        AuthSyncError::Network { is_timeout, is_connection, .. } => is_timeout || is_connection,
        AuthSyncError::ProviderSync { status_code, .. } => retryable_code(status_code.0),
        _ => false,
    }
}

/// The metrics category of an auth sync error.
pub open spec fn category_of(e: AuthSyncError) -> Seq<char> {
    match e {
        AuthSyncError::EnvLoad { .. } => "env_load"@,
        AuthSyncError::ProviderSync { status_code, .. } => if client_error_code(status_code.0) {
            "client_error"@
        } else if server_error_code(status_code.0) {
            "server_error"@
        } else {
            "provider_sync"@
        },
        AuthSyncError::Network { is_timeout, is_connection, .. } => if is_timeout {
            "timeout"@
        } else if is_connection {
            "connection"@
        } else {
            "network"@
        },
        AuthSyncError::Cancelled { .. } => "cancelled"@,
        AuthSyncError::NoServer { .. } => "no_server"@,
        AuthSyncError::OAuthCheck { .. } => "oauth_check"@,
        AuthSyncError::AuthPathDetection { .. } => "path_detection"@,
        AuthSyncError::KeyValidation { .. } => "validation"@,
        AuthSyncError::GlobalTimeout { .. } => "global_timeout"@,
    }
}

/// The provider an auth sync error is about, if any.
pub open spec fn provider_of(e: AuthSyncError) -> Option<Seq<char>> {
    match e {
        AuthSyncError::ProviderSync { provider, .. } => Some(provider@),
        AuthSyncError::Network { provider, .. } => Some(provider@),
        AuthSyncError::OAuthCheck { provider, .. } => Some(provider@),
        AuthSyncError::KeyValidation { provider, .. } => Some(provider@),
        _ => None,
    }
}

impl AuthSyncError {
    pub fn cancelled(location: ErrorLocation) -> (r: Self)
        ensures
            r == (AuthSyncError::Cancelled { location }),
    {
        AuthSyncError::Cancelled { location }
    }

    pub fn no_server(location: ErrorLocation) -> (r: Self)
        ensures
            r == (AuthSyncError::NoServer { location }),
    {
        AuthSyncError::NoServer { location }
    }

    pub fn env_load(message: String, location: ErrorLocation) -> (r: Self)
        ensures
            r == (AuthSyncError::EnvLoad { message, location }),
    {
        AuthSyncError::EnvLoad { message, location }
    }

    pub fn global_timeout(timeout_secs: u64, location: ErrorLocation) -> (r: Self)
        ensures
            r == (AuthSyncError::GlobalTimeout { timeout_secs, location }),
    {
        AuthSyncError::GlobalTimeout { timeout_secs, location }
    }

    pub fn auth_path_detection(message: String, location: ErrorLocation) -> (r: Self)
        ensures
            r == (AuthSyncError::AuthPathDetection { message, location }),
    {
        AuthSyncError::AuthPathDetection { message, location }
    }

    pub fn key_validation(provider: &str, reason: KeyValidationFailure, location: ErrorLocation) -> (r: Self)
        ensures
            r matches AuthSyncError::KeyValidation { provider: p, reason: q, location: l }
                && p@ == provider@ && q == reason && l == location,
    {
        AuthSyncError::KeyValidation { provider: provider.to_owned(), reason, location }
    }

    /// An error for an HTTP response that carried a failing status.
    pub fn from_http_response(provider: &str, status_code: u16, body: String, location: ErrorLocation) -> (r: Self)
        ensures
            r matches AuthSyncError::ProviderSync { provider: p, message: m, status_code: c, location: l }
                && p@ == provider@ && m == body && c.0 == status_code && l == location,
    {
        AuthSyncError::ProviderSync {
            provider: provider.to_owned(),
            message: body,
            status_code: HttpStatusCode(status_code),
            location,
        }
    }

    /// An error for a request that failed below HTTP, from the transport's
    /// own timeout, connect and status flags (never from message text).
    pub fn from_transport(
        provider: &str,
        message: String,
        is_timeout: bool,
        is_connect: bool,
        status: Option<u16>,
        location: ErrorLocation,
    ) -> (r: Self)
        ensures
            (is_timeout || is_connect) ==> (r matches AuthSyncError::Network {
                provider: p, message: m, is_timeout: t, is_connection: c, ..
            } && p@ == provider@ && m == message && t == is_timeout && c == is_connect),
            !(is_timeout || is_connect) && status is Some ==> (r matches AuthSyncError::ProviderSync {
                provider: p, message: m, status_code: s, ..
            } && p@ == provider@ && m == message && s.0 == status->0),
            !(is_timeout || is_connect) && status is None ==> (r matches AuthSyncError::Network {
                provider: p, message: m, is_timeout: t, is_connection: c, ..
            } && p@ == provider@ && m == message && !t && !c),
    {
        if is_timeout || is_connect {
            return AuthSyncError::Network {
                provider: provider.to_owned(),
                message,
                is_timeout,
                is_connection: is_connect,
                location,
            };
        }
        match status {
            Some(code) => AuthSyncError::ProviderSync {
                provider: provider.to_owned(),
                message,
                status_code: HttpStatusCode(code),
                location,
            },
            None => AuthSyncError::Network {
                provider: provider.to_owned(),
                message,
                is_timeout: false,
                is_connection: false,
                location,
            },
        }
    }

    /// Check if this error is retryable based on error category, never on
    /// message content.
    pub fn is_retryable(&self) -> (r: bool)
        ensures
            r == retryable_error(*self),
    {
        match self {
            AuthSyncError::Network { is_timeout, is_connection, .. } => *is_timeout || *is_connection,
            AuthSyncError::ProviderSync { status_code, .. } => status_code.is_retryable(),
            AuthSyncError::Cancelled { .. } => false,
            AuthSyncError::NoServer { .. } => false,
            AuthSyncError::EnvLoad { .. } => false,
            AuthSyncError::OAuthCheck { .. } => false,
            AuthSyncError::AuthPathDetection { .. } => false,
            AuthSyncError::KeyValidation { .. } => false,
            AuthSyncError::GlobalTimeout { .. } => false,
        }
    }

    /// Get error category for metrics.
    pub fn error_category(&self) -> (r: &'static str)
        ensures
            r@ == category_of(*self),
    {
        match self {
            AuthSyncError::EnvLoad { .. } => "env_load",
            AuthSyncError::ProviderSync { status_code, .. } => {
                if status_code.is_client_error() {
                    "client_error"
                } else if status_code.is_server_error() {
                    "server_error"
                } else {
                    "provider_sync"
                }
            },
            AuthSyncError::Network { is_timeout, is_connection, .. } => {
                if *is_timeout {
                    "timeout"
                } else if *is_connection {
                    "connection"
                } else {
                    "network"
                }
            },
            AuthSyncError::Cancelled { .. } => "cancelled",
            AuthSyncError::NoServer { .. } => "no_server",
            AuthSyncError::OAuthCheck { .. } => "oauth_check",
            AuthSyncError::AuthPathDetection { .. } => "path_detection",
            AuthSyncError::KeyValidation { .. } => "validation",
            AuthSyncError::GlobalTimeout { .. } => "global_timeout",
        }
    }

    /// Get the provider name if applicable.
    pub fn provider(&self) -> (r: Option<&str>)
        ensures
            r.is_some() == provider_of(*self).is_some(),
            r.is_some() ==> r->0@ == provider_of(*self)->0,
    {
        match self {
            AuthSyncError::ProviderSync { provider, .. } => Some(provider.as_str()),
            AuthSyncError::Network { provider, .. } => Some(provider.as_str()),
            AuthSyncError::OAuthCheck { provider, .. } => Some(provider.as_str()),
            AuthSyncError::KeyValidation { provider, .. } => Some(provider.as_str()),
            _ => None,
        }
    }

    /// Get HTTP status code if applicable.
    pub fn status_code(&self) -> (r: Option<u16>)
        ensures
            r == (match *self {
                AuthSyncError::ProviderSync { status_code, .. } => Some(status_code.0),
                _ => None,
            }),
    {
        match self {
            AuthSyncError::ProviderSync { status_code, .. } => Some(status_code.0),
            _ => None,
        }
    }
}

/// An auth sync error is retryable exactly when it is a network failure
/// flagged as a timeout or a connection failure, or an HTTP status failure
/// whose code is 429, 502, 503 or 504.
pub proof fn lemma_retryable_iff(e: AuthSyncError)
    ensures
        retryable_error(e) <==> (
            (e matches AuthSyncError::Network { is_timeout, is_connection, .. } && (is_timeout || is_connection))
            || (e matches AuthSyncError::ProviderSync { status_code, .. }
                && (status_code.0 == 429 || status_code.0 == 502 || status_code.0 == 503 || status_code.0 == 504))
        ),
{
}

/// Errors while reading, parsing, validating or writing configuration.
#[derive(Debug, Clone)]
pub enum ConfigError {
    ReadError { location: ErrorLocation, path: String, message: String },
    ParseError { location: ErrorLocation, path: String, reason: String },
    WriteError { location: ErrorLocation, path: String, message: String },
    DirectoryNotFound { location: ErrorLocation, path: String },
    SerializeError { location: ErrorLocation, reason: String },
    ValidationError { location: ErrorLocation, reason: String },
}

/// Errors of backend discovery.
#[derive(Debug, Clone)]
pub enum DiscoveryError {
    NetworkQuery { message: String, location: ErrorLocation },
    SystemQuery { message: String, location: ErrorLocation },
    Validation { message: String, location: ErrorLocation },
}

impl From<ModelError> for DiscoveryError {
    fn from(error: ModelError) -> (r: Self) {
        match error {
            ModelError::Validation { message, location } => DiscoveryError::Validation { message, location },
        }
    }
}

impl vstd::std_specs::convert::FromSpecImpl<ModelError> for DiscoveryError {
    open spec fn obeys_from_spec() -> bool {
        true
    }

    open spec fn from_spec(error: ModelError) -> Self {
        match error {
            ModelError::Validation { message, location } => DiscoveryError::Validation { message, location },
        }
    }
}

/// Errors of the IPC server.
#[derive(Debug, Clone)]
pub enum IpcError {
    Handshake { message: String, location: ErrorLocation },
    Send { message: String, location: ErrorLocation },
    Read { message: String, location: ErrorLocation },
    Io { message: String, location: ErrorLocation },
    Auth { message: String, location: ErrorLocation },
    ProtobufDecode { message: String, location: ErrorLocation },
    ProtobufEncode { message: String, location: ErrorLocation },
}

/// Errors of the backend HTTP client.
#[derive(Debug, Clone)]
pub enum OpencodeClientError {
    Http { message: String, location: ErrorLocation },
    Json { message: String, location: ErrorLocation },
    UrlParse { message: String, location: ErrorLocation },
    Server { message: String, location: ErrorLocation },
}

/// Errors of spawning the backend.
#[derive(Debug, Clone)]
pub enum SpawnError {
    Spawn { message: String, location: ErrorLocation },
    Parse { message: String, location: ErrorLocation },
    Timeout { message: String, location: ErrorLocation },
    Validation { message: String, location: ErrorLocation },
}

impl From<ModelError> for SpawnError {
    fn from(error: ModelError) -> (r: Self) {
        match error {
            ModelError::Validation { message, location } => SpawnError::Validation { message, location },
        }
    }
}

impl vstd::std_specs::convert::FromSpecImpl<ModelError> for SpawnError {
    open spec fn obeys_from_spec() -> bool {
        true
    }

    open spec fn from_spec(error: ModelError) -> Self {
        match error {
            ModelError::Validation { message, location } => SpawnError::Validation { message, location },
        }
    }
}

/// Errors of the WebSocket layer.
#[derive(Debug, Clone)]
pub enum WsError {
    Validation { message: String, location: ErrorLocation },
}

/// Any error of the core library.
#[derive(Debug, Clone)]
pub enum CoreError {
    Discovery(DiscoveryError),
    Spawn(SpawnError),
    Ws(WsError),
    Config(ConfigError),
}

/// Errors reported to the desktop shell.
#[derive(Debug, Clone)]
pub enum OpencodeError {
    Opencode { message: String, location: ErrorLocation },
    Core { message: String, location: ErrorLocation },
    NoServer { message: String, location: ErrorLocation },
    StopFailed { message: String, location: ErrorLocation },
}

} // verus!

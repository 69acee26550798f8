use vstd::prelude::*;

verus! {

/// HTTP status code kept as a number, so that callers classify it without
/// reading any message text.
#[derive(Debug, Clone, Copy, PartialEq, Eq, Structural)]
pub struct HttpStatusCode(pub u16);

/// 4xx: the request itself was wrong.
pub open spec fn client_error_code(code: u16) -> bool {
    400 <= code < 500
}

/// 5xx: the server failed.
pub open spec fn server_error_code(code: u16) -> bool {
    500 <= code < 600
}

/// The codes that mark a transient failure worth retrying.
pub open spec fn retryable_code(code: u16) -> bool {
    code == 429 || code == 502 || code == 503 || code == 504
}

impl HttpStatusCode {
    /// 4xx client errors (not retryable).
    pub fn is_client_error(&self) -> (r: bool)
        ensures
            r == client_error_code(self.0),
    {
        400 <= self.0 && self.0 < 500
    }

    /// 5xx server errors (potentially retryable).
    pub fn is_server_error(&self) -> (r: bool)
        ensures
            r == server_error_code(self.0),
    {
        500 <= self.0 && self.0 < 600
    }

    /// Specific codes that indicate transient failures.
    pub fn is_retryable(&self) -> (r: bool)
        ensures
            r == retryable_code(self.0),
    {
        self.0 == 502 || self.0 == 503 || self.0 == 504 || self.0 == 429
    }
}

impl From<u16> for HttpStatusCode {
    fn from(code: u16) -> (r: Self) {
        HttpStatusCode(code)
    }
}

impl vstd::std_specs::convert::FromSpecImpl<u16> for HttpStatusCode {
    open spec fn obeys_from_spec() -> bool {
        true
    }

    open spec fn from_spec(code: u16) -> Self {
        HttpStatusCode(code)
    }
}

} // verus!

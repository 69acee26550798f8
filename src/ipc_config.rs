//! What the desktop shell tells the frontend about the IPC endpoint.

use vstd::prelude::*;

verus! {

/// The IPC endpoint's port and the token clients authenticate with.
#[derive(Clone)]
pub struct IpcConfig {
    port: u16,
    auth_token: String,
}

impl View for IpcConfig {
    type V = (u16, Seq<char>);

    closed spec fn view(&self) -> (u16, Seq<char>) {
        (self.port, self.auth_token@)
    }
}

impl IpcConfig {
    pub fn new(port: u16, auth_token: String) -> (r: Self)
        ensures
            r@ == (port, auth_token@),
    {
        IpcConfig { port, auth_token }
    }

    pub fn port(&self) -> (r: u16)
        ensures
            r == self@.0,
    {
        self.port
    }

    pub fn auth_token(&self) -> (r: &str)
        ensures
            r@ == self@.1,
    {
        self.auth_token.as_str()
    }
}

/// The reply to the frontend's request for the IPC endpoint.
#[derive(Debug, Clone)]
pub struct IpcConfigResponse {
    pub port: u16,
    pub auth_token: String,
}

/// Handle to a running IPC server; the server runs until the process exits.
pub struct IpcServerHandle {}

} // verus!

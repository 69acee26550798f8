//! The validated record that identifies a running backend, and its builder.

use vstd::prelude::*;

use crate::error::{ErrorLocation, ModelError};
use crate::text::{has_prefix, joined, owned, starts_with};

verus! {

broadcast use vstd::string::group_string_axioms;

/// A running backend: process id, port, base URL, display name, launching
/// command line, and whether this broker spawned it.
#[derive(Debug)]
pub struct ServerInfo {
    pub pid: u32,
    pub port: u32,
    pub base_url: String,
    pub name: String,
    pub command: String,
    pub owned: bool,
}

pub open spec fn http_scheme() -> Seq<char> {
    seq!['h', 't', 't', 'p', ':', '/', '/']
}

pub open spec fn https_scheme() -> Seq<char> {
    seq!['h', 't', 't', 'p', 's', ':', '/', '/']
}

/// The URL starts with `http://` or `https://`.
pub open spec fn has_web_scheme(url: Seq<char>) -> bool {
    has_prefix(url, http_scheme()) || has_prefix(url, https_scheme())
}

impl Clone for ServerInfo {
    fn clone(&self) -> (r: Self)
        ensures
            r.pid == self.pid,
            r.port == self.port,
            r.base_url@ == self.base_url@,
            r.name@ == self.name@,
            r.command@ == self.command@,
            r.owned == self.owned,
    {
        ServerInfo {
            pid: self.pid,
            port: self.port,
            base_url: owned(self.base_url.as_str()),
            name: owned(self.name.as_str()),
            command: owned(self.command.as_str()),
            owned: self.owned,
        }
    }
}

impl ServerInfo {
    /// What every descriptor that the builder hands out satisfies.
    pub open spec fn valid(&self) -> bool {
        &&& self.pid > 0
        &&& 1 <= self.port <= 65535
        &&& self.base_url@.len() > 0
        &&& has_web_scheme(self.base_url@)
        &&& self.name@.len() > 0
        &&& self.command@.len() > 0
    }
}

/// Accumulates the fields of a `ServerInfo`; `build` validates them.
#[derive(Debug)]
pub struct ServerInfoBuilder {
    pub pid: Option<u32>,
    pub port: Option<u16>,
    pub base_url: Option<String>,
    pub name: Option<String>,
    pub command: Option<String>,
    pub owned: Option<bool>,
}

impl Default for ServerInfoBuilder {
    fn default() -> (r: Self)
        ensures
            r.pid is None,
            r.port is None,
            r.base_url is None,
            r.name is None,
            r.command is None,
            r.owned is None,
    {
        ServerInfoBuilder { pid: None, port: None, base_url: None, name: None, command: None, owned: None }
    }
}

/// The message `build` fails with on these fields, checked in order: pid,
/// port, base URL, name, command, owned; `None` when every field is valid.
pub open spec fn build_failure(b: ServerInfoBuilder) -> Option<Seq<char>> {
    if b.pid is None {
        Some("PID is required"@)
    } else if b.pid->0 == 0 {
        Some("PID must be non-zero"@)
    } else if b.port is None {
        Some("Port is required"@)
    } else if b.port->0 == 0 {
        Some("Port must be non-zero"@)
    } else if b.base_url is None {
        Some("Base URL is required"@)
    } else if b.base_url->0@.len() == 0 {
        Some("Base URL cannot be empty"@)
    } else if !has_web_scheme(b.base_url->0@) {
        Some("Invalid base URL format: "@ + b.base_url->0@)
    } else if b.name is None {
        Some("Server name is required"@)
    } else if b.name->0@.len() == 0 {
        Some("Server name cannot be empty"@)
    } else if b.command is None {
        Some("Command is required"@)
    } else if b.command->0@.len() == 0 {
        Some("Command cannot be empty"@)
    } else if b.owned is None {
        Some("Owned is required"@)
    } else {
        None
    }
}

/// The descriptor that `build` makes from fields that are all valid.
pub open spec fn built_from(b: ServerInfoBuilder, info: ServerInfo) -> bool {
    &&& info.pid == b.pid->0
    &&& info.port == b.port->0 as u32
    &&& info.base_url@ == b.base_url->0@
    &&& info.name@ == b.name->0@
    &&& info.command@ == b.command->0@
    &&& info.owned == b.owned->0
}

fn invalid(message: String) -> (r: ModelError)
    ensures
        r matches ModelError::Validation { message: m, .. } && m@ == message@,
{
    ModelError::Validation { message, location: ErrorLocation::raised_in("server_info") }
}

fn invalid_str(message: &str) -> (r: ModelError)
    ensures
        r matches ModelError::Validation { message: m, .. } && m@ == message@,
{
    invalid(message.to_owned())
}

impl ServerInfoBuilder {
    pub fn with_pid(self, pid: u32) -> (r: Self)
        ensures
            r == (ServerInfoBuilder { pid: Some(pid), ..self }),
    {
        ServerInfoBuilder { pid: Some(pid), ..self }
    }

    pub fn with_port(self, port: u16) -> (r: Self)
        ensures
            r == (ServerInfoBuilder { port: Some(port), ..self }),
    {
        ServerInfoBuilder { port: Some(port), ..self }
    }

    pub fn with_base_url(self, url: &str) -> (r: Self)
        ensures
            r.base_url is Some && r.base_url->0@ == url@,
            r.pid == self.pid && r.port == self.port && r.name == self.name,
            r.command == self.command && r.owned == self.owned,
    {
        ServerInfoBuilder { base_url: Some(url.to_owned()), ..self }
    }

    pub fn with_name(self, name: &str) -> (r: Self)
        ensures
            r.name is Some && r.name->0@ == name@,
            r.pid == self.pid && r.port == self.port && r.base_url == self.base_url,
            r.command == self.command && r.owned == self.owned,
    {
        ServerInfoBuilder { name: Some(name.to_owned()), ..self }
    }

    pub fn with_command(self, cmd: &str) -> (r: Self)
        ensures
            r.command is Some && r.command->0@ == cmd@,
            r.pid == self.pid && r.port == self.port && r.base_url == self.base_url,
            r.name == self.name && r.owned == self.owned,
    {
        ServerInfoBuilder { command: Some(cmd.to_owned()), ..self }
    }

    pub fn with_owned(self, owned: bool) -> (r: Self)
        ensures
            r == (ServerInfoBuilder { owned: Some(owned), ..self }),
    {
        ServerInfoBuilder { owned: Some(owned), ..self }
    }

    /// Build the descriptor, failing with a validation error that names the
    /// first offending field.
    pub fn build(self) -> (r: Result<ServerInfo, ModelError>)
        ensures
            build_failure(self) is None <==> r is Ok,
            r is Ok ==> built_from(self, r->Ok_0),
            r is Err ==> (r->Err_0 matches ModelError::Validation { message, .. }
                && message@ == build_failure(self)->0),
    {
        proof {
            reveal_strlit("http://");
            reveal_strlit("https://");
            assert("http://"@ =~= http_scheme());
            assert("https://"@ =~= https_scheme());
        }
        let pid = match self.pid {
            Some(p) => p,
            None => return Err(invalid_str("PID is required")),
        };
        if pid == 0 {
            return Err(invalid_str("PID must be non-zero"));
        }
        let port = match self.port {
            Some(p) => p,
            None => return Err(invalid_str("Port is required")),
        };
        if port == 0 {
            return Err(invalid_str("Port must be non-zero"));
        }
        let base_url = match self.base_url {
            Some(u) => u,
            None => return Err(invalid_str("Base URL is required")),
        };
        if base_url.as_str().is_empty() {
            return Err(invalid_str("Base URL cannot be empty"));
        }
        if !starts_with(base_url.as_str(), "http://") && !starts_with(base_url.as_str(), "https://") {
            return Err(invalid(joined("Invalid base URL format: ", base_url.as_str())));
        }
        let name = match self.name {
            Some(n) => n,
            None => return Err(invalid_str("Server name is required")),
        };
        if name.as_str().is_empty() {
            return Err(invalid_str("Server name cannot be empty"));
        }
        let command = match self.command {
            Some(c) => c,
            None => return Err(invalid_str("Command is required")),
        };
        if command.as_str().is_empty() {
            return Err(invalid_str("Command cannot be empty"));
        }
        let owned = match self.owned {
            Some(o) => o,
            None => return Err(invalid_str("Owned is required")),
        };
        Ok(ServerInfo { pid, port: port as u32, base_url, name, command, owned })
    }
}

/// Every descriptor the builder accepts has a non-zero pid, a port in
/// 1..=65535, a non-empty base URL that starts with `http://` or
/// `https://`, and a non-empty name and command.
pub proof fn lemma_built_descriptor_valid(b: ServerInfoBuilder, info: ServerInfo)
    requires
        build_failure(b) is None,
        built_from(b, info),
    ensures
        info.valid(),
{
}

} // verus!

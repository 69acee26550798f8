//! The currently bound backend and the HTTP client target derived from it.
//! All changes go through `apply`, one command at a time, so a reader never
//! sees a client whose base URL disagrees with the descriptor.

use vstd::prelude::*;

use crate::connection::{ConnAction, ErrorCode};
use crate::error::{DiscoveryError, ErrorLocation, IpcError, OpencodeClientError, SpawnError};
use crate::server_info::ServerInfo;
use crate::text::{joined, owned};

verus! {

broadcast use vstd::string::group_string_axioms;

/// Whether the `url` crate accepts a text as an absolute URL.
pub uninterp spec fn url_accepts(s: Seq<char>) -> bool;

/// Relies on `url::Url::parse`: `Ok` exactly when the text parses as an
/// absolute URL, which depends on the characters alone; the error's text
/// otherwise.
#[verifier::external_body]
fn parse_url(s: &str) -> (r: Result<(), String>)
    ensures
        r is Ok <==> url_accepts(s@),
{
    url::Url::parse(s).map(|_| ()).map_err(|e| e.to_string())
}

/// Where the backend HTTP client sends its requests.
#[derive(Debug)]
pub struct ClientTarget {
    pub base_url: String,
}

impl ClientTarget {
    /// A client target for a base URL, which must parse as a URL.
    pub fn new(base_url: &str) -> (r: Result<ClientTarget, OpencodeClientError>)
        ensures
            r is Ok <==> url_accepts(base_url@),
            r is Ok ==> r->Ok_0.base_url@ == base_url@,
            r is Err ==> r->Err_0 is UrlParse,
    {
        match parse_url(base_url) {
            Ok(()) => Ok(ClientTarget { base_url: base_url.to_owned() }),
            Err(message) => Err(OpencodeClientError::UrlParse {
                message,
                location: ErrorLocation::raised_in("binding"),
            }),
        }
    }
}

/// Two descriptors with the same fields.
pub open spec fn same_descriptor(a: ServerInfo, b: ServerInfo) -> bool {
    &&& a.pid == b.pid
    &&& a.port == b.port
    &&& a.base_url@ == b.base_url@
    &&& a.name@ == b.name@
    &&& a.command@ == b.command@
    &&& a.owned == b.owned
}

/// Commands that change the binding.
#[derive(Debug)]
pub enum StateCommand {
    SetServer(ServerInfo),
    ClearServer,
}

/// The binding as seen by its readers: the descriptor, and the base URL of
/// the client derived from it.
pub struct BindingModel {
    pub server: Option<ServerInfo>,
    pub client_url: Option<Seq<char>>,
}

/// The client is present exactly when a descriptor is bound whose base URL
/// parses, and then targets that base URL.
pub open spec fn consistent(m: BindingModel) -> bool {
    &&& (m.client_url is Some <==> (m.server is Some && url_accepts(m.server->0.base_url@)))
    &&& (m.client_url is Some ==> m.client_url->0 == m.server->0.base_url@)
}

/// The binding after one command.
pub open spec fn applied(m: BindingModel, cmd: StateCommand) -> BindingModel {
    match cmd {
        StateCommand::SetServer(info) => BindingModel {
            server: Some(info),
            client_url: if url_accepts(info.base_url@) {
                Some(info.base_url@)
            } else {
                None
            },
        },
        StateCommand::ClearServer => BindingModel { server: None, client_url: None },
    }
}

/// The binding after a sequence of commands, in order.
pub open spec fn applied_all(m: BindingModel, cmds: Seq<StateCommand>) -> BindingModel
    decreases cmds.len(),
{
    if cmds.len() == 0 {
        m
    } else {
        applied_all(applied(m, cmds[0]), cmds.drop_first())
    }
}

/// The currently bound backend, if any, and the client derived from it.
pub struct BackendBinding {
    server: Option<ServerInfo>,
    client: Option<ClientTarget>,
}

impl View for BackendBinding {
    type V = BindingModel;

    closed spec fn view(&self) -> BindingModel {
        BindingModel {
            server: self.server,
            client_url: match self.client {
                Some(c) => Some(c.base_url@),
                None => None,
            },
        }
    }
}

fn io_error(message: &str) -> (r: IpcError)
    ensures
        r matches IpcError::Io { message: m, .. } && m@ == message@,
{
    IpcError::Io { message: message.to_owned(), location: ErrorLocation::raised_in("binding") }
}

impl BackendBinding {
    /// Nothing bound.
    pub fn new() -> (r: Self)
        ensures
            r@.server is None,
            r@.client_url is None,
            consistent(r@),
    {
        BackendBinding { server: None, client: None }
    }

    /// Apply one command: `SetServer` binds the descriptor and derives a
    /// client from its base URL (none when the URL does not parse);
    /// `ClearServer` drops both.
    pub fn apply(&mut self, cmd: StateCommand)
        ensures
            final(self)@ == applied(old(self)@, cmd),
            consistent(final(self)@),
    {
        match cmd {
            StateCommand::SetServer(info) => {
                let client = match ClientTarget::new(info.base_url.as_str()) {
                    Ok(c) => Some(c),
                    Err(_) => None,
                };
                self.server = Some(info);
                self.client = client;
            },
            StateCommand::ClearServer => {
                self.server = None;
                self.client = None;
            },
        }
    }

    /// A copy of the bound descriptor.
    pub fn get_server(&self) -> (r: Option<ServerInfo>)
        ensures
            r is Some <==> self@.server is Some,
            r is Some ==> same_descriptor(r->0, self@.server->0),
    {
        match &self.server {
            Some(s) => Some(s.clone()),
            None => None,
        }
    }

    /// The base URL of the derived client.
    pub fn get_client_url(&self) -> (r: Option<String>)
        ensures
            r is Some <==> self@.client_url is Some,
            r is Some ==> r->0@ == self@.client_url->0,
    {
        match &self.client {
            Some(c) => Some(owned(c.base_url.as_str())),
            None => None,
        }
    }

    /// The descriptor a server request works on, or the error it fails
    /// with when nothing is bound.
    pub fn server_for_request(&self) -> (r: Result<ServerInfo, IpcError>)
        ensures
            r is Ok <==> self@.server is Some,
            r is Ok ==> same_descriptor(r->Ok_0, self@.server->0),
            r is Err ==> (r->Err_0 matches IpcError::Io { message, .. } && message@ == "No server connected"@),
    {
        match self.get_server() {
            Some(s) => Ok(s),
            None => Err(io_error("No server connected")),
        }
    }

    /// The client base URL a session request works on, or the error it
    /// fails with when no client is derived.
    pub fn client_for_request(&self) -> (r: Result<String, IpcError>)
        ensures
            r is Ok <==> self@.client_url is Some,
            r is Ok ==> r->Ok_0@ == self@.client_url->0,
            r is Err ==> (r->Err_0 matches IpcError::Io { message, .. } && message@ == "No OpenCode server connected"@),
    {
        match self.get_client_url() {
            Some(u) => Ok(u),
            None => Err(io_error("No OpenCode server connected")),
        }
    }
}

/// Single writer: whatever commands are applied, in whatever order, from an
/// empty binding, every state a reader can see has a client exactly when a
/// descriptor with a parsing base URL is bound, and that client targets the
/// descriptor's base URL.
pub proof fn lemma_binding_consistent(m: BindingModel, cmds: Seq<StateCommand>)
    requires
        consistent(m),
    ensures
        consistent(applied_all(m, cmds)),
    decreases cmds.len(),
{
    if cmds.len() > 0 {
        lemma_binding_consistent(applied(m, cmds[0]), cmds.drop_first());
    }
}

/// The decimal digits of a number.
pub open spec fn decimal(n: nat) -> Seq<char>
    decreases n,
{
    if n < 10 {
        seq![digit_char(n)]
    } else {
        decimal(n / 10) + seq![digit_char(n % 10)]
    }
}

pub open spec fn digit_char(d: nat) -> char {
    if d == 0 { '0' } else if d == 1 { '1' } else if d == 2 { '2' } else if d == 3 { '3' }
    else if d == 4 { '4' } else if d == 5 { '5' } else if d == 6 { '6' } else if d == 7 { '7' }
    else if d == 8 { '8' } else { '9' }
}

fn digit(d: u32) -> (r: &'static str)
    requires
        d < 10,
    ensures
        r@ == seq![digit_char(d as nat)],
{
    proof {
        reveal_strlit("0"); reveal_strlit("1"); reveal_strlit("2"); reveal_strlit("3"); reveal_strlit("4");
        reveal_strlit("5"); reveal_strlit("6"); reveal_strlit("7"); reveal_strlit("8"); reveal_strlit("9");
    }
    let r = if d == 0 { "0" } else if d == 1 { "1" } else if d == 2 { "2" } else if d == 3 { "3" }
    else if d == 4 { "4" } else if d == 5 { "5" } else if d == 6 { "6" } else if d == 7 { "7" }
    else if d == 8 { "8" } else { "9" };
    assert(r@ =~= seq![digit_char(d as nat)]);
    r
}

/// The decimal text of a number.
pub fn decimal_text(n: u32) -> (r: String)
    ensures
        r@ == decimal(n as nat),
    decreases n,
{
    if n < 10 {
        digit(n).to_owned()
    } else {
        let head = decimal_text(n / 10);
        joined(head.as_str(), digit(n % 10))
    }
}

/// A location as `[file:line:column]`.
pub open spec fn location_view(l: ErrorLocation) -> Seq<char> {
    "["@ + l.file@ + ":"@ + decimal(l.line as nat) + ":"@ + decimal(l.column as nat) + "]"@
}

/// A location as `[file:line:column]`.
pub fn location_text(l: &ErrorLocation) -> (r: String)
    ensures
        r@ == "["@ + l.file@ + ":"@ + decimal(l.line as nat) + ":"@ + decimal(l.column as nat) + "]"@,
{
    let a = joined("[", l.file.as_str());
    let b = joined(a.as_str(), ":");
    let line = decimal_text(l.line);
    let c = joined(b.as_str(), line.as_str());
    let d = joined(c.as_str(), ":");
    let column = decimal_text(l.column);
    let e = joined(d.as_str(), column.as_str());
    joined(e.as_str(), "]")
}

/// The label each IPC error kind is reported under.
pub open spec fn ipc_label(e: IpcError) -> Seq<char> {
    match e {
        IpcError::Handshake { .. } => "Handshake Error: "@,
        IpcError::Send { .. } => "Send Error: "@,
        IpcError::Read { .. } => "Read Error: "@,
        IpcError::Io { .. } => "IO Error: "@,
        IpcError::Auth { .. } => "Auth Error: "@,
        IpcError::ProtobufDecode { .. } => "Protobuf Decode Error: "@,
        IpcError::ProtobufEncode { .. } => "Protobuf Encode Error: "@,
    }
}

impl IpcError {
    pub open spec fn message_of(self) -> Seq<char> {
        match self {
            IpcError::Handshake { message, .. } => message@,
            IpcError::Send { message, .. } => message@,
            IpcError::Read { message, .. } => message@,
            IpcError::Io { message, .. } => message@,
            IpcError::Auth { message, .. } => message@,
            IpcError::ProtobufDecode { message, .. } => message@,
            IpcError::ProtobufEncode { message, .. } => message@,
        }
    }

    pub open spec fn location_of(self) -> ErrorLocation {
        match self {
            IpcError::Handshake { location, .. } => location,
            IpcError::Send { location, .. } => location,
            IpcError::Read { location, .. } => location,
            IpcError::Io { location, .. } => location,
            IpcError::Auth { location, .. } => location,
            IpcError::ProtobufDecode { location, .. } => location,
            IpcError::ProtobufEncode { location, .. } => location,
        }
    }

    /// The error as text: `<label>: <message> [file:line:column]`.
    pub fn describe(&self) -> (r: String)
        ensures
            r@ == ipc_label(*self) + self.message_of() + " "@ + ({
                let l = self.location_of();
                "["@ + l.file@ + ":"@ + decimal(l.line as nat) + ":"@ + decimal(l.column as nat) + "]"@
            }),
    {
        let (label, message, location) = match self {
            IpcError::Handshake { message, location } => ("Handshake Error: ", message, location),
            IpcError::Send { message, location } => ("Send Error: ", message, location),
            IpcError::Read { message, location } => ("Read Error: ", message, location),
            IpcError::Io { message, location } => ("IO Error: ", message, location),
            IpcError::Auth { message, location } => ("Auth Error: ", message, location),
            IpcError::ProtobufDecode { message, location } => ("Protobuf Decode Error: ", message, location),
            IpcError::ProtobufEncode { message, location } => ("Protobuf Encode Error: ", message, location),
        };
        let a = joined(label, message.as_str());
        let b = joined(a.as_str(), " ");
        let l = location_text(location);
        joined(b.as_str(), l.as_str())
    }
}


/// The label each DiscoveryError kind is reported under.
pub open spec fn discoveryerror_label(e: DiscoveryError) -> Seq<char> {
    match e {
        DiscoveryError::NetworkQuery { .. } => "Network Query Error: "@,
        DiscoveryError::SystemQuery { .. } => "System Query Error: "@,
        DiscoveryError::Validation { .. } => "Validation Error: "@,
    }
}

impl DiscoveryError {
    pub open spec fn message_of(self) -> Seq<char> {
        match self {
            DiscoveryError::NetworkQuery { message, .. } => message@,
            DiscoveryError::SystemQuery { message, .. } => message@,
            DiscoveryError::Validation { message, .. } => message@,
        }
    }

    pub open spec fn location_of(self) -> ErrorLocation {
        match self {
            DiscoveryError::NetworkQuery { location, .. } => location,
            DiscoveryError::SystemQuery { location, .. } => location,
            DiscoveryError::Validation { location, .. } => location,
        }
    }

    /// The error as text: `<label>: <message> [file:line:column]`.
    pub fn describe(&self) -> (r: String)
        ensures
            r@ == discoveryerror_label(*self) + self.message_of() + " "@ + location_view(self.location_of()),
    {
        let (label, message, location) = match self {
            DiscoveryError::NetworkQuery { message, location } => ("Network Query Error: ", message, location),
            DiscoveryError::SystemQuery { message, location } => ("System Query Error: ", message, location),
            DiscoveryError::Validation { message, location } => ("Validation Error: ", message, location),
        };
        let a = joined(label, message.as_str());
        let b = joined(a.as_str(), " ");
        let l = location_text(location);
        joined(b.as_str(), l.as_str())
    }
}

/// The label each SpawnError kind is reported under.
pub open spec fn spawnerror_label(e: SpawnError) -> Seq<char> {
    match e {
        SpawnError::Spawn { .. } => "Spawn Error: "@,
        SpawnError::Parse { .. } => "Parse Error: "@,
        SpawnError::Timeout { .. } => "Timeout Error: "@,
        SpawnError::Validation { .. } => "Validation Error: "@,
    }
}

impl SpawnError {
    pub open spec fn message_of(self) -> Seq<char> {
        match self {
            SpawnError::Spawn { message, .. } => message@,
            SpawnError::Parse { message, .. } => message@,
            SpawnError::Timeout { message, .. } => message@,
            SpawnError::Validation { message, .. } => message@,
        }
    }

    pub open spec fn location_of(self) -> ErrorLocation {
        match self {
            SpawnError::Spawn { location, .. } => location,
            SpawnError::Parse { location, .. } => location,
            SpawnError::Timeout { location, .. } => location,
            SpawnError::Validation { location, .. } => location,
        }
    }

    /// The error as text: `<label>: <message> [file:line:column]`.
    pub fn describe(&self) -> (r: String)
        ensures
            r@ == spawnerror_label(*self) + self.message_of() + " "@ + location_view(self.location_of()),
    {
        let (label, message, location) = match self {
            SpawnError::Spawn { message, location } => ("Spawn Error: ", message, location),
            SpawnError::Parse { message, location } => ("Parse Error: ", message, location),
            SpawnError::Timeout { message, location } => ("Timeout Error: ", message, location),
            SpawnError::Validation { message, location } => ("Validation Error: ", message, location),
        };
        let a = joined(label, message.as_str());
        let b = joined(a.as_str(), " ");
        let l = location_text(location);
        joined(b.as_str(), l.as_str())
    }
}

/// The label each OpencodeClientError kind is reported under.
pub open spec fn opencodeclienterror_label(e: OpencodeClientError) -> Seq<char> {
    match e {
        OpencodeClientError::Http { .. } => "HTTP Error: "@,
        OpencodeClientError::Json { .. } => "JSON Error: "@,
        OpencodeClientError::UrlParse { .. } => "URL Parse Error: "@,
        OpencodeClientError::Server { .. } => "Server Error: "@,
    }
}

impl OpencodeClientError {
    pub open spec fn message_of(self) -> Seq<char> {
        match self {
            OpencodeClientError::Http { message, .. } => message@,
            OpencodeClientError::Json { message, .. } => message@,
            OpencodeClientError::UrlParse { message, .. } => message@,
            OpencodeClientError::Server { message, .. } => message@,
        }
    }

    pub open spec fn location_of(self) -> ErrorLocation {
        match self {
            OpencodeClientError::Http { location, .. } => location,
            OpencodeClientError::Json { location, .. } => location,
            OpencodeClientError::UrlParse { location, .. } => location,
            OpencodeClientError::Server { location, .. } => location,
        }
    }

    /// The error as text: `<label>: <message> [file:line:column]`.
    pub fn describe(&self) -> (r: String)
        ensures
            r@ == opencodeclienterror_label(*self) + self.message_of() + " "@ + location_view(self.location_of()),
    {
        let (label, message, location) = match self {
            OpencodeClientError::Http { message, location } => ("HTTP Error: ", message, location),
            OpencodeClientError::Json { message, location } => ("JSON Error: ", message, location),
            OpencodeClientError::UrlParse { message, location } => ("URL Parse Error: ", message, location),
            OpencodeClientError::Server { message, location } => ("Server Error: ", message, location),
        };
        let a = joined(label, message.as_str());
        let b = joined(a.as_str(), " ");
        let l = location_text(location);
        joined(b.as_str(), l.as_str())
    }
}

/// The reply to a request whose handler failed: an internal error carrying
/// the request's id and the error's text.
pub fn handler_error_reply(request_id: u64, e: &IpcError) -> (r: ConnAction)
    ensures
        r matches ConnAction::ErrorReply { request_id: i, code, message } && i == request_id
            && code == ErrorCode::InternalError
            && crate::text::contains_seq(message@, e.message_of()),
{
    let message = e.describe();
    proof {
        let pre = ipc_label(*e);
        assert(message@.subrange(pre.len() as int, (pre.len() + e.message_of().len()) as int) =~= e.message_of());
        assert(crate::text::occurs_at(message@, e.message_of(), pre.len() as int));
    }
    ConnAction::ErrorReply { request_id, code: ErrorCode::InternalError, message }
}

} // verus!

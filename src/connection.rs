//! Per-connection authentication and the decisions of the IPC message loop:
//! what each incoming frame leads to, from the first frame to the close.

use vstd::prelude::*;


verus! {

broadcast use vstd::string::group_string_axioms;

/// A request of the client, as decoded from one binary frame.
#[derive(Debug)]
pub enum ClientPayload {
    AuthHandshake { token: String },
    DiscoverServer,
    SpawnServer { port: Option<u16> },
    CheckHealth,
    StopServer,
    ListSessions,
    CreateSession { title: Option<String> },
    DeleteSession { session_id: String },
    GetConfig,
    UpdateConfig { config_json: String },
    SendMessage { session_id: String, text: String, provider_id: String, model_id: String, agent: Option<String> },
    /// A payload kind this server does not know.
    Unsupported,
}

/// One event on the connection's read side.
#[derive(Debug)]
pub enum Incoming {
    /// A binary frame that decoded to an envelope.
    Message { request_id: u64, payload: Option<ClientPayload> },
    /// A binary frame that did not decode.
    Undecodable,
    /// A text, ping or other non-binary frame.
    NonBinary,
    /// The peer closed the connection, or reading failed.
    Closed,
}

/// Error codes of error replies.
#[derive(Debug, Clone, Copy, PartialEq, Eq, Structural)]
pub enum ErrorCode {
    AuthError,
    InvalidMessage,
    InternalError,
    NotImplemented,
}

/// What the server does after one incoming event.
#[derive(Debug)]
pub enum ConnAction {
    /// Reply to the handshake; the connection stays open exactly when
    /// `success` holds.
    AuthReply { request_id: u64, success: bool, error: Option<String> },
    /// Reply with an error and keep the connection open.
    ErrorReply { request_id: u64, code: ErrorCode, message: String },
    /// Hand the request to its handler.
    Dispatch { request_id: u64, payload: ClientPayload },
    /// Drop the frame and keep the connection open.
    Ignore,
    /// Close the connection without replying.
    Close,
}

/// The shape of a `ConnAction`, without its texts.
pub enum ActionKind {
    AuthAccepted,
    AuthRejected,
    Error(ErrorCode),
    Dispatch,
    Ignore,
    Close,
}

/// The state of one connection, as far as its decisions go.
pub struct ConnModel {
    pub authenticated: bool,
    pub closed: bool,
    pub token: Seq<char>,
}

/// Tracks whether a connection has authenticated, and what token it must
/// present.
pub struct ConnectionState {
    authenticated: bool,
    closed: bool,
    expected_token: String,
}

impl View for ConnectionState {
    type V = ConnModel;

    closed spec fn view(&self) -> ConnModel {
        ConnModel { authenticated: self.authenticated, closed: self.closed, token: self.expected_token@ }
    }
}

/// A handshake frame that carries the expected token.
pub open spec fn valid_handshake(token: Seq<char>, f: Incoming) -> bool {
    f matches Incoming::Message { payload: Some(ClientPayload::AuthHandshake { token: t }), .. } && t@ == token
}

/// What an event leads to, and the state after it.
pub open spec fn step(m: ConnModel, f: Incoming) -> (ConnModel, ActionKind) {
    if m.closed {
        (m, ActionKind::Close)
    } else if !m.authenticated {
        if valid_handshake(m.token, f) {
            (ConnModel { authenticated: true, ..m }, ActionKind::AuthAccepted)
        } else if f matches Incoming::Message { payload: Some(ClientPayload::AuthHandshake { .. }), .. } {
            (ConnModel { closed: true, ..m }, ActionKind::AuthRejected)
        } else {
            (ConnModel { closed: true, ..m }, ActionKind::Close)
        }
    } else {
        match f {
            Incoming::Message { payload, .. } => match payload {
                None => (m, ActionKind::Error(ErrorCode::InvalidMessage)),
                Some(ClientPayload::AuthHandshake { .. }) => (m, ActionKind::Error(ErrorCode::AuthError)),
                Some(ClientPayload::Unsupported) => (m, ActionKind::Error(ErrorCode::NotImplemented)),
                Some(_) => (m, ActionKind::Dispatch),
            },
            Incoming::Undecodable => (m, ActionKind::Error(ErrorCode::InvalidMessage)),
            Incoming::NonBinary => (m, ActionKind::Ignore),
            Incoming::Closed => (ConnModel { closed: true, ..m }, ActionKind::Close),
        }
    }
}

/// The shape of an action.
pub open spec fn kind_of(a: ConnAction) -> ActionKind {
    match a {
        ConnAction::AuthReply { success, .. } => if success {
            ActionKind::AuthAccepted
        } else {
            ActionKind::AuthRejected
        },
        ConnAction::ErrorReply { code, .. } => ActionKind::Error(code),
        ConnAction::Dispatch { .. } => ActionKind::Dispatch,
        ConnAction::Ignore => ActionKind::Ignore,
        ConnAction::Close => ActionKind::Close,
    }
}

/// The request id an error reply carries for an event: the envelope's,
/// or 0 when the frame did not decode.
pub open spec fn reply_id(f: Incoming) -> u64 {
    match f {
        Incoming::Message { request_id, .. } => request_id,
        _ => 0,
    }
}

/// The kinds of the actions a connection in state `m` takes on `frames`.
pub open spec fn run(m: ConnModel, frames: Seq<Incoming>) -> Seq<ActionKind>
    decreases frames.len(),
{
    if frames.len() == 0 {
        Seq::empty()
    } else {
        let (next, a) = step(m, frames[0]);
        seq![a] + run(next, frames.drop_first())
    }
}

fn error_reply(request_id: u64, code: ErrorCode, message: &str) -> (r: ConnAction)
    ensures
        r matches ConnAction::ErrorReply { request_id: i, code: c, message: m } && i == request_id && c == code
            && m@ == message@,
{
    ConnAction::ErrorReply { request_id, code, message: message.to_owned() }
}

/// Compare a presented token with the expected one, looking at every
/// character even after a difference is found.
pub fn tokens_match(presented: &str, expected: &str) -> (r: bool)
    ensures
        r == (presented@ == expected@),
{
    let n = presented.unicode_len();
    let m = expected.unicode_len();
    let mut same = n == m;
    let k = if n < m { n } else { m };
    let mut i: usize = 0;
    while i < k
        invariant
            n == presented@.len(),
            m == expected@.len(),
            k <= n && k <= m,
            i <= k,
            same == (n == m && forall|j: int| 0 <= j < i ==> presented@[j] == expected@[j]),
        decreases k - i,
    {
        let differs = presented.get_char(i) != expected.get_char(i);
        same = same && !differs;
        i = i + 1;
    }
    proof {
        if same {
            assert(presented@ =~= expected@);
        }
    }
    same
}

impl ConnectionState {
    /// Connection state expecting `token`.
    pub fn new(token: String) -> (r: Self)
        ensures
            r@ == (ConnModel { authenticated: false, closed: false, token: token@ }),
    {
        ConnectionState { authenticated: false, closed: false, expected_token: token }
    }

    /// Validate a token and mark the connection authenticated if it
    /// matches; whether it matched.
    pub fn validate_token(&mut self, token: &str) -> (r: bool)
        ensures
            r == (token@ == old(self)@.token),
            final(self)@ == (ConnModel { authenticated: old(self)@.authenticated || r, ..old(self)@ }),
    {
        if tokens_match(token, self.expected_token.as_str()) {
            self.authenticated = true;
            true
        } else {
            false
        }
    }

    /// Whether the connection has authenticated.
    pub fn is_authenticated(&self) -> (r: bool)
        ensures
            r == self@.authenticated,
    {
        self.authenticated
    }

    /// Whether the connection is to be closed.
    pub fn is_closed(&self) -> (r: bool)
        ensures
            r == self@.closed,
    {
        self.closed
    }

    /// Decide what to do with one incoming event. The handshake reply
    /// always carries request id 1; error replies carry the envelope's id,
    /// or 0 for a frame that did not decode.
    pub fn on_frame(&mut self, frame: Incoming) -> (r: ConnAction)
        ensures
            (final(self)@, kind_of(r)) == step(old(self)@, frame),
            r matches ConnAction::AuthReply { request_id, success, error } ==> request_id == 1
                && (success <==> error is None)
                && (!success ==> error->0@ == "Invalid authentication token"@),
            r matches ConnAction::ErrorReply { request_id, .. } ==> request_id == reply_id(frame),
            r matches ConnAction::ErrorReply { code, message, .. } ==> (
                (code == ErrorCode::AuthError ==> message@ == "Auth handshake already completed"@)
                && (code == ErrorCode::NotImplemented ==> message@ == "Operation not yet implemented"@)
                && (code == ErrorCode::InvalidMessage && frame is Undecodable ==> message@ == "Invalid protobuf message"@)
                && (code == ErrorCode::InvalidMessage && frame is Message ==> message@ == "No payload in message"@)),
            r matches ConnAction::Dispatch { request_id, payload } ==> frame == (Incoming::Message {
                request_id, payload: Some(payload) }),
    {
        if self.closed {
            return ConnAction::Close;
        }
        if !self.authenticated {
            match frame {
                Incoming::Message { payload: Some(ClientPayload::AuthHandshake { token }), .. } => {
                    if self.validate_token(token.as_str()) {
                        return ConnAction::AuthReply { request_id: 1, success: true, error: None };
                    }
                    self.closed = true;
                    return ConnAction::AuthReply {
                        request_id: 1,
                        success: false,
                        error: Some("Invalid authentication token".to_string()),
                    };
                },
                _ => {
                    self.closed = true;
                    return ConnAction::Close;
                },
            }
        }
        match frame {
            Incoming::Message { request_id, payload } => match payload {
                None => error_reply(request_id, ErrorCode::InvalidMessage, "No payload in message"),
                Some(ClientPayload::AuthHandshake { .. }) => error_reply(
                    request_id,
                    ErrorCode::AuthError,
                    "Auth handshake already completed",
                ),
                Some(ClientPayload::Unsupported) => error_reply(
                    request_id,
                    ErrorCode::NotImplemented,
                    "Operation not yet implemented",
                ),
                Some(p) => ConnAction::Dispatch { request_id, payload: p },
            },
            Incoming::Undecodable => error_reply(0, ErrorCode::InvalidMessage, "Invalid protobuf message"),
            Incoming::NonBinary => ConnAction::Ignore,
            Incoming::Closed => {
                self.closed = true;
                ConnAction::Close
            },
        }
    }
}

/// Auth gate: on a fresh connection whose first event is not a handshake
/// with the expected token, no event ever leads to a reply other than the
/// rejection of that first handshake, and nothing is ever dispatched: every
/// later event closes.
pub proof fn lemma_auth_gate(token: Seq<char>, frames: Seq<Incoming>)
    requires
        frames.len() > 0,
        !valid_handshake(token, frames[0]),
    ensures
        ({
            let acts = run(ConnModel { authenticated: false, closed: false, token }, frames);
            &&& acts.len() == frames.len()
            &&& (acts[0] is AuthRejected || acts[0] is Close)
            &&& forall|i: int| 1 <= i < acts.len() ==> #[trigger] acts[i] is Close
        }),
{
    let m = ConnModel { authenticated: false, closed: false, token };
    let (next, a) = step(m, frames[0]);
    assert(next.closed);
    lemma_closed_stays_closed(next, frames.drop_first());
    let acts = run(m, frames);
    assert(acts == seq![a] + run(next, frames.drop_first()));
    assert forall|i: int| 1 <= i < acts.len() implies #[trigger] acts[i] is Close by {
        assert(acts[i] == run(next, frames.drop_first())[i - 1]);
    }
}

/// A closed connection only ever closes.
pub proof fn lemma_closed_stays_closed(m: ConnModel, frames: Seq<Incoming>)
    requires
        m.closed,
    ensures
        run(m, frames).len() == frames.len(),
        forall|i: int| 0 <= i < frames.len() ==> #[trigger] run(m, frames)[i] is Close,
    decreases frames.len(),
{
    if frames.len() > 0 {
        lemma_closed_stays_closed(m, frames.drop_first());
        let rest = run(m, frames.drop_first());
        assert(run(m, frames) == seq![ActionKind::Close] + rest);
        assert forall|i: int| 0 <= i < frames.len() implies #[trigger] run(m, frames)[i] is Close by {
            if i > 0 {
                assert(run(m, frames)[i] == rest[i - 1]);
            }
        }
    }
}

} // verus!

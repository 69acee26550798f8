//! Launching the backend: its command line, finding its URL in what it
//! prints, and the descriptor of the launched server.

use vstd::prelude::*;

use crate::binding::{decimal, decimal_text};
use crate::discovery::loopback_base_url;
use crate::discovery::loopback_url;
use crate::error::{ErrorLocation, SpawnError};
use crate::server_info::{ServerInfo, ServerInfoBuilder};

verus! {

broadcast use vstd::string::group_string_axioms;

/// Most lines of output read while looking for the server's URL.
pub const SPAWN_MAX_OUTPUT_LINES: usize = 100;

/// The host and port groups of a match.
pub struct CapturedUrl {
    pub host: Seq<char>,
    pub port: Seq<char>,
}

/// The host and port groups of the first match of
/// `http://(?P<host>[^\s:]+):(?P<port>\d+)` in a line.
pub uninterp spec fn url_capture_of(line: Seq<char>) -> Option<CapturedUrl>;

/// The host and port texts of a URL found in a line.
#[derive(Debug)]
pub struct UrlCapture {
    pub host: String,
    pub port: String,
}

/// Relies on regex's `Regex::captures` for the pattern
/// `http://(?P<host>[^\s:]+):(?P<port>\d+)`: the host and port groups of
/// the leftmost match, which depend on the line alone.
#[verifier::external_body]
fn capture_with_regex(line: &str) -> (r: Option<UrlCapture>)
    ensures
        r is Some <==> url_capture_of(line@) is Some,
        r is Some ==> r->0.host@ == url_capture_of(line@)->0.host && r->0.port@ == url_capture_of(line@)->0.port,
{
    let re = regex::Regex::new(r"http://(?P<host>[^\s:]+):(?P<port>\d+)").ok()?;
    let caps = re.captures(line)?;
    Some(UrlCapture { host: caps.name("host")?.as_str().to_string(), port: caps.name("port")?.as_str().to_string() })
}

/// The host and port of the first `http://<host>:<port>` in a line.
pub fn capture_url(line: &str) -> (r: Option<UrlCapture>)
    ensures
        r is Some <==> url_capture_of(line@) is Some,
        r is Some ==> r->0.host@ == url_capture_of(line@)->0.host && r->0.port@ == url_capture_of(line@)->0.port,
{
    capture_with_regex(line)
}

pub open spec fn ascii_digit(c: char) -> bool {
    '0' <= c && c <= '9'
}

/// The number an all-digit text spells.
pub open spec fn digits_value(t: Seq<char>) -> nat
    decreases t.len(),
{
    if t.len() == 0 {
        0
    } else {
        digits_value(t.drop_last()) * 10 + ((t.last() as u32 - '0' as u32) as nat)
    }
}

/// The port a text names: a non-empty run of ASCII digits whose value lies
/// in 1..=65535.
pub open spec fn port_of(t: Seq<char>) -> Option<u16> {
    if t.len() > 0 && (forall|i: int| 0 <= i < t.len() ==> ascii_digit(#[trigger] t[i])) && 1 <= digits_value(t)
        && digits_value(t) <= 65535 {
        Some(digits_value(t) as u16)
    } else {
        None
    }
}

proof fn lemma_digits_grow(t: Seq<char>, n: int)
    requires
        0 <= n < t.len(),
        forall|i: int| 0 <= i < t.len() ==> ascii_digit(#[trigger] t[i]),
    ensures
        digits_value(t.subrange(0, n)) <= digits_value(t),
    decreases t.len(),
{
    if n < t.len() - 1 {
        assert(t.drop_last().subrange(0, n) =~= t.subrange(0, n));
        lemma_digits_grow(t.drop_last(), n);
    } else {
        assert(t.drop_last() =~= t.subrange(0, n));
    }
}

/// Parse a port number: ASCII digits only, 1..=65535.
pub fn parse_port(text: &str) -> (r: Option<u16>)
    ensures
        r == port_of(text@),
{
    let n = text.unicode_len();
    if n == 0 {
        return None;
    }
    let mut value: u32 = 0;
    let mut i: usize = 0;
    while i < n
        invariant
            n == text@.len(),
            i <= n,
            value as nat == digits_value(text@.subrange(0, i as int)),
            value <= 65535,
            forall|j: int| 0 <= j < i ==> ascii_digit(#[trigger] text@[j]),
        decreases n - i,
    {
        let c = text.get_char(i);
        if !('0' <= c && c <= '9') {
            return None;
        }
        proof {
            assert(text@.subrange(0, i + 1).drop_last() =~= text@.subrange(0, i as int));
        }
        value = value * 10 + (c as u32 - '0' as u32);
        if value > 65535 {
            proof {
                if (forall|j: int| 0 <= j < n ==> ascii_digit(#[trigger] text@[j])) {
                    if i + 1 < n {
                        lemma_digits_grow(text@, i + 1);
                    } else {
                        assert(text@.subrange(0, i + 1) =~= text@);
                    }
                }
            }
            return None;
        }
        i = i + 1;
    }
    proof {
        assert(text@.subrange(0, n as int) =~= text@);
    }
    if value == 0 {
        return None;
    }
    Some(value as u16)
}

/// The base URL and port a line of output announces, if any.
pub open spec fn announced(line: Seq<char>) -> Option<u16> {
    match url_capture_of(line) {
        Some(c) => port_of(c.port),
        None => None,
    }
}

/// The base URL and port announced in one line of the server's output.
/// The reported host is not used: the server is always reached on the
/// loopback address.
pub fn server_url_in_line(line: &str) -> (r: Option<AnnouncedUrl>)
    ensures
        r is Some <==> announced(line@) is Some,
        r is Some ==> r->0.port == announced(line@)->0 && r->0.base_url@ == loopback_url(r->0.port),
{
    match capture_url(line) {
        Some(c) => match parse_port(c.port.as_str()) {
            Some(port) => Some(AnnouncedUrl { base_url: loopback_base_url(port), port }),
            None => None,
        },
        None => None,
    }
}

/// Where a launched server listens.
#[derive(Debug)]
pub struct AnnouncedUrl {
    pub base_url: String,
    pub port: u16,
}

/// What reading one more line of output leads to.
#[derive(Debug)]
pub enum ScanStep {
    /// The server announced where it listens.
    Found { base_url: String, port: u16 },
    /// Read another line.
    NeedMore,
    /// Output ended, or the line budget is spent, without an address.
    NotFound,
}

/// Looks through the server's output, line by line, for its address.
pub struct OutputScan {
    pub lines_read: usize,
}

impl OutputScan {
    pub fn new() -> (r: Self)
        ensures
            r.lines_read == 0,
    {
        OutputScan { lines_read: 0 }
    }

    /// Take the next line (`None` when output ended).
    pub fn feed(&mut self, line: Option<&str>) -> (r: ScanStep)
        requires
            old(self).lines_read < SPAWN_MAX_OUTPUT_LINES,
        ensures
            line is None ==> r is NotFound && final(self).lines_read == old(self).lines_read,
            line is Some ==> final(self).lines_read == old(self).lines_read + 1,
            line is Some && announced(line->0@) is Some ==> (r matches ScanStep::Found { base_url, port }
                && port == announced(line->0@)->0 && base_url@ == loopback_url(port)),
            line is Some && announced(line->0@) is None ==> (
                (final(self).lines_read < SPAWN_MAX_OUTPUT_LINES ==> r is NeedMore)
                && (final(self).lines_read == SPAWN_MAX_OUTPUT_LINES ==> r is NotFound)),
    {
        let line = match line {
            Some(l) => l,
            None => return ScanStep::NotFound,
        };
        self.lines_read = self.lines_read + 1;
        match server_url_in_line(line) {
            Some(a) => ScanStep::Found { base_url: a.base_url, port: a.port },
            None => {
                if self.lines_read < SPAWN_MAX_OUTPUT_LINES {
                    ScanStep::NeedMore
                } else {
                    ScanStep::NotFound
                }
            },
        }
    }
}

/// The error when the output held no address.
pub fn no_url_error() -> (r: SpawnError)
    ensures
        r is Parse,
{
    SpawnError::Parse {
        message: "No server URL found in first 100 lines of output".to_string(),
        location: ErrorLocation::raised_in("spawn"),
    }
}

/// The port argument of the launch: the override, or `0` to let the
/// backend choose.
pub fn port_argument(override_port: Option<u16>) -> (r: String)
    ensures
        override_port is Some ==> r@ == decimal(override_port->0 as nat),
        override_port is None ==> r@ == "0"@,
{
    match override_port {
        Some(p) => decimal_text(p as u32),
        None => "0".to_string(),
    }
}

/// The arguments of the launch: `serve --port <port> --hostname 127.0.0.1`.
pub fn spawn_arguments(port: &str) -> (r: Vec<String>)
    ensures
        r@.len() == 5,
        r@[0]@ == "serve"@,
        r@[1]@ == "--port"@,
        r@[2]@ == port@,
        r@[3]@ == "--hostname"@,
        r@[4]@ == "127.0.0.1"@,
{
    let mut v: Vec<String> = Vec::new();
    v.push("serve".to_string());
    v.push("--port".to_string());
    v.push(port.to_owned());
    v.push("--hostname".to_string());
    v.push("127.0.0.1".to_string());
    v
}

/// The descriptor of a server this broker launched.
pub fn spawned_server_info(pid: u32, port: u16) -> (r: Result<ServerInfo, SpawnError>)
    ensures
        r is Ok <==> (pid != 0 && port != 0),
        r is Ok ==> r->Ok_0.pid == pid && r->Ok_0.port == port as u32
            && r->Ok_0.base_url@ == loopback_url(port) && r->Ok_0.name@ == "opencode"@
            && r->Ok_0.command@ == "opencode serve"@ && r->Ok_0.owned,
        r is Err ==> r->Err_0 is Validation,
{
    proof {
        reveal_strlit("http://127.0.0.1:");
        reveal_strlit("opencode");
        reveal_strlit("opencode serve");
        assert("http://127.0.0.1:"@.subrange(0, 7) =~= crate::server_info::http_scheme());
    }
    let base_url = loopback_base_url(port);
    proof {
        assert(base_url@.subrange(0, 7) =~= "http://127.0.0.1:"@.subrange(0, 7));
    }
    let built = ServerInfoBuilder::default()
        .with_pid(pid)
        .with_port(port)
        .with_base_url(base_url.as_str())
        .with_name("opencode")
        .with_command("opencode serve")
        .with_owned(true)
        .build();
    match built {
        Ok(info) => Ok(info),
        Err(e) => Err(SpawnError::from(e)),
    }
}

/// What waiting for the launched server's health check leads to.
#[derive(Debug, PartialEq, Eq, Structural)]
pub enum HealthStep {
    /// The server answered: it is ready.
    Ready,
    /// Sleep this many milliseconds, then check again.
    WaitMillis(u64),
    /// The wait budget is spent: the launch failed.
    TimedOut,
}

/// The decision after one health check, given the next delay that the
/// backoff schedule offers (none once its budget is spent).
pub fn health_wait_step(healthy: bool, next_delay_millis: Option<u64>) -> (r: HealthStep)
    ensures
        healthy ==> r == HealthStep::Ready,
        !healthy && next_delay_millis is Some ==> r == HealthStep::WaitMillis(next_delay_millis->0),
        !healthy && next_delay_millis is None ==> r == HealthStep::TimedOut,
{
    if healthy {
        return HealthStep::Ready;
    }
    match next_delay_millis {
        Some(d) => HealthStep::WaitMillis(d),
        None => HealthStep::TimedOut,
    }
}

/// The error when the server never became healthy.
pub fn health_timeout_error() -> (r: SpawnError)
    ensures
        r is Timeout,
{
    SpawnError::Timeout {
        message: "Server did not become healthy within 20s".to_string(),
        location: ErrorLocation::raised_in("spawn"),
    }
}

} // verus!

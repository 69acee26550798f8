//! Finding a running backend from the machine's process and socket tables,
//! and asking one to stop.

use vstd::prelude::*;

use crate::binding::{decimal, decimal_text};
use crate::error::{DiscoveryError, ErrorLocation, ModelError};
use crate::server_info::{lemma_built_descriptor_valid, ServerInfo, ServerInfoBuilder};
use crate::text::has_prefix;
use crate::text::{contains, contains_seq, joined};

use netstat2::{AddressFamilyFlags as Af, ProtocolFlags as Pf, ProtocolSocketInfo as Psi};

verus! {

broadcast use vstd::string::group_string_axioms;

/// The backend's executable name.
pub const OPENCODE_BINARY: &'static str = "opencode";

/// The only host the backend is reached on.
pub const OPENCODE_SERVER_HOSTNAME: &'static str = "127.0.0.1";

/// One TCP socket of the machine.
#[derive(Debug)]
pub struct SocketEntry {
    pub local_port: u16,
    pub listening: bool,
    pub pids: Vec<u32>,
}

/// One process of the machine.
#[derive(Debug)]
pub struct ProcessEntry {
    pub pid: u32,
    pub name: String,
    pub cmd: Vec<String>,
}

/// Relies on netstat2's `get_sockets_info` for IPv4 and IPv6 TCP sockets:
/// each socket's local port, whether it is listening, and the processes it
/// belongs to; the error's text when the query fails.
#[verifier::external_body]
fn query_tcp_sockets() -> (r: Result<Vec<SocketEntry>, String>) {
    let sockets = netstat2::get_sockets_info(Af::IPV4 | Af::IPV6, Pf::TCP).map_err(|e| e.to_string())?;
    Ok(sockets.into_iter().map(|s| match s.protocol_socket_info {
        Psi::Tcp(t) => SocketEntry {
            local_port: t.local_port,
            listening: t.state == netstat2::TcpState::Listen,
            pids: s.associated_pids,
        },
        Psi::Udp(u) => SocketEntry { local_port: u.local_port, listening: false, pids: s.associated_pids },
    }).collect())
}

/// Relies on sysinfo's `System::new_all` and `refresh_processes`: the
/// processes running now, each with its pid, name and command-line
/// arguments.
#[verifier::external_body]
fn query_processes() -> (r: Vec<ProcessEntry>) {
    let mut sys = sysinfo::System::new_all();
    sys.refresh_processes(sysinfo::ProcessesToUpdate::All, true);
    sys.processes().iter().map(|(pid, p)| ProcessEntry {
        pid: pid.as_u32(),
        name: p.name().to_string_lossy().to_string(),
        cmd: p.cmd().iter().map(|a| a.to_string_lossy().to_string()).collect(),
    }).collect()
}

/// Relies on sysinfo's `Process::kill_with(Signal::Term)`: `None` when the
/// process is gone or the platform has no such signal, else whether the
/// signal was sent.
#[verifier::external_body]
fn send_terminate(pid: u32) -> (r: Option<bool>) {
    let mut sys = sysinfo::System::new_all();
    sys.refresh_processes(sysinfo::ProcessesToUpdate::All, true);
    match sys.process(sysinfo::Pid::from_u32(pid)) {
        Some(p) => p.kill_with(sysinfo::Signal::Term),
        None => None,
    }
}

/// Relies on sysinfo's `Process::kill`: whether the kill signal was sent
/// (false when the process is gone).
#[verifier::external_body]
fn send_kill(pid: u32) -> (r: bool) {
    let mut sys = sysinfo::System::new_all();
    sys.refresh_processes(sysinfo::ProcessesToUpdate::All, true);
    match sys.process(sysinfo::Pid::from_u32(pid)) {
        Some(p) => p.kill(),
        None => false,
    }
}

/// The arguments joined by single spaces.
pub open spec fn joined_args(args: Seq<Seq<char>>) -> Seq<char>
    decreases args.len(),
{
    if args.len() == 0 {
        Seq::empty()
    } else if args.len() == 1 {
        args[0]
    } else {
        joined_args(args.drop_last()) + seq![' '] + args.last()
    }
}

/// The command line of a process: its arguments joined by spaces.
pub fn format_command(cmd: &Vec<String>) -> (r: String)
    ensures
        r@ == joined_args(cmd@.map_values(|a: String| a@)),
{
    let ghost args = cmd@.map_values(|a: String| a@);
    let mut out = String::new();
    let mut i: usize = 0;
    while i < cmd.len()
        invariant
            i <= cmd@.len(),
            args == cmd@.map_values(|a: String| a@),
            out@ == joined_args(args.subrange(0, i as int)),
        decreases cmd@.len() - i,
    {
        proof {
            assert(args.subrange(0, i + 1).drop_last() =~= args.subrange(0, i as int));
            assert(args.subrange(0, 0) =~= Seq::<Seq<char>>::empty());
        }
        proof {
            reveal_strlit(" ");
            reveal_strlit("");
        }
        if i == 0 {
            out = joined("", cmd[i].as_str());
            proof {
                assert(args.subrange(0, 1) =~= seq![args[0]]);
                assert(out@ =~= args[0]);
            }
        } else {
            let spaced = joined(out.as_str(), " ");
            out = joined(spaced.as_str(), cmd[i].as_str());
            proof {
                assert(args.subrange(0, i + 1).last() == args[i as int]);
                assert(out@ =~= joined_args(args.subrange(0, i as int)) + seq![' '] + args[i as int]);
            }
        }
        i = i + 1;
    }
    proof {
        assert(args.subrange(0, cmd@.len() as int) =~= args);
    }
    out
}

/// A process that may be the backend: its image is `bun`, `node` or the
/// backend itself, and the backend's name appears in its command line or
/// name.
pub open spec fn candidate(name: Seq<char>, command: Seq<char>) -> bool {
    (contains_seq(name, "bun"@) || contains_seq(name, "node"@) || contains_seq(name, "opencode"@))
        && (contains_seq(command, "opencode"@) || contains_seq(name, "opencode"@))
}

pub fn is_candidate(name: &str, command: &str) -> (r: bool)
    ensures
        r == candidate(name@, command@),
{
    (contains(name, "bun") || contains(name, "node") || contains(name, "opencode"))
        && (contains(command, "opencode") || contains(name, "opencode"))
}

/// `http://127.0.0.1:<port>`.
pub open spec fn loopback_url(port: u16) -> Seq<char> {
    "http://127.0.0.1:"@ + decimal(port as nat)
}

pub fn loopback_base_url(port: u16) -> (r: String)
    ensures
        r@ == loopback_url(port),
{
    let digits = decimal_text(port as u32);
    joined("http://127.0.0.1:", digits.as_str())
}

/// The descriptor of a discovered backend.
pub open spec fn discovered(info: ServerInfo, pid: u32, port: u16, command: Seq<char>) -> bool {
    &&& info.pid == pid
    &&& info.port == port as u32
    &&& info.base_url@ == loopback_url(port)
    &&& info.name@ == "opencode"@
    &&& info.command@ == "opencode "@ + command
    &&& info.owned
}

fn describe_found(pid: u32, port: u16, command: &str) -> (r: Result<ServerInfo, DiscoveryError>)
    ensures
        r is Ok <==> (pid != 0 && port != 0),
        r is Ok ==> discovered(r->Ok_0, pid, port, command@) && r->Ok_0.valid(),
        r is Err ==> r->Err_0 is Validation,
{
    proof {
        reveal_strlit("http://127.0.0.1:");
        reveal_strlit("opencode");
        reveal_strlit("opencode ");
        assert("http://127.0.0.1:"@.subrange(0, 7) =~= crate::server_info::http_scheme());
    }
    let base_url = loopback_base_url(port);
    let full_command = joined("opencode ", command);
    proof {
        assert(base_url@.subrange(0, 7) =~= "http://127.0.0.1:"@.subrange(0, 7));
        assert(full_command@.len() > 0);
    }
    let builder = ServerInfoBuilder::default()
        .with_pid(pid)
        .with_port(port)
        .with_base_url(base_url.as_str())
        .with_name("opencode")
        .with_command(full_command.as_str())
        .with_owned(true);
    let ghost fields = builder;
    match builder.build() {
        Ok(info) => {
            proof {
                lemma_built_descriptor_valid(fields, info);
            }
            Ok(info)
        },
        Err(e) => Err(DiscoveryError::from(e)),
    }
}

/// The position of the process with this pid, if it is in the table.
pub open spec fn process_at(ps: Seq<ProcessEntry>, pid: u32, k: int) -> bool {
    0 <= k < ps.len() && ps[k].pid == pid && forall|j: int| 0 <= j < k ==> (#[trigger] ps[j]).pid != pid
}

fn find_process(ps: &Vec<ProcessEntry>, pid: u32) -> (r: Option<usize>)
    ensures
        r is Some ==> process_at(ps@, pid, r->0 as int),
        r is None ==> forall|j: int| 0 <= j < ps@.len() ==> (#[trigger] ps@[j]).pid != pid,
{
    let mut i: usize = 0;
    while i < ps.len()
        invariant
            i <= ps@.len(),
            forall|j: int| 0 <= j < i ==> (#[trigger] ps@[j]).pid != pid,
        decreases ps@.len() - i,
    {
        if ps[i].pid == pid {
            return Some(i);
        }
        i = i + 1;
    }
    None
}

/// A listening socket on `port` with at least one owning process.
pub open spec fn owned_listener(s: SocketEntry, port: u16) -> bool {
    s.listening && s.local_port == port && s.pids@.len() > 0
}

/// Socket `i` is the first listening socket on `port` whose first owning
/// process is in the table, at position `k`.
pub open spec fn chosen_listener(sockets: Seq<SocketEntry>, processes: Seq<ProcessEntry>, port: u16, i: int, k: int) -> bool {
    &&& 0 <= i < sockets.len()
    &&& owned_listener(sockets[i], port)
    &&& process_at(processes, sockets[i].pids@[0], k)
    &&& forall|j: int| 0 <= j < i && owned_listener(#[trigger] sockets[j], port)
        ==> forall|q: int| 0 <= q < processes.len() ==> (#[trigger] processes[q]).pid != sockets[j].pids@[0]
}

/// Look for the backend listening on `port`: the first listening socket on
/// that port whose first owning process is still in the process table. It
/// fails only when that process's pid, or the port, is 0.
pub fn discover_on_port(port: u16, sockets: &Vec<SocketEntry>, processes: &Vec<ProcessEntry>) -> (r: Result<Option<ServerInfo>, DiscoveryError>)
    ensures
        r matches Ok(Some(info)) ==> exists|i: int, k: int| #[trigger] chosen_listener(sockets@, processes@, port, i, k)
            && discovered(info, sockets@[i].pids@[0], port, joined_args(processes@[k].cmd@.map_values(|a: String| a@)))
            && info.valid(),
        r is Err ==> r->Err_0 is Validation && exists|i: int, k: int| #[trigger] chosen_listener(sockets@, processes@, port, i, k)
            && (sockets@[i].pids@[0] == 0 || port == 0),
        r matches Ok(None) ==> forall|i: int| 0 <= i < sockets@.len() && owned_listener(#[trigger] sockets@[i], port)
            ==> forall|k: int| 0 <= k < processes@.len() ==> (#[trigger] processes@[k]).pid != sockets@[i].pids@[0],
        r is Err ==> r->Err_0 is Validation,
{
    let mut i: usize = 0;
    while i < sockets.len()
        invariant
            i <= sockets@.len(),
            forall|j: int| 0 <= j < i && owned_listener(#[trigger] sockets@[j], port)
                ==> forall|k: int| 0 <= k < processes@.len() ==> (#[trigger] processes@[k]).pid != sockets@[j].pids@[0],
        decreases sockets@.len() - i,
    {
        let s = &sockets[i];
        if s.listening && s.local_port == port && s.pids.len() > 0 {
            let pid = s.pids[0];
            if let Some(k) = find_process(processes, pid) {
                let command = format_command(&processes[k].cmd);
                let found = describe_found(pid, port, command.as_str());
                proof {
                    assert(chosen_listener(sockets@, processes@, port, i as int, k as int));
                }
                return match found {
                    Ok(info) => Ok(Some(info)),
                    Err(e) => Err(e),
                };
            }
        }
        i = i + 1;
    }
    Ok(None)
}

/// Socket `i` is the first listening socket that belongs to `pid`.
pub open spec fn first_listening(sockets: Seq<SocketEntry>, pid: u32, i: int) -> bool {
    &&& 0 <= i < sockets.len()
    &&& sockets[i].listening
    &&& sockets[i].pids@.contains(pid)
    &&& forall|j: int| 0 <= j < i && (#[trigger] sockets[j]).listening ==> !sockets[j].pids@.contains(pid)
}

/// The port of the first listening socket that belongs to `pid`.
pub fn find_listening_port(sockets: &Vec<SocketEntry>, pid: u32) -> (r: Option<u16>)
    ensures
        r is Some ==> exists|i: int| #[trigger] first_listening(sockets@, pid, i) && sockets@[i].local_port == r->0,
        r is None ==> forall|i: int| 0 <= i < sockets@.len() && (#[trigger] sockets@[i]).listening
            ==> !sockets@[i].pids@.contains(pid),
{
    let mut i: usize = 0;
    while i < sockets.len()
        invariant
            i <= sockets@.len(),
            forall|j: int| 0 <= j < i && (#[trigger] sockets@[j]).listening ==> !sockets@[j].pids@.contains(pid),
        decreases sockets@.len() - i,
    {
        let s = &sockets[i];
        if s.listening {
            let mut k: usize = 0;
            while k < s.pids.len()
                invariant
                    k <= s.pids@.len(),
                    i < sockets@.len(),
                    *s == sockets@[i as int],
                    s.listening,
                    forall|j: int| 0 <= j < i && (#[trigger] sockets@[j]).listening ==> !sockets@[j].pids@.contains(pid),
                    forall|q: int| 0 <= q < k ==> s.pids@[q] != pid,
                decreases s.pids@.len() - k,
            {
                if s.pids[k] == pid {
                    assert(sockets@[i as int].pids@[k as int] == pid);
                    assert(sockets@[i as int].pids@.contains(pid));
                    assert(first_listening(sockets@, pid, i as int));
                    return Some(s.local_port);
                }
                k = k + 1;
            }
        }
        i = i + 1;
    }
    None
}

/// A candidate process that owns a listening socket.
pub open spec fn serving_candidate(p: ProcessEntry, sockets: Seq<SocketEntry>) -> bool {
    &&& candidate(p.name@, joined_args(p.cmd@.map_values(|a: String| a@)))
    &&& exists|i: int| 0 <= i < sockets.len() && (#[trigger] sockets[i]).listening && sockets[i].pids@.contains(p.pid)
}

/// Scan the process table for the backend: the first candidate process
/// that owns a listening socket, on the port of its first listening socket.
/// It fails only when that process's pid, or that port, is 0.
pub fn discover_by_process_scan(sockets: &Vec<SocketEntry>, processes: &Vec<ProcessEntry>) -> (r: Result<Option<ServerInfo>, DiscoveryError>)
    ensures
        r matches Ok(Some(info)) ==> exists|k: int, i: int| #[trigger] chosen_candidate(sockets@, processes@, k, i)
            && discovered(
                info,
                processes@[k].pid,
                sockets@[i].local_port,
                joined_args(processes@[k].cmd@.map_values(|a: String| a@)),
            ) && info.valid(),
        r is Err ==> r->Err_0 is Validation && exists|k: int, i: int| #[trigger] chosen_candidate(sockets@, processes@, k, i)
            && (processes@[k].pid == 0 || sockets@[i].local_port == 0),
        r matches Ok(None) ==> forall|k: int| 0 <= k < processes@.len() ==> !serving_candidate(#[trigger] processes@[k], sockets@),
{
    let mut k: usize = 0;
    while k < processes.len()
        invariant
            k <= processes@.len(),
            forall|q: int| 0 <= q < k ==> !serving_candidate(#[trigger] processes@[q], sockets@),
        decreases processes@.len() - k,
    {
        let p = &processes[k];
        let command = format_command(&p.cmd);
        if is_candidate(p.name.as_str(), command.as_str()) {
            if let Some(port) = find_listening_port(sockets, p.pid) {
                let found = describe_found(p.pid, port, command.as_str());
                proof {
                    let i = choose|i: int| #[trigger] first_listening(sockets@, p.pid, i) && sockets@[i].local_port == port;
                    assert(serving_candidate(processes@[k as int], sockets@));
                    assert(chosen_candidate(sockets@, processes@, k as int, i));
                }
                return match found {
                    Ok(info) => Ok(Some(info)),
                    Err(e) => Err(e),
                };
            }
        }
        proof {
            assert(!serving_candidate(processes@[k as int], sockets@));
        }
        k = k + 1;
    }
    Ok(None)
}

/// Process `k` is the first serving candidate, and socket `i` the first
/// listening socket it owns.
pub open spec fn chosen_candidate(sockets: Seq<SocketEntry>, processes: Seq<ProcessEntry>, k: int, i: int) -> bool {
    &&& 0 <= k < processes.len()
    &&& serving_candidate(processes[k], sockets)
    &&& forall|q: int| 0 <= q < k ==> !serving_candidate(#[trigger] processes[q], sockets)
    &&& first_listening(sockets, processes[k].pid, i)
}

/// Whether any process is a candidate.
fn any_candidate(processes: &Vec<ProcessEntry>) -> (r: bool)
    ensures
        !r ==> forall|k: int| 0 <= k < processes@.len() ==> !candidate(
            (#[trigger] processes@[k]).name@,
            joined_args(processes@[k].cmd@.map_values(|a: String| a@)),
        ),
{
    let mut k: usize = 0;
    while k < processes.len()
        invariant
            k <= processes@.len(),
            forall|q: int| 0 <= q < k ==> !candidate(
                (#[trigger] processes@[q]).name@,
                joined_args(processes@[q].cmd@.map_values(|a: String| a@)),
            ),
        decreases processes@.len() - k,
    {
        let command = format_command(&processes[k].cmd);
        if is_candidate(processes[k].name.as_str(), command.as_str()) {
            return true;
        }
        k = k + 1;
    }
    false
}

fn socket_query_error(e: String) -> (r: DiscoveryError)
    ensures
        r is NetworkQuery,
{
    DiscoveryError::NetworkQuery {
        message: joined("Failed to query network sockets: ", e.as_str()),
        location: ErrorLocation::raised_in("discovery"),
    }
}

/// Discover a running backend: on the override port when one is set,
/// otherwise by scanning processes (the socket table is read only when a
/// candidate process runs). `Ok(None)` when none runs. A descriptor found
/// is valid, owned, named `opencode`, reached at `http://127.0.0.1:<port>`,
/// and its command starts with `opencode `.
pub fn discover(override_port: Option<u16>) -> (r: Result<Option<ServerInfo>, DiscoveryError>)
    ensures
        r matches Ok(Some(info)) ==> info.owned && info.name@ == "opencode"@ && info.valid()
            && (exists|p: u16| info.port == p as u32 && #[trigger] loopback_url(p) == info.base_url@)
            && has_prefix(info.command@, "opencode "@)
            && (override_port is Some ==> info.port == override_port->0 as u32),
        r matches Err(e) ==> (e is NetworkQuery || e is Validation),
{
    proof {
        reveal_strlit("opencode ");
    }
    match override_port {
        Some(port) => {
            let sockets = match query_tcp_sockets() {
                Ok(s) => s,
                Err(e) => return Err(socket_query_error(e)),
            };
            let processes = query_processes();
            let r = discover_on_port(port, &sockets, &processes);
            proof {
                if r is Ok && r->Ok_0 is Some {
                    let info = r->Ok_0->0;
                    let (i, k) = choose|i: int, k: int| #[trigger] chosen_listener(sockets@, processes@, port, i, k)
                        && discovered(info, sockets@[i].pids@[0], port, joined_args(processes@[k].cmd@.map_values(|a: String| a@)));
                    let c = joined_args(processes@[k].cmd@.map_values(|a: String| a@));
                    assert(("opencode "@ + c).subrange(0, 9) =~= "opencode "@);
                }
            }
            r
        },
        None => {
            let processes = query_processes();
            if !any_candidate(&processes) {
                return Ok(None);
            }
            let sockets = match query_tcp_sockets() {
                Ok(s) => s,
                Err(e) => return Err(socket_query_error(e)),
            };
            let r = discover_by_process_scan(&sockets, &processes);
            proof {
                if r is Ok && r->Ok_0 is Some {
                    let info = r->Ok_0->0;
                    let (k, i) = choose|k: int, i: int| #[trigger] chosen_candidate(sockets@, processes@, k, i)
                        && discovered(info, processes@[k].pid, sockets@[i].local_port, joined_args(processes@[k].cmd@.map_values(|a: String| a@)));
                    let c = joined_args(processes@[k].cmd@.map_values(|a: String| a@));
                    assert(("opencode "@ + c).subrange(0, 9) =~= "opencode "@);
                }
            }
            r
        },
    }
}

/// Ask a process to stop: the terminate signal, or the kill signal where
/// the platform has no terminate signal. Whether a signal was sent. Pid 1
/// and pid 0 are refused without sending anything.
pub fn request_stop(pid: u32) -> (r: bool)
    ensures
        pid == 0 || pid == 1 ==> !r,
{
    if pid == 0 || pid == 1 {
        return false;
    }
    match send_terminate(pid) {
        Some(sent) => sent,
        None => send_kill(pid),
    }
}

/// Whether a process with this pid runs now.
pub fn process_running(pid: u32) -> (r: bool) {
    let processes = query_processes();
    find_process(&processes, pid).is_some()
}

/// What `stop_pid` does next while it waits for a signalled process to go.
#[derive(Debug, PartialEq, Eq, Structural)]
pub enum StopStep {
    /// The process is gone: stopping succeeded.
    Stopped,
    /// Sleep this many milliseconds, then look again.
    WaitMillis(u64),
    /// The wait budget is spent: stopping failed.
    GaveUp,
}

/// The decision after one look at a signalled process, given the next
/// delay that the backoff schedule offers (none once its budget is spent).
pub fn stop_wait_step(still_running: bool, next_delay_millis: Option<u64>) -> (r: StopStep)
    ensures
        !still_running ==> r == StopStep::Stopped,
        still_running && next_delay_millis is Some ==> r == StopStep::WaitMillis(next_delay_millis->0),
        still_running && next_delay_millis is None ==> r == StopStep::GaveUp,
{
    if !still_running {
        return StopStep::Stopped;
    }
    match next_delay_millis {
        Some(d) => StopStep::WaitMillis(d),
        None => StopStep::GaveUp,
    }
}

} // verus!

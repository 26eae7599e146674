//! Results of the command surface that the user interface calls.

use vstd::prelude::*;
use crate::discovery::{ipv4_chars, ipv4_text, Ipv4, REMOTE_CONTROL_PORT};
use crate::text::{dec_chars, decimal_text};

verus! {

/// Outcome of a command aimed at another computer of the room.
#[derive(Debug, Clone)]
pub struct RemoteCommandResult {
    pub success: bool,
    pub message: String,
    pub ip: String,
}

/// Outcome of a one-shot screen capture.
#[derive(Debug, Clone)]
pub struct ScreenCaptureResult {
    pub success: bool,
    pub image_base64: Option<String>,
    pub width: u32,
    pub height: u32,
    pub message: String,
}

/// Outcome of a synthesized input command.
#[derive(Debug, Clone)]
pub struct InputResult {
    pub success: bool,
    pub message: String,
}

/// What the supervisor believes of the backend process.
#[derive(Debug, Clone)]
pub struct BackendStatus {
    pub running: bool,
    pub message: String,
}

/// Outcome of looking for a teacher node.
#[derive(Debug, Clone)]
pub struct DiscoveryResult {
    pub found: bool,
    pub server_ip: Option<String>,
    pub message: String,
}

/// State of the remote-control server of this node.
#[derive(Debug, Clone)]
pub struct RemoteServerStatus {
    pub running: bool,
    pub port: u16,
    pub message: String,
}

/// Outcome of probing another node's remote-control port.
#[derive(Debug, Clone)]
pub struct RemoteConnectionResult {
    pub success: bool,
    pub message: String,
}

/// A host found alive by a network scan.
#[derive(Debug, Clone)]
pub struct HostInfo {
    pub ip: String,
    pub is_alive: bool,
    pub hostname: Option<String>,
}

/// A local user account as the desktop shell shows it.
#[derive(Debug, Clone)]
pub struct User {
    pub id: i64,
    pub username: String,
}

/// Outcome of a login or a registration in the desktop shell.
#[derive(Debug, Clone)]
pub struct AuthResult {
    pub success: bool,
    pub message: String,
    pub user: Option<User>,
}

/// Credentials sent by the login form.
#[derive(Debug, Clone)]
pub struct LoginRequest {
    pub username: String,
    pub password: String,
}

/// Ports probed to tell whether a host is alive.
pub open spec fn scan_ports_spec() -> Seq<u16> {
    seq![80u16, 443, 22, 445, 139, 3389, 8080]
}

/// Ports probed by a ping over TCP: the scan ports, then DNS.
pub open spec fn ping_ports_spec() -> Seq<u16> {
    scan_ports_spec().push(53u16)
}

/// Wait for one TCP connection attempt of a scan.
pub const SCAN_CONNECT_TIMEOUT_MS: u64 = 100;

/// Wait for one TCP connection attempt of a ping.
pub const PING_CONNECT_TIMEOUT_MS: u64 = 500;

/// Wait for the TCP probe of a remote-control server.
pub const REMOTE_PROBE_TIMEOUT_MS: u64 = 2000;

/// Hosts probed together by one task of a scan.
pub const SCAN_CHUNK: usize = 50;

/// Ports probed to tell whether a host is alive, in order.
pub fn scan_ports() -> (r: Vec<u16>)
    ensures
        r@ == scan_ports_spec(),
{
    let mut v: Vec<u16> = Vec::new();
    v.push(80);
    v.push(443);
    v.push(22);
    v.push(445);
    v.push(139);
    v.push(3389);
    v.push(8080);
    assert(v@ =~= scan_ports_spec());
    v
}

/// Ports probed by a ping over TCP, in order.
pub fn ping_ports() -> (r: Vec<u16>)
    ensures
        r@ == ping_ports_spec(),
{
    let mut v = scan_ports();
    v.push(53);
    v
}

/// The hosts of the /24 network of `local`, `.1` to `.254` in order.
pub open spec fn network_range_spec(local: Ipv4) -> Seq<Ipv4> {
    Seq::new(254, |i: int| Ipv4 { a: local.a, b: local.b, c: local.c, d: (i + 1) as u8 })
}

/// The hosts a scan probes: `.1` to `.254` of the /24 network of `local`.
pub fn network_range(local: Ipv4) -> (r: Vec<Ipv4>)
    ensures
        r@ == network_range_spec(local),
{
    let mut v: Vec<Ipv4> = Vec::new();
    let mut i: u8 = 1;
    while i < 255
        invariant
            1 <= i <= 255,
            v@ =~= network_range_spec(local).subrange(0, i - 1),
        decreases 255 - i,
    {
        v.push(Ipv4 { a: local.a, b: local.b, c: local.c, d: i });
        i = i + 1;
    }
    assert(network_range_spec(local).subrange(0, 254) =~= network_range_spec(local));
    v
}

/// The addresses, in order, of the hosts whose probe answered.
pub open spec fn alive_hosts(hosts: Seq<Ipv4>, alive: Seq<bool>) -> Seq<Seq<char>>
    decreases hosts.len(),
{
    if hosts.len() == 0 || alive.len() != hosts.len() {
        Seq::empty()
    } else {
        let rest = alive_hosts(hosts.drop_last(), alive.drop_last());
        if alive.last() {
            rest.push(ipv4_chars(hosts.last()))
        } else {
            rest
        }
    }
}

/// The report of a scan: the hosts of `hosts` whose entry in `alive` is set,
/// in the order of `hosts`. For the range of a /24 network that is the order
/// of their last octet.
pub fn scan_report(hosts: &Vec<Ipv4>, alive: &Vec<bool>) -> (r: Vec<HostInfo>)
    requires
        hosts@.len() == alive@.len(),
    ensures
        r@.len() == alive_hosts(hosts@, alive@).len(),
        forall|i: int|
            0 <= i < r@.len() ==> {
                &&& (#[trigger] r@[i]).ip@ == alive_hosts(hosts@, alive@)[i]
                &&& r@[i].is_alive
                &&& r@[i].hostname is None
            },
{
    let mut out: Vec<HostInfo> = Vec::new();
    let mut i: usize = 0;
    while i < hosts.len()
        invariant
            i <= hosts@.len(),
            hosts@.len() == alive@.len(),
            out@.len() == alive_hosts(hosts@.subrange(0, i as int), alive@.subrange(0, i as int)).len(),
            forall|j: int|
                0 <= j < out@.len() ==> {
                    &&& (#[trigger] out@[j]).ip@ == alive_hosts(
                        hosts@.subrange(0, i as int),
                        alive@.subrange(0, i as int),
                    )[j]
                    &&& out@[j].is_alive
                    &&& out@[j].hostname is None
                },
        decreases hosts@.len() - i,
    {
        let ghost h0 = hosts@.subrange(0, i as int);
        let ghost a0 = alive@.subrange(0, i as int);
        let ghost h1 = hosts@.subrange(0, i + 1);
        let ghost a1 = alive@.subrange(0, i + 1);
        assert(h1.drop_last() =~= h0);
        assert(a1.drop_last() =~= a0);
        if alive[i] {
            out.push(HostInfo { ip: ipv4_text(hosts[i]), is_alive: true, hostname: None });
        }
        i = i + 1;
    }
    assert(hosts@.subrange(0, hosts@.len() as int) =~= hosts@);
    assert(alive@.subrange(0, alive@.len() as int) =~= alive@);
    out
}

/// This node's address as text, or the failure to find it.
pub fn local_ip_address_result(local: Option<Ipv4>) -> (r: Result<String, String>)
    ensures
        match local {
            Some(ip) => r matches Ok(t) && t@ == ipv4_chars(ip),
            None => r matches Err(e) && e@ == "Could not determine local IP"@,
        },
{
    match local {
        Some(ip) => Ok(ipv4_text(ip)),
        None => Err(String::from_str("Could not determine local IP")),
    }
}

/// The port a controller uses when none is given.
pub open spec fn remote_port_or_default(port: Option<u16>) -> u16 {
    match port {
        Some(p) => p,
        None => REMOTE_CONTROL_PORT,
    }
}

/// The port of a remote-control server, the default one when none is given.
pub fn remote_port(port: Option<u16>) -> (r: u16)
    ensures
        r == remote_port_or_default(port),
{
    match port {
        Some(p) => p,
        None => REMOTE_CONTROL_PORT,
    }
}

/// Text `ip:port`.
pub open spec fn endpoint_chars(ip: Seq<char>, port: u16) -> Seq<char> {
    ip + seq![':'] + dec_chars(port as nat)
}

/// Text `ip:port`.
pub fn endpoint_text(ip: &str, port: u16) -> (r: String)
    ensures
        r@ == endpoint_chars(ip@, port),
{
    proof { reveal_strlit(":"); }
    let mut s = String::from_str(ip);
    s.append(":");
    s.append(decimal_text(port as u32).as_str());
    s
}

/// The WebSocket URL of the remote-control server of `ip`, `ws://ip:port`,
/// with the default port when none is given.
pub fn get_remote_control_url(ip: &str, port: Option<u16>) -> (r: String)
    ensures
        r@ == "ws://"@ + endpoint_chars(ip@, remote_port_or_default(port)),
{
    String::from_str("ws://").concat(endpoint_text(ip, remote_port(port)).as_str())
}

/// The result of probing the remote-control server at `ip:port`;
/// `connect_error` holds the connection's error text if it failed.
pub fn remote_control_available_result(ip: &str, port: u16, connect_error: Option<String>) -> (r:
    RemoteConnectionResult)
    ensures
        r.success == (connect_error is None),
        match connect_error {
            None => r.message@ == "Remote control available at "@ + endpoint_chars(ip@, port),
            Some(e) => r.message@ == "Cannot connect: "@ + e@,
        },
{
    match connect_error {
        None => RemoteConnectionResult {
            success: true,
            message: String::from_str("Remote control available at ").concat(
                endpoint_text(ip, port).as_str(),
            ),
        },
        Some(e) => RemoteConnectionResult {
            success: false,
            message: String::from_str("Cannot connect: ").concat(e.as_str()),
        },
    }
}

/// The status of a room computer, from whether one of its ports answered.
pub fn computer_status_result(ip: String, alive: bool) -> (r: RemoteCommandResult)
    ensures
        r.success == alive,
        r.ip@ == ip@,
        r.message@ == if alive {
            "Online"@
        } else {
            "Offline"@
        },
{
    RemoteCommandResult {
        success: alive,
        message: if alive {
            String::from_str("Online")
        } else {
            String::from_str("Offline")
        },
        ip,
    }
}

} // verus!

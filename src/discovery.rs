//! UDP discovery: the beacons an advertiser emits, how a seeker reads them,
//! and the list of peers a seek window collects.

use vstd::prelude::*;
use vstd::string::StrSliceExecFns;
use crate::commands::DiscoveryResult;
use crate::text::{
    decimal_text, dec_chars, lemma_dec_chars, lemma_split_append_plain, lemma_split_push_sep,
    parse_u16, parse_u16_spec, split_where,     all_dec_digits, is_dec_digit,
};

verus! {

/// UDP port that beacons and solicitations are sent to.
pub const DISCOVERY_PORT: u16 = 5959;

/// Default TCP port of the remote-control server.
pub const REMOTE_CONTROL_PORT: u16 = 5960;

/// Delay between two beacons of an advertiser.
pub const BROADCAST_INTERVAL_MS: u64 = 2000;

/// Length of a seek window when looking for a teacher node.
pub const SERVER_SEEK_WINDOW_MS: u64 = 5000;

/// Length of a seek window when looking for remote-control peers.
pub const PEER_SEEK_WINDOW_MS: u64 = 3000;

/// Largest datagram a seeker reads.
pub const MAX_DATAGRAM_LEN: usize = 256;

/// The tag that starts every beacon.
pub open spec fn magic_chars() -> Seq<char> {
    "SMARTLAB_SERVER"@
}

/// The probe a seeker broadcasts; it differs from the beacon tag.
pub open spec fn solicitation_chars() -> Seq<char> {
    "SMARTLAB_DISCOVER"@
}

/// The tag that starts every beacon.
pub fn discovery_magic() -> (r: &'static str)
    ensures
        r@ == magic_chars(),
{
    "SMARTLAB_SERVER"
}

/// The probe a seeker broadcasts.
pub fn discovery_request() -> (r: &'static str)
    ensures
        r@ == solicitation_chars(),
{
    "SMARTLAB_DISCOVER"
}

/// An IPv4 address as its four octets.
#[derive(Clone, Copy, Debug, PartialEq, Eq, Structural)]
pub struct Ipv4 {
    pub a: u8,
    pub b: u8,
    pub c: u8,
    pub d: u8,
}

/// Dotted-decimal text of an address.
pub open spec fn ipv4_chars(ip: Ipv4) -> Seq<char> {
    dec_chars(ip.a as nat) + seq!['.'] + dec_chars(ip.b as nat) + seq!['.'] + dec_chars(
        ip.c as nat,
    ) + seq!['.'] + dec_chars(ip.d as nat)
}

/// Text of this node's address, empty when it has none.
pub open spec fn local_ip_chars(local: Option<Ipv4>) -> Seq<char> {
    match local {
        Some(ip) => ipv4_chars(ip),
        None => Seq::empty(),
    }
}

/// The limited broadcast address.
pub open spec fn limited_broadcast() -> Ipv4 {
    Ipv4 { a: 255, b: 255, c: 255, d: 255 }
}

/// The subnet-directed broadcast address of a /24 network.
pub open spec fn subnet_broadcast_spec(ip: Ipv4) -> Ipv4 {
    Ipv4 { a: ip.a, b: ip.b, c: ip.c, d: 255 }
}

/// Beacon of a teacher node: `MAGIC|ip`.
pub open spec fn server_beacon_chars(local: Option<Ipv4>) -> Seq<char> {
    magic_chars() + seq!['|'] + local_ip_chars(local)
}

/// Beacon of a remote-control host: `MAGIC|ip|port`.
pub open spec fn remote_beacon_chars(local: Option<Ipv4>, port: u16) -> Seq<char> {
    magic_chars() + seq!['|'] + local_ip_chars(local) + seq!['|'] + dec_chars(port as nat)
}

pub open spec fn field_separator() -> spec_fn(char) -> bool {
    |c: char| c == '|'
}

pub open spec fn has_magic_prefix(msg: Seq<char>) -> bool {
    msg.len() >= magic_chars().len() && msg.subrange(0, magic_chars().len() as int)
        == magic_chars()
}

/// Port named by the third field, or the default port when it is missing or
/// does not read as a port.
pub open spec fn beacon_port(parts: Seq<Seq<char>>) -> u16 {
    if parts.len() >= 3 {
        match parse_u16_spec(parts[2]) {
            Some(p) => p,
            None => REMOTE_CONTROL_PORT,
        }
    } else {
        REMOTE_CONTROL_PORT
    }
}

/// What a seeker reads from a datagram: it must start with the tag and hold
/// at least two `|`-separated fields; the second is the address and the
/// third, if any, the port.
pub open spec fn parse_beacon_spec(msg: Seq<char>) -> Option<(Seq<char>, u16)> {
    let parts = split_where(msg, field_separator());
    if has_magic_prefix(msg) && parts.len() >= 2 {
        Some((parts[1], beacon_port(parts)))
    } else {
        None
    }
}

/// Dotted-decimal text of `ip`.
pub fn ipv4_text(ip: Ipv4) -> (r: String)
    ensures
        r@ == ipv4_chars(ip),
{
    proof { reveal_strlit("."); }
    let mut s = decimal_text(ip.a as u32);
    s.append(".");
    s.append(decimal_text(ip.b as u32).as_str());
    s.append(".");
    s.append(decimal_text(ip.c as u32).as_str());
    s.append(".");
    s.append(decimal_text(ip.d as u32).as_str());
    s
}

/// Text of this node's address, empty when it has none.
pub fn local_ip_text(local: Option<Ipv4>) -> (r: String)
    ensures
        r@ == local_ip_chars(local),
{
    match local {
        Some(ip) => ipv4_text(ip),
        None => String::new(),
    }
}

/// The subnet-directed broadcast address `a.b.c.255` of `ip`.
pub fn subnet_broadcast(ip: Ipv4) -> (r: Ipv4)
    ensures
        r == subnet_broadcast_spec(ip),
{
    Ipv4 { a: ip.a, b: ip.b, c: ip.c, d: 255 }
}

/// Where beacons and solicitations go: the limited broadcast address, then
/// the subnet-directed one when this node knows its address.
pub fn broadcast_targets(local: Option<Ipv4>) -> (r: Vec<Ipv4>)
    ensures
        r@ == match local {
            Some(ip) => seq![limited_broadcast(), subnet_broadcast_spec(ip)],
            None => seq![limited_broadcast()],
        },
{
    let mut v: Vec<Ipv4> = Vec::new();
    v.push(Ipv4 { a: 255, b: 255, c: 255, d: 255 });
    match local {
        Some(ip) => {
            v.push(subnet_broadcast(ip));
        },
        None => {},
    }
    v
}

/// Beacon of a teacher node.
pub fn server_beacon(local: Option<Ipv4>) -> (r: String)
    ensures
        r@ == server_beacon_chars(local),
{
    proof { reveal_strlit("|"); }
    let mut s = String::from_str(discovery_magic());
    s.append("|");
    s.append(local_ip_text(local).as_str());
    s
}

/// Beacon of a remote-control host listening on `port`.
pub fn remote_beacon(local: Option<Ipv4>, port: u16) -> (r: String)
    ensures
        r@ == remote_beacon_chars(local, port),
{
    proof { reveal_strlit("|"); }
    let mut s = String::from_str(discovery_magic());
    s.append("|");
    s.append(local_ip_text(local).as_str());
    s.append("|");
    s.append(decimal_text(port as u32).as_str());
    s
}

/// Whether `msg` starts with the beacon tag.
pub fn has_magic(msg: &str) -> (r: bool)
    ensures
        r == has_magic_prefix(msg@),
{
    let magic = discovery_magic();
    let m = magic.unicode_len();
    let n = msg.unicode_len();
    if n < m {
        return false;
    }
    let mut i: usize = 0;
    while i < m
        invariant
            i <= m,
            m == magic_chars().len(),
            m <= n,
            n == msg@.len(),
            magic@ == magic_chars(),
            msg@.subrange(0, i as int) == magic_chars().subrange(0, i as int),
        decreases m - i,
    {
        if msg.get_char(i) != magic.get_char(i) {
            assert(msg@.subrange(0, m as int)[i as int] != magic_chars()[i as int]);
            return false;
        }
        assert(msg@.subrange(0, i + 1) =~= msg@.subrange(0, i as int).push(msg@[i as int]));
        assert(magic_chars().subrange(0, i + 1) =~= magic_chars().subrange(0, i as int).push(
            magic_chars()[i as int],
        ));
        i = i + 1;
    }
    assert(magic_chars().subrange(0, m as int) =~= magic_chars());
    true
}

/// The address and port a beacon advertises.
#[derive(Debug)]
pub struct Beacon {
    pub ip: String,
    pub port: u16,
}

/// Reads a received datagram as a beacon, as a seeker does.
pub fn parse_beacon(msg: &str) -> (r: Option<Beacon>)
    ensures
        match r {
            Some(b) => parse_beacon_spec(msg@) == Some((b.ip@, b.port)),
            None => parse_beacon_spec(msg@) is None,
        },
{
    if !has_magic(msg) {
        return None;
    }
    let n = msg.unicode_len();
    let mut count: usize = 0;
    let mut cur: Vec<char> = Vec::new();
    let mut cur_start: usize = 0;
    let mut ip_start: usize = 0;
    let mut ip_end: usize = 0;
    let mut port_field: Vec<char> = Vec::new();
    let mut i: usize = 0;
    assert(msg@.subrange(0, 0) =~= Seq::<char>::empty());
    while i < n
        invariant
            i <= n,
            n == msg@.len(),
            count <= i,
            cur_start <= i,
            cur@ == msg@.subrange(cur_start as int, i as int),
            split_where(msg@.subrange(0, i as int), field_separator()).len() == count + 1,
            cur@ == split_where(msg@.subrange(0, i as int), field_separator()).last(),
            count >= 2 ==> ip_start <= ip_end <= i && msg@.subrange(ip_start as int, ip_end as int)
                == split_where(msg@.subrange(0, i as int), field_separator())[1],
            count >= 3 ==> port_field@ == split_where(
                msg@.subrange(0, i as int),
                field_separator(),
            )[2],
        decreases n - i,
    {
        let c = msg.get_char(i);
        let ghost pre = msg@.subrange(0, i as int);
        let ghost post = msg@.subrange(0, i + 1);
        let ghost parts = split_where(pre, field_separator());
        assert(post.drop_last() =~= pre);
        assert(post.last() == c);
        if c == '|' {
            assert(split_where(post, field_separator()) == parts.push(Seq::<char>::empty()));
            if count == 1 {
                ip_start = cur_start;
                ip_end = i;
            } else if count == 2 {
                port_field = cur;
            }
            cur = Vec::new();
            cur_start = i + 1;
            count = count + 1;
            assert(cur@ =~= msg@.subrange(cur_start as int, i + 1));
        } else {
            assert(split_where(post, field_separator()) == parts.update(
                parts.len() - 1,
                parts.last().push(c),
            ));
            cur.push(c);
            assert(cur@ =~= msg@.subrange(cur_start as int, i + 1));
        }
        i = i + 1;
    }
    assert(msg@.subrange(0, n as int) =~= msg@);
    if count == 0 {
        return None;
    }
    let ip = if count == 1 {
        String::from_str(msg.substring_char(cur_start, n))
    } else {
        String::from_str(msg.substring_char(ip_start, ip_end))
    };
    let port = if count >= 2 {
        let port_chars = if count == 2 {
            &cur
        } else {
            &port_field
        };
        match parse_u16(port_chars) {
            Some(p) => p,
            None => REMOTE_CONTROL_PORT,
        }
    } else {
        REMOTE_CONTROL_PORT
    };
    Some(Beacon { ip, port })
}

/// No character of the text is a field separator.
pub open spec fn no_separator(s: Seq<char>) -> bool {
    forall|i: int| 0 <= i < s.len() ==> !(field_separator())(#[trigger] s[i])
}

proof fn lemma_digits_no_separator(s: Seq<char>)
    requires
        all_dec_digits(s),
    ensures
        no_separator(s),
{
    assert forall|i: int| 0 <= i < s.len() implies !(field_separator())(#[trigger] s[i]) by {
        assert(is_dec_digit(s[i]));
    }
}

proof fn lemma_ipv4_no_separator(local: Option<Ipv4>)
    ensures
        no_separator(local_ip_chars(local)),
{
    if let Some(ip) = local {
        lemma_dec_chars(ip.a as nat);
        lemma_dec_chars(ip.b as nat);
        lemma_dec_chars(ip.c as nat);
        lemma_dec_chars(ip.d as nat);
        lemma_digits_no_separator(dec_chars(ip.a as nat));
        lemma_digits_no_separator(dec_chars(ip.b as nat));
        lemma_digits_no_separator(dec_chars(ip.c as nat));
        lemma_digits_no_separator(dec_chars(ip.d as nat));
        let t = ipv4_chars(ip);
        assert forall|i: int| 0 <= i < t.len() implies !(field_separator())(#[trigger] t[i]) by {
            let a = dec_chars(ip.a as nat);
            let b = dec_chars(ip.b as nat);
            let c = dec_chars(ip.c as nat);
            let d = dec_chars(ip.d as nat);
            if i < a.len() {
                assert(t[i] == a[i]);
            } else if i == a.len() {
                assert(t[i] == '.');
            } else if i < a.len() + 1 + b.len() {
                assert(t[i] == b[i - a.len() - 1]);
            } else if i == a.len() + 1 + b.len() {
                assert(t[i] == '.');
            } else if i < a.len() + 2 + b.len() + c.len() {
                assert(t[i] == c[i - a.len() - b.len() - 2]);
            } else if i == a.len() + 2 + b.len() + c.len() {
                assert(t[i] == '.');
            } else {
                assert(t[i] == d[i - a.len() - b.len() - c.len() - 3]);
            }
        }
    }
}

/// Every beacon a remote-control host emits reads back, with the seeker's
/// parser, as the host's own address and remote-control port.
pub proof fn lemma_beacon_round_trip(local: Option<Ipv4>, port: u16)
    ensures
        parse_beacon_spec(remote_beacon_chars(local, port)) == Some((local_ip_chars(local), port)),
{
    let sep = field_separator();
    let m = magic_chars();
    let ip = local_ip_chars(local);
    let d = dec_chars(port as nat);
    let msg = remote_beacon_chars(local, port);
    reveal_strlit("SMARTLAB_SERVER");
    assert(no_separator(m));
    lemma_ipv4_no_separator(local);
    lemma_dec_chars(port as nat);
    lemma_digits_no_separator(d);
    let e = Seq::<char>::empty();
    lemma_split_append_plain(e, sep, m);
    assert(e + m =~= m);
    assert(split_where(m, sep) =~= seq![m]);
    lemma_split_push_sep(m, sep, '|');
    let m1 = m.push('|');
    assert(split_where(m1, sep) =~= seq![m, e]);
    lemma_split_append_plain(m1, sep, ip);
    assert(split_where(m1 + ip, sep) =~= seq![m, ip]);
    lemma_split_push_sep(m1 + ip, sep, '|');
    let m2 = (m1 + ip).push('|');
    assert(split_where(m2, sep) =~= seq![m, ip, e]);
    lemma_split_append_plain(m2, sep, d);
    assert(m2 + d =~= msg);
    let parts = split_where(msg, sep);
    assert(parts =~= seq![m, ip, d]);
    assert(msg.subrange(0, m.len() as int) =~= m);
    assert(d[0] != '+');
    assert(crate::text::unsigned_digits(d) == d);
    assert(parse_u16_spec(d) == Some(port));
}

/// A node found by a seek window.
#[derive(Debug, Clone)]
pub struct DiscoveredPeer {
    pub ip: String,
    pub remote_port: u16,
    pub available: bool,
}

/// The address and port of each peer, in order.
pub open spec fn peers_view(peers: Seq<DiscoveredPeer>) -> Seq<(Seq<char>, u16)> {
    peers.map_values(|p: DiscoveredPeer| (p.ip@, p.remote_port))
}

pub open spec fn has_peer_ip(acc: Seq<(Seq<char>, u16)>, ip: Seq<char>) -> bool {
    exists|i: int| 0 <= i < acc.len() && (#[trigger] acc[i]).0 == ip
}

/// The list after one more datagram: a beacon adds its peer unless the
/// address is this node's own or is already listed.
pub open spec fn seek_step(acc: Seq<(Seq<char>, u16)>, msg: Seq<char>, local_ip: Seq<char>) -> Seq<
    (Seq<char>, u16),
> {
    match parse_beacon_spec(msg) {
        Some((ip, port)) => if ip == local_ip || has_peer_ip(acc, ip) {
            acc
        } else {
            acc.push((ip, port))
        },
        None => acc,
    }
}

/// The list a seek window reports after receiving `msgs`, in order.
pub open spec fn seek_result(msgs: Seq<Seq<char>>, local_ip: Seq<char>) -> Seq<(Seq<char>, u16)>
    decreases msgs.len(),
{
    if msgs.len() == 0 {
        Seq::empty()
    } else {
        seek_step(seek_result(msgs.drop_last(), local_ip), msgs.last(), local_ip)
    }
}

/// Adds the peer that `msg` advertises to the list of a seek window, unless
/// it is this node (address `local_ip`) or already listed.
pub fn record_beacon(peers: &mut Vec<DiscoveredPeer>, msg: &str, local_ip: &String)
    ensures
        peers_view(final(peers)@) == seek_step(peers_view(old(peers)@), msg@, local_ip@),
        final(peers)@.len() >= old(peers)@.len(),
        forall|i: int| 0 <= i < old(peers)@.len() ==> final(peers)@[i] == old(peers)@[i],
        forall|i: int| old(peers)@.len() <= i < final(peers)@.len() ==> final(peers)@[i].available,
{
    let ghost acc = peers_view(peers@);
    match parse_beacon(msg) {
        None => {},
        Some(b) => {
            if b.ip == *local_ip {
                return;
            }
            let mut j: usize = 0;
            while j < peers.len()
                invariant
                    j <= peers@.len(),
                    acc == peers_view(peers@),
                    parse_beacon_spec(msg@) == Some((b.ip@, b.port)),
                    b.ip@ != local_ip@,
                    forall|k: int| 0 <= k < j ==> peers@[k].ip@ != b.ip@,
                decreases peers@.len() - j,
            {
                if peers[j].ip == b.ip {
                    assert(acc[j as int].0 == b.ip@);
                    assert(has_peer_ip(acc, b.ip@));
                    assert(seek_step(acc, msg@, local_ip@) == acc);
                    return;
                }
                j = j + 1;
            }
            assert(!has_peer_ip(acc, b.ip@)) by {
                if has_peer_ip(acc, b.ip@) {
                    let k = choose|k: int| 0 <= k < acc.len() && (#[trigger] acc[k]).0 == b.ip@;
                    assert(peers@[k].ip@ == b.ip@);
                }
            }
            peers.push(DiscoveredPeer { ip: b.ip, remote_port: b.port, available: true });
            assert(peers_view(peers@) =~= acc.push((b.ip@, b.port)));
        },
    }
}

/// A seek window never lists this node's own address, and never lists an
/// address twice.
pub proof fn lemma_seek_excludes_self(msgs: Seq<Seq<char>>, local_ip: Seq<char>)
    ensures
        forall|i: int|
            0 <= i < seek_result(msgs, local_ip).len() ==> (#[trigger] seek_result(
                msgs,
                local_ip,
            )[i]).0 != local_ip,
        forall|i: int, j: int|
            0 <= i < j < seek_result(msgs, local_ip).len() ==> (#[trigger] seek_result(
                msgs,
                local_ip,
            )[i]).0 != (#[trigger] seek_result(msgs, local_ip)[j]).0,
    decreases msgs.len(),
{
    if msgs.len() > 0 {
        lemma_seek_excludes_self(msgs.drop_last(), local_ip);
        let prev = seek_result(msgs.drop_last(), local_ip);
        let cur = seek_result(msgs, local_ip);
        assert(cur == seek_step(prev, msgs.last(), local_ip));
        match parse_beacon_spec(msgs.last()) {
            Some((ip, port)) => {
                if !(ip == local_ip || has_peer_ip(prev, ip)) {
                    assert(cur == prev.push((ip, port)));
                    assert forall|i: int, j: int| 0 <= i < j < cur.len() implies (#[trigger] cur[i]).0
                        != (#[trigger] cur[j]).0 by {
                        if j == prev.len() {
                            assert(cur[i] == prev[i]);
                        } else {
                            assert(cur[i] == prev[i]);
                            assert(cur[j] == prev[j]);
                        }
                    }
                    assert forall|i: int| 0 <= i < cur.len() implies (#[trigger] cur[i]).0
                        != local_ip by {
                        if i < prev.len() {
                            assert(cur[i] == prev[i]);
                        }
                    }
                }
            },
            None => {},
        }
    }
}

/// The result of a seek for a teacher node whose window received `msg` from
/// the host `sender_ip`: `None` when `msg` is no beacon or advertises this
/// node's own address `local_ip`.
pub fn server_found(msg: &str, sender_ip: &str, local_ip: &String) -> (r: Option<DiscoveryResult>)
    ensures
        match parse_beacon_spec(msg@) {
            Some((ip, _)) => if ip == local_ip@ {
                r is None
            } else {
                r matches Some(d) && d.found && (d.server_ip matches Some(s) && s@ == ip)
                    && d.message@ == "Found server at "@ + sender_ip@
            },
            None => r is None,
        },
{
    match parse_beacon(msg) {
        None => None,
        Some(b) => {
            if b.ip == *local_ip {
                None
            } else {
                Some(
                    DiscoveryResult {
                        found: true,
                        server_ip: Some(b.ip),
                        message: String::from_str("Found server at ").concat(sender_ip),
                    },
                )
            }
        },
    }
}

/// The datagrams' texts.
pub open spec fn texts_of(msgs: Seq<String>) -> Seq<Seq<char>> {
    msgs.map_values(|m: String| m@)
}

/// The peers a seek window reports after receiving the datagrams `msgs`,
/// in order: never this node's own address `local_ip`, never an address
/// twice, and an empty list when nothing answered.
pub fn collect_peers(msgs: &Vec<String>, local_ip: &String) -> (r: Vec<DiscoveredPeer>)
    ensures
        peers_view(r@) == seek_result(texts_of(msgs@), local_ip@),
        forall|i: int| 0 <= i < r@.len() ==> (#[trigger] r@[i]).ip@ != local_ip@ && r@[i].available,
        forall|i: int, j: int| 0 <= i < j < r@.len() ==> (#[trigger] r@[i]).ip@ != (#[trigger] r@[j]).ip@,
        msgs@.len() == 0 ==> r@.len() == 0,
{
    let mut peers: Vec<DiscoveredPeer> = Vec::new();
    let mut k: usize = 0;
    while k < msgs.len()
        invariant
            k <= msgs@.len(),
            peers_view(peers@) == seek_result(texts_of(msgs@).subrange(0, k as int), local_ip@),
            forall|i: int| 0 <= i < peers@.len() ==> (#[trigger] peers@[i]).available,
        decreases msgs@.len() - k,
    {
        let ghost sub = texts_of(msgs@).subrange(0, k + 1);
        assert(sub.drop_last() =~= texts_of(msgs@).subrange(0, k as int));
        assert(sub.last() == msgs@[k as int]@);
        record_beacon(&mut peers, msgs[k].as_str(), local_ip);
        k = k + 1;
    }
    assert(texts_of(msgs@).subrange(0, msgs@.len() as int) =~= texts_of(msgs@));
    proof {
        let res = seek_result(texts_of(msgs@), local_ip@);
        lemma_seek_excludes_self(texts_of(msgs@), local_ip@);
        assert forall|i: int| 0 <= i < peers@.len() implies (#[trigger] peers@[i]).ip@ != local_ip@
            && peers@[i].available by {
            assert(peers_view(peers@)[i] == res[i]);
        }
        assert forall|i: int, j: int| 0 <= i < j < peers@.len() implies (#[trigger] peers@[i]).ip@
            != (#[trigger] peers@[j]).ip@ by {
            assert(peers_view(peers@)[i] == res[i]);
            assert(peers_view(peers@)[j] == res[j]);
        }
    }
    peers
}

/// The result of a seek for a teacher node whose window closed without a
/// beacon.
pub fn server_not_found() -> (r: DiscoveryResult)
    ensures
        !r.found,
        r.server_ip is None,
        r.message@ == "No server found"@,
{
    DiscoveryResult { found: false, server_ip: None, message: String::from_str("No server found") }
}

} // verus!

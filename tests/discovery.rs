use smartlab::discovery::{
    broadcast_targets, collect_peers, ipv4_text, local_ip_text, parse_beacon, record_beacon, remote_beacon,
    server_beacon, server_found, server_not_found, subnet_broadcast, DiscoveredPeer, Ipv4,
    DISCOVERY_PORT, REMOTE_CONTROL_PORT,
};

fn ip(a: u8, b: u8, c: u8, d: u8) -> Ipv4 {
    Ipv4 { a, b, c, d }
}

#[test]
fn ipv4_text_is_dotted_decimal() {
    assert_eq!(ipv4_text(ip(192, 168, 1, 10)), "192.168.1.10");
    assert_eq!(ipv4_text(ip(0, 0, 0, 0)), "0.0.0.0");
    assert_eq!(ipv4_text(ip(255, 255, 255, 255)), "255.255.255.255");
    assert_eq!(local_ip_text(None), "");
}

#[test]
fn beacons_have_the_wire_format() {
    assert_eq!(server_beacon(Some(ip(192, 168, 1, 10))), "SMARTLAB_SERVER|192.168.1.10");
    assert_eq!(remote_beacon(Some(ip(192, 168, 1, 10)), 5960), "SMARTLAB_SERVER|192.168.1.10|5960");
    assert_eq!(remote_beacon(None, 7), "SMARTLAB_SERVER||7");
    assert_eq!(DISCOVERY_PORT, 5959);
}

#[test]
fn emitted_beacon_parses_back() {
    for (addr, port) in [(ip(192, 168, 1, 10), 5960u16), (ip(10, 0, 0, 1), 0), (ip(172, 16, 5, 200), 65535)] {
        let b = parse_beacon(&remote_beacon(Some(addr), port)).unwrap();
        assert_eq!(b.ip, ipv4_text(addr));
        assert_eq!(b.port, port);
    }
    let b = parse_beacon(&remote_beacon(None, 6000)).unwrap();
    assert_eq!(b.ip, "");
    assert_eq!(b.port, 6000);
}

#[test]
fn server_beacon_parses_with_default_port() {
    let b = parse_beacon(&server_beacon(Some(ip(192, 168, 1, 10)))).unwrap();
    assert_eq!(b.ip, "192.168.1.10");
    assert_eq!(b.port, REMOTE_CONTROL_PORT);
}

#[test]
fn non_beacons_are_rejected() {
    assert!(parse_beacon("SMARTLAB_DISCOVER").is_none());
    assert!(parse_beacon("SMARTLAB_SERVER").is_none());
    assert!(parse_beacon("").is_none());
    assert!(parse_beacon("OTHER|192.168.1.10|5960").is_none());
    assert!(parse_beacon("smartlab_server|1.2.3.4").is_none());
}

#[test]
fn bad_port_field_gives_default_port() {
    let b = parse_beacon("SMARTLAB_SERVER|1.2.3.4|notaport").unwrap();
    assert_eq!(b.port, 5960);
    let b = parse_beacon("SMARTLAB_SERVER|1.2.3.4|70000").unwrap();
    assert_eq!(b.port, 5960);
    let b = parse_beacon("SMARTLAB_SERVER|1.2.3.4|+80|extra").unwrap();
    assert_eq!(b.port, 80);
    assert_eq!(b.ip, "1.2.3.4");
}

#[test]
fn broadcast_goes_to_limited_and_subnet() {
    let t = broadcast_targets(Some(ip(192, 168, 1, 20)));
    assert_eq!(t, vec![ip(255, 255, 255, 255), ip(192, 168, 1, 255)]);
    assert_eq!(broadcast_targets(None), vec![ip(255, 255, 255, 255)]);
    assert_eq!(subnet_broadcast(ip(10, 1, 2, 3)), ip(10, 1, 2, 255));
}

#[test]
fn seek_collects_advertiser_peer() {
    // Advertiser 192.168.1.10:5960 seen by a seeker on 192.168.1.20; the
    // beacon arrives twice, once per broadcast address.
    let beacon = remote_beacon(Some(ip(192, 168, 1, 10)), 5960);
    let local = "192.168.1.20".to_string();
    let mut peers: Vec<DiscoveredPeer> = Vec::new();
    record_beacon(&mut peers, &beacon, &local);
    record_beacon(&mut peers, &beacon, &local);
    assert_eq!(peers.len(), 1);
    assert_eq!(peers[0].ip, "192.168.1.10");
    assert_eq!(peers[0].remote_port, 5960);
    assert!(peers[0].available);
}

#[test]
fn seek_excludes_own_beacon() {
    let local = "192.168.1.20".to_string();
    let mut peers: Vec<DiscoveredPeer> = Vec::new();
    record_beacon(&mut peers, &remote_beacon(Some(ip(192, 168, 1, 20)), 5960), &local);
    assert!(peers.is_empty());
    record_beacon(&mut peers, &remote_beacon(Some(ip(192, 168, 1, 30)), 6000), &local);
    record_beacon(&mut peers, &remote_beacon(Some(ip(192, 168, 1, 20)), 5960), &local);
    assert_eq!(peers.len(), 1);
    assert_eq!(peers[0].ip, "192.168.1.30");
    assert_eq!(peers[0].remote_port, 6000);
}

#[test]
fn seek_with_no_responders_is_empty() {
    let local = "192.168.1.20".to_string();
    let mut peers: Vec<DiscoveredPeer> = Vec::new();
    record_beacon(&mut peers, "SMARTLAB_DISCOVER", &local);
    record_beacon(&mut peers, "noise", &local);
    assert!(peers.is_empty());
    let r = server_not_found();
    assert!(!r.found);
    assert!(r.server_ip.is_none());
    assert_eq!(r.message, "No server found");
}

#[test]
fn seek_keeps_first_port_for_duplicate_ip() {
    let local = String::new();
    let mut peers: Vec<DiscoveredPeer> = Vec::new();
    record_beacon(&mut peers, "SMARTLAB_SERVER|10.0.0.5|7000", &local);
    record_beacon(&mut peers, "SMARTLAB_SERVER|10.0.0.5|8000", &local);
    record_beacon(&mut peers, "SMARTLAB_SERVER|10.0.0.6", &local);
    assert_eq!(peers.len(), 2);
    assert_eq!(peers[0].remote_port, 7000);
    assert_eq!(peers[1].ip, "10.0.0.6");
    assert_eq!(peers[1].remote_port, 5960);
}

#[test]
fn server_found_reports_beacon_address() {
    let local = "192.168.1.20".to_string();
    let r = server_found("SMARTLAB_SERVER|192.168.1.10", "192.168.1.10", &local).unwrap();
    assert!(r.found);
    assert_eq!(r.server_ip.as_deref(), Some("192.168.1.10"));
    assert_eq!(r.message, "Found server at 192.168.1.10");
    assert!(server_found("hello", "1.1.1.1", &local).is_none());
}

#[test]
fn server_found_ignores_own_beacon() {
    let local = "192.168.1.20".to_string();
    assert!(server_found("SMARTLAB_SERVER|192.168.1.20", "192.168.1.20", &local).is_none());
}

#[test]
fn collect_peers_over_a_window() {
    let local = "192.168.1.20".to_string();
    let msgs = vec![
        remote_beacon(Some(ip(192, 168, 1, 20)), 5960),
        "noise".to_string(),
        remote_beacon(Some(ip(192, 168, 1, 10)), 5960),
        remote_beacon(Some(ip(192, 168, 1, 10)), 5960),
        remote_beacon(Some(ip(192, 168, 1, 11)), 6001),
    ];
    let peers = collect_peers(&msgs, &local);
    assert_eq!(peers.len(), 2);
    assert_eq!(peers[0].ip, "192.168.1.10");
    assert_eq!(peers[1].ip, "192.168.1.11");
    assert_eq!(peers[1].remote_port, 6001);
    assert!(collect_peers(&Vec::new(), &local).is_empty());
}

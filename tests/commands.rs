use smartlab::commands::{
    computer_status_result, get_remote_control_url, local_ip_address_result, network_range,
    ping_ports, remote_control_available_result, remote_port, scan_ports, scan_report,
};
use smartlab::discovery::Ipv4;

#[test]
fn remote_control_url() {
    assert_eq!(get_remote_control_url("192.168.1.10", None), "ws://192.168.1.10:5960");
    assert_eq!(get_remote_control_url("10.0.0.2", Some(7000)), "ws://10.0.0.2:7000");
    assert_eq!(remote_port(None), 5960);
    assert_eq!(remote_port(Some(1)), 1);
}

#[test]
fn availability_results() {
    let ok = remote_control_available_result("10.0.0.2", 5960, None);
    assert!(ok.success);
    assert_eq!(ok.message, "Remote control available at 10.0.0.2:5960");
    let bad = remote_control_available_result("10.0.0.2", 5960, Some("refused".to_string()));
    assert!(!bad.success);
    assert_eq!(bad.message, "Cannot connect: refused");
}

#[test]
fn computer_status() {
    let on = computer_status_result("1.2.3.4".to_string(), true);
    assert!(on.success);
    assert_eq!(on.message, "Online");
    assert_eq!(on.ip, "1.2.3.4");
    assert_eq!(computer_status_result("1.2.3.4".to_string(), false).message, "Offline");
}

#[test]
fn scan_range_and_ports() {
    let r = network_range(Ipv4 { a: 192, b: 168, c: 1, d: 77 });
    assert_eq!(r.len(), 254);
    assert_eq!(r[0], Ipv4 { a: 192, b: 168, c: 1, d: 1 });
    assert_eq!(r[253], Ipv4 { a: 192, b: 168, c: 1, d: 254 });
    assert_eq!(scan_ports(), vec![80, 443, 22, 445, 139, 3389, 8080]);
    assert_eq!(ping_ports(), vec![80, 443, 22, 445, 139, 3389, 8080, 53]);
}

#[test]
fn scan_report_is_sorted_by_octets() {
    let hosts = network_range(Ipv4 { a: 10, b: 0, c: 0, d: 1 });
    let mut alive = vec![false; 254];
    alive[99] = true;
    alive[1] = true;
    alive[10] = true;
    let rep = scan_report(&hosts, &alive);
    let ips: Vec<&str> = rep.iter().map(|h| h.ip.as_str()).collect();
    assert_eq!(ips, vec!["10.0.0.2", "10.0.0.11", "10.0.0.100"]);
    assert!(rep.iter().all(|h| h.is_alive && h.hostname.is_none()));
    assert!(scan_report(&hosts, &vec![false; 254]).is_empty());
}

#[test]
fn local_ip_result() {
    assert_eq!(local_ip_address_result(Some(Ipv4 { a: 1, b: 2, c: 3, d: 4 })), Ok("1.2.3.4".to_string()));
    assert_eq!(local_ip_address_result(None), Err("Could not determine local IP".to_string()));
}

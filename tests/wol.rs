use smartlab::wol::{magic_packet, parse_hex_byte, parse_mac, plan_wake_on_lan, wake_on_lan_outcome};

#[test]
fn mac_forms_are_read() {
    assert_eq!(parse_mac("01:02:03:04:05:06"), Some(vec![1, 2, 3, 4, 5, 6]));
    assert_eq!(parse_mac("aa-BB-cc-DD-ee-FF"), Some(vec![0xaa, 0xbb, 0xcc, 0xdd, 0xee, 0xff]));
    assert_eq!(parse_mac("1:2:3:4:5:6"), Some(vec![1, 2, 3, 4, 5, 6]));
}

#[test]
fn mac_with_five_bytes_is_invalid() {
    assert_eq!(parse_mac("01:02:03:04:05"), None);
    let r = plan_wake_on_lan("01:02:03:04:05", None).unwrap_err();
    assert!(!r.success);
    assert_eq!(r.message, "Invalid MAC address format");
    assert_eq!(r.ip, "");
}

#[test]
fn mac_with_unreadable_field_is_invalid() {
    assert_eq!(parse_mac("01:02:zz:03:04:05:06"), None);
    assert_eq!(parse_mac("01:02:03:04:05:GG:06"), None);
    let r = plan_wake_on_lan("01:02:03:04:05:GG:06", None).unwrap_err();
    assert!(!r.success);
    assert_eq!(r.message, "Invalid MAC address format");
    assert_eq!(parse_mac("01:02:03:04:05:06:"), None);
    assert_eq!(parse_mac("01:02:03:04:05:100"), None);
    assert_eq!(parse_mac(""), None);
    assert_eq!(parse_mac("010203040506"), None);
}

#[test]
fn hex_byte_reading() {
    let f = |s: &str| parse_hex_byte(&s.chars().collect());
    assert_eq!(f("ff"), Some(255));
    assert_eq!(f("+a"), Some(10));
    assert_eq!(f("00ff"), Some(255));
    assert_eq!(f("100"), None);
    assert_eq!(f("+"), None);
    assert_eq!(f(""), None);
    assert_eq!(f("-1"), None);
}

#[test]
fn magic_packet_layout() {
    let mac = vec![0xde, 0xad, 0xbe, 0xef, 0x00, 0x01];
    let p = magic_packet(&mac);
    assert_eq!(p.len(), 102);
    assert_eq!(&p[..6], &[0xff; 6]);
    for k in 0..16 {
        assert_eq!(&p[6 + 6 * k..12 + 6 * k], &mac[..]);
    }
}

#[test]
fn wake_on_lan_default_broadcast() {
    let plan = plan_wake_on_lan("01:02:03:04:05:06", None).unwrap();
    assert_eq!(plan.target, "255.255.255.255:9");
    assert_eq!(plan.broadcast, "255.255.255.255");
    let mut expected = vec![0xffu8; 6];
    for _ in 0..16 {
        expected.extend_from_slice(&[1, 2, 3, 4, 5, 6]);
    }
    assert_eq!(plan.packet, expected);
}

#[test]
fn wake_on_lan_given_broadcast_and_outcomes() {
    let plan = plan_wake_on_lan("01-02-03-04-05-06", Some("192.168.1.255".to_string())).unwrap();
    assert_eq!(plan.target, "192.168.1.255:9");
    let ok = wake_on_lan_outcome(plan.broadcast.clone(), None);
    assert!(ok.success);
    assert_eq!(ok.message, "Wake-on-LAN packet sent");
    assert_eq!(ok.ip, "192.168.1.255");
    let bad = wake_on_lan_outcome("1.2.3.4".to_string(), Some("denied".to_string()));
    assert!(!bad.success);
    assert_eq!(bad.message, "Failed to send WoL packet: denied");
}

//! Wake-on-LAN: reading a MAC address and building the magic packet.

use vstd::prelude::*;
use crate::commands::RemoteCommandResult;
use crate::text::{
    all_hex_digits, hex_digit_value, hex_digits_value, is_hex_digit,
    parse_hex_byte_spec, split_where, unsigned_digits,
};

verus! {

/// Separators accepted between the bytes of a MAC address.
pub open spec fn mac_separator() -> spec_fn(char) -> bool {
    |c: char| c == ':' || c == '-'
}

/// The bytes read from the hexadecimal fields that read as a byte, in order.
pub open spec fn parsed_hex_bytes(fields: Seq<Seq<char>>) -> Seq<u8>
    decreases fields.len(),
{
    if fields.len() == 0 {
        Seq::empty()
    } else {
        let rest = parsed_hex_bytes(fields.drop_last());
        match parse_hex_byte_spec(fields.last()) {
            Some(b) => rest.push(b),
            None => rest,
        }
    }
}

/// Whether every field reads as a hexadecimal byte.
pub open spec fn all_fields_bytes(fields: Seq<Seq<char>>) -> bool {
    forall|i: int| 0 <= i < fields.len() ==> (#[trigger] parse_hex_byte_spec(fields[i])) is Some
}

/// The six bytes of a MAC address written as `aa:bb:...` or `aa-bb-...`:
/// the text must split into exactly six fields, each of which reads as a
/// byte; anything else is no MAC address.
pub open spec fn mac_spec(s: Seq<char>) -> Option<Seq<u8>> {
    let fields = split_where(s, mac_separator());
    if fields.len() == 6 && all_fields_bytes(fields) {
        Some(parsed_hex_bytes(fields))
    } else {
        None
    }
}

/// As many bytes as fields exactly when every field reads as a byte.
pub proof fn lemma_parsed_hex_bytes_len(fields: Seq<Seq<char>>)
    ensures
        parsed_hex_bytes(fields).len() <= fields.len(),
        (parsed_hex_bytes(fields).len() == fields.len()) == all_fields_bytes(fields),
    decreases fields.len(),
{
    if fields.len() > 0 {
        let init = fields.drop_last();
        lemma_parsed_hex_bytes_len(init);
        if all_fields_bytes(fields) {
            assert forall|i: int| 0 <= i < init.len() implies (#[trigger] parse_hex_byte_spec(
                init[i],
            )) is Some by {
                assert(init[i] == fields[i]);
            }
            assert(parse_hex_byte_spec(fields[fields.len() - 1]) is Some);
        }
        if parsed_hex_bytes(fields).len() == fields.len() {
            assert(parse_hex_byte_spec(fields.last()) is Some);
            assert forall|i: int| 0 <= i < fields.len() implies (#[trigger] parse_hex_byte_spec(
                fields[i],
            )) is Some by {
                if i < init.len() {
                    assert(init[i] == fields[i]);
                }
            }
        }
    }
}

/// `s` written `n` times in a row.
pub open spec fn repeat_bytes(s: Seq<u8>, n: nat) -> Seq<u8>
    decreases n,
{
    if n == 0 {
        Seq::empty()
    } else {
        repeat_bytes(s, (n - 1) as nat) + s
    }
}

/// Six bytes 0xFF, then the MAC address sixteen times.
pub open spec fn magic_packet_spec(mac: Seq<u8>) -> Seq<u8> {
    Seq::new(6, |i: int| 0xFFu8) + repeat_bytes(mac, 16)
}

/// The UDP port that Wake-on-LAN packets are sent to.
pub const WOL_PORT: u16 = 9;

/// Reads one field as a hexadecimal byte.
pub fn parse_hex_byte(field: &Vec<char>) -> (r: Option<u8>)
    ensures
        r == parse_hex_byte_spec(field@),
{
    let n = field.len();
    let start: usize = if n > 0 && field[0] == '+' { 1 } else { 0 };
    let ghost d = unsigned_digits(field@);
    assert(d =~= field@.subrange(start as int, n as int));
    let mut valid = true;
    let mut value: u32 = 0;
    let mut i = start;
    while i < n
        invariant
            start <= i <= n,
            n == field@.len(),
            d =~= field@.subrange(start as int, n as int),
            valid == all_hex_digits(d.subrange(0, i - start)),
            valid && value < 256 ==> value == hex_digits_value(d.subrange(0, i - start)),
            valid && value >= 256 ==> hex_digits_value(d.subrange(0, i - start)) >= 256,
            value < 4096,
        decreases n - i,
    {
        let c = field[i];
        let ghost prefix = d.subrange(0, i - start);
        let ghost next = d.subrange(0, i + 1 - start);
        assert(next =~= prefix.push(c));
        assert(next.drop_last() =~= prefix);
        if valid {
            let is_digit = ('0' <= c && c <= '9') || ('a' <= c && c <= 'f') || ('A' <= c && c <= 'F');
            if is_digit {
                let dv: u32 = if '0' <= c && c <= '9' {
                    (c as u32) - ('0' as u32)
                } else if 'a' <= c && c <= 'f' {
                    (c as u32) - ('a' as u32) + 10
                } else {
                    (c as u32) - ('A' as u32) + 10
                };
                assert(dv == hex_digit_value(c));
                if value < 256 {
                    value = value * 16 + dv;
                }
                assert(all_hex_digits(next));
            } else {
                valid = false;
                assert(!is_hex_digit(next[i - start]));
            }
        } else {
            proof {
                assert(!all_hex_digits(prefix));
                let k = choose|k: int| 0 <= k < prefix.len() && !is_hex_digit(#[trigger] prefix[k]);
                assert(next[k] == prefix[k]);
            }
        }
        i = i + 1;
    }
    assert(d.subrange(0, n - start) =~= d);
    if valid && n > start && value < 256 {
        Some(value as u8)
    } else {
        None
    }
}

/// Reads a MAC address: the text is split at ':' and '-' into exactly six
/// fields, each a hexadecimal byte.
pub fn parse_mac(mac: &str) -> (r: Option<Vec<u8>>)
    ensures
        match r {
            Some(b) => mac_spec(mac@) == Some(b@) && b@.len() == 6,
            None => mac_spec(mac@) is None,
        },
{
    let n = mac.unicode_len();
    let mut bytes: Vec<u8> = Vec::new();
    let mut cur: Vec<char> = Vec::new();
    let mut count: usize = 0;
    let mut i: usize = 0;
    proof {
        assert(mac@.subrange(0, 0) =~= Seq::<char>::empty());
    }
    while i < n
        invariant
            i <= n,
            n == mac@.len(),
            count <= i,
            split_where(mac@.subrange(0, i as int), mac_separator()).len() == count + 1,
            cur@ == split_where(mac@.subrange(0, i as int), mac_separator()).last(),
            bytes@ == parsed_hex_bytes(
                split_where(mac@.subrange(0, i as int), mac_separator()).drop_last(),
            ),
        decreases n - i,
    {
        let c = mac.get_char(i);
        let ghost pre = mac@.subrange(0, i as int);
        let ghost post = mac@.subrange(0, i + 1);
        let ghost fields = split_where(pre, mac_separator());
        assert(post.drop_last() =~= pre);
        assert(post.last() == c);
        if c == ':' || c == '-' {
            let ghost new_fields = fields.push(Seq::<char>::empty());
            assert(split_where(post, mac_separator()) == new_fields);
            assert(new_fields.drop_last() =~= fields);
            assert(fields =~= fields.drop_last().push(fields.last()));
            match parse_hex_byte(&cur) {
                Some(b) => {
                    bytes.push(b);
                },
                None => {},
            }
            cur = Vec::new();
            count = count + 1;
        } else {
            let ghost new_fields = fields.update(fields.len() - 1, fields.last().push(c));
            assert(split_where(post, mac_separator()) == new_fields);
            assert(new_fields.drop_last() =~= fields.drop_last());
            cur.push(c);
        }
        i = i + 1;
    }
    assert(mac@.subrange(0, n as int) =~= mac@);
    let ghost fields = split_where(mac@, mac_separator());
    assert(fields =~= fields.drop_last().push(fields.last()));
    match parse_hex_byte(&cur) {
        Some(b) => {
            bytes.push(b);
        },
        None => {},
    }
    proof {
        lemma_parsed_hex_bytes_len(fields);
    }
    if count == 5 && bytes.len() == 6 {
        Some(bytes)
    } else {
        None
    }
}

/// The magic packet that wakes the machine with the six-byte address `mac`.
pub fn magic_packet(mac: &Vec<u8>) -> (r: Vec<u8>)
    requires
        mac@.len() == 6,
    ensures
        r@ == magic_packet_spec(mac@),
        r@.len() == 102,
        forall|i: int| 0 <= i < 6 ==> r@[i] == 0xFFu8,
        forall|k: int, j: int| 0 <= k < 16 && 0 <= j < 6 ==> #[trigger] r@[6 + 6 * k + j] == mac@[j],
{
    let mut p: Vec<u8> = Vec::new();
    let mut i: usize = 0;
    while i < 6
        invariant
            i <= 6,
            p@ =~= Seq::new(i as nat, |x: int| 0xFFu8),
        decreases 6 - i,
    {
        p.push(0xFFu8);
        i = i + 1;
    }
    let ghost header = p@;
    let mut k: usize = 0;
    while k < 16
        invariant
            k <= 16,
            mac@.len() == 6,
            header =~= Seq::new(6, |x: int| 0xFFu8),
            p@ =~= header + repeat_bytes(mac@, k as nat),
        decreases 16 - k,
    {
        let ghost before = p@;
        let mut j: usize = 0;
        while j < 6
            invariant
                j <= 6,
                mac@.len() == 6,
                p@ =~= before + mac@.subrange(0, j as int),
            decreases 6 - j,
        {
            p.push(mac[j]);
            j = j + 1;
        }
        assert(mac@.subrange(0, 6) =~= mac@);
        assert(repeat_bytes(mac@, (k + 1) as nat) == repeat_bytes(mac@, k as nat) + mac@);
        k = k + 1;
    }
    proof {
        lemma_repeat_bytes(mac@, 16);
        assert forall|k: int, j: int| 0 <= k < 16 && 0 <= j < 6 implies #[trigger] p@[6 + 6 * k + j]
            == mac@[j] by {
            assert(repeat_bytes(mac@, 16)[k * 6 + j] == mac@[j]);
        }
    }
    p
}

/// Length and contents of `s` repeated `n` times.
pub proof fn lemma_repeat_bytes(s: Seq<u8>, n: nat)
    ensures
        repeat_bytes(s, n).len() == n * s.len(),
        forall|k: int, j: int|
            0 <= k < n && 0 <= j < s.len() ==> #[trigger] repeat_bytes(s, n)[k * s.len() + j] == s[j],
    decreases n,
{
    let len = s.len() as int;
    if n == 0 {
        assert(n * s.len() == 0);
    } else {
        let m = (n - 1) as nat;
        lemma_repeat_bytes(s, m);
        let prev = repeat_bytes(s, m);
        assert(repeat_bytes(s, n) == prev + s);
        assert(m * len + len == n * len) by (nonlinear_arith)
            requires
                m + 1 == n,
        ;
        assert forall|k: int, j: int| 0 <= k < n && 0 <= j < len implies #[trigger] repeat_bytes(
            s,
            n,
        )[k * len + j] == s[j] by {
            if k < m {
                assert(k * len + j < m * len) by (nonlinear_arith)
                    requires
                        k < m,
                        0 <= j < len,
                ;
                assert(k * len >= 0) by (nonlinear_arith)
                    requires
                        k >= 0,
                        len >= 0,
                ;
            } else {
                assert(k == m);
            }
        }
    }
}

/// What to send to wake a machine: the packet, the broadcast address, and the
/// `address:port` text it is sent to.
#[derive(Debug)]
pub struct WakePlan {
    pub packet: Vec<u8>,
    pub broadcast: String,
    pub target: String,
}

/// The broadcast address used when the caller gives none.
pub open spec fn wake_broadcast(broadcast_ip: Option<String>) -> Seq<char> {
    match broadcast_ip {
        Some(b) => b@,
        None => "255.255.255.255"@,
    }
}

/// Plans a Wake-on-LAN command. A text that is no MAC address (not six
/// fields, or a field that is not a byte) is refused, and nothing is to be
/// sent.
pub fn plan_wake_on_lan(mac_address: &str, broadcast_ip: Option<String>) -> (r: Result<
    WakePlan,
    RemoteCommandResult,
>)
    ensures
        (r is Ok) <==> mac_spec(mac_address@) is Some,
        r matches Ok(p) ==> {
            &&& p.packet@ == magic_packet_spec(mac_spec(mac_address@).unwrap())
            &&& p.broadcast@ == wake_broadcast(broadcast_ip)
            &&& p.target@ == wake_broadcast(broadcast_ip) + ":9"@
        },
        r matches Err(e) ==> {
            &&& !e.success
            &&& e.message@ == "Invalid MAC address format"@
            &&& e.ip@ == Seq::<char>::empty()
        },
{
    match parse_mac(mac_address) {
        None => Err(
            RemoteCommandResult {
                success: false,
                message: String::from_str("Invalid MAC address format"),
                ip: String::new(),
            },
        ),
        Some(mac) => {
            let packet = magic_packet(&mac);
            let broadcast = match broadcast_ip {
                Some(b) => b,
                None => String::from_str("255.255.255.255"),
            };
            let target = broadcast.clone().concat(":9");
            Ok(WakePlan { packet, broadcast, target })
        },
    }
}

/// The result reported once the packet was handed to the socket: `send_error`
/// holds the socket's error text if sending failed.
pub fn wake_on_lan_outcome(broadcast: String, send_error: Option<String>) -> (r: RemoteCommandResult)
    ensures
        r.success == (send_error is None),
        r.ip@ == broadcast@,
        match send_error {
            None => r.message@ == "Wake-on-LAN packet sent"@,
            Some(e) => r.message@ == "Failed to send WoL packet: "@ + e@,
        },
{
    match send_error {
        None => RemoteCommandResult {
            success: true,
            message: String::from_str("Wake-on-LAN packet sent"),
            ip: broadcast,
        },
        Some(e) => RemoteCommandResult {
            success: false,
            message: String::from_str("Failed to send WoL packet: ").concat(e.as_str()),
            ip: broadcast,
        },
    }
}

} // verus!

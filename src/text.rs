//! Decimal and hexadecimal text, and splitting text on separators.

use vstd::prelude::*;

verus! {

/// The character of a decimal digit.
pub open spec fn digit_char(d: nat) -> char {
    ((d % 10) + 48) as u8 as char
}

/// Decimal text of a natural number, without sign, padding or leading zeros.
pub open spec fn dec_chars(n: nat) -> Seq<char>
    decreases n,
{
    if n < 10 {
        seq![digit_char(n)]
    } else {
        dec_chars(n / 10).push(digit_char(n % 10))
    }
}

/// Decimal text of a signed integer: a minus sign for negative values.
pub open spec fn signed_dec_chars(v: int) -> Seq<char> {
    if v < 0 {
        seq!['-'] + dec_chars((-v) as nat)
    } else {
        dec_chars(v as nat)
    }
}

pub open spec fn is_dec_digit(c: char) -> bool {
    '0' <= c && c <= '9'
}

pub open spec fn dec_digit_value(c: char) -> nat {
    (c as u32 - '0' as u32) as nat
}

/// Value of a string of decimal digits (0 for the empty string).
pub open spec fn dec_digits_value(s: Seq<char>) -> nat
    decreases s.len(),
{
    if s.len() == 0 {
        0
    } else {
        dec_digits_value(s.drop_last()) * 10 + dec_digit_value(s.last())
    }
}

pub open spec fn all_dec_digits(s: Seq<char>) -> bool {
    forall|i: int| 0 <= i < s.len() ==> is_dec_digit(#[trigger] s[i])
}

/// The text without the one leading '+' it may have.
pub open spec fn unsigned_digits(s: Seq<char>) -> Seq<char> {
    if s.len() > 0 && s[0] == '+' {
        s.drop_first()
    } else {
        s
    }
}

/// An unsigned decimal number as Rust's integer parsing reads it: an optional
/// '+', then at least one digit, with a value that fits in 16 bits.
pub open spec fn parse_u16_spec(s: Seq<char>) -> Option<u16> {
    let d = unsigned_digits(s);
    if d.len() > 0 && all_dec_digits(d) && dec_digits_value(d) <= 65535 {
        Some(dec_digits_value(d) as u16)
    } else {
        None
    }
}

pub open spec fn is_hex_digit(c: char) -> bool {
    ('0' <= c && c <= '9') || ('a' <= c && c <= 'f') || ('A' <= c && c <= 'F')
}

pub open spec fn hex_digit_value(c: char) -> nat {
    if '0' <= c && c <= '9' {
        (c as u32 - '0' as u32) as nat
    } else if 'a' <= c && c <= 'f' {
        (c as u32 - 'a' as u32 + 10) as nat
    } else {
        (c as u32 - 'A' as u32 + 10) as nat
    }
}

/// Value of a string of hexadecimal digits (0 for the empty string).
pub open spec fn hex_digits_value(s: Seq<char>) -> nat
    decreases s.len(),
{
    if s.len() == 0 {
        0
    } else {
        hex_digits_value(s.drop_last()) * 16 + hex_digit_value(s.last())
    }
}

pub open spec fn all_hex_digits(s: Seq<char>) -> bool {
    forall|i: int| 0 <= i < s.len() ==> is_hex_digit(#[trigger] s[i])
}

/// A byte written in hexadecimal as Rust's integer parsing reads it: an optional
/// '+', then at least one hex digit, with a value below 256.
pub open spec fn parse_hex_byte_spec(s: Seq<char>) -> Option<u8> {
    let d = unsigned_digits(s);
    if d.len() > 0 && all_hex_digits(d) && hex_digits_value(d) < 256 {
        Some(hex_digits_value(d) as u8)
    } else {
        None
    }
}

/// The pieces of `s` between the characters that `sep` holds of, as
/// `str::split` gives them: one more piece than there are separators.
pub open spec fn split_where(s: Seq<char>, sep: spec_fn(char) -> bool) -> Seq<Seq<char>>
    decreases s.len(),
{
    if s.len() == 0 {
        seq![Seq::<char>::empty()]
    } else {
        let prev = split_where(s.drop_last(), sep);
        if sep(s.last()) {
            prev.push(Seq::<char>::empty())
        } else {
            prev.update(prev.len() - 1, prev.last().push(s.last()))
        }
    }
}

pub proof fn lemma_split_where_nonempty(s: Seq<char>, sep: spec_fn(char) -> bool)
    ensures
        split_where(s, sep).len() >= 1,
    decreases s.len(),
{
    if s.len() > 0 {
        lemma_split_where_nonempty(s.drop_last(), sep);
    }
}

/// The text of one decimal digit.
fn digit_str(d: u32) -> (r: &'static str)
    requires
        d < 10,
    ensures
        r@ == seq![digit_char(d as nat)],
{
    if d == 0 {
        proof { reveal_strlit("0"); }
        "0"
    } else if d == 1 {
        proof { reveal_strlit("1"); }
        "1"
    } else if d == 2 {
        proof { reveal_strlit("2"); }
        "2"
    } else if d == 3 {
        proof { reveal_strlit("3"); }
        "3"
    } else if d == 4 {
        proof { reveal_strlit("4"); }
        "4"
    } else if d == 5 {
        proof { reveal_strlit("5"); }
        "5"
    } else if d == 6 {
        proof { reveal_strlit("6"); }
        "6"
    } else if d == 7 {
        proof { reveal_strlit("7"); }
        "7"
    } else if d == 8 {
        proof { reveal_strlit("8"); }
        "8"
    } else {
        proof { reveal_strlit("9"); }
        "9"
    }
}

/// Decimal text of `n`.
pub fn decimal_text(n: u32) -> (r: String)
    ensures
        r@ == dec_chars(n as nat),
    decreases n,
{
    if n < 10 {
        String::from_str(digit_str(n))
    } else {
        let mut s = decimal_text(n / 10);
        s.append(digit_str(n % 10));
        s
    }
}

/// Decimal text of a signed `v`, with a leading '-' when it is negative.
pub fn signed_decimal_text(v: i32) -> (r: String)
    ensures
        r@ == signed_dec_chars(v as int),
{
    if v < 0 {
        let magnitude: u32 = if v == i32::MIN {
            2147483648u32
        } else {
            (-v) as u32
        };
        let digits = decimal_text(magnitude);
        let mut s = String::from_str("-");
        proof { reveal_strlit("-"); }
        s.append(digits.as_str());
        s
    } else {
        decimal_text(v as u32)
    }
}

/// A separator at the end starts a new, empty piece.
pub proof fn lemma_split_push_sep(s: Seq<char>, sep: spec_fn(char) -> bool, c: char)
    requires
        sep(c),
    ensures
        split_where(s.push(c), sep) == split_where(s, sep).push(Seq::<char>::empty()),
{
    assert(s.push(c).drop_last() =~= s);
}

/// Text without separators extends the last piece.
pub proof fn lemma_split_append_plain(s: Seq<char>, sep: spec_fn(char) -> bool, t: Seq<char>)
    requires
        forall|i: int| 0 <= i < t.len() ==> !sep(#[trigger] t[i]),
    ensures
        split_where(s + t, sep) == split_where(s, sep).update(
            split_where(s, sep).len() - 1,
            split_where(s, sep).last() + t,
        ),
    decreases t.len(),
{
    lemma_split_where_nonempty(s, sep);
    let base = split_where(s, sep);
    if t.len() == 0 {
        assert(s + t =~= s);
        assert(base.last() + t =~= base.last());
        assert(base.update(base.len() - 1, base.last()) =~= base);
    } else {
        let t0 = t.drop_last();
        lemma_split_append_plain(s, sep, t0);
        assert((s + t).drop_last() =~= s + t0);
        assert((s + t).last() == t.last());
        assert(!sep(t[t.len() - 1]));
        let prev = split_where(s + t0, sep);
        assert(prev.len() == base.len());
        assert(prev.last() == base.last() + t0);
        assert((base.last() + t0).push(t.last()) =~= base.last() + t);
        assert(split_where(s + t, sep) == prev.update(prev.len() - 1, prev.last().push(t.last())));
        assert(prev.update(prev.len() - 1, base.last() + t) =~= base.update(
            base.len() - 1,
            base.last() + t,
        ));
    }
}

/// Facts about the decimal text of a number: at least one character, only
/// digits, and it reads back as the number.
pub proof fn lemma_dec_chars(n: nat)
    ensures
        dec_chars(n).len() >= 1,
        all_dec_digits(dec_chars(n)),
        dec_digits_value(dec_chars(n)) == n,
    decreases n,
{
    let d = digit_char(n % 10);
    assert(d as u32 == (n % 10) + 48);
    assert(dec_digit_value(d) == n % 10);
    if n < 10 {
        let cur = dec_chars(n);
        assert(cur.drop_last() =~= Seq::<char>::empty());
        assert(dec_digits_value(cur) == dec_digits_value(cur.drop_last()) * 10 + dec_digit_value(
            cur.last(),
        ));
    } else {
        lemma_dec_chars(n / 10);
        let prev = dec_chars(n / 10);
        let cur = dec_chars(n);
        assert(cur == prev.push(digit_char(n % 10)));
        assert(cur.drop_last() =~= prev);
        assert(dec_digits_value(cur) == dec_digits_value(prev) * 10 + dec_digit_value(d));
        assert((n / 10) * 10 + n % 10 == n);
        assert forall|i: int| 0 <= i < cur.len() implies is_dec_digit(#[trigger] cur[i]) by {
            if i < prev.len() {
                assert(cur[i] == prev[i]);
            }
        }
    }
}

/// Reads an unsigned 16-bit decimal number as Rust's integer parsing does.
pub fn parse_u16(s: &Vec<char>) -> (r: Option<u16>)
    ensures
        r == parse_u16_spec(s@),
{
    let n = s.len();
    let start: usize = if n > 0 && s[0] == '+' { 1 } else { 0 };
    let ghost d = unsigned_digits(s@);
    assert(d =~= s@.subrange(start as int, n as int));
    let mut valid = true;
    let mut value: u32 = 0;
    let mut i = start;
    while i < n
        invariant
            start <= i <= n,
            n == s@.len(),
            d =~= s@.subrange(start as int, n as int),
            valid == all_dec_digits(d.subrange(0, i - start)),
            valid && value <= 65535 ==> value == dec_digits_value(d.subrange(0, i - start)),
            valid && value > 65535 ==> dec_digits_value(d.subrange(0, i - start)) > 65535,
            value < 655360 + 10,
        decreases n - i,
    {
        let c = s[i];
        let ghost prefix = d.subrange(0, i - start);
        let ghost next = d.subrange(0, i + 1 - start);
        assert(next =~= prefix.push(c));
        assert(next.drop_last() =~= prefix);
        if valid {
            if '0' <= c && c <= '9' {
                let dv: u32 = (c as u32) - ('0' as u32);
                if value <= 65535 {
                    value = value * 10 + dv;
                }
                assert(all_dec_digits(next));
            } else {
                valid = false;
                assert(!is_dec_digit(next[i - start]));
            }
        } else {
            proof {
                assert(!all_dec_digits(prefix));
                let k = choose|k: int| 0 <= k < prefix.len() && !is_dec_digit(#[trigger] prefix[k]);
                assert(next[k] == prefix[k]);
            }
        }
        i = i + 1;
    }
    assert(d.subrange(0, n - start) =~= d);
    if valid && n > start && value <= 65535 {
        Some(value as u16)
    } else {
        None
    }
}

/// Whether two texts hold the same characters.
pub fn same_text(a: &str, b: &str) -> (r: bool)
    ensures
        r == (a@ == b@),
{
    let n = a.unicode_len();
    if n != b.unicode_len() {
        return false;
    }
    let mut i: usize = 0;
    while i < n
        invariant
            i <= n,
            n == a@.len(),
            n == b@.len(),
            a@.subrange(0, i as int) == b@.subrange(0, i as int),
        decreases n - i,
    {
        if a.get_char(i) != b.get_char(i) {
            return false;
        }
        assert(a@.subrange(0, i + 1) =~= a@.subrange(0, i as int).push(a@[i as int]));
        assert(b@.subrange(0, i + 1) =~= b@.subrange(0, i as int).push(b@[i as int]));
        i = i + 1;
    }
    assert(a@.subrange(0, n as int) =~= a@);
    assert(b@.subrange(0, n as int) =~= b@);
    true
}

} // verus!

//! IPv4 addresses as 32-bit numbers.

use crate::text::{
    all_digits, decimal_text, decimal_value, find_char, first_index, is_digit,
    lemma_decimal_text_value, lemma_first_index_is, parse_unsigned, push_decimal,
};
use vstd::prelude::*;
use vstd::slice::slice_subrange;

verus! {

/// An IPv4 address, held as its 32-bit numeric value (first octet most significant).
#[derive(Clone, Copy, Debug, PartialEq, Eq, Structural, PartialOrd, Ord, Hash)]
pub struct Ipv4Addr {
    pub bits: u32,
}

/// The numeric value of the address `a.b.c.d`.
pub open spec fn octets_value(a: u8, b: u8, c: u8, d: u8) -> int {
    a as int * 16777216 + b as int * 65536 + c as int * 256 + d as int
}

impl View for Ipv4Addr {
    type V = u32;

    open spec fn view(&self) -> u32 {
        self.bits
    }
}

impl Ipv4Addr {
    /// The address `a.b.c.d`.
    pub fn new(a: u8, b: u8, c: u8, d: u8) -> (r: Ipv4Addr)
        ensures
            r@ == octets_value(a, b, c, d),
    {
        Ipv4Addr { bits: a as u32 * 16777216 + b as u32 * 65536 + c as u32 * 256 + d as u32 }
    }

    /// The address whose numeric value is `bits`.
    pub fn from_u32(bits: u32) -> (r: Ipv4Addr)
        ensures
            r@ == bits,
    {
        Ipv4Addr { bits }
    }

    /// The numeric value of the address.
    pub fn to_u32(&self) -> (r: u32)
        ensures
            r == self@,
    {
        self.bits
    }

    /// The dotted form of the address.
    pub fn to_string(&self) -> (r: String)
        ensures
            r@ == dotted_text(self@),
    {
        let b: u32 = self.bits;
        let mut out = String::new();
        proof {
            reveal_strlit(".");
        }
        push_decimal(&mut out, (b / 16777216) as u64);
        out.append(".");
        push_decimal(&mut out, (b / 65536 % 256) as u64);
        out.append(".");
        push_decimal(&mut out, (b / 256 % 256) as u64);
        out.append(".");
        push_decimal(&mut out, (b % 256) as u64);
        assert(out@ =~= dotted_text(self@));
        out
    }

    /// The four octets, most significant first.
    pub fn octets(&self) -> (r: [u8; 4])
        ensures
            octets_value(r[0], r[1], r[2], r[3]) == self@,
    {
        let b: u32 = self.bits;
        [(b / 16777216) as u8, (b / 65536 % 256) as u8, (b / 256 % 256) as u8, (b % 256) as u8]
    }
}

/// What one octet of a dotted address denotes: one to three digits, no leading zero
/// on a longer numeral, at most 255.
pub open spec fn octet_value(s: Seq<char>) -> Option<u8> {
    if 1 <= s.len() <= 3 && all_digits(s) && (s.len() == 1 || s[0] != '0') && decimal_value(s)
        <= 255 {
        Some(decimal_value(s) as u8)
    } else {
        None
    }
}

/// What a dotted address denotes: four octets parted by three dots, nothing else.
pub open spec fn dotted_value(s: Seq<char>) -> Option<u32> {
    let i1 = first_index(s, '.');
    let r1 = s.skip(i1 + 1);
    let i2 = first_index(r1, '.');
    let r2 = r1.skip(i2 + 1);
    let i3 = first_index(r2, '.');
    let r3 = r2.skip(i3 + 1);
    if i1 < s.len() && i2 < r1.len() && i3 < r2.len() {
        match (
            octet_value(s.take(i1)),
            octet_value(r1.take(i2)),
            octet_value(r2.take(i3)),
            octet_value(r3),
        ) {
            (Some(a), Some(b), Some(c), Some(d)) => Some(octets_value(a, b, c, d) as u32),
            _ => None,
        }
    } else {
        None
    }
}

/// The dotted form of the address with numeric value `bits`.
pub open spec fn dotted_text(bits: u32) -> Seq<char> {
    decimal_text((bits / 16777216) as nat) + seq!['.'] + decimal_text((bits / 65536 % 256) as nat)
        + seq!['.'] + decimal_text((bits / 256 % 256) as nat) + seq!['.'] + decimal_text(
        (bits % 256) as nat,
    )
}

/// The numeral of a number up to 255 is an octet that denotes it.
proof fn lemma_octet_text(n: nat)
    requires
        n <= 255,
    ensures
        octet_value(decimal_text(n)) == Some(n as u8),
{
    lemma_decimal_text_value(n);
    if n >= 10 {
        lemma_decimal_text_value(n / 10);
        if n >= 100 {
            lemma_decimal_text_value(n / 100);
            assert(decimal_text(n / 10) == decimal_text(n / 100).push(
                crate::text::digit_char(((n / 10) % 10) as int),
            ));
        }
    }
}

/// The first dot of `x.rest`, where `x` is made of digits, stands right behind `x`.
proof fn lemma_first_dot(x: Seq<char>, rest: Seq<char>)
    requires
        all_digits(x),
    ensures
        first_index(x + seq!['.'] + rest, '.') == x.len(),
        x.len() < (x + seq!['.'] + rest).len(),
        (x + seq!['.'] + rest).take(x.len() as int) == x,
        (x + seq!['.'] + rest).skip(x.len() as int + 1) == rest,
{
    let t = x + seq!['.'] + rest;
    assert(t[x.len() as int] == '.');
    assert forall|j: int| 0 <= j < x.len() implies #[trigger] t[j] != '.' by {
        assert(t[j] == x[j]);
        assert(is_digit(x[j]));
    }
    lemma_first_index_is(t, '.', x.len() as int);
    assert(t.take(x.len() as int) =~= x);
    assert(t.skip(x.len() as int + 1) =~= rest);
}

/// The dotted form of the address `a.b.c.d`.
pub open spec fn octets_text(a: u8, b: u8, c: u8, d: u8) -> Seq<char> {
    decimal_text(a as nat) + seq!['.'] + decimal_text(b as nat) + seq!['.'] + decimal_text(c as nat)
        + seq!['.'] + decimal_text(d as nat)
}

/// Four octets parted by dots are read as the address that they denote.
#[verifier::spinoff_prover]
proof fn lemma_dotted_of_parts(ta: Seq<char>, tb: Seq<char>, tc: Seq<char>, td: Seq<char>)
    requires
        all_digits(ta),
        all_digits(tb),
        all_digits(tc),
        octet_value(ta) is Some,
        octet_value(tb) is Some,
        octet_value(tc) is Some,
        octet_value(td) is Some,
    ensures
        dotted_value(ta + seq!['.'] + tb + seq!['.'] + tc + seq!['.'] + td) == Some(
            octets_value(
                octet_value(ta)->Some_0,
                octet_value(tb)->Some_0,
                octet_value(tc)->Some_0,
                octet_value(td)->Some_0,
            ) as u32,
        ),
{
    let dot = seq!['.'];
    let r2 = tc + dot + td;
    let r1 = tb + dot + r2;
    let t = ta + dot + tb + dot + tc + dot + td;
    assert(t =~= ta + dot + r1);
    lemma_first_dot(ta, r1);
    let i1 = first_index(t, '.');
    assert(i1 == ta.len());
    assert(t.take(i1) == ta);
    assert(t.skip(i1 + 1) == r1);
    lemma_first_dot(tb, r2);
    let i2 = first_index(r1, '.');
    assert(i2 == tb.len());
    assert(r1.take(i2) == tb);
    assert(r1.skip(i2 + 1) == r2);
    lemma_first_dot(tc, td);
    let i3 = first_index(r2, '.');
    assert(i3 == tc.len());
    assert(r2.take(i3) == tc);
    assert(r2.skip(i3 + 1) == td);
}

/// Reading the dotted form of `a.b.c.d` gives the address back.
pub proof fn lemma_octets_roundtrip(a: u8, b: u8, c: u8, d: u8)
    ensures
        dotted_value(octets_text(a, b, c, d)) == Some(octets_value(a, b, c, d) as u32),
{
    lemma_octet_text(a as nat);
    lemma_octet_text(b as nat);
    lemma_octet_text(c as nat);
    lemma_octet_text(d as nat);
    lemma_dotted_of_parts(
        decimal_text(a as nat),
        decimal_text(b as nat),
        decimal_text(c as nat),
        decimal_text(d as nat),
    );
}

/// Reading the dotted form of an address gives the address back.
pub proof fn lemma_dotted_roundtrip(bits: u32)
    ensures
        dotted_value(dotted_text(bits)) == Some(bits),
{
    let a = (bits / 16777216) as u8;
    let b = (bits / 65536 % 256) as u8;
    let c = (bits / 256 % 256) as u8;
    let d = (bits % 256) as u8;
    assert(octets_value(a, b, c, d) == bits);
    assert(dotted_text(bits) == octets_text(a, b, c, d));
    lemma_octets_roundtrip(a, b, c, d);
}

/// Reads one octet of a dotted address.
pub fn parse_octet(s: &[char]) -> (r: Option<u8>)
    ensures
        r == octet_value(s@),
{
    let n = s.len();
    if n < 1 || n > 3 {
        return None;
    }
    if s[0] == '+' || (n > 1 && s[0] == '0') {
        return None;
    }
    match parse_unsigned(s, 255) {
        Some(v) => Some(v as u8),
        None => None,
    }
}

/// Reads a dotted address.
pub fn parse_dotted(s: &[char]) -> (r: Option<Ipv4Addr>)
    ensures
        r matches Some(a) ==> dotted_value(s@) == Some(a@),
        r is None ==> dotted_value(s@) is None,
{
    let n = s.len();
    let i1 = find_char(s, '.');
    if i1 >= n {
        return None;
    }
    let r1 = slice_subrange(s, i1 + 1, n);
    let i2 = find_char(r1, '.');
    if i2 >= r1.len() {
        return None;
    }
    let r2 = slice_subrange(r1, i2 + 1, r1.len());
    let i3 = find_char(r2, '.');
    if i3 >= r2.len() {
        return None;
    }
    let r3 = slice_subrange(r2, i3 + 1, r2.len());
    let a = parse_octet(slice_subrange(s, 0, i1));
    let b = parse_octet(slice_subrange(r1, 0, i2));
    let c = parse_octet(slice_subrange(r2, 0, i3));
    let d = parse_octet(r3);
    match (a, b, c, d) {
        (Some(a), Some(b), Some(c), Some(d)) => Some(Ipv4Addr::new(a, b, c, d)),
        _ => None,
    }
}

} // verus!

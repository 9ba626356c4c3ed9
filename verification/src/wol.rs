//! Wake-up packets: six bytes of 255, then the hardware address sixteen times.

use vstd::prelude::*;
use vstd::slice::slice_subrange;

verus! {

/// The number that a hexadecimal digit stands for, of either case.
pub open spec fn hex_digit(c: char) -> Option<int> {
    if '0' <= c <= '9' {
        Some(c as u32 - '0' as u32)
    } else if 'a' <= c <= 'f' {
        Some(c as u32 - 'a' as u32 + 10)
    } else if 'A' <= c <= 'F' {
        Some(c as u32 - 'A' as u32 + 10)
    } else {
        None
    }
}

/// Whether `s` is made of hexadecimal digits alone.
pub open spec fn all_hex(s: Seq<char>) -> bool {
    forall|i: int| 0 <= i < s.len() ==> hex_digit(#[trigger] s[i]) is Some
}

/// The number that the digit string `s` denotes in base sixteen.
pub open spec fn hex_value(s: Seq<char>) -> int
    decreases s.len(),
{
    if s.len() == 0 {
        0
    } else {
        hex_value(s.drop_last()) * 16 + match hex_digit(s.last()) {
            Some(d) => d,
            None => 0,
        }
    }
}

/// The byte that a hexadecimal numeral denotes: an optional `+`, then one or
/// more digits, with a value of at most 255.
pub open spec fn hex_byte(s: Seq<char>) -> Option<u8> {
    let digits = if s.len() > 0 && s[0] == '+' {
        s.drop_first()
    } else {
        s
    };
    if digits.len() > 0 && all_hex(digits) && hex_value(digits) <= 255 {
        Some(hex_value(digits) as u8)
    } else {
        None
    }
}

proof fn lemma_hex_value_prefix(s: Seq<char>, k: int)
    requires
        all_hex(s),
        0 <= k <= s.len(),
    ensures
        0 <= hex_value(s.take(k)) <= hex_value(s),
    decreases s.len() - k,
{
    if k == s.len() {
        assert(s.take(k) =~= s);
        lemma_hex_value_nonneg(s);
    } else {
        let t = s.drop_last();
        assert forall|i: int| 0 <= i < t.len() implies hex_digit(#[trigger] t[i]) is Some by {
            assert(t[i] == s[i]);
        }
        lemma_hex_value_prefix(t, k);
        assert(t.take(k) =~= s.take(k));
        assert(hex_digit(s.last()) is Some);
    }
}

proof fn lemma_hex_value_nonneg(s: Seq<char>)
    requires
        all_hex(s),
    ensures
        0 <= hex_value(s),
    decreases s.len(),
{
    if s.len() > 0 {
        let t = s.drop_last();
        assert forall|i: int| 0 <= i < t.len() implies hex_digit(#[trigger] t[i]) is Some by {
            assert(t[i] == s[i]);
        }
        lemma_hex_value_nonneg(t);
        assert(hex_digit(s.last()) is Some);
    }
}

fn hex_digit_of(c: char) -> (r: Option<u32>)
    ensures
        r matches Some(d) ==> hex_digit(c) == Some(d as int) && d < 16,
        r is None ==> hex_digit(c) is None,
{
    if '0' <= c && c <= '9' {
        Some(c as u32 - '0' as u32)
    } else if 'a' <= c && c <= 'f' {
        Some(c as u32 - 'a' as u32 + 10)
    } else if 'A' <= c && c <= 'F' {
        Some(c as u32 - 'A' as u32 + 10)
    } else {
        None
    }
}

/// Reads a byte written in hexadecimal.
pub fn parse_hex_byte(s: &[char]) -> (r: Option<u8>)
    ensures
        r == hex_byte(s@),
{
    let n = s.len();
    let start: usize = if n > 0 && s[0] == '+' {
        1
    } else {
        0
    };
    if start == n {
        return None;
    }
    let ghost digits = s@.skip(start as int);
    assert(digits == if s@.len() > 0 && s@[0] == '+' {
        s@.drop_first()
    } else {
        s@
    }) by {
        assert(s@.skip(0) =~= s@);
    }
    let ghost goal = hex_byte(s@);
    let mut acc: u32 = 0;
    let mut i: usize = start;
    while i < n
        invariant
            start <= i <= n,
            n == s@.len(),
            digits == s@.skip(start as int),
            digits.len() > 0,
            goal == hex_byte(s@),
            goal == if all_hex(digits) && hex_value(digits) <= 255 {
                Some(hex_value(digits) as u8)
            } else {
                None
            },
            all_hex(digits.take(i - start)),
            acc == hex_value(digits.take(i - start)),
            acc <= 255,
        decreases n - i,
    {
        let c = s[i];
        let ghost next = digits.take(i - start + 1);
        assert(next.drop_last() =~= digits.take(i - start));
        assert(next.last() == c);
        assert(digits[i - start] == c);
        let d = match hex_digit_of(c) {
            Some(d) => d,
            None => {
                assert(hex_digit(digits[i - start]) is None);
                return None;
            },
        };
        assert(hex_value(next) == acc * 16 + d);
        if acc * 16 + d > 255 {
            proof {
                if all_hex(digits) {
                    lemma_hex_value_prefix(digits, i - start + 1);
                }
            }
            return None;
        }
        acc = acc * 16 + d;
        assert(all_hex(next)) by {
            assert forall|j: int| 0 <= j < next.len() implies hex_digit(#[trigger] next[j])
                is Some by {
                if j < i - start {
                    assert(next[j] == digits.take(i - start)[j]);
                }
            }
        }
        i += 1;
    }
    assert(digits.take(n - start) =~= digits);
    Some(acc as u8)
}

/// Whether `c` parts the bytes of a hardware address.
pub open spec fn is_separator(c: char) -> bool {
    c == ':' || c == '-'
}

/// Where the first separator stands in `s`, or the length of `s` where it has none.
pub open spec fn first_separator(s: Seq<char>) -> int
    decreases s.len(),
{
    if s.len() == 0 || is_separator(s[0]) {
        0
    } else {
        1 + first_separator(s.drop_first())
    }
}

proof fn lemma_first_separator(s: Seq<char>, k: int)
    requires
        0 <= k <= s.len(),
        k < s.len() ==> is_separator(s[k]),
        forall|j: int| 0 <= j < k ==> !is_separator(#[trigger] s[j]),
    ensures
        first_separator(s) == k,
    decreases s.len(),
{
    if s.len() == 0 || is_separator(s[0]) {
        if k > 0 {
            assert(!is_separator(s[0]));
        }
    } else {
        let t = s.drop_first();
        assert forall|j: int| 0 <= j < k - 1 implies !is_separator(#[trigger] t[j]) by {
            assert(t[j] == s[j + 1]);
        }
        if k < s.len() {
            assert(t[k - 1] == s[k]);
        }
        lemma_first_separator(t, k - 1);
    }
}

/// The bytes of a hardware address written as hexadecimal numerals parted by
/// colons or hyphens; pieces that are no such numeral are passed over.
pub open spec fn mac_bytes(s: Seq<char>) -> Seq<u8>
    decreases s.len(),
{
    let i = first_separator(s);
    let piece = if 0 <= i < s.len() {
        s.take(i)
    } else {
        s
    };
    let head: Seq<u8> = match hex_byte(piece) {
        Some(b) => seq![b],
        None => Seq::empty(),
    };
    if 0 <= i < s.len() {
        head + mac_bytes(s.skip(i + 1))
    } else {
        head
    }
}

/// The packet that wakes the host with the hardware address `mac`: six bytes
/// of 255, then the address sixteen times.
pub open spec fn magic_packet(mac: Seq<u8>) -> Seq<u8> {
    Seq::new(
        (6 + 16 * mac.len()) as nat,
        |i: int|
            if i < 6 {
                255u8
            } else {
                mac[(i - 6) % (mac.len() as int)]
            },
    )
}

/// Reads the bytes of a hardware address.
pub fn parse_mac(s: &[char]) -> (r: Vec<u8>)
    ensures
        r@ == mac_bytes(s@),
{
    let n = s.len();
    let mut out: Vec<u8> = Vec::new();
    let mut pos: usize = 0;
    assert(s@.skip(0) =~= s@);
    loop
        invariant
            pos <= n,
            n == s@.len(),
            mac_bytes(s@) == out@ + mac_bytes(s@.skip(pos as int)),
        decreases n - pos,
    {
        let rest = slice_subrange(s, pos, n);
        let mut i: usize = 0;
        while i < rest.len() && rest[i] != ':' && rest[i] != '-'
            invariant
                i <= rest@.len(),
                forall|j: int| 0 <= j < i ==> !is_separator(#[trigger] rest@[j]),
            decreases rest@.len() - i,
        {
            i += 1;
        }
        let ghost before = out@;
        proof {
            lemma_first_separator(rest@, i as int);
            assert(rest@ =~= s@.skip(pos as int));
            assert(rest@.subrange(0, i as int) =~= rest@.take(i as int));
            if i >= rest.len() {
                assert(rest@.take(i as int) =~= rest@);
            } else {
                assert(rest@.skip(i + 1) =~= s@.skip(pos + i + 1));
            }
        }
        match parse_hex_byte(slice_subrange(rest, 0, i)) {
            Some(b) => {
                out.push(b);
            },
            None => {},
        }
        if i >= rest.len() {
            return out;
        }
        proof {
            let head: Seq<u8> = match hex_byte(rest@.take(i as int)) {
                Some(b) => seq![b],
                None => Seq::empty(),
            };
            assert(out@ =~= before + head);
            assert(before + (head + mac_bytes(rest@.skip(i + 1))) =~= (before + head) + mac_bytes(
                rest@.skip(i + 1),
            ));
        }
        pos = pos + i + 1;
    }
}

/// The packet that wakes the host with the hardware address written as `address`;
/// `None` where that is not six bytes.
pub fn wol_packet(address: &[char]) -> (r: Option<Vec<u8>>)
    ensures
        r matches Some(p) ==> mac_bytes(address@).len() == 6 && p@ == magic_packet(
            mac_bytes(address@),
        ),
        r is None ==> mac_bytes(address@).len() != 6,
{
    let mac = parse_mac(address);
    if mac.len() != 6 {
        return None;
    }
    let mut packet: Vec<u8> = Vec::new();
    let mut i: usize = 0;
    while i < 102
        invariant
            i <= 102,
            mac@.len() == 6,
            packet@.len() == i,
            forall|k: int|
                0 <= k < i ==> #[trigger] packet@[k] == if k < 6 {
                    255u8
                } else {
                    mac@[(k - 6) % 6]
                },
        decreases 102 - i,
    {
        if i < 6 {
            packet.push(255);
        } else {
            packet.push(mac[(i - 6) % 6]);
        }
        i += 1;
    }
    assert(packet@ =~= magic_packet(mac@));
    Some(packet)
}

/// A wake-up packet is 102 bytes long: it starts with six bytes of 255, and each
/// of the sixteen stretches of six bytes that follow is the hardware address.
pub proof fn lemma_magic_packet(mac: Seq<u8>)
    requires
        mac.len() == 6,
    ensures
        magic_packet(mac).len() == 102,
        forall|i: int| 0 <= i < 6 ==> magic_packet(mac)[i] == 255,
        forall|k: int|
            0 <= k < 16 ==> #[trigger] magic_packet(mac).subrange(6 + 6 * k, 12 + 6 * k) == mac,
{
    assert forall|k: int| 0 <= k < 16 implies #[trigger] magic_packet(mac).subrange(
        6 + 6 * k,
        12 + 6 * k,
    ) == mac by {
        let part = magic_packet(mac).subrange(6 + 6 * k, 12 + 6 * k);
        assert forall|j: int| 0 <= j < 6 implies part[j] == mac[j] by {
            assert((6 * k + j) % 6 == j) by (nonlinear_arith)
                requires
                    0 <= j < 6,
                    0 <= k,
            ;
        }
        assert(part =~= mac);
    }
}

} // verus!

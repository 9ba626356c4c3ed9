//! Hardware addresses of hosts on the local network.

use crate::adapters::{split_lines, text_lines};
use crate::addr::{dotted_text, Ipv4Addr};
use crate::text::{
    chars_of, contains_text, has_subtext, slice_texts, split_words, string_of, words,
};
use vstd::prelude::*;

verus! {

/// The hardware address of a host and, where it is known, who made the hardware.
#[derive(Debug, Clone)]
pub struct MacInfo {
    /// The address as six pairs of hexadecimal digits parted by colons.
    pub address: String,
    pub vendor: Option<String>,
}

/// A [`MacInfo`] as contracts see it.
pub struct MacView {
    pub address: Seq<char>,
    pub vendor: Option<Seq<char>>,
}

/// The text of an optional string.
pub open spec fn option_text(o: Option<String>) -> Option<Seq<char>> {
    match o {
        Some(s) => Some(s@),
        None => None,
    }
}

impl View for MacInfo {
    type V = MacView;

    open spec fn view(&self) -> MacView {
        MacView { address: self.address@, vendor: option_text(self.vendor) }
    }
}

/// The view of an optional [`MacInfo`].
pub open spec fn option_mac(o: Option<MacInfo>) -> Option<MacView> {
    match o {
        Some(m) => Some(m@),
        None => None,
    }
}

/// A copy of an optional string.
pub fn clone_option_string(o: &Option<String>) -> (r: Option<String>)
    ensures
        r == *o,
{
    match o {
        Some(s) => Some(s.clone()),
        None => None,
    }
}

impl MacInfo {
    /// A copy of the record.
    pub fn duplicate(&self) -> (r: MacInfo)
        ensures
            r == *self,
    {
        MacInfo { address: self.address.clone(), vendor: clone_option_string(&self.vendor) }
    }
}

/// The upper-case form of a text, as `str::to_uppercase` gives it.
pub uninterp spec fn uppercase_text(s: Seq<char>) -> Seq<char>;

/// Turns `s` to upper case with `str::to_uppercase`. Assumed: the result is a
/// function of the text alone.
#[verifier::external_body]
fn uppercase(s: &str) -> (r: String)
    ensures
        r@ == uppercase_text(s@),
{
    s.to_uppercase()
}

/// How many bytes the character takes in UTF-8.
pub open spec fn char_width(c: char) -> int {
    let n = c as u32;
    if n < 0x80 {
        1
    } else if n < 0x800 {
        2
    } else if n < 0x1_0000 {
        3
    } else {
        4
    }
}

/// How many bytes the text takes in UTF-8.
pub open spec fn byte_len(s: Seq<char>) -> int
    decreases s.len(),
{
    if s.len() == 0 {
        0
    } else {
        byte_len(s.drop_last()) + char_width(s.last())
    }
}

/// How many colons the text holds.
pub open spec fn colons(s: Seq<char>) -> int
    decreases s.len(),
{
    if s.len() == 0 {
        0
    } else {
        colons(s.drop_last()) + if s.last() == ':' {
            1int
        } else {
            0int
        }
    }
}

/// Whether the text has the shape of a hardware address: seventeen bytes, five
/// of them colons.
pub open spec fn is_mac_shape(s: Seq<char>) -> bool {
    byte_len(s) == 17 && colons(s) == 5
}

/// The text with a colon in place of each hyphen.
pub open spec fn with_colons(s: Seq<char>) -> Seq<char> {
    Seq::new(
        s.len(),
        |i: int|
            if s[i] == '-' {
                ':'
            } else {
                s[i]
            },
    )
}

/// Decides [`is_mac_shape`].
pub fn has_mac_shape(s: &[char]) -> (r: bool)
    ensures
        r == is_mac_shape(s@),
{
    let n = s.len();
    let mut bytes: usize = 0;
    let mut found: usize = 0;
    let mut i: usize = 0;
    assert(s@.take(0) =~= Seq::<char>::empty());
    while i < n
        invariant
            i <= n,
            n == s@.len(),
            bytes == byte_len(s@.take(i as int)),
            found == colons(s@.take(i as int)),
            bytes <= 17,
            found <= i,
            i <= bytes,
        decreases n - i,
    {
        let c = s[i];
        let code: u32 = c as u32;
        let width: usize = if code < 0x80 {
            1
        } else if code < 0x800 {
            2
        } else if code < 0x1_0000 {
            3
        } else {
            4
        };
        proof {
            assert(s@.take(i + 1).drop_last() =~= s@.take(i as int));
            assert(s@.take(i + 1).last() == c);
        }
        if bytes + width > 17 {
            proof {
                lemma_byte_len_grows(s@, i + 1);
            }
            return false;
        }
        bytes = bytes + width;
        if c == ':' {
            found = found + 1;
        }
        i += 1;
    }
    assert(s@.take(n as int) =~= s@);
    bytes == 17 && found == 5
}

/// A text takes at least as many bytes as any of its beginnings.
pub proof fn lemma_byte_len_grows(s: Seq<char>, k: int)
    requires
        0 <= k <= s.len(),
    ensures
        0 <= byte_len(s.take(k)) <= byte_len(s),
    decreases s.len() - k,
{
    if k == s.len() {
        assert(s.take(k) =~= s);
        lemma_byte_len_nonneg(s);
    } else {
        lemma_byte_len_grows(s.drop_last(), k);
        assert(s.drop_last().take(k) =~= s.take(k));
    }
}

proof fn lemma_byte_len_nonneg(s: Seq<char>)
    ensures
        0 <= byte_len(s),
    decreases s.len(),
{
    if s.len() > 0 {
        lemma_byte_len_nonneg(s.drop_last());
    }
}

/// The hardware address that a line of the address table names for the host with
/// the address written as `ip_text`, as the table is printed on Unix: the
/// first word of the line that has the shape of a hardware address, in upper case.
pub open spec fn first_mac_word(ws: Seq<Seq<char>>) -> Option<Seq<char>>
    decreases ws.len(),
{
    if ws.len() == 0 {
        None
    } else if is_mac_shape(ws[0]) {
        Some(uppercase_text(ws[0]))
    } else {
        first_mac_word(ws.drop_first())
    }
}

/// The hardware address that one line of the address table names for the host
/// with the address written as `ip_text`. On Windows it is the second word of a
/// line that names the host, in upper case and with colons for hyphens, if
/// that has the shape of a hardware address; elsewhere it is the first word
/// of such a line that has that shape, in upper case.
pub open spec fn line_mac(line: Seq<char>, ip_text: Seq<char>, windows: bool) -> Option<Seq<char>> {
    if !has_subtext(line, ip_text) {
        None
    } else if windows {
        if words(line).len() >= 2 && is_mac_shape(with_colons(uppercase_text(words(line)[1]))) {
            Some(with_colons(uppercase_text(words(line)[1])))
        } else {
            None
        }
    } else {
        first_mac_word(words(line))
    }
}

/// The hardware address that the first of `lines` names which names any.
pub open spec fn first_line_mac(lines: Seq<Seq<char>>, ip_text: Seq<char>, windows: bool) -> Option<
    Seq<char>,
>
    decreases lines.len(),
{
    if lines.len() == 0 {
        None
    } else {
        match line_mac(lines[0], ip_text, windows) {
            Some(mac) => Some(mac),
            None => first_line_mac(lines.drop_first(), ip_text, windows),
        }
    }
}

fn upper_chars(word: &[char]) -> (r: Vec<char>)
    ensures
        r@ == uppercase_text(word@),
{
    let text = string_of(word);
    let upper = uppercase(text.as_str());
    chars_of(upper.as_str())
}

fn replace_hyphens(s: &Vec<char>) -> (r: Vec<char>)
    ensures
        r@ == with_colons(s@),
{
    let mut out: Vec<char> = Vec::new();
    let n = s.len();
    let mut i: usize = 0;
    while i < n
        invariant
            i <= n,
            n == s@.len(),
            out@.len() == i,
            forall|k: int| 0 <= k < i ==> out@[k] == with_colons(s@)[k],
        decreases n - i,
    {
        if s[i] == '-' {
            out.push(':');
        } else {
            out.push(s[i]);
        }
        i += 1;
    }
    assert(out@ =~= with_colons(s@));
    out
}

/// Reads the hardware address that one line of the address table names for the
/// host with the address written as `ip_text`.
pub fn mac_in_line(line: &[char], ip_text: &[char], windows: bool) -> (r: Option<Vec<char>>)
    ensures
        r matches Some(mac) ==> line_mac(line@, ip_text@, windows) == Some(mac@),
        r is None ==> line_mac(line@, ip_text@, windows) is None,
{
    if !contains_text(line, ip_text) {
        return None;
    }
    let parts = split_words(line);
    if windows {
        if parts.len() < 2 {
            return None;
        }
        assert(parts@[1]@ == words(line@)[1]);
        let mac = replace_hyphens(&upper_chars(parts[1]));
        if has_mac_shape(mac.as_slice()) {
            Some(mac)
        } else {
            None
        }
    } else {
        let n = parts.len();
        let ghost ws = words(line@);
        let mut i: usize = 0;
        assert(ws.skip(0) =~= ws);
        while i < n
            invariant
                i <= n,
                n == parts@.len(),
                ws == slice_texts(parts@),
                ws == words(line@),
                !windows,
                has_subtext(line@, ip_text@),
                first_mac_word(ws) == first_mac_word(ws.skip(i as int)),
            decreases n - i,
        {
            proof {
                assert(ws.skip(i as int)[0] == parts@[i as int]@);
                assert(ws.skip(i as int).drop_first() =~= ws.skip(i + 1));
            }
            if has_mac_shape(parts[i]) {
                return Some(upper_chars(parts[i]));
            }
            i += 1;
        }
        assert(ws.skip(n as int) =~= Seq::<Seq<char>>::empty());
        None
    }
}

/// Reads from the printed address table the hardware address of the host with
/// the address `ip`: that which the first line names that names one.
pub fn find_mac(output: &str, ip: Ipv4Addr, windows: bool) -> (r: Option<String>)
    ensures
        option_text(r) == first_line_mac(text_lines(output@), dotted_text(ip@), windows),
{
    let chars = chars_of(output);
    let lines = split_lines(chars.as_slice());
    let ip_string = ip.to_string();
    let ip_text = chars_of(ip_string.as_str());
    let ghost all = text_lines(output@);
    let n = lines.len();
    let mut i: usize = 0;
    assert(all.skip(0) =~= all);
    while i < n
        invariant
            i <= n,
            n == lines@.len(),
            all == slice_texts(lines@),
            all == text_lines(output@),
            ip_text@ == dotted_text(ip@),
            first_line_mac(all, ip_text@, windows) == first_line_mac(
                all.skip(i as int),
                ip_text@,
                windows,
            ),
        decreases n - i,
    {
        proof {
            assert(all.skip(i as int)[0] == lines@[i as int]@);
            assert(all.skip(i as int).drop_first() =~= all.skip(i + 1));
        }
        match mac_in_line(lines[i], ip_text.as_slice(), windows) {
            Some(mac) => {
                return Some(string_of(mac.as_slice()));
            },
            None => {},
        }
        i += 1;
    }
    assert(all.skip(n as int) =~= Seq::<Seq<char>>::empty());
    None
}

/// How many characters at the start of `s` take `n` bytes together, if any
/// number of them does.
pub open spec fn chars_in_bytes(s: Seq<char>, n: int) -> Option<int>
    decreases s.len(),
{
    if n == 0 {
        Some(0)
    } else if s.len() == 0 || char_width(s[0]) > n {
        None
    } else {
        match chars_in_bytes(s.drop_first(), n - char_width(s[0])) {
            Some(k) => Some(k + 1),
            None => None,
        }
    }
}

/// The part of a hardware address under which the maker of the hardware is
/// looked up: its first eight bytes in upper case, where they are whole characters.
pub open spec fn oui_text(mac: Seq<char>) -> Option<Seq<char>> {
    match chars_in_bytes(mac, 8) {
        Some(k) => Some(uppercase_text(mac.take(k))),
        None => None,
    }
}

/// The part of a hardware address under which the maker of the hardware is looked up.
pub fn oui_key(mac: &str) -> (r: Option<String>)
    ensures
        option_text(r) == oui_text(mac@),
{
    let chars = chars_of(mac);
    let n = chars.len();
    let mut k: usize = 0;
    let mut left: usize = 8;
    assert(chars@.skip(0) =~= chars@);
    while left > 0
        invariant
            k <= n,
            n == chars@.len(),
            chars@ == mac@,
            left <= 8,
            chars_in_bytes(chars@, 8) == match chars_in_bytes(chars@.skip(k as int), left as int) {
                Some(j) => Some(j + k),
                None => None,
            },
        decreases left,
    {
        if k >= n {
            assert(chars@.skip(k as int) =~= Seq::<char>::empty());
            return None;
        }
        let code: u32 = chars[k] as u32;
        let width: usize = if code < 0x80 {
            1
        } else if code < 0x800 {
            2
        } else if code < 0x1_0000 {
            3
        } else {
            4
        };
        proof {
            assert(chars@.skip(k as int)[0] == chars@[k as int]);
            assert(chars@.skip(k as int).drop_first() =~= chars@.skip(k + 1));
        }
        if width > left {
            return None;
        }
        left = left - width;
        k += 1;
    }
    let head = vstd::slice::slice_subrange(chars.as_slice(), 0, k);
    assert(head@ =~= mac@.take(k as int));
    let text = string_of(head);
    Some(uppercase(text.as_str()))
}

} // verus!

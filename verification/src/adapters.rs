//! Network adapters of this machine, from which the range to scan is suggested.

use crate::addr::{dotted_text, dotted_value, parse_dotted, Ipv4Addr};
use crate::range::{network_base, network_start};
use crate::sort::{sort_by_key, stable_sorted, SortKey};
use crate::text::{
    chars_of, contains_text, decimal_text, find_char, first_index, has_subtext, parse_unsigned,
    push_decimal, slice_texts, string_of, trim, trimmed, unsigned_value,
};
use vstd::prelude::*;
use vstd::slice::slice_subrange;

verus! {

/// The kind of a network adapter. Adapters are offered in the order of the kinds.
#[derive(Debug, Clone, Copy, PartialEq, Eq, Structural, PartialOrd, Ord)]
pub enum AdapterType {
    Ethernet,
    Wifi,
    Vpn,
    Other,
}

/// The lower-case form of a text, as `str::to_lowercase` gives it.
pub uninterp spec fn lowercase_text(s: Seq<char>) -> Seq<char>;

/// Turns `s` to lower case with `str::to_lowercase`. Assumed: the result is a
/// function of the text alone.
#[verifier::external_body]
fn lowercase(s: &str) -> (r: String)
    ensures
        r@ == lowercase_text(s@),
{
    s.to_lowercase()
}

/// Whether a lower-case name tells of a virtual private network.
pub open spec fn names_vpn(lower: Seq<char>) -> bool {
    ||| has_subtext(lower, "vpn"@)
    ||| has_subtext(lower, "virtual"@)
    ||| has_subtext(lower, "tap"@)
    ||| has_subtext(lower, "tun"@)
    ||| has_subtext(lower, "wireguard"@)
    ||| has_subtext(lower, "openvpn"@)
    ||| has_subtext(lower, "nordlynx"@)
    ||| has_subtext(lower, "zerotier"@)
}

/// Whether a lower-case name tells of a wireless adapter.
pub open spec fn names_wifi(lower: Seq<char>) -> bool {
    ||| has_subtext(lower, "wifi"@)
    ||| has_subtext(lower, "wi-fi"@)
    ||| has_subtext(lower, "wireless"@)
    ||| has_subtext(lower, "wlan"@)
    ||| has_subtext(lower, "802.11"@)
}

/// Whether a lower-case name tells of a wired adapter.
pub open spec fn names_ethernet(lower: Seq<char>) -> bool {
    ||| has_subtext(lower, "ethernet"@)
    ||| has_subtext(lower, "local area connection"@)
    ||| has_subtext(lower, "realtek"@)
    ||| has_subtext(lower, "intel"@)
    ||| has_subtext(lower, "broadcom"@)
    ||| has_subtext(lower, "gigabit"@)
}

/// The kind that a lower-case name tells of: a virtual private network before a
/// wireless adapter, and that before a wired one.
pub open spec fn kind_of(lower: Seq<char>) -> AdapterType {
    if names_vpn(lower) {
        AdapterType::Vpn
    } else if names_wifi(lower) {
        AdapterType::Wifi
    } else if names_ethernet(lower) {
        AdapterType::Ethernet
    } else {
        AdapterType::Other
    }
}

fn has_word(lower: &[char], word: &str) -> (r: bool)
    ensures
        r == has_subtext(lower@, word@),
{
    let w = chars_of(word);
    contains_text(lower, w.as_slice())
}

impl AdapterType {
    /// The kind of the adapter with the lower-case name or description `lower`.
    pub fn from_lowercase(lower: &[char]) -> (r: AdapterType)
        ensures
            r == kind_of(lower@),
    {
        if has_word(lower, "vpn") || has_word(lower, "virtual") || has_word(lower, "tap")
            || has_word(lower, "tun") || has_word(lower, "wireguard") || has_word(lower, "openvpn")
            || has_word(lower, "nordlynx") || has_word(lower, "zerotier") {
            return AdapterType::Vpn;
        }
        if has_word(lower, "wifi") || has_word(lower, "wi-fi") || has_word(lower, "wireless")
            || has_word(lower, "wlan") || has_word(lower, "802.11") {
            return AdapterType::Wifi;
        }
        if has_word(lower, "ethernet") || has_word(lower, "local area connection") || has_word(
            lower,
            "realtek",
        ) || has_word(lower, "intel") || has_word(lower, "broadcom") || has_word(lower, "gigabit") {
            return AdapterType::Ethernet;
        }
        AdapterType::Other
    }

    /// The kind of the adapter with the name or description `name`, whatever its
    /// letters' case.
    pub fn from_name(name: &str) -> (r: AdapterType)
        ensures
            r == kind_of(lowercase_text(name@)),
    {
        let lower = lowercase(name);
        let chars = chars_of(lower.as_str());
        AdapterType::from_lowercase(chars.as_slice())
    }

    /// The kind's name as it is shown.
    pub open spec fn name(self) -> Seq<char> {
        match self {
            AdapterType::Ethernet => "Ethernet"@,
            AdapterType::Wifi => "WiFi"@,
            AdapterType::Vpn => "VPN"@,
            AdapterType::Other => "Other"@,
        }
    }

    /// The kind's name as it is shown: `Ethernet`, `WiFi`, `VPN` or `Other`.
    pub fn to_string(&self) -> (r: String)
        ensures
            r@ == self.name(),
    {
        match self {
            AdapterType::Ethernet => String::from_str("Ethernet"),
            AdapterType::Wifi => String::from_str("WiFi"),
            AdapterType::Vpn => String::from_str("VPN"),
            AdapterType::Other => String::from_str("Other"),
        }
    }

    /// The kind's place in the order in which adapters are offered.
    pub open spec fn rank(self) -> u64 {
        match self {
            AdapterType::Ethernet => 0,
            AdapterType::Wifi => 1,
            AdapterType::Vpn => 2,
            AdapterType::Other => 3,
        }
    }
}

/// A network adapter with an IPv4 address.
#[derive(Debug, Clone)]
pub struct AdapterInfo {
    pub name: String,
    pub adapter_type: AdapterType,
    pub ip: Ipv4Addr,
    pub prefix_length: u8,
    /// The adapter's network in CIDR notation.
    pub subnet: String,
}

impl SortKey for AdapterInfo {
    open spec fn sort_key(&self) -> u64 {
        self.adapter_type.rank()
    }

    fn key(&self) -> (k: u64) {
        match self.adapter_type {
            AdapterType::Ethernet => 0,
            AdapterType::Wifi => 1,
            AdapterType::Vpn => 2,
            AdapterType::Other => 3,
        }
    }
}

/// The network of `ip` with the given prefix length in CIDR notation.
pub open spec fn subnet_text(ip: Ipv4Addr, prefix_len: u8) -> Seq<char> {
    dotted_text(network_base(ip@, prefix_len) as u32) + seq!['/'] + decimal_text(prefix_len as nat)
}

impl AdapterInfo {
    /// The network of `ip` with the given prefix length in CIDR notation: the
    /// network's lowest address, a slash, and the prefix length.
    pub fn calculate_subnet(ip: Ipv4Addr, prefix_len: u8) -> (r: String)
        requires
            prefix_len <= 32,
        ensures
            r@ == subnet_text(ip, prefix_len),
    {
        let network = Ipv4Addr::from_u32(network_start(ip.to_u32(), prefix_len));
        let mut out = network.to_string();
        proof {
            reveal_strlit("/");
        }
        out.append("/");
        push_decimal(&mut out, prefix_len as u64);
        assert(out@ =~= subnet_text(ip, prefix_len));
        out
    }

    /// A copy of the record.
    pub fn duplicate(&self) -> (r: AdapterInfo)
        ensures
            r == *self,
    {
        AdapterInfo {
            name: self.name.clone(),
            adapter_type: self.adapter_type,
            ip: self.ip,
            prefix_length: self.prefix_length,
            subnet: self.subnet.clone(),
        }
    }
}

/// An [`AdapterInfo`] as contracts see it.
pub struct AdapterView {
    pub name: Seq<char>,
    pub adapter_type: AdapterType,
    pub ip: Ipv4Addr,
    pub prefix_length: u8,
    pub subnet: Seq<char>,
}

impl View for AdapterInfo {
    type V = AdapterView;

    open spec fn view(&self) -> AdapterView {
        AdapterView {
            name: self.name@,
            adapter_type: self.adapter_type,
            ip: self.ip,
            prefix_length: self.prefix_length,
            subnet: self.subnet@,
        }
    }
}

/// The views of a list of adapters.
pub open spec fn adapter_views(adapters: Seq<AdapterInfo>) -> Seq<AdapterView> {
    Seq::new(adapters.len(), |i: int| adapters[i]@)
}

/// `line` without a carriage return at its end.
pub open spec fn without_return(line: Seq<char>) -> Seq<char> {
    if line.len() > 0 && line.last() == '\r' {
        line.drop_last()
    } else {
        line
    }
}

/// The lines of a text: what stands before each line feed, without a carriage
/// return before the line feed, and what stands behind the last line feed if
/// that is anything.
pub open spec fn text_lines(s: Seq<char>) -> Seq<Seq<char>>
    decreases s.len(),
{
    let i = first_index(s, '\n');
    if s.len() == 0 {
        Seq::empty()
    } else if 0 <= i < s.len() {
        seq![without_return(s.take(i))] + text_lines(s.skip(i + 1))
    } else {
        seq![s]
    }
}

/// The adapter that a line of the form `name|address|prefix length` describes.
/// Lines with fewer parts, with an address or a prefix length that cannot be
/// read, with a prefix length over 32 or with a link-local address
/// (169.254.x.x) describe none.
pub open spec fn line_adapter(line: Seq<char>) -> Option<AdapterView> {
    let i1 = first_index(line, '|');
    let r1 = line.skip(i1 + 1);
    let i2 = first_index(r1, '|');
    let r2 = r1.skip(i2 + 1);
    let i3 = first_index(r2, '|');
    let third = if 0 <= i3 < r2.len() {
        r2.take(i3)
    } else {
        r2
    };
    if 0 <= i1 < line.len() && 0 <= i2 < r1.len() {
        let name = trimmed(line.take(i1));
        match (dotted_value(trimmed(r1.take(i2))), unsigned_value(trimmed(third), 255)) {
            (Some(bits), Some(prefix)) => if prefix > 32 || bits / 65536 == 169 * 256 + 254 {
                None
            } else {
                Some(
                    AdapterView {
                        name,
                        adapter_type: kind_of(lowercase_text(name)),
                        ip: Ipv4Addr { bits },
                        prefix_length: prefix as u8,
                        subnet: subnet_text(Ipv4Addr { bits }, prefix as u8),
                    },
                )
            },
            _ => None,
        }
    } else {
        None
    }
}

/// The adapters that lines describe, in the order of the lines.
pub open spec fn lines_adapters(lines: Seq<Seq<char>>) -> Seq<AdapterView>
    decreases lines.len(),
{
    if lines.len() == 0 {
        Seq::empty()
    } else {
        let rest = lines_adapters(lines.drop_last());
        match line_adapter(lines.last()) {
            Some(a) => rest.push(a),
            None => rest,
        }
    }
}

/// The lines of `s`.
pub fn split_lines(s: &[char]) -> (r: Vec<&[char]>)
    ensures
        slice_texts(r@) == text_lines(s@),
{
    let n = s.len();
    let mut out: Vec<&[char]> = Vec::new();
    let mut pos: usize = 0;
    assert(s@.skip(0) =~= s@);
    assert(slice_texts(out@) + text_lines(s@) =~= text_lines(s@));
    while pos < n
        invariant
            pos <= n,
            n == s@.len(),
            text_lines(s@) == slice_texts(out@) + text_lines(s@.skip(pos as int)),
        decreases n - pos,
    {
        let rest = slice_subrange(s, pos, n);
        let i = find_char(rest, '\n');
        let ghost before = out@;
        proof {
            assert(rest@ =~= s@.skip(pos as int));
        }
        if i >= rest.len() {
            out.push(rest);
            proof {
                assert(slice_texts(out@) =~= slice_texts(before) + seq![rest@]);
                assert(s@.skip(n as int) =~= Seq::<char>::empty());
                assert(slice_texts(out@) + text_lines(s@.skip(n as int)) =~= slice_texts(before)
                    + text_lines(rest@));
            }
            pos = n;
        } else {
            let end = if i > 0 && rest[i - 1] == '\r' {
                i - 1
            } else {
                i
            };
            let line = slice_subrange(rest, 0, end);
            out.push(line);
            proof {
                let raw = rest@.take(i as int);
                assert(rest@.subrange(0, end as int) =~= without_return(raw)) by {
                    if i > 0 {
                        assert(raw.last() == rest@[i - 1]);
                    }
                }
                assert(rest@.skip(i + 1) =~= s@.skip(pos + i + 1));
                assert(slice_texts(out@) =~= slice_texts(before) + seq![line@]);
                assert(slice_texts(before) + (seq![line@] + text_lines(rest@.skip(i + 1)))
                    =~= slice_texts(out@) + text_lines(rest@.skip(i + 1)));
            }
            pos = pos + i + 1;
        }
    }
    assert(s@.skip(n as int) =~= Seq::<char>::empty());
    assert(slice_texts(out@) + text_lines(Seq::<char>::empty()) =~= slice_texts(out@));
    out
}

/// Reads the line that describes one adapter.
pub fn parse_adapter_line(line: &[char]) -> (r: Option<AdapterInfo>)
    ensures
        r matches Some(a) ==> line_adapter(line@) == Some(a@),
        r is None ==> line_adapter(line@) is None,
{
    let n = line.len();
    let i1 = find_char(line, '|');
    if i1 >= n {
        return None;
    }
    let r1 = slice_subrange(line, i1 + 1, n);
    let i2 = find_char(r1, '|');
    if i2 >= r1.len() {
        return None;
    }
    let r2 = slice_subrange(r1, i2 + 1, r1.len());
    let i3 = find_char(r2, '|');
    let third = slice_subrange(r2, 0, i3);
    proof {
        assert(r1@ =~= line@.skip(i1 + 1));
        assert(r2@ =~= r1@.skip(i2 + 1));
        assert(line@.subrange(0, i1 as int) =~= line@.take(i1 as int));
        assert(r1@.subrange(0, i2 as int) =~= r1@.take(i2 as int));
        assert(r2@.subrange(0, i3 as int) =~= r2@.take(i3 as int));
        if i3 >= r2.len() {
            assert(r2@.take(i3 as int) =~= r2@);
        }
    }
    let name = string_of(trim(slice_subrange(line, 0, i1)));
    let ip = match parse_dotted(trim(slice_subrange(r1, 0, i2))) {
        Some(ip) => ip,
        None => {
            return None;
        },
    };
    let prefix = match parse_unsigned(trim(third), 255) {
        Some(p) => p,
        None => {
            return None;
        },
    };
    if prefix > 32 || ip.to_u32() / 65536 == 169 * 256 + 254 {
        return None;
    }
    let adapter_type = AdapterType::from_name(name.as_str());
    let subnet = AdapterInfo::calculate_subnet(ip, prefix as u8);
    Some(AdapterInfo { name, adapter_type, ip, prefix_length: prefix as u8, subnet })
}

/// Reads the adapters that the lines of `output` describe, in the order of the lines.
pub fn list_adapters(output: &str) -> (r: Vec<AdapterInfo>)
    ensures
        adapter_views(r@) == lines_adapters(text_lines(output@)),
{
    let chars = chars_of(output);
    let lines = split_lines(chars.as_slice());
    let ghost texts = text_lines(output@);
    let mut out: Vec<AdapterInfo> = Vec::new();
    let n = lines.len();
    let mut i: usize = 0;
    assert(texts.take(0) =~= Seq::<Seq<char>>::empty());
    assert(adapter_views(out@) =~= lines_adapters(texts.take(0)));
    while i < n
        invariant
            i <= n,
            n == lines@.len(),
            texts == slice_texts(lines@),
            adapter_views(out@) == lines_adapters(texts.take(i as int)),
        decreases n - i,
    {
        let ghost before = out@;
        proof {
            assert(texts.take(i + 1).drop_last() =~= texts.take(i as int));
            assert(texts.take(i + 1).last() == lines@[i as int]@);
        }
        match parse_adapter_line(lines[i]) {
            Some(a) => {
                out.push(a);
                assert(adapter_views(out@) =~= adapter_views(before).push(a@));
            },
            None => {},
        }
        i += 1;
    }
    assert(texts.take(n as int) =~= texts);
    out
}

/// Reads the adapters that the lines of `output` describe and puts them in the
/// order in which they are offered: wired before wireless, those before virtual
/// private networks, all others last; within one kind in the order of the lines.
pub fn adapters_from_output(output: &str) -> (r: Vec<AdapterInfo>)
    ensures
        exists|listed: Seq<AdapterInfo>|
            adapter_views(listed) == lines_adapters(text_lines(output@)) && r@ == stable_sorted(
                listed,
            ),
{
    let mut adapters = list_adapters(output);
    let ghost listed = adapters@;
    sort_by_key(&mut adapters);
    assert(adapter_views(listed) == lines_adapters(text_lines(output@)) && adapters@
        == stable_sorted(listed));
    adapters
}

/// The adapter that is offered first, if there is any.
pub fn default_adapter(adapters: &Vec<AdapterInfo>) -> (r: Option<&AdapterInfo>)
    ensures
        r == if adapters@.len() > 0 {
            Some(&adapters@[0])
        } else {
            None
        },
{
    if adapters.len() > 0 {
        Some(&adapters[0])
    } else {
        None
    }
}

} // verus!

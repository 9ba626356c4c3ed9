//! Range specifications: a single address, a CIDR network, a dashed range,
//! or a comma-separated list of these.

use crate::addr::{dotted_value, parse_dotted, Ipv4Addr};
use crate::text::{
    chars_of, contains_char, find_char, first_index, parse_unsigned, string_of, trim, trimmed,
    unsigned_value,
};
use vstd::arithmetic::power2::{lemma2_to64, lemma_pow2_pos, lemma_pow2_strictly_increases, pow2};
use vstd::prelude::*;
use vstd::slice::slice_subrange;

verus! {

/// Why a range specification was rejected.
#[derive(Clone, Copy, Debug, PartialEq, Eq, Structural)]
pub enum ParseError {
    /// Nothing but white space.
    Empty,
    /// Neither a network nor a range, and no dotted address either.
    InvalidAddress,
    /// Holds a `/` and is no network in CIDR notation.
    InvalidCidr,
    /// Holds more than one `-`.
    InvalidRangeFormat,
    /// The part before the `-` is no dotted address.
    InvalidStart,
    /// The part behind the `-` holds a dot and is no dotted address.
    InvalidEnd,
    /// The part behind the `-` holds no dot and is no number up to 255.
    InvalidEndOctet,
    /// The range ends before it starts.
    StartAfterEnd,
    /// A comma-separated list without a single entry.
    NoAddresses,
}

impl ParseError {
    /// What the user is told about the error.
    pub open spec fn text(self) -> Seq<char> {
        match self {
            ParseError::Empty => "Empty IP range"@,
            ParseError::InvalidAddress => "Invalid IP address"@,
            ParseError::InvalidCidr => "Invalid CIDR notation"@,
            ParseError::InvalidRangeFormat => "Invalid range format"@,
            ParseError::InvalidStart => "Invalid start IP"@,
            ParseError::InvalidEnd => "Invalid end IP"@,
            ParseError::InvalidEndOctet => "Invalid end octet"@,
            ParseError::StartAfterEnd => "Start IP is greater than end IP"@,
            ParseError::NoAddresses => "No valid IP addresses found"@,
        }
    }

    /// What the user is told about the error.
    pub fn message(&self) -> (r: &'static str)
        ensures
            r@ == self.text(),
    {
        match self {
            ParseError::Empty => "Empty IP range",
            ParseError::InvalidAddress => "Invalid IP address",
            ParseError::InvalidCidr => "Invalid CIDR notation",
            ParseError::InvalidRangeFormat => "Invalid range format",
            ParseError::InvalidStart => "Invalid start IP",
            ParseError::InvalidEnd => "Invalid end IP",
            ParseError::InvalidEndOctet => "Invalid end octet",
            ParseError::StartAfterEnd => "Start IP is greater than end IP",
            ParseError::NoAddresses => "No valid IP addresses found",
        }
    }
}

/// The `count` addresses that follow one another from `start`.
pub open spec fn span(start: int, count: int) -> Seq<Ipv4Addr> {
    Seq::new(count as nat, |i: int| Ipv4Addr { bits: (start + i) as u32 })
}

/// How many addresses a network of the given prefix length holds.
pub open spec fn network_size(prefix: u8) -> int {
    pow2((32 - prefix) as nat) as int
}

/// The lowest address of the network that `ip` lies in.
pub open spec fn network_base(ip: u32, prefix: u8) -> int {
    ip - ip as int % network_size(prefix)
}

/// All addresses of the network that `ip` lies in, from the lowest to the highest.
pub open spec fn network_addresses(ip: u32, prefix: u8) -> Seq<Ipv4Addr> {
    span(network_base(ip, prefix), network_size(prefix))
}

/// The address and prefix length that `ipnetwork` reads from a text in CIDR notation,
/// `None` where it rejects the text.
pub uninterp spec fn cidr_text_network(s: Seq<char>) -> Option<(u32, u8)>;

/// What a text with a `/` denotes.
pub open spec fn cidr_value(s: Seq<char>) -> Result<Seq<Ipv4Addr>, ParseError> {
    match cidr_text_network(s) {
        Some((ip, prefix)) => if prefix <= 32 {
            Ok(network_addresses(ip, prefix))
        } else {
            Err(ParseError::InvalidCidr)
        },
        None => Err(ParseError::InvalidCidr),
    }
}

/// Where a range whose end is written as `right` ends, given that it starts at `start`:
/// at a dotted address, or at `start` with its last octet replaced.
pub open spec fn range_end(start: u32, right: Seq<char>) -> Result<u32, ParseError> {
    if right.contains('.') {
        match dotted_value(right) {
            Some(end) => Ok(end),
            None => Err(ParseError::InvalidEnd),
        }
    } else {
        match unsigned_value(right, 255) {
            Some(octet) => Ok((start - start % 256 + octet) as u32),
            None => Err(ParseError::InvalidEndOctet),
        }
    }
}

/// What a text with a `-` (and no `/`) denotes.
pub open spec fn range_value(s: Seq<char>) -> Result<Seq<Ipv4Addr>, ParseError> {
    let i = first_index(s, '-');
    if !(0 <= i < s.len()) || s.skip(i + 1).contains('-') {
        Err(ParseError::InvalidRangeFormat)
    } else {
        match dotted_value(trimmed(s.take(i))) {
            None => Err(ParseError::InvalidStart),
            Some(start) => match range_end(start, trimmed(s.skip(i + 1))) {
                Err(e) => Err(e),
                Ok(end) => if start > end {
                    Err(ParseError::StartAfterEnd)
                } else {
                    Ok(span(start as int, end - start + 1))
                },
            },
        }
    }
}

/// What a text without `/` and `-` denotes.
pub open spec fn single_value(s: Seq<char>) -> Result<Seq<Ipv4Addr>, ParseError> {
    match dotted_value(s) {
        Some(bits) => Ok(seq![Ipv4Addr { bits }]),
        None => Err(ParseError::InvalidAddress),
    }
}

/// What one entry denotes: a network, a range or a single address.
pub open spec fn entry_value(s: Seq<char>) -> Result<Seq<Ipv4Addr>, ParseError> {
    if s.contains('/') {
        cidr_value(s)
    } else if s.contains('-') {
        range_value(s)
    } else {
        single_value(s)
    }
}

/// What one comma-separated piece denotes: nothing where it is blank, else its entry.
pub open spec fn piece_value(piece: Seq<char>) -> Result<Seq<Ipv4Addr>, ParseError> {
    if trimmed(piece).len() == 0 {
        Ok(Seq::empty())
    } else {
        entry_value(trimmed(piece))
    }
}

/// `head` followed by what `tail` denotes, or the error of `tail`.
pub open spec fn followed_by(head: Seq<Ipv4Addr>, tail: Result<Seq<Ipv4Addr>, ParseError>) -> Result<
    Seq<Ipv4Addr>,
    ParseError,
> {
    match tail {
        Err(e) => Err(e),
        Ok(t) => Ok(head + t),
    }
}

/// What comma-separated pieces denote: their addresses one after the other, in the
/// order written and with nothing taken out, or the error of the first piece that has one.
pub open spec fn pieces_value(s: Seq<char>) -> Result<Seq<Ipv4Addr>, ParseError>
    decreases s.len(),
{
    let i = first_index(s, ',');
    if 0 <= i < s.len() {
        match piece_value(s.take(i)) {
            Err(e) => Err(e),
            Ok(head) => followed_by(head, pieces_value(s.skip(i + 1))),
        }
    } else {
        piece_value(s)
    }
}

/// What a comma-separated list denotes: what its pieces denote, which must be
/// at least one address.
pub open spec fn list_value(s: Seq<char>) -> Result<Seq<Ipv4Addr>, ParseError> {
    match pieces_value(s) {
        Err(e) => Err(e),
        Ok(all) => if all.len() == 0 {
            Err(ParseError::NoAddresses)
        } else {
            Ok(all)
        },
    }
}

/// What a range specification denotes.
pub open spec fn range_spec_value(input: Seq<char>) -> Result<Seq<Ipv4Addr>, ParseError> {
    let s = trimmed(input);
    if s.len() == 0 {
        Err(ParseError::Empty)
    } else if s.contains(',') {
        list_value(s)
    } else {
        entry_value(s)
    }
}

/// Hands `s` to `ipnetwork`'s `Ipv4Network::from_str` and returns the address and
/// the prefix length of the network it read, or `None` where it returned an error.
/// Assumed: the result is a function of the text alone, and a prefix length that
/// comes back is at most 32 (`Ipv4Network::new` refuses any other).
#[verifier::external_body]
fn read_network(s: &str) -> (r: Option<(u32, u8)>)
    ensures
        r == cidr_text_network(s@),
        r matches Some((_, prefix)) ==> prefix <= 32,
{
    match s.parse::<ipnetwork::Ipv4Network>() {
        Ok(net) => Some((u32::from(net.ip()), net.prefix())),
        Err(_) => None,
    }
}

/// Walks `ipnetwork`'s `Ipv4Network::iter` over the network of `ip` with the given
/// prefix length. Assumed: it yields the network's addresses from the one with all
/// host bits clear upwards, as many as the prefix length leaves room for. A prefix
/// length of 0 is left out: there the crate's `size` overflows.
#[verifier::external_body]
fn walk_network(ip: u32, prefix: u8) -> (r: Vec<Ipv4Addr>)
    requires
        1 <= prefix <= 32,
    ensures
        r@ == network_addresses(ip, prefix),
{
    let net = ipnetwork::Ipv4Network::new(ip.into(), prefix).unwrap();
    net.iter().map(|a| Ipv4Addr::from_u32(u32::from(a))).collect()
}

/// The addresses from `start` to `end`, both included; none where `end` lies
/// before `start`.
pub fn enumerate(start: u32, end: u32) -> (r: Vec<Ipv4Addr>)
    ensures
        r@ == if start <= end {
            span(start as int, end - start + 1)
        } else {
            Seq::<Ipv4Addr>::empty()
        },
{
    let mut v: Vec<Ipv4Addr> = Vec::new();
    if start > end {
        return v;
    }
    let mut cur: u32 = start;
    loop
        invariant_except_break
            start <= cur <= end,
            v@ == span(start as int, cur - start),
        ensures
            v@ == span(start as int, end - start + 1),
        decreases end - cur,
    {
        v.push(Ipv4Addr::from_u32(cur));
        assert(v@ =~= span(start as int, cur - start + 1));
        if cur == end {
            break ;
        }
        cur += 1;
    }
    v
}

/// How many addresses a network of the given prefix length holds.
pub fn network_len(prefix: u8) -> (r: u64)
    requires
        prefix <= 32,
    ensures
        r == network_size(prefix),
        1 <= r <= 0x1_0000_0000,
{
    let bits: u8 = 32 - prefix;
    let mut size: u64 = 1;
    let mut i: u8 = 0;
    proof {
        lemma2_to64();
    }
    while i < bits
        invariant
            i <= bits <= 32,
            size == pow2(i as nat),
            size <= 0x1_0000_0000,
        decreases bits - i,
    {
        proof {
            vstd::arithmetic::power2::lemma_pow2_unfold((i + 1) as nat);
            lemma2_to64();
            if i + 1 < 32 {
                lemma_pow2_strictly_increases((i + 1) as nat, 32);
            }
        }
        size = size * 2;
        i += 1;
    }
    size
}

/// The lowest address of the network that `ip` lies in.
pub fn network_start(ip: u32, prefix: u8) -> (r: u32)
    requires
        prefix <= 32,
    ensures
        r == network_base(ip, prefix),
{
    let size = network_len(prefix);
    proof {
        lemma_network_fits(ip, prefix);
    }
    (ip as u64 - ip as u64 % size) as u32
}

/// All addresses of the network that `ip` lies in, lowest first.
pub fn network_hosts(ip: u32, prefix: u8) -> (r: Vec<Ipv4Addr>)
    requires
        prefix <= 32,
    ensures
        r@ == network_addresses(ip, prefix),
{
    if prefix == 0 {
        proof {
            lemma2_to64();
            assert(network_size(0) == 0x1_0000_0000);
            assert(network_base(ip, 0) == 0);
        }
        enumerate(0, u32::MAX)
    } else {
        walk_network(ip, prefix)
    }
}

/// Reads a network in CIDR notation and lists its addresses.
pub fn parse_cidr(s: &[char]) -> (r: Result<Vec<Ipv4Addr>, ParseError>)
    ensures
        r matches Ok(v) ==> cidr_value(s@) == Ok::<Seq<Ipv4Addr>, ParseError>(v@),
        r matches Err(e) ==> cidr_value(s@) == Err::<Seq<Ipv4Addr>, ParseError>(e),
{
    let text = string_of(s);
    match read_network(text.as_str()) {
        Some((ip, prefix)) => Ok(network_hosts(ip, prefix)),
        None => Err(ParseError::InvalidCidr),
    }
}

/// Reads the end of a range that starts at `start`.
fn parse_range_end(start: u32, right: &[char]) -> (r: Result<u32, ParseError>)
    ensures
        r == range_end(start, right@),
{
    if contains_char(right, '.') {
        match parse_dotted(right) {
            Some(end) => Ok(end.to_u32()),
            None => Err(ParseError::InvalidEnd),
        }
    } else {
        match parse_unsigned(right, 255) {
            Some(octet) => Ok(start - start % 256 + octet),
            None => Err(ParseError::InvalidEndOctet),
        }
    }
}

/// Reads a dashed range and lists its addresses.
pub fn parse_range(s: &[char]) -> (r: Result<Vec<Ipv4Addr>, ParseError>)
    ensures
        r matches Ok(v) ==> range_value(s@) == Ok::<Seq<Ipv4Addr>, ParseError>(v@),
        r matches Err(e) ==> range_value(s@) == Err::<Seq<Ipv4Addr>, ParseError>(e),
{
    let n = s.len();
    let i = find_char(s, '-');
    if i >= n {
        return Err(ParseError::InvalidRangeFormat);
    }
    let right_raw = slice_subrange(s, i + 1, n);
    if contains_char(right_raw, '-') {
        return Err(ParseError::InvalidRangeFormat);
    }
    let start = match parse_dotted(trim(slice_subrange(s, 0, i))) {
        Some(a) => a.to_u32(),
        None => {
            return Err(ParseError::InvalidStart);
        },
    };
    match parse_range_end(start, trim(right_raw)) {
        Err(e) => Err(e),
        Ok(end) => {
            if start > end {
                Err(ParseError::StartAfterEnd)
            } else {
                Ok(enumerate(start, end))
            }
        },
    }
}

/// Reads one entry: a network, a range or a single address.
pub fn parse_entry(s: &[char]) -> (r: Result<Vec<Ipv4Addr>, ParseError>)
    ensures
        r matches Ok(v) ==> entry_value(s@) == Ok::<Seq<Ipv4Addr>, ParseError>(v@),
        r matches Err(e) ==> entry_value(s@) == Err::<Seq<Ipv4Addr>, ParseError>(e),
{
    if contains_char(s, '/') {
        parse_cidr(s)
    } else if contains_char(s, '-') {
        parse_range(s)
    } else {
        match parse_dotted(s) {
            Some(a) => {
                let mut v: Vec<Ipv4Addr> = Vec::new();
                v.push(a);
                assert(v@ =~= seq![Ipv4Addr { bits: a@ }]);
                Ok(v)
            },
            None => Err(ParseError::InvalidAddress),
        }
    }
}

/// Reads a comma-separated list of entries and lists their addresses in the order written.
pub fn parse_comma_list(s: &[char]) -> (r: Result<Vec<Ipv4Addr>, ParseError>)
    ensures
        r matches Ok(v) ==> list_value(s@) == Ok::<Seq<Ipv4Addr>, ParseError>(v@),
        r matches Err(e) ==> list_value(s@) == Err::<Seq<Ipv4Addr>, ParseError>(e),
{
    let n = s.len();
    let mut out: Vec<Ipv4Addr> = Vec::new();
    let mut pos: usize = 0;
    assert(s@.skip(0) =~= s@);
    assert(Seq::<Ipv4Addr>::empty() + pieces_value(s@)->Ok_0 =~= pieces_value(s@)->Ok_0);
    loop
        invariant
            pos <= n,
            n == s@.len(),
            pieces_value(s@) == followed_by(out@, pieces_value(s@.skip(pos as int))),
        decreases n - pos,
    {
        let rest = slice_subrange(s, pos, n);
        let i = find_char(rest, ',');
        let piece = trim(slice_subrange(rest, 0, i));
        let ghost before = out@;
        proof {
            assert(rest@ =~= s@.skip(pos as int));
            assert(rest@.subrange(0, i as int) =~= rest@.take(i as int));
            if i >= rest.len() {
                assert(rest@.take(i as int) =~= rest@);
            }
        }
        if piece.len() > 0 {
            match parse_entry(piece) {
                Ok(mut v) => {
                    out.append(&mut v);
                },
                Err(e) => {
                    return Err(e);
                },
            }
        }
        let ghost head = piece_value(rest@.take(i as int))->Ok_0;
        assert(out@ =~= before + head);
        if i >= rest.len() {
            if out.len() == 0 {
                return Err(ParseError::NoAddresses);
            }
            return Ok(out);
        }
        proof {
            let tail = pieces_value(rest@.skip(i + 1));
            assert(rest@.skip(i + 1) =~= s@.skip(pos + i + 1));
            if tail is Ok {
                assert(before + (head + tail->Ok_0) =~= (before + head) + tail->Ok_0);
            }
        }
        pos = pos + i + 1;
    }
}

/// A list of addresses to probe, in the order in which they are to be probed.
#[derive(Debug, Clone)]
pub struct IpRange {
    addresses: Vec<Ipv4Addr>,
}

impl View for IpRange {
    type V = Seq<Ipv4Addr>;

    closed spec fn view(&self) -> Seq<Ipv4Addr> {
        self.addresses@
    }
}

impl IpRange {
    /// Reads a range specification: a single address (`192.168.1.1`), a network
    /// (`192.168.1.0/24`), a range (`192.168.1.1-254` or `192.168.1.1-192.168.1.254`),
    /// or such entries parted by commas. White space round the text and round each
    /// entry is passed over.
    pub fn parse(input: &str) -> (r: Result<IpRange, ParseError>)
        ensures
            r matches Ok(range) ==> range_spec_value(input@) == Ok::<Seq<Ipv4Addr>, ParseError>(
                range@,
            ) && range@.len() > 0,
            r matches Err(e) ==> range_spec_value(input@) == Err::<Seq<Ipv4Addr>, ParseError>(e),
    {
        let chars = chars_of(input);
        let s = trim(chars.as_slice());
        if s.len() == 0 {
            return Err(ParseError::Empty);
        }
        let parsed = if contains_char(s, ',') {
            parse_comma_list(s)
        } else {
            parse_entry(s)
        };
        match parsed {
            Ok(addresses) => {
                proof {
                    lemma_entry_not_empty(s@);
                }
                Ok(IpRange { addresses })
            },
            Err(e) => Err(e),
        }
    }

    /// The addresses, in order.
    pub fn addresses(&self) -> (r: &[Ipv4Addr])
        ensures
            r@ == self@,
    {
        self.addresses.as_slice()
    }

    /// The addresses, in order, as a list of its own.
    pub fn into_addresses(self) -> (r: Vec<Ipv4Addr>)
        ensures
            r@ == self@,
    {
        self.addresses
    }

    /// How many addresses there are.
    pub fn len(&self) -> (r: usize)
        ensures
            r == self@.len(),
    {
        self.addresses.len()
    }

    /// Whether there is no address at all.
    pub fn is_empty(&self) -> (r: bool)
        ensures
            r == (self@.len() == 0),
    {
        self.addresses.len() == 0
    }
}

/// The addresses of a range follow one another from its first to its last: they
/// ascend, and none comes twice.
pub proof fn lemma_span(start: int, count: int)
    requires
        0 <= start,
        0 <= count,
        start + count <= 0x1_0000_0000,
    ensures
        span(start, count).len() == count,
        forall|i: int| 0 <= i < count ==> (#[trigger] span(start, count)[i])@ == start + i,
        forall|i: int, j: int|
            0 <= i < j < count ==> (#[trigger] span(start, count)[i])@ < (#[trigger] span(
                start,
                count,
            )[j])@,
{
}

/// A dashed range that is accepted denotes the addresses from its start to its
/// end, both included, in ascending order.
pub proof fn lemma_range_denotes_span(s: Seq<char>)
    requires
        range_value(s) is Ok,
    ensures
        ({
            let i = first_index(s, '-');
            let start = dotted_value(trimmed(s.take(i)))->Some_0;
            let end = range_end(start, trimmed(s.skip(i + 1)))->Ok_0;
            &&& start <= end
            &&& range_value(s)->Ok_0 == span(start as int, end - start + 1)
            &&& range_value(s)->Ok_0.len() == end - start + 1
            &&& range_value(s)->Ok_0[0]@ == start
            &&& range_value(s)->Ok_0[end - start]@ == end
        }),
{
}

/// Two addresses lie in one network of the given prefix length.
pub open spec fn same_network(x: u32, y: u32, prefix: u8) -> bool {
    x as int / network_size(prefix) == y as int / network_size(prefix)
}

/// A network of prefix length `n` holds 2^(32-n) addresses, which all fit in 32 bits.
pub proof fn lemma_network_fits(ip: u32, prefix: u8)
    requires
        prefix <= 32,
    ensures
        1 <= network_size(prefix) <= 0x1_0000_0000,
        0 <= network_base(ip, prefix) <= ip,
        ip < network_base(ip, prefix) + network_size(prefix) <= 0x1_0000_0000,
        network_base(ip, prefix) % network_size(prefix) == 0,
{
    let k = (32 - prefix) as nat;
    let size = network_size(prefix);
    lemma2_to64();
    lemma_pow2_pos(k);
    if k < 32 {
        lemma_pow2_strictly_increases(k, 32);
    }
    vstd::arithmetic::power2::lemma_pow2_adds(k, prefix as nat);
    let q = pow2(prefix as nat) as int;
    lemma_pow2_pos(prefix as nat);
    assert(size * q == 0x1_0000_0000);
    let d = ip as int / size;
    let m = ip as int % size;
    assert(ip == size * d + m && 0 <= m < size) by {
        vstd::arithmetic::div_mod::lemma_fundamental_div_mod(ip as int, size);
    }
    assert(d < q) by (nonlinear_arith)
        requires
            size * d <= ip,
            ip < size * q,
            size > 0,
    ;
    assert(size * d + size <= size * q) by (nonlinear_arith)
        requires
            d < q,
            size > 0,
    ;
    assert((size * d) % size == 0) by {
        vstd::arithmetic::div_mod::lemma_mod_multiples_basic(d, size);
        assert(size * d == d * size) by (nonlinear_arith);
    }
}

/// The addresses of a network are as many as its prefix length leaves room for, they
/// ascend one by one from the network's lowest address, and they are exactly the
/// addresses that lie in one network with `ip`.
pub proof fn lemma_network_addresses(ip: u32, prefix: u8)
    requires
        prefix <= 32,
    ensures
        network_addresses(ip, prefix).len() == pow2((32 - prefix) as nat),
        forall|i: int|
            0 <= i < network_addresses(ip, prefix).len() ==> (#[trigger] network_addresses(
                ip,
                prefix,
            )[i])@ == network_base(ip, prefix) + i,
        forall|i: int, j: int|
            0 <= i < j < network_addresses(ip, prefix).len() ==> (#[trigger] network_addresses(
                ip,
                prefix,
            )[i])@ < (#[trigger] network_addresses(ip, prefix)[j])@,
        forall|a: Ipv4Addr|
            same_network(a@, ip, prefix) <==> #[trigger] network_addresses(ip, prefix).contains(a),
{
    lemma_network_fits(ip, prefix);
    let a = network_addresses(ip, prefix);
    let size = network_size(prefix);
    let base = network_base(ip, prefix);
    assert forall|x: Ipv4Addr| same_network(x@, ip, prefix) <==> #[trigger] a.contains(x) by {
        lemma_same_network(x@, ip, prefix);
        if base <= x@ < base + size {
            assert(a[x@ - base] == x);
        }
        if a.contains(x) {
            let i = choose|i: int| 0 <= i < a.len() && a[i] == x;
            assert(a[i]@ == base + i);
        }
    }
}

/// An address lies in the network of `ip` exactly if it lies between that network's
/// lowest and highest address.
proof fn lemma_same_network(x: u32, ip: u32, prefix: u8)
    requires
        prefix <= 32,
    ensures
        same_network(x, ip, prefix) <==> network_base(ip, prefix) <= x < network_base(ip, prefix)
            + network_size(prefix),
{
    lemma_network_fits(ip, prefix);
    lemma_network_fits(x, prefix);
    let size = network_size(prefix);
    let (dx, mx) = (x as int / size, x as int % size);
    let (di, mi) = (ip as int / size, ip as int % size);
    vstd::arithmetic::div_mod::lemma_fundamental_div_mod(ip as int, size);
    vstd::arithmetic::div_mod::lemma_fundamental_div_mod(x as int, size);
    assert(0 <= mx < size && 0 <= mi < size);
    if dx == di {
    } else if dx < di {
        assert(size * dx + size <= size * di) by (nonlinear_arith)
            requires
                dx < di,
                size > 0,
        ;
    } else {
        assert(size * di + size <= size * dx) by (nonlinear_arith)
            requires
                di < dx,
                size > 0,
        ;
    }
}

/// An entry that is accepted denotes at least one address, and so does a list.
pub proof fn lemma_entry_not_empty(s: Seq<char>)
    ensures
        entry_value(s) matches Ok(v) ==> v.len() > 0,
        list_value(s) matches Ok(v) ==> v.len() > 0,
{
    if let Some((ip, prefix)) = cidr_text_network(s) {
        if prefix <= 32 {
            lemma_network_fits(ip, prefix);
        }
    }
}

/// A text that is read as the network of `ip` with prefix length `prefix` denotes
/// every address of that network and no other, in strictly ascending order, and
/// 2^(32 - `prefix`) of them.
pub proof fn lemma_cidr_denotes_network(input: Seq<char>, ip: u32, prefix: u8)
    requires
        !trimmed(input).contains(','),
        trimmed(input).contains('/'),
        cidr_text_network(trimmed(input)) == Some((ip, prefix)),
        prefix <= 32,
    ensures
        range_spec_value(input) == Ok::<Seq<Ipv4Addr>, ParseError>(network_addresses(ip, prefix)),
        network_addresses(ip, prefix).len() == pow2((32 - prefix) as nat),
        forall|i: int, j: int|
            0 <= i < j < network_addresses(ip, prefix).len() ==> (#[trigger] network_addresses(
                ip,
                prefix,
            )[i])@ < (#[trigger] network_addresses(ip, prefix)[j])@,
        forall|a: Ipv4Addr|
            same_network(a@, ip, prefix) <==> #[trigger] network_addresses(ip, prefix).contains(a),
{
    lemma_network_addresses(ip, prefix);
    lemma_network_fits(ip, prefix);
    assert(trimmed(input).len() > 0);
}

} // verus!

//! Port scanning: the ports scanned by default, their service names, port
//! lists as users write them, and what a scan's results come to.

use crate::ping::ConnectOutcome;
use crate::sort::{sort_by_key, stable_sorted, SortKey};
use crate::text::{
    chars_of, contains_char, find_char, first_index, parse_unsigned, trim, trimmed,
    unsigned_value,
};
use vstd::prelude::*;
use vstd::slice::slice_subrange;

verus! {

/// The ports that are scanned where none are named.
pub const COMMON_PORTS: [u16; 25] = [
    21,
    22,
    23,
    25,
    53,
    80,
    110,
    111,
    135,
    139,
    143,
    443,
    445,
    993,
    995,
    1433,
    1521,
    3306,
    3389,
    5432,
    5900,
    6379,
    8080,
    8443,
    27017,
];

/// The name of the service that usually listens on `port`, `unknown` for a
/// port without one.
pub open spec fn service_name(port: u16) -> Seq<char> {
    if port == 21 {
        "ftp"@
    } else if port == 22 {
        "ssh"@
    } else if port == 23 {
        "telnet"@
    } else if port == 25 {
        "smtp"@
    } else if port == 53 {
        "dns"@
    } else if port == 80 {
        "http"@
    } else if port == 110 {
        "pop3"@
    } else if port == 111 {
        "rpc"@
    } else if port == 135 {
        "msrpc"@
    } else if port == 139 {
        "netbios"@
    } else if port == 143 {
        "imap"@
    } else if port == 443 {
        "https"@
    } else if port == 445 {
        "smb"@
    } else if port == 993 {
        "imaps"@
    } else if port == 995 {
        "pop3s"@
    } else if port == 1433 {
        "mssql"@
    } else if port == 1521 {
        "oracle"@
    } else if port == 3306 {
        "mysql"@
    } else if port == 3389 {
        "rdp"@
    } else if port == 5432 {
        "postgres"@
    } else if port == 5900 {
        "vnc"@
    } else if port == 6379 {
        "redis"@
    } else if port == 8080 {
        "http-alt"@
    } else if port == 8443 {
        "https-alt"@
    } else if port == 27017 {
        "mongodb"@
    } else {
        "unknown"@
    }
}

/// The name of the service that usually listens on `port`.
pub fn get_service_name(port: u16) -> (r: &'static str)
    ensures
        r@ == service_name(port),
{
    if port == 21 {
        "ftp"
    } else if port == 22 {
        "ssh"
    } else if port == 23 {
        "telnet"
    } else if port == 25 {
        "smtp"
    } else if port == 53 {
        "dns"
    } else if port == 80 {
        "http"
    } else if port == 110 {
        "pop3"
    } else if port == 111 {
        "rpc"
    } else if port == 135 {
        "msrpc"
    } else if port == 139 {
        "netbios"
    } else if port == 143 {
        "imap"
    } else if port == 443 {
        "https"
    } else if port == 445 {
        "smb"
    } else if port == 993 {
        "imaps"
    } else if port == 995 {
        "pop3s"
    } else if port == 1433 {
        "mssql"
    } else if port == 1521 {
        "oracle"
    } else if port == 3306 {
        "mysql"
    } else if port == 3389 {
        "rdp"
    } else if port == 5432 {
        "postgres"
    } else if port == 5900 {
        "vnc"
    } else if port == 6379 {
        "redis"
    } else if port == 8080 {
        "http-alt"
    } else if port == 8443 {
        "https-alt"
    } else if port == 27017 {
        "mongodb"
    } else {
        "unknown"
    }
}

/// What scanning one port has shown.
#[derive(Debug, Clone, Copy)]
pub struct PortResult {
    pub port: u16,
    pub is_open: bool,
    pub service: &'static str,
}

impl SortKey for PortResult {
    open spec fn sort_key(&self) -> u64 {
        self.port as u64
    }

    fn key(&self) -> (k: u64) {
        self.port as u64
    }
}

/// How ports are scanned.
#[derive(Debug, Clone, Copy, PartialEq, Eq, Structural)]
pub struct PortScannerConfig {
    /// How long one connection attempt may take, in milliseconds.
    pub timeout_ms: u64,
    /// How many ports are tried at a time.
    pub concurrent_limit: usize,
}

impl Default for PortScannerConfig {
    fn default() -> (r: PortScannerConfig)
        ensures
            r == (PortScannerConfig { timeout_ms: 500, concurrent_limit: 50 }),
    {
        PortScannerConfig { timeout_ms: 500, concurrent_limit: 50 }
    }
}

/// The result for `port` after a connection attempt that ended as `outcome`: the
/// port is open if the connection was established, closed in every other case,
/// a refusal included.
pub fn port_result(port: u16, outcome: ConnectOutcome) -> (r: PortResult)
    ensures
        r.port == port,
        r.is_open == (outcome == ConnectOutcome::Connected),
        r.service@ == service_name(port),
{
    PortResult { port, is_open: outcome.is_open(), service: get_service_name(port) }
}

/// The result for a port that could not be tried because the scanner is shutting
/// down: closed.
pub fn untried_port(port: u16) -> (r: PortResult)
    ensures
        r.port == port,
        !r.is_open,
        r.service@ == service_name(port),
{
    PortResult { port, is_open: false, service: get_service_name(port) }
}

/// Puts the results of a scan in the order of their port numbers.
pub fn sort_port_results(results: &mut Vec<PortResult>)
    ensures
        final(results)@ == stable_sorted(old(results)@),
{
    sort_by_key(results);
}

/// The ports among `results` that are open, in the order of the results.
pub open spec fn open_ports_of(results: Seq<PortResult>) -> Seq<u16>
    decreases results.len(),
{
    if results.len() == 0 {
        Seq::empty()
    } else if results.last().is_open {
        open_ports_of(results.drop_last()).push(results.last().port)
    } else {
        open_ports_of(results.drop_last())
    }
}

/// The ports among `results` that are open, in the order of the results.
pub fn open_ports(results: &Vec<PortResult>) -> (r: Vec<u16>)
    ensures
        r@ == open_ports_of(results@),
{
    let mut out: Vec<u16> = Vec::new();
    let n = results.len();
    let mut i: usize = 0;
    assert(results@.take(0) =~= Seq::<PortResult>::empty());
    while i < n
        invariant
            i <= n,
            n == results@.len(),
            out@ == open_ports_of(results@.take(i as int)),
        decreases n - i,
    {
        assert(results@.take(i + 1).drop_last() =~= results@.take(i as int));
        if results[i].is_open {
            out.push(results[i].port);
        }
        i += 1;
    }
    assert(results@.take(n as int) =~= results@);
    out
}

/// The ports that one piece of a port list names: a single port, or every port
/// from a first to a last one, both written without white space round them.
/// A piece that is neither names nothing.
pub open spec fn piece_ports(piece: Seq<char>) -> Set<u16> {
    let part = trimmed(piece);
    let i = first_index(part, '-');
    if part.contains('-') {
        if part.skip(i + 1).contains('-') {
            Set::empty()
        } else {
            match (unsigned_value(part.take(i), 65535), unsigned_value(part.skip(i + 1), 65535)) {
                (Some(first), Some(last)) => Set::new(|p: u16| first <= p <= last),
                _ => Set::empty(),
            }
        }
    } else {
        match unsigned_value(part, 65535) {
            Some(port) => Set::new(|p: u16| p == port),
            None => Set::empty(),
        }
    }
}

/// The ports that a comma-separated port list names.
pub open spec fn listed_ports(s: Seq<char>) -> Set<u16>
    decreases s.len(),
{
    let i = first_index(s, ',');
    if 0 <= i < s.len() {
        piece_ports(s.take(i)).union(listed_ports(s.skip(i + 1)))
    } else {
        piece_ports(s)
    }
}

/// Whether each item of `s` is greater than the one before it.
pub open spec fn strictly_ascending(s: Seq<u16>) -> bool {
    forall|i: int, j: int| 0 <= i < j < s.len() ==> s[i] < s[j]
}

/// Marks the ports from `first` to `last` in the table `seen`.
fn mark_ports(seen: &mut Vec<bool>, first: u16, last: u16)
    requires
        old(seen)@.len() == 65536,
    ensures
        final(seen)@.len() == 65536,
        forall|p: int|
            0 <= p < 65536 ==> final(seen)@[p] == (old(seen)@[p] || first <= p <= last),
{
    if first > last {
        return ;
    }
    let mut p: usize = first as usize;
    while p <= last as usize
        invariant
            first <= p <= last + 1,
            seen@.len() == 65536,
            forall|q: int| 0 <= q < 65536 ==> seen@[q] == (old(seen)@[q] || first <= q < p),
        decreases last + 1 - p,
    {
        seen.set(p, true);
        p += 1;
    }
}

/// Marks the ports that `piece` names in the table `seen`.
fn mark_piece(seen: &mut Vec<bool>, piece: &[char])
    requires
        old(seen)@.len() == 65536,
    ensures
        final(seen)@.len() == 65536,
        forall|p: u16|
            final(seen)@[p as int] == (old(seen)@[p as int] || piece_ports(piece@).contains(p)),
{
    let part = trim(piece);
    let n = part.len();
    let i = find_char(part, '-');
    if i < n {
        let rest = slice_subrange(part, i + 1, n);
        if contains_char(rest, '-') {
            return ;
        }
        let first = parse_unsigned(slice_subrange(part, 0, i), 65535);
        let last = parse_unsigned(rest, 65535);
        match (first, last) {
            (Some(a), Some(b)) => {
                mark_ports(seen, a as u16, b as u16);
            },
            _ => {},
        }
    } else {
        match parse_unsigned(part, 65535) {
            Some(port) => {
                mark_ports(seen, port as u16, port as u16);
            },
            None => {},
        }
    }
}

/// Reads a port list such as `80`, `80,443,8080`, `1-1024` or `80,443,1000-2000`
/// and returns the ports it names, each once, in ascending order. Pieces that
/// are no port and no range of ports are passed over.
pub fn parse_ports(input: &str) -> (r: Vec<u16>)
    ensures
        strictly_ascending(r@),
        forall|p: u16| r@.contains(p) <==> listed_ports(input@).contains(p),
{
    let chars = chars_of(input);
    let s = chars.as_slice();
    let n = s.len();
    let mut seen: Vec<bool> = vec![false; 65536];
    let mut pos: usize = 0;
    let mut done = false;
    assert(s@.skip(0) =~= s@);
    while !done
        invariant
            pos <= n,
            n == s@.len(),
            s@ == input@,
            seen@.len() == 65536,
            !done ==> forall|p: u16|
                listed_ports(s@).contains(p) <==> (seen@[p as int] || listed_ports(
                    s@.skip(pos as int),
                ).contains(p)),
            done ==> forall|p: u16| listed_ports(s@).contains(p) <==> seen@[p as int],
        decreases n - pos + (if done { 0int } else { 1int }),
    {
        let rest = slice_subrange(s, pos, n);
        let i = find_char(rest, ',');
        proof {
            assert(rest@ =~= s@.skip(pos as int));
            assert(rest@.subrange(0, i as int) =~= rest@.take(i as int));
            if i >= rest.len() {
                assert(rest@.take(i as int) =~= rest@);
            } else {
                assert(rest@.skip(i + 1) =~= s@.skip(pos + i + 1));
            }
        }
        let ghost before = seen@;
        let ghost piece = rest@.take(i as int);
        mark_piece(&mut seen, slice_subrange(rest, 0, i));
        if i >= rest.len() {
            done = true;
            assert forall|p: u16| listed_ports(s@).contains(p) <==> seen@[p as int] by {
                assert(listed_ports(rest@) == piece_ports(piece));
                assert(seen@[p as int] == (before[p as int] || piece_ports(piece).contains(p)));
            }
        } else {
            let ghost tail = listed_ports(rest@.skip(i + 1));
            assert forall|p: u16|
                listed_ports(s@).contains(p) <==> (seen@[p as int] || tail.contains(p)) by {
                assert(listed_ports(rest@) == piece_ports(piece).union(tail));
                assert(seen@[p as int] == (before[p as int] || piece_ports(piece).contains(p)));
            }
            pos = pos + i + 1;
        }
    }
    let mut out: Vec<u16> = Vec::new();
    let mut p: usize = 0;
    while p < 65536
        invariant
            p <= 65536,
            seen@.len() == 65536,
            strictly_ascending(out@),
            forall|k: int| 0 <= k < out@.len() ==> out@[k] < p,
            forall|q: u16| out@.contains(q) <==> (q < p && seen@[q as int]),
        decreases 65536 - p,
    {
        if seen[p] {
            let ghost before = out@;
            out.push(p as u16);
            proof {
                assert forall|q: u16| out@.contains(q) <==> (q < p + 1 && seen@[q as int]) by {
                    if out@.contains(q) {
                        let k = choose|k: int| 0 <= k < out@.len() && out@[k] == q;
                        if k < before.len() {
                            assert(before[k] == q);
                            assert(before.contains(q));
                        }
                    }
                    if q < p && seen@[q as int] {
                        assert(before.contains(q));
                        let k = choose|k: int| 0 <= k < before.len() && before[k] == q;
                        assert(out@[k] == q);
                    }
                    if q == p {
                        assert(out@[before.len() as int] == q);
                    }
                }
            }
        }
        p += 1;
    }
    out
}

} // verus!

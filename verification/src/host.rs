//! What is known of one host.

use crate::addr::Ipv4Addr;
use crate::mac::{clone_option_string, option_mac, option_text, MacInfo, MacView};
use crate::ping::{HostStatus, PingMethod, PingResult};
use crate::sort::SortKey;
use vstd::prelude::*;

verus! {

/// What is known of one host: what probing it has shown, and what was found
/// out about it afterwards.
#[derive(Debug, Clone)]
pub struct HostInfo {
    pub ip: Ipv4Addr,
    pub is_alive: bool,
    /// The round-trip time of the probe that was answered, in milliseconds.
    pub rtt_ms: Option<u64>,
    pub hostname: Option<String>,
    pub mac: Option<MacInfo>,
    /// The open ports, in ascending order.
    pub open_ports: Vec<u16>,
    /// Whether the host's ports have been scanned.
    pub ports_scanned: bool,
    /// When the record was stored, in seconds since 1970, where it comes from the cache.
    pub cached_at: Option<u64>,
    pub method: PingMethod,
    pub status: HostStatus,
}

/// A [`HostInfo`] as contracts see it.
pub struct HostView {
    pub ip: Ipv4Addr,
    pub is_alive: bool,
    pub rtt_ms: Option<u64>,
    pub hostname: Option<Seq<char>>,
    pub mac: Option<MacView>,
    pub open_ports: Seq<u16>,
    pub ports_scanned: bool,
    pub cached_at: Option<u64>,
    pub method: PingMethod,
    pub status: HostStatus,
}

impl View for HostInfo {
    type V = HostView;

    open spec fn view(&self) -> HostView {
        HostView {
            ip: self.ip,
            is_alive: self.is_alive,
            rtt_ms: self.rtt_ms,
            hostname: option_text(self.hostname),
            mac: option_mac(self.mac),
            open_ports: self.open_ports@,
            ports_scanned: self.ports_scanned,
            cached_at: self.cached_at,
            method: self.method,
            status: self.status,
        }
    }
}

/// The views of a list of hosts.
pub open spec fn host_views(hosts: Seq<HostInfo>) -> Seq<HostView> {
    Seq::new(hosts.len(), |i: int| hosts[i]@)
}

impl SortKey for HostInfo {
    open spec fn sort_key(&self) -> u64 {
        self.ip.bits as u64
    }

    fn key(&self) -> (k: u64) {
        self.ip.to_u32() as u64
    }
}

/// The record of a host of which only the probe's result is known.
pub open spec fn discovered(result: PingResult) -> HostView {
    HostView {
        ip: result.ip,
        is_alive: result.is_alive,
        rtt_ms: result.rtt_ms,
        hostname: None,
        mac: None,
        open_ports: Seq::empty(),
        ports_scanned: false,
        cached_at: None,
        method: result.method,
        status: result.status,
    }
}

/// What is to be looked up about a host that was just probed.
#[derive(Debug, Clone, Copy, PartialEq, Eq, Structural)]
pub struct Enrichment {
    /// Whether the host's name is to be looked up.
    pub hostname: bool,
    /// Whether the host's hardware address is to be looked up.
    pub mac: bool,
}

/// What is to be looked up about a host with the given liveness: nothing about a
/// host that is not alive; about one that is, what the settings ask for.
pub fn enrichment_for(is_alive: bool, resolve_hostnames: bool, detect_mac: bool) -> (r: Enrichment)
    ensures
        r == (Enrichment { hostname: is_alive && resolve_hostnames, mac: is_alive && detect_mac }),
{
    Enrichment { hostname: is_alive && resolve_hostnames, mac: is_alive && detect_mac }
}

impl HostInfo {
    /// Writes down what a lookup of the host's name gave. A lookup that gave
    /// nothing leaves the record as it is.
    pub fn note_hostname(&mut self, name: Option<String>)
        ensures
            *final(self) == if name is Some {
                HostInfo { hostname: name, ..*old(self) }
            } else {
                *old(self)
            },
    {
        if name.is_some() {
            self.hostname = name;
        }
    }

    /// Writes down what a lookup of the host's hardware address gave. A lookup
    /// that gave nothing leaves the record as it is.
    pub fn note_mac(&mut self, mac: Option<MacInfo>)
        ensures
            *final(self) == if mac is Some {
                HostInfo { mac, ..*old(self) }
            } else {
                *old(self)
            },
    {
        if mac.is_some() {
            self.mac = mac;
        }
    }

    /// A copy of the record.
    pub fn duplicate(&self) -> (r: HostInfo)
        ensures
            r@ == self@,
            r.hostname == self.hostname,
            r.mac == self.mac,
    {
        let mac = match &self.mac {
            Some(m) => Some(m.duplicate()),
            None => None,
        };
        let mut open_ports: Vec<u16> = Vec::new();
        let n = self.open_ports.len();
        let mut i: usize = 0;
        while i < n
            invariant
                i <= n,
                n == self.open_ports@.len(),
                open_ports@ == self.open_ports@.take(i as int),
            decreases n - i,
        {
            open_ports.push(self.open_ports[i]);
            assert(open_ports@ =~= self.open_ports@.take(i + 1));
            i += 1;
        }
        assert(self.open_ports@.take(n as int) =~= self.open_ports@);
        HostInfo {
            ip: self.ip,
            is_alive: self.is_alive,
            rtt_ms: self.rtt_ms,
            hostname: clone_option_string(&self.hostname),
            mac,
            open_ports,
            ports_scanned: self.ports_scanned,
            cached_at: self.cached_at,
            method: self.method,
            status: self.status,
        }
    }
}

impl vstd::std_specs::convert::FromSpecImpl<PingResult> for HostInfo {
    open spec fn obeys_from_spec() -> bool {
        false
    }

    open spec fn from_spec(v: PingResult) -> HostInfo {
        arbitrary()
    }
}

impl From<PingResult> for HostInfo {
    /// The record of a host that has just been probed.
    fn from(result: PingResult) -> (r: HostInfo)
        ensures
            r@ == discovered(result),
    {
        HostInfo {
            ip: result.ip,
            is_alive: result.is_alive,
            rtt_ms: result.rtt_ms,
            hostname: None,
            mac: None,
            open_ports: Vec::new(),
            ports_scanned: false,
            cached_at: None,
            method: result.method,
            status: result.status,
        }
    }
}

} // verus!

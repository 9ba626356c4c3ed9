//! What is written out about hosts: the report of one host, and the rows and
//! records of an export.

use crate::addr::{dotted_text, Ipv4Addr};
use crate::app::App;
use crate::host::HostInfo;
use crate::mac::{clone_option_string, option_text};
use crate::text::{decimal_text, push_decimal};
use vstd::prelude::*;

verus! {

broadcast use vstd::std_specs::hash::group_hash_axioms;

/// `Online` for a host that is alive, `Offline` for one that is not.
pub open spec fn liveness_word(is_alive: bool) -> Seq<char> {
    if is_alive {
        "Online"@
    } else {
        "Offline"@
    }
}

fn liveness(is_alive: bool) -> (r: &'static str)
    ensures
        r@ == liveness_word(is_alive),
{
    if is_alive {
        "Online"
    } else {
        "Offline"
    }
}

/// One line for each port: two blanks and the number.
pub open spec fn port_lines(ports: Seq<u16>) -> Seq<char>
    decreases ports.len(),
{
    if ports.len() == 0 {
        Seq::empty()
    } else {
        port_lines(ports.drop_last()) + "  "@ + decimal_text(ports.last() as nat) + "\n"@
    }
}

/// The line of the report on the round-trip time, if one is known.
pub open spec fn rtt_line(rtt_ms: Option<u64>) -> Seq<char> {
    match rtt_ms {
        Some(ms) => "RTT:    "@ + decimal_text(ms as nat) + "ms\n"@,
        None => Seq::empty(),
    }
}

/// The line of the report on the name, if one is known.
pub open spec fn name_line(hostname: Option<String>) -> Seq<char> {
    match hostname {
        Some(name) => "Host:   "@ + name@ + "\n"@,
        None => Seq::empty(),
    }
}

/// The lines of the report on the hardware address and its maker, as far as known.
pub open spec fn mac_lines(host: HostInfo) -> Seq<char> {
    match host.mac {
        Some(m) => "MAC:    "@ + m.address@ + "\n"@ + match m.vendor {
            Some(v) => "Vendor: "@ + v@ + "\n"@,
            None => Seq::empty(),
        },
        None => Seq::empty(),
    }
}

/// The part of the report on the open ports, if there are any.
pub open spec fn ports_part(ports: Seq<u16>) -> Seq<char> {
    if ports.len() > 0 {
        "\nOpen Ports:\n"@ + port_lines(ports)
    } else {
        Seq::empty()
    }
}

/// The report of a host: its address and whether it is alive; then, as far as
/// known, the round-trip time, the name, the hardware address and its maker;
/// then the open ports.
pub open spec fn report_text(host: HostInfo) -> Seq<char> {
    "IP:     "@ + dotted_text(host.ip@) + "\n"@ + "Status: "@ + liveness_word(host.is_alive) + "\n"@
        + rtt_line(host.rtt_ms) + name_line(host.hostname) + mac_lines(host) + ports_part(
        host.open_ports@,
    )
}

/// The name of the file that takes the report of the host with the address `ip`.
pub open spec fn report_name(ip: Ipv4Addr) -> Seq<char> {
    "ipscannr_host_"@ + dotted_text(ip@) + ".txt"@
}

fn push_port_lines(out: &mut String, ports: &Vec<u16>)
    ensures
        final(out)@ == old(out)@ + port_lines(ports@),
{
    let n = ports.len();
    let mut i: usize = 0;
    assert(ports@.take(0) =~= Seq::<u16>::empty());
    assert(out@ =~= old(out)@ + port_lines(ports@.take(0)));
    while i < n
        invariant
            i <= n,
            n == ports@.len(),
            out@ == old(out)@ + port_lines(ports@.take(i as int)),
        decreases n - i,
    {
        let ghost before = out@;
        out.append("  ");
        push_decimal(out, ports[i] as u64);
        out.append("\n");
        proof {
            let upto = ports@.take(i + 1);
            assert(upto.drop_last() =~= ports@.take(i as int));
            assert(upto.last() == ports@[i as int]);
            assert(out@ =~= old(out)@ + port_lines(upto));
        }
        i += 1;
    }
    assert(ports@.take(n as int) =~= ports@);
}

fn push_rtt_line(out: &mut String, rtt_ms: Option<u64>)
    ensures
        final(out)@ == old(out)@ + rtt_line(rtt_ms),
{
    if let Some(ms) = rtt_ms {
        out.append("RTT:    ");
        push_decimal(out, ms);
        out.append("ms\n");
    }
    assert(out@ =~= old(out)@ + rtt_line(rtt_ms));
}

fn push_name_line(out: &mut String, hostname: &Option<String>)
    ensures
        final(out)@ == old(out)@ + name_line(*hostname),
{
    if let Some(name) = hostname {
        out.append("Host:   ");
        out.append(name.as_str());
        out.append("\n");
    }
    assert(out@ =~= old(out)@ + name_line(*hostname));
}

fn push_mac_lines(out: &mut String, host: &HostInfo)
    ensures
        final(out)@ == old(out)@ + mac_lines(*host),
{
    if let Some(m) = &host.mac {
        out.append("MAC:    ");
        out.append(m.address.as_str());
        out.append("\n");
        if let Some(v) = &m.vendor {
            out.append("Vendor: ");
            out.append(v.as_str());
            out.append("\n");
        }
    }
    assert(out@ =~= old(out)@ + mac_lines(*host));
}

fn push_ports_part(out: &mut String, ports: &Vec<u16>)
    ensures
        final(out)@ == old(out)@ + ports_part(ports@),
{
    if ports.len() > 0 {
        out.append("\nOpen Ports:\n");
        push_port_lines(out, ports);
    }
    assert(out@ =~= old(out)@ + ports_part(ports@));
}

/// The report of `host`.
pub fn host_report(host: &HostInfo) -> (r: String)
    ensures
        r@ == report_text(*host),
{
    let mut out = String::from_str("IP:     ");
    out.append(host.ip.to_string().as_str());
    out.append("\n");
    out.append("Status: ");
    out.append(liveness(host.is_alive));
    out.append("\n");
    push_rtt_line(&mut out, host.rtt_ms);
    push_name_line(&mut out, &host.hostname);
    push_mac_lines(&mut out, host);
    push_ports_part(&mut out, &host.open_ports);
    out
}

/// The name of the file that takes the report of the host with the address `ip`.
pub fn report_filename(ip: Ipv4Addr) -> (r: String)
    ensures
        r@ == report_name(ip),
{
    let mut out = String::from_str("ipscannr_host_");
    out.append(ip.to_string().as_str());
    out.append(".txt");
    out
}

/// The ports as numbers parted by semicolons.
pub open spec fn joined_ports(ports: Seq<u16>) -> Seq<char>
    decreases ports.len(),
{
    if ports.len() == 0 {
        Seq::empty()
    } else if ports.len() == 1 {
        decimal_text(ports[0] as nat)
    } else {
        joined_ports(ports.drop_last()) + ";"@ + decimal_text(ports.last() as nat)
    }
}

/// The text of an optional string, empty where there is none.
pub open spec fn text_or_empty(o: Option<String>) -> Seq<char> {
    match o {
        Some(s) => s@,
        None => Seq::empty(),
    }
}

/// The fields of a host's row in a table that is exported: address, liveness,
/// round-trip time in milliseconds, name, hardware address, its maker, open ports.
/// What is not known is left empty.
pub open spec fn row_texts(host: HostInfo) -> Seq<Seq<char>> {
    seq![
        dotted_text(host.ip@),
        liveness_word(host.is_alive),
        match host.rtt_ms {
            Some(ms) => decimal_text(ms as nat),
            None => Seq::empty(),
        },
        text_or_empty(host.hostname),
        match host.mac {
            Some(m) => m.address@,
            None => Seq::empty(),
        },
        match host.mac {
            Some(m) => text_or_empty(m.vendor),
            None => Seq::empty(),
        },
        joined_ports(host.open_ports@),
    ]
}

/// The texts of a list of strings.
pub open spec fn texts_of(strings: Seq<String>) -> Seq<Seq<char>> {
    Seq::new(strings.len(), |i: int| strings[i]@)
}

fn join_ports(ports: &Vec<u16>) -> (r: String)
    ensures
        r@ == joined_ports(ports@),
{
    let mut out = String::new();
    let n = ports.len();
    let mut i: usize = 0;
    assert(ports@.take(0) =~= Seq::<u16>::empty());
    while i < n
        invariant
            i <= n,
            n == ports@.len(),
            out@ == joined_ports(ports@.take(i as int)),
        decreases n - i,
    {
        let ghost before = out@;
        if i > 0 {
            out.append(";");
        }
        push_decimal(&mut out, ports[i] as u64);
        proof {
            let upto = ports@.take(i + 1);
            assert(upto.drop_last() =~= ports@.take(i as int));
            assert(upto.last() == ports@[i as int]);
            if i == 0 {
                assert(upto[0] == ports@[0]);
                assert(out@ =~= decimal_text(ports@[0] as nat));
            } else {
                assert(out@ =~= joined_ports(upto));
            }
        }
        i += 1;
    }
    assert(ports@.take(n as int) =~= ports@);
    out
}

fn string_or_empty(o: &Option<String>) -> (r: String)
    ensures
        r@ == text_or_empty(*o),
{
    match o {
        Some(s) => s.clone(),
        None => String::new(),
    }
}

/// The heads of the columns of a table that is exported.
pub fn export_header() -> (r: [&'static str; 7])
    ensures
        r[0]@ == "IP"@,
        r[1]@ == "Status"@,
        r[2]@ == "RTT (ms)"@,
        r[3]@ == "Hostname"@,
        r[4]@ == "MAC"@,
        r[5]@ == "Vendor"@,
        r[6]@ == "Ports"@,
{
    ["IP", "Status", "RTT (ms)", "Hostname", "MAC", "Vendor", "Ports"]
}

/// The fields of the row of `host` in a table that is exported.
pub fn export_row(host: &HostInfo) -> (r: Vec<String>)
    ensures
        texts_of(r@) == row_texts(*host),
{
    let mut row: Vec<String> = Vec::new();
    row.push(host.ip.to_string());
    row.push(String::from_str(liveness(host.is_alive)));
    row.push(
        match host.rtt_ms {
            Some(ms) => {
                let mut s = String::new();
                push_decimal(&mut s, ms);
                assert(s@ =~= decimal_text(ms as nat));
                s
            },
            None => String::new(),
        },
    );
    row.push(string_or_empty(&host.hostname));
    row.push(
        match &host.mac {
            Some(m) => m.address.clone(),
            None => String::new(),
        },
    );
    row.push(
        match &host.mac {
            Some(m) => string_or_empty(&m.vendor),
            None => String::new(),
        },
    );
    row.push(join_ports(&host.open_ports));
    assert(texts_of(row@) =~= row_texts(*host));
    row
}

/// The record of a host in a list that is exported.
#[derive(Debug, Clone)]
pub struct ExportHost {
    pub ip: String,
    pub is_alive: bool,
    pub rtt_ms: Option<u64>,
    pub hostname: Option<String>,
    pub mac_address: Option<String>,
    pub mac_vendor: Option<String>,
    pub open_ports: Vec<u16>,
}

/// The record of `host` in a list that is exported.
pub fn export_host(host: &HostInfo) -> (r: ExportHost)
    ensures
        r.ip@ == dotted_text(host.ip@),
        r.is_alive == host.is_alive,
        r.rtt_ms == host.rtt_ms,
        r.hostname == host.hostname,
        option_text(r.mac_address) == match host.mac {
            Some(m) => Some(m.address@),
            None => None,
        },
        option_text(r.mac_vendor) == match host.mac {
            Some(m) => option_text(m.vendor),
            None => None,
        },
        r.open_ports@ == host.open_ports@,
{
    let (mac_address, mac_vendor) = match &host.mac {
        Some(m) => (Some(m.address.clone()), clone_option_string(&m.vendor)),
        None => (None, None),
    };
    let copy = host.duplicate();
    ExportHost {
        ip: host.ip.to_string(),
        is_alive: host.is_alive,
        rtt_ms: host.rtt_ms,
        hostname: clone_option_string(&host.hostname),
        mac_address,
        mac_vendor,
        open_ports: copy.open_ports,
    }
}

/// The hosts that an export covers: those that are marked, or all where none is marked.
pub open spec fn export_choice(hosts: Seq<HostInfo>, marked: Set<u32>) -> Seq<HostInfo>
    decreases hosts.len(),
{
    if hosts.len() == 0 {
        Seq::empty()
    } else {
        let rest = export_choice(hosts.drop_last(), marked);
        if marked.len() == 0 || marked.contains(hosts.last().ip@) {
            rest.push(hosts.last())
        } else {
            rest
        }
    }
}

impl App {
    /// The hosts that an export covers: those that are marked, or all where
    /// none is marked, in the order of the table's hosts.
    pub fn hosts_for_export(&self) -> (r: Vec<&HostInfo>)
        ensures
            r@.len() == export_choice(self.session@.hosts, self.selected_hosts@).len(),
            forall|k: int|
                0 <= k < r@.len() ==> *(#[trigger] r@[k]) == export_choice(
                    self.session@.hosts,
                    self.selected_hosts@,
                )[k],
    {
        let hosts = self.session.hosts();
        let all = self.selected_hosts.len() == 0;
        let mut out: Vec<&HostInfo> = Vec::new();
        let n = hosts.len();
        let mut i: usize = 0;
        assert(hosts@.take(0) =~= Seq::<HostInfo>::empty());
        while i < n
            invariant
                i <= n,
                n == hosts@.len(),
                all == (self.selected_hosts@.len() == 0),
                out@.len() == export_choice(hosts@.take(i as int), self.selected_hosts@).len(),
                forall|k: int|
                    0 <= k < out@.len() ==> *(#[trigger] out@[k]) == export_choice(
                        hosts@.take(i as int),
                        self.selected_hosts@,
                    )[k],
            decreases n - i,
        {
            assert(hosts@.take(i + 1).drop_last() =~= hosts@.take(i as int));
            let key: u32 = hosts[i].ip.to_u32();
            if all || self.selected_hosts.contains(&key) {
                out.push(&hosts[i]);
            }
            i += 1;
        }
        assert(hosts@.take(n as int) =~= hosts@);
        out
    }
}

/// An export without marked hosts covers every host, in order.
pub proof fn lemma_export_all(hosts: Seq<HostInfo>)
    ensures
        export_choice(hosts, Set::<u32>::empty()) == hosts,
    decreases hosts.len(),
{
    if hosts.len() > 0 {
        lemma_export_all(hosts.drop_last());
        assert(hosts.drop_last().push(hosts.last()) =~= hosts);
    }
}

} // verus!

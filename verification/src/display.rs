//! The texts that the interface shows.

use crate::addr::{dotted_text, Ipv4Addr};
use crate::app::{alive_count, same_inputs, same_overlay, same_scan, status_line, App};
use crate::export::{host_report, report_filename, report_name, report_text};
use crate::host::HostInfo;
use crate::mac::{option_text, MacInfo};
use crate::port::{get_service_name, service_name};
use crate::range::ParseError;
use crate::session::ScanState;
use crate::text::{decimal_text, push_decimal};
use vstd::prelude::*;

verus! {

broadcast use vstd::std_specs::hash::group_hash_axioms;

/// Whether one of `hosts` comes from the cache.
pub open spec fn any_cached(hosts: Seq<HostInfo>) -> bool {
    exists|i: int| 0 <= i < hosts.len() && (#[trigger] hosts[i]).cached_at is Some
}

/// The lines of an overlay that are in view: where the view starts and how many
/// lines it holds. The last row of the overlay is kept for a hint, and the view
/// never starts so late that rows stay empty while lines are left out above.
pub open spec fn overlay_view(lines: nat, scroll: usize, height: u16) -> (int, int) {
    let room: int = if height > 0 {
        height - 1
    } else {
        0
    };
    let last_start: int = if lines > room {
        lines - room
    } else {
        0
    };
    let start: int = if scroll < last_start {
        scroll as int
    } else {
        last_start
    };
    (
        start,
        if lines - start < room {
            lines - start
        } else {
            room
        },
    )
}

/// The lines of an overlay of `height` rows that are in view, of `lines` lines and
/// with the view asked to start at `scroll`.
pub fn overlay_window(lines: usize, scroll: usize, height: u16) -> (r: (usize, usize))
    ensures
        (r.0 as int, r.1 as int) == overlay_view(lines as nat, scroll, height),
        r.0 + r.1 <= lines,
{
    let room: usize = if height > 0 {
        (height - 1) as usize
    } else {
        0
    };
    let last_start: usize = if lines > room {
        lines - room
    } else {
        0
    };
    let start: usize = if scroll < last_start {
        scroll
    } else {
        last_start
    };
    let count: usize = if lines - start < room {
        lines - start
    } else {
        room
    };
    (start, count)
}

/// The line that a continuous ping shows for its `seq`-th attempt.
pub open spec fn ping_text(seq: u32, ip: Ipv4Addr, reply: Option<u64>) -> Seq<char> {
    match reply {
        Some(ms) => "["@ + decimal_text(seq as nat) + "] Reply from "@ + dotted_text(ip@)
            + ": time="@ + decimal_text(ms as nat) + "ms"@,
        None => "["@ + decimal_text(seq as nat) + "] Request timed out for "@ + dotted_text(ip@),
    }
}

/// The line that a continuous ping shows for its `seq`-th attempt: the time that
/// the answer took, or that none came.
pub fn ping_line(seq: u32, ip: Ipv4Addr, reply: Option<u64>) -> (r: String)
    ensures
        r@ == ping_text(seq, ip, reply),
{
    let mut out = String::from_str("[");
    push_decimal(&mut out, seq as u64);
    match reply {
        Some(ms) => {
            out.append("] Reply from ");
            out.append(ip.to_string().as_str());
            out.append(": time=");
            push_decimal(&mut out, ms);
            out.append("ms");
        },
        None => {
            out.append("] Request timed out for ");
            out.append(ip.to_string().as_str());
        },
    }
    out
}

/// What the table shows as the name of a host: its name; else, in brackets, who
/// made its hardware; else a dash.
pub open spec fn name_cell_text(host: HostInfo) -> Seq<char> {
    match host.hostname {
        Some(name) => name@,
        None => match host.mac {
            Some(m) => match m.vendor {
                Some(v) => "["@ + v@ + "]"@,
                None => "-"@,
            },
            None => "-"@,
        },
    }
}

/// What the table shows as the name of `host`, and whether it stands in for the
/// name and is to be drawn dimmed.
pub fn name_cell(host: &HostInfo) -> (r: (String, bool))
    ensures
        r.0@ == name_cell_text(*host),
        r.1 == (host.hostname is None && host.mac is Some && host.mac->Some_0.vendor is Some),
{
    if let Some(name) = &host.hostname {
        return (name.clone(), false);
    }
    if let Some(m) = &host.mac {
        if let Some(v) = &m.vendor {
            let mut out = String::from_str("[");
            out.append(v.as_str());
            out.append("]");
            return (out, true);
        }
    }
    (String::from_str("-"), false)
}

/// What is shown as the round-trip time: the milliseconds, or a dash.
pub fn rtt_cell(rtt_ms: Option<u64>) -> (r: String)
    ensures
        r@ == match rtt_ms {
            Some(ms) => decimal_text(ms as nat) + "ms"@,
            None => "-"@,
        },
{
    match rtt_ms {
        Some(ms) => {
            let mut out = String::new();
            push_decimal(&mut out, ms);
            out.append("ms");
            assert(out@ =~= decimal_text(ms as nat) + "ms"@);
            out
        },
        None => String::from_str("-"),
    }
}

/// What is shown as the hardware address: the address and, in parentheses, who
/// made the hardware, where that is known.
pub fn mac_cell(mac: &MacInfo) -> (r: String)
    ensures
        r@ == match mac.vendor {
            Some(v) => mac.address@ + " ("@ + v@ + ")"@,
            None => mac.address@,
        },
{
    match &mac.vendor {
        Some(v) => {
            let mut out = mac.address.clone();
            out.append(" (");
            out.append(v.as_str());
            out.append(")");
            out
        },
        None => mac.address.clone(),
    }
}

/// As many blanks as fill a number up to five characters.
pub open spec fn padding(digits: nat) -> Seq<char> {
    if digits >= 5 {
        Seq::empty()
    } else {
        Seq::new((5 - digits) as nat, |i: int| ' ')
    }
}

/// The line of an open port in the details: the number, set to the right in
/// five characters between two blanks and one, and the service's name.
pub fn port_cells(port: u16) -> (r: (String, &'static str))
    ensures
        r.0@ == "  "@ + padding(decimal_text(port as nat).len()) + decimal_text(port as nat)
            + " "@,
        r.1@ == service_name(port),
{
    let digits: usize = if port >= 10000 {
        5
    } else if port >= 1000 {
        4
    } else if port >= 100 {
        3
    } else if port >= 10 {
        2
    } else {
        1
    };
    proof {
        lemma_digit_count(port);
        reveal_strlit(" ");
    }
    let mut out = String::from_str("  ");
    let ghost head = out@;
    let mut i: usize = digits;
    while i < 5
        invariant
            digits <= i <= 5,
            out@ == head + Seq::new((i - digits) as nat, |k: int| ' '),
            " "@ == seq![' '],
        decreases 5 - i,
    {
        out.append(" ");
        assert(out@ =~= head + Seq::new((i + 1 - digits) as nat, |k: int| ' '));
        i += 1;
    }
    assert(out@ =~= head + padding(digits as nat));
    push_decimal(&mut out, port as u64);
    out.append(" ");
    (out, get_service_name(port))
}

/// How many digits the numeral of a port number has.
pub proof fn lemma_digit_count(port: u16)
    ensures
        decimal_text(port as nat).len() == if port >= 10000 {
            5nat
        } else if port >= 1000 {
            4nat
        } else if port >= 100 {
            3nat
        } else if port >= 10 {
            2nat
        } else {
            1nat
        },
{
    let n = port as nat;
    if n >= 10 {
        assert(decimal_text(n) == decimal_text(n / 10).push(crate::text::digit_char((n % 10) as int)));
        if n >= 100 {
            assert(decimal_text(n / 10) == decimal_text(n / 100).push(
                crate::text::digit_char(((n / 10) % 10) as int),
            ));
            if n >= 1000 {
                assert(decimal_text(n / 100) == decimal_text(n / 1000).push(
                    crate::text::digit_char(((n / 100) % 10) as int),
                ));
                if n >= 10000 {
                    assert(decimal_text(n / 1000) == decimal_text(n / 10000).push(
                        crate::text::digit_char(((n / 1000) % 10) as int),
                    ));
                }
            }
        }
    }
}

/// The ports that a continuous ping tries, in the order tried.
pub fn continuous_ping_ports() -> (r: [u16; 5])
    ensures
        r[0] == 80 && r[1] == 443 && r[2] == 22 && r[3] == 445 && r[4] == 139,
{
    [80, 443, 22, 445, 139]
}

/// The number of the attempt that follows the `seq`-th of a continuous ping.
pub fn next_ping_seq(seq: u32) -> (r: u32)
    ensures
        r == if seq == u32::MAX {
            1
        } else {
            seq + 1
        },
{
    if seq == u32::MAX {
        1
    } else {
        seq + 1
    }
}

/// The title of the overlay of a continuous ping of `ip`.
pub fn ping_title(ip: Ipv4Addr) -> (r: String)
    ensures
        r@ == "Continuous Ping — "@ + dotted_text(ip@),
{
    let mut out = String::from_str("Continuous Ping — ");
    out.append(ip.to_string().as_str());
    out
}

/// The title of the overlay of a route trace to `ip`.
pub fn tracert_title(ip: Ipv4Addr) -> (r: String)
    ensures
        r@ == "Tracert — "@ + dotted_text(ip@),
{
    let mut out = String::from_str("Tracert — ");
    out.append(ip.to_string().as_str());
    out
}

/// The name of the file that takes an export made at the time `timestamp`.
pub open spec fn export_name(timestamp: u64, json: bool) -> Seq<char> {
    "ipscannr_export_"@ + decimal_text(timestamp as nat) + if json {
        ".json"@
    } else {
        ".csv"@
    }
}

/// The name of the file that takes an export made at the time `timestamp`, given
/// in seconds since 1970.
pub fn export_filename(timestamp: u64, json: bool) -> (r: String)
    ensures
        r@ == export_name(timestamp, json),
{
    let mut out = String::from_str("ipscannr_export_");
    push_decimal(&mut out, timestamp);
    if json {
        out.append(".json");
    } else {
        out.append(".csv");
    }
    out
}

impl App {
    /// The title of the range field: it names the kind of the adapter whose
    /// network stands in the field, or says that the user has written the range.
    pub fn range_title(&self) -> (r: String)
        ensures
            r@ == match self.adapter_index {
                Some(i) => if i < self.adapters@.len() {
                    " Range ["@ + self.adapters@[i as int].adapter_type.name() + "] "@
                } else {
                    " Range "@
                },
                None => if self.adapters@.len() > 0 {
                    " Range [Custom] "@
                } else {
                    " Range "@
                },
            },
    {
        match self.current_adapter() {
            Some(adapter) => {
                let mut out = String::from_str(" Range [");
                out.append(adapter.adapter_type.to_string().as_str());
                out.append("] ");
                out
            },
            None => {
                if self.adapter_index.is_none() && self.adapters.len() > 0 {
                    String::from_str(" Range [Custom] ")
                } else {
                    String::from_str(" Range ")
                }
            },
        }
    }

    fn has_cached(&self) -> (r: bool)
        ensures
            r == any_cached(self.session@.hosts),
    {
        let hosts = self.session.hosts();
        let n = hosts.len();
        let mut i: usize = 0;
        while i < n
            invariant
                i <= n,
                n == hosts@.len(),
                hosts@ == self.session@.hosts,
                forall|j: int| 0 <= j < i ==> (#[trigger] hosts@[j]).cached_at is None,
            decreases n - i,
        {
            if hosts[i].cached_at.is_some() {
                assert(hosts@[i as int].cached_at is Some);
                return true;
            }
            i += 1;
        }
        false
    }

    /// The text in the status box of the header while no scan runs: the summary
    /// of a scan that is over; the count of hosts from the cache while they are
    /// shown; else the short text on the state.
    pub fn header_text(&self) -> (r: String)
        ensures
            r@ == if self.session@.state == ScanState::Completed {
                decimal_text(self.session@.hosts.len()) + " hosts ("@ + decimal_text(
                    alive_count(self.session@.hosts),
                ) + " online)"@
            } else if self.session@.state == ScanState::Idle && any_cached(self.session@.hosts) {
                decimal_text(self.session@.hosts.len()) + " cached ("@ + decimal_text(
                    alive_count(self.session@.hosts),
                ) + " online)"@
            } else {
                status_line(self.adapters_loading, self.animation_tick, self.session@)
            },
    {
        match self.session.state() {
            ScanState::Completed => self.completion_summary(),
            ScanState::Idle => {
                if self.has_cached() {
                    let mut out = String::new();
                    push_decimal(&mut out, self.session.hosts().len() as u64);
                    out.append(" cached (");
                    push_decimal(&mut out, self.online_count() as u64);
                    out.append(" online)");
                    assert(out@ =~= decimal_text(self.session@.hosts.len()) + " cached ("@
                        + decimal_text(alive_count(self.session@.hosts)) + " online)"@);
                    out
                } else {
                    self.status_text()
                }
            },
            _ => self.status_text(),
        }
    }

    /// The text on the right of the status line: how many hosts are marked, if
    /// any; how many are alive; and the short text on the state.
    pub fn status_right_text(&self) -> (r: String)
        ensures
            r@ == (if self.selected_hosts@.len() > 0 {
                "["@ + decimal_text(self.selected_hosts@.len()) + "✓] "@
            } else {
                Seq::<char>::empty()
            }) + decimal_text(alive_count(self.session@.hosts)) + " online | "@ + status_line(
                self.adapters_loading,
                self.animation_tick,
                self.session@,
            ),
    {
        let mut out = String::new();
        let marked = self.selected_hosts.len();
        if marked > 0 {
            out.append("[");
            push_decimal(&mut out, marked as u64);
            out.append("✓] ");
        }
        assert(out@ =~= (if self.selected_hosts@.len() > 0 {
            "["@ + decimal_text(self.selected_hosts@.len()) + "✓] "@
        } else {
            Seq::<char>::empty()
        }));
        push_decimal(&mut out, self.online_count() as u64);
        out.append(" online | ");
        out.append(self.status_text().as_str());
        out
    }

    /// What an export covers, in words.
    pub fn export_scope_text(&self) -> (r: String)
        ensures
            r@ == if self.selected_hosts@.len() == 0 {
                "All "@ + decimal_text(self.session@.hosts.len()) + " hosts"@
            } else {
                decimal_text(self.selected_hosts@.len()) + " selected host(s)"@
            },
    {
        let marked = self.selected_hosts.len();
        if marked == 0 {
            let mut out = String::from_str("All ");
            push_decimal(&mut out, self.session.hosts().len() as u64);
            out.append(" hosts");
            out
        } else {
            let mut out = String::new();
            push_decimal(&mut out, marked as u64);
            out.append(" selected host(s)");
            assert(out@ =~= decimal_text(self.selected_hosts@.len()) + " selected host(s)"@);
            out
        }
    }

    /// The file that is to take the report of the host under the cursor, and the
    /// report: `None` where the cursor stands on no host.
    pub fn save_request(&self) -> (r: Option<(String, String)>)
        ensures
            r is Some == self.selected_row() is Some,
            r matches Some(pair) ==> pair.0@ == report_name(self.selected_row()->Some_0.ip)
                && pair.1@ == report_text(self.selected_row()->Some_0),
    {
        match self.selected_host() {
            Some(host) => Some((report_filename(host.ip), host_report(host))),
            None => None,
        }
    }

    /// Gets the report of the host under the cursor ready to be written: returns
    /// the name of the file and the report. Where the cursor stands on no host,
    /// the user is told so.
    pub fn save_selected_host(&mut self) -> (r: Option<(String, String)>)
        ensures
            r is Some == old(self).selected_row() is Some,
            r matches Some(pair) ==> pair.0@ == report_name(old(self).selected_row()->Some_0.ip)
                && pair.1@ == report_text(old(self).selected_row()->Some_0),
            r is Some ==> final(self).export_message == old(self).export_message,
            r is None ==> option_text(final(self).export_message) == Some("No host selected"@),
            final(self).wf() == old(self).wf(),
            same_inputs(*final(self), *old(self)),
            same_overlay(*final(self), *old(self)),
            same_scan(*final(self), *old(self)),
            final(self).session == old(self).session,
            final(self).input_mode == old(self).input_mode,
            final(self).focus == old(self).focus,
    {
        let request = self.save_request();
        if request.is_none() {
            self.export_message = Some(String::from_str("No host selected"));
        }
        request
    }

    /// Shows `message` until the next key.
    pub fn show_message(&mut self, message: String)
        ensures
            final(self).export_message == Some(message),
            final(self).wf() == old(self).wf(),
            same_inputs(*final(self), *old(self)),
            same_overlay(*final(self), *old(self)),
            same_scan(*final(self), *old(self)),
            final(self).session == old(self).session,
            final(self).input_mode == old(self).input_mode,
            final(self).focus == old(self).focus,
    {
        self.export_message = Some(message);
    }

    /// Takes the message away, and the list of keys too: any key does that.
    pub fn dismiss_message(&mut self)
        ensures
            final(self).export_message is None,
            !final(self).show_keybindings,
            final(self).wf() == old(self).wf(),
            same_inputs(*final(self), *old(self)),
            same_overlay(*final(self), *old(self)),
            same_scan(*final(self), *old(self)),
            final(self).session == old(self).session,
            final(self).input_mode == old(self).input_mode,
            final(self).focus == old(self).focus,
    {
        self.export_message = None;
        self.show_keybindings = false;
    }

    /// Tells the user that the report was written to the file `filename`.
    pub fn note_saved(&mut self, filename: &str)
        ensures
            option_text(final(self).export_message) == Some("Saved to "@ + filename@),
            final(self).wf() == old(self).wf(),
            same_inputs(*final(self), *old(self)),
            same_overlay(*final(self), *old(self)),
            same_scan(*final(self), *old(self)),
            final(self).session == old(self).session,
            final(self).input_mode == old(self).input_mode,
            final(self).focus == old(self).focus,
    {
        let mut out = String::from_str("Saved to ");
        out.append(filename);
        self.export_message = Some(out);
    }

    /// Tells the user that the export was written to the file `filename`.
    pub fn note_exported(&mut self, filename: &str)
        ensures
            option_text(final(self).export_message) == Some("Exported to "@ + filename@),
            final(self).wf() == old(self).wf(),
            same_inputs(*final(self), *old(self)),
            same_overlay(*final(self), *old(self)),
            same_scan(*final(self), *old(self)),
            final(self).session == old(self).session,
            final(self).input_mode == old(self).input_mode,
            final(self).focus == old(self).focus,
    {
        let mut out = String::from_str("Exported to ");
        out.append(filename);
        self.export_message = Some(out);
    }

    /// Tells the user that the range could not be read, and why.
    pub fn note_parse_error(&mut self, error: ParseError)
        ensures
            option_text(final(self).export_message) == Some("Error: "@ + error.text()),
            final(self).wf() == old(self).wf(),
            same_inputs(*final(self), *old(self)),
            same_overlay(*final(self), *old(self)),
            same_scan(*final(self), *old(self)),
            final(self).session == old(self).session,
            final(self).input_mode == old(self).input_mode,
            final(self).focus == old(self).focus,
    {
        let mut out = String::from_str("Error: ");
        out.append(error.message());
        self.export_message = Some(out);
    }

    /// Tells the user that the wake-up packet could not be sent, and why.
    pub fn note_wol_error(&mut self, reason: &str)
        ensures
            option_text(final(self).export_message) == Some("WOL error: "@ + reason@),
            final(self).wf() == old(self).wf(),
            same_inputs(*final(self), *old(self)),
            same_overlay(*final(self), *old(self)),
            same_scan(*final(self), *old(self)),
            final(self).session == old(self).session,
            final(self).input_mode == old(self).input_mode,
            final(self).focus == old(self).focus,
    {
        let mut out = String::from_str("WOL error: ");
        out.append(reason);
        self.export_message = Some(out);
    }
}

} // verus!

//! The scan session: what state a scan is in, how far it has come, and which
//! hosts it has found.

use crate::addr::Ipv4Addr;
use crate::host::HostInfo;
use crate::range::{range_spec_value, IpRange, ParseError};
use crate::sort::{lemma_stable_sorted, sort_by_key, stable_sorted, SortKey};
use vstd::prelude::*;

verus! {

/// The state of a scan.
#[derive(Debug, Clone, Copy, PartialEq, Eq, Structural)]
pub enum ScanState {
    /// No scan was started yet.
    Idle,
    /// A scan is running.
    Scanning,
    /// The scan was stopped before its end and can be taken up again.
    Paused,
    /// The scan has run to its end.
    Completed,
}

/// A session as contracts see it.
pub struct SessionView {
    /// The range specification of the last start, as it was written.
    pub range_key: Seq<char>,
    /// The addresses that the specification denotes.
    pub addresses: Seq<Ipv4Addr>,
    /// How many of them have been probed in this run.
    pub completed: usize,
    pub state: ScanState,
    /// The hosts found, in the order in which they were reported, or by address
    /// once the run is over.
    pub hosts: Seq<HostInfo>,
    /// The number of the run; each start and each resumption begins a new one.
    pub run: u64,
    /// Whether the run can still be told to stop.
    pub cancel_live: bool,
}

impl SessionView {
    /// How many addresses there are to probe.
    pub open spec fn total(self) -> nat {
        self.addresses.len()
    }

    /// Whether the state can arise.
    pub open spec fn wf(self) -> bool {
        &&& self.completed <= self.addresses.len()
        &&& self.addresses.len() <= usize::MAX
        &&& self.state == ScanState::Scanning ==> self.cancel_live
    }

    /// The session before the first start.
    pub open spec fn initial() -> SessionView {
        SessionView {
            range_key: Seq::empty(),
            addresses: Seq::empty(),
            completed: 0,
            state: ScanState::Idle,
            hosts: Seq::empty(),
            run: 0,
            cancel_live: false,
        }
    }

    /// The number of the run that follows this one.
    pub open spec fn next_run(self) -> u64 {
        if self.run == u64::MAX {
            0
        } else {
            (self.run + 1) as u64
        }
    }

    /// The session after a scan of `addresses`, written as `range_key`, was started:
    /// a new run, with nothing probed and no host found.
    pub open spec fn started(self, range_key: Seq<char>, addresses: Seq<Ipv4Addr>) -> SessionView {
        SessionView {
            range_key,
            addresses,
            completed: 0,
            state: ScanState::Scanning,
            hosts: Seq::empty(),
            run: self.next_run(),
            cancel_live: true,
        }
    }

    /// Whether a host reported by the run `run` is taken: the run must be the current
    /// one, it must be scanning, and addresses must be left to probe.
    pub open spec fn takes_host(self, run: u64) -> bool {
        self.state == ScanState::Scanning && run == self.run && self.completed
            < self.addresses.len()
    }

    /// The session after the run `run` reported `host`.
    pub open spec fn discovered(self, run: u64, host: HostInfo) -> SessionView {
        if self.takes_host(run) {
            SessionView {
                hosts: self.hosts.push(host),
                completed: (self.completed + 1) as usize,
                ..self
            }
        } else {
            self
        }
    }

    /// The session after the scan reported its end: unless the scan is paused it
    /// is completed; the run can no longer be told to stop; the hosts stand in
    /// the order of their addresses, those with one address in the order in
    /// which they were reported.
    pub open spec fn finished(self) -> SessionView {
        SessionView {
            state: if self.state == ScanState::Paused {
                ScanState::Paused
            } else {
                ScanState::Completed
            },
            cancel_live: false,
            hosts: stable_sorted(self.hosts),
            ..self
        }
    }

    /// The session after a request to pause: a scan that is running is paused.
    pub open spec fn paused(self) -> SessionView {
        if self.state == ScanState::Scanning {
            SessionView { state: ScanState::Paused, ..self }
        } else {
            self
        }
    }

    /// The session after a request to resume: a paused scan starts again from its
    /// first address, as a new run, with nothing probed and no host found.
    pub open spec fn resumed(self) -> SessionView {
        if self.state == ScanState::Paused {
            self.started(self.range_key, self.addresses)
        } else {
            self
        }
    }

    /// Where the record of `ip` stands among the hosts, or their number if it has none.
    pub open spec fn host_index(self, ip: Ipv4Addr) -> int {
        first_host(self.hosts, ip)
    }

    /// The session after a port scan of `ip` found `ports` open: the first record
    /// of `ip` holds them and counts as scanned. Without a record of `ip`
    /// nothing changes.
    pub open spec fn with_open_ports(self, ip: Ipv4Addr, ports: Vec<u16>) -> SessionView {
        let i = self.host_index(ip);
        if 0 <= i < self.hosts.len() {
            SessionView {
                hosts: self.hosts.update(
                    i,
                    HostInfo { open_ports: ports, ports_scanned: true, ..self.hosts[i] },
                ),
                ..self
            }
        } else {
            self
        }
    }

    /// The session after hosts of an earlier scan were put up for show: they take
    /// the place of the hosts, unless a scan is running or paused.
    pub open spec fn with_cached(self, hosts: Seq<HostInfo>) -> SessionView {
        if self.state == ScanState::Scanning || self.state == ScanState::Paused {
            self
        } else {
            SessionView { hosts, ..self }
        }
    }
}

/// Whether the addresses of `hosts` never descend.
pub open spec fn ascending_by_ip(hosts: Seq<HostInfo>) -> bool {
    forall|i: int, j: int| 0 <= i < j < hosts.len() ==> (#[trigger] hosts[i]).ip@ <= (
    #[trigger] hosts[j]).ip@
}

/// Hosts that are sorted stand in the ascending order of their addresses, and
/// they are the same hosts as before: as many, none lost and none twice.
pub proof fn lemma_sorted_hosts(hosts: Seq<HostInfo>)
    ensures
        ascending_by_ip(stable_sorted(hosts)),
        stable_sorted(hosts).to_multiset() == hosts.to_multiset(),
        stable_sorted(hosts).len() == hosts.len(),
{
    lemma_stable_sorted(hosts);
    let sorted = stable_sorted(hosts);
    assert forall|i: int, j: int| 0 <= i < j < sorted.len() implies (#[trigger] sorted[i]).ip@ <= (
    #[trigger] sorted[j]).ip@ by {
        assert(sorted[i].sort_key() <= sorted[j].sort_key());
    }
}

/// Where the first record of `ip` stands in `hosts`, or their number if there is none.
pub open spec fn first_host(hosts: Seq<HostInfo>, ip: Ipv4Addr) -> int
    decreases hosts.len(),
{
    if hosts.len() == 0 || hosts[0].ip == ip {
        0
    } else {
        1 + first_host(hosts.drop_first(), ip)
    }
}

/// What marks the first record of an address.
pub proof fn lemma_first_host(hosts: Seq<HostInfo>, ip: Ipv4Addr)
    ensures
        0 <= first_host(hosts, ip) <= hosts.len(),
        first_host(hosts, ip) < hosts.len() ==> hosts[first_host(hosts, ip)].ip == ip,
        forall|j: int| 0 <= j < first_host(hosts, ip) ==> (#[trigger] hosts[j]).ip != ip,
    decreases hosts.len(),
{
    if hosts.len() == 0 || hosts[0].ip == ip {
    } else {
        let rest = hosts.drop_first();
        lemma_first_host(rest, ip);
        let k = first_host(rest, ip);
        assert forall|j: int| 0 <= j < k + 1 implies (#[trigger] hosts[j]).ip != ip by {
            if j > 0 {
                assert(hosts[j] == rest[j - 1]);
            }
        }
        if k < rest.len() {
            assert(hosts[k + 1] == rest[k]);
        }
    }
}

/// The first record with an address is the first record of that address.
pub proof fn lemma_first_host_is(hosts: Seq<HostInfo>, ip: Ipv4Addr, k: int)
    requires
        0 <= k <= hosts.len(),
        k < hosts.len() ==> hosts[k].ip == ip,
        forall|j: int| 0 <= j < k ==> (#[trigger] hosts[j]).ip != ip,
    ensures
        first_host(hosts, ip) == k,
{
    lemma_first_host(hosts, ip);
    let f = first_host(hosts, ip);
    if f < k {
        assert(hosts[f].ip == ip);
    } else if k < f {
        assert(hosts[k].ip == ip);
    }
}

/// The session of one engine.
pub struct ScanSession {
    range_key: String,
    addresses: Vec<Ipv4Addr>,
    completed: usize,
    state: ScanState,
    hosts: Vec<HostInfo>,
    run: u64,
    cancel_live: bool,
}

impl View for ScanSession {
    type V = SessionView;

    closed spec fn view(&self) -> SessionView {
        SessionView {
            range_key: self.range_key@,
            addresses: self.addresses@,
            completed: self.completed,
            state: self.state,
            hosts: self.hosts@,
            run: self.run,
            cancel_live: self.cancel_live,
        }
    }
}

impl ScanSession {
    /// A session in which no scan was started yet.
    pub fn new() -> (r: ScanSession)
        ensures
            r@ == SessionView::initial(),
            r@.wf(),
    {
        ScanSession {
            range_key: String::new(),
            addresses: Vec::new(),
            completed: 0,
            state: ScanState::Idle,
            hosts: Vec::new(),
            run: 0,
            cancel_live: false,
        }
    }

    fn begin_run(&mut self)
        requires
            old(self)@.completed == 0,
        ensures
            final(self)@ == old(self)@.started(old(self)@.range_key, old(self)@.addresses),
    {
        self.hosts.clear();
        self.run = if self.run == u64::MAX {
            0
        } else {
            self.run + 1
        };
        self.cancel_live = true;
        self.state = ScanState::Scanning;
    }

    /// Starts a scan of the range that `range_spec` denotes. A specification that
    /// denotes no range is refused, and the session stays as it is. Returns the
    /// number of the run that begins.
    pub fn start(&mut self, range_spec: &str) -> (r: Result<u64, ParseError>)
        requires
            old(self)@.wf(),
        ensures
            final(self)@.wf(),
            r matches Err(e) ==> range_spec_value(range_spec@) == Err::<Seq<Ipv4Addr>, ParseError>(
                e,
            ) && final(self)@ == old(self)@,
            r matches Ok(run) ==> range_spec_value(range_spec@) == Ok::<
                Seq<Ipv4Addr>,
                ParseError,
            >(final(self)@.addresses) && final(self)@ == old(self)@.started(
                range_spec@,
                final(self)@.addresses,
            ) && run == final(self)@.run,
    {
        let range = match IpRange::parse(range_spec) {
            Ok(range) => range,
            Err(e) => {
                return Err(e);
            },
        };
        self.completed = 0;
        self.addresses = range.into_addresses();
        let total = self.addresses.len();
        assert(self@.addresses.len() == total);
        self.range_key = String::from_str(range_spec);
        self.begin_run();
        Ok(self.run)
    }

    /// Takes a host that the run `run` reports. The host is added and counted if
    /// that run is the current one, is scanning, and has addresses left to
    /// probe; else it is dropped. Returns whether the host was taken.
    pub fn on_host_discovered(&mut self, run: u64, host: HostInfo) -> (r: bool)
        requires
            old(self)@.wf(),
        ensures
            final(self)@.wf(),
            r == old(self)@.takes_host(run),
            final(self)@ == old(self)@.discovered(run, host),
    {
        if self.state == ScanState::Scanning && run == self.run && self.completed
            < self.addresses.len() {
            self.hosts.push(host);
            self.completed = self.completed + 1;
            true
        } else {
            false
        }
    }

    /// Takes the report that the scan is over. Unless the scan is paused, it is
    /// completed; the run can no longer be told to stop; and the hosts are put
    /// in the ascending order of their addresses: the same hosts, none lost and
    /// none twice.
    pub fn on_scan_complete(&mut self)
        requires
            old(self)@.wf(),
        ensures
            final(self)@.wf(),
            final(self)@ == old(self)@.finished(),
            ascending_by_ip(final(self)@.hosts),
            final(self)@.hosts.to_multiset() == old(self)@.hosts.to_multiset(),
            final(self)@.hosts.len() == old(self)@.hosts.len(),
            !final(self)@.cancel_live,
    {
        if self.state != ScanState::Paused {
            self.state = ScanState::Completed;
        }
        self.cancel_live = false;
        proof {
            lemma_sorted_hosts(self.hosts@);
        }
        sort_by_key(&mut self.hosts);
    }

    /// Pauses a scan that is running. Returns the number of the run that is to be
    /// told to stop, or `None` where no scan is running.
    pub fn pause(&mut self) -> (r: Option<u64>)
        requires
            old(self)@.wf(),
        ensures
            final(self)@.wf(),
            final(self)@ == old(self)@.paused(),
            r == if old(self)@.state == ScanState::Scanning {
                Some(old(self)@.run)
            } else {
                None
            },
    {
        if self.state == ScanState::Scanning {
            self.state = ScanState::Paused;
            Some(self.run)
        } else {
            None
        }
    }

    /// Resumes a paused scan: it starts again from the first address of its range.
    /// Returns the number of the run that begins, or `None` where no scan is paused.
    pub fn resume(&mut self) -> (r: Option<u64>)
        requires
            old(self)@.wf(),
        ensures
            final(self)@.wf(),
            final(self)@ == old(self)@.resumed(),
            r == if old(self)@.state == ScanState::Paused {
                Some(final(self)@.run)
            } else {
                None
            },
    {
        if self.state == ScanState::Paused {
            self.completed = 0;
            self.begin_run();
            Some(self.run)
        } else {
            None
        }
    }

    /// Where the first record of `ip` stands among the hosts, or their number if
    /// it has none.
    pub fn find_host(&self, ip: Ipv4Addr) -> (r: usize)
        ensures
            r == self@.host_index(ip),
            r <= self@.hosts.len(),
    {
        let n = self.hosts.len();
        let mut i: usize = 0;
        while i < n && self.hosts[i].ip != ip
            invariant
                i <= n,
                n == self.hosts@.len(),
                forall|j: int| 0 <= j < i ==> (#[trigger] self.hosts@[j]).ip != ip,
            decreases n - i,
        {
            i += 1;
        }
        proof {
            lemma_first_host_is(self.hosts@, ip, i as int);
        }
        i
    }

    /// Takes the outcome of a port scan of `ip`: the open ports, in ascending
    /// order. They are written into the first record of `ip`, which then counts
    /// as scanned. Returns whether there is such a record.
    pub fn set_open_ports(&mut self, ip: Ipv4Addr, ports: Vec<u16>) -> (r: bool)
        requires
            old(self)@.wf(),
        ensures
            final(self)@.wf(),
            final(self)@ == old(self)@.with_open_ports(ip, ports),
            r == (old(self)@.host_index(ip) < old(self)@.hosts.len()),
    {
        let i = self.find_host(ip);
        if i < self.hosts.len() {
            let mut host = self.hosts.remove(i);
            host.open_ports = ports;
            host.ports_scanned = true;
            self.hosts.insert(i, host);
            assert(self.hosts@ =~= old(self).hosts@.update(
                i as int,
                HostInfo { open_ports: ports, ports_scanned: true, ..old(self).hosts@[i as int] },
            ));
            true
        } else {
            false
        }
    }

    /// Puts up the hosts of an earlier scan for show, unless a scan is running or
    /// paused. Returns whether they were taken.
    pub fn show_cached(&mut self, hosts: Vec<HostInfo>) -> (r: bool)
        requires
            old(self)@.wf(),
        ensures
            final(self)@.wf(),
            final(self)@ == old(self)@.with_cached(hosts@),
            r == (old(self)@.state != ScanState::Scanning && old(self)@.state != ScanState::Paused),
    {
        if self.state == ScanState::Scanning || self.state == ScanState::Paused {
            false
        } else {
            self.hosts = hosts;
            true
        }
    }

    /// Whether the session is in a state that can arise.
    pub fn is_wf(&self) -> (r: bool)
        ensures
            r == self@.wf(),
    {
        let scanning = matches!(self.state, ScanState::Scanning);
        self.completed <= self.addresses.len() && (!scanning || self.cancel_live)
    }

    /// The state of the scan.
    pub fn state(&self) -> (r: ScanState)
        ensures
            r == self@.state,
    {
        self.state
    }

    /// How many addresses the scan has to probe.
    pub fn total(&self) -> (r: usize)
        ensures
            r == self@.total(),
    {
        self.addresses.len()
    }

    /// How many addresses were probed in this run; never more than [`Self::total`].
    pub fn completed(&self) -> (r: usize)
        ensures
            r == self@.completed,
            self@.wf() ==> r <= self@.total(),
    {
        self.completed
    }

    /// The number of the current run.
    pub fn run(&self) -> (r: u64)
        ensures
            r == self@.run,
    {
        self.run
    }

    /// The addresses that the scan probes, in order.
    pub fn addresses(&self) -> (r: &[Ipv4Addr])
        ensures
            r@ == self@.addresses,
    {
        self.addresses.as_slice()
    }

    /// The hosts found.
    pub fn hosts(&self) -> (r: &[HostInfo])
        ensures
            r@ == self@.hosts,
    {
        self.hosts.as_slice()
    }

    /// The range specification of the last start.
    pub fn range_key(&self) -> (r: &str)
        ensures
            r@ == self@.range_key,
    {
        self.range_key.as_str()
    }
}

/// Pausing a running scan leaves it paused, and nothing that is reported then
/// is taken; resuming it leaves it scanning again, over all addresses of its
/// range and with none of them counted as probed.
pub proof fn lemma_pause_and_resume(s: SessionView, run: u64, host: HostInfo)
    requires
        s.wf(),
        s.state == ScanState::Scanning,
    ensures
        s.paused().state == ScanState::Paused,
        s.paused().discovered(run, host) == s.paused(),
        s.paused().resumed().state == ScanState::Scanning,
        s.paused().resumed().completed == 0,
        s.paused().resumed().addresses == s.addresses,
        s.paused().resumed().hosts.len() == 0,
        s.paused().resumed().run != s.run,
{
}

/// Whatever happens to a session, it never counts more addresses as probed than
/// it has, and the count falls only where a run begins.
pub proof fn lemma_session_steps(s: SessionView, run: u64, host: HostInfo)
    requires
        s.wf(),
    ensures
        s.discovered(run, host).wf() && s.finished().wf() && s.paused().wf() && s.resumed().wf(),
        s.discovered(run, host).completed >= s.completed,
        s.finished().completed == s.completed,
        s.paused().completed == s.completed,
        s.discovered(run, host).completed <= s.total(),
{
}

/// What can happen to a session once a scan was started.
pub enum SessionEvent {
    /// The run with this number reports a host.
    Host(u64, HostInfo),
    /// The scan reports its end.
    End,
    Pause,
    Resume,
}

impl SessionView {
    /// The session after `event`.
    pub open spec fn after_event(self, event: SessionEvent) -> SessionView {
        match event {
            SessionEvent::Host(run, host) => self.discovered(run, host),
            SessionEvent::End => self.finished(),
            SessionEvent::Pause => self.paused(),
            SessionEvent::Resume => self.resumed(),
        }
    }

    /// The session after `events`, one after the other.
    pub open spec fn after_events(self, events: Seq<SessionEvent>) -> SessionView
        decreases events.len(),
    {
        if events.len() == 0 {
            self
        } else {
            self.after_events(events.drop_last()).after_event(events.last())
        }
    }
}

/// Whatever happens after a start, in whatever order: the session scans the
/// same addresses; it never counts more of them as probed than there are;
/// and it is idle no more.
pub proof fn lemma_session_run(s: SessionView, events: Seq<SessionEvent>)
    requires
        s.wf(),
    ensures
        s.after_events(events).wf(),
        s.after_events(events).addresses == s.addresses,
        s.after_events(events).range_key == s.range_key,
        s.after_events(events).completed <= s.total(),
        s.state != ScanState::Idle ==> s.after_events(events).state != ScanState::Idle,
    decreases events.len(),
{
    if events.len() > 0 {
        lemma_session_run(s, events.drop_last());
    }
}

/// A run over `n` addresses that takes `n` hosts and then ends is completed, with
/// every address counted and the hosts in the ascending order of their addresses.
pub proof fn lemma_full_run(s: SessionView)
    requires
        s.wf(),
        s.state == ScanState::Scanning,
        s.completed == s.total(),
    ensures
        s.finished().state == ScanState::Completed,
        s.finished().completed == s.total(),
        s.finished().hosts == stable_sorted(s.hosts),
        ascending_by_ip(s.finished().hosts),
        s.finished().hosts.to_multiset() == s.hosts.to_multiset(),
        !s.finished().cancel_live,
{
    lemma_sorted_hosts(s.hosts);
}

/// The end of a scan, in whatever state it finds the session: the hosts are the
/// same as before, in the ascending order of their addresses; the run can no
/// longer be told to stop; a paused scan stays paused, and every other is
/// completed. Nothing else changes.
pub proof fn lemma_scan_end(s: SessionView)
    requires
        s.wf(),
    ensures
        s.finished().wf(),
        ascending_by_ip(s.finished().hosts),
        s.finished().hosts.to_multiset() == s.hosts.to_multiset(),
        s.finished().hosts.len() == s.hosts.len(),
        !s.finished().cancel_live,
        s.finished().state == if s.state == ScanState::Paused {
            ScanState::Paused
        } else {
            ScanState::Completed
        },
        s.finished().completed == s.completed,
        s.finished().addresses == s.addresses,
        s.finished().range_key == s.range_key,
        s.finished().run == s.run,
        s.finished().finished().hosts == s.finished().hosts,
{
    lemma_sorted_hosts(s.hosts);
    lemma_stable_sorted(s.hosts);
    crate::sort::lemma_stable_sorted_fixes_sorted(stable_sorted(s.hosts));
}

} // verus!

//! Host liveness probing: an echo request first where that is available, then
//! connection attempts to a fixed list of ports, each repeated after a failure.

use crate::addr::Ipv4Addr;
use vstd::prelude::*;

verus! {

/// How a host was probed.
#[derive(Debug, Clone, Copy, PartialEq, Eq, Structural)]
pub enum PingMethod {
    Icmp,
    Tcp,
}

/// What probing a host has shown.
#[derive(Debug, Clone, Copy, PartialEq, Eq, Structural)]
pub enum HostStatus {
    /// The host answered an echo request, or a connection attempt where no echo
    /// request could be sent.
    Online,
    /// The host answered a connection attempt after staying silent to echo requests.
    OnlineNoIcmp,
    /// The host answered nothing.
    Offline,
}

impl PingMethod {
    /// The method's name as it is shown and stored.
    pub open spec fn name(self) -> Seq<char> {
        match self {
            PingMethod::Icmp => "ICMP"@,
            PingMethod::Tcp => "TCP"@,
        }
    }

    /// The method's name as it is shown and stored: `ICMP` or `TCP`.
    pub fn to_string(&self) -> (r: String)
        ensures
            r@ == self.name(),
    {
        match self {
            PingMethod::Icmp => String::from_str("ICMP"),
            PingMethod::Tcp => String::from_str("TCP"),
        }
    }
}

impl HostStatus {
    /// The status as it is shown.
    pub open spec fn name(self) -> Seq<char> {
        match self {
            HostStatus::Online => "Online"@,
            HostStatus::OnlineNoIcmp => "Online (no ICMP)"@,
            HostStatus::Offline => "Offline"@,
        }
    }

    /// The status as it is shown: `Online`, `Online (no ICMP)` or `Offline`.
    pub fn to_string(&self) -> (r: String)
        ensures
            r@ == self.name(),
    {
        match self {
            HostStatus::Online => String::from_str("Online"),
            HostStatus::OnlineNoIcmp => String::from_str("Online (no ICMP)"),
            HostStatus::Offline => String::from_str("Offline"),
        }
    }
}

/// How hosts are probed.
#[derive(Debug, Clone, Copy, PartialEq, Eq, Structural)]
pub struct PingerConfig {
    /// How long one probe may take, in milliseconds.
    pub timeout_ms: u64,
    /// How often a failed round of probes is repeated.
    pub retries: u32,
    /// How many hosts are probed at a time.
    pub concurrent_limit: usize,
}

impl Default for PingerConfig {
    fn default() -> (r: PingerConfig)
        ensures
            r == (PingerConfig { timeout_ms: 1000, retries: 1, concurrent_limit: 100 }),
    {
        PingerConfig { timeout_ms: 1000, retries: 1, concurrent_limit: 100 }
    }
}

/// The outcome of probing one host.
#[derive(Debug, Clone, Copy, PartialEq, Eq, Structural)]
pub struct PingResult {
    pub ip: Ipv4Addr,
    pub is_alive: bool,
    /// The round-trip time of the probe that was answered, in milliseconds.
    pub rtt_ms: Option<u64>,
    pub method: PingMethod,
    pub status: HostStatus,
}

/// How many ports a round of connection attempts tries.
pub const PROBE_PORT_COUNT: u64 = 11;

/// The `i`-th port that a round of connection attempts tries.
pub open spec fn probe_port(i: int) -> u16 {
    if i == 0 {
        80
    } else if i == 1 {
        443
    } else if i == 2 {
        22
    } else if i == 3 {
        445
    } else if i == 4 {
        139
    } else if i == 5 {
        135
    } else if i == 6 {
        3389
    } else if i == 7 {
        21
    } else if i == 8 {
        23
    } else if i == 9 {
        25
    } else {
        53
    }
}

/// The ports that a round of connection attempts tries, in the order tried.
pub fn probe_ports() -> (r: [u16; 11])
    ensures
        forall|i: int| 0 <= i < 11 ==> r[i] == probe_port(i),
{
    [80, 443, 22, 445, 139, 135, 3389, 21, 23, 25, 53]
}

/// How a connection attempt ended.
#[derive(Debug, Clone, Copy, PartialEq, Eq, Structural)]
pub enum ConnectOutcome {
    /// The connection was established.
    Connected,
    /// The host refused the connection.
    Refused,
    /// The attempt failed in another way.
    Failed,
    /// Nothing came back in time.
    TimedOut,
}

impl ConnectOutcome {
    /// Whether the host showed itself: an established connection and a refusal both
    /// come from the host's own stack.
    pub open spec fn host_answered(self) -> bool {
        self == ConnectOutcome::Connected || self == ConnectOutcome::Refused
    }

    /// What the attempt tells a liveness probe: the elapsed time where the host
    /// answered, nothing where it did not.
    pub fn reply(&self, elapsed_ms: u64) -> (r: Option<u64>)
        ensures
            r == if self.host_answered() {
                Some(elapsed_ms)
            } else {
                None
            },
    {
        match self {
            ConnectOutcome::Connected => Some(elapsed_ms),
            ConnectOutcome::Refused => Some(elapsed_ms),
            ConnectOutcome::Failed => None,
            ConnectOutcome::TimedOut => None,
        }
    }

    /// Whether the port is open: only an established connection shows that.
    pub fn is_open(&self) -> (r: bool)
        ensures
            r == (*self == ConnectOutcome::Connected),
    {
        match self {
            ConnectOutcome::Connected => true,
            _ => false,
        }
    }
}

/// What a probe asks its caller to do next.
#[derive(Debug, Clone, Copy, PartialEq, Eq, Structural)]
pub enum ProbeAction {
    /// Send an echo request with this sequence number and wait for the reply.
    Echo { seq: u16 },
    /// Try to connect to this port.
    Connect { port: u16 },
    /// The probe is over, with this result.
    Report(PingResult),
}

/// A probe in progress, as contracts see it.
pub struct ProbeState {
    pub ip: Ipv4Addr,
    pub retries: u32,
    pub echo_available: bool,
    /// How many attempts got no answer so far.
    pub attempt: u64,
    /// The result, once the probe is over.
    pub outcome: Option<PingResult>,
}

/// How many echo requests a probe sends at most.
pub open spec fn echo_attempts(retries: u32, echo_available: bool) -> int {
    if echo_available {
        retries + 1
    } else {
        0
    }
}

/// How many attempts of either kind a probe makes at most.
pub open spec fn total_attempts(retries: u32, echo_available: bool) -> int {
    echo_attempts(retries, echo_available) + (retries + 1) * 11
}

/// The result for a host that answered nothing.
pub open spec fn offline_result(ip: Ipv4Addr, echo_available: bool) -> PingResult {
    PingResult {
        ip,
        is_alive: false,
        rtt_ms: None,
        method: if echo_available {
            PingMethod::Icmp
        } else {
            PingMethod::Tcp
        },
        status: HostStatus::Offline,
    }
}

impl ProbeState {
    /// The state in which a probe starts.
    pub open spec fn initial(ip: Ipv4Addr, retries: u32, echo_available: bool) -> ProbeState {
        ProbeState { ip, retries, echo_available, attempt: 0, outcome: None }
    }

    /// Whether the attempt that is due is an echo request.
    pub open spec fn echo_due(self) -> bool {
        self.attempt < echo_attempts(self.retries, self.echo_available)
    }

    /// The attempt that is due: the echo requests come first, numbered from 0 (the
    /// number cut to 16 bits); then round after round of connection attempts.
    pub open spec fn pending(self) -> ProbeAction {
        if self.echo_due() {
            ProbeAction::Echo { seq: (self.attempt % 0x1_0000) as u16 }
        } else {
            ProbeAction::Connect {
                port: probe_port(
                    (self.attempt - echo_attempts(self.retries, self.echo_available)) % 11,
                ),
            }
        }
    }

    /// The result where the attempt that is due is answered after `rtt_ms`.
    pub open spec fn answered(self, rtt_ms: u64) -> PingResult {
        PingResult {
            ip: self.ip,
            is_alive: true,
            rtt_ms: Some(rtt_ms),
            method: if self.echo_due() {
                PingMethod::Icmp
            } else {
                PingMethod::Tcp
            },
            status: if !self.echo_due() && self.echo_available {
                HostStatus::OnlineNoIcmp
            } else {
                HostStatus::Online
            },
        }
    }

    /// Whether the state can arise: a probe that is not over has an attempt due.
    pub open spec fn wf(self) -> bool {
        self.outcome is None ==> self.attempt < total_attempts(self.retries, self.echo_available)
    }

    /// What the probe does first.
    pub open spec fn first_action(self) -> ProbeAction {
        match self.outcome {
            Some(result) => ProbeAction::Report(result),
            None => self.pending(),
        }
    }

    /// The state after the attempt that is due got `reply`, and what to do then.
    /// An answer ends the probe; silence leads to the next attempt, or ends the
    /// probe where none is left. A probe that is over stays as it is.
    pub open spec fn step(self, reply: Option<u64>) -> (ProbeState, ProbeAction) {
        match self.outcome {
            Some(result) => (self, ProbeAction::Report(result)),
            None => match reply {
                Some(rtt_ms) => {
                    let result = self.answered(rtt_ms);
                    (ProbeState { outcome: Some(result), ..self }, ProbeAction::Report(result))
                },
                None => {
                    if self.attempt + 1 < total_attempts(self.retries, self.echo_available) {
                        let next = ProbeState { attempt: (self.attempt + 1) as u64, ..self };
                        (next, next.pending())
                    } else {
                        let result = offline_result(self.ip, self.echo_available);
                        (
                            ProbeState {
                                attempt: (self.attempt + 1) as u64,
                                outcome: Some(result),
                                ..self
                            },
                            ProbeAction::Report(result),
                        )
                    }
                },
            },
        }
    }

    /// The state after `n` more attempts without an answer.
    pub open spec fn after_silence(self, n: nat) -> ProbeState
        decreases n,
    {
        if n == 0 {
            self
        } else {
            self.after_silence((n - 1) as nat).step(None).0
        }
    }
}

/// The probe of one host: it says which attempt is due, takes the attempt's outcome,
/// and in the end reports the result. The caller makes the attempts.
pub struct Probe {
    ip: Ipv4Addr,
    retries: u32,
    echo_available: bool,
    attempt: u64,
    outcome: Option<PingResult>,
}

impl View for Probe {
    type V = ProbeState;

    closed spec fn view(&self) -> ProbeState {
        ProbeState {
            ip: self.ip,
            retries: self.retries,
            echo_available: self.echo_available,
            attempt: self.attempt,
            outcome: self.outcome,
        }
    }
}

impl Probe {
    #[verifier::type_invariant]
    spec fn inv(self) -> bool {
        self@.wf()
    }

    /// Starts the probe of `ip`.
    pub fn new(ip: Ipv4Addr, retries: u32, echo_available: bool) -> (r: Probe)
        ensures
            r@ == ProbeState::initial(ip, retries, echo_available),
    {
        Probe { ip, retries, echo_available, attempt: 0, outcome: None }
    }

    fn echo_count(&self) -> (r: u64)
        ensures
            r == echo_attempts(self@.retries, self@.echo_available),
    {
        if self.echo_available {
            self.retries as u64 + 1
        } else {
            0
        }
    }

    fn attempt_count(&self) -> (r: u64)
        ensures
            r == total_attempts(self@.retries, self@.echo_available),
    {
        self.echo_count() + (self.retries as u64 + 1) * 11
    }

    fn pending(&self) -> (r: ProbeAction)
        requires
            self@.outcome is None,
        ensures
            r == self@.pending(),
    {
        proof {
            use_type_invariant(self);
        }
        let echoes = self.echo_count();
        if self.attempt < echoes {
            ProbeAction::Echo { seq: (self.attempt % 0x1_0000) as u16 }
        } else {
            let ports = probe_ports();
            ProbeAction::Connect { port: ports[((self.attempt - echoes) % 11) as usize] }
        }
    }

    /// What is to be done now: the attempt that is due, or the report of the result.
    pub fn action(&self) -> (r: ProbeAction)
        ensures
            r == self@.first_action(),
            self@.wf(),
    {
        proof {
            use_type_invariant(self);
        }
        match self.outcome {
            Some(result) => ProbeAction::Report(result),
            None => self.pending(),
        }
    }

    /// Takes the outcome of the attempt that was due: the round-trip time where
    /// the host answered, `None` where it did not. Returns what is to be done next.
    pub fn advance(&mut self, reply: Option<u64>) -> (r: ProbeAction)
        ensures
            (final(self)@, r) == old(self)@.step(reply),
            old(self)@.wf(),
            final(self)@.wf(),
    {
        proof {
            use_type_invariant(&*self);
        }
        if let Some(result) = self.outcome {
            return ProbeAction::Report(result);
        }
        match reply {
            Some(rtt_ms) => {
                let echo = self.attempt < self.echo_count();
                let result = PingResult {
                    ip: self.ip,
                    is_alive: true,
                    rtt_ms: Some(rtt_ms),
                    method: if echo {
                        PingMethod::Icmp
                    } else {
                        PingMethod::Tcp
                    },
                    status: if !echo && self.echo_available {
                        HostStatus::OnlineNoIcmp
                    } else {
                        HostStatus::Online
                    },
                };
                self.outcome = Some(result);
                ProbeAction::Report(result)
            },
            None => {
                let total = self.attempt_count();
                let next = self.attempt + 1;
                if next < total {
                    self.attempt = next;
                    self.pending()
                } else {
                    let result = unreachable_result(self.ip, self.echo_available);
                    self.outcome = Some(result);
                    self.attempt = next;
                    ProbeAction::Report(result)
                }
            },
        }
    }
}

/// The result for a host that answered no probe: offline, by the method tried first.
pub fn unreachable_result(ip: Ipv4Addr, echo_available: bool) -> (r: PingResult)
    ensures
        r == offline_result(ip, echo_available),
{
    PingResult {
        ip,
        is_alive: false,
        rtt_ms: None,
        method: if echo_available {
            PingMethod::Icmp
        } else {
            PingMethod::Tcp
        },
        status: HostStatus::Offline,
    }
}

/// The result for a host that could not be probed at all because the engine is
/// shutting down: offline.
pub fn unprobed_result(ip: Ipv4Addr) -> (r: PingResult)
    ensures
        r == offline_result(ip, true),
{
    unreachable_result(ip, true)
}

/// A probe that is not over does what its state says; each step keeps the state
/// possible, and the result is always that of the probed address.
pub proof fn lemma_step_wf(s: ProbeState, reply: Option<u64>)
    requires
        s.wf(),
        s.outcome matches Some(r) ==> r.ip == s.ip,
    ensures
        s.step(reply).0.wf(),
        s.step(reply).0.ip == s.ip,
        s.step(reply).0.outcome matches Some(r) ==> r.ip == s.ip,
        s.step(reply).1 matches ProbeAction::Report(r) ==> s.step(reply).0.outcome == Some(r),
        s.step(reply).0.outcome is None ==> s.step(reply).1 == s.step(reply).0.pending(),
{
}

/// An answer to any attempt ends the probe with a host that is alive: online
/// where an echo request was answered or none could be sent, online without
/// echo where a connection attempt was answered after the echo requests failed.
pub proof fn lemma_answer_is_alive(s: ProbeState, rtt_ms: u64)
    requires
        s.outcome is None,
    ensures
        s.step(Some(rtt_ms)).1 matches ProbeAction::Report(r) && r.is_alive && r.ip == s.ip
            && r.rtt_ms == Some(rtt_ms) && r.status != HostStatus::Offline && (r.status
            == HostStatus::OnlineNoIcmp <==> s.pending() is Connect && s.echo_available) && (
        r.method == PingMethod::Icmp <==> s.pending() is Echo),
{
}

/// A refused connection on any port counts as an answer: the host is reported alive.
pub proof fn lemma_refused_is_alive(s: ProbeState, elapsed_ms: u64)
    requires
        s.outcome is None,
        s.pending() is Connect,
    ensures
        ConnectOutcome::Refused.host_answered(),
        s.step(Some(elapsed_ms)).1 matches ProbeAction::Report(r) && r.is_alive && r.method
            == PingMethod::Tcp,
{
}

/// A host that stays silent is probed `total_attempts` times, the echo requests
/// first and then every port in every round, and only then reported offline.
pub proof fn lemma_silent_host(ip: Ipv4Addr, retries: u32, echo_available: bool, n: nat)
    requires
        n <= total_attempts(retries, echo_available),
    ensures
        ({
            let s = ProbeState::initial(ip, retries, echo_available).after_silence(n);
            &&& s.attempt == n
            &&& s.ip == ip && s.retries == retries && s.echo_available == echo_available
            &&& n < total_attempts(retries, echo_available) ==> s.outcome is None
            &&& n == total_attempts(retries, echo_available) ==> s.outcome == Some(
                offline_result(ip, echo_available),
            )
        }),
    decreases n,
{
    if n > 0 {
        lemma_silent_host(ip, retries, echo_available, (n - 1) as nat);
    }
}

/// The attempts of a probe, in order: `retries + 1` echo requests where echo is
/// available, then `retries + 1` rounds over the eleven ports.
pub proof fn lemma_attempt_order(s: ProbeState)
    requires
        s.wf(),
        s.outcome is None,
    ensures
        s.echo_available && s.attempt <= s.retries ==> s.pending() == (ProbeAction::Echo {
            seq: (s.attempt % 0x1_0000) as u16,
        }),
        !s.echo_available ==> s.pending() == (ProbeAction::Connect {
            port: probe_port(s.attempt as int % 11),
        }),
        s.echo_available && s.attempt > s.retries ==> s.pending() == (ProbeAction::Connect {
            port: probe_port((s.attempt - s.retries - 1) % 11),
        }),
{
}

} // verus!

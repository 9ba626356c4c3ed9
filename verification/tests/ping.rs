use ipscannr::ping::{
    probe_ports, unprobed_result, unreachable_result, ConnectOutcome, HostStatus, PingMethod,
    PingResult, PingerConfig, Probe, ProbeAction,
};
use ipscannr::Ipv4Addr;

fn host() -> Ipv4Addr {
    Ipv4Addr::new(10, 0, 0, 7)
}

#[test]
fn default_pinger_config() {
    let config = PingerConfig::default();
    assert_eq!(config.timeout_ms, 1000);
    assert_eq!(config.retries, 1);
    assert_eq!(config.concurrent_limit, 100);
}

#[test]
fn names_of_methods_and_states() {
    assert_eq!(PingMethod::Icmp.to_string(), "ICMP");
    assert_eq!(PingMethod::Tcp.to_string(), "TCP");
    assert_eq!(HostStatus::Online.to_string(), "Online");
    assert_eq!(HostStatus::OnlineNoIcmp.to_string(), "Online (no ICMP)");
    assert_eq!(HostStatus::Offline.to_string(), "Offline");
}

#[test]
fn candidate_ports_in_order() {
    assert_eq!(probe_ports(), [80, 443, 22, 445, 139, 135, 3389, 21, 23, 25, 53]);
}

#[test]
fn echo_reply_ends_probe_online() {
    let mut probe = Probe::new(host(), 1, true);
    assert_eq!(probe.action(), ProbeAction::Echo { seq: 0 });
    let action = probe.advance(Some(12));
    assert_eq!(
        action,
        ProbeAction::Report(PingResult {
            ip: host(),
            is_alive: true,
            rtt_ms: Some(12),
            method: PingMethod::Icmp,
            status: HostStatus::Online,
        })
    );
    assert_eq!(probe.action(), action);
    assert_eq!(probe.advance(None), action);
    assert_eq!(probe.advance(Some(99)), action);
}

#[test]
fn echo_is_retried_before_ports_are_tried() {
    let mut probe = Probe::new(host(), 2, true);
    assert_eq!(probe.action(), ProbeAction::Echo { seq: 0 });
    assert_eq!(probe.advance(None), ProbeAction::Echo { seq: 1 });
    assert_eq!(probe.advance(None), ProbeAction::Echo { seq: 2 });
    assert_eq!(probe.advance(None), ProbeAction::Connect { port: 80 });
    assert_eq!(probe.advance(None), ProbeAction::Connect { port: 443 });
}

#[test]
fn refused_connection_counts_as_alive() {
    let mut probe = Probe::new(host(), 0, true);
    assert_eq!(probe.advance(None), ProbeAction::Connect { port: 80 });
    assert_eq!(probe.advance(ConnectOutcome::TimedOut.reply(1000)), ProbeAction::Connect { port: 443 });
    let action = probe.advance(ConnectOutcome::Refused.reply(3));
    assert_eq!(
        action,
        ProbeAction::Report(PingResult {
            ip: host(),
            is_alive: true,
            rtt_ms: Some(3),
            method: PingMethod::Tcp,
            status: HostStatus::OnlineNoIcmp,
        })
    );
}

#[test]
fn connection_without_echo_is_plain_online() {
    let mut probe = Probe::new(host(), 0, false);
    assert_eq!(probe.action(), ProbeAction::Connect { port: 80 });
    let action = probe.advance(ConnectOutcome::Connected.reply(8));
    assert_eq!(
        action,
        ProbeAction::Report(PingResult {
            ip: host(),
            is_alive: true,
            rtt_ms: Some(8),
            method: PingMethod::Tcp,
            status: HostStatus::Online,
        })
    );
}

#[test]
fn connect_outcomes() {
    assert_eq!(ConnectOutcome::Connected.reply(5), Some(5));
    assert_eq!(ConnectOutcome::Refused.reply(5), Some(5));
    assert_eq!(ConnectOutcome::Failed.reply(5), None);
    assert_eq!(ConnectOutcome::TimedOut.reply(5), None);
    assert!(ConnectOutcome::Connected.is_open());
    assert!(!ConnectOutcome::Refused.is_open());
    assert!(!ConnectOutcome::Failed.is_open());
    assert!(!ConnectOutcome::TimedOut.is_open());
}

fn run_silent(retries: u32, echo_available: bool) -> (Vec<ProbeAction>, PingResult) {
    let mut probe = Probe::new(host(), retries, echo_available);
    let mut actions = vec![probe.action()];
    loop {
        match probe.advance(None) {
            ProbeAction::Report(result) => return (actions, result),
            other => actions.push(other),
        }
    }
}

#[test]
fn silent_host_is_offline_after_every_attempt() {
    let (actions, result) = run_silent(1, true);
    let ports = probe_ports();
    let mut expected = vec![ProbeAction::Echo { seq: 0 }, ProbeAction::Echo { seq: 1 }];
    for _ in 0..2 {
        for port in ports {
            expected.push(ProbeAction::Connect { port });
        }
    }
    assert_eq!(actions, expected);
    assert_eq!(result, unreachable_result(host(), true));
    assert_eq!(result.status, HostStatus::Offline);
    assert!(!result.is_alive);
    assert_eq!(result.rtt_ms, None);
    assert_eq!(result.method, PingMethod::Icmp);
}

#[test]
fn silent_host_without_echo_is_offline_by_tcp() {
    let (actions, result) = run_silent(0, false);
    assert_eq!(actions.len(), 11);
    assert_eq!(actions[10], ProbeAction::Connect { port: 53 });
    assert_eq!(result.method, PingMethod::Tcp);
    assert_eq!(result.status, HostStatus::Offline);
    let (actions, _) = run_silent(3, false);
    assert_eq!(actions.len(), 44);
}

#[test]
fn last_attempt_can_still_be_answered() {
    let mut probe = Probe::new(host(), 0, false);
    for _ in 0..10 {
        probe.advance(None);
    }
    assert_eq!(probe.action(), ProbeAction::Connect { port: 53 });
    match probe.advance(Some(1)) {
        ProbeAction::Report(result) => assert!(result.is_alive),
        other => panic!("unexpected action {:?}", other),
    }
}

#[test]
fn echo_sequence_numbers_wrap_at_16_bits() {
    let mut probe = Probe::new(host(), 70000, true);
    let mut last = probe.action();
    for _ in 0..65536 {
        last = probe.advance(None);
    }
    assert_eq!(last, ProbeAction::Echo { seq: 0 });
    assert_eq!(probe.advance(None), ProbeAction::Echo { seq: 1 });
}

#[test]
fn unprobed_host_is_offline() {
    let result = unprobed_result(host());
    assert_eq!(result.ip, host());
    assert!(!result.is_alive);
    assert_eq!(result.status, HostStatus::Offline);
    assert_eq!(result.method, PingMethod::Icmp);
    assert_eq!(unreachable_result(host(), false).method, PingMethod::Tcp);
}

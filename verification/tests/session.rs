use ipscannr::host::HostInfo;
use ipscannr::ping::{unreachable_result, HostStatus, PingMethod, PingResult};
use ipscannr::session::{ScanSession, ScanState};
use ipscannr::{Ipv4Addr, ParseError};

fn offline(ip: Ipv4Addr) -> HostInfo {
    HostInfo::from(unreachable_result(ip, true))
}

fn online(ip: Ipv4Addr) -> HostInfo {
    HostInfo::from(PingResult {
        ip,
        is_alive: true,
        rtt_ms: Some(2),
        method: PingMethod::Icmp,
        status: HostStatus::Online,
    })
}

#[test]
fn new_session_is_idle() {
    let session = ScanSession::new();
    assert_eq!(session.state(), ScanState::Idle);
    assert_eq!(session.total(), 0);
    assert_eq!(session.completed(), 0);
    assert!(session.hosts().is_empty());
    assert!(session.addresses().is_empty());
    assert_eq!(session.range_key(), "");
}

#[test]
fn host_record_of_a_probe_result() {
    let h = online(Ipv4Addr::new(10, 0, 0, 1));
    assert_eq!(h.ip, Ipv4Addr::new(10, 0, 0, 1));
    assert!(h.is_alive);
    assert_eq!(h.rtt_ms, Some(2));
    assert_eq!(h.hostname, None);
    assert!(h.mac.is_none());
    assert!(h.open_ports.is_empty());
    assert!(!h.ports_scanned);
    assert_eq!(h.cached_at, None);
    assert_eq!(h.method, PingMethod::Icmp);
    assert_eq!(h.status, HostStatus::Online);
}

#[test]
fn unreachable_subnet_scenario() {
    let mut session = ScanSession::new();
    let run = session.start("192.168.50.0/30").expect("a valid range");
    assert_eq!(session.state(), ScanState::Scanning);
    assert_eq!(session.total(), 4);
    assert_eq!(session.completed(), 0);
    assert_eq!(session.range_key(), "192.168.50.0/30");
    let addresses: Vec<Ipv4Addr> = session.addresses().to_vec();
    for ip in [addresses[2], addresses[0], addresses[3], addresses[1]] {
        assert!(session.on_host_discovered(run, offline(ip)));
    }
    assert_eq!(session.completed(), 4);
    assert_eq!(session.state(), ScanState::Scanning);
    session.on_scan_complete();
    assert_eq!(session.state(), ScanState::Completed);
    assert_eq!(session.completed(), session.total());
    let hosts = session.hosts();
    assert_eq!(hosts.len(), 4);
    for (host, ip) in hosts.iter().zip(addresses.iter()) {
        assert_eq!(host.status, HostStatus::Offline);
        assert!(!host.is_alive);
        assert_eq!(host.ip, *ip);
    }
    assert!(hosts.windows(2).all(|w| w[0].ip < w[1].ip));
}

#[test]
fn invalid_range_starts_nothing() {
    let mut session = ScanSession::new();
    assert_eq!(session.start(""), Err(ParseError::Empty));
    assert_eq!(session.start("10.0.0.10-10.0.0.5"), Err(ParseError::StartAfterEnd));
    assert_eq!(session.state(), ScanState::Idle);
    let run = session.start("10.0.0.1-3").expect("a valid range");
    session.on_host_discovered(run, online(Ipv4Addr::new(10, 0, 0, 1)));
    assert_eq!(session.start("bogus"), Err(ParseError::InvalidAddress));
    assert_eq!(session.state(), ScanState::Scanning);
    assert_eq!(session.total(), 3);
    assert_eq!(session.completed(), 1);
    assert_eq!(session.range_key(), "10.0.0.1-3");
}

#[test]
fn pause_and_resume_restart_the_whole_range() {
    let mut session = ScanSession::new();
    let run = session.start("10.0.0.1-5").expect("a valid range");
    assert!(session.on_host_discovered(run, online(Ipv4Addr::new(10, 0, 0, 1))));
    assert!(session.on_host_discovered(run, offline(Ipv4Addr::new(10, 0, 0, 2))));
    assert_eq!(session.completed(), 2);

    assert_eq!(session.pause(), Some(run));
    assert_eq!(session.state(), ScanState::Paused);
    assert!(!session.on_host_discovered(run, online(Ipv4Addr::new(10, 0, 0, 3))));
    assert_eq!(session.completed(), 2);
    assert_eq!(session.hosts().len(), 2);
    assert_eq!(session.pause(), None);

    let second = session.resume().expect("a paused scan");
    assert_ne!(second, run);
    assert_eq!(session.state(), ScanState::Scanning);
    assert_eq!(session.completed(), 0);
    assert_eq!(session.total(), 5);
    assert!(session.hosts().is_empty());
    let all: Vec<u32> = session.addresses().iter().map(|a| a.to_u32()).collect();
    let first = Ipv4Addr::new(10, 0, 0, 1).to_u32();
    assert_eq!(all, vec![first, first + 1, first + 2, first + 3, first + 4]);
    assert_eq!(session.resume(), None);

    assert!(!session.on_host_discovered(run, online(Ipv4Addr::new(10, 0, 0, 4))));
    assert!(session.on_host_discovered(second, online(Ipv4Addr::new(10, 0, 0, 1))));
    assert_eq!(session.completed(), 1);
}

#[test]
fn end_of_a_paused_run_leaves_it_paused() {
    let mut session = ScanSession::new();
    let run = session.start("10.0.0.1-2").expect("a valid range");
    session.on_host_discovered(run, online(Ipv4Addr::new(10, 0, 0, 2)));
    session.pause();
    session.on_scan_complete();
    assert_eq!(session.state(), ScanState::Paused);
    assert!(session.resume().is_some());
    assert_eq!(session.state(), ScanState::Scanning);
}

#[test]
fn end_of_the_scan_completes_it() {
    let mut session = ScanSession::new();
    let first = session.start("10.0.0.1-2").expect("a valid range");
    let second = session.start("10.0.0.5-9").expect("a valid range");
    assert_ne!(first, second);
    assert!(!session.on_host_discovered(first, online(Ipv4Addr::new(10, 0, 0, 1))));
    session.on_scan_complete();
    assert_eq!(session.state(), ScanState::Completed);
    assert_eq!(session.pause(), None);
    assert_eq!(session.resume(), None);
    session.on_scan_complete();
    assert_eq!(session.state(), ScanState::Completed);
}

#[test]
fn end_of_the_scan_sorts_whatever_the_state() {
    let mut session = ScanSession::new();
    let hosts = vec![
        online(Ipv4Addr::new(10, 0, 1, 0)),
        offline(Ipv4Addr::new(10, 0, 0, 255)),
        online(Ipv4Addr::new(9, 255, 255, 255)),
        offline(Ipv4Addr::new(10, 0, 0, 255)),
    ];
    assert!(session.show_cached(hosts));
    session.on_scan_complete();
    assert_eq!(session.state(), ScanState::Completed);
    let ips: Vec<Ipv4Addr> = session.hosts().iter().map(|h| h.ip).collect();
    assert_eq!(
        ips,
        vec![
            Ipv4Addr::new(9, 255, 255, 255),
            Ipv4Addr::new(10, 0, 0, 255),
            Ipv4Addr::new(10, 0, 0, 255),
            Ipv4Addr::new(10, 0, 1, 0),
        ]
    );
    assert!(!session.hosts()[1].is_alive);
    assert!(session.hosts()[3].is_alive);
}

#[test]
fn no_more_hosts_than_addresses() {
    let mut session = ScanSession::new();
    let run = session.start("10.0.0.1").expect("a valid range");
    assert!(session.on_host_discovered(run, online(Ipv4Addr::new(10, 0, 0, 1))));
    assert!(!session.on_host_discovered(run, online(Ipv4Addr::new(10, 0, 0, 1))));
    assert_eq!(session.completed(), 1);
    assert_eq!(session.hosts().len(), 1);
}

#[test]
fn hosts_with_one_address_keep_their_order_when_sorted() {
    let mut session = ScanSession::new();
    let run = session.start("10.0.0.2,10.0.0.1,10.0.0.2").expect("a valid range");
    let mut a = online(Ipv4Addr::new(10, 0, 0, 2));
    a.hostname = Some("first".to_string());
    let mut b = online(Ipv4Addr::new(10, 0, 0, 2));
    b.hostname = Some("second".to_string());
    session.on_host_discovered(run, a);
    session.on_host_discovered(run, b);
    session.on_host_discovered(run, online(Ipv4Addr::new(10, 0, 0, 1)));
    session.on_scan_complete();
    let names: Vec<Option<&str>> = session.hosts().iter().map(|h| h.hostname.as_deref()).collect();
    assert_eq!(names, vec![None, Some("first"), Some("second")]);
}

#[test]
fn restart_after_completion() {
    let mut session = ScanSession::new();
    let run = session.start("10.0.0.1").expect("a valid range");
    session.on_host_discovered(run, online(Ipv4Addr::new(10, 0, 0, 1)));
    session.on_scan_complete();
    let again = session.start("10.0.0.1-2").expect("a valid range");
    assert_eq!(session.state(), ScanState::Scanning);
    assert_eq!(session.run(), again);
    assert_eq!(session.completed(), 0);
    assert_eq!(session.total(), 2);
    assert!(session.hosts().is_empty());
}

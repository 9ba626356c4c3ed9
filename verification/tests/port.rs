use ipscannr::ping::ConnectOutcome;
use ipscannr::port::{
    get_service_name, open_ports, parse_ports, port_result, sort_port_results, untried_port,
    PortResult, PortScannerConfig, COMMON_PORTS,
};

#[test]
fn service_names() {
    assert_eq!(get_service_name(22), "ssh");
    assert_eq!(get_service_name(80), "http");
    assert_eq!(get_service_name(443), "https");
    assert_eq!(get_service_name(5432), "postgres");
    assert_eq!(get_service_name(27017), "mongodb");
    assert_eq!(get_service_name(8443), "https-alt");
    assert_eq!(get_service_name(0), "unknown");
    assert_eq!(get_service_name(65535), "unknown");
}

#[test]
fn every_common_port_has_a_service() {
    assert_eq!(COMMON_PORTS.len(), 25);
    for port in COMMON_PORTS {
        assert_ne!(get_service_name(port), "unknown", "{}", port);
    }
    let mut sorted = COMMON_PORTS.to_vec();
    sorted.sort();
    assert_eq!(sorted, COMMON_PORTS.to_vec());
}

#[test]
fn default_port_scanner_config() {
    let config = PortScannerConfig::default();
    assert_eq!(config.timeout_ms, 500);
    assert_eq!(config.concurrent_limit, 50);
}

#[test]
fn only_an_established_connection_is_open() {
    let r = port_result(22, ConnectOutcome::Connected);
    assert_eq!((r.port, r.is_open, r.service), (22, true, "ssh"));
    assert!(!port_result(22, ConnectOutcome::Refused).is_open);
    assert!(!port_result(22, ConnectOutcome::TimedOut).is_open);
    assert!(!port_result(22, ConnectOutcome::Failed).is_open);
    let r = untried_port(9999);
    assert_eq!((r.port, r.is_open, r.service), (9999, false, "unknown"));
}

#[test]
fn results_are_sorted_by_port() {
    let mut results: Vec<PortResult> = [443u16, 22, 8080, 80, 21]
        .iter()
        .map(|p| port_result(*p, ConnectOutcome::Connected))
        .collect();
    sort_port_results(&mut results);
    let ports: Vec<u16> = results.iter().map(|r| r.port).collect();
    assert_eq!(ports, vec![21, 22, 80, 443, 8080]);
}

#[test]
fn open_ports_are_picked_in_order() {
    let results = vec![
        port_result(21, ConnectOutcome::Refused),
        port_result(22, ConnectOutcome::Connected),
        port_result(80, ConnectOutcome::TimedOut),
        port_result(443, ConnectOutcome::Connected),
    ];
    assert_eq!(open_ports(&results), vec![22, 443]);
    assert_eq!(open_ports(&Vec::new()), Vec::<u16>::new());
}

#[test]
fn parse_ports_forms() {
    assert_eq!(parse_ports("80"), vec![80]);
    assert_eq!(parse_ports("80,443,8080"), vec![80, 443, 8080]);
    assert_eq!(parse_ports("1-5"), vec![1, 2, 3, 4, 5]);
    assert_eq!(parse_ports("80,443,1000-1002"), vec![80, 443, 1000, 1001, 1002]);
}

#[test]
fn parse_ports_sorts_and_drops_duplicates() {
    assert_eq!(parse_ports("443, 80 ,80,79-81"), vec![79, 80, 81, 443]);
    assert_eq!(parse_ports("5-3"), Vec::<u16>::new());
    assert_eq!(parse_ports("3-3"), vec![3]);
}

#[test]
fn parse_ports_passes_over_what_is_no_port() {
    assert_eq!(parse_ports(""), Vec::<u16>::new());
    assert_eq!(parse_ports(" , ,"), Vec::<u16>::new());
    assert_eq!(parse_ports("http,80"), vec![80]);
    assert_eq!(parse_ports("65536,65535,0"), vec![0, 65535]);
    assert_eq!(parse_ports("1-2-3,7"), vec![7]);
    assert_eq!(parse_ports("1 - 3,9"), vec![9]);
    assert_eq!(parse_ports("-5,9"), vec![9]);
    assert_eq!(parse_ports("5-,9"), vec![9]);
    assert_eq!(parse_ports("+7"), vec![7]);
}

#[test]
fn parse_ports_whole_range() {
    let all = parse_ports("0-65535");
    assert_eq!(all.len(), 65536);
    assert_eq!(all[0], 0);
    assert_eq!(all[65535], 65535);
    let all = parse_ports("1-1024");
    assert_eq!(all.len(), 1024);
}

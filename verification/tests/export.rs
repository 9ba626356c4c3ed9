use ipscannr::display::{
    continuous_ping_ports, export_filename, mac_cell, name_cell, next_ping_seq, overlay_window,
    ping_line, ping_title, port_cells, rtt_cell, tracert_title,
};
use ipscannr::export::{export_header, export_host, export_row, host_report, report_filename};
use ipscannr::host::{enrichment_for, Enrichment, HostInfo};
use ipscannr::mac::MacInfo;
use ipscannr::ping::{HostStatus, PingMethod};
use ipscannr::{Ipv4Addr, ParseError};

fn full_host() -> HostInfo {
    HostInfo {
        ip: Ipv4Addr::new(192, 168, 1, 20),
        is_alive: true,
        rtt_ms: Some(12),
        hostname: Some("printer.local".to_string()),
        mac: Some(MacInfo { address: "AA:BB:CC:DD:EE:FF".to_string(), vendor: Some("Acme".to_string()) }),
        open_ports: vec![22, 80, 443],
        ports_scanned: true,
        cached_at: None,
        method: PingMethod::Icmp,
        status: HostStatus::Online,
    }
}

fn bare_host() -> HostInfo {
    HostInfo {
        ip: Ipv4Addr::new(10, 0, 0, 3),
        is_alive: false,
        rtt_ms: None,
        hostname: None,
        mac: None,
        open_ports: Vec::new(),
        ports_scanned: false,
        cached_at: None,
        method: PingMethod::Tcp,
        status: HostStatus::Offline,
    }
}

#[test]
fn report_of_a_host() {
    assert_eq!(
        host_report(&full_host()),
        "IP:     192.168.1.20\nStatus: Online\nRTT:    12ms\nHost:   printer.local\n\
         MAC:    AA:BB:CC:DD:EE:FF\nVendor: Acme\n\nOpen Ports:\n  22\n  80\n  443\n"
    );
    assert_eq!(host_report(&bare_host()), "IP:     10.0.0.3\nStatus: Offline\n");
    let mut h = full_host();
    h.mac = Some(MacInfo { address: "00:11:22:33:44:55".to_string(), vendor: None });
    h.hostname = None;
    h.open_ports = vec![8080];
    assert_eq!(
        host_report(&h),
        "IP:     192.168.1.20\nStatus: Online\nRTT:    12ms\nMAC:    00:11:22:33:44:55\n\nOpen Ports:\n  8080\n"
    );
    assert_eq!(report_filename(Ipv4Addr::new(10, 0, 0, 3)), "ipscannr_host_10.0.0.3.txt");
}

#[test]
fn rows_of_an_export() {
    assert_eq!(
        export_header(),
        ["IP", "Status", "RTT (ms)", "Hostname", "MAC", "Vendor", "Ports"]
    );
    assert_eq!(
        export_row(&full_host()),
        vec!["192.168.1.20", "Online", "12", "printer.local", "AA:BB:CC:DD:EE:FF", "Acme", "22;80;443"]
    );
    assert_eq!(export_row(&bare_host()), vec!["10.0.0.3", "Offline", "", "", "", "", ""]);
    let mut h = bare_host();
    h.open_ports = vec![443];
    h.rtt_ms = Some(0);
    assert_eq!(export_row(&h), vec!["10.0.0.3", "Offline", "0", "", "", "", "443"]);
}

#[test]
fn records_of_an_export() {
    let e = export_host(&full_host());
    assert_eq!(e.ip, "192.168.1.20");
    assert!(e.is_alive);
    assert_eq!(e.rtt_ms, Some(12));
    assert_eq!(e.hostname.as_deref(), Some("printer.local"));
    assert_eq!(e.mac_address.as_deref(), Some("AA:BB:CC:DD:EE:FF"));
    assert_eq!(e.mac_vendor.as_deref(), Some("Acme"));
    assert_eq!(e.open_ports, vec![22, 80, 443]);
    let e = export_host(&bare_host());
    assert_eq!(e.mac_address, None);
    assert_eq!(e.mac_vendor, None);
    assert!(e.open_ports.is_empty());
}

#[test]
fn export_file_names() {
    assert_eq!(export_filename(1700000000, false), "ipscannr_export_1700000000.csv");
    assert_eq!(export_filename(0, true), "ipscannr_export_0.json");
}

#[test]
fn lines_of_a_continuous_ping() {
    let ip = Ipv4Addr::new(10, 0, 0, 1);
    assert_eq!(ping_line(1, ip, Some(12)), "[1] Reply from 10.0.0.1: time=12ms");
    assert_eq!(ping_line(42, ip, None), "[42] Request timed out for 10.0.0.1");
    assert_eq!(continuous_ping_ports(), [80, 443, 22, 445, 139]);
    assert_eq!(next_ping_seq(0), 1);
    assert_eq!(next_ping_seq(41), 42);
    assert_eq!(next_ping_seq(u32::MAX), 1);
    assert_eq!(ping_title(ip), "Continuous Ping — 10.0.0.1");
    assert_eq!(tracert_title(ip), "Tracert — 10.0.0.1");
}

#[test]
fn window_of_an_overlay() {
    assert_eq!(overlay_window(100, 0, 11), (0, 10));
    assert_eq!(overlay_window(100, 50, 11), (50, 10));
    assert_eq!(overlay_window(100, 95, 11), (90, 10));
    assert_eq!(overlay_window(100, usize::MAX, 11), (90, 10));
    assert_eq!(overlay_window(3, 0, 11), (0, 3));
    assert_eq!(overlay_window(3, 2, 11), (0, 3));
    assert_eq!(overlay_window(0, 5, 11), (0, 0));
    assert_eq!(overlay_window(10, 0, 1), (0, 0));
    assert_eq!(overlay_window(10, 0, 0), (0, 0));
}

#[test]
fn what_is_looked_up_about_a_host() {
    assert_eq!(enrichment_for(true, true, true), Enrichment { hostname: true, mac: true });
    assert_eq!(enrichment_for(true, false, true), Enrichment { hostname: false, mac: true });
    assert_eq!(enrichment_for(true, true, false), Enrichment { hostname: true, mac: false });
    assert_eq!(enrichment_for(false, true, true), Enrichment { hostname: false, mac: false });
}

#[test]
fn failed_lookups_leave_the_record() {
    let mut h = full_host();
    h.note_hostname(None);
    h.note_mac(None);
    assert_eq!(h.hostname.as_deref(), Some("printer.local"));
    assert!(h.mac.is_some());
    let mut h = bare_host();
    h.note_hostname(Some("a.local".to_string()));
    h.note_mac(Some(MacInfo { address: "00:11:22:33:44:55".to_string(), vendor: None }));
    assert_eq!(h.hostname.as_deref(), Some("a.local"));
    assert_eq!(h.mac.map(|m| m.address), Some("00:11:22:33:44:55".to_string()));
    let copy = full_host().duplicate();
    assert_eq!(copy.ip, full_host().ip);
    assert_eq!(copy.open_ports, vec![22, 80, 443]);
    assert_eq!(copy.hostname, full_host().hostname);
}

#[test]
fn parse_error_messages() {
    assert_eq!(ParseError::Empty.message(), "Empty IP range");
    assert_eq!(ParseError::InvalidAddress.message(), "Invalid IP address");
    assert_eq!(ParseError::InvalidCidr.message(), "Invalid CIDR notation");
    assert_eq!(ParseError::InvalidRangeFormat.message(), "Invalid range format");
    assert_eq!(ParseError::InvalidStart.message(), "Invalid start IP");
    assert_eq!(ParseError::InvalidEnd.message(), "Invalid end IP");
    assert_eq!(ParseError::InvalidEndOctet.message(), "Invalid end octet");
    assert_eq!(ParseError::StartAfterEnd.message(), "Start IP is greater than end IP");
    assert_eq!(ParseError::NoAddresses.message(), "No valid IP addresses found");
}

#[test]
fn cells_of_the_table_and_the_details() {
    assert_eq!(name_cell(&full_host()), ("printer.local".to_string(), false));
    let mut h = full_host();
    h.hostname = None;
    assert_eq!(name_cell(&h), ("[Acme]".to_string(), true));
    h.mac = Some(MacInfo { address: "00:11:22:33:44:55".to_string(), vendor: None });
    assert_eq!(name_cell(&h), ("-".to_string(), false));
    assert_eq!(mac_cell(h.mac.as_ref().expect("a mac")), "00:11:22:33:44:55");
    assert_eq!(mac_cell(full_host().mac.as_ref().expect("a mac")), "AA:BB:CC:DD:EE:FF (Acme)");
    assert_eq!(name_cell(&bare_host()), ("-".to_string(), false));
    assert_eq!(rtt_cell(Some(12)), "12ms");
    assert_eq!(rtt_cell(Some(0)), "0ms");
    assert_eq!(rtt_cell(None), "-");
    for port in [0u16, 7, 22, 443, 8080, 27017, 65535] {
        let (number, service) = port_cells(port);
        assert_eq!(number, format!("  {:5} ", port));
        assert_eq!(service, ipscannr::port::get_service_name(port));
    }
}

use ipscannr::adapters::{AdapterInfo, AdapterType};
use ipscannr::app::{App, AppCommand, FilterMode, Focus, ScanEvent};
use ipscannr::config::Config;
use ipscannr::host::HostInfo;
use ipscannr::input::{Action, InputMode};
use ipscannr::mac::MacInfo;
use ipscannr::ping::{unreachable_result, HostStatus, PingMethod, PingResult};
use ipscannr::session::ScanState;
use ipscannr::{Ipv4Addr, ParseError};

fn app() -> App {
    let mut app = App::new(Config::default());
    app.load_adapters(Vec::new());
    app
}

fn adapter(name: &str, kind: AdapterType, last: u8) -> AdapterInfo {
    let ip = Ipv4Addr::new(10, 0, last, 7);
    AdapterInfo {
        name: name.to_string(),
        adapter_type: kind,
        ip,
        prefix_length: 24,
        subnet: AdapterInfo::calculate_subnet(ip, 24),
    }
}

fn online(ip: Ipv4Addr) -> HostInfo {
    HostInfo::from(PingResult {
        ip,
        is_alive: true,
        rtt_ms: Some(1),
        method: PingMethod::Icmp,
        status: HostStatus::Online,
    })
}

fn offline(ip: Ipv4Addr) -> HostInfo {
    HostInfo::from(unreachable_result(ip, true))
}

fn scanned(range: &str, alive: &[u8]) -> (App, u64) {
    let mut app = app();
    app.range_input.set(range);
    let run = app.start_scan().expect("a valid range");
    let addresses: Vec<Ipv4Addr> = app.session.addresses().to_vec();
    for ip in addresses {
        let host = if alive.contains(&ip.octets()[3]) { online(ip) } else { offline(ip) };
        app.handle_scan_event(run, ScanEvent::HostDiscovered(host));
    }
    (app, run)
}

#[test]
fn new_app() {
    let app = App::new(Config::default());
    assert_eq!(app.input_mode, InputMode::Normal);
    assert_eq!(app.focus, Focus::RangeInput);
    assert_eq!(app.filter_mode, FilterMode::All);
    assert!(app.adapters_loading);
    assert_eq!(app.range_input.text(), "192.168.1.0/24");
    assert_eq!(app.range_input.cursor(), 14);
    assert_eq!(app.session.state(), ScanState::Idle);
    assert!(app.show_details);
    assert_eq!(app.status_text(), "⠋ Loading");
    assert_eq!(app.selected, None);
    assert_eq!(app.progress_percent(), 0);
}

#[test]
fn adapters_offer_their_networks() {
    let mut app = App::new(Config::default());
    app.load_adapters(vec![adapter("eth", AdapterType::Ethernet, 1), adapter("wifi", AdapterType::Wifi, 2)]);
    assert!(!app.adapters_loading);
    assert_eq!(app.adapter_index, Some(0));
    assert_eq!(app.range_input.text(), "10.0.1.0/24");
    assert_eq!(app.range_title(), " Range [Ethernet] ");
    assert_eq!(app.current_adapter().map(|a| a.name.clone()), Some("eth".to_string()));
    app.next_adapter();
    assert_eq!(app.adapter_index, Some(1));
    assert_eq!(app.range_input.text(), "10.0.2.0/24");
    assert_eq!(app.range_title(), " Range [WiFi] ");
    app.next_adapter();
    assert_eq!(app.adapter_index, None);
    assert_eq!(app.range_input.text(), "");
    assert_eq!(app.range_title(), " Range [Custom] ");
    app.next_adapter();
    assert_eq!(app.adapter_index, Some(0));
    app.prev_adapter();
    assert_eq!(app.adapter_index, None);
    app.prev_adapter();
    assert_eq!(app.adapter_index, Some(1));
    assert_eq!(app.range_input.text(), "10.0.2.0/24");
    assert_eq!(app.range_input.cursor(), 11);
    app.prev_adapter();
    assert_eq!(app.adapter_index, Some(0));
}

#[test]
fn without_adapters_nothing_cycles() {
    let mut app = app();
    app.next_adapter();
    app.prev_adapter();
    assert_eq!(app.adapter_index, None);
    assert_eq!(app.range_input.text(), "192.168.1.0/24");
    assert_eq!(app.range_title(), " Range ");
    assert!(app.current_adapter().is_none());
}

#[test]
fn animation_has_twelve_steps() {
    let mut app = app();
    for expected in [1, 2, 3, 4, 5, 6, 7, 8, 9, 10, 11, 0, 1] {
        app.tick_animation();
        assert_eq!(app.animation_tick, expected);
    }
}

#[test]
fn scan_fills_the_table() {
    let (mut app, run) = scanned("10.0.0.1-4", &[2, 3]);
    assert_eq!(app.focus, Focus::HostsTable);
    assert_eq!(app.session.completed(), 4);
    assert_eq!(app.progress_percent(), 100);
    assert_eq!(app.filtered_hosts, vec![0, 1, 2, 3]);
    assert_eq!(app.selected, Some(0));
    assert_eq!(app.online_count(), 2);
    assert_eq!(app.status_text(), "⠋ 4/4");
    assert_eq!(app.status_right_text(), "2 online | ⠋ 4/4");
    app.handle_scan_event(run, ScanEvent::ScanComplete);
    assert_eq!(app.session.state(), ScanState::Completed);
    assert_eq!(app.status_text(), "Done");
    assert_eq!(app.completion_summary(), "4 hosts (2 online)");
    assert_eq!(app.header_text(), "4 hosts (2 online)");
    assert_eq!(app.get_filtered_hosts().len(), 4);
}

#[test]
fn progress_in_hundredths() {
    let mut app = app();
    app.range_input.set("10.0.0.1-3");
    let run = app.start_scan().expect("a valid range");
    assert_eq!(app.progress_percent(), 0);
    app.handle_scan_event(run, ScanEvent::HostDiscovered(online(Ipv4Addr::new(10, 0, 0, 1))));
    assert_eq!(app.progress_percent(), 33);
    app.handle_scan_event(run, ScanEvent::HostDiscovered(online(Ipv4Addr::new(10, 0, 0, 2))));
    assert_eq!(app.progress_percent(), 66);
    assert_eq!(app.status_text(), "⠋ 2/3");
}

#[test]
fn invalid_range_is_reported() {
    let mut app = app();
    app.range_input.set("10.0.0.9-1");
    assert_eq!(app.start_scan(), Err(ParseError::StartAfterEnd));
    assert_eq!(app.session.state(), ScanState::Idle);
    assert_eq!(app.focus, Focus::RangeInput);
    app.note_parse_error(ParseError::StartAfterEnd);
    assert_eq!(app.export_message.as_deref(), Some("Error: Start IP is greater than end IP"));
    app.dismiss_message();
    assert_eq!(app.export_message, None);
}

#[test]
fn filter_shows_hosts_that_are_alive() {
    let (mut app, _) = scanned("10.0.0.1-5", &[2, 5]);
    assert_eq!(app.handle_action(Action::ToggleFilter), None);
    assert_eq!(app.filter_mode, FilterMode::OnlineOnly);
    assert_eq!(app.filtered_hosts, vec![1, 4]);
    let shown: Vec<u8> = app.get_filtered_hosts().iter().map(|h| h.ip.octets()[3]).collect();
    assert_eq!(shown, vec![2, 5]);
    app.handle_action(Action::ToggleFilter);
    assert_eq!(app.filtered_hosts, vec![0, 1, 2, 3, 4]);
}

#[test]
fn cursor_is_taken_back_into_a_shorter_table() {
    let (mut app, _) = scanned("10.0.0.1-5", &[1, 2]);
    app.handle_action(Action::NavigateEnd);
    assert_eq!(app.selected, Some(4));
    app.handle_action(Action::ToggleFilter);
    assert_eq!(app.selected, Some(1));
    assert_eq!(app.selected_host().map(|h| h.ip), Some(Ipv4Addr::new(10, 0, 0, 2)));
    let (mut app, _) = scanned("10.0.0.1-2", &[]);
    app.handle_action(Action::ToggleFilter);
    assert_eq!(app.selected, None);
    assert!(app.selected_host().is_none());
}

#[test]
fn table_cursor_wraps() {
    let (mut app, _) = scanned("10.0.0.1-3", &[1, 2, 3]);
    assert_eq!(app.selected, Some(0));
    app.select_previous();
    assert_eq!(app.selected, Some(2));
    app.select_next();
    assert_eq!(app.selected, Some(0));
    app.select_next();
    assert_eq!(app.selected, Some(1));
    app.handle_action(Action::NavigatePageDown);
    assert_eq!(app.selected, Some(2));
    app.handle_action(Action::NavigatePageUp);
    assert_eq!(app.selected, Some(1));
    app.handle_action(Action::NavigateHome);
    assert_eq!(app.selected, Some(0));
    app.handle_action(Action::NavigateUp);
    assert_eq!(app.selected, Some(2));
    app.handle_action(Action::NavigateDown);
    assert_eq!(app.selected, Some(0));
    let mut empty = app_fn();
    empty.select_next();
    empty.select_previous();
    assert_eq!(empty.selected, None);
}

fn app_fn() -> App {
    app()
}

#[test]
fn escape_pauses_and_space_resumes() {
    let mut app = app_fn();
    app.range_input.set("10.0.0.1-5");
    let run = app.start_scan().expect("a valid range");
    app.handle_scan_event(run, ScanEvent::HostDiscovered(online(Ipv4Addr::new(10, 0, 0, 1))));
    assert_eq!(app.handle_action(Action::Cancel), Some(AppCommand::CancelScan(run)));
    assert_eq!(app.session.state(), ScanState::Paused);
    assert_eq!(app.status_text(), "Paused");
    app.handle_scan_event(run, ScanEvent::HostDiscovered(online(Ipv4Addr::new(10, 0, 0, 2))));
    assert_eq!(app.session.hosts().len(), 1);
    assert_eq!(app.handle_action(Action::ToggleSelect), Some(AppCommand::ResumeScan));
    assert_eq!(app.session.state(), ScanState::Paused);
    let second = app.resume_scan().expect("a paused scan");
    assert_ne!(second, run);
    assert_eq!(app.session.state(), ScanState::Scanning);
    assert_eq!(app.session.completed(), 0);
    assert_eq!(app.session.total(), 5);
    assert!(app.filtered_hosts.is_empty());
    assert_eq!(app.selected, None);
    assert_eq!(app.resume_scan(), None);
}

#[test]
fn stop_key_pauses_too() {
    let mut app = app_fn();
    app.range_input.set("10.0.0.1-5");
    let run = app.start_scan().expect("a valid range");
    assert_eq!(app.handle_action(Action::StartScan), None);
    assert_eq!(app.handle_action(Action::StopScan), Some(AppCommand::CancelScan(run)));
    assert_eq!(app.session.state(), ScanState::Paused);
    assert_eq!(app.handle_action(Action::StopScan), None);
    assert_eq!(app.handle_action(Action::StartScan), Some(AppCommand::StartScan));
    assert_eq!(app.pause_scan(), None);
}

#[test]
fn escape_in_the_overlay_does_not_pause() {
    let mut app = app_fn();
    app.range_input.set("10.0.0.1-5");
    app.start_scan().expect("a valid range");
    app.start_overlay("Tracert".to_string());
    assert_eq!(app.input_mode, InputMode::OutputOverlay);
    assert_eq!(app.handle_action(Action::Cancel), None);
    assert_eq!(app.session.state(), ScanState::Scanning);
    assert_eq!(app.handle_action(Action::StopOverlay), Some(AppCommand::StopOverlay));
    assert_eq!(app.input_mode, InputMode::Normal);
    assert!(!app.overlay_running);
}

#[test]
fn normal_mode_commands() {
    let mut app = app_fn();
    assert_eq!(app.handle_action(Action::Quit), Some(AppCommand::Quit));
    assert_eq!(app.handle_action(Action::StartScan), Some(AppCommand::StartScan));
    assert_eq!(app.handle_action(Action::Select), Some(AppCommand::StartScan));
    assert_eq!(app.handle_action(Action::Cancel), None);
    assert_eq!(app.focus, Focus::HostsTable);
    assert_eq!(app.handle_action(Action::Select), None);
    assert_eq!(app.handle_action(Action::Nothing), None);
    assert_eq!(app.handle_action(Action::Delete), None);
    assert_eq!(app.handle_action(Action::ContinuousPing), None);
    assert_eq!(app.handle_action(Action::RunTracert), None);
    assert_eq!(app.handle_action(Action::SaveHost), None);
    assert_eq!(app.export_message.as_deref(), Some("No host selected"));
    assert_eq!(app.handle_action(Action::WakeOnLan), None);
    assert_eq!(
        app.export_message.as_deref(),
        Some("Select a host with a known MAC address for WOL")
    );
}

#[test]
fn panes_take_turns() {
    let mut app = app_fn();
    assert_eq!(app.focus, Focus::RangeInput);
    app.handle_action(Action::SwitchPane);
    assert_eq!(app.focus, Focus::HostsTable);
    app.handle_action(Action::SwitchPane);
    assert_eq!(app.focus, Focus::DetailsPane);
    assert_eq!(app.handle_action(Action::ConfigurePorts), Some(AppCommand::ScanPortsForSelected));
    assert_eq!(app.input_mode, InputMode::Normal);
    app.handle_action(Action::SwitchPane);
    assert_eq!(app.focus, Focus::RangeInput);
    app.handle_action(Action::ToggleDetails);
    assert!(!app.show_details);
    app.handle_action(Action::SwitchPane);
    app.handle_action(Action::SwitchPane);
    assert_eq!(app.focus, Focus::RangeInput);
}

#[test]
fn typing_in_the_range_pane_starts_editing() {
    let mut app = App::new(Config::default());
    app.load_adapters(vec![adapter("eth", AdapterType::Ethernet, 1)]);
    assert_eq!(app.handle_action(Action::Character('9')), None);
    assert_eq!(app.input_mode, InputMode::EditingRange);
    assert_eq!(app.adapter_index, None);
    assert_eq!(app.range_input.text(), "10.0.1.0/249");
    app.handle_action(Action::Backspace);
    app.handle_action(Action::Backspace);
    assert_eq!(app.range_input.text(), "10.0.1.0/2");
    app.handle_action(Action::NavigateHome);
    app.handle_action(Action::Delete);
    app.handle_action(Action::Character('2'));
    app.handle_action(Action::NavigateDown);
    app.handle_action(Action::NavigateUp);
    app.handle_action(Action::Character('q'));
    assert_eq!(app.range_input.text(), "2q0.0.1.0/2");
    app.handle_action(Action::NavigateEnd);
    assert_eq!(app.range_input.cursor(), 11);
    assert_eq!(app.handle_action(Action::Select), Some(AppCommand::StartScan));
    assert_eq!(app.input_mode, InputMode::Normal);
}

#[test]
fn backspace_in_the_range_pane_starts_editing() {
    let mut app = app_fn();
    app.handle_action(Action::Backspace);
    assert_eq!(app.input_mode, InputMode::EditingRange);
    assert_eq!(app.range_input.text(), "192.168.1.0/2");
    app.handle_action(Action::Cancel);
    assert_eq!(app.input_mode, InputMode::Normal);
    app.handle_action(Action::Cancel);
    app.handle_action(Action::Backspace);
    assert_eq!(app.input_mode, InputMode::Normal);
    assert_eq!(app.range_input.text(), "192.168.1.0/2");
    app.handle_action(Action::EditRange);
    assert_eq!(app.input_mode, InputMode::EditingRange);
    assert_eq!(app.focus, Focus::RangeInput);
}

#[test]
fn empty_range_starts_no_scan() {
    let mut app = app_fn();
    app.handle_action(Action::EditRange);
    for _ in 0..14 {
        app.handle_action(Action::Backspace);
    }
    assert_eq!(app.range_input.text(), "");
    assert_eq!(app.handle_action(Action::Select), None);
    assert_eq!(app.input_mode, InputMode::Normal);
}

#[test]
fn ports_field_is_edited() {
    let mut app = app_fn();
    assert_eq!(app.handle_action(Action::ConfigurePorts), None);
    assert_eq!(app.input_mode, InputMode::EditingPorts);
    for c in "80,443".chars() {
        assert_eq!(app.handle_action(Action::Character(c)), None);
    }
    app.handle_action(Action::Backspace);
    app.handle_action(Action::NavigateHome);
    app.handle_action(Action::Delete);
    app.handle_action(Action::NavigateDown);
    app.handle_action(Action::NavigateUp);
    app.handle_action(Action::NavigateEnd);
    assert_eq!(app.ports_input.text(), "0,44");
    assert_eq!(app.range_input.text(), "192.168.1.0/24");
    assert_eq!(app.handle_action(Action::Select), None);
    assert_eq!(app.input_mode, InputMode::Normal);
}

#[test]
fn help_and_export_overlays() {
    let mut app = app_fn();
    app.handle_action(Action::Help);
    assert_eq!(app.input_mode, InputMode::Help);
    assert_eq!(app.handle_action(Action::Character('x')), None);
    assert_eq!(app.input_mode, InputMode::Help);
    app.handle_action(Action::Cancel);
    assert_eq!(app.input_mode, InputMode::Normal);
    app.handle_action(Action::Export);
    assert_eq!(app.input_mode, InputMode::Exporting);
    assert_eq!(app.handle_action(Action::Character('x')), None);
    assert_eq!(app.input_mode, InputMode::Exporting);
    assert_eq!(app.handle_action(Action::Character('c')), Some(AppCommand::ExportCsv));
    assert_eq!(app.input_mode, InputMode::Normal);
    app.handle_action(Action::Export);
    assert_eq!(app.handle_action(Action::Character('j')), Some(AppCommand::ExportJson));
    app.handle_action(Action::Export);
    assert_eq!(app.handle_action(Action::Cancel), None);
    assert_eq!(app.input_mode, InputMode::Normal);
    assert_eq!(app.export_scope_text(), "All 0 hosts");
}

#[test]
fn marking_hosts_for_export() {
    let (mut app, _) = scanned("10.0.0.1-3", &[1, 2, 3]);
    assert_eq!(app.handle_action(Action::ToggleSelect), None);
    app.select_next();
    app.select_next();
    app.handle_action(Action::ToggleSelect);
    assert_eq!(app.selected_hosts.len(), 2);
    assert_eq!(app.export_scope_text(), "2 selected host(s)");
    assert_eq!(app.status_right_text(), "[2✓] 3 online | ⠋ 3/3");
    let chosen: Vec<u8> = app.hosts_for_export().iter().map(|h| h.ip.octets()[3]).collect();
    assert_eq!(chosen, vec![1, 3]);
    app.handle_action(Action::ToggleSelect);
    let chosen: Vec<u8> = app.hosts_for_export().iter().map(|h| h.ip.octets()[3]).collect();
    assert_eq!(chosen, vec![1]);
    app.select_next();
    app.handle_action(Action::ToggleSelect);
    assert_eq!(app.hosts_for_export().len(), 3);
    assert_eq!(app.export_scope_text(), "All 3 hosts");
    app.focus = Focus::DetailsPane;
    app.handle_action(Action::ToggleSelect);
    assert!(app.selected_hosts.is_empty());
}

#[test]
fn commands_on_the_selected_host() {
    let (mut app, _) = scanned("10.0.0.1-2", &[1]);
    let first = Ipv4Addr::new(10, 0, 0, 1);
    assert_eq!(app.handle_action(Action::ContinuousPing), Some(AppCommand::StartContinuousPing(first)));
    assert_eq!(app.handle_action(Action::RunTracert), Some(AppCommand::StartTracert(first)));
    assert_eq!(app.handle_action(Action::SaveHost), Some(AppCommand::SaveHost));
    let (name, content) = app.save_selected_host().expect("a host");
    assert_eq!(app.save_request().map(|r| r.0), Some(name.clone()));
    assert_eq!(name, "ipscannr_host_10.0.0.1.txt");
    assert_eq!(content, "IP:     10.0.0.1\nStatus: Online\nRTT:    1ms\n");
    app.note_saved(&name);
    assert_eq!(app.export_message.as_deref(), Some("Saved to ipscannr_host_10.0.0.1.txt"));
    app.note_exported("out.csv");
    assert_eq!(app.export_message.as_deref(), Some("Exported to out.csv"));
    assert_eq!(app.port_scan_target(), Some(first));
    assert_eq!(app.scan_ports_for_selected(), Some(first));
    assert!(app.port_scanning);
    app.apply_port_scan(first, vec![80]);
    assert!(!app.port_scanning);
    app.select_next();
    assert_eq!(app.port_scan_target(), None);
    assert_eq!(app.scan_ports_for_selected(), None);
    assert!(!app.port_scanning);
    let mut none = app_fn();
    assert!(none.save_selected_host().is_none());
    assert_eq!(none.export_message.as_deref(), Some("No host selected"));
}

#[test]
fn waking_a_host() {
    let (mut app, _) = scanned("10.0.0.1-3", &[1, 2, 3]);
    assert_eq!(app.handle_action(Action::WakeOnLan), None);
    assert_eq!(app.export_message.as_deref(), Some("No MAC address for 10.0.0.1 — WOL unavailable"));
    assert!(app.wol_packet_for_selected().is_none());
    assert!(app.wol_sent_text().is_none());

    let mut hosts: Vec<HostInfo> = app.session.hosts().iter().map(|h| h.duplicate()).collect();
    hosts[0].mac = Some(MacInfo { address: "AA-BB-CC-DD-EE-FF".to_string(), vendor: None });
    hosts[1].mac = Some(MacInfo { address: "AA:BB".to_string(), vendor: None });
    let mut app = app_fn();
    app.show_cached(hosts);
    app.select_next();
    assert_eq!(app.handle_action(Action::WakeOnLan), Some(AppCommand::SendWol));
    let packet = app.wol_packet_for_selected().expect("a packet");
    assert_eq!(app.send_wol(), Ok(packet.clone()));
    assert_eq!(packet.len(), 102);
    assert_eq!(packet[6], 0xAA);
    assert_eq!(app.wol_sent_text().as_deref(), Some("WOL packet sent to 10.0.0.1 (AA-BB-CC-DD-EE-FF)"));
    app.select_next();
    assert_eq!(app.handle_action(Action::WakeOnLan), None);
    assert_eq!(app.export_message.as_deref(), Some("Invalid MAC address: AA:BB"));
    assert_eq!(app.send_wol(), Err("Invalid MAC address: AA:BB".to_string()));
    app.note_wol_error("network unreachable");
    assert_eq!(app.export_message.as_deref(), Some("WOL error: network unreachable"));
}

#[test]
fn port_scan_results_are_merged() {
    let (mut app, _) = scanned("10.0.0.1-2", &[1, 2]);
    app.port_scanning = true;
    app.apply_port_scan(Ipv4Addr::new(10, 0, 0, 2), vec![22, 443]);
    assert!(!app.port_scanning);
    assert_eq!(app.session.hosts()[1].open_ports, vec![22, 443]);
    assert!(app.session.hosts()[1].ports_scanned);
    assert!(!app.session.hosts()[0].ports_scanned);
    app.apply_port_scan(Ipv4Addr::new(10, 0, 0, 9), vec![1]);
    assert_eq!(app.session.hosts().len(), 2);
}

#[test]
fn cached_hosts_are_shown_while_idle() {
    let mut app = app_fn();
    let mut h = online(Ipv4Addr::new(10, 0, 0, 1));
    h.cached_at = Some(5);
    app.show_cached(vec![h, offline(Ipv4Addr::new(10, 0, 0, 2))]);
    assert_eq!(app.filtered_hosts, vec![0, 1]);
    assert_eq!(app.header_text(), "2 cached (1 online)");
    assert_eq!(app.status_text(), "Ready");
    app.range_input.set("10.0.0.1-2");
    app.start_scan().expect("a valid range");
    app.show_cached(vec![online(Ipv4Addr::new(10, 0, 0, 9))]);
    assert!(app.session.hosts().is_empty());
    assert_eq!(app.header_text(), "⠋ 0/2");
}

#[test]
fn output_overlay_scrolls() {
    let mut app = app_fn();
    app.start_overlay("Continuous Ping — 10.0.0.1".to_string());
    assert!(app.overlay_running);
    for i in 0..5 {
        app.push_overlay_line(format!("line {}", i));
    }
    assert_eq!(app.overlay_scroll, 4);
    app.handle_action(Action::NavigateUp);
    app.handle_action(Action::NavigateUp);
    assert_eq!(app.overlay_scroll, 2);
    app.push_overlay_line("line 5".to_string());
    assert_eq!(app.overlay_scroll, 2);
    app.handle_action(Action::NavigateEnd);
    assert_eq!(app.overlay_scroll, 5);
    app.push_overlay_line("line 6".to_string());
    assert_eq!(app.overlay_scroll, 6);
    app.handle_action(Action::NavigateDown);
    assert_eq!(app.overlay_scroll, 7);
    app.handle_action(Action::NavigateHome);
    assert_eq!(app.overlay_scroll, 0);
    app.handle_action(Action::NavigateUp);
    assert_eq!(app.overlay_scroll, 0);
    app.overlay_finished();
    assert!(!app.overlay_running);
    assert_eq!(app.overlay_title, "Continuous Ping — 10.0.0.1 [Done — Esc to close]");
    assert_eq!(app.handle_action(Action::StopOverlay), Some(AppCommand::StopOverlay));
    assert!(app.overlay_lines.is_empty());
    assert_eq!(app.overlay_scroll, 0);
    app.overlay_finished();
    assert_eq!(app.overlay_title, "Continuous Ping — 10.0.0.1 [Done — Esc to close]");
}

#[test]
fn end_of_scan_orders_hosts_and_rows() {
    let mut app = app_fn();
    app.range_input.set("192.168.50.0/30");
    let run = app.start_scan().expect("a valid range");
    let addresses: Vec<Ipv4Addr> = app.session.addresses().to_vec();
    for (k, i) in [3usize, 1, 0, 2].into_iter().enumerate() {
        let host = if k % 2 == 0 { online(addresses[i]) } else { offline(addresses[i]) };
        app.handle_scan_event(run, ScanEvent::HostDiscovered(host));
    }
    app.handle_action(Action::ToggleFilter);
    assert_eq!(app.filtered_hosts, vec![0, 2]);
    app.handle_scan_event(run, ScanEvent::ScanComplete);
    let ips: Vec<Ipv4Addr> = app.session.hosts().iter().map(|h| h.ip).collect();
    assert_eq!(ips, addresses);
    assert_eq!(app.session.state(), ScanState::Completed);
    assert_eq!(app.filtered_hosts, vec![0, 3]);
    assert_eq!(app.session.completed(), app.session.total());
    assert_eq!(app.pause_scan(), None);
}

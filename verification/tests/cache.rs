use ipscannr::cache::{
    cached_host, format_age, format_cache_age, load_cache, next_save_step, restored_host,
    save_cache, store_hosts, text_equals, CacheEntry, CacheFile, CachedHost, SaveStep,
};
use ipscannr::host::HostInfo;
use ipscannr::mac::MacInfo;
use ipscannr::ping::{HostStatus, PingMethod};
use ipscannr::Ipv4Addr;

fn sample_host(ip: Ipv4Addr, is_alive: bool) -> HostInfo {
    HostInfo {
        ip,
        is_alive,
        rtt_ms: Some(10),
        hostname: Some("host.local".to_string()),
        mac: Some(MacInfo {
            address: "AA:BB:CC:DD:EE:FF".to_string(),
            vendor: Some("Vendor".to_string()),
        }),
        open_ports: vec![80, 443],
        ports_scanned: true,
        cached_at: None,
        method: PingMethod::Icmp,
        status: if is_alive { HostStatus::Online } else { HostStatus::Offline },
    }
}

fn stored(ip: &str) -> CachedHost {
    CachedHost {
        ip: ip.to_string(),
        is_alive: true,
        rtt_ms: None,
        hostname: None,
        mac_address: None,
        mac_vendor: None,
        open_ports: Vec::new(),
        method: None,
        status: None,
    }
}

#[test]
fn save_cache_preserves_other_ranges() {
    let mut file = CacheFile::new();
    let range_a = "10.0.0.0/24";
    let range_b = "192.168.1.0/24";
    save_cache(&mut file, range_a, &[sample_host(Ipv4Addr::new(10, 0, 0, 10), true)]);
    save_cache(&mut file, range_b, &[sample_host(Ipv4Addr::new(192, 168, 1, 20), false)]);

    let loaded_a = load_cache(&file, range_a);
    let loaded_b = load_cache(&file, range_b);
    assert_eq!(loaded_a.len(), 1);
    assert_eq!(loaded_b.len(), 1);
    assert_eq!(loaded_a[0].ip, Ipv4Addr::new(10, 0, 0, 10));
    assert_eq!(loaded_b[0].ip, Ipv4Addr::new(192, 168, 1, 20));
}

#[test]
fn load_cache_returns_empty_for_unknown_range() {
    let mut file = CacheFile::new();
    assert!(load_cache(&file, "192.168.1.0/24").is_empty());
    store_hosts(&mut file, "10.0.0.0/24", &[sample_host(Ipv4Addr::new(10, 0, 0, 1), true)], 5);
    assert!(load_cache(&file, "192.168.1.0/24").is_empty());
}

#[test]
fn round_trip_keeps_the_record() {
    let mut file = CacheFile::new();
    let hosts = vec![
        sample_host(Ipv4Addr::new(10, 0, 0, 10), true),
        HostInfo {
            ip: Ipv4Addr::new(10, 0, 0, 3),
            is_alive: false,
            rtt_ms: None,
            hostname: None,
            mac: None,
            open_ports: Vec::new(),
            ports_scanned: true,
            cached_at: None,
            method: PingMethod::Tcp,
            status: HostStatus::Offline,
        },
        HostInfo {
            ip: Ipv4Addr::new(10, 0, 0, 200),
            is_alive: true,
            rtt_ms: Some(0),
            hostname: None,
            mac: Some(MacInfo { address: "00:11:22:33:44:55".to_string(), vendor: None }),
            open_ports: vec![22],
            ports_scanned: false,
            cached_at: Some(1),
            method: PingMethod::Tcp,
            status: HostStatus::OnlineNoIcmp,
        },
    ];
    store_hosts(&mut file, "A", &hosts, 1_700_000_000);
    let back = load_cache(&file, "A");
    assert_eq!(back.len(), 3);
    for (b, h) in back.iter().zip(hosts.iter()) {
        assert_eq!(b.ip, h.ip);
        assert_eq!(b.is_alive, h.is_alive);
        assert_eq!(b.open_ports, h.open_ports);
        assert_eq!(b.cached_at, Some(1_700_000_000));
        assert_eq!(b.rtt_ms, h.rtt_ms);
        assert_eq!(b.hostname, h.hostname);
        assert_eq!(b.method, h.method);
        assert_eq!(b.status, h.status);
        assert_eq!(b.mac.as_ref().map(|m| m.address.clone()), h.mac.as_ref().map(|m| m.address.clone()));
        assert_eq!(
            b.mac.as_ref().and_then(|m| m.vendor.clone()),
            h.mac.as_ref().and_then(|m| m.vendor.clone())
        );
        assert_eq!(b.ports_scanned, !h.open_ports.is_empty());
    }
}

#[test]
fn save_after_other_range_leaves_it_unaffected() {
    let mut file = CacheFile::new();
    store_hosts(&mut file, "B", &[sample_host(Ipv4Addr::new(172, 16, 0, 1), true)], 100);
    store_hosts(&mut file, "A", &[sample_host(Ipv4Addr::new(10, 0, 0, 1), false)], 200);
    let b = load_cache(&file, "B");
    assert_eq!(b.len(), 1);
    assert_eq!(b[0].ip, Ipv4Addr::new(172, 16, 0, 1));
    assert!(b[0].is_alive);
    assert_eq!(b[0].cached_at, Some(100));
    assert_eq!(file.len(), 2);
}

#[test]
fn saving_again_replaces_the_entry() {
    let mut file = CacheFile::new();
    store_hosts(&mut file, "A", &[sample_host(Ipv4Addr::new(10, 0, 0, 1), true)], 100);
    store_hosts(
        &mut file,
        "A",
        &[sample_host(Ipv4Addr::new(10, 0, 0, 2), true), sample_host(Ipv4Addr::new(10, 0, 0, 3), true)],
        300,
    );
    let a = load_cache(&file, "A");
    assert_eq!(a.len(), 2);
    assert_eq!(a[0].ip, Ipv4Addr::new(10, 0, 0, 2));
    assert_eq!(a[1].cached_at, Some(300));
    assert_eq!(file.len(), 1);
}

#[test]
fn saving_no_hosts_changes_nothing() {
    let mut file = CacheFile::new();
    store_hosts(&mut file, "A", &[sample_host(Ipv4Addr::new(10, 0, 0, 1), true)], 100);
    store_hosts(&mut file, "A", &[], 200);
    store_hosts(&mut file, "C", &[], 200);
    save_cache(&mut file, "D", &[]);
    assert_eq!(file.len(), 1);
    assert_eq!(load_cache(&file, "A")[0].cached_at, Some(100));
}

#[test]
fn range_keys_are_compared_letter_for_letter() {
    let mut file = CacheFile::new();
    store_hosts(&mut file, "10.0.0.0/24", &[sample_host(Ipv4Addr::new(10, 0, 0, 1), true)], 1);
    assert!(load_cache(&file, "10.0.0.0/24 ").is_empty());
    assert!(load_cache(&file, "10.0.0.1/24").is_empty());
    assert!(load_cache(&file, "10.0.0.0-255").is_empty());
    assert_eq!(load_cache(&file, "10.0.0.0/24").len(), 1);
}

#[test]
fn save_cache_stamps_a_time() {
    let mut file = CacheFile::new();
    save_cache(&mut file, "A", &[sample_host(Ipv4Addr::new(10, 0, 0, 1), true)]);
    let at = load_cache(&file, "A")[0].cached_at.expect("a time");
    assert!(at > 1_600_000_000);
}

#[test]
fn stored_form_of_a_host() {
    let c = cached_host(&sample_host(Ipv4Addr::new(192, 168, 1, 20), false));
    assert_eq!(c.ip, "192.168.1.20");
    assert!(!c.is_alive);
    assert_eq!(c.rtt_ms, Some(10));
    assert_eq!(c.hostname.as_deref(), Some("host.local"));
    assert_eq!(c.mac_address.as_deref(), Some("AA:BB:CC:DD:EE:FF"));
    assert_eq!(c.mac_vendor.as_deref(), Some("Vendor"));
    assert_eq!(c.open_ports, vec![80, 443]);
    assert_eq!(c.method.as_deref(), Some("ICMP"));
    assert_eq!(c.status.as_deref(), Some("Offline"));
    let mut h = sample_host(Ipv4Addr::new(1, 2, 3, 4), true);
    h.status = HostStatus::OnlineNoIcmp;
    h.method = PingMethod::Tcp;
    h.mac = None;
    let c = cached_host(&h);
    assert_eq!(c.status.as_deref(), Some("OnlineNoIcmp"));
    assert_eq!(c.method.as_deref(), Some("TCP"));
    assert_eq!(c.mac_address, None);
    assert_eq!(c.mac_vendor, None);
}

#[test]
fn entries_without_method_and_status_get_defaults() {
    let h = restored_host(&stored("10.0.0.1"), 7).expect("a host");
    assert_eq!(h.method, PingMethod::Tcp);
    assert_eq!(h.status, HostStatus::Online);
    assert_eq!(h.cached_at, Some(7));
    assert!(!h.ports_scanned);
    assert!(h.mac.is_none());
    let mut c = stored("10.0.0.1");
    c.is_alive = false;
    c.method = Some("bogus".to_string());
    c.status = Some("bogus".to_string());
    let h = restored_host(&c, 7).expect("a host");
    assert_eq!(h.method, PingMethod::Tcp);
    assert_eq!(h.status, HostStatus::Offline);
}

#[test]
fn entries_with_unreadable_address_are_left_out() {
    assert!(restored_host(&stored("not-an-address"), 7).is_none());
    assert!(restored_host(&stored("10.0.0.256"), 7).is_none());
    let mut file = CacheFile::new();
    file.insert(
        "A",
        CacheEntry { scanned_at: 9, hosts: vec![stored("10.0.0.1"), stored("x"), stored("10.0.0.2")] },
    );
    let hosts = load_cache(&file, "A");
    assert_eq!(hosts.len(), 2);
    assert_eq!(hosts[1].ip, Ipv4Addr::new(10, 0, 0, 2));
}

#[test]
fn vendor_without_address_gives_no_mac() {
    let mut c = stored("10.0.0.1");
    c.mac_vendor = Some("Vendor".to_string());
    assert!(restored_host(&c, 1).expect("a host").mac.is_none());
    c.mac_address = Some("AA:BB:CC:DD:EE:FF".to_string());
    let mac = restored_host(&c, 1).expect("a host").mac.expect("a mac");
    assert_eq!(mac.address, "AA:BB:CC:DD:EE:FF");
    assert_eq!(mac.vendor.as_deref(), Some("Vendor"));
}

#[test]
fn cache_file_slots() {
    let mut file = CacheFile::new();
    file.insert("A", CacheEntry { scanned_at: 1, hosts: Vec::new() });
    file.insert("B", CacheEntry { scanned_at: 2, hosts: Vec::new() });
    file.insert("A", CacheEntry { scanned_at: 3, hosts: Vec::new() });
    let keys: Vec<(String, u64)> =
        file.slots().iter().map(|s| (s.key.clone(), s.entry.scanned_at)).collect();
    assert_eq!(keys, vec![("A".to_string(), 3), ("B".to_string(), 2)]);
    assert_eq!(file.get("B").map(|e| e.scanned_at), Some(2));
    assert!(file.get("C").is_none());
}

#[test]
fn age_in_words() {
    assert_eq!(format_age(1000, 1000), "just now");
    assert_eq!(format_age(1000, 1059), "just now");
    assert_eq!(format_age(1000, 1060), "1m ago");
    assert_eq!(format_age(1000, 1000 + 3599), "59m ago");
    assert_eq!(format_age(1000, 1000 + 3600), "1h ago");
    assert_eq!(format_age(1000, 1000 + 86399), "23h ago");
    assert_eq!(format_age(1000, 1000 + 86400), "1d ago");
    assert_eq!(format_age(0, 86400 * 400), "400d ago");
    assert_eq!(format_age(2000, 1000), "just now");
    assert_eq!(format_age(0, u64::MAX), "213503982334601d ago");
}

#[test]
fn age_of_a_time_to_come_is_now() {
    assert_eq!(format_cache_age(u64::MAX), "just now");
    assert!(format_cache_age(0).ends_with("d ago"));
}

#[test]
fn text_equality() {
    assert!(text_equals("ICMP", "ICMP"));
    assert!(!text_equals("ICMP", "icmp"));
    assert!(!text_equals("", "a"));
    assert!(text_equals("", ""));
}

#[test]
fn save_steps() {
    assert_eq!(next_save_step(SaveStep::WriteTemp, true), SaveStep::Rename);
    assert_eq!(next_save_step(SaveStep::WriteTemp, false), SaveStep::Done);
    assert_eq!(next_save_step(SaveStep::Rename, true), SaveStep::Done);
    assert_eq!(next_save_step(SaveStep::Rename, false), SaveStep::CopyTemp);
    assert_eq!(next_save_step(SaveStep::CopyTemp, false), SaveStep::RemoveTemp);
    assert_eq!(next_save_step(SaveStep::CopyTemp, true), SaveStep::RemoveTemp);
    assert_eq!(next_save_step(SaveStep::RemoveTemp, false), SaveStep::Done);
    assert_eq!(next_save_step(SaveStep::Done, true), SaveStep::Done);
}

fn steps_taken(outcomes: &[bool]) -> Vec<SaveStep> {
    let mut step = SaveStep::WriteTemp;
    let mut taken = Vec::new();
    let mut outcomes = outcomes.iter();
    while step != SaveStep::Done {
        taken.push(step);
        step = next_save_step(step, *outcomes.next().unwrap_or(&true));
    }
    taken
}

#[test]
fn save_renames_over_the_target() {
    assert_eq!(steps_taken(&[true, true]), vec![SaveStep::WriteTemp, SaveStep::Rename]);
    assert_eq!(steps_taken(&[false]), vec![SaveStep::WriteTemp]);
    assert_eq!(
        steps_taken(&[true, false, true, true]),
        vec![SaveStep::WriteTemp, SaveStep::Rename, SaveStep::CopyTemp, SaveStep::RemoveTemp]
    );
    assert_eq!(
        steps_taken(&[true, false, false, false]),
        vec![SaveStep::WriteTemp, SaveStep::Rename, SaveStep::CopyTemp, SaveStep::RemoveTemp]
    );
}

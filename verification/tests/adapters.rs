use ipscannr::adapters::{
    adapters_from_output, default_adapter, list_adapters, parse_adapter_line, split_lines,
    AdapterInfo, AdapterType,
};
use ipscannr::text::chars_of;
use ipscannr::Ipv4Addr;

#[test]
fn test_subnet_calculation() {
    let ip = Ipv4Addr::new(192, 168, 1, 100);
    assert_eq!(AdapterInfo::calculate_subnet(ip, 24), "192.168.1.0/24");

    let ip = Ipv4Addr::new(10, 0, 0, 50);
    assert_eq!(AdapterInfo::calculate_subnet(ip, 16), "10.0.0.0/16");
}

#[test]
fn test_adapter_type_detection() {
    assert_eq!(AdapterType::from_name("Ethernet"), AdapterType::Ethernet);
    assert_eq!(AdapterType::from_name("Wi-Fi"), AdapterType::Wifi);
    assert_eq!(AdapterType::from_name("OpenVPN TAP"), AdapterType::Vpn);
    assert_eq!(AdapterType::from_name("WireGuard Tunnel"), AdapterType::Vpn);
}

#[test]
fn subnet_edge_prefixes() {
    let ip = Ipv4Addr::new(203, 0, 113, 77);
    assert_eq!(AdapterInfo::calculate_subnet(ip, 0), "0.0.0.0/0");
    assert_eq!(AdapterInfo::calculate_subnet(ip, 32), "203.0.113.77/32");
    assert_eq!(AdapterInfo::calculate_subnet(ip, 31), "203.0.113.76/31");
    assert_eq!(AdapterInfo::calculate_subnet(ip, 1), "128.0.0.0/1");
    assert_eq!(AdapterInfo::calculate_subnet(ip, 25), "203.0.113.0/25");
}

#[test]
fn adapter_kind_by_lower_case_name() {
    assert_eq!(AdapterType::from_lowercase(&chars_of("intel(r) i219")), AdapterType::Ethernet);
    assert_eq!(AdapterType::from_lowercase(&chars_of("wlan0")), AdapterType::Wifi);
    assert_eq!(AdapterType::from_lowercase(&chars_of("802.11ac adapter")), AdapterType::Wifi);
    assert_eq!(AdapterType::from_lowercase(&chars_of("tun0")), AdapterType::Vpn);
    assert_eq!(AdapterType::from_lowercase(&chars_of("loopback")), AdapterType::Other);
    assert_eq!(AdapterType::from_lowercase(&chars_of("")), AdapterType::Other);
    assert_eq!(AdapterType::from_lowercase(&chars_of("Ethernet")), AdapterType::Other);
}

#[test]
fn vpn_wins_over_wifi_and_wifi_over_ethernet() {
    assert_eq!(AdapterType::from_name("Virtual WiFi Ethernet"), AdapterType::Vpn);
    assert_eq!(AdapterType::from_name("Wireless Ethernet Bridge"), AdapterType::Wifi);
    assert_eq!(AdapterType::from_name("REALTEK GIGABIT"), AdapterType::Ethernet);
    assert_eq!(AdapterType::from_name("Bluetooth"), AdapterType::Other);
}

#[test]
fn adapter_kind_names_and_order() {
    assert_eq!(AdapterType::Ethernet.to_string(), "Ethernet");
    assert_eq!(AdapterType::Wifi.to_string(), "WiFi");
    assert_eq!(AdapterType::Vpn.to_string(), "VPN");
    assert_eq!(AdapterType::Other.to_string(), "Other");
    assert!(AdapterType::Ethernet < AdapterType::Wifi);
    assert!(AdapterType::Wifi < AdapterType::Vpn);
    assert!(AdapterType::Vpn < AdapterType::Other);
}

#[test]
fn lines_are_split_as_std_does() {
    for text in ["", "a", "a\n", "a\nb", "a\r\nb\r\n", "\n", "\n\n", "a\n\nb", "a\r", "a\r\n\r", "\r\n", "x\ry\n"] {
        let chars = chars_of(text);
        let got: Vec<String> = split_lines(&chars).iter().map(|l| l.iter().collect()).collect();
        let expected: Vec<String> = text.lines().map(|l| l.to_string()).collect();
        assert_eq!(got, expected, "{:?}", text);
    }
}

#[test]
fn adapter_lines() {
    let a = parse_adapter_line(&chars_of(" Ethernet 2 | 192.168.1.100 | 24 ")).expect("an adapter");
    assert_eq!(a.name, "Ethernet 2");
    assert_eq!(a.adapter_type, AdapterType::Ethernet);
    assert_eq!(a.ip, Ipv4Addr::new(192, 168, 1, 100));
    assert_eq!(a.prefix_length, 24);
    assert_eq!(a.subnet, "192.168.1.0/24");
    let a = parse_adapter_line(&chars_of("Wi-Fi|10.1.2.3|16|extra|more")).expect("an adapter");
    assert_eq!(a.adapter_type, AdapterType::Wifi);
    assert_eq!(a.subnet, "10.1.0.0/16");
    assert!(parse_adapter_line(&chars_of("Ethernet|192.168.1.100")).is_none());
    assert!(parse_adapter_line(&chars_of("Ethernet")).is_none());
    assert!(parse_adapter_line(&chars_of("")).is_none());
    assert!(parse_adapter_line(&chars_of("Ethernet|192.168.1|24")).is_none());
    assert!(parse_adapter_line(&chars_of("Ethernet|192.168.1.1|x")).is_none());
    assert!(parse_adapter_line(&chars_of("Ethernet|192.168.1.1|33")).is_none());
    assert!(parse_adapter_line(&chars_of("Ethernet|192.168.1.1|256")).is_none());
    assert!(parse_adapter_line(&chars_of("Ethernet|169.254.10.20|16")).is_none());
    assert!(parse_adapter_line(&chars_of("Ethernet|169.253.10.20|16")).is_some());
    assert!(parse_adapter_line(&chars_of("|1.2.3.4|0")).is_some());
}

#[test]
fn adapters_are_listed_in_the_order_of_their_kinds() {
    let output = "Loopback|10.9.9.9|8\r\nWi-Fi|192.168.0.5|24\r\nbroken line\r\nOpenVPN|10.8.0.2|24\r\n\
                  Ethernet|192.168.1.7|24\r\nWLAN 2|172.16.0.9|12\r\nlink|169.254.1.1|16\r\n";
    let listed: Vec<String> = list_adapters(output).iter().map(|a| a.name.clone()).collect();
    assert_eq!(listed, vec!["Loopback", "Wi-Fi", "OpenVPN", "Ethernet", "WLAN 2"]);
    let adapters = adapters_from_output(output);
    let names: Vec<&str> = adapters.iter().map(|a| a.name.as_str()).collect();
    assert_eq!(names, vec!["Ethernet", "Wi-Fi", "WLAN 2", "OpenVPN", "Loopback"]);
    assert_eq!(adapters[2].subnet, "172.16.0.0/12");
    assert_eq!(default_adapter(&adapters).map(|a| a.name.as_str()), Some("Ethernet"));
    assert!(adapters_from_output("").is_empty());
    assert!(default_adapter(&Vec::new()).is_none());
    let copy = adapters[0].duplicate();
    assert_eq!(copy.subnet, "192.168.1.0/24");
}

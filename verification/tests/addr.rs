use ipscannr::addr::{parse_dotted, parse_octet};
use ipscannr::text::chars_of;
use ipscannr::Ipv4Addr;

#[test]
fn address_from_octets() {
    assert_eq!(Ipv4Addr::new(192, 168, 1, 1).to_u32(), 0xC0A8_0101);
    assert_eq!(Ipv4Addr::new(0, 0, 0, 0).to_u32(), 0);
    assert_eq!(Ipv4Addr::new(255, 255, 255, 255).to_u32(), u32::MAX);
    assert_eq!(Ipv4Addr::from_u32(0x0A00_0005), Ipv4Addr::new(10, 0, 0, 5));
}

#[test]
fn address_octets() {
    assert_eq!(Ipv4Addr::new(192, 168, 1, 77).octets(), [192, 168, 1, 77]);
    assert_eq!(Ipv4Addr::from_u32(0x0102_0304).octets(), [1, 2, 3, 4]);
}

#[test]
fn address_order_is_numeric() {
    assert!(Ipv4Addr::new(10, 0, 0, 255) < Ipv4Addr::new(10, 0, 1, 0));
    assert!(Ipv4Addr::new(9, 255, 255, 255) < Ipv4Addr::new(10, 0, 0, 0));
}

#[test]
fn address_to_string() {
    assert_eq!(Ipv4Addr::new(192, 168, 1, 1).to_string(), "192.168.1.1");
    assert_eq!(Ipv4Addr::new(0, 0, 0, 0).to_string(), "0.0.0.0");
    assert_eq!(Ipv4Addr::new(255, 255, 255, 255).to_string(), "255.255.255.255");
    assert_eq!(Ipv4Addr::new(10, 100, 9, 0).to_string(), "10.100.9.0");
}

#[test]
fn dotted_text_reads_back() {
    for bits in [0u32, 1, 255, 256, 0x0A00_0005, 0xC0A8_0101, 0x7F00_0001, u32::MAX] {
        let text = Ipv4Addr::from_u32(bits).to_string();
        assert_eq!(parse_dotted(&chars_of(&text)), Some(Ipv4Addr::from_u32(bits)));
    }
}

#[test]
fn octet_rules() {
    assert_eq!(parse_octet(&chars_of("0")), Some(0));
    assert_eq!(parse_octet(&chars_of("255")), Some(255));
    assert_eq!(parse_octet(&chars_of("256")), None);
    assert_eq!(parse_octet(&chars_of("00")), None);
    assert_eq!(parse_octet(&chars_of("012")), None);
    assert_eq!(parse_octet(&chars_of("")), None);
    assert_eq!(parse_octet(&chars_of("1234")), None);
    assert_eq!(parse_octet(&chars_of("+1")), None);
    assert_eq!(parse_octet(&chars_of("1a")), None);
}

#[test]
fn dotted_rejects_near_misses() {
    assert_eq!(parse_dotted(&chars_of("1.2.3")), None);
    assert_eq!(parse_dotted(&chars_of("1.2.3.4.5")), None);
    assert_eq!(parse_dotted(&chars_of("1.2.3.")), None);
    assert_eq!(parse_dotted(&chars_of(".1.2.3")), None);
    assert_eq!(parse_dotted(&chars_of(" 1.2.3.4")), None);
    assert_eq!(parse_dotted(&chars_of("1.2.3.4 ")), None);
    assert_eq!(parse_dotted(&chars_of("")), None);
    assert_eq!(parse_dotted(&chars_of("1.2.3.4")), Some(Ipv4Addr::new(1, 2, 3, 4)));
}

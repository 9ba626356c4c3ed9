use ipscannr::text::chars_of;
use ipscannr::wol::{parse_hex_byte, parse_mac, wol_packet};

#[test]
fn hex_bytes() {
    assert_eq!(parse_hex_byte(&chars_of("00")), Some(0));
    assert_eq!(parse_hex_byte(&chars_of("ff")), Some(255));
    assert_eq!(parse_hex_byte(&chars_of("FF")), Some(255));
    assert_eq!(parse_hex_byte(&chars_of("aB")), Some(0xAB));
    assert_eq!(parse_hex_byte(&chars_of("7")), Some(7));
    assert_eq!(parse_hex_byte(&chars_of("+7f")), Some(0x7F));
    assert_eq!(parse_hex_byte(&chars_of("0000ff")), Some(255));
    assert_eq!(parse_hex_byte(&chars_of("100")), None);
    assert_eq!(parse_hex_byte(&chars_of("")), None);
    assert_eq!(parse_hex_byte(&chars_of("+")), None);
    assert_eq!(parse_hex_byte(&chars_of("-1")), None);
    assert_eq!(parse_hex_byte(&chars_of("g1")), None);
    assert_eq!(parse_hex_byte(&chars_of(" 1")), None);
}

#[test]
fn hex_bytes_agree_with_std() {
    for text in ["0", "a", "F", "10", "fF", "+1", "100", "", "+", "0x1", "1 ", "001"] {
        assert_eq!(parse_hex_byte(&chars_of(text)), u8::from_str_radix(text, 16).ok(), "{:?}", text);
    }
}

#[test]
fn hardware_addresses() {
    assert_eq!(parse_mac(&chars_of("AA:BB:CC:DD:EE:FF")), vec![0xAA, 0xBB, 0xCC, 0xDD, 0xEE, 0xFF]);
    assert_eq!(parse_mac(&chars_of("00-11-22-33-44-55")), vec![0, 0x11, 0x22, 0x33, 0x44, 0x55]);
    assert_eq!(parse_mac(&chars_of("1:2-3")), vec![1, 2, 3]);
    assert_eq!(parse_mac(&chars_of("")), Vec::<u8>::new());
    assert_eq!(parse_mac(&chars_of("zz:01::02:")), vec![1, 2]);
    assert_eq!(parse_mac(&chars_of(":")), Vec::<u8>::new());
}

#[test]
fn magic_packet_layout() {
    let packet = wol_packet(&chars_of("AA:BB:CC:DD:EE:FF")).expect("a packet");
    assert_eq!(packet.len(), 102);
    assert_eq!(&packet[..6], &[0xFF; 6]);
    for k in 0..16 {
        assert_eq!(&packet[6 + 6 * k..12 + 6 * k], &[0xAA, 0xBB, 0xCC, 0xDD, 0xEE, 0xFF]);
    }
}

#[test]
fn magic_packet_needs_six_bytes() {
    assert!(wol_packet(&chars_of("AA:BB:CC:DD:EE")).is_none());
    assert!(wol_packet(&chars_of("AA:BB:CC:DD:EE:FF:00")).is_none());
    assert!(wol_packet(&chars_of("")).is_none());
    assert!(wol_packet(&chars_of("AA:BB:CC:DD:EE:GG")).is_none());
    assert!(wol_packet(&chars_of("AA:BB:CC:DD:EE:FF:zz")).is_some());
}

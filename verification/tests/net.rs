//! Addresses, networks and the text they are written as.

use porthole_gui::net::{parse_ipv4, Ipv4Addr, Ipv4Net};
use porthole_gui::text::{decimal_text, text_to_read, two_digits_text};

#[test]
fn an_address_reads_back_as_itself() {
    for addr in [
        Ipv4Addr::new(0, 0, 0, 0),
        Ipv4Addr::new(10, 10, 10, 245),
        Ipv4Addr::new(127, 0, 0, 1),
        Ipv4Addr::new(255, 255, 255, 255),
        Ipv4Addr::new(192, 168, 177, 9),
    ] {
        assert_eq!(parse_ipv4(&addr.text()), Some(addr));
    }
    assert_eq!(Ipv4Addr::new(10, 10, 10, 245).text(), "10.10.10.245");
    assert!(Ipv4Addr::new(127, 0, 0, 53).is_loopback());
    assert!(!Ipv4Addr::new(172, 17, 0, 2).is_loopback());
}

#[test]
fn text_that_is_not_an_address_is_not_read_as_one() {
    for text in [
        "", "1", "1.2.3", "1.2.3.", ".1.2.3", "1.2.3.4.5", "256.1.1.1", "1.2.3.999", "01.2.3.4",
        "1.2.3.04", "1.2.3.4 ", " 1.2.3.4", "+1.2.3.4", "1..2.3", "a.b.c.d", "::1", "1.2.3.1000",
    ] {
        assert_eq!(parse_ipv4(text), None, "{text}");
    }
}

#[test]
fn a_network_is_written_with_the_address_it_was_made_from() {
    let net = Ipv4Net::new(Ipv4Addr::new(192, 168, 177, 0), 24).unwrap();
    assert_eq!(net.text(), "192.168.177.0/24");
    assert_eq!(net.addr(), Ipv4Addr::new(192, 168, 177, 0));
    assert_eq!(net.prefix_len(), 24);
    let host_bits = Ipv4Net::new(Ipv4Addr::new(10, 1, 2, 3), 8).unwrap();
    assert_eq!(host_bits.text(), "10.1.2.3/8");
    assert!(Ipv4Net::new(Ipv4Addr::new(10, 0, 0, 0), 32).is_some());
    assert!(Ipv4Net::new(Ipv4Addr::new(10, 0, 0, 0), 33).is_none());
}

#[test]
fn numbers_are_written_without_leading_zeros_and_minutes_with_one() {
    assert_eq!(decimal_text(0), "0");
    assert_eq!(decimal_text(10), "10");
    assert_eq!(decimal_text(65535), "65535");
    assert_eq!(decimal_text(u64::MAX), "18446744073709551615");
    assert_eq!(two_digits_text(7), "07");
    assert_eq!(two_digits_text(59), "59");
    assert_eq!(two_digits_text(480), "480");
}

#[test]
fn a_field_is_read_without_the_white_space_around_it() {
    assert_eq!(text_to_read("  20m\t"), Some("20m".to_string()));
    assert_eq!(
        text_to_read("\u{2003}living  room\u{a0}\n"),
        Some("living  room".to_string())
    );
    assert_eq!(text_to_read(" \u{3000}\u{85}"), None);
    assert_eq!(text_to_read(""), None);
    assert_eq!(
        text_to_read("\u{200b}x"),
        Some("\u{200b}x".to_string())
    );
}

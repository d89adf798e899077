use jumpers::arp::{
    entry_from_capture, get_mac_from_arp, is_ipv4_address, is_mac_token_text, lookup_mac,
    mac_from_capture, validate_ip, ArpEvent, ArpStep,
};
use jumpers::error::ArpError;

const TABLE: &str = "? (192.168.1.1) at aa:bb:cc:dd:ee:ff [ether] on eth0\n\
                     ? (192.168.1.20) at 00:1a:2b:3c:4d:5e [ether] on eth0\n\
                     ? (192.168.1.30) at <incomplete> on eth0\n";

#[test]
fn arp_finds_the_line_of_the_address() {
    assert_eq!(get_mac_from_arp("192.168.1.1", TABLE), Ok("AA:BB:CC:DD:EE:FF".to_string()));
    assert_eq!(get_mac_from_arp("192.168.1.20", TABLE), Ok("00:1A:2B:3C:4D:5E".to_string()));
}

#[test]
fn arp_without_a_line_is_not_found() {
    assert_eq!(
        get_mac_from_arp("192.168.1.99", TABLE),
        Err(ArpError::NotFound("192.168.1.99".to_string()))
    );
    assert_eq!(get_mac_from_arp("10.0.0.1", ""), Err(ArpError::NotFound("10.0.0.1".to_string())));
}

#[test]
fn arp_incomplete_entry_is_not_found() {
    assert_eq!(
        get_mac_from_arp("192.168.1.30", TABLE),
        Err(ArpError::NotFound("192.168.1.30".to_string()))
    );
}

#[test]
fn arp_address_is_matched_literally() {
    let table = "? (192x168y1z1) at aa:bb:cc:dd:ee:ff [ether] on eth0\n";
    assert_eq!(
        get_mac_from_arp("192.168.1.1", table),
        Err(ArpError::NotFound("192.168.1.1".to_string()))
    );
    let table = "? (192.168.1.10) at aa:bb:cc:dd:ee:ff [ether] on eth0\n";
    assert_eq!(
        get_mac_from_arp("192.168.1.1", table),
        Err(ArpError::NotFound("192.168.1.1".to_string()))
    );
}

#[test]
fn arp_odd_address_is_escaped() {
    let table = "? (a+b) at 01:02:03:04:05:0a on eth0\n";
    assert_eq!(get_mac_from_arp("a+b", table), Ok("01:02:03:04:05:0A".to_string()));
    assert_eq!(get_mac_from_arp("(", table), Err(ArpError::NotFound("(".to_string())));
}

#[test]
fn mac_from_capture_upper_cases() {
    assert_eq!(
        mac_from_capture("10.0.0.1", Some("aa:bb:cc:dd:ee:f9".to_string())),
        Ok("AA:BB:CC:DD:EE:F9".to_string())
    );
    assert_eq!(
        mac_from_capture("10.0.0.1", None),
        Err(ArpError::NotFound("10.0.0.1".to_string()))
    );
}

#[test]
fn entry_from_capture_answers_what_the_table_holds() {
    let table = "? (10.0.0.1) at aa:bb:cc:dd:ee:f9 [ether] on eth0\n";
    assert_eq!(
        entry_from_capture("10.0.0.1", table, Some("aa:bb:cc:dd:ee:f9".to_string())),
        Ok("AA:BB:CC:DD:EE:F9".to_string())
    );
    assert_eq!(
        entry_from_capture("10.0.0.1", table, None),
        Err(ArpError::NotFound("10.0.0.1".to_string()))
    );
}

#[test]
fn entry_from_capture_refuses_what_the_table_does_not_hold() {
    let table = "? (10.0.0.1) at aa:bb:cc:dd:ee:f9 [ether] on eth0\n";
    let not_found = Err(ArpError::NotFound("10.0.0.1".to_string()));
    assert_eq!(
        entry_from_capture("10.0.0.1", table, Some("aa:bb:cc:dd:ee:f8".to_string())),
        not_found
    );
    assert_eq!(
        entry_from_capture("10.0.0.1", "", Some("aa:bb:cc:dd:ee:f9".to_string())),
        not_found
    );
    assert_eq!(
        entry_from_capture("10.0.0.2", table, Some("aa:bb:cc:dd:ee:f9".to_string())),
        Err(ArpError::NotFound("10.0.0.2".to_string()))
    );
    let table = "? (10.0.0.1) at aabb:ccdd:eeff:00 on en0\n";
    assert_eq!(
        entry_from_capture("10.0.0.1", table, Some("aabb:ccdd:eeff:00".to_string())),
        not_found
    );
}

#[test]
fn ipv4_addresses_are_recognised() {
    assert!(is_ipv4_address("192.168.1.100"));
    assert!(is_ipv4_address("0.0.0.0"));
    assert!(is_ipv4_address("255.255.255.255"));
    assert!(is_ipv4_address("10.0.0.50"));
}

#[test]
fn malformed_ipv4_addresses_are_refused() {
    assert!(!is_ipv4_address("not.an.ip"));
    assert!(!is_ipv4_address(""));
    assert!(!is_ipv4_address("1.2.3"));
    assert!(!is_ipv4_address("1.2.3.4.5"));
    assert!(!is_ipv4_address("256.1.1.1"));
    assert!(!is_ipv4_address("1.2.3.256"));
    assert!(!is_ipv4_address("01.2.3.4"));
    assert!(!is_ipv4_address("1.2.3.00"));
    assert!(!is_ipv4_address("1..3.4"));
    assert!(!is_ipv4_address("1.2.3."));
    assert!(!is_ipv4_address(".1.2.3"));
    assert!(!is_ipv4_address("1.2.3.4 "));
    assert!(!is_ipv4_address("1.2.3.a"));
    assert!(!is_ipv4_address("1000.2.3.4"));
    assert!(!is_ipv4_address("+1.2.3.4"));
    assert!(!is_ipv4_address("::1"));
}

#[test]
fn ipv4_check_on_a_table_of_samples() {
    let samples = [
        ("192.168.1.1", true),
        ("12.34.56.78", true),
        ("25.5.2.55", true),
        ("256.0.0.0", false),
        ("a.b.c.d", false),
        ("1.1.1.01", false),
        ("1.1.1.1.", false),
        (" 1.1.1.1", false),
        ("999.1.1.1", false),
        ("0.00.0.0", false),
        ("1.2.3.4\n", false),
        ("\u{661}.\u{662}.\u{663}.\u{664}", false),
        ("...", false),
    ];
    for (text, expected) in samples {
        assert_eq!(is_ipv4_address(text), expected, "{text}");
    }
}

#[test]
fn validate_ip_echoes_the_input() {
    assert_eq!(validate_ip("10.1.2.3"), Ok(()));
    assert_eq!(validate_ip("not.an.ip"), Err(ArpError::InvalidIp("not.an.ip".to_string())));
}

#[test]
fn lookup_of_malformed_address_ends_at_once() {
    assert_eq!(
        lookup_mac("not.an.ip", ArpEvent::Start),
        ArpStep::Done(Err(ArpError::InvalidIp("not.an.ip".to_string())))
    );
}

#[test]
fn lookup_pings_then_reads_the_table() {
    assert_eq!(lookup_mac("192.168.1.1", ArpEvent::Start), ArpStep::Ping);
    assert_eq!(lookup_mac("192.168.1.1", ArpEvent::Pinged), ArpStep::ReadTable);
}

#[test]
fn lookup_ends_with_what_the_table_shows() {
    assert_eq!(
        lookup_mac("192.168.1.1", ArpEvent::Table(TABLE.to_string())),
        ArpStep::Done(Ok("AA:BB:CC:DD:EE:FF".to_string()))
    );
    assert_eq!(
        lookup_mac("192.168.1.77", ArpEvent::Table(TABLE.to_string())),
        ArpStep::Done(Err(ArpError::NotFound("192.168.1.77".to_string())))
    );
}

#[test]
fn lookup_reports_a_table_that_cannot_be_read() {
    assert_eq!(
        lookup_mac("192.168.1.1", ArpEvent::TableFailed("No such file".to_string())),
        ArpStep::Done(Err(ArpError::Query("No such file".to_string())))
    );
}

#[test]
fn arp_token_of_another_shape_is_not_found() {
    let table = "? (10.0.0.5) at aabb:ccdd:eeff:00 on en0\n";
    assert_eq!(
        get_mac_from_arp("10.0.0.5", table),
        Err(ArpError::NotFound("10.0.0.5".to_string()))
    );
    let table = "? (10.0.0.5) at ::::::::::::::::: on en0\n";
    assert_eq!(
        get_mac_from_arp("10.0.0.5", table),
        Err(ArpError::NotFound("10.0.0.5".to_string()))
    );
}

#[test]
fn arp_skips_a_malformed_line_for_a_later_one() {
    let table = "? (10.0.0.5) at aabb:ccdd:eeff:00 on en0\n\
                 ? (10.0.0.5) at 0a:1b:2c:3d:4e:5f on en1\n";
    assert_eq!(get_mac_from_arp("10.0.0.5", table), Ok("0A:1B:2C:3D:4E:5F".to_string()));
}

#[test]
fn mac_from_capture_refuses_what_is_no_mac() {
    let not_found = Err(ArpError::NotFound("10.0.0.5".to_string()));
    assert_eq!(mac_from_capture("10.0.0.5", Some("aabb:ccdd:eeff:00".to_string())), not_found);
    assert_eq!(mac_from_capture("10.0.0.5", Some("aa:bb:cc:dd:ee".to_string())), not_found);
    assert_eq!(mac_from_capture("10.0.0.5", Some("aa:bb:cc:dd:ee:fg".to_string())), not_found);
    assert_eq!(mac_from_capture("10.0.0.5", Some("aa-bb-cc-dd-ee-ff".to_string())), not_found);
    assert_eq!(mac_from_capture("10.0.0.5", Some(String::new())), not_found);
}

#[test]
fn mac_tokens_are_recognised() {
    assert!(is_mac_token_text("aa:bb:cc:dd:ee:ff"));
    assert!(is_mac_token_text("00:1A:2b:3C:4d:5E"));
    assert!(!is_mac_token_text("aa:bb:cc:dd:ee:ff:"));
    assert!(!is_mac_token_text("aabb:ccdd:eeff:00"));
    assert!(!is_mac_token_text("aa:bb:cc:dd:ee:f\u{e9}"));
}

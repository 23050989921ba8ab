use rawnet::mac_address::ParseMacAddressError;
use rawnet::MacAddress;
use std::str::FromStr;

#[test]
fn mac_address_from_str_valid() {
    MacAddress::from_str("AA:BB:CC:DD:EE:FF").expect("MacAddress string parsing failed!");
}

#[test]
fn mac_address_from_str_invalid_length() {
    let mac_addr: Result<MacAddress, ParseMacAddressError> =
        MacAddress::from_str("AA:BB:CC:DD:EE:FF:GG");

    assert!(
        matches!(mac_addr, Err(ParseMacAddressError::InvalidLength(7))),
        "MacAddress of invalid length was considered valid!"
    );
}

#[test]
fn mac_address_from_str_invalid_octet() {
    let mac_addr: Result<MacAddress, ParseMacAddressError> =
        MacAddress::from_str("00:bb:@a:53:1:x");

    assert!(
        matches!(mac_addr, Err(ParseMacAddressError::InvalidOctet)),
        "MacAddress with invalid octets was considered valid!"
    );
}

#[test]
fn mac_address_display() {
    let mac_addr = MacAddress::from_str("AA:BB:CC:DD:EE:FF").unwrap();
    assert!(
        mac_addr.to_string() == "aa:bb:cc:dd:ee:ff",
        "MacAddress converted to string is wrong!"
    );
    let upper_mac = mac_addr.to_upper_hex();
    assert!(
        upper_mac == "AABBCCDDEEFF",
        "MacAddress converted to upper string is wrong!"
    );
}

#[test]
fn parse_gives_octets() {
    let m = MacAddress::from_str("01:23:45:67:89:ab").unwrap();
    assert_eq!(m.into_array(), [0x01, 0x23, 0x45, 0x67, 0x89, 0xab]);
    assert_eq!(m.octets(), &[0x01, 0x23, 0x45, 0x67, 0x89, 0xab]);
}

#[test]
fn parse_accepts_short_and_signed_parts() {
    let m = MacAddress::from_str("0:1:+a:0f:00ff:F").unwrap();
    assert_eq!(m.into_array(), [0, 1, 0x0a, 0x0f, 0xff, 0x0f]);
}

#[test]
fn parse_rejects_bad_parts() {
    for s in [
        ":bb:cc:dd:ee:ff",
        "aa:bb:cc:dd:ee:",
        "aa:bb:cc:dd:ee:100",
        "aa:bb:cc:dd:ee:+",
        "aa:bb:cc:dd:ee:-1",
        "aa:bb:cc:dd:ee:g0",
        "aa:bb:cc:dd:ee:é",
        "",
    ] {
        assert_eq!(
            MacAddress::from_str(s),
            Err(ParseMacAddressError::InvalidOctet),
            "{s}"
        );
    }
}

#[test]
fn parse_counts_parts() {
    assert_eq!(
        MacAddress::from_str("aa:bb:cc"),
        Err(ParseMacAddressError::InvalidLength(3))
    );
    assert_eq!(
        MacAddress::from_str("aa"),
        Err(ParseMacAddressError::InvalidLength(1))
    );
    assert_eq!(
        MacAddress::from_str("aa:bb:cc:dd:ee:ff:00:11"),
        Err(ParseMacAddressError::InvalidLength(8))
    );
    // only the first six parts are read as octets
    assert_eq!(
        MacAddress::from_str("aa:bb:cc:dd:ee:ff:zz"),
        Err(ParseMacAddressError::InvalidLength(7))
    );
    // an invalid octet among the first six is reported first
    assert_eq!(
        MacAddress::from_str("aa:zz:cc"),
        Err(ParseMacAddressError::InvalidOctet)
    );
}

#[test]
fn display_roundtrip() {
    for o in [
        [0u8, 0, 0, 0, 0, 0],
        [0xff, 0xff, 0xff, 0xff, 0xff, 0xff],
        [0x01, 0x9a, 0x2b, 0xc3, 0x4d, 0xe5],
    ] {
        let m = MacAddress::new(o);
        let text = m.to_string();
        assert_eq!(text.len(), 17);
        assert_eq!(MacAddress::from_str(&text), Ok(m));
    }
}

#[test]
fn hex_forms() {
    let m = MacAddress::new([0x0a, 0x1b, 0x2c, 0x3d, 0x4e, 0x5f]);
    assert_eq!(m.to_string(), "0a:1b:2c:3d:4e:5f");
    assert_eq!(m.to_lower_hex(), "0a1b2c3d4e5f");
    assert_eq!(m.to_upper_hex(), "0A1B2C3D4E5F");
}

#[test]
fn classification() {
    let b = MacAddress::broadcast();
    assert!(b.is_broadcast() && !b.is_zero());
    assert!(b.is_multicast() && !b.is_unicast());
    assert!(b.is_local() && !b.is_universal());

    let z = MacAddress::zero();
    assert!(z.is_zero() && !z.is_broadcast());
    assert!(z.is_unicast() && z.is_universal());

    let m = MacAddress::new([0x01, 0, 0x5e, 0, 0, 1]);
    assert!(m.is_multicast() && m.is_universal());
    let l = MacAddress::new([0x02, 0, 0, 0, 0, 1]);
    assert!(l.is_unicast() && l.is_local());
    assert!(!MacAddress::new([0xff, 0xff, 0xff, 0xff, 0xff, 0xfe]).is_broadcast());
}

#[test]
fn conversions() {
    let a = [1u8, 2, 3, 4, 5, 6];
    assert_eq!(MacAddress::from(a), MacAddress::new(a));
    assert_eq!(MacAddress::default(), MacAddress::zero());
    assert_eq!(MacAddress::new(a).into_array(), a);
    let parsed: MacAddress = "01:02:03:04:05:06".parse().unwrap();
    assert_eq!(parsed, MacAddress::new(a));
    assert!(MacAddress::new([1, 2, 3, 4, 5, 6]) != MacAddress::new([1, 2, 3, 4, 5, 7]));
}

#[test]
fn hex_forms_agree() {
    for o in [[0u8, 0x1f, 0xa0, 0xbc, 0xde, 0xff], [0x12, 0x34, 0x56, 0x78, 0x9a, 0xbc]] {
        let m = MacAddress::new(o);
        let lower = m.to_lower_hex();
        assert_eq!(lower.len(), 12);
        assert_eq!(lower, m.to_string().replace(':', ""));
        assert_eq!(m.to_upper_hex(), lower.to_ascii_uppercase());
    }
}

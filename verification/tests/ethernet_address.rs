use rawnet::ethernet_address::{EthernetAddress, Interface, ParseInterfaceError};
use rawnet::MacAddress;
use std::str::FromStr;

#[test]
fn interface_valid_names() {
    for s in ["eth0", "wlp3s0", "lo", "", "abcdefghijklmno"] {
        let i = Interface::from_str(s).unwrap();
        assert_eq!(i.as_str(), s);
        assert_eq!(i.to_string(), s);
        assert_eq!(Interface::from_str(i.as_str()).unwrap(), i);
    }
}

#[test]
fn interface_errors() {
    assert_eq!(
        Interface::from_str("abcdefghijklmnop"),
        Err(ParseInterfaceError::InvalidLength)
    );
    // the length is counted in characters
    assert_eq!(Interface::from_str("ééééééééé").unwrap().as_str(), "ééééééééé");
    assert_eq!(
        Interface::from_str("éééééééééééééééé"),
        Err(ParseInterfaceError::InvalidLength)
    );
    assert_eq!(Interface::from_str("ééééééééééééééé").unwrap().as_str(), "ééééééééééééééé");
    assert_eq!(Interface::from_str("eth 0"), Err(ParseInterfaceError::ContainsSpace));
    assert_eq!(Interface::from_str("eth/0"), Err(ParseInterfaceError::ContainsSlash));
    assert_eq!(Interface::from_str("eth:0"), Err(ParseInterfaceError::ContainsColon));
    // checks come in order: length, space, slash, colon
    assert_eq!(
        Interface::from_str("a b/c:d e f g h i"),
        Err(ParseInterfaceError::InvalidLength)
    );
    assert_eq!(Interface::from_str("a:b/c d"), Err(ParseInterfaceError::ContainsSpace));
    assert_eq!(Interface::from_str("a:b/c"), Err(ParseInterfaceError::ContainsSlash));
    let parsed: Result<Interface, _> = "eth1".parse();
    assert_eq!(parsed.unwrap().as_str(), "eth1");
}

#[test]
fn ethernet_address_new_and_text() {
    let mac = MacAddress::new([0xaa, 0xbb, 0xcc, 0x00, 0x11, 0x22]);
    let i = Interface::from_str("eth0").unwrap();
    let e = EthernetAddress::new(mac, i.clone());
    assert_eq!(e.mac_address, mac);
    assert_eq!(e.interface, i);
    assert_eq!(
        e.to_string(),
        "Ethernet Interface Name: eth0Ethernet MAC Address: aa:bb:cc:00:11:22"
    );
}

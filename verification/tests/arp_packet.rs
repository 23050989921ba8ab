use rawnet::packet::{
    ArpEnumConvertError, ArpHardwareType, ArpOperationCode, ArpPacket, ArpPacketConvertError,
    ArpProtocolType,
};
use rawnet::MacAddress;

fn same(p: &ArpPacket, q: &ArpPacket) -> bool {
    p.hardware_type == q.hardware_type
        && p.protocol_type == q.protocol_type
        && p.hw_addr_len == q.hw_addr_len
        && p.proto_addr_len == q.proto_addr_len
        && p.operation == q.operation
        && p.sender_mac == q.sender_mac
        && p.sender_ip == q.sender_ip
        && p.target_mac == q.target_mac
        && p.target_ip == q.target_ip
}

#[test]
fn request_fields_and_bytes() {
    let mac = MacAddress::new([0x02, 0x42, 0xac, 0x11, 0x00, 0x02]);
    let p = ArpPacket::request(mac, [192, 168, 1, 10], [192, 168, 1, 1]);
    assert!(p.is_request() && !p.is_reply());
    assert_eq!(p.target_mac, MacAddress::broadcast());
    let bytes = p.to_bytes();
    assert_eq!(
        bytes,
        vec![
            0x00, 0x01, 0x08, 0x00, 6, 4, 0x00, 0x01, 0x02, 0x42, 0xac, 0x11, 0x00, 0x02, 192,
            168, 1, 10, 0xff, 0xff, 0xff, 0xff, 0xff, 0xff, 192, 168, 1, 1
        ]
    );
    let v: Vec<u8> = (&p).into();
    assert_eq!(v, bytes);
}

#[test]
fn reply_roundtrip() {
    let a = MacAddress::new([1, 2, 3, 4, 5, 6]);
    let b = MacAddress::new([6, 5, 4, 3, 2, 1]);
    let p = ArpPacket::reply(a, [10, 0, 0, 1], b, [10, 0, 0, 2]);
    assert!(p.is_reply() && !p.is_request());
    let bytes = p.to_bytes();
    assert_eq!(bytes.len(), 28);
    assert_eq!(&bytes[6..8], &[0, 2]);
    let q = ArpPacket::try_from(&bytes[..]).unwrap();
    assert!(same(&p, &q));
    let r: ArpPacket = TryFrom::try_from(&bytes[..]).unwrap();
    assert!(same(&p, &r));
}

#[test]
fn bytes_roundtrip() {
    let bytes: Vec<u8> = vec![
        0x00, 0x12, 0x86, 0xdd, 16, 9, 0x00, 0x09, 1, 2, 3, 4, 5, 6, 7, 8, 9, 10, 11, 12, 13, 14,
        15, 16, 17, 18, 19, 20,
    ];
    let p = ArpPacket::try_from(&bytes[..]).unwrap();
    assert_eq!(p.hardware_type, ArpHardwareType::FibreChannel);
    assert_eq!(p.protocol_type, ArpProtocolType::Ipv6);
    assert_eq!(p.operation, ArpOperationCode::InarpReply);
    assert_eq!(p.hw_addr_len, 16);
    assert_eq!(p.proto_addr_len, 9);
    assert_eq!(p.sender_mac.into_array(), [1, 2, 3, 4, 5, 6]);
    assert_eq!(p.sender_ip, [7, 8, 9, 10]);
    assert_eq!(p.target_mac.into_array(), [11, 12, 13, 14, 15, 16]);
    assert_eq!(p.target_ip, [17, 18, 19, 20]);
    assert_eq!(p.to_bytes(), bytes);
}

#[test]
fn parse_errors() {
    let short = [0u8; 27];
    assert_eq!(
        ArpPacket::try_from(&short[..]).unwrap_err(),
        ArpPacketConvertError::InvalidLength(27)
    );
    let long = [0u8; 29];
    assert_eq!(
        ArpPacket::try_from(&long[..]).unwrap_err(),
        ArpPacketConvertError::InvalidLength(29)
    );
    let mut b = ArpPacket::default().to_bytes();
    assert!(ArpPacket::try_from(&b[..]).is_ok());
    b[1] = 19;
    assert_eq!(
        ArpPacket::try_from(&b[..]).unwrap_err(),
        ArpPacketConvertError::InvalidEnum(ArpEnumConvertError::UnknownValue(19))
    );
    b[1] = 1;
    b[2] = 0x08;
    b[3] = 0x01;
    assert_eq!(
        ArpPacket::try_from(&b[..]).unwrap_err(),
        ArpPacketConvertError::InvalidEnum(ArpEnumConvertError::UnknownValue(0x0801))
    );
    b[3] = 0x06;
    b[7] = 10;
    assert_eq!(
        ArpPacket::try_from(&b[..]).unwrap_err(),
        ArpPacketConvertError::InvalidEnum(ArpEnumConvertError::UnknownValue(10))
    );
    // the hardware type is checked before the operation
    b[0] = 0xff;
    assert_eq!(
        ArpPacket::try_from(&b[..]).unwrap_err(),
        ArpPacketConvertError::InvalidEnum(ArpEnumConvertError::UnknownValue(0xff01))
    );
}

#[test]
fn default_packet() {
    let p = ArpPacket::default();
    assert_eq!(p.to_bytes(), vec![0u8; 28]);
    assert!(!p.is_request() && !p.is_reply());
}

#[test]
fn enum_codes() {
    for v in 0u16..=30 {
        match ArpHardwareType::try_from(v) {
            Ok(t) => assert_eq!(t.as_u16(), v),
            Err(e) => {
                assert!(v == 19 || v > 20);
                assert_eq!(e, ArpEnumConvertError::UnknownValue(v));
            }
        }
        match ArpOperationCode::try_from(v) {
            Ok(t) => assert_eq!(t.as_u16(), v),
            Err(e) => {
                assert!(v > 9);
                assert_eq!(e, ArpEnumConvertError::UnknownValue(v));
            }
        }
    }
    for v in [0u16, 0x0800, 0x0806, 0x0842, 0x8035, 0x809b, 0x80f3, 0x86dd] {
        assert_eq!(ArpProtocolType::try_from(v).unwrap().as_u16(), v);
    }
    assert_eq!(
        ArpProtocolType::try_from(0x0801),
        Err(ArpEnumConvertError::UnknownValue(0x0801))
    );
    assert_eq!(ArpHardwareType::SerialLine.as_u16(), 20);
    assert_eq!(ArpProtocolType::Aarp.as_u16(), 0x80F3);
    let t: Result<ArpOperationCode, _> = TryFrom::try_from(2u16);
    assert_eq!(t, Ok(ArpOperationCode::Reply));
    let e: ArpPacketConvertError = ArpEnumConvertError::UnknownValue(3).into();
    assert_eq!(e, ArpPacketConvertError::InvalidEnum(ArpEnumConvertError::UnknownValue(3)));
}

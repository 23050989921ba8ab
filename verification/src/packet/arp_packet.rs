use vstd::prelude::*;

use crate::mac_address::{lemma_mac_len, lemma_mac_view_injective, MacAddress};
use crate::packet::arp_enums::{
    ArpEnumConvertError, ArpHardwareType, ArpOperationCode, ArpProtocolType,
};

verus! {

broadcast use lemma_mac_len;

/// A 16-bit number as two bytes, most significant first.
pub open spec fn be16(v: u16) -> Seq<u8> {
    seq![(v / 256) as u8, (v % 256) as u8]
}

/// The 16-bit number that two bytes denote, most significant first.
pub open spec fn be16_value(hi: u8, lo: u8) -> u16 {
    (hi * 256 + lo) as u16
}

/// An ARP packet, field by field, in the order of the wire format.
#[derive(Debug)]
pub struct ArpPacket {
    pub hardware_type: ArpHardwareType,
    pub protocol_type: ArpProtocolType,
    pub hw_addr_len: u8,
    pub proto_addr_len: u8,
    pub operation: ArpOperationCode,
    pub sender_mac: MacAddress,
    pub sender_ip: [u8; 4],
    pub target_mac: MacAddress,
    pub target_ip: [u8; 4],
}

/// The error type for reading an ARP packet from bytes.
#[derive(Debug, Clone, Copy, PartialEq, Eq, Structural)]
pub enum ArpPacketConvertError {
    /// The input has this many bytes instead of 28.
    InvalidLength(usize),
    /// A 16-bit field holds a number that names no known value.
    InvalidEnum(ArpEnumConvertError),
}

impl From<ArpEnumConvertError> for ArpPacketConvertError {
    fn from(e: ArpEnumConvertError) -> (r: Self) {
        ArpPacketConvertError::InvalidEnum(e)
    }
}

impl vstd::std_specs::convert::FromSpecImpl<ArpEnumConvertError> for ArpPacketConvertError {
    open spec fn obeys_from_spec() -> bool {
        true
    }

    open spec fn from_spec(e: ArpEnumConvertError) -> ArpPacketConvertError {
        ArpPacketConvertError::InvalidEnum(e)
    }
}

/// The 28 bytes of an ARP packet: hardware type, protocol type (16 bits each,
/// most significant byte first), the two address lengths, the operation
/// (16 bits), then sender MAC, sender IPv4, target MAC and target IPv4.
pub open spec fn arp_bytes(p: ArpPacket) -> Seq<u8> {
    be16(p.hardware_type.code()) + be16(p.protocol_type.code()) + seq![
        p.hw_addr_len,
        p.proto_addr_len,
    ] + be16(p.operation.code()) + p.sender_mac@ + p.sender_ip@ + p.target_mac@ + p.target_ip@
}

/// Why bytes are no ARP packet, checked in this order: a length other than
/// 28, then an unknown hardware type, protocol type or operation; `None` if
/// they are one.
pub open spec fn arp_parse_error(b: Seq<u8>) -> Option<ArpPacketConvertError> {
    if b.len() != 28 {
        Some(ArpPacketConvertError::InvalidLength(b.len() as usize))
    } else if ArpHardwareType::from_code(be16_value(b[0], b[1])) is None {
        Some(
            ArpPacketConvertError::InvalidEnum(
                ArpEnumConvertError::UnknownValue(be16_value(b[0], b[1])),
            ),
        )
    } else if ArpProtocolType::from_code(be16_value(b[2], b[3])) is None {
        Some(
            ArpPacketConvertError::InvalidEnum(
                ArpEnumConvertError::UnknownValue(be16_value(b[2], b[3])),
            ),
        )
    } else if ArpOperationCode::from_code(be16_value(b[6], b[7])) is None {
        Some(
            ArpPacketConvertError::InvalidEnum(
                ArpEnumConvertError::UnknownValue(be16_value(b[6], b[7])),
            ),
        )
    } else {
        None
    }
}

/// Reading bytes as a packet, as a result: the packet whose bytes they are,
/// or the error.
pub open spec fn arp_parse(b: Seq<u8>) -> Result<ArpPacket, ArpPacketConvertError> {
    match arp_parse_error(b) {
        Some(e) => Err(e),
        None => Ok(choose|p: ArpPacket| arp_bytes(p) == b),
    }
}

/// Appends a 16-bit number, most significant byte first.
fn push_be16(bytes: &mut Vec<u8>, v: u16)
    ensures
        final(bytes)@ == old(bytes)@ + be16(v),
{
    bytes.push((v / 256) as u8);
    bytes.push((v % 256) as u8);
    assert(bytes@ =~= old(bytes)@ + be16(v));
}

/// The 16-bit number that two bytes denote, most significant first.
fn be16_from(hi: u8, lo: u8) -> (v: u16)
    ensures
        v == be16_value(hi, lo),
        be16(v) == seq![hi, lo],
{
    let v = (hi as u16) * 256 + (lo as u16);
    assert(be16(v) =~= seq![hi, lo]);
    v
}

/// The bytes of a packet determine the packet.
pub proof fn law_arp_bytes_injective(p: ArpPacket, q: ArpPacket)
    requires
        arp_bytes(p) == arp_bytes(q),
    ensures
        p == q,
{
    let b = arp_bytes(p);
    let c = arp_bytes(q);
    assert(b[0] == c[0] && b[1] == c[1] && b[2] == c[2] && b[3] == c[3]);
    assert(b[6] == c[6] && b[7] == c[7]);
    assert(p.hardware_type.code() == q.hardware_type.code());
    assert(p.protocol_type.code() == q.protocol_type.code());
    assert(p.operation.code() == q.operation.code());
    p.hardware_type.law_code_roundtrip();
    q.hardware_type.law_code_roundtrip();
    p.protocol_type.law_code_roundtrip();
    q.protocol_type.law_code_roundtrip();
    p.operation.law_code_roundtrip();
    q.operation.law_code_roundtrip();
    assert(p.hw_addr_len == c[4]);
    assert(p.proto_addr_len == c[5]);
    assert(p.sender_mac@ =~= b.subrange(8, 14));
    assert(q.sender_mac@ =~= c.subrange(8, 14));
    assert(p.sender_ip@ =~= b.subrange(14, 18));
    assert(q.sender_ip@ =~= c.subrange(14, 18));
    assert(p.target_mac@ =~= b.subrange(18, 24));
    assert(q.target_mac@ =~= c.subrange(18, 24));
    assert(p.target_ip@ =~= b.subrange(24, 28));
    assert(q.target_ip@ =~= c.subrange(24, 28));
    lemma_mac_view_injective(p.sender_mac, q.sender_mac);
    lemma_mac_view_injective(p.target_mac, q.target_mac);
    assert(p.sender_ip =~= q.sender_ip);
    assert(p.target_ip =~= q.target_ip);
}

/// Writing a packet and reading the bytes back gives the packet:
/// `ArpPacket::try_from(&p.to_bytes()) == Ok(p)`.
pub proof fn law_arp_roundtrip(p: ArpPacket)
    ensures
        arp_bytes(p).len() == 28,
        arp_parse_error(arp_bytes(p)) is None,
        arp_parse(arp_bytes(p)) == Ok::<ArpPacket, ArpPacketConvertError>(p),
{
    let b = arp_bytes(p);
    assert(b.len() == 28);
    assert(be16_value(b[0], b[1]) == p.hardware_type.code());
    assert(be16_value(b[2], b[3]) == p.protocol_type.code());
    assert(be16_value(b[6], b[7]) == p.operation.code());
    p.hardware_type.law_code_roundtrip();
    p.protocol_type.law_code_roundtrip();
    p.operation.law_code_roundtrip();
    let q = choose|q: ArpPacket| arp_bytes(q) == b;
    assert(arp_bytes(q) == b);
    law_arp_bytes_injective(p, q);
}

impl ArpPacket {
    /// The 28 bytes of the packet (its conversion into `Vec<u8>`).
    pub fn to_bytes(&self) -> (bytes: Vec<u8>)
        ensures
            bytes@ == arp_bytes(*self),
            bytes@.len() == 28,
    {
        let mut bytes: Vec<u8> = Vec::new();
        push_be16(&mut bytes, self.hardware_type.as_u16());
        push_be16(&mut bytes, self.protocol_type.as_u16());
        bytes.push(self.hw_addr_len);
        bytes.push(self.proto_addr_len);
        push_be16(&mut bytes, self.operation.as_u16());
        let sm = self.sender_mac.into_array();
        let tm = self.target_mac.into_array();
        let mut i: usize = 0;
        while i < 6
            invariant
                i <= 6,
                bytes@ == be16(self.hardware_type.code()) + be16(self.protocol_type.code()) + seq![
                    self.hw_addr_len,
                    self.proto_addr_len,
                ] + be16(self.operation.code()) + sm@.take(i as int),
            decreases 6 - i,
        {
            bytes.push(sm[i]);
            assert(sm@.take(i + 1) =~= sm@.take(i as int).push(sm@[i as int]));
            i = i + 1;
        }
        assert(sm@.take(6) =~= sm@);
        bytes.push(self.sender_ip[0]);
        bytes.push(self.sender_ip[1]);
        bytes.push(self.sender_ip[2]);
        bytes.push(self.sender_ip[3]);
        bytes.push(tm[0]);
        bytes.push(tm[1]);
        bytes.push(tm[2]);
        bytes.push(tm[3]);
        bytes.push(tm[4]);
        bytes.push(tm[5]);
        bytes.push(self.target_ip[0]);
        bytes.push(self.target_ip[1]);
        bytes.push(self.target_ip[2]);
        bytes.push(self.target_ip[3]);
        assert(bytes@ =~= arp_bytes(*self));
        bytes
    }

    /// Reads a packet from exactly 28 bytes; the first field that fails
    /// gives the error.
    pub fn try_from(value: &[u8]) -> (r: Result<ArpPacket, ArpPacketConvertError>)
        ensures
            r == arp_parse(value@),
            r matches Ok(p) ==> arp_parse_error(value@) is None && arp_bytes(p) == value@,
            r matches Err(e) ==> arp_parse_error(value@) == Some(e),
    {
        let n = value.len();
        if n != 28 {
            return Err(ArpPacketConvertError::InvalidLength(n));
        }
        let hardware_type = match ArpHardwareType::try_from(be16_from(value[0], value[1])) {
            Ok(t) => t,
            Err(e) => {
                return Err(ArpPacketConvertError::InvalidEnum(e));
            },
        };
        let protocol_type = match ArpProtocolType::try_from(be16_from(value[2], value[3])) {
            Ok(t) => t,
            Err(e) => {
                return Err(ArpPacketConvertError::InvalidEnum(e));
            },
        };
        let operation = match ArpOperationCode::try_from(be16_from(value[6], value[7])) {
            Ok(t) => t,
            Err(e) => {
                return Err(ArpPacketConvertError::InvalidEnum(e));
            },
        };
        proof {
            ArpHardwareType::law_from_code_exact(be16_value(value[0], value[1]));
            ArpProtocolType::law_from_code_exact(be16_value(value[2], value[3]));
            ArpOperationCode::law_from_code_exact(be16_value(value[6], value[7]));
        }
        let p = ArpPacket {
            hardware_type,
            protocol_type,
            hw_addr_len: value[4],
            proto_addr_len: value[5],
            operation,
            sender_mac: MacAddress::new(
                [value[8], value[9], value[10], value[11], value[12], value[13]],
            ),
            sender_ip: [value[14], value[15], value[16], value[17]],
            target_mac: MacAddress::new(
                [value[18], value[19], value[20], value[21], value[22], value[23]],
            ),
            target_ip: [value[24], value[25], value[26], value[27]],
        };
        assert(arp_bytes(p) =~= value@);
        proof {
            let q = choose|q: ArpPacket| arp_bytes(q) == value@;
            assert(arp_bytes(q) == value@);
            law_arp_bytes_injective(p, q);
        }
        Ok(p)
    }

    /// An ARP request for the hardware address of `target_ip`, sent from
    /// `sender_mac` and `sender_ip` to the broadcast address.
    pub fn request(sender_mac: MacAddress, sender_ip: [u8; 4], target_ip: [u8; 4]) -> (p: Self)
        ensures
            p.hardware_type == ArpHardwareType::Ethernet,
            p.protocol_type == ArpProtocolType::Ipv4,
            p.hw_addr_len == 6,
            p.proto_addr_len == 4,
            p.operation == ArpOperationCode::Request,
            p.sender_mac == sender_mac,
            p.sender_ip == sender_ip,
            p.target_mac@ == seq![0xFFu8, 0xFF, 0xFF, 0xFF, 0xFF, 0xFF],
            p.target_ip == target_ip,
    {
        ArpPacket {
            hardware_type: ArpHardwareType::Ethernet,
            protocol_type: ArpProtocolType::Ipv4,
            hw_addr_len: 6,
            proto_addr_len: 4,
            operation: ArpOperationCode::Request,
            sender_mac,
            sender_ip,
            target_mac: MacAddress::broadcast(),
            target_ip,
        }
    }

    /// An ARP reply from `sender_mac`/`sender_ip` (the replying device) to
    /// `target_mac`/`target_ip` (the original requester).
    pub fn reply(
        sender_mac: MacAddress,
        sender_ip: [u8; 4],
        target_mac: MacAddress,
        target_ip: [u8; 4],
    ) -> (p: Self)
        ensures
            p.hardware_type == ArpHardwareType::Ethernet,
            p.protocol_type == ArpProtocolType::Ipv4,
            p.hw_addr_len == 6,
            p.proto_addr_len == 4,
            p.operation == ArpOperationCode::Reply,
            p.sender_mac == sender_mac,
            p.sender_ip == sender_ip,
            p.target_mac == target_mac,
            p.target_ip == target_ip,
    {
        ArpPacket {
            hardware_type: ArpHardwareType::Ethernet,
            protocol_type: ArpProtocolType::Ipv4,
            hw_addr_len: 6,
            proto_addr_len: 4,
            operation: ArpOperationCode::Reply,
            sender_mac,
            sender_ip,
            target_mac,
            target_ip,
        }
    }

    /// Whether the operation is a request (code 1).
    pub fn is_request(&self) -> (b: bool)
        ensures
            b == (self.operation == ArpOperationCode::Request),
    {
        match self.operation {
            ArpOperationCode::Request => true,
            _ => false,
        }
    }

    /// Whether the operation is a reply (code 2).
    pub fn is_reply(&self) -> (b: bool)
        ensures
            b == (self.operation == ArpOperationCode::Reply),
    {
        match self.operation {
            ArpOperationCode::Reply => true,
            _ => false,
        }
    }
}

impl Default for ArpPacket {
    /// Every field reserved or zero.
    fn default() -> (p: Self)
        ensures
            p.hardware_type == ArpHardwareType::Reserved,
            p.protocol_type == ArpProtocolType::Reserved,
            p.hw_addr_len == 0,
            p.proto_addr_len == 0,
            p.operation == ArpOperationCode::Reserved,
            p.sender_mac@ == seq![0u8, 0, 0, 0, 0, 0],
            p.sender_ip@ == seq![0u8, 0, 0, 0],
            p.target_mac@ == seq![0u8, 0, 0, 0, 0, 0],
            p.target_ip@ == seq![0u8, 0, 0, 0],
    {
        let p = ArpPacket {
            hardware_type: ArpHardwareType::Reserved,
            protocol_type: ArpProtocolType::Reserved,
            hw_addr_len: 0,
            proto_addr_len: 0,
            operation: ArpOperationCode::Reserved,
            sender_mac: MacAddress::zero(),
            sender_ip: [0, 0, 0, 0],
            target_mac: MacAddress::zero(),
            target_ip: [0, 0, 0, 0],
        };
        assert(p.sender_ip@ =~= seq![0u8, 0, 0, 0]);
        assert(p.target_ip@ =~= seq![0u8, 0, 0, 0]);
        p
    }
}

impl<'a> From<&'a ArpPacket> for Vec<u8> {
    /// The 28 bytes of the packet.
    fn from(value: &'a ArpPacket) -> (bytes: Vec<u8>)
        ensures
            bytes@ == arp_bytes(*value),
    {
        value.to_bytes()
    }
}

impl<'a> vstd::std_specs::convert::FromSpecImpl<&'a ArpPacket> for Vec<u8> {
    /// A `Vec` is not determined by its contents in the logic, so the
    /// conversion is described by the `ensures` of `from` alone.
    open spec fn obeys_from_spec() -> bool {
        false
    }

    open spec fn from_spec(value: &'a ArpPacket) -> Vec<u8> {
        choose|v: Vec<u8>| v@ == arp_bytes(*value)
    }
}

impl<'a> TryFrom<&'a [u8]> for ArpPacket {
    type Error = ArpPacketConvertError;

    fn try_from(value: &'a [u8]) -> (r: Result<ArpPacket, ArpPacketConvertError>) {
        ArpPacket::try_from(value)
    }
}

impl<'a> vstd::std_specs::convert::TryFromSpecImpl<&'a [u8]> for ArpPacket {
    open spec fn obeys_try_from_spec() -> bool {
        true
    }

    open spec fn try_from_spec(v: &'a [u8]) -> Result<ArpPacket, ArpPacketConvertError> {
        arp_parse(v@)
    }
}

} // verus!

use vstd::prelude::*;

verus! {

/// The error of reading an ARP field number that names no known value.
#[derive(Debug, Clone, Copy, PartialEq, Eq, Structural)]
pub enum ArpEnumConvertError {
    /// The number does not correspond to a known variant.
    UnknownValue(u16),
}

/// Hardware type values as defined by the IANA ARP Hardware Types registry.
#[derive(Debug, Clone, Copy, PartialEq, Eq, Structural)]
pub enum ArpHardwareType {
    /// Unspecified
    Reserved,
    /// Ethernet (10Mb)
    Ethernet,
    /// Experimental Ethernet (3Mb)
    ExperimentalEthernet,
    /// Amateur Radio AX.25
    AmateurRadioAx25,
    /// Proteon ProNet Token Ring
    ProteonProNetTokenRing,
    /// Chaos
    Chaos,
    /// IEEE 802 Networks
    Ieee802Networks,
    /// ARCNET
    Arcnet,
    /// Hyperchannel
    Hyperchannel,
    /// Lanstar
    Lanstar,
    /// Autonet Short Address
    AutonetShortAddress,
    /// LocalTalk
    LocalTalk,
    /// LocalNet (IBM PCNet / SYTEK)
    LocalNet,
    /// Ultra link
    UltraLink,
    /// SMDS
    Smds,
    /// Frame Relay
    FrameRelay,
    /// Asynchronous Transmission Mode (ATM)
    Atm,
    /// HDLC
    Hdlc,
    /// Fibre Channel
    FibreChannel,
    /// Serial Line
    SerialLine,
}

impl ArpHardwareType {
    /// The number that stands for this value on the wire.
    pub open spec fn code(self) -> u16 {
        match self {
            ArpHardwareType::Reserved => 0,
            ArpHardwareType::Ethernet => 1,
            ArpHardwareType::ExperimentalEthernet => 2,
            ArpHardwareType::AmateurRadioAx25 => 3,
            ArpHardwareType::ProteonProNetTokenRing => 4,
            ArpHardwareType::Chaos => 5,
            ArpHardwareType::Ieee802Networks => 6,
            ArpHardwareType::Arcnet => 7,
            ArpHardwareType::Hyperchannel => 8,
            ArpHardwareType::Lanstar => 9,
            ArpHardwareType::AutonetShortAddress => 10,
            ArpHardwareType::LocalTalk => 11,
            ArpHardwareType::LocalNet => 12,
            ArpHardwareType::UltraLink => 13,
            ArpHardwareType::Smds => 14,
            ArpHardwareType::FrameRelay => 15,
            ArpHardwareType::Atm => 16,
            ArpHardwareType::Hdlc => 17,
            ArpHardwareType::FibreChannel => 18,
            ArpHardwareType::SerialLine => 20,
        }
    }

    /// The value that a number stands for, if any.
    pub open spec fn from_code(value: u16) -> Option<ArpHardwareType> {
        if value == 0 {
            Some(ArpHardwareType::Reserved)
        } else if value == 1 {
            Some(ArpHardwareType::Ethernet)
        } else if value == 2 {
            Some(ArpHardwareType::ExperimentalEthernet)
        } else if value == 3 {
            Some(ArpHardwareType::AmateurRadioAx25)
        } else if value == 4 {
            Some(ArpHardwareType::ProteonProNetTokenRing)
        } else if value == 5 {
            Some(ArpHardwareType::Chaos)
        } else if value == 6 {
            Some(ArpHardwareType::Ieee802Networks)
        } else if value == 7 {
            Some(ArpHardwareType::Arcnet)
        } else if value == 8 {
            Some(ArpHardwareType::Hyperchannel)
        } else if value == 9 {
            Some(ArpHardwareType::Lanstar)
        } else if value == 10 {
            Some(ArpHardwareType::AutonetShortAddress)
        } else if value == 11 {
            Some(ArpHardwareType::LocalTalk)
        } else if value == 12 {
            Some(ArpHardwareType::LocalNet)
        } else if value == 13 {
            Some(ArpHardwareType::UltraLink)
        } else if value == 14 {
            Some(ArpHardwareType::Smds)
        } else if value == 15 {
            Some(ArpHardwareType::FrameRelay)
        } else if value == 16 {
            Some(ArpHardwareType::Atm)
        } else if value == 17 {
            Some(ArpHardwareType::Hdlc)
        } else if value == 18 {
            Some(ArpHardwareType::FibreChannel)
        } else if value == 20 {
            Some(ArpHardwareType::SerialLine)
        } else {
            None
        }
    }

    /// The number that stands for this value on the wire.
    pub fn as_u16(&self) -> (v: u16)
        ensures
            v == self.code(),
    {
        match self {
            ArpHardwareType::Reserved => 0,
            ArpHardwareType::Ethernet => 1,
            ArpHardwareType::ExperimentalEthernet => 2,
            ArpHardwareType::AmateurRadioAx25 => 3,
            ArpHardwareType::ProteonProNetTokenRing => 4,
            ArpHardwareType::Chaos => 5,
            ArpHardwareType::Ieee802Networks => 6,
            ArpHardwareType::Arcnet => 7,
            ArpHardwareType::Hyperchannel => 8,
            ArpHardwareType::Lanstar => 9,
            ArpHardwareType::AutonetShortAddress => 10,
            ArpHardwareType::LocalTalk => 11,
            ArpHardwareType::LocalNet => 12,
            ArpHardwareType::UltraLink => 13,
            ArpHardwareType::Smds => 14,
            ArpHardwareType::FrameRelay => 15,
            ArpHardwareType::Atm => 16,
            ArpHardwareType::Hdlc => 17,
            ArpHardwareType::FibreChannel => 18,
            ArpHardwareType::SerialLine => 20,
        }
    }

    /// The value that a number stands for, or `UnknownValue` with the number.
    pub fn try_from(value: u16) -> (r: Result<ArpHardwareType, ArpEnumConvertError>)
        ensures
            r == ArpHardwareType::try_from_code(value),
    {
        match value {
            0 => Ok(ArpHardwareType::Reserved),
            1 => Ok(ArpHardwareType::Ethernet),
            2 => Ok(ArpHardwareType::ExperimentalEthernet),
            3 => Ok(ArpHardwareType::AmateurRadioAx25),
            4 => Ok(ArpHardwareType::ProteonProNetTokenRing),
            5 => Ok(ArpHardwareType::Chaos),
            6 => Ok(ArpHardwareType::Ieee802Networks),
            7 => Ok(ArpHardwareType::Arcnet),
            8 => Ok(ArpHardwareType::Hyperchannel),
            9 => Ok(ArpHardwareType::Lanstar),
            10 => Ok(ArpHardwareType::AutonetShortAddress),
            11 => Ok(ArpHardwareType::LocalTalk),
            12 => Ok(ArpHardwareType::LocalNet),
            13 => Ok(ArpHardwareType::UltraLink),
            14 => Ok(ArpHardwareType::Smds),
            15 => Ok(ArpHardwareType::FrameRelay),
            16 => Ok(ArpHardwareType::Atm),
            17 => Ok(ArpHardwareType::Hdlc),
            18 => Ok(ArpHardwareType::FibreChannel),
            20 => Ok(ArpHardwareType::SerialLine),
            _ => Err(ArpEnumConvertError::UnknownValue(value)),
        }
    }

    /// `from_code` as a result, with the number in the error.
    pub open spec fn try_from_code(value: u16) -> Result<ArpHardwareType, ArpEnumConvertError> {
        match ArpHardwareType::from_code(value) {
            Some(t) => Ok(t),
            None => Err(ArpEnumConvertError::UnknownValue(value)),
        }
    }

    /// A value's number stands for that value.
    pub proof fn law_code_roundtrip(self)
        ensures
            ArpHardwareType::from_code(self.code()) == Some(self),
    {
    }

    /// A number stands for at most one value, and that value's number is it.
    pub proof fn law_from_code_exact(value: u16)
        ensures
            ArpHardwareType::from_code(value) matches Some(t) ==> t.code() == value,
    {
    }
}

impl TryFrom<u16> for ArpHardwareType {
    type Error = ArpEnumConvertError;

    fn try_from(value: u16) -> (r: Result<ArpHardwareType, ArpEnumConvertError>) {
        ArpHardwareType::try_from(value)
    }
}

impl vstd::std_specs::convert::TryFromSpecImpl<u16> for ArpHardwareType {
    open spec fn obeys_try_from_spec() -> bool {
        true
    }

    open spec fn try_from_spec(v: u16) -> Result<ArpHardwareType, ArpEnumConvertError> {
        ArpHardwareType::try_from_code(v)
    }
}

/// ARP operation codes as defined by RFC 826.
#[derive(Debug, Clone, Copy, PartialEq, Eq, Structural)]
pub enum ArpOperationCode {
    /// Unspecified
    Reserved,
    /// ARP request.
    Request,
    /// ARP reply.
    Reply,
    /// Reverse ARP request.
    ReverseRequest,
    /// Reverse ARP reply.
    ReverseReply,
    /// Dynamic RARP request.
    DrarpRequest,
    /// Dynamic RARP reply.
    DrarpReply,
    /// Dynamic RARP error.
    DrarpError,
    /// Inverse ARP request.
    InarpRequest,
    /// Inverse ARP reply.
    InarpReply,
}

impl ArpOperationCode {
    /// The number that stands for this value on the wire.
    pub open spec fn code(self) -> u16 {
        match self {
            ArpOperationCode::Reserved => 0,
            ArpOperationCode::Request => 1,
            ArpOperationCode::Reply => 2,
            ArpOperationCode::ReverseRequest => 3,
            ArpOperationCode::ReverseReply => 4,
            ArpOperationCode::DrarpRequest => 5,
            ArpOperationCode::DrarpReply => 6,
            ArpOperationCode::DrarpError => 7,
            ArpOperationCode::InarpRequest => 8,
            ArpOperationCode::InarpReply => 9,
        }
    }

    /// The value that a number stands for, if any.
    pub open spec fn from_code(value: u16) -> Option<ArpOperationCode> {
        if value == 0 {
            Some(ArpOperationCode::Reserved)
        } else if value == 1 {
            Some(ArpOperationCode::Request)
        } else if value == 2 {
            Some(ArpOperationCode::Reply)
        } else if value == 3 {
            Some(ArpOperationCode::ReverseRequest)
        } else if value == 4 {
            Some(ArpOperationCode::ReverseReply)
        } else if value == 5 {
            Some(ArpOperationCode::DrarpRequest)
        } else if value == 6 {
            Some(ArpOperationCode::DrarpReply)
        } else if value == 7 {
            Some(ArpOperationCode::DrarpError)
        } else if value == 8 {
            Some(ArpOperationCode::InarpRequest)
        } else if value == 9 {
            Some(ArpOperationCode::InarpReply)
        } else {
            None
        }
    }

    /// The number that stands for this value on the wire.
    pub fn as_u16(&self) -> (v: u16)
        ensures
            v == self.code(),
    {
        match self {
            ArpOperationCode::Reserved => 0,
            ArpOperationCode::Request => 1,
            ArpOperationCode::Reply => 2,
            ArpOperationCode::ReverseRequest => 3,
            ArpOperationCode::ReverseReply => 4,
            ArpOperationCode::DrarpRequest => 5,
            ArpOperationCode::DrarpReply => 6,
            ArpOperationCode::DrarpError => 7,
            ArpOperationCode::InarpRequest => 8,
            ArpOperationCode::InarpReply => 9,
        }
    }

    /// The value that a number stands for, or `UnknownValue` with the number.
    pub fn try_from(value: u16) -> (r: Result<ArpOperationCode, ArpEnumConvertError>)
        ensures
            r == ArpOperationCode::try_from_code(value),
    {
        match value {
            0 => Ok(ArpOperationCode::Reserved),
            1 => Ok(ArpOperationCode::Request),
            2 => Ok(ArpOperationCode::Reply),
            3 => Ok(ArpOperationCode::ReverseRequest),
            4 => Ok(ArpOperationCode::ReverseReply),
            5 => Ok(ArpOperationCode::DrarpRequest),
            6 => Ok(ArpOperationCode::DrarpReply),
            7 => Ok(ArpOperationCode::DrarpError),
            8 => Ok(ArpOperationCode::InarpRequest),
            9 => Ok(ArpOperationCode::InarpReply),
            _ => Err(ArpEnumConvertError::UnknownValue(value)),
        }
    }

    /// `from_code` as a result, with the number in the error.
    pub open spec fn try_from_code(value: u16) -> Result<ArpOperationCode, ArpEnumConvertError> {
        match ArpOperationCode::from_code(value) {
            Some(t) => Ok(t),
            None => Err(ArpEnumConvertError::UnknownValue(value)),
        }
    }

    /// A value's number stands for that value.
    pub proof fn law_code_roundtrip(self)
        ensures
            ArpOperationCode::from_code(self.code()) == Some(self),
    {
    }

    /// A number stands for at most one value, and that value's number is it.
    pub proof fn law_from_code_exact(value: u16)
        ensures
            ArpOperationCode::from_code(value) matches Some(t) ==> t.code() == value,
    {
    }
}

impl TryFrom<u16> for ArpOperationCode {
    type Error = ArpEnumConvertError;

    fn try_from(value: u16) -> (r: Result<ArpOperationCode, ArpEnumConvertError>) {
        ArpOperationCode::try_from(value)
    }
}

impl vstd::std_specs::convert::TryFromSpecImpl<u16> for ArpOperationCode {
    open spec fn obeys_try_from_spec() -> bool {
        true
    }

    open spec fn try_from_spec(v: u16) -> Result<ArpOperationCode, ArpEnumConvertError> {
        ArpOperationCode::try_from_code(v)
    }
}

/// Protocol type values as defined by the IANA EtherType registry.
#[derive(Debug, Clone, Copy, PartialEq, Eq, Structural)]
pub enum ArpProtocolType {
    /// Unspecified
    Reserved,
    /// Internet Protocol version 4 (IPv4)
    Ipv4,
    /// Address Resolution Protocol (ARP)
    Arp,
    /// Wake-on-LAN
    WakeOnLan,
    /// Reverse Address Resolution Protocol (RARP)
    Rarp,
    /// AppleTalk
    AppleTalk,
    /// AppleTalk Address Resolution Protocol (AARP)
    Aarp,
    /// Internet Protocol version 6 (IPv6)
    Ipv6,
}

impl ArpProtocolType {
    /// The number that stands for this value on the wire.
    pub open spec fn code(self) -> u16 {
        match self {
            ArpProtocolType::Reserved => 0,
            ArpProtocolType::Ipv4 => 0x0800,
            ArpProtocolType::Arp => 0x0806,
            ArpProtocolType::WakeOnLan => 0x0842,
            ArpProtocolType::Rarp => 0x8035,
            ArpProtocolType::AppleTalk => 0x809B,
            ArpProtocolType::Aarp => 0x80F3,
            ArpProtocolType::Ipv6 => 0x86DD,
        }
    }

    /// The value that a number stands for, if any.
    pub open spec fn from_code(value: u16) -> Option<ArpProtocolType> {
        if value == 0 {
            Some(ArpProtocolType::Reserved)
        } else if value == 0x0800 {
            Some(ArpProtocolType::Ipv4)
        } else if value == 0x0806 {
            Some(ArpProtocolType::Arp)
        } else if value == 0x0842 {
            Some(ArpProtocolType::WakeOnLan)
        } else if value == 0x8035 {
            Some(ArpProtocolType::Rarp)
        } else if value == 0x809B {
            Some(ArpProtocolType::AppleTalk)
        } else if value == 0x80F3 {
            Some(ArpProtocolType::Aarp)
        } else if value == 0x86DD {
            Some(ArpProtocolType::Ipv6)
        } else {
            None
        }
    }

    /// The number that stands for this value on the wire.
    pub fn as_u16(&self) -> (v: u16)
        ensures
            v == self.code(),
    {
        match self {
            ArpProtocolType::Reserved => 0,
            ArpProtocolType::Ipv4 => 0x0800,
            ArpProtocolType::Arp => 0x0806,
            ArpProtocolType::WakeOnLan => 0x0842,
            ArpProtocolType::Rarp => 0x8035,
            ArpProtocolType::AppleTalk => 0x809B,
            ArpProtocolType::Aarp => 0x80F3,
            ArpProtocolType::Ipv6 => 0x86DD,
        }
    }

    /// The value that a number stands for, or `UnknownValue` with the number.
    pub fn try_from(value: u16) -> (r: Result<ArpProtocolType, ArpEnumConvertError>)
        ensures
            r == ArpProtocolType::try_from_code(value),
    {
        match value {
            0 => Ok(ArpProtocolType::Reserved),
            0x0800 => Ok(ArpProtocolType::Ipv4),
            0x0806 => Ok(ArpProtocolType::Arp),
            0x0842 => Ok(ArpProtocolType::WakeOnLan),
            0x8035 => Ok(ArpProtocolType::Rarp),
            0x809B => Ok(ArpProtocolType::AppleTalk),
            0x80F3 => Ok(ArpProtocolType::Aarp),
            0x86DD => Ok(ArpProtocolType::Ipv6),
            _ => Err(ArpEnumConvertError::UnknownValue(value)),
        }
    }

    /// `from_code` as a result, with the number in the error.
    pub open spec fn try_from_code(value: u16) -> Result<ArpProtocolType, ArpEnumConvertError> {
        match ArpProtocolType::from_code(value) {
            Some(t) => Ok(t),
            None => Err(ArpEnumConvertError::UnknownValue(value)),
        }
    }

    /// A value's number stands for that value.
    pub proof fn law_code_roundtrip(self)
        ensures
            ArpProtocolType::from_code(self.code()) == Some(self),
    {
    }

    /// A number stands for at most one value, and that value's number is it.
    pub proof fn law_from_code_exact(value: u16)
        ensures
            ArpProtocolType::from_code(value) matches Some(t) ==> t.code() == value,
    {
    }
}

impl TryFrom<u16> for ArpProtocolType {
    type Error = ArpEnumConvertError;

    fn try_from(value: u16) -> (r: Result<ArpProtocolType, ArpEnumConvertError>) {
        ArpProtocolType::try_from(value)
    }
}

impl vstd::std_specs::convert::TryFromSpecImpl<u16> for ArpProtocolType {
    open spec fn obeys_try_from_spec() -> bool {
        true
    }

    open spec fn try_from_spec(v: u16) -> Result<ArpProtocolType, ArpEnumConvertError> {
        ArpProtocolType::try_from_code(v)
    }
}

/// The IANA ARP hardware type numbers.
/// Each value is written as, and read back from, exactly this number.
pub proof fn law_hardware_type_registry()
    ensures
        ArpHardwareType::Reserved.code() == 0,
        ArpHardwareType::Ethernet.code() == 1,
        ArpHardwareType::ExperimentalEthernet.code() == 2,
        ArpHardwareType::AmateurRadioAx25.code() == 3,
        ArpHardwareType::ProteonProNetTokenRing.code() == 4,
        ArpHardwareType::Chaos.code() == 5,
        ArpHardwareType::Ieee802Networks.code() == 6,
        ArpHardwareType::Arcnet.code() == 7,
        ArpHardwareType::Hyperchannel.code() == 8,
        ArpHardwareType::Lanstar.code() == 9,
        ArpHardwareType::AutonetShortAddress.code() == 10,
        ArpHardwareType::LocalTalk.code() == 11,
        ArpHardwareType::LocalNet.code() == 12,
        ArpHardwareType::UltraLink.code() == 13,
        ArpHardwareType::Smds.code() == 14,
        ArpHardwareType::FrameRelay.code() == 15,
        ArpHardwareType::Atm.code() == 16,
        ArpHardwareType::Hdlc.code() == 17,
        ArpHardwareType::FibreChannel.code() == 18,
        ArpHardwareType::SerialLine.code() == 20,
        ArpHardwareType::try_from_code(0) == Ok::<ArpHardwareType, ArpEnumConvertError>(ArpHardwareType::Reserved),
        ArpHardwareType::try_from_code(1) == Ok::<ArpHardwareType, ArpEnumConvertError>(ArpHardwareType::Ethernet),
        ArpHardwareType::try_from_code(2) == Ok::<ArpHardwareType, ArpEnumConvertError>(ArpHardwareType::ExperimentalEthernet),
        ArpHardwareType::try_from_code(3) == Ok::<ArpHardwareType, ArpEnumConvertError>(ArpHardwareType::AmateurRadioAx25),
        ArpHardwareType::try_from_code(4) == Ok::<ArpHardwareType, ArpEnumConvertError>(ArpHardwareType::ProteonProNetTokenRing),
        ArpHardwareType::try_from_code(5) == Ok::<ArpHardwareType, ArpEnumConvertError>(ArpHardwareType::Chaos),
        ArpHardwareType::try_from_code(6) == Ok::<ArpHardwareType, ArpEnumConvertError>(ArpHardwareType::Ieee802Networks),
        ArpHardwareType::try_from_code(7) == Ok::<ArpHardwareType, ArpEnumConvertError>(ArpHardwareType::Arcnet),
        ArpHardwareType::try_from_code(8) == Ok::<ArpHardwareType, ArpEnumConvertError>(ArpHardwareType::Hyperchannel),
        ArpHardwareType::try_from_code(9) == Ok::<ArpHardwareType, ArpEnumConvertError>(ArpHardwareType::Lanstar),
        ArpHardwareType::try_from_code(10) == Ok::<ArpHardwareType, ArpEnumConvertError>(ArpHardwareType::AutonetShortAddress),
        ArpHardwareType::try_from_code(11) == Ok::<ArpHardwareType, ArpEnumConvertError>(ArpHardwareType::LocalTalk),
        ArpHardwareType::try_from_code(12) == Ok::<ArpHardwareType, ArpEnumConvertError>(ArpHardwareType::LocalNet),
        ArpHardwareType::try_from_code(13) == Ok::<ArpHardwareType, ArpEnumConvertError>(ArpHardwareType::UltraLink),
        ArpHardwareType::try_from_code(14) == Ok::<ArpHardwareType, ArpEnumConvertError>(ArpHardwareType::Smds),
        ArpHardwareType::try_from_code(15) == Ok::<ArpHardwareType, ArpEnumConvertError>(ArpHardwareType::FrameRelay),
        ArpHardwareType::try_from_code(16) == Ok::<ArpHardwareType, ArpEnumConvertError>(ArpHardwareType::Atm),
        ArpHardwareType::try_from_code(17) == Ok::<ArpHardwareType, ArpEnumConvertError>(ArpHardwareType::Hdlc),
        ArpHardwareType::try_from_code(18) == Ok::<ArpHardwareType, ArpEnumConvertError>(ArpHardwareType::FibreChannel),
        ArpHardwareType::try_from_code(20) == Ok::<ArpHardwareType, ArpEnumConvertError>(ArpHardwareType::SerialLine),
{
}

/// The ARP operation codes of RFC 826, RFC 903 (reverse ARP), RFC 1931
/// (dynamic RARP) and RFC 2390 (inverse ARP).
/// Each value is written as, and read back from, exactly this number.
pub proof fn law_operation_code_registry()
    ensures
        ArpOperationCode::Reserved.code() == 0,
        ArpOperationCode::Request.code() == 1,
        ArpOperationCode::Reply.code() == 2,
        ArpOperationCode::ReverseRequest.code() == 3,
        ArpOperationCode::ReverseReply.code() == 4,
        ArpOperationCode::DrarpRequest.code() == 5,
        ArpOperationCode::DrarpReply.code() == 6,
        ArpOperationCode::DrarpError.code() == 7,
        ArpOperationCode::InarpRequest.code() == 8,
        ArpOperationCode::InarpReply.code() == 9,
        ArpOperationCode::try_from_code(0) == Ok::<ArpOperationCode, ArpEnumConvertError>(ArpOperationCode::Reserved),
        ArpOperationCode::try_from_code(1) == Ok::<ArpOperationCode, ArpEnumConvertError>(ArpOperationCode::Request),
        ArpOperationCode::try_from_code(2) == Ok::<ArpOperationCode, ArpEnumConvertError>(ArpOperationCode::Reply),
        ArpOperationCode::try_from_code(3) == Ok::<ArpOperationCode, ArpEnumConvertError>(ArpOperationCode::ReverseRequest),
        ArpOperationCode::try_from_code(4) == Ok::<ArpOperationCode, ArpEnumConvertError>(ArpOperationCode::ReverseReply),
        ArpOperationCode::try_from_code(5) == Ok::<ArpOperationCode, ArpEnumConvertError>(ArpOperationCode::DrarpRequest),
        ArpOperationCode::try_from_code(6) == Ok::<ArpOperationCode, ArpEnumConvertError>(ArpOperationCode::DrarpReply),
        ArpOperationCode::try_from_code(7) == Ok::<ArpOperationCode, ArpEnumConvertError>(ArpOperationCode::DrarpError),
        ArpOperationCode::try_from_code(8) == Ok::<ArpOperationCode, ArpEnumConvertError>(ArpOperationCode::InarpRequest),
        ArpOperationCode::try_from_code(9) == Ok::<ArpOperationCode, ArpEnumConvertError>(ArpOperationCode::InarpReply),
{
}

/// The IANA EtherType numbers of the protocol types.
/// Each value is written as, and read back from, exactly this number.
pub proof fn law_protocol_type_registry()
    ensures
        ArpProtocolType::Reserved.code() == 0,
        ArpProtocolType::Ipv4.code() == 0x0800,
        ArpProtocolType::Arp.code() == 0x0806,
        ArpProtocolType::WakeOnLan.code() == 0x0842,
        ArpProtocolType::Rarp.code() == 0x8035,
        ArpProtocolType::AppleTalk.code() == 0x809B,
        ArpProtocolType::Aarp.code() == 0x80F3,
        ArpProtocolType::Ipv6.code() == 0x86DD,
        ArpProtocolType::try_from_code(0) == Ok::<ArpProtocolType, ArpEnumConvertError>(ArpProtocolType::Reserved),
        ArpProtocolType::try_from_code(0x0800) == Ok::<ArpProtocolType, ArpEnumConvertError>(ArpProtocolType::Ipv4),
        ArpProtocolType::try_from_code(0x0806) == Ok::<ArpProtocolType, ArpEnumConvertError>(ArpProtocolType::Arp),
        ArpProtocolType::try_from_code(0x0842) == Ok::<ArpProtocolType, ArpEnumConvertError>(ArpProtocolType::WakeOnLan),
        ArpProtocolType::try_from_code(0x8035) == Ok::<ArpProtocolType, ArpEnumConvertError>(ArpProtocolType::Rarp),
        ArpProtocolType::try_from_code(0x809B) == Ok::<ArpProtocolType, ArpEnumConvertError>(ArpProtocolType::AppleTalk),
        ArpProtocolType::try_from_code(0x80F3) == Ok::<ArpProtocolType, ArpEnumConvertError>(ArpProtocolType::Aarp),
        ArpProtocolType::try_from_code(0x86DD) == Ok::<ArpProtocolType, ArpEnumConvertError>(ArpProtocolType::Ipv6),
{
}

} // verus!

//! Packets: ARP packets, Ethernet frames and the trait for frame payloads.
mod arp_enums;
mod arp_packet;
mod ethernet_frame;
mod packet_trait;

pub use arp_enums::{ArpEnumConvertError, ArpHardwareType, ArpOperationCode, ArpProtocolType};
pub use arp_packet::{
    arp_bytes, arp_parse, arp_parse_error, be16, be16_value, law_arp_bytes_injective,
    law_arp_roundtrip, ArpPacket, ArpPacketConvertError,
};
pub use ethernet_frame::EthernetFrame;
pub use packet_trait::Packet;

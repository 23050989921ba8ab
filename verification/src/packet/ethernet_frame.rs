use vstd::prelude::*;

use crate::mac_address::MacAddress;
use crate::packet::packet_trait::Packet;

verus! {

/// An Ethernet frame: source and destination MAC addresses and a payload.
pub struct EthernetFrame<P: Packet> {
    pub source_mac: MacAddress,
    pub destination_mac: MacAddress,
    pub payload_packet: P,
}

impl<P: Packet> EthernetFrame<P> {
    /// Construct a frame from its addresses and payload.
    pub fn new(source_mac: MacAddress, destination_mac: MacAddress, payload_packet: P) -> (f: Self)
        ensures
            f.source_mac == source_mac,
            f.destination_mac == destination_mac,
            f.payload_packet == payload_packet,
    {
        EthernetFrame { source_mac, destination_mac, payload_packet }
    }
}

} // verus!

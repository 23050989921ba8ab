use vstd::prelude::*;

verus! {

/// A payload that an Ethernet frame can carry: it can be read from bytes and
/// names its EtherType.
pub trait Packet: TryFrom<Vec<u8>> {
    /// The EtherType of this payload.
    fn ether_type(&self) -> u16;
}

} // verus!

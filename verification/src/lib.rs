//! Raw network building blocks: MAC addresses, interface names, ARP packets,
//! Ethernet frames, and the plain-value side of packet and local sockets.
pub mod ethernet_address;
pub mod mac_address;
pub mod packet;
pub mod socket;
pub mod text;

pub use mac_address::MacAddress;
pub use mac_address::ParseMacAddressError;

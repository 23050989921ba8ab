use vstd::prelude::*;

use crate::mac_address::{mac_text, MacAddress};
use crate::text::{chars_of, contains_char};
use vstd::string::StringExecFns;

verus! {

/// The error type for parsing interface names.
#[derive(Debug, Clone, Copy, PartialEq, Eq, Structural)]
pub enum ParseInterfaceError {
    /// The name is longer than 15 characters.
    InvalidLength,
    /// The name contains a space.
    ContainsSpace,
    /// The name contains a slash (`/`).
    ContainsSlash,
    /// The name contains a colon (`:`).
    ContainsColon,
}

/// Why a text is no interface name, checked in this order: more than 15
/// characters, then a space, then a `/`, then a `:`; `None` if it is one.
pub open spec fn interface_name_error(s: Seq<char>) -> Option<ParseInterfaceError> {
    if s.len() > 15 {
        Some(ParseInterfaceError::InvalidLength)
    } else if s.contains(' ') {
        Some(ParseInterfaceError::ContainsSpace)
    } else if s.contains('/') {
        Some(ParseInterfaceError::ContainsSlash)
    } else if s.contains(':') {
        Some(ParseInterfaceError::ContainsColon)
    } else {
        None
    }
}

/// A text is an interface name exactly when it has at most 15 characters and
/// none of them is a space, `/` or `:`; each error names a rule that the text
/// breaks, and every earlier rule in the order length, space, slash, colon holds.
pub proof fn law_interface_name_rules(s: Seq<char>)
    ensures
        interface_name_error(s) is None <==> (s.len() <= 15 && !s.contains(' ') && !s.contains('/')
            && !s.contains(':')),
        interface_name_error(s) == Some(ParseInterfaceError::InvalidLength) <==> s.len() > 15,
        interface_name_error(s) == Some(ParseInterfaceError::ContainsSpace) <==> (s.len() <= 15
            && s.contains(' ')),
        interface_name_error(s) == Some(ParseInterfaceError::ContainsSlash) <==> (s.len() <= 15
            && !s.contains(' ') && s.contains('/')),
        interface_name_error(s) == Some(ParseInterfaceError::ContainsColon) <==> (s.len() <= 15
            && !s.contains(' ') && !s.contains('/') && s.contains(':')),
{
}

/// The name of a network interface: at most 15 characters, with no space, `/` or `:`.
#[derive(Debug, PartialEq, Eq, Hash)]
pub struct Interface(String);

impl Clone for Interface {
    fn clone(&self) -> (r: Self)
        ensures
            r@ == self@,
    {
        proof {
            use_type_invariant(self);
        }
        Interface(self.0.clone())
    }
}

impl Interface {
    /// A name held by an `Interface` is a valid interface name.
    #[verifier::type_invariant]
    spec fn name_is_valid(self) -> bool {
        interface_name_error(self.0@) is None
    }
}

impl View for Interface {
    type V = Seq<char>;

    /// The characters of the name.
    closed spec fn view(&self) -> Seq<char> {
        self.0@
    }
}

impl Interface {
    /// Return a reference to the interface name.
    pub fn as_str(&self) -> (s: &str)
        ensures
            s@ == self@,
            interface_name_error(s@) is None,
    {
        proof {
            use_type_invariant(self);
        }
        self.0.as_str()
    }

    /// The name itself (the `Display` form).
    pub fn to_string(&self) -> (s: String)
        ensures
            s@ == self@,
    {
        self.0.clone()
    }

    /// Parses an interface name: at most 15 characters, with no space, `/` or `:`.
    pub fn from_str(s: &str) -> (r: Result<Interface, ParseInterfaceError>)
        ensures
            r matches Ok(i) ==> interface_name_error(s@) is None && i@ == s@,
            r matches Err(e) ==> interface_name_error(s@) == Some(e),
    {
        let chars = chars_of(s);
        if chars.len() > 15 {
            return Err(ParseInterfaceError::InvalidLength);
        }
        if contains_char(&chars, ' ') {
            Err(ParseInterfaceError::ContainsSpace)
        } else if contains_char(&chars, '/') {
            Err(ParseInterfaceError::ContainsSlash)
        } else if contains_char(&chars, ':') {
            Err(ParseInterfaceError::ContainsColon)
        } else {
            Ok(Interface(s.to_owned()))
        }
    }
}

impl std::str::FromStr for Interface {
    type Err = ParseInterfaceError;

    /// Parses an interface name, as `Interface::from_str` does.
    fn from_str(s: &str) -> (r: Result<Interface, ParseInterfaceError>)
        ensures
            r matches Ok(i) ==> interface_name_error(s@) is None && i@ == s@,
            r matches Err(e) ==> interface_name_error(s@) == Some(e),
    {
        Interface::from_str(s)
    }
}

/// A MAC address together with the interface that it is reached through,
/// as packet sockets address raw Ethernet frames.
#[derive(Debug, Clone, PartialEq, Eq, Hash)]
pub struct EthernetAddress {
    pub mac_address: MacAddress,
    pub interface: Interface,
}

/// The `Display` form of an Ethernet address.
pub open spec fn ethernet_address_text(mac: Seq<u8>, interface: Seq<char>) -> Seq<char> {
    "Ethernet Interface Name: "@ + interface + "Ethernet MAC Address: "@ + mac_text(mac)
}

impl EthernetAddress {
    /// Construct a new Ethernet address from a MAC address and an interface.
    pub fn new(mac_address: MacAddress, interface: Interface) -> (e: Self)
        ensures
            e.mac_address == mac_address,
            e.interface == interface,
    {
        EthernetAddress { mac_address, interface }
    }

    /// The interface name and the MAC address, each after its label.
    pub fn to_string(&self) -> (s: String)
        ensures
            s@ == ethernet_address_text(self.mac_address@, self.interface@),
    {
        let mut s = String::new();
        s.append("Ethernet Interface Name: ");
        s.append(self.interface.as_str());
        s.append("Ethernet MAC Address: ");
        let mac = self.mac_address.to_string();
        s.append(mac.as_str());
        s
    }
}

} // verus!

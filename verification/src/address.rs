//! Addresses of MQTT servers.

use vstd::prelude::*;

verus! {

/// An IPv4 address.
#[derive(Debug, Clone, Copy, PartialEq, Eq)]
pub struct Ipv4Address {
    /// The four bytes of the address, in the order in which it is written.
    pub octets: [u8; 4],
}

} // verus!

//! Aether: the network interfaces of the networking stack.
pub mod udp;

use vstd::prelude::*;

verus! {

/// Represents a network interface.
#[derive(Debug, Clone, Copy)]
pub struct NetworkInterface {
    /// Interface name.
    pub name: &'static str,
    /// IPv4 address.
    pub ip_addr: [u8; 4],
}

/// The interface brought up by the networking stack: eth0 at 192.168.1.10.
pub fn init() -> (i: NetworkInterface)
    ensures
        i.name@ == "eth0"@,
        i.ip_addr@ == seq![192u8, 168, 1, 10],
{
    NetworkInterface { name: "eth0", ip_addr: [192, 168, 1, 10] }
}

} // verus!

//! Aether: recognition of incoming frames and the UDP packet type.
use vstd::prelude::*;

verus! {

/// A simple UDP packet.
#[derive(Debug)]
pub struct UdpPacket {
    /// Source port.
    pub src_port: u16,
    /// Destination port.
    pub dst_port: u16,
    /// Payload bytes.
    pub payload: Vec<u8>,
}

/// What an incoming packet is recognised as, by its length.
#[derive(Debug, Clone, Copy, PartialEq, Eq, Structural)]
pub enum PacketKind {
    /// Too short to hold an IPv4 header (at most 20 bytes).
    Unrecognized,
    /// Holds an IPv4 payload (more than 20 bytes).
    Ipv4,
    /// Holds an IPv4 payload and a UDP datagram (more than 28 bytes).
    Ipv4Udp,
}

/// Recognises an incoming packet: IPv4 beyond 20 bytes, UDP beyond 28.
pub fn process_packet(data: &[u8]) -> (k: PacketKind)
    ensures
        data@.len() <= 20 ==> k == PacketKind::Unrecognized,
        20 < data@.len() <= 28 ==> k == PacketKind::Ipv4,
        28 < data@.len() ==> k == PacketKind::Ipv4Udp,
{
    if data.len() > 28 {
        PacketKind::Ipv4Udp
    } else if data.len() > 20 {
        PacketKind::Ipv4
    } else {
        PacketKind::Unrecognized
    }
}

} // verus!

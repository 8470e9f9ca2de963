//! The decision core of a local traffic engine: packet checks and rewriting,
//! network probes and their verdicts, proxy and tunnel protocols. Everything
//! here is pure computation; sockets, drivers and timers live outside and
//! hand plain values in.

pub mod base64;
pub mod checksum;
pub mod engine;
pub mod infra;
pub mod ip;
pub mod packet_engine;
pub mod packet_invariants;
pub mod probe;
pub mod proxy;
pub mod text;
pub mod wire;

use vstd::prelude::*;

verus! {

/// The transport protocol of a packet.
#[derive(Debug, Clone, Copy, PartialEq, Eq, Structural, Hash)]
pub enum Protocol {
    Tcp,
    Udp,
    Icmp,
    Unknown,
}

impl Protocol {
    /// The protocol that an IP header's protocol number stands for.
    pub fn from_ip_protocol(proto: u8) -> (r: Protocol)
        ensures
            r == (if proto == 6 {
                Protocol::Tcp
            } else if proto == 17 {
                Protocol::Udp
            } else if proto == 1 {
                Protocol::Icmp
            } else {
                Protocol::Unknown
            }),
    {
        match proto {
            6 => Protocol::Tcp,
            17 => Protocol::Udp,
            1 => Protocol::Icmp,
            _ => Protocol::Unknown,
        }
    }
}

/// What becomes of a packet.
#[derive(Debug)]
pub enum PacketAction {
    /// The packet goes on as it is.
    Forward,
    /// The packet is discarded.
    Drop,
    /// This packet goes on in its place.
    Modify(Vec<u8>),
    /// These packets are sent besides it.
    Inject(Vec<Vec<u8>>),
    /// One packet goes in its place and others besides it.
    ModifyAndInject { modified: Vec<u8>, inject: Vec<Vec<u8>> },
}

} // verus!

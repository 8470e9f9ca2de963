//! Keeping the packets of one connection together.
//!
//! Both directions of a connection have one key, and a key always goes to the
//! same worker.
use vstd::prelude::*;

use std::hash::BuildHasher;

use crate::engine::packet::{five_tuple, read_five_tuple};
use crate::ip::IpAddress;
use crate::wire::copy_range;

verus! {

/// Both ends of a connection, the lower one first, and the protocol.
#[derive(Debug, Clone, Copy, PartialEq, Eq, Structural, Hash)]
pub struct FlowKey {
    pub ip_a: IpAddress,
    pub ip_b: IpAddress,
    pub port_a: u16,
    pub port_b: u16,
    pub proto: u8,
}

/// One end of a connection, by address and port.
#[derive(Debug, Clone, Copy, PartialEq, Eq, Structural, Hash)]
pub struct ConnKey {
    pub src_ip: IpAddress,
    pub dst_ip: IpAddress,
    pub src_port: u16,
    pub dst_port: u16,
    pub proto: u8,
}

impl ConnKey {
    /// The key of one direction of a connection.
    pub fn new(
        src_ip: IpAddress,
        dst_ip: IpAddress,
        src_port: u16,
        dst_port: u16,
        proto: u8,
    ) -> (r: ConnKey)
        ensures
            r == (ConnKey { src_ip, dst_ip, src_port, dst_port, proto }),
    {
        ConnKey { src_ip, dst_ip, src_port, dst_port, proto }
    }
}

/// The place of an address in the order of addresses: IPv4 before IPv6, then
/// by number.
pub open spec fn address_rank(ip: IpAddress) -> int {
    match ip {
        IpAddress::V4(a) => a as int,
        IpAddress::V6(a) => 0x1_0000_0000 + a,
    }
}

/// Whether one end comes before another: by address, then by port.
pub open spec fn end_before(ip: IpAddress, port: u16, ip2: IpAddress, port2: u16) -> bool {
    address_rank(ip) < address_rank(ip2) || (ip == ip2 && port <= port2)
}

fn address_before(a: IpAddress, b: IpAddress) -> (r: bool)
    ensures
        r == (address_rank(a) < address_rank(b)),
{
    match (a, b) {
        (IpAddress::V4(x), IpAddress::V4(y)) => x < y,
        (IpAddress::V4(_), IpAddress::V6(_)) => true,
        (IpAddress::V6(_), IpAddress::V4(_)) => false,
        (IpAddress::V6(x), IpAddress::V6(y)) => x < y,
    }
}

/// The key of a connection, whichever way it is looked at.
pub open spec fn flow_key(
    src_ip: IpAddress,
    dst_ip: IpAddress,
    src_port: u16,
    dst_port: u16,
    proto: u8,
) -> FlowKey {
    if end_before(src_ip, src_port, dst_ip, dst_port) {
        FlowKey { ip_a: src_ip, ip_b: dst_ip, port_a: src_port, port_b: dst_port, proto }
    } else {
        FlowKey { ip_a: dst_ip, ip_b: src_ip, port_a: dst_port, port_b: src_port, proto }
    }
}

impl FlowKey {
    /// The key of a connection, whichever way it is looked at.
    pub fn new_bidirectional(
        src_ip: IpAddress,
        dst_ip: IpAddress,
        src_port: u16,
        dst_port: u16,
        proto: u8,
    ) -> (r: FlowKey)
        ensures
            r == flow_key(src_ip, dst_ip, src_port, dst_port, proto),
    {
        if address_before(src_ip, dst_ip) || (src_ip == dst_ip && src_port <= dst_port) {
            FlowKey { ip_a: src_ip, ip_b: dst_ip, port_a: src_port, port_b: dst_port, proto }
        } else {
            FlowKey { ip_a: dst_ip, ip_b: src_ip, port_a: dst_port, port_b: src_port, proto }
        }
    }
}

/// The key of the connection that a packet belongs to.
pub open spec fn packet_flow(p: Seq<u8>) -> Option<FlowKey> {
    match five_tuple(p) {
        Some((src_ip, dst_ip, src_port, dst_port, proto)) => Some(
            flow_key(src_ip, dst_ip, src_port, dst_port, proto),
        ),
        None => None,
    }
}

/// The key of the connection that a packet belongs to; none where the packet
/// is truncated or neither TCP nor UDP.
pub fn classify_flow_key(packet: &[u8]) -> (r: Option<FlowKey>)
    ensures
        r == packet_flow(packet@),
{
    match read_five_tuple(packet) {
        Some((src_ip, dst_ip, src_port, dst_port, proto)) => Some(
            FlowKey::new_bidirectional(src_ip, dst_ip, src_port, dst_port, proto),
        ),
        None => None,
    }
}

/// What `fx_hash` makes of numbers, on a machine with pointers of `bits` bits.
pub uninterp spec fn fx_hash_of(
    bits: u32,
    versions: (bool, bool),
    addresses: (u128, u128),
    ports: (u16, u16),
    proto: u8,
) -> u64;

/// `rustc_hash::FxBuildHasher`, by `hash_one`: the hash of some numbers. It
/// has no seed, and steps through the numbers pointer-wide.
#[verifier::external_body]
fn fx_hash(versions: (bool, bool), addresses: (u128, u128), ports: (u16, u16), proto: u8) -> (r:
    u64)
    ensures
        r == fx_hash_of(usize::BITS, versions, addresses, ports, proto),
{
    rustc_hash::FxBuildHasher.hash_one((versions, addresses, ports, proto))
}

/// `rustc_hash::FxBuildHasher`, by `hash_one`: the hash of a length and some
/// bytes. How bytes are mixed differs from one kind of processor to another,
/// so nothing is said of the result.
#[verifier::external_body]
fn fx_hash_prefix(len: usize, bytes: &[u8]) -> u64 {
    rustc_hash::FxBuildHasher.hash_one((len, bytes))
}

/// Whether an address is IPv4, and its number.
pub open spec fn address_parts(ip: IpAddress) -> (bool, u128) {
    match ip {
        IpAddress::V4(a) => (true, a as u128),
        IpAddress::V6(a) => (false, a),
    }
}

fn split_address(ip: IpAddress) -> (r: (bool, u128))
    ensures
        r == address_parts(ip),
{
    match ip {
        IpAddress::V4(a) => (true, a as u128),
        IpAddress::V6(a) => (false, a),
    }
}

/// The hash of a connection.
pub open spec fn flow_hash(k: FlowKey) -> u64 {
    fx_hash_of(
        usize::BITS,
        (address_parts(k.ip_a).0, address_parts(k.ip_b).0),
        (address_parts(k.ip_a).1, address_parts(k.ip_b).1),
        (k.port_a, k.port_b),
        k.proto,
    )
}

/// The number of workers, at least one.
pub open spec fn workers(shards: usize) -> int {
    if shards == 0 {
        1
    } else {
        shards as int
    }
}

/// The worker that a hash goes to.
pub fn shard_of_hash(hash: u64, shards: usize) -> (r: usize)
    ensures
        r == low_bits(hash) % workers(shards),
        r < workers(shards),
{
    let n: usize = if shards == 0 {
        1
    } else {
        shards
    };
    truncated(hash) % n
}

/// The part of a hash that fits a machine word.
pub open spec fn low_bits(hash: u64) -> int {
    hash as int % (usize::MAX + 1)
}

fn truncated(hash: u64) -> (r: usize)
    ensures
        r == low_bits(hash),
{
    let mask: u64 = usize::MAX as u64;
    if mask == u64::MAX {
        hash as usize
    } else {
        (hash % (mask + 1)) as usize
    }
}

/// What tells a packet of no known connection apart: its first bytes, sixteen
/// at most.
pub open spec fn head_of(packet: Seq<u8>) -> Seq<u8> {
    packet.take(if packet.len() < 16 {
        packet.len() as int
    } else {
        16
    })
}

/// What a packet of no known connection is hashed by: its length and its
/// first bytes, sixteen at most.
pub fn unkeyed_input(packet: &[u8]) -> (r: (usize, Vec<u8>))
    ensures
        r.0 == packet@.len(),
        r.1@ == head_of(packet@),
{
    let n: usize = if packet.len() < 16 {
        packet.len()
    } else {
        16
    };
    (packet.len(), copy_range(packet, 0, n))
}

/// The worker that a packet goes to: known connections by their key, other
/// packets by their length and first sixteen bytes. Which worker the latter
/// go to rests on the machine.
pub fn shard_for_flow(key: Option<FlowKey>, packet: &[u8], shards: usize) -> (r: usize)
    ensures
        r < workers(shards),
        key matches Some(k) ==> r == low_bits(flow_hash(k)) % workers(shards),
{
    let hash: u64 = match key {
        Some(k) => {
            let (a4, a): (bool, u128) = split_address(k.ip_a);
            let (b4, b): (bool, u128) = split_address(k.ip_b);
            fx_hash((a4, b4), (a, b), (k.port_a, k.port_b), k.proto)
        },
        None => {
            let (len, head): (usize, Vec<u8>) = unkeyed_input(packet);
            fx_hash_prefix(len, head.as_slice())
        },
    };
    shard_of_hash(hash, shards)
}

/// Both directions of a connection have the same key.
pub proof fn flow_key_is_bidirectional(
    src_ip: IpAddress,
    dst_ip: IpAddress,
    src_port: u16,
    dst_port: u16,
    proto: u8,
)
    ensures
        flow_key(src_ip, dst_ip, src_port, dst_port, proto) == flow_key(
            dst_ip,
            src_ip,
            dst_port,
            src_port,
            proto,
        ),
{
}

/// A key tells connections apart: equal keys mean the same two ends and the
/// same protocol.
pub proof fn flow_key_is_faithful(a: ConnKey, b: ConnKey)
    requires
        flow_key(a.src_ip, a.dst_ip, a.src_port, a.dst_port, a.proto) == flow_key(
            b.src_ip,
            b.dst_ip,
            b.src_port,
            b.dst_port,
            b.proto,
        ),
    ensures
        a == b || (a.src_ip == b.dst_ip && a.dst_ip == b.src_ip && a.src_port == b.dst_port
            && a.dst_port == b.src_port && a.proto == b.proto),
{
}

/// Two packets of one connection, in either direction, go to the same worker.
pub proof fn one_connection_one_worker(
    p: Seq<u8>,
    q: Seq<u8>,
    src_ip: IpAddress,
    dst_ip: IpAddress,
    src_port: u16,
    dst_port: u16,
    proto: u8,
    shards: usize,
)
    requires
        five_tuple(p) == Some((src_ip, dst_ip, src_port, dst_port, proto)),
        five_tuple(q) == Some((src_ip, dst_ip, src_port, dst_port, proto)) || five_tuple(q) == Some(
            (dst_ip, src_ip, dst_port, src_port, proto),
        ),
    ensures
        packet_flow(p) == packet_flow(q),
        low_bits(flow_hash(packet_flow(p)->0)) % workers(shards) == low_bits(
            flow_hash(packet_flow(q)->0),
        ) % workers(shards),
{
    flow_key_is_bidirectional(src_ip, dst_ip, src_port, dst_port, proto);
}

/// A key holds both ends of the connection, each address with its own port, and
/// the protocol. The lower end comes first: IPv4 before IPv6, then by address,
/// then by port.
pub proof fn keys_hold_both_ends_in_order(
    src_ip: IpAddress,
    dst_ip: IpAddress,
    src_port: u16,
    dst_port: u16,
    proto: u8,
)
    ensures
        ({
            let k = flow_key(src_ip, dst_ip, src_port, dst_port, proto);
            let kept = k.ip_a == src_ip && k.port_a == src_port && k.ip_b == dst_ip && k.port_b
                == dst_port;
            let turned = k.ip_a == dst_ip && k.port_a == dst_port && k.ip_b == src_ip && k.port_b
                == src_port;
            &&& kept || turned
            &&& k.proto == proto
            &&& (src_ip is V4 && dst_ip is V6) ==> kept
            &&& (src_ip is V4 && dst_ip is V4 && src_ip->V4_0 < dst_ip->V4_0) ==> kept
            &&& (src_ip is V4 && dst_ip is V4 && src_ip->V4_0 > dst_ip->V4_0) ==> turned
            &&& (src_ip is V6 && dst_ip is V4) ==> turned
            &&& (src_ip is V6 && dst_ip is V6 && src_ip->V6_0 < dst_ip->V6_0) ==> kept
            &&& (src_ip is V6 && dst_ip is V6 && src_ip->V6_0 > dst_ip->V6_0) ==> turned
            &&& src_ip == dst_ip ==> k.port_a <= k.port_b
        }),
{
}

/// A packet has a key exactly where its ends can be read, and the key is that of
/// those ends.
pub proof fn keys_are_those_of_the_ends(p: Seq<u8>)
    ensures
        packet_flow(p) is Some <==> five_tuple(p) is Some,
        five_tuple(p) matches Some(t) ==> packet_flow(p) == Some(flow_key(t.0, t.1, t.2, t.3, t.4)),
{
}

/// No workers count as one; the numbers of workers that hashes go to are below
/// their count.
pub proof fn there_is_always_a_worker(shards: usize, hash: u64)
    ensures
        workers(0) == 1,
        shards > 0 ==> workers(shards) == shards,
        0 <= low_bits(hash) <= usize::MAX,
        hash <= usize::MAX ==> low_bits(hash) == hash,
        0 <= low_bits(hash) % workers(shards) < workers(shards),
{
    if hash <= usize::MAX {
        vstd::arithmetic::div_mod::lemma_small_mod(hash as nat, (usize::MAX + 1) as nat);
    }
}

/// A packet of no known connection is told by its first bytes: all of them, or
/// sixteen.
pub proof fn packets_are_told_by_sixteen_bytes(p: Seq<u8>, i: int)
    ensures
        p.len() <= 16 ==> head_of(p) == p,
        p.len() >= 16 ==> head_of(p).len() == 16,
        0 <= i < head_of(p).len() ==> head_of(p)[i] == p[i],
{
    if p.len() <= 16 {
        assert(head_of(p) =~= p);
    }
}

/// Addresses of the two versions are told apart, and keep their numbers.
pub proof fn addresses_keep_their_parts(a: u32, b: u128)
    ensures
        address_parts(IpAddress::V4(a)) == (true, a as u128),
        address_parts(IpAddress::V6(b)) == (false, b),
{
}

} // verus!

//! Where a captured packet goes.
//!
//! A packet passes three gates. The first sorts out traffic that is not to be
//! touched, name queries, and traffic of the redirector. The second asks the
//! router. What is left takes the way of its protocol. In between, services
//! outside are asked; their answers come back as plain values.
use vstd::prelude::*;

use crate::engine::latency::one_more;
use crate::engine::locality::{is_outbound_cached, is_quic_initial_check, outbound_from};
use crate::engine::packet::{
    has_syn, is_opening, is_syn, opens_connection, CapturedPacket, Classification, ClassifiedPacket,
    InjectDirection, InjectProtocol, PacketDecision,
};
use crate::engine::stats::{CaptureKind, ProcessingStats};
use crate::ip::{IpAddress, LOCALHOST};
use crate::packet_invariants::initial_header;
use crate::proxy::rewrite::{
    rewritable, rewrite_dst_addr, rewrite_outcome, rewrite_src_addr, End, RewriteError,
};
use crate::proxy::types::{
    has_ip, in_fake_range, first_healthy, FakeIpManager, OperaProxyEntry, OperaProxyPool, Redirect, RedirectEntry,
    RedirectTable,
};
use crate::text::opt_view;
use crate::wire::copy_range;

verus! {

/// The port of the redirector on this machine.
pub const REDIRECTOR_PORT: u16 = 17650;

/// The port of the name service.
pub const DNS_PORT: u16 = 53;

/// The shortest payload that is taken for a whole ClientHello.
pub const MIN_CLIENT_HELLO: usize = 50;

/// What the split tunnel says of a packet.
#[derive(Debug, Clone, Copy, PartialEq, Eq, Structural)]
pub struct Bypass {
    /// The destination address is to be left alone.
    pub ip: bool,
    /// The domain of the destination is known and to be left alone.
    pub domain: bool,
}

/// What the first gate decides.
#[derive(Debug, Clone, Copy, PartialEq, Eq, Structural)]
pub enum EarlyRoute {
    /// The packet goes on.
    Forward,
    /// The query is handed to the resolver, its answer to be sent inbound.
    OffloadDns,
    /// The packet comes back from the redirector: it gets the address that
    /// the client was talking to.
    RewriteSource { ip: IpAddress, port: u16 },
    /// The packet goes to a stand-in address.
    FakeIp(ClassifiedPacket),
    /// The packet opens a connection to one of the upstream proxies.
    ProxyTraffic(ClassifiedPacket),
    /// The router decides.
    AskRouter { cp: ClassifiedPacket, has_name: bool },
    /// The packet takes the way of its protocol.
    Standard,
}

/// Whether a packet is of the kinds that a stand-in address is looked at for.
pub open spec fn carries_tcp_stream(class: Classification) -> bool {
    class is Other || class is Tls || class is Http
}

/// What the first gate decides.
pub open spec fn early_route(
    p: Seq<u8>,
    class: Classification,
    bypass: Bypass,
    table: Map<u16, Redirect>,
    pool: OperaProxyPool,
    local: Seq<IpAddress>,
    only_outbound: bool,
) -> EarlyRoute {
    match class.parts() {
        None => EarlyRoute::Standard,
        Some(cp) => if cp.dst_port != DNS_PORT && cp.src_port != REDIRECTOR_PORT && (bypass.ip
            || bypass.domain) {
            EarlyRoute::Forward
        } else if class is Dns && cp.dst_port == DNS_PORT && cp.protocol == 17 {
            EarlyRoute::OffloadDns
        } else if class is Other && cp.src_port == REDIRECTOR_PORT && table.contains_key(
            cp.dst_port,
        ) {
            EarlyRoute::RewriteSource { ip: table[cp.dst_port].ip, port: table[cp.dst_port].port }
        } else if carries_tcp_stream(class) && cp.protocol == 6 && to_stand_in(cp) {
            EarlyRoute::FakeIp(cp)
        } else if class is Other && cp.protocol == 6 && opens_connection(p) && has_ip(
            pool.proxies@,
            cp.dst_ip,
        ) {
            EarlyRoute::ProxyTraffic(cp)
        } else if !(class is Dns) && (cp.protocol == 6 || cp.protocol == 17) {
            if only_outbound && !outbound_from(local, cp.src_ip) {
                EarlyRoute::Forward
            } else {
                EarlyRoute::AskRouter { cp, has_name: class is Tls || class is Http }
            }
        } else {
            EarlyRoute::Standard
        },
    }
}

/// Whether a packet goes to a stand-in address.
pub open spec fn to_stand_in(cp: ClassifiedPacket) -> bool {
    match cp.dst_ip {
        IpAddress::V4(a) => in_fake_range(a),
        IpAddress::V6(_) => false,
    }
}

fn goes_to_stand_in(cp: &ClassifiedPacket) -> (r: bool)
    ensures
        r == to_stand_in(*cp),
{
    match cp.dst_ip {
        IpAddress::V4(a) => FakeIpManager::is_fake_ip(a),
        IpAddress::V6(_) => false,
    }
}

/// Takes a packet through the first gate.
pub fn route_early(
    packet: &[u8],
    class: &Classification,
    bypass: Bypass,
    table: &RedirectTable,
    pool: &OperaProxyPool,
    local: &Vec<IpAddress>,
    only_outbound: bool,
) -> (r: EarlyRoute)
    ensures
        r == early_route(packet@, *class, bypass, table@, *pool, local@, only_outbound),
{
    let cp: ClassifiedPacket = match class.packet() {
        Some(cp) => cp,
        None => {
            return EarlyRoute::Standard;
        },
    };
    if cp.dst_port != DNS_PORT && cp.src_port != REDIRECTOR_PORT && (bypass.ip || bypass.domain) {
        return EarlyRoute::Forward;
    }
    let is_dns: bool = matches!(class, Classification::Dns(_));
    let is_other: bool = matches!(class, Classification::Other(_));
    let is_tls: bool = matches!(class, Classification::Tls(_));
    let is_http: bool = matches!(class, Classification::Http(_));
    if is_dns && cp.dst_port == DNS_PORT && cp.protocol == 17 {
        return EarlyRoute::OffloadDns;
    }
    if is_other && cp.src_port == REDIRECTOR_PORT {
        if let Some(entry) = table.get(cp.dst_port) {
            return EarlyRoute::RewriteSource { ip: entry.orig_dst_ip, port: entry.orig_dst_port };
        }
    }
    if (is_other || is_tls || is_http) && cp.protocol == 6 && goes_to_stand_in(&cp) {
        return EarlyRoute::FakeIp(cp);
    }
    if is_other && cp.protocol == 6 && is_opening(packet) && pool.is_known_ip(&cp.dst_ip) {
        return EarlyRoute::ProxyTraffic(cp);
    }
    if !is_dns && (cp.protocol == 6 || cp.protocol == 17) {
        if only_outbound && !is_outbound_cached(local, cp.src_ip) {
            return EarlyRoute::Forward;
        }
        return EarlyRoute::AskRouter { cp, has_name: is_tls || is_http };
    }
    EarlyRoute::Standard
}

/// What becomes of a name query: it is discarded where the resolver took it,
/// and goes on where the resolver's queue was full.
pub fn dns_offloaded(accepted: bool, stats: &mut ProcessingStats) -> (r: PacketDecision)
    ensures
        r == (if accepted {
            PacketDecision::Drop
        } else {
            PacketDecision::Forward
        }),
        *final(stats) == (if accepted {
            ProcessingStats { dropped: one_more(old(stats).dropped), ..*old(stats) }
        } else {
            *old(stats)
        }),
{
    if accepted {
        stats.count_dropped();
        PacketDecision::Drop
    } else {
        PacketDecision::Forward
    }
}

/// What the router says.
#[derive(Debug, Clone, Copy, PartialEq, Eq, Structural)]
pub enum RoutingDecision {
    Direct,
    Drop,
    Proxy,
    Desync,
}

/// What the second gate decides.
#[derive(Debug, Clone, Copy, PartialEq, Eq, Structural)]
pub enum Routed {
    /// The packet goes on.
    Forward,
    /// The packet is discarded.
    Drop,
    /// The packet goes through the tunnel, and is discarded here.
    Tunnel,
    /// The connection goes through the redirector.
    Redirect,
    /// The packet takes the way of its protocol.
    Standard,
}

/// What the second gate decides. Datagrams cannot be redirected: they take
/// the tunnel, and where there is none they are discarded, so that the client
/// falls back on TCP.
pub open spec fn routed(decision: RoutingDecision, protocol: u8, tunnel_up: bool) -> Routed {
    match decision {
        RoutingDecision::Direct => Routed::Forward,
        RoutingDecision::Drop => Routed::Drop,
        RoutingDecision::Proxy => if protocol != 17 {
            Routed::Redirect
        } else if tunnel_up {
            Routed::Tunnel
        } else {
            Routed::Drop
        },
        RoutingDecision::Desync => Routed::Standard,
    }
}

/// Takes a packet through the second gate. A packet that is discarded here is
/// counted.
pub fn route(
    decision: RoutingDecision,
    cp: &ClassifiedPacket,
    tunnel_up: bool,
    stats: &mut ProcessingStats,
) -> (r: Routed)
    ensures
        r == routed(decision, cp.protocol, tunnel_up),
        *final(stats) == (if r is Drop || r is Tunnel {
            ProcessingStats { dropped: one_more(old(stats).dropped), ..*old(stats) }
        } else {
            *old(stats)
        }),
{
    match decision {
        RoutingDecision::Direct => Routed::Forward,
        RoutingDecision::Drop => {
            stats.count_dropped();
            Routed::Drop
        },
        RoutingDecision::Proxy => {
            if cp.protocol == 17 {
                stats.count_dropped();
                if tunnel_up {
                    Routed::Tunnel
                } else {
                    Routed::Drop
                }
            } else {
                Routed::Redirect
            }
        },
        RoutingDecision::Desync => Routed::Standard,
    }
}

/// How a packet gets into the tunnel.
#[derive(Debug, Clone, Copy, PartialEq, Eq, Structural)]
pub enum TunnelSend {
    /// The writer's queue took it.
    Queued,
    /// It is sent by itself: there is no writer, or its queue is full.
    Alone,
}

/// How a packet gets into the tunnel, given whether there is a writer and it
/// took the packet.
pub fn tunnel_send(writer_took: Option<bool>) -> (r: TunnelSend)
    ensures
        r == (if writer_took == Some(true) {
            TunnelSend::Queued
        } else {
            TunnelSend::Alone
        }),
{
    match writer_took {
        Some(true) => TunnelSend::Queued,
        _ => TunnelSend::Alone,
    }
}

/// What a region means for the router: some regions are blocked as such.
#[derive(Debug, Clone, Copy, PartialEq, Eq, Structural)]
pub enum GeoRegion {
    Europe,
    UnitedStates,
    Elsewhere,
}

/// Whether a region is blocked as such.
pub fn is_geo_blocked(region: GeoRegion) -> (r: bool)
    ensures
        r == (region is Europe || region is UnitedStates),
{
    matches!(region, GeoRegion::Europe | GeoRegion::UnitedStates)
}

/// The name under which a destination is looked up.
pub fn routing_name<'a>(domain: Option<&'a str>) -> (r: &'a str)
    ensures
        r@ == (match domain {
            Some(d) => d@,
            None => "unknown"@,
        }),
{
    match domain {
        Some(d) => d,
        None => "unknown",
    }
}

/// The way of a packet by its protocol.
#[derive(Debug, Clone, Copy, PartialEq, Eq, Structural)]
pub enum StandardRoute {
    /// The packet goes on.
    Forward,
    /// A whole ClientHello: the connection is asked whether it is new.
    GateTls(ClassifiedPacket),
    /// A part of one: it is put together with the others first.
    ReassembleTls(ClassifiedPacket),
    Quic(ClassifiedPacket),
    Dns(ClassifiedPacket),
    Http(ClassifiedPacket),
    Generic(ClassifiedPacket),
}

/// The way of a packet by its protocol. Packets from elsewhere go on where
/// only outgoing ones are looked at; so does TLS to another port.
pub open spec fn standard_route(
    len: nat,
    class: Classification,
    client_hello: bool,
    local: Seq<IpAddress>,
    only_outbound: bool,
    desync_port: u16,
) -> StandardRoute {
    match class.parts() {
        None => StandardRoute::Forward,
        Some(cp) => if class is Dns {
            StandardRoute::Dns(cp)
        } else if class is Tls && cp.dst_port != desync_port {
            StandardRoute::Forward
        } else if only_outbound && !outbound_from(local, cp.src_ip) {
            StandardRoute::Forward
        } else if class is Tls {
            if cp.payload_offset > len {
                StandardRoute::Forward
            } else if client_hello && len - cp.payload_offset >= MIN_CLIENT_HELLO {
                StandardRoute::GateTls(cp)
            } else {
                StandardRoute::ReassembleTls(cp)
            }
        } else if class is Quic {
            StandardRoute::Quic(cp)
        } else if class is Http {
            StandardRoute::Http(cp)
        } else {
            StandardRoute::Generic(cp)
        },
    }
}

/// Finds the way of a packet by its protocol.
pub fn route_standard(
    packet: &[u8],
    class: &Classification,
    client_hello: bool,
    local: &Vec<IpAddress>,
    only_outbound: bool,
    desync_port: u16,
) -> (r: StandardRoute)
    ensures
        r == standard_route(
            packet@.len(),
            *class,
            client_hello,
            local@,
            only_outbound,
            desync_port,
        ),
{
    match class {
        Classification::Tls(cp) => {
            if cp.dst_port != desync_port {
                return StandardRoute::Forward;
            }
            if only_outbound && !is_outbound_cached(local, cp.src_ip) {
                return StandardRoute::Forward;
            }
            if cp.payload_offset > packet.len() {
                return StandardRoute::Forward;
            }
            if client_hello && packet.len() - cp.payload_offset >= MIN_CLIENT_HELLO {
                StandardRoute::GateTls(*cp)
            } else {
                StandardRoute::ReassembleTls(*cp)
            }
        },
        Classification::Quic(cp) => {
            if only_outbound && !is_outbound_cached(local, cp.src_ip) {
                return StandardRoute::Forward;
            }
            StandardRoute::Quic(*cp)
        },
        Classification::Dns(cp) => StandardRoute::Dns(*cp),
        Classification::Http(cp) => {
            if only_outbound && !is_outbound_cached(local, cp.src_ip) {
                return StandardRoute::Forward;
            }
            StandardRoute::Http(*cp)
        },
        Classification::Other(cp) => {
            if only_outbound && !is_outbound_cached(local, cp.src_ip) {
                return StandardRoute::Forward;
            }
            StandardRoute::Generic(*cp)
        },
        Classification::Unknown => StandardRoute::Forward,
    }
}

/// How far the parts of a ClientHello have been put together.
#[derive(Debug, Clone, Copy, PartialEq, Eq, Structural)]
pub enum ReassemblyState {
    Complete,
    NeedMore,
    NotTls,
    TooLarge,
}

/// What kind of packet was captured, for the counters.
pub open spec fn capture_kind(p: Seq<u8>, class: Classification, client_hello: bool) -> CaptureKind {
    match class {
        Classification::Tls(cp) => if cp.payload_offset <= p.len() && client_hello {
            CaptureKind::ClientHello
        } else {
            CaptureKind::Other
        },
        Classification::Quic(cp) => if cp.payload_offset + 5 <= p.len() && initial_header(
            p.subrange(cp.payload_offset as int, p.len() as int),
        ) {
            CaptureKind::QuicInitial
        } else {
            CaptureKind::Other
        },
        Classification::Dns(_) => CaptureKind::Dns,
        _ => CaptureKind::Other,
    }
}

/// Says what kind of packet was captured.
pub fn kind_of_capture(packet: &[u8], class: &Classification, client_hello: bool) -> (r:
    CaptureKind)
    ensures
        r == capture_kind(packet@, *class, client_hello),
{
    match class {
        Classification::Tls(cp) => if cp.payload_offset <= packet.len() && client_hello {
            CaptureKind::ClientHello
        } else {
            CaptureKind::Other
        },
        Classification::Quic(cp) => {
            if cp.payload_offset <= packet.len() {
                let payload: Vec<u8> = copy_range(packet, cp.payload_offset, packet.len());
                if is_quic_initial_check(payload.as_slice()) {
                    return CaptureKind::QuicInitial;
                }
            }
            CaptureKind::Other
        },
        Classification::Dns(_) => CaptureKind::Dns,
        _ => CaptureKind::Other,
    }
}

/// A captured packet with its source rewritten, on the way back from the
/// redirector.
pub fn return_from_redirector(captured: &CapturedPacket, ip: IpAddress, port: u16) -> (r: Result<
    PacketDecision,
    RewriteError,
>)
    requires
        rewritable(captured.data@, ip),
    ensures
        match rewrite_outcome(captured.data@, End::Source, ip, port) {
            Ok(p) => match r {
                Ok(PacketDecision::Modify(m)) => m@ == p,
                _ => false,
            },
            Err(e) => r == Err::<PacketDecision, RewriteError>(e),
        },
{
    match rewrite_src_addr(captured.data.as_slice(), ip, port) {
        Ok(p) => Ok(PacketDecision::Modify(p)),
        Err(e) => Err(e),
    }
}

/// The entry that is remembered of a redirected connection.
pub open spec fn redirect_of(cp: ClassifiedPacket, domain: Option<Seq<char>>, now: u64) -> Redirect {
    Redirect { ip: cp.dst_ip, port: cp.dst_port, domain, created_us: now }
}

/// What sending a packet to the redirector gives: the packet with its
/// destination rewritten, counted as discarded, or the reason why it could not
/// be rewritten. The table keeps where it was going either way.
pub open spec fn redirected(
    p: Seq<u8>,
    before: ProcessingStats,
    r: Result<PacketDecision, RewriteError>,
    after: ProcessingStats,
) -> bool {
    match rewrite_outcome(p, End::Destination, IpAddress::V4(LOCALHOST), REDIRECTOR_PORT) {
        Ok(q) => {
            &&& match r {
                Ok(PacketDecision::Modify(m)) => m@ == q,
                _ => false,
            }
            &&& after == (ProcessingStats { dropped: one_more(before.dropped), ..before })
        },
        Err(e) => {
            &&& r == Err::<PacketDecision, RewriteError>(e)
            &&& after == before
        },
    }
}

/// Sends a packet to the redirector on this machine, and remembers where it
/// was going.
pub fn redirect_to_proxy(
    captured: &CapturedPacket,
    cp: &ClassifiedPacket,
    domain: Option<String>,
    now_us: u64,
    table: &mut RedirectTable,
    stats: &mut ProcessingStats,
) -> (r: Result<PacketDecision, RewriteError>)
    requires
        rewritable(captured.data@, IpAddress::V4(LOCALHOST)),
    ensures
        final(table)@ == old(table)@.insert(
            cp.src_port,
            redirect_of(*cp, opt_view(domain), now_us),
        ),
        redirected(captured.data@, *old(stats), r, *final(stats)),
{
    table.insert(
        cp.src_port,
        RedirectEntry {
            orig_dst_ip: cp.dst_ip,
            orig_dst_port: cp.dst_port,
            domain,
            created_us: now_us,
        },
    );
    match rewrite_dst_addr(
        captured.data.as_slice(),
        IpAddress::V4(LOCALHOST),
        REDIRECTOR_PORT,
    ) {
        Ok(p) => {
            stats.count_dropped();
            Ok(PacketDecision::Modify(p))
        },
        Err(e) => Err(e),
    }
}

/// Whether some proxy can be used.
pub open spec fn some_proxy(pool: OperaProxyPool, custom_enabled: bool) -> bool {
    custom_enabled || first_healthy(pool.proxies@, 0) is Some
}

/// Whether a packet to a stand-in address is redirected: it opens a connection
/// to a known domain, and some proxy can be used.
pub open spec fn redirects_stand_in(
    p: Seq<u8>,
    domain: Option<Seq<char>>,
    proxy_usable: bool,
) -> bool {
    domain is Some && opens_connection(p) && proxy_usable
}

/// What becomes of a packet to a stand-in address, and of the table and the
/// counters.
pub open spec fn stand_in_outcome(
    p: Seq<u8>,
    cp: ClassifiedPacket,
    domain: Option<Seq<char>>,
    proxy_usable: bool,
    now: u64,
    before: (Map<u16, Redirect>, ProcessingStats),
    r: Result<PacketDecision, RewriteError>,
    after: (Map<u16, Redirect>, ProcessingStats),
) -> bool {
    if redirects_stand_in(p, domain, proxy_usable) {
        &&& after.0 == before.0.insert(cp.src_port, redirect_of(cp, domain, now))
        &&& redirected(p, before.1, r, after.1)
    } else if domain is Some && !opens_connection(p) && cp.protocol == 17 {
        &&& r == Ok::<PacketDecision, RewriteError>(PacketDecision::Drop)
        &&& after.1 == (ProcessingStats { dropped: one_more(before.1.dropped), ..before.1 })
        &&& after.0 == before.0
    } else {
        &&& r == Ok::<PacketDecision, RewriteError>(PacketDecision::Forward)
        &&& after == before
    }
}

/// What becomes of a packet to a stand-in address. Connections to a known
/// domain are redirected as they open, as long as some proxy can be used;
/// datagrams to one are discarded, so that the client falls back on TCP.
pub fn process_fake_ip_traffic(
    captured: &CapturedPacket,
    cp: &ClassifiedPacket,
    domain: Option<String>,
    pool: &OperaProxyPool,
    custom_enabled: bool,
    now_us: u64,
    table: &mut RedirectTable,
    stats: &mut ProcessingStats,
) -> (r: Result<PacketDecision, RewriteError>)
    requires
        redirects_stand_in(captured.data@, opt_view(domain), some_proxy(*pool, custom_enabled))
            ==> rewritable(captured.data@, IpAddress::V4(LOCALHOST)),
    ensures
        stand_in_outcome(
            captured.data@,
            *cp,
            opt_view(domain),
            some_proxy(*pool, custom_enabled),
            now_us,
            (old(table)@, *old(stats)),
            r,
            (final(table)@, *final(stats)),
        ),
{
    if domain.is_none() {
        return Ok(PacketDecision::Forward);
    }
    if is_opening(captured.data.as_slice()) {
        if pool.select_best().is_none() && !custom_enabled {
            return Ok(PacketDecision::Forward);
        }
        return redirect_to_proxy(captured, cp, domain, now_us, table, stats);
    }
    if cp.protocol == 17 {
        stats.count_dropped();
        return Ok(PacketDecision::Drop);
    }
    Ok(PacketDecision::Forward)
}

/// Whether a name query is discarded: over UDP, where the client is to use DNS
/// over HTTPS.
pub open spec fn discards_query(cp: ClassifiedPacket, doh_wanted: bool) -> bool {
    doh_wanted && cp.dst_port == DNS_PORT && cp.protocol == 17
}

/// What becomes of a name query that takes the way of its protocol: where the
/// profile for DNS over HTTPS is registered and active, a query over UDP is
/// discarded, so that the client falls back on DNS over HTTPS.
pub fn process_dns(
    cp: &ClassifiedPacket,
    registered: bool,
    active: bool,
    stats: &mut ProcessingStats,
) -> (r: PacketDecision)
    ensures
        r == (if discards_query(*cp, registered && active) {
            PacketDecision::Drop
        } else {
            PacketDecision::Forward
        }),
        *final(stats) == (if discards_query(*cp, registered && active) {
            ProcessingStats { dropped: one_more(old(stats).dropped), ..*old(stats) }
        } else {
            *old(stats)
        }),
{
    if registered && active && cp.dst_port == DNS_PORT && cp.protocol == 17 {
        stats.count_dropped();
        return PacketDecision::Drop;
    }
    PacketDecision::Forward
}

/// Where traffic leaves.
#[derive(Debug, Clone, Copy, PartialEq, Eq, Structural)]
pub enum Egress {
    Direct,
    Socks5,
    UserProxy,
    OperaVpn,
    Other,
}

/// Whether a way out leads through a proxy.
pub open spec fn through_proxy(e: Egress) -> bool {
    e is Socks5 || e is UserProxy || e is OperaVpn
}

/// Whether some hop of a chain leads through a proxy.
pub open spec fn chain_uses_proxy(chain: Seq<Egress>) -> bool {
    exists|i: int| 0 <= i < chain.len() && through_proxy(#[trigger] chain[i])
}

/// Whether some hop of a chain leads through a proxy.
pub fn uses_proxy(chain: &Vec<Egress>) -> (r: bool)
    ensures
        r == chain_uses_proxy(chain@),
{
    let mut i: usize = 0;
    while i < chain.len()
        invariant
            i <= chain@.len(),
            forall|k: int| 0 <= k < i ==> !through_proxy(#[trigger] chain@[k]),
        decreases chain@.len() - i,
    {
        if matches!(chain[i], Egress::Socks5 | Egress::UserProxy | Egress::OperaVpn) {
            assert(through_proxy(chain@[i as int]));
            return true;
        }
        i = i + 1;
    }
    false
}

/// Whether a connection is redirected: the profile is active, some proxy can
/// be used, and the way out leads through one.
pub open spec fn wants_redirect(
    active: bool,
    pool: OperaProxyPool,
    custom_enabled: bool,
    chain: Seq<Egress>,
) -> bool {
    active && some_proxy(pool, custom_enabled) && chain_uses_proxy(chain)
}

/// Redirects a connection where the fallback profile is active, some proxy can
/// be used, and the way out leads through one.
pub fn process_socks5_redirect(
    captured: &CapturedPacket,
    cp: &ClassifiedPacket,
    active: bool,
    pool: &OperaProxyPool,
    custom_enabled: bool,
    chain: &Vec<Egress>,
    domain: Option<String>,
    now_us: u64,
    table: &mut RedirectTable,
    stats: &mut ProcessingStats,
) -> (r: Result<PacketDecision, RewriteError>)
    requires
        wants_redirect(active, *pool, custom_enabled, chain@) ==> rewritable(
            captured.data@,
            IpAddress::V4(LOCALHOST),
        ),
    ensures
        if wants_redirect(active, *pool, custom_enabled, chain@) {
            &&& final(table)@ == old(table)@.insert(
                cp.src_port,
                redirect_of(*cp, opt_view(domain), now_us),
            )
            &&& redirected(captured.data@, *old(stats), r, *final(stats))
        } else {
            &&& r == Ok::<PacketDecision, RewriteError>(PacketDecision::Forward)
            &&& *final(stats) == *old(stats)
            &&& final(table)@ == old(table)@
        },
{
    if !active {
        return Ok(PacketDecision::Forward);
    }
    if !custom_enabled && pool.select_best().is_none() {
        return Ok(PacketDecision::Forward);
    }
    if uses_proxy(chain) {
        return redirect_to_proxy(captured, cp, domain, now_us, table, stats);
    }
    Ok(PacketDecision::Forward)
}

/// The profile that is applied to the opening packet of a TCP connection.
#[derive(Debug, Clone, Copy, PartialEq, Eq, Structural)]
pub enum ClampProfile {
    /// Clamps the window and the segment size.
    Window,
    /// Clamps the segment size.
    SegmentSize,
}

/// What becomes of a TCP packet that no other rule covers.
#[derive(Debug, Clone)]
pub enum GenericStep {
    /// It is settled.
    Settled(PacketDecision),
    /// A profile is applied, and its result decides.
    Apply(ClampProfile),
}

/// Which profile is applied to a packet: only where the flag SYN is set; the
/// window before the segment size, and none in place of one that is active but
/// not registered.
pub open spec fn clamp_for(
    p: Seq<u8>,
    window_active: bool,
    window_registered: bool,
    mss_active: bool,
    mss_registered: bool,
) -> Option<ClampProfile> {
    if !has_syn(p) {
        None
    } else if window_active {
        if window_registered {
            Some(ClampProfile::Window)
        } else {
            None
        }
    } else if mss_active && mss_registered {
        Some(ClampProfile::SegmentSize)
    } else {
        None
    }
}

/// What becomes of a TCP packet that no other rule covers: where it was
/// redirected, that stands; else a profile may be applied to it.
pub fn process_generic_tcp(
    captured: &CapturedPacket,
    redirect: PacketDecision,
    window_active: bool,
    window_registered: bool,
    mss_active: bool,
    mss_registered: bool,
) -> (r: GenericStep)
    ensures
        r == (if redirect !is Forward {
            GenericStep::Settled(redirect)
        } else {
            match clamp_for(
                captured.data@,
                window_active,
                window_registered,
                mss_active,
                mss_registered,
            ) {
                Some(profile) => GenericStep::Apply(profile),
                None => GenericStep::Settled(PacketDecision::Forward),
            }
        }),
{
    match redirect {
        PacketDecision::Forward => {},
        other => {
            return GenericStep::Settled(other);
        },
    }
    if !is_syn(captured.data.as_slice()) {
        return GenericStep::Settled(PacketDecision::Forward);
    }
    if window_active {
        if window_registered {
            return GenericStep::Apply(ClampProfile::Window);
        }
    } else if mss_active {
        if mss_registered {
            return GenericStep::Apply(ClampProfile::SegmentSize);
        }
    }
    GenericStep::Settled(PacketDecision::Forward)
}

/// What a profile made of a packet.
#[derive(Debug, Clone)]
pub struct DesyncResult {
    /// Extra packets.
    pub inject: Vec<Vec<u8>>,
    /// The packet that goes on in its place.
    pub modified: Option<Vec<u8>>,
    /// Whether the packet is discarded.
    pub drop: bool,
    pub inter_delay_us: u32,
    pub inject_direction: InjectDirection,
}

/// What becomes of a packet that a profile was applied to.
pub open spec fn decision_for(result: DesyncResult, protocol: InjectProtocol) -> PacketDecision {
    if result.inject@.len() > 0 {
        PacketDecision::Desync {
            inject: result.inject,
            modified: result.modified,
            inject_protocol: protocol,
            inter_delay_us: result.inter_delay_us,
            inject_direction: result.inject_direction,
            drop_original: result.drop,
        }
    } else {
        match result.modified {
            Some(m) => PacketDecision::Modify(m),
            None => if result.drop {
                PacketDecision::Drop
            } else {
                PacketDecision::Forward
            },
        }
    }
}

/// Decides what becomes of a packet that a profile was applied to.
pub fn desync_decision(result: DesyncResult, protocol: InjectProtocol) -> (r: PacketDecision)
    ensures
        r == decision_for(result, protocol),
{
    if result.inject.len() == 0 {
        return match result.modified {
            Some(m) => PacketDecision::Modify(m),
            None => if result.drop {
                PacketDecision::Drop
            } else {
                PacketDecision::Forward
            },
        };
    }
    PacketDecision::Desync {
        inject: result.inject,
        modified: result.modified,
        inject_protocol: protocol,
        inter_delay_us: result.inter_delay_us,
        inject_direction: result.inject_direction,
        drop_original: result.drop,
    }
}

/// A name query over UDP always goes to the resolver, whatever the split
/// tunnel, the redirector and the proxies say.
pub proof fn name_queries_go_to_the_resolver(
    p: Seq<u8>,
    cp: ClassifiedPacket,
    bypass: Bypass,
    table: Map<u16, Redirect>,
    pool: OperaProxyPool,
    local: Seq<IpAddress>,
    only_outbound: bool,
)
    requires
        cp.dst_port == DNS_PORT,
        cp.protocol == 17,
    ensures
        early_route(p, Classification::Dns(cp), bypass, table, pool, local, only_outbound)
            == EarlyRoute::OffloadDns,
{
}

/// Where only outgoing packets are looked at, one that comes from elsewhere is
/// never altered by its protocol: the router is not asked, and the way of its
/// protocol lets it go on or treats it as a name query.
pub proof fn incoming_traffic_is_left_alone(
    p: Seq<u8>,
    class: Classification,
    bypass: Bypass,
    table: Map<u16, Redirect>,
    pool: OperaProxyPool,
    local: Seq<IpAddress>,
    client_hello: bool,
    desync_port: u16,
)
    requires
        match class.parts() {
            Some(cp) => !outbound_from(local, cp.src_ip),
            None => true,
        },
    ensures
        !(early_route(p, class, bypass, table, pool, local, true) is AskRouter),
        ({
            let way = standard_route(p.len(), class, client_hello, local, true, desync_port);
            way is Forward || way is Dns
        }),
{
}

/// What the split tunnel leaves alone goes on, unless it is a name query or
/// comes from the redirector.
pub proof fn bypassed_traffic_goes_on(
    p: Seq<u8>,
    class: Classification,
    bypass: Bypass,
    table: Map<u16, Redirect>,
    pool: OperaProxyPool,
    local: Seq<IpAddress>,
    only_outbound: bool,
)
    requires
        bypass.ip || bypass.domain,
        match class.parts() {
            Some(cp) => cp.dst_port != DNS_PORT && cp.src_port != REDIRECTOR_PORT,
            None => false,
        },
    ensures
        early_route(p, class, bypass, table, pool, local, only_outbound) == EarlyRoute::Forward,
{
}

/// What the redirector sends back to a client gets the address that the
/// client was talking to when its connection was redirected.
pub proof fn redirection_is_undone_on_the_way_back(
    table: Map<u16, Redirect>,
    out: ClassifiedPacket,
    domain: Option<Seq<char>>,
    now: u64,
    p: Seq<u8>,
    back: ClassifiedPacket,
    bypass: Bypass,
    pool: OperaProxyPool,
    local: Seq<IpAddress>,
    only_outbound: bool,
)
    requires
        back.src_port == REDIRECTOR_PORT,
        back.dst_port == out.src_port,
    ensures
        early_route(
            p,
            Classification::Other(back),
            bypass,
            table.insert(out.src_port, redirect_of(out, domain, now)),
            pool,
            local,
            only_outbound,
        ) == (EarlyRoute::RewriteSource { ip: out.dst_ip, port: out.dst_port }),
{
}

/// A datagram that is to be proxied never leaves by itself: it takes the
/// tunnel or is discarded.
pub proof fn proxied_datagrams_never_leak(tunnel_up: bool)
    ensures
        routed(RoutingDecision::Proxy, 17, tunnel_up) is Tunnel || routed(
            RoutingDecision::Proxy,
            17,
            tunnel_up,
        ) is Drop,
{
}

/// A profile that made nothing of a packet lets it go on, unless it says that
/// the packet is to be discarded.
pub proof fn idle_profile_forwards(result: DesyncResult, protocol: InjectProtocol)
    requires
        result.inject@.len() == 0,
        result.modified is None,
    ensures
        decision_for(result, protocol) is Drop <==> result.drop,
        decision_for(result, protocol) is Forward <==> !result.drop,
{
}

/// Every TCP packet to an address of 10/8, whether it carries a payload or only
/// opens the connection, is handled as traffic to a stand-in address, unless
/// the split tunnel leaves it alone or it comes back from the redirector. A
/// packet that goes elsewhere, or by another protocol, is not.
pub proof fn stand_in_traffic_is_caught(
    p: Seq<u8>,
    class: Classification,
    cp: ClassifiedPacket,
    bypass: Bypass,
    table: Map<u16, Redirect>,
    pool: OperaProxyPool,
    local: Seq<IpAddress>,
    only_outbound: bool,
)
    requires
        class == Classification::Other(cp) || class == Classification::Tls(cp) || class
            == Classification::Http(cp),
    ensures
        ({
            let r = early_route(p, class, bypass, table, pool, local, only_outbound);
            let stands_in = cp.dst_ip matches IpAddress::V4(a) && a / 0x100_0000 == 10;
            let left_alone = (bypass.ip || bypass.domain) && cp.dst_port != 53 && cp.src_port
                != 17650;
            let comes_back = class is Other && cp.src_port == 17650 && table.contains_key(
                cp.dst_port,
            );
            r == EarlyRoute::FakeIp(cp) <==> cp.protocol == 6 && stands_in && !left_alone
                && !comes_back
        }),
{
}

/// What comes back from the redirector at a port whose connection was
/// redirected, and nothing else, gets the address and port of that connection.
pub proof fn returning_traffic_is_recognised(
    p: Seq<u8>,
    class: Classification,
    bypass: Bypass,
    table: Map<u16, Redirect>,
    pool: OperaProxyPool,
    local: Seq<IpAddress>,
    only_outbound: bool,
)
    ensures
        ({
            let r = early_route(p, class, bypass, table, pool, local, only_outbound);
            &&& r is RewriteSource <==> (class matches Classification::Other(cp) && cp.src_port
                == 17650 && table.contains_key(cp.dst_port))
            &&& r matches EarlyRoute::RewriteSource { ip, port } ==> ip
                == table[class->Other_0.dst_port].ip && port == table[class->Other_0.dst_port].port
        }),
{
}

/// The resolver is handed exactly the name queries over UDP to port 53.
pub proof fn only_name_queries_are_offloaded(
    p: Seq<u8>,
    class: Classification,
    bypass: Bypass,
    table: Map<u16, Redirect>,
    pool: OperaProxyPool,
    local: Seq<IpAddress>,
    only_outbound: bool,
)
    ensures
        early_route(p, class, bypass, table, pool, local, only_outbound) is OffloadDns <==> (
        class matches Classification::Dns(cp) && cp.dst_port == 53 && cp.protocol == 17),
{
}

/// Traffic of the upstream proxies themselves is told apart by its opening
/// packet: TCP to the address of a proxy, with no payload of a known kind. The
/// split tunnel, the redirector and stand-in addresses come first.
pub proof fn proxy_traffic_is_told_apart(
    p: Seq<u8>,
    class: Classification,
    bypass: Bypass,
    table: Map<u16, Redirect>,
    pool: OperaProxyPool,
    local: Seq<IpAddress>,
    only_outbound: bool,
)
    ensures
        ({
            let r = early_route(p, class, bypass, table, pool, local, only_outbound);
            &&& r matches EarlyRoute::ProxyTraffic(cp) ==> {
                &&& class == Classification::Other(cp)
                &&& cp.protocol == 6
                &&& opens_connection(p)
                &&& exists|i: int|
                    0 <= i < pool.proxies@.len() && (#[trigger] pool.proxies@[i]).addr.ip
                        == cp.dst_ip
            }
            &&& (class matches Classification::Other(cp) && cp.protocol == 6 && opens_connection(p)
                && has_ip(pool.proxies@, cp.dst_ip) && !(bypass.ip || bypass.domain)
                && cp.src_port != 17650 && !(cp.dst_ip matches IpAddress::V4(a) && a / 0x100_0000
                == 10)) ==> r == EarlyRoute::ProxyTraffic(class->Other_0)
        }),
{
}

/// The router is asked about every other TCP and UDP packet that leaves this
/// host, and about every other one at all where incoming ones are looked at
/// too. Only TLS and HTTP bring a name.
pub proof fn the_router_is_asked_about_the_rest(
    p: Seq<u8>,
    class: Classification,
    cp: ClassifiedPacket,
    bypass: Bypass,
    table: Map<u16, Redirect>,
    pool: OperaProxyPool,
    local: Seq<IpAddress>,
    only_outbound: bool,
)
    requires
        class == Classification::Other(cp) || class == Classification::Tls(cp) || class
            == Classification::Http(cp) || class == Classification::Quic(cp),
    ensures
        ({
            let r = early_route(p, class, bypass, table, pool, local, only_outbound);
            let left_alone = (bypass.ip || bypass.domain) && cp.dst_port != 53 && cp.src_port
                != 17650;
            let known = cp.protocol == 6 || cp.protocol == 17;
            let leaves = !only_outbound || outbound_from(local, cp.src_ip);
            let handled = r is RewriteSource || r is FakeIp || r is ProxyTraffic;
            &&& r is AskRouter <==> known && leaves && !left_alone && !handled
            &&& r is AskRouter ==> r->AskRouter_cp == cp && r->has_name == (class is Tls
                || class is Http)
            &&& r is Forward <==> left_alone || (known && !leaves && !handled)
            &&& r is Standard <==> !known && !left_alone && !handled
        }),
{
}

/// What is not recognised takes the way of its protocol, whatever else holds.
pub proof fn unknown_packets_are_not_judged(
    p: Seq<u8>,
    bypass: Bypass,
    table: Map<u16, Redirect>,
    pool: OperaProxyPool,
    local: Seq<IpAddress>,
    only_outbound: bool,
    client_hello: bool,
    desync_port: u16,
)
    ensures
        early_route(p, Classification::Unknown, bypass, table, pool, local, only_outbound)
            == EarlyRoute::Standard,
        standard_route(
            p.len(),
            Classification::Unknown,
            client_hello,
            local,
            only_outbound,
            desync_port,
        ) == StandardRoute::Forward,
{
}

/// What the router says is done: direct traffic goes on, unwanted traffic is
/// discarded, traffic for a proxy is redirected, or tunnelled where it is UDP
/// and there is a tunnel, and traffic to be worked on takes the way of its
/// protocol. Only discarding can be done for want of a tunnel.
pub proof fn the_router_is_obeyed(decision: RoutingDecision, protocol: u8, tunnel_up: bool)
    ensures
        routed(decision, protocol, tunnel_up) == Routed::Forward <==> decision
            == RoutingDecision::Direct,
        routed(decision, protocol, tunnel_up) == Routed::Standard <==> decision
            == RoutingDecision::Desync,
        routed(decision, protocol, tunnel_up) == Routed::Redirect <==> decision
            == RoutingDecision::Proxy && protocol != 17,
        routed(decision, protocol, tunnel_up) == Routed::Tunnel <==> decision
            == RoutingDecision::Proxy && protocol == 17 && tunnel_up,
        routed(decision, protocol, tunnel_up) == Routed::Drop <==> decision == RoutingDecision::Drop
            || (decision == RoutingDecision::Proxy && protocol == 17 && !tunnel_up),
{
}

/// TLS is worked on at its own port only, and where it leaves this host; a
/// payload that is a ClientHello of at least fifty bytes is whole, any other
/// part of one is put together first. A packet that ends before its payload
/// goes on.
pub proof fn tls_takes_its_own_way(
    len: nat,
    cp: ClassifiedPacket,
    client_hello: bool,
    local: Seq<IpAddress>,
    only_outbound: bool,
    desync_port: u16,
)
    ensures
        ({
            let r = standard_route(
                len,
                Classification::Tls(cp),
                client_hello,
                local,
                only_outbound,
                desync_port,
            );
            let worked_on = cp.dst_port == desync_port && (!only_outbound || outbound_from(
                local,
                cp.src_ip,
            )) && cp.payload_offset <= len;
            let whole = client_hello && len >= cp.payload_offset + 50;
            &&& r == StandardRoute::GateTls(cp) <==> worked_on && whole
            &&& r == StandardRoute::ReassembleTls(cp) <==> worked_on && !whole
            &&& r == StandardRoute::Forward <==> !worked_on
        }),
{
}

/// Other protocols take their own way, name queries always, and the others
/// where they leave this host.
pub proof fn protocols_take_their_own_way(
    len: nat,
    cp: ClassifiedPacket,
    client_hello: bool,
    local: Seq<IpAddress>,
    only_outbound: bool,
    desync_port: u16,
)
    ensures
        standard_route(
            len,
            Classification::Dns(cp),
            client_hello,
            local,
            only_outbound,
            desync_port,
        ) == StandardRoute::Dns(cp),
        !only_outbound || outbound_from(local, cp.src_ip) ==> {
            &&& standard_route(
                len,
                Classification::Quic(cp),
                client_hello,
                local,
                only_outbound,
                desync_port,
            ) == StandardRoute::Quic(cp)
            &&& standard_route(
                len,
                Classification::Http(cp),
                client_hello,
                local,
                only_outbound,
                desync_port,
            ) == StandardRoute::Http(cp)
            &&& standard_route(
                len,
                Classification::Other(cp),
                client_hello,
                local,
                only_outbound,
                desync_port,
            ) == StandardRoute::Generic(cp)
        },
{
}

/// A packet that is sent to the redirector goes to port 17650 of this machine
/// and still comes from its client; it counts as discarded.
pub proof fn redirected_packets_go_to_this_machine(
    p: Seq<u8>,
    before: ProcessingStats,
    r: Result<PacketDecision, RewriteError>,
    after: ProcessingStats,
)
    requires
        redirected(p, before, r, after),
    ensures
        r matches Ok(decision) ==> {
            &&& decision is Modify
            &&& ({
                let m = decision->Modify_0@;
                let off: int = (p[0] % 16) * 4;
                &&& m.len() == p.len()
                &&& m[16] == 127 && m[17] == 0 && m[18] == 0 && m[19] == 1
                &&& m[off + 2] * 256 + m[off + 3] == 17650
                &&& m[off] == p[off] && m[off + 1] == p[off + 1]
                &&& m.subrange(12, 16) == p.subrange(12, 16)
            })
            &&& after == (ProcessingStats { dropped: one_more(before.dropped), ..before })
        },
        r is Err ==> after == before,
        r is Ok <==> p.len() >= 20 && p[0] / 16 == 4 && (p[0] % 16) * 4 >= 20 && p.len() >= (p[0]
            % 16) * 4 + 20,
{
    crate::proxy::rewrite::only_whole_packets_are_rewritten(
        p,
        End::Destination,
        IpAddress::V4(0x7f00_0001),
        17650,
    );
    if let Ok(decision) = r {
        let m = decision->Modify_0@;
        crate::proxy::rewrite::rewritten_ends_are_read_back(
            p,
            End::Destination,
            IpAddress::V4(0x7f00_0001),
            17650,
            m,
        );
    }
}

/// A connection to a stand-in address is redirected as it opens, as long as its
/// domain is known and some proxy can be used; the table then leads from the
/// client's port to where the client was going. Datagrams to a known domain are
/// discarded. Everything else goes on and leaves no trace.
pub proof fn stand_in_connections_are_redirected(
    p: Seq<u8>,
    cp: ClassifiedPacket,
    domain: Option<Seq<char>>,
    proxy_usable: bool,
    now: u64,
    before: (Map<u16, Redirect>, ProcessingStats),
    r: Result<PacketDecision, RewriteError>,
    after: (Map<u16, Redirect>, ProcessingStats),
)
    requires
        stand_in_outcome(p, cp, domain, proxy_usable, now, before, r, after),
    ensures
        domain is Some && opens_connection(p) && proxy_usable ==> {
            &&& r is Err || r->Ok_0 is Modify
            &&& redirected(p, before.1, r, after.1)
            &&& after.0.contains_key(cp.src_port)
            &&& after.0[cp.src_port].ip == cp.dst_ip
            &&& after.0[cp.src_port].port == cp.dst_port
            &&& after.0[cp.src_port].domain == domain
            &&& after.0[cp.src_port].created_us == now
            &&& forall|port: u16| port != cp.src_port ==> (after.0.contains_key(port)
                == before.0.contains_key(port) && (before.0.contains_key(port)
                ==> #[trigger] after.0[port] == before.0[port]))
        },
        !(domain is Some && opens_connection(p) && proxy_usable) ==> {
            let discarded = domain is Some && !opens_connection(p) && cp.protocol == 17;
            &&& after.0 == before.0
            &&& discarded <==> r == Ok::<PacketDecision, RewriteError>(PacketDecision::Drop)
            &&& !discarded ==> r == Ok::<PacketDecision, RewriteError>(PacketDecision::Forward)
                && after == before
            &&& discarded ==> after.1 == (ProcessingStats {
                dropped: one_more(before.1.dropped),
                ..before.1
            })
        },
{
}

/// What is remembered of a redirected connection is where it was going.
pub proof fn redirects_remember_the_destination(
    cp: ClassifiedPacket,
    domain: Option<Seq<char>>,
    now: u64,
)
    ensures
        redirect_of(cp, domain, now).ip == cp.dst_ip,
        redirect_of(cp, domain, now).port == cp.dst_port,
        redirect_of(cp, domain, now).domain == domain,
        redirect_of(cp, domain, now).created_us == now,
{
}

/// The fallback redirects exactly where its profile is active, a proxy can be
/// used, its own or one that is well, and some hop of the way out is a proxy.
pub proof fn the_fallback_redirects_exactly_so(
    active: bool,
    pool: OperaProxyPool,
    custom_enabled: bool,
    chain: Seq<Egress>,
)
    ensures
        wants_redirect(active, pool, custom_enabled, chain) <==> {
            &&& active
            &&& custom_enabled || exists|i: int|
                0 <= i < pool.proxies@.len() && (#[trigger] pool.proxies@[i]).healthy
            &&& exists|i: int|
                0 <= i < chain.len() && (#[trigger] chain[i] == Egress::Socks5 || chain[i]
                    == Egress::UserProxy || chain[i] == Egress::OperaVpn)
        },
{
    lemma_some_proxy(pool.proxies@, 0);
    if chain_uses_proxy(chain) {
        let i = choose|i: int| 0 <= i < chain.len() && through_proxy(#[trigger] chain[i]);
        assert(0 <= i < chain.len() && (chain[i] == Egress::Socks5 || chain[i] == Egress::UserProxy
            || chain[i] == Egress::OperaVpn));
    }
    if exists|i: int|
        0 <= i < chain.len() && (#[trigger] chain[i] == Egress::Socks5 || chain[i]
            == Egress::UserProxy || chain[i] == Egress::OperaVpn) {
        let i = choose|i: int|
            0 <= i < chain.len() && (#[trigger] chain[i] == Egress::Socks5 || chain[i]
                == Egress::UserProxy || chain[i] == Egress::OperaVpn);
        assert(through_proxy(chain[i]));
    }
}

proof fn lemma_some_proxy(proxies: Seq<OperaProxyEntry>, i: int)
    requires
        0 <= i <= proxies.len(),
    ensures
        first_healthy(proxies, i) is Some <==> exists|k: int|
            i <= k < proxies.len() && (#[trigger] proxies[k]).healthy,
    decreases proxies.len() - i,
{
    if i < proxies.len() {
        lemma_some_proxy(proxies, i + 1);
        assert(proxies[i].healthy == proxies[i].healthy);
    }
}

/// Packets that open a connection, and those that answer one, are clamped where
/// a profile for it is active and registered, the window before the segment
/// size; no other packet is.
pub proof fn only_opening_packets_are_clamped(
    p: Seq<u8>,
    window_active: bool,
    window_registered: bool,
    mss_active: bool,
    mss_registered: bool,
)
    ensures
        ({
            let r = clamp_for(p, window_active, window_registered, mss_active, mss_registered);
            &&& r == Some(ClampProfile::Window) <==> has_syn(p) && window_active
                && window_registered
            &&& r == Some(ClampProfile::SegmentSize) <==> has_syn(p) && !window_active && mss_active
                && mss_registered
        }),
{
}

/// What a profile made of a packet is what happens to it: extra packets are
/// sent, with all that the profile says of them; without any, the changed packet
/// takes the packet's place; without that, the packet is discarded or goes on.
pub proof fn profiles_are_obeyed(result: DesyncResult, protocol: InjectProtocol)
    ensures
        decision_for(result, protocol) is Desync <==> result.inject@.len() > 0,
        decision_for(result, protocol) matches PacketDecision::Desync {
            inject,
            modified,
            inject_protocol,
            inter_delay_us,
            inject_direction,
            drop_original,
        } ==> inject == result.inject && modified == result.modified && inject_protocol == protocol
            && inter_delay_us == result.inter_delay_us && inject_direction
            == result.inject_direction && drop_original == result.drop,
        decision_for(result, protocol) is Modify <==> result.inject@.len() == 0
            && result.modified is Some,
        decision_for(result, protocol) matches PacketDecision::Modify(m) ==> result.modified == Some(
            m,
        ),
        decision_for(result, protocol) is Drop <==> result.inject@.len() == 0
            && result.modified is None && result.drop,
{
}

/// What is counted as captured: TLS as a ClientHello where it is one and the
/// packet reaches its payload, QUIC as an Initial where its payload starts like
/// one, name queries as such, and everything else as other traffic.
pub proof fn captures_are_counted_by_kind(p: Seq<u8>, class: Classification, client_hello: bool)
    ensures
        capture_kind(p, class, client_hello) is ClientHello <==> (class matches Classification::Tls(
            cp,
        ) && client_hello && cp.payload_offset <= p.len()),
        capture_kind(p, class, client_hello) is Dns <==> class is Dns,
        capture_kind(p, class, client_hello) is QuicInitial ==> class is Quic,
        class matches Classification::Quic(cp) ==> (capture_kind(p, class, client_hello) is QuicInitial
            <==> p.len() >= cp.payload_offset + 5 && initial_header(
            p.subrange(cp.payload_offset as int, p.len() as int),
        )),
{
}

/// A name query is discarded exactly where DNS over HTTPS is wanted and the
/// query goes to port 53 by UDP.
pub proof fn only_plain_queries_are_discarded(cp: ClassifiedPacket, doh_wanted: bool)
    ensures
        discards_query(cp, doh_wanted) <==> doh_wanted && cp.dst_port == 53 && cp.protocol == 17,
{
}

} // verus!

//! The way of a packet through the gates, from its capture to a decision.
//!
//! A journey begins with what is known of the packet. Where a service outside
//! has to be asked, it stops with the question and goes on with the answer.
use vstd::prelude::*;

use crate::engine::dispatch::{
    discards_query, dns_offloaded, early_route, process_dns, process_fake_ip_traffic, redirect_of,
    redirect_to_proxy, redirected, redirected_packets_go_to_this_machine, redirects_stand_in,
    return_from_redirector, returning_traffic_is_recognised, route, route_early, route_standard, routed,
    some_proxy, stand_in_connections_are_redirected, stand_in_outcome, stand_in_traffic_is_caught,
    standard_route, Bypass, EarlyRoute, ReassemblyState,
    Routed, RoutingDecision, StandardRoute, DNS_PORT,
};
use crate::engine::latency::one_more;
use crate::engine::outbound::{asked_once, Conn};
use crate::engine::packet::{
    apply_inject_direction, CaptureAddress, CapturedPacket, Classification, ClassifiedPacket,
    InjectDirection, PacketDecision,
};
use crate::engine::stats::ProcessingStats;
use crate::ip::{IpAddress, LOCALHOST};
use crate::proxy::rewrite::{rewritable, rewrite_outcome, End, RewriteError};
use crate::proxy::types::{OperaProxyPool, Redirect, RedirectTable};
use crate::text::{copy_text, opt_view};
use crate::wire::copy_range;

verus! {

/// What is known of a packet when its journey begins.
#[derive(Debug, Clone)]
pub struct Arrival {
    pub captured: CapturedPacket,
    pub class: Classification,
    /// Whether its payload is a ClientHello.
    pub client_hello: bool,
    /// What the split tunnel says.
    pub bypass: Bypass,
    /// The domain that its destination stands in for.
    pub domain: Option<String>,
    pub now_us: u64,
}

/// How the pipeline is set up.
#[derive(Debug, Clone)]
pub struct Surroundings {
    /// The addresses of this machine.
    pub local: Vec<IpAddress>,
    pub only_outbound: bool,
    pub desync_port: u16,
    /// Whether the user's own proxy is in use.
    pub custom_enabled: bool,
    /// Whether clients are to use DNS over HTTPS: the profile for it is
    /// registered, and active.
    pub doh_registered: bool,
    pub doh_active: bool,
}

/// Where a journey stands.
#[derive(Debug, Clone)]
pub enum Waypoint {
    /// It has ended.
    Decided(PacketDecision),
    /// It has ended: the packet could not be rewritten.
    Failed(RewriteError),
    /// Does the resolver take this query? It carries the address under which
    /// the answer is sent: inbound.
    OfferToResolver(CapturedPacket),
    /// What does the router say?
    AskRouter { cp: ClassifiedPacket, has_name: bool },
    /// This packet goes through the tunnel, and is discarded here.
    Tunnel(Vec<u8>),
    /// Is the ClientHello whole with this part?
    Reassemble(ClassifiedPacket),
    /// Is this the first ClientHello of its connection?
    AskGate(ClassifiedPacket),
    /// A profile is applied to it.
    WorkTls(ClassifiedPacket),
    WorkQuic(ClassifiedPacket),
    WorkHttp(ClassifiedPacket),
    WorkGeneric(ClassifiedPacket),
}

/// Whether the packet can be rewritten, where the first gate has it
/// rewritten.
pub open spec fn can_begin(
    a: Arrival,
    s: Surroundings,
    pool: OperaProxyPool,
    table: Map<u16, Redirect>,
) -> bool {
    match first_gate(a, s, pool, table) {
        EarlyRoute::RewriteSource { ip, .. } => rewritable(a.captured.data@, ip),
        EarlyRoute::FakeIp(_) => redirects_stand_in(
            a.captured.data@,
            opt_view(a.domain),
            some_proxy(pool, s.custom_enabled),
        ) ==> rewritable(a.captured.data@, IpAddress::V4(LOCALHOST)),
        _ => true,
    }
}

/// The end of a journey with a result.
pub open spec fn ends_with(r: Result<PacketDecision, RewriteError>, w: Waypoint) -> bool {
    match r {
        Ok(d) => w == Waypoint::Decided(d),
        Err(e) => w == Waypoint::Failed(e),
    }
}

fn ended(r: Result<PacketDecision, RewriteError>) -> (w: Waypoint)
    ensures
        ends_with(r, w),
{
    match r {
        Ok(d) => Waypoint::Decided(d),
        Err(e) => Waypoint::Failed(e),
    }
}

/// A packet that is rewritten ends its journey as its rewritten self, or with
/// the reason why it could not be rewritten.
pub open spec fn ends_rewritten(p: Seq<u8>, end: End, ip: IpAddress, port: u16, w: Waypoint) -> bool {
    match rewrite_outcome(p, end, ip, port) {
        Ok(q) => match w {
            Waypoint::Decided(PacketDecision::Modify(m)) => m@ == q,
            _ => false,
        },
        Err(e) => w == Waypoint::Failed(e),
    }
}

/// Where a packet stands that takes the way of its protocol.
pub open spec fn protocol_way(a: Arrival, s: Surroundings) -> StandardRoute {
    standard_route(
        a.captured.data@.len(),
        a.class,
        a.client_hello,
        s.local@,
        s.only_outbound,
        s.desync_port,
    )
}

/// What comes of taking the way of the protocol.
pub open spec fn by_protocol(
    way: StandardRoute,
    doh_wanted: bool,
    before: ProcessingStats,
    w: Waypoint,
    after: ProcessingStats,
) -> bool {
    match way {
        StandardRoute::Dns(cp) => if discards_query(cp, doh_wanted) {
            &&& w == Waypoint::Decided(PacketDecision::Drop)
            &&& after == (ProcessingStats { dropped: one_more(before.dropped), ..before })
        } else {
            w == Waypoint::Decided(PacketDecision::Forward) && after == before
        },
        StandardRoute::Forward => w == Waypoint::Decided(PacketDecision::Forward) && after
            == before,
        StandardRoute::GateTls(cp) => w == Waypoint::AskGate(cp) && after == before,
        StandardRoute::ReassembleTls(cp) => w == Waypoint::Reassemble(cp) && after == before,
        StandardRoute::Quic(cp) => w == Waypoint::WorkQuic(cp) && after == before,
        StandardRoute::Http(cp) => w == Waypoint::WorkHttp(cp) && after == before,
        StandardRoute::Generic(cp) => w == Waypoint::WorkGeneric(cp) && after == before,
    }
}

fn take_protocol_way(a: &Arrival, s: &Surroundings, stats: &mut ProcessingStats) -> (w: Waypoint)
    ensures
        by_protocol(
            protocol_way(*a, *s),
            s.doh_registered && s.doh_active,
            *old(stats),
            w,
            *final(stats),
        ),
{
    match route_standard(
        a.captured.data.as_slice(),
        &a.class,
        a.client_hello,
        &s.local,
        s.only_outbound,
        s.desync_port,
    ) {
        StandardRoute::Forward => Waypoint::Decided(PacketDecision::Forward),
        StandardRoute::GateTls(cp) => Waypoint::AskGate(cp),
        StandardRoute::ReassembleTls(cp) => Waypoint::Reassemble(cp),
        StandardRoute::Quic(cp) => Waypoint::WorkQuic(cp),
        StandardRoute::Dns(cp) => Waypoint::Decided(
            process_dns(&cp, s.doh_registered, s.doh_active, stats),
        ),
        StandardRoute::Http(cp) => Waypoint::WorkHttp(cp),
        StandardRoute::Generic(cp) => Waypoint::WorkGeneric(cp),
    }
}

/// What the first gate decides.
pub open spec fn first_gate(
    a: Arrival,
    s: Surroundings,
    pool: OperaProxyPool,
    table: Map<u16, Redirect>,
) -> EarlyRoute {
    early_route(a.captured.data@, a.class, a.bypass, table, pool, s.local@, s.only_outbound)
}

fn bytes_of(captured: &CapturedPacket) -> (r: Vec<u8>)
    ensures
        r@ == captured.data@,
{
    let r: Vec<u8> = copy_range(captured.data.as_slice(), 0, captured.data.len());
    assert(r@ =~= captured.data@);
    r
}

/// What is offered to the resolver: the bytes of the packet, and its address
/// turned inbound.
pub open spec fn offers_query(captured: CapturedPacket, w: Waypoint) -> bool {
    match w {
        Waypoint::OfferToResolver(q) => q.data@ == captured.data@ && q.addr == (CaptureAddress {
            outbound: false,
            ..captured.addr
        }),
        _ => false,
    }
}

/// What comes of the first gate.
pub open spec fn begun(
    a: Arrival,
    s: Surroundings,
    pool: OperaProxyPool,
    before: (Map<u16, Redirect>, ProcessingStats),
    w: Waypoint,
    after: (Map<u16, Redirect>, ProcessingStats),
) -> bool {
    match first_gate(a, s, pool, before.0) {
        EarlyRoute::Forward => w == Waypoint::Decided(PacketDecision::Forward) && after == before,
        EarlyRoute::OffloadDns => offers_query(a.captured, w) && after == before,
        EarlyRoute::RewriteSource { ip, port } => ends_rewritten(
            a.captured.data@,
            End::Source,
            ip,
            port,
            w,
        ) && after == before,
        EarlyRoute::FakeIp(cp) => exists|r: Result<PacketDecision, RewriteError>| #[trigger]
            ends_with(r, w) && stand_in_outcome(
                a.captured.data@,
                cp,
                opt_view(a.domain),
                some_proxy(pool, s.custom_enabled),
                a.now_us,
                before,
                r,
                after,
            ),
        EarlyRoute::ProxyTraffic(cp) => w == Waypoint::WorkGeneric(cp) && after == before,
        EarlyRoute::AskRouter { cp, has_name } => w == (Waypoint::AskRouter { cp, has_name })
            && after == before,
        EarlyRoute::Standard => by_protocol(
            protocol_way(a, s),
            s.doh_registered && s.doh_active,
            before.1,
            w,
            after.1,
        ) && after.0 == before.0,
    }
}

/// Begins the journey of a packet: the first gate, and where it leads on by
/// itself the way of the protocol.
pub fn begin(
    a: &Arrival,
    s: &Surroundings,
    pool: &OperaProxyPool,
    table: &mut RedirectTable,
    stats: &mut ProcessingStats,
) -> (w: Waypoint)
    requires
        can_begin(*a, *s, *pool, old(table)@),
    ensures
        begun(*a, *s, *pool, (old(table)@, *old(stats)), w, (final(table)@, *final(stats))),
{
    match route_early(
        a.captured.data.as_slice(),
        &a.class,
        a.bypass,
        table,
        pool,
        &s.local,
        s.only_outbound,
    ) {
        EarlyRoute::Forward => Waypoint::Decided(PacketDecision::Forward),
        EarlyRoute::OffloadDns => Waypoint::OfferToResolver(
            CapturedPacket {
                data: bytes_of(&a.captured),
                addr: apply_inject_direction(&a.captured.addr, InjectDirection::ForceInbound),
            },
        ),
        EarlyRoute::RewriteSource { ip, port } => ended(
            return_from_redirector(&a.captured, ip, port),
        ),
        EarlyRoute::FakeIp(cp) => {
            let r: Result<PacketDecision, RewriteError> = process_fake_ip_traffic(
                &a.captured,
                &cp,
                copy_text(&a.domain),
                pool,
                s.custom_enabled,
                a.now_us,
                table,
                stats,
            );
            let w: Waypoint = ended(r);
            assert(ends_with(r, w));
            w
        },
        EarlyRoute::ProxyTraffic(cp) => Waypoint::WorkGeneric(cp),
        EarlyRoute::AskRouter { cp, has_name } => Waypoint::AskRouter { cp, has_name },
        EarlyRoute::Standard => take_protocol_way(a, s, stats),
    }
}

/// Goes on once the resolver has taken a query, or has not.
pub fn after_resolver(accepted: bool, stats: &mut ProcessingStats) -> (w: Waypoint)
    ensures
        w == Waypoint::Decided(
            if accepted {
                PacketDecision::Drop
            } else {
                PacketDecision::Forward
            },
        ),
        *final(stats) == (if accepted {
            ProcessingStats { dropped: one_more(old(stats).dropped), ..*old(stats) }
        } else {
            *old(stats)
        }),
{
    Waypoint::Decided(dns_offloaded(accepted, stats))
}

/// What comes of the second gate.
pub open spec fn after_second_gate(
    a: Arrival,
    s: Surroundings,
    cp: ClassifiedPacket,
    decision: RoutingDecision,
    tunnel_up: bool,
    before: (Map<u16, Redirect>, ProcessingStats),
    w: Waypoint,
    after: (Map<u16, Redirect>, ProcessingStats),
) -> bool {
    match routed(decision, cp.protocol, tunnel_up) {
        Routed::Forward => w == Waypoint::Decided(PacketDecision::Forward) && after == before,
        Routed::Drop => {
            &&& w == Waypoint::Decided(PacketDecision::Drop)
            &&& after.0 == before.0
            &&& after.1 == (ProcessingStats { dropped: one_more(before.1.dropped), ..before.1 })
        },
        Routed::Tunnel => {
            &&& match w {
                Waypoint::Tunnel(p) => p@ == a.captured.data@,
                _ => false,
            }
            &&& after.0 == before.0
            &&& after.1 == (ProcessingStats { dropped: one_more(before.1.dropped), ..before.1 })
        },
        Routed::Redirect => {
            &&& after.0 == before.0.insert(
                cp.src_port,
                redirect_of(cp, opt_view(a.domain), a.now_us),
            )
            &&& exists|r: Result<PacketDecision, RewriteError>| #[trigger]
                ends_with(r, w) && redirected(a.captured.data@, before.1, r, after.1)
        },
        Routed::Standard => by_protocol(
            protocol_way(a, s),
            s.doh_registered && s.doh_active,
            before.1,
            w,
            after.1,
        ) && after.0 == before.0,
    }
}

/// Goes on with what the router says: the second gate, and where it leads on
/// the way of the protocol.
pub fn after_router(
    a: &Arrival,
    s: &Surroundings,
    cp: &ClassifiedPacket,
    decision: RoutingDecision,
    tunnel_up: bool,
    table: &mut RedirectTable,
    stats: &mut ProcessingStats,
) -> (w: Waypoint)
    requires
        routed(decision, cp.protocol, tunnel_up) is Redirect ==> rewritable(
            a.captured.data@,
            IpAddress::V4(LOCALHOST),
        ),
    ensures
        after_second_gate(
            *a,
            *s,
            *cp,
            decision,
            tunnel_up,
            (old(table)@, *old(stats)),
            w,
            (final(table)@, *final(stats)),
        ),
{
    match route(decision, cp, tunnel_up, stats) {
        Routed::Forward => Waypoint::Decided(PacketDecision::Forward),
        Routed::Drop => Waypoint::Decided(PacketDecision::Drop),
        Routed::Tunnel => Waypoint::Tunnel(bytes_of(&a.captured)),
        Routed::Redirect => {
            let r: Result<PacketDecision, RewriteError> = redirect_to_proxy(
                &a.captured,
                cp,
                copy_text(&a.domain),
                a.now_us,
                table,
                stats,
            );
            let w: Waypoint = ended(r);
            assert(ends_with(r, w));
            w
        },
        Routed::Standard => take_protocol_way(a, s, stats),
    }
}

/// Goes on once a part of a ClientHello has been put with the others: only a
/// whole one is worked on.
pub fn after_reassembly(cp: &ClassifiedPacket, state: ReassemblyState) -> (w: Waypoint)
    ensures
        w == (if state is Complete {
            Waypoint::AskGate(*cp)
        } else {
            Waypoint::Decided(PacketDecision::Forward)
        }),
{
    if matches!(state, ReassemblyState::Complete) {
        Waypoint::AskGate(*cp)
    } else {
        Waypoint::Decided(PacketDecision::Forward)
    }
}

/// Where a ClientHello goes once its connection has been asked.
pub open spec fn way_after_gate(cp: ClassifiedPacket, first: bool) -> Waypoint {
    if first {
        Waypoint::WorkTls(cp)
    } else {
        Waypoint::Decided(PacketDecision::Forward)
    }
}

/// Goes on once the connection has been asked: only its first ClientHello is
/// worked on.
pub fn after_gate(cp: &ClassifiedPacket, first: bool) -> (w: Waypoint)
    ensures
        w == way_after_gate(*cp, first),
{
    if first {
        Waypoint::WorkTls(*cp)
    } else {
        Waypoint::Decided(PacketDecision::Forward)
    }
}

/// A connection is worked on once, however many threads ask it and in whatever
/// order they come: of the ClientHellos whose askings follow each other at a
/// connection that was not worked on before, the first is worked on, and the
/// others go on as they are. Between two askings the record may change, but not
/// to forget the first.
pub proof fn a_connection_is_worked_on_once(
    hellos: Seq<ClassifiedPacket>,
    before: Seq<Conn>,
    firsts: Seq<bool>,
    after: Seq<Conn>,
    i: int,
)
    requires
        before.len() == hellos.len(),
        firsts.len() == hellos.len(),
        after.len() == hellos.len(),
        forall|k: int|
            0 <= k < hellos.len() ==> asked_once(#[trigger] before[k], firsts[k], after[k]),
        forall|k: int|
            0 < k < hellos.len() && after[k - 1].desync_applied ==> (
            #[trigger] before[k]).desync_applied,
        hellos.len() > 0,
        !before[0].desync_applied,
        0 <= i < hellos.len(),
    ensures
        way_after_gate(hellos[i], firsts[i]) == (if i == 0 {
            Waypoint::WorkTls(hellos[0])
        } else {
            Waypoint::Decided(PacketDecision::Forward)
        }),
{
    assert(asked_once(before[i], firsts[i], after[i]));
    if i > 0 {
        assert(asked_once(before[i - 1], firsts[i - 1], after[i - 1]));
    }
}

/// Of two ClientHellos that ask one connection at the same time, exactly one is
/// worked on and the other goes on as it is, whichever comes first: at each
/// order of the askings, exactly one of them is the first.
pub proof fn one_of_two_is_worked_on(
    p: ClassifiedPacket,
    q: ClassifiedPacket,
    p_is_ahead: bool,
    conn: Conn,
    between: Conn,
    end: Conn,
    p_first: bool,
    q_first: bool,
)
    requires
        !conn.desync_applied,
        p_is_ahead ==> asked_once(conn, p_first, between) && asked_once(between, q_first, end),
        !p_is_ahead ==> asked_once(conn, q_first, between) && asked_once(between, p_first, end),
    ensures
        (way_after_gate(p, p_first) is WorkTls) != (way_after_gate(q, q_first) is WorkTls),
        way_after_gate(p, p_first) == Waypoint::WorkTls(p) || way_after_gate(p, p_first)
            == Waypoint::Decided(PacketDecision::Forward),
        way_after_gate(q, q_first) == Waypoint::WorkTls(q) || way_after_gate(q, q_first)
            == Waypoint::Decided(PacketDecision::Forward),
{
}

/// How many questions can still come up on a journey.
pub open spec fn questions_left(w: Waypoint) -> nat {
    match w {
        Waypoint::AskRouter { .. } => 3,
        Waypoint::Reassemble(_) => 2,
        Waypoint::AskGate(_) | Waypoint::OfferToResolver(_) => 1,
        _ => 0,
    }
}

/// A journey comes to an end: once the router has answered, at most two
/// questions are left, and the router is not asked again.
pub proof fn router_is_asked_once(
    a: Arrival,
    s: Surroundings,
    cp: ClassifiedPacket,
    decision: RoutingDecision,
    tunnel_up: bool,
    before: (Map<u16, Redirect>, ProcessingStats),
    w: Waypoint,
    after: (Map<u16, Redirect>, ProcessingStats),
)
    requires
        after_second_gate(a, s, cp, decision, tunnel_up, before, w, after),
    ensures
        questions_left(w) <= 2,
        !(w is AskRouter),
        !(w is OfferToResolver),
{
    if routed(decision, cp.protocol, tunnel_up) is Redirect {
        let r = choose|r: Result<PacketDecision, RewriteError>| #[trigger] ends_with(r, w)
            && redirected(a.captured.data@, before.1, r, after.1);
        assert(ends_with(r, w));
    }
}

/// TLS is worked on only once its connection has been asked: no journey begins
/// with it.
pub proof fn tls_waits_for_its_connection(
    a: Arrival,
    s: Surroundings,
    pool: OperaProxyPool,
    before: (Map<u16, Redirect>, ProcessingStats),
    w: Waypoint,
    after: (Map<u16, Redirect>, ProcessingStats),
)
    requires
        begun(a, s, pool, before, w, after),
    ensures
        !(w is WorkTls),
{
    if first_gate(a, s, pool, before.0) is FakeIp {
        let cp = first_gate(a, s, pool, before.0)->FakeIp_0;
        let r = choose|r: Result<PacketDecision, RewriteError>| #[trigger] ends_with(r, w)
            && stand_in_outcome(
                a.captured.data@,
                cp,
                opt_view(a.domain),
                some_proxy(pool, s.custom_enabled),
                a.now_us,
                before,
                r,
                after,
            );
        assert(ends_with(r, w));
    }
}

/// A packet that goes on as it is, with no question asked, changes neither the
/// table nor the counters.
pub proof fn going_on_leaves_no_trace(
    a: Arrival,
    s: Surroundings,
    pool: OperaProxyPool,
    before: (Map<u16, Redirect>, ProcessingStats),
    w: Waypoint,
    after: (Map<u16, Redirect>, ProcessingStats),
)
    requires
        begun(a, s, pool, before, w, after),
        w == Waypoint::Decided(PacketDecision::Forward),
    ensures
        after == before,
{
    if first_gate(a, s, pool, before.0) is FakeIp {
        let cp = first_gate(a, s, pool, before.0)->FakeIp_0;
        let r = choose|r: Result<PacketDecision, RewriteError>| #[trigger] ends_with(r, w)
            && stand_in_outcome(
                a.captured.data@,
                cp,
                opt_view(a.domain),
                some_proxy(pool, s.custom_enabled),
                a.now_us,
                before,
                r,
                after,
            );
        assert(ends_with(r, w));
    }
}

/// A name query over UDP is offered to the resolver as it is, its address
/// turned inbound, whatever the split tunnel says.
pub proof fn name_queries_are_offered_as_they_are(
    a: Arrival,
    s: Surroundings,
    pool: OperaProxyPool,
    before: (Map<u16, Redirect>, ProcessingStats),
    w: Waypoint,
    after: (Map<u16, Redirect>, ProcessingStats),
)
    requires
        begun(a, s, pool, before, w, after),
        match a.class {
            Classification::Dns(cp) => cp.dst_port == DNS_PORT && cp.protocol == 17,
            _ => false,
        },
    ensures
        offers_query(a.captured, w),
        after == before,
{
}

/// The first packet of a connection to a stand-in address whose domain is known
/// ends its journey on its way to port 17650 of this machine, and the table
/// leads from the client's port to where the client was going.
pub proof fn connections_to_stand_ins_reach_the_redirector(
    a: Arrival,
    s: Surroundings,
    pool: OperaProxyPool,
    cp: ClassifiedPacket,
    before: (Map<u16, Redirect>, ProcessingStats),
    w: Waypoint,
    after: (Map<u16, Redirect>, ProcessingStats),
)
    requires
        begun(a, s, pool, before, w, after),
        a.class == Classification::Other(cp),
        cp.protocol == 6,
        cp.dst_ip matches IpAddress::V4(ip) && ip / 0x100_0000 == 10,
        cp.src_port != 17650,
        !a.bypass.ip && !a.bypass.domain,
        a.domain is Some,
        s.custom_enabled,
        crate::engine::packet::opens_connection(a.captured.data@),
        a.captured.data@[0] / 16 == 4,
    ensures
        ({
            let p = a.captured.data@;
            let off: int = (p[0] % 16) * 4;
            &&& w matches Waypoint::Decided(PacketDecision::Modify(m)) && m@.len() == p.len()
                && m@[16] == 127 && m@[17] == 0 && m@[18] == 0 && m@[19] == 1 && m@[off + 2] * 256
                + m@[off + 3] == 17650 && m@[off] == p[off] && m@[off + 1] == p[off + 1]
                && m@.subrange(12, 16) == p.subrange(12, 16)
            &&& after.0.contains_key(cp.src_port)
            &&& after.0[cp.src_port].ip == cp.dst_ip
            &&& after.0[cp.src_port].port == cp.dst_port
            &&& after.0[cp.src_port].domain == Some(a.domain->0@)
            &&& after.0[cp.src_port].created_us == a.now_us
        }),
{
    let p = a.captured.data@;
    stand_in_traffic_is_caught(
        p,
        a.class,
        cp,
        a.bypass,
        before.0,
        pool,
        s.local@,
        s.only_outbound,
    );
    crate::engine::packet::tcp_fields_are_read_in_place(p);
    let r = choose|r: Result<PacketDecision, RewriteError>| #[trigger]
        ends_with(r, w) && stand_in_outcome(
            p,
            cp,
            opt_view(a.domain),
            some_proxy(pool, s.custom_enabled),
            a.now_us,
            before,
            r,
            after,
        );
    stand_in_connections_are_redirected(
        p,
        cp,
        opt_view(a.domain),
        some_proxy(pool, s.custom_enabled),
        a.now_us,
        before,
        r,
        after,
    );
    redirected_packets_go_to_this_machine(p, before.1, r, after.1);
}

/// A packet that comes back from the redirector for a redirected connection
/// leaves with the address and port that the client was talking to, and goes to
/// the client as before.
pub proof fn returning_packets_come_from_the_destination(
    a: Arrival,
    s: Surroundings,
    pool: OperaProxyPool,
    cp: ClassifiedPacket,
    before: (Map<u16, Redirect>, ProcessingStats),
    w: Waypoint,
    after: (Map<u16, Redirect>, ProcessingStats),
)
    requires
        begun(a, s, pool, before, w, after),
        a.class == Classification::Other(cp),
        cp.src_port == 17650,
        before.0.contains_key(cp.dst_port),
        before.0[cp.dst_port].ip is V4,
        w is Decided,
    ensures
        after == before,
        ({
            let p = a.captured.data@;
            let off: int = (p[0] % 16) * 4;
            w matches Waypoint::Decided(PacketDecision::Modify(m)) && m@.len() == p.len() && m@[12]
                * 0x100_0000 + m@[13] * 0x1_0000 + m@[14] * 0x100 + m@[15]
                == before.0[cp.dst_port].ip->V4_0 && m@[off] * 256 + m@[off + 1]
                == before.0[cp.dst_port].port && m@.subrange(16, 20) == p.subrange(16, 20) && m@[off
                + 2] == p[off + 2] && m@[off + 3] == p[off + 3]
        }),
{
    let p = a.captured.data@;
    returning_traffic_is_recognised(
        p,
        a.class,
        a.bypass,
        before.0,
        pool,
        s.local@,
        s.only_outbound,
    );
    let to = before.0[cp.dst_port];
    match rewrite_outcome(p, End::Source, to.ip, to.port) {
        Ok(q) => {
            crate::proxy::rewrite::rewritten_ends_are_read_back(p, End::Source, to.ip, to.port, q);
        },
        Err(_) => {},
    }
}

/// What the split tunnel leaves alone goes on as it is and leaves no trace.
pub proof fn bypassed_packets_leave_no_trace(
    a: Arrival,
    s: Surroundings,
    pool: OperaProxyPool,
    cp: ClassifiedPacket,
    before: (Map<u16, Redirect>, ProcessingStats),
    w: Waypoint,
    after: (Map<u16, Redirect>, ProcessingStats),
)
    requires
        begun(a, s, pool, before, w, after),
        a.class == Classification::Other(cp) || a.class == Classification::Tls(cp) || a.class
            == Classification::Http(cp) || a.class == Classification::Quic(cp),
        a.bypass.ip || a.bypass.domain,
        cp.dst_port != 53,
        cp.src_port != 17650,
    ensures
        w == Waypoint::Decided(PacketDecision::Forward),
        after == before,
{
}

/// A packet whose destination is no stand-in, and that the split tunnel does not
/// leave alone, comes before the router as it is, unless it belongs to the
/// redirector or to a proxy.
pub proof fn ordinary_packets_come_before_the_router(
    a: Arrival,
    s: Surroundings,
    pool: OperaProxyPool,
    cp: ClassifiedPacket,
    before: (Map<u16, Redirect>, ProcessingStats),
    w: Waypoint,
    after: (Map<u16, Redirect>, ProcessingStats),
)
    requires
        begun(a, s, pool, before, w, after),
        a.class == Classification::Tls(cp) || a.class == Classification::Http(cp) || a.class
            == Classification::Quic(cp),
        cp.protocol == 6 || cp.protocol == 17,
        !a.bypass.ip && !a.bypass.domain,
        !s.only_outbound || crate::engine::locality::outbound_from(s.local@, cp.src_ip),
        cp.dst_ip matches IpAddress::V4(ip) ==> ip / 0x100_0000 != 10,
    ensures
        w == (Waypoint::AskRouter { cp, has_name: !(a.class is Quic) }),
        after == before,
{
}

/// What the router says is done at once: direct traffic goes on, unwanted
/// traffic is discarded and counted, a datagram for a proxy enters the tunnel
/// whole, or is discarded where there is none.
pub proof fn router_answers_are_carried_out(
    a: Arrival,
    s: Surroundings,
    cp: ClassifiedPacket,
    decision: RoutingDecision,
    tunnel_up: bool,
    before: (Map<u16, Redirect>, ProcessingStats),
    w: Waypoint,
    after: (Map<u16, Redirect>, ProcessingStats),
)
    requires
        after_second_gate(a, s, cp, decision, tunnel_up, before, w, after),
    ensures
        decision == RoutingDecision::Direct ==> w == Waypoint::Decided(PacketDecision::Forward)
            && after == before,
        decision == RoutingDecision::Drop ==> w == Waypoint::Decided(PacketDecision::Drop)
            && after.0 == before.0 && after.1.dropped == one_more(before.1.dropped),
        decision == RoutingDecision::Proxy && cp.protocol == 17 && tunnel_up ==> (
        w matches Waypoint::Tunnel(p) && p@ == a.captured.data@) && after.0 == before.0,
        decision == RoutingDecision::Proxy && cp.protocol == 17 && !tunnel_up ==> w
            == Waypoint::Decided(PacketDecision::Drop) && after.0 == before.0,
        decision == RoutingDecision::Proxy && cp.protocol != 17 ==> {
            &&& after.0.contains_key(cp.src_port)
            &&& after.0[cp.src_port].ip == cp.dst_ip
            &&& after.0[cp.src_port].port == cp.dst_port
            &&& after.0[cp.src_port].created_us == a.now_us
        },
{
}

/// A TCP packet for a proxy leaves for port 17650 of this machine, still from
/// its client.
pub proof fn proxied_packets_reach_the_redirector(
    a: Arrival,
    s: Surroundings,
    cp: ClassifiedPacket,
    tunnel_up: bool,
    before: (Map<u16, Redirect>, ProcessingStats),
    w: Waypoint,
    after: (Map<u16, Redirect>, ProcessingStats),
)
    requires
        after_second_gate(a, s, cp, RoutingDecision::Proxy, tunnel_up, before, w, after),
        cp.protocol != 17,
        !(w is Failed),
    ensures
        ({
            let p = a.captured.data@;
            let off: int = (p[0] % 16) * 4;
            w matches Waypoint::Decided(PacketDecision::Modify(m)) && m@.len() == p.len() && m@[16]
                == 127 && m@[17] == 0 && m@[18] == 0 && m@[19] == 1 && m@[off + 2] * 256 + m@[off
                + 3] == 17650 && m@[off] == p[off] && m@[off + 1] == p[off + 1] && m@.subrange(
                12,
                16,
            ) == p.subrange(12, 16)
        }),
{
    let r = choose|r: Result<PacketDecision, RewriteError>| #[trigger] ends_with(r, w)
        && redirected(a.captured.data@, before.1, r, after.1);
    redirected_packets_go_to_this_machine(a.captured.data@, before.1, r, after.1);
}

/// Where the router has traffic worked on, TLS to its port is worked on or put
/// together first, QUIC, HTTP and other TCP are worked on each in its own way,
/// and a name query goes on unless clients are to use DNS over HTTPS.
pub proof fn traffic_to_be_worked_on_takes_its_way(
    a: Arrival,
    s: Surroundings,
    cp: ClassifiedPacket,
    tunnel_up: bool,
    before: (Map<u16, Redirect>, ProcessingStats),
    w: Waypoint,
    after: (Map<u16, Redirect>, ProcessingStats),
)
    requires
        after_second_gate(a, s, cp, RoutingDecision::Desync, tunnel_up, before, w, after),
        !s.only_outbound,
    ensures
        after.0 == before.0,
        a.class matches Classification::Tls(c) ==> w == (if c.dst_port != s.desync_port
            || c.payload_offset > a.captured.data@.len() {
            Waypoint::Decided(PacketDecision::Forward)
        } else if a.client_hello && a.captured.data@.len() >= c.payload_offset + 50 {
            Waypoint::AskGate(c)
        } else {
            Waypoint::Reassemble(c)
        }),
        a.class matches Classification::Quic(c) ==> w == Waypoint::WorkQuic(c),
        a.class matches Classification::Http(c) ==> w == Waypoint::WorkHttp(c),
        a.class matches Classification::Other(c) ==> w == Waypoint::WorkGeneric(c),
        a.class matches Classification::Dns(c) ==> w == Waypoint::Decided(
            if s.doh_registered && s.doh_active && c.dst_port == 53 && c.protocol == 17 {
                PacketDecision::Drop
            } else {
                PacketDecision::Forward
            },
        ),
        a.class is Unknown ==> w == Waypoint::Decided(PacketDecision::Forward),
{
}

} // verus!

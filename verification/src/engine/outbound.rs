//! Outgoing connections: which packets are worked on, and what is remembered
//! of a connection.
//!
//! Times are microseconds on a clock that only goes forward.
use vstd::prelude::*;

use dashmap::mapref::entry::Entry;

use crate::engine::dispatch::{decision_for, desync_decision, DesyncResult};
use crate::engine::latency::one_more;
use crate::engine::packet::{
    ack, has_syn, is_syn, read_tcp_flags, read_tcp_sequence, read_ttl, rst, syn, tcp_flags,
    tcp_sequence, ttl_of, CapturedPacket, ClassifiedPacket, InjectProtocol, PacketDecision,
};
use crate::engine::session_ticket::{has_non_empty_session_ticket, resumes_session};
use crate::engine::stats::ProcessingStats;
use crate::proxy::awg_obfuscator::random_between;
use crate::text::{copy_text, opt_view, owned};
use crate::wire::copy_range;

verus! {

/// How long the sequence number of a packet that was worked on is remembered.
pub const SEQ_EVICT_US: u64 = 30_000_000;

/// How many sequence numbers there is room for from the start.
pub const SEQ_CAPACITY: usize = 100_000;

/// What a map of marks holds.
pub uninterp spec fn marks_in(m: dashmap::DashMap<(u64, u32), u64>) -> Map<(u64, u32), u64>;

/// `dashmap::DashMap::with_capacity`: an empty map.
#[verifier::external_body]
fn new_marks(capacity: usize) -> (r: dashmap::DashMap<(u64, u32), u64>)
    requires
        capacity <= 1_000_000,
    ensures
        marks_in(r).dom() == Set::<(u64, u32)>::empty(),
{
    dashmap::DashMap::with_capacity(capacity)
}

/// `dashmap::DashMap::entry`: sets the value of a key that has none, and says
/// whether it had none.
#[verifier::external_body]
fn mark_if_new(m: &mut dashmap::DashMap<(u64, u32), u64>, key: (u64, u32), now: u64) -> (r: bool)
    ensures
        r == !marks_in(*old(m)).contains_key(key),
        marks_in(*final(m)) == (if marks_in(*old(m)).contains_key(key) {
            marks_in(*old(m))
        } else {
            marks_in(*old(m)).insert(key, now)
        }),
{
    match m.entry(key) {
        Entry::Occupied(_) => false,
        Entry::Vacant(e) => {
            e.insert(now);
            true
        },
    }
}

/// `dashmap::DashMap::retain`: keeps the marks that are recent, and no others.
#[verifier::external_body]
fn keep_recent(m: &mut dashmap::DashMap<(u64, u32), u64>, now: u64)
    ensures
        marks_in(*final(m)) == recent_marks(marks_in(*old(m)), now),
{
    m.retain(|_, v| is_recent(*v, now));
}

/// Whether a mark is recent.
pub open spec fn recent(at: u64, now: u64) -> bool {
    at + SEQ_EVICT_US > now
}

/// Whether a mark is recent.
pub fn is_recent(at: u64, now: u64) -> (r: bool)
    ensures
        r == recent(at, now),
{
    now < SEQ_EVICT_US || at > now - SEQ_EVICT_US
}

/// The marks that are recent.
pub open spec fn recent_marks(m: Map<(u64, u32), u64>, now: u64) -> Map<(u64, u32), u64> {
    Map::new(
        |k: (u64, u32)| m.contains_key(k) && recent(m[k], now),
        |k: (u64, u32)| m[k],
    )
}

/// The packets that were worked on, by connection and sequence number.
#[derive(Debug)]
pub struct SeqLog {
    marks: dashmap::DashMap<(u64, u32), u64>,
}

impl View for SeqLog {
    type V = Map<(u64, u32), u64>;

    closed spec fn view(&self) -> Map<(u64, u32), u64> {
        marks_in(self.marks)
    }
}

impl SeqLog {
    /// Nothing worked on yet.
    pub fn new() -> (r: SeqLog)
        ensures
            r@ == Map::<(u64, u32), u64>::empty(),
    {
        let r: SeqLog = SeqLog { marks: new_marks(SEQ_CAPACITY) };
        assert(r@ =~= Map::<(u64, u32), u64>::empty());
        r
    }

    /// Marks a packet, and says whether it is seen for the first time.
    pub fn check_and_mark(&mut self, conn_id: u64, sequence: u32, now_us: u64) -> (r: bool)
        ensures
            r == !old(self)@.contains_key((conn_id, sequence)),
            final(self)@ == (if r {
                old(self)@.insert((conn_id, sequence), now_us)
            } else {
                old(self)@
            }),
    {
        mark_if_new(&mut self.marks, (conn_id, sequence), now_us)
    }

    /// Forgets the packets that are not recent.
    pub fn evict(&mut self, now_us: u64)
        ensures
            final(self)@ == recent_marks(old(self)@, now_us),
    {
        keep_recent(&mut self.marks, now_us);
    }
}

/// Whether an outgoing TLS packet is seen for the first time. Where no
/// sequence number can be read, nothing tells packets apart.
pub open spec fn first_sight(marks: Map<(u64, u32), u64>, conn_id: u64, p: Seq<u8>) -> bool {
    match tcp_sequence(p) {
        Some(seq) => !marks.contains_key((conn_id, seq)),
        None => true,
    }
}

/// The marks after an outgoing TLS packet.
pub open spec fn marks_after(
    marks: Map<(u64, u32), u64>,
    conn_id: u64,
    p: Seq<u8>,
    now: u64,
) -> Map<(u64, u32), u64> {
    match tcp_sequence(p) {
        Some(seq) => if marks.contains_key((conn_id, seq)) {
            marks
        } else {
            marks.insert((conn_id, seq), now)
        },
        None => marks,
    }
}

/// Whether an outgoing TLS packet is worked on: not twice, and not where its
/// destination is left out. The packet is counted and marked first.
pub fn admit_tls(
    captured: &CapturedPacket,
    conn_id: u64,
    excluded: bool,
    geo_routing_enabled: bool,
    now_us: u64,
    log: &mut SeqLog,
    stats: &mut ProcessingStats,
) -> (r: bool)
    ensures
        r == (first_sight(old(log)@, conn_id, captured.data@) && !(geo_routing_enabled
            && excluded)),
        final(log)@ == marks_after(old(log)@, conn_id, captured.data@, now_us),
        *final(stats) == (ProcessingStats {
            tls_outbound: one_more(old(stats).tls_outbound),
            ..*old(stats)
        }),
{
    stats.count_tls_outbound();
    if let Some(seq) = read_tcp_sequence(captured.data.as_slice()) {
        if !log.check_and_mark(conn_id, seq, now_us) {
            return false;
        }
    }
    !(geo_routing_enabled && excluded)
}

/// A packet is worked on at most once: of two that share connection and
/// sequence number, the second is turned away, whatever came in between.
pub proof fn retransmission_is_turned_away(
    before: Map<(u64, u32), u64>,
    later: Map<(u64, u32), u64>,
    conn_id: u64,
    p: Seq<u8>,
    q: Seq<u8>,
    now: u64,
)
    requires
        tcp_sequence(p) is Some,
        tcp_sequence(p) == tcp_sequence(q),
        forall|k: (u64, u32)| #[trigger]
            marks_after(before, conn_id, p, now).contains_key(k) ==> later.contains_key(k),
    ensures
        !first_sight(later, conn_id, q),
{
    let k = (conn_id, tcp_sequence(p)->0);
    assert(marks_after(before, conn_id, p, now).contains_key(k));
}

/// A random code point for a connection's packets, below 48.
pub fn draw_dscp() -> (r: u8)
    ensures
        r < 48,
{
    random_between(0, 47) as u8
}

/// The state of a connection.
#[derive(Debug, Clone, Copy, PartialEq, Eq, Structural)]
pub enum ConnState {
    SynSent,
    Established,
}

/// What is remembered of a connection.
#[derive(Debug, Clone)]
pub struct ConnRecord {
    pub client_isn: u32,
    pub client_seq: u32,
    pub state: ConnState,
    pub desync_applied: bool,
    pub dscp_spoof: u8,
    pub last_activity_us: u64,
    pub is_resumption: bool,
    /// The profile that was applied first.
    pub applied_strategy: Option<String>,
    /// The domain, by which the router knows it.
    pub route_key: Option<String>,
    pub quic_dcid: Vec<u8>,
}

/// The contents of a connection record.
pub struct Conn {
    pub client_isn: u32,
    pub client_seq: u32,
    pub state: ConnState,
    pub desync_applied: bool,
    pub dscp_spoof: u8,
    pub last_activity_us: u64,
    pub is_resumption: bool,
    pub applied_strategy: Option<Seq<char>>,
    pub route_key: Option<Seq<char>>,
    pub quic_dcid: Seq<u8>,
}

impl View for ConnRecord {
    type V = Conn;

    open spec fn view(&self) -> Conn {
        Conn {
            client_isn: self.client_isn,
            client_seq: self.client_seq,
            state: self.state,
            desync_applied: self.desync_applied,
            dscp_spoof: self.dscp_spoof,
            last_activity_us: self.last_activity_us,
            is_resumption: self.is_resumption,
            applied_strategy: opt_view(self.applied_strategy),
            route_key: opt_view(self.route_key),
            quic_dcid: self.quic_dcid@,
        }
    }
}

/// The sequence number that a connection starts with, if the packet says so.
pub open spec fn initial_sequence(p: Seq<u8>) -> u32 {
    if has_syn(p) {
        match tcp_sequence(p) {
            Some(s) => s,
            None => 0,
        }
    } else {
        0
    }
}

fn starting_sequence(packet: &[u8]) -> (r: u32)
    ensures
        r == initial_sequence(packet@),
{
    if is_syn(packet) {
        match read_tcp_sequence(packet) {
            Some(s) => s,
            None => 0,
        }
    } else {
        0
    }
}

/// The first known of two texts.
pub open spec fn known(a: Option<Seq<char>>, b: Option<Seq<char>>) -> Option<Seq<char>> {
    match a {
        Some(t) => Some(t),
        None => b,
    }
}

/// Whether a connection that is asked for leave to work on a ClientHello gives
/// it the first time, and keeps that in mind.
pub open spec fn asked_once(before: Conn, first: bool, after: Conn) -> bool {
    &&& first == !before.desync_applied
    &&& after == (Conn { desync_applied: true, ..before })
}

impl ConnRecord {
    /// Asks for leave to work on a ClientHello of the connection: only the
    /// first to ask has it.
    pub fn check_and_apply_desync(&mut self) -> (first: bool)
        ensures
            asked_once(old(self)@, first, final(self)@),
    {
        let first: bool = !self.desync_applied;
        self.desync_applied = true;
        first
    }

    /// A TLS connection that is seen for the first time.
    pub fn open_tls(packet: &[u8], domain: &Option<String>, dscp_spoof: u8, now_us: u64) -> (r:
        ConnRecord)
        ensures
            r@ == (Conn {
                client_isn: initial_sequence(packet@),
                client_seq: initial_sequence(packet@),
                state: ConnState::SynSent,
                desync_applied: false,
                dscp_spoof,
                last_activity_us: now_us,
                is_resumption: false,
                applied_strategy: None,
                route_key: opt_view(*domain),
                quic_dcid: Seq::empty(),
            }),
    {
        let isn: u32 = starting_sequence(packet);
        ConnRecord {
            client_isn: isn,
            client_seq: isn,
            state: ConnState::SynSent,
            desync_applied: false,
            dscp_spoof,
            last_activity_us: now_us,
            is_resumption: false,
            applied_strategy: None,
            route_key: copy_text(domain),
            quic_dcid: Vec::new(),
        }
    }

    /// Takes note of another packet of a TLS connection. The initial sequence
    /// number and the domain are filled in once.
    pub fn touch_tls(&mut self, packet: &[u8], domain: &Option<String>, now_us: u64)
        ensures
            final(self)@ == (Conn {
                last_activity_us: now_us,
                client_isn: if has_syn(packet@) && old(self)@.client_isn == 0 {
                    initial_sequence(packet@)
                } else {
                    old(self)@.client_isn
                },
                client_seq: if has_syn(packet@) && old(self)@.client_isn == 0 {
                    initial_sequence(packet@)
                } else {
                    old(self)@.client_seq
                },
                route_key: known(old(self)@.route_key, opt_view(*domain)),
                ..old(self)@
            }),
    {
        self.last_activity_us = now_us;
        if is_syn(packet) && self.client_isn == 0 {
            let isn: u32 = starting_sequence(packet);
            self.client_isn = isn;
            self.client_seq = isn;
        }
        if self.route_key.is_none() {
            self.route_key = copy_text(domain);
        }
    }

    /// A QUIC connection that is seen for the first time.
    pub fn open_quic(dcid: Vec<u8>, domain: &Option<String>, dscp_spoof: u8, now_us: u64) -> (r:
        ConnRecord)
        ensures
            r@ == (Conn {
                client_isn: 0,
                client_seq: 0,
                state: ConnState::Established,
                desync_applied: false,
                dscp_spoof,
                last_activity_us: now_us,
                is_resumption: false,
                applied_strategy: None,
                route_key: opt_view(*domain),
                quic_dcid: dcid@,
            }),
    {
        ConnRecord {
            client_isn: 0,
            client_seq: 0,
            state: ConnState::Established,
            desync_applied: false,
            dscp_spoof,
            last_activity_us: now_us,
            is_resumption: false,
            applied_strategy: None,
            route_key: copy_text(domain),
            quic_dcid: dcid,
        }
    }

    /// Takes note of another packet of a QUIC connection.
    pub fn touch_quic(&mut self, domain: &Option<String>, now_us: u64)
        ensures
            final(self)@ == (Conn {
                last_activity_us: now_us,
                route_key: known(old(self)@.route_key, opt_view(*domain)),
                ..old(self)@
            }),
    {
        self.last_activity_us = now_us;
        if self.route_key.is_none() {
            self.route_key = copy_text(domain);
        }
    }

    /// Takes note of whether the ClientHello resumes a session.
    pub fn note_resumption(&mut self, is_resumption: bool)
        ensures
            final(self)@ == (Conn { is_resumption, ..old(self)@ }),
    {
        self.is_resumption = is_resumption;
    }

    /// Takes note of the profile that was applied, where it had an effect and
    /// is the first.
    pub fn note_strategy(&mut self, name: &str, result: &DesyncResult)
        ensures
            final(self)@ == (Conn {
                applied_strategy: if had_effect(*result) {
                    known(old(self)@.applied_strategy, Some(name@))
                } else {
                    old(self)@.applied_strategy
                },
                ..old(self)@
            }),
    {
        if (result.inject.len() > 0 || result.modified.is_some())
            && self.applied_strategy.is_none() {
            self.applied_strategy = Some(owned(name));
        }
    }
}

/// Whether a profile made something of a packet.
pub open spec fn had_effect(result: DesyncResult) -> bool {
    result.inject@.len() > 0 || result.modified is Some
}

/// Whether the payload of a packet resumes a TLS session.
pub open spec fn resumption(p: Seq<u8>, offset: int) -> bool {
    offset < p.len() && resumes_session(p.subrange(offset, p.len() as int))
}

/// Whether the payload of a packet resumes a TLS session.
pub fn is_resumption(captured: &CapturedPacket, cp: &ClassifiedPacket) -> (r: bool)
    ensures
        r == resumption(captured.data@, cp.payload_offset as int),
{
    if cp.payload_offset < captured.data.len() {
        let payload: Vec<u8> = copy_range(
            captured.data.as_slice(),
            cp.payload_offset,
            captured.data.len(),
        );
        has_non_empty_session_ticket(payload.as_slice())
    } else {
        false
    }
}

/// What is done with an outgoing TLS packet.
#[derive(Debug, Clone)]
pub enum TlsStep {
    /// It goes on.
    Forward,
    /// A profile is applied to it, and its result decides.
    Apply {
        /// What is remembered of the connection from now on.
        conn: ConnRecord,
        is_resumption: bool,
        /// The time to live to learn from.
        ttl: Option<u8>,
    },
}

/// What is remembered of a TLS connection once another packet has been seen.
pub open spec fn conn_after(
    conn: Option<Conn>,
    p: Seq<u8>,
    offset: int,
    domain: Option<Seq<char>>,
    dscp_spoof: u8,
    now: u64,
) -> Conn {
    let seen = match conn {
        None => Conn {
            client_isn: initial_sequence(p),
            client_seq: initial_sequence(p),
            state: ConnState::SynSent,
            desync_applied: false,
            dscp_spoof,
            last_activity_us: now,
            is_resumption: false,
            applied_strategy: None,
            route_key: domain,
            quic_dcid: Seq::empty(),
        },
        Some(c) => Conn {
            last_activity_us: now,
            client_isn: if has_syn(p) && c.client_isn == 0 {
                initial_sequence(p)
            } else {
                c.client_isn
            },
            client_seq: if has_syn(p) && c.client_isn == 0 {
                initial_sequence(p)
            } else {
                c.client_seq
            },
            route_key: known(c.route_key, domain),
            ..c
        },
    };
    Conn { is_resumption: resumption(p, offset), ..seen }
}

/// The contents of a record, where there is one.
pub open spec fn conn_view(c: Option<ConnRecord>) -> Option<Conn> {
    match c {
        Some(r) => Some(r@),
        None => None,
    }
}

/// What is known of the world around an outgoing TLS packet.
#[derive(Debug, Clone)]
pub struct TlsContext {
    pub conn_id: u64,
    /// The domain of the destination.
    pub domain: Option<String>,
    /// Whether the destination is left out.
    pub excluded: bool,
    pub geo_routing_enabled: bool,
    pub hop_tab_enabled: bool,
    /// The value for a connection that is new.
    pub dscp_spoof: u8,
    pub now_us: u64,
}

/// What comes of beginning the work on an outgoing TLS packet.
pub open spec fn tls_begun(
    marks: Map<(u64, u32), u64>,
    p: Seq<u8>,
    offset: int,
    context: TlsContext,
    conn: Option<Conn>,
    r: TlsStep,
) -> bool {
    match r {
        TlsStep::Forward => !first_sight(marks, context.conn_id, p) || (context.geo_routing_enabled
            && context.excluded),
        TlsStep::Apply { conn: after, is_resumption, ttl } => {
            &&& first_sight(marks, context.conn_id, p)
            &&& !(context.geo_routing_enabled && context.excluded)
            &&& after@ == conn_after(
                conn,
                p,
                offset,
                opt_view(context.domain),
                context.dscp_spoof,
                context.now_us,
            )
            &&& is_resumption == resumption(p, offset)
            &&& ttl == (if context.hop_tab_enabled {
                ttl_of(p)
            } else {
                None
            })
        },
    }
}

/// Begins the work on an outgoing TLS packet: packets that were worked on
/// before go on, and so do those to destinations that are left out; the others
/// are taken note of and worked on.
pub fn begin_outbound_tls(
    captured: &CapturedPacket,
    cp: &ClassifiedPacket,
    context: &TlsContext,
    conn: Option<ConnRecord>,
    log: &mut SeqLog,
    stats: &mut ProcessingStats,
) -> (r: TlsStep)
    ensures
        final(log)@ == marks_after(old(log)@, context.conn_id, captured.data@, context.now_us),
        *final(stats) == (ProcessingStats {
            tls_outbound: one_more(old(stats).tls_outbound),
            ..*old(stats)
        }),
        tls_begun(
            old(log)@,
            captured.data@,
            cp.payload_offset as int,
            *context,
            conn_view(conn),
            r,
        ),
{
    if !admit_tls(
        captured,
        context.conn_id,
        context.excluded,
        context.geo_routing_enabled,
        context.now_us,
        log,
        stats,
    ) {
        return TlsStep::Forward;
    }
    let ttl: Option<u8> = if context.hop_tab_enabled {
        read_ttl(captured.data.as_slice())
    } else {
        None
    };
    let mut record: ConnRecord = match conn {
        None => ConnRecord::open_tls(
            captured.data.as_slice(),
            &context.domain,
            context.dscp_spoof,
            context.now_us,
        ),
        Some(c) => {
            let mut c: ConnRecord = c;
            c.touch_tls(captured.data.as_slice(), &context.domain, context.now_us);
            c
        },
    };
    let resumes: bool = is_resumption(captured, cp);
    record.note_resumption(resumes);
    TlsStep::Apply { conn: record, is_resumption: resumes, ttl }
}

/// The payload of a packet that holds a QUIC packet, from which the connection
/// id is read; `None` where the packet ends before it.
pub fn quic_payload(captured: &CapturedPacket, cp: &ClassifiedPacket) -> (r: Option<Vec<u8>>)
    ensures
        match r {
            Some(payload) => cp.payload_offset < captured.data@.len() && payload@
                == captured.data@.subrange(cp.payload_offset as int, captured.data@.len() as int),
            None => cp.payload_offset >= captured.data@.len(),
        },
{
    if cp.payload_offset < captured.data.len() {
        Some(copy_range(captured.data.as_slice(), cp.payload_offset, captured.data.len()))
    } else {
        None
    }
}

/// What is remembered of a QUIC connection once another packet has been seen.
pub open spec fn quic_conn_after(
    conn: Option<Conn>,
    dcid: Option<Seq<u8>>,
    domain: Option<Seq<char>>,
    dscp_spoof: u8,
    now: u64,
) -> Conn {
    match conn {
        None => Conn {
            client_isn: 0,
            client_seq: 0,
            state: ConnState::Established,
            desync_applied: false,
            dscp_spoof,
            last_activity_us: now,
            is_resumption: false,
            applied_strategy: None,
            route_key: domain,
            quic_dcid: match dcid {
                Some(id) => id,
                None => Seq::empty(),
            },
        },
        Some(c) => Conn { last_activity_us: now, route_key: known(c.route_key, domain), ..c },
    }
}

/// Takes note of a QUIC packet: a connection that is new is remembered under
/// the connection id of the packet, if it has one; of a known one only the
/// activity and, where it was missing, the domain change.
pub fn begin_quic(
    conn: Option<ConnRecord>,
    dcid: Option<Vec<u8>>,
    domain: &Option<String>,
    dscp_spoof: u8,
    now_us: u64,
) -> (r: ConnRecord)
    ensures
        r@ == quic_conn_after(
            conn_view(conn),
            match dcid {
                Some(id) => Some(id@),
                None => None,
            },
            opt_view(*domain),
            dscp_spoof,
            now_us,
        ),
{
    match conn {
        None => {
            let id: Vec<u8> = match dcid {
                Some(id) => id,
                None => Vec::new(),
            };
            ConnRecord::open_quic(id, domain, dscp_spoof, now_us)
        },
        Some(c) => {
            let mut c: ConnRecord = c;
            c.touch_quic(domain, now_us);
            c
        },
    }
}

/// Ends the work on an outgoing packet: takes note of the profile and decides
/// what becomes of the packet.
pub fn finish_outbound(
    conn: &mut ConnRecord,
    profile: &str,
    result: DesyncResult,
    protocol: InjectProtocol,
) -> (r: PacketDecision)
    ensures
        r == decision_for(result, protocol),
        final(conn)@ == (Conn {
            applied_strategy: if had_effect(result) {
                known(old(conn)@.applied_strategy, Some(profile@))
            } else {
                old(conn)@.applied_strategy
            },
            ..old(conn)@
        }),
{
    conn.note_strategy(profile, &result);
    desync_decision(result, protocol)
}

/// Numbers that a profile works with.
#[derive(Debug, Clone, Copy, PartialEq, Eq, Structural)]
pub struct TuneParams {
    pub split_size: Option<usize>,
    pub split_count: Option<usize>,
    pub fake_ttl_offset: Option<u8>,
    pub max_seg_size: Option<u16>,
}

/// Parameters with the time to live that was learned for the destination,
/// where none is set and learning is on.
pub fn with_learned_ttl(params: TuneParams, hop_tab_enabled: bool, learned: Option<u8>) -> (r:
    TuneParams)
    ensures
        r == (if hop_tab_enabled && params.fake_ttl_offset is None {
            TuneParams { fake_ttl_offset: learned, ..params }
        } else {
            params
        }),
{
    let mut params: TuneParams = params;
    if hop_tab_enabled && params.fake_ttl_offset.is_none() {
        params.fake_ttl_offset = learned;
    }
    params
}

/// What the router is told.
#[derive(Debug, Clone, Copy, PartialEq, Eq, Structural)]
pub enum RouterNote {
    Nothing,
    /// The connection was reset.
    Reset,
    /// The connection works; this many bytes came.
    Working(usize),
}

/// What a packet says of the connection it belongs to.
#[derive(Debug, Clone, Copy, PartialEq, Eq, Structural)]
pub struct Observation {
    pub router: RouterNote,
    /// Whether the profile that was applied worked, where that can be told.
    pub outcome: Option<bool>,
}

/// What a TCP packet with some flags says. The router is told of incoming
/// packets of connections that it routed; profiles are judged by connections
/// that one was applied to.
pub open spec fn observed(
    flags: u8,
    payload_len: usize,
    inbound: bool,
    routed: bool,
    strategy_applied: bool,
) -> Observation {
    Observation {
        router: if inbound && routed {
            if rst(flags) {
                RouterNote::Reset
            } else if (syn(flags) && ack(flags)) || payload_len > 0 {
                RouterNote::Working(payload_len)
            } else {
                RouterNote::Nothing
            }
        } else {
            RouterNote::Nothing
        },
        outcome: if !strategy_applied {
            None
        } else if rst(flags) {
            Some(false)
        } else if syn(flags) && ack(flags) {
            Some(true)
        } else {
            None
        },
    }
}

/// Nothing to be told.
pub open spec fn nothing_observed() -> Observation {
    Observation { router: RouterNote::Nothing, outcome: None }
}

/// What a packet says of the connection it belongs to.
pub open spec fn packet_observed(
    p: Seq<u8>,
    cp: ClassifiedPacket,
    inbound: bool,
    routed: bool,
    strategy_applied: bool,
) -> Observation {
    match tcp_flags(p) {
        Some(flags) => if cp.protocol == 6 {
            observed(flags, cp.payload_len, inbound, routed, strategy_applied)
        } else {
            nothing_observed()
        },
        None => nothing_observed(),
    }
}

/// What a packet says of the connection it belongs to.
pub fn observe_connection_outcome(
    packet: &[u8],
    cp: &ClassifiedPacket,
    inbound: bool,
    routed: bool,
    strategy_applied: bool,
) -> (r: Observation)
    ensures
        r == packet_observed(packet@, *cp, inbound, routed, strategy_applied),
{
    let nothing: Observation = Observation { router: RouterNote::Nothing, outcome: None };
    if cp.protocol != 6 {
        return nothing;
    }
    let flags: u8 = match read_tcp_flags(packet) {
        Some(f) => f,
        None => {
            return nothing;
        },
    };
    let is_rst: bool = (flags / 4) % 2 == 1;
    let is_syn: bool = (flags / 2) % 2 == 1;
    let is_ack: bool = (flags / 16) % 2 == 1;
    let router: RouterNote = if !(inbound && routed) {
        RouterNote::Nothing
    } else if is_rst {
        RouterNote::Reset
    } else if (is_syn && is_ack) || cp.payload_len > 0 {
        RouterNote::Working(cp.payload_len)
    } else {
        RouterNote::Nothing
    };
    let outcome: Option<bool> = if !strategy_applied {
        None
    } else if is_rst {
        Some(false)
    } else if is_syn && is_ack {
        Some(true)
    } else {
        None
    };
    Observation { router, outcome }
}

/// The parameters that the next profile starts with: none, but for a bolder
/// time to live where the target keeps resetting.
pub fn fallback_params(escalate: bool) -> (r: TuneParams)
    ensures
        r == (TuneParams {
            split_size: None,
            split_count: None,
            fake_ttl_offset: if escalate {
                Some(2)
            } else {
                None
            },
            max_seg_size: None,
        }),
{
    TuneParams {
        split_size: None,
        split_count: None,
        fake_ttl_offset: if escalate {
            Some(2)
        } else {
            None
        },
        max_seg_size: None,
    }
}

/// A reset never counts as a success, neither for the router nor for the
/// profile.
pub proof fn reset_is_never_success(
    flags: u8,
    payload_len: usize,
    inbound: bool,
    routed: bool,
    strategy_applied: bool,
)
    requires
        rst(flags),
    ensures
        observed(flags, payload_len, inbound, routed, strategy_applied).outcome != Some(true),
        !(observed(flags, payload_len, inbound, routed, strategy_applied).router is Working),
{
}

/// An outgoing TLS packet is worked on exactly where it was not seen before and
/// its destination is not left out; leaving out needs routing by region to be
/// on. Where it is worked on, the time to live is learned from it if that is on.
pub proof fn tls_packets_are_worked_on_exactly_so(
    marks: Map<(u64, u32), u64>,
    p: Seq<u8>,
    offset: int,
    context: TlsContext,
    conn: Option<Conn>,
    r: TlsStep,
)
    requires
        tls_begun(marks, p, offset, context, conn, r),
    ensures
        ({
            let seen = tcp_sequence(p) matches Some(seq) && marks.contains_key((
                context.conn_id,
                seq,
            ));
            &&& r is Apply <==> !seen && !(context.geo_routing_enabled && context.excluded)
            &&& r matches TlsStep::Apply { ttl, .. } ==> ttl == (if context.hop_tab_enabled
                && p.len() >= 20 {
                Some(p[8])
            } else {
                None
            })
        }),
{
}

/// What is remembered of a TLS connection that is new: the code point it was
/// given, its domain, the time, the number that a SYN starts with, and that
/// nothing was done to it yet.
pub proof fn new_connections_start_blank(
    p: Seq<u8>,
    offset: int,
    context: TlsContext,
    marks: Map<(u64, u32), u64>,
    r: TlsStep,
)
    requires
        tls_begun(marks, p, offset, context, None, r),
        r is Apply,
    ensures
        ({
            let c = r->conn@;
            let start: u32 = if has_syn(p) && tcp_sequence(p) is Some {
                tcp_sequence(p)->0
            } else {
                0
            };
            &&& c.client_isn == start && c.client_seq == start
            &&& c.state == ConnState::SynSent
            &&& !c.desync_applied
            &&& c.dscp_spoof == context.dscp_spoof
            &&& c.last_activity_us == context.now_us
            &&& c.applied_strategy is None
            &&& c.route_key == opt_view(context.domain)
            &&& c.is_resumption == r->is_resumption
        }),
{
}

/// What is remembered of a TLS connection that is known stays: its code point,
/// its state, what was done to it, and the domain and starting number once they
/// are known. The activity is that of the packet.
pub proof fn known_connections_keep_what_is_known(
    c: Conn,
    p: Seq<u8>,
    offset: int,
    context: TlsContext,
    marks: Map<(u64, u32), u64>,
    r: TlsStep,
)
    requires
        tls_begun(marks, p, offset, context, Some(c), r),
        r is Apply,
    ensures
        ({
            let d = r->conn@;
            &&& d.state == c.state
            &&& d.desync_applied == c.desync_applied
            &&& d.dscp_spoof == c.dscp_spoof
            &&& d.applied_strategy == c.applied_strategy
            &&& d.quic_dcid == c.quic_dcid
            &&& d.last_activity_us == context.now_us
            &&& c.route_key is Some ==> d.route_key == c.route_key
            &&& c.route_key is None ==> d.route_key == opt_view(context.domain)
            &&& c.client_isn != 0 || !has_syn(p) ==> d.client_isn == c.client_isn && d.client_seq
                == c.client_seq
            &&& c.client_isn == 0 && has_syn(p) && tcp_sequence(p) is Some ==> d.client_isn
                == tcp_sequence(p)->0 && d.client_seq == tcp_sequence(p)->0
        }),
{
}

/// A QUIC connection that is new is remembered under the id of its packet; one
/// that is known keeps all but its activity, and its domain where that was
/// missing.
pub proof fn quic_connections_are_remembered(
    conn: Option<Conn>,
    dcid: Option<Seq<u8>>,
    domain: Option<Seq<char>>,
    dscp_spoof: u8,
    now: u64,
)
    ensures
        ({
            let d = quic_conn_after(conn, dcid, domain, dscp_spoof, now);
            &&& d.last_activity_us == now
            &&& conn is None ==> {
                &&& dcid is Some ==> d.quic_dcid == dcid->0
                &&& dcid is None ==> d.quic_dcid.len() == 0
                &&& d.dscp_spoof == dscp_spoof
                &&& d.route_key == domain
                &&& d.state == ConnState::Established
                &&& !d.desync_applied
                &&& d.applied_strategy is None
            }
            &&& conn matches Some(c) ==> {
                &&& d.quic_dcid == c.quic_dcid
                &&& d.dscp_spoof == c.dscp_spoof
                &&& d.state == c.state
                &&& d.desync_applied == c.desync_applied
                &&& d.applied_strategy == c.applied_strategy
                &&& d.client_isn == c.client_isn
                &&& c.route_key is Some ==> d.route_key == c.route_key
                &&& c.route_key is None ==> d.route_key == domain
            }
        }),
{
}

/// A packet is marked once: the mark is made where there is none, with the time
/// it was made, and other marks stay.
pub proof fn packets_are_marked_once(
    marks: Map<(u64, u32), u64>,
    conn_id: u64,
    p: Seq<u8>,
    now: u64,
    k: (u64, u32),
)
    ensures
        ({
            let after = marks_after(marks, conn_id, p, now);
            let own = tcp_sequence(p) matches Some(seq) && k == (conn_id, seq);
            &&& after.contains_key(k) <==> marks.contains_key(k) || own
            &&& marks.contains_key(k) ==> after[k] == marks[k]
            &&& own && !marks.contains_key(k) ==> after[k] == now
        }),
{
}

/// A mark is forgotten exactly when thirty seconds have passed since it was
/// made.
pub proof fn marks_last_half_a_minute(marks: Map<(u64, u32), u64>, now: u64, k: (u64, u32))
    ensures
        recent_marks(marks, now).contains_key(k) <==> marks.contains_key(k) && now < marks[k]
            + 30_000_000,
        recent_marks(marks, now).contains_key(k) ==> recent_marks(marks, now)[k] == marks[k],
{
}

/// What a TCP packet tells. The router hears of incoming packets of connections
/// that it routed: a reset as such, and an acceptance or a payload as a working
/// connection. A profile that was applied is judged by resets and acceptances,
/// whichever way they go. Other packets tell nothing.
pub proof fn packets_tell_how_connections_fare(
    p: Seq<u8>,
    cp: ClassifiedPacket,
    inbound: bool,
    routed: bool,
    strategy_applied: bool,
)
    ensures
        ({
            let r = packet_observed(p, cp, inbound, routed, strategy_applied);
            let told = cp.protocol == 6 && tcp_flags(p) is Some;
            let flags = tcp_flags(p)->0;
            let reset = flags & 4 != 0;
            let accepted = flags & 2 != 0 && flags & 16 != 0;
            &&& !told ==> r.router is Nothing && r.outcome is None
            &&& told ==> {
                &&& r.router is Reset <==> inbound && routed && reset
                &&& r.router is Working <==> inbound && routed && !reset && (accepted
                    || cp.payload_len > 0)
                &&& r.router matches RouterNote::Working(n) ==> n == cp.payload_len
                &&& r.outcome == Some(false) <==> strategy_applied && reset
                &&& r.outcome == Some(true) <==> strategy_applied && !reset && accepted
            }
        }),
{
    if let Some(flags) = tcp_flags(p) {
        crate::engine::packet::flags_are_single_bits(flags);
    }
}

/// A profile had an effect where it made extra packets or changed the packet;
/// what is known first stays.
pub proof fn first_knowledge_stays(result: DesyncResult, a: Option<Seq<char>>, b: Option<Seq<char>>)
    ensures
        had_effect(result) <==> result.inject@.len() > 0 || result.modified is Some,
        a is Some ==> known(a, b) == a,
        a is None ==> known(a, b) == b,
{
}

/// A ClientHello resumes a session only where the packet reaches its payload,
/// and what counts is the payload alone.
pub proof fn resumption_is_read_from_the_payload(p: Seq<u8>, q: Seq<u8>, offset: int)
    requires
        0 <= offset,
    ensures
        offset >= p.len() ==> !resumption(p, offset),
        offset < p.len() && offset < q.len() && p.subrange(offset, p.len() as int) == q.subrange(
            offset,
            q.len() as int,
        ) ==> resumption(p, offset) == resumption(q, offset),
{
}

/// A connection gives leave once: it is given exactly where none was given
/// before, it is given no second time, and nothing else of the connection
/// changes.
pub proof fn leave_is_given_once(
    before: Conn,
    first: bool,
    between: Conn,
    second: bool,
    after: Conn,
)
    requires
        asked_once(before, first, between),
        asked_once(between, second, after),
    ensures
        first <==> !before.desync_applied,
        !second,
        between.desync_applied && after == between,
        between.client_isn == before.client_isn && between.client_seq == before.client_seq,
        between.state == before.state && between.applied_strategy == before.applied_strategy,
        between.route_key == before.route_key && between.is_resumption == before.is_resumption,
{
}

} // verus!

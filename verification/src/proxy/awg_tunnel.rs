//! Datagrams through the tunnel: they leave with the tunnel's address, and
//! replies find their way back to the client.
use vstd::prelude::*;

use crate::base64::{base64_decode, decoded_key};
use crate::checksum::{internet_checksum, ipv4_checksum, verifies};
use crate::ip::{be_bytes, be_number};
use crate::packet_invariants::ihl;
use crate::proxy::awg_obfuscator::{
    disguise_comes_off, is_disguise_of, plain_kind, undisguised, AwgObfuscationConfig, AwgObfuscator,
};
use crate::proxy::wire_tunnel::{
    decapsulate, encapsulate, fits_reason, keys_accepted, new_tunnel, poll, sealed_len, Instants,
    Sealed, TimerEvent, TunnelEvent, WireReason, WireTunnel,
};
use crate::text::{chars_of, find_char, index_of, text_of};
use crate::wire::{be16, be16_bytes, be_digits, be_value, copy_range, overwrite, push_be16, read_be16, written_at};

verus! {

/// The room that a message of the tunnel is given.
pub const WIRE_ROOM: usize = 2048;

/// The ends of a UDP datagram over IPv4.
#[derive(Debug, Clone, Copy, PartialEq, Eq, Structural)]
pub struct ParsedUdp {
    pub src_ip: u32,
    pub dst_ip: u32,
    pub src_port: u16,
    pub dst_port: u16,
    /// Where the payload starts.
    pub payload_offset: usize,
}

/// The ends of a UDP datagram over IPv4.
pub open spec fn udp_of(p: Seq<u8>) -> Option<ParsedUdp> {
    if p.len() >= 28 && p[0] / 16 == 4 && p.len() >= ihl(p) + 8 && p[9] == 17 {
        let at = ihl(p);
        Some(
            ParsedUdp {
                src_ip: be_value(p.subrange(12, 16)) as u32,
                dst_ip: be_value(p.subrange(16, 20)) as u32,
                src_port: be16(p[at], p[at + 1]) as u16,
                dst_port: be16(p[at + 2], p[at + 3]) as u16,
                payload_offset: (at + 8) as usize,
            },
        )
    } else {
        None
    }
}

/// Reads the ends of a UDP datagram over IPv4.
pub fn parse_ipv4_udp(data: &[u8]) -> (r: Option<ParsedUdp>)
    ensures
        r == udp_of(data@),
{
    if data.len() < 28 {
        return None;
    }
    proof {
        vstd::arithmetic::power2::lemma2_to64();
    }
    let at: usize = (data[0] % 16) as usize * 4;
    if data[0] / 16 != 4 || data.len() < at + 8 {
        return None;
    }
    if data[9] != 17 {
        return None;
    }
    Some(
        ParsedUdp {
            src_ip: be_number(data, 12, 16) as u32,
            dst_ip: be_number(data, 16, 20) as u32,
            src_port: read_be16(data, at),
            dst_port: read_be16(data, at + 2),
            payload_offset: at + 8,
        },
    )
}

/// A datagram with other addresses and ports; the checksums are not up to
/// date.
pub open spec fn readdressed(
    p: Seq<u8>,
    src_ip: u32,
    src_port: u16,
    dst_ip: u32,
    dst_port: u16,
) -> Seq<u8> {
    let a = written_at(p, 12, be_digits(src_ip as nat, 4));
    let b = written_at(a, 16, be_digits(dst_ip as nat, 4));
    let c = written_at(b, ihl(p), be16_bytes(src_port));
    written_at(c, ihl(p) + 2, be16_bytes(dst_port))
}

/// A datagram with other addresses and ports, the header checksum brought up
/// to date, and the UDP checksum switched off.
pub open spec fn rerouted(
    p: Seq<u8>,
    src_ip: u32,
    src_port: u16,
    dst_ip: u32,
    dst_port: u16,
) -> Seq<u8> {
    let q = written_at(readdressed(p, src_ip, src_port, dst_ip, dst_port), 10, seq![0u8, 0u8]);
    let summed = written_at(q, 10, be16_bytes(internet_checksum(q.subrange(0, ihl(p)))));
    written_at(summed, ihl(p) + 6, seq![0u8, 0u8])
}

fn write_be16(data: &mut Vec<u8>, at: usize, x: u16)
    requires
        at + 2 <= old(data)@.len(),
    ensures
        final(data)@ == written_at(old(data)@, at as int, be16_bytes(x)),
{
    let mut bytes: Vec<u8> = Vec::new();
    push_be16(&mut bytes, x);
    assert(bytes@ =~= be16_bytes(x));
    overwrite(data, at, bytes.as_slice());
}

/// Gives a datagram other addresses and ports.
pub fn rewrite_ipv4_udp(
    data: &mut Vec<u8>,
    new_src_ip: u32,
    new_src_port: u16,
    new_dst_ip: u32,
    new_dst_port: u16,
)
    requires
        old(data)@.len() >= 28,
        old(data)@.len() >= ihl(old(data)@) + 8,
    ensures
        final(data)@ == rerouted(
            old(data)@,
            new_src_ip,
            new_src_port,
            new_dst_ip,
            new_dst_port,
        ),
{
    let ghost before: Seq<u8> = data@;
    let at: usize = (data[0] % 16) as usize * 4;
    let src: Vec<u8> = be_bytes(new_src_ip as u128, 4);
    overwrite(data, 12, src.as_slice());
    let dst: Vec<u8> = be_bytes(new_dst_ip as u128, 4);
    overwrite(data, 16, dst.as_slice());
    write_be16(data, at, new_src_port);
    write_be16(data, at + 2, new_dst_port);
    let zeros: [u8; 2] = [0, 0];
    assert(zeros@ =~= seq![0u8, 0u8]);
    overwrite(data, 10, zeros.as_slice());
    let header: Vec<u8> = copy_range(data.as_slice(), 0, at);
    let checksum: u16 = ipv4_checksum(header.as_slice());
    write_be16(data, 10, checksum);
    overwrite(data, at + 6, zeros.as_slice());
}

/// The header of a rerouted datagram carries the right checksum, as long as
/// the header does not reach into itself.
pub proof fn rerouted_header_verifies(
    p: Seq<u8>,
    src_ip: u32,
    src_port: u16,
    dst_ip: u32,
    dst_port: u16,
)
    requires
        p.len() >= ihl(p) + 8,
        ihl(p) >= 20,
    ensures
        verifies(rerouted(p, src_ip, src_port, dst_ip, dst_port).subrange(0, ihl(p))),
{
    let q = written_at(readdressed(p, src_ip, src_port, dst_ip, dst_port), 10, seq![0u8, 0u8]);
    let zeroed = q.subrange(0, ihl(p));
    let filled = written_at(zeroed, 10, be16_bytes(internet_checksum(zeroed)));
    assert(rerouted(p, src_ip, src_port, dst_ip, dst_port).subrange(0, ihl(p)) =~= filled);
    crate::checksum::checksum_makes_header_verify(zeroed, 10, filled);
}

/// Reading a rerouted datagram gives the new ends; nothing else that is read
/// changes.
pub proof fn rerouted_ends_are_read_back(
    p: Seq<u8>,
    src_ip: u32,
    src_port: u16,
    dst_ip: u32,
    dst_port: u16,
)
    requires
        udp_of(p) is Some,
        ihl(p) >= 20,
    ensures
        udp_of(rerouted(p, src_ip, src_port, dst_ip, dst_port)) == Some(
            ParsedUdp { src_ip, dst_ip, src_port, dst_port, ..udp_of(p)->0 },
        ),
{
    vstd::arithmetic::power2::lemma2_to64();
    crate::wire::lemma_be_digits_len(src_ip as nat, 4);
    crate::wire::lemma_be_digits_len(dst_ip as nat, 4);
    crate::wire::lemma_be_value_of_digits(src_ip as nat, 4);
    crate::wire::lemma_be_value_of_digits(dst_ip as nat, 4);
    let q = rerouted(p, src_ip, src_port, dst_ip, dst_port);
    assert(q[0] == p[0]);
    assert(q[9] == p[9]);
    assert(q.subrange(12, 16) =~= be_digits(src_ip as nat, 4));
    assert(q.subrange(16, 20) =~= be_digits(dst_ip as nat, 4));
    let at = ihl(p);
    assert(q[at] == be16_bytes(src_port)[0] && q[at + 1] == be16_bytes(src_port)[1]);
    assert(q[at + 2] == be16_bytes(dst_port)[0] && q[at + 3] == be16_bytes(dst_port)[1]);
}

/// What a map of clients holds.
pub uninterp spec fn clients_in(m: dashmap::DashMap<u16, (u32, u16)>) -> Map<u16, (u32, u16)>;

/// `dashmap::DashMap::new`: an empty map.
#[verifier::external_body]
fn new_clients() -> (r: dashmap::DashMap<u16, (u32, u16)>)
    ensures
        clients_in(r).dom() == Set::<u16>::empty(),
{
    dashmap::DashMap::new()
}

/// `dashmap::DashMap::insert`: sets the value of a key.
#[verifier::external_body]
fn put_client(m: &mut dashmap::DashMap<u16, (u32, u16)>, port: u16, client: (u32, u16))
    ensures
        clients_in(*final(m)) == clients_in(*old(m)).insert(port, client),
{
    m.insert(port, client);
}

/// `dashmap::DashMap::get`: the value of a key, where it has one.
#[verifier::external_body]
fn get_client(m: &dashmap::DashMap<u16, (u32, u16)>, port: u16) -> (r: Option<(u32, u16)>)
    ensures
        r == (if clients_in(*m).contains_key(port) {
            Some(clients_in(*m)[port])
        } else {
            None
        }),
{
    m.get(&port).map(|c| *c)
}

/// Why a packet cannot go through the tunnel, or there is no tunnel.
#[derive(Debug, Clone, Copy, PartialEq, Eq)]
pub enum TunnelError {
    /// It is no UDP datagram over IPv4.
    NotUdp,
    /// The private key is not thirty-two bytes in base64.
    BadPrivateKey,
    /// The public key is not thirty-two bytes in base64.
    BadPublicKey,
    /// The tunnel's protocol refuses.
    Refused(wireguard_sans_io::Error),
}

/// The addresses of the tunnel: its own, and those of the clients by port.
#[derive(Debug)]
pub struct TunnelNat {
    virtual_ip: u32,
    clients: dashmap::DashMap<u16, (u32, u16)>,
}

impl TunnelNat {
    /// The tunnel's own address.
    pub closed spec fn own_ip(&self) -> u32 {
        self.virtual_ip
    }

    /// The clients by port.
    pub closed spec fn known_clients(&self) -> Map<u16, (u32, u16)> {
        clients_in(self.clients)
    }

    /// No clients yet.
    pub fn new(virtual_ip: u32) -> (r: TunnelNat)
        ensures
            r.own_ip() == virtual_ip,
            r.known_clients() == Map::<u16, (u32, u16)>::empty(),
    {
        let r: TunnelNat = TunnelNat { virtual_ip, clients: new_clients() };
        assert(r.known_clients() =~= Map::<u16, (u32, u16)>::empty());
        r
    }

    /// Prepares a datagram for the tunnel: the client is remembered, and the
    /// datagram gets the tunnel's address.
    pub fn outgoing(&mut self, packet: Vec<u8>) -> (r: Result<Vec<u8>, TunnelError>)
        ensures
            final(self).own_ip() == old(self).own_ip(),
            match (udp_of(packet@), r) {
                (Some(u), Ok(q)) => {
                    &&& q@ == rerouted(
                        packet@,
                        old(self).own_ip(),
                        u.src_port,
                        u.dst_ip,
                        u.dst_port,
                    )
                    &&& final(self).known_clients() == old(self).known_clients().insert(
                        u.src_port,
                        (u.src_ip, u.src_port),
                    )
                },
                (None, Err(e)) => e == TunnelError::NotUdp && final(self).known_clients() == old(
                    self,
                ).known_clients(),
                _ => false,
            },
    {
        match parse_ipv4_udp(packet.as_slice()) {
            Some(u) => {
                put_client(&mut self.clients, u.src_port, (u.src_ip, u.src_port));
                let mut packet: Vec<u8> = packet;
                rewrite_ipv4_udp(
                    &mut packet,
                    self.virtual_ip,
                    u.src_port,
                    u.dst_ip,
                    u.dst_port,
                );
                Ok(packet)
            },
            None => Err(TunnelError::NotUdp),
        }
    }

    /// Prepares a datagram out of the tunnel: it gets the address of the
    /// client that its port belongs to. Other packets are passed over.
    pub fn incoming(&self, plain: &[u8]) -> (r: Option<Vec<u8>>)
        ensures
            match (reply_for(plain@, self.known_clients()), r) {
                (Some(p), Some(q)) => p == q@,
                (None, None) => true,
                _ => false,
            },
    {
        let u: ParsedUdp = match parse_ipv4_udp(plain) {
            Some(u) => u,
            None => {
                return None;
            },
        };
        match get_client(&self.clients, u.dst_port) {
            Some((ip, port)) => {
                let mut packet: Vec<u8> = copy_range(plain, 0, plain.len());
                assert(packet@ =~= plain@);
                rewrite_ipv4_udp(&mut packet, u.src_ip, u.src_port, ip, port);
                Some(packet)
            },
            None => None,
        }
    }
}

/// What becomes of a datagram out of the tunnel.
pub open spec fn reply_for(p: Seq<u8>, clients: Map<u16, (u32, u16)>) -> Option<Seq<u8>> {
    match udp_of(p) {
        Some(u) => if clients.contains_key(u.dst_port) {
            Some(
                rerouted(
                    p,
                    u.src_ip,
                    u.src_port,
                    clients[u.dst_port].0,
                    clients[u.dst_port].1,
                ),
            )
        } else {
            None
        },
        None => None,
    }
}

/// A reply to a datagram that went through the tunnel reaches the client that
/// sent it, from the address that it came from.
pub proof fn reply_reaches_the_client(
    sent: Seq<u8>,
    reply: Seq<u8>,
    clients: Map<u16, (u32, u16)>,
)
    requires
        udp_of(sent) is Some,
        udp_of(reply) is Some,
        ihl(reply) >= 20,
        udp_of(reply)->0.dst_port == udp_of(sent)->0.src_port,
    ensures
        ({
            let s = udp_of(sent)->0;
            let known = clients.insert(s.src_port, (s.src_ip, s.src_port));
            let back = reply_for(reply, known);
            &&& back is Some
            &&& udp_of(back->0) == Some(
                ParsedUdp {
                    src_ip: udp_of(reply)->0.src_ip,
                    src_port: udp_of(reply)->0.src_port,
                    dst_ip: s.src_ip,
                    dst_port: s.src_port,
                    payload_offset: udp_of(reply)->0.payload_offset,
                },
            )
        }),
{
    let s = udp_of(sent)->0;
    let u = udp_of(reply)->0;
    rerouted_ends_are_read_back(reply, u.src_ip, u.src_port, s.src_ip, s.src_port);
}

/// The keys of a tunnel: our own and the peer's.
pub fn tunnel_keys(private_key: &str, public_key: &str) -> (r: Result<
    ([u8; 32], [u8; 32]),
    TunnelError,
>)
    ensures
        match (decoded_key(private_key@), decoded_key(public_key@), r) {
            (None, _, Err(e)) => e == TunnelError::BadPrivateKey,
            (Some(_), None, Err(e)) => e == TunnelError::BadPublicKey,
            (Some(a), Some(b), Ok(keys)) => keys.0@ == a && keys.1@ == b,
            _ => false,
        },
{
    let private: [u8; 32] = match base64_decode(private_key) {
        Some(k) => k,
        None => {
            return Err(TunnelError::BadPrivateKey);
        },
    };
    match base64_decode(public_key) {
        Some(k) => Ok((private, k)),
        None => Err(TunnelError::BadPublicKey),
    }
}

/// The address in an address with a prefix length: what precedes the first
/// slash.
pub fn address_part(address: &str) -> (r: String)
    ensures
        r@ == address@.take(index_of(address@, '/')),
{
    let chars: Vec<char> = chars_of(address);
    let end: usize = find_char(&chars, '/', 0);
    assert(chars@.skip(0) =~= chars@);
    proof {
        crate::text::lemma_index_of(address@, '/');
    }
    let r: String = text_of(&chars, 0, end);
    assert(r@ =~= address@.take(index_of(address@, '/')));
    r
}

/// Whether junk packets go ahead of what the tunnel sends.
pub fn wants_junk(reason: WireReason) -> (r: bool)
    ensures
        r == (reason is HandshakeInitiation || reason is HandshakeRetransmit),
{
    matches!(reason, WireReason::HandshakeInitiation | WireReason::HandshakeRetransmit)
}

/// How many junk packets go ahead of what the tunnel sends.
pub open spec fn junk_ahead(config: AwgObfuscationConfig, reason: WireReason) -> nat {
    if (reason is HandshakeInitiation || reason is HandshakeRetransmit) && config.jmax > 0 {
        config.jc as nat
    } else {
        0
    }
}

/// The datagrams that carry a message of the tunnel: junk ahead of a handshake,
/// then the message in disguise.
pub open spec fn is_burst(
    config: AwgObfuscationConfig,
    wire: Seq<u8>,
    reason: WireReason,
    burst: Seq<Vec<u8>>,
) -> bool {
    &&& burst.len() == junk_ahead(config, reason) + 1
    &&& forall|i: int|
        0 <= i < burst.len() - 1 ==> config.jmin <= (#[trigger] burst[i])@.len() <= config.jmax
    &&& is_disguise_of(config, wire, burst.last()@)
}

/// Whether a message can be put into datagrams: what is added fits into memory,
/// and junk packets have sizes where they go ahead.
pub open spec fn can_burst(config: AwgObfuscationConfig, wire: Seq<u8>, reason: WireReason) -> bool {
    &&& config.room_for(wire)
    &&& (reason is HandshakeInitiation || reason is HandshakeRetransmit) ==> config.junk_has_sizes()
}

/// Puts a message of the tunnel into the datagrams that carry it.
pub fn burst_for(obfuscator: &AwgObfuscator, wire: Vec<u8>, reason: WireReason) -> (r: Vec<Vec<u8>>)
    requires
        can_burst(obfuscator.disguise(), wire@, reason),
    ensures
        is_burst(obfuscator.disguise(), wire@, reason, r@),
{
    let mut r: Vec<Vec<u8>> = if wants_junk(reason) {
        obfuscator.junk_packets()
    } else {
        Vec::new()
    };
    let mut message: Vec<u8> = wire;
    obfuscator.obfuscate(&mut message);
    r.push(message);
    r
}

/// What is done about a datagram from the peer.
#[derive(Debug, Clone)]
pub enum TunnelAction {
    /// The packet is handed to the client.
    Inject(Vec<u8>),
    /// The datagrams are sent to the peer, in this order.
    Send(Vec<Vec<u8>>),
    Nothing,
}

/// Decides what is done about a datagram from the peer: packets for a known
/// client are handed to it, answers are sent in disguise.
pub fn on_received(table: &TunnelNat, obfuscator: &AwgObfuscator, event: TunnelEvent) -> (r:
    TunnelAction)
    requires
        event matches TunnelEvent::Reply(p) ==> obfuscator.disguise().room_for(p@),
    ensures
        match (event, r) {
            (TunnelEvent::Data(p), TunnelAction::Inject(q)) => reply_for(p@, table.known_clients())
                == Some(q@),
            (TunnelEvent::Data(p), TunnelAction::Nothing) => reply_for(
                p@,
                table.known_clients(),
            ) is None,
            (TunnelEvent::Reply(p), TunnelAction::Send(burst)) => is_burst(
                obfuscator.disguise(),
                p@,
                WireReason::Other,
                burst@,
            ),
            (TunnelEvent::Keepalive, TunnelAction::Nothing) => true,
            (TunnelEvent::HandshakeComplete, TunnelAction::Nothing) => true,
            (TunnelEvent::CookieStored, TunnelAction::Nothing) => true,
            _ => false,
        },
{
    match event {
        TunnelEvent::Data(p) => match table.incoming(p.as_slice()) {
            Some(q) => TunnelAction::Inject(q),
            None => TunnelAction::Nothing,
        },
        TunnelEvent::Reply(p) => TunnelAction::Send(burst_for(obfuscator, p, WireReason::Other)),
        TunnelEvent::Keepalive | TunnelEvent::HandshakeComplete | TunnelEvent::CookieStored =>
            TunnelAction::Nothing,
    }
}

/// The message of the tunnel that a packet came to, and why it is sent.
pub open spec fn sealed_message(sealed: Sealed) -> (Seq<u8>, WireReason) {
    match sealed {
        Sealed::Transport(wire) => (wire@, WireReason::Other),
        Sealed::HandshakeInitiation(wire) => (wire@, WireReason::HandshakeInitiation),
    }
}

/// The datagrams for what a packet came to: junk goes ahead of a handshake.
pub fn on_sealed(obfuscator: &AwgObfuscator, sealed: Sealed) -> (r: Vec<Vec<u8>>)
    requires
        can_burst(obfuscator.disguise(), sealed_message(sealed).0, sealed_message(sealed).1),
    ensures
        is_burst(
            obfuscator.disguise(),
            sealed_message(sealed).0,
            sealed_message(sealed).1,
            r@,
        ),
{
    match sealed {
        Sealed::Transport(wire) => burst_for(obfuscator, wire, WireReason::Other),
        Sealed::HandshakeInitiation(wire) => burst_for(
            obfuscator,
            wire,
            WireReason::HandshakeInitiation,
        ),
    }
}

/// The datagrams for what is due: those of the message, where there is one.
pub fn on_due(obfuscator: &AwgObfuscator, due: TimerEvent) -> (r: Option<Vec<Vec<u8>>>)
    requires
        due matches TimerEvent::Send(wire, reason) ==> can_burst(
            obfuscator.disguise(),
            wire@,
            reason,
        ),
    ensures
        match (due, r) {
            (TimerEvent::Send(wire, reason), Some(burst)) => is_burst(
                obfuscator.disguise(),
                wire@,
                reason,
                burst@,
            ),
            (TimerEvent::Send(_, _), None) => false,
            (_, r) => r is None,
        },
{
    match due {
        TimerEvent::Send(wire, reason) => Some(burst_for(obfuscator, wire, reason)),
        TimerEvent::HandshakeExpired | TimerEvent::SessionsExpired | TimerEvent::Idle => None,
    }
}

/// A tunnel to a peer: its addresses, its disguise and its protocol.
#[derive(Debug)]
pub struct AwgTunnel {
    nat: TunnelNat,
    obfuscator: AwgObfuscator,
    wire: WireTunnel,
}

impl AwgTunnel {
    /// The tunnel's own address.
    pub closed spec fn own_ip(&self) -> u32 {
        self.nat.own_ip()
    }

    /// The clients by port.
    pub closed spec fn known_clients(&self) -> Map<u16, (u32, u16)> {
        self.nat.known_clients()
    }

    /// How messages are disguised.
    pub closed spec fn disguise(&self) -> AwgObfuscationConfig {
        self.obfuscator.disguise()
    }

    /// The state of the tunnel's protocol.
    pub closed spec fn protocol(&self) -> WireTunnel {
        self.wire
    }

    /// Opens a tunnel between our private key and the peer's public one, both
    /// in base64.
    pub fn start(
        private_key: &str,
        public_key: &str,
        virtual_ip: u32,
        disguise: AwgObfuscationConfig,
    ) -> (r: Result<AwgTunnel, TunnelError>)
        ensures
            match (decoded_key(private_key@), decoded_key(public_key@), r) {
                (None, _, Err(e)) => e == TunnelError::BadPrivateKey,
                (Some(_), None, Err(e)) => e == TunnelError::BadPublicKey,
                (Some(private), Some(public), Err(e)) => !keys_accepted(private, public)
                    && e is Refused,
                (Some(private), Some(public), Ok(t)) => {
                    &&& keys_accepted(private, public)
                    &&& t.own_ip() == virtual_ip
                    &&& t.known_clients() == Map::<u16, (u32, u16)>::empty()
                    &&& t.disguise() == disguise
                },
                _ => false,
            },
    {
        let (private, public): ([u8; 32], [u8; 32]) = tunnel_keys(private_key, public_key)?;
        match new_tunnel(private, public) {
            Ok(wire) => Ok(
                AwgTunnel {
                    nat: TunnelNat::new(virtual_ip),
                    obfuscator: AwgObfuscator::new(disguise),
                    wire,
                },
            ),
            Err(e) => Err(TunnelError::Refused(e)),
        }
    }

    /// Sends an IP packet through the tunnel: the client is remembered, the
    /// packet gets the tunnel's address, and what the tunnel makes of it goes
    /// out in disguise. Where there is no session yet, a handshake goes out in
    /// the packet's place.
    pub fn send_ip_packet(&mut self, now: Instants, packet: Vec<u8>) -> (r: Result<
        Vec<Vec<u8>>,
        TunnelError,
    >)
        requires
            old(self).disguise().s1 <= isize::MAX,
            old(self).disguise().s4 <= isize::MAX,
            old(self).disguise().junk_has_sizes(),
        ensures
            final(self).own_ip() == old(self).own_ip(),
            final(self).disguise() == old(self).disguise(),
            match udp_of(packet@) {
                Some(u) => {
                    &&& final(self).known_clients() == old(self).known_clients().insert(
                        u.src_port,
                        (u.src_ip, u.src_port),
                    )
                    &&& match r {
                        Ok(burst) => carries(
                            old(self).disguise(),
                            now,
                            rerouted(
                                packet@,
                                old(self).own_ip(),
                                u.src_port,
                                u.dst_ip,
                                u.dst_port,
                            ),
                            burst@,
                        ),
                        Err(e) => e is Refused,
                    }
                },
                None => {
                    &&& r == Err::<Vec<Vec<u8>>, TunnelError>(TunnelError::NotUdp)
                    &&& final(self).known_clients() == old(self).known_clients()
                    &&& final(self).protocol() == old(self).protocol()
                },
            },
    {
        let packet: Vec<u8> = self.nat.outgoing(packet)?;
        match encapsulate(&mut self.wire, now, packet.as_slice(), WIRE_ROOM) {
            Ok(sealed) => Ok(on_sealed(&self.obfuscator, sealed)),
            Err(e) => Err(TunnelError::Refused(e)),
        }
    }

    /// Decides what is done about a datagram from the peer. Junk is passed
    /// over; so is what the tunnel refuses.
    pub fn receive(&mut self, now: Instants, datagram: Vec<u8>) -> (r: TunnelAction)
        requires
            old(self).disguise().s2 <= isize::MAX,
        ensures
            final(self).own_ip() == old(self).own_ip(),
            final(self).known_clients() == old(self).known_clients(),
            final(self).disguise() == old(self).disguise(),
            match undisguised(old(self).disguise(), datagram@) {
                Some(message) => acts_on(
                    old(self).disguise(),
                    now,
                    old(self).known_clients(),
                    message,
                    r,
                ),
                None => r is Nothing && *final(self) == *old(self),
            },
    {
        let mut message: Vec<u8> = datagram;
        if !self.obfuscator.deobfuscate(&mut message) {
            return TunnelAction::Nothing;
        }
        let remote: [u8; 0] = [];
        assert(remote@ =~= Seq::<u8>::empty());
        let opened: Result<TunnelEvent, wireguard_sans_io::Error> = decapsulate(
            &mut self.wire,
            now,
            remote.as_slice(),
            false,
            message.as_slice(),
            WIRE_ROOM,
        );
        match opened {
            Ok(event) => {
                assert(event matches TunnelEvent::Data(p) ==> now.yields(
                    Seq::empty(),
                    false,
                    message@,
                    false,
                    p@,
                ));
                assert(event matches TunnelEvent::Reply(wire) ==> now.yields(
                    Seq::empty(),
                    false,
                    message@,
                    true,
                    wire@,
                ));
                on_received(&self.nat, &self.obfuscator, event)
            },
            Err(_) => TunnelAction::Nothing,
        }
    }

    /// The datagrams that go out because time has passed, if any do.
    pub fn on_timer(&mut self, now: Instants) -> (r: Option<Vec<Vec<u8>>>)
        requires
            old(self).disguise().s1 <= isize::MAX,
            old(self).disguise().s4 <= isize::MAX,
            old(self).disguise().junk_has_sizes(),
        ensures
            final(self).own_ip() == old(self).own_ip(),
            final(self).known_clients() == old(self).known_clients(),
            final(self).disguise() == old(self).disguise(),
            r matches Some(burst) ==> exists|wire: Seq<u8>, reason: WireReason|
                now.falls_due(wire) && fits_reason(wire, reason) && #[trigger] is_burst(
                    old(self).disguise(),
                    wire,
                    reason,
                    burst@,
                ),
    {
        match poll(&mut self.wire, now, WIRE_ROOM) {
            Ok(due) => on_due(&self.obfuscator, due),
            Err(_) => None,
        }
    }
}

/// Whether datagrams carry a packet to the peer, or ask the peer for a session
/// in its place.
pub open spec fn carries(
    config: AwgObfuscationConfig,
    now: Instants,
    packet: Seq<u8>,
    burst: Seq<Vec<u8>>,
) -> bool {
    ||| exists|wire: Seq<u8>|
        {
            &&& now.seals(packet, true, wire)
            &&& plain_kind(wire) == 4
            &&& wire.len() == sealed_len(packet.len())
            &&& wire.len() <= WIRE_ROOM
            &&& #[trigger] is_burst(config, wire, WireReason::Other, burst)
        }
    ||| exists|wire: Seq<u8>|
        {
            &&& now.seals(packet, false, wire)
            &&& fits_reason(wire, WireReason::HandshakeInitiation)
            &&& #[trigger] is_burst(config, wire, WireReason::HandshakeInitiation, burst)
        }
}

/// The last of the datagrams for a packet, out of its disguise, is the message
/// that carries the packet or asks for a session, as long as no earlier kind of
/// message has the header of the fourth.
pub proof fn sent_messages_come_undisguised(
    config: AwgObfuscationConfig,
    now: Instants,
    packet: Seq<u8>,
    burst: Seq<Vec<u8>>,
)
    requires
        carries(config, now, packet, burst),
        config.kind_of(config.h4) == 4,
    ensures
        match undisguised(config, burst.last()@) {
            Some(message) => now.seals(packet, true, message) || (now.seals(packet, false, message)
                && fits_reason(message, WireReason::HandshakeInitiation)),
            None => false,
        },
{
    if exists|wire: Seq<u8>|
        now.seals(packet, true, wire) && plain_kind(wire) == 4 && #[trigger] is_burst(
            config,
            wire,
            WireReason::Other,
            burst,
        ) {
        let wire = choose|wire: Seq<u8>|
            now.seals(packet, true, wire) && plain_kind(wire) == 4 && #[trigger] is_burst(
                config,
                wire,
                WireReason::Other,
                burst,
            );
        disguise_comes_off(config, wire, burst.last()@);
    } else {
        let wire = choose|wire: Seq<u8>|
            now.seals(packet, false, wire) && fits_reason(
                wire,
                WireReason::HandshakeInitiation,
            ) && #[trigger] is_burst(
                config,
                wire,
                WireReason::HandshakeInitiation,
                burst,
            );
        disguise_comes_off(config, wire, burst.last()@);
    }
}

/// Whether an action is one that a message of the tunnel can lead to: the
/// packet in it goes to its client, a handshake is answered, and nothing else
/// is acted upon.
pub open spec fn acts_on(
    config: AwgObfuscationConfig,
    now: Instants,
    clients: Map<u16, (u32, u16)>,
    message: Seq<u8>,
    action: TunnelAction,
) -> bool {
    match action {
        TunnelAction::Inject(q) => plain_kind(message) == 4 && exists|p: Seq<u8>|
            {
                &&& #[trigger] now.yields(Seq::empty(), false, message, false, p)
                &&& message.len() == p.len() + 32
                &&& reply_for(p, clients) == Some(q@)
            },
        TunnelAction::Send(burst) => plain_kind(message) == 1 && message.len() == 148
            && exists|wire: Seq<u8>|
            {
                &&& #[trigger] now.yields(Seq::empty(), false, message, true, wire)
                &&& plain_kind(wire) == 2
                &&& wire.len() == 92
                &&& is_burst(config, wire, WireReason::Other, burst@)
            },
        TunnelAction::Nothing => true,
    }
}

/// The ends of a datagram are read in place: addresses at bytes 12 and 16, ports
/// behind a header of four times its low half byte. Only UDP over IPv4 that
/// holds both headers has ends.
pub proof fn ends_are_read_in_place(p: Seq<u8>)
    ensures
        ({
            let at = (p[0] % 16) * 4;
            let r = udp_of(p);
            &&& r is Some <==> p.len() >= 28 && 0x40 <= p[0] <= 0x4f && p.len() >= at + 8 && p[9]
                == 17
            &&& r is Some ==> {
                let u = r->0;
                &&& u.src_ip == p[12] * 0x100_0000 + p[13] * 0x1_0000 + p[14] * 0x100 + p[15]
                &&& u.dst_ip == p[16] * 0x100_0000 + p[17] * 0x1_0000 + p[18] * 0x100 + p[19]
                &&& u.src_port == p[at] * 256 + p[at + 1]
                &&& u.dst_port == p[at + 2] * 256 + p[at + 3]
                &&& u.payload_offset == at + 8
            }
        }),
{
    if p.len() >= 28 {
        crate::wire::the_first_byte_counts_most(p[12], p[13], p[14], p[15]);
        crate::wire::the_first_byte_counts_most(p[16], p[17], p[18], p[19]);
        assert(p.subrange(12, 16) =~= seq![p[12], p[13], p[14], p[15]]);
        assert(p.subrange(16, 20) =~= seq![p[16], p[17], p[18], p[19]]);
    }
}

/// A rerouted datagram has the new addresses and ports in place and no UDP
/// checksum; besides those and the checksum of its header nothing changes, so
/// that its payload arrives as it was.
pub proof fn rerouting_keeps_the_payload(
    p: Seq<u8>,
    src_ip: u32,
    src_port: u16,
    dst_ip: u32,
    dst_port: u16,
    i: int,
)
    requires
        p.len() >= (p[0] % 16) * 4 + 8,
        p[0] % 16 >= 5,
        0 <= i < p.len(),
    ensures
        ({
            let at = (p[0] % 16) * 4;
            let q = rerouted(p, src_ip, src_port, dst_ip, dst_port);
            &&& q.len() == p.len()
            &&& q[12] * 0x100_0000 + q[13] * 0x1_0000 + q[14] * 0x100 + q[15] == src_ip
            &&& q[16] * 0x100_0000 + q[17] * 0x1_0000 + q[18] * 0x100 + q[19] == dst_ip
            &&& q[at] * 256 + q[at + 1] == src_port
            &&& q[at + 2] * 256 + q[at + 3] == dst_port
            &&& q[at + 6] == 0 && q[at + 7] == 0
            &&& i < 10 || 20 <= i < at || at + 4 <= i < at + 6 || at + 8 <= i ==> q[i] == p[i]
        }),
{
    let q = rerouted(p, src_ip, src_port, dst_ip, dst_port);
    let s = be_digits(src_ip as nat, 4);
    let d = be_digits(dst_ip as nat, 4);
    vstd::arithmetic::power2::lemma2_to64();
    crate::wire::lemma_be_digits_len(src_ip as nat, 4);
    crate::wire::lemma_be_digits_len(dst_ip as nat, 4);
    crate::wire::lemma_be_value_of_digits(src_ip as nat, 4);
    crate::wire::lemma_be_value_of_digits(dst_ip as nat, 4);
    crate::wire::the_first_byte_counts_most(s[0], s[1], s[2], s[3]);
    crate::wire::the_first_byte_counts_most(d[0], d[1], d[2], d[3]);
    assert(s =~= seq![s[0], s[1], s[2], s[3]]);
    assert(d =~= seq![d[0], d[1], d[2], d[3]]);
    assert(q[12] == s[0] && q[13] == s[1] && q[14] == s[2] && q[15] == s[3]);
    assert(q[16] == d[0] && q[17] == d[1] && q[18] == d[2] && q[19] == d[3]);
}

/// A datagram out of the tunnel is handed on exactly where the port that it is
/// for belongs to a client.
pub proof fn only_known_clients_get_replies(p: Seq<u8>, clients: Map<u16, (u32, u16)>)
    ensures
        reply_for(p, clients) is Some <==> udp_of(p) is Some && clients.contains_key(
            udp_of(p)->0.dst_port,
        ),
{
}

/// Junk goes ahead of handshakes and of nothing else: as many packets as the
/// disguise says, where they may have a size at all.
pub proof fn junk_goes_ahead_of_handshakes(config: AwgObfuscationConfig, reason: WireReason)
    ensures
        reason is HandshakeInitiation || reason is HandshakeRetransmit ==> junk_ahead(config, reason)
            == (if config.jmax == 0 {
            0
        } else {
            config.jc as nat
        }),
        !(reason is HandshakeInitiation) && !(reason is HandshakeRetransmit) ==> junk_ahead(
            config,
            reason,
        ) == 0,
{
}

/// A burst ends in the message and holds nothing but junk before it.
pub proof fn bursts_end_in_the_message(
    config: AwgObfuscationConfig,
    wire: Seq<u8>,
    reason: WireReason,
    burst: Seq<Vec<u8>>,
    i: int,
)
    requires
        is_burst(config, wire, reason, burst),
        plain_kind(wire) != 0,
        config.kind_of(config.header(plain_kind(wire))) == plain_kind(wire),
    ensures
        burst.len() > 0,
        undisguised(config, burst[burst.len() - 1]@) == Some(wire),
        0 <= i < burst.len() - 1 ==> config.jmin <= burst[i]@.len() <= config.jmax,
        burst.len() > 1 ==> reason is HandshakeInitiation || reason is HandshakeRetransmit,
{
    disguise_comes_off(config, wire, burst.last()@);
}

/// What a packet came to is sent for its own reason: a handshake as a handshake,
/// and a carried packet for no special one.
pub proof fn sealed_packets_tell_their_reason(wire: Vec<u8>)
    ensures
        sealed_message(Sealed::Transport(wire)) == (wire@, WireReason::Other),
        sealed_message(Sealed::HandshakeInitiation(wire)) == (
            wire@,
            WireReason::HandshakeInitiation,
        ),
{
}

} // verus!

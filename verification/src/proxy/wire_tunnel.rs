//! The tunnel's own protocol: what it makes of packets, datagrams and time.
use vstd::prelude::*;

use rand::RngCore;
use wireguard_sans_io::{
    Config, Encapsulated, EntropyError, EntropySource, Error, Now, PollOutput, PublicKey, Received,
    SendReason, StaticSecret, Tunnel,
};

use crate::proxy::awg_obfuscator::plain_kind;

verus! {

/// `wireguard_sans_io::Error`: why the tunnel refuses.
#[verifier::external_type_specification]
#[verifier::external_body]
pub struct ExWireError(wireguard_sans_io::Error);

/// `wireguard_sans_io::EntropyError`.
#[verifier::external_type_specification]
#[verifier::external_body]
pub struct ExEntropyError(wireguard_sans_io::EntropyError);

/// The thread's generator, as a source for the tunnel.
struct ThreadEntropy;

impl EntropySource for ThreadEntropy {
    /// `rand::RngCore::try_fill_bytes` on the thread's generator. Nothing is
    /// said of random bytes.
    #[verifier::external_body]
    fn fill(&mut self, buf: &mut [u8]) -> Result<(), EntropyError> {
        rand::thread_rng().try_fill_bytes(buf).map_err(|_| EntropyError)
    }
}

/// `wireguard_sans_io::Tunnel`: the keys, the sessions and the timers of a
/// tunnel to one peer. Verified code only hands it on.
#[verifier::external_body]
#[derive(Debug)]
pub struct WireTunnel {
    inner: Tunnel,
}

/// A reading of the clocks.
#[derive(Debug, Clone, Copy, PartialEq, Eq, Structural)]
pub struct Instants {
    /// Nanoseconds on a clock that never goes back.
    pub ticks: u64,
    /// The time of day, in seconds since 1970.
    pub unix_secs: u64,
    /// Nanoseconds into that second.
    pub unix_nanos: u32,
}

/// What a packet for the peer comes to.
#[derive(Debug, Clone)]
pub enum Sealed {
    /// The datagram that carries it.
    Transport(Vec<u8>),
    /// There is no session yet: the message that asks for one, and the packet
    /// is not carried.
    HandshakeInitiation(Vec<u8>),
}

/// What the tunnel made of a datagram from the peer.
#[derive(Debug, Clone)]
pub enum TunnelEvent {
    /// An IP packet came out.
    Data(Vec<u8>),
    /// A sign of life.
    Keepalive,
    /// The peer is owed an answer.
    Reply(Vec<u8>),
    /// The session that was asked for is there.
    HandshakeComplete,
    /// The peer asks for its cookie from now on.
    CookieStored,
}

/// Why the tunnel wants to send something.
#[derive(Debug, Clone, Copy, PartialEq, Eq, Structural)]
pub enum WireReason {
    HandshakeInitiation,
    HandshakeRetransmit,
    Keepalive,
    PersistentKeepalive,
    /// A packet to carry, or an answer.
    Other,
}

/// What the tunnel wants to be done when time has passed.
#[derive(Debug, Clone)]
pub enum TimerEvent {
    /// A message goes to the peer.
    Send(Vec<u8>, WireReason),
    /// The peer does not answer; asking has stopped.
    HandshakeExpired,
    /// All sessions are too old.
    SessionsExpired,
    Idle,
}

/// The length of the datagram that carries a packet: the packet is filled up
/// to a multiple of sixteen bytes, and thirty-two go round it.
pub open spec fn sealed_len(payload: nat) -> nat {
    (payload + 15) / 16 * 16 + 32
}

/// Whether a tunnel comes about between our private key and the peer's public
/// one.
pub uninterp spec fn keys_accepted(private: Seq<u8>, public: Seq<u8>) -> bool;

/// Whether some tunnel can, at a reading of the clocks, hand out a message when
/// it is given a packet: the datagram that carries it (`carried` is true), or
/// one that asks for a session. One packet gives many messages, by session,
/// count and chance.
pub uninterp spec fn seals(
    ticks: u64,
    unix_secs: u64,
    unix_nanos: u32,
    payload: Seq<u8>,
    carried: bool,
    wire: Seq<u8>,
) -> bool;

/// Whether some tunnel can, at a reading of the clocks and under such a load,
/// take a packet out of a datagram from a place (`answer` is false) or answer
/// it by a message.
pub uninterp spec fn yields(
    ticks: u64,
    unix_secs: u64,
    unix_nanos: u32,
    remote: Seq<u8>,
    under_load: bool,
    datagram: Seq<u8>,
    answer: bool,
    out: Seq<u8>,
) -> bool;

/// Whether some tunnel can, at a reading of the clocks, have a message due.
pub uninterp spec fn falls_due(ticks: u64, unix_secs: u64, unix_nanos: u32, wire: Seq<u8>) -> bool;

impl Instants {
    /// Whether a message can come of a packet now.
    pub open spec fn seals(self, payload: Seq<u8>, carried: bool, wire: Seq<u8>) -> bool {
        seals(self.ticks, self.unix_secs, self.unix_nanos, payload, carried, wire)
    }

    /// Whether a packet or an answer can come of a datagram now.
    pub open spec fn yields(
        self,
        remote: Seq<u8>,
        under_load: bool,
        datagram: Seq<u8>,
        answer: bool,
        out: Seq<u8>,
    ) -> bool {
        yields(
            self.ticks,
            self.unix_secs,
            self.unix_nanos,
            remote,
            under_load,
            datagram,
            answer,
            out,
        )
    }

    /// Whether a message can be due now.
    pub open spec fn falls_due(self, wire: Seq<u8>) -> bool {
        falls_due(self.ticks, self.unix_secs, self.unix_nanos, wire)
    }
}

/// `wireguard_sans_io::Tunnel::new`: a tunnel without sessions. Whether the
/// keys are accepted rests on the keys alone.
#[verifier::external_body]
pub(crate) fn new_tunnel(private: [u8; 32], public: [u8; 32]) -> (r: Result<WireTunnel, Error>)
    ensures
        r is Ok == keys_accepted(private@, public@),
{
    let config = Config::new(StaticSecret::from(private), PublicKey::from(public));
    let inner = Tunnel::new(config)?;
    Ok(WireTunnel { inner })
}

/// `wireguard_sans_io::Tunnel::encapsulate`: the datagram that carries a
/// packet, or a handshake initiation where there is no session. Which of them
/// comes, and with what bytes behind the kind of message, rests on the
/// sessions, the time and random numbers; so does whether the tunnel refuses.
#[verifier::external_body]
pub(crate) fn encapsulate(t: &mut WireTunnel, now: Instants, payload: &[u8], room: usize) -> (r:
    Result<Sealed, Error>)
    requires
        room <= isize::MAX,
    ensures
        r matches Ok(Sealed::Transport(wire)) ==> {
            &&& seals(now.ticks, now.unix_secs, now.unix_nanos, payload@, true, wire@)
            &&& plain_kind(wire@) == 4
            &&& wire@.len() == sealed_len(payload@.len())
            &&& wire@.len() <= room
        },
        r matches Ok(Sealed::HandshakeInitiation(wire)) ==> {
            &&& seals(now.ticks, now.unix_secs, now.unix_nanos, payload@, false, wire@)
            &&& plain_kind(wire@) == 1
            &&& wire@.len() == 148
            &&& wire@.len() <= room
        },
{
    let mut out = vec![0u8; room];
    let at = Now::new(now.ticks, now.unix_secs, now.unix_nanos);
    Ok(match t.inner.encapsulate(at, payload, &mut out, &mut ThreadEntropy)? {
        Encapsulated::Transport(wire) => Sealed::Transport(wire.to_vec()),
        Encapsulated::HandshakeInitiation(wire) => Sealed::HandshakeInitiation(wire.to_vec()),
    })
}

/// `wireguard_sans_io::Tunnel::decapsulate`: what a datagram means. Each
/// outcome comes of one kind of message with its length; everything else is
/// refused. Whether a message is accepted rests on the keys, the sessions, the
/// time and random numbers.
#[verifier::external_body]
pub(crate) fn decapsulate(
    t: &mut WireTunnel,
    now: Instants,
    remote: &[u8],
    under_load: bool,
    datagram: &[u8],
    room: usize,
) -> (r: Result<TunnelEvent, Error>)
    requires
        room <= isize::MAX,
    ensures
        r matches Ok(TunnelEvent::Data(plain)) ==> {
            &&& yields(
                now.ticks,
                now.unix_secs,
                now.unix_nanos,
                remote@,
                under_load,
                datagram@,
                false,
                plain@,
            )
            &&& plain_kind(datagram@) == 4
            &&& 0 < plain@.len() <= room
            &&& datagram@.len() == plain@.len() + 32
        },
        r matches Ok(TunnelEvent::Keepalive) ==> plain_kind(datagram@) == 4 && datagram@.len()
            == 32,
        r matches Ok(TunnelEvent::Reply(wire)) ==> wire@.len() <= room && yields(
            now.ticks,
            now.unix_secs,
            now.unix_nanos,
            remote@,
            under_load,
            datagram@,
            true,
            wire@,
        ),
        !under_load ==> (r matches Ok(TunnelEvent::Reply(wire)) ==> plain_kind(datagram@) == 1
            && datagram@.len() == 148 && plain_kind(wire@) == 2 && wire@.len() == 92),
        r matches Ok(TunnelEvent::HandshakeComplete) ==> plain_kind(datagram@) == 2
            && datagram@.len() == 92,
        r matches Ok(TunnelEvent::CookieStored) ==> plain_kind(datagram@) == 3 && datagram@.len()
            == 64,
{
    let mut out = vec![0u8; room];
    let at = Now::new(now.ticks, now.unix_secs, now.unix_nanos);
    let rng = &mut ThreadEntropy;
    Ok(match t.inner.decapsulate(at, remote, under_load, datagram, &mut out, rng)? {
        Received::Data(plain) => TunnelEvent::Data(plain.to_vec()),
        Received::Keepalive => TunnelEvent::Keepalive,
        Received::Reply(wire) => TunnelEvent::Reply(wire.to_vec()),
        Received::HandshakeComplete => TunnelEvent::HandshakeComplete,
        Received::CookieStored => TunnelEvent::CookieStored,
    })
}

/// Whether a message is of the kind and length that its reason calls for.
pub open spec fn fits_reason(wire: Seq<u8>, reason: WireReason) -> bool {
    match reason {
        WireReason::HandshakeInitiation | WireReason::HandshakeRetransmit => plain_kind(wire) == 1
            && wire.len() == 148,
        WireReason::Keepalive | WireReason::PersistentKeepalive => plain_kind(wire) == 4
            && wire.len() == 32,
        WireReason::Other => false,
    }
}

/// `wireguard_sans_io::Tunnel::poll`: what is due. A message is of the kind and
/// length of its reason. What is due rests on the sessions, the timers and
/// random numbers.
#[verifier::external_body]
pub(crate) fn poll(t: &mut WireTunnel, now: Instants, room: usize) -> (r: Result<
    TimerEvent,
    Error,
>)
    requires
        room <= isize::MAX,
    ensures
        r matches Ok(TimerEvent::Send(wire, reason)) ==> {
            &&& falls_due(now.ticks, now.unix_secs, now.unix_nanos, wire@)
            &&& fits_reason(wire@, reason)
            &&& wire@.len() <= room
        },
{
    let mut out = vec![0u8; room];
    let at = Now::new(now.ticks, now.unix_secs, now.unix_nanos);
    Ok(match t.inner.poll(at, &mut out, &mut ThreadEntropy)? {
        PollOutput::Send(wire, reason) => TimerEvent::Send(wire.to_vec(), match reason {
            SendReason::HandshakeInitiation => WireReason::HandshakeInitiation,
            SendReason::HandshakeRetransmit => WireReason::HandshakeRetransmit,
            SendReason::Keepalive => WireReason::Keepalive,
            SendReason::PersistentKeepalive => WireReason::PersistentKeepalive,
        }),
        PollOutput::HandshakeExpired => TimerEvent::HandshakeExpired,
        PollOutput::SessionsExpired => TimerEvent::SessionsExpired,
        PollOutput::Idle => TimerEvent::Idle,
    })
}

/// What is due has the shape of its reason: a handshake is a message of the first
/// kind with 148 bytes, a keepalive one of the fourth with none but its 32.
pub proof fn reasons_have_their_shape(wire: Seq<u8>, reason: WireReason)
    requires
        fits_reason(wire, reason),
    ensures
        reason is HandshakeInitiation || reason is HandshakeRetransmit ==> wire.len() == 148
            && wire[0] == 1,
        reason is Keepalive || reason is PersistentKeepalive ==> wire.len() == 32 && wire[0] == 4,
        !(reason is Other),
{
}

/// A carried packet is filled up to a multiple of sixteen bytes and no further,
/// and has thirty-two bytes round it.
pub proof fn carried_packets_are_filled_up(payload: nat)
    ensures
        sealed_len(payload) % 16 == 0,
        payload + 32 <= sealed_len(payload) < payload + 48,
{
}

} // verus!

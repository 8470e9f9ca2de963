//! Packet buffers, and how packets are put on the wire.
use vstd::prelude::*;

use bytes::{Bytes, BytesMut};
use crossbeam::queue::ArrayQueue;

use crate::engine::latency::one_more;

verus! {

/// The length of a pooled buffer: an ordinary packet and some room.
pub const POOLED_BUF_SIZE: usize = 2048;

/// `crossbeam::queue::ArrayQueue`.
#[verifier::external_type_specification]
#[verifier::external_body]
#[verifier::reject_recursive_types(T)]
pub struct ExArrayQueue<T>(crossbeam::queue::ArrayQueue<T>);

/// `bytes::BytesMut`.
#[verifier::external_type_specification]
#[verifier::external_body]
pub struct ExBytesMut(bytes::BytesMut);

/// `bytes::Bytes`.
#[verifier::external_type_specification]
#[verifier::external_body]
pub struct ExBytes(bytes::Bytes);

/// The bytes in a buffer.
pub uninterp spec fn bytes_in(b: BytesMut) -> Seq<u8>;

/// The bytes in a packet.
pub uninterp spec fn packet_bytes(b: Bytes) -> Seq<u8>;

/// The buffers in a queue, the one that leaves next first.
pub uninterp spec fn buffers_in(q: ArrayQueue<BytesMut>) -> Seq<BytesMut>;

/// How many buffers a queue was made for.
pub uninterp spec fn places_in(q: ArrayQueue<BytesMut>) -> nat;

/// `crossbeam::queue::ArrayQueue::new`: an empty queue with some places. It
/// panics on none, and on more than fit into memory: a place takes a buffer's
/// handle and a stamp, less than 64 bytes together.
#[verifier::external_body]
fn new_queue(places: usize) -> (r: ArrayQueue<BytesMut>)
    requires
        0 < places <= isize::MAX / 64,
    ensures
        buffers_in(r) == Seq::<BytesMut>::empty(),
        places_in(r) == places,
{
    ArrayQueue::new(places)
}

/// `crossbeam::queue::ArrayQueue::push`: puts a buffer at the end, unless the
/// queue is full; says whether it did.
#[verifier::external_body]
fn push_buffer(q: &mut ArrayQueue<BytesMut>, b: BytesMut) -> (r: bool)
    ensures
        places_in(*final(q)) == places_in(*old(q)),
        r == (buffers_in(*old(q)).len() < places_in(*old(q))),
        buffers_in(*final(q)) == (if buffers_in(*old(q)).len() < places_in(*old(q)) {
            buffers_in(*old(q)).push(b)
        } else {
            buffers_in(*old(q))
        }),
{
    q.push(b).is_ok()
}

/// `crossbeam::queue::ArrayQueue::pop`: takes the first buffer out, where
/// there is one.
#[verifier::external_body]
fn pop_buffer(q: &mut ArrayQueue<BytesMut>) -> (r: Option<BytesMut>)
    ensures
        places_in(*final(q)) == places_in(*old(q)),
        buffers_in(*final(q)) == (if buffers_in(*old(q)).len() > 0 {
            buffers_in(*old(q)).skip(1)
        } else {
            buffers_in(*old(q))
        }),
        r == (if buffers_in(*old(q)).len() > 0 {
            Some(buffers_in(*old(q))[0])
        } else {
            None
        }),
{
    q.pop()
}

/// `bytes::BytesMut::with_capacity`: an empty buffer.
#[verifier::external_body]
fn empty_buffer(capacity: usize) -> (r: BytesMut)
    requires
        capacity <= 0x1_0000,
    ensures
        bytes_in(r) == Seq::<u8>::empty(),
{
    BytesMut::with_capacity(capacity)
}

/// `bytes::BytesMut::resize`: cuts a buffer off at a length, or fills it up
/// with zeros.
#[verifier::external_body]
fn resize_buffer(b: &mut BytesMut, len: usize)
    requires
        len <= 0x1_0000,
    ensures
        bytes_in(*final(b)) == resized(bytes_in(*old(b)), len as nat),
{
    b.resize(len, 0)
}

/// `bytes::BytesMut::capacity`: how many bytes fit without another
/// allocation, at least those that are there.
#[verifier::external_body]
fn buffer_capacity(b: &BytesMut) -> (r: usize)
    ensures
        r >= bytes_in(*b).len(),
{
    b.capacity()
}

/// `bytes::Bytes::try_into_mut`: the buffer behind a packet, where nothing
/// else refers to it. Whether something does cannot be told from its bytes.
#[verifier::external_body]
fn unshared_buffer(packet: Bytes) -> (r: Option<BytesMut>)
    ensures
        r matches Some(b) ==> bytes_in(b) == packet_bytes(packet),
{
    packet.try_into_mut().ok()
}

/// `bytes::BytesMut::truncate`: keeps the first bytes of a buffer, all of them
/// where there are no more.
#[verifier::external_body]
fn truncate_buffer(b: &mut BytesMut, len: usize)
    ensures
        bytes_in(*final(b)) == (if len <= bytes_in(*old(b)).len() {
            bytes_in(*old(b)).take(len as int)
        } else {
            bytes_in(*old(b))
        }),
{
    b.truncate(len)
}

/// `bytes::BytesMut::freeze`: the bytes of a buffer as a packet.
#[verifier::external_body]
fn freeze_buffer(b: BytesMut) -> (r: Bytes)
    ensures
        packet_bytes(r) == bytes_in(b),
{
    b.freeze()
}

/// Bytes cut off at a length, or filled up with zeros.
pub open spec fn resized(s: Seq<u8>, len: nat) -> Seq<u8> {
    Seq::new(
        len,
        |i: int|
            if i < s.len() {
                s[i]
            } else {
                0u8
            },
    )
}

/// A pool of buffers that are used again and again.
#[derive(Debug)]
pub struct PacketBufferPool {
    free: ArrayQueue<BytesMut>,
}

impl PacketBufferPool {
    /// The bytes of the buffers that are free, the one that leaves next first.
    pub closed spec fn free_buffers(&self) -> Seq<Seq<u8>> {
        Seq::new(buffers_in(self.free).len(), |i: int| bytes_in(buffers_in(self.free)[i]))
    }

    /// How many buffers the pool has room for.
    pub closed spec fn room(&self) -> nat {
        places_in(self.free)
    }

    /// Every free buffer has the length of a pooled one.
    pub open spec fn wf(&self) -> bool {
        &&& self.free_buffers().len() <= self.room()
        &&& forall|i: int|
            0 <= i < self.free_buffers().len() ==> (#[trigger] self.free_buffers()[i]).len()
                == POOLED_BUF_SIZE
    }

    /// A pool with room for some buffers, all of them there and zero.
    pub fn new(capacity: usize) -> (r: PacketBufferPool)
        requires
            0 < capacity <= isize::MAX / 64,
        ensures
            r.wf(),
            r.room() == capacity,
            r.free_buffers() == Seq::new(
                capacity as nat,
                |i: int| Seq::new(POOLED_BUF_SIZE as nat, |j: int| 0u8),
            ),
    {
        let mut pool: PacketBufferPool = PacketBufferPool { free: new_queue(capacity) };
        let mut i: usize = 0;
        assert(pool.free_buffers() =~= Seq::<Seq<u8>>::empty());
        while i < capacity
            invariant
                i <= capacity,
                pool.room() == capacity,
                pool.free_buffers().len() == i,
                forall|k: int| 0 <= k < i ==> #[trigger] pool.free_buffers()[k] == zero_buffer(),
            decreases capacity - i,
        {
            let ghost before: PacketBufferPool = pool;
            let b: BytesMut = blank();
            let ghost bytes: Seq<u8> = bytes_in(b);
            push_buffer(&mut pool.free, b);
            assert(pool.free_buffers() =~= before.free_buffers().push(bytes));
            i = i + 1;
        }
        assert(pool.free_buffers() =~= Seq::new(
            capacity as nat,
            |i: int| Seq::new(POOLED_BUF_SIZE as nat, |j: int| 0u8),
        ));
        pool
    }

    /// A free buffer, or a fresh one where none is free.
    pub fn acquire(&mut self) -> (r: BytesMut)
        requires
            old(self).wf(),
        ensures
            final(self).wf(),
            final(self).room() == old(self).room(),
            bytes_in(r).len() == POOLED_BUF_SIZE,
            taken_out(*old(self), bytes_in(r), *final(self)),
    {
        match pop_buffer(&mut self.free) {
            Some(b) => {
                assert(self.free_buffers() =~= old(self).free_buffers().skip(1));
                assert(bytes_in(b) == old(self).free_buffers()[0]);
                b
            },
            None => {
                assert(self.free_buffers() =~= old(self).free_buffers());
                blank()
            },
        }
    }

    /// Takes a buffer back whose capacity is known. A buffer that is smaller
    /// or larger than a pooled one is let go, and so is one for which there is
    /// no room.
    pub fn release_measured(&mut self, buf: BytesMut, capacity: usize)
        requires
            old(self).wf(),
        ensures
            final(self).wf(),
            final(self).room() == old(self).room(),
            final(self).free_buffers() == (if capacity == POOLED_BUF_SIZE {
                taken_back(*old(self), bytes_in(buf))
            } else {
                old(self).free_buffers()
            }),
    {
        if capacity != POOLED_BUF_SIZE {
            return;
        }
        let mut buf: BytesMut = buf;
        resize_buffer(&mut buf, POOLED_BUF_SIZE);
        let ghost bytes: Seq<u8> = bytes_in(buf);
        if push_buffer(&mut self.free, buf) {
            assert(self.free_buffers() =~= old(self).free_buffers().push(bytes));
        } else {
            assert(self.free_buffers() =~= old(self).free_buffers());
        }
    }

    /// Takes a buffer back. One with more bytes than a pooled one is let go;
    /// whether another has just the capacity of a pooled one rests on how it
    /// was allocated.
    pub fn release(&mut self, buf: BytesMut)
        requires
            old(self).wf(),
        ensures
            final(self).wf(),
            final(self).room() == old(self).room(),
            came_back_or_not(*old(self), bytes_in(buf), *final(self)),
    {
        let capacity: usize = buffer_capacity(&buf);
        self.release_measured(buf, capacity);
    }

    /// Takes back the buffer that was recovered from a packet. Where none
    /// could be, because something else refers to it, the pool stays as it is.
    pub fn release_recovered(&mut self, recovered: Option<BytesMut>)
        requires
            old(self).wf(),
        ensures
            final(self).wf(),
            final(self).room() == old(self).room(),
            match recovered {
                Some(buf) => came_back_or_not(*old(self), bytes_in(buf), *final(self)),
                None => final(self).free_buffers() == old(self).free_buffers(),
            },
    {
        if let Some(buf) = recovered {
            self.release(buf);
        }
    }

    /// Takes back the buffer behind a packet, where nothing else refers to
    /// it. Whether something does rests on the rest of the program, so that a
    /// caller has to expect either: the buffer with the packet's bytes comes
    /// back, or the pool stays as it is.
    pub fn release_bytes(&mut self, packet: Bytes)
        requires
            old(self).wf(),
        ensures
            final(self).wf(),
            final(self).room() == old(self).room(),
            came_back_or_not(*old(self), packet_bytes(packet), *final(self)),
    {
        self.release_recovered(unshared_buffer(packet));
    }
}

/// Takes back the buffer behind a packet, where nothing else refers to it.
pub fn try_return_to_pool(packet: Bytes, pool: &mut PacketBufferPool)
    requires
        old(pool).wf(),
    ensures
        final(pool).wf(),
        final(pool).room() == old(pool).room(),
        came_back_or_not(*old(pool), packet_bytes(packet), *final(pool)),
{
    pool.release_bytes(packet);
}

/// A pooled buffer of zeros.
pub open spec fn zero_buffer() -> Seq<u8> {
    Seq::new(POOLED_BUF_SIZE as nat, |i: int| 0u8)
}

/// Whether a buffer with the given bytes left the pool, or a blank one was made
/// because none was free.
pub open spec fn taken_out(before: PacketBufferPool, bytes: Seq<u8>, after: PacketBufferPool) -> bool {
    if before.free_buffers().len() > 0 {
        &&& bytes == before.free_buffers()[0]
        &&& after.free_buffers() == before.free_buffers().skip(1)
    } else {
        &&& bytes == zero_buffer()
        &&& after.free_buffers() == before.free_buffers()
    }
}

/// The free buffers after one with the given bytes came back.
pub open spec fn taken_back(pool: PacketBufferPool, bytes: Seq<u8>) -> Seq<Seq<u8>> {
    if pool.free_buffers().len() < pool.room() {
        pool.free_buffers().push(resized(bytes, POOLED_BUF_SIZE as nat))
    } else {
        pool.free_buffers()
    }
}

/// Either a buffer with the given bytes came back or the pool stayed as it
/// was; it stayed where the bytes are more than a pooled buffer has.
pub open spec fn came_back_or_not(
    before: PacketBufferPool,
    bytes: Seq<u8>,
    after: PacketBufferPool,
) -> bool {
    after.free_buffers() == before.free_buffers() || (bytes.len() <= POOLED_BUF_SIZE
        && after.free_buffers() == taken_back(before, bytes))
}

fn blank() -> (r: BytesMut)
    ensures
        bytes_in(r) == zero_buffer(),
{
    let mut b: BytesMut = empty_buffer(POOLED_BUF_SIZE);
    resize_buffer(&mut b, POOLED_BUF_SIZE);
    assert(bytes_in(b) =~= zero_buffer());
    b
}

/// A buffer that was taken out and comes back leaves the pool with as many
/// free buffers as before.
pub proof fn buffers_come_back(before: PacketBufferPool, taken: PacketBufferPool, bytes: Seq<u8>)
    requires
        before.wf(),
        before.free_buffers().len() > 0,
        taken.free_buffers() == before.free_buffers().skip(1),
        taken.room() == before.room(),
    ensures
        taken_back(taken, bytes).len() == before.free_buffers().len(),
        taken_back(taken, bytes).last().len() == POOLED_BUF_SIZE,
{
}

/// How packets are captured.
#[derive(Debug, Clone, Copy, PartialEq, Eq, Structural)]
pub enum EngineMode {
    /// By the capture driver.
    WinDivert,
    /// By the filtering platform.
    Wfp,
    /// Not at all.
    ApiOnly,
}

/// What the engine has done so far. Counters start over when they are full.
#[derive(Debug, Clone, Copy, PartialEq, Eq, Structural)]
pub struct PacketStats {
    pub packets_received: u64,
    pub packets_sent: u64,
    pub packets_injected: u64,
    pub packets_dropped: u64,
}

/// A reading of the engine's counters.
#[derive(Debug, Clone, Copy, PartialEq, Eq, Structural)]
pub struct PacketStatsSnapshot {
    pub packets_received: u64,
    pub packets_sent: u64,
    pub packets_injected: u64,
    pub packets_dropped: u64,
}

impl PacketStats {
    /// Nothing counted yet.
    pub fn new() -> (r: PacketStats)
        ensures
            r == (PacketStats {
                packets_received: 0,
                packets_sent: 0,
                packets_injected: 0,
                packets_dropped: 0,
            }),
    {
        PacketStats { packets_received: 0, packets_sent: 0, packets_injected: 0, packets_dropped: 0 }
    }
}

impl Default for PacketStats {
    fn default() -> (r: PacketStats)
        ensures
            r == (PacketStats {
                packets_received: 0,
                packets_sent: 0,
                packets_injected: 0,
                packets_dropped: 0,
            }),
    {
        PacketStats::new()
    }
}

/// Why a packet could not be put on the wire by a raw socket.
#[derive(Debug, Clone, Copy, PartialEq, Eq, Structural)]
pub enum RawInjectError {
    Empty,
    NoSocketV4,
    NoSocketV6,
    UnknownVersion(u8),
}

/// Why a packet could not be captured or sent by the driver.
#[derive(Debug, Clone, Copy, PartialEq, Eq, Structural)]
pub enum DriverError {
    /// The driver is not open.
    NotOpen,
    /// The driver refused.
    Failed,
}

/// A raw socket.
#[derive(Debug, Clone, Copy, PartialEq, Eq, Structural)]
pub enum RawSocket {
    V4,
    V6,
}

/// What the engine has at hand, and its counters.
#[derive(Debug, Clone, Copy, PartialEq, Eq, Structural)]
pub struct PacketEngine {
    pub mode: EngineMode,
    pub divert_open: bool,
    pub raw_v4: bool,
    pub raw_v6: bool,
    pub stats: PacketStats,
}

impl PacketEngine {
    /// An engine that captures nothing.
    pub fn new_api_only(raw_v4: bool, raw_v6: bool) -> (r: PacketEngine)
        ensures
            r.mode == EngineMode::ApiOnly,
            !r.divert_open,
            r.raw_v4 == raw_v4,
            r.raw_v6 == raw_v6,
            r.stats == (PacketStats {
                packets_received: 0,
                packets_sent: 0,
                packets_injected: 0,
                packets_dropped: 0,
            }),
    {
        PacketEngine {
            mode: EngineMode::ApiOnly,
            divert_open: false,
            raw_v4,
            raw_v6,
            stats: PacketStats::new(),
        }
    }

    /// An engine whose capture driver is open.
    pub fn with_divert(raw_v4: bool, raw_v6: bool) -> (r: PacketEngine)
        ensures
            r.mode == EngineMode::WinDivert,
            r.divert_open,
            r.raw_v4 == raw_v4,
            r.raw_v6 == raw_v6,
            r.stats == (PacketStats {
                packets_received: 0,
                packets_sent: 0,
                packets_injected: 0,
                packets_dropped: 0,
            }),
    {
        PacketEngine {
            mode: EngineMode::WinDivert,
            divert_open: true,
            raw_v4,
            raw_v6,
            stats: PacketStats::new(),
        }
    }

    /// How packets are captured.
    pub fn mode(&self) -> (r: EngineMode)
        ensures
            r == self.mode,
    {
        self.mode
    }

    /// Whether the capture driver is open.
    pub fn has_divert(&self) -> (r: bool)
        ensures
            r == self.divert_open,
    {
        self.divert_open
    }

    /// Whether some raw socket is open.
    pub fn has_raw_socket(&self) -> (r: bool)
        ensures
            r == (self.raw_v4 || self.raw_v6),
    {
        self.raw_v4 || self.raw_v6
    }

    /// Whether the raw socket for IPv4 is open.
    pub fn has_raw_socket_v4(&self) -> (r: bool)
        ensures
            r == self.raw_v4,
    {
        self.raw_v4
    }

    /// Whether the raw socket for IPv6 is open.
    pub fn has_raw_socket_v6(&self) -> (r: bool)
        ensures
            r == self.raw_v6,
    {
        self.raw_v6
    }

    /// The raw socket for a packet, by the packet's IP version.
    pub fn raw_socket_for(&self, packet: &[u8]) -> (r: Result<RawSocket, RawInjectError>)
        ensures
            r == raw_route(packet@, self.raw_v4, self.raw_v6),
    {
        if packet.len() == 0 {
            return Err(RawInjectError::Empty);
        }
        let version: u8 = packet[0] / 16;
        if version == 4 {
            if self.raw_v4 {
                Ok(RawSocket::V4)
            } else {
                Err(RawInjectError::NoSocketV4)
            }
        } else if version == 6 {
            if self.raw_v6 {
                Ok(RawSocket::V6)
            } else {
                Err(RawInjectError::NoSocketV6)
            }
        } else {
            Err(RawInjectError::UnknownVersion(version))
        }
    }

    /// A buffer to capture a packet into, where the driver is open; where it
    /// is not, the pool stays as it is.
    pub fn start_recv(&self, pool: &mut PacketBufferPool) -> (r: Result<BytesMut, DriverError>)
        requires
            old(pool).wf(),
        ensures
            final(pool).wf(),
            final(pool).room() == old(pool).room(),
            match r {
                Ok(buf) => self.divert_open && taken_out(*old(pool), bytes_in(buf), *final(pool)),
                Err(e) => !self.divert_open && e == DriverError::NotOpen
                    && final(pool).free_buffers() == old(pool).free_buffers(),
            },
    {
        if !self.divert_open {
            return Err(DriverError::NotOpen);
        }
        Ok(pool.acquire())
    }

    /// What becomes of the buffer once the driver has answered. With a length,
    /// its first bytes are the packet, which is counted; without one, the
    /// driver refused, and the buffer goes back to the pool.
    pub fn finish_recv(
        &mut self,
        pool: &mut PacketBufferPool,
        buf: BytesMut,
        received: Option<usize>,
    ) -> (r: Result<Bytes, DriverError>)
        requires
            old(pool).wf(),
            received matches Some(len) ==> len <= bytes_in(buf).len(),
        ensures
            final(pool).wf(),
            final(pool).room() == old(pool).room(),
            match received {
                Some(len) => {
                    &&& r is Ok
                    &&& packet_bytes(r->Ok_0) == bytes_in(buf).take(len as int)
                    &&& final(pool).free_buffers() == old(pool).free_buffers()
                    &&& *final(self) == (PacketEngine {
                        stats: PacketStats {
                            packets_received: one_more(old(self).stats.packets_received),
                            ..old(self).stats
                        },
                        ..*old(self)
                    })
                },
                None => {
                    &&& r == Err::<Bytes, DriverError>(DriverError::Failed)
                    &&& came_back_or_not(*old(pool), bytes_in(buf), *final(pool))
                    &&& *final(self) == *old(self)
                },
            },
    {
        match received {
            Some(len) => {
                let mut buf: BytesMut = buf;
                truncate_buffer(&mut buf, len);
                self.stats.packets_received = self.stats.packets_received.wrapping_add(1);
                Ok(freeze_buffer(buf))
            },
            None => {
                pool.release(buf);
                Err(DriverError::Failed)
            },
        }
    }

    /// The outcome of sending a packet by the driver, by how many bytes the
    /// driver says it sent. A packet that was sent is counted.
    pub fn send_blocking(&mut self, sent: Option<u32>) -> (r: Result<u32, DriverError>)
        ensures
            r == send_outcome(old(self).divert_open, sent),
            *final(self) == (if r is Ok {
                PacketEngine {
                    stats: PacketStats {
                        packets_sent: one_more(old(self).stats.packets_sent),
                        ..old(self).stats
                    },
                    ..*old(self)
                }
            } else {
                *old(self)
            }),
    {
        if !self.divert_open {
            return Err(DriverError::NotOpen);
        }
        match sent {
            Some(n) => {
                self.stats.packets_sent = self.stats.packets_sent.wrapping_add(1);
                Ok(n)
            },
            None => Err(DriverError::Failed),
        }
    }

    /// The same, and the packet's buffer goes back to the pool, whatever the
    /// outcome.
    pub fn send_blocking_and_release(
        &mut self,
        packet: Bytes,
        sent: Option<u32>,
        pool: &mut PacketBufferPool,
    ) -> (r: Result<u32, DriverError>)
        requires
            old(pool).wf(),
        ensures
            r == send_outcome(old(self).divert_open, sent),
            *final(self) == (if r is Ok {
                PacketEngine {
                    stats: PacketStats {
                        packets_sent: one_more(old(self).stats.packets_sent),
                        ..old(self).stats
                    },
                    ..*old(self)
                }
            } else {
                *old(self)
            }),
            final(pool).wf(),
            final(pool).room() == old(pool).room(),
            came_back_or_not(*old(pool), packet_bytes(packet), *final(pool)),
    {
        let r: Result<u32, DriverError> = self.send_blocking(sent);
        pool.release_bytes(packet);
        r
    }

    /// The outcome of sending an extra packet by the driver, by how many bytes
    /// the driver says it sent. A packet that was sent is counted.
    pub fn inject_via_divert(&mut self, sent: Option<u32>) -> (r: Result<u32, DriverError>)
        ensures
            r == send_outcome(old(self).divert_open, sent),
            *final(self) == (if r is Ok {
                PacketEngine {
                    stats: PacketStats {
                        packets_injected: one_more(old(self).stats.packets_injected),
                        ..old(self).stats
                    },
                    ..*old(self)
                }
            } else {
                *old(self)
            }),
    {
        if !self.divert_open {
            return Err(DriverError::NotOpen);
        }
        match sent {
            Some(n) => {
                self.count_injected();
                Ok(n)
            },
            None => Err(DriverError::Failed),
        }
    }

    /// Whether a raw socket that says how many bytes it sent has sent the whole
    /// packet, which then counts as sent.
    pub fn inject_raw_udp(&mut self, packet: &[u8], sent: usize) -> (r: bool)
        ensures
            r == (sent == packet@.len()),
            *final(self) == (if r {
                PacketEngine {
                    stats: PacketStats {
                        packets_injected: one_more(old(self).stats.packets_injected),
                        ..old(self).stats
                    },
                    ..*old(self)
                }
            } else {
                *old(self)
            }),
    {
        if sent != packet.len() {
            return false;
        }
        self.count_injected();
        true
    }

    fn count_injected(&mut self)
        ensures
            *final(self) == (PacketEngine {
                stats: PacketStats {
                    packets_injected: one_more(old(self).stats.packets_injected),
                    ..old(self).stats
                },
                ..*old(self)
            }),
    {
        self.stats.packets_injected = self.stats.packets_injected.wrapping_add(1);
    }

    /// Counts a packet that was discarded.
    pub fn drop_packet(&mut self)
        ensures
            *final(self) == (PacketEngine {
                stats: PacketStats {
                    packets_dropped: one_more(old(self).stats.packets_dropped),
                    ..old(self).stats
                },
                ..*old(self)
            }),
    {
        self.stats.packets_dropped = self.stats.packets_dropped.wrapping_add(1);
    }

    /// The driver is being reopened with another filter: until that has
    /// succeeded, none is open.
    pub fn filter_changing(&mut self)
        ensures
            *final(self) == (PacketEngine { divert_open: false, ..*old(self) }),
    {
        self.divert_open = false;
    }

    /// The driver was reopened, or could not be.
    pub fn filter_changed(&mut self, opened: bool)
        ensures
            *final(self) == (PacketEngine { divert_open: opened, ..*old(self) }),
    {
        self.divert_open = opened;
    }

    /// Reads the counters.
    pub fn stats_snapshot(&self) -> (r: PacketStatsSnapshot)
        ensures
            r == (PacketStatsSnapshot {
                packets_received: self.stats.packets_received,
                packets_sent: self.stats.packets_sent,
                packets_injected: self.stats.packets_injected,
                packets_dropped: self.stats.packets_dropped,
            }),
    {
        PacketStatsSnapshot {
            packets_received: self.stats.packets_received,
            packets_sent: self.stats.packets_sent,
            packets_injected: self.stats.packets_injected,
            packets_dropped: self.stats.packets_dropped,
        }
    }
}

/// What sending by the driver comes to.
pub open spec fn send_outcome(open: bool, sent: Option<u32>) -> Result<u32, DriverError> {
    if !open {
        Err(DriverError::NotOpen)
    } else {
        match sent {
            Some(n) => Ok(n),
            None => Err(DriverError::Failed),
        }
    }
}

/// The raw socket for a packet.
pub open spec fn raw_route(p: Seq<u8>, raw_v4: bool, raw_v6: bool) -> Result<
    RawSocket,
    RawInjectError,
> {
    if p.len() == 0 {
        Err(RawInjectError::Empty)
    } else if p[0] / 16 == 4 {
        if raw_v4 {
            Ok(RawSocket::V4)
        } else {
            Err(RawInjectError::NoSocketV4)
        }
    } else if p[0] / 16 == 6 {
        if raw_v6 {
            Ok(RawSocket::V6)
        } else {
            Err(RawInjectError::NoSocketV6)
        }
    } else {
        Err(RawInjectError::UnknownVersion(p[0] / 16))
    }
}

/// A packet leaves by the raw socket of its own IP version, and not at all where
/// that socket is missing or the version is neither 4 nor 6.
pub proof fn packets_leave_by_their_version(p: Seq<u8>, raw_v4: bool, raw_v6: bool)
    ensures
        ({
            let r = raw_route(p, raw_v4, raw_v6);
            let v4 = p.len() > 0 && 0x40 <= p[0] <= 0x4f;
            let v6 = p.len() > 0 && 0x60 <= p[0] <= 0x6f;
            &&& r == Ok::<RawSocket, RawInjectError>(RawSocket::V4) <==> v4 && raw_v4
            &&& r == Ok::<RawSocket, RawInjectError>(RawSocket::V6) <==> v6 && raw_v6
            &&& r == Err::<RawSocket, RawInjectError>(RawInjectError::Empty) <==> p.len() == 0
            &&& r == Err::<RawSocket, RawInjectError>(RawInjectError::NoSocketV4) <==> v4
                && !raw_v4
            &&& r == Err::<RawSocket, RawInjectError>(RawInjectError::NoSocketV6) <==> v6
                && !raw_v6
            &&& p.len() > 0 && !v4 && !v6 ==> r == Err::<RawSocket, RawInjectError>(
                RawInjectError::UnknownVersion((p[0] / 16) as u8),
            )
        }),
{
}

/// Sending succeeds exactly where the driver is open and says that it sent; it
/// reports as many bytes as the driver does.
pub proof fn sending_follows_the_driver(open: bool, sent: Option<u32>)
    ensures
        send_outcome(open, sent) is Ok <==> open && sent is Some,
        open && sent is Some ==> send_outcome(open, sent)->Ok_0 == sent->0,
        !open ==> send_outcome(open, sent) == Err::<u32, DriverError>(DriverError::NotOpen),
        open && sent is None ==> send_outcome(open, sent) == Err::<u32, DriverError>(
            DriverError::Failed,
        ),
{
}

/// The free buffers are a queue: the one that has been free longest leaves
/// first, and one that comes back goes behind all others. Only where none is
/// free is a blank one of 2048 zeros made.
pub proof fn free_buffers_are_a_queue(
    before: PacketBufferPool,
    bytes: Seq<u8>,
    after: PacketBufferPool,
    i: int,
)
    requires
        before.wf(),
        taken_out(before, bytes, after),
    ensures
        before.free_buffers().len() > 0 ==> bytes == before.free_buffers()[0]
            && after.free_buffers().len() == before.free_buffers().len() - 1,
        0 <= i < before.free_buffers().len() - 1 ==> after.free_buffers()[i]
            == before.free_buffers()[i + 1],
        before.free_buffers().len() == 0 ==> after.free_buffers().len() == 0,
        before.free_buffers().len() == 0 ==> bytes.len() == 2048 && (0 <= i < 2048 ==> bytes[i]
            == 0),
        bytes.len() == 2048,
{
}

/// A buffer that comes back keeps its bytes and is filled up with zeros to 2048;
/// the others stay as they are. Where there is no room it is let go.
pub proof fn buffers_come_back_in_order(pool: PacketBufferPool, bytes: Seq<u8>, i: int)
    requires
        pool.wf(),
        bytes.len() <= 2048,
    ensures
        ({
            let n = pool.free_buffers().len() as int;
            let after = taken_back(pool, bytes);
            &&& n == pool.room() ==> after == pool.free_buffers()
            &&& n < pool.room() ==> {
                &&& after.len() == n + 1
                &&& 0 <= i < n ==> after[i] == pool.free_buffers()[i]
                &&& after[n].len() == 2048
                &&& after[n].take(bytes.len() as int) == bytes
                &&& bytes.len() <= i < 2048 ==> after[n][i] == 0
            }
        }),
{
    if pool.free_buffers().len() < pool.room() {
        assert(taken_back(pool, bytes)[pool.free_buffers().len() as int].take(bytes.len() as int)
            =~= bytes);
    }
}

} // verus!

//! Extra packets that are sent later, each at its time.
use vstd::prelude::*;

use crate::engine::latency::one_more;
use crate::engine::packet::CaptureAddress;

verus! {

/// How long the worker waits where nothing is scheduled.
pub const IDLE_WAIT_US: u64 = 10_000;

/// A packet and when it is sent.
#[derive(Debug, Clone)]
pub struct ScheduledPacket {
    pub at_us: u64,
    pub data: Vec<u8>,
    pub addr: CaptureAddress,
}

/// Packets that wait for their time, the earliest first.
#[derive(Debug)]
pub struct DelayedInject {
    heap: Vec<ScheduledPacket>,
    dropped: u64,
    sent: u64,
}

/// Whether packets are in the order of their times.
pub open spec fn in_order(s: Seq<ScheduledPacket>) -> bool {
    forall|i: int, j: int|
        0 <= i <= j < s.len() ==> (#[trigger] s[i]).at_us <= (#[trigger] s[j]).at_us
}

/// How many packets, from the first, are not later than `at`.
pub open spec fn place_for(s: Seq<ScheduledPacket>, at: u64, n: int) -> int
    decreases s.len() - n,
{
    if n < 0 || n >= s.len() {
        s.len() as int
    } else if s[n].at_us > at {
        n
    } else {
        place_for(s, at, n + 1)
    }
}

/// What taking out the first packet comes to: it leaves where its time has come.
pub open spec fn first_left(
    before: Seq<ScheduledPacket>,
    now_us: u64,
    r: Option<ScheduledPacket>,
    after: Seq<ScheduledPacket>,
) -> bool {
    if before.len() > 0 && before[0].at_us <= now_us {
        &&& r == Some(before[0])
        &&& after == before.skip(1)
    } else {
        &&& r is None
        &&& after == before
    }
}

/// How long is waited for the next packet.
pub open spec fn wait_for(s: Seq<ScheduledPacket>, now_us: u64) -> int {
    if s.len() == 0 {
        IDLE_WAIT_US as int
    } else if s[0].at_us > now_us {
        s[0].at_us - now_us
    } else {
        0
    }
}

impl DelayedInject {
    /// The packets that wait.
    pub closed spec fn waiting(&self) -> Seq<ScheduledPacket> {
        self.heap@
    }

    /// How many packets could not be scheduled.
    pub closed spec fn dropped_count(&self) -> u64 {
        self.dropped
    }

    /// How many packets were sent.
    pub closed spec fn sent_count(&self) -> u64 {
        self.sent
    }

    /// The packets wait in the order of their times.
    pub open spec fn wf(&self) -> bool {
        in_order(self.waiting())
    }

    /// Nothing scheduled.
    pub fn new() -> (r: DelayedInject)
        ensures
            r.wf(),
            r.waiting() == Seq::<ScheduledPacket>::empty(),
            r.dropped_count() == 0,
            r.sent_count() == 0,
    {
        DelayedInject { heap: Vec::new(), dropped: 0, sent: 0 }
    }

    /// A packet that is to be sent after a delay.
    pub fn scheduled(now_us: u64, delay_us: u32, data: Vec<u8>, addr: CaptureAddress) -> (r:
        ScheduledPacket)
        requires
            now_us + delay_us <= u64::MAX,
        ensures
            r == (ScheduledPacket { at_us: (now_us + delay_us) as u64, data, addr }),
    {
        ScheduledPacket { at_us: now_us + delay_us as u64, data, addr }
    }

    /// Takes note of whether the worker's queue took a packet, and hands that
    /// on.
    pub fn try_schedule(&mut self, queue_took: bool) -> (r: bool)
        ensures
            r == queue_took,
            final(self).waiting() == old(self).waiting(),
            final(self).sent_count() == old(self).sent_count(),
            final(self).dropped_count() == (if queue_took {
                old(self).dropped_count()
            } else {
                one_more(old(self).dropped_count())
            }),
    {
        if !queue_took {
            self.dropped = self.dropped.wrapping_add(1);
        }
        queue_took
    }

    /// Takes a packet out of the worker's queue.
    pub fn push(&mut self, packet: ScheduledPacket)
        requires
            old(self).wf(),
        ensures
            final(self).wf(),
            final(self).waiting() == old(self).waiting().insert(
                place_for(old(self).waiting(), packet.at_us, 0),
                packet,
            ),
            final(self).sent_count() == old(self).sent_count(),
            final(self).dropped_count() == old(self).dropped_count(),
    {
        let mut i: usize = 0;
        while i < self.heap.len() && self.heap[i].at_us <= packet.at_us
            invariant
                i <= self.heap@.len(),
                self.heap@ == old(self).heap@,
                self.sent == old(self).sent,
                self.dropped == old(self).dropped,
                place_for(self.heap@, packet.at_us, 0) == place_for(
                    self.heap@,
                    packet.at_us,
                    i as int,
                ),
                forall|k: int| 0 <= k < i ==> (#[trigger] self.heap@[k]).at_us <= packet.at_us,
            decreases self.heap@.len() - i,
        {
            i = i + 1;
        }
        let ghost before: Seq<ScheduledPacket> = self.heap@;
        let ghost added: ScheduledPacket = packet;
        self.heap.insert(i, packet);
        assert forall|a: int, b: int| 0 <= a <= b < self.heap@.len() implies (
        #[trigger] self.heap@[a]).at_us <= (#[trigger] self.heap@[b]).at_us by {
            let x = if a < i {
                a
            } else {
                a - 1
            };
            let y = if b < i {
                b
            } else {
                b - 1
            };
            if a != i && b != i {
                assert(before[x].at_us <= before[y].at_us);
            } else if a == i && b != i {
                assert(before[i as int].at_us <= before[y].at_us);
            }
        }
    }

    /// Takes out the first packet, if its time has come.
    pub fn pop_due(&mut self, now_us: u64) -> (r: Option<ScheduledPacket>)
        requires
            old(self).wf(),
        ensures
            final(self).wf(),
            final(self).sent_count() == old(self).sent_count(),
            final(self).dropped_count() == old(self).dropped_count(),
            first_left(old(self).waiting(), now_us, r, final(self).waiting()),
    {
        if self.heap.len() > 0 && self.heap[0].at_us <= now_us {
            let ghost before: Seq<ScheduledPacket> = self.heap@;
            let p: ScheduledPacket = self.heap.remove(0);
            assert(self.heap@ =~= before.skip(1));
            Some(p)
        } else {
            None
        }
    }

    /// How long the worker waits for the next packet.
    pub fn wait_us(&self, now_us: u64) -> (r: u64)
        ensures
            r == wait_for(self.waiting(), now_us),
    {
        if self.heap.len() == 0 {
            IDLE_WAIT_US
        } else if self.heap[0].at_us > now_us {
            self.heap[0].at_us - now_us
        } else {
            0
        }
    }

    /// Takes note of a packet that was sent.
    pub fn note_sent(&mut self)
        ensures
            final(self).waiting() == old(self).waiting(),
            final(self).dropped_count() == old(self).dropped_count(),
            final(self).sent_count() == one_more(old(self).sent_count()),
    {
        self.sent = self.sent.wrapping_add(1);
    }

    /// How many packets could not be scheduled.
    pub fn dropped(&self) -> (r: u64)
        ensures
            r == self.dropped_count(),
    {
        self.dropped
    }

    /// How many packets were sent.
    pub fn sent(&self) -> (r: u64)
        ensures
            r == self.sent_count(),
    {
        self.sent
    }
}

/// The packet that is taken out first is the earliest, and no packet is taken
/// out before its time.
pub proof fn earliest_packet_leaves_first(d: DelayedInject, now: u64, i: int)
    requires
        d.wf(),
        0 <= i < d.waiting().len(),
    ensures
        d.waiting()[0].at_us <= d.waiting()[i].at_us,
        d.waiting()[0].at_us > now ==> d.waiting()[i].at_us > now,
{
}

proof fn lemma_place_in_range(s: Seq<ScheduledPacket>, at: u64, n: int)
    requires
        0 <= n <= s.len(),
    ensures
        n <= place_for(s, at, n) <= s.len(),
    decreases s.len() - n,
{
    if n < s.len() && s[n].at_us <= at {
        lemma_place_in_range(s, at, n + 1);
    }
}

/// Scheduling a packet loses none: the packets that wait afterwards are those
/// that waited before and the new one.
pub proof fn scheduling_loses_nothing(s: Seq<ScheduledPacket>, packet: ScheduledPacket)
    ensures
        s.insert(place_for(s, packet.at_us, 0), packet).to_multiset() =~= s.to_multiset().insert(
            packet,
        ),
{
    broadcast use vstd::seq_lib::group_to_multiset_ensures;

    lemma_place_in_range(s, packet.at_us, 0);
    let i = place_for(s, packet.at_us, 0);
    let t = s.insert(i, packet);
    assert(t.remove(i) =~= s);
}

/// A queue of packets to be handled elsewhere, as far as it is counted here.
#[derive(Debug, Clone, Copy, PartialEq, Eq, Structural)]
pub struct OffloadCounter {
    pub refused: u64,
}

impl OffloadCounter {
    /// Nothing refused yet.
    pub fn new() -> (r: OffloadCounter)
        ensures
            r.refused == 0,
    {
        OffloadCounter { refused: 0 }
    }

    /// Takes note of whether the queue took a packet, and hands that on.
    pub fn note(&mut self, queue_took: bool) -> (r: bool)
        ensures
            r == queue_took,
            final(self).refused == (if queue_took {
                old(self).refused
            } else {
                one_more(old(self).refused)
            }),
    {
        if !queue_took {
            self.refused = self.refused.wrapping_add(1);
        }
        queue_took
    }

    /// How many packets the queue refused.
    pub fn dropped(&self) -> (r: u64)
        ensures
            r == self.refused,
    {
        self.refused
    }
}

/// A packet that is scheduled stands behind all that are due no later than it,
/// and ahead of all that are due later: packets with the same time leave in the
/// order in which they came.
pub proof fn scheduling_keeps_the_order(s: Seq<ScheduledPacket>, packet: ScheduledPacket, i: int)
    requires
        in_order(s),
        0 <= i < s.len(),
    ensures
        0 <= place_for(s, packet.at_us, 0) <= s.len(),
        s[i].at_us <= packet.at_us <==> i < place_for(s, packet.at_us, 0),
        in_order(s.insert(place_for(s, packet.at_us, 0), packet)),
{
    lemma_place_in_range(s, packet.at_us, 0);
    lemma_place_is_right(s, packet.at_us, 0);
    let n = place_for(s, packet.at_us, 0);
    let t = s.insert(n, packet);
    assert forall|a: int, b: int| 0 <= a <= b < t.len() implies (#[trigger] t[a]).at_us <= (
    #[trigger] t[b]).at_us by {
        let x = if a < n {
            a
        } else {
            a - 1
        };
        let y = if b < n {
            b
        } else {
            b - 1
        };
        if a != n && b != n {
            assert(s[x].at_us <= s[y].at_us);
        }
    }
}

proof fn lemma_place_is_right(s: Seq<ScheduledPacket>, at: u64, n: int)
    requires
        in_order(s),
        0 <= n <= s.len(),
        forall|k: int| 0 <= k < n ==> (#[trigger] s[k]).at_us <= at,
    ensures
        forall|k: int| 0 <= k < place_for(s, at, n) ==> (#[trigger] s[k]).at_us <= at,
        forall|k: int| place_for(s, at, n) <= k < s.len() ==> (#[trigger] s[k]).at_us > at,
    decreases s.len() - n,
{
    if n < s.len() && s[n].at_us <= at {
        lemma_place_is_right(s, at, n + 1);
    }
}

/// A packet leaves as soon as some packet is due, and only then; the one that
/// leaves is due, none that stays is earlier, and no other is lost.
pub proof fn due_packets_leave(
    before: Seq<ScheduledPacket>,
    now_us: u64,
    r: Option<ScheduledPacket>,
    after: Seq<ScheduledPacket>,
    i: int,
)
    requires
        in_order(before),
        first_left(before, now_us, r, after),
        0 <= i < before.len(),
    ensures
        before[i].at_us <= now_us ==> r is Some,
        r is Some ==> r->0.at_us <= now_us && r->0.at_us <= before[i].at_us,
        r is Some ==> before == seq![r->0] + after,
        r is None ==> after == before && before[i].at_us > now_us,
{
    if r is Some {
        assert(before =~= seq![r->0] + after);
    }
}

/// Waiting ends exactly when the first packet is due: where it takes any time
/// none is due yet, and afterwards one is. Without packets it takes ten
/// milliseconds.
pub proof fn waiting_ends_when_a_packet_is_due(s: Seq<ScheduledPacket>, now_us: u64, i: int)
    requires
        in_order(s),
    ensures
        s.len() == 0 ==> wait_for(s, now_us) == 10_000,
        0 <= i < s.len() ==> (wait_for(s, now_us) > 0 ==> s[i].at_us > now_us),
        s.len() > 0 ==> s[0].at_us <= now_us + wait_for(s, now_us),
        s.len() > 0 && s[0].at_us >= now_us ==> s[0].at_us == now_us + wait_for(s, now_us),
        0 <= wait_for(s, now_us) <= u64::MAX,
{
}

} // verus!

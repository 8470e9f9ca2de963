//! From decisions to what is sent, in order.
use vstd::prelude::*;

use crate::engine::latency::one_more;
use crate::engine::packet::{
    apply_inject_direction, directed, CaptureAddress, CapturedPacket, InjectProtocol, PacketDecision,
};
use crate::engine::stats::{faulted, ProcessingStats};
use crate::packet_invariants::{packet_fault, ValidationMode};

verus! {

/// A worker stops taking packets once this many actions wait to be sent.
pub const BATCH_LIMIT: usize = 64;

/// Something to be sent.
#[derive(Debug, Clone)]
pub enum TxAction {
    /// A packet that goes on.
    Forward(Vec<u8>, CaptureAddress),
    /// An extra packet.
    Inject(Vec<u8>, CaptureAddress),
}

/// Something that a worker does with a packet.
#[derive(Debug, Clone)]
pub enum ShardStep {
    /// It waits to be sent with the batch.
    Send(TxAction),
    /// It is sent after a delay.
    Schedule { delay_us: u32, data: Vec<u8>, addr: CaptureAddress, protocol: InjectProtocol },
    /// It is sent at once over a raw socket.
    RawUdp(Vec<u8>),
}

/// The contents of a step.
pub enum Step {
    Forward(Seq<u8>, CaptureAddress),
    Inject(Seq<u8>, CaptureAddress),
    Schedule(u32, Seq<u8>, CaptureAddress, InjectProtocol),
    RawUdp(Seq<u8>),
}

/// The contents of an action.
pub open spec fn action_step(a: TxAction) -> Step {
    match a {
        TxAction::Forward(data, addr) => Step::Forward(data@, addr),
        TxAction::Inject(data, addr) => Step::Inject(data@, addr),
    }
}

impl View for ShardStep {
    type V = Step;

    open spec fn view(&self) -> Step {
        match *self {
            ShardStep::Send(a) => action_step(a),
            ShardStep::Schedule { delay_us, data, addr, protocol } => Step::Schedule(
                delay_us,
                data@,
                addr,
                protocol,
            ),
            ShardStep::RawUdp(data) => Step::RawUdp(data@),
        }
    }
}

/// The contents of some steps.
pub open spec fn steps_of(s: Seq<ShardStep>) -> Seq<Step> {
    Seq::new(s.len(), |i: int| s[i]@)
}

/// Whether a packet may be sent.
pub open spec fn sound(p: Seq<u8>) -> bool {
    packet_fault(p, ValidationMode::Fast) is None
}

/// What is done with an extra packet: all but the first wait, where there is a
/// delay.
pub open spec fn injection(
    data: Seq<u8>,
    i: int,
    addr: CaptureAddress,
    protocol: InjectProtocol,
    delay: u32,
) -> Step {
    if i > 0 && delay > 0 {
        Step::Schedule((delay * i) as u32, data, addr, protocol)
    } else {
        match protocol {
            InjectProtocol::Tcp => Step::Inject(data, addr),
            InjectProtocol::Udp => Step::RawUdp(data),
        }
    }
}

/// What is done with the first `n` extra packets; those that are malformed are
/// left out.
pub open spec fn injections(
    inject: Seq<Vec<u8>>,
    n: int,
    addr: CaptureAddress,
    protocol: InjectProtocol,
    delay: u32,
) -> Seq<Step>
    decreases n,
{
    if n <= 0 {
        Seq::empty()
    } else {
        let before = injections(inject, n - 1, addr, protocol, delay);
        if sound(inject[n - 1]@) {
            before.push(injection(inject[n - 1]@, n - 1, addr, protocol, delay))
        } else {
            before
        }
    }
}

/// Counters after a check.
pub open spec fn checked(s: ProcessingStats, p: Seq<u8>) -> ProcessingStats {
    match packet_fault(p, ValidationMode::Fast) {
        Some(reason) => faulted(s, reason),
        None => s,
    }
}

/// Counters after the first `n` extra packets. Extra datagrams are counted
/// here; the others are counted when the batch is sent.
pub open spec fn injection_stats(
    s: ProcessingStats,
    inject: Seq<Vec<u8>>,
    n: int,
    protocol: InjectProtocol,
) -> ProcessingStats
    decreases n,
{
    if n <= 0 {
        s
    } else {
        let before = injection_stats(s, inject, n - 1, protocol);
        if sound(inject[n - 1]@) {
            if protocol is Udp {
                ProcessingStats { fake_ch_injected: one_more(before.fake_ch_injected), ..before }
            } else {
                before
            }
        } else {
            checked(before, inject[n - 1]@)
        }
    }
}

/// What a worker does with a packet. A packet that could not be processed
/// goes on.
pub open spec fn steps_for(
    data: Seq<u8>,
    addr: CaptureAddress,
    decision: Option<PacketDecision>,
) -> Seq<Step> {
    match decision {
        None => seq![Step::Forward(data, addr)],
        Some(PacketDecision::Forward) => seq![Step::Forward(data, addr)],
        Some(PacketDecision::Modify(m)) => if sound(m@) {
            seq![Step::Forward(m@, addr)]
        } else {
            seq![]
        },
        Some(
            PacketDecision::Desync {
                inject,
                modified,
                inject_protocol,
                inter_delay_us,
                inject_direction,
                drop_original,
            },
        ) => injections(
            inject@,
            inject@.len() as int,
            directed(addr, inject_direction),
            inject_protocol,
            inter_delay_us,
        ) + (match modified {
            Some(m) => if sound(m@) {
                seq![Step::Forward(m@, addr)]
            } else {
                seq![]
            },
            None => if drop_original {
                seq![]
            } else {
                seq![Step::Forward(data, addr)]
            },
        }),
        Some(PacketDecision::Drop) => seq![],
    }
}

/// Counters after a worker has dealt with a packet.
pub open spec fn stats_after(s: ProcessingStats, decision: Option<PacketDecision>) -> ProcessingStats {
    match decision {
        None => ProcessingStats { errors: one_more(s.errors), ..s },
        Some(PacketDecision::Forward) => s,
        Some(PacketDecision::Modify(m)) => checked(s, m@),
        Some(PacketDecision::Desync { inject, modified, inject_protocol, .. }) => {
            let t = injection_stats(s, inject@, inject@.len() as int, inject_protocol);
            match modified {
                Some(m) => checked(t, m@),
                None => t,
            }
        },
        Some(PacketDecision::Drop) => ProcessingStats { dropped: one_more(s.dropped), ..s },
    }
}

/// Whether the delays of the extra packets that are sent can be told in 32
/// bits.
pub open spec fn extra_delays_fit(inject: Seq<Vec<u8>>, delay: u32) -> bool {
    forall|i: int|
        0 <= i < inject.len() && sound((#[trigger] inject[i])@) ==> i * delay <= u32::MAX
}

/// Whether the delays that a decision asks for can be told in 32 bits.
pub open spec fn delays_fit(decision: Option<PacketDecision>) -> bool {
    match decision {
        Some(PacketDecision::Desync { inject, inter_delay_us, .. }) => extra_delays_fit(
            inject@,
            inter_delay_us,
        ),
        _ => true,
    }
}

fn push_step(steps: &mut Vec<ShardStep>, step: ShardStep)
    ensures
        steps_of(final(steps)@) == steps_of(old(steps)@).push(step@),
{
    let ghost before: Seq<Step> = steps_of(steps@);
    steps.push(step);
    assert(steps_of(steps@) =~= before.push(step@));
}

fn inject_all(
    inject: Vec<Vec<u8>>,
    addr: CaptureAddress,
    protocol: InjectProtocol,
    delay: u32,
    steps: &mut Vec<ShardStep>,
    stats: &mut ProcessingStats,
)
    requires
        extra_delays_fit(inject@, delay),
    ensures
        steps_of(final(steps)@) == steps_of(old(steps)@) + injections(
            inject@,
            inject@.len() as int,
            addr,
            protocol,
            delay,
        ),
        *final(stats) == injection_stats(*old(stats), inject@, inject@.len() as int, protocol),
{
    let ghost all: Seq<Vec<u8>> = inject@;
    let ghost before: Seq<Step> = steps_of(steps@);
    let n: usize = inject.len();
    let mut rest: Vec<Vec<u8>> = inject;
    let mut i: usize = 0;
    assert(before + injections(all, 0, addr, protocol, delay) =~= before);
    assert(rest@ =~= all.skip(0));
    while i < n
        invariant
            n == all.len(),
            i <= n,
            rest@ == all.skip(i as int),
            extra_delays_fit(all, delay),
            steps_of(steps@) == before + injections(all, i as int, addr, protocol, delay),
            *stats == injection_stats(*old(stats), all, i as int, protocol),
        decreases n - i,
    {
        let data: Vec<u8> = rest.remove(0);
        assert(data == all[i as int]);
        assert(rest@ =~= all.skip(i + 1));
        if stats.validate_packet_and_log(data.as_slice()) {
            assert(sound(all[i as int]@));
            assert(delay > 0 ==> i <= u32::MAX && delay * i <= u32::MAX) by (nonlinear_arith)
                requires
                    i * delay <= u32::MAX,
            ;
            if let InjectProtocol::Udp = protocol {
                stats.count_injected(1);
            }
            let step: ShardStep = if i > 0 && delay > 0 {
                ShardStep::Schedule { delay_us: delay * (i as u32), data, addr, protocol }
            } else {
                match protocol {
                    InjectProtocol::Tcp => ShardStep::Send(TxAction::Inject(data, addr)),
                    InjectProtocol::Udp => ShardStep::RawUdp(data),
                }
            };
            push_step(steps, step);
        }
        i = i + 1;
        assert(steps_of(steps@) =~= before + injections(all, i as int, addr, protocol, delay));
    }
}

/// What a worker does with a packet: extra packets first, then the packet or
/// the one that goes on in its place. Malformed packets are left out and
/// counted.
pub fn shard_process_one(
    captured: CapturedPacket,
    decision: Option<PacketDecision>,
    stats: &mut ProcessingStats,
) -> (r: Vec<ShardStep>)
    requires
        delays_fit(decision),
    ensures
        steps_of(r@) == steps_for(captured.data@, captured.addr, decision),
        *final(stats) == stats_after(*old(stats), decision),
{
    let mut steps: Vec<ShardStep> = Vec::new();
    let data: Vec<u8> = captured.data;
    let addr: CaptureAddress = captured.addr;
    assert(steps_of(steps@) =~= Seq::<Step>::empty());
    match decision {
        None => {
            push_step(&mut steps, ShardStep::Send(TxAction::Forward(data, addr)));
            stats.count_error();
        },
        Some(PacketDecision::Forward) => {
            push_step(&mut steps, ShardStep::Send(TxAction::Forward(data, addr)));
        },
        Some(PacketDecision::Modify(modified)) => {
            if stats.validate_packet_and_log(modified.as_slice()) {
                push_step(&mut steps, ShardStep::Send(TxAction::Forward(modified, addr)));
            }
        },
        Some(
            PacketDecision::Desync {
                inject,
                modified,
                inject_protocol,
                inter_delay_us,
                inject_direction,
                drop_original,
            },
        ) => {
            let inject_addr: CaptureAddress = apply_inject_direction(&addr, inject_direction);
            inject_all(
                inject,
                inject_addr,
                inject_protocol,
                inter_delay_us,
                &mut steps,
                stats,
            );
            match modified {
                Some(m) => {
                    if stats.validate_packet_and_log(m.as_slice()) {
                        push_step(&mut steps, ShardStep::Send(TxAction::Forward(m, addr)));
                    }
                },
                None => {
                    if !drop_original {
                        push_step(&mut steps, ShardStep::Send(TxAction::Forward(data, addr)));
                    }
                },
            }
        },
        Some(PacketDecision::Drop) => {
            stats.count_dropped();
        },
    }
    assert(steps_of(steps@) =~= steps_for(captured.data@, captured.addr, decision));
    steps
}

/// What is done with an extra packet that could not be scheduled: it is sent
/// without delay.
pub fn schedule_refused(data: Vec<u8>, addr: CaptureAddress, protocol: InjectProtocol) -> (r:
    ShardStep)
    ensures
        r@ == (match protocol {
            InjectProtocol::Tcp => Step::Inject(data@, addr),
            InjectProtocol::Udp => Step::RawUdp(data@),
        }),
{
    match protocol {
        InjectProtocol::Tcp => ShardStep::Send(TxAction::Inject(data, addr)),
        InjectProtocol::Udp => ShardStep::RawUdp(data),
    }
}

/// Whether a worker takes another packet before it sends.
pub fn wants_more(waiting: usize) -> (r: bool)
    ensures
        r == (waiting < BATCH_LIMIT),
{
    waiting < BATCH_LIMIT
}

/// Actions of one kind that are sent together.
#[derive(Debug, Clone)]
pub struct Batch {
    /// Whether these are extra packets.
    pub inject: bool,
    pub packets: Vec<(Vec<u8>, CaptureAddress)>,
}

/// The steps of a batch.
pub open spec fn batch_steps(b: Batch) -> Seq<Step> {
    Seq::new(
        b.packets@.len(),
        |i: int|
            if b.inject {
                Step::Inject(b.packets@[i].0@, b.packets@[i].1)
            } else {
                Step::Forward(b.packets@[i].0@, b.packets@[i].1)
            },
    )
}

/// The steps of some batches, one batch after the other.
pub open spec fn batches_steps(s: Seq<Batch>) -> Seq<Step>
    decreases s.len(),
{
    if s.len() == 0 {
        Seq::empty()
    } else {
        batches_steps(s.drop_last()) + batch_steps(s.last())
    }
}

/// The steps of some actions.
pub open spec fn actions_steps(s: Seq<TxAction>) -> Seq<Step> {
    Seq::new(s.len(), |i: int| action_step(s[i]))
}

/// Whether batches are as long as they can be: none is empty, and neighbours
/// are of different kinds.
pub open spec fn maximal(s: Seq<Batch>) -> bool {
    &&& forall|i: int| 0 <= i < s.len() ==> (#[trigger] s[i]).packets@.len() > 0
    &&& forall|i: int, j: int|
        0 <= i < s.len() && j == i + 1 && j < s.len() ==> (#[trigger] s[i]).inject
            != (#[trigger] s[j]).inject
}

/// Splits actions into batches of one kind each, in order.
pub fn batch_up(queue: Vec<TxAction>) -> (r: Vec<Batch>)
    ensures
        batches_steps(r@) == actions_steps(queue@),
        maximal(r@),
{
    let ghost all: Seq<TxAction> = queue@;
    let n: usize = queue.len();
    let mut rest: Vec<TxAction> = queue;
    let mut done: Vec<Batch> = Vec::new();
    let mut current: Batch = Batch { inject: false, packets: Vec::new() };
    let mut i: usize = 0;
    assert(rest@ =~= all.skip(0));
    assert(batches_steps(done@) + batch_steps(current) =~= actions_steps(all.take(0)));
    while i < n
        invariant
            n == all.len(),
            i <= n,
            rest@ == all.skip(i as int),
            batches_steps(done@) + batch_steps(current) == actions_steps(all.take(i as int)),
            maximal(done@),
            i > 0 ==> current.packets@.len() > 0,
            done@.len() > 0 ==> done@.last().inject != current.inject,
            i == 0 ==> done@.len() == 0 && current.packets@.len() == 0,
        decreases n - i,
    {
        let action: TxAction = rest.remove(0);
        assert(action == all[i as int]);
        assert(rest@ =~= all.skip(i + 1));
        let ghost before: Seq<Step> = batches_steps(done@) + batch_steps(current);
        let ghost step: Step = action_step(action);
        assert(actions_steps(all.take(i + 1)) =~= actions_steps(all.take(i as int)).push(step));
        let (inject, data, addr): (bool, Vec<u8>, CaptureAddress) = match action {
            TxAction::Forward(data, addr) => (false, data, addr),
            TxAction::Inject(data, addr) => (true, data, addr),
        };
        if i == 0 {
            current.inject = inject;
            let ghost empty: Batch = current;
            current.packets.push((data, addr));
            assert(batch_steps(current) =~= seq![step]);
            assert(before =~= Seq::<Step>::empty());
            assert(batches_steps(done@) + batch_steps(current) =~= before.push(step));
        } else if current.inject == inject {
            let ghost old_steps: Seq<Step> = batch_steps(current);
            current.packets.push((data, addr));
            assert(batch_steps(current) =~= old_steps.push(step));
            assert(batches_steps(done@) + batch_steps(current) =~= before.push(step));
        } else {
            let mut packets: Vec<(Vec<u8>, CaptureAddress)> = Vec::new();
            packets.push((data, addr));
            let next: Batch = Batch { inject, packets };
            assert(batch_steps(next) =~= seq![step]);
            let ghost old_done: Seq<Batch> = done@;
            done.push(current);
            assert(done@.drop_last() =~= old_done);
            assert(batches_steps(done@) == before);
            current = next;
            assert(batches_steps(done@) + batch_steps(current) =~= before.push(step));
        }
        i = i + 1;
    }
    assert(all.take(i as int) =~= all);
    if n > 0 {
        let ghost old_done: Seq<Batch> = done@;
        done.push(current);
        assert(done@.drop_last() =~= old_done);
    } else {
        assert(batch_steps(current) =~= Seq::<Step>::empty());
        assert(batches_steps(done@) =~= actions_steps(all));
    }
    done
}

/// Nothing that is malformed is ever sent in place of a packet or besides it.
pub proof fn only_sound_packets_are_made(
    data: Seq<u8>,
    addr: CaptureAddress,
    decision: Option<PacketDecision>,
    i: int,
)
    requires
        0 <= i < steps_for(data, addr, decision).len(),
    ensures
        match steps_for(data, addr, decision)[i] {
            Step::Forward(p, _) => p == data || sound(p),
            Step::Inject(p, _) => sound(p),
            Step::Schedule(_, p, _, _) => sound(p),
            Step::RawUdp(p) => sound(p),
        },
{
    if let Some(
        PacketDecision::Desync {
            inject,
            modified,
            inject_protocol,
            inter_delay_us,
            inject_direction,
            drop_original,
        },
    ) = decision {
        lemma_injections_sound(
            inject@,
            inject@.len() as int,
            directed(addr, inject_direction),
            inject_protocol,
            inter_delay_us,
        );
    }
}

proof fn lemma_injections_sound(
    inject: Seq<Vec<u8>>,
    n: int,
    addr: CaptureAddress,
    protocol: InjectProtocol,
    delay: u32,
)
    ensures
        forall|i: int|
            0 <= i < injections(inject, n, addr, protocol, delay).len() ==> match (
            #[trigger] injections(inject, n, addr, protocol, delay)[i]) {
                Step::Forward(p, _) => false,
                Step::Inject(p, a) => sound(p) && a == addr,
                Step::Schedule(_, p, a, _) => sound(p) && a == addr,
                Step::RawUdp(p) => sound(p),
            },
    decreases n,
{
    if n > 0 {
        lemma_injections_sound(inject, n - 1, addr, protocol, delay);
    }
}

/// A packet that could not be processed goes on unchanged.
pub proof fn failures_let_packets_through(data: Seq<u8>, addr: CaptureAddress)
    ensures
        steps_for(data, addr, None) == seq![Step::Forward(data, addr)],
{
}

/// Extra packets leave before the packet that they go with, which leaves at
/// most once.
pub proof fn extra_packets_come_first(
    data: Seq<u8>,
    addr: CaptureAddress,
    decision: Option<PacketDecision>,
    i: int,
)
    requires
        0 <= i < steps_for(data, addr, decision).len(),
        steps_for(data, addr, decision)[i] is Forward,
    ensures
        i == steps_for(data, addr, decision).len() - 1,
{
    if let Some(
        PacketDecision::Desync {
            inject,
            modified,
            inject_protocol,
            inter_delay_us,
            inject_direction,
            drop_original,
        },
    ) = decision {
        lemma_injections_sound(
            inject@,
            inject@.len() as int,
            directed(addr, inject_direction),
            inject_protocol,
            inter_delay_us,
        );
    }
}

/// A packet that is let through leaves as it is, and once; one that is
/// discarded does not leave; one that is replaced leaves as its replacement,
/// where that may be sent.
pub proof fn decisions_are_carried_out(
    data: Seq<u8>,
    addr: CaptureAddress,
    decision: PacketDecision,
)
    ensures
        ({
            let steps = steps_for(data, addr, Some(decision));
            &&& decision is Forward ==> steps == seq![Step::Forward(data, addr)]
            &&& decision is Drop ==> steps.len() == 0
            &&& decision matches PacketDecision::Modify(m) ==> {
                &&& packet_fault(m@, ValidationMode::Fast) is None ==> steps == seq![
                    Step::Forward(m@, addr),
                ]
                &&& packet_fault(m@, ValidationMode::Fast) is Some ==> steps.len() == 0
            }
        }),
{
}

/// Where extra packets are sent, the packet itself leaves last: as its
/// replacement where there is one that may be sent, else as it is, unless it is
/// to be discarded. It keeps its own address.
pub proof fn the_packet_itself_leaves_last(
    data: Seq<u8>,
    addr: CaptureAddress,
    decision: PacketDecision,
)
    requires
        decision is Desync,
    ensures
        ({
            let steps = steps_for(data, addr, Some(decision));
            let extra = injections(
                decision->inject@,
                decision->inject@.len() as int,
                directed(addr, decision->inject_direction),
                decision->inject_protocol,
                decision->inter_delay_us,
            );
            &&& decision->modified matches Some(m) ==> {
                &&& packet_fault(m@, ValidationMode::Fast) is None ==> steps == extra.push(
                    Step::Forward(m@, addr),
                )
                &&& packet_fault(m@, ValidationMode::Fast) is Some ==> steps == extra
            }
            &&& decision->modified is None && decision->drop_original ==> steps == extra
            &&& decision->modified is None && !decision->drop_original ==> steps == extra.push(
                Step::Forward(data, addr),
            )
        }),
{
    let steps = steps_for(data, addr, Some(decision));
    let extra = injections(
        decision->inject@,
        decision->inject@.len() as int,
        directed(addr, decision->inject_direction),
        decision->inject_protocol,
        decision->inter_delay_us,
    );
    assert(extra + Seq::<Step>::empty() =~= extra);
    assert(extra + seq![Step::Forward(data, addr)] =~= extra.push(Step::Forward(data, addr)));
    if let Some(m) = decision->modified {
        assert(extra + seq![Step::Forward(m@, addr)] =~= extra.push(Step::Forward(m@, addr)));
    }
}

/// Extra packets that may be sent leave all of them, in order, over the way of
/// their protocol. Where there is a delay, the first leaves at once and each of
/// the others one delay later than the one before it.
pub proof fn extra_packets_leave_in_order(
    inject: Seq<Vec<u8>>,
    n: int,
    addr: CaptureAddress,
    protocol: InjectProtocol,
    delay: u32,
    i: int,
)
    requires
        0 <= i < n <= inject.len(),
        forall|k: int|
            0 <= k < n ==> packet_fault((#[trigger] inject[k])@, ValidationMode::Fast) is None,
        delay * n <= u32::MAX,
    ensures
        injections(inject, n, addr, protocol, delay).len() == n,
        injections(inject, n, addr, protocol, delay)[i] == (if i > 0 && delay > 0 {
            Step::Schedule((delay * i) as u32, inject[i]@, addr, protocol)
        } else if protocol is Tcp {
            Step::Inject(inject[i]@, addr)
        } else {
            Step::RawUdp(inject[i]@)
        }),
        delay > 0 && i > 0 ==> ({
            let step = injections(inject, n, addr, protocol, delay)[i];
            step is Schedule && step->Schedule_0 == delay * i
        }),
    decreases n,
{
    assert(delay * i <= u32::MAX && delay * (n - 1) <= u32::MAX) by (nonlinear_arith)
        requires
            0 <= i < n,
            0 <= delay,
            delay * n <= u32::MAX,
    ;
    assert(packet_fault(inject[n - 1]@, ValidationMode::Fast) is None);
    if i < n - 1 {
        extra_packets_leave_in_order(inject, n - 1, addr, protocol, delay, i);
    } else if n > 1 {
        extra_packets_leave_in_order(inject, n - 1, addr, protocol, delay, 0);
    }
}

/// An extra packet that may not be sent is left out, and changes nothing for
/// those before it.
pub proof fn malformed_extras_are_left_out(
    inject: Seq<Vec<u8>>,
    n: int,
    addr: CaptureAddress,
    protocol: InjectProtocol,
    delay: u32,
)
    requires
        0 < n <= inject.len(),
        packet_fault(inject[n - 1]@, ValidationMode::Fast) is Some,
    ensures
        injections(inject, n, addr, protocol, delay) == injections(
            inject,
            n - 1,
            addr,
            protocol,
            delay,
        ),
{
}

/// What is counted: a packet that could not be processed as an error, a
/// discarded one as such, a malformed replacement as a fault; a packet that goes
/// on is not counted here. Extra TCP packets are not counted either, extra
/// datagrams that may be sent are, each once.
pub proof fn outcomes_are_counted(s: ProcessingStats, decision: PacketDecision)
    ensures
        stats_after(s, None) == (ProcessingStats { errors: one_more(s.errors), ..s }),
        decision is Forward ==> stats_after(s, Some(decision)) == s,
        decision is Drop ==> stats_after(s, Some(decision)) == (ProcessingStats {
            dropped: one_more(s.dropped),
            ..s
        }),
        decision matches PacketDecision::Modify(m) ==> stats_after(s, Some(decision)) == (
        match packet_fault(m@, ValidationMode::Fast) {
            Some(reason) => faulted(s, reason),
            None => s,
        }),
{
}

/// Extra datagrams that may be sent are counted, each once; extra TCP packets
/// are not counted here. No other counter moves.
pub proof fn extra_packets_are_counted(
    s: ProcessingStats,
    inject: Seq<Vec<u8>>,
    n: int,
    protocol: InjectProtocol,
)
    requires
        0 <= n <= inject.len(),
        forall|k: int|
            0 <= k < n ==> packet_fault((#[trigger] inject[k])@, ValidationMode::Fast) is None,
        s.fake_ch_injected + n <= u64::MAX,
    ensures
        injection_stats(s, inject, n, protocol) == (ProcessingStats {
            fake_ch_injected: if protocol is Udp {
                (s.fake_ch_injected + n) as u64
            } else {
                s.fake_ch_injected
            },
            ..s
        }),
    decreases n,
{
    if n > 0 {
        assert(packet_fault(inject[n - 1]@, ValidationMode::Fast) is None);
        extra_packets_are_counted(s, inject, n - 1, protocol);
    }
}

} // verus!

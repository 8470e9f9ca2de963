//! Counting what the pipeline does.
//!
//! Counters start over when they are full.
use vstd::prelude::*;

use crate::engine::latency::{count_below, one_more, percentile, FixedLatencyHist};
use crate::packet_invariants::{packet_fault, validate_before_send, PacketInvalidReason, ValidationMode};

verus! {

/// What the pipeline has done so far.
#[derive(Debug, Clone, Copy)]
pub struct ProcessingStats {
    pub total_received: u64,
    pub injected_skipped: u64,
    pub tls_outbound: u64,
    pub fake_ch_injected: u64,
    pub forwarded: u64,
    pub dropped: u64,
    pub errors: u64,
    pub capture_tls_ch: u64,
    pub capture_quic_initial: u64,
    pub capture_dns: u64,
    pub capture_other: u64,
    pub shard_queue_full: u64,
    pub rewrite_inplace_success: u64,
    pub rewrite_copy_fallback: u64,
    pub rewrite_errors: u64,
    /// How long it took to work out extra packets.
    pub desync_application_latency_us: FixedLatencyHist,
    pub capture_mode: u8,
    pub capture_filter_update_failures_total: u64,
    pub capture_rx_pps: u64,
    pub capture_drop_ratio_ppm: u64,
    pub capture_other_udp443_pps: u64,
    pub capture_max_worker_queue_depth: usize,
    pub invariant_too_short: u64,
    pub invariant_unsupported_ip_version: u64,
    pub invariant_ipv4_header_too_short: u64,
    pub invariant_ipv4_total_length_mismatch: u64,
    pub invariant_ipv4_bad_header_checksum: u64,
    pub invariant_ipv6_payload_length_mismatch: u64,
    pub invariant_tcp_header_too_short: u64,
    pub invariant_udp_header_too_short: u64,
    pub invariant_udp_length_mismatch: u64,
    pub invariant_quic_initial_too_small: u64,
}

/// What a buffer pool has done so far.
#[derive(Debug, Clone, Copy, PartialEq, Eq, Structural)]
pub struct PoolCounters {
    pub acquire_total: u64,
    pub acquire_miss: u64,
    pub release_success: u64,
    pub release_refcount_failed: u64,
    pub capacity: usize,
}

/// A reading of all counters.
#[derive(Debug, Clone, Copy, PartialEq, Eq, Structural)]
pub struct ProcessingStatsSnapshot {
    pub total_received: u64,
    pub injected_skipped: u64,
    pub tls_outbound: u64,
    pub fake_ch_injected: u64,
    pub forwarded: u64,
    pub dropped: u64,
    pub errors: u64,
    pub capture_tls_ch: u64,
    pub capture_quic_initial: u64,
    pub capture_dns: u64,
    pub capture_other: u64,
    pub shard_queue_full: u64,
    pub shard_queue_depth_current: usize,
    pub pool_acquire_total: u64,
    pub pool_acquire_miss: u64,
    pub pool_release_success: u64,
    pub pool_release_refcount_failed: u64,
    pub pool_capacity: usize,
    pub desync_application_latency_us_p50: u64,
    pub desync_application_latency_us_p95: u64,
    pub desync_application_latency_us_p99: u64,
    pub capture_mode: u8,
    pub capture_filter_update_failures_total: u64,
    pub capture_rx_pps: u64,
    pub capture_drop_ratio_ppm: u64,
    pub capture_other_udp443_pps: u64,
    pub capture_max_worker_queue_depth: usize,
    pub invariant_too_short: u64,
    pub invariant_unsupported_ip_version: u64,
    pub invariant_ipv4_header_too_short: u64,
    pub invariant_ipv4_total_length_mismatch: u64,
    pub invariant_ipv4_bad_header_checksum: u64,
    pub invariant_ipv6_payload_length_mismatch: u64,
    pub invariant_tcp_header_too_short: u64,
    pub invariant_udp_header_too_short: u64,
    pub invariant_udp_length_mismatch: u64,
    pub invariant_quic_initial_too_small: u64,
}

impl Default for ProcessingStatsSnapshot {
    fn default() -> (r: ProcessingStatsSnapshot)
        ensures
            r == zero_snapshot(),
    {
        ProcessingStatsSnapshot {
            total_received: 0,
            injected_skipped: 0,
            tls_outbound: 0,
            fake_ch_injected: 0,
            forwarded: 0,
            dropped: 0,
            errors: 0,
            capture_tls_ch: 0,
            capture_quic_initial: 0,
            capture_dns: 0,
            capture_other: 0,
            shard_queue_full: 0,
            shard_queue_depth_current: 0,
            pool_acquire_total: 0,
            pool_acquire_miss: 0,
            pool_release_success: 0,
            pool_release_refcount_failed: 0,
            pool_capacity: 0,
            desync_application_latency_us_p50: 0,
            desync_application_latency_us_p95: 0,
            desync_application_latency_us_p99: 0,
            capture_mode: 0,
            capture_filter_update_failures_total: 0,
            capture_rx_pps: 0,
            capture_drop_ratio_ppm: 0,
            capture_other_udp443_pps: 0,
            capture_max_worker_queue_depth: 0,
            invariant_too_short: 0,
            invariant_unsupported_ip_version: 0,
            invariant_ipv4_header_too_short: 0,
            invariant_ipv4_total_length_mismatch: 0,
            invariant_ipv4_bad_header_checksum: 0,
            invariant_ipv6_payload_length_mismatch: 0,
            invariant_tcp_header_too_short: 0,
            invariant_udp_header_too_short: 0,
            invariant_udp_length_mismatch: 0,
            invariant_quic_initial_too_small: 0,
        }
    }
}

/// A reading of counters that are all zero.
pub open spec fn zero_snapshot() -> ProcessingStatsSnapshot {
    ProcessingStatsSnapshot {
        total_received: 0,
        injected_skipped: 0,
        tls_outbound: 0,
        fake_ch_injected: 0,
        forwarded: 0,
        dropped: 0,
        errors: 0,
        capture_tls_ch: 0,
        capture_quic_initial: 0,
        capture_dns: 0,
        capture_other: 0,
        shard_queue_full: 0,
        shard_queue_depth_current: 0,
        pool_acquire_total: 0,
        pool_acquire_miss: 0,
        pool_release_success: 0,
        pool_release_refcount_failed: 0,
        pool_capacity: 0,
        desync_application_latency_us_p50: 0,
        desync_application_latency_us_p95: 0,
        desync_application_latency_us_p99: 0,
        capture_mode: 0,
        capture_filter_update_failures_total: 0,
        capture_rx_pps: 0,
        capture_drop_ratio_ppm: 0,
        capture_other_udp443_pps: 0,
        capture_max_worker_queue_depth: 0,
        invariant_too_short: 0,
        invariant_unsupported_ip_version: 0,
        invariant_ipv4_header_too_short: 0,
        invariant_ipv4_total_length_mismatch: 0,
        invariant_ipv4_bad_header_checksum: 0,
        invariant_ipv6_payload_length_mismatch: 0,
        invariant_tcp_header_too_short: 0,
        invariant_udp_header_too_short: 0,
        invariant_udp_length_mismatch: 0,
        invariant_quic_initial_too_small: 0,
    }
}

/// The sum of some queue lengths.
pub open spec fn total_depth(depths: Seq<usize>) -> nat
    decreases depths.len(),
{
    if depths.len() == 0 {
        0
    } else {
        total_depth(depths.drop_last()) + depths.last() as nat
    }
}

/// The largest of some queue lengths; zero where there is none.
pub open spec fn max_depth(depths: Seq<usize>) -> usize
    decreases depths.len(),
{
    if depths.len() == 0 {
        0
    } else {
        let m = max_depth(depths.drop_last());
        if depths.last() > m {
            depths.last()
        } else {
            m
        }
    }
}

proof fn lemma_total_grows(depths: Seq<usize>, n: int)
    requires
        0 <= n <= depths.len(),
    ensures
        total_depth(depths.take(n)) <= total_depth(depths),
    decreases depths.len() - n,
{
    if n < depths.len() {
        assert(depths.take(n + 1).drop_last() =~= depths.take(n));
        lemma_total_grows(depths, n + 1);
    } else {
        assert(depths.take(n) =~= depths);
    }
}

/// The sum of some queue lengths.
pub fn sum_depths(depths: &Vec<usize>) -> (r: usize)
    requires
        total_depth(depths@) <= usize::MAX,
    ensures
        r == total_depth(depths@),
{
    let mut sum: usize = 0;
    let mut i: usize = 0;
    assert(depths@.take(0).len() == 0);
    while i < depths.len()
        invariant
            i <= depths@.len(),
            total_depth(depths@) <= usize::MAX,
            sum == total_depth(depths@.take(i as int)),
        decreases depths@.len() - i,
    {
        proof {
            assert(depths@.take(i + 1).drop_last() =~= depths@.take(i as int));
            lemma_total_grows(depths@, i + 1);
        }
        sum = sum + depths[i];
        i = i + 1;
    }
    assert(depths@.take(i as int) =~= depths@);
    sum
}

/// Whether the sum of some queue lengths fits into a machine word.
pub fn depths_fit(depths: &Vec<usize>) -> (r: bool)
    ensures
        r == (total_depth(depths@) <= usize::MAX),
{
    let mut sum: usize = 0;
    let mut i: usize = 0;
    assert(depths@.take(0).len() == 0);
    while i < depths.len()
        invariant
            i <= depths@.len(),
            sum == total_depth(depths@.take(i as int)),
        decreases depths@.len() - i,
    {
        proof {
            assert(depths@.take(i + 1).drop_last() =~= depths@.take(i as int));
            lemma_total_grows(depths@, i + 1);
        }
        match sum.checked_add(depths[i]) {
            Some(n) => {
                sum = n;
            },
            None => {
                return false;
            },
        }
        i = i + 1;
    }
    assert(depths@.take(i as int) =~= depths@);
    true
}

/// The largest of some queue lengths.
pub fn deepest(depths: &Vec<usize>) -> (r: usize)
    ensures
        r == max_depth(depths@),
{
    let mut m: usize = 0;
    let mut i: usize = 0;
    assert(depths@.take(0).len() == 0);
    while i < depths.len()
        invariant
            i <= depths@.len(),
            m == max_depth(depths@.take(i as int)),
        decreases depths@.len() - i,
    {
        assert(depths@.take(i + 1).drop_last() =~= depths@.take(i as int));
        if depths[i] > m {
            m = depths[i];
        }
        i = i + 1;
    }
    assert(depths@.take(i as int) =~= depths@);
    m
}

/// What kind of packet was captured, for the counters.
#[derive(Debug, Clone, Copy, PartialEq, Eq, Structural)]
pub enum CaptureKind {
    ClientHello,
    QuicInitial,
    Dns,
    Other,
}

/// Counters after a fault in a packet that was about to be sent.
pub open spec fn faulted(s: ProcessingStats, reason: PacketInvalidReason) -> ProcessingStats {
    let t = ProcessingStats { dropped: one_more(s.dropped), ..s };
    match reason {
        PacketInvalidReason::TooShort => ProcessingStats {
            invariant_too_short: one_more(s.invariant_too_short),
            ..t
        },
        PacketInvalidReason::UnsupportedIpVersion(_) => ProcessingStats {
            invariant_unsupported_ip_version: one_more(s.invariant_unsupported_ip_version),
            ..t
        },
        PacketInvalidReason::Ipv4HeaderTooShort => ProcessingStats {
            invariant_ipv4_header_too_short: one_more(s.invariant_ipv4_header_too_short),
            ..t
        },
        PacketInvalidReason::Ipv4TotalLengthMismatch => ProcessingStats {
            invariant_ipv4_total_length_mismatch: one_more(s.invariant_ipv4_total_length_mismatch),
            ..t
        },
        PacketInvalidReason::Ipv4BadHeaderChecksum => ProcessingStats {
            invariant_ipv4_bad_header_checksum: one_more(s.invariant_ipv4_bad_header_checksum),
            ..t
        },
        PacketInvalidReason::Ipv6PayloadLengthMismatch => ProcessingStats {
            invariant_ipv6_payload_length_mismatch: one_more(s.invariant_ipv6_payload_length_mismatch),
            ..t
        },
        PacketInvalidReason::TcpHeaderTooShort => ProcessingStats {
            invariant_tcp_header_too_short: one_more(s.invariant_tcp_header_too_short),
            ..t
        },
        PacketInvalidReason::UdpHeaderTooShort => ProcessingStats {
            invariant_udp_header_too_short: one_more(s.invariant_udp_header_too_short),
            ..t
        },
        PacketInvalidReason::UdpLengthMismatch => ProcessingStats {
            invariant_udp_length_mismatch: one_more(s.invariant_udp_length_mismatch),
            ..t
        },
        PacketInvalidReason::QuicInitialTooSmall => ProcessingStats {
            invariant_quic_initial_too_small: one_more(s.invariant_quic_initial_too_small),
            ..t
        },
    }
}

/// The readings of a window of captured traffic.
#[derive(Debug, Clone, Copy, PartialEq, Eq, Structural)]
pub struct CapturePressure {
    pub rx_pps: u64,
    pub drop_ratio_ppm: u64,
    pub other_udp443_pps: u64,
    pub max_worker_queue_depth: usize,
}

/// How much traffic is captured.
#[derive(Debug, Clone, Copy, PartialEq, Eq, Structural)]
pub enum CaptureMode {
    Strict,
    Balanced,
    SafeFallback,
}

/// The number of a capture mode.
pub open spec fn mode_code(mode: CaptureMode) -> u8 {
    match mode {
        CaptureMode::Strict => 0,
        CaptureMode::Balanced => 1,
        CaptureMode::SafeFallback => 2,
    }
}

impl ProcessingStats {
    /// Nothing counted, nothing observed, the strict capture mode.
    pub open spec fn zeroed(self) -> bool {
        &&& self.desync_application_latency_us@ == Seq::new(16, |i: int| 0u64)
        &&& self.total_received == 0
        &&& self.injected_skipped == 0
        &&& self.tls_outbound == 0
        &&& self.fake_ch_injected == 0
        &&& self.forwarded == 0
        &&& self.dropped == 0
        &&& self.errors == 0
        &&& self.capture_tls_ch == 0
        &&& self.capture_quic_initial == 0
        &&& self.capture_dns == 0
        &&& self.capture_other == 0
        &&& self.shard_queue_full == 0
        &&& self.rewrite_inplace_success == 0
        &&& self.rewrite_copy_fallback == 0
        &&& self.rewrite_errors == 0
        &&& self.capture_mode == 0
        &&& self.capture_filter_update_failures_total == 0
        &&& self.capture_rx_pps == 0
        &&& self.capture_drop_ratio_ppm == 0
        &&& self.capture_other_udp443_pps == 0
        &&& self.capture_max_worker_queue_depth == 0
        &&& self.invariant_too_short == 0
        &&& self.invariant_unsupported_ip_version == 0
        &&& self.invariant_ipv4_header_too_short == 0
        &&& self.invariant_ipv4_total_length_mismatch == 0
        &&& self.invariant_ipv4_bad_header_checksum == 0
        &&& self.invariant_ipv6_payload_length_mismatch == 0
        &&& self.invariant_tcp_header_too_short == 0
        &&& self.invariant_udp_header_too_short == 0
        &&& self.invariant_udp_length_mismatch == 0
        &&& self.invariant_quic_initial_too_small == 0
    }

    /// Nothing counted yet.
    pub fn new() -> (r: ProcessingStats)
        ensures
            r.zeroed(),
    {
        ProcessingStats {
            total_received: 0,
            injected_skipped: 0,
            tls_outbound: 0,
            fake_ch_injected: 0,
            forwarded: 0,
            dropped: 0,
            errors: 0,
            capture_tls_ch: 0,
            capture_quic_initial: 0,
            capture_dns: 0,
            capture_other: 0,
            shard_queue_full: 0,
            rewrite_inplace_success: 0,
            rewrite_copy_fallback: 0,
            rewrite_errors: 0,
            desync_application_latency_us: FixedLatencyHist::new(),
            capture_mode: 0,
            capture_filter_update_failures_total: 0,
            capture_rx_pps: 0,
            capture_drop_ratio_ppm: 0,
            capture_other_udp443_pps: 0,
            capture_max_worker_queue_depth: 0,
            invariant_too_short: 0,
            invariant_unsupported_ip_version: 0,
            invariant_ipv4_header_too_short: 0,
            invariant_ipv4_total_length_mismatch: 0,
            invariant_ipv4_bad_header_checksum: 0,
            invariant_ipv6_payload_length_mismatch: 0,
            invariant_tcp_header_too_short: 0,
            invariant_udp_header_too_short: 0,
            invariant_udp_length_mismatch: 0,
            invariant_quic_initial_too_small: 0,
        }
    }

    /// Counts a number of captured packets.
    pub fn count_received(&mut self, n: u64)
        ensures
            *final(self) == (ProcessingStats {
                total_received: ((old(self).total_received + n) % 0x1_0000_0000_0000_0000) as u64,
                ..*old(self)
            }),
    {
        self.total_received = self.total_received.wrapping_add(n);
    }

    /// Counts a number of packets that went on.
    pub fn count_forwarded(&mut self, n: u64)
        ensures
            *final(self) == (ProcessingStats {
                forwarded: ((old(self).forwarded + n) % 0x1_0000_0000_0000_0000) as u64,
                ..*old(self)
            }),
    {
        self.forwarded = self.forwarded.wrapping_add(n);
    }

    /// Counts a number of extra packets.
    pub fn count_injected(&mut self, n: u64)
        ensures
            *final(self) == (ProcessingStats {
                fake_ch_injected: ((old(self).fake_ch_injected + n) % 0x1_0000_0000_0000_0000) as u64,
                ..*old(self)
            }),
    {
        self.fake_ch_injected = self.fake_ch_injected.wrapping_add(n);
    }

    /// Counts a discarded packet.
    pub fn count_dropped(&mut self)
        ensures
            *final(self) == (ProcessingStats { dropped: one_more(old(self).dropped), ..*old(self) }),
    {
        self.dropped = self.dropped.wrapping_add(1);
    }

    /// Counts a packet that could not be processed.
    pub fn count_error(&mut self)
        ensures
            *final(self) == (ProcessingStats { errors: one_more(old(self).errors), ..*old(self) }),
    {
        self.errors = self.errors.wrapping_add(1);
    }

    /// Counts an outgoing TLS packet.
    pub fn count_tls_outbound(&mut self)
        ensures
            *final(self) == (ProcessingStats { tls_outbound: one_more(old(self).tls_outbound), ..*old(self) }),
    {
        self.tls_outbound = self.tls_outbound.wrapping_add(1);
    }

    /// Counts a packet that found its worker's queue full.
    pub fn count_queue_full(&mut self)
        ensures
            *final(self) == (ProcessingStats { shard_queue_full: one_more(old(self).shard_queue_full), ..*old(self) }),
    {
        self.shard_queue_full = self.shard_queue_full.wrapping_add(1);
    }

    /// Counts a filter that could not be changed.
    pub fn count_filter_failure(&mut self)
        ensures
            *final(self) == (ProcessingStats { capture_filter_update_failures_total: one_more(old(self).capture_filter_update_failures_total), ..*old(self) }),
    {
        self.capture_filter_update_failures_total = self.capture_filter_update_failures_total.wrapping_add(1);
    }

    /// Counts a captured packet by its kind.
    pub fn count_captured(&mut self, kind: CaptureKind)
        ensures
            *final(self) == (match kind {
                CaptureKind::ClientHello => ProcessingStats {
                    capture_tls_ch: one_more(old(self).capture_tls_ch),
                    ..*old(self)
                },
                CaptureKind::QuicInitial => ProcessingStats {
                    capture_quic_initial: one_more(old(self).capture_quic_initial),
                    ..*old(self)
                },
                CaptureKind::Dns => ProcessingStats {
                    capture_dns: one_more(old(self).capture_dns),
                    ..*old(self)
                },
                CaptureKind::Other => ProcessingStats {
                    capture_other: one_more(old(self).capture_other),
                    ..*old(self)
                },
            }),
    {
        match kind {
            CaptureKind::ClientHello => {
                self.capture_tls_ch = self.capture_tls_ch.wrapping_add(1);
            },
            CaptureKind::QuicInitial => {
                self.capture_quic_initial = self.capture_quic_initial.wrapping_add(1);
            },
            CaptureKind::Dns => {
                self.capture_dns = self.capture_dns.wrapping_add(1);
            },
            CaptureKind::Other => {
                self.capture_other = self.capture_other.wrapping_add(1);
            },
        }
    }

    /// Takes over the readings of a window, and the capture mode where it
    /// changes.
    pub fn observe_window(&mut self, pressure: &CapturePressure, next_mode: Option<CaptureMode>)
        ensures
            *final(self) == (ProcessingStats {
                capture_rx_pps: pressure.rx_pps,
                capture_drop_ratio_ppm: pressure.drop_ratio_ppm,
                capture_other_udp443_pps: pressure.other_udp443_pps,
                capture_max_worker_queue_depth: pressure.max_worker_queue_depth,
                capture_mode: match next_mode {
                    Some(m) => mode_code(m),
                    None => old(self).capture_mode,
                },
                ..*old(self)
            }),
    {
        self.capture_rx_pps = pressure.rx_pps;
        self.capture_drop_ratio_ppm = pressure.drop_ratio_ppm;
        self.capture_other_udp443_pps = pressure.other_udp443_pps;
        self.capture_max_worker_queue_depth = pressure.max_worker_queue_depth;
        if let Some(m) = next_mode {
            self.capture_mode =
            match m {
                CaptureMode::Strict => 0,
                CaptureMode::Balanced => 1,
                CaptureMode::SafeFallback => 2,
            };
        }
    }

    /// Checks a packet that is about to be sent. One that is malformed is
    /// counted, as discarded and by what is wrong with it.
    pub fn validate_packet_and_log(&mut self, packet: &[u8]) -> (r: bool)
        ensures
            r == (packet_fault(packet@, ValidationMode::Fast) is None),
            *final(self) == (match packet_fault(packet@, ValidationMode::Fast) {
                Some(reason) => faulted(*old(self), reason),
                None => *old(self),
            }),
    {
        match validate_before_send(packet, ValidationMode::Fast) {
            Ok(()) => true,
            Err(reason) => {
                self.dropped = self.dropped.wrapping_add(1);
                match reason {
                    PacketInvalidReason::TooShort => {
                        self.invariant_too_short =
                        self.invariant_too_short.wrapping_add(1);
                    },
                    PacketInvalidReason::UnsupportedIpVersion(_) => {
                        self.invariant_unsupported_ip_version =
                        self.invariant_unsupported_ip_version.wrapping_add(1);
                    },
                    PacketInvalidReason::Ipv4HeaderTooShort => {
                        self.invariant_ipv4_header_too_short =
                        self.invariant_ipv4_header_too_short.wrapping_add(1);
                    },
                    PacketInvalidReason::Ipv4TotalLengthMismatch => {
                        self.invariant_ipv4_total_length_mismatch =
                        self.invariant_ipv4_total_length_mismatch.wrapping_add(1);
                    },
                    PacketInvalidReason::Ipv4BadHeaderChecksum => {
                        self.invariant_ipv4_bad_header_checksum =
                        self.invariant_ipv4_bad_header_checksum.wrapping_add(1);
                    },
                    PacketInvalidReason::Ipv6PayloadLengthMismatch => {
                        self.invariant_ipv6_payload_length_mismatch =
                        self.invariant_ipv6_payload_length_mismatch.wrapping_add(1);
                    },
                    PacketInvalidReason::TcpHeaderTooShort => {
                        self.invariant_tcp_header_too_short =
                        self.invariant_tcp_header_too_short.wrapping_add(1);
                    },
                    PacketInvalidReason::UdpHeaderTooShort => {
                        self.invariant_udp_header_too_short =
                        self.invariant_udp_header_too_short.wrapping_add(1);
                    },
                    PacketInvalidReason::UdpLengthMismatch => {
                        self.invariant_udp_length_mismatch =
                        self.invariant_udp_length_mismatch.wrapping_add(1);
                    },
                    PacketInvalidReason::QuicInitialTooSmall => {
                        self.invariant_quic_initial_too_small =
                        self.invariant_quic_initial_too_small.wrapping_add(1);
                    },
                }
                false
            },
        }
    }

    /// Reads all counters.
    pub fn snapshot(&self, pool: Option<PoolCounters>, queue_depths: &Vec<usize>) -> (r:
        ProcessingStatsSnapshot)
        requires
            total_depth(queue_depths@) <= usize::MAX,
            count_below(self.desync_application_latency_us@, 16) <= u64::MAX,
        ensures
            r == snapshot_of(*self, pool, queue_depths@),
    {
        let (p50, p95, p99): (u64, u64, u64) =
            self.desync_application_latency_us.estimate_percentiles();
        let counters: PoolCounters = match pool {
            Some(c) => c,
            None => PoolCounters {
                acquire_total: 0,
                acquire_miss: 0,
                release_success: 0,
                release_refcount_failed: 0,
                capacity: 0,
            },
        };
        ProcessingStatsSnapshot {
            total_received: self.total_received,
            injected_skipped: self.injected_skipped,
            tls_outbound: self.tls_outbound,
            fake_ch_injected: self.fake_ch_injected,
            forwarded: self.forwarded,
            dropped: self.dropped,
            errors: self.errors,
            capture_tls_ch: self.capture_tls_ch,
            capture_quic_initial: self.capture_quic_initial,
            capture_dns: self.capture_dns,
            capture_other: self.capture_other,
            shard_queue_full: self.shard_queue_full,
            shard_queue_depth_current: sum_depths(queue_depths),
            pool_acquire_total: counters.acquire_total,
            pool_acquire_miss: counters.acquire_miss,
            pool_release_success: counters.release_success,
            pool_release_refcount_failed: counters.release_refcount_failed,
            pool_capacity: counters.capacity,
            desync_application_latency_us_p50: p50,
            desync_application_latency_us_p95: p95,
            desync_application_latency_us_p99: p99,
            capture_mode: self.capture_mode,
            capture_filter_update_failures_total: self.capture_filter_update_failures_total,
            capture_rx_pps: self.capture_rx_pps,
            capture_drop_ratio_ppm: self.capture_drop_ratio_ppm,
            capture_other_udp443_pps: self.capture_other_udp443_pps,
            capture_max_worker_queue_depth: self.capture_max_worker_queue_depth,
            invariant_too_short: self.invariant_too_short,
            invariant_unsupported_ip_version: self.invariant_unsupported_ip_version,
            invariant_ipv4_header_too_short: self.invariant_ipv4_header_too_short,
            invariant_ipv4_total_length_mismatch: self.invariant_ipv4_total_length_mismatch,
            invariant_ipv4_bad_header_checksum: self.invariant_ipv4_bad_header_checksum,
            invariant_ipv6_payload_length_mismatch: self.invariant_ipv6_payload_length_mismatch,
            invariant_tcp_header_too_short: self.invariant_tcp_header_too_short,
            invariant_udp_header_too_short: self.invariant_udp_header_too_short,
            invariant_udp_length_mismatch: self.invariant_udp_length_mismatch,
            invariant_quic_initial_too_small: self.invariant_quic_initial_too_small,
        }
    }
}

/// A latency percentile; zero where nothing was observed.
pub open spec fn percentile_or_zero(counts: Seq<u64>, pct: nat) -> u64 {
    if count_below(counts, 16) == 0 {
        0
    } else {
        percentile(counts, pct)
    }
}

/// A reading of all counters; those of the pool are zero where there is none.
pub open spec fn snapshot_of(
    s: ProcessingStats,
    pool: Option<PoolCounters>,
    depths: Seq<usize>,
) -> ProcessingStatsSnapshot {
    let p50 = percentile_or_zero(s.desync_application_latency_us@, 50);
    let p95 = percentile_or_zero(s.desync_application_latency_us@, 95);
    let p99 = percentile_or_zero(s.desync_application_latency_us@, 99);
    let counters = match pool {
        Some(c) => c,
        None => PoolCounters {
            acquire_total: 0,
            acquire_miss: 0,
            release_success: 0,
            release_refcount_failed: 0,
            capacity: 0,
        },
    };
    ProcessingStatsSnapshot {
        total_received: s.total_received,
        injected_skipped: s.injected_skipped,
        tls_outbound: s.tls_outbound,
        fake_ch_injected: s.fake_ch_injected,
        forwarded: s.forwarded,
        dropped: s.dropped,
        errors: s.errors,
        capture_tls_ch: s.capture_tls_ch,
        capture_quic_initial: s.capture_quic_initial,
        capture_dns: s.capture_dns,
        capture_other: s.capture_other,
        shard_queue_full: s.shard_queue_full,
        shard_queue_depth_current: total_depth(depths) as usize,
        pool_acquire_total: counters.acquire_total,
        pool_acquire_miss: counters.acquire_miss,
        pool_release_success: counters.release_success,
        pool_release_refcount_failed: counters.release_refcount_failed,
        pool_capacity: counters.capacity,
        desync_application_latency_us_p50: p50,
        desync_application_latency_us_p95: p95,
        desync_application_latency_us_p99: p99,
        capture_mode: s.capture_mode,
        capture_filter_update_failures_total: s.capture_filter_update_failures_total,
        capture_rx_pps: s.capture_rx_pps,
        capture_drop_ratio_ppm: s.capture_drop_ratio_ppm,
        capture_other_udp443_pps: s.capture_other_udp443_pps,
        capture_max_worker_queue_depth: s.capture_max_worker_queue_depth,
        invariant_too_short: s.invariant_too_short,
        invariant_unsupported_ip_version: s.invariant_unsupported_ip_version,
        invariant_ipv4_header_too_short: s.invariant_ipv4_header_too_short,
        invariant_ipv4_total_length_mismatch: s.invariant_ipv4_total_length_mismatch,
        invariant_ipv4_bad_header_checksum: s.invariant_ipv4_bad_header_checksum,
        invariant_ipv6_payload_length_mismatch: s.invariant_ipv6_payload_length_mismatch,
        invariant_tcp_header_too_short: s.invariant_tcp_header_too_short,
        invariant_udp_header_too_short: s.invariant_udp_header_too_short,
        invariant_udp_length_mismatch: s.invariant_udp_length_mismatch,
        invariant_quic_initial_too_small: s.invariant_quic_initial_too_small,
    }
}

/// The counts of malformed packets, by reason.
pub open spec fn fault_counts(s: ProcessingStats) -> Seq<u64> {
    seq![
        s.invariant_too_short,
        s.invariant_unsupported_ip_version,
        s.invariant_ipv4_header_too_short,
        s.invariant_ipv4_total_length_mismatch,
        s.invariant_ipv4_bad_header_checksum,
        s.invariant_ipv6_payload_length_mismatch,
        s.invariant_tcp_header_too_short,
        s.invariant_udp_header_too_short,
        s.invariant_udp_length_mismatch,
        s.invariant_quic_initial_too_small,
    ]
}

/// The place of a reason among the counts.
pub open spec fn fault_place(reason: PacketInvalidReason) -> int {
    match reason {
        PacketInvalidReason::TooShort => 0,
        PacketInvalidReason::UnsupportedIpVersion(_) => 1,
        PacketInvalidReason::Ipv4HeaderTooShort => 2,
        PacketInvalidReason::Ipv4TotalLengthMismatch => 3,
        PacketInvalidReason::Ipv4BadHeaderChecksum => 4,
        PacketInvalidReason::Ipv6PayloadLengthMismatch => 5,
        PacketInvalidReason::TcpHeaderTooShort => 6,
        PacketInvalidReason::UdpHeaderTooShort => 7,
        PacketInvalidReason::UdpLengthMismatch => 8,
        PacketInvalidReason::QuicInitialTooSmall => 9,
    }
}

/// The counters with other counts of discarded and malformed packets.
pub open spec fn with_faults_of(s: ProcessingStats, t: ProcessingStats) -> ProcessingStats {
    ProcessingStats {
        dropped: t.dropped,
        invariant_too_short: t.invariant_too_short,
        invariant_unsupported_ip_version: t.invariant_unsupported_ip_version,
        invariant_ipv4_header_too_short: t.invariant_ipv4_header_too_short,
        invariant_ipv4_total_length_mismatch: t.invariant_ipv4_total_length_mismatch,
        invariant_ipv4_bad_header_checksum: t.invariant_ipv4_bad_header_checksum,
        invariant_ipv6_payload_length_mismatch: t.invariant_ipv6_payload_length_mismatch,
        invariant_tcp_header_too_short: t.invariant_tcp_header_too_short,
        invariant_udp_header_too_short: t.invariant_udp_header_too_short,
        invariant_udp_length_mismatch: t.invariant_udp_length_mismatch,
        invariant_quic_initial_too_small: t.invariant_quic_initial_too_small,
        ..s
    }
}

/// A malformed packet is always counted as discarded, and under exactly one
/// reason: no counter but those two moves.
pub proof fn faults_are_counted_once(s: ProcessingStats, reason: PacketInvalidReason)
    ensures
        faulted(s, reason).dropped == one_more(s.dropped),
        fault_counts(faulted(s, reason)) == fault_counts(s).update(
            fault_place(reason),
            one_more(fault_counts(s)[fault_place(reason)]),
        ),
        with_faults_of(faulted(s, reason), s) == s,
{
    assert(fault_counts(faulted(s, reason)) =~= fault_counts(s).update(
        fault_place(reason),
        one_more(fault_counts(s)[fault_place(reason)]),
    ));
}

/// The numbers of the capture modes are distinct, and grow with how much less
/// is captured.
pub proof fn capture_modes_are_numbered(a: CaptureMode, b: CaptureMode)
    ensures
        mode_code(a) == mode_code(b) ==> a == b,
        mode_code(CaptureMode::Strict) == 0,
        mode_code(CaptureMode::Balanced) == 1,
        mode_code(CaptureMode::SafeFallback) == 2,
{
}

/// The depth of all queues is the sum of theirs, and the deepest is one of them
/// that none exceeds.
pub proof fn depths_are_summed_and_compared(depths: Seq<usize>, d: usize, i: int)
    requires
        0 <= i < depths.len(),
    ensures
        total_depth(depths.push(d)) == total_depth(depths) + d,
        total_depth(seq![]) == 0,
        depths[i] <= max_depth(depths),
        depths.contains(max_depth(depths)),
    decreases depths.len(),
{
    assert(depths.push(d).drop_last() =~= depths);
    let n = depths.len() - 1;
    let rest = depths.drop_last();
    if i < n {
        depths_are_summed_and_compared(rest, d, i);
        assert(rest[i] == depths[i]);
    }
    if n == 0 {
        assert(max_depth(rest) == 0);
        assert(depths[n] == max_depth(depths));
    } else {
        depths_are_summed_and_compared(rest, d, 0);
        let k = choose|k: int| 0 <= k < rest.len() && rest[k] == max_depth(rest);
        assert(depths[k] == max_depth(rest));
        assert(depths[n] == depths.last());
        if depths.last() > max_depth(rest) {
            assert(depths[n] == max_depth(depths));
        } else {
            assert(depths[k] == max_depth(depths));
        }
    }
}

/// A reading of the counters holds each of them under its own name, the sum and
/// the percentiles of what was observed, and nothing of the pool where there is
/// none.
pub proof fn readings_hold_every_counter(
    s: ProcessingStats,
    pool: Option<PoolCounters>,
    depths: Seq<usize>,
)
    ensures
        ({
            let r = snapshot_of(s, pool, depths);
            &&& r.total_received == s.total_received
            &&& r.injected_skipped == s.injected_skipped
            &&& r.tls_outbound == s.tls_outbound
            &&& r.fake_ch_injected == s.fake_ch_injected
            &&& r.forwarded == s.forwarded
            &&& r.dropped == s.dropped
            &&& r.errors == s.errors
            &&& r.capture_tls_ch == s.capture_tls_ch
            &&& r.capture_quic_initial == s.capture_quic_initial
            &&& r.capture_dns == s.capture_dns
            &&& r.capture_other == s.capture_other
            &&& r.shard_queue_full == s.shard_queue_full
            &&& r.shard_queue_depth_current == total_depth(depths) as usize
            &&& r.capture_mode == s.capture_mode
            &&& r.capture_filter_update_failures_total == s.capture_filter_update_failures_total
            &&& r.capture_rx_pps == s.capture_rx_pps
            &&& r.capture_drop_ratio_ppm == s.capture_drop_ratio_ppm
            &&& r.capture_other_udp443_pps == s.capture_other_udp443_pps
            &&& r.capture_max_worker_queue_depth == s.capture_max_worker_queue_depth
            &&& r.invariant_too_short == s.invariant_too_short
            &&& r.invariant_unsupported_ip_version == s.invariant_unsupported_ip_version
            &&& r.invariant_ipv4_header_too_short == s.invariant_ipv4_header_too_short
            &&& r.invariant_ipv4_total_length_mismatch == s.invariant_ipv4_total_length_mismatch
            &&& r.invariant_ipv4_bad_header_checksum == s.invariant_ipv4_bad_header_checksum
            &&& r.invariant_ipv6_payload_length_mismatch
                == s.invariant_ipv6_payload_length_mismatch
            &&& r.invariant_tcp_header_too_short == s.invariant_tcp_header_too_short
            &&& r.invariant_udp_header_too_short == s.invariant_udp_header_too_short
            &&& r.invariant_udp_length_mismatch == s.invariant_udp_length_mismatch
            &&& r.invariant_quic_initial_too_small == s.invariant_quic_initial_too_small
            &&& r.desync_application_latency_us_p50 <= r.desync_application_latency_us_p95
            &&& r.desync_application_latency_us_p95 <= r.desync_application_latency_us_p99
            &&& pool matches Some(c) ==> r.pool_acquire_total == c.acquire_total
                && r.pool_acquire_miss == c.acquire_miss && r.pool_release_success
                == c.release_success && r.pool_release_refcount_failed == c.release_refcount_failed
                && r.pool_capacity == c.capacity
            &&& pool is None ==> r.pool_acquire_total == 0 && r.pool_acquire_miss == 0
                && r.pool_release_success == 0 && r.pool_release_refcount_failed == 0
                && r.pool_capacity == 0
        }),
{
    crate::engine::latency::percentiles_are_ordered(s.desync_application_latency_us@, 50, 95);
    crate::engine::latency::percentiles_are_ordered(s.desync_application_latency_us@, 95, 99);
}

/// The percentiles of a reading are those of what was observed: one half,
/// nineteen twentieths, and ninety-nine hundredths; zero where nothing was.
pub proof fn readings_hold_the_percentiles(
    s: ProcessingStats,
    pool: Option<PoolCounters>,
    depths: Seq<usize>,
)
    ensures
        ({
            let r = snapshot_of(s, pool, depths);
            let seen = s.desync_application_latency_us@;
            let none = count_below(seen, 16) == 0;
            &&& none ==> r.desync_application_latency_us_p50 == 0
                && r.desync_application_latency_us_p95 == 0 && r.desync_application_latency_us_p99
                == 0
            &&& !none ==> r.desync_application_latency_us_p50 == percentile(seen, 50)
                && r.desync_application_latency_us_p95 == percentile(seen, 95)
                && r.desync_application_latency_us_p99 == percentile(seen, 99)
        }),
{
}

/// Each fault has a counter of its own name, which it moves by one.
pub proof fn faults_move_the_counter_of_their_name(s: ProcessingStats, version: u8)
    requires
        s.invariant_too_short < u64::MAX,
        s.invariant_unsupported_ip_version < u64::MAX,
        s.invariant_ipv4_header_too_short < u64::MAX,
        s.invariant_ipv4_total_length_mismatch < u64::MAX,
        s.invariant_ipv4_bad_header_checksum < u64::MAX,
        s.invariant_ipv6_payload_length_mismatch < u64::MAX,
        s.invariant_tcp_header_too_short < u64::MAX,
        s.invariant_udp_header_too_short < u64::MAX,
        s.invariant_udp_length_mismatch < u64::MAX,
        s.invariant_quic_initial_too_small < u64::MAX,
        s.dropped < u64::MAX,
    ensures
        faulted(s, PacketInvalidReason::TooShort).invariant_too_short == s.invariant_too_short + 1,
        faulted(
            s,
            PacketInvalidReason::UnsupportedIpVersion(version),
        ).invariant_unsupported_ip_version == s.invariant_unsupported_ip_version + 1,
        faulted(s, PacketInvalidReason::Ipv4HeaderTooShort).invariant_ipv4_header_too_short
            == s.invariant_ipv4_header_too_short + 1,
        faulted(
            s,
            PacketInvalidReason::Ipv4TotalLengthMismatch,
        ).invariant_ipv4_total_length_mismatch == s.invariant_ipv4_total_length_mismatch + 1,
        faulted(s, PacketInvalidReason::Ipv4BadHeaderChecksum).invariant_ipv4_bad_header_checksum
            == s.invariant_ipv4_bad_header_checksum + 1,
        faulted(
            s,
            PacketInvalidReason::Ipv6PayloadLengthMismatch,
        ).invariant_ipv6_payload_length_mismatch == s.invariant_ipv6_payload_length_mismatch + 1,
        faulted(s, PacketInvalidReason::TcpHeaderTooShort).invariant_tcp_header_too_short
            == s.invariant_tcp_header_too_short + 1,
        faulted(s, PacketInvalidReason::UdpHeaderTooShort).invariant_udp_header_too_short
            == s.invariant_udp_header_too_short + 1,
        faulted(s, PacketInvalidReason::UdpLengthMismatch).invariant_udp_length_mismatch
            == s.invariant_udp_length_mismatch + 1,
        faulted(s, PacketInvalidReason::QuicInitialTooSmall).invariant_quic_initial_too_small
            == s.invariant_quic_initial_too_small + 1,
        forall|reason: PacketInvalidReason|
            (#[trigger] faulted(s, reason)).dropped == s.dropped + 1,
{
}

/// Before anything is counted every counter is zero, and so is every number of an
/// empty reading.
pub proof fn nothing_is_counted_at_first(s: ProcessingStats, t: ProcessingStatsSnapshot)
    requires
        s.zeroed(),
        t == zero_snapshot(),
    ensures
        s.total_received == 0,
        s.injected_skipped == 0,
        s.tls_outbound == 0,
        s.fake_ch_injected == 0,
        s.forwarded == 0,
        s.dropped == 0,
        s.errors == 0,
        s.capture_tls_ch == 0,
        s.capture_quic_initial == 0,
        s.capture_dns == 0,
        s.capture_other == 0,
        s.shard_queue_full == 0,
        s.rewrite_inplace_success == 0,
        s.rewrite_copy_fallback == 0,
        s.rewrite_errors == 0,
        s.capture_mode == 0,
        s.capture_filter_update_failures_total == 0,
        s.capture_rx_pps == 0,
        s.capture_drop_ratio_ppm == 0,
        s.capture_other_udp443_pps == 0,
        s.capture_max_worker_queue_depth == 0,
        s.invariant_too_short == 0,
        s.invariant_unsupported_ip_version == 0,
        s.invariant_ipv4_header_too_short == 0,
        s.invariant_ipv4_total_length_mismatch == 0,
        s.invariant_ipv4_bad_header_checksum == 0,
        s.invariant_ipv6_payload_length_mismatch == 0,
        s.invariant_tcp_header_too_short == 0,
        s.invariant_udp_header_too_short == 0,
        s.invariant_udp_length_mismatch == 0,
        s.invariant_quic_initial_too_small == 0,
        t.total_received == 0,
        t.injected_skipped == 0,
        t.tls_outbound == 0,
        t.fake_ch_injected == 0,
        t.forwarded == 0,
        t.dropped == 0,
        t.errors == 0,
        t.capture_tls_ch == 0,
        t.capture_quic_initial == 0,
        t.capture_dns == 0,
        t.capture_other == 0,
        t.shard_queue_full == 0,
        t.shard_queue_depth_current == 0,
        t.pool_acquire_total == 0,
        t.pool_acquire_miss == 0,
        t.pool_release_success == 0,
        t.pool_release_refcount_failed == 0,
        t.pool_capacity == 0,
        t.desync_application_latency_us_p50 == 0,
        t.desync_application_latency_us_p95 == 0,
        t.desync_application_latency_us_p99 == 0,
        t.capture_mode == 0,
        t.capture_filter_update_failures_total == 0,
        t.capture_rx_pps == 0,
        t.capture_drop_ratio_ppm == 0,
        t.capture_other_udp443_pps == 0,
        t.capture_max_worker_queue_depth == 0,
        t.invariant_too_short == 0,
        t.invariant_unsupported_ip_version == 0,
        t.invariant_ipv4_header_too_short == 0,
        t.invariant_ipv4_total_length_mismatch == 0,
        t.invariant_ipv4_bad_header_checksum == 0,
        t.invariant_ipv6_payload_length_mismatch == 0,
        t.invariant_tcp_header_too_short == 0,
        t.invariant_udp_header_too_short == 0,
        t.invariant_udp_length_mismatch == 0,
        t.invariant_quic_initial_too_small == 0,
{
}

} // verus!

//! The counter records shared between the kernel-resident classifier and
//! user space, and the per-processor summation performed by the counter
//! extraction bridge.

use vstd::prelude::*;
use crate::arith::{sat_add64, lemma_sat_add64_mono};

verus! {

/// Cumulative packet statistics kept by the classifier, one logical instance
/// per processor, summed on read.
#[derive(Clone, Copy, Debug, PartialEq, Eq, Structural)]
pub struct PacketStats {
    pub total_packets: u64,
    pub total_bytes: u64,
    pub tcp_packets: u64,
    pub tcp_bytes: u64,
    /// Port 443 traffic.
    pub tls_packets: u64,
    pub tls_bytes: u64,
    /// Port 80 traffic.
    pub http_packets: u64,
    pub http_bytes: u64,
}

/// TCP flow key (5-tuple). Declared as an extension point for per-flow
/// tracking; the classifier aggregates only into `PacketStats`.
#[derive(Clone, Copy, Hash, PartialEq, Eq)]
pub struct FlowKey {
    pub src_ip: u32,
    pub dst_ip: u32,
    pub src_port: u16,
    pub dst_port: u16,
    pub protocol: u8,
    pub _padding: [u8; 3],
}

/// Per-flow statistics; declared but not populated by this classifier.
#[derive(Clone, Copy)]
pub struct FlowStats {
    pub packets: u64,
    pub bytes: u64,
    /// Nanoseconds since boot.
    pub first_seen: u64,
    pub last_seen: u64,
}

/// TCP connection metrics; declared but not populated by this classifier.
#[derive(Clone, Copy)]
pub struct TcpMetrics {
    /// Round-trip time in microseconds.
    pub rtt_us: u32,
    /// Retransmission count.
    pub retransmits: u32,
    pub _padding: [u8; 8],
}

impl PacketStats {
    /// All eight counters zero: the state of a freshly attached classifier.
    pub open spec fn zeroed() -> PacketStats {
        PacketStats {
            total_packets: 0,
            total_bytes: 0,
            tcp_packets: 0,
            tcp_bytes: 0,
            tls_packets: 0,
            tls_bytes: 0,
            http_packets: 0,
            http_bytes: 0,
        }
    }

    /// The containment invariant the classifier maintains: TCP traffic is a
    /// subset of all traffic, and port-443 / port-80 traffic are subsets of
    /// TCP traffic.
    pub open spec fn wf(self) -> bool {
        &&& self.tcp_packets <= self.total_packets
        &&& self.tcp_bytes <= self.total_bytes
        &&& self.tls_packets <= self.tcp_packets
        &&& self.tls_bytes <= self.tcp_bytes
        &&& self.http_packets <= self.tcp_packets
        &&& self.http_bytes <= self.tcp_bytes
    }

    /// A fresh, zeroed counter record.
    pub fn new() -> (r: PacketStats)
        ensures
            r == PacketStats::zeroed(),
    {
        PacketStats {
            total_packets: 0,
            total_bytes: 0,
            tcp_packets: 0,
            tcp_bytes: 0,
            tls_packets: 0,
            tls_bytes: 0,
            http_packets: 0,
            http_bytes: 0,
        }
    }
}

/// Field-wise saturating sum of two counter records.
pub open spec fn combine(a: PacketStats, b: PacketStats) -> PacketStats {
    PacketStats {
        total_packets: sat_add64(a.total_packets, b.total_packets),
        total_bytes: sat_add64(a.total_bytes, b.total_bytes),
        tcp_packets: sat_add64(a.tcp_packets, b.tcp_packets),
        tcp_bytes: sat_add64(a.tcp_bytes, b.tcp_bytes),
        tls_packets: sat_add64(a.tls_packets, b.tls_packets),
        tls_bytes: sat_add64(a.tls_bytes, b.tls_bytes),
        http_packets: sat_add64(a.http_packets, b.http_packets),
        http_bytes: sat_add64(a.http_bytes, b.http_bytes),
    }
}

/// The saturating sum of a sequence of per-processor counter records.
pub open spec fn sum_spec(s: Seq<PacketStats>) -> PacketStats
    decreases s.len(),
{
    if s.len() == 0 {
        PacketStats::zeroed()
    } else {
        combine(sum_spec(s.drop_last()), s.last())
    }
}

/// Sums the per-processor counter slots read out of the classifier's shared
/// map into one consistent record, as the extraction bridge hands it to the
/// aggregator.
pub fn sum_per_cpu(slots: &Vec<PacketStats>) -> (r: PacketStats)
    ensures
        r == sum_spec(slots@),
{
    let mut acc = PacketStats::new();
    let mut i: usize = 0;
    while i < slots.len()
        invariant
            i <= slots.len(),
            acc == sum_spec(slots@.subrange(0, i as int)),
        decreases slots.len() - i,
    {
        let s = slots[i];
        acc = PacketStats {
            total_packets: acc.total_packets.saturating_add(s.total_packets),
            total_bytes: acc.total_bytes.saturating_add(s.total_bytes),
            tcp_packets: acc.tcp_packets.saturating_add(s.tcp_packets),
            tcp_bytes: acc.tcp_bytes.saturating_add(s.tcp_bytes),
            tls_packets: acc.tls_packets.saturating_add(s.tls_packets),
            tls_bytes: acc.tls_bytes.saturating_add(s.tls_bytes),
            http_packets: acc.http_packets.saturating_add(s.http_packets),
            http_bytes: acc.http_bytes.saturating_add(s.http_bytes),
        };
        proof {
            assert(slots@.subrange(0, i + 1 as int).drop_last() =~= slots@.subrange(
                0,
                i as int,
            ));
            assert(slots@.subrange(0, i + 1 as int).last() == slots@[i as int]);
        }
        i = i + 1;
    }
    proof {
        assert(slots@.subrange(0, slots@.len() as int) =~= slots@);
    }
    acc
}

/// Summing preserves the containment invariant of each slot.
pub proof fn lemma_combine_preserves_wf(a: PacketStats, b: PacketStats)
    requires
        a.wf(),
        b.wf(),
    ensures
        combine(a, b).wf(),
{
    lemma_sat_add64_mono(a.tcp_packets, a.total_packets, b.tcp_packets, b.total_packets);
    lemma_sat_add64_mono(a.tcp_bytes, a.total_bytes, b.tcp_bytes, b.total_bytes);
    lemma_sat_add64_mono(a.tls_packets, a.tcp_packets, b.tls_packets, b.tcp_packets);
    lemma_sat_add64_mono(a.tls_bytes, a.tcp_bytes, b.tls_bytes, b.tcp_bytes);
    lemma_sat_add64_mono(a.http_packets, a.tcp_packets, b.http_packets, b.tcp_packets);
    lemma_sat_add64_mono(a.http_bytes, a.tcp_bytes, b.http_bytes, b.tcp_bytes);
}

/// The sum of well-formed per-processor slots is well-formed.
pub proof fn lemma_sum_preserves_wf(s: Seq<PacketStats>)
    requires
        forall|i: int| 0 <= i < s.len() ==> s[i].wf(),
    ensures
        sum_spec(s).wf(),
    decreases s.len(),
{
    if s.len() == 0 {
    } else {
        lemma_sum_preserves_wf(s.drop_last());
        lemma_combine_preserves_wf(sum_spec(s.drop_last()), s.last());
    }
}

} // verus!

//! The per-frame packet classifier.
//!
//! Runs once per received frame: parses the Ethernet, IPv4 and TCP headers
//! with an explicit bounds check before every access, and increments the
//! counter record for total, TCP, and well-known-port (80/443) traffic.
//! A header access that would read past the frame boundary aborts
//! classification for that frame only, without touching the counters.

use vstd::prelude::*;
use crate::arith::sat_add64;
use crate::arith::lemma_sat_add64_mono;
use crate::counters::PacketStats;

verus! {

pub const ETH_P_IP: u16 = 0x0800;

pub const IPPROTO_TCP: u8 = 6;

pub const HTTP_PORT: u16 = 80;

pub const HTTPS_PORT: u16 = 443;

pub const ETH_HDR_LEN: usize = 14;

pub const IP_HDR_LEN: usize = 20;

pub const TCP_HDR_LEN: usize = 20;

/// Disposition handed back to the kernel hook for a frame.
#[derive(Clone, Copy, Debug, PartialEq, Eq, Structural)]
pub enum XdpAction {
    /// Forward the frame normally.
    Pass,
    /// Malformed or unparseable frame: abort classification for this frame.
    Aborted,
}

/// The numeric disposition code of the kernel hook interface:
/// 2 for pass, 0 for abort.
pub open spec fn action_code(a: XdpAction) -> u32 {
    match a {
        XdpAction::Pass => 2,
        XdpAction::Aborted => 0,
    }
}

/// Big-endian 16-bit value at byte offset `i`.
pub open spec fn be16_at(f: Seq<u8>, i: int) -> u16
    recommends
        0 <= i,
        i + 2 <= f.len(),
{
    (f[i] * 256 + f[i + 1]) as u16
}

/// A bounds-checked single-byte read.
pub open spec fn read_u8_spec(f: Seq<u8>, i: int) -> Option<u8> {
    if 0 <= i && i < f.len() {
        Some(f[i])
    } else {
        None
    }
}

/// A bounds-checked big-endian 16-bit read.
pub open spec fn read_u16_be_spec(f: Seq<u8>, i: int) -> Option<u16> {
    if 0 <= i && i + 2 <= f.len() {
        Some(be16_at(f, i))
    } else {
        None
    }
}

/// Reads one byte, returning `None` instead of reading past the frame.
pub fn checked_read_u8(frame: &Vec<u8>, offset: usize) -> (r: Option<u8>)
    ensures
        r == read_u8_spec(frame@, offset as int),
{
    if offset < frame.len() {
        Some(frame[offset])
    } else {
        None
    }
}

/// Reads a big-endian 16-bit value, returning `None` instead of reading past
/// the frame.
pub fn checked_read_u16_be(frame: &Vec<u8>, offset: usize) -> (r: Option<u16>)
    ensures
        r == read_u16_be_spec(frame@, offset as int),
{
    if offset < frame.len() && offset + 1 < frame.len() {
        Some((frame[offset] as u16) * 256 + (frame[offset + 1] as u16))
    } else {
        None
    }
}

/// The whole Ethernet header lies inside the frame.
pub open spec fn eth_readable(f: Seq<u8>) -> bool {
    f.len() >= ETH_HDR_LEN
}

/// The Ethernet type field (bytes 12..14, big-endian).
pub open spec fn ether_type_of(f: Seq<u8>) -> u16
    recommends
        eth_readable(f),
{
    be16_at(f, 12)
}

/// The frame carries an IPv4 packet.
pub open spec fn is_ipv4(f: Seq<u8>) -> bool {
    eth_readable(f) && ether_type_of(f) == ETH_P_IP
}

/// The whole fixed IPv4 header lies inside the frame.
pub open spec fn ip_readable(f: Seq<u8>) -> bool {
    f.len() >= ETH_HDR_LEN + IP_HDR_LEN
}

/// The IPv4 total-length field (big-endian), the byte count a counted frame
/// contributes.
pub open spec fn ip_total_len(f: Seq<u8>) -> u16
    recommends
        ip_readable(f),
{
    be16_at(f, 16)
}

/// The IPv4 protocol number.
pub open spec fn ip_protocol(f: Seq<u8>) -> u8
    recommends
        ip_readable(f),
{
    f[23]
}

/// IPv4 header length: the low nibble of its header-length field times four.
pub open spec fn ip_header_len(f: Seq<u8>) -> int
    recommends
        ip_readable(f),
{
    (f[ETH_HDR_LEN as int] & 0x0f) * 4
}

/// Byte offset of the TCP header within the frame.
pub open spec fn tcp_offset(f: Seq<u8>) -> int
    recommends
        ip_readable(f),
{
    ETH_HDR_LEN + ip_header_len(f)
}

/// The whole fixed TCP header lies inside the frame.
pub open spec fn tcp_readable(f: Seq<u8>) -> bool
    recommends
        ip_readable(f),
{
    tcp_offset(f) + TCP_HDR_LEN <= f.len()
}

/// TCP source port (big-endian).
pub open spec fn tcp_src_port(f: Seq<u8>) -> u16
    recommends
        ip_readable(f),
        tcp_readable(f),
{
    be16_at(f, tcp_offset(f))
}

/// TCP destination port (big-endian).
pub open spec fn tcp_dst_port(f: Seq<u8>) -> u16
    recommends
        ip_readable(f),
        tcp_readable(f),
{
    be16_at(f, tcp_offset(f) + 2)
}

/// Either port is 443: counted as TLS traffic.
pub open spec fn is_tls(f: Seq<u8>) -> bool {
    tcp_dst_port(f) == HTTPS_PORT || tcp_src_port(f) == HTTPS_PORT
}

/// Either port is 80 and the frame is not TLS: counted as HTTP traffic.
pub open spec fn is_http(f: Seq<u8>) -> bool {
    !is_tls(f) && (tcp_dst_port(f) == HTTP_PORT || tcp_src_port(f) == HTTP_PORT)
}

/// Disposition of a frame: non-IPv4 frames pass untouched; a header that
/// would have to be read past the frame boundary aborts.
pub open spec fn classify_action(f: Seq<u8>) -> XdpAction {
    if !eth_readable(f) {
        XdpAction::Aborted
    } else if ether_type_of(f) != ETH_P_IP {
        XdpAction::Pass
    } else if !ip_readable(f) {
        XdpAction::Aborted
    } else if ip_protocol(f) == IPPROTO_TCP && !tcp_readable(f) {
        XdpAction::Aborted
    } else {
        XdpAction::Pass
    }
}

/// A frame updates the counters exactly when it is IPv4 and every header it
/// requires lies inside the frame.
pub open spec fn counts_frame(f: Seq<u8>) -> bool {
    &&& is_ipv4(f)
    &&& ip_readable(f)
    &&& (ip_protocol(f) != IPPROTO_TCP || tcp_readable(f))
}

/// The counter record after one frame: totals always grow for a counted
/// frame, TCP counters grow for TCP frames, and port-443 / port-80 counters
/// for frames matching those ports.
pub open spec fn apply_frame(s: PacketStats, f: Seq<u8>) -> PacketStats {
    if !counts_frame(f) {
        s
    } else {
        let len = ip_total_len(f) as u64;
        let tcp = ip_protocol(f) == IPPROTO_TCP;
        PacketStats {
            total_packets: sat_add64(s.total_packets, 1),
            total_bytes: sat_add64(s.total_bytes, len),
            tcp_packets: if tcp {
                sat_add64(s.tcp_packets, 1)
            } else {
                s.tcp_packets
            },
            tcp_bytes: if tcp {
                sat_add64(s.tcp_bytes, len)
            } else {
                s.tcp_bytes
            },
            tls_packets: if tcp && is_tls(f) {
                sat_add64(s.tls_packets, 1)
            } else {
                s.tls_packets
            },
            tls_bytes: if tcp && is_tls(f) {
                sat_add64(s.tls_bytes, len)
            } else {
                s.tls_bytes
            },
            http_packets: if tcp && is_http(f) {
                sat_add64(s.http_packets, 1)
            } else {
                s.http_packets
            },
            http_bytes: if tcp && is_http(f) {
                sat_add64(s.http_bytes, len)
            } else {
                s.http_bytes
            },
        }
    }
}

/// Classifies one frame and updates the counter record accordingly.
///
/// Every header access is preceded by an explicit length check against the
/// frame; a frame that fails one is aborted with the counters untouched.
pub fn classify(frame: &Vec<u8>, stats: &mut PacketStats) -> (action: XdpAction)
    ensures
        action == classify_action(frame@),
        *final(stats) == apply_frame(*old(stats), frame@),
{
    if frame.len() < ETH_HDR_LEN {
        return XdpAction::Aborted;
    }
    let ether_type = match checked_read_u16_be(frame, 12) {
        Some(v) => v,
        None => {
            return XdpAction::Aborted;
        },
    };
    if ether_type != ETH_P_IP {
        return XdpAction::Pass;
    }
    if frame.len() < ETH_HDR_LEN + IP_HDR_LEN {
        return XdpAction::Aborted;
    }
    let ihl = match checked_read_u8(frame, ETH_HDR_LEN) {
        Some(v) => v,
        None => {
            return XdpAction::Aborted;
        },
    };
    let total_len = match checked_read_u16_be(frame, 16) {
        Some(v) => v,
        None => {
            return XdpAction::Aborted;
        },
    };
    let protocol = match checked_read_u8(frame, 23) {
        Some(v) => v,
        None => {
            return XdpAction::Aborted;
        },
    };
    let frame_bytes: u64 = total_len as u64;
    if protocol == IPPROTO_TCP {
        let ip_hdr_len: usize = ((ihl & 0x0f) as usize) * 4;
        let tcp_off: usize = ETH_HDR_LEN + ip_hdr_len;
        if tcp_off + TCP_HDR_LEN > frame.len() {
            return XdpAction::Aborted;
        }
        let src_port = match checked_read_u16_be(frame, tcp_off) {
            Some(v) => v,
            None => {
                return XdpAction::Aborted;
            },
        };
        let dst_port = match checked_read_u16_be(frame, tcp_off + 2) {
            Some(v) => v,
            None => {
                return XdpAction::Aborted;
            },
        };
        stats.total_packets = stats.total_packets.saturating_add(1);
        stats.total_bytes = stats.total_bytes.saturating_add(frame_bytes);
        stats.tcp_packets = stats.tcp_packets.saturating_add(1);
        stats.tcp_bytes = stats.tcp_bytes.saturating_add(frame_bytes);
        if dst_port == HTTPS_PORT || src_port == HTTPS_PORT {
            stats.tls_packets = stats.tls_packets.saturating_add(1);
            stats.tls_bytes = stats.tls_bytes.saturating_add(frame_bytes);
        } else if dst_port == HTTP_PORT || src_port == HTTP_PORT {
            stats.http_packets = stats.http_packets.saturating_add(1);
            stats.http_bytes = stats.http_bytes.saturating_add(frame_bytes);
        }
        XdpAction::Pass
    } else {
        stats.total_packets = stats.total_packets.saturating_add(1);
        stats.total_bytes = stats.total_bytes.saturating_add(frame_bytes);
        XdpAction::Pass
    }
}

/// Per-frame entry point: classify, then hand the kernel hook its numeric
/// disposition code.
pub fn server(frame: &Vec<u8>, stats: &mut PacketStats) -> (code: u32)
    ensures
        code == action_code(classify_action(frame@)),
        *final(stats) == apply_frame(*old(stats), frame@),
{
    let action = classify(frame, stats);
    match action {
        XdpAction::Pass => 2,
        XdpAction::Aborted => 0,
    }
}

/// A frame whose Ethernet type is not IPv4 passes through with zero counter
/// change.
pub proof fn lemma_non_ipv4_unchanged(s: PacketStats, f: Seq<u8>)
    requires
        eth_readable(f),
        ether_type_of(f) != ETH_P_IP,
    ensures
        classify_action(f) == XdpAction::Pass,
        apply_frame(s, f) == s,
{
}

/// An aborted frame never touches the counters.
pub proof fn lemma_aborted_unchanged(s: PacketStats, f: Seq<u8>)
    requires
        classify_action(f) == XdpAction::Aborted,
    ensures
        apply_frame(s, f) == s,
{
}

/// Classification preserves the counter containment invariant.
pub proof fn lemma_classify_preserves_wf(s: PacketStats, f: Seq<u8>)
    requires
        s.wf(),
    ensures
        apply_frame(s, f).wf(),
{
    if counts_frame(f) {
        let len = ip_total_len(f) as u64;
        lemma_sat_add64_mono(s.tcp_packets, s.total_packets, 1, 1);
        lemma_sat_add64_mono(s.tcp_bytes, s.total_bytes, len, len);
        lemma_sat_add64_mono(s.tls_packets, s.tcp_packets, 1, 1);
        lemma_sat_add64_mono(s.tls_bytes, s.tcp_bytes, len, len);
        lemma_sat_add64_mono(s.http_packets, s.tcp_packets, 1, 1);
        lemma_sat_add64_mono(s.http_bytes, s.tcp_bytes, len, len);
    }
}

} // verus!

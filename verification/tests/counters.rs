use sampler::counters::{sum_per_cpu, PacketStats};

fn slot(total_packets: u64, total_bytes: u64, tcp_bytes: u64) -> PacketStats {
    PacketStats {
        total_packets,
        total_bytes,
        tcp_packets: 0,
        tcp_bytes,
        tls_packets: 0,
        tls_bytes: 0,
        http_packets: 0,
        http_bytes: 0,
    }
}

#[test]
fn empty_slot_list_sums_to_zero() {
    let slots: Vec<PacketStats> = Vec::new();
    let total = sum_per_cpu(&slots);
    assert_eq!(total, PacketStats::new());
}

#[test]
fn per_cpu_slots_sum_fieldwise() {
    let slots = vec![slot(1, 100, 40), slot(2, 250, 10), slot(0, 0, 0), slot(5, 650, 0)];
    let total = sum_per_cpu(&slots);
    assert_eq!(total.total_packets, 8);
    assert_eq!(total.total_bytes, 1000);
    assert_eq!(total.tcp_bytes, 50);
    assert_eq!(total.tls_bytes, 0);
}

#[test]
fn summation_saturates_instead_of_overflowing() {
    let slots = vec![slot(u64::MAX, u64::MAX - 5, 0), slot(3, 10, 0)];
    let total = sum_per_cpu(&slots);
    assert_eq!(total.total_packets, u64::MAX);
    assert_eq!(total.total_bytes, u64::MAX);
}

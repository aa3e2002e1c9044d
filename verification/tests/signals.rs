use ebpf_congestion_signals::aggregate::{AggregationState, CongestionSignals};
use ebpf_congestion_signals::producers::{
    drop_event, socket_state_event, socket_field_offsets, tcp_send_event, udp_send_event,
    SampleState, SoftirqTimers,
};
use ebpf_congestion_signals::wire::{CongestionEvent, EventData, QdiscData, EVENT_QDISC_DROP};

/// The consumer-facing average as the external harness derives it: raw
/// per-mille sum over sample count, scaled down to a fraction.
fn avg_wmem_pressure(sig: &CongestionSignals) -> f64 {
    if sig.wmem_sample_count > 0 {
        (sig.wmem_pressure_sum as f64) / (sig.wmem_sample_count as f64) / 1000.0
    } else {
        0.0
    }
}

#[test]
fn sampling_retains_one_in_hundred() {
    let mut sample = SampleState::new();
    let mut agg = AggregationState::new();
    let mut fired_at: Vec<u64> = Vec::new();
    for call in 0..250u64 {
        if let Some(e) = udp_send_event(&mut sample, call, 0, 1, 10) {
            fired_at.push(call);
            agg.process_event(&e);
        }
    }
    assert_eq!(fired_at, vec![0, 100, 200]);
    let sig = agg.read_and_reset();
    assert_eq!(sig.send_bytes, 30);
    assert_eq!(sig.event_count, 3);
}

#[test]
fn tcp_and_udp_sends_share_send_bytes() {
    let mut sample = SampleState::new();
    let mut agg = AggregationState::new();
    let udp = udp_send_event(&mut sample, 1, 0, 1, 100).expect("counter 0 is sampled");
    let mut sample2 = SampleState::new();
    let tcp = tcp_send_event(&mut sample2, 2, 0, 2, 23).expect("counter 0 is sampled");
    agg.process_event(&udp);
    agg.process_event(&tcp);
    let sig = agg.read_and_reset();
    assert_eq!(sig.send_bytes, 123);
    assert_eq!(sig.event_count, 2);
}

#[test]
fn drops_are_counted_exactly() {
    let mut agg = AggregationState::new();
    for i in 0..17u64 {
        let e = drop_event(i, 0);
        agg.process_event(&e);
    }
    let sig = agg.read_and_reset();
    assert_eq!(sig.drops, 17);
    assert_eq!(sig.event_count, 17);
    assert_eq!(sig.send_bytes, 0);
}

#[test]
fn pressure_is_averaged_across_samples() {
    let mut agg = AggregationState::new();
    let mut sample = SampleState::new();
    let first = socket_state_event(&mut sample, 1, 0, 5, 50, 100).expect("counter 0 is sampled");
    agg.process_event(&first);
    let mut sample2 = SampleState::new();
    let second = socket_state_event(&mut sample2, 2, 0, 5, 25, 100).expect("counter 0 is sampled");
    agg.process_event(&second);
    let sig = agg.read_and_reset();
    assert_eq!(sig.wmem_pressure_sum, 750);
    assert_eq!(sig.wmem_sample_count, 2);
    assert_eq!(sig.avg_wmem_pressure_permille(), 375);
    assert_eq!(avg_wmem_pressure(&sig), 0.375);
}

#[test]
fn zero_buffer_limit_adds_no_pressure_sample() {
    let mut agg = AggregationState::new();
    let mut sample = SampleState::new();
    let e = socket_state_event(&mut sample, 1, 0, 5, 50, 0).expect("counter 0 is sampled");
    agg.process_event(&e);
    let sig = agg.read_and_reset();
    assert_eq!(sig.wmem_pressure_sum, 0);
    assert_eq!(sig.wmem_sample_count, 0);
    assert_eq!(sig.event_count, 1);
    assert_eq!(avg_wmem_pressure(&sig), 0.0);
}

#[test]
fn second_snapshot_is_all_zero() {
    let mut agg = AggregationState::new();
    let mut sample = SampleState::new();
    let e = socket_state_event(&mut sample, 1, 0, 5, 50, 100).expect("counter 0 is sampled");
    agg.process_event(&e);
    agg.process_event(&drop_event(2, 0));
    let _ = agg.read_and_reset();
    let second = agg.read_and_reset();
    assert_eq!(second.send_bytes, 0);
    assert_eq!(second.drops, 0);
    assert_eq!(second.wmem_pressure_sum, 0);
    assert_eq!(second.wmem_sample_count, 0);
    assert_eq!(second.softirq_ns, 0);
    assert_eq!(second.event_count, 0);
    assert_eq!(second.avg_wmem_pressure_permille(), 0);
    assert_eq!(avg_wmem_pressure(&second), 0.0);
}

#[test]
fn interleaved_drop_producers_sum_exactly() {
    // Three producers, four drops each, dispatched round-robin: the
    // counters must see exactly twelve drops whatever the order.
    let m = 3u64;
    let k = 4u64;
    let mut agg = AggregationState::new();
    for round in 0..k {
        for producer in 0..m {
            let e = drop_event(round * 10 + producer, producer as u32);
            agg.process_event(&e);
        }
    }
    let sig = agg.read_and_reset();
    assert_eq!(sig.drops, m * k);
    assert_eq!(sig.event_count, m * k);
}

#[test]
fn interrupt_duration_is_exit_minus_entry() {
    let mut timers = SoftirqTimers::new();
    let mut agg = AggregationState::new();
    timers.record_entry(2, 1_000);
    let e = timers.exit_event(2, 0, 2_500).expect("start was recorded");
    agg.process_event(&e);
    let sig = agg.read_and_reset();
    assert_eq!(sig.softirq_ns, 1_500);
    assert_eq!(sig.event_count, 1);
}

#[test]
fn exit_without_entry_changes_nothing() {
    let timers = SoftirqTimers::new();
    assert!(timers.exit_event(2, 0, 500).is_none());
    assert!(timers.exit_event(3, 0, 500).is_none());
}

#[test]
fn unmonitored_vector_is_ignored() {
    let mut timers = SoftirqTimers::new();
    timers.record_entry(1, 100);
    assert!(timers.exit_event(1, 0, 200).is_none());
    timers.record_entry(7, 100);
    assert!(timers.exit_event(7, 0, 200).is_none());
}

#[test]
fn next_entry_overwrites_pending_start() {
    let mut timers = SoftirqTimers::new();
    timers.record_entry(3, 100);
    timers.record_entry(3, 400);
    let e = timers.exit_event(3, 1, 1_000).expect("start was recorded");
    match e.data {
        EventData::Softirq(d) => assert_eq!(d.duration_ns, 600),
        other => panic!("unexpected payload {:?}", other),
    }
}

#[test]
fn process_record_decodes_and_dispatches() {
    let mut agg = AggregationState::new();
    let e = drop_event(9, 1);
    let bytes = e.encode();
    agg.process_record(bytes.as_slice()).expect("whole record decodes");
    assert_eq!(agg.drops, 1);
    assert_eq!(agg.event_count, 1);
}

#[test]
fn full_pipeline_from_producer_to_snapshot() {
    // Producer logic, wire encoding, decoding and aggregation chained as
    // the running system chains them across the kernel boundary.
    let mut timers = SoftirqTimers::new();
    let mut agg = AggregationState::new();
    timers.record_entry(3, 10);
    let e = timers.exit_event(3, 2, 75).expect("start was recorded");
    let bytes = e.encode();
    agg.process_record(bytes.as_slice()).expect("whole record decodes");
    let sig = agg.read_and_reset();
    assert_eq!(sig.softirq_ns, 65);
    assert_eq!(sig.event_count, 1);
}

#[test]
fn process_record_skips_truncated_buffer() {
    let mut agg = AggregationState::new();
    let short = [0u8; 10];
    assert!(agg.process_record(&short).is_err());
    let sig = agg.read_and_reset();
    assert_eq!(sig.event_count, 0);
}

#[test]
fn unrecognized_event_counts_only_the_event() {
    let mut agg = AggregationState::new();
    let e = CongestionEvent {
        timestamp_ns: 1,
        event_type: 42,
        cpu_id: 0,
        data: EventData::Unknown,
    };
    agg.process_event(&e);
    let sig = agg.read_and_reset();
    assert_eq!(sig.event_count, 1);
    assert_eq!(sig.send_bytes, 0);
    assert_eq!(sig.drops, 0);
    assert_eq!(sig.softirq_ns, 0);
}

#[test]
fn drop_record_fields_match_wire_contract() {
    let e = drop_event(11, 2);
    assert_eq!(e.event_type, EVENT_QDISC_DROP);
    assert_eq!(
        e.data,
        EventData::Qdisc(QdiscData { dropped: 1, backlog_bytes: 0, backlog_packets: 0 })
    );
}

#[test]
fn socket_offsets_come_from_one_table() {
    let offsets = socket_field_offsets();
    assert_eq!(offsets.wmem_queued, 0x88);
    assert_eq!(offsets.sndbuf, 0x8C);
}

#[test]
fn sampling_counter_wraps_at_max() {
    let mut sample = SampleState { counter: u64::MAX };
    // u64::MAX is not a multiple of 100, so this call must not fire, and
    // the counter must wrap to zero so the next call fires.
    assert!(udp_send_event(&mut sample, 1, 0, 1, 10).is_none());
    assert!(udp_send_event(&mut sample, 2, 0, 1, 10).is_some());
}

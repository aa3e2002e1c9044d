//! Decision logic of the six kernel-resident instrumentation producers.
//!
//! The producers run inline with instrumented kernel operations under
//! strict constraints (bounded time, no allocation, no locks), so their
//! logic is expressed here as statically bounded computations from plain
//! values to at most one wire record per invocation. The surrounding
//! plumbing — reading probe arguments, kernel memory and the clock, and
//! pushing the record onto the current CPU's channel lane — is the
//! execution environment's side and stays outside this crate.

use vstd::prelude::*;
use crate::wire::{
    CongestionEvent, EventData, QdiscData, SendMsgData, SocketData, SoftirqData, EVENT_QDISC_DROP,
    EVENT_SOCKET_STATE, EVENT_SOFTIRQ_EXIT, EVENT_TCP_SEND, EVENT_UDP_SEND,
};

verus! {

/// Per-CPU sampling state for the hot send/transmit paths: one hidden
/// counter per CPU.
pub struct SampleState {
    pub counter: u64,
}

impl SampleState {
    /// A fresh counter, as the per-CPU scratch table is zero-initialized.
    pub fn new() -> (s: Self)
        ensures
            s.counter == 0,
    {
        SampleState { counter: 0 }
    }

    /// The sampling policy: fire only when the counter is a multiple of
    /// 100, and advance the counter (wrapping) on every call. This caps
    /// steady-state overhead on hot paths to roughly 1% of call volume.
    pub fn should_sample_send(&mut self) -> (r: bool)
        ensures
            r == (old(self).counter % 100 == 0),
            final(self).counter == old(self).counter.wrapping_add(1),
    {
        let fired: bool = self.counter % 100 == 0;
        self.counter = self.counter.wrapping_add(1);
        fired
    }
}

/// The record a sampled send-path call emits: transfer length, protocol
/// flag and socket identifier under the matching discriminator.
pub open spec fn spec_send_record(
    timestamp_ns: u64,
    cpu_id: u32,
    socket_id: u64,
    len: u64,
    tcp: bool,
) -> CongestionEvent {
    CongestionEvent {
        timestamp_ns,
        event_type: if tcp {
            EVENT_TCP_SEND
        } else {
            EVENT_UDP_SEND
        },
        cpu_id,
        data: EventData::Sendmsg(SendMsgData {
            bytes: len,
            is_tcp: if tcp {
                1
            } else {
                0
            },
            socket_id,
        }),
    }
}

/// UDP send-path producer: on a sampled call, emit a send record with the
/// transfer length and the UDP protocol flag; otherwise emit nothing. The
/// sampling counter advances on every call either way.
pub fn udp_send_event(
    sample: &mut SampleState,
    timestamp_ns: u64,
    cpu_id: u32,
    socket_id: u64,
    len: u64,
) -> (r: Option<CongestionEvent>)
    ensures
        final(sample).counter == old(sample).counter.wrapping_add(1),
        r == (if old(sample).counter % 100 == 0 {
            Some(spec_send_record(timestamp_ns, cpu_id, socket_id, len, false))
        } else {
            None::<CongestionEvent>
        }),
{
    if !sample.should_sample_send() {
        return None;
    }
    Some(CongestionEvent {
        timestamp_ns,
        event_type: EVENT_UDP_SEND,
        cpu_id,
        data: EventData::Sendmsg(SendMsgData { bytes: len, is_tcp: 0, socket_id }),
    })
}

/// TCP send-path producer: as the UDP producer, under the TCP
/// discriminator and protocol flag.
pub fn tcp_send_event(
    sample: &mut SampleState,
    timestamp_ns: u64,
    cpu_id: u32,
    socket_id: u64,
    len: u64,
) -> (r: Option<CongestionEvent>)
    ensures
        final(sample).counter == old(sample).counter.wrapping_add(1),
        r == (if old(sample).counter % 100 == 0 {
            Some(spec_send_record(timestamp_ns, cpu_id, socket_id, len, true))
        } else {
            None::<CongestionEvent>
        }),
{
    if !sample.should_sample_send() {
        return None;
    }
    Some(CongestionEvent {
        timestamp_ns,
        event_type: EVENT_TCP_SEND,
        cpu_id,
        data: EventData::Sendmsg(SendMsgData { bytes: len, is_tcp: 1, socket_id }),
    })
}

/// The record the packet-free tracepoint emits: one drop per record, with
/// the backlog fields unused (zero).
pub open spec fn spec_drop_record(timestamp_ns: u64, cpu_id: u32) -> CongestionEvent {
    CongestionEvent {
        timestamp_ns,
        event_type: EVENT_QDISC_DROP,
        cpu_id,
        data: EventData::Qdisc(QdiscData { dropped: 1, backlog_bytes: 0, backlog_packets: 0 }),
    }
}

/// Packet-free producer: every invocation emits a drop record,
/// unconditionally — drop accounting is never sampled, so no precision is
/// lost.
pub fn drop_event(timestamp_ns: u64, cpu_id: u32) -> (r: CongestionEvent)
    ensures
        r == spec_drop_record(timestamp_ns, cpu_id),
{
    CongestionEvent {
        timestamp_ns,
        event_type: EVENT_QDISC_DROP,
        cpu_id,
        data: EventData::Qdisc(QdiscData { dropped: 1, backlog_bytes: 0, backlog_packets: 0 }),
    }
}

/// The record the transmit-path probe emits: queued write memory, the
/// configured buffer limit and the socket identifier.
pub open spec fn spec_socket_state_record(
    timestamp_ns: u64,
    cpu_id: u32,
    socket_id: u64,
    wmem_queued: u32,
    sndbuf: u32,
) -> CongestionEvent {
    CongestionEvent {
        timestamp_ns,
        event_type: EVENT_SOCKET_STATE,
        cpu_id,
        data: EventData::Socket(SocketData { wmem_queued, sndbuf, socket_id }),
    }
}

/// Transmit-path producer: applies the same sampling policy as the send
/// producers; on a sampled call, emits a socket-state record from the two
/// fields read out of the kernel socket structure.
pub fn socket_state_event(
    sample: &mut SampleState,
    timestamp_ns: u64,
    cpu_id: u32,
    socket_id: u64,
    wmem_queued: u32,
    sndbuf: u32,
) -> (r: Option<CongestionEvent>)
    ensures
        final(sample).counter == old(sample).counter.wrapping_add(1),
        r == (if old(sample).counter % 100 == 0 {
            Some(spec_socket_state_record(timestamp_ns, cpu_id, socket_id, wmem_queued, sndbuf))
        } else {
            None::<CongestionEvent>
        }),
{
    if !sample.should_sample_send() {
        return None;
    }
    Some(CongestionEvent {
        timestamp_ns,
        event_type: EVENT_SOCKET_STATE,
        cpu_id,
        data: EventData::Socket(SocketData { wmem_queued, sndbuf, socket_id }),
    })
}

/// Byte offsets of the two fields the transmit-path probe reads out of
/// the opaque kernel socket structure.
pub struct SocketFieldOffsets {
    pub wmem_queued: usize,
    pub sndbuf: usize,
}

/// The offsets are kernel-version dependent, so they live in this one
/// accessor rather than as scattered literals: kernel skew is confined
/// here, and a new kernel layout means a new entry in this table. This is
/// the single layout the producers currently support.
pub fn socket_field_offsets() -> (r: SocketFieldOffsets)
    ensures
        r.wmem_queued == 0x88,
        r.sndbuf == 0x8c,
{
    SocketFieldOffsets { wmem_queued: 0x88, sndbuf: 0x8c }
}

/// Number of slots in the per-CPU interrupt-timer scratch table, indexed
/// by software-interrupt vector number.
pub const SOFTIRQ_SLOTS: usize = 10;

/// Whether an interrupt vector is one of the two monitored network
/// vectors: transmit (2) and receive (3). All others are ignored.
pub open spec fn monitored_vector(vec_nr: u32) -> bool {
    vec_nr == 2 || vec_nr == 3
}

/// Per-CPU two-state timer (idle / started) for each monitored interrupt
/// vector: slot value 0 is the idle sentinel, any other value is the
/// start timestamp of the pending entry. A new entry overwrites a pending
/// one — nested interrupts on the same vector are not separately tracked;
/// this is an accepted approximation.
pub struct SoftirqTimers {
    pub starts: Vec<u64>,
}

/// The timer table an entry leaves behind: the monitored vector's slot
/// holds the entry timestamp; any other vector leaves the table as it
/// was.
pub open spec fn spec_entry_starts(starts: Seq<u64>, vec_nr: u32, timestamp_ns: u64) -> Seq<u64> {
    if monitored_vector(vec_nr) {
        starts.update(vec_nr as int, timestamp_ns)
    } else {
        starts
    }
}

/// The record an interrupt exit emits: the elapsed time since the stored
/// start of the same vector on the same CPU, under the exit timestamp.
pub open spec fn spec_softirq_record(
    timestamp_ns: u64,
    cpu_id: u32,
    vec_nr: u32,
    duration_ns: u64,
) -> CongestionEvent {
    CongestionEvent {
        timestamp_ns,
        event_type: EVENT_SOFTIRQ_EXIT,
        cpu_id,
        data: EventData::Softirq(SoftirqData { vec_nr, duration_ns }),
    }
}

/// What an exit yields from a given timer table: nothing for an
/// unmonitored vector or an idle slot (no start recorded), else a
/// duration record measured from the stored start.
pub open spec fn spec_exit_record(
    starts: Seq<u64>,
    vec_nr: u32,
    cpu_id: u32,
    exit_time: u64,
) -> Option<CongestionEvent>
    recommends
        starts.len() == SOFTIRQ_SLOTS,
{
    if !monitored_vector(vec_nr) {
        None
    } else if starts[vec_nr as int] == 0 {
        None
    } else {
        Some(
            spec_softirq_record(
                exit_time,
                cpu_id,
                vec_nr,
                exit_time.wrapping_sub(starts[vec_nr as int]),
            ),
        )
    }
}

impl SoftirqTimers {
    /// The table is valid when it has one slot per vector number in
    /// range.
    pub open spec fn wf(self) -> bool {
        self.starts@.len() == SOFTIRQ_SLOTS
    }

    /// A fresh table, all slots idle.
    pub fn new() -> (t: Self)
        ensures
            t.wf(),
            forall|i: int| 0 <= i < SOFTIRQ_SLOTS ==> t.starts@[i] == 0u64,
    {
        let mut starts: Vec<u64> = Vec::new();
        let mut i: usize = 0;
        while i < SOFTIRQ_SLOTS
            invariant
                i <= SOFTIRQ_SLOTS,
                starts@.len() == i,
                forall|k: int| 0 <= k < i ==> starts@[k] == 0u64,
            decreases SOFTIRQ_SLOTS - i,
        {
            starts.push(0u64);
            i = i + 1;
        }
        SoftirqTimers { starts }
    }

    /// Interrupt-entry producer: record the entry timestamp for a
    /// monitored vector, overwriting any pending start; ignore every
    /// other vector. Emits no record — entries are not externally
    /// observable.
    pub fn record_entry(&mut self, vec_nr: u32, timestamp_ns: u64)
        requires
            old(self).wf(),
        ensures
            final(self).wf(),
            final(self).starts@ == spec_entry_starts(old(self).starts@, vec_nr, timestamp_ns),
    {
        if vec_nr == 2 || vec_nr == 3 {
            let idx: usize = vec_nr as usize;
            self.starts[idx] = timestamp_ns;
        }
    }

    /// Interrupt-exit producer: emit a duration record for a monitored
    /// vector with a recorded start, measured to the exit time; a
    /// no-op for an unmonitored vector or an idle slot. The slot is left
    /// as it is — only the next entry overwrites it.
    pub fn exit_event(&self, vec_nr: u32, cpu_id: u32, exit_time: u64) -> (r: Option<
        CongestionEvent,
    >)
        requires
            self.wf(),
        ensures
            r == spec_exit_record(self.starts@, vec_nr, cpu_id, exit_time),
    {
        if vec_nr != 2 && vec_nr != 3 {
            return None;
        }
        let idx: usize = vec_nr as usize;
        let start: u64 = self.starts[idx];
        if start == 0 {
            return None;
        }
        Some(CongestionEvent {
            timestamp_ns: exit_time,
            event_type: EVENT_SOFTIRQ_EXIT,
            cpu_id,
            data: EventData::Softirq(SoftirqData {
                vec_nr,
                duration_ns: exit_time.wrapping_sub(start),
            }),
        })
    }
}

/// Interrupt-duration law: an entry at `t0` for a monitored vector,
/// followed by an exit at `t1 >= t0` against the table that entry left,
/// yields a duration record of exactly `t1 - t0` for that vector and
/// CPU. `t0 == 0` is excluded: it is the idle sentinel, so an entry at
/// that instant is indistinguishable from no entry and the exit is a
/// no-op.
pub proof fn lemma_interrupt_duration(
    starts: Seq<u64>,
    vec_nr: u32,
    cpu_id: u32,
    t0: u64,
    t1: u64,
)
    requires
        starts.len() == SOFTIRQ_SLOTS,
        monitored_vector(vec_nr),
        t0 != 0,
        t1 >= t0,
    ensures
        spec_exit_record(spec_entry_starts(starts, vec_nr, t0), vec_nr, cpu_id, t1)
            == Some(spec_softirq_record(t1, cpu_id, vec_nr, (t1 - t0) as u64)),
{
}

/// Interrupt-duration law, negative half: an exit against an idle slot
/// (no start recorded) or for an unmonitored vector yields no record, so
/// nothing reaches the counters.
pub proof fn lemma_exit_without_entry(starts: Seq<u64>, vec_nr: u32, cpu_id: u32, t1: u64)
    requires
        starts.len() == SOFTIRQ_SLOTS,
        monitored_vector(vec_nr) ==> starts[vec_nr as int] == 0,
    ensures
        spec_exit_record(starts, vec_nr, cpu_id, t1) is None,
{
}

} // verus!

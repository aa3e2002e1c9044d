//! The fixed binary record format exchanged between the kernel-resident
//! producers and the userspace consumption tasks.
//!
//! A record is exactly [`RECORD_BYTES`] bytes, little-endian, laid out as a
//! C-compatible struct: a 16-byte header (timestamp, discriminator, CPU)
//! followed by a 24-byte payload area holding one of four same-size
//! variants selected by the discriminator. The byte layout is a binary
//! compatibility contract: both sides must agree on every offset.

use vstd::prelude::*;
use vstd::bytes::*;

verus! {

/// Discriminator for a sampled UDP send record.
pub const EVENT_UDP_SEND: u32 = 1;

/// Discriminator for a sampled TCP send record.
pub const EVENT_TCP_SEND: u32 = 2;

/// Discriminator for a packet-drop record.
pub const EVENT_QDISC_DROP: u32 = 3;

/// Discriminator for a socket buffer-state record.
pub const EVENT_SOCKET_STATE: u32 = 4;

/// Reserved discriminator for software-interrupt entry; never placed on
/// the wire (only the exit duration is externally observable).
pub const EVENT_SOFTIRQ_ENTER: u32 = 5;

/// Discriminator for a software-interrupt duration record.
pub const EVENT_SOFTIRQ_EXIT: u32 = 6;

/// Size of one wire record: a 16-byte header and a 24-byte payload area.
pub const RECORD_BYTES: usize = 40;

/// Payload of a send-path record: transfer length, protocol flag
/// (0 = UDP, 1 = TCP) and an opaque socket identifier.
#[derive(Clone, Copy, Debug, PartialEq, Eq, Structural)]
pub struct SendMsgData {
    pub bytes: u64,
    pub is_tcp: u32,
    pub socket_id: u64,
}

/// Payload of a packet-drop record. Each record stands for one dropped
/// packet; the backlog fields are carried on the wire but unused (zero)
/// in the current producers.
#[derive(Clone, Copy, Debug, PartialEq, Eq, Structural)]
pub struct QdiscData {
    pub dropped: u32,
    pub backlog_bytes: u32,
    pub backlog_packets: u32,
}

/// Payload of a socket buffer-state record: queued write memory, the
/// configured buffer limit, and an opaque socket identifier.
#[derive(Clone, Copy, Debug, PartialEq, Eq, Structural)]
pub struct SocketData {
    pub wmem_queued: u32,
    pub sndbuf: u32,
    pub socket_id: u64,
}

/// Payload of a software-interrupt duration record: the interrupt vector
/// number and the elapsed time between entry and exit.
#[derive(Clone, Copy, Debug, PartialEq, Eq, Structural)]
pub struct SoftirqData {
    pub vec_nr: u32,
    pub duration_ns: u64,
}

/// The closed set of payload variants. On the wire the payload area is a
/// union; here the discriminator is validated before the payload is
/// interpreted, so the decoded form is a tagged variant. `Unknown` stands
/// for a record whose discriminator is none of the five known values:
/// such a record is carried through (and counted) but otherwise ignored.
#[derive(Clone, Copy, Debug, PartialEq, Eq, Structural)]
pub enum EventData {
    Sendmsg(SendMsgData),
    Qdisc(QdiscData),
    Socket(SocketData),
    Softirq(SoftirqData),
    Unknown,
}

/// One decoded wire record: timestamp, discriminator, producing CPU and
/// the payload selected by the discriminator.
#[derive(Clone, Copy, Debug, PartialEq, Eq, Structural)]
pub struct CongestionEvent {
    pub timestamp_ns: u64,
    pub event_type: u32,
    pub cpu_id: u32,
    pub data: EventData,
}

/// Whether a discriminator value selects one of the four wire payload
/// variants.
pub open spec fn known_event_type(t: u32) -> bool {
    t == EVENT_UDP_SEND || t == EVENT_TCP_SEND || t == EVENT_QDISC_DROP
        || t == EVENT_SOCKET_STATE || t == EVENT_SOFTIRQ_EXIT
}

impl CongestionEvent {
    /// Tag consistency: the discriminator selects exactly the payload
    /// variant that is present. Decoding establishes this; encoding and
    /// the round trip rely on it.
    pub open spec fn wf(self) -> bool {
        match self.data {
            EventData::Sendmsg(_) => self.event_type == EVENT_UDP_SEND
                || self.event_type == EVENT_TCP_SEND,
            EventData::Qdisc(_) => self.event_type == EVENT_QDISC_DROP,
            EventData::Socket(_) => self.event_type == EVENT_SOCKET_STATE,
            EventData::Softirq(_) => self.event_type == EVENT_SOFTIRQ_EXIT,
            EventData::Unknown => !known_event_type(self.event_type),
        }
    }
}

/// Decoding failures: a buffer shorter than one record cannot be
/// interpreted and is skipped by the consumer.
#[derive(Clone, Copy, Debug, PartialEq, Eq, Structural)]
pub enum DecodeError {
    Truncated,
}

/// A run of `n` zero bytes (struct padding and the unused tail of the
/// payload area).
pub open spec fn spec_zero_bytes(n: nat) -> Seq<u8> {
    Seq::new(n, |i: int| 0u8)
}

/// Byte image of the 24-byte payload area for each variant, mirroring the
/// C layout of the corresponding payload struct (including its padding).
pub open spec fn spec_payload_bytes(data: EventData) -> Seq<u8> {
    match data {
        EventData::Sendmsg(d) => spec_u64_to_le_bytes(d.bytes)
            + spec_u32_to_le_bytes(d.is_tcp) + spec_zero_bytes(4)
            + spec_u64_to_le_bytes(d.socket_id),
        EventData::Qdisc(d) => spec_u32_to_le_bytes(d.dropped)
            + spec_u32_to_le_bytes(d.backlog_bytes)
            + spec_u32_to_le_bytes(d.backlog_packets) + spec_zero_bytes(12),
        EventData::Socket(d) => spec_u32_to_le_bytes(d.wmem_queued)
            + spec_u32_to_le_bytes(d.sndbuf) + spec_u64_to_le_bytes(d.socket_id)
            + spec_zero_bytes(8),
        EventData::Softirq(d) => spec_u32_to_le_bytes(d.vec_nr)
            + spec_zero_bytes(4) + spec_u64_to_le_bytes(d.duration_ns)
            + spec_zero_bytes(8),
        EventData::Unknown => spec_zero_bytes(24),
    }
}

/// Byte image of a whole record: header fields at offsets 0, 8 and 12,
/// payload area at offset 16.
pub open spec fn spec_encode(e: CongestionEvent) -> Seq<u8> {
    spec_u64_to_le_bytes(e.timestamp_ns) + spec_u32_to_le_bytes(e.event_type)
        + spec_u32_to_le_bytes(e.cpu_id) + spec_payload_bytes(e.data)
}

/// Payload variant read back from the payload area, selected by the
/// discriminator.
pub open spec fn spec_decode_payload(t: u32, p: Seq<u8>) -> EventData
    recommends
        p.len() == 24,
{
    if t == EVENT_UDP_SEND || t == EVENT_TCP_SEND {
        EventData::Sendmsg(SendMsgData {
            bytes: spec_u64_from_le_bytes(p.subrange(0, 8)),
            is_tcp: spec_u32_from_le_bytes(p.subrange(8, 12)),
            socket_id: spec_u64_from_le_bytes(p.subrange(16, 24)),
        })
    } else if t == EVENT_QDISC_DROP {
        EventData::Qdisc(QdiscData {
            dropped: spec_u32_from_le_bytes(p.subrange(0, 4)),
            backlog_bytes: spec_u32_from_le_bytes(p.subrange(4, 8)),
            backlog_packets: spec_u32_from_le_bytes(p.subrange(8, 12)),
        })
    } else if t == EVENT_SOCKET_STATE {
        EventData::Socket(SocketData {
            wmem_queued: spec_u32_from_le_bytes(p.subrange(0, 4)),
            sndbuf: spec_u32_from_le_bytes(p.subrange(4, 8)),
            socket_id: spec_u64_from_le_bytes(p.subrange(8, 16)),
        })
    } else if t == EVENT_SOFTIRQ_EXIT {
        EventData::Softirq(SoftirqData {
            vec_nr: spec_u32_from_le_bytes(p.subrange(0, 4)),
            duration_ns: spec_u64_from_le_bytes(p.subrange(8, 16)),
        })
    } else {
        EventData::Unknown
    }
}

/// What decoding a buffer yields: an error on a truncated buffer, else
/// the record read from the first [`RECORD_BYTES`] bytes (a longer buffer
/// may carry trailing bytes, which are ignored).
pub open spec fn spec_decode(s: Seq<u8>) -> Result<CongestionEvent, DecodeError> {
    if s.len() < RECORD_BYTES {
        Err(DecodeError::Truncated)
    } else {
        let t = spec_u32_from_le_bytes(s.subrange(8, 12));
        Ok(CongestionEvent {
            timestamp_ns: spec_u64_from_le_bytes(s.subrange(0, 8)),
            event_type: t,
            cpu_id: spec_u32_from_le_bytes(s.subrange(12, 16)),
            data: spec_decode_payload(t, s.subrange(16, 40)),
        })
    }
}

/// A vector of `n` zero bytes.
fn zero_vec(n: usize) -> (v: Vec<u8>)
    ensures
        v@ == spec_zero_bytes(n as nat),
{
    let mut v: Vec<u8> = Vec::new();
    let mut i: usize = 0;
    while i < n
        invariant
            i <= n,
            v@.len() == i,
            forall|k: int| 0 <= k < i ==> v@[k] == 0u8,
        decreases n - i,
    {
        v.push(0u8);
        i = i + 1;
    }
    proof {
        assert(v@ =~= spec_zero_bytes(n as nat));
    }
    v
}

impl CongestionEvent {
    /// Serialize the record into its wire image.
    pub fn encode(&self) -> (r: Vec<u8>)
        ensures
            r@ == spec_encode(*self),
            r@.len() == RECORD_BYTES,
    {
        proof {
            lemma_auto_spec_u64_to_from_le_bytes();
            lemma_auto_spec_u32_to_from_le_bytes();
        }
        let mut out: Vec<u8> = u64_to_le_bytes(self.timestamp_ns);
        let mut t = u32_to_le_bytes(self.event_type);
        out.append(&mut t);
        let mut c = u32_to_le_bytes(self.cpu_id);
        out.append(&mut c);
        match &self.data {
            EventData::Sendmsg(d) => {
                let mut b = u64_to_le_bytes(d.bytes);
                out.append(&mut b);
                let mut f = u32_to_le_bytes(d.is_tcp);
                out.append(&mut f);
                let mut pad = zero_vec(4);
                out.append(&mut pad);
                let mut s = u64_to_le_bytes(d.socket_id);
                out.append(&mut s);
            },
            EventData::Qdisc(d) => {
                let mut b = u32_to_le_bytes(d.dropped);
                out.append(&mut b);
                let mut f = u32_to_le_bytes(d.backlog_bytes);
                out.append(&mut f);
                let mut g = u32_to_le_bytes(d.backlog_packets);
                out.append(&mut g);
                let mut pad = zero_vec(12);
                out.append(&mut pad);
            },
            EventData::Socket(d) => {
                let mut b = u32_to_le_bytes(d.wmem_queued);
                out.append(&mut b);
                let mut f = u32_to_le_bytes(d.sndbuf);
                out.append(&mut f);
                let mut s = u64_to_le_bytes(d.socket_id);
                out.append(&mut s);
                let mut pad = zero_vec(8);
                out.append(&mut pad);
            },
            EventData::Softirq(d) => {
                let mut b = u32_to_le_bytes(d.vec_nr);
                out.append(&mut b);
                let mut pad = zero_vec(4);
                out.append(&mut pad);
                let mut s = u64_to_le_bytes(d.duration_ns);
                out.append(&mut s);
                let mut pad2 = zero_vec(8);
                out.append(&mut pad2);
            },
            EventData::Unknown => {
                let mut pad = zero_vec(24);
                out.append(&mut pad);
            },
        }
        out
    }

    /// Deserialize one record from a buffer, validating the length before
    /// any field is read. A buffer shorter than one record is rejected;
    /// trailing bytes beyond the record are ignored.
    pub fn decode(buf: &[u8]) -> (r: Result<CongestionEvent, DecodeError>)
        ensures
            r == spec_decode(buf@),
            r is Ok ==> r->Ok_0.wf(),
    {
        if buf.len() < RECORD_BYTES {
            return Err(DecodeError::Truncated);
        }
        let timestamp_ns = u64_from_le_bytes(vstd::slice::slice_subrange(buf, 0, 8));
        let event_type = u32_from_le_bytes(vstd::slice::slice_subrange(buf, 8, 12));
        let cpu_id = u32_from_le_bytes(vstd::slice::slice_subrange(buf, 12, 16));
        let data = if event_type == EVENT_UDP_SEND || event_type == EVENT_TCP_SEND {
            EventData::Sendmsg(SendMsgData {
                bytes: u64_from_le_bytes(vstd::slice::slice_subrange(buf, 16, 24)),
                is_tcp: u32_from_le_bytes(vstd::slice::slice_subrange(buf, 24, 28)),
                socket_id: u64_from_le_bytes(vstd::slice::slice_subrange(buf, 32, 40)),
            })
        } else if event_type == EVENT_QDISC_DROP {
            EventData::Qdisc(QdiscData {
                dropped: u32_from_le_bytes(vstd::slice::slice_subrange(buf, 16, 20)),
                backlog_bytes: u32_from_le_bytes(vstd::slice::slice_subrange(buf, 20, 24)),
                backlog_packets: u32_from_le_bytes(vstd::slice::slice_subrange(buf, 24, 28)),
            })
        } else if event_type == EVENT_SOCKET_STATE {
            EventData::Socket(SocketData {
                wmem_queued: u32_from_le_bytes(vstd::slice::slice_subrange(buf, 16, 20)),
                sndbuf: u32_from_le_bytes(vstd::slice::slice_subrange(buf, 20, 24)),
                socket_id: u64_from_le_bytes(vstd::slice::slice_subrange(buf, 24, 32)),
            })
        } else if event_type == EVENT_SOFTIRQ_EXIT {
            EventData::Softirq(SoftirqData {
                vec_nr: u32_from_le_bytes(vstd::slice::slice_subrange(buf, 16, 20)),
                duration_ns: u64_from_le_bytes(vstd::slice::slice_subrange(buf, 24, 32)),
            })
        } else {
            EventData::Unknown
        };
        proof {
            let p = buf@.subrange(16, 40);
            assert(p.subrange(0, 8) =~= buf@.subrange(16, 24));
            assert(p.subrange(8, 12) =~= buf@.subrange(24, 28));
            assert(p.subrange(16, 24) =~= buf@.subrange(32, 40));
            assert(p.subrange(0, 4) =~= buf@.subrange(16, 20));
            assert(p.subrange(4, 8) =~= buf@.subrange(20, 24));
            assert(p.subrange(8, 16) =~= buf@.subrange(24, 32));
        }
        Ok(CongestionEvent { timestamp_ns, event_type, cpu_id, data })
    }
}

/// Round trip: decoding the wire image of any tag-consistent record
/// reproduces the record exactly, field for field, for every payload
/// variant.
pub proof fn lemma_round_trip(e: CongestionEvent)
    requires
        e.wf(),
    ensures
        spec_decode(spec_encode(e)) == Ok::<CongestionEvent, DecodeError>(e),
{
    lemma_auto_spec_u64_to_from_le_bytes();
    lemma_auto_spec_u32_to_from_le_bytes();
    let enc = spec_encode(e);
    assert(enc.len() == 40);
    assert(enc.subrange(0, 8) =~= spec_u64_to_le_bytes(e.timestamp_ns));
    assert(enc.subrange(8, 12) =~= spec_u32_to_le_bytes(e.event_type));
    assert(enc.subrange(12, 16) =~= spec_u32_to_le_bytes(e.cpu_id));
    let p = enc.subrange(16, 40);
    assert(p =~= spec_payload_bytes(e.data));
    match e.data {
        EventData::Sendmsg(d) => {
            assert(p.subrange(0, 8) =~= spec_u64_to_le_bytes(d.bytes));
            assert(p.subrange(8, 12) =~= spec_u32_to_le_bytes(d.is_tcp));
            assert(p.subrange(16, 24) =~= spec_u64_to_le_bytes(d.socket_id));
        },
        EventData::Qdisc(d) => {
            assert(p.subrange(0, 4) =~= spec_u32_to_le_bytes(d.dropped));
            assert(p.subrange(4, 8) =~= spec_u32_to_le_bytes(d.backlog_bytes));
            assert(p.subrange(8, 12) =~= spec_u32_to_le_bytes(d.backlog_packets));
        },
        EventData::Socket(d) => {
            assert(p.subrange(0, 4) =~= spec_u32_to_le_bytes(d.wmem_queued));
            assert(p.subrange(4, 8) =~= spec_u32_to_le_bytes(d.sndbuf));
            assert(p.subrange(8, 16) =~= spec_u64_to_le_bytes(d.socket_id));
        },
        EventData::Softirq(d) => {
            assert(p.subrange(0, 4) =~= spec_u32_to_le_bytes(d.vec_nr));
            assert(p.subrange(8, 16) =~= spec_u64_to_le_bytes(d.duration_ns));
        },
        EventData::Unknown => {
        },
    }
}

} // verus!

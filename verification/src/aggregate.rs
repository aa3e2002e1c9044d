//! The userspace aggregation engine: decoded records become additions to
//! six shared counters, and a snapshot operation reads and zeroes them.
//!
//! In the running system the six counters are process-lifetime atomics,
//! updated concurrently by one consumption task per CPU with relaxed
//! fetch-and-add, and read-and-reset with atomic swaps. Every update is
//! an independent addition, so any interleaving of updates is equivalent
//! to applying them in some sequential order; this module states and
//! verifies that sequential meaning. [`event_deltas`] gives the exact
//! per-record additions a consumption task must apply, and
//! [`AggregationState`] carries the counters for sequential use.

use vstd::prelude::*;
use crate::wire::{spec_decode, CongestionEvent, DecodeError, EventData};

verus! {

/// The six raw shared counters (sums, not pre-divided), as accumulated
/// since the previous snapshot. Pressure is kept as a per-mille sum plus
/// a sample count, which avoids floating point on the hot path.
#[derive(Clone, Copy, Debug, PartialEq, Eq, Structural)]
pub struct AggregationState {
    pub send_bytes: u64,
    pub drops: u64,
    pub wmem_pressure_sum: u64,
    pub wmem_sample_count: u64,
    pub softirq_ns: u64,
    pub event_count: u64,
}

/// What one record adds to each counter. Every dispatch counts one
/// event; at most one other counter pair moves, selected by the payload
/// variant.
#[derive(Clone, Copy, Debug, PartialEq, Eq, Structural)]
pub struct SignalDeltas {
    pub send_bytes: u64,
    pub drops: u64,
    pub wmem_pressure_sum: u64,
    pub wmem_sample_count: u64,
    pub softirq_ns: u64,
    pub event_count: u64,
}

/// An immutable snapshot of the counters: the totals accumulated since
/// the previous snapshot, created fresh on every snapshot call.
#[derive(Clone, Copy, Debug, PartialEq, Eq, Structural)]
pub struct CongestionSignals {
    pub send_bytes: u64,
    pub drops: u64,
    pub wmem_pressure_sum: u64,
    pub wmem_sample_count: u64,
    pub softirq_ns: u64,
    pub event_count: u64,
}

/// The per-record counter additions: a send record adds its transfer
/// length; a drop record adds one drop; a socket-state record with a
/// positive buffer limit adds the queued/limit ratio in per-mille and one
/// pressure sample (a zero limit adds nothing); a duration record adds
/// its elapsed nanoseconds; an unrecognized record adds nothing. Every
/// record counts one event.
pub open spec fn spec_event_deltas(e: CongestionEvent) -> SignalDeltas {
    match e.data {
        EventData::Sendmsg(d) => SignalDeltas {
            send_bytes: d.bytes,
            drops: 0,
            wmem_pressure_sum: 0,
            wmem_sample_count: 0,
            softirq_ns: 0,
            event_count: 1,
        },
        EventData::Qdisc(_) => SignalDeltas {
            send_bytes: 0,
            drops: 1,
            wmem_pressure_sum: 0,
            wmem_sample_count: 0,
            softirq_ns: 0,
            event_count: 1,
        },
        EventData::Socket(d) => SignalDeltas {
            send_bytes: 0,
            drops: 0,
            wmem_pressure_sum: if d.sndbuf > 0 {
                ((d.wmem_queued * 1000) / (d.sndbuf as int)) as u64
            } else {
                0
            },
            wmem_sample_count: if d.sndbuf > 0 {
                1
            } else {
                0
            },
            softirq_ns: 0,
            event_count: 1,
        },
        EventData::Softirq(d) => SignalDeltas {
            send_bytes: 0,
            drops: 0,
            wmem_pressure_sum: 0,
            wmem_sample_count: 0,
            softirq_ns: d.duration_ns,
            event_count: 1,
        },
        EventData::Unknown => SignalDeltas {
            send_bytes: 0,
            drops: 0,
            wmem_pressure_sum: 0,
            wmem_sample_count: 0,
            softirq_ns: 0,
            event_count: 1,
        },
    }
}

/// Counter state after one set of additions. Each addition wraps, as a
/// relaxed atomic fetch-and-add does.
pub open spec fn spec_add_deltas(s: AggregationState, d: SignalDeltas) -> AggregationState {
    AggregationState {
        send_bytes: s.send_bytes.wrapping_add(d.send_bytes),
        drops: s.drops.wrapping_add(d.drops),
        wmem_pressure_sum: s.wmem_pressure_sum.wrapping_add(d.wmem_pressure_sum),
        wmem_sample_count: s.wmem_sample_count.wrapping_add(d.wmem_sample_count),
        softirq_ns: s.softirq_ns.wrapping_add(d.softirq_ns),
        event_count: s.event_count.wrapping_add(d.event_count),
    }
}

/// Counter state after dispatching one record.
pub open spec fn spec_apply(s: AggregationState, e: CongestionEvent) -> AggregationState {
    spec_add_deltas(s, spec_event_deltas(e))
}

/// Counter state after dispatching a sequence of records in order. Any
/// concurrent interleaving of independent counter additions lands on
/// this function for some order of the records.
pub open spec fn spec_apply_all(s: AggregationState, events: Seq<CongestionEvent>) -> AggregationState
    decreases events.len(),
{
    if events.len() == 0 {
        s
    } else {
        spec_apply_all(spec_apply(s, events[0]), events.drop_first())
    }
}

/// The snapshot is a field-for-field capture of the counters.
pub open spec fn spec_snapshot(s: AggregationState) -> CongestionSignals {
    CongestionSignals {
        send_bytes: s.send_bytes,
        drops: s.drops,
        wmem_pressure_sum: s.wmem_pressure_sum,
        wmem_sample_count: s.wmem_sample_count,
        softirq_ns: s.softirq_ns,
        event_count: s.event_count,
    }
}

/// Exact counter additions for one record, for a consumption task that
/// applies them to the shared atomics with relaxed fetch-and-add.
pub fn event_deltas(e: &CongestionEvent) -> (d: SignalDeltas)
    ensures
        d == spec_event_deltas(*e),
{
    match &e.data {
        EventData::Sendmsg(d) => SignalDeltas {
            send_bytes: d.bytes,
            drops: 0,
            wmem_pressure_sum: 0,
            wmem_sample_count: 0,
            softirq_ns: 0,
            event_count: 1,
        },
        EventData::Qdisc(_) => SignalDeltas {
            send_bytes: 0,
            drops: 1,
            wmem_pressure_sum: 0,
            wmem_sample_count: 0,
            softirq_ns: 0,
            event_count: 1,
        },
        EventData::Socket(d) => {
            let (pressure, samples): (u64, u64) = if d.sndbuf > 0 {
                (((d.wmem_queued as u64) * 1000) / (d.sndbuf as u64), 1)
            } else {
                (0, 0)
            };
            SignalDeltas {
                send_bytes: 0,
                drops: 0,
                wmem_pressure_sum: pressure,
                wmem_sample_count: samples,
                softirq_ns: 0,
                event_count: 1,
            }
        },
        EventData::Softirq(d) => SignalDeltas {
            send_bytes: 0,
            drops: 0,
            wmem_pressure_sum: 0,
            wmem_sample_count: 0,
            softirq_ns: d.duration_ns,
            event_count: 1,
        },
        EventData::Unknown => SignalDeltas {
            send_bytes: 0,
            drops: 0,
            wmem_pressure_sum: 0,
            wmem_sample_count: 0,
            softirq_ns: 0,
            event_count: 1,
        },
    }
}

impl AggregationState {
    /// All counters zero.
    pub open spec fn spec_zero() -> AggregationState {
        AggregationState {
            send_bytes: 0,
            drops: 0,
            wmem_pressure_sum: 0,
            wmem_sample_count: 0,
            softirq_ns: 0,
            event_count: 0,
        }
    }

    /// Fresh counters, created once at collector construction.
    pub fn new() -> (s: Self)
        ensures
            s == AggregationState::spec_zero(),
    {
        AggregationState {
            send_bytes: 0,
            drops: 0,
            wmem_pressure_sum: 0,
            wmem_sample_count: 0,
            softirq_ns: 0,
            event_count: 0,
        }
    }

    /// Dispatch one decoded record into the counters.
    pub fn process_event(&mut self, e: &CongestionEvent)
        ensures
            *final(self) == spec_apply(*old(self), *e),
    {
        let d = event_deltas(e);
        self.send_bytes = self.send_bytes.wrapping_add(d.send_bytes);
        self.drops = self.drops.wrapping_add(d.drops);
        self.wmem_pressure_sum = self.wmem_pressure_sum.wrapping_add(d.wmem_pressure_sum);
        self.wmem_sample_count = self.wmem_sample_count.wrapping_add(d.wmem_sample_count);
        self.softirq_ns = self.softirq_ns.wrapping_add(d.softirq_ns);
        self.event_count = self.event_count.wrapping_add(d.event_count);
    }

    /// Decode one buffer and dispatch the record it holds. A truncated
    /// buffer is a skip condition: the counters do not move and the
    /// error is returned for the caller to count.
    pub fn process_record(&mut self, buf: &[u8]) -> (r: Result<(), DecodeError>)
        ensures
            spec_decode(buf@) is Ok ==> (r is Ok && *final(self) == spec_apply(
                *old(self),
                spec_decode(buf@)->Ok_0,
            )),
            spec_decode(buf@) is Err ==> (r == Err::<(), DecodeError>(DecodeError::Truncated)
                && *final(self) == *old(self)),
    {
        match CongestionEvent::decode(buf) {
            Ok(e) => {
                self.process_event(&e);
                Ok(())
            },
            Err(err) => Err(err),
        }
    }

    /// The snapshot operation: capture every counter and zero it, and
    /// return the captured totals. In the running system each field is an
    /// independent atomic swap; here that sequence of swaps is given its
    /// sequential meaning.
    pub fn read_and_reset(&mut self) -> (sig: CongestionSignals)
        ensures
            sig == spec_snapshot(*old(self)),
            *final(self) == AggregationState::spec_zero(),
    {
        let sig = CongestionSignals {
            send_bytes: self.send_bytes,
            drops: self.drops,
            wmem_pressure_sum: self.wmem_pressure_sum,
            wmem_sample_count: self.wmem_sample_count,
            softirq_ns: self.softirq_ns,
            event_count: self.event_count,
        };
        self.send_bytes = 0;
        self.drops = 0;
        self.wmem_pressure_sum = 0;
        self.wmem_sample_count = 0;
        self.softirq_ns = 0;
        self.event_count = 0;
        sig
    }
}

impl CongestionSignals {
    /// The derived average buffer pressure in per-mille: the pressure sum
    /// divided by the sample count, or zero when no sample was taken.
    /// Dividing by 1000 gives the pressure as a fraction of the buffer
    /// limit.
    pub open spec fn spec_avg_permille(self) -> u64 {
        if self.wmem_sample_count > 0 {
            ((self.wmem_pressure_sum as int) / (self.wmem_sample_count as int)) as u64
        } else {
            0
        }
    }

    /// Average buffer pressure in per-mille since the previous snapshot.
    pub fn avg_wmem_pressure_permille(&self) -> (r: u64)
        ensures
            r == self.spec_avg_permille(),
    {
        if self.wmem_sample_count > 0 {
            self.wmem_pressure_sum / self.wmem_sample_count
        } else {
            0
        }
    }

    /// All totals zero.
    pub open spec fn is_zero(self) -> bool {
        self.send_bytes == 0 && self.drops == 0 && self.wmem_pressure_sum == 0
            && self.wmem_sample_count == 0 && self.softirq_ns == 0 && self.event_count == 0
    }
}

/// Snapshot-zeroing law: a snapshot leaves every counter zero (the
/// `read_and_reset` contract), and the snapshot of that zero state — what
/// a second call with no intervening events returns — is all-zero with an
/// average pressure of zero.
pub proof fn lemma_snapshot_zeroing()
    ensures
        spec_snapshot(AggregationState::spec_zero()).is_zero(),
        spec_snapshot(AggregationState::spec_zero()).spec_avg_permille() == 0,
{
}

/// Whether every record in a sequence is a drop record.
pub open spec fn all_drop_events(events: Seq<CongestionEvent>) -> bool {
    forall|i: int| 0 <= i < events.len() ==> events[i].data is Qdisc
}

/// Dispatching drop records adds exactly one drop and one event per
/// record, as long as the counters do not wrap.
pub proof fn lemma_drops_accumulate(s: AggregationState, events: Seq<CongestionEvent>)
    requires
        all_drop_events(events),
        s.drops + events.len() <= u64::MAX,
        s.event_count + events.len() <= u64::MAX,
    ensures
        spec_apply_all(s, events).drops == s.drops + events.len(),
        spec_apply_all(s, events).event_count == s.event_count + events.len(),
    decreases events.len(),
{
    if events.len() > 0 {
        let s1 = spec_apply(s, events[0]);
        assert(s1.drops == s.drops + 1);
        assert(s1.event_count == s.event_count + 1);
        lemma_drops_accumulate(s1, events.drop_first());
    }
}

/// Concurrent-correctness law: with M producers each contributing K drop
/// increments, every increment is an independent atomic addition, so any
/// interleaving dispatches some sequence of M·K drop records — and every
/// such sequence, applied to fresh counters, yields exactly M·K drops
/// (and M·K events) at the next snapshot.
pub proof fn lemma_concurrent_drop_count(events: Seq<CongestionEvent>, m: nat, k: nat)
    requires
        all_drop_events(events),
        events.len() == m * k,
        m * k <= u64::MAX,
    ensures
        spec_apply_all(AggregationState::spec_zero(), events).drops == m * k,
        spec_apply_all(AggregationState::spec_zero(), events).event_count == m * k,
{
    lemma_drops_accumulate(AggregationState::spec_zero(), events);
}

} // verus!

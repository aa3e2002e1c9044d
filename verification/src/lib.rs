//! Userspace core of a kernel congestion-signal collector.
//!
//! Kernel-resident producers observe send volume, packet drops, socket
//! buffer pressure and software-interrupt latency, and emit fixed-size
//! binary records onto per-CPU channel lanes. This crate holds the logic
//! shared by both halves: the wire codec for those records, the producer
//! decision logic (sampling policy, interrupt timers, record
//! construction), and the aggregation engine that turns decoded records
//! into statistical snapshots.

pub mod aggregate;
pub mod producers;
pub mod wire;

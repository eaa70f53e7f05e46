//! Scheduling policy for the background workers that keep search indexes
//! consistent with live document writes: routing a rebuild to a worker
//! class, capping its read throughput, jittering retry backoff, and
//! representing the progress of a multi-segment backfill.

pub mod backfill;
pub mod backoff;
pub mod policy;

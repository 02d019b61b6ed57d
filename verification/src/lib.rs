//! Supervision core for a small fleet of externally spawned child processes:
//! a shared append-only registry of tracked processes, liveness assessment
//! against a snapshot of the operating system's process table, and
//! first-completion-wins race resolution.
//!
//! The surrounding runtime (process spawning, OS process-table queries,
//! task scheduling and the output sink) lives outside this crate; the logic
//! here is written over plain values handed in from that runtime.

pub mod errors;
pub mod liveness;
pub mod race;
pub mod registry;
pub mod report;

//! Debounced, path-scoped change-to-sync scheduling.
//!
//! A watched directory tree produces a bursty stream of change signals.
//! The scheduler coalesces each burst into a single synchronization run
//! per quiet period and guarantees that no two runs for the same watched
//! root overlap in time. The synchronization itself (an external
//! content-transfer tool) is driven by the surrounding program; this
//! crate owns the decisions: when to arm a debounce wait, when to fire
//! a sync, and how the command line for the transfer tool is built.

pub mod executor;
pub mod laws;
pub mod scheduler;

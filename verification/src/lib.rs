//! Verified core of a network speed test.
//!
//! The library measures nothing itself: it decides which HTTP probe to issue
//! next, reduces the timings an unverified driver hands back, and assembles
//! the final result record.  All arithmetic is carried out on integers in
//! fixed units (bytes, microseconds, bits per second), so every figure is
//! stated and proved exactly.

pub mod config;
pub mod orchestrator;
pub mod stats;
pub mod throughput;

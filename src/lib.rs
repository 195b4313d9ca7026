//! Benchmark orchestration and scoring engine.
//!
//! Probes are named, weighted workloads that each yield one raw number.
//! The engine normalizes those numbers against fixed per-category baselines,
//! combines them into one weighted final score, sequences a run of probes as
//! a state machine that emits lifecycle events, and interprets those events
//! on the consumer side as a small session state.

pub mod model;
pub mod score;
pub mod runner;
pub mod state;
pub mod benchmarks;

//! Engine of a load-generation harness: worker and orchestrator state
//! machines, per-worker latency accounting and the merged run report.

pub mod admission;
pub mod config;
pub mod engine;
pub mod histogram;
pub mod multiply;
pub mod parallelism;
pub mod report;
pub mod worker;
pub mod workloads;

//! The deterministic fix pipeline: stage selection, per-tool decisions and
//! the fix report.
pub mod engine;
pub mod report;
pub mod runner;
pub mod stage_filter;

//! Adaptive load-generation library: an AIMD concurrency controller, a
//! per-second admission gate, outcome classification and metrics aggregation
//! for a sustained request/response load run, plus the aggregate statistics
//! of a fixed-batch stress run.

pub mod batch;
pub mod cli;
pub mod config;
pub mod controller;
pub mod credentials;
pub mod dispatcher;
pub mod greeting;
pub mod histogram;
pub mod metrics;
pub mod outcome;
pub mod rate;
pub mod request;
pub mod setup;
pub mod tpcb;

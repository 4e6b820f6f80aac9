//! Health aggregation for a fixed set of downstream services.

pub mod check;
pub mod config;
pub mod laws;
pub mod probe;
pub mod report;
pub mod status;

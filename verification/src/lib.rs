//! A service health/readiness subsystem: a registry of named probes with
//! per-check timeouts and criticality, a deterministic aggregation policy,
//! and the pure computation behind an HTTP health endpoint.

pub mod aggregate;
pub mod expose;
pub mod registry;
pub mod render;
pub mod runner;
pub mod status;

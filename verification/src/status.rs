//! Core data model: the status of a single check, the overall verdict,
//! and the result record produced for each probe invocation.

use vstd::prelude::*;

verus! {

/// Status of one executed check.
#[derive(Clone, Copy, Debug, PartialEq, Eq, Structural)]
pub enum CheckStatus {
    Healthy,
    Unhealthy,
    TimedOut,
}

/// Overall verdict over a whole result set.
#[derive(Clone, Copy, Debug, PartialEq, Eq, Structural)]
pub enum OverallStatus {
    Healthy,
    Degraded,
    Unhealthy,
}

/// The outcome of running one check: its name, its status, an optional
/// detail message (an error description for unhealthy checks), how long the
/// probe ran in milliseconds, and whether the check is critical.
#[derive(Debug)]
pub struct CheckResult {
    pub name: String,
    pub status: CheckStatus,
    pub detail: Option<String>,
    pub latency_ms: u64,
    pub critical: bool,
}

impl Clone for CheckResult {
    fn clone(&self) -> (res: Self)
        ensures
            res == *self,
    {
        CheckResult {
            name: self.name.clone(),
            status: self.status,
            detail: match &self.detail {
                Some(d) => Some(d.clone()),
                None => None,
            },
            latency_ms: self.latency_ms,
            critical: self.critical,
        }
    }
}

} // verus!

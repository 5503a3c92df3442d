//! The status aggregator: a pure, total, deterministic reduction of a set of
//! check results into an overall verdict.
//!
//! Policy: the overall status is `Healthy` when every result is healthy
//! (vacuously so for the empty set), `Unhealthy` when some critical check is
//! `Unhealthy` or `TimedOut`, and `Degraded` otherwise (only non-critical
//! checks failed).

use vstd::prelude::*;
use crate::status::{CheckResult, CheckStatus, OverallStatus};

verus! {

/// A result that did not come back healthy.
pub open spec fn spec_failed(r: CheckResult) -> bool {
    r.status is Unhealthy || r.status is TimedOut
}

/// A failed result whose check is marked critical.
pub open spec fn spec_critical_failure(r: CheckResult) -> bool {
    r.critical && spec_failed(r)
}

/// The aggregation policy as a function of the result sequence.
pub open spec fn overall_of(rs: Seq<CheckResult>) -> OverallStatus {
    if exists|i: int| 0 <= i < rs.len() && spec_critical_failure(rs[i]) {
        OverallStatus::Unhealthy
    } else if exists|i: int| 0 <= i < rs.len() && spec_failed(rs[i]) {
        OverallStatus::Degraded
    } else {
        OverallStatus::Healthy
    }
}

/// The overall verdict together with the results it was computed from,
/// in registration order.
#[derive(Debug)]
pub struct AggregateStatus {
    pub overall: OverallStatus,
    pub results: Vec<CheckResult>,
}

/// Whether one executed check failed (`Unhealthy` or `TimedOut`).
pub fn failed(r: &CheckResult) -> (b: bool)
    ensures
        b == spec_failed(*r),
{
    match r.status {
        CheckStatus::Healthy => false,
        CheckStatus::Unhealthy => true,
        CheckStatus::TimedOut => true,
    }
}

/// Reduce a result set to its overall verdict, keeping the results.
pub fn aggregate(results: Vec<CheckResult>) -> (agg: AggregateStatus)
    ensures
        agg.overall == overall_of(results@),
        agg.results@ == results@,
{
    let mut any_failure: bool = false;
    let mut any_critical_failure: bool = false;
    let n: usize = results.len();
    let mut i: usize = 0;
    while i < n
        invariant
            n == results@.len(),
            i <= n,
            any_critical_failure == exists|k: int|
                0 <= k < i && spec_critical_failure(results@[k]),
            any_failure == exists|k: int| 0 <= k < i && spec_failed(results@[k]),
        decreases n - i,
    {
        let f = failed(&results[i]);
        if f {
            any_failure = true;
            if results[i].critical {
                any_critical_failure = true;
            }
        }
        i = i + 1;
    }
    let overall = if any_critical_failure {
        OverallStatus::Unhealthy
    } else if any_failure {
        OverallStatus::Degraded
    } else {
        OverallStatus::Healthy
    };
    AggregateStatus { overall, results }
}

/// Law: a result set in which every result is healthy aggregates to an
/// overall `Healthy` verdict.
pub proof fn lemma_all_healthy_overall_healthy(rs: Seq<CheckResult>)
    requires
        forall|i: int| 0 <= i < rs.len() ==> (#[trigger] rs[i].status) is Healthy,
    ensures
        overall_of(rs) is Healthy,
{
    assert(forall|i: int| 0 <= i < rs.len() ==> !spec_critical_failure(#[trigger] rs[i]));
    assert(forall|i: int| 0 <= i < rs.len() ==> !spec_failed(#[trigger] rs[i]));
}

/// Law: a result set holding at least one critical `Unhealthy` or `TimedOut`
/// result aggregates to an overall `Unhealthy` verdict.
pub proof fn lemma_critical_failure_overall_unhealthy(rs: Seq<CheckResult>)
    requires
        exists|i: int|
            0 <= i < rs.len() && (#[trigger] rs[i]).critical && (rs[i].status is Unhealthy
                || rs[i].status is TimedOut),
    ensures
        overall_of(rs) is Unhealthy,
{
    let i = choose|i: int|
        0 <= i < rs.len() && (#[trigger] rs[i]).critical && (rs[i].status is Unhealthy
            || rs[i].status is TimedOut);
    assert(spec_critical_failure(rs[i]));
}

/// Law: the empty result set aggregates to an overall `Healthy` verdict.
pub proof fn lemma_empty_overall_healthy(rs: Seq<CheckResult>)
    requires
        rs.len() == 0,
    ensures
        overall_of(rs) is Healthy,
{
}

/// Law: a result set with at least one failure but no critical failure
/// aggregates to an overall `Degraded` verdict.
pub proof fn lemma_noncritical_failure_overall_degraded(rs: Seq<CheckResult>)
    requires
        exists|i: int| 0 <= i < rs.len() && spec_failed(#[trigger] rs[i]),
        forall|i: int| 0 <= i < rs.len() ==> !spec_critical_failure(#[trigger] rs[i]),
    ensures
        overall_of(rs) is Degraded,
{
}

} // verus!

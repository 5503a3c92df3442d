//! The check runner's decision logic. The caller executes each registered
//! probe concurrently, bounded by the check's timeout, and observes one
//! outcome per check; the functions here turn those observations into
//! `CheckResult` records and restore registration order, so that the report
//! is deterministic whatever the completion order was.

use vstd::prelude::*;
use crate::status::{CheckResult, CheckStatus};

verus! {

/// What the runner observed for one probe: it completed successfully, it
/// completed with an error message, or it did not complete within the
/// check's timeout (the run is abandoned, with no partial detail).
#[derive(Debug)]
pub enum ProbeOutcome {
    Passed,
    Failed(String),
    TimedOut,
}

/// The status that a given observation must be recorded as.
pub open spec fn spec_status_of_outcome(outcome: ProbeOutcome) -> CheckStatus {
    match outcome {
        ProbeOutcome::Passed => CheckStatus::Healthy,
        ProbeOutcome::Failed(_) => CheckStatus::Unhealthy,
        ProbeOutcome::TimedOut => CheckStatus::TimedOut,
    }
}

/// The detail that a given observation must be recorded with: the error
/// message of a failed probe, nothing otherwise.
pub open spec fn spec_detail_of_outcome(outcome: ProbeOutcome) -> Option<String> {
    match outcome {
        ProbeOutcome::Passed => None,
        ProbeOutcome::Failed(m) => Some(m),
        ProbeOutcome::TimedOut => None,
    }
}

/// Record one observation: success becomes `Healthy`, a probe failure is
/// contained as `Unhealthy` with the error message as detail, and a probe
/// that outran its timeout becomes `TimedOut` with no detail.
pub fn result_of_outcome(name: String, critical: bool, latency_ms: u64, outcome: ProbeOutcome)
    -> (r: CheckResult)
    ensures
        r.name@ == name@,
        r.critical == critical,
        r.latency_ms == latency_ms,
        r.status == spec_status_of_outcome(outcome),
        r.detail == spec_detail_of_outcome(outcome),
{
    match outcome {
        ProbeOutcome::Passed => CheckResult {
            name,
            status: CheckStatus::Healthy,
            detail: None,
            latency_ms,
            critical,
        },
        ProbeOutcome::Failed(m) => CheckResult {
            name,
            status: CheckStatus::Unhealthy,
            detail: Some(m),
            latency_ms,
            critical,
        },
        ProbeOutcome::TimedOut => CheckResult {
            name,
            status: CheckStatus::TimedOut,
            detail: None,
            latency_ms,
            critical,
        },
    }
}

/// Some element of `tagged` carries the tag `i`.
pub open spec fn tag_present(tagged: Seq<(usize, CheckResult)>, i: int) -> bool {
    exists|j: int| 0 <= j < tagged.len() && (#[trigger] tagged[j]).0 == i
}

/// Restore registration order. Each collected result is tagged with the
/// registration index of its check; the tags of `tagged` are pairwise
/// distinct and cover `0 .. n` exactly. The result places the record tagged
/// `i` at position `i`, whatever order the probes completed in.
pub fn into_registration_order(n: usize, tagged: &Vec<(usize, CheckResult)>) -> (r: Vec<
    CheckResult,
>)
    requires
        tagged@.len() == n,
        forall|j1: int, j2: int|
            0 <= j1 < j2 < tagged@.len() ==> (#[trigger] tagged@[j1]).0 != (
            #[trigger] tagged@[j2]).0,
        forall|i: int| 0 <= i < n ==> #[trigger] tag_present(tagged@, i),
    ensures
        r@.len() == n,
        forall|j: int|
            0 <= j < tagged@.len() && (#[trigger] tagged@[j]).0 < n ==> r@[tagged@[j].0 as int]
                == tagged@[j].1,
{
    let mut out: Vec<CheckResult> = Vec::new();
    let mut i: usize = 0;
    while i < n
        invariant
            tagged@.len() == n,
            i <= n,
            out@.len() == i,
            forall|j1: int, j2: int|
                0 <= j1 < j2 < tagged@.len() ==> (#[trigger] tagged@[j1]).0 != (
                #[trigger] tagged@[j2]).0,
            forall|k: int| 0 <= k < n ==> #[trigger] tag_present(tagged@, k),
            forall|j: int|
                0 <= j < tagged@.len() && (#[trigger] tagged@[j]).0 < i ==> out@[
                    tagged@[j].0 as int] == tagged@[j].1,
        decreases n - i,
    {
        let mut j: usize = 0;
        let m: usize = tagged.len();
        while j < m && tagged[j].0 != i
            invariant
                m == tagged@.len(),
                j <= m,
                forall|j0: int| 0 <= j0 < j ==> (#[trigger] tagged@[j0]).0 != i,
            decreases m - j,
        {
            j = j + 1;
        }
        proof {
            assert(tag_present(tagged@, i as int));
            let jw = choose|jw: int| 0 <= jw < tagged@.len() && (#[trigger] tagged@[jw]).0 == i;
            assert(j < m);
        }
        out.push(tagged[j].1.clone());
        i = i + 1;
    }
    out
}

} // verus!

//! The pure side of the HTTP exposer: which status code and body a given
//! aggregate is answered with. Binding the listener and serving requests is
//! the embedding application's job; it feeds the collected results in and
//! writes the reply out.

use vstd::prelude::*;
use crate::aggregate::{aggregate, overall_of, AggregateStatus};
use crate::render::{render_body, spec_body};
use crate::status::{CheckResult, OverallStatus};

verus! {

/// The HTTP reply of the health endpoint: a status code and a plain body.
#[derive(Debug)]
pub struct HttpReply {
    pub code: u16,
    pub body: String,
}

/// The status code an overall verdict is answered with: 200 while the
/// service is healthy or merely degraded, 503 when it is unhealthy.
pub open spec fn spec_status_code(o: OverallStatus) -> u16 {
    if o is Unhealthy {
        503u16
    } else {
        200u16
    }
}

/// The status code an overall verdict is answered with.
pub fn status_code(o: OverallStatus) -> (c: u16)
    ensures
        c == spec_status_code(o),
{
    match o {
        OverallStatus::Unhealthy => 503,
        OverallStatus::Healthy => 200,
        OverallStatus::Degraded => 200,
    }
}

/// Serialize an aggregate into the endpoint's reply.
pub fn respond(agg: &AggregateStatus) -> (rep: HttpReply)
    ensures
        rep.code == spec_status_code(agg.overall),
        rep.body@ == spec_body(agg.results@),
{
    HttpReply { code: status_code(agg.overall), body: render_body(&agg.results) }
}

/// Evaluate one request: reduce the collected results (already in
/// registration order) to their verdict and serialize the reply.
pub fn answer(results: Vec<CheckResult>) -> (r: (AggregateStatus, HttpReply))
    ensures
        r.0.overall == overall_of(results@),
        r.0.results@ == results@,
        r.1.code == spec_status_code(overall_of(results@)),
        r.1.body@ == spec_body(results@),
{
    let agg = aggregate(results);
    let rep = respond(&agg);
    (agg, rep)
}

} // verus!

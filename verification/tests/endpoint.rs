use healthcheck::expose::{answer, respond, status_code, HttpReply};
use healthcheck::registry::CheckRegistry;
use healthcheck::render::{render_body, render_line, u64_to_string};
use healthcheck::runner::{into_registration_order, result_of_outcome, ProbeOutcome};
use healthcheck::aggregate::aggregate;
use healthcheck::status::{CheckResult, CheckStatus, OverallStatus};

fn result(name: &str, status: CheckStatus, critical: bool) -> CheckResult {
    CheckResult {
        name: name.to_owned(),
        status,
        detail: None,
        latency_ms: 7,
        critical,
    }
}

#[test]
fn decimal_rendering() {
    assert_eq!(u64_to_string(0), "0");
    assert_eq!(u64_to_string(9), "9");
    assert_eq!(u64_to_string(10), "10");
    assert_eq!(u64_to_string(50), "50");
    assert_eq!(u64_to_string(1234567890), "1234567890");
    assert_eq!(u64_to_string(u64::MAX), "18446744073709551615");
}

#[test]
fn line_format_without_detail() {
    let r = result("db", CheckStatus::Healthy, true);
    assert_eq!(render_line(&r), "db: Healthy (7ms)");
}

#[test]
fn line_format_with_detail() {
    let r = CheckResult {
        name: "db".to_owned(),
        status: CheckStatus::Unhealthy,
        detail: Some("connection refused".to_owned()),
        latency_ms: 31,
        critical: true,
    };
    assert_eq!(render_line(&r), "db: Unhealthy (31ms) - connection refused");
}

#[test]
fn timed_out_line_format() {
    let r = CheckResult {
        name: "cache".to_owned(),
        status: CheckStatus::TimedOut,
        detail: None,
        latency_ms: 50,
        critical: true,
    };
    assert_eq!(render_line(&r), "cache: TimedOut (50ms)");
}

#[test]
fn status_codes() {
    assert_eq!(status_code(OverallStatus::Healthy), 200);
    assert_eq!(status_code(OverallStatus::Degraded), 200);
    assert_eq!(status_code(OverallStatus::Unhealthy), 503);
}

#[test]
fn critical_timeout_scenario_gives_503_with_both_lines() {
    // Registry: db healthy; cache critical with a 50ms timeout whose probe
    // never completes.
    let mut reg = CheckRegistry::new();
    reg.register("db".to_owned(), 1000, true).unwrap();
    reg.register("cache".to_owned(), 50, true).unwrap();

    // The runner observes: cache's probe outran its timeout and finished
    // second; db answered first.
    let db = result_of_outcome("db".to_owned(), true, 2, ProbeOutcome::Passed);
    let cache = result_of_outcome("cache".to_owned(), true, 50, ProbeOutcome::TimedOut);
    let tagged = vec![(1usize, cache), (0usize, db)];
    let ordered = into_registration_order(reg.len(), &tagged);

    let (agg, rep) = answer(ordered);
    assert_eq!(agg.overall, OverallStatus::Unhealthy);
    assert_eq!(rep.code, 503);
    assert!(rep.body.contains("db: Healthy"));
    assert!(rep.body.contains("cache: TimedOut"));
}

#[test]
fn empty_registry_scenario_gives_200_no_checks() {
    let reg = CheckRegistry::new();
    assert_eq!(reg.len(), 0);
    let (agg, rep) = answer(Vec::new());
    assert_eq!(agg.overall, OverallStatus::Healthy);
    assert_eq!(rep.code, 200);
    assert_eq!(rep.body, "no checks");
}

#[test]
fn noncritical_failure_scenario_gives_degraded_200() {
    let results = vec![
        result("db", CheckStatus::Healthy, true),
        result("metrics", CheckStatus::Unhealthy, false),
        result("disk", CheckStatus::Healthy, true),
    ];
    let (agg, rep) = answer(results);
    assert_eq!(agg.overall, OverallStatus::Degraded);
    assert_eq!(rep.code, 200);
}

#[test]
fn body_lists_every_check_in_order() {
    let results = vec![
        result("a", CheckStatus::Healthy, true),
        result("b", CheckStatus::Healthy, false),
    ];
    assert_eq!(render_body(&results), "a: Healthy (7ms)\nb: Healthy (7ms)\n");
}

#[test]
fn respond_serializes_the_aggregate() {
    let agg = aggregate(vec![result("db", CheckStatus::Unhealthy, true)]);
    let HttpReply { code, body } = respond(&agg);
    assert_eq!(code, 503);
    assert_eq!(body, "db: Unhealthy (7ms)\n");
}

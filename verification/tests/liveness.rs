use liveness_probe::api::HealthcheckResponse;
use liveness_probe::models::{NodeStatus, Timestamp};
use liveness_probe::node::{check_live, respond, Node, LIVENESS_WINDOW_SECS};

fn at(secs: i64, nanos: u32) -> Timestamp {
    Timestamp { secs, nanos }
}

fn row(ip: &str, timestamp: Timestamp) -> NodeStatus {
    NodeStatus::at(ip.to_string(), timestamp)
}

fn node(ip: &str) -> Node {
    Node { ip: ip.to_string() }
}

fn listed(report: &liveness_probe::api::Status) -> Vec<(String, String)> {
    report.services.iter().map(|s| (s.ip.clone(), s.status.clone())).collect()
}

#[test]
fn window_is_ten_seconds() {
    assert_eq!(LIVENESS_WINDOW_SECS, 10);
}

#[test]
fn total_nanos_counts_from_the_epoch() {
    assert_eq!(at(0, 0).total_nanos(), 0);
    assert_eq!(at(1, 5).total_nanos(), 1_000_000_005);
    assert_eq!(at(-1, 999_999_999).total_nanos(), -1);
    assert_eq!(
        at(i64::MAX, u32::MAX).total_nanos(),
        9_223_372_036_854_775_807i128 * 1_000_000_000 + 4_294_967_295
    );
    assert_eq!(at(i64::MIN, 0).total_nanos(), -9_223_372_036_854_775_808i128 * 1_000_000_000);
}

#[test]
fn report_exactly_at_the_cutoff_is_stale() {
    let now = at(1_000, 500);
    assert!(!check_live(&at(990, 500), &now));
}

#[test]
fn report_one_nanosecond_after_the_cutoff_is_live() {
    let now = at(1_000, 500);
    assert!(check_live(&at(990, 501), &now));
    assert!(!check_live(&at(990, 499), &now));
}

#[test]
fn cutoff_carries_across_the_second_boundary() {
    let now = at(1_000, 0);
    assert!(!check_live(&at(989, 999_999_999), &now));
    assert!(check_live(&at(990, 1), &now));
}

#[test]
fn report_from_the_future_is_live() {
    assert!(check_live(&at(2_000, 0), &at(1_000, 0)));
}

#[test]
fn liveness_does_not_overflow_at_the_ends_of_the_range() {
    assert!(check_live(&at(i64::MAX, u32::MAX), &at(i64::MIN, 0)));
    assert!(!check_live(&at(i64::MIN, 0), &at(i64::MAX, u32::MAX)));
    assert!(check_live(&at(i64::MIN, 0), &at(i64::MIN, 0)));
}

#[test]
fn healthcheck_keeps_recent_rows_and_drops_old_ones() {
    let now = at(1_700_000_000, 0);
    let rows = vec![row("A", at(1_700_000_000 - 5, 0)), row("B", at(1_700_000_000 - 15, 0))];
    let report = node("10.1.1.1").report_at(now, &rows);
    assert_eq!(report.ip, "10.1.1.1");
    assert_eq!(listed(&report), vec![("A".to_string(), "AVAILABLE".to_string())]);
}

#[test]
fn healthcheck_keeps_stored_order() {
    let now = at(100, 0);
    let rows = vec![
        row("c", at(99, 0)),
        row("old", at(10, 0)),
        row("a", at(95, 0)),
        row("b", at(100, 0)),
    ];
    let report = node("self").report_at(now, &rows);
    let ips: Vec<String> = report.services.iter().map(|s| s.ip.clone()).collect();
    assert_eq!(ips, vec!["c".to_string(), "a".to_string(), "b".to_string()]);
}

#[test]
fn healthcheck_over_no_rows_lists_nobody() {
    let report = node("self").report_at(at(100, 0), &Vec::new());
    assert_eq!(report.ip, "self");
    assert!(report.services.is_empty());
}

#[test]
fn healthcheck_passes_a_stored_status_through() {
    let rows = vec![NodeStatus {
        ip: "10.0.0.9".to_string(),
        status: "DRAINING".to_string(),
        timestamp: at(100, 0),
    }];
    let report = node("self").report_at(at(101, 0), &rows);
    assert_eq!(listed(&report), vec![("10.0.0.9".to_string(), "DRAINING".to_string())]);
}

#[test]
fn failed_read_fails_the_healthcheck() {
    let result = node("self").process_healthcheck_at(at(100, 0), Err("pool timed out".to_string()));
    assert_eq!(result.err(), Some("pool timed out".to_string()));
}

#[test]
fn failed_read_answers_service_unavailable() {
    let response = node("self").healthcheck_at(at(100, 0), Err("connection refused".to_string()));
    assert_eq!(response.status_code(), 503);
    match response {
        HealthcheckResponse::ServiceUnavailable(body) => assert_eq!(body.error, "connection refused"),
        HealthcheckResponse::Healthy(_) => panic!("a failed read must not give a report"),
    }
}

#[test]
fn failed_read_answers_service_unavailable_at_the_current_time() {
    let response = node("self").healthcheck(Err("connection refused".to_string()));
    assert_eq!(response.status_code(), 503);
    match response {
        HealthcheckResponse::ServiceUnavailable(body) => assert_eq!(body.error, "connection refused"),
        HealthcheckResponse::Healthy(_) => panic!("a failed read must not give a report"),
    }
}

#[test]
fn successful_read_answers_ok() {
    let rows = vec![row("A", at(95, 0)), row("B", at(85, 0))];
    let response = node("me").healthcheck_at(at(100, 0), Ok(rows));
    assert_eq!(response.status_code(), 200);
    match response {
        HealthcheckResponse::Healthy(report) => {
            assert_eq!(report.ip, "me");
            assert_eq!(listed(&report), vec![("A".to_string(), "AVAILABLE".to_string())]);
        }
        HealthcheckResponse::ServiceUnavailable(_) => panic!("a good read must give a report"),
    }
}

#[test]
fn respond_wraps_both_outcomes() {
    let ok = respond(Ok(liveness_probe::api::Status { ip: "x".to_string(), services: Vec::new() }));
    assert_eq!(ok.status_code(), 200);
    let failed = respond(Err("boom".to_string()));
    assert_eq!(failed.status_code(), 503);
}

#[test]
fn healthcheck_at_the_current_time_lists_a_heartbeat_just_sent() {
    let this = node("10.2.3.4");
    let beat = this.send_heartbeat();
    let result = this.process_healthcheck(Ok(vec![beat, row("gone", at(0, 0))]));
    let report = result.expect("a good read must give a report");
    assert_eq!(report.ip, "10.2.3.4");
    assert_eq!(listed(&report), vec![("10.2.3.4".to_string(), "AVAILABLE".to_string())]);
}

#[test]
fn healthcheck_at_the_current_time_drops_the_distant_past() {
    let response = node("self").healthcheck(Ok(vec![row("gone", at(1_000_000_000, 0))]));
    match response {
        HealthcheckResponse::Healthy(report) => assert!(report.services.is_empty()),
        HealthcheckResponse::ServiceUnavailable(_) => panic!("a good read must give a report"),
    }
}

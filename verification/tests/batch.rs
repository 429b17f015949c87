use loadgen::batch::{BatchStats, ErrorKey};
use loadgen::outcome::CallOutcome;

fn ok_call(duration_ms: Option<u64>, retries: Option<u32>) -> CallOutcome {
    CallOutcome::Success { duration_ms, retries }
}

fn app_error(message: &str, code: Option<&str>) -> CallOutcome {
    CallOutcome::ApplicationError {
        message: message.to_string(),
        code: code.map(|c| c.to_string()),
        duration_ms: Some(30),
        retries: None,
    }
}

fn failed_dispatch(cause: &str) -> CallOutcome {
    CallOutcome::DispatchFailure { cause: cause.to_string() }
}

#[test]
fn successes_and_errors_are_tallied_apart() {
    let mut b = BatchStats::new();
    b.record(ok_call(None, None));
    b.record(ok_call(None, None));
    b.record(app_error("conflict", Some("40001")));
    b.record(failed_dispatch("timeout"));
    assert_eq!(b.success, 2);
    assert_eq!(b.errors, 2);
}

#[test]
fn duration_spread_and_sum_track_the_replies() {
    let mut b = BatchStats::new();
    assert_eq!(b.min_duration_ms, u64::MAX);
    assert_eq!(b.max_duration_ms, 0);
    b.record(ok_call(Some(80), None));
    b.record(ok_call(Some(20), None));
    b.record(ok_call(None, None));
    b.record(ok_call(Some(50), None));
    assert_eq!(b.min_duration_ms, 20);
    assert_eq!(b.max_duration_ms, 80);
    assert_eq!(b.total_duration_ms, 150);
    assert_eq!(b.duration_count, 3);
}

#[test]
fn retry_figures_count_only_replies_that_retried() {
    let mut b = BatchStats::new();
    b.record(ok_call(None, Some(0)));
    b.record(ok_call(None, Some(3)));
    b.record(ok_call(None, Some(1)));
    b.record(ok_call(None, None));
    assert_eq!(b.total_retries, 4);
    assert_eq!(b.max_retries, 3);
    assert_eq!(b.calls_with_retries, 2);
}

#[test]
fn repeated_errors_share_one_breakdown_line() {
    let mut b = BatchStats::new();
    b.record(app_error("conflict", Some("40001")));
    b.record(app_error("conflict", Some("40001")));
    b.record(app_error("conflict", Some("40001")));
    assert_eq!(b.error_breakdown.len(), 1);
    assert_eq!(b.error_breakdown[0].1, 3);
    match &b.error_breakdown[0].0 {
        ErrorKey::Application { message, code } => {
            assert_eq!(message, "conflict");
            assert_eq!(code.as_deref(), Some("40001"));
        }
        _ => panic!("expected an application line"),
    }
}

#[test]
fn distinct_errors_get_distinct_lines() {
    let mut b = BatchStats::new();
    b.record(app_error("conflict", Some("40001")));
    b.record(app_error("conflict", Some("40002")));
    b.record(app_error("conflict", None));
    b.record(app_error("no such account", Some("40001")));
    b.record(failed_dispatch("timeout"));
    b.record(failed_dispatch("timeout"));
    b.record(failed_dispatch("connection refused"));
    assert_eq!(b.error_breakdown.len(), 6);
    let timeout_line = b
        .error_breakdown
        .iter()
        .find(|(k, _)| matches!(k, ErrorKey::Dispatch { cause } if cause == "timeout"))
        .expect("a line for the timeout");
    assert_eq!(timeout_line.1, 2);
}

#[test]
fn successes_leave_the_breakdown_alone() {
    let mut b = BatchStats::new();
    b.record(ok_call(Some(10), None));
    b.record(ok_call(Some(10), None));
    assert!(b.error_breakdown.is_empty());
}

#[test]
fn dispatch_and_application_errors_with_same_text_stay_apart() {
    let mut b = BatchStats::new();
    b.record(app_error("timeout", None));
    b.record(failed_dispatch("timeout"));
    assert_eq!(b.error_breakdown.len(), 2);
}

use loadgen::metrics::MetricsAggregator;
use loadgen::outcome::CallOutcome;

fn success(duration_ms: Option<u64>, retries: Option<u32>) -> CallOutcome {
    CallOutcome::Success { duration_ms, retries }
}

fn app_error(code: Option<&str>, duration_ms: Option<u64>) -> CallOutcome {
    CallOutcome::ApplicationError {
        message: "transfer rejected".to_string(),
        code: code.map(|c| c.to_string()),
        duration_ms,
        retries: None,
    }
}

#[test]
fn counters_balance_at_every_observation_point() {
    let mut m = MetricsAggregator::new();
    let outcomes = vec![
        success(Some(50), None),
        app_error(Some("40001"), Some(70)),
        CallOutcome::DispatchFailure { cause: "connection refused".to_string() },
        success(None, Some(2)),
        app_error(None, None),
    ];
    for o in outcomes {
        m.record(o);
        let s = m.final_snapshot();
        assert_eq!(
            s.total_calls,
            s.success_count + s.application_error_count + s.dispatch_error_count
        );
    }
    let s = m.final_snapshot();
    assert_eq!(s.total_calls, 5);
    assert_eq!(s.success_count, 2);
    assert_eq!(s.application_error_count, 2);
    assert_eq!(s.dispatch_error_count, 1);
}

#[test]
fn conflict_code_is_counted_as_conflict() {
    let mut m = MetricsAggregator::new();
    m.record(app_error(Some("40001"), None));
    m.record(app_error(Some("99999"), None));
    m.record(app_error(None, None));
    let s = m.final_snapshot();
    assert_eq!(s.application_error_count, 3);
    assert_eq!(s.conflict_error_count, 1);
}

#[test]
fn durations_and_retries_are_summed() {
    let mut m = MetricsAggregator::new();
    m.record(success(Some(40), Some(1)));
    m.record(success(Some(60), Some(2)));
    m.record(app_error(Some("40001"), Some(100)));
    m.record(CallOutcome::DispatchFailure { cause: "timeout".to_string() });
    let s = m.final_snapshot();
    assert_eq!(s.summed_duration_ms, 200);
    assert_eq!(s.summed_retries, 3);
}

#[test]
fn deltas_cover_exactly_the_interval_since_the_last_read() {
    let mut m = MetricsAggregator::new();
    m.record(success(None, None));
    m.record(success(None, None));
    m.record(CallOutcome::DispatchFailure { cause: "timeout".to_string() });
    let (s1, d1) = m.snapshot_deltas();
    assert_eq!((s1, d1), (2, 1));
    let (s2, d2) = m.snapshot_deltas();
    assert_eq!((s2, d2), (0, 0));
    m.record(success(None, None));
    let (s3, d3) = m.snapshot_deltas();
    assert_eq!((s3, d3), (1, 0));
}

#[test]
fn replies_with_durations_feed_the_sample_stream() {
    let mut m = MetricsAggregator::new();
    m.record(success(Some(10), None));
    m.record(app_error(Some("40001"), Some(20)));
    m.record(success(None, None));
    m.record(CallOutcome::DispatchFailure { cause: "timeout".to_string() });
    let samples = m.take_samples();
    assert_eq!(samples, vec![10, 20]);
    assert_eq!(m.take_samples(), Vec::<u64>::new());
}

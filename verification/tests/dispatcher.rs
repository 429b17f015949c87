use loadgen::config::LoadConfig;
use loadgen::dispatcher::LoadRun;
use loadgen::outcome::CallOutcome;

fn config(rate: u32, pool: u32) -> LoadConfig {
    LoadConfig::with_default_multiplier(rate, pool).expect("a valid configuration")
}

fn ok_call(duration_ms: u64) -> CallOutcome {
    CallOutcome::Success { duration_ms: Some(duration_ms), retries: None }
}

fn conflict_call() -> CallOutcome {
    CallOutcome::ApplicationError {
        message: "serialization failure".to_string(),
        code: Some("40001".to_string()),
        duration_ms: Some(60),
        retries: Some(1),
    }
}

fn failed_dispatch() -> CallOutcome {
    CallOutcome::DispatchFailure { cause: "connection refused".to_string() }
}

/// One simulated second: take the spawn quota once, complete every admitted
/// call with the given outcome, then run the controller tick.
fn one_tick(run: &mut LoadRun, now_ms: u64, outcome_of: impl Fn() -> CallOutcome) -> u64 {
    let quota = run.spawn_quota(now_ms);
    for _ in 0..quota {
        assert!(run.can_record());
        run.call_completed(outcome_of());
    }
    run.controller_tick();
    quota
}

#[test]
fn always_succeeding_invoker_reaches_the_expected_target() {
    let mut run = LoadRun::new(config(100, 1000), 0);
    for tick in 0..10u64 {
        let quota = one_tick(&mut run, tick * 1000, || ok_call(50));
        assert!(quota <= 100);
        assert_eq!(run.in_flight, 0);
    }
    assert_eq!(run.controller.target, 110);
    let quota = run.spawn_quota(10_000);
    assert_eq!(quota, 100);
    assert_eq!(run.in_flight, 100);
}

#[test]
fn failure_on_the_third_tick_restores_the_second_ticks_level() {
    let mut run = LoadRun::new(config(100, 1000), 0);
    one_tick(&mut run, 0, || ok_call(50));
    assert_eq!(run.controller.target, 20);
    one_tick(&mut run, 1000, || ok_call(50));
    assert_eq!(run.controller.target, 30);
    assert_eq!(run.controller.last_good_target, 20);
    one_tick(&mut run, 2000, failed_dispatch);
    assert_eq!(run.controller.target, 20);
    assert_ne!(run.controller.target, 10);
}

#[test]
fn application_errors_never_decrease_the_target() {
    let mut run = LoadRun::new(config(100, 1000), 0);
    one_tick(&mut run, 0, || ok_call(50));
    let reached = run.controller.target;
    for tick in 1..5u64 {
        one_tick(&mut run, tick * 1000, conflict_call);
        assert!(run.controller.target >= reached);
    }
    let s = run.snapshot();
    assert_eq!(s.application_error_count, s.conflict_error_count);
    assert!(s.application_error_count > 0);
}

#[test]
fn books_balance_after_every_completion() {
    let mut run = LoadRun::new(config(10, 100), 0);
    let quota = run.spawn_quota(0);
    assert_eq!(quota, 10);
    let outcomes = [ok_call(40), conflict_call(), failed_dispatch()];
    for i in 0..quota {
        run.call_completed(outcomes[(i % 3) as usize].clone());
        let s = run.snapshot();
        assert_eq!(
            s.total_calls,
            s.success_count + s.application_error_count + s.dispatch_error_count
        );
    }
    assert_eq!(run.in_flight, 0);
}

#[test]
fn spawns_never_exceed_the_rate_within_one_window() {
    let mut run = LoadRun::new(config(25, 100), 0);
    // Push the target well above the rate first.
    for tick in 0..20u64 {
        one_tick(&mut run, tick * 1000, || ok_call(10));
    }
    assert!(run.controller.target > 25);
    let window_start = 20_000u64;
    let mut spawned_in_window = 0;
    for step in 0..5u64 {
        let quota = run.spawn_quota(window_start + step * 100);
        spawned_in_window += quota;
        for _ in 0..quota {
            run.call_completed(ok_call(10));
        }
    }
    assert_eq!(spawned_in_window, 25);
}

#[test]
fn after_the_stop_signal_nothing_new_starts_and_reporting_waits_for_drain() {
    let mut run = LoadRun::new(config(100, 1000), 0);
    let quota = run.spawn_quota(0);
    assert!(quota > 0);
    run.request_stop();
    assert_eq!(run.spawn_quota(1), 0);
    assert_eq!(run.spawn_quota(5000), 0);
    assert!(run.should_continue());
    assert!(!run.may_report());
    for _ in 0..quota {
        assert!(!run.may_report());
        run.call_completed(ok_call(30));
    }
    assert_eq!(run.in_flight, 0);
    assert!(!run.should_continue());
    assert!(run.may_report());
}

#[test]
fn latency_samples_reach_the_histogram_on_the_tick() {
    let mut run = LoadRun::new(config(100, 1000), 0);
    let quota = run.spawn_quota(0);
    assert_eq!(quota, 10);
    for _ in 0..quota {
        run.call_completed(ok_call(50));
    }
    assert_eq!(run.latency_histogram().len(), 0);
    run.controller_tick();
    assert_eq!(run.latency_histogram().len(), 10);
    let estimator = &run.latency_histogram().estimator;
    assert_eq!(estimator.len(), 10);
    assert!(estimator.value_at_quantile(0.5) >= 50);
}

#[test]
fn requests_use_distinct_identifiers_from_the_pool() {
    let run = LoadRun::new(config(100, 2), 0);
    for _ in 0..50 {
        let r = run.next_request();
        assert_ne!(r.payer_id, r.payee_id);
        assert!(1 <= r.payer_id && r.payer_id <= 2);
        assert!(1 <= r.payee_id && r.payee_id <= 2);
        assert_eq!(r.amount, 1);
    }
}

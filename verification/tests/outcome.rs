use loadgen::outcome::{classify, CallOutcome};
use loadgen::tpcb::Response;

fn reply(
    error: Option<&str>,
    error_code: Option<&str>,
    duration: Option<u64>,
    retries: Option<u32>,
) -> Response {
    Response {
        balance: Some(90),
        duration,
        retries,
        error: error.map(|e| e.to_string()),
        error_code: error_code.map(|c| c.to_string()),
    }
}

#[test]
fn reply_without_error_is_a_success() {
    let outcome = classify(Ok(reply(None, None, Some(55), Some(1))));
    match outcome {
        CallOutcome::Success { duration_ms, retries } => {
            assert_eq!(duration_ms, Some(55));
            assert_eq!(retries, Some(1));
        }
        _ => panic!("expected a success"),
    }
}

#[test]
fn reply_with_error_is_an_application_error() {
    let outcome = classify(Ok(reply(Some("serialization failure"), Some("40001"), Some(70), None)));
    match &outcome {
        CallOutcome::ApplicationError { message, code, duration_ms, retries } => {
            assert_eq!(message, "serialization failure");
            assert_eq!(code.as_deref(), Some("40001"));
            assert_eq!(*duration_ms, Some(70));
            assert_eq!(*retries, None);
        }
        _ => panic!("expected an application error"),
    }
    assert!(outcome.is_conflict());
}

#[test]
fn transport_error_is_a_dispatch_failure() {
    let outcome = classify(Err("dispatch failure: connection reset".to_string()));
    match outcome {
        CallOutcome::DispatchFailure { cause } => {
            assert_eq!(cause, "dispatch failure: connection reset");
        }
        _ => panic!("expected a dispatch failure"),
    }
}

#[test]
fn only_the_conflict_code_counts_as_conflict() {
    let conflict = classify(Ok(reply(Some("conflict"), Some("40001"), None, None)));
    let other = classify(Ok(reply(Some("conflict"), Some("40002"), None, None)));
    let none = classify(Ok(reply(Some("conflict"), None, None, None)));
    let ok = classify(Ok(reply(None, Some("40001"), None, None)));
    assert!(conflict.is_conflict());
    assert!(!other.is_conflict());
    assert!(!none.is_conflict());
    assert!(!ok.is_conflict());
}

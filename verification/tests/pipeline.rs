use kv_service::configuration::ApplicationSettings;
use kv_service::configuration::Settings;
use kv_service::error::ApiError;
use kv_service::middleware::classify_failure;
use kv_service::middleware::resolve_trace_id;
use kv_service::middleware::AdmissionGate;
use kv_service::middleware::DispatchFailure;
use kv_service::middleware::Pipeline;

fn settings(max_concurrent_requests: usize, request_timeout_s: u64) -> Settings {
    Settings {
        environment: String::from("local"),
        application: ApplicationSettings {
            host: String::from("127.0.0.1"),
            port: 8080,
            max_concurrent_requests,
            request_timeout_s,
        },
    }
}

#[test]
fn request_over_the_concurrency_limit_is_shed() {
    let n: usize = 3;
    let mut pipeline = Pipeline::from_settings(&settings(n, 20));

    // N concurrent requests are admitted.
    for _ in 0..n {
        assert_eq!(pipeline.try_admit(), Ok(()));
    }
    assert_eq!(pipeline.in_flight(), n);

    // The (N+1)-th is rejected with the overload classification.
    let shed = pipeline.try_admit().unwrap_err();
    assert_eq!(shed, ApiError::Overloaded);
    assert_eq!(shed.status_code(), 503);
    assert_eq!(pipeline.in_flight(), n);

    // Once one admitted request finishes, there is room again.
    pipeline.finish();
    assert_eq!(pipeline.try_admit(), Ok(()));
}

#[test]
fn gate_with_zero_capacity_sheds_everything() {
    let mut gate = AdmissionGate::new(0);
    assert!(!gate.try_admit());
    assert_eq!(gate.in_flight(), 0);
    assert_eq!(gate.capacity(), 0);
}

#[test]
fn timeout_is_reported_distinctly_from_overload() {
    let pipeline = Pipeline::from_settings(&settings(10, 20));

    // Within the deadline: no timeout.
    assert_eq!(pipeline.check_deadline(20_000), Ok(()));

    // Past the deadline: timed out, not overloaded.
    let timed_out = pipeline.check_deadline(20_001).unwrap_err();
    assert_eq!(timed_out, ApiError::TimedOut);
    assert_ne!(timed_out.status_code(), ApiError::Overloaded.status_code());
    assert_eq!(timed_out.status_code(), 408);
}

#[test]
fn dispatch_failures_are_classified_three_ways() {
    assert_eq!(
        classify_failure(&DispatchFailure::DeadlineElapsed),
        ApiError::TimedOut
    );
    assert_eq!(
        classify_failure(&DispatchFailure::Overloaded),
        ApiError::Overloaded
    );
    assert_eq!(classify_failure(&DispatchFailure::Other), ApiError::Internal);
}

#[test]
fn trace_id_from_header_is_kept() {
    let id = resolve_trace_id(Some(String::from("caller-supplied-id")));
    assert_eq!(id, String::from("caller-supplied-id"));
}

#[test]
fn generated_trace_ids_are_hyphenated_and_fresh() {
    let a = resolve_trace_id(None);
    let b = resolve_trace_id(None);
    assert_eq!(a.chars().count(), 36);
    assert_eq!(b.chars().count(), 36);
    assert_eq!(a.chars().filter(|c| *c == '-').count(), 4);
    assert_ne!(a, b);
}

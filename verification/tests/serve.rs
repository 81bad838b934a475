use bayer_axum::failure::Failure;
use bayer_axum::report::log_error;
use bayer_axum::serve::{serve_result, ServeOutcome, SERVER_ERROR, SERVER_PANIC};

#[test]
fn a_server_that_stopped_is_no_failure() {
    assert_eq!(serve_result(ServeOutcome::Completed), Ok(()));
}

#[test]
fn a_server_error_is_told_as_such() {
    let cause = Failure::new("address in use".to_string());
    let failure = serve_result(ServeOutcome::Failed(cause)).unwrap_err();
    assert_eq!(failure.text, "Server completed with error");
    assert_eq!(failure.text, SERVER_ERROR);
    assert_eq!(failure.source(), Some(&Failure::new("address in use".to_string())));
}

#[test]
fn a_panic_is_told_apart_from_an_error() {
    let cause = Failure::new("task 7 panicked".to_string());
    let failure = serve_result(ServeOutcome::Panicked(cause)).unwrap_err();
    assert_eq!(failure.text, "Server panicked");
    assert_eq!(failure.text, SERVER_PANIC);
    assert_eq!(failure.source(), Some(&Failure::new("task 7 panicked".to_string())));
}

#[test]
fn a_server_error_is_reported_with_its_causes() {
    let cause = Failure::new("os error 98".to_string()).context("error creating server listener".to_string());
    let failure = serve_result(ServeOutcome::Failed(cause)).unwrap_err();
    let record = log_error("exited with ERROR", &failure);
    assert_eq!(record.error, "Server completed with error");
    assert_eq!(record.source, Some("error creating server listener".to_string()));
    assert_eq!(record.source2, Some("os error 98".to_string()));
    assert_eq!(record.source3, None);
}

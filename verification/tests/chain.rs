use anyhow::Error;
use bayer_axum::chain::failure_of;
use bayer_axum::failure::Failure;
use bayer_axum::report::{log_error, LogRecord};
use std::fmt;

#[derive(Debug)]
struct Link {
    text: &'static str,
    cause: Option<Box<Link>>,
}

impl fmt::Display for Link {
    fn fmt(&self, f: &mut fmt::Formatter<'_>) -> fmt::Result {
        f.write_str(self.text)
    }
}

impl std::error::Error for Link {
    fn source(&self) -> Option<&(dyn std::error::Error + 'static)> {
        match &self.cause {
            Some(cause) => Some(cause.as_ref()),
            None => None,
        }
    }
}

#[derive(Debug)]
struct Circular;

impl fmt::Display for Circular {
    fn fmt(&self, f: &mut fmt::Formatter<'_>) -> fmt::Result {
        f.write_str("again")
    }
}

impl std::error::Error for Circular {
    fn source(&self) -> Option<&(dyn std::error::Error + 'static)> {
        Some(self)
    }
}

#[derive(Debug)]
struct Unprintable;

impl fmt::Display for Unprintable {
    fn fmt(&self, _: &mut fmt::Formatter<'_>) -> fmt::Result {
        Err(fmt::Error)
    }
}

impl std::error::Error for Unprintable {}

fn names(record: &LogRecord) -> Vec<String> {
    record.fields().into_iter().map(|f| f.0).collect()
}

#[test]
fn an_error_without_a_cause_is_a_failure_without_one() {
    let failure = failure_of(&Error::msg("alone"));
    assert_eq!(failure, Failure::new("alone".to_string()));
}

#[test]
fn contexts_come_before_what_they_are_about() {
    let error = Error::msg("root").context("middle").context("top");
    let failure = failure_of(&error);
    let causes = vec!["middle".to_string(), "root".to_string()];
    assert_eq!(failure, Failure::chained("top".to_string(), causes));
}

#[test]
fn the_causes_of_a_wrapped_error_are_followed() {
    let inner = Link { text: "inner", cause: None };
    let outer = Link { text: "outer", cause: Some(Box::new(inner)) };
    let failure = failure_of(&Error::new(outer).context("top"));
    let causes = vec!["outer".to_string(), "inner".to_string()];
    assert_eq!(failure, Failure::chained("top".to_string(), causes));
}

#[test]
fn no_more_than_three_causes_are_read() {
    let error = Error::msg("C5").context("C4").context("C3").context("C2").context("C1").context("top");
    let failure = failure_of(&error);
    let causes = vec!["C1".to_string(), "C2".to_string(), "C3".to_string()];
    assert_eq!(failure, Failure::chained("top".to_string(), causes));
}

#[test]
fn a_chain_of_five_is_reported_with_three_sources() {
    let error = Error::msg("C5").context("C4").context("C3").context("C2").context("C1").context("top");
    let record = log_error("exited", &failure_of(&error));
    assert_eq!(
        record,
        LogRecord {
            message: "exited".to_string(),
            error: "top".to_string(),
            source: Some("C1".to_string()),
            source2: Some("C2".to_string()),
            source3: Some("C3".to_string()),
        }
    );
    assert_eq!(names(&record), vec!["message", "error", "source", "source2", "source3"]);
}

#[test]
fn chains_of_none_one_and_two_are_reported_in_full() {
    let record = log_error("m", &failure_of(&Error::msg("top")));
    assert_eq!(names(&record), vec!["message", "error"]);
    assert_eq!(record.error, "top");
    let record = log_error("m", &failure_of(&Error::msg("C1").context("top")));
    assert_eq!(names(&record), vec!["message", "error", "source"]);
    assert_eq!(record.source, Some("C1".to_string()));
    let record = log_error("m", &failure_of(&Error::msg("C2").context("C1").context("top")));
    assert_eq!(names(&record), vec!["message", "error", "source", "source2"]);
    assert_eq!(record.source2, Some("C2".to_string()));
}

#[test]
fn a_chain_that_never_ends_is_read_to_the_third_cause() {
    let failure = failure_of(&Error::new(Circular));
    let causes = vec!["again".to_string(), "again".to_string(), "again".to_string()];
    assert_eq!(failure, Failure::chained("again".to_string(), causes));
    let record = log_error("m", &failure);
    assert_eq!(record.fields().len(), 5);
}

#[test]
fn a_link_that_cannot_be_written_out_stops_nothing() {
    let failure = failure_of(&Error::new(Unprintable).context("top"));
    assert_eq!(failure.text, "top");
    assert_eq!(failure.source().map(|cause| cause.text.clone()), Some(String::new()));
}

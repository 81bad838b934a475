//! Why the settings could not be resolved.

use vstd::prelude::*;
use crate::failure::Failure;
use crate::settings::{Field, BASE_FILE, ENVIRONMENT};
use crate::text::text_of;

verus! {

/// What is said of every failure to resolve the settings.
pub const SETTINGS_CONTEXT: &'static str = "Error creating configuration settings";

/// The stage at which resolution failed, and what failed there.
#[derive(Debug, PartialEq, Eq)]
pub enum ResolutionError {
    /// The base file is not there.
    BaseFileMissing,
    /// The base file is there and cannot be read as a document.
    BaseFileMalformed { reason: String },
    /// The selector is set to what is no text, so that the profile that it
    /// asks for has no file.
    SelectorNotText,
    /// A profile was selected and its file is not there.
    ProfileFileMissing { file: String },
    /// A profile was selected and its file cannot be read as a document.
    ProfileFileMalformed { file: String, reason: String },
    /// No layer gives the field a value.
    MissingField { field: Field },
    /// The value that the layers give the field is not one of its type;
    /// `value` is its text, where it is a single value.
    InvalidField { field: Field, value: Option<String> },
}

/// A `ResolutionError` as mathematical text.
pub enum ResolutionErrorView {
    BaseFileMissing,
    BaseFileMalformed { reason: Seq<char> },
    SelectorNotText,
    ProfileFileMissing { file: Seq<char> },
    ProfileFileMalformed { file: Seq<char>, reason: Seq<char> },
    MissingField { field: Field },
    InvalidField { field: Field, value: Option<Seq<char>> },
}

impl View for ResolutionError {
    type V = ResolutionErrorView;

    open spec fn view(&self) -> ResolutionErrorView {
        match self {
            ResolutionError::BaseFileMissing => ResolutionErrorView::BaseFileMissing,
            ResolutionError::BaseFileMalformed { reason } => ResolutionErrorView::BaseFileMalformed {
                reason: reason@,
            },
            ResolutionError::SelectorNotText => ResolutionErrorView::SelectorNotText,
            ResolutionError::ProfileFileMissing { file } => ResolutionErrorView::ProfileFileMissing {
                file: file@,
            },
            ResolutionError::ProfileFileMalformed {
                file,
                reason,
            } => ResolutionErrorView::ProfileFileMalformed { file: file@, reason: reason@ },
            ResolutionError::MissingField { field } => ResolutionErrorView::MissingField {
                field: *field,
            },
            ResolutionError::InvalidField { field, value } => ResolutionErrorView::InvalidField {
                field: *field,
                value: text_of(*value),
            },
        }
    }
}

/// That a file is not there.
pub open spec fn not_found(file: Seq<char>) -> Seq<char> {
    "configuration file \""@ + file + "\" not found"@
}

/// That a file cannot be read as a document, and why.
pub open spec fn malformed(file: Seq<char>, reason: Seq<char>) -> Seq<char> {
    "configuration file \""@ + file + "\" is malformed: "@ + reason
}

impl ResolutionErrorView {
    /// The error in words. The text names the file or the field that the
    /// error is about.
    pub open spec fn description(self) -> Seq<char> {
        match self {
            ResolutionErrorView::BaseFileMissing => not_found(BASE_FILE@),
            ResolutionErrorView::BaseFileMalformed { reason } => malformed(BASE_FILE@, reason),
            ResolutionErrorView::SelectorNotText => "the value of `"@ + ENVIRONMENT@
                + "` is no text and names no configuration file"@,
            ResolutionErrorView::ProfileFileMissing { file } => not_found(file),
            ResolutionErrorView::ProfileFileMalformed { file, reason } => malformed(file, reason),
            ResolutionErrorView::MissingField { field } => "missing field `"@ + field.key() + "`"@,
            ResolutionErrorView::InvalidField { field, value: Some(text) } => "invalid value \""@
                + text + "\" for field `"@ + field.key() + "`"@,
            ResolutionErrorView::InvalidField { field, value: None } => "field `"@ + field.key()
                + "` holds no single value"@,
        }
    }
}

/// The text that says that `file` is not there.
fn describe_not_found(file: &str) -> (text: String)
    ensures
        text@ == not_found(file@),
{
    let text = "configuration file \"".to_owned().concat(file).concat("\" not found");
    text
}

/// The text that says that `file` cannot be read, and why.
fn describe_malformed(file: &str, reason: &str) -> (text: String)
    ensures
        text@ == malformed(file@, reason@),
{
    let text = "configuration file \"".to_owned().concat(file).concat("\" is malformed: ").concat(
        reason,
    );
    text
}

impl ResolutionError {
    /// The failure that is reported for this error: `SETTINGS_CONTEXT`,
    /// caused by the error in words.
    pub fn to_failure(&self) -> (failure: Failure)
        ensures
            failure.text@ == SETTINGS_CONTEXT@,
            failure.cause matches Some(cause) && cause.text@ == self@.description()
                && cause.cause is None,
    {
        Failure::new(self.describe()).context(SETTINGS_CONTEXT.to_owned())
    }

    /// The error in words.
    pub fn describe(&self) -> (text: String)
        ensures
            text@ == self@.description(),
    {
        match self {
            ResolutionError::BaseFileMissing => describe_not_found(BASE_FILE),
            ResolutionError::BaseFileMalformed { reason } => describe_malformed(
                BASE_FILE,
                reason.as_str(),
            ),
            ResolutionError::SelectorNotText => {
                let text = "the value of `".to_owned().concat(ENVIRONMENT).concat(
                    "` is no text and names no configuration file",
                );
                text
            },
            ResolutionError::ProfileFileMissing { file } => describe_not_found(file.as_str()),
            ResolutionError::ProfileFileMalformed { file, reason } => describe_malformed(
                file.as_str(),
                reason.as_str(),
            ),
            ResolutionError::MissingField { field } => {
                let text = "missing field `".to_owned().concat(field.name()).concat("`");
                text
            },
            ResolutionError::InvalidField { field, value: Some(value) } => {
                let text = "invalid value \"".to_owned().concat(value.as_str()).concat(
                    "\" for field `",
                ).concat(field.name()).concat("`");
                text
            },
            ResolutionError::InvalidField { field, value: None } => {
                let text = "field `".to_owned().concat(field.name()).concat(
                    "` holds no single value",
                );
                text
            },
        }
    }
}

} // verus!

//! Error values of workflow execution.

use vstd::prelude::*;
use vstd::std_specs::convert::FromSpecImpl;

verus! {

/// The outcome of a step that did not produce its output.
#[derive(Debug)]
pub enum Error {
    /// A checkpoint was reached, pausing execution. This is a deliberate
    /// pause, not a fault.
    Checkpoint {
        /// The name of the checkpoint step.
        step_name: String,
        /// The value that reached the checkpoint, as a JSON value.
        data: serde_json::Value,
    },
    /// The caller misused the library.
    Validation(String),
    /// A step failed internally.
    Execution(String),
    /// A JSON serialization or deserialization failure, described by the
    /// message of the JSON error.
    Json(String),
    /// A failure described by free-form text.
    Message(String),
}

/// A specialized `Result` type for workflow operations.
pub type Result<T> = core::result::Result<T, Error>;

impl Error {
    /// The rendering of this error for people.
    pub open spec fn text(self) -> Seq<char> {
        match self {
            Error::Checkpoint { step_name, .. } => "Checkpoint reached at step '"@ + step_name@
                + "'"@,
            Error::Validation(message) => "Validation error: "@ + message@,
            Error::Execution(message) => "Execution error: "@ + message@,
            Error::Json(message) => "JSON error: "@ + message@,
            Error::Message(message) => message@,
        }
    }

    /// Whether this error is a checkpoint rather than a fault.
    pub fn is_checkpoint(&self) -> (paused: bool)
        ensures
            paused == (*self is Checkpoint),
    {
        match self {
            Error::Checkpoint { .. } => true,
            _ => false,
        }
    }

    /// Renders the error for people.
    pub fn describe(&self) -> (text: String)
        ensures
            text@ == self.text(),
    {
        match self {
            Error::Checkpoint { step_name, .. } => {
                String::from_str("Checkpoint reached at step '").concat(step_name.as_str()).concat(
                    "'",
                )
            },
            Error::Validation(message) => {
                String::from_str("Validation error: ").concat(message.as_str())
            },
            Error::Execution(message) => {
                String::from_str("Execution error: ").concat(message.as_str())
            },
            Error::Json(message) => String::from_str("JSON error: ").concat(message.as_str()),
            Error::Message(message) => message.clone(),
        }
    }
}

impl From<String> for Error {
    fn from(msg: String) -> (error: Error) {
        Error::Message(msg)
    }
}

impl FromSpecImpl<String> for Error {
    open spec fn obeys_from_spec() -> bool {
        true
    }

    open spec fn from_spec(msg: String) -> Error {
        Error::Message(msg)
    }
}

impl<'a> From<&'a str> for Error {
    fn from(msg: &'a str) -> (error: Error)
        ensures
            error matches Error::Message(text) && text@ == msg@,
    {
        Error::Message(String::from_str(msg))
    }
}

impl<'a> FromSpecImpl<&'a str> for Error {
    /// The owned text is only known by its content, so the conversion is
    /// described by the `ensures` of `from` rather than by a spec function.
    open spec fn obeys_from_spec() -> bool {
        false
    }

    open spec fn from_spec(msg: &'a str) -> Error {
        arbitrary()
    }
}

} // verus!

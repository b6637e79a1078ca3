//! The ways a command can fail, and how each failure is shown.

use vstd::prelude::*;
use vstd::string::*;

verus! {

/// A command line that names no step to run.
#[derive(Debug, PartialEq, Eq)]
pub enum UsageError {
    /// No subcommand was given.
    NoSubcommand,
    /// A subcommand was given that the tool does not have.
    UnknownCommand { name: String },
    /// `paste` was given without a destination.
    MissingDestination,
}

/// Why a command stopped. Every variant ends the whole command: nothing is
/// retried and nothing is done by halves.
#[derive(Debug, PartialEq, Eq)]
pub enum Failure {
    /// The config file is absent or cannot be opened.
    ConfigMissing { detail: String },
    /// The config file is not TOML that holds a token.
    ConfigMalformed,
    /// The config file or its directory cannot be written.
    ConfigWriteError { detail: String },
    /// Reading standard input failed.
    InputReadError { detail: String },
    /// Slack did not take the message; `detail` is what it answered.
    DeliveryError { detail: String },
    /// The command line is not one the tool accepts.
    UsageError(UsageError),
}

/// `UsageError` over character sequences.
pub enum UsageErrorView {
    NoSubcommand,
    UnknownCommand { name: Seq<char> },
    MissingDestination,
}

/// `Failure` over character sequences.
pub enum FailureView {
    ConfigMissing { detail: Seq<char> },
    ConfigMalformed,
    ConfigWriteError { detail: Seq<char> },
    InputReadError { detail: Seq<char> },
    DeliveryError { detail: Seq<char> },
    UsageError(UsageErrorView),
}

impl View for UsageError {
    type V = UsageErrorView;

    open spec fn view(&self) -> UsageErrorView {
        match self {
            UsageError::NoSubcommand => UsageErrorView::NoSubcommand,
            UsageError::UnknownCommand { name } => UsageErrorView::UnknownCommand { name: name@ },
            UsageError::MissingDestination => UsageErrorView::MissingDestination,
        }
    }
}

impl View for Failure {
    type V = FailureView;

    open spec fn view(&self) -> FailureView {
        match self {
            Failure::ConfigMissing { detail } => FailureView::ConfigMissing { detail: detail@ },
            Failure::ConfigMalformed => FailureView::ConfigMalformed,
            Failure::ConfigWriteError { detail } => FailureView::ConfigWriteError { detail: detail@ },
            Failure::InputReadError { detail } => FailureView::InputReadError { detail: detail@ },
            Failure::DeliveryError { detail } => FailureView::DeliveryError { detail: detail@ },
            Failure::UsageError(usage) => FailureView::UsageError(usage@),
        }
    }
}

impl UsageErrorView {
    /// The line shown for a usage error.
    pub open spec fn message(self) -> Seq<char> {
        match self {
            UsageErrorView::NoSubcommand => "No command given"@,
            UsageErrorView::UnknownCommand { name } => "Unknown command: "@ + name,
            UsageErrorView::MissingDestination => "No destination!"@,
        }
    }
}

impl FailureView {
    /// The line shown for an error: what failed, then the cause as it was
    /// reported, unchanged.
    pub open spec fn message(self) -> Seq<char> {
        match self {
            FailureView::ConfigMissing { detail } => "Cannot read the config file: "@ + detail,
            FailureView::ConfigMalformed => "The config file holds no slack_token in valid TOML"@,
            FailureView::ConfigWriteError { detail } => "Cannot write the config file: "@ + detail,
            FailureView::InputReadError { detail } => "Cannot read the input: "@ + detail,
            FailureView::DeliveryError { detail } => "Cannot deliver the message: "@ + detail,
            FailureView::UsageError(usage) => usage.message(),
        }
    }

    /// The status the process ends with. A missing subcommand ends with -1,
    /// after the usage text; every other error with 1.
    pub open spec fn exit_code(self) -> int {
        match self {
            FailureView::UsageError(UsageErrorView::NoSubcommand) => -1,
            _ => 1,
        }
    }
}

/// The view of a fallible result: of the value where there is one, of the
/// failure where there is none.
pub open spec fn result_view<T: View, E: View>(result: Result<T, E>) -> Result<T::V, E::V> {
    match result {
        Ok(value) => Ok(value@),
        Err(failure) => Err(failure@),
    }
}

/// `head` followed by `tail`.
fn join(head: &str, tail: &str) -> (text: String)
    ensures
        text@ == head@ + tail@,
{
    let mut text = String::from_str(head);
    text.append(tail);
    text
}

impl UsageError {
    /// The line to show for this error.
    pub fn message(&self) -> (text: String)
        ensures
            text@ == self@.message(),
    {
        match self {
            UsageError::NoSubcommand => String::from_str("No command given"),
            UsageError::UnknownCommand { name } => join("Unknown command: ", name.as_str()),
            UsageError::MissingDestination => String::from_str("No destination!"),
        }
    }
}

impl Failure {
    /// The line to show for this error on the error stream.
    pub fn message(&self) -> (text: String)
        ensures
            text@ == self@.message(),
    {
        match self {
            Failure::ConfigMissing { detail } => join(
                "Cannot read the config file: ",
                detail.as_str(),
            ),
            Failure::ConfigMalformed => String::from_str(
                "The config file holds no slack_token in valid TOML",
            ),
            Failure::ConfigWriteError { detail } => join(
                "Cannot write the config file: ",
                detail.as_str(),
            ),
            Failure::InputReadError { detail } => join("Cannot read the input: ", detail.as_str()),
            Failure::DeliveryError { detail } => join(
                "Cannot deliver the message: ",
                detail.as_str(),
            ),
            Failure::UsageError(usage) => usage.message(),
        }
    }

    /// The status to end the process with; never 0.
    pub fn exit_code(&self) -> (code: i32)
        ensures
            code == self@.exit_code(),
            code != 0,
    {
        match self {
            Failure::UsageError(UsageError::NoSubcommand) => -1,
            _ => 1,
        }
    }
}

/// The status for a finished command: 0 exactly when it succeeded.
pub fn exit_status(outcome: &Result<(), Failure>) -> (code: i32)
    ensures
        code == 0 <==> outcome is Ok,
        outcome matches Err(error) ==> code == error@.exit_code(),
{
    match outcome {
        Ok(_) => 0,
        Err(error) => error.exit_code(),
    }
}

/// The message of a delivery failure ends with the remote detail, whole.
pub proof fn lemma_delivery_message_keeps_detail(detail: Seq<char>)
    ensures
        ({
            let text = (FailureView::DeliveryError { detail }).message();
            &&& text.len() >= detail.len()
            &&& text.subrange(text.len() - detail.len(), text.len() as int) == detail
        }),
{
}

} // verus!

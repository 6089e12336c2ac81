//! The failures that a setup run can report.

use vstd::prelude::*;
use vstd::string::*;

verus! {

/// Why an operation of the assistant did not succeed.
#[derive(Debug, Clone, PartialEq, Eq)]
pub enum SetupError {
    /// The program could not be found or started.
    SpawnFailed,
    /// The program ran and reported failure; both captured streams are kept
    /// for the diagnostic.
    NonZeroExit { stdout: String, stderr: String },
    /// The input meant for the program could not be written to it in full.
    StdinWriteFailed,
    /// A required variable of the environment is absent or empty.
    MissingVariable { name: String },
    /// The home directory named by the environment does not exist.
    InvalidHome { path: String },
    /// The source path has no file name component.
    InvalidSourceName,
    /// The source file is missing or could not be read.
    SourceUnreadable,
    /// The destination could not be written.
    DestinationWriteFailed,
}

/// Mathematical value of a [`SetupError`].
pub enum SetupErrorView {
    SpawnFailed,
    NonZeroExit { stdout: Seq<char>, stderr: Seq<char> },
    StdinWriteFailed,
    MissingVariable { name: Seq<char> },
    InvalidHome { path: Seq<char> },
    InvalidSourceName,
    SourceUnreadable,
    DestinationWriteFailed,
}

impl View for SetupError {
    type V = SetupErrorView;

    open spec fn view(&self) -> SetupErrorView {
        match *self {
            SetupError::SpawnFailed => SetupErrorView::SpawnFailed,
            SetupError::NonZeroExit { stdout, stderr } => SetupErrorView::NonZeroExit {
                stdout: stdout@,
                stderr: stderr@,
            },
            SetupError::StdinWriteFailed => SetupErrorView::StdinWriteFailed,
            SetupError::MissingVariable { name } => SetupErrorView::MissingVariable { name: name@ },
            SetupError::InvalidHome { path } => SetupErrorView::InvalidHome { path: path@ },
            SetupError::InvalidSourceName => SetupErrorView::InvalidSourceName,
            SetupError::SourceUnreadable => SetupErrorView::SourceUnreadable,
            SetupError::DestinationWriteFailed => SetupErrorView::DestinationWriteFailed,
        }
    }
}

impl SetupErrorView {
    /// The failure in words.
    pub open spec fn text(self) -> Seq<char> {
        match self {
            SetupErrorView::SpawnFailed => "the program could not be started"@,
            SetupErrorView::NonZeroExit { stdout, stderr } => {
                "the program reported failure\nstdout: "@ + stdout + "\nstderr: "@ + stderr
            },
            SetupErrorView::StdinWriteFailed => "the input of the program could not be written"@,
            SetupErrorView::MissingVariable { name } => "the variable "@ + name + " is not set"@,
            SetupErrorView::InvalidHome { path } => "the home directory "@ + path
                + " does not exist"@,
            SetupErrorView::InvalidSourceName => "the source path has no file name"@,
            SetupErrorView::SourceUnreadable => "the source file is missing or cannot be read"@,
            SetupErrorView::DestinationWriteFailed => "the destination could not be written"@,
        }
    }
}

impl SetupError {
    /// The failure in words, for the operator.
    pub fn describe(&self) -> (text: String)
        ensures
            text@ == self@.text(),
    {
        match self {
            SetupError::SpawnFailed => "the program could not be started".to_owned(),
            SetupError::NonZeroExit { stdout, stderr } => {
                let mut text = "the program reported failure\nstdout: ".to_owned();
                text.append(stdout.as_str());
                text.append("\nstderr: ");
                text.append(stderr.as_str());
                text
            },
            SetupError::StdinWriteFailed => {
                "the input of the program could not be written".to_owned()
            },
            SetupError::MissingVariable { name } => {
                let mut text = "the variable ".to_owned();
                text.append(name.as_str());
                text.append(" is not set");
                text
            },
            SetupError::InvalidHome { path } => {
                let mut text = "the home directory ".to_owned();
                text.append(path.as_str());
                text.append(" does not exist");
                text
            },
            SetupError::InvalidSourceName => "the source path has no file name".to_owned(),
            SetupError::SourceUnreadable => {
                "the source file is missing or cannot be read".to_owned()
            },
            SetupError::DestinationWriteFailed => "the destination could not be written".to_owned(),
        }
    }
}

/// Mathematical value of the result of an operation that yields nothing on
/// success.
pub open spec fn verdict_view(result: Result<(), SetupError>) -> Result<(), SetupErrorView> {
    match result {
        Ok(_) => Ok(()),
        Err(e) => Err(e@),
    }
}

/// The status that a step reports for `result`: `0` for success, `1` for any
/// failure.
pub open spec fn status_of(result: Result<(), SetupErrorView>) -> i8 {
    if result is Ok {
        0i8
    } else {
        1i8
    }
}

/// Maps the outcome of a step to its status code. This is the one place where
/// a structured failure becomes a number.
pub fn step_status(result: &Result<(), SetupError>) -> (status: i8)
    ensures
        status == status_of(verdict_view(*result)),
        status == 0 <==> *result is Ok,
{
    match result {
        Ok(_) => 0,
        Err(_) => 1,
    }
}

} // verus!

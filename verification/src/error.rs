//! The failures that the shell reports, and the message each one carries to
//! the caller.

use vstd::prelude::*;
use crate::text::{decimal_digits, decimal_text};

verus! {

/// A failure of the shell. None of them ends the application: the first two
/// arise at startup and leave it running without a backend of its own, the
/// others are handed to the caller of the operation that failed.
#[derive(Clone, Debug, PartialEq, Eq)]
pub enum ShellError {
    /// The directory that holds the backend could not be determined.
    PathResolution(String),
    /// The operating system refused to start the backend; holds its message.
    Spawn(String),
    /// A request named a method that the bridge does not forward; holds the
    /// method as it was given.
    UnsupportedMethod(String),
    /// No response came back from the backend; holds the client's
    /// description.
    Transport(String),
    /// The backend answered with a status outside the success range.
    Backend { status: u16, body: String },
    /// The operating system refused to start the program that opens a path.
    Launch(String),
}

/// What a [`ShellError`] holds, as mathematical values.
pub enum ShellErrorView {
    PathResolution(Seq<char>),
    Spawn(Seq<char>),
    UnsupportedMethod(Seq<char>),
    Transport(Seq<char>),
    Backend { status: u16, body: Seq<char> },
    Launch(Seq<char>),
}

impl View for ShellError {
    type V = ShellErrorView;

    open spec fn view(&self) -> ShellErrorView {
        match *self {
            ShellError::PathResolution(reason) => ShellErrorView::PathResolution(reason@),
            ShellError::Spawn(reason) => ShellErrorView::Spawn(reason@),
            ShellError::UnsupportedMethod(method) => ShellErrorView::UnsupportedMethod(method@),
            ShellError::Transport(reason) => ShellErrorView::Transport(reason@),
            ShellError::Backend { status, body } => ShellErrorView::Backend {
                status,
                body: body@,
            },
            ShellError::Launch(reason) => ShellErrorView::Launch(reason@),
        }
    }
}

impl ShellErrorView {
    /// The message of a failure: the reason as it was given for a path, a
    /// transport or a launch failure, and a fixed lead before the reason, the
    /// method, or the status and body for the others.
    pub open spec fn message(self) -> Seq<char> {
        match self {
            ShellErrorView::PathResolution(reason) => reason,
            ShellErrorView::Spawn(reason) => "Failed to start Python backend: "@ + reason,
            ShellErrorView::UnsupportedMethod(method) => "Unsupported method: "@ + method,
            ShellErrorView::Transport(reason) => reason,
            ShellErrorView::Backend { status, body } => "HTTP "@ + decimal_digits(status as nat)
                + ": "@ + body,
            ShellErrorView::Launch(reason) => reason,
        }
    }
}

impl ShellError {
    /// The message that the caller is shown.
    pub fn message(&self) -> (text: String)
        ensures
            text@ == self@.message(),
    {
        match self {
            ShellError::PathResolution(reason) => reason.clone(),
            ShellError::Spawn(reason) => {
                String::from_str("Failed to start Python backend: ").concat(reason.as_str())
            },
            ShellError::UnsupportedMethod(method) => {
                String::from_str("Unsupported method: ").concat(method.as_str())
            },
            ShellError::Transport(reason) => reason.clone(),
            ShellError::Backend { status, body } => {
                let number = decimal_text(*status);
                String::from_str("HTTP ").concat(number.as_str()).concat(": ").concat(
                    body.as_str(),
                )
            },
            ShellError::Launch(reason) => reason.clone(),
        }
    }
}

} // verus!

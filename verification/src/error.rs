//! What starting the worker and calling it can fail with, and the sentence
//! that each failure is reported with.

use vstd::prelude::*;
use vstd::string::*;

verus! {

/// Why the worker could not be started.
#[derive(Debug, PartialEq, Eq)]
pub enum SpawnError {
    /// The executable could not be launched; the text is the system's reason.
    Launch(String),
    /// The worker started without a pipe to its standard input.
    NoStdin,
    /// The worker started without a pipe from its standard output.
    NoStdout,
}

/// The step of sending a request line at which the pipe failed.
#[derive(Debug, Clone, Copy, PartialEq, Eq, Structural)]
pub enum WriteStage {
    /// Writing the line and its line feed.
    Write,
    /// Flushing the pipe after the write.
    Flush,
}

/// Why a call did not return the worker's answer.
#[derive(Debug, PartialEq, Eq)]
pub enum CallError {
    /// No worker has been started, so there is no pipe to write to.
    NotRunning,
    /// The request could not be printed as JSON; the text is the reason.
    Encode(String),
    /// The pipe to the worker refused the request; the text is the reason.
    WriteFailed(WriteStage, String),
    /// The slot of the call was given up before an answer arrived.
    Disconnected,
}

/// The sentence that reports a [`SpawnError`].
pub open spec fn spawn_error_message(error: SpawnError) -> Seq<char> {
    match error {
        SpawnError::Launch(reason) => "Failed to spawn sidecar: "@ + reason@,
        SpawnError::NoStdin => "Failed to get sidecar stdin"@,
        SpawnError::NoStdout => "Failed to get sidecar stdout"@,
    }
}

/// The sentence that reports a [`CallError`].
pub open spec fn call_error_message(error: CallError) -> Seq<char> {
    match error {
        CallError::NotRunning => "Sidecar not running"@,
        CallError::Encode(reason) => reason@,
        CallError::WriteFailed(WriteStage::Write, reason) => "Failed to write to sidecar: "@
            + reason@,
        CallError::WriteFailed(WriteStage::Flush, reason) => "Failed to flush sidecar stdin: "@
            + reason@,
        CallError::Disconnected => "Sidecar response channel closed"@,
    }
}

impl SpawnError {
    /// The failure as a sentence for the user.
    pub fn message(&self) -> (text: String)
        ensures
            text@ == spawn_error_message(*self),
    {
        match self {
            SpawnError::Launch(reason) => {
                let text = String::from_str("Failed to spawn sidecar: ");
                text.concat(reason.as_str())
            },
            SpawnError::NoStdin => String::from_str("Failed to get sidecar stdin"),
            SpawnError::NoStdout => String::from_str("Failed to get sidecar stdout"),
        }
    }
}

impl CallError {
    /// The failure as a sentence for the user.
    pub fn message(&self) -> (text: String)
        ensures
            text@ == call_error_message(*self),
    {
        match self {
            CallError::NotRunning => String::from_str("Sidecar not running"),
            CallError::Encode(reason) => reason.clone(),
            CallError::WriteFailed(WriteStage::Write, reason) => {
                let text = String::from_str("Failed to write to sidecar: ");
                text.concat(reason.as_str())
            },
            CallError::WriteFailed(WriteStage::Flush, reason) => {
                let text = String::from_str("Failed to flush sidecar stdin: ");
                text.concat(reason.as_str())
            },
            CallError::Disconnected => String::from_str("Sidecar response channel closed"),
        }
    }
}

} // verus!

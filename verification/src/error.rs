//! The ways a session can fail.

use vstd::prelude::*;

verus! {

/// What went wrong. Every one of these ends the program; none is tried again.
#[derive(Clone, Copy, Debug, PartialEq, Eq, Structural)]
pub enum ErrorKind {
    /// No path was given on the command line.
    ArgumentMissing,
    /// The file could not be opened for reading and writing.
    FileOpenError,
    /// The file was opened, but its contents could not be read as text.
    FileReadError,
    /// The terminal refused a request: to change its mode, to draw, or to wait
    /// for a key.
    TerminalModeError,
    /// The document could not be written back.
    FileWriteError,
}

impl ErrorKind {
    /// The words that name the failed operation.
    pub open spec fn diagnostic(self) -> Seq<char> {
        match self {
            ErrorKind::ArgumentMissing => "path to file not provided"@,
            ErrorKind::FileOpenError => "failed to open file"@,
            ErrorKind::FileReadError => "failed to read file contents"@,
            ErrorKind::TerminalModeError => "terminal request failed"@,
            ErrorKind::FileWriteError => "failed to save changes"@,
        }
    }

    /// A short message that names the failed operation, for the caller to print
    /// together with the underlying cause.
    pub fn message(&self) -> (text: &'static str)
        ensures
            text@ == self.diagnostic(),
    {
        match self {
            ErrorKind::ArgumentMissing => "path to file not provided",
            ErrorKind::FileOpenError => "failed to open file",
            ErrorKind::FileReadError => "failed to read file contents",
            ErrorKind::TerminalModeError => "terminal request failed",
            ErrorKind::FileWriteError => "failed to save changes",
        }
    }
}

/// The status a program exits with: zero after a clean run, one after any
/// failure.
pub open spec fn exit_code(error: Option<ErrorKind>) -> int {
    if error is None {
        0
    } else {
        1
    }
}

/// The status to exit with, given the failure, if any, that ended the run.
pub fn exit_status(error: Option<ErrorKind>) -> (code: i32)
    ensures
        code == exit_code(error),
{
    match error {
        None => 0,
        Some(_) => 1,
    }
}

} // verus!

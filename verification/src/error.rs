//! The failures that a command reports.

use vstd::prelude::*;
use vstd::string::StringExecFns;

verus! {

/// The part of the system that refused.
#[derive(Clone, Copy, Debug, PartialEq, Eq, Structural)]
pub enum ErrorKind {
    /// The filesystem.
    Io,
    /// The window manager.
    Window,
    /// The notification centre.
    Notification,
    /// The opener for URLs and files.
    Shell,
    /// The lookup of a standard directory.
    PathResolution,
}

/// A failed command: who refused, and the message shown to the caller.
#[derive(Debug, PartialEq, Eq)]
pub struct CommandError {
    pub kind: ErrorKind,
    pub message: String,
}

/// A `CommandError` with its message as a sequence of characters.
pub struct CommandErrorView {
    pub kind: ErrorKind,
    pub message: Seq<char>,
}

impl View for CommandError {
    type V = CommandErrorView;

    open spec fn view(&self) -> CommandErrorView {
        CommandErrorView { kind: self.kind, message: self.message@ }
    }
}

/// The message of a failure with a cause: what was attempted, a colon and a
/// space, then the words of the operating system.
pub open spec fn described(attempt: Seq<char>, cause: Seq<char>) -> Seq<char> {
    attempt + ": "@ + cause
}

impl CommandError {
    /// A failure of `kind` whose message is `attempt`, followed by the cause.
    pub fn with_cause(kind: ErrorKind, attempt: &str, cause: &str) -> (e: CommandError)
        ensures
            e@ == (CommandErrorView { kind, message: described(attempt@, cause@) }),
    {
        let message = String::from_str(attempt).concat(": ").concat(cause);
        CommandError { kind, message }
    }

    /// A failure of `kind` for which the operating system gave no cause.
    pub fn without_cause(kind: ErrorKind, attempt: &str) -> (e: CommandError)
        ensures
            e@ == (CommandErrorView { kind, message: attempt@ }),
    {
        CommandError { kind, message: String::from_str(attempt) }
    }

    /// The message alone, as the front end receives it.
    pub fn into_message(self) -> (m: String)
        ensures
            m == self.message,
    {
        self.message
    }
}

} // verus!

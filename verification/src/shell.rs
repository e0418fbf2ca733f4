//! Notifications, the opener for URLs and files, and standard directories.

use vstd::prelude::*;
use vstd::string::StringExecFns;
use crate::error::{described, CommandError, CommandErrorView, ErrorKind};

verus! {

/// The identifier under which the application posts notifications.
pub open spec fn application_identifier() -> Seq<char> {
    "com.inspiration-blog-writer.app"@
}

/// A notification to post.
#[derive(Debug, PartialEq, Eq)]
pub struct Notification {
    pub identifier: String,
    pub title: String,
    pub body: String,
}

/// The notification that the command `show_notification` posts: title and
/// body as given, under the application's identifier.
pub fn show_notification(title: String, body: String) -> (notification: Notification)
    ensures
        notification.identifier@ == application_identifier(),
        notification.title == title,
        notification.body == body,
{
    Notification { identifier: String::from_str("com.inspiration-blog-writer.app"), title, body }
}

/// The reply of `show_notification`: nothing, or a `Notification` failure
/// that carries the cause.
pub fn notification_reply(outcome: Result<(), String>) -> (reply: Result<(), CommandError>)
    ensures
        match outcome {
            Ok(_) => reply is Ok,
            Err(cause) => reply matches Err(e) && e@ == (CommandErrorView {
                kind: ErrorKind::Notification,
                message: described("Failed to show notification"@, cause@),
            }),
        },
{
    match outcome {
        Ok(_) => Ok(()),
        Err(cause) => Err(
            CommandError::with_cause(
                ErrorKind::Notification,
                "Failed to show notification",
                cause.as_str(),
            ),
        ),
    }
}

/// A command that hands something to the opener of the operating system.
#[derive(Clone, Copy, Debug, PartialEq, Eq, Structural)]
pub enum ShellOp {
    OpenUrl,
    OpenInDefaultEditor,
    ShowInFileManager,
}

impl ShellOp {
    /// What the failure message says was attempted.
    pub open spec fn attempt(self) -> Seq<char> {
        match self {
            ShellOp::OpenUrl => "Failed to open URL"@,
            ShellOp::OpenInDefaultEditor => "Failed to open in default editor"@,
            ShellOp::ShowInFileManager => "Failed to show in file manager"@,
        }
    }

    fn attempt_text(self) -> (text: &'static str)
        ensures
            text@ == self.attempt(),
    {
        match self {
            ShellOp::OpenUrl => "Failed to open URL",
            ShellOp::OpenInDefaultEditor => "Failed to open in default editor",
            ShellOp::ShowInFileManager => "Failed to show in file manager",
        }
    }

    /// What the opener is given for `argument`: a URL as it is, a path behind
    /// `file://`. Neither is validated.
    pub open spec fn target(self, argument: Seq<char>) -> Seq<char> {
        match self {
            ShellOp::OpenUrl => argument,
            ShellOp::OpenInDefaultEditor => "file://"@ + argument,
            ShellOp::ShowInFileManager => "file://"@ + argument,
        }
    }
}

/// What the opener is given for the argument of the command `op`. Opening in
/// the default editor and showing in the file manager give the same target.
pub fn shell_target(op: ShellOp, argument: &str) -> (target: String)
    ensures
        target@ == op.target(argument@),
{
    match op {
        ShellOp::OpenUrl => String::from_str(argument),
        ShellOp::OpenInDefaultEditor => String::from_str("file://").concat(argument),
        ShellOp::ShowInFileManager => String::from_str("file://").concat(argument),
    }
}

/// The reply of a command that used the opener: nothing, or a `Shell`
/// failure that names the command and carries the cause.
pub fn shell_reply(op: ShellOp, outcome: Result<(), String>) -> (reply: Result<(), CommandError>)
    ensures
        match outcome {
            Ok(_) => reply is Ok,
            Err(cause) => reply matches Err(e) && e@ == (CommandErrorView {
                kind: ErrorKind::Shell,
                message: described(op.attempt(), cause@),
            }),
        },
{
    match outcome {
        Ok(_) => Ok(()),
        Err(cause) => Err(
            CommandError::with_cause(ErrorKind::Shell, op.attempt_text(), cause.as_str()),
        ),
    }
}

/// A directory that the operating system keeps for each user.
#[derive(Clone, Copy, Debug, PartialEq, Eq, Structural)]
pub enum StandardDir {
    AppData,
    Documents,
}

impl StandardDir {
    /// The message when the directory cannot be resolved.
    pub open spec fn attempt(self) -> Seq<char> {
        match self {
            StandardDir::AppData => "Failed to get app data directory"@,
            StandardDir::Documents => "Failed to get documents directory"@,
        }
    }

    fn attempt_text(self) -> (text: &'static str)
        ensures
            text@ == self.attempt(),
    {
        match self {
            StandardDir::AppData => "Failed to get app data directory",
            StandardDir::Documents => "Failed to get documents directory",
        }
    }
}

/// The reply of `get_app_data_dir` and `get_documents_dir`: the path that the
/// operating system resolved, or a `PathResolution` failure if it resolved
/// none.
pub fn directory_reply(dir: StandardDir, resolved: Option<String>) -> (reply: Result<
    String,
    CommandError,
>)
    ensures
        match resolved {
            Some(path) => reply == Ok::<String, CommandError>(path),
            None => reply matches Err(e) && e@ == (CommandErrorView {
                kind: ErrorKind::PathResolution,
                message: dir.attempt(),
            }),
        },
{
    match resolved {
        Some(path) => Ok(path),
        None => Err(CommandError::without_cause(ErrorKind::PathResolution, dir.attempt_text())),
    }
}

} // verus!

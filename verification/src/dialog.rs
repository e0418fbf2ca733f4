//! The two file dialogs.
//!
//! A dialog blocks on the user, so the host shows it. What the library
//! decides is which dialog to show (`DialogRequest`) and what follows from
//! the user's answer: for the open dialog the command's reply, for the save
//! dialog either the reply or a file to write and, after that, the reply.

use vstd::prelude::*;
use serde_json::Value;
use crate::error::{described, CommandError, CommandErrorView, ErrorKind};
use crate::options::{
    filter_views, options_of, text_view, DialogOptions, DialogOptionsView, FileFilter,
    FileFilterView,
};

verus! {

/// Which of the two pickers a request is for.
#[derive(Clone, Copy, Debug, PartialEq, Eq, Structural)]
pub enum DialogKind {
    /// Pick an existing file.
    Open,
    /// Pick where to save.
    Save,
}

/// A dialog to show: the picker, the file name it starts with, its title, and
/// the filters it applies, in this order.
#[derive(Debug, PartialEq, Eq)]
pub struct DialogRequest {
    pub kind: DialogKind,
    pub default_name: Option<String>,
    pub title: Option<String>,
    pub filters: Vec<FileFilter>,
}

/// A `DialogRequest` as sequences of characters.
pub struct DialogRequestView {
    pub kind: DialogKind,
    pub default_name: Option<Seq<char>>,
    pub title: Option<Seq<char>>,
    pub filters: Seq<FileFilterView>,
}

impl View for DialogRequest {
    type V = DialogRequestView;

    open spec fn view(&self) -> DialogRequestView {
        DialogRequestView {
            kind: self.kind,
            default_name: text_view(self.default_name),
            title: text_view(self.title),
            filters: filter_views(self.filters@),
        }
    }
}

/// The open dialog for `options`: their title and filters, no file name.
pub open spec fn open_request(options: DialogOptionsView) -> DialogRequestView {
    DialogRequestView {
        kind: DialogKind::Open,
        default_name: None,
        title: options.title,
        filters: options.filters,
    }
}

/// The save dialog for `options`, starting at `default_name`.
pub open spec fn save_request(
    default_name: Seq<char>,
    options: DialogOptionsView,
) -> DialogRequestView {
    DialogRequestView {
        kind: DialogKind::Save,
        default_name: Some(default_name),
        title: options.title,
        filters: options.filters,
    }
}

impl DialogRequest {
    /// The open dialog for decoded options. Their `multiple` is dropped here.
    pub fn open(options: DialogOptions) -> (request: DialogRequest)
        ensures
            request@ == open_request(options@),
    {
        DialogRequest {
            kind: DialogKind::Open,
            default_name: None,
            title: options.title,
            filters: options.filters,
        }
    }

    /// The save dialog for decoded options, starting at `default_name`.
    pub fn save(default_name: String, options: DialogOptions) -> (request: DialogRequest)
        ensures
            request@ == save_request(default_name@, options@),
    {
        DialogRequest {
            kind: DialogKind::Save,
            default_name: Some(default_name),
            title: options.title,
            filters: options.filters,
        }
    }
}

/// The dialog that the command `open_file_dialog` shows for its options.
pub fn open_file_dialog(options: Option<&Value>) -> (request: DialogRequest)
    ensures
        request@ == open_request(options_of(options)),
{
    DialogRequest::open(DialogOptions::decode(options))
}

/// The reply of `open_file_dialog` once the user has answered: the chosen
/// path, or none after a cancel. The command never fails.
pub fn open_file_picked(picked: Option<String>) -> (reply: Result<Option<String>, CommandError>)
    ensures
        reply == Ok::<Option<String>, CommandError>(picked),
{
    Ok(picked)
}

/// The dialog that the command `save_file_dialog` shows for its options.
pub fn save_file_dialog(default_name: String, options: Option<&Value>) -> (request:
    DialogRequest)
    ensures
        request@ == save_request(default_name@, options_of(options)),
{
    DialogRequest::save(default_name, DialogOptions::decode(options))
}

/// What `save_file_dialog` does once the user has answered.
#[derive(Debug, PartialEq, Eq)]
pub enum SaveStep {
    /// Nothing is written; this is the command's reply.
    Reply(Result<Option<String>, CommandError>),
    /// Write `content` to `path`, then hand the outcome to `save_file_written`.
    Write { path: String, content: String },
}

/// Decides what follows the save dialog. After a cancel the command replies
/// with no path and writes nothing; after a pick it writes the whole content
/// to the chosen path.
pub fn save_file_picked(picked: Option<String>, content: String) -> (step: SaveStep)
    ensures
        step == match picked {
            Some(path) => SaveStep::Write { path, content },
            None => SaveStep::Reply(Ok(None)),
        },
{
    match picked {
        Some(path) => SaveStep::Write { path, content },
        None => SaveStep::Reply(Ok(None)),
    }
}

/// The reply of `save_file_dialog` after the write to `path`: the path if the
/// write succeeded, else an `Io` failure that carries the cause. The user's
/// pick is lost with a failure.
pub fn save_file_written(path: String, outcome: Result<(), String>) -> (reply: Result<
    Option<String>,
    CommandError,
>)
    ensures
        match outcome {
            Ok(_) => reply == Ok::<Option<String>, CommandError>(Some(path)),
            Err(cause) => reply matches Err(e) && e@ == (CommandErrorView {
                kind: ErrorKind::Io,
                message: described("Failed to save file"@, cause@),
            }),
        },
{
    match outcome {
        Ok(_) => Ok(Some(path)),
        Err(cause) => Err(
            CommandError::with_cause(ErrorKind::Io, "Failed to save file", cause.as_str()),
        ),
    }
}

} // verus!

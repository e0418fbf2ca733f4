//! Reading and writing files.
//!
//! The host reads and writes; the library turns what the filesystem answered
//! into the command's reply. Content passes through untouched in both
//! directions, so what a caller reads is exactly what the file held.

use vstd::prelude::*;
use crate::error::{described, CommandError, CommandErrorView, ErrorKind};

verus! {

/// The reply of `read_file`: the file's text as it was read, or an `Io`
/// failure that carries the cause (no such file, no permission, no text).
pub fn read_file_reply(outcome: Result<String, String>) -> (reply: Result<String, CommandError>)
    ensures
        match outcome {
            Ok(content) => reply == Ok::<String, CommandError>(content),
            Err(cause) => reply matches Err(e) && e@ == (CommandErrorView {
                kind: ErrorKind::Io,
                message: described("Failed to read file"@, cause@),
            }),
        },
{
    match outcome {
        Ok(content) => Ok(content),
        Err(cause) => Err(
            CommandError::with_cause(ErrorKind::Io, "Failed to read file", cause.as_str()),
        ),
    }
}

/// The reply of `write_file`: nothing, or an `Io` failure that carries the
/// cause.
pub fn write_file_reply(outcome: Result<(), String>) -> (reply: Result<(), CommandError>)
    ensures
        match outcome {
            Ok(_) => reply is Ok,
            Err(cause) => reply matches Err(e) && e@ == (CommandErrorView {
                kind: ErrorKind::Io,
                message: described("Failed to write file"@, cause@),
            }),
        },
{
    match outcome {
        Ok(_) => Ok(()),
        Err(cause) => Err(
            CommandError::with_cause(ErrorKind::Io, "Failed to write file", cause.as_str()),
        ),
    }
}

} // verus!

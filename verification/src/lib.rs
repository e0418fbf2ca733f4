//! Command logic of a desktop application shell.
//!
//! The front end of the application names a command and hands over its
//! arguments; the host performs one operating-system call and answers with a
//! value or a message. This crate holds everything in that exchange that is a
//! decision: how an option document is decoded, which dialog is asked for,
//! which window operation a toggle comes to, what is written after a pick, and
//! what the caller is told when the operating system refuses.

pub mod error;
pub mod json;
pub mod options;
pub mod dialog;
pub mod files;
pub mod shell;
pub mod window;

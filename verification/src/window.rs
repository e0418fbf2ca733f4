//! Control of the application window.
//!
//! The window belongs to the host, which hands the library what the window
//! manager answered. Maximizing is a toggle: the host asks the window whether
//! it is maximized, the library picks the operation that flips that, the host
//! performs it. Nothing is locked between the question and the operation, so
//! the toggle is exact only while nobody else drives the window.

use vstd::prelude::*;
use crate::error::{described, CommandError, CommandErrorView, ErrorKind};

verus! {

/// An operation on the window.
#[derive(Clone, Copy, Debug, PartialEq, Eq, Structural)]
pub enum WindowOp {
    Minimize,
    Maximize,
    Unmaximize,
    Close,
    SetTitle,
}

impl WindowOp {
    /// What the failure message says was attempted.
    pub open spec fn attempt(self) -> Seq<char> {
        match self {
            WindowOp::Minimize => "Failed to minimize window"@,
            WindowOp::Maximize => "Failed to maximize window"@,
            WindowOp::Unmaximize => "Failed to unmaximize window"@,
            WindowOp::Close => "Failed to close window"@,
            WindowOp::SetTitle => "Failed to set window title"@,
        }
    }

    fn attempt_text(self) -> (text: &'static str)
        ensures
            text@ == self.attempt(),
    {
        match self {
            WindowOp::Minimize => "Failed to minimize window",
            WindowOp::Maximize => "Failed to maximize window",
            WindowOp::Unmaximize => "Failed to unmaximize window",
            WindowOp::Close => "Failed to close window",
            WindowOp::SetTitle => "Failed to set window title",
        }
    }
}

/// The operation that flips the maximized state.
pub open spec fn toggle_of(maximized: bool) -> WindowOp {
    if maximized {
        WindowOp::Unmaximize
    } else {
        WindowOp::Maximize
    }
}

/// The maximized state of a window after `op` succeeded on it.
pub open spec fn maximized_after(maximized: bool, op: WindowOp) -> bool {
    match op {
        WindowOp::Maximize => true,
        WindowOp::Unmaximize => false,
        _ => maximized,
    }
}

/// The step of `maximize_window` between question and operation. `state` is
/// the window's answer to whether it is maximized: a maximized window is
/// unmaximized, any other is maximized, and if the window gave no answer the
/// command fails with a `Window` failure and nothing is done to it.
pub fn maximize_window(state: Result<bool, String>) -> (step: Result<WindowOp, CommandError>)
    ensures
        match state {
            Ok(maximized) => step == Ok::<WindowOp, CommandError>(toggle_of(maximized)),
            Err(cause) => step matches Err(e) && e@ == (CommandErrorView {
                kind: ErrorKind::Window,
                message: described("Failed to check window state"@, cause@),
            }),
        },
{
    match state {
        Ok(true) => Ok(WindowOp::Unmaximize),
        Ok(false) => Ok(WindowOp::Maximize),
        Err(cause) => Err(
            CommandError::with_cause(
                ErrorKind::Window,
                "Failed to check window state",
                cause.as_str(),
            ),
        ),
    }
}

/// The reply of a window command after the host performed `op`: nothing, or
/// a `Window` failure that names the operation and carries the cause.
pub fn window_reply(op: WindowOp, outcome: Result<(), String>) -> (reply: Result<(), CommandError>)
    ensures
        match outcome {
            Ok(_) => reply is Ok,
            Err(cause) => reply matches Err(e) && e@ == (CommandErrorView {
                kind: ErrorKind::Window,
                message: described(op.attempt(), cause@),
            }),
        },
{
    match outcome {
        Ok(_) => Ok(()),
        Err(cause) => Err(
            CommandError::with_cause(ErrorKind::Window, op.attempt_text(), cause.as_str()),
        ),
    }
}

/// Toggling flips the maximized state, and toggling twice restores it: if
/// both operations succeed and nothing else touches the window in between,
/// the window ends as it began.
pub proof fn lemma_toggle_twice_restores(maximized: bool)
    ensures
        maximized_after(maximized, toggle_of(maximized)) == !maximized,
        ({
            let once = maximized_after(maximized, toggle_of(maximized));
            maximized_after(once, toggle_of(once)) == maximized
        }),
{
}

} // verus!

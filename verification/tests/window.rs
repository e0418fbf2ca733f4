use desktop_commands::error::{CommandError, ErrorKind};
use desktop_commands::window::{maximize_window, window_reply, WindowOp};

fn window_failure(message: &str) -> CommandError {
    CommandError { kind: ErrorKind::Window, message: message.to_string() }
}

fn performed(maximized: bool, op: WindowOp) -> bool {
    match op {
        WindowOp::Maximize => true,
        WindowOp::Unmaximize => false,
        _ => maximized,
    }
}

#[test]
fn maximized_window_is_unmaximized() {
    assert_eq!(maximize_window(Ok(true)), Ok(WindowOp::Unmaximize));
}

#[test]
fn other_window_is_maximized() {
    assert_eq!(maximize_window(Ok(false)), Ok(WindowOp::Maximize));
}

#[test]
fn unanswered_state_fails_the_toggle() {
    assert_eq!(
        maximize_window(Err("window not found".to_string())),
        Err(window_failure("Failed to check window state: window not found"))
    );
}

#[test]
fn toggling_twice_restores_the_window() {
    for start in [false, true] {
        let first = maximize_window(Ok(start)).unwrap();
        let once = performed(start, first);
        assert_eq!(once, !start);
        let second = maximize_window(Ok(once)).unwrap();
        assert_eq!(performed(once, second), start);
    }
}

#[test]
fn successful_operations_reply_with_nothing() {
    for op in [
        WindowOp::Minimize,
        WindowOp::Maximize,
        WindowOp::Unmaximize,
        WindowOp::Close,
        WindowOp::SetTitle,
    ] {
        assert_eq!(window_reply(op, Ok(())), Ok(()));
    }
}

#[test]
fn failed_operations_name_what_was_attempted() {
    let cause = || Err("gone".to_string());
    assert_eq!(
        window_reply(WindowOp::Minimize, cause()),
        Err(window_failure("Failed to minimize window: gone"))
    );
    assert_eq!(
        window_reply(WindowOp::Maximize, cause()),
        Err(window_failure("Failed to maximize window: gone"))
    );
    assert_eq!(
        window_reply(WindowOp::Unmaximize, cause()),
        Err(window_failure("Failed to unmaximize window: gone"))
    );
    assert_eq!(
        window_reply(WindowOp::Close, cause()),
        Err(window_failure("Failed to close window: gone"))
    );
    assert_eq!(
        window_reply(WindowOp::SetTitle, cause()),
        Err(window_failure("Failed to set window title: gone"))
    );
}

#[test]
fn an_empty_cause_still_has_the_colon() {
    assert_eq!(
        window_reply(WindowOp::Close, Err(String::new())),
        Err(window_failure("Failed to close window: "))
    );
}

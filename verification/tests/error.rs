use desktop_commands::error::{CommandError, ErrorKind};

#[test]
fn message_with_a_cause_joins_attempt_and_cause() {
    assert_eq!(
        CommandError::with_cause(ErrorKind::Io, "Failed to read file", "disk on fire"),
        CommandError { kind: ErrorKind::Io, message: "Failed to read file: disk on fire".to_string() }
    );
    assert_eq!(
        CommandError::with_cause(ErrorKind::Shell, "", ""),
        CommandError { kind: ErrorKind::Shell, message: ": ".to_string() }
    );
}

#[test]
fn message_without_a_cause_is_the_attempt() {
    assert_eq!(
        CommandError::without_cause(ErrorKind::PathResolution, "Failed to get documents directory"),
        CommandError {
            kind: ErrorKind::PathResolution,
            message: "Failed to get documents directory".to_string(),
        }
    );
}

#[test]
fn front_end_receives_the_message_alone() {
    let failure = CommandError::with_cause(ErrorKind::Window, "Failed to close window", "vetoed");
    assert_eq!(failure.into_message(), "Failed to close window: vetoed");
}

#[test]
fn every_kind_is_told_apart() {
    let kinds = [
        ErrorKind::Io,
        ErrorKind::Window,
        ErrorKind::Notification,
        ErrorKind::Shell,
        ErrorKind::PathResolution,
    ];
    for (i, a) in kinds.iter().enumerate() {
        for (j, b) in kinds.iter().enumerate() {
            assert_eq!(a == b, i == j);
        }
    }
}

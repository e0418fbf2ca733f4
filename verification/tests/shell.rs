use desktop_commands::error::{CommandError, ErrorKind};
use desktop_commands::shell::{
    directory_reply, notification_reply, shell_reply, shell_target, show_notification,
    Notification, ShellOp, StandardDir,
};

#[test]
fn notification_is_posted_under_the_application_identifier() {
    assert_eq!(
        show_notification("Saved".to_string(), "note.md was written".to_string()),
        Notification {
            identifier: "com.inspiration-blog-writer.app".to_string(),
            title: "Saved".to_string(),
            body: "note.md was written".to_string(),
        }
    );
}

#[test]
fn notification_keeps_empty_title_and_body() {
    let notification = show_notification(String::new(), String::new());
    assert_eq!(notification.title, "");
    assert_eq!(notification.body, "");
    assert_eq!(notification.identifier, "com.inspiration-blog-writer.app");
}

#[test]
fn notification_reply_passes_success_and_reports_refusal() {
    assert_eq!(notification_reply(Ok(())), Ok(()));
    assert_eq!(
        notification_reply(Err("not permitted".to_string())),
        Err(CommandError {
            kind: ErrorKind::Notification,
            message: "Failed to show notification: not permitted".to_string(),
        })
    );
}

#[test]
fn url_is_opened_as_given() {
    assert_eq!(shell_target(ShellOp::OpenUrl, "https://example.org/a?b=c"), "https://example.org/a?b=c");
    assert_eq!(shell_target(ShellOp::OpenUrl, "mailto:someone@example.org"), "mailto:someone@example.org");
    assert_eq!(shell_target(ShellOp::OpenUrl, ""), "");
}

#[test]
fn paths_are_opened_behind_the_file_scheme() {
    assert_eq!(shell_target(ShellOp::OpenInDefaultEditor, "/tmp/note.md"), "file:///tmp/note.md");
    assert_eq!(shell_target(ShellOp::ShowInFileManager, "/tmp/note.md"), "file:///tmp/note.md");
    assert_eq!(shell_target(ShellOp::OpenInDefaultEditor, "notes/a b.md"), "file://notes/a b.md");
    assert_eq!(shell_target(ShellOp::ShowInFileManager, ""), "file://");
}

#[test]
fn editor_and_file_manager_get_the_same_target() {
    for path in ["/", "/home/u/Документы/x.md", "C:\\Users\\u\\x.md"] {
        assert_eq!(
            shell_target(ShellOp::OpenInDefaultEditor, path),
            shell_target(ShellOp::ShowInFileManager, path)
        );
    }
}

#[test]
fn opener_replies_name_the_command() {
    let failure = |message: &str| {
        Err(CommandError { kind: ErrorKind::Shell, message: message.to_string() })
    };
    for op in [ShellOp::OpenUrl, ShellOp::OpenInDefaultEditor, ShellOp::ShowInFileManager] {
        assert_eq!(shell_reply(op, Ok(())), Ok(()));
    }
    assert_eq!(
        shell_reply(ShellOp::OpenUrl, Err("no handler".to_string())),
        failure("Failed to open URL: no handler")
    );
    assert_eq!(
        shell_reply(ShellOp::OpenInDefaultEditor, Err("no handler".to_string())),
        failure("Failed to open in default editor: no handler")
    );
    assert_eq!(
        shell_reply(ShellOp::ShowInFileManager, Err("no handler".to_string())),
        failure("Failed to show in file manager: no handler")
    );
}

#[test]
fn resolved_directories_are_returned() {
    assert_eq!(
        directory_reply(StandardDir::AppData, Some("/home/u/.local/share".to_string())),
        Ok("/home/u/.local/share".to_string())
    );
    assert_eq!(
        directory_reply(StandardDir::Documents, Some("/home/u/Documents".to_string())),
        Ok("/home/u/Documents".to_string())
    );
}

#[test]
fn unresolved_directories_fail_without_a_cause() {
    assert_eq!(
        directory_reply(StandardDir::AppData, None),
        Err(CommandError {
            kind: ErrorKind::PathResolution,
            message: "Failed to get app data directory".to_string(),
        })
    );
    assert_eq!(
        directory_reply(StandardDir::Documents, None),
        Err(CommandError {
            kind: ErrorKind::PathResolution,
            message: "Failed to get documents directory".to_string(),
        })
    );
}

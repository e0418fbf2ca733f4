use desktop_commands::error::{CommandError, ErrorKind};
use desktop_commands::files::{read_file_reply, write_file_reply};
use std::collections::HashMap;

#[test]
fn read_returns_the_content_exactly() {
    assert_eq!(read_file_reply(Ok("# Title".to_string())), Ok("# Title".to_string()));
    assert_eq!(read_file_reply(Ok(String::new())), Ok(String::new()));
    assert_eq!(
        read_file_reply(Ok("  line one\r\n\tline two\n\n".to_string())),
        Ok("  line one\r\n\tline two\n\n".to_string())
    );
}

#[test]
fn read_reports_the_cause() {
    assert_eq!(
        read_file_reply(Err("No such file or directory (os error 2)".to_string())),
        Err(CommandError {
            kind: ErrorKind::Io,
            message: "Failed to read file: No such file or directory (os error 2)".to_string(),
        })
    );
    assert_eq!(
        read_file_reply(Err("stream did not contain valid UTF-8".to_string())),
        Err(CommandError {
            kind: ErrorKind::Io,
            message: "Failed to read file: stream did not contain valid UTF-8".to_string(),
        })
    );
}

#[test]
fn write_replies_with_nothing() {
    assert_eq!(write_file_reply(Ok(())), Ok(()));
}

#[test]
fn write_reports_the_cause() {
    assert_eq!(
        write_file_reply(Err("Permission denied (os error 13)".to_string())),
        Err(CommandError {
            kind: ErrorKind::Io,
            message: "Failed to write file: Permission denied (os error 13)".to_string(),
        })
    );
}

/// A host that keeps its files in memory and answers as a filesystem does.
struct Host {
    files: HashMap<String, String>,
}

impl Host {
    fn write(&mut self, path: &str, content: &str) -> Result<(), String> {
        self.files.insert(path.to_string(), content.to_string());
        Ok(())
    }

    fn read(&self, path: &str) -> Result<String, String> {
        match self.files.get(path) {
            Some(content) => Ok(content.clone()),
            None => Err("No such file or directory (os error 2)".to_string()),
        }
    }

    fn has(&self, path: &str) -> bool {
        self.files.contains_key(path)
    }
}

#[test]
fn write_then_read_of_a_note() {
    let mut host = Host { files: HashMap::new() };
    let path = "/tmp/note.md";
    assert!(!host.has(path));
    assert_eq!(write_file_reply(host.write(path, "# Title")), Ok(()));
    assert!(host.has(path));
    assert_eq!(read_file_reply(host.read(path)), Ok("# Title".to_string()));
    assert_eq!(read_file_reply(host.read(path)), Ok("# Title".to_string()));
    assert_eq!(write_file_reply(host.write(path, "# Other")), Ok(()));
    assert_eq!(read_file_reply(host.read(path)), Ok("# Other".to_string()));
}

#[test]
fn read_of_a_missing_file_is_an_io_failure() {
    let host = Host { files: HashMap::new() };
    assert!(!host.has("/tmp/none.md"));
    assert_eq!(
        read_file_reply(host.read("/tmp/none.md")),
        Err(CommandError {
            kind: ErrorKind::Io,
            message: "Failed to read file: No such file or directory (os error 2)".to_string(),
        })
    );
}

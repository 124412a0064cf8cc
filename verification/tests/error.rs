use auto_git::error::{copy_string, io_error, Error, IoError, IoErrorKind, ProcessError, ProcessOutput};

#[test]
fn io_error_text_is_its_message() {
    let e = io_error(IoErrorKind::NotFound, "path file not set!");
    assert_eq!(e.message(), "path file not set!");
    assert!(e.is_io());
    let e: Error = IoError { kind: IoErrorKind::Other, message: "x".to_string() }.into();
    assert_eq!(e, Error::Io(IoError { kind: IoErrorKind::Other, message: "x".to_string() }));
}

#[test]
fn process_error_text() {
    let e = Error::Process(ProcessError {
        output: ProcessOutput {
            success: false,
            status: "exit status: 1".to_string(),
            stdout: b"out".to_vec(),
            stderr: b"fatal: \xffbad".to_vec(),
        },
        command: vec!["git".to_string(), "status".to_string()],
    });
    assert!(!e.is_io());
    assert_eq!(
        e.message(),
        "process exited with exit code exit status: 1\nCommand: [\"git\", \"status\"]\nStdout: out\nStderr: fatal: \u{fffd}bad\n"
    );
}

#[test]
fn copies_are_equal() {
    assert_eq!(copy_string(&"abc".to_string()), "abc");
}

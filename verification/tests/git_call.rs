use auto_git::error::{Error, IoError, IoErrorKind, ProcessOutput};
use auto_git::git_call::{command_of, GitAction, GitCall, GitEvent, GitStage};

fn args(a: &[&str]) -> Vec<String> {
    a.iter().map(|s| s.to_string()).collect()
}

fn output(success: bool) -> ProcessOutput {
    ProcessOutput { success, status: "exit code: 1".to_string(), stdout: b"out".to_vec(), stderr: b"err".to_vec() }
}

#[test]
fn without_a_directory_git_runs_at_once() {
    let (call, action) = GitCall::start(args(&["status"]), None);
    assert_eq!(action, GitAction::Run { in_dir: false });
    assert_eq!(call.stage, GitStage::Running);
    let (_, action) = call.step(GitEvent::Ran(Ok(output(true))));
    assert_eq!(action, GitAction::Finish(Ok(output(true))));
}

#[test]
fn an_unc_directory_is_refused_before_anything_runs() {
    let (call, action) = GitCall::start(args(&["pull"]), Some("\\\\evil\\share".to_string()));
    assert_eq!(call.stage, GitStage::Finished);
    match action {
        GitAction::Finish(Err(Error::Io(e))) => {
            assert_eq!(e.kind, IoErrorKind::InvalidData);
            assert_eq!(e.message, "UNC and device paths are not allowed");
        }
        other => panic!("unexpected {other:?}"),
    }
}

#[test]
fn a_checked_directory_is_run_in() {
    let (call, action) = GitCall::start(args(&["fetch"]), Some("C:\\work\\repo".to_string()));
    assert_eq!(action, GitAction::Canonicalize);
    let (call, action) = call.step(GitEvent::Canonicalized(Ok(())));
    assert_eq!(action, GitAction::InspectGitDir);
    let (call, action) = call.step(GitEvent::GitDirInspected { is_symlink: false, is_dir: true });
    assert_eq!(action, GitAction::Run { in_dir: true });
    assert!(call.accepts_exec(&GitEvent::Ran(Ok(output(true)))));
    assert!(!call.accepts_exec(&GitEvent::Canonicalized(Ok(()))));
}

#[test]
fn canonicalization_failure_ends_the_run() {
    let (call, _) = GitCall::start(args(&["fetch"]), Some("C:\\missing".to_string()));
    let e = IoError { kind: IoErrorKind::NotFound, message: "not found".to_string() };
    let (_, action) = call.step(GitEvent::Canonicalized(Err(e)));
    assert_eq!(
        action,
        GitAction::Finish(Err(Error::Io(IoError { kind: IoErrorKind::NotFound, message: "not found".to_string() })))
    );
}

#[test]
fn a_symlinked_git_directory_is_refused() {
    let (call, _) = GitCall::start(args(&["fetch"]), Some("repo".to_string()));
    let (call, _) = call.step(GitEvent::Canonicalized(Ok(())));
    let (_, action) = call.step(GitEvent::GitDirInspected { is_symlink: true, is_dir: true });
    match action {
        GitAction::Finish(Err(Error::Io(e))) => {
            assert_eq!(e.kind, IoErrorKind::InvalidData);
            assert_eq!(e.message, "Symlinked .git directory is not allowed");
        }
        other => panic!("unexpected {other:?}"),
    }
}

#[test]
fn a_missing_git_directory_is_reported() {
    let (call, _) = GitCall::start(args(&["fetch"]), Some("repo".to_string()));
    let (call, _) = call.step(GitEvent::Canonicalized(Ok(())));
    let (_, action) = call.step(GitEvent::GitDirInspected { is_symlink: false, is_dir: false });
    match action {
        GitAction::Finish(Err(Error::Io(e))) => {
            assert_eq!(e.kind, IoErrorKind::NotFound);
            assert_eq!(e.message, "No .git directory found for the project");
        }
        other => panic!("unexpected {other:?}"),
    }
}

#[test]
fn a_failed_process_carries_its_command_line() {
    let (call, _) = GitCall::start(args(&["commit", "-m", "msg"]), None);
    let (_, action) = call.step(GitEvent::Ran(Ok(output(false))));
    match action {
        GitAction::Finish(Err(Error::Process(p))) => {
            assert_eq!(p.command, args(&["git", "commit", "-m", "msg"]));
            assert_eq!(p.output, output(false));
        }
        other => panic!("unexpected {other:?}"),
    }
}

#[test]
fn a_process_that_cannot_start_is_an_io_error() {
    let (call, _) = GitCall::start(args(&["status"]), None);
    let e = IoError { kind: IoErrorKind::Other, message: "no git".to_string() };
    let (_, action) = call.step(GitEvent::Ran(Err(e)));
    assert!(matches!(action, GitAction::Finish(Err(Error::Io(_)))));
}

#[test]
fn command_line_starts_with_git() {
    assert_eq!(command_of(&args(&["add", "a.rs"])), args(&["git", "add", "a.rs"]));
    assert_eq!(command_of(&Vec::new()), args(&["git"]));
}

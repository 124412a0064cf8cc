use auto_git::error::{io_error, Error, IoErrorKind, ProcessError, ProcessOutput};
use auto_git::ops::{
    lib_get_files_to_restore, lib_get_untracked_files, lib_git_add, lib_git_restore, lib_git_status,
    lib_git_update_local, lib_make_pull, lib_make_push, lib_stage_changes, not_set_error,
    ChangesStaged, GitRequest, PushStage, RestoreStage, StageStage, Step, UpdateStage,
};

fn args(a: &[&str]) -> Vec<String> {
    a.iter().map(|s| s.to_string()).collect()
}

fn ok(stdout: &[u8]) -> Result<ProcessOutput, Error> {
    Ok(ProcessOutput { success: true, status: "exit code: 0".to_string(), stdout: stdout.to_vec(), stderr: Vec::new() })
}

fn failed(stderr: &str) -> Error {
    Error::Process(ProcessError {
        output: ProcessOutput { success: false, status: "exit code: 1".to_string(), stdout: Vec::new(), stderr: stderr.as_bytes().to_vec() },
        command: args(&["git", "x"]),
    })
}

fn project() -> Option<String> {
    Some("C:\\repo".to_string())
}

fn req(a: &[&str]) -> GitRequest {
    GitRequest { args: args(a), dir: "C:\\repo".to_string() }
}

const SUFFIX: &str = ", check your internet connection or the selected project path\n";

#[test]
fn update_fetches_updates_and_reads_status() {
    let Step::Git(s, r) = lib_git_update_local(&project()) else { panic!() };
    assert_eq!(r, req(&["fetch"]));
    assert_eq!(s.stage, UpdateStage::Fetching);
    let Step::Git(s, r) = s.resume(ok(b"")) else { panic!() };
    assert_eq!(r, req(&["remote", "update"]));
    let Step::Git(s, r) = s.resume(ok(b"")) else { panic!() };
    assert_eq!(r, req(&["status"]));
    assert_eq!(s.resume(ok(b"On branch main\n")), Step::Done(Some("On branch main\n".to_string()), None));
}

#[test]
fn update_without_project_alerts() {
    assert_eq!(lib_git_update_local(&None), Step::Done(None, Some("Project path not selected".to_string())));
}

#[test]
fn update_goes_on_when_remote_update_reports_an_arrow() {
    let Step::Git(s, _) = lib_git_update_local(&project()) else { panic!() };
    let Step::Git(s, _) = s.resume(ok(b"")) else { panic!() };
    let Step::Git(s, r) = s.resume(Err(failed("a..b  main -> origin/main"))) else { panic!() };
    assert_eq!(s.stage, UpdateStage::ReadingStatus);
    assert_eq!(r, req(&["status"]));
}

#[test]
fn update_stops_on_other_errors() {
    let Step::Git(s, _) = lib_git_update_local(&project()) else { panic!() };
    let e = failed("fatal: no remote");
    let text = e.message();
    assert_eq!(s.resume(Err(e)), Step::Done(None, Some(text)));
}

#[test]
fn status_without_project_is_none() {
    assert_eq!(lib_git_status(&None), Step::Done(None, None));
    let Step::Git(s, r) = lib_git_status(&project()) else { panic!() };
    assert_eq!(r, req(&["status"]));
    let e = io_error(IoErrorKind::Other, "boom");
    assert_eq!(s.resume(Err(e)), Step::Done(None, Some("boom".to_string())));
}

#[test]
fn pull_alerts_on_failure() {
    let Step::Git(s, r) = lib_make_pull(&project()) else { panic!() };
    assert_eq!(r, req(&["pull"]));
    let e = io_error(IoErrorKind::Other, "offline");
    let expected = format!("Could not execute pull{SUFFIX}offline");
    assert_eq!(s.resume(Err(e)), Step::Done(Err(io_error(IoErrorKind::Other, "offline")), Some(expected)));
}

#[test]
fn staging_adds_the_modified_files_once() {
    let mut staged: Vec<String> = Vec::new();
    let Step::Git(s, r) = lib_stage_changes(&project()) else { panic!() };
    assert_eq!(r, req(&["status", "-s"]));
    let Step::Git(s, r) = s.resume(ok(b" M a.rs\n?? b.rs\nM  c.rs\n"), &mut staged) else { panic!() };
    assert_eq!(s.stage, StageStage::Adding);
    assert_eq!(r, req(&["add", "a.rs", "c.rs"]));
    assert_eq!(staged, args(&["a.rs", "c.rs"]));
    assert_eq!(s.resume(ok(b""), &mut staged), Step::Done(Ok(ChangesStaged::Staged), None));
    // a second round from the same status adds nothing
    let Step::Git(s, _) = lib_stage_changes(&project()) else { panic!() };
    assert_eq!(s.resume(ok(b" M a.rs\n?? b.rs\nM  c.rs\n"), &mut staged), Step::Done(Ok(ChangesStaged::Ingored), None));
    assert_eq!(staged, args(&["a.rs", "c.rs"]));
}

#[test]
fn staging_without_project_or_changes_is_ignored() {
    assert_eq!(lib_stage_changes(&None), Step::Done(Ok(ChangesStaged::Ingored), None));
    let mut staged: Vec<String> = Vec::new();
    let Step::Git(s, _) = lib_stage_changes(&project()) else { panic!() };
    assert_eq!(s.resume(ok(b"?? new.rs\n"), &mut staged), Step::Done(Ok(ChangesStaged::Ingored), None));
}

#[test]
fn staging_failure_alerts() {
    let mut staged = args(&["x"]);
    let Step::Git(s, _) = lib_stage_changes(&project()) else { panic!() };
    let e = io_error(IoErrorKind::Other, "boom");
    let expected = format!("Could not execute the remote repository status{SUFFIX}boom");
    assert_eq!(s.resume(Err(e), &mut staged), Step::Done(Err(io_error(IoErrorKind::Other, "boom")), Some(expected)));
    assert_eq!(staged, args(&["x"]));
}

#[test]
fn push_commits_then_pushes() {
    let msg = "fix: typo".to_string();
    let Step::Git(s, r) = lib_make_push(&project(), &msg) else { panic!() };
    assert_eq!(s.stage, PushStage::Committing);
    assert_eq!(r, req(&["commit", "-m", "fix: typo"]));
    let Step::Git(s, r) = s.resume(ok(b"")) else { panic!() };
    assert_eq!(r, req(&["push"]));
    assert_eq!(s.resume(ok(b"")), Step::Done(Ok(()), None));
}

#[test]
fn push_without_project_fails() {
    assert_eq!(lib_make_push(&None, &"m".to_string()), Step::Done(Err(not_set_error()), None));
    assert_eq!(not_set_error(), io_error(IoErrorKind::NotFound, "path file not set!"));
}

#[test]
fn push_failure_alerts() {
    let Step::Git(s, _) = lib_make_push(&project(), &"m".to_string()) else { panic!() };
    let Step::Git(s, _) = s.resume(ok(b"")) else { panic!() };
    let e = io_error(IoErrorKind::Other, "denied");
    let expected = format!("Could not complete the push{SUFFIX}denied");
    assert_eq!(s.resume(Err(e)), Step::Done(Err(io_error(IoErrorKind::Other, "denied")), Some(expected)));
}

#[test]
fn untracked_files_are_listed_unticked() {
    let mut list = vec![(true, "old".to_string())];
    let Step::Git(s, r) = lib_get_untracked_files(&project()) else { panic!() };
    assert_eq!(r, req(&["status", "-s"]));
    assert_eq!(s.resume(ok(b"?? a.txt\n M b.rs\n?? c/\n"), &mut list), Step::Done(Ok(()), None));
    assert_eq!(list, vec![(false, "a.txt".to_string()), (false, "c/".to_string())]);
    assert_eq!(lib_get_untracked_files(&None), Step::Done(Err(not_set_error()), None));
}

#[test]
fn only_ticked_files_are_added() {
    let list = vec![(true, "a".to_string()), (false, "b".to_string()), (true, "c".to_string())];
    let Step::Git(s, r) = lib_git_add(&project(), &list) else { panic!() };
    assert_eq!(r, req(&["add", "a", "c"]));
    let e = io_error(IoErrorKind::Other, "x");
    let expected = format!("Could not add files to commit{SUFFIX}x");
    assert_eq!(s.resume(Err(e)), Step::Done(Err(io_error(IoErrorKind::Other, "x")), Some(expected)));
    assert_eq!(lib_git_add(&None, &list), Step::Done(Err(not_set_error()), None));
}

#[test]
fn files_to_restore_are_staged_first() {
    let mut list = vec![(true, "old".to_string(), true)];
    let Step::Git(s, r) = lib_get_files_to_restore(&project(), &mut list) else { panic!() };
    assert!(list.is_empty());
    assert_eq!(r, req(&["status", "-s"]));
    assert_eq!(s.resume(ok(b" M u.rs\nM  s.rs\n?? n\n"), &mut list), Step::Done(Ok(()), None));
    assert_eq!(list, vec![(false, "s.rs".to_string(), true), (false, "u.rs".to_string(), false)]);
}

#[test]
fn files_to_restore_without_project_empties_the_list() {
    let mut list = vec![(true, "old".to_string(), true)];
    assert_eq!(lib_get_files_to_restore(&None, &mut list), Step::Done(Err(not_set_error()), None));
    assert!(list.is_empty());
}

#[test]
fn restore_runs_staged_then_unstaged() {
    let list = vec![
        (true, "s1".to_string(), true),
        (false, "s2".to_string(), true),
        (true, "u1".to_string(), false),
    ];
    let Step::Git(s, r) = lib_git_restore(&project(), &list) else { panic!() };
    assert_eq!(s.stage, RestoreStage::RestoringStaged);
    assert_eq!(r, req(&["restore", "--staged", "s1"]));
    let Step::Git(s, r) = s.resume(ok(b"")) else { panic!() };
    assert_eq!(s.stage, RestoreStage::RestoringUnstaged);
    assert_eq!(r, req(&["restore", "u1"]));
    assert_eq!(s.resume(ok(b"")), Step::Done(Ok(()), None));
}

#[test]
fn restore_with_nothing_ticked_runs_nothing() {
    let list = vec![(false, "a".to_string(), true)];
    assert_eq!(lib_git_restore(&project(), &list), Step::Done(Ok(()), None));
    assert_eq!(lib_git_restore(&None, &list), Step::Done(Err(not_set_error()), None));
}

#[test]
fn restore_failure_alerts() {
    let list = vec![(true, "u".to_string(), false)];
    let Step::Git(s, r) = lib_git_restore(&project(), &list) else { panic!() };
    assert_eq!(r, req(&["restore", "u"]));
    let e = io_error(IoErrorKind::Other, "x");
    let expected = format!("Could not restore staged files{SUFFIX}x");
    assert_eq!(s.resume(Err(e)), Step::Done(Err(io_error(IoErrorKind::Other, "x")), Some(expected)));
}

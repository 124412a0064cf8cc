use auto_git::app_state::{
    add_report, add_terminal_output, after_pull, after_update, begin_operation, classify_line,
    decimal_string, join_strings, project_set_report, push_enabled, push_report, restore_report,
    staging_notice, staging_report, status_report, sync_must_wait, AppState, LineKind, Report,
    SyncDecision, MAX_TERMINAL_LENGHT,
};
use auto_git::error::{io_error, Error, IoErrorKind, ProcessError, ProcessOutput};
use auto_git::ops::ChangesStaged;

fn s(t: &str) -> String {
    t.to_string()
}

#[test]
fn terminal_output_keeps_the_newest_lines() {
    let mut out: Vec<String> = Vec::new();
    for i in 0..MAX_TERMINAL_LENGHT + 5 {
        add_terminal_output(&mut out, i.to_string());
    }
    assert_eq!(out.len(), MAX_TERMINAL_LENGHT);
    assert_eq!(out[0], "5");
    assert_eq!(out[MAX_TERMINAL_LENGHT - 1], (MAX_TERMINAL_LENGHT + 4).to_string());
}

#[test]
fn lines_are_classified_by_their_marks() {
    assert_eq!(classify_line(&s("\u{2714} done")), LineKind::Success);
    assert_eq!(classify_line(&s("\u{274c} failed")), LineKind::Failure);
    assert_eq!(classify_line(&s("Error: Could not perform the status operation")), LineKind::Failure);
    assert_eq!(classify_line(&s("fatal error")), LineKind::Failure);
    assert_eq!(classify_line(&s("\u{25b6} Starting operation Push...")), LineKind::Progress);
    assert_eq!(classify_line(&s("On branch main")), LineKind::Plain);
}

#[test]
fn numbers_and_lists_as_text() {
    assert_eq!(decimal_string(0), "0");
    assert_eq!(decimal_string(1234), "1234");
    assert_eq!(decimal_string(usize::MAX), usize::MAX.to_string());
    assert_eq!(join_strings(&vec![s("a"), s("b"), s("c")], ", "), "a, b, c");
    assert_eq!(join_strings(&Vec::new(), ", "), "");
}

#[test]
fn operations_start_processing() {
    let (state, line) = begin_operation("Push");
    assert_eq!(state, AppState::Processing(s("Push")));
    assert_eq!(line, "\u{25b6} Starting operation Push...");
}

#[test]
fn push_button_needs_staged_files_and_no_running_operation() {
    assert!(push_enabled(&AppState::Idle, false));
    assert!(!push_enabled(&AppState::Idle, true));
    assert!(!push_enabled(&AppState::Processing(s("x")), false));
}

#[test]
fn push_reports() {
    assert_eq!(
        push_report(&Ok(())),
        Report { state: Some(AppState::Success(s("Push completed successfully"))), line: Some(s("\u{2714} Push completed successfully")) }
    );
    assert_eq!(
        push_report(&Err(io_error(IoErrorKind::NotFound, "path file not set!"))),
        Report {
            state: Some(AppState::Error(s("Project path not selected"))),
            line: Some(s("\u{274c} Configure the project path from the menu 'Set Project'"))
        }
    );
    let e = Error::Process(ProcessError {
        output: ProcessOutput { success: false, status: s("exit code: 1"), stdout: Vec::new(), stderr: Vec::new() },
        command: vec![s("git"), s("push")],
    });
    let text = e.message();
    assert_eq!(
        push_report(&Err(e)),
        Report {
            state: Some(AppState::Error(s("Operation incomplete due to an error"))),
            line: Some(format!("\u{274c} Operation incomplete due to an error: {text}"))
        }
    );
}

#[test]
fn add_and_restore_reports_count_ticked_files() {
    let files = vec![(true, s("a")), (false, s("b")), (true, s("c"))];
    assert_eq!(add_report(&Ok(()), &files).line, Some(s("\u{2714} Files 2 added to commit!")));
    let restore = vec![(true, s("a"), true), (true, s("b"), false), (false, s("c"), true)];
    assert_eq!(
        restore_report(&Ok(()), &restore),
        Report { state: Some(AppState::Success(s("File(s) restored successfully"))), line: Some(s("\u{2714} Files 2 restored!")) }
    );
    assert_eq!(
        restore_report(&Err(io_error(IoErrorKind::NotFound, "x")), &restore).state,
        Some(AppState::Error(s("Project path not set")))
    );
}

#[test]
fn status_reports() {
    let (text, r) = status_report(&Some(s("On branch main")));
    assert_eq!(text, Some(s("On branch main")));
    assert_eq!(r.state, Some(AppState::Success(s("Status check completed successfully"))));
    let (text, r) = status_report(&None);
    assert_eq!(text, None);
    assert_eq!(r.line, Some(s("Error: Could not perform the status operation")));
}

#[test]
fn background_sync_decisions() {
    assert!(sync_must_wait(&AppState::Processing(s("x"))));
    assert!(sync_must_wait(&AppState::Error(s("x"))));
    assert!(!sync_must_wait(&AppState::Idle));
    assert!(!sync_must_wait(&AppState::Searching));
    assert_eq!(staging_notice(true), Some(s("\u{25b6} Adding modified files to commit...")));
    assert_eq!(staging_notice(false), None);
    assert_eq!(
        staging_report(&Ok(ChangesStaged::Staged), &vec![s("a.rs"), s("b.rs")]).line,
        Some(s("\u{2714} Files successfully added to the commit! (a.rs, b.rs)"))
    );
    assert_eq!(staging_report(&Ok(ChangesStaged::Ingored), &Vec::new()), Report { state: None, line: None });
    assert_eq!(
        staging_report(&Err(io_error(IoErrorKind::Other, "x")), &Vec::new()).state,
        Some(AppState::Error(s("Error during file staging execution")))
    );
    assert_eq!(after_update(&Some(s("Your branch is behind")), true), SyncDecision::Pull);
    assert_eq!(after_update(&Some(s("Your branch is up to date with 'o/m'")), true), SyncDecision::Aligned);
    assert_eq!(
        after_update(&None, false),
        SyncDecision::Failed(Report {
            state: Some(AppState::Error(s("Configure the project path from the menu 'Set Project'"))),
            line: Some(s("\u{274c} Error executing the status command: Set the project path"))
        })
    );
    assert_eq!(
        after_update(&None, true),
        SyncDecision::Failed(Report {
            state: Some(AppState::Error(s("Status incomplete"))),
            line: Some(s("\u{274c} Error executing the status command"))
        })
    );
    assert_eq!(after_pull(&Ok(())), AppState::Success(s("Pull completed successfully")));
    assert_eq!(after_pull(&Err(io_error(IoErrorKind::Other, "x"))), AppState::Error(s("Error in pull operation")));
}

#[test]
fn setting_a_project_reports_its_path() {
    assert_eq!(
        project_set_report("C:\\repo"),
        Report { state: Some(AppState::Success(s("New project path set C:\\repo"))), line: Some(s("\u{2714} New project path set C:\\repo")) }
    );
}

//! The state the app shows, the terminal output log, and the decisions that the
//! app's operations and its background synchronisation make from their results.
use vstd::prelude::*;
use crate::error::{Error, error_text, views, copy_string};
use crate::ops::{ChangesStaged, ticked, ticked_total};
use crate::status::{remote_ahead, lib_check_remote_ahead};
use crate::text::{starts_with, contains, chars_of, str_starts_with, str_contains, string_from_chars};

verus! {

/// The most lines that the terminal output keeps.
pub const MAX_TERMINAL_LENGHT: usize = 1000;

/// Mark of a line that tells of success.
pub const OK_TICK: &'static str = "\u{2714}";

/// Mark of a line that tells of an error.
pub const ERROR_TICK: &'static str = "\u{274c}";

/// Mark of a line that tells of work started.
pub const START_MARK: &'static str = "\u{25b6}";

/// The state of the application.
#[derive(Debug, Clone, PartialEq, Eq)]
pub enum AppState {
    Idle,
    Processing(String),
    Success(String),
    Error(String),
    Searching,
    Exit,
}

/// A success state with this text.
pub open spec fn is_success(s: AppState, text: Seq<char>) -> bool {
    s matches AppState::Success(t) && t@ == text
}

/// An error state with this text.
pub open spec fn is_error(s: AppState, text: Seq<char>) -> bool {
    s matches AppState::Error(t) && t@ == text
}

/// What an operation's result does to the app: the state it sets (if any) and
/// the line it writes to the terminal output (if any).
#[derive(Debug, PartialEq, Eq)]
pub struct Report {
    pub state: Option<AppState>,
    pub line: Option<String>,
}

// ------------------------------------------------------------------ text

/// The strings joined with a separator between each two.
pub open spec fn join(items: Seq<Seq<char>>, sep: Seq<char>) -> Seq<char>
    decreases items.len(),
{
    if items.len() == 0 {
        Seq::<char>::empty()
    } else if items.len() == 1 {
        items[0]
    } else {
        join(items.drop_last(), sep) + sep + items.last()
    }
}

/// The decimal digits of `n`.
pub open spec fn decimal(n: nat) -> Seq<char>
    decreases n,
{
    if n < 10 {
        seq![digit(n)]
    } else {
        decimal(n / 10).push(digit(n % 10))
    }
}

/// The digit character of a number below ten.
pub open spec fn digit(d: nat) -> char {
    if d == 0 {
        '0'
    } else if d == 1 {
        '1'
    } else if d == 2 {
        '2'
    } else if d == 3 {
        '3'
    } else if d == 4 {
        '4'
    } else if d == 5 {
        '5'
    } else if d == 6 {
        '6'
    } else if d == 7 {
        '7'
    } else if d == 8 {
        '8'
    } else {
        '9'
    }
}

fn digit_exec(d: usize) -> (c: char)
    requires
        d < 10,
    ensures
        c == digit(d as nat),
{
    if d == 0 {
        '0'
    } else if d == 1 {
        '1'
    } else if d == 2 {
        '2'
    } else if d == 3 {
        '3'
    } else if d == 4 {
        '4'
    } else if d == 5 {
        '5'
    } else if d == 6 {
        '6'
    } else if d == 7 {
        '7'
    } else if d == 8 {
        '8'
    } else {
        '9'
    }
}

fn decimal_chars(n: usize) -> (cs: Vec<char>)
    ensures
        cs@ == decimal(n as nat),
    decreases n,
{
    if n < 10 {
        let mut v: Vec<char> = Vec::new();
        v.push(digit_exec(n));
        assert(v@ =~= seq![digit(n as nat)]);
        v
    } else {
        let mut v = decimal_chars(n / 10);
        v.push(digit_exec(n % 10));
        v
    }
}

/// `n` written in decimal.
pub fn decimal_string(n: usize) -> (s: String)
    ensures
        s@ == decimal(n as nat),
{
    let cs = decimal_chars(n);
    string_from_chars(cs.as_slice())
}

/// The strings joined with `sep` between each two.
pub fn join_strings(items: &Vec<String>, sep: &str) -> (s: String)
    ensures
        s@ == join(views(items@), sep@),
{
    let mut s = String::new();
    for i in 0..items.len()
        invariant
            s@ == join(views(items@.take(i as int)), sep@),
    {
        let ghost prev = views(items@.take(i as int));
        assert(views(items@.take(i as int + 1)) =~= prev.push(items@[i as int]@));
        if i != 0 {
            s.append(sep);
        }
        s.append(items[i].as_str());
        assert(views(items@.take(i as int + 1)).drop_last() =~= prev);
    }
    assert(items@.take(items.len() as int) == items@);
    s
}

/// `a` followed by `b`.
fn concat2(a: &str, b: &str) -> (s: String)
    ensures
        s@ == a@ + b@,
{
    let mut s = String::from_str(a);
    s.append(b);
    s
}

/// `a`, `b` and `c` one after the other.
fn concat3(a: &str, b: &str, c: &str) -> (s: String)
    ensures
        s@ == a@ + b@ + c@,
{
    let mut s = String::from_str(a);
    s.append(b);
    s.append(c);
    s
}

/// An owned copy of a text.
fn owned(a: &str) -> (s: String)
    ensures
        s@ == a@,
{
    String::from_str(a)
}

// ------------------------------------------------------------------ terminal

/// The terminal output after a line is added: the line comes last, and only
/// the newest lines, at most the maximum, are kept.
pub open spec fn with_line(out: Seq<Seq<char>>, line: Seq<char>) -> Seq<Seq<char>> {
    let added = out.push(line);
    if added.len() > MAX_TERMINAL_LENGHT {
        added.skip(added.len() - MAX_TERMINAL_LENGHT)
    } else {
        added
    }
}

/// Adds a line to the terminal output, keeping only the newest lines, at most
/// the maximum.
pub fn add_terminal_output(output: &mut Vec<String>, line: String)
    ensures
        views(final(output)@) == with_line(views(old(output)@), line@),
        final(output)@.len() <= MAX_TERMINAL_LENGHT,
{
    let ghost before = views(output@);
    output.push(line);
    assert(views(output@) =~= before.push(line@));
    if output.len() > MAX_TERMINAL_LENGHT {
        let ghost added = output@;
        let at = output.len() - MAX_TERMINAL_LENGHT;
        let newest = output.split_off(at);
        *output = newest;
        assert(output@ == added.skip(at as int));
        assert(views(output@) =~= before.push(line@).skip(at as int));
    }
}

/// The terminal output keeps its newest lines, whatever its length before:
/// at most the maximum remain, the added line is last, and the lines before
/// it are the newest of the old ones, in their order.
pub proof fn law_terminal_keeps_newest_lines(out: Seq<Seq<char>>, line: Seq<char>)
    ensures
        with_line(out, line).len() <= MAX_TERMINAL_LENGHT,
        with_line(out, line).len() == if out.len() + 1 > MAX_TERMINAL_LENGHT {
            MAX_TERMINAL_LENGHT as int
        } else {
            out.len() + 1 as int
        },
        with_line(out, line).last() == line,
        with_line(out, line).drop_last() == out.skip(out.len() + 1 - with_line(out, line).len()),
        out.len() < MAX_TERMINAL_LENGHT ==> with_line(out, line) == out.push(line),
{
    let added = out.push(line);
    if added.len() > MAX_TERMINAL_LENGHT {
        let k = added.len() - MAX_TERMINAL_LENGHT;
        assert(added.skip(k).drop_last() =~= out.skip(k));
    } else {
        assert(added.drop_last() =~= out.skip(0));
    }
}

/// How a terminal line is shown.
#[derive(Debug, Clone, Copy, PartialEq, Eq)]
pub enum LineKind {
    Success,
    Failure,
    Progress,
    Plain,
}

/// How a terminal line is shown: lines marked with a tick tell of success;
/// lines marked with a cross, or that speak of an error, of failure; lines
/// marked with an arrow, of progress.
pub open spec fn line_kind(line: Seq<char>) -> LineKind {
    if starts_with(line, OK_TICK@) {
        LineKind::Success
    } else if starts_with(line, ERROR_TICK@) || contains(line, "error"@) || contains(
        line,
        "Error"@,
    ) {
        LineKind::Failure
    } else if starts_with(line, START_MARK@) {
        LineKind::Progress
    } else {
        LineKind::Plain
    }
}

/// How a terminal line is shown.
pub fn classify_line(line: &String) -> (k: LineKind)
    ensures
        k == line_kind(line@),
{
    let cs = chars_of(line.as_str());
    let l = cs.as_slice();
    if str_starts_with(l, OK_TICK) {
        LineKind::Success
    } else if str_starts_with(l, ERROR_TICK) || str_contains(l, "error") || str_contains(l, "Error") {
        LineKind::Failure
    } else if str_starts_with(l, START_MARK) {
        LineKind::Progress
    } else {
        LineKind::Plain
    }
}

// ------------------------------------------------------------------ buttons

/// Whether the state is `Processing`.
pub fn is_processing(state: &AppState) -> (res: bool)
    ensures
        res == (*state is Processing),
{
    match state {
        AppState::Processing(_) => true,
        _ => false,
    }
}

/// Whether the state is `Error`.
pub fn is_error_state(state: &AppState) -> (res: bool)
    ensures
        res == (*state is Error),
{
    match state {
        AppState::Error(_) => true,
        _ => false,
    }
}

/// Whether the push button can be used: nothing is running and there are
/// staged files.
pub fn push_enabled(state: &AppState, files_staged_empty: bool) -> (res: bool)
    ensures
        res == (!(*state is Processing) && !files_staged_empty),
{
    !is_processing(state) && !files_staged_empty
}

// ------------------------------------------------------------------ operations

/// The start of an operation: the state that says it runs, and the line that
/// announces it.
pub fn begin_operation(name: &str) -> (res: (AppState, String))
    ensures
        res.0 matches AppState::Processing(t) && t@ == name@,
        res.1@ == START_MARK@ + " Starting operation "@ + name@ + "..."@,
{
    let mut line = concat3(START_MARK, " Starting operation ", name);
    line.append("...");
    (AppState::Processing(owned(name)), line)
}

/// The line that asks for a project path to be set.
pub open spec fn set_project_line() -> Seq<char> {
    ERROR_TICK@ + " Configure the project path from the menu 'Set Project'"@
}

/// What a failed operation reports: an I/O failure means the project path is
/// missing; a failed git process is reported with its text.
pub open spec fn failure_report(
    e: Error,
    io_state: Seq<char>,
    process_state: Seq<char>,
    process_lead: Seq<char>,
    r: Report,
) -> bool {
    if e is Io {
        &&& r.state matches Some(s) && is_error(s, io_state)
        &&& r.line matches Some(l) && l@ == set_project_line()
    } else {
        &&& r.state matches Some(s) && is_error(s, process_state)
        &&& r.line matches Some(l) && l@ == ERROR_TICK@ + " "@ + process_lead + ": "@
            + error_text(e)
    }
}

fn failure(e: &Error, io_state: &str, process_state: &str, process_lead: &str) -> (r: Report)
    ensures
        failure_report(*e, io_state@, process_state@, process_lead@, r),
{
    if e.is_io() {
        Report {
            state: Some(AppState::Error(owned(io_state))),
            line: Some(concat2(ERROR_TICK, " Configure the project path from the menu 'Set Project'")),
        }
    } else {
        let mut line = concat3(ERROR_TICK, " ", process_lead);
        line.append(": ");
        let m = e.message();
        line.append(m.as_str());
        Report { state: Some(AppState::Error(owned(process_state))), line: Some(line) }
    }
}

/// `r` is what pushing reports: success, or what kind of failure.
pub open spec fn is_push_report(result: Result<(), Error>, r: Report) -> bool {
    &&& result is Ok ==> (r.state matches Some(s) && is_success(s, "Push completed successfully"@))
        && (r.line matches Some(l) && l@ == OK_TICK@ + " Push completed successfully"@)
    &&& result matches Err(e) ==> failure_report(
        e,
        "Project path not selected"@,
        "Operation incomplete due to an error"@,
        "Operation incomplete due to an error"@,
        r,
    )
}

/// What pushing reports: success, or what kind of failure.
pub fn push_report(result: &Result<(), Error>) -> (r: Report)
    ensures
        is_push_report(*result, r),
{
    match result {
        Ok(()) => Report {
            state: Some(AppState::Success(owned("Push completed successfully"))),
            line: Some(concat2(OK_TICK, " Push completed successfully")),
        },
        Err(e) => failure(
            e,
            "Project path not selected",
            "Operation incomplete due to an error",
            "Operation incomplete due to an error",
        ),
    }
}

/// `r` is what listing the untracked files reports.
pub open spec fn is_untracked_list_report(result: Result<(), Error>, r: Report) -> bool {
    &&& result is Ok ==> r.state is None && (r.line matches Some(l) && l@ == OK_TICK@
        + " 'Untracked files' found!"@)
    &&& result matches Err(e) ==> failure_report(
        e,
        "Project path not set"@,
        "Add operation incomplete due to an error"@,
        "Add operation errored"@,
        r,
    )
}

/// What listing the untracked files reports.
pub fn untracked_list_report(result: &Result<(), Error>) -> (r: Report)
    ensures
        is_untracked_list_report(*result, r),
{
    match result {
        Ok(()) => Report { state: None, line: Some(concat2(OK_TICK, " 'Untracked files' found!")) },
        Err(e) => failure(e, "Project path not set", "Add operation incomplete due to an error", "Add operation errored"),
    }
}

/// The number of ticked entries.
fn count_ticked(v: &Vec<(bool, String)>) -> (n: usize)
    ensures
        n == ticked(v@).len(),
{
    let mut n: usize = 0;
    for i in 0..v.len()
        invariant
            n == ticked(v@.take(i as int)).len(),
            n <= i,
    {
        assert(v@.take(i as int + 1).drop_last() == v@.take(i as int));
        assert(v@.take(i as int + 1).last() == v@[i as int]);
        if v[i].0 {
            n = n + 1;
        }
    }
    assert(v@.take(v.len() as int) == v@);
    n
}

/// What adding the ticked untracked files reports; the count of files added is
/// that of the ticked entries.
pub fn add_report(result: &Result<(), Error>, untracked_files: &Vec<(bool, String)>) -> (r: Report)
    ensures
        result is Ok ==> (r.state matches Some(s) && is_success(
            s,
            "Files added to commit successfully"@,
        )) && (r.line matches Some(l) && l@ == OK_TICK@ + " Files "@ + decimal(
            ticked(untracked_files@).len(),
        ) + " added to commit!"@),
        result matches Err(e) ==> failure_report(
            *e,
            "Project path not set"@,
            "Add operation incomplete due to an error"@,
            "Add operation errored"@,
            r,
        ),
{
    match result {
        Ok(()) => {
            let n = count_ticked(untracked_files);
            let mut line = concat2(OK_TICK, " Files ");
            let d = decimal_string(n);
            line.append(d.as_str());
            line.append(" added to commit!");
            Report { state: Some(AppState::Success(owned("Files added to commit successfully"))), line: Some(line) }
        },
        Err(e) => failure(e, "Project path not set", "Add operation incomplete due to an error", "Add operation errored"),
    }
}

/// `r` is what listing the files to restore reports.
pub open spec fn is_restore_list_report(result: Result<(), Error>, r: Report) -> bool {
    &&& result is Ok ==> r.state is None && (r.line matches Some(l) && l@ == OK_TICK@
        + " Modified files to restore found!"@)
    &&& result matches Err(e) ==> failure_report(
        e,
        "Project path not set"@,
        "Restore operation incomplete due to an error"@,
        "Restore operation errored"@,
        r,
    )
}

/// What listing the files to restore reports.
pub fn restore_list_report(result: &Result<(), Error>) -> (r: Report)
    ensures
        is_restore_list_report(*result, r),
{
    match result {
        Ok(()) => Report { state: None, line: Some(concat2(OK_TICK, " Modified files to restore found!")) },
        Err(e) => failure(e, "Project path not set", "Restore operation incomplete due to an error", "Restore operation errored"),
    }
}

fn count_ticked3(v: &Vec<(bool, String, bool)>) -> (n: usize)
    ensures
        n == ticked_total(v@),
{
    let mut n: usize = 0;
    for i in 0..v.len()
        invariant
            n == ticked_total(v@.take(i as int)),
            n <= i,
    {
        assert(v@.take(i as int + 1).drop_last() == v@.take(i as int));
        assert(v@.take(i as int + 1).last() == v@[i as int]);
        if v[i].0 {
            n = n + 1;
        }
    }
    assert(v@.take(v.len() as int) == v@);
    n
}

/// `r` is what restoring the ticked files reports.
pub open spec fn is_restore_report(result: Result<(), Error>, restore_files: Seq<(bool, String, bool)>, r: Report) -> bool {
    &&& result is Ok ==> (r.state matches Some(s) && is_success(s, "File(s) restored successfully"@))
        && (r.line matches Some(l) && l@ == OK_TICK@ + " Files "@ + decimal(ticked_total(restore_files))
        + " restored!"@)
    &&& result matches Err(e) ==> failure_report(
        e,
        "Project path not set"@,
        "Restore operation incomplete due to an error"@,
        "Restore operation errored"@,
        r,
    )
}

/// What restoring the ticked files reports; the count of files restored is
/// that of the ticked entries.
pub fn restore_report(result: &Result<(), Error>, restore_files: &Vec<(bool, String, bool)>) -> (r: Report)
    ensures
        is_restore_report(*result, restore_files@, r),
{
    match result {
        Ok(()) => {
            let n = count_ticked3(restore_files);
            let mut line = concat2(OK_TICK, " Files ");
            let d = decimal_string(n);
            line.append(d.as_str());
            line.append(" restored!");
            Report { state: Some(AppState::Success(owned("File(s) restored successfully"))), line: Some(line) }
        },
        Err(e) => failure(e, "Project path not set", "Restore operation incomplete due to an error", "Restore operation errored"),
    }
}

/// What the status operation reports, with the status text if there is one:
/// the status lines go to the terminal before the final line.
pub fn status_report(status: &Option<String>) -> (r: (Option<String>, Report))
    ensures
        status matches Some(s) ==> (r.0 matches Some(t) && t@ == s@) && (r.1.state matches Some(
            st,
        ) && is_success(st, "Status check completed successfully"@)) && (r.1.line matches Some(
            l,
        ) && l@ == OK_TICK@ + " Repository status verified!"@),
        status is None ==> r.0 is None && (r.1.state matches Some(st) && is_error(
            st,
            "Error in status operation execution"@,
        )) && (r.1.line matches Some(l) && l@ == "Error: Could not perform the status operation"@),
{
    match status {
        Some(s) => (
            Some(copy_string(s)),
            Report {
                state: Some(AppState::Success(owned("Status check completed successfully"))),
                line: Some(concat2(OK_TICK, " Repository status verified!")),
            },
        ),
        None => (
            None,
            Report {
                state: Some(AppState::Error(owned("Error in status operation execution"))),
                line: Some(owned("Error: Could not perform the status operation")),
            },
        ),
    }
}

// ------------------------------------------------------------------ sync

/// The background synchronisation waits while an operation runs or an error
/// is shown.
pub fn sync_must_wait(state: &AppState) -> (res: bool)
    ensures
        res == (*state is Processing || *state is Error),
{
    is_processing(state) || is_error_state(state)
}

/// The line written before staging when no files are staged yet.
pub fn staging_notice(files_staged_empty: bool) -> (line: Option<String>)
    ensures
        files_staged_empty ==> (line matches Some(l) && l@ == START_MARK@
            + " Adding modified files to commit..."@),
        !files_staged_empty ==> line is None,
{
    if files_staged_empty {
        Some(concat2(START_MARK, " Adding modified files to commit..."))
    } else {
        None
    }
}

/// What staging reports: files added name the staged files; nothing to stage
/// reports nothing.
pub fn staging_report(result: &Result<ChangesStaged, Error>, files_staged: &Vec<String>) -> (r: Report)
    ensures
        result matches Ok(ChangesStaged::Staged) ==> (r.state matches Some(s) && is_success(
            s,
            "Files successfully added to the commit"@,
        )) && (r.line matches Some(l) && l@ == OK_TICK@ + " Files successfully added to the commit! ("@
            + join(views(files_staged@), ", "@) + ")"@),
        result matches Ok(ChangesStaged::Ingored) ==> r.state is None && r.line is None,
        result is Err ==> (r.state matches Some(s) && is_error(
            s,
            "Error during file staging execution"@,
        )) && (r.line matches Some(l) && l@ == ERROR_TICK@ + " Error during file staging execution"@),
{
    match result {
        Ok(ChangesStaged::Staged) => {
            let mut line = concat2(OK_TICK, " Files successfully added to the commit! (");
            let names = join_strings(files_staged, ", ");
            line.append(names.as_str());
            line.append(")");
            Report { state: Some(AppState::Success(owned("Files successfully added to the commit"))), line: Some(line) }
        },
        Ok(ChangesStaged::Ingored) => Report { state: None, line: None },
        Err(_) => Report {
            state: Some(AppState::Error(owned("Error during file staging execution"))),
            line: Some(concat2(ERROR_TICK, " Error during file staging execution")),
        },
    }
}

/// What the synchronisation does once the local repository was updated.
#[derive(Debug, PartialEq, Eq)]
pub enum SyncDecision {
    /// The remote is ahead: pull.
    Pull,
    /// The local branch is up to date or ahead: nothing to do.
    Aligned,
    /// The status could not be read: report this and start the next round.
    Failed(Report),
}

/// What a round reports when no status could be read: the project path is
/// missing, or the status command failed.
pub open spec fn is_status_failure_report(r: Report, project_selected: bool) -> bool {
    if !project_selected {
        &&& r.state matches Some(st) && is_error(st, "Configure the project path from the menu 'Set Project'"@)
        &&& r.line matches Some(l) && l@ == ERROR_TICK@ + " Error executing the status command: Set the project path"@
    } else {
        &&& r.state matches Some(st) && is_error(st, "Status incomplete"@)
        &&& r.line matches Some(l) && l@ == ERROR_TICK@ + " Error executing the status command"@
    }
}

/// The decision after updating: pull when the status says the remote is
/// ahead; with no status, report why.
pub fn after_update(status: &Option<String>, project_selected: bool) -> (d: SyncDecision)
    ensures
        status matches Some(s) ==> (remote_ahead(s@) ==> d is Pull) && (!remote_ahead(s@) ==> d is Aligned),
        status is None ==> (d matches SyncDecision::Failed(r) && is_status_failure_report(r, project_selected)),
{
    match status {
        Some(s) => {
            if lib_check_remote_ahead(copy_string(s)) {
                SyncDecision::Pull
            } else {
                SyncDecision::Aligned
            }
        },
        None => {
            if !project_selected {
                SyncDecision::Failed(Report {
                    state: Some(AppState::Error(owned("Configure the project path from the menu 'Set Project'"))),
                    line: Some(concat2(ERROR_TICK, " Error executing the status command: Set the project path")),
                })
            } else {
                SyncDecision::Failed(Report {
                    state: Some(AppState::Error(owned("Status incomplete"))),
                    line: Some(concat2(ERROR_TICK, " Error executing the status command")),
                })
            }
        },
    }
}

/// The state after pulling.
pub fn after_pull(result: &Result<(), Error>) -> (s: AppState)
    ensures
        result is Ok ==> is_success(s, "Pull completed successfully"@),
        result is Err ==> is_error(s, "Error in pull operation"@),
{
    match result {
        Ok(()) => AppState::Success(owned("Pull completed successfully")),
        Err(_) => AppState::Error(owned("Error in pull operation")),
    }
}

/// Where a round of the background synchronisation stands.
#[derive(Debug, Clone, Copy, PartialEq, Eq)]
pub enum SyncStage {
    Staging,
    Connecting,
    Updating,
    Pulling,
    Settling,
    Resting,
    Stopped,
}

/// What the background synchronisation is to do next.
#[derive(Debug, PartialEq, Eq)]
pub enum SyncAction {
    /// Wait while an operation runs or an error shows, mark the state as
    /// searching, stage the modified files and write what staging reports.
    Stage,
    /// Look whether the app is exiting; if not, check the internet connection.
    CheckConnection,
    /// Wait up to the poll interval (or until woken).
    Rest,
    /// Update the local repository and read its status.
    Update,
    /// Pull from the remote.
    Pull,
    /// Write this report, then begin the next round at once.
    ReportThenStage(Report),
    /// Set this state, if any; then look again whether an operation runs.
    Settle(Option<AppState>),
    /// Leave the loop.
    Stop,
}

/// What the synchronisation reports back after an action.
#[derive(Debug, PartialEq, Eq)]
pub enum SyncEvent {
    Staged,
    /// Whether the app is exiting and, if not, whether the internet answered.
    ConnectionChecked { exiting: bool, online: bool },
    /// The status that updating gave, whether a project is selected, and
    /// whether an operation runs.
    Updated { status: Option<String>, project_selected: bool, processing: bool },
    Pulled(Result<(), Error>),
    /// Whether an operation runs.
    Settled { processing: bool },
    Rested,
}

/// A round of the background synchronisation: stage, check the connection,
/// update, pull when the remote is ahead, then rest until the next round.
#[derive(Debug, PartialEq, Eq)]
pub struct SyncRound {
    pub stage: SyncStage,
}

impl SyncRound {
    /// The synchronisation begins by staging.
    pub fn start() -> (res: (SyncRound, SyncAction))
        ensures
            res.0.stage is Staging,
            res.1 == SyncAction::Stage,
    {
        (SyncRound { stage: SyncStage::Staging }, SyncAction::Stage)
    }

    /// The event is one that the current stage waits for.
    pub open spec fn accepts(&self, event: SyncEvent) -> bool {
        match self.stage {
            SyncStage::Staging => event is Staged,
            SyncStage::Connecting => event is ConnectionChecked,
            SyncStage::Updating => event is Updated,
            SyncStage::Pulling => event is Pulled,
            SyncStage::Settling => event is Settled,
            SyncStage::Resting => event is Rested,
            SyncStage::Stopped => false,
        }
    }

    /// Whether the event is one that the current stage waits for.
    pub fn accepts_exec(&self, event: &SyncEvent) -> (res: bool)
        ensures
            res == self.accepts(*event),
    {
        match (self.stage, event) {
            (SyncStage::Staging, SyncEvent::Staged) => true,
            (SyncStage::Connecting, SyncEvent::ConnectionChecked { .. }) => true,
            (SyncStage::Updating, SyncEvent::Updated { .. }) => true,
            (SyncStage::Pulling, SyncEvent::Pulled(_)) => true,
            (SyncStage::Settling, SyncEvent::Settled { .. }) => true,
            (SyncStage::Resting, SyncEvent::Rested) => true,
            _ => false,
        }
    }

    /// The next action of the synchronisation, given what the last one came to.
    pub fn step(self, event: SyncEvent) -> (res: (SyncRound, SyncAction))
        requires
            self.accepts(event),
        ensures
            event is Staged ==> res.0.stage is Connecting && res.1 == SyncAction::CheckConnection,
            event matches SyncEvent::ConnectionChecked { exiting: true, .. } ==> res.0.stage is Stopped
                && res.1 == SyncAction::Stop,
            event matches SyncEvent::ConnectionChecked { exiting: false, online: false } ==> res.0.stage is Resting
                && res.1 == SyncAction::Rest,
            event matches SyncEvent::ConnectionChecked { exiting: false, online: true } ==> res.0.stage is Updating
                && res.1 == SyncAction::Update,
            event matches SyncEvent::Updated { status: Some(s), .. } && remote_ahead(s@) ==> res.0.stage is Pulling
                && res.1 == SyncAction::Pull,
            event matches SyncEvent::Updated { status: Some(s), processing: true, .. } && !remote_ahead(s@)
                ==> res.0.stage is Staging && res.1 == SyncAction::Stage,
            event matches SyncEvent::Updated { status: Some(s), processing: false, .. } && !remote_ahead(s@)
                ==> res.0.stage is Settling && res.1 == SyncAction::Settle(None),
            event matches SyncEvent::Updated { status: None, project_selected, .. } ==> res.0.stage is Staging
                && (res.1 matches SyncAction::ReportThenStage(r) && is_status_failure_report(r, project_selected)),
            event matches SyncEvent::Pulled(Ok(_)) ==> res.0.stage is Settling && (res.1 matches SyncAction::Settle(
                Some(st),
            ) && is_success(st, "Pull completed successfully"@)),
            event matches SyncEvent::Pulled(Err(_)) ==> res.0.stage is Settling && (res.1 matches SyncAction::Settle(
                Some(st),
            ) && is_error(st, "Error in pull operation"@)),
            event matches SyncEvent::Settled { processing: true } ==> res.0.stage is Staging && res.1
                == SyncAction::Stage,
            event matches SyncEvent::Settled { processing: false } ==> res.0.stage is Resting && res.1
                == SyncAction::Rest,
            event is Rested ==> res.0.stage is Staging && res.1 == SyncAction::Stage,
    {
        match event {
            SyncEvent::Staged => (SyncRound { stage: SyncStage::Connecting }, SyncAction::CheckConnection),
            SyncEvent::ConnectionChecked { exiting, online } => {
                if exiting {
                    (SyncRound { stage: SyncStage::Stopped }, SyncAction::Stop)
                } else if !online {
                    (SyncRound { stage: SyncStage::Resting }, SyncAction::Rest)
                } else {
                    (SyncRound { stage: SyncStage::Updating }, SyncAction::Update)
                }
            },
            SyncEvent::Updated { status, project_selected, processing } => {
                match after_update(&status, project_selected) {
                    SyncDecision::Pull => (SyncRound { stage: SyncStage::Pulling }, SyncAction::Pull),
                    SyncDecision::Aligned => {
                        if processing {
                            (SyncRound { stage: SyncStage::Staging }, SyncAction::Stage)
                        } else {
                            (SyncRound { stage: SyncStage::Settling }, SyncAction::Settle(None))
                        }
                    },
                    SyncDecision::Failed(r) => (
                        SyncRound { stage: SyncStage::Staging },
                        SyncAction::ReportThenStage(r),
                    ),
                }
            },
            SyncEvent::Pulled(result) => (
                SyncRound { stage: SyncStage::Settling },
                SyncAction::Settle(Some(after_pull(&result))),
            ),
            SyncEvent::Settled { processing } => {
                if processing {
                    (SyncRound { stage: SyncStage::Staging }, SyncAction::Stage)
                } else {
                    (SyncRound { stage: SyncStage::Resting }, SyncAction::Rest)
                }
            },
            SyncEvent::Rested => (SyncRound { stage: SyncStage::Staging }, SyncAction::Stage),
        }
    }
}

/// Which parts of the window are open, and which confirmed steps wait.
#[derive(Debug, Clone, Copy, PartialEq, Eq)]
pub struct Panels {
    pub terminal_expanded: bool,
    pub commit_input_expanded: bool,
    /// The commit message was confirmed: the next push commits and pushes.
    pub complete_push: bool,
    pub untracked_files_expanded: bool,
    /// The ticked untracked files were confirmed: the next add adds them.
    pub untracked_files_to_add: bool,
    pub restore_files_expanded: bool,
    /// The ticked files to restore were confirmed: the next restore restores them.
    pub files_to_restore: bool,
}

/// What happens in the window that opens or closes its parts.
#[derive(Debug, Clone, Copy, PartialEq, Eq)]
pub enum PanelEvent {
    /// The push operation began: the commit message input opens.
    PushStarted,
    /// The commit message was confirmed.
    CommitConfirmed,
    /// A confirmed push was carried out.
    PushFinished,
    /// The untracked files were listed.
    UntrackedListed,
    /// The ticked untracked files were confirmed for adding.
    AddConfirmed,
    /// The files to restore were listed.
    RestoreListed,
    /// The ticked files were confirmed for restoring.
    RestoreConfirmed,
    /// The restore operation's second part ran.
    RestoreFinished,
    /// A status was shown in the terminal.
    StatusShown,
    /// The terminal panel's button was pressed.
    TerminalToggled,
    /// A new project path was chosen.
    ProjectChanged,
    /// The state was reset, or the running operation aborted.
    Cleared,
}

impl Panels {
    /// The window's parts after an event.
    pub open spec fn after(self, e: PanelEvent) -> Panels {
        match e {
            PanelEvent::PushStarted => Panels { commit_input_expanded: true, ..self },
            PanelEvent::CommitConfirmed => Panels { complete_push: true, ..self },
            PanelEvent::PushFinished => Panels { commit_input_expanded: false, complete_push: false, ..self },
            PanelEvent::UntrackedListed => Panels { untracked_files_expanded: true, ..self },
            PanelEvent::AddConfirmed => Panels {
                untracked_files_to_add: true,
                untracked_files_expanded: false,
                ..self
            },
            PanelEvent::RestoreListed => Panels { restore_files_expanded: true, ..self },
            PanelEvent::RestoreConfirmed => Panels {
                files_to_restore: true,
                restore_files_expanded: false,
                ..self
            },
            PanelEvent::RestoreFinished => Panels {
                files_to_restore: false,
                restore_files_expanded: false,
                ..self
            },
            PanelEvent::StatusShown => Panels { terminal_expanded: true, ..self },
            PanelEvent::TerminalToggled => Panels { terminal_expanded: !self.terminal_expanded, ..self },
            PanelEvent::ProjectChanged => Panels {
                commit_input_expanded: false,
                untracked_files_expanded: false,
                ..self
            },
            PanelEvent::Cleared => Panels {
                commit_input_expanded: false,
                untracked_files_expanded: false,
                restore_files_expanded: false,
                ..self
            },
        }
    }

    /// Everything closed, nothing waiting.
    pub fn new() -> (p: Panels)
        ensures
            !p.terminal_expanded && !p.commit_input_expanded && !p.complete_push
                && !p.untracked_files_expanded && !p.untracked_files_to_add
                && !p.restore_files_expanded && !p.files_to_restore,
    {
        Panels {
            terminal_expanded: false,
            commit_input_expanded: false,
            complete_push: false,
            untracked_files_expanded: false,
            untracked_files_to_add: false,
            restore_files_expanded: false,
            files_to_restore: false,
        }
    }

    /// Opens or closes the window's parts as the event calls for.
    pub fn apply(&mut self, e: PanelEvent)
        ensures
            *final(self) == old(self).after(e),
    {
        match e {
            PanelEvent::PushStarted => {
                self.commit_input_expanded = true;
            },
            PanelEvent::CommitConfirmed => {
                self.complete_push = true;
            },
            PanelEvent::PushFinished => {
                self.commit_input_expanded = false;
                self.complete_push = false;
            },
            PanelEvent::UntrackedListed => {
                self.untracked_files_expanded = true;
            },
            PanelEvent::AddConfirmed => {
                self.untracked_files_to_add = true;
                self.untracked_files_expanded = false;
            },
            PanelEvent::RestoreListed => {
                self.restore_files_expanded = true;
            },
            PanelEvent::RestoreConfirmed => {
                self.files_to_restore = true;
                self.restore_files_expanded = false;
            },
            PanelEvent::RestoreFinished => {
                self.files_to_restore = false;
                self.restore_files_expanded = false;
            },
            PanelEvent::StatusShown => {
                self.terminal_expanded = true;
            },
            PanelEvent::TerminalToggled => {
                self.terminal_expanded = !self.terminal_expanded;
            },
            PanelEvent::ProjectChanged => {
                self.commit_input_expanded = false;
                self.untracked_files_expanded = false;
            },
            PanelEvent::Cleared => {
                self.commit_input_expanded = false;
                self.untracked_files_expanded = false;
                self.restore_files_expanded = false;
            },
        }
    }

    /// The add operation first lists the untracked files: unless they are
    /// shown or confirmed already.
    pub fn lists_untracked(&self) -> (res: bool)
        ensures
            res == (!self.untracked_files_expanded && !self.untracked_files_to_add),
    {
        !self.untracked_files_expanded && !self.untracked_files_to_add
    }

    /// The restore operation first lists the files to restore: unless they
    /// are shown or confirmed already.
    pub fn lists_restore(&self) -> (res: bool)
        ensures
            res == (!self.restore_files_expanded && !self.files_to_restore),
    {
        !self.restore_files_expanded && !self.files_to_restore
    }
}

/// Which buttons can be used.
#[derive(Debug, Clone, Copy, PartialEq, Eq)]
pub struct Buttons {
    pub push: bool,
    pub ignore: bool,
    pub status: bool,
    /// Add, Restore and Clone are offered with the advanced options only.
    pub add: bool,
    pub restore: bool,
    pub clone: bool,
}

/// Which buttons can be used: none while an operation runs; Push only with
/// staged files; Add, Restore and Clone only with the advanced options shown.
pub fn usable_buttons(state: &AppState, files_staged_empty: bool, advanced_options: bool) -> (b: Buttons)
    ensures
        b.push == (!(*state is Processing) && !files_staged_empty),
        b.ignore == !(*state is Processing),
        b.status == !(*state is Processing),
        b.add == (advanced_options && !(*state is Processing)),
        b.restore == (advanced_options && !(*state is Processing)),
        b.clone == (advanced_options && !(*state is Processing)),
{
    let free = !is_processing(state);
    Buttons {
        push: push_enabled(state, files_staged_empty),
        ignore: free,
        status: free,
        add: advanced_options && free,
        restore: advanced_options && free,
        clone: advanced_options && free,
    }
}

/// Resetting clears errors: the state becomes `Idle` and the commit input and
/// the file lists close.
pub fn reset(panels: &mut Panels) -> (state: AppState)
    ensures
        state is Idle,
        *final(panels) == old(panels).after(PanelEvent::Cleared),
{
    panels.apply(PanelEvent::Cleared);
    AppState::Idle
}

/// Aborting the running operation: the state becomes `Idle`, the commit input
/// and the file lists close, and the terminal says so.
pub fn abort(panels: &mut Panels) -> (res: (AppState, String))
    ensures
        res.0 is Idle,
        res.1@ == "Operation aborted"@,
        *final(panels) == old(panels).after(PanelEvent::Cleared),
{
    panels.apply(PanelEvent::Cleared);
    (AppState::Idle, owned("Operation aborted"))
}

/// What the state indicator says for a state; nothing when exiting.
pub open spec fn state_label_text(state: AppState) -> Option<Seq<char>> {
    match state {
        AppState::Idle => Some("\u{26aa} Waiting for operations..."@),
        AppState::Processing(op) => Some("\u{23f3} Processing: "@ + op@),
        AppState::Success(m) => Some(OK_TICK@ + " "@ + m@),
        AppState::Error(m) => Some(ERROR_TICK@ + " Error: "@ + m@),
        AppState::Searching => Some("Checking for changes..."@),
        AppState::Exit => None,
    }
}

/// What the state indicator says for a state; nothing when exiting.
pub fn state_label(state: &AppState) -> (label: Option<String>)
    ensures
        match state_label_text(*state) {
            Some(t) => label matches Some(l) && l@ == t,
            None => label is None,
        },
{
    match state {
        AppState::Idle => Some(owned("\u{26aa} Waiting for operations...")),
        AppState::Processing(op) => Some(concat2("\u{23f3} Processing: ", op.as_str())),
        AppState::Success(m) => Some(concat3(OK_TICK, " ", m.as_str())),
        AppState::Error(m) => Some(concat3(ERROR_TICK, " Error: ", m.as_str())),
        AppState::Searching => Some(owned("Checking for changes...")),
        AppState::Exit => None,
    }
}

/// The end of a confirmed push: what it reports; on success the staged files
/// are forgotten; the commit input closes.
pub fn finish_push(result: &Result<(), Error>, files_staged: &mut Vec<String>, panels: &mut Panels) -> (r: Report)
    ensures
        is_push_report(*result, r),
        result is Ok ==> final(files_staged)@.len() == 0,
        result is Err ==> final(files_staged)@ == old(files_staged)@,
        *final(panels) == old(panels).after(PanelEvent::PushFinished),
{
    let r = push_report(result);
    if result.is_ok() {
        files_staged.clear();
    }
    panels.apply(PanelEvent::PushFinished);
    r
}

/// Ignoring the local changes: the staged files are forgotten, and the
/// terminal and the state say so.
pub fn ignore_changes(files_staged: &mut Vec<String>) -> (r: Report)
    ensures
        final(files_staged)@.len() == 0,
        r.state matches Some(s) && is_success(s, "Changes ignored successfully"@),
        r.line matches Some(l) && l@ == OK_TICK@ + " Project changes discarded"@,
{
    files_staged.clear();
    Report {
        state: Some(AppState::Success(owned("Changes ignored successfully"))),
        line: Some(concat2(OK_TICK, " Project changes discarded")),
    }
}

/// After listing the untracked files: what it reports; on success the list shows.
pub fn after_untracked_listed(result: &Result<(), Error>, panels: &mut Panels) -> (r: Report)
    ensures
        is_untracked_list_report(*result, r),
        result is Ok ==> *final(panels) == old(panels).after(PanelEvent::UntrackedListed),
        result is Err ==> *final(panels) == *old(panels),
{
    if result.is_ok() {
        panels.apply(PanelEvent::UntrackedListed);
    }
    untracked_list_report(result)
}

/// After listing the files to restore: what it reports; on success the list shows.
pub fn after_restore_listed(result: &Result<(), Error>, panels: &mut Panels) -> (r: Report)
    ensures
        is_restore_list_report(*result, r),
        result is Ok ==> *final(panels) == old(panels).after(PanelEvent::RestoreListed),
        result is Err ==> *final(panels) == *old(panels),
{
    if result.is_ok() {
        panels.apply(PanelEvent::RestoreListed);
    }
    restore_list_report(result)
}

/// After restoring the confirmed files: what it reports; the list closes and
/// the confirmation is spent, whatever the outcome.
pub fn after_restore(result: &Result<(), Error>, restore_files: &Vec<(bool, String, bool)>, panels: &mut Panels) -> (r: Report)
    ensures
        is_restore_report(*result, restore_files@, r),
        *final(panels) == old(panels).after(PanelEvent::RestoreFinished),
{
    let r = restore_report(result, restore_files);
    panels.apply(PanelEvent::RestoreFinished);
    r
}

/// Ticks every untracked file, keeping the names.
pub fn tick_all_untracked(files: &mut Vec<(bool, String)>)
    ensures
        final(files)@.len() == old(files)@.len(),
        forall|i: int| 0 <= i < final(files)@.len() ==> (#[trigger] final(files)@[i]).0
            && final(files)@[i].1@ == old(files)@[i].1@,
{
    let mut ticked: Vec<(bool, String)> = Vec::new();
    for i in 0..files.len()
        invariant
            ticked@.len() == i,
            forall|j: int| 0 <= j < i ==> (#[trigger] ticked@[j]).0 && ticked@[j].1@ == files@[j].1@,
    {
        ticked.push((true, copy_string(&files[i].1)));
    }
    *files = ticked;
}

/// Ticks every file to restore, keeping the names and the staged flags.
pub fn tick_all_restore(files: &mut Vec<(bool, String, bool)>)
    ensures
        final(files)@.len() == old(files)@.len(),
        forall|i: int| 0 <= i < final(files)@.len() ==> (#[trigger] final(files)@[i]).0
            && final(files)@[i].1@ == old(files)@[i].1@ && final(files)@[i].2 == old(files)@[i].2,
{
    let mut ticked: Vec<(bool, String, bool)> = Vec::new();
    for i in 0..files.len()
        invariant
            ticked@.len() == i,
            forall|j: int| 0 <= j < i ==> (#[trigger] ticked@[j]).0 && ticked@[j].1@ == files@[j].1@
                && ticked@[j].2 == files@[j].2,
    {
        ticked.push((true, copy_string(&files[i].1), files[i].2));
    }
    *files = ticked;
}

/// What choosing a new project path reports.
pub fn project_set_report(path: &str) -> (r: Report)
    ensures
        r.state matches Some(s) && is_success(s, "New project path set "@ + path@),
        r.line matches Some(l) && l@ == OK_TICK@ + " New project path set "@ + path@,
{
    Report {
        state: Some(AppState::Success(concat2("New project path set ", path))),
        line: Some(concat3(OK_TICK, " New project path set ", path)),
    }
}

} // verus!

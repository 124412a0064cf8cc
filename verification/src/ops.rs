//! The repository operations. Each is a short sequence of git runs with a
//! decision after each: an operation hands back either a git run to perform
//! (and the operation's state to resume with its result) or its outcome,
//! together with the alert to show the user, if any.
use vstd::prelude::*;
use crate::error::{Error, IoErrorKind, ProcessOutput, error_text, views, io_error, copy_string};
use crate::status::{LineFilter, parsable, pick_files, status_files, status_lines, status_text};
use crate::text::{contains, latin1, chars_of, str_contains};

verus! {

/// A git run that an operation asks for: these arguments, in this directory.
#[derive(Debug, PartialEq, Eq)]
pub struct GitRequest {
    pub args: Vec<String>,
    pub dir: String,
}

/// The next step of an operation.
#[derive(Debug, PartialEq, Eq)]
pub enum Step<S, T> {
    /// Run git as asked, then resume the operation's state with the result.
    Git(S, GitRequest),
    /// The operation is over, with this outcome and, if any, an alert to show.
    Done(T, Option<String>),
}

/// What staging the modified files came to.
#[derive(Debug, Clone, Copy, PartialEq, Eq)]
pub enum ChangesStaged {
    /// The modified files were added to the commit.
    Staged,
    /// Nothing was added: no project, or the modified files were all staged before.
    Ingored,
}

/// The request runs git with these arguments in this directory.
pub open spec fn requests(req: GitRequest, args: Seq<Seq<char>>, dir: Seq<char>) -> bool {
    views(req.args@) == args && req.dir@ == dir
}

/// The text that tells the user an operation failed.
pub open spec fn alert_text(lead: Seq<char>, e: Error) -> Seq<char> {
    lead + ", check your internet connection or the selected project path\n"@ + error_text(e)
}

/// The error given when no project is selected.
pub open spec fn is_not_set_error(e: Error) -> bool {
    e is Io && e->Io_0.kind == IoErrorKind::NotFound && e->Io_0.message@ == "path file not set!"@
}

/// The names of the entries that are ticked, in order.
pub open spec fn ticked(v: Seq<(bool, String)>) -> Seq<Seq<char>>
    decreases v.len(),
{
    if v.len() == 0 {
        Seq::<Seq<char>>::empty()
    } else if v.last().0 {
        ticked(v.drop_last()).push(v.last().1@)
    } else {
        ticked(v.drop_last())
    }
}

/// The names of the entries that are ticked and whose staged flag is `staged`, in order.
pub open spec fn ticked_restore(v: Seq<(bool, String, bool)>, staged: bool) -> Seq<Seq<char>>
    decreases v.len(),
{
    if v.len() == 0 {
        Seq::<Seq<char>>::empty()
    } else if v.last().0 && v.last().2 == staged {
        ticked_restore(v.drop_last(), staged).push(v.last().1@)
    } else {
        ticked_restore(v.drop_last(), staged)
    }
}

/// Entries of the untracked files list, as views.
pub open spec fn entries2(v: Seq<(bool, String)>) -> Seq<(bool, Seq<char>)> {
    v.map_values(|t: (bool, String)| (t.0, t.1@))
}

/// Entries of the files-to-restore list, as views.
pub open spec fn entries3(v: Seq<(bool, String, bool)>) -> Seq<(bool, Seq<char>, bool)> {
    v.map_values(|t: (bool, String, bool)| (t.0, t.1@, t.2))
}

/// Every file of `files` is among `known`.
pub open spec fn all_among(files: Seq<Seq<char>>, known: Seq<Seq<char>>) -> bool {
    forall|i: int| 0 <= i < files.len() ==> known.contains(#[trigger] files[i])
}

// ------------------------------------------------------------------ helpers

/// A list of arguments holding one argument.
fn arg_list(a: &str) -> (v: Vec<String>)
    ensures
        views(v@) == seq![a@],
{
    let mut v: Vec<String> = Vec::new();
    v.push(String::from_str(a));
    assert(views(v@) =~= seq![a@]);
    v
}

/// A list of arguments holding two arguments.
fn arg_list2(a: &str, b: &str) -> (v: Vec<String>)
    ensures
        views(v@) == seq![a@, b@],
{
    let mut v = arg_list(a);
    push_arg(&mut v, b);
    assert(views(v@) =~= seq![a@, b@]);
    v
}

/// Appends one argument.
fn push_arg(v: &mut Vec<String>, a: &str)
    ensures
        views(final(v)@) == views(old(v)@).push(a@),
{
    let s = String::from_str(a);
    v.push(s);
    assert(views(v@) =~= views(old(v)@).push(a@));
}

/// Appends copies of all the strings of `files`.
fn push_all(v: &mut Vec<String>, files: &Vec<String>)
    ensures
        views(final(v)@) == views(old(v)@) + views(files@),
{
    for i in 0..files.len()
        invariant
            views(v@) == views(old(v)@) + views(files@.take(i as int)),
    {
        let ghost before = v@;
        let s = copy_string(&files[i]);
        v.push(s);
        assert(views(v@) =~= views(before).push(s@));
        assert(files@.take(i as int + 1) == files@.take(i as int).push(files@[i as int]));
        assert(views(files@.take(i as int + 1)) =~= views(files@.take(i as int)).push(files@[i as int]@));
    }
    assert(files@.take(files.len() as int) == files@);
}

/// The request to run git with `args` in `dir`.
fn request(args: Vec<String>, dir: &String) -> (req: GitRequest)
    ensures
        req.args == args,
        req.dir@ == dir@,
{
    GitRequest { args, dir: copy_string(dir) }
}

/// The alert shown when an operation fails.
fn alert(lead: &str, e: &Error) -> (text: String)
    ensures
        text@ == alert_text(lead@, *e),
{
    let mut t = String::from_str(lead);
    t.append(", check your internet connection or the selected project path\n");
    let m = e.message();
    t.append(m.as_str());
    t
}

/// The error given when no project is selected.
pub fn not_set_error() -> (e: Error)
    ensures
        is_not_set_error(e),
{
    io_error(IoErrorKind::NotFound, "path file not set!")
}

/// Whether `s` is one of `known`.
fn is_among(s: &String, known: &Vec<String>) -> (res: bool)
    ensures
        res == views(known@).contains(s@),
{
    for i in 0..known.len()
        invariant
            forall|j: int| 0 <= j < i ==> known@[j]@ != s@,
    {
        if known[i] == *s {
            assert(views(known@)[i as int] == s@);
            return true;
        }
    }
    assert forall|j: int| 0 <= j < views(known@).len() implies views(known@)[j] != s@ by {
        assert(views(known@)[j] == known@[j]@);
    }
    false
}

/// Whether every file of `files` is one of `known`.
fn all_among_exec(files: &Vec<String>, known: &Vec<String>) -> (res: bool)
    ensures
        res == all_among(views(files@), views(known@)),
{
    for i in 0..files.len()
        invariant
            forall|j: int| 0 <= j < i ==> views(known@).contains(#[trigger] views(files@)[j]),
    {
        if !is_among(&files[i], known) {
            assert(views(files@)[i as int] == files@[i as int]@);
            return false;
        }
        assert(views(files@)[i as int] == files@[i as int]@);
    }
    true
}

// ------------------------------------------------------------------ update

/// Where bringing the local repository up to date stands.
#[derive(Debug, Clone, Copy, PartialEq, Eq)]
pub enum UpdateStage {
    Fetching,
    UpdatingRemote,
    ReadingStatus,
}

/// Bringing the local repository up to date with the remote.
#[derive(Debug, PartialEq, Eq)]
pub struct UpdateLocal {
    pub dir: String,
    pub stage: UpdateStage,
}

/// Brings the local repository up to date (`git fetch`, `git remote update`)
/// and reads its status (`git status`). Without a project it ends at once with
/// no status and an alert.
pub fn lib_git_update_local(project_path: &Option<String>) -> (res: Step<UpdateLocal, Option<String>>)
    ensures
        project_path is None ==> (res matches Step::Done(None, Some(a)) && a@
            == "Project path not selected"@),
        project_path matches Some(p) ==> (res matches Step::Git(s, req) && s.stage is Fetching
            && s.dir@ == p@ && requests(req, seq!["fetch"@], p@)),
{
    match project_path {
        None => Step::Done(None, Some(String::from_str("Project path not selected"))),
        Some(p) => Step::Git(
            UpdateLocal { dir: copy_string(p), stage: UpdateStage::Fetching },
            request(arg_list("fetch"), p),
        ),
    }
}

impl UpdateLocal {
    /// Goes on after a git run ended with `result`. A failed fetch or status
    /// ends the update; a failed `remote update` ends it too, unless its error
    /// text holds `->`.
    pub fn resume(self, result: Result<ProcessOutput, Error>) -> (res: Step<UpdateLocal, Option<String>>)
        ensures
            self.stage is Fetching ==> match result {
                Err(e) => (res matches Step::Done(None, Some(a)) && a@ == error_text(e)),
                Ok(_) => (res matches Step::Git(s, req) && s.stage is UpdatingRemote && s.dir@
                    == self.dir@ && requests(req, seq!["remote"@, "update"@], self.dir@)),
            },
            self.stage is UpdatingRemote ==> match result {
                Err(e) => if contains(error_text(e), "->"@) {
                    res matches Step::Git(s, req) && s.stage is ReadingStatus && s.dir@ == self.dir@
                        && requests(req, seq!["status"@], self.dir@)
                } else {
                    res matches Step::Done(None, Some(a)) && a@ == error_text(e)
                },
                Ok(_) => (res matches Step::Git(s, req) && s.stage is ReadingStatus && s.dir@
                    == self.dir@ && requests(req, seq!["status"@], self.dir@)),
            },
            self.stage is ReadingStatus ==> match result {
                Err(e) => (res matches Step::Done(None, Some(a)) && a@ == error_text(e)),
                Ok(out) => (res matches Step::Done(Some(text), None) && text@ == latin1(out.stdout@)),
            },
    {
        match self.stage {
            UpdateStage::Fetching => match result {
                Err(e) => Step::Done(None, Some(e.message())),
                Ok(_) => {
                    let args = arg_list2("remote", "update");
                    let req = request(args, &self.dir);
                    Step::Git(UpdateLocal { dir: self.dir, stage: UpdateStage::UpdatingRemote }, req)
                },
            },
            UpdateStage::UpdatingRemote => {
                let go_on = match &result {
                    Err(e) => {
                        let m = e.message();
                        let mc = chars_of(m.as_str());
                        str_contains(mc.as_slice(), "->")
                    },
                    Ok(_) => true,
                };
                if go_on {
                    let req = request(arg_list("status"), &self.dir);
                    Step::Git(UpdateLocal { dir: self.dir, stage: UpdateStage::ReadingStatus }, req)
                } else {
                    match result {
                        Err(e) => Step::Done(None, Some(e.message())),
                        Ok(_) => {
                            proof {
                                assert(false);
                            }
                            Step::Done(None, None)
                        },
                    }
                }
            },
            UpdateStage::ReadingStatus => match result {
                Err(e) => Step::Done(None, Some(e.message())),
                Ok(out) => Step::Done(Some(status_text(out.stdout.as_slice())), None),
            },
        }
    }
}

// ------------------------------------------------------------------ status

/// Reading the status of the repository.
#[derive(Debug, PartialEq, Eq)]
pub struct StatusRead;

/// Reads the status of the repository (`git status`); without a project there
/// is no status and no alert.
pub fn lib_git_status(project_path: &Option<String>) -> (res: Step<StatusRead, Option<String>>)
    ensures
        project_path is None ==> (res matches Step::Done(None, None)),
        project_path matches Some(p) ==> (res matches Step::Git(_, req) && requests(
            req,
            seq!["status"@],
            p@,
        )),
{
    match project_path {
        None => Step::Done(None, None),
        Some(p) => Step::Git(StatusRead, request(arg_list("status"), p)),
    }
}

impl StatusRead {
    /// The status text, or an alert with the error.
    pub fn resume(self, result: Result<ProcessOutput, Error>) -> (res: Step<StatusRead, Option<String>>)
        ensures
            match result {
                Err(e) => (res matches Step::Done(None, Some(a)) && a@ == error_text(e)),
                Ok(out) => (res matches Step::Done(Some(text), None) && text@ == latin1(out.stdout@)),
            },
    {
        match result {
            Err(e) => Step::Done(None, Some(e.message())),
            Ok(out) => Step::Done(Some(status_text(out.stdout.as_slice())), None),
        }
    }
}

// ------------------------------------------------------------------ pull

/// Pulling from the remote.
#[derive(Debug, PartialEq, Eq)]
pub struct Pull;

/// Pulls from the remote (`git pull`) into the selected project.
pub fn lib_make_pull(project_path: &Option<String>) -> (res: Step<Pull, Result<(), Error>>)
    requires
        project_path is Some,
    ensures
        res matches Step::Git(_, req) && requests(req, seq!["pull"@], project_path->0@),
{
    match project_path {
        Some(p) => Step::Git(Pull, request(arg_list("pull"), p)),
        None => {
            proof {
                assert(false);
            }
            Step::Done(Ok(()), None)
        },
    }
}

impl Pull {
    /// The pull's outcome; a failure comes with an alert.
    pub fn resume(self, result: Result<ProcessOutput, Error>) -> (res: Step<Pull, Result<(), Error>>)
        ensures
            match result {
                Err(e) => (res matches Step::Done(Err(e2), Some(a)) && e2 == e && a@ == alert_text(
                    "Could not execute pull"@,
                    e,
                )),
                Ok(_) => (res matches Step::Done(Ok(()), None)),
            },
    {
        match result {
            Err(e) => {
                let a = alert("Could not execute pull", &e);
                Step::Done(Err(e), Some(a))
            },
            Ok(_) => Step::Done(Ok(()), None),
        }
    }
}

// ------------------------------------------------------------------ stage

/// Where staging the modified files stands.
#[derive(Debug, Clone, Copy, PartialEq, Eq)]
pub enum StageStage {
    ReadingStatus,
    Adding,
}

/// Staging the modified files for the next commit.
#[derive(Debug, PartialEq, Eq)]
pub struct StageChanges {
    pub dir: String,
    pub stage: StageStage,
}

/// Stages the modified files (`git status -s`, then `git add`); without a
/// project nothing is staged.
pub fn lib_stage_changes(project_path: &Option<String>) -> (res: Step<StageChanges, Result<ChangesStaged, Error>>)
    ensures
        project_path is None ==> (res matches Step::Done(Ok(ChangesStaged::Ingored), None)),
        project_path matches Some(p) ==> (res matches Step::Git(s, req) && s.stage is ReadingStatus
            && s.dir@ == p@ && requests(req, seq!["status"@, "-s"@], p@)),
{
    match project_path {
        None => Step::Done(Ok(ChangesStaged::Ingored), None),
        Some(p) => {
            let args = arg_list2("status", "-s");
            Step::Git(StageChanges { dir: copy_string(p), stage: StageStage::ReadingStatus }, request(args, p))
        },
    }
}

impl StageChanges {
    /// Goes on after a git run ended with `result`. After the status: if every
    /// modified file is already in `files_staged` nothing is done; otherwise
    /// `files_staged` becomes the modified files and they are added.
    pub fn resume(self, result: Result<ProcessOutput, Error>, files_staged: &mut Vec<String>) -> (res: Step<StageChanges, Result<ChangesStaged, Error>>)
        requires
            self.stage is ReadingStatus && result is Ok ==> parsable(
                status_lines(result->Ok_0.stdout@),
                LineFilter::Modified,
            ),
        ensures
            self.stage is ReadingStatus ==> match result {
                Err(e) => (res matches Step::Done(Err(e2), Some(a)) && e2 == e && a@ == alert_text(
                    "Could not execute the remote repository status"@,
                    e,
                ) && final(files_staged)@ == old(files_staged)@),
                Ok(out) => {
                    let modified = status_files(out.stdout@, LineFilter::Modified);
                    if all_among(modified, views(old(files_staged)@)) {
                        res matches Step::Done(Ok(ChangesStaged::Ingored), None)
                            && final(files_staged)@ == old(files_staged)@
                    } else {
                        &&& views(final(files_staged)@) == modified
                        &&& res matches Step::Git(s, req) && s.stage is Adding && s.dir@ == self.dir@
                            && requests(req, seq!["add"@] + modified, self.dir@)
                    }
                },
            },
            self.stage is Adding ==> final(files_staged)@ == old(files_staged)@ && match result {
                Err(e) => (res matches Step::Done(Err(e2), Some(a)) && e2 == e && a@ == alert_text(
                    "Could not commit the changes"@,
                    e,
                )),
                Ok(_) => (res matches Step::Done(Ok(ChangesStaged::Staged), None)),
            },
    {
        match self.stage {
            StageStage::ReadingStatus => match result {
                Err(e) => {
                    let a = alert("Could not execute the remote repository status", &e);
                    Step::Done(Err(e), Some(a))
                },
                Ok(out) => {
                    let modified = pick_files(out.stdout.as_slice(), LineFilter::Modified);
                    if all_among_exec(&modified, files_staged) {
                        return Step::Done(Ok(ChangesStaged::Ingored), None);
                    }
                    let mut args = arg_list("add");
                    push_all(&mut args, &modified);
                    *files_staged = modified;
                    let req = request(args, &self.dir);
                    Step::Git(StageChanges { dir: self.dir, stage: StageStage::Adding }, req)
                },
            },
            StageStage::Adding => match result {
                Err(e) => {
                    let a = alert("Could not commit the changes", &e);
                    Step::Done(Err(e), Some(a))
                },
                Ok(_) => Step::Done(Ok(ChangesStaged::Staged), None),
            },
        }
    }
}

// ------------------------------------------------------------------ push

/// Where committing and pushing stands.
#[derive(Debug, Clone, Copy, PartialEq, Eq)]
pub enum PushStage {
    Committing,
    Pushing,
}

/// Committing the staged changes and pushing them.
#[derive(Debug, PartialEq, Eq)]
pub struct Push {
    pub dir: String,
    pub stage: PushStage,
}

/// Commits the staged changes with the message (`git commit -m`) and pushes
/// them (`git push`); without a project it fails at once.
pub fn lib_make_push(project_path: &Option<String>, commit_message: &String) -> (res: Step<Push, Result<(), Error>>)
    ensures
        project_path is None ==> (res matches Step::Done(Err(e), None) && is_not_set_error(e)),
        project_path matches Some(p) ==> (res matches Step::Git(s, req) && s.stage is Committing
            && s.dir@ == p@ && requests(req, seq!["commit"@, "-m"@, commit_message@], p@)),
{
    match project_path {
        None => Step::Done(Err(not_set_error()), None),
        Some(p) => {
            let mut args = arg_list2("commit", "-m");
            push_arg(&mut args, commit_message.as_str());
            assert(views(args@) =~= seq!["commit"@, "-m"@, commit_message@]);
            Step::Git(Push { dir: copy_string(p), stage: PushStage::Committing }, request(args, p))
        },
    }
}

impl Push {
    /// Goes on after a git run ended with `result`: a commit is followed by the
    /// push; a failure ends the operation with an alert.
    pub fn resume(self, result: Result<ProcessOutput, Error>) -> (res: Step<Push, Result<(), Error>>)
        ensures
            self.stage is Committing ==> match result {
                Err(e) => (res matches Step::Done(Err(e2), Some(a)) && e2 == e && a@ == alert_text(
                    "Could not commit changes"@,
                    e,
                )),
                Ok(_) => (res matches Step::Git(s, req) && s.stage is Pushing && s.dir@ == self.dir@
                    && requests(req, seq!["push"@], self.dir@)),
            },
            self.stage is Pushing ==> match result {
                Err(e) => (res matches Step::Done(Err(e2), Some(a)) && e2 == e && a@ == alert_text(
                    "Could not complete the push"@,
                    e,
                )),
                Ok(_) => (res matches Step::Done(Ok(()), None)),
            },
    {
        match self.stage {
            PushStage::Committing => match result {
                Err(e) => {
                    let a = alert("Could not commit changes", &e);
                    Step::Done(Err(e), Some(a))
                },
                Ok(_) => {
                    let req = request(arg_list("push"), &self.dir);
                    Step::Git(Push { dir: self.dir, stage: PushStage::Pushing }, req)
                },
            },
            PushStage::Pushing => match result {
                Err(e) => {
                    let a = alert("Could not complete the push", &e);
                    Step::Done(Err(e), Some(a))
                },
                Ok(_) => Step::Done(Ok(()), None),
            },
        }
    }
}

// ------------------------------------------------------------------ untracked

/// Listing the untracked files.
#[derive(Debug, PartialEq, Eq)]
pub struct UntrackedList;

/// Lists the untracked files (`git status -s`); without a project it fails at once.
pub fn lib_get_untracked_files(project_path: &Option<String>) -> (res: Step<UntrackedList, Result<(), Error>>)
    ensures
        project_path is None ==> (res matches Step::Done(Err(e), None) && is_not_set_error(e)),
        project_path matches Some(p) ==> (res matches Step::Git(_, req) && requests(
            req,
            seq!["status"@, "-s"@],
            p@,
        )),
{
    match project_path {
        None => Step::Done(Err(not_set_error()), None),
        Some(p) => {
            let args = arg_list2("status", "-s");
            Step::Git(UntrackedList, request(args, p))
        },
    }
}

impl UntrackedList {
    /// On success the list becomes the untracked files, none of them ticked.
    pub fn resume(self, result: Result<ProcessOutput, Error>, untracked_files_vec: &mut Vec<(bool, String)>) -> (res: Step<UntrackedList, Result<(), Error>>)
        requires
            result is Ok ==> parsable(status_lines(result->Ok_0.stdout@), LineFilter::Untracked),
        ensures
            match result {
                Err(e) => (res matches Step::Done(Err(e2), Some(a)) && e2 == e && a@ == alert_text(
                    "Could not complete status"@,
                    e,
                ) && final(untracked_files_vec)@ == old(untracked_files_vec)@),
                Ok(out) => (res matches Step::Done(Ok(()), None) && entries2(
                    final(untracked_files_vec)@,
                ) == status_files(out.stdout@, LineFilter::Untracked).map_values(
                    |f: Seq<char>| (false, f),
                )),
            },
    {
        match result {
            Err(e) => {
                let a = alert("Could not complete status", &e);
                Step::Done(Err(e), Some(a))
            },
            Ok(out) => {
                let files = pick_files(out.stdout.as_slice(), LineFilter::Untracked);
                let ghost fv = views(files@);
                let mut entries: Vec<(bool, String)> = Vec::new();
                for i in 0..files.len()
                    invariant
                        fv == views(files@),
                        entries2(entries@) == fv.take(i as int).map_values(|f: Seq<char>| (false, f)),
                {
                    let ghost before = entries@;
                    let s = copy_string(&files[i]);
                    entries.push((false, s));
                    assert(entries2(entries@) =~= entries2(before).push((false, s@)));
                    assert(fv.take(i as int + 1) == fv.take(i as int).push(fv[i as int]));
                    assert(fv.take(i as int + 1).map_values(|f: Seq<char>| (false, f)) =~= fv.take(
                        i as int,
                    ).map_values(|f: Seq<char>| (false, f)).push((false, fv[i as int])));
                }
                assert(fv.take(files.len() as int) == fv);
                *untracked_files_vec = entries;
                Step::Done(Ok(()), None)
            },
        }
    }
}

// ------------------------------------------------------------------ add

/// Adding the ticked untracked files.
#[derive(Debug, PartialEq, Eq)]
pub struct AddFiles;

/// The names of the ticked entries, in order.
fn ticked_names(v: &Vec<(bool, String)>) -> (names: Vec<String>)
    ensures
        views(names@) == ticked(v@),
{
    let mut names: Vec<String> = Vec::new();
    for i in 0..v.len()
        invariant
            views(names@) == ticked(v@.take(i as int)),
    {
        let ghost before = names@;
        assert(v@.take(i as int + 1).drop_last() == v@.take(i as int));
        assert(v@.take(i as int + 1).last() == v@[i as int]);
        if v[i].0 {
            let s = copy_string(&v[i].1);
            names.push(s);
            assert(views(names@) =~= views(before).push(s@));
        }
    }
    assert(v@.take(v.len() as int) == v@);
    names
}

/// Adds the ticked untracked files (`git add` with their names, in order);
/// without a project it fails at once.
pub fn lib_git_add(project_path: &Option<String>, untracked_files_vec: &Vec<(bool, String)>) -> (res: Step<AddFiles, Result<(), Error>>)
    ensures
        project_path is None ==> (res matches Step::Done(Err(e), None) && is_not_set_error(e)),
        project_path matches Some(p) ==> (res matches Step::Git(_, req) && requests(
            req,
            seq!["add"@] + ticked(untracked_files_vec@),
            p@,
        )),
{
    match project_path {
        None => Step::Done(Err(not_set_error()), None),
        Some(p) => {
            let names = ticked_names(untracked_files_vec);
            let mut args = arg_list("add");
            push_all(&mut args, &names);
            Step::Git(AddFiles, request(args, p))
        },
    }
}

impl AddFiles {
    /// The outcome of adding; a failure comes with an alert.
    pub fn resume(self, result: Result<ProcessOutput, Error>) -> (res: Step<AddFiles, Result<(), Error>>)
        ensures
            match result {
                Err(e) => (res matches Step::Done(Err(e2), Some(a)) && e2 == e && a@ == alert_text(
                    "Could not add files to commit"@,
                    e,
                )),
                Ok(_) => (res matches Step::Done(Ok(()), None)),
            },
    {
        match result {
            Err(e) => {
                let a = alert("Could not add files to commit", &e);
                Step::Done(Err(e), Some(a))
            },
            Ok(_) => Step::Done(Ok(()), None),
        }
    }
}

// ------------------------------------------------------------------ restore list

/// Listing the modified files that can be restored.
#[derive(Debug, PartialEq, Eq)]
pub struct RestoreList;

/// Empties the list, then lists the modified files (`git status -s`); without
/// a project it fails at once.
pub fn lib_get_files_to_restore(project_path: &Option<String>, restore_files_vec: &mut Vec<(bool, String, bool)>) -> (res: Step<RestoreList, Result<(), Error>>)
    ensures
        final(restore_files_vec)@.len() == 0,
        project_path is None ==> (res matches Step::Done(Err(e), None) && is_not_set_error(e)),
        project_path matches Some(p) ==> (res matches Step::Git(_, req) && requests(
            req,
            seq!["status"@, "-s"@],
            p@,
        )),
{
    restore_files_vec.clear();
    match project_path {
        None => Step::Done(Err(not_set_error()), None),
        Some(p) => {
            let args = arg_list2("status", "-s");
            Step::Git(RestoreList, request(args, p))
        },
    }
}

/// Appends an entry, not ticked, for each file, with the given staged flag.
fn push_restore_entries(v: &mut Vec<(bool, String, bool)>, files: &Vec<String>, staged: bool)
    ensures
        entries3(final(v)@) == entries3(old(v)@) + views(files@).map_values(
            |f: Seq<char>| (false, f, staged),
        ),
{
    let ghost fv = views(files@);
    for i in 0..files.len()
        invariant
            fv == views(files@),
            entries3(v@) == entries3(old(v)@) + fv.take(i as int).map_values(
                |f: Seq<char>| (false, f, staged),
            ),
    {
        let ghost before = v@;
        let s = copy_string(&files[i]);
        v.push((false, s, staged));
        assert(entries3(v@) =~= entries3(before).push((false, s@, staged)));
        assert(fv.take(i as int + 1) == fv.take(i as int).push(fv[i as int]));
        assert(fv.take(i as int + 1).map_values(|f: Seq<char>| (false, f, staged)) =~= fv.take(
            i as int,
        ).map_values(|f: Seq<char>| (false, f, staged)).push((false, fv[i as int], staged)));
    }
    assert(fv.take(files.len() as int) == fv);
}

impl RestoreList {
    /// On success the files with staged changes are appended to the list, then
    /// those with changes not staged, none of them ticked.
    pub fn resume(self, result: Result<ProcessOutput, Error>, restore_files_vec: &mut Vec<(bool, String, bool)>) -> (res: Step<RestoreList, Result<(), Error>>)
        requires
            result is Ok ==> parsable(status_lines(result->Ok_0.stdout@), LineFilter::StagedChange)
                && parsable(status_lines(result->Ok_0.stdout@), LineFilter::UnstagedChange),
        ensures
            match result {
                Err(e) => (res matches Step::Done(Err(e2), Some(a)) && e2 == e && a@ == alert_text(
                    "Could not complete status"@,
                    e,
                ) && final(restore_files_vec)@ == old(restore_files_vec)@),
                Ok(out) => (res matches Step::Done(Ok(()), None) && entries3(
                    final(restore_files_vec)@,
                ) == entries3(old(restore_files_vec)@) + status_files(
                    out.stdout@,
                    LineFilter::StagedChange,
                ).map_values(|f: Seq<char>| (false, f, true)) + status_files(
                    out.stdout@,
                    LineFilter::UnstagedChange,
                ).map_values(|f: Seq<char>| (false, f, false))),
            },
    {
        match result {
            Err(e) => {
                let a = alert("Could not complete status", &e);
                Step::Done(Err(e), Some(a))
            },
            Ok(out) => {
                let staged = pick_files(out.stdout.as_slice(), LineFilter::StagedChange);
                let unstaged = pick_files(out.stdout.as_slice(), LineFilter::UnstagedChange);
                push_restore_entries(restore_files_vec, &staged, true);
                push_restore_entries(restore_files_vec, &unstaged, false);
                Step::Done(Ok(()), None)
            },
        }
    }
}

// ------------------------------------------------------------------ restore

/// The number of ticked entries of a files-to-restore list.
pub open spec fn ticked_total(v: Seq<(bool, String, bool)>) -> nat
    decreases v.len(),
{
    if v.len() == 0 {
        0
    } else if v.last().0 {
        ticked_total(v.drop_last()) + 1
    } else {
        ticked_total(v.drop_last())
    }
}

/// Restoring covers every ticked file exactly once: each ticked entry goes
/// either to the run for staged changes or to the one for changes not staged.
pub proof fn law_restore_covers_ticked(v: Seq<(bool, String, bool)>)
    ensures
        ticked_restore(v, true).len() + ticked_restore(v, false).len() == ticked_total(v),
    decreases v.len(),
{
    if v.len() > 0 {
        law_restore_covers_ticked(v.drop_last());
    }
}

/// Staging again from the same status output adds nothing: once the modified
/// files were staged, they are all among the staged files.
pub proof fn law_restaging_is_ignored(out: Seq<u8>)
    ensures
        all_among(
            status_files(out, LineFilter::Modified),
            status_files(out, LineFilter::Modified),
        ),
{
    let m = status_files(out, LineFilter::Modified);
    assert forall|i: int| 0 <= i < m.len() implies m.contains(#[trigger] m[i]) by {
        assert(m[i] == m[i]);
    }
}

/// Where restoring stands.
#[derive(Debug, Clone, Copy, PartialEq, Eq)]
pub enum RestoreStage {
    RestoringStaged,
    RestoringUnstaged,
}

/// Restoring the ticked files.
#[derive(Debug, PartialEq, Eq)]
pub struct Restore {
    pub dir: String,
    /// The ticked files whose changes are not staged.
    pub unstaged: Vec<String>,
    pub stage: RestoreStage,
}

/// The names of the ticked entries with the given staged flag, in order.
fn ticked_restore_names(v: &Vec<(bool, String, bool)>, staged: bool) -> (names: Vec<String>)
    ensures
        views(names@) == ticked_restore(v@, staged),
{
    let mut names: Vec<String> = Vec::new();
    for i in 0..v.len()
        invariant
            views(names@) == ticked_restore(v@.take(i as int), staged),
    {
        let ghost before = names@;
        assert(v@.take(i as int + 1).drop_last() == v@.take(i as int));
        assert(v@.take(i as int + 1).last() == v@[i as int]);
        if v[i].0 && v[i].2 == staged {
            let s = copy_string(&v[i].1);
            names.push(s);
            assert(views(names@) =~= views(before).push(s@));
        }
    }
    assert(v@.take(v.len() as int) == v@);
    names
}

/// The request `git restore` for the files in `unstaged`, or nothing to do.
fn restore_unstaged(dir: String, unstaged: Vec<String>) -> (res: Step<Restore, Result<(), Error>>)
    ensures
        unstaged.len() == 0 ==> (res matches Step::Done(Ok(()), None)),
        unstaged.len() > 0 ==> (res matches Step::Git(s, req) && s.stage is RestoringUnstaged
            && s.dir@ == dir@ && requests(req, seq!["restore"@] + views(unstaged@), dir@)),
{
    if unstaged.len() == 0 {
        Step::Done(Ok(()), None)
    } else {
        let mut args = arg_list("restore");
        push_all(&mut args, &unstaged);
        let req = request(args, &dir);
        Step::Git(Restore { dir, unstaged, stage: RestoreStage::RestoringUnstaged }, req)
    }
}

/// Restores the ticked files: first those with staged changes
/// (`git restore --staged`), then those with changes not staged
/// (`git restore`), each run only when it has files; without a project it
/// fails at once.
pub fn lib_git_restore(project_path: &Option<String>, restore_files_vec: &Vec<(bool, String, bool)>) -> (res: Step<Restore, Result<(), Error>>)
    ensures
        project_path is None ==> (res matches Step::Done(Err(e), None) && is_not_set_error(e)),
        project_path matches Some(p) ==> {
            let staged = ticked_restore(restore_files_vec@, true);
            let unstaged = ticked_restore(restore_files_vec@, false);
            if staged.len() > 0 {
                res matches Step::Git(s, req) && s.stage is RestoringStaged && s.dir@ == p@
                    && views(s.unstaged@) == unstaged && requests(
                    req,
                    seq!["restore"@, "--staged"@] + staged,
                    p@,
                )
            } else if unstaged.len() > 0 {
                res matches Step::Git(s, req) && s.stage is RestoringUnstaged && s.dir@ == p@
                    && requests(req, seq!["restore"@] + unstaged, p@)
            } else {
                res matches Step::Done(Ok(()), None)
            }
        },
{
    match project_path {
        None => Step::Done(Err(not_set_error()), None),
        Some(p) => {
            let staged = ticked_restore_names(restore_files_vec, true);
            let unstaged = ticked_restore_names(restore_files_vec, false);
            if staged.len() > 0 {
                let mut args = arg_list2("restore", "--staged");
                push_all(&mut args, &staged);
                let req = request(args, p);
                Step::Git(Restore { dir: copy_string(p), unstaged, stage: RestoreStage::RestoringStaged }, req)
            } else {
                restore_unstaged(copy_string(p), unstaged)
            }
        },
    }
}

impl Restore {
    /// Goes on after a git run ended with `result`: after the staged files come
    /// the unstaged ones, if there are any; a failure ends the operation with
    /// an alert.
    pub fn resume(self, result: Result<ProcessOutput, Error>) -> (res: Step<Restore, Result<(), Error>>)
        ensures
            match result {
                Err(e) => (res matches Step::Done(Err(e2), Some(a)) && e2 == e && a@ == alert_text(
                    "Could not restore staged files"@,
                    e,
                )),
                Ok(_) => if self.stage is RestoringStaged && self.unstaged.len() > 0 {
                    res matches Step::Git(s, req) && s.stage is RestoringUnstaged && s.dir@
                        == self.dir@ && requests(req, seq!["restore"@] + views(self.unstaged@), self.dir@)
                } else {
                    res matches Step::Done(Ok(()), None)
                },
            },
    {
        match result {
            Err(e) => {
                let a = alert("Could not restore staged files", &e);
                Step::Done(Err(e), Some(a))
            },
            Ok(_) => match self.stage {
                RestoreStage::RestoringStaged => restore_unstaged(self.dir, self.unstaged),
                RestoreStage::RestoringUnstaged => Step::Done(Ok(()), None),
            },
        }
    }
}

/// The files `git add` gets are the names of the ticked entries, in order:
/// every ticked entry gives its name and no unticked entry does.
pub proof fn law_add_takes_exactly_the_ticked(v: Seq<(bool, String)>)
    ensures
        ticked(v) == v.filter(|t: (bool, String)| t.0).map_values(|t: (bool, String)| t.1@),
    decreases v.len(),
{
    reveal(Seq::filter);
    if v.len() > 0 {
        law_add_takes_exactly_the_ticked(v.drop_last());
        let sub = v.drop_last().filter(|t: (bool, String)| t.0);
        if v.last().0 {
            assert(sub.push(v.last()).map_values(|t: (bool, String)| t.1@) =~= sub.map_values(
                |t: (bool, String)| t.1@,
            ).push(v.last().1@));
        }
    }
}

/// The files restored in one run are the names of the ticked entries with
/// that staged flag, in order, and no other; and the two runs together count
/// every ticked entry once.
pub proof fn law_restore_takes_exactly_the_ticked(v: Seq<(bool, String, bool)>, staged: bool)
    ensures
        ticked_restore(v, staged) == v.filter(|t: (bool, String, bool)| t.0 && t.2 == staged).map_values(
            |t: (bool, String, bool)| t.1@,
        ),
        ticked_total(v) == v.filter(|t: (bool, String, bool)| t.0).len(),
    decreases v.len(),
{
    reveal(Seq::filter);
    if v.len() > 0 {
        law_restore_takes_exactly_the_ticked(v.drop_last(), staged);
        let sub = v.drop_last().filter(|t: (bool, String, bool)| t.0 && t.2 == staged);
        if v.last().0 && v.last().2 == staged {
            assert(sub.push(v.last()).map_values(|t: (bool, String, bool)| t.1@) =~= sub.map_values(
                |t: (bool, String, bool)| t.1@,
            ).push(v.last().1@));
        }
    }
}

/// Staging is skipped exactly when every modified file is already among the
/// staged files: a modified file that is not staged yet makes staging go on.
pub proof fn law_staging_skipped_only_when_all_staged(files: Seq<Seq<char>>, known: Seq<Seq<char>>)
    ensures
        all_among(files, known) <==> (forall|f: Seq<char>| files.contains(f) ==> known.contains(f)),
        forall|f: Seq<char>| files.contains(f) && !known.contains(f) ==> !all_among(files, known),
{
    if all_among(files, known) {
        assert forall|f: Seq<char>| files.contains(f) implies known.contains(f) by {
            let i = choose|i: int| 0 <= i < files.len() && files[i] == f;
            assert(known.contains(files[i]));
        }
    }
    if forall|f: Seq<char>| files.contains(f) ==> known.contains(f) {
        assert forall|i: int| 0 <= i < files.len() implies known.contains(#[trigger] files[i]) by {
            assert(files.contains(files[i]));
        }
    }
}

} // verus!

//! One run of git: the checks on the working directory that come before it,
//! and what its outcome is made into. The file-system and process work is done
//! by the caller, which performs each action and reports back an event.
use vstd::prelude::*;
use crate::error::{Error, IoError, IoErrorKind, ProcessError, ProcessOutput, views, io_error, copy_string};
use crate::path_safety::{PathPrefixKind, path_unsafe, has_blocked_prefix, leads_with_two_separators, check_path};

verus! {

/// Where a run of git stands.
#[derive(Debug, Clone, Copy, PartialEq, Eq)]
pub enum GitStage {
    /// The working directory passed the path check and is to be canonicalized.
    Canonicalizing,
    /// The canonical working directory's `.git` entry is to be looked at.
    Inspecting,
    /// The git process is running.
    Running,
    /// The outcome has been given.
    Finished,
}

/// What the caller is to do next.
#[derive(Debug, PartialEq, Eq)]
pub enum GitAction {
    /// Canonicalize the working directory.
    Canonicalize,
    /// Look whether `.git` in the canonical working directory is a symbolic
    /// link, and whether it is a directory.
    InspectGitDir,
    /// Run git with the arguments, in the canonical working directory if
    /// `in_dir`, else in the current one.
    Run { in_dir: bool },
    /// The run is over, with this outcome.
    Finish(Result<ProcessOutput, Error>),
}

/// What the caller reports back.
#[derive(Debug, PartialEq, Eq)]
pub enum GitEvent {
    Canonicalized(Result<(), IoError>),
    GitDirInspected { is_symlink: bool, is_dir: bool },
    Ran(Result<ProcessOutput, IoError>),
}

/// A run of `git` with some arguments, optionally in a working directory.
pub struct GitCall {
    pub args: Vec<String>,
    pub working_dir: Option<String>,
    /// The prefix kind found at the start of the working directory.
    pub prefix: PathPrefixKind,
    pub stage: GitStage,
}

/// The command line of a run: `git` and then the arguments.
pub open spec fn command_line(args: Seq<String>) -> Seq<Seq<char>> {
    seq!["git"@] + views(args)
}

/// Builds the command line `git` followed by the arguments.
pub fn command_of(args: &Vec<String>) -> (cmd: Vec<String>)
    ensures
        views(cmd@) == command_line(args@),
{
    let mut cmd: Vec<String> = Vec::new();
    cmd.push(String::from_str("git"));
    for i in 0..args.len()
        invariant
            views(cmd@) == command_line(args@.take(i as int)),
    {
        let ghost before = cmd@;
        let s = copy_string(&args[i]);
        cmd.push(s);
        assert(cmd@ == before.push(s));
        assert(views(cmd@) =~= views(before).push(s@));
        assert(args@.take(i as int + 1) == args@.take(i as int).push(args@[i as int]));
        assert(views(args@.take(i as int + 1)) =~= views(args@.take(i as int)).push(args@[i as int]@));
        assert(views(cmd@) =~= command_line(args@.take(i as int + 1)));
    }
    assert(args@.take(args.len() as int) == args@);
    cmd
}

impl GitCall {
    /// The checks passed so far hold: a working directory that is being
    /// canonicalized, inspected or run in was not refused by the path check.
    pub open spec fn inv(&self) -> bool {
        &&& (self.stage is Canonicalizing || self.stage is Inspecting) ==> self.working_dir is Some
        &&& self.stage !is Finished && self.working_dir is Some ==> !path_unsafe(
            self.working_dir->0@,
            self.prefix,
        )
    }

    /// The event is one that the current stage waits for.
    pub open spec fn accepts(&self, event: GitEvent) -> bool {
        match self.stage {
            GitStage::Canonicalizing => event is Canonicalized,
            GitStage::Inspecting => event is GitDirInspected,
            GitStage::Running => event is Ran,
            GitStage::Finished => false,
        }
    }

    /// Whether the event is one that the current stage waits for.
    pub fn accepts_exec(&self, event: &GitEvent) -> (res: bool)
        ensures
            res == self.accepts(*event),
    {
        match (self.stage, event) {
            (GitStage::Canonicalizing, GitEvent::Canonicalized(_)) => true,
            (GitStage::Inspecting, GitEvent::GitDirInspected { .. }) => true,
            (GitStage::Running, GitEvent::Ran(_)) => true,
            _ => false,
        }
    }

    /// Begins a run of git with `args`, in `working_dir` if one is given.
    /// A working directory refused by the path check ends the run at once.
    pub fn start(args: Vec<String>, working_dir: Option<String>) -> (res: (GitCall, GitAction))
        ensures
            res.0.inv(),
            res.0.args == args,
            res.0.working_dir == working_dir,
            working_dir is None ==> res.0.stage is Running && res.1 == (GitAction::Run {
                in_dir: false,
            }),
            working_dir is Some && path_unsafe(working_dir->0@, res.0.prefix) ==> {
                &&& res.0.stage is Finished
                &&& res.1 is Finish
                &&& res.1->Finish_0 is Err
                &&& res.1->Finish_0->Err_0 is Io
                &&& res.1->Finish_0->Err_0->Io_0.kind == IoErrorKind::InvalidData
                &&& res.1->Finish_0->Err_0->Io_0.message@ == "UNC and device paths are not allowed"@
            },
            working_dir is Some && has_blocked_prefix(working_dir->0@) ==> res.1 is Finish,
            working_dir is Some && !has_blocked_prefix(working_dir->0@)
                && !leads_with_two_separators(working_dir->0@) ==> res.0.stage is Canonicalizing
                && res.1 == GitAction::Canonicalize,
            working_dir is Some && !path_unsafe(working_dir->0@, res.0.prefix) ==> res.0.stage is Canonicalizing
                && res.1 == GitAction::Canonicalize,
    {
        match working_dir {
            None => {
                (GitCall { args, working_dir: None, prefix: PathPrefixKind::NoPrefix, stage: GitStage::Running },
                 GitAction::Run { in_dir: false })
            },
            Some(dir) => {
                let (prefix, refused) = check_path(dir.as_str());
                if refused {
                    let e = io_error(IoErrorKind::InvalidData, "UNC and device paths are not allowed");
                    (GitCall { args, working_dir: Some(dir), prefix, stage: GitStage::Finished },
                     GitAction::Finish(Err(e)))
                } else {
                    (GitCall { args, working_dir: Some(dir), prefix, stage: GitStage::Canonicalizing },
                     GitAction::Canonicalize)
                }
            },
        }
    }

    /// Takes the next step of the run, given what the last action came to.
    pub fn step(self, event: GitEvent) -> (res: (GitCall, GitAction))
        requires
            self.inv(),
            self.accepts(event),
        ensures
            res.0.inv(),
            res.0.args == self.args,
            res.0.working_dir == self.working_dir,
            res.0.prefix == self.prefix,
            // canonicalizing
            event matches GitEvent::Canonicalized(Err(e)) ==> res.0.stage is Finished && res.1
                == GitAction::Finish(Err(Error::Io(e))),
            event matches GitEvent::Canonicalized(Ok(_)) ==> res.0.stage is Inspecting && res.1
                == GitAction::InspectGitDir,
            // inspecting `.git`
            event matches GitEvent::GitDirInspected { is_symlink: true, .. } ==> {
                &&& res.0.stage is Finished
                &&& res.1 is Finish && res.1->Finish_0 is Err && res.1->Finish_0->Err_0 is Io
                &&& res.1->Finish_0->Err_0->Io_0.kind == IoErrorKind::InvalidData
                &&& res.1->Finish_0->Err_0->Io_0.message@ == "Symlinked .git directory is not allowed"@
            },
            event matches GitEvent::GitDirInspected { is_symlink: false, is_dir: false } ==> {
                &&& res.0.stage is Finished
                &&& res.1 is Finish && res.1->Finish_0 is Err && res.1->Finish_0->Err_0 is Io
                &&& res.1->Finish_0->Err_0->Io_0.kind == IoErrorKind::NotFound
                &&& res.1->Finish_0->Err_0->Io_0.message@ == "No .git directory found for the project"@
            },
            event matches GitEvent::GitDirInspected { is_symlink: false, is_dir: true } ==> res.0.stage is Running
                && res.1 == (GitAction::Run { in_dir: true }),
            // running
            event matches GitEvent::Ran(Err(e)) ==> res.0.stage is Finished && res.1
                == GitAction::Finish(Err(Error::Io(e))),
            event matches GitEvent::Ran(Ok(out)) ==> res.0.stage is Finished && (out.success ==> res.1
                == GitAction::Finish(Ok(out))),
            event matches GitEvent::Ran(Ok(out)) ==> (!out.success ==> {
                &&& res.1 is Finish && res.1->Finish_0 is Err && res.1->Finish_0->Err_0 is Process
                &&& res.1->Finish_0->Err_0->Process_0.output == out
                &&& views(res.1->Finish_0->Err_0->Process_0.command@) == command_line(self.args@)
            }),
            // git is run in the working directory only once it has passed the
            // path check, was canonicalized and has a real `.git` directory
            res.1 == (GitAction::Run { in_dir: true }) ==> {
                &&& self.stage is Inspecting
                &&& event == (GitEvent::GitDirInspected { is_symlink: false, is_dir: true })
                &&& self.working_dir is Some
                &&& !path_unsafe(self.working_dir->0@, self.prefix)
            },
    {
        let GitCall { args, working_dir, prefix, stage: _ } = self;
        match event {
            GitEvent::Canonicalized(Err(e)) => (
                GitCall { args, working_dir, prefix, stage: GitStage::Finished },
                GitAction::Finish(Err(Error::Io(e))),
            ),
            GitEvent::Canonicalized(Ok(())) => (
                GitCall { args, working_dir, prefix, stage: GitStage::Inspecting },
                GitAction::InspectGitDir,
            ),
            GitEvent::GitDirInspected { is_symlink, is_dir } => {
                if is_symlink {
                    let e = io_error(IoErrorKind::InvalidData, "Symlinked .git directory is not allowed");
                    (GitCall { args, working_dir, prefix, stage: GitStage::Finished }, GitAction::Finish(Err(e)))
                } else if !is_dir {
                    let e = io_error(IoErrorKind::NotFound, "No .git directory found for the project");
                    (GitCall { args, working_dir, prefix, stage: GitStage::Finished }, GitAction::Finish(Err(e)))
                } else {
                    (GitCall { args, working_dir, prefix, stage: GitStage::Running }, GitAction::Run { in_dir: true })
                }
            },
            GitEvent::Ran(Err(e)) => (
                GitCall { args, working_dir, prefix, stage: GitStage::Finished },
                GitAction::Finish(Err(Error::Io(e))),
            ),
            GitEvent::Ran(Ok(out)) => {
                if out.success {
                    (GitCall { args, working_dir, prefix, stage: GitStage::Finished }, GitAction::Finish(Ok(out)))
                } else {
                    let command = command_of(&args);
                    (
                        GitCall { args, working_dir, prefix, stage: GitStage::Finished },
                        GitAction::Finish(Err(Error::Process(ProcessError { output: out, command }))),
                    )
                }
            },
        }
    }
}

} // verus!

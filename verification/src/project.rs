//! Where the project path is kept, and the checks on git's index lock.
use vstd::prelude::*;
use crate::text::{latin1, latin1_decode, trim_end, chars_of, trim_end_chars, string_from_chars};

verus! {

/// The name of the file that holds the project path, in the app's startup directory.
pub const GIT_PROJECT_PATH: &'static str = ".git-project";

/// How old, in seconds, a lock file must be before it is taken for stale.
pub const STALE_LOCK_SECS: u64 = 60;

/// Whether git's index is locked: a project is selected and its
/// `.git/index.lock` file exists (`index_lock_exists` tells the latter).
pub fn lib_is_git_locked(project_path: &Option<String>, index_lock_exists: bool) -> (locked: bool)
    ensures
        locked == (project_path is Some && index_lock_exists),
{
    project_path.is_some() && index_lock_exists
}

/// Whether a lock file whose modification time is known is stale: its age is
/// over a minute, where an age that cannot be measured (a modification time in
/// the future) counts as zero.
pub fn lock_is_stale(age_secs: Option<u64>) -> (stale: bool)
    ensures
        stale == (match age_secs {
            Some(s) => s > STALE_LOCK_SECS,
            None => false,
        }),
{
    match age_secs {
        Some(s) => s > STALE_LOCK_SECS,
        None => false,
    }
}

/// The path of the project file: the startup directory that the shell printed,
/// without trailing white space, followed by the file's name.
pub fn git_project_file_path(startup_dir_output: &str) -> (path: String)
    ensures
        path@ == trim_end(startup_dir_output@) + GIT_PROJECT_PATH@,
{
    let cs = chars_of(startup_dir_output);
    let trimmed = trim_end_chars(cs.as_slice());
    let mut path = string_from_chars(trimmed.as_slice());
    path.append(GIT_PROJECT_PATH);
    path
}

/// The project path that the project file holds, each byte read as one
/// character; an empty file holds none.
pub fn project_path_from_file(content: &[u8]) -> (path: Option<String>)
    ensures
        content.len() == 0 ==> path is None,
        content.len() > 0 ==> (path matches Some(p) && p@ == latin1(content@)),
{
    if content.len() == 0 {
        None
    } else {
        let cs = latin1_decode(content);
        Some(string_from_chars(cs.as_slice()))
    }
}

} // verus!

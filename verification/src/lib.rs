//! Git automation for a local repository: the decisions and the text handling
//! of fetching, pulling, staging, committing, pushing, adding and restoring
//! files, and of what the app shows for their results.
//!
//! Nothing here touches the disk, the network or a process: each repository
//! operation hands back the git run it needs next and is resumed with its
//! result, and a run of git is itself a sequence of checks that the caller
//! performs step by step.
pub mod app_state;
pub mod error;
pub mod git_call;
pub mod ops;
pub mod path_safety;
pub mod project;
pub mod status;
pub mod text;

pub use app_state::{add_terminal_output, AppState, MAX_TERMINAL_LENGHT};
pub use error::{Error, IoError, IoErrorKind, ProcessError, ProcessOutput};
pub use ops::{
    lib_get_files_to_restore, lib_get_untracked_files, lib_git_add, lib_git_restore,
    lib_git_status, lib_git_update_local, lib_make_pull, lib_make_push, lib_stage_changes,
    ChangesStaged, GitRequest, Step,
};
pub use path_safety::is_unsafe_path;
pub use project::lib_is_git_locked;
pub use status::lib_check_remote_ahead;

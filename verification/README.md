# auto_git

Auto-Git keeps a local git repository in sync with its remote from a small
Windows desktop window: it stages modified files, commits and pushes on
request, pulls when the remote is ahead, and lists untracked files to add and
modified files to restore.

## Layout

- `src/` — the verified library.
  - `git_call.rs`: one run of git, as a state machine. The working directory
    must pass the path check (no UNC or device paths), be canonicalized and
    hold a real `.git` directory before git runs in it; a failed process
    becomes an error that carries its command line.
  - `ops.rs`: the repository operations (update, status, pull, stage, push,
    list untracked files, add, list files to restore, restore). Each hands
    back the git run it needs next and is resumed with its result; the
    contracts fix the arguments of every run and every outcome and alert.
  - `status.rs`: reading `git status -s` and `git status`.
  - `app_state.rs`: the state the window shows, the terminal log and what
    each operation's result does to them.
  - `path_safety.rs`, `project.rs`, `error.rs`, `text.rs`: the path check,
    the project file and lock decisions, errors and their text, and the
    character-level text handling underneath.
- `app/` — the program: the window (eframe), the background thread, and the
  process, file-system, shell, network and dialog work that drives the
  library.
- `tests/` — tests of the library.

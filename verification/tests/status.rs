use auto_git::status::{lib_check_remote_ahead, pick_files, status_is_parsable, status_text, LineFilter};

const SHORT: &[u8] = b"M  staged.rs\n M unstaged.rs\nMM both.rs\n?? new.rs\nA  added.rs\n";

#[test]
fn modified_files_of_short_status() {
    assert_eq!(pick_files(SHORT, LineFilter::Modified), vec!["staged.rs", "unstaged.rs", "both.rs"]);
}

#[test]
fn untracked_files_of_short_status() {
    assert_eq!(pick_files(SHORT, LineFilter::Untracked), vec!["new.rs"]);
}

#[test]
fn files_to_restore_of_short_status() {
    assert_eq!(pick_files(SHORT, LineFilter::StagedChange), vec!["staged.rs", "both.rs"]);
    assert_eq!(pick_files(SHORT, LineFilter::UnstagedChange), vec!["unstaged.rs"]);
}

#[test]
fn non_ascii_file_names_are_read_byte_by_byte() {
    let out = b"?? caf\xe9.txt\n";
    assert_eq!(pick_files(out, LineFilter::Untracked), vec!["caf\u{e9}.txt"]);
}

#[test]
fn lines_that_cannot_be_cut_are_detected() {
    assert!(status_is_parsable(SHORT, LineFilter::Modified));
    assert!(!status_is_parsable(b"M \n", LineFilter::Modified));
    assert!(!status_is_parsable(b"\xe9\xe9?? x\n", LineFilter::Untracked));
    assert!(status_is_parsable(b"M \n", LineFilter::Untracked));
}

#[test]
fn status_text_is_latin1() {
    assert_eq!(status_text(b"On branch main\n"), "On branch main\n");
    assert_eq!(status_text(&[0xe0]), "\u{e0}");
}

#[test]
fn remote_ahead_when_neither_up_to_date_nor_ahead() {
    assert!(!lib_check_remote_ahead("On branch main\nYour branch is up to date with 'origin/main'.\n".to_string()));
    assert!(!lib_check_remote_ahead("Your branch is ahead of 'origin/main' by 1 commit.".to_string()));
    assert!(lib_check_remote_ahead("Your branch is behind 'origin/main' by 2 commits.".to_string()));
    assert!(lib_check_remote_ahead(String::new()));
}

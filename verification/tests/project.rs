use auto_git::project::{git_project_file_path, lib_is_git_locked, lock_is_stale, project_path_from_file};

#[test]
fn project_file_is_in_the_startup_directory() {
    assert_eq!(git_project_file_path("C:\\Users\\me\\AppData\\Roaming\\Auto-Git\\\r\n"), "C:\\Users\\me\\AppData\\Roaming\\Auto-Git\\.git-project");
    assert_eq!(git_project_file_path(""), ".git-project");
}

#[test]
fn project_path_from_the_file() {
    assert_eq!(project_path_from_file(b"C:\\work\\repo"), Some("C:\\work\\repo".to_string()));
    assert_eq!(project_path_from_file(b"C:\\caf\xe9"), Some("C:\\caf\u{e9}".to_string()));
    assert_eq!(project_path_from_file(b""), None);
}

#[test]
fn lock_checks() {
    assert!(lib_is_git_locked(&Some("repo".to_string()), true));
    assert!(!lib_is_git_locked(&Some("repo".to_string()), false));
    assert!(!lib_is_git_locked(&None, true));
    assert!(lock_is_stale(Some(61)));
    assert!(!lock_is_stale(Some(60)));
    assert!(!lock_is_stale(None));
}

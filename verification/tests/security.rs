use auto_git::path_safety::{has_blocked_prefix_exec, is_unsafe_path, path_is_unsafe, PathPrefixKind};

#[test]
fn security_test_1() {
    // a share on another machine is never a working directory
    assert!(is_unsafe_path("\\\\attacker\\share\\hack.html"));
    assert!(is_unsafe_path("//attacker/share"));
}

#[test]
fn blocked_prefixes_are_refused() {
    for p in ["\\\\srv\\x", "//srv/x", "\\\\?\\UNC\\srv\\x", "\\\\?\\unc\\srv", "\\\\.\\COM1", "\\??\\C:\\x"] {
        assert!(has_blocked_prefix_exec(p), "{p}");
        assert!(is_unsafe_path(p), "{p}");
    }
}

#[test]
fn local_paths_are_not_blocked() {
    assert!(!has_blocked_prefix_exec("C:\\Users\\me\\project"));
    assert!(!has_blocked_prefix_exec("/home/me/project"));
    assert!(!has_blocked_prefix_exec("\\single"));
    assert!(!has_blocked_prefix_exec(""));
    assert!(!is_unsafe_path("C:\\Users\\me\\project"));
    assert!(!is_unsafe_path("relative/dir"));
}

#[test]
fn remote_prefix_kinds_are_refused() {
    assert!(path_is_unsafe("x", PathPrefixKind::Unc));
    assert!(path_is_unsafe("x", PathPrefixKind::VerbatimUnc));
    assert!(path_is_unsafe("x", PathPrefixKind::DeviceNs));
    assert!(!path_is_unsafe("C:\\x", PathPrefixKind::Disk));
    assert!(!path_is_unsafe("x", PathPrefixKind::Verbatim));
    assert!(!path_is_unsafe("x", PathPrefixKind::VerbatimDisk));
    assert!(!path_is_unsafe("x", PathPrefixKind::NoPrefix));
}

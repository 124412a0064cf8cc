//! The check that keeps git away from network shares and device paths.
use vstd::prelude::*;
use crate::text::{starts_with, chars_of, str_starts_with};
use std::path::{Component, Path, Prefix};

verus! {

/// The kind of Windows prefix that begins a path, if any.
#[derive(Debug, Clone, Copy, PartialEq, Eq)]
pub enum PathPrefixKind {
    NoPrefix,
    Verbatim,
    VerbatimUnc,
    VerbatimDisk,
    DeviceNs,
    Unc,
    Disk,
}

/// The path begins with one of the UNC or device prefixes that are refused
/// as text.
pub open spec fn has_blocked_prefix(p: Seq<char>) -> bool {
    starts_with(p, "\\\\"@) || starts_with(p, "//"@) || starts_with(p, "\\\\?\\UNC"@)
        || starts_with(p, "\\\\?\\unc"@) || starts_with(p, "\\\\.\\"@) || starts_with(
        p,
        "\\??\\"@,
    )
}

/// The prefix names a network share or a device namespace.
pub open spec fn is_remote_prefix(k: PathPrefixKind) -> bool {
    k is Unc || k is VerbatimUnc || k is DeviceNs
}

/// A character that Windows reads as a path separator.
pub open spec fn is_separator(c: char) -> bool {
    c == '\\' || c == '/'
}

/// The text begins with two separators, as every network-share and device
/// prefix does.
pub open spec fn leads_with_two_separators(p: Seq<char>) -> bool {
    p.len() >= 2 && is_separator(p[0]) && is_separator(p[1])
}

/// A path with this text, whose first component has this prefix kind, is refused.
pub open spec fn path_unsafe(p: Seq<char>, k: PathPrefixKind) -> bool {
    has_blocked_prefix(p) || is_remote_prefix(k)
}

/// The kind of the Windows prefix that `Path::components` finds at the start
/// of the path. Which kind it finds depends on the platform (there are no
/// prefixes outside Windows), so the kind itself is left open; what is stated
/// holds everywhere: a network-share prefix (`\\server\share`), a verbatim
/// one (`\\?\UNC\server\share`) and a device-namespace one (`\\.\COM42`,
/// where `/` may stand for `\`) all begin with two separators.
#[verifier::external_body]
fn first_prefix_kind(path: &str) -> (kind: PathPrefixKind)
    ensures
        is_remote_prefix(kind) ==> leads_with_two_separators(path@),
{
    match Path::new(path).components().next() {
        Some(Component::Prefix(p)) => match p.kind() {
            Prefix::Verbatim(_) => PathPrefixKind::Verbatim,
            Prefix::VerbatimUNC(_, _) => PathPrefixKind::VerbatimUnc,
            Prefix::VerbatimDisk(_) => PathPrefixKind::VerbatimDisk,
            Prefix::DeviceNS(_) => PathPrefixKind::DeviceNs,
            Prefix::UNC(_, _) => PathPrefixKind::Unc,
            Prefix::Disk(_) => PathPrefixKind::Disk,
        },
        _ => PathPrefixKind::NoPrefix,
    }
}

/// Whether the path begins with a refused prefix as text.
pub fn has_blocked_prefix_exec(path: &str) -> (res: bool)
    ensures
        res == has_blocked_prefix(path@),
{
    let p = chars_of(path);
    let s = p.as_slice();
    str_starts_with(s, "\\\\") || str_starts_with(s, "//") || str_starts_with(s, "\\\\?\\UNC")
        || str_starts_with(s, "\\\\?\\unc") || str_starts_with(s, "\\\\.\\") || str_starts_with(
        s,
        "\\??\\",
    )
}

/// Whether a path with the given text and first prefix kind is refused.
pub fn path_is_unsafe(path: &str, prefix: PathPrefixKind) -> (res: bool)
    ensures
        res == path_unsafe(path@, prefix),
{
    has_blocked_prefix_exec(path) || matches!(
        prefix,
        PathPrefixKind::Unc | PathPrefixKind::VerbatimUnc | PathPrefixKind::DeviceNs
    )
}

/// Whether the path is a UNC or device path, which git must not be run in.
/// A path that begins with a refused prefix is always unsafe, and one that
/// does not begin with two separators is always allowed; between the two, the
/// answer rests on the platform's reading of the path's prefix.
pub fn is_unsafe_path(path: &str) -> (res: bool)
    ensures
        has_blocked_prefix(path@) ==> res,
        res ==> has_blocked_prefix(path@) || leads_with_two_separators(path@),
        exists|k: PathPrefixKind|
            #![trigger path_unsafe(path@, k)]
            (is_remote_prefix(k) ==> leads_with_two_separators(path@)) && res == path_unsafe(path@, k),
{
    if has_blocked_prefix_exec(path) {
        assert(!is_remote_prefix(PathPrefixKind::NoPrefix) && path_unsafe(path@, PathPrefixKind::NoPrefix));
        return true;
    }
    let kind = first_prefix_kind(path);
    let res = path_is_unsafe(path, kind);
    assert((is_remote_prefix(kind) ==> leads_with_two_separators(path@)) && res == path_unsafe(path@, kind));
    res
}

/// The prefix kind of a path together with the verdict on it.
pub fn check_path(path: &str) -> (res: (PathPrefixKind, bool))
    ensures
        res.1 == path_unsafe(path@, res.0),
        is_remote_prefix(res.0) ==> leads_with_two_separators(path@),
{
    let kind = first_prefix_kind(path);
    (kind, path_is_unsafe(path, kind))
}

} // verus!

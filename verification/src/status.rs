//! Reading the output of `git status` and `git status -s`.
use vstd::prelude::*;
use crate::error::views;
use crate::text::{after_byte3, contains, occurs_at, latin1, latin1_decode, lines, split_lines, splits_at_byte3, splits_at_byte3_exec, rest_after_byte3, string_from_chars, str_contains, chars_of};

verus! {

/// The lines of git's output, each byte read as one character.
pub open spec fn status_lines(out: Seq<u8>) -> Seq<Seq<char>> {
    lines(latin1(out))
}

/// Which lines of `git status -s` are picked.
#[derive(Debug, Clone, Copy, PartialEq, Eq)]
pub enum LineFilter {
    /// Modified files, staged or not.
    Modified,
    /// Untracked files.
    Untracked,
    /// Files to restore whose changes are staged.
    StagedChange,
    /// Files to restore whose changes are not staged.
    UnstagedChange,
}

/// Whether line `l` of `git status -s` is picked by the filter.
pub open spec fn line_matches(f: LineFilter, l: Seq<char>) -> bool {
    match f {
        LineFilter::Modified => contains(l, "M "@) || contains(l, "MM "@) || contains(l, " M"@),
        LineFilter::Untracked => contains(l, "?? "@),
        LineFilter::StagedChange => (!contains(l, " M"@) && contains(l, "M "@)) || contains(
            l,
            "MM "@,
        ),
        LineFilter::UnstagedChange => contains(l, " M "@),
    }
}

/// The file names of the picked lines, in order: what follows the third byte
/// of each.
pub open spec fn picked(ls: Seq<Seq<char>>, f: LineFilter) -> Seq<Seq<char>>
    decreases ls.len(),
{
    if ls.len() == 0 {
        Seq::<Seq<char>>::empty()
    } else {
        let prev = picked(ls.drop_last(), f);
        if line_matches(f, ls.last()) {
            prev.push(after_byte3(ls.last()))
        } else {
            prev
        }
    }
}

/// Every picked line can be cut after its third byte.
pub open spec fn parsable(ls: Seq<Seq<char>>, f: LineFilter) -> bool {
    forall|i: int| 0 <= i < ls.len() && line_matches(f, #[trigger] ls[i]) ==> splits_at_byte3(ls[i])
}

/// The file names that the filter picks from the output of `git status -s`.
pub open spec fn status_files(out: Seq<u8>, f: LineFilter) -> Seq<Seq<char>> {
    picked(status_lines(out), f)
}

/// The remote holds commits that the local branch lacks, as `git status` tells.
pub open spec fn remote_ahead(status: Seq<char>) -> bool {
    !contains(status, "Your branch is up to date with"@) && !contains(
        status,
        "Your branch is ahead of"@,
    )
}

/// Whether line `l` is picked by the filter.
pub fn line_matches_exec(f: LineFilter, l: &[char]) -> (res: bool)
    ensures
        res == line_matches(f, l@),
{
    match f {
        LineFilter::Modified => str_contains(l, "M ") || str_contains(l, "MM ") || str_contains(
            l,
            " M",
        ),
        LineFilter::Untracked => str_contains(l, "?? "),
        LineFilter::StagedChange => (!str_contains(l, " M") && str_contains(l, "M "))
            || str_contains(l, "MM "),
        LineFilter::UnstagedChange => str_contains(l, " M "),
    }
}

/// The text of git's output, each byte read as one character.
pub fn status_text(out: &[u8]) -> (text: String)
    ensures
        text@ == latin1(out@),
{
    let cs = latin1_decode(out);
    string_from_chars(cs.as_slice())
}

/// The lines of git's output.
fn output_lines(out: &[u8]) -> (res: Vec<Vec<char>>)
    ensures
        res@.map_values(|l: Vec<char>| l@) == status_lines(out@),
{
    let cs = latin1_decode(out);
    split_lines(cs.as_slice())
}

/// Whether every line that the filter picks from git's output can be cut after
/// its third byte.
pub fn status_is_parsable(out: &[u8], f: LineFilter) -> (res: bool)
    ensures
        res == parsable(status_lines(out@), f),
{
    let ls = output_lines(out);
    let ghost lv = ls@.map_values(|l: Vec<char>| l@);
    for i in 0..ls.len()
        invariant
            lv == ls@.map_values(|l: Vec<char>| l@),
            lv == status_lines(out@),
            forall|j: int| 0 <= j < i && line_matches(f, #[trigger] lv[j]) ==> splits_at_byte3(lv[j]),
    {
        assert(lv[i as int] == ls@[i as int]@);
        if line_matches_exec(f, ls[i].as_slice()) && !splits_at_byte3_exec(ls[i].as_slice()) {
            return false;
        }
    }
    true
}

/// The file names that the filter picks from the output of `git status -s`,
/// in the order of their lines.
pub fn pick_files(out: &[u8], f: LineFilter) -> (files: Vec<String>)
    requires
        parsable(status_lines(out@), f),
    ensures
        views(files@) == status_files(out@, f),
{
    let ls = output_lines(out);
    let ghost lv = ls@.map_values(|l: Vec<char>| l@);
    let mut files: Vec<String> = Vec::new();
    for i in 0..ls.len()
        invariant
            lv == ls@.map_values(|l: Vec<char>| l@),
            lv == status_lines(out@),
            parsable(lv, f),
            views(files@) == picked(lv.take(i as int), f),
    {
        let ghost before = files@;
        assert(lv.take(i as int + 1).drop_last() == lv.take(i as int));
        assert(lv.take(i as int + 1).last() == lv[i as int]);
        assert(lv[i as int] == ls@[i as int]@);
        if line_matches_exec(f, ls[i].as_slice()) {
            let rest = rest_after_byte3(ls[i].as_slice());
            let name = string_from_chars(rest.as_slice());
            files.push(name);
            assert(views(files@) =~= views(before).push(name@));
        }
    }
    assert(lv.take(ls.len() as int) == lv);
    files
}

/// Whether `git status` says that the remote branch has commits the local one
/// lacks: it says neither that the branch is up to date nor that it is ahead.
pub fn lib_check_remote_ahead(status_string: String) -> (ahead: bool)
    ensures
        ahead == remote_ahead(status_string@),
{
    let s = chars_of(status_string.as_str());
    !str_contains(s.as_slice(), "Your branch is up to date with") && !str_contains(
        s.as_slice(),
        "Your branch is ahead of",
    )
}

/// The file names the filter picks are those of the lines that `pred`
/// accepts, in order, when `pred` accepts exactly the lines the filter picks.
proof fn lemma_picked_is_filter(ls: Seq<Seq<char>>, f: LineFilter, pred: spec_fn(Seq<char>) -> bool)
    requires
        forall|l: Seq<char>| line_matches(f, l) == #[trigger] pred(l),
    ensures
        picked(ls, f) == ls.filter(pred).map_values(|l: Seq<char>| after_byte3(l)),
    decreases ls.len(),
{
    reveal(Seq::filter);
    if ls.len() > 0 {
        lemma_picked_is_filter(ls.drop_last(), f, pred);
        let sub = ls.drop_last().filter(pred);
        assert(pred(ls.last()) == line_matches(f, ls.last()));
        if pred(ls.last()) {
            assert(sub.push(ls.last()).map_values(|l: Seq<char>| after_byte3(l)) =~= sub.map_values(
                |l: Seq<char>| after_byte3(l),
            ).push(after_byte3(ls.last())));
        }
    }
}

/// Listing the untracked files: every line of `git status -s` that holds
/// `?? ` gives the name after its third byte, in the order of the lines, and
/// no other line gives one.
pub proof fn law_untracked_are_the_question_mark_lines(out: Seq<u8>)
    ensures
        status_files(out, LineFilter::Untracked) == status_lines(out).filter(
            |l: Seq<char>| contains(l, "?? "@),
        ).map_values(|l: Seq<char>| after_byte3(l)),
{
    lemma_picked_is_filter(status_lines(out), LineFilter::Untracked, |l: Seq<char>| contains(l, "?? "@));
}

/// Listing the modified files to stage: every line that holds `M `, `MM ` or
/// ` M` gives the name after its third byte, in order, and no other line does.
pub proof fn law_modified_are_the_m_lines(out: Seq<u8>)
    ensures
        status_files(out, LineFilter::Modified) == status_lines(out).filter(
            |l: Seq<char>| contains(l, "M "@) || contains(l, "MM "@) || contains(l, " M"@),
        ).map_values(|l: Seq<char>| after_byte3(l)),
{
    lemma_picked_is_filter(
        status_lines(out),
        LineFilter::Modified,
        |l: Seq<char>| contains(l, "M "@) || contains(l, "MM "@) || contains(l, " M"@),
    );
}

/// The files to restore whose changes are staged: the lines that hold `M `
/// but not ` M` (such as `M  a.rs` or `AM new.rs`), and the lines that hold
/// `MM `, in order; no other line.
pub proof fn law_staged_changes_are_listed(out: Seq<u8>)
    ensures
        status_files(out, LineFilter::StagedChange) == status_lines(out).filter(
            |l: Seq<char>| (contains(l, "M "@) && !contains(l, " M"@)) || contains(l, "MM "@),
        ).map_values(|l: Seq<char>| after_byte3(l)),
{
    lemma_picked_is_filter(
        status_lines(out),
        LineFilter::StagedChange,
        |l: Seq<char>| (contains(l, "M "@) && !contains(l, " M"@)) || contains(l, "MM "@),
    );
}

/// The files to restore whose changes are not staged: the lines that hold
/// ` M `, in order; no other line.
pub proof fn law_unstaged_changes_are_listed(out: Seq<u8>)
    ensures
        status_files(out, LineFilter::UnstagedChange) == status_lines(out).filter(
            |l: Seq<char>| contains(l, " M "@),
        ).map_values(|l: Seq<char>| after_byte3(l)),
{
    lemma_picked_is_filter(status_lines(out), LineFilter::UnstagedChange, |l: Seq<char>| contains(l, " M "@));
}

/// The remote counts as ahead exactly when the status says neither that the
/// branch is up to date nor that it is ahead (so a branch that diverged, or a
/// status that says nothing of the remote, counts as behind); and only those
/// two phrases matter: two statuses that agree on them agree on the answer.
pub proof fn law_remote_ahead_unless_up_to_date_or_ahead(s: Seq<char>, t: Seq<char>)
    ensures
        remote_ahead(s) <==> !(exists|i: int| occurs_at(s, "Your branch is up to date with"@, i))
            && !(exists|i: int| occurs_at(s, "Your branch is ahead of"@, i)),
        contains(s, "Your branch is up to date with"@) == contains(t, "Your branch is up to date with"@)
            && contains(s, "Your branch is ahead of"@) == contains(t, "Your branch is ahead of"@)
            ==> remote_ahead(s) == remote_ahead(t),
        remote_ahead(s + t) ==> remote_ahead(s) && remote_ahead(t),
{
    assert forall|i: int| occurs_at(s, "Your branch is up to date with"@, i) implies occurs_at(
        s + t,
        "Your branch is up to date with"@,
        i,
    ) by {
        assert((s + t).subrange(i, i + "Your branch is up to date with"@.len()) =~= s.subrange(
            i,
            i + "Your branch is up to date with"@.len(),
        ));
    }
    assert forall|i: int| occurs_at(s, "Your branch is ahead of"@, i) implies occurs_at(
        s + t,
        "Your branch is ahead of"@,
        i,
    ) by {
        assert((s + t).subrange(i, i + "Your branch is ahead of"@.len()) =~= s.subrange(
            i,
            i + "Your branch is ahead of"@.len(),
        ));
    }
    assert forall|i: int| occurs_at(t, "Your branch is up to date with"@, i) implies occurs_at(
        s + t,
        "Your branch is up to date with"@,
        s.len() + i,
    ) by {
        assert((s + t).subrange(s.len() + i, s.len() + i + "Your branch is up to date with"@.len())
            =~= t.subrange(i, i + "Your branch is up to date with"@.len()));
    }
    assert forall|i: int| occurs_at(t, "Your branch is ahead of"@, i) implies occurs_at(
        s + t,
        "Your branch is ahead of"@,
        s.len() + i,
    ) by {
        assert((s + t).subrange(s.len() + i, s.len() + i + "Your branch is ahead of"@.len())
            =~= t.subrange(i, i + "Your branch is ahead of"@.len()));
    }
}

} // verus!

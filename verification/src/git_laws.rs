//! What holds of the reading of `git status` and of the reports on it.

use vstd::prelude::*;

use crate::git::{self, GitWorkspaceSummary};
use crate::text;

verus! {

proof fn lemma_name_ends_first(line: Seq<char>, from: int, at: int)
    requires
        0 <= from <= at <= line.len(),
        forall|i: int| from <= i < at ==> !#[trigger] git::branch_ends(line, i),
        at < line.len() ==> git::branch_ends(line, at),
    ensures
        git::branch_name(line, from) == line.take(at),
    decreases at - from,
{
    if from == at {
        if at == line.len() {
            assert(line.take(at) =~= line);
        }
    } else {
        assert(!git::branch_ends(line, from));
        lemma_name_ends_first(line, from + 1, at);
    }
}

/// The name of a branch stands in front of the dots before its upstream, or of a
/// space, or fills the line.
pub proof fn law_branches_stand_before_their_upstream(name: Seq<char>, upstream: Seq<char>)
    requires
        !name.contains(' '),
        !text::contains_text(name, "..."@),
        name.len() > 0 ==> name.last() != '.',
    ensures
        git::branch_name(name, 0) == name,
        git::branch_name(name + "..."@ + upstream, 0) == name,
        git::branch_name(name + " "@ + upstream, 0) == name,
{
    reveal_strlit("...");
    reveal_strlit(" ");
    let at = name.len() as int;
    lemma_no_end_within(name, Seq::empty());
    assert(name + Seq::<char>::empty() =~= name);
    lemma_name_ends_first(name, 0, at);
    assert(name.take(at) =~= name);
    let dotted = name + "..."@ + upstream;
    assert(dotted =~= name + ("..."@ + upstream));
    lemma_no_end_within(name, "..."@ + upstream);
    assert(dotted.subrange(at, at + 3) =~= "..."@);
    assert(text::occurs_at(dotted, "..."@, at));
    lemma_name_ends_first(dotted, 0, at);
    assert(dotted.take(at) =~= name);
    let spaced = name + " "@ + upstream;
    assert(spaced =~= name + (" "@ + upstream));
    lemma_no_end_within(name, " "@ + upstream);
    assert(spaced[at] == ' ');
    lemma_name_ends_first(spaced, 0, at);
    assert(spaced.take(at) =~= name);
}

proof fn lemma_no_end_within(name: Seq<char>, rest: Seq<char>)
    requires
        !name.contains(' '),
        !text::contains_text(name, "..."@),
        name.len() > 0 ==> name.last() != '.',
    ensures
        forall|i: int| 0 <= i < name.len() ==> !#[trigger] git::branch_ends(name + rest, i),
{
    reveal_strlit("...");
    let line = name + rest;
    assert forall|i: int| 0 <= i < name.len() implies !#[trigger] git::branch_ends(line, i) by {
        assert(line[i] == name[i]);
        assert(name.contains(name[i]));
        if text::occurs_at(line, "..."@, i) {
            if i + 3 <= name.len() {
                assert(name.subrange(i, i + 3) =~= line.subrange(i, i + 3));
                assert(text::occurs_at(name, "..."@, i));
            } else {
                let k = name.len() - 1 - i;
                assert(line.subrange(i, i + 3)[k] == line[name.len() - 1]);
                assert("..."@[k] == '.');
            }
        }
    }
}

/// The branch is told in the first line, behind its mark; nothing that stands
/// behind that line changes it.
pub proof fn law_first_line_tells_the_branch(status: Seq<char>, name: Seq<char>, rest: Seq<char>)
    requires
        text::lines_of(status).len() > 0,
        text::lines_of(status)[0] == "## "@ + name + rest,
        rest.len() == 0 || rest[0] == ' ' || text::has_prefix(rest, "..."@),
        name.len() > 0,
        forall|i: int| 0 <= i < name.len() ==> !text::is_whitespace(#[trigger] name[i]),
        !text::contains_text(name, "..."@),
        name.last() != '.',
        !text::has_prefix(name + rest, "HEAD"@),
    ensures
        git::checked_out_branch(status) == Some(name),
        git::branch_told(Some(status)) == Some(name),
{
    reveal_strlit("## ");
    reveal_strlit("...");
    let line = text::lines_of(status)[0];
    assert(line.take(3) =~= "## "@);
    assert(line =~= "## "@ + (name + rest));
    text::lemma_contains_part(Seq::empty(), "## "@, name + rest);
    assert(Seq::<char>::empty() + "## "@ + (name + rest) =~= line);
    assert(text::has_prefix(line, "## "@));
    assert(line.skip(3) =~= name + rest);
    let told = name + rest;
    let at = name.len() as int;
    assert(!name.contains(' ')) by {
        if name.contains(' ') {
            let i = choose|i: int| 0 <= i < name.len() && name[i] == ' ';
            assert(text::is_whitespace(name[i]));
        }
    }
    lemma_no_end_within(name, rest);
    if rest.len() > 0 {
        assert(told[at] == rest[0]);
        if rest[0] != ' ' {
            assert(told.subrange(at, at + 3) =~= rest.take(3));
            assert(rest.take(3) =~= "..."@);
            assert(text::occurs_at(told, "..."@, at));
        }
    }
    lemma_name_ends_first(told, 0, at);
    assert(told.take(at) =~= name);
    assert(text::trimmed(name) == name) by {
        assert(!text::is_whitespace(name[0]));
        assert(!text::is_whitespace(name.last()));
    }
}

/// No branch is told where there is no status or its first line has no mark, and
/// a detached head is told as such.
pub proof fn law_other_heads_have_no_branch(status: Seq<char>)
    ensures
        git::branch_told(None) is None,
        text::lines_of(status).len() == 0 ==> git::checked_out_branch(status) is None,
        text::lines_of(status).len() > 0 && !text::has_prefix(text::lines_of(status)[0], "## "@)
            ==> git::checked_out_branch(status) is None,
        text::lines_of(status).len() > 0 && text::has_prefix(text::lines_of(status)[0], "## HEAD"@)
            ==> git::checked_out_branch(status) == Some("detached HEAD"@),
{
    reveal_strlit("## ");
    reveal_strlit("HEAD");
    reveal_strlit("## HEAD");
    if text::lines_of(status).len() > 0 && text::has_prefix(text::lines_of(status)[0], "## HEAD"@) {
        let line = text::lines_of(status)[0];
        assert(line.subrange(0, 7) =~= line.take(7));
        assert(line.take(7) =~= "## HEAD"@);
        assert forall|i: int| 0 <= i < 7 implies #[trigger] line[i] == "## HEAD"@[i] by {
            assert(line.take(7)[i] == line[i]);
        }
        assert(line.take(3) =~= "## "@);
        assert(line.skip(3).take(4) =~= "HEAD"@);
        assert(line.subrange(0, 3) =~= "## "@);
        assert(line.skip(3).subrange(0, 4) =~= "HEAD"@);
    }
}

/// Changes are counted line by line.
pub proof fn law_changes_are_counted_by_line(
    first: Seq<Seq<char>>,
    second: Seq<Seq<char>>,
    kind: spec_fn(Seq<char>) -> bool,
)
    ensures
        git::changes(first + second, kind) == git::changes(first, kind) + git::changes(
            second,
            kind,
        ),
    decreases second.len(),
{
    if second.len() == 0 {
        assert(first + second =~= first);
    } else {
        assert((first + second).drop_last() =~= first + second.drop_last());
        law_changes_are_counted_by_line(first, second.drop_last(), kind);
    }
}

/// A line that tells of a file counts that file once: in the index where its
/// first mark is set, in the working tree where its second is, as untracked where
/// both are question marks, and as a conflict where a side is unmerged or both
/// sides added it. The line of the branch counts nothing.
pub proof fn law_marks_tell_the_kind_of_change(
    index: char,
    tree: char,
    path: Seq<char>,
    summary: GitWorkspaceSummary,
)
    requires
        git::summarizes(summary, seq![seq![index, tree] + path]),
        exists|i: int| 0 <= i < path.len() && !text::is_whitespace(#[trigger] path[i]),
    ensures
        index != '#' ==> summary.changed_files == 1,
        index == '?' && tree == '?' ==> summary.untracked_files == 1 && summary.staged_files == 0
            && summary.unstaged_files == 0 && summary.conflicted_files == 0,
        index == 'M' && tree == ' ' ==> summary.staged_files == 1 && summary.unstaged_files == 0
            && summary.untracked_files == 0 && summary.conflicted_files == 0,
        index == ' ' && tree == 'M' ==> summary.staged_files == 0 && summary.unstaged_files == 1
            && summary.untracked_files == 0 && summary.conflicted_files == 0,
        index == 'M' && tree == 'M' ==> summary.staged_files == 1 && summary.unstaged_files == 1
            && summary.untracked_files == 0 && summary.conflicted_files == 0,
        index == 'A' && tree == 'A' ==> summary.conflicted_files == 1,
        (index == 'U' && tree != '#') || (index != '#' && tree == 'U')
            ==> summary.conflicted_files == 1 && summary.untracked_files == 0,
        index == 'A' && (tree == ' ' || tree == 'M' || tree == 'D') ==> summary.conflicted_files
            == 0,
        index == 'D' && (tree == ' ' || tree == 'D') ==> summary.conflicted_files == 0
            && summary.staged_files == 1,
        index == 'R' && tree == ' ' ==> summary.staged_files == 1 && summary.unstaged_files == 0,
        index == '#' && tree == '#' && path[0] == ' ' ==> summary.changed_files == 0
            && summary.staged_files == 0 && summary.unstaged_files == 0 && summary.untracked_files
            == 0 && summary.conflicted_files == 0,
{
    reveal_strlit("## ");
    let line = seq![index, tree] + path;
    let lines = seq![line];
    assert(lines.drop_last() =~= Seq::empty());
    assert(lines.last() == line);
    reveal_with_fuel(git::changes, 2);
    let i = choose|i: int| 0 <= i < path.len() && !text::is_whitespace(#[trigger] path[i]);
    assert(line[i + 2] == path[i]);
    assert(!text::is_blank(line));
    assert(line[0] == index && line[1] == tree && line[2] == path[0]);
    assert("## "@[0] == '#' && "## "@[1] == '#' && "## "@[2] == ' ');
    if text::has_prefix(line, "## "@) {
        assert(line.subrange(0, 3)[0] == line[0]);
        assert(line.take(3)[0] == line[0]);
    }
    if index == '#' && tree == '#' && path[0] == ' ' {
        assert(line.take(3) =~= "## "@);
        assert(line.subrange(0, 3) =~= "## "@);
    }
}

proof fn lemma_kinds_of_changes(lines: Seq<Seq<char>>)
    ensures
        git::changes(lines, |line: Seq<char>| git::is_staged(line)) + git::changes(
            lines,
            |line: Seq<char>| git::is_untracked(line),
        ) <= git::changes(lines, |line: Seq<char>| true),
        git::changes(lines, |line: Seq<char>| git::is_unstaged(line)) + git::changes(
            lines,
            |line: Seq<char>| git::is_untracked(line),
        ) <= git::changes(lines, |line: Seq<char>| true),
        git::changes(lines, |line: Seq<char>| git::is_conflicted(line)) + git::changes(
            lines,
            |line: Seq<char>| git::is_untracked(line),
        ) <= git::changes(lines, |line: Seq<char>| true),
        git::changes(lines, |line: Seq<char>| true) <= lines.len(),
    decreases lines.len(),
{
    if lines.len() > 0 {
        lemma_kinds_of_changes(lines.drop_last());
    }
}

/// Every file that is counted under a kind is counted as changed, and none is
/// both untracked and something else.
pub proof fn law_kinds_are_changes(summary: GitWorkspaceSummary, lines: Seq<Seq<char>>)
    requires
        git::summarizes(summary, lines),
    ensures
        summary.staged_files + summary.untracked_files <= summary.changed_files,
        summary.unstaged_files + summary.untracked_files <= summary.changed_files,
        summary.conflicted_files + summary.untracked_files <= summary.changed_files,
        summary.changed_files <= lines.len(),
{
    lemma_kinds_of_changes(lines);
}

/// One part of the state of a workspace: a count that is not zero, by its name.
pub open spec fn counted(count: usize, name: Seq<char>) -> Seq<Seq<char>> {
    if count == 0 {
        Seq::empty()
    } else {
        seq![text::decimal(count as nat) + " "@ + name]
    }
}

/// A workspace is clean where no file is changed; else its state names the files
/// that are changed, and each kind that there are any of, in order.
pub proof fn law_headlines_name_the_kinds(summary: GitWorkspaceSummary)
    ensures
        summary.clean() == (summary.changed_files == 0),
        summary.changed_files == 0 ==> summary.headline_text() == "clean"@,
        summary.changed_files > 0 ==> text::has_prefix(
            summary.headline_text(),
            "dirty · "@ + text::decimal(summary.changed_files as nat) + " files"@,
        ) && text::has_suffix(
            summary.headline_text(),
            " · "@ + text::joined(
                counted(summary.staged_files, "staged"@) + counted(
                    summary.unstaged_files,
                    "unstaged"@,
                ) + counted(summary.untracked_files, "untracked"@) + counted(
                    summary.conflicted_files,
                    "conflicted"@,
                ),
                ", "@,
            ),
        ),
{
    reveal_strlit(" ");
    reveal_strlit("staged");
    reveal_strlit("unstaged");
    reveal_strlit("untracked");
    reveal_strlit("conflicted");
    reveal_strlit(" staged");
    reveal_strlit(" unstaged");
    reveal_strlit(" untracked");
    reveal_strlit(" conflicted");
    reveal_strlit(" files · ");
    reveal_strlit(" files");
    reveal_strlit(" · ");
    assert(" staged"@ =~= " "@ + "staged"@);
    assert(" unstaged"@ =~= " "@ + "unstaged"@);
    assert(" untracked"@ =~= " "@ + "untracked"@);
    assert(" conflicted"@ =~= " "@ + "conflicted"@);
    assert(" files · "@ =~= " files"@ + " · "@);
    let parts = counted(summary.staged_files, "staged"@) + counted(
        summary.unstaged_files,
        "unstaged"@,
    ) + counted(summary.untracked_files, "untracked"@) + counted(
        summary.conflicted_files,
        "conflicted"@,
    );
    lemma_named(summary.staged_files, "staged"@);
    lemma_named(summary.unstaged_files, "unstaged"@);
    lemma_named(summary.untracked_files, "untracked"@);
    lemma_named(summary.conflicted_files, "conflicted"@);
    let none = Seq::<Seq<char>>::empty();
    let one = git::with_count(none, summary.staged_files, " staged"@);
    let two = git::with_count(one, summary.unstaged_files, " unstaged"@);
    let three = git::with_count(two, summary.untracked_files, " untracked"@);
    assert(one =~= counted(summary.staged_files, "staged"@));
    assert(two =~= one + counted(summary.unstaged_files, "unstaged"@));
    assert(three =~= two + counted(summary.untracked_files, "untracked"@));
    assert(summary.parts() =~= three + counted(summary.conflicted_files, "conflicted"@));
    assert(summary.parts() == parts);
    if summary.changed_files > 0 {
        let head = "dirty · "@ + text::decimal(summary.changed_files as nat) + " files"@;
        let tail = " · "@ + text::joined(parts, ", "@);
        assert(summary.headline_text() =~= head + tail);
        text::lemma_contains_part(Seq::empty(), head, tail);
        assert(Seq::<char>::empty() + head + tail =~= head + tail);
        text::lemma_contains_part(head, tail, Seq::empty());
        assert(head + tail + Seq::<char>::empty() =~= head + tail);
    }
}

proof fn lemma_named(count: usize, name: Seq<char>)
    ensures
        text::decimal(count as nat) + (" "@ + name) == text::decimal(count as nat) + " "@ + name,
{
    assert(text::decimal(count as nat) + (" "@ + name) =~= text::decimal(count as nat) + " "@
        + name);
}

proof fn lemma_commit_is_told(
    report: Seq<char>,
    branch: Seq<char>,
    headline: Seq<char>,
    changed: Seq<char>,
)
    requires
        report == "Commit\n  Result           ready\n  Branch           "@ + branch + "\n  Workspace        "@ + headline + "\n  Changed files    "@ + changed + "\n  Action           create a git commit from the current workspace changes"@,
    ensures
        text::contains_text(report, "  Branch           "@ + branch + "\n"@),
        text::contains_text(report, "  Workspace        "@ + headline + "\n"@),
        text::contains_text(report, "  Changed files    "@ + changed + "\n"@),
{
    assert(text::contains_text(report, "  Branch           "@ + branch + "\n"@)) by {
        reveal_strlit("Commit\n  Result           ready\n  Branch           ");
        reveal_strlit("Commit\n  Result           ready\n");
        reveal_strlit("  Branch           ");
        reveal_strlit("\n  Workspace        ");
        reveal_strlit("\n");
        reveal_strlit("  Workspace        ");
        assert("Commit\n  Result           ready\n  Branch           "@ =~= "Commit\n  Result           ready\n"@ + "  Branch           "@);
        assert("\n  Workspace        "@ =~= "\n"@ + "  Workspace        "@);
        let before = "Commit\n  Result           ready\n"@;
        let part = "  Branch           "@ + branch + "\n"@;
        let after = "  Workspace        "@ + headline + "\n  Changed files    "@ + changed + "\n  Action           create a git commit from the current workspace changes"@;
        assert(report =~= before + part + after);
        text::lemma_contains_part(before, part, after);
    }
    assert(text::contains_text(report, "  Workspace        "@ + headline + "\n"@)) by {
        reveal_strlit("\n  Workspace        ");
        reveal_strlit("\n");
        reveal_strlit("  Workspace        ");
        reveal_strlit("\n  Changed files    ");
        reveal_strlit("  Changed files    ");
        assert("\n  Workspace        "@ =~= "\n"@ + "  Workspace        "@);
        assert("\n  Changed files    "@ =~= "\n"@ + "  Changed files    "@);
        let before = "Commit\n  Result           ready\n  Branch           "@ + branch + "\n"@;
        let part = "  Workspace        "@ + headline + "\n"@;
        let after = "  Changed files    "@ + changed + "\n  Action           create a git commit from the current workspace changes"@;
        assert(report =~= before + part + after);
        text::lemma_contains_part(before, part, after);
    }
    assert(text::contains_text(report, "  Changed files    "@ + changed + "\n"@)) by {
        reveal_strlit("\n  Changed files    ");
        reveal_strlit("\n");
        reveal_strlit("  Changed files    ");
        reveal_strlit("\n  Action           create a git commit from the current workspace changes");
        reveal_strlit("  Action           create a git commit from the current workspace changes");
        assert("\n  Changed files    "@ =~= "\n"@ + "  Changed files    "@);
        assert("\n  Action           create a git commit from the current workspace changes"@ =~= "\n"@ + "  Action           create a git commit from the current workspace changes"@);
        let before = "Commit\n  Result           ready\n  Branch           "@ + branch + "\n  Workspace        "@ + headline + "\n"@;
        let part = "  Changed files    "@ + changed + "\n"@;
        let after = "  Action           create a git commit from the current workspace changes"@;
        assert(report =~= before + part + after);
        text::lemma_contains_part(before, part, after);
    }
}

/// The branch by its name, where it has one.
pub open spec fn told(branch: Option<Seq<char>>) -> Seq<char> {
    if branch is Some {
        branch->0
    } else {
        "unknown"@
    }
}

/// A commit is skipped where nothing is changed; else its branch, the state of
/// the workspace and the number of changed files are told.
pub proof fn law_commits_are_told(branch: Option<Seq<char>>, summary: GitWorkspaceSummary)
    ensures
        summary.changed_files > 0 ==> text::contains_text(git::commit_report(branch, summary), "  Branch           "@ + told(branch) + "\n"@),
        summary.changed_files > 0 ==> text::contains_text(git::commit_report(branch, summary), "  Workspace        "@ + summary.headline_text() + "\n"@),
        summary.changed_files > 0 ==> text::contains_text(git::commit_report(branch, summary), "  Changed files    "@ + text::decimal(summary.changed_files as nat) + "\n"@),
        summary.changed_files > 0 ==> text::contains_text(
            git::commit_report(branch, summary),
            "Result           ready"@,
        ),
        summary.changed_files == 0 ==> text::contains_text(
            git::commit_report(branch, summary),
            "Result           skipped\n  Reason           no workspace changes"@,
        ),
{
    let changed = text::decimal(summary.changed_files as nat);
    if summary.changed_files > 0 {
        let report = git::commit_report(branch, summary);
        lemma_commit_is_told(report, told(branch), summary.headline_text(), changed);
        assert(text::contains_text(report, "Result           ready"@)) by {
            reveal_strlit("Commit\n  Result           ready\n  Branch           ");
            reveal_strlit("Commit\n  ");
            reveal_strlit("Result           ready");
            reveal_strlit("\n  Branch           ");
            let head = "Commit\n  Result           ready\n  Branch           "@;
            assert(head =~= "Commit\n  "@ + "Result           ready"@ + "\n  Branch           "@);
            let after = "\n  Branch           "@ + told(branch) + "\n  Workspace        "@
                + summary.headline_text() + "\n  Changed files    "@ + changed
                + "\n  Action           create a git commit from the current workspace changes"@;
            assert(report =~= "Commit\n  "@ + "Result           ready"@ + after);
            text::lemma_contains_part("Commit\n  "@, "Result           ready"@, after);
        }
    } else {
        let report = git::commit_report(branch, summary);
        let part = "Result           skipped\n  Reason           no workspace changes"@;
        let after = "\n  Action           create a git commit from the current workspace changes\n  Next             /status to inspect context · /diff to inspect repo changes"@;
        reveal_strlit("Commit\n  ");
        reveal_strlit("Result           skipped\n  Reason           no workspace changes");
        reveal_strlit("\n  Action           create a git commit from the current workspace changes\n  Next             /status to inspect context · /diff to inspect repo changes");
        reveal_strlit("Commit\n  Result           skipped\n  Reason           no workspace changes\n  Action           create a git commit from the current workspace changes\n  Next             /status to inspect context · /diff to inspect repo changes");
        assert(report =~= "Commit\n  "@ + part + after);
        text::lemma_contains_part("Commit\n  "@, part, after);
    }
}

/// The lines of a status are those of its output, and none where it is not there.
pub proof fn law_missing_status_has_no_lines(status: Seq<char>, summary: GitWorkspaceSummary)
    ensures
        git::status_lines(Some(status)) == text::lines_of(status),
        git::summarizes(summary, git::status_lines(None)) ==> summary.clean(),
{
}

} // verus!

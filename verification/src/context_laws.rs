//! Laws of the context: the changes of files, the repository, and the messages to fetch.

use vstd::prelude::*;
use vstd::string::*;
use vstd::utf8::encode_utf8;

use crate::diff_tracker::{
    added, change_line, change_lines, diffs_of, lists, reflect_section, removed, sums_up,
    DiffSummary,
};
use crate::git_context::{
    commit_lines, count_where, counted, git_section, is_modified, is_staged, is_untracked,
    tree_line, GitState,
};
use crate::orient::{all_refs, digests, distinct_refs, messages_are_fetched_once, refs_newest_first};
use crate::perceive::{last_messages, Conversation, ConversationMessage};
use crate::repo_analysis::{
    all_run_commands, build_command_of, command_lines, config_summary, formatter_notes, if_there,
    languages_of, lint_command_of, rendered, run_command, run_commands, rustfmt_note, telling_lines,
    test_command_of, RepoAnalysis, RepoFiles,
};
use crate::text::{
    begins_with, dec, dec_int, end_is_found, first_n, found_by_way, found_in_longer, has_text,
    joined, joined_parts_are_found, lines_of, part_is_found, start_is_found, texts, trimmed,
};
use crate::types::{ActionExecution, ArtifactId, CodeDiffContent};

verus! {

// ---------------------------------------------------------------------------
// Changes of files
// ---------------------------------------------------------------------------

/// The changes of a tick are those that its actions made, all of them and in order.
pub proof fn every_change_is_tracked(executions: Seq<ActionExecution>)
    ensures
        ({
            let changing = executions.filter(|e: ActionExecution| e.code_diff is Some);
            let changes = diffs_of(executions);
            &&& changes.len() == changing.len()
            &&& forall|i: int|
                0 <= i < changes.len() ==> Some(#[trigger] changes[i]) == changing[i].code_diff
        }),
    decreases executions.len(),
{
    reveal(Seq::filter);
    if executions.len() > 0 {
        every_change_is_tracked(executions.drop_last());
    }
}

/// The lines of one change are its own, and those of two lists of changes add up.
pub proof fn changed_lines_add_up(
    a: Seq<(ArtifactId, CodeDiffContent)>,
    b: Seq<(ArtifactId, CodeDiffContent)>,
    one: (ArtifactId, CodeDiffContent),
)
    ensures
        added(seq![one]) == one.1.lines_added,
        removed(seq![one]) == one.1.lines_removed,
        added(a + b) == added(a) + added(b),
        removed(a + b) == removed(a) + removed(b),
    decreases b.len(),
{
    reveal_with_fuel(added, 2);
    reveal_with_fuel(removed, 2);
    assert(seq![one].drop_last() =~= Seq::empty());
    if b.len() == 0 {
        assert(a + b =~= a);
    } else {
        changed_lines_add_up(a, b.drop_last(), one);
        assert((a + b).drop_last() =~= a + b.drop_last());
        assert((a + b).last() == b.last());
    }
}

/// The summary tells of every change, with its file and its lines, and of their sums.
pub proof fn summary_tells_every_change(
    s: DiffSummary,
    entries: Seq<(ArtifactId, CodeDiffContent)>,
)
    requires
        sums_up(Some(s), entries),
    ensures
        s.files@.len() == entries.len(),
        forall|i: int|
            0 <= i < entries.len() ==> {
                &&& (#[trigger] s.files@[i]).path@ == entries[i].1.file_path@
                &&& s.files@[i].lines_added == entries[i].1.lines_added
                &&& s.files@[i].lines_removed == entries[i].1.lines_removed
                &&& s.files@[i].operation == entries[i].1.operation
            },
        s.lines_added == added(entries),
        s.lines_removed == removed(entries),
        s.net_delta == s.lines_added - s.lines_removed,
        entries.len() <= u32::MAX ==> s.files_modified == entries.len(),
{
}

/// There is a summary exactly if there is a change.
pub proof fn no_changes_no_summary(
    s: Option<DiffSummary>,
    entries: Seq<(ArtifactId, CodeDiffContent)>,
)
    requires
        sums_up(s, entries),
    ensures
        s is Some <==> entries.len() > 0,
{
}

proof fn change_is_told(c: CodeDiffContent)
    ensures
        has_text(change_line(c), c.file_path@),
        has_text(change_line(c), "(+"@ + dec_int(c.lines_added as int) + ", -"@ + dec_int(
            c.lines_removed as int,
        ) + ")"@),
{
    let line = change_line(c);
    let head = "- "@;
    let rest = line.subrange((head.len() + c.file_path@.len()) as int, line.len() as int);
    assert(head + c.file_path@ + rest =~= line);
    part_is_found(head, c.file_path@, rest);
    let sums = "(+"@ + dec_int(c.lines_added as int) + ", -"@ + dec_int(c.lines_removed as int)
        + ")"@;
    let front = "- "@ + c.file_path@ + ": "@ + crate::diff_tracker::operation_name(c.operation)
        + " "@;
    reveal_strlit(" (+");
    reveal_strlit("(+");
    reveal_strlit(" ");
    reveal_strlit(")\n");
    reveal_strlit(")");
    reveal_strlit("\n");
    assert(" (+"@ =~= " "@ + "(+"@);
    assert(")\n"@ =~= ")"@ + "\n"@);
    assert(front + sums + "\n"@ =~= line);
    part_is_found(front, sums, "\n"@);
}

proof fn changes_are_told(entries: Seq<(ArtifactId, CodeDiffContent)>, i: int)
    requires
        0 <= i < entries.len(),
    ensures
        has_text(change_lines(entries), change_line(entries[i].1)),
    decreases entries.len(),
{
    let front = change_lines(entries.drop_last());
    let last = change_line(entries.last().1);
    if i == entries.len() - 1 {
        end_is_found(front, last);
    } else {
        changes_are_told(entries.drop_last(), i);
        found_in_longer(Seq::empty(), front, last, change_line(entries[i].1));
        assert(Seq::empty() + front + last =~= change_lines(entries));
    }
}

/// The section on the changes tells of every change: its file and its lines.
#[verifier::rlimit(40)]
pub proof fn section_tells_every_change(entries: Seq<(ArtifactId, CodeDiffContent)>, i: int)
    requires
        0 <= i < entries.len(),
    ensures
        has_text(reflect_section(entries), entries[i].1.file_path@),
        has_text(
            reflect_section(entries),
            "(+"@ + dec_int(entries[i].1.lines_added as int) + ", -"@ + dec_int(
                entries[i].1.lines_removed as int,
            ) + ")"@,
        ),
{
    let c = entries[i].1;
    let text = reflect_section(entries);
    let lines = change_lines(entries);
    let tail =
        "\nReview: Are these changes correct and complete? Did the agent miss any files?\n"@;
    let n = text.len() - tail.len() - lines.len();
    assert(text.subrange(0, n) + lines + tail =~= text);
    part_is_found(text.subrange(0, n), lines, tail);
    changes_are_told(entries, i);
    change_is_told(c);
    found_by_way(text, lines, change_line(c));
    found_by_way(text, change_line(c), c.file_path@);
    found_by_way(
        text,
        change_line(c),
        "(+"@ + dec_int(c.lines_added as int) + ", -"@ + dec_int(c.lines_removed as int) + ")"@,
    );
}

// ---------------------------------------------------------------------------
// The git repository
// ---------------------------------------------------------------------------

/// Counting counts every line that fulfils the condition, once.
pub proof fn counting_counts(lines: Seq<Seq<char>>, p: spec_fn(Seq<char>) -> bool)
    ensures
        count_where(lines, p) == lines.filter(p).len(),
    decreases lines.len(),
{
    reveal(Seq::filter);
    if lines.len() > 0 {
        counting_counts(lines.drop_last(), p);
    }
}

/// In a line of the status the first letter tells of the index, the second of the working
/// tree. A space is no change, and two question marks are an untracked file.
pub proof fn status_letters_tell(line: Seq<char>)
    requires
        encode_utf8(line).len() >= 2,
    ensures
        ({
            let index = encode_utf8(line)[0];
            let tree = encode_utf8(line)[1];
            &&& index == ' ' as u8 ==> !is_staged(line)
            &&& tree == ' ' as u8 ==> !is_modified(line)
            &&& index == 'M' as u8 || index == 'A' as u8 || index == 'D' as u8 ==> is_staged(line)
            &&& tree == 'M' as u8 || tree == 'D' as u8 ==> is_modified(line)
            &&& index == '?' as u8 && tree == '?' as u8 ==> is_untracked(line) && !is_staged(line)
                && !is_modified(line)
            &&& index != '?' as u8 ==> !is_untracked(line)
        }),
{
    assert(' ' as u8 == 32 && '?' as u8 == 63 && 'M' as u8 == 77 && 'A' as u8 == 65 && 'D' as u8
        == 68);
}

#[verifier::rlimit(40)]
proof fn commits_are_told(commits: Seq<Seq<char>>, i: int)
    requires
        0 <= i < commits.len(),
    ensures
        has_text(commit_lines(commits), commits[i]),
    decreases commits.len(),
{
    let front = commit_lines(commits.drop_last());
    let last = "  "@ + commits.last() + "\n"@;
    if i == commits.len() - 1 {
        end_is_found(front, last);
        part_is_found("  "@, commits.last(), "\n"@);
        found_by_way(commit_lines(commits), last, commits.last());
    } else {
        commits_are_told(commits.drop_last(), i);
        found_in_longer(Seq::empty(), front, last, commits[i]);
        assert(Seq::empty() + front + last =~= commit_lines(commits));
    }
}

/// The context tells the branch, every recent commit, and whether the tree is clean.
#[verifier::rlimit(40)]
pub proof fn git_context_tells(s: GitState)
    ensures
        has_text(git_section(s), s.branch@),
        forall|i: int|
            0 <= i < s.recent_commits@.len() ==> has_text(
                git_section(s),
                (#[trigger] s.recent_commits@[i])@,
            ),
        has_text(git_section(s), tree_line(s)),
{
    let text = git_section(s);
    let head = "=== GIT CONTEXT ===\n"@ + "Branch: "@;
    let top = head + s.branch@ + "\n"@ + tree_line(s);
    let more = if s.recent_commits@.len() > 0 {
        "Recent commits:\n"@ + commit_lines(texts(s.recent_commits@))
    } else {
        Seq::empty()
    };
    assert(text =~= top + more);
    start_is_found(top, more);
    end_is_found(head + s.branch@ + "\n"@, tree_line(s));
    found_by_way(text, top, tree_line(s));
    part_is_found(head, s.branch@, "\n"@ + tree_line(s));
    assert(head + s.branch@ + ("\n"@ + tree_line(s)) =~= top);
    found_by_way(text, top, s.branch@);
    assert forall|i: int| 0 <= i < s.recent_commits@.len() implies has_text(
        text,
        (#[trigger] s.recent_commits@[i])@,
    ) by {
        let lines = commit_lines(texts(s.recent_commits@));
        commits_are_told(texts(s.recent_commits@), i);
        assert(texts(s.recent_commits@)[i] == s.recent_commits@[i]@);
        end_is_found(top, more);
        end_is_found("Recent commits:\n"@, lines);
        found_by_way(text, more, lines);
        found_by_way(text, lines, s.recent_commits@[i]@);
    }
}

proof fn tree_counts_are_told(parts: Seq<Seq<char>>, text: Seq<char>, i: int)
    requires
        0 <= i < parts.len(),
        text == "Status: "@ + joined(parts, ", "@) + "\n"@,
    ensures
        has_text(text, parts[i]),
{
    part_is_found("Status: "@, joined(parts, ", "@), "\n"@);
    joined_parts_are_found(parts, ", "@, i);
    found_by_way(text, joined(parts, ", "@), parts[i]);
}

/// What is said of the working tree tells how many files are modified, staged and
/// untracked, as far as there are any. Without any the tree is clean.
pub proof fn tree_line_tells_counts(s: GitState)
    ensures
        s.modified > 0 ==> has_text(tree_line(s), dec(s.modified as nat) + " modified"@),
        s.staged > 0 ==> has_text(tree_line(s), dec(s.staged as nat) + " staged"@),
        s.untracked > 0 ==> has_text(tree_line(s), dec(s.untracked as nat) + " untracked"@),
        s.modified == 0 && s.staged == 0 && s.untracked == 0 ==> tree_line(s)
            == "Working tree: clean\n"@,
{
    let a = counted(s.modified, " modified"@);
    let b = counted(s.staged, " staged"@);
    let c = counted(s.untracked, " untracked"@);
    let parts = a + b + c;
    if s.modified > 0 {
        assert(parts[0] == a[0]);
        tree_counts_are_told(parts, tree_line(s), 0);
    }
    if s.staged > 0 {
        assert(parts[a.len() as int] == b[0]);
        tree_counts_are_told(parts, tree_line(s), a.len() as int);
    }
    if s.untracked > 0 {
        assert(parts[(a.len() + b.len()) as int] == c[0]);
        tree_counts_are_told(parts, tree_line(s), (a.len() + b.len()) as int);
    }
}

// ---------------------------------------------------------------------------
// The repository
// ---------------------------------------------------------------------------

/// A language is named exactly if there is a file of it.
pub proof fn languages_are_found(f: RepoFiles)
    ensures
        languages_of(f).contains("Rust"@) <==> f.cargo_toml,
        languages_of(f).contains("Go"@) <==> f.go_mod,
        languages_of(f).contains("Python"@) <==> f.pyproject_toml || f.requirements_txt,
        languages_of(f).contains("JavaScript/TypeScript"@) <==> f.package_json.exists,
{
    reveal_strlit("Rust");
    reveal_strlit("Go");
    reveal_strlit("Python");
    reveal_strlit("JavaScript/TypeScript");
    assert("Rust"@.len() == 4 && "Go"@.len() == 2 && "Python"@.len() == 6
        && "JavaScript/TypeScript"@.len() == 21);
    let a = crate::repo_analysis::if_there(f.go_mod, "Go"@);
    let b = crate::repo_analysis::if_there(f.package_json.exists, "JavaScript/TypeScript"@);
    let c = crate::repo_analysis::if_there(f.pyproject_toml || f.requirements_txt, "Python"@);
    let d = crate::repo_analysis::if_there(f.cargo_toml, "Rust"@);
    let all = languages_of(f);
    assert(all == a + b + c + d);
    if f.go_mod {
        assert(all[0] == "Go"@);
    }
    if f.package_json.exists {
        assert(all[a.len() as int] == "JavaScript/TypeScript"@);
    }
    if f.pyproject_toml || f.requirements_txt {
        assert(all[(a.len() + b.len()) as int] == "Python"@);
    }
    if f.cargo_toml {
        assert(all[(a.len() + b.len() + c.len()) as int] == "Rust"@);
    }
}

/// A Rust project is built, tested and checked with cargo. Any other project without a
/// package description has the commands of its language.
pub proof fn commands_are_of_the_language(f: RepoFiles)
    ensures
        f.cargo_toml ==> build_command_of(f) == Some("cargo build --workspace"@) && test_command_of(
            f,
        ) == Some("cargo test --workspace"@) && lint_command_of(f) == Some(
            "cargo clippy --all-targets -- -D warnings"@,
        ),
        !f.cargo_toml && !f.package_json.exists && (f.pyproject_toml || f.requirements_txt)
            ==> build_command_of(f) == Some("python -m build"@) && test_command_of(f) == Some(
            "pytest"@,
        ),
        !f.cargo_toml && !f.package_json.exists && !(f.pyproject_toml || f.requirements_txt)
            && f.go_mod ==> build_command_of(f) == Some("go build ./..."@) && test_command_of(f)
            == Some("go test ./..."@),
        !f.cargo_toml && !f.package_json.exists ==> lint_command_of(f) is None,
        !f.cargo_toml && !f.package_json.exists && !(f.pyproject_toml || f.requirements_txt)
            && !f.go_mod ==> build_command_of(f) is None && test_command_of(f) is None,
{
}

#[verifier::rlimit(40)]
proof fn commands_are_told(commands: Seq<Seq<char>>, i: int)
    requires
        0 <= i < commands.len(),
    ensures
        has_text(command_lines(commands), commands[i]),
    decreases commands.len(),
{
    let front = command_lines(commands.drop_last());
    let last = "  - "@ + commands.last() + "\n"@;
    if i == commands.len() - 1 {
        end_is_found(front, last);
        part_is_found("  - "@, commands.last(), "\n"@);
        found_by_way(command_lines(commands), last, commands.last());
    } else {
        commands_are_told(commands.drop_last(), i);
        found_in_longer(Seq::empty(), front, last, commands[i]);
        assert(Seq::empty() + front + last =~= command_lines(commands));
    }
}

/// The line of a workflow that runs a command gives that command, and no other line gives
/// one.
pub proof fn workflow_line_gives_command(line: Seq<char>, rest: Seq<char>)
    ensures
        trimmed(line) == "- run:"@ + rest ==> run_command(line) == Some(trimmed(rest)),
        !begins_with(trimmed(line), "- run:"@) ==> run_command(line) is None,
{
    let p = "- run:"@;
    let all = p + rest;
    assert(all.subrange(0, p.len() as int) =~= p);
    assert(all.subrange(p.len() as int, all.len() as int) =~= rest);
}

/// The commands of a workflow are those of its lines, all of them and in order.
pub proof fn every_command_is_listed(lines: Seq<Seq<char>>)
    ensures
        ({
            let running = lines.filter(|l: Seq<char>| run_command(l) is Some);
            &&& run_commands(lines).len() == running.len()
            &&& forall|i: int|
                0 <= i < running.len() ==> Some(#[trigger] run_commands(lines)[i]) == run_command(
                    running[i],
                )
        }),
    decreases lines.len(),
{
    reveal(Seq::filter);
    if lines.len() > 0 {
        every_command_is_listed(lines.drop_last());
    }
}

/// The lines of a configuration that are neither blank nor comments are kept, all of them
/// and in order.
pub proof fn telling_lines_are_kept(lines: Seq<Seq<char>>)
    ensures
        ({
            let kept = lines.filter(
                |l: Seq<char>| trimmed(l).len() > 0 && !begins_with(trimmed(l), "#"@),
            );
            &&& telling_lines(lines).len() == kept.len()
            &&& forall|i: int|
                0 <= i < kept.len() ==> #[trigger] telling_lines(lines)[i] == trimmed(kept[i])
        }),
    decreases lines.len(),
{
    reveal(Seq::filter);
    if lines.len() > 0 {
        telling_lines_are_kept(lines.drop_last());
    }
}

/// What the context says of a repository names every language.
pub proof fn languages_are_told(a: RepoAnalysis, i: int)
    requires
        0 <= i < a.languages@.len(),
    ensures
        has_text(rendered(a), a.languages@[i]@),
{
    let list = joined(texts(a.languages@), ", "@);
    let head = "Languages: "@;
    let rest = rendered(a).subrange((head.len() + list.len()) as int, rendered(a).len() as int);
    assert(head + list + rest =~= rendered(a));
    part_is_found(head, list, rest);
    joined_parts_are_found(texts(a.languages@), ", "@, i);
    found_by_way(rendered(a), list, a.languages@[i]@);
}

/// What the context says of a repository with a language names every command of its
/// workflows.
pub proof fn workflow_commands_are_told(a: RepoAnalysis, i: int)
    requires
        a.languages@.len() > 0,
        0 <= i < a.ci_commands@.len(),
    ensures
        has_text(rendered(a), a.ci_commands@[i]@),
{
    let lines = command_lines(texts(a.ci_commands@));
    let n = rendered(a).len() - lines.len();
    assert(rendered(a).subrange(0, n) + lines =~= rendered(a));
    end_is_found(rendered(a).subrange(0, n), lines);
    commands_are_told(texts(a.ci_commands@), i);
    found_by_way(rendered(a), lines, a.ci_commands@[i]@);
}

// ---------------------------------------------------------------------------
// Messages to fetch
// ---------------------------------------------------------------------------

/// The message `k` of a conversation is one of its last three.
pub open spec fn is_recent(c: Conversation, k: int) -> bool {
    0 <= k < c.message_refs@.len() && c.message_refs@.len() - 3 <= k
}

proof fn recent_refs_are_those(messages: Seq<ConversationMessage>, x: Seq<char>)
    ensures
        refs_newest_first(messages).contains(x) <==> exists|k: int|
            0 <= k < messages.len() && (#[trigger] messages[k]).payload_ref.digest@ == x,
    decreases messages.len(),
{
    if messages.len() > 0 {
        let rest = messages.drop_last();
        let all = refs_newest_first(messages);
        recent_refs_are_those(rest, x);
        if all.contains(x) {
            let q = choose|q: int| 0 <= q < all.len() && all[q] == x;
            if q == 0 {
                assert(messages[messages.len() - 1].payload_ref.digest@ == x);
            } else {
                assert(refs_newest_first(rest)[q - 1] == x);
                let k = choose|k: int|
                    0 <= k < rest.len() && (#[trigger] rest[k]).payload_ref.digest@ == x;
                assert(messages[k] == rest[k]);
            }
        }
        if exists|k: int|
            0 <= k < messages.len() && (#[trigger] messages[k]).payload_ref.digest@ == x {
            let k = choose|k: int|
                0 <= k < messages.len() && (#[trigger] messages[k]).payload_ref.digest@ == x;
            if k == messages.len() - 1 {
                assert(all[0] == x);
            } else {
                assert(rest[k] == messages[k]);
                let front = refs_newest_first(rest);
                assert(front.contains(x));
                let q = choose|q: int| 0 <= q < front.len() && front[q] == x;
                assert(all[q + 1] == x);
            }
        }
    }
}

proof fn refs_of_conversation(c: Conversation, x: Seq<char>)
    ensures
        refs_newest_first(last_messages(c.message_refs@, 3)).contains(x) <==> exists|k: int|
            #[trigger] is_recent(c, k) && c.message_refs@[k].payload_ref.digest@ == x,
{
    let m = c.message_refs@;
    let recent = last_messages(m, 3);
    let shift = m.len() - recent.len();
    recent_refs_are_those(recent, x);
    if refs_newest_first(recent).contains(x) {
        let k = choose|k: int|
            0 <= k < recent.len() && (#[trigger] recent[k]).payload_ref.digest@ == x;
        assert(recent[k] == m[k + shift]);
        assert(is_recent(c, k + shift));
    }
    if exists|k: int| #[trigger] is_recent(c, k) && m[k].payload_ref.digest@ == x {
        let k = choose|k: int| #[trigger] is_recent(c, k) && m[k].payload_ref.digest@ == x;
        assert(recent[k - shift] == m[k]);
    }
}

proof fn refs_of_all(conversations: Seq<Conversation>, x: Seq<char>)
    ensures
        all_refs(conversations).contains(x) <==> exists|c: int, k: int|
            0 <= c < conversations.len() && #[trigger] is_recent(conversations[c], k)
                && conversations[c].message_refs@[k].payload_ref.digest@ == x,
    decreases conversations.len(),
{
    if conversations.len() > 0 {
        let rest = conversations.drop_last();
        let last = conversations.last();
        let a = all_refs(rest);
        let b = refs_newest_first(last_messages(last.message_refs@, 3));
        refs_of_all(rest, x);
        refs_of_conversation(last, x);
        assert(all_refs(conversations) == a + b);
        if (a + b).contains(x) {
            let q = choose|q: int| 0 <= q < (a + b).len() && (a + b)[q] == x;
            if q < a.len() {
                assert(a[q] == x);
                let (c, k) = choose|c: int, k: int|
                    0 <= c < rest.len() && #[trigger] is_recent(rest[c], k)
                        && rest[c].message_refs@[k].payload_ref.digest@ == x;
                assert(rest[c] == conversations[c]);
                assert(is_recent(conversations[c], k));
            } else {
                assert(b[q - a.len()] == x);
                let k = choose|k: int|
                    #[trigger] is_recent(last, k) && last.message_refs@[k].payload_ref.digest@ == x;
                assert(is_recent(conversations[conversations.len() - 1], k));
            }
        }
        if exists|c: int, k: int|
            0 <= c < conversations.len() && #[trigger] is_recent(conversations[c], k)
                && conversations[c].message_refs@[k].payload_ref.digest@ == x {
            let (c, k) = choose|c: int, k: int|
                0 <= c < conversations.len() && #[trigger] is_recent(conversations[c], k)
                    && conversations[c].message_refs@[k].payload_ref.digest@ == x;
            if c < rest.len() {
                assert(rest[c] == conversations[c]);
                assert(is_recent(rest[c], k));
                assert(a.contains(x));
                let q = choose|q: int| 0 <= q < a.len() && a[q] == x;
                assert((a + b)[q] == x);
            } else {
                assert(is_recent(last, k));
                assert(b.contains(x));
                let q = choose|q: int| 0 <= q < b.len() && b[q] == x;
                assert((a + b)[a.len() + q] == x);
            }
        }
    }
}

/// The messages to fetch are exactly the last three of every conversation, each once.
pub proof fn recent_messages_are_fetched(
    list: Seq<ArtifactId>,
    conversations: Seq<Conversation>,
    x: Seq<char>,
)
    requires
        digests(list) == distinct_refs(all_refs(conversations)),
    ensures
        digests(list).contains(x) <==> exists|c: int, k: int|
            0 <= c < conversations.len() && #[trigger] is_recent(conversations[c], k)
                && conversations[c].message_refs@[k].payload_ref.digest@ == x,
        digests(list).no_duplicates(),
{
    refs_of_all(conversations, x);
    messages_are_fetched_once(all_refs(conversations));
    assert(all_refs(conversations).contains(x) <==> distinct_refs(
        all_refs(conversations),
    ).contains(x));
}

/// The commands of two lists of workflows are those of the one, then those of the other,
/// and those of one workflow are the commands of its lines.
pub proof fn workflow_commands_add_up(a: Seq<Seq<char>>, b: Seq<Seq<char>>, one: Seq<char>)
    ensures
        all_run_commands(seq![one]) == run_commands(lines_of(one)),
        all_run_commands(a + b) == all_run_commands(a) + all_run_commands(b),
    decreases b.len(),
{
    reveal_with_fuel(all_run_commands, 2);
    assert(seq![one].drop_last() =~= Seq::<Seq<char>>::empty());
    assert(all_run_commands(seq![one]) =~= run_commands(lines_of(one)));
    if b.len() == 0 {
        assert(a + b =~= a);
        assert(all_run_commands(a) + all_run_commands(b) =~= all_run_commands(a));
    } else {
        workflow_commands_add_up(a, b.drop_last(), one);
        assert((a + b).drop_last() =~= a + b.drop_last());
        assert((a + b).last() == b.last());
        assert(all_run_commands(a + b) =~= all_run_commands(a) + all_run_commands(b));
    }
}

/// The summary of a configuration quotes its first two lines that say something.
pub proof fn summary_quotes_two_lines(content: Seq<char>, i: int)
    requires
        0 <= i < 2,
        i < telling_lines(lines_of(content)).len(),
    ensures
        has_text(config_summary(content), telling_lines(lines_of(content))[i]),
{
    joined_parts_are_found(first_n(telling_lines(lines_of(content)), 2), ", "@, i);
}

/// A formatter is noted if its configuration is there, and nothing is noted without any.
pub proof fn formatters_are_noted(f: RepoFiles)
    ensures
        f.prettierrc ==> formatter_notes(f).contains(".prettierrc"@),
        f.prettierrc_json ==> formatter_notes(f).contains(".prettierrc.json"@),
        f.editorconfig ==> formatter_notes(f).contains(".editorconfig"@),
        f.eslintrc ==> formatter_notes(f).contains(".eslintrc"@),
        f.eslintrc_js ==> formatter_notes(f).contains(".eslintrc.js"@),
        f.rustfmt_toml.exists ==> has_text(formatter_notes(f)[0], "rustfmt.toml"@),
        f.rustfmt_toml.content matches Some(c) ==> (f.rustfmt_toml.exists ==> has_text(
            formatter_notes(f)[0],
            config_summary(c@),
        )),
        !f.prettierrc && !f.prettierrc_json && !f.editorconfig && !f.eslintrc && !f.eslintrc_js
            && !f.rustfmt_toml.exists && !f.dot_rustfmt_toml.exists ==> formatter_notes(f).len()
            == 0,
{
    let a = rustfmt_note(f.rustfmt_toml, "rustfmt.toml"@);
    let b = rustfmt_note(f.dot_rustfmt_toml, ".rustfmt.toml"@);
    let c = if_there(f.prettierrc, ".prettierrc"@);
    let d = if_there(f.prettierrc_json, ".prettierrc.json"@);
    let e = if_there(f.editorconfig, ".editorconfig"@);
    let g = if_there(f.eslintrc, ".eslintrc"@);
    let h = if_there(f.eslintrc_js, ".eslintrc.js"@);
    let all = formatter_notes(f);
    assert(all == a + b + c + d + e + g + h);
    let n = (a.len() + b.len()) as int;
    if f.prettierrc {
        assert(all[n] == c[0]);
    }
    if f.prettierrc_json {
        assert(all[n + c.len()] == d[0]);
    }
    if f.editorconfig {
        assert(all[n + c.len() + d.len()] == e[0]);
    }
    if f.eslintrc {
        assert(all[n + c.len() + d.len() + e.len()] == g[0]);
    }
    if f.eslintrc_js {
        assert(all[n + c.len() + d.len() + e.len() + g.len()] == h[0]);
    }
    if f.rustfmt_toml.exists {
        assert(all[0] == a[0]);
        let summary = match f.rustfmt_toml.content {
            Some(t) => config_summary(t@),
            None => Seq::empty(),
        };
        part_is_found("rustfmt ("@, "rustfmt.toml"@, "): "@ + summary);
        assert("rustfmt ("@ + "rustfmt.toml"@ + ("): "@ + summary) =~= a[0]);
        end_is_found("rustfmt ("@ + "rustfmt.toml"@ + "): "@, summary);
    }
}

} // verus!

//! The state of a git repository, for the context of the vessel.
//!
//! The git commands are run outside; what they print comes in as bytes.

use vstd::prelude::*;
use vstd::string::*;
use vstd::utf8::*;

use crate::text::{
    dec, dec_u64, join, joined, lines_of, lossy, lossy_text, split_lines, texts, trim, trimmed,
};

verus! {

/// The state of a git repository.
#[derive(Debug, PartialEq, Eq)]
pub struct GitState {
    pub branch: String,
    /// How many files have changes that are not staged.
    pub modified: u32,
    /// How many files have staged changes.
    pub staged: u32,
    /// How many files are not tracked.
    pub untracked: u32,
    /// The newest commits, one line each.
    pub recent_commits: Vec<String>,
}

// ---------------------------------------------------------------------------
// Reading what git prints
// ---------------------------------------------------------------------------

/// The line of the status tells of an untracked file.
pub open spec fn is_untracked(line: Seq<char>) -> bool {
    let b = encode_utf8(line);
    b.len() >= 2 && b[0] == 63 && b[1] == 63
}

/// The status letter stands for a change.
pub open spec fn is_change(letter: u8) -> bool {
    letter != 32 && letter != 63
}

/// The line of the status tells of a staged change.
pub open spec fn is_staged(line: Seq<char>) -> bool {
    encode_utf8(line).len() >= 2 && is_change(encode_utf8(line)[0])
}

/// The line of the status tells of a change that is not staged.
pub open spec fn is_modified(line: Seq<char>) -> bool {
    encode_utf8(line).len() >= 2 && is_change(encode_utf8(line)[1])
}

/// How many of the lines fulfil `p`.
pub open spec fn count_where(lines: Seq<Seq<char>>, p: spec_fn(Seq<char>) -> bool) -> nat
    decreases lines.len(),
{
    if lines.len() == 0 {
        0
    } else {
        count_where(lines.drop_last(), p) + if p(lines.last()) {
            1nat
        } else {
            0nat
        }
    }
}

/// The name of the branch that git prints. Nothing if git failed or printed nothing.
pub fn parse_branch(success: bool, stdout: &Vec<u8>) -> (r: Option<String>)
    ensures
        match r {
            Some(b) => success && b@ == trimmed(lossy(stdout@)) && b@.len() > 0,
            None => !success || trimmed(lossy(stdout@)).len() == 0,
        },
{
    if !success {
        return None;
    }
    let branch = trim(lossy_text(stdout).as_str());
    if branch.as_str().is_empty() {
        None
    } else {
        Some(branch)
    }
}

/// Counts the files in the lines of a status: modified, staged and untracked.
pub fn count_status(lines: &Vec<String>) -> (r: (u32, u32, u32))
    requires
        lines@.len() <= u32::MAX,
    ensures
        r.0 == count_where(texts(lines@), |l: Seq<char>| is_modified(l)),
        r.1 == count_where(texts(lines@), |l: Seq<char>| is_staged(l)),
        r.2 == count_where(texts(lines@), |l: Seq<char>| is_untracked(l)),
{
    let ghost all = texts(lines@);
    let ghost pm = |l: Seq<char>| is_modified(l);
    let ghost ps = |l: Seq<char>| is_staged(l);
    let ghost pu = |l: Seq<char>| is_untracked(l);
    let mut modified: u32 = 0;
    let mut staged: u32 = 0;
    let mut untracked: u32 = 0;
    let mut i: usize = 0;
    while i < lines.len()
        invariant
            all == texts(lines@),
            pm == (|l: Seq<char>| is_modified(l)),
            ps == (|l: Seq<char>| is_staged(l)),
            pu == (|l: Seq<char>| is_untracked(l)),
            lines@.len() <= u32::MAX,
            i <= lines@.len(),
            modified <= i,
            staged <= i,
            untracked <= i,
            modified == count_where(all.subrange(0, i as int), pm),
            staged == count_where(all.subrange(0, i as int), ps),
            untracked == count_where(all.subrange(0, i as int), pu),
        decreases lines@.len() - i,
    {
        let ghost now = all.subrange(0, i + 1);
        assert(now.drop_last() =~= all.subrange(0, i as int));
        assert(now.last() == lines@[i as int]@);
        let bytes = lines[i].as_str().as_bytes();
        if bytes.len() >= 2 {
            let index_status: u8 = bytes[0];
            let worktree_status: u8 = bytes[1];
            if index_status == 63 && worktree_status == 63 {
                untracked = untracked + 1;
            } else {
                if index_status != 32 && index_status != 63 {
                    staged = staged + 1;
                }
                if worktree_status != 32 && worktree_status != 63 {
                    modified = modified + 1;
                }
            }
        }
        i = i + 1;
    }
    assert(all.subrange(0, all.len() as int) =~= all);
    (modified, staged, untracked)
}

/// The lines of the log that git prints.
pub fn parse_log(stdout: &Vec<u8>) -> (r: Vec<String>)
    ensures
        texts(r@) == lines_of(lossy(stdout@)),
{
    split_lines(lossy_text(stdout).as_str())
}

/// Puts the state of a repository together from what git prints.
///
/// There is no state if git does not know the branch. Nothing is returned either if
/// the status has more lines than can be counted.
pub fn git_state_from_outputs(
    branch_success: bool,
    branch: &Vec<u8>,
    status: &Vec<u8>,
    log: &Vec<u8>,
) -> (r: Option<GitState>)
    ensures
        match r {
            Some(s) => {
                &&& branch_success
                &&& s.branch@ == trimmed(lossy(branch@))
                &&& s.branch@.len() > 0
                &&& s.modified == count_where(
                    lines_of(lossy(status@)),
                    |l: Seq<char>| is_modified(l),
                )
                &&& s.staged == count_where(lines_of(lossy(status@)), |l: Seq<char>| is_staged(l))
                &&& s.untracked == count_where(
                    lines_of(lossy(status@)),
                    |l: Seq<char>| is_untracked(l),
                )
                &&& texts(s.recent_commits@) == lines_of(lossy(log@))
            },
            None => !branch_success || trimmed(lossy(branch@)).len() == 0 || lines_of(
                lossy(status@),
            ).len() > u32::MAX,
        },
{
    let branch = match parse_branch(branch_success, branch) {
        Some(b) => b,
        None => {
            return None;
        },
    };
    let lines = split_lines(lossy_text(status).as_str());
    assert(texts(lines@).len() == lines@.len());
    if lines.len() > 4294967295 {
        return None;
    }
    let (modified, staged, untracked) = count_status(&lines);
    Some(GitState { branch, modified, staged, untracked, recent_commits: parse_log(log) })
}

// ---------------------------------------------------------------------------
// Rendering
// ---------------------------------------------------------------------------

/// The count with its label, if it is not zero.
pub open spec fn counted(n: u32, label: Seq<char>) -> Seq<Seq<char>> {
    if n > 0 {
        seq![dec(n as nat) + label]
    } else {
        Seq::empty()
    }
}

/// What the rendering says of the working tree.
pub open spec fn tree_line(s: GitState) -> Seq<char> {
    if s.modified == 0 && s.staged == 0 && s.untracked == 0 {
        "Working tree: clean\n"@
    } else {
        "Status: "@ + joined(
            counted(s.modified, " modified"@) + counted(s.staged, " staged"@) + counted(
                s.untracked,
                " untracked"@,
            ),
            ", "@,
        ) + "\n"@
    }
}

/// The lines of the commits.
pub open spec fn commit_lines(commits: Seq<Seq<char>>) -> Seq<char>
    decreases commits.len(),
{
    if commits.len() == 0 {
        Seq::empty()
    } else {
        commit_lines(commits.drop_last()) + ("  "@ + commits.last() + "\n"@)
    }
}

/// The rendering of a state.
pub open spec fn git_section(s: GitState) -> Seq<char> {
    let head = "=== GIT CONTEXT ===\n"@ + "Branch: "@ + s.branch@ + "\n"@ + tree_line(s);
    if s.recent_commits@.len() > 0 {
        head + "Recent commits:\n"@ + commit_lines(texts(s.recent_commits@))
    } else {
        head
    }
}

fn push_count(parts: &mut Vec<String>, n: u32, label: &str)
    ensures
        texts(final(parts)@) == texts(old(parts)@) + counted(n, label@),
{
    let ghost before = parts@;
    if n > 0 {
        let mut part = dec_u64(n as u64);
        part.append(label);
        parts.push(part);
        assert(texts(parts@) =~= texts(before) + counted(n, label@));
    } else {
        assert(texts(parts@) =~= texts(before) + counted(n, label@));
    }
}

/// Renders the state of a repository as a section of the context.
pub fn render_git_context(state: &GitState) -> (r: String)
    ensures
        r@ == git_section(*state),
{
    let mut out = "=== GIT CONTEXT ===\n".to_owned();
    out.append("Branch: ");
    out.append(state.branch.as_str());
    out.append("\n");
    let mut tree = String::new();
    if state.modified == 0 && state.staged == 0 && state.untracked == 0 {
        tree = "Working tree: clean\n".to_owned();
    } else {
        let mut parts: Vec<String> = Vec::new();
        assert(texts(parts@) =~= Seq::<Seq<char>>::empty());
        push_count(&mut parts, state.modified, " modified");
        push_count(&mut parts, state.staged, " staged");
        push_count(&mut parts, state.untracked, " untracked");
        assert(texts(parts@) =~= counted(state.modified, " modified"@) + counted(
            state.staged,
            " staged"@,
        ) + counted(state.untracked, " untracked"@));
        tree = "Status: ".to_owned();
        tree.append(join(&parts, ", ").as_str());
        tree.append("\n");
    }
    out.append(tree.as_str());
    if state.recent_commits.len() > 0 {
        out.append("Recent commits:\n");
        let mut lines = String::new();
        let ghost all = texts(state.recent_commits@);
        let mut i: usize = 0;
        assert(lines@ =~= commit_lines(all.subrange(0, 0)));
        while i < state.recent_commits.len()
            invariant
                all == texts(state.recent_commits@),
                i <= state.recent_commits@.len(),
                lines@ == commit_lines(all.subrange(0, i as int)),
            decreases state.recent_commits@.len() - i,
        {
            assert(all.subrange(0, i + 1).drop_last() =~= all.subrange(0, i as int));
            let mut line = "  ".to_owned();
            line.append(state.recent_commits[i].as_str());
            line.append("\n");
            lines.append(line.as_str());
            i = i + 1;
        }
        assert(all.subrange(0, all.len() as int) =~= all);
        out.append(lines.as_str());
    }
    out
}

/// Renders the state of a repository, if there is one.
pub fn render_git_context_optional(state: Option<&GitState>) -> (r: String)
    ensures
        r@ == (match state {
            Some(s) => git_section(*s),
            None => Seq::empty(),
        }),
{
    match state {
        Some(s) => render_git_context(s),
        None => String::new(),
    }
}

} // verus!

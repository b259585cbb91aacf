//! The changes of files that the actions of a tick made.

use vstd::prelude::*;
use vstd::string::*;

use crate::text::{dec, dec_i64, dec_int, dec_usize};
use crate::types::{ActionExecution, ArtifactId, CodeDiffContent, CodeDiffOperation};

verus! {

/// Collects the changes of a tick.
#[derive(Debug)]
pub struct DiffTracker {
    pub entries: Vec<(ArtifactId, CodeDiffContent)>,
    pub tick_number: u64,
}

/// A changed file.
#[derive(Debug, PartialEq, Eq)]
pub struct FileDiffEntry {
    pub path: String,
    pub lines_added: i64,
    pub lines_removed: i64,
    pub operation: CodeDiffOperation,
}

/// The changes, for an event.
#[derive(Debug, PartialEq, Eq)]
pub struct DiffSummary {
    pub files_modified: u32,
    pub lines_added: i64,
    pub lines_removed: i64,
    pub net_delta: i64,
    pub files: Vec<FileDiffEntry>,
}

/// The changes of a whole tick, as they are stored.
#[derive(Debug, PartialEq, Eq)]
pub struct TickDiffSummary {
    pub tick_number: u64,
    pub files: Vec<FileDiffEntry>,
    pub total_lines_added: i64,
    pub total_lines_removed: i64,
    pub diff_artifact_ids: Vec<String>,
    pub is_summary: bool,
}

/// The number of added lines.
pub open spec fn added(entries: Seq<(ArtifactId, CodeDiffContent)>) -> int
    decreases entries.len(),
{
    if entries.len() == 0 {
        0
    } else {
        added(entries.drop_last()) + entries.last().1.lines_added
    }
}

/// The number of removed lines.
pub open spec fn removed(entries: Seq<(ArtifactId, CodeDiffContent)>) -> int
    decreases entries.len(),
{
    if entries.len() == 0 {
        0
    } else {
        removed(entries.drop_last()) + entries.last().1.lines_removed
    }
}

/// The sums of the lines can be built in 64 bits, entry by entry.
pub open spec fn sums_fit(entries: Seq<(ArtifactId, CodeDiffContent)>) -> bool {
    forall|k: int|
        0 <= k <= entries.len() ==> i64::MIN <= #[trigger] added(entries.subrange(0, k))
            <= i64::MAX && i64::MIN <= removed(entries.subrange(0, k)) <= i64::MAX
}

/// The files of the changes, in order.
pub open spec fn lists(files: Seq<FileDiffEntry>, entries: Seq<(ArtifactId, CodeDiffContent)>) -> bool {
    &&& files.len() == entries.len()
    &&& forall|i: int|
        0 <= i < files.len() ==> #[trigger] files[i] == (FileDiffEntry {
            path: entries[i].1.file_path,
            lines_added: entries[i].1.lines_added,
            lines_removed: entries[i].1.lines_removed,
            operation: entries[i].1.operation,
        })
}

/// The sums of the lines, and their difference, fit into their type.
pub open spec fn can_sum(entries: Seq<(ArtifactId, CodeDiffContent)>) -> bool {
    sums_fit(entries) && i64::MIN <= added(entries) - removed(entries) <= i64::MAX
}

/// The summary tells of the changes. There is none if there are no changes.
pub open spec fn sums_up(
    summary: Option<DiffSummary>,
    entries: Seq<(ArtifactId, CodeDiffContent)>,
) -> bool {
    match summary {
        Some(s) => {
            &&& entries.len() > 0
            &&& s.files_modified == entries.len() as u32
            &&& s.lines_added == added(entries)
            &&& s.lines_removed == removed(entries)
            &&& s.net_delta == added(entries) - removed(entries)
            &&& lists(s.files@, entries)
        },
        None => entries.len() == 0,
    }
}

/// The name of an operation.
pub open spec fn operation_name(op: CodeDiffOperation) -> Seq<char> {
    match op {
        CodeDiffOperation::Edit => "Edit"@,
        CodeDiffOperation::Create => "Create"@,
        CodeDiffOperation::Patch => "Patch"@,
    }
}

/// The line that tells of a change.
pub open spec fn change_line(c: CodeDiffContent) -> Seq<char> {
    "- "@ + c.file_path@ + ": "@ + operation_name(c.operation) + " (+"@ + dec_int(
        c.lines_added as int,
    ) + ", -"@ + dec_int(c.lines_removed as int) + ")\n"@
}

/// The lines that tell of the changes, one after the other.
pub open spec fn change_lines(entries: Seq<(ArtifactId, CodeDiffContent)>) -> Seq<char>
    decreases entries.len(),
{
    if entries.len() == 0 {
        Seq::empty()
    } else {
        change_lines(entries.drop_last()) + change_line(entries.last().1)
    }
}

/// The section on the changes for the Reflect step.
pub open spec fn reflect_section(entries: Seq<(ArtifactId, CodeDiffContent)>) -> Seq<char> {
    if entries.len() == 0 {
        Seq::empty()
    } else {
        "\n## File Changes This Tick\n\nModified "@ + dec(entries.len()) + " file(s) (+"@ + dec_int(
            added(entries),
        ) + " lines, -"@ + dec_int(removed(entries)) + " lines):\n"@ + change_lines(entries)
            + "\nReview: Are these changes correct and complete? Did the agent miss any files?\n"@
    }
}

fn operation_str(op: CodeDiffOperation) -> (r: &'static str)
    ensures
        r@ == operation_name(op),
{
    match op {
        CodeDiffOperation::Edit => "Edit",
        CodeDiffOperation::Create => "Create",
        CodeDiffOperation::Patch => "Patch",
    }
}

impl DiffTracker {
    /// A tracker for a tick, without changes.
    pub fn new(tick_number: u64) -> (t: DiffTracker)
        ensures
            t.entries@.len() == 0,
            t.tick_number == tick_number,
    {
        DiffTracker { entries: Vec::new(), tick_number }
    }

    /// Records a change.
    pub fn record(&mut self, artifact_id: ArtifactId, content: CodeDiffContent)
        ensures
            final(self).entries@ == old(self).entries@.push((artifact_id, content)),
            final(self).tick_number == old(self).tick_number,
    {
        self.entries.push((artifact_id, content));
    }

    /// Records the changes that executions made.
    pub fn record_executions(&mut self, executions: &Vec<ActionExecution>)
        ensures
            final(self).entries@ == old(self).entries@ + diffs_of(executions@),
            final(self).tick_number == old(self).tick_number,
    {
        let ghost before = self.entries@;
        let mut i: usize = 0;
        assert(before =~= before + diffs_of(executions@.subrange(0, 0)));
        while i < executions.len()
            invariant
                i <= executions@.len(),
                self.tick_number == old(self).tick_number,
                self.entries@ == before + diffs_of(executions@.subrange(0, i as int)),
            decreases executions@.len() - i,
        {
            assert(executions@.subrange(0, i + 1).drop_last() =~= executions@.subrange(
                0,
                i as int,
            ));
            match &executions[i].code_diff {
                Some(d) => {
                    self.record(d.0.clone(), d.1.clone());
                },
                None => {},
            }
            i = i + 1;
            assert(self.entries@ =~= before + diffs_of(executions@.subrange(0, i as int)));
        }
        assert(executions@.subrange(0, executions@.len() as int) =~= executions@);
    }

    /// Tells whether a change was recorded.
    pub fn has_diffs(&self) -> (r: bool)
        ensures
            r == (self.entries@.len() > 0),
    {
        self.entries.len() > 0
    }

    /// The number of recorded changes.
    pub fn len(&self) -> (r: usize)
        ensures
            r == self.entries@.len(),
    {
        self.entries.len()
    }

    /// Tells whether no change was recorded.
    pub fn is_empty(&self) -> (r: bool)
        ensures
            r == (self.entries@.len() == 0),
    {
        self.entries.len() == 0
    }

    /// Tells whether the sums of the lines, and their difference, fit into their type.
    pub fn fits(&self) -> (r: bool)
        ensures
            r == can_sum(self.entries@),
    {
        let mut total_added: i64 = 0;
        let mut total_removed: i64 = 0;
        let mut i: usize = 0;
        while i < self.entries.len()
            invariant
                i <= self.entries@.len(),
                total_added == added(self.entries@.subrange(0, i as int)),
                total_removed == removed(self.entries@.subrange(0, i as int)),
                forall|k: int|
                    0 <= k <= i ==> i64::MIN <= #[trigger] added(self.entries@.subrange(0, k))
                        <= i64::MAX && i64::MIN <= removed(self.entries@.subrange(0, k))
                        <= i64::MAX,
            decreases self.entries@.len() - i,
        {
            let ghost next = self.entries@.subrange(0, i + 1);
            assert(next.drop_last() =~= self.entries@.subrange(0, i as int));
            assert(added(next) == added(self.entries@.subrange(0, i as int))
                + self.entries@[i as int].1.lines_added);
            assert(removed(next) == removed(self.entries@.subrange(0, i as int))
                + self.entries@[i as int].1.lines_removed);
            match (
                total_added.checked_add(self.entries[i].1.lines_added),
                total_removed.checked_add(self.entries[i].1.lines_removed),
            ) {
                (Some(a), Some(r)) => {
                    total_added = a;
                    total_removed = r;
                },
                _ => {
                    assert(!(i64::MIN <= added(next) <= i64::MAX && i64::MIN <= removed(next)
                        <= i64::MAX));
                    return false;
                },
            }
            i = i + 1;
        }
        assert(self.entries@.subrange(0, self.entries@.len() as int) =~= self.entries@);
        total_added.checked_sub(total_removed).is_some()
    }

    /// The sums of the added and the removed lines.
    fn totals(&self) -> (r: (i64, i64))
        requires
            sums_fit(self.entries@),
        ensures
            r.0 == added(self.entries@),
            r.1 == removed(self.entries@),
    {
        let mut total_added: i64 = 0;
        let mut total_removed: i64 = 0;
        let mut i: usize = 0;
        while i < self.entries.len()
            invariant
                i <= self.entries@.len(),
                sums_fit(self.entries@),
                total_added == added(self.entries@.subrange(0, i as int)),
                total_removed == removed(self.entries@.subrange(0, i as int)),
            decreases self.entries@.len() - i,
        {
            let ghost next = self.entries@.subrange(0, i + 1);
            assert(next.drop_last() =~= self.entries@.subrange(0, i as int));
            assert(added(next) == added(self.entries@.subrange(0, i as int))
                + self.entries@[i as int].1.lines_added);
            total_added = total_added + self.entries[i].1.lines_added;
            total_removed = total_removed + self.entries[i].1.lines_removed;
            i = i + 1;
        }
        assert(self.entries@.subrange(0, self.entries@.len() as int) =~= self.entries@);
        (total_added, total_removed)
    }

    fn file_entries(&self) -> (r: Vec<FileDiffEntry>)
        ensures
            lists(r@, self.entries@),
    {
        let mut files: Vec<FileDiffEntry> = Vec::new();
        let mut i: usize = 0;
        while i < self.entries.len()
            invariant
                i <= self.entries@.len(),
                lists(files@, self.entries@.subrange(0, i as int)),
            decreases self.entries@.len() - i,
        {
            let c = &self.entries[i].1;
            files.push(
                FileDiffEntry {
                    path: c.file_path.clone(),
                    lines_added: c.lines_added,
                    lines_removed: c.lines_removed,
                    operation: c.operation,
                },
            );
            i = i + 1;
        }
        files
    }

    /// Sums the changes up for an event; nothing if there are none.
    pub fn build_event_summary(&self) -> (r: Option<DiffSummary>)
        requires
            can_sum(self.entries@),
        ensures
            sums_up(r, self.entries@),
    {
        if self.is_empty() {
            return None;
        }
        let (total_added, total_removed) = self.totals();
        Some(
            DiffSummary {
                files_modified: self.entries.len() as u32,
                lines_added: total_added,
                lines_removed: total_removed,
                net_delta: total_added - total_removed,
                files: self.file_entries(),
            },
        )
    }

    /// Sums the changes up for storage; nothing if there are none.
    pub fn finalize(self) -> (r: Option<TickDiffSummary>)
        requires
            sums_fit(self.entries@),
        ensures
            r is None <==> self.entries@.len() == 0,
            r matches Some(s) ==> {
                &&& s.tick_number == self.tick_number
                &&& lists(s.files@, self.entries@)
                &&& s.total_lines_added == added(self.entries@)
                &&& s.total_lines_removed == removed(self.entries@)
                &&& s.diff_artifact_ids@ == Seq::new(
                    self.entries@.len(),
                    |i: int| self.entries@[i].0.digest,
                )
                &&& s.is_summary
            },
    {
        if self.is_empty() {
            return None;
        }
        let (total_added, total_removed) = self.totals();
        let files = self.file_entries();
        let mut ids: Vec<String> = Vec::new();
        let mut i: usize = 0;
        while i < self.entries.len()
            invariant
                i <= self.entries@.len(),
                ids@ == Seq::new(i as nat, |k: int| self.entries@[k].0.digest),
            decreases self.entries@.len() - i,
        {
            ids.push(self.entries[i].0.digest.clone());
            i = i + 1;
            assert(ids@ =~= Seq::new(i as nat, |k: int| self.entries@[k].0.digest));
        }
        Some(
            TickDiffSummary {
                tick_number: self.tick_number,
                files,
                total_lines_added: total_added,
                total_lines_removed: total_removed,
                diff_artifact_ids: ids,
                is_summary: true,
            },
        )
    }

    /// Renders the changes for the prompt of the Reflect step.
    pub fn format_for_reflect(&self) -> (r: String)
        requires
            sums_fit(self.entries@),
        ensures
            r@ == reflect_section(self.entries@),
    {
        if self.is_empty() {
            return String::new();
        }
        let (total_added, total_removed) = self.totals();
        let mut lines = String::new();
        let mut i: usize = 0;
        assert(lines@ =~= change_lines(self.entries@.subrange(0, 0)));
        while i < self.entries.len()
            invariant
                i <= self.entries@.len(),
                lines@ == change_lines(self.entries@.subrange(0, i as int)),
            decreases self.entries@.len() - i,
        {
            let c = &self.entries[i].1;
            let ghost next = self.entries@.subrange(0, i + 1);
            assert(next.drop_last() =~= self.entries@.subrange(0, i as int));
            let mut line = "- ".to_owned();
            line.append(c.file_path.as_str());
            line.append(": ");
            line.append(operation_str(c.operation));
            line.append(" (+");
            line.append(dec_i64(c.lines_added).as_str());
            line.append(", -");
            line.append(dec_i64(c.lines_removed).as_str());
            line.append(")\n");
            lines.append(line.as_str());
            i = i + 1;
        }
        assert(self.entries@.subrange(0, self.entries@.len() as int) =~= self.entries@);
        let mut msg = "\n## File Changes This Tick\n\nModified ".to_owned();
        msg.append(dec_usize(self.entries.len()).as_str());
        msg.append(" file(s) (+");
        msg.append(dec_i64(total_added).as_str());
        msg.append(" lines, -");
        msg.append(dec_i64(total_removed).as_str());
        msg.append(" lines):\n");
        msg.append(lines.as_str());
        msg.append(
            "\nReview: Are these changes correct and complete? Did the agent miss any files?\n",
        );
        msg
    }
}

/// The changes that the executions made, in order.
pub open spec fn diffs_of(executions: Seq<ActionExecution>) -> Seq<(ArtifactId, CodeDiffContent)>
    decreases executions.len(),
{
    if executions.len() == 0 {
        Seq::empty()
    } else {
        match executions.last().code_diff {
            Some(d) => diffs_of(executions.drop_last()).push(d),
            None => diffs_of(executions.drop_last()),
        }
    }
}

/// Records the changes that the executions of a tick made.
pub fn track_executions(tick_number: u64, executions: &Vec<ActionExecution>) -> (t: DiffTracker)
    ensures
        t.tick_number == tick_number,
        t.entries@ == diffs_of(executions@),
{
    let mut tracker = DiffTracker::new(tick_number);
    tracker.record_executions(executions);
    assert(tracker.entries@ =~= diffs_of(executions@));
    tracker
}

/// The changes of two lists of executions are those of the first, then those of the
/// second.
pub proof fn changes_add_up(a: Seq<ActionExecution>, b: Seq<ActionExecution>)
    ensures
        diffs_of(a + b) == diffs_of(a) + diffs_of(b),
    decreases b.len(),
{
    if b.len() == 0 {
        assert(a + b =~= a);
        assert(diffs_of(a) + diffs_of(b) =~= diffs_of(a));
    } else {
        changes_add_up(a, b.drop_last());
        assert((a + b).drop_last() =~= a + b.drop_last());
        assert(diffs_of(a + b) =~= diffs_of(a) + diffs_of(b));
    }
}

} // verus!

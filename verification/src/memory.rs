//! The plan and the working memory of a vessel.

use vstd::prelude::*;
use vstd::string::*;

use crate::text::{opt_text, str_eq};
use crate::types::PlanTaskId;

verus! {

// ---------------------------------------------------------------------------
// The plan
// ---------------------------------------------------------------------------

/// The state of a task.
#[derive(Debug, Clone, Copy, PartialEq, Eq, Structural)]
pub enum PlanTaskStatus {
    Pending,
    InProgress,
    Completed,
    Failed,
    Blocked,
    Skipped,
}

/// A task of a plan.
#[derive(Debug, PartialEq, Eq)]
pub struct PlanTask {
    pub id: PlanTaskId,
    pub description: String,
    pub status: PlanTaskStatus,
    pub depends_on: Vec<PlanTaskId>,
    pub tool_hint: Option<String>,
}

/// A plan.
#[derive(Debug, PartialEq, Eq)]
pub struct Plan {
    pub objective: String,
    pub tasks: Vec<PlanTask>,
    /// When the plan was changed last, as an RFC 3339 text.
    pub updated_at: Option<String>,
}

/// A change of a plan.
#[derive(Debug, PartialEq, Eq)]
pub enum PlanOp {
    AddTask { task: PlanTask },
    UpdateStatus { task_id: PlanTaskId, new_status: PlanTaskStatus },
    RemoveTask { task_id: PlanTaskId },
    UpdateObjective { objective: String },
}

/// A new plan, or changes of the present one.
#[derive(Debug, PartialEq, Eq)]
pub enum PlanUpdate {
    Replace { plan: Plan },
    Patch { operations: Vec<PlanOp> },
}

/// The model of a plan.
pub struct PlanView {
    pub objective: Seq<char>,
    pub tasks: Seq<PlanTask>,
    pub updated_at: Option<Seq<char>>,
}

impl View for Plan {
    type V = PlanView;

    open spec fn view(&self) -> PlanView {
        PlanView {
            objective: self.objective@,
            tasks: self.tasks@,
            updated_at: opt_text(self.updated_at),
        }
    }
}

/// The task with the status `status`, if it is the task `id`.
pub open spec fn task_with_status(t: PlanTask, id: PlanTaskId, status: PlanTaskStatus) -> PlanTask {
    if t.id == id {
        PlanTask { status, ..t }
    } else {
        t
    }
}

/// The tasks other than `id`.
pub open spec fn tasks_without(tasks: Seq<PlanTask>, id: PlanTaskId) -> Seq<PlanTask>
    decreases tasks.len(),
{
    if tasks.len() == 0 {
        tasks
    } else if tasks.last().id == id {
        tasks_without(tasks.drop_last(), id)
    } else {
        tasks_without(tasks.drop_last(), id).push(tasks.last())
    }
}

/// The plan after a change.
pub open spec fn plan_after(p: PlanView, op: PlanOp) -> PlanView {
    match op {
        PlanOp::AddTask { task } => PlanView { tasks: p.tasks.push(task), ..p },
        PlanOp::UpdateStatus { task_id, new_status } => PlanView {
            tasks: Seq::new(
                p.tasks.len(),
                |i: int| task_with_status(p.tasks[i], task_id, new_status),
            ),
            ..p
        },
        PlanOp::RemoveTask { task_id } => PlanView { tasks: tasks_without(p.tasks, task_id), ..p },
        PlanOp::UpdateObjective { objective } => PlanView { objective: objective@, ..p },
    }
}

/// The plan after changes, one after the other.
pub open spec fn plan_after_all(p: PlanView, ops: Seq<PlanOp>) -> PlanView
    decreases ops.len(),
{
    if ops.len() == 0 {
        p
    } else {
        plan_after(plan_after_all(p, ops.drop_last()), ops.last())
    }
}

/// The plan after an update: the new plan, or the present one with the changes.
pub open spec fn plan_updated(p: PlanView, update: PlanUpdate) -> PlanView {
    match update {
        PlanUpdate::Replace { plan } => plan@,
        PlanUpdate::Patch { operations } => plan_after_all(p, operations@),
    }
}

/// The plan without objective and tasks.
pub open spec fn empty_plan(now: Seq<char>) -> PlanView {
    PlanView { objective: ""@, tasks: Seq::empty(), updated_at: Some(now) }
}

impl Plan {
    /// A plan without objective and tasks.
    pub fn empty(now: &str) -> (p: Plan)
        ensures
            p@ == empty_plan(now@),
    {
        let p = Plan {
            objective: "".to_owned(),
            tasks: Vec::new(),
            updated_at: Some(now.to_owned()),
        };
        assert(p.tasks@ =~= Seq::<PlanTask>::empty());
        p
    }

    /// Applies one change.
    pub fn apply_op(&mut self, op: PlanOp)
        ensures
            final(self)@ == plan_after(old(self)@, op),
    {
        let ghost before = self@;
        match op {
            PlanOp::AddTask { task } => {
                self.tasks.push(task);
            },
            PlanOp::UpdateStatus { task_id, new_status } => {
                self.set_status(task_id, new_status);
            },
            PlanOp::RemoveTask { task_id } => {
                let mut kept: Vec<PlanTask> = Vec::new();
                let ghost all = self.tasks@;
                let ghost mut done: int = 0;
                assert(kept@ =~= tasks_without(all.subrange(0, 0), task_id));
                assert(all.subrange(0, all.len() as int) =~= all);
                while self.tasks.len() > 0
                    invariant
                        0 <= done <= all.len(),
                        self.tasks@ == all.subrange(done, all.len() as int),
                        kept@ == tasks_without(all.subrange(0, done), task_id),
                        self.objective@ == before.objective,
                        opt_text(self.updated_at) == before.updated_at,
                    decreases self.tasks@.len(),
                {
                    let task = self.tasks.remove(0);
                    proof {
                        assert(self.tasks@ =~= all.subrange(done + 1, all.len() as int));
                        assert(all.subrange(0, done + 1).drop_last() =~= all.subrange(0, done));
                        assert(all.subrange(0, done + 1).last() == task);
                        done = done + 1;
                    }
                    if task.id != task_id {
                        kept.push(task);
                    }
                }
                assert(all.subrange(0, done) =~= all);
                self.tasks = kept;
            },
            PlanOp::UpdateObjective { objective } => {
                self.objective = objective;
            },
        }
    }

    /// Gives the task `task_id` a new status.
    pub fn set_status(&mut self, task_id: PlanTaskId, new_status: PlanTaskStatus)
        ensures
            final(self)@ == plan_after(old(self)@, PlanOp::UpdateStatus { task_id, new_status }),
    {
        let ghost before = self@;
        let mut i: usize = 0;
        while i < self.tasks.len()
            invariant
                i <= self.tasks@.len(),
                self.tasks@.len() == before.tasks.len(),
                self.objective@ == before.objective,
                opt_text(self.updated_at) == before.updated_at,
                forall|k: int|
                    0 <= k < i ==> self.tasks@[k] == task_with_status(
                        before.tasks[k],
                        task_id,
                        new_status,
                    ),
                forall|k: int| i <= k < before.tasks.len() ==> self.tasks@[k] == before.tasks[k],
            decreases self.tasks@.len() - i,
        {
            if self.tasks[i].id == task_id {
                self.tasks[i].status = new_status;
            }
            i = i + 1;
        }
        assert(self.tasks@ =~= plan_after(
            before,
            PlanOp::UpdateStatus { task_id, new_status },
        ).tasks);
    }

    /// Applies an update.
    pub fn apply_update(self, update: PlanUpdate) -> (p: Plan)
        ensures
            p@ == plan_updated(self@, update),
    {
        match update {
            PlanUpdate::Replace { plan } => plan,
            PlanUpdate::Patch { operations } => {
                let mut plan = self;
                let mut rest = operations;
                let ghost all = operations@;
                let ghost mut done: int = 0;
                assert(all.subrange(0, all.len() as int) =~= all);
                while rest.len() > 0
                    invariant
                        0 <= done <= all.len(),
                        rest@ == all.subrange(done, all.len() as int),
                        plan@ == plan_after_all(self@, all.subrange(0, done)),
                    decreases rest@.len(),
                {
                    let op = rest.remove(0);
                    plan.apply_op(op);
                    proof {
                        assert(rest@ =~= all.subrange(done + 1, all.len() as int));
                        assert(all.subrange(0, done + 1).drop_last() =~= all.subrange(0, done));
                        done = done + 1;
                    }
                }
                assert(all.subrange(0, done) =~= all);
                plan
            },
        }
    }
}

/// A change of the status keeps the tasks and their order.
pub proof fn status_change_keeps_tasks(p: PlanView, task_id: PlanTaskId, new_status: PlanTaskStatus)
    ensures
        plan_after(p, PlanOp::UpdateStatus { task_id, new_status }).tasks.len() == p.tasks.len(),
        forall|i: int|
            0 <= i < p.tasks.len() ==> (#[trigger] plan_after(
                p,
                PlanOp::UpdateStatus { task_id, new_status },
            ).tasks[i]).id == p.tasks[i].id,
{
}

// ---------------------------------------------------------------------------
// The working memory
// ---------------------------------------------------------------------------

/// An entry of the working memory.
#[derive(Debug, PartialEq, Eq)]
pub struct WorkingMemoryEntry {
    pub key: String,
    pub value: String,
    /// The tick in which the entry was set.
    pub set_at_tick: u64,
    /// How many ticks the entry lives. Without it the entry does not expire.
    pub ttl_ticks: Option<u64>,
}

/// A change of the working memory.
#[derive(Debug, PartialEq, Eq)]
pub enum WorkingMemoryOp {
    Put { key: String, value: String, ttl_ticks: Option<u64> },
    Remove { key: String },
}

/// The working memory: entries in the order in which their keys came in.
#[derive(Debug, PartialEq, Eq)]
pub struct WorkingMemory {
    pub entries: Vec<WorkingMemoryEntry>,
}

/// The model of an entry.
pub struct EntryView {
    pub key: Seq<char>,
    pub value: Seq<char>,
    pub set_at_tick: u64,
    pub ttl_ticks: Option<u64>,
}

impl View for WorkingMemoryEntry {
    type V = EntryView;

    open spec fn view(&self) -> EntryView {
        EntryView {
            key: self.key@,
            value: self.value@,
            set_at_tick: self.set_at_tick,
            ttl_ticks: self.ttl_ticks,
        }
    }
}

impl View for WorkingMemory {
    type V = Seq<EntryView>;

    open spec fn view(&self) -> Seq<EntryView> {
        Seq::new(self.entries@.len(), |i: int| self.entries@[i]@)
    }
}

/// There is an entry with the key `key`.
pub open spec fn remembers(m: Seq<EntryView>, key: Seq<char>) -> bool {
    exists|i: int| 0 <= i < m.len() && (#[trigger] m[i]).key == key
}

/// No two entries have the same key.
pub open spec fn keys_differ(m: Seq<EntryView>) -> bool {
    forall|i: int, j: int| 0 <= i < j < m.len() ==> (#[trigger] m[i]).key != (#[trigger] m[j]).key
}

/// The entries that fulfil `p`.
pub open spec fn entries_where(m: Seq<EntryView>, p: spec_fn(EntryView) -> bool) -> Seq<EntryView>
    decreases m.len(),
{
    if m.len() == 0 {
        m
    } else if p(m.last()) {
        entries_where(m.drop_last(), p).push(m.last())
    } else {
        entries_where(m.drop_last(), p)
    }
}

/// The index of the first entry with the key `key` at or behind `from`.
pub open spec fn place_of(m: Seq<EntryView>, key: Seq<char>, from: int) -> Option<int>
    decreases m.len() - from,
{
    if from < 0 || from >= m.len() {
        None
    } else if m[from].key == key {
        Some(from)
    } else {
        place_of(m, key, from + 1)
    }
}

/// The memory with an entry set: it takes the place of the first entry with its key, or
/// goes to the end.
pub open spec fn memory_with(m: Seq<EntryView>, e: EntryView) -> Seq<EntryView> {
    match place_of(m, e.key, 0) {
        Some(i) => m.update(i, e),
        None => m.push(e),
    }
}

proof fn place_is_first(m: Seq<EntryView>, key: Seq<char>, from: int)
    requires
        0 <= from,
    ensures
        match place_of(m, key, from) {
            Some(i) => from <= i < m.len() && m[i].key == key && forall|k: int|
                from <= k < i ==> (#[trigger] m[k]).key != key,
            None => forall|k: int| from <= k < m.len() ==> (#[trigger] m[k]).key != key,
        },
    decreases m.len() - from,
{
    if from < m.len() && m[from].key != key {
        place_is_first(m, key, from + 1);
    }
}

/// The memory after a change in a tick.
pub open spec fn memory_after(m: Seq<EntryView>, op: WorkingMemoryOp, tick: u64) -> Seq<EntryView> {
    match op {
        WorkingMemoryOp::Put { key, value, ttl_ticks } => memory_with(
            m,
            EntryView { key: key@, value: value@, set_at_tick: tick, ttl_ticks },
        ),
        WorkingMemoryOp::Remove { key } => entries_where(m, |e: EntryView| e.key != key@),
    }
}

/// The memory after changes in a tick, one after the other.
pub open spec fn memory_after_all(m: Seq<EntryView>, ops: Seq<WorkingMemoryOp>, tick: u64) -> Seq<
    EntryView,
>
    decreases ops.len(),
{
    if ops.len() == 0 {
        m
    } else {
        memory_after(memory_after_all(m, ops.drop_last(), tick), ops.last(), tick)
    }
}

/// The entry has outlived its time to live.
pub open spec fn expired(e: EntryView, tick: u64) -> bool {
    e.ttl_ticks is Some && tick - e.set_at_tick >= e.ttl_ticks->Some_0
}

/// The newest `cap` entries.
pub open spec fn newest(m: Seq<EntryView>, cap: nat) -> Seq<EntryView> {
    if m.len() > cap {
        m.subrange(m.len() - cap, m.len() as int)
    } else {
        m
    }
}

impl WorkingMemory {
    /// The index of the first entry with the key `key`.
    fn find(&self, key: &str) -> (r: Option<usize>)
        ensures
            match (r, place_of(self@, key@, 0)) {
                (Some(i), Some(k)) => i == k && i < self.entries@.len(),
                (None, None) => true,
                _ => false,
            },
    {
        let mut i: usize = 0;
        while i < self.entries.len()
            invariant
                i <= self.entries@.len(),
                place_of(self@, key@, 0) == place_of(self@, key@, i as int),
            decreases self.entries@.len() - i,
        {
            assert(self@[i as int] == self.entries@[i as int]@);
            if str_eq(self.entries[i].key.as_str(), key) {
                return Some(i);
            }
            i = i + 1;
        }
        None
    }

    /// Keeps the entries whose key is not `key`.
    fn drop_key(&mut self, key: &str)
        ensures
            final(self)@ == entries_where(old(self)@, |e: EntryView| e.key != key@),
    {
        let ghost all = self@;
        let ghost p = |e: EntryView| e.key != key@;
        let mut i: usize = 0;
        let ghost mut done: int = 0;
        assert(self@.subrange(0, 0) =~= entries_where(all.subrange(0, 0), p));
        while i < self.entries.len()
            invariant
                p == (|e: EntryView| e.key != key@),
                0 <= i <= self.entries@.len(),
                0 <= done <= all.len(),
                self@.len() - i == all.len() - done,
                self@.subrange(0, i as int) == entries_where(all.subrange(0, done), p),
                forall|k: int|
                    0 <= k < all.len() - done ==> #[trigger] self@[i + k] == all[done + k],
            decreases self.entries@.len() - i,
        {
            let ghost before = self@;
            assert(self@[i + 0] == all[done + 0]);
            assert(all.subrange(0, done + 1).drop_last() =~= all.subrange(0, done));
            assert(all.subrange(0, done + 1).last() == all[done]);
            if str_eq(self.entries[i].key.as_str(), key) {
                self.entries.remove(i);
                assert(self@.subrange(0, i as int) =~= before.subrange(0, i as int));
                assert forall|k: int| 0 <= k < all.len() - done - 1 implies #[trigger] self@[i
                    + k] == all[done + 1 + k] by {
                    assert(self@[i + k] == before[i + (k + 1)]);
                }
            } else {
                assert(self@.subrange(0, i + 1) =~= self@.subrange(0, i as int).push(
                    self@[i as int],
                ));
                i = i + 1;
                assert forall|k: int| 0 <= k < all.len() - done - 1 implies #[trigger] self@[i
                    + k] == all[done + 1 + k] by {
                    assert(self@[i + k] == before[(i - 1) + (k + 1)]);
                }
            }
            proof {
                done = done + 1;
            }
        }
        assert(all.subrange(0, done) =~= all);
        assert(self@.subrange(0, i as int) =~= self@);
    }

    /// Applies one change.
    pub fn apply_op(&mut self, op: &WorkingMemoryOp, tick_number: u64)
        ensures
            final(self)@ == memory_after(old(self)@, *op, tick_number),
    {
        let ghost before = self@;
        match op {
            WorkingMemoryOp::Put { key, value, ttl_ticks } => {
                let entry = WorkingMemoryEntry {
                    key: key.clone(),
                    value: value.clone(),
                    set_at_tick: tick_number,
                    ttl_ticks: *ttl_ticks,
                };
                let ghost e = entry@;
                match self.find(key.as_str()) {
                    Some(i) => {
                        self.entries[i] = entry;
                        assert(self@ =~= memory_with(before, e));
                    },
                    None => {
                        self.entries.push(entry);
                        assert(self@ =~= memory_with(before, e));
                    },
                }
            },
            WorkingMemoryOp::Remove { key } => {
                self.drop_key(key.as_str());
            },
        }
    }

    /// Applies changes, one after the other.
    pub fn apply_ops(&mut self, ops: &Vec<WorkingMemoryOp>, tick_number: u64)
        ensures
            final(self)@ == memory_after_all(old(self)@, ops@, tick_number),
    {
        let ghost before = self@;
        let mut i: usize = 0;
        while i < ops.len()
            invariant
                i <= ops@.len(),
                self@ == memory_after_all(before, ops@.subrange(0, i as int), tick_number),
            decreases ops@.len() - i,
        {
            self.apply_op(&ops[i], tick_number);
            assert(ops@.subrange(0, i + 1).drop_last() =~= ops@.subrange(0, i as int));
            i = i + 1;
        }
        assert(ops@.subrange(0, ops@.len() as int) =~= ops@);
    }

    /// Drops the entries that have outlived their time to live.
    pub fn evict_expired(&mut self, tick_number: u64)
        ensures
            final(self)@ == entries_where(old(self)@, |e: EntryView| !expired(e, tick_number)),
    {
        let ghost all = self@;
        let ghost p = |e: EntryView| !expired(e, tick_number);
        let mut i: usize = 0;
        let ghost mut done: int = 0;
        assert(self@.subrange(0, 0) =~= entries_where(all.subrange(0, 0), p));
        while i < self.entries.len()
            invariant
                p == (|e: EntryView| !expired(e, tick_number)),
                0 <= i <= self.entries@.len(),
                0 <= done <= all.len(),
                self@.len() - i == all.len() - done,
                self@.subrange(0, i as int) == entries_where(all.subrange(0, done), p),
                forall|k: int|
                    0 <= k < all.len() - done ==> #[trigger] self@[i + k] == all[done + k],
            decreases self.entries@.len() - i,
        {
            let ghost before = self@;
            assert(self@[i + 0] == all[done + 0]);
            assert(all.subrange(0, done + 1).drop_last() =~= all.subrange(0, done));
            assert(all.subrange(0, done + 1).last() == all[done]);
            let gone = match self.entries[i].ttl_ticks {
                Some(ttl) => tick_number >= self.entries[i].set_at_tick && tick_number
                    - self.entries[i].set_at_tick >= ttl,
                None => false,
            };
            if gone {
                self.entries.remove(i);
                assert(self@.subrange(0, i as int) =~= before.subrange(0, i as int));
                assert forall|k: int| 0 <= k < all.len() - done - 1 implies #[trigger] self@[i
                    + k] == all[done + 1 + k] by {
                    assert(self@[i + k] == before[i + (k + 1)]);
                }
            } else {
                assert(self@.subrange(0, i + 1) =~= self@.subrange(0, i as int).push(
                    self@[i as int],
                ));
                i = i + 1;
                assert forall|k: int| 0 <= k < all.len() - done - 1 implies #[trigger] self@[i
                    + k] == all[done + 1 + k] by {
                    assert(self@[i + k] == before[(i - 1) + (k + 1)]);
                }
            }
            proof {
                done = done + 1;
            }
        }
        assert(all.subrange(0, done) =~= all);
        assert(self@.subrange(0, i as int) =~= self@);
    }

    /// Keeps the newest `cap` entries.
    pub fn enforce_cap(&mut self, cap: usize)
        ensures
            final(self)@ == newest(old(self)@, cap as nat),
    {
        let ghost all = self@;
        assert(all.subrange(0, all.len() as int) =~= all);
        while self.entries.len() > cap
            invariant
                self@.len() <= all.len(),
                self@ == all.subrange(all.len() - self@.len(), all.len() as int),
                all.len() > cap ==> self@.len() >= cap,
                all.len() <= cap ==> self@.len() == all.len(),
            decreases self.entries@.len(),
        {
            let ghost before = self@;
            self.entries.remove(0);
            assert(self@ =~= before.subrange(1, before.len() as int));
            assert(self@ =~= all.subrange(all.len() - self@.len(), all.len() as int));
        }
        assert(self@ =~= newest(all, cap as nat));
    }

    /// Keeps the entries with one of two keys.
    pub fn retain_keys(&mut self, first: &str, second: &str)
        ensures
            final(self)@ == entries_where(
                old(self)@,
                |e: EntryView| e.key == first@ || e.key == second@,
            ),
    {
        let ghost all = self@;
        let ghost p = |e: EntryView| e.key == first@ || e.key == second@;
        let mut i: usize = 0;
        let ghost mut done: int = 0;
        assert(self@.subrange(0, 0) =~= entries_where(all.subrange(0, 0), p));
        while i < self.entries.len()
            invariant
                p == (|e: EntryView| e.key == first@ || e.key == second@),
                0 <= i <= self.entries@.len(),
                0 <= done <= all.len(),
                self@.len() - i == all.len() - done,
                self@.subrange(0, i as int) == entries_where(all.subrange(0, done), p),
                forall|k: int|
                    0 <= k < all.len() - done ==> #[trigger] self@[i + k] == all[done + k],
            decreases self.entries@.len() - i,
        {
            let ghost before = self@;
            assert(self@[i + 0] == all[done + 0]);
            assert(all.subrange(0, done + 1).drop_last() =~= all.subrange(0, done));
            assert(all.subrange(0, done + 1).last() == all[done]);
            if str_eq(self.entries[i].key.as_str(), first) || str_eq(
                self.entries[i].key.as_str(),
                second,
            ) {
                assert(self@.subrange(0, i + 1) =~= self@.subrange(0, i as int).push(
                    self@[i as int],
                ));
                i = i + 1;
                assert forall|k: int| 0 <= k < all.len() - done - 1 implies #[trigger] self@[i
                    + k] == all[done + 1 + k] by {
                    assert(self@[i + k] == before[(i - 1) + (k + 1)]);
                }
            } else {
                self.entries.remove(i);
                assert(self@.subrange(0, i as int) =~= before.subrange(0, i as int));
                assert forall|k: int| 0 <= k < all.len() - done - 1 implies #[trigger] self@[i
                    + k] == all[done + 1 + k] by {
                    assert(self@[i + k] == before[i + (k + 1)]);
                }
            }
            proof {
                done = done + 1;
            }
        }
        assert(all.subrange(0, done) =~= all);
        assert(self@.subrange(0, i as int) =~= self@);
    }
}

/// What is kept was there before, in the same order.
pub proof fn kept_entries_are_old(m: Seq<EntryView>, p: spec_fn(EntryView) -> bool)
    ensures
        entries_where(m, p).len() <= m.len(),
        forall|i: int|
            0 <= i < entries_where(m, p).len() ==> p(#[trigger] entries_where(m, p)[i])
                && m.contains(entries_where(m, p)[i]),
        keys_differ(m) ==> keys_differ(entries_where(m, p)),
    decreases m.len(),
{
    if m.len() > 0 {
        let front = m.drop_last();
        let kept = entries_where(front, p);
        kept_entries_are_old(front, p);
        assert forall|i: int| 0 <= i < entries_where(m, p).len() implies p(
            #[trigger] entries_where(m, p)[i],
        ) && m.contains(entries_where(m, p)[i]) by {
            if i < kept.len() {
                let k = choose|k: int| 0 <= k < front.len() && front[k] == kept[i];
                assert(m[k] == kept[i]);
            } else {
                assert(m[m.len() - 1] == m.last());
            }
        }
        if keys_differ(m) {
            assert(keys_differ(front)) by {
                assert forall|i: int, j: int| 0 <= i < j < front.len() implies (
                #[trigger] front[i]).key != (#[trigger] front[j]).key by {
                    assert(m[i].key != m[j].key);
                }
            }
            assert forall|i: int, j: int| 0 <= i < j < entries_where(m, p).len() implies (
            #[trigger] entries_where(m, p)[i]).key != (#[trigger] entries_where(m, p)[j]).key by {
                if j == kept.len() {
                    let k = choose|k: int| 0 <= k < front.len() && front[k] == kept[i];
                    assert(m[k].key != m[m.len() - 1].key);
                }
            }
        }
    }
}

/// A change leaves every key with one entry.
pub proof fn change_keeps_keys_different(m: Seq<EntryView>, op: WorkingMemoryOp, tick: u64)
    requires
        keys_differ(m),
    ensures
        keys_differ(memory_after(m, op, tick)),
{
    match op {
        WorkingMemoryOp::Put { key, value, ttl_ticks } => {
            let e = EntryView { key: key@, value: value@, set_at_tick: tick, ttl_ticks };
            let after = memory_with(m, e);
            place_is_first(m, e.key, 0);
            assert forall|i: int, j: int| 0 <= i < j < after.len() implies (#[trigger] after[i]).key
                != (#[trigger] after[j]).key by {
                if j < m.len() {
                    assert(m[i].key != m[j].key);
                } else {
                    assert(m[i].key != e.key);
                }
            }
        },
        WorkingMemoryOp::Remove { key } => {
            kept_entries_are_old(m, |e: EntryView| e.key != key@);
        },
    }
}

/// Changes leave every key with one entry.
pub proof fn changes_keep_keys_different(
    m: Seq<EntryView>,
    ops: Seq<WorkingMemoryOp>,
    tick: u64,
)
    requires
        keys_differ(m),
    ensures
        keys_differ(memory_after_all(m, ops, tick)),
    decreases ops.len(),
{
    if ops.len() > 0 {
        changes_keep_keys_different(m, ops.drop_last(), tick);
        change_keeps_keys_different(
            memory_after_all(m, ops.drop_last(), tick),
            ops.last(),
            tick,
        );
    }
}

/// What was set is remembered; what was removed is not.
pub proof fn change_takes_effect(m: Seq<EntryView>, op: WorkingMemoryOp, tick: u64)
    ensures
        match op {
            WorkingMemoryOp::Put { key, value, ttl_ticks } => exists|i: int|
                0 <= i < memory_after(m, op, tick).len() && (#[trigger] memory_after(
                    m,
                    op,
                    tick,
                )[i]) == (EntryView {
                    key: key@,
                    value: value@,
                    set_at_tick: tick,
                    ttl_ticks,
                }),
            WorkingMemoryOp::Remove { key } => !remembers(memory_after(m, op, tick), key@),
        },
{
    match op {
        WorkingMemoryOp::Put { key, value, ttl_ticks } => {
            let e = EntryView { key: key@, value: value@, set_at_tick: tick, ttl_ticks };
            let after = memory_after(m, op, tick);
            place_is_first(m, e.key, 0);
            match place_of(m, e.key, 0) {
                Some(i) => {
                    assert(after[i] == e);
                },
                None => {
                    assert(after[m.len() as int] == e);
                },
            }
        },
        WorkingMemoryOp::Remove { key } => {
            kept_entries_are_old(m, |e: EntryView| e.key != key@);
        },
    }
}

// ---------------------------------------------------------------------------
// Laws
// ---------------------------------------------------------------------------

/// The same task, but for its status.
pub open spec fn same_task(a: PlanTask, b: PlanTask) -> bool {
    &&& a.id == b.id
    &&& a.description == b.description
    &&& a.depends_on == b.depends_on
    &&& a.tool_hint == b.tool_hint
}

/// One change of a plan does what it says and nothing else. A task is added behind the
/// others; all tasks with the identifier get the new status, or are gone while the others
/// stay; the objective is replaced.
pub proof fn plan_change_is_exact(p: PlanView, op: PlanOp)
    ensures
        plan_after(p, op).updated_at == p.updated_at,
        match op {
            PlanOp::AddTask { task } => {
                let q = plan_after(p, op);
                &&& q.objective == p.objective
                &&& q.tasks.len() == p.tasks.len() + 1
                &&& q.tasks[p.tasks.len() as int] == task
                &&& forall|i: int| 0 <= i < p.tasks.len() ==> q.tasks[i] == #[trigger] p.tasks[i]
            },
            PlanOp::UpdateStatus { task_id, new_status } => {
                let q = plan_after(p, op);
                &&& q.objective == p.objective
                &&& q.tasks.len() == p.tasks.len()
                &&& forall|i: int|
                    0 <= i < p.tasks.len() ==> same_task(q.tasks[i], #[trigger] p.tasks[i])
                        && q.tasks[i].status == if p.tasks[i].id == task_id {
                        new_status
                    } else {
                        p.tasks[i].status
                    }
            },
            PlanOp::RemoveTask { task_id } => {
                let q = plan_after(p, op);
                &&& q.objective == p.objective
                &&& forall|i: int|
                    0 <= i < q.tasks.len() ==> (#[trigger] q.tasks[i]).id != task_id
                        && p.tasks.contains(q.tasks[i])
                &&& forall|i: int|
                    0 <= i < p.tasks.len() && p.tasks[i].id != task_id ==> q.tasks.contains(
                        #[trigger] p.tasks[i],
                    )
            },
            PlanOp::UpdateObjective { objective } => {
                let q = plan_after(p, op);
                q.objective == objective@ && q.tasks == p.tasks
            },
        },
{
    if let PlanOp::RemoveTask { task_id } = op {
        others_stay(p.tasks, task_id);
    }
}

proof fn others_stay(tasks: Seq<PlanTask>, id: PlanTaskId)
    ensures
        forall|i: int|
            0 <= i < tasks_without(tasks, id).len() ==> (#[trigger] tasks_without(tasks, id)[i]).id
                != id && tasks.contains(tasks_without(tasks, id)[i]),
        forall|i: int|
            0 <= i < tasks.len() && tasks[i].id != id ==> tasks_without(tasks, id).contains(
                #[trigger] tasks[i],
            ),
    decreases tasks.len(),
{
    if tasks.len() > 0 {
        let front = tasks.drop_last();
        let kept = tasks_without(front, id);
        let all = tasks_without(tasks, id);
        others_stay(front, id);
        assert forall|i: int| 0 <= i < all.len() implies (#[trigger] all[i]).id != id
            && tasks.contains(all[i]) by {
            if i < kept.len() {
                let k = choose|k: int| 0 <= k < front.len() && front[k] == kept[i];
                assert(tasks[k] == kept[i]);
            } else {
                assert(tasks[tasks.len() - 1] == all[i]);
            }
        }
        assert forall|i: int| 0 <= i < tasks.len() && tasks[i].id != id implies all.contains(
            #[trigger] tasks[i],
        ) by {
            if i < front.len() {
                assert(front[i] == tasks[i]);
                let k = choose|k: int| 0 <= k < kept.len() && kept[k] == tasks[i];
                assert(all[k] == tasks[i]);
            } else {
                assert(all[all.len() - 1] == tasks[i]);
            }
        }
    }
}

/// Changes that remove no task keep every task in its place, with the status that it had
/// unless a change names it; and without a new objective the objective stays.
pub proof fn patch_keeps_tasks(p: PlanView, ops: Seq<PlanOp>)
    requires
        forall|k: int| 0 <= k < ops.len() ==> !((#[trigger] ops[k]) is RemoveTask),
    ensures
        plan_after_all(p, ops).updated_at == p.updated_at,
        plan_after_all(p, ops).tasks.len() >= p.tasks.len(),
        forall|i: int|
            0 <= i < p.tasks.len() ==> same_task(
                #[trigger] plan_after_all(p, ops).tasks[i],
                p.tasks[i],
            ),
        forall|i: int|
            0 <= i < p.tasks.len() && (forall|k: int|
                0 <= k < ops.len() ==> ((#[trigger] ops[k]) matches PlanOp::UpdateStatus {
                    task_id,
                    ..
                } ==> task_id != p.tasks[i].id)) ==> (#[trigger] plan_after_all(
                p,
                ops,
            ).tasks[i]).status == p.tasks[i].status,
        (forall|k: int| 0 <= k < ops.len() ==> !((#[trigger] ops[k]) is UpdateObjective))
            ==> plan_after_all(p, ops).objective == p.objective,
    decreases ops.len(),
{
    if ops.len() > 0 {
        let front = ops.drop_last();
        assert forall|k: int| 0 <= k < front.len() implies !((#[trigger] front[k])
            is RemoveTask) by {
            assert(front[k] == ops[k]);
        }
        patch_keeps_tasks(p, front);
        let q = plan_after_all(p, front);
        let op = ops[ops.len() - 1];
        plan_change_is_exact(q, op);
        let r = plan_after_all(p, ops);
        assert(r == plan_after(q, op));
        assert forall|i: int| 0 <= i < p.tasks.len() implies same_task(
            #[trigger] r.tasks[i],
            p.tasks[i],
        ) by {
            assert(same_task(q.tasks[i], p.tasks[i]));
        }
        assert forall|i: int|
            0 <= i < p.tasks.len() && (forall|k: int|
                0 <= k < ops.len() ==> ((#[trigger] ops[k]) matches PlanOp::UpdateStatus {
                    task_id,
                    ..
                } ==> task_id != p.tasks[i].id)) implies (#[trigger] r.tasks[i]).status
            == p.tasks[i].status by {
            assert forall|k: int| 0 <= k < front.len() implies ((#[trigger] front[k])
                matches PlanOp::UpdateStatus { task_id, .. } ==> task_id != p.tasks[i].id) by {
                assert(front[k] == ops[k]);
            }
            assert(q.tasks[i].status == p.tasks[i].status);
            assert(same_task(q.tasks[i], p.tasks[i]));
        }
        if forall|k: int| 0 <= k < ops.len() ==> !((#[trigger] ops[k]) is UpdateObjective) {
            assert forall|k: int| 0 <= k < front.len() implies !((#[trigger] front[k])
                is UpdateObjective) by {
                assert(front[k] == ops[k]);
            }
        }
    }
}

/// A task that a patch adds is in the plan, if nothing behind it removes a task.
pub proof fn patch_adds_tasks(p: PlanView, ops: Seq<PlanOp>, at: int)
    requires
        0 <= at < ops.len(),
        ops[at] is AddTask,
        forall|k: int| at < k < ops.len() ==> !((#[trigger] ops[k]) is RemoveTask),
    ensures
        exists|i: int|
            0 <= i < plan_after_all(p, ops).tasks.len() && same_task(
                #[trigger] plan_after_all(p, ops).tasks[i],
                ops[at]->AddTask_task,
            ),
    decreases ops.len(),
{
    let front = ops.drop_last();
    let q = plan_after_all(p, front);
    let op = ops[ops.len() - 1];
    let r = plan_after_all(p, ops);
    plan_change_is_exact(q, op);
    if at == ops.len() - 1 {
        assert(same_task(r.tasks[q.tasks.len() as int], ops[at]->AddTask_task));
    } else {
        assert(front[at] == ops[at]);
        assert forall|k: int| at < k < front.len() implies !((#[trigger] front[k])
            is RemoveTask) by {
            assert(front[k] == ops[k]);
        }
        patch_adds_tasks(p, front, at);
        let i = choose|i: int|
            0 <= i < q.tasks.len() && same_task(#[trigger] q.tasks[i], ops[at]->AddTask_task);
        assert(!(op is RemoveTask));
        assert(same_task(r.tasks[i], q.tasks[i]));
        assert(same_task(r.tasks[i], ops[at]->AddTask_task));
    }
}

/// The change names the key.
pub open spec fn names_key(op: WorkingMemoryOp, key: Seq<char>) -> bool {
    match op {
        WorkingMemoryOp::Put { key: k, .. } => k@ == key,
        WorkingMemoryOp::Remove { key: k } => k@ == key,
    }
}

/// One change leaves the entries with other keys alone. A memory without the key grows by
/// one entry at most.
pub proof fn other_entries_stay(m: Seq<EntryView>, op: WorkingMemoryOp, tick: u64)
    ensures
        memory_after(m, op, tick).len() <= m.len() + 1,
        forall|e: EntryView|
            !names_key(op, e.key) ==> (m.contains(e) <==> #[trigger] memory_after(
                m,
                op,
                tick,
            ).contains(e)),
{
    let after = memory_after(m, op, tick);
    match op {
        WorkingMemoryOp::Put { key, value, ttl_ticks } => {
            let n = EntryView { key: key@, value: value@, set_at_tick: tick, ttl_ticks };
            place_is_first(m, n.key, 0);
            assert forall|e: EntryView| !names_key(op, e.key) implies (m.contains(e)
                <==> #[trigger] after.contains(e)) by {
                if m.contains(e) {
                    let k = choose|k: int| 0 <= k < m.len() && m[k] == e;
                    assert(after[k] == e);
                }
                if after.contains(e) {
                    let k = choose|k: int| 0 <= k < after.len() && after[k] == e;
                    assert(m[k] == e);
                }
            }
        },
        WorkingMemoryOp::Remove { key } => {
            let p = |e: EntryView| e.key != key@;
            kept_entries_are_old(m, p);
            assert forall|e: EntryView| !names_key(op, e.key) implies (m.contains(e)
                <==> #[trigger] after.contains(e)) by {
                if m.contains(e) {
                    fulfilling_entries_stay(m, p, e);
                }
            }
        },
    }
}

/// An entry that fulfils the condition is kept.
pub proof fn fulfilling_entries_stay(m: Seq<EntryView>, p: spec_fn(EntryView) -> bool, e: EntryView)
    requires
        m.contains(e),
        p(e),
    ensures
        entries_where(m, p).contains(e),
    decreases m.len(),
{
    let kept = entries_where(m, p);
    let front = m.drop_last();
    if m.last() == e {
        assert(kept[kept.len() - 1] == e);
    } else {
        let k = choose|k: int| 0 <= k < m.len() && m[k] == e;
        assert(front[k] == e);
        fulfilling_entries_stay(front, p, e);
        let i = choose|i: int|
            0 <= i < entries_where(front, p).len() && entries_where(front, p)[i] == e;
        assert(kept[i] == e);
    }
}

/// Changes that do not name the key of an entry leave it alone.
pub proof fn unnamed_entries_stay(m: Seq<EntryView>, ops: Seq<WorkingMemoryOp>, tick: u64, e: EntryView)
    requires
        forall|k: int| 0 <= k < ops.len() ==> !names_key(#[trigger] ops[k], e.key),
    ensures
        m.contains(e) <==> memory_after_all(m, ops, tick).contains(e),
        memory_after_all(m, ops, tick).len() <= m.len() + ops.len(),
    decreases ops.len(),
{
    if ops.len() > 0 {
        let front = ops.drop_last();
        assert forall|k: int| 0 <= k < front.len() implies !names_key(#[trigger] front[k], e.key) by {
            assert(front[k] == ops[k]);
        }
        unnamed_entries_stay(m, front, tick, e);
        assert(!names_key(ops[ops.len() - 1], e.key));
        other_entries_stay(memory_after_all(m, front, tick), ops.last(), tick);
        assert(memory_after(memory_after_all(m, front, tick), ops.last(), tick).contains(e)
            == memory_after_all(m, ops, tick).contains(e));
    }
}

/// Changes let the memory grow by one entry each at most.
pub proof fn changes_add_few(m: Seq<EntryView>, ops: Seq<WorkingMemoryOp>, tick: u64)
    ensures
        memory_after_all(m, ops, tick).len() <= m.len() + ops.len(),
    decreases ops.len(),
{
    if ops.len() > 0 {
        changes_add_few(m, ops.drop_last(), tick);
        other_entries_stay(memory_after_all(m, ops.drop_last(), tick), ops.last(), tick);
    }
}

/// The last change that names a key wins: what it sets is remembered, what it removes is
/// not.
pub proof fn last_change_wins(m: Seq<EntryView>, ops: Seq<WorkingMemoryOp>, tick: u64, at: int)
    requires
        0 <= at < ops.len(),
        forall|k: int|
            at < k < ops.len() ==> !names_key(
                #[trigger] ops[k],
                (match ops[at] {
                    WorkingMemoryOp::Put { key, .. } => key@,
                    WorkingMemoryOp::Remove { key } => key@,
                }),
            ),
    ensures
        match ops[at] {
            WorkingMemoryOp::Put { key, value, ttl_ticks } => memory_after_all(
                m,
                ops,
                tick,
            ).contains(EntryView { key: key@, value: value@, set_at_tick: tick, ttl_ticks }),
            WorkingMemoryOp::Remove { key } => forall|e: EntryView|
                #[trigger] memory_after_all(m, ops, tick).contains(e) ==> e.key != key@,
        },
    decreases ops.len(),
{
    let front = ops.drop_last();
    let before = memory_after_all(m, front, tick);
    let after = memory_after_all(m, ops, tick);
    if at == ops.len() - 1 {
        change_takes_effect(before, ops[at], tick);
        match ops[at] {
            WorkingMemoryOp::Put { key, value, ttl_ticks } => {
                let e = EntryView { key: key@, value: value@, set_at_tick: tick, ttl_ticks };
                let i = choose|i: int| 0 <= i < after.len() && (#[trigger] after[i]) == e;
                assert(after.contains(e));
            },
            WorkingMemoryOp::Remove { key } => {
                assert forall|e: EntryView| #[trigger] after.contains(e) implies e.key != key@ by {
                    let i = choose|i: int| 0 <= i < after.len() && after[i] == e;
                    assert(after[i].key == e.key);
                }
            },
        }
    } else {
        assert(front[at] == ops[at]);
        let last = ops[ops.len() - 1];
        assert forall|k: int| at < k < front.len() implies !names_key(
            #[trigger] front[k],
            (match ops[at] {
                WorkingMemoryOp::Put { key, .. } => key@,
                WorkingMemoryOp::Remove { key } => key@,
            }),
        ) by {
            assert(front[k] == ops[k]);
        }
        last_change_wins(m, front, tick, at);
        other_entries_stay(before, last, tick);
        match ops[at] {
            WorkingMemoryOp::Put { key, value, ttl_ticks } => {
                let e = EntryView { key: key@, value: value@, set_at_tick: tick, ttl_ticks };
                assert(!names_key(last, e.key));
                assert(memory_after(before, last, tick).contains(e));
            },
            WorkingMemoryOp::Remove { key } => {
                assert forall|e: EntryView| #[trigger] after.contains(e) implies e.key != key@ by {
                    if e.key == key@ {
                        assert(!names_key(last, e.key));
                        assert(memory_after(before, last, tick).contains(e));
                    }
                }
            },
        }
    }
}

/// A memory that is too long loses its oldest entries: the last ones stay, in order.
pub proof fn newest_entries_stay(m: Seq<EntryView>, cap: nat)
    ensures
        newest(m, cap).len() == if m.len() <= cap {
            m.len()
        } else {
            cap
        },
        forall|k: int|
            0 < k <= newest(m, cap).len() ==> newest(m, cap)[newest(m, cap).len() - k]
                == #[trigger] m[m.len() - k],
{
}

} // verus!

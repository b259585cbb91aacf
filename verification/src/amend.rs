//! The Amend step: what a tick leaves behind.

use vstd::prelude::*;
use vstd::string::*;
use vstd::utf8::*;

use crate::compaction::MergedSummary;
use crate::encode::member_is_found;
use crate::exec_threads::{ExecThreadContribution, ExecThreadSummary};
use crate::json::{member, member_views, write_json, written, Json, JsonView};
use crate::memory::{
    changes_add_few, changes_keep_keys_different, empty_plan, entries_where, expired,
    fulfilling_entries_stay, kept_entries_are_old, keys_differ, last_change_wins, memory_after_all,
    names_key, newest, patch_adds_tasks, patch_keeps_tasks, plan_after, plan_after_all,
    plan_change_is_exact, plan_updated, same_task, unnamed_entries_stay, EntryView, Plan, PlanOp,
    PlanTaskStatus, PlanUpdate, PlanView, WorkingMemory, WorkingMemoryOp,
};
use crate::perceive::{EnvelopeId, MessageEnvelope};
use crate::settle::{bounded_coding_idle_visible, session_rests};
use crate::text::{
    byte_len, clean_cut, cuts_cleanly, dec, dec_u64, dec_usize, opt_text, over_bytes, shorten,
    shortened,
};
use crate::types::{
    id_text, write_id, ActionExecution, ActionRecord, ArtifactId, LlmCallRecord, PlanTaskId,
    ThreadContribution, ThreadId, TickId, Timestamp, VesselId, VesselMode,
};

verus! {

/// The status of a vessel.
#[derive(Debug, PartialEq, Eq)]
pub enum VesselStatus {
    Idle,
    /// Any other status, by its name.
    Other {
        name: String,
        /// No tick runs in this status.
        terminal: bool,
    },
}

/// The state of a vessel between two ticks.
#[derive(Debug)]
pub struct StateSnapshot {
    pub vessel_id: VesselId,
    pub mission: String,
    pub tick_number: u64,
    pub updated_at: Timestamp,
    pub status: VesselStatus,
    pub vessel_mode: VesselMode,
    pub plan: Option<Plan>,
    pub working_memory: WorkingMemory,
    pub last_action_summary: Option<String>,
    /// What is shown of the cognitive threads.
    pub thread_summaries: Vec<Json>,
    pub exec_thread_summaries: Vec<ExecThreadSummary>,
    pub relationship_snapshot_ref: Option<ArtifactId>,
    pub budget_status: Json,
}

/// The new status of a task, from the Reflect step.
#[derive(Debug, PartialEq, Eq)]
pub struct TaskStatusUpdate {
    pub task_id: PlanTaskId,
    pub new_status: PlanTaskStatus,
    pub reason: Option<String>,
}

/// What the Amend step applies to the snapshot.
#[derive(Debug)]
pub struct AmendInput {
    pub tick_number: u64,
    pub now: Timestamp,
    /// The present time as an RFC 3339 text.
    pub now_text: String,
    pub plan_update: Option<PlanUpdate>,
    pub decide_ops: Option<Vec<WorkingMemoryOp>>,
    pub task_updates: Vec<TaskStatusUpdate>,
    pub reflect_ops: Vec<WorkingMemoryOp>,
    pub vessel_mode: VesselMode,
    /// How the actions ended: whether each succeeded.
    pub outcomes: Vec<bool>,
    /// The cognitive threads, if they could be read.
    pub thread_summaries: Option<Vec<Json>>,
    /// The executable threads, if they could be read.
    pub exec_thread_summaries: Option<Vec<ExecThreadSummary>>,
    pub return_to_idle: bool,
    pub new_messages: bool,
    /// Where the relationships were stored, if they were.
    pub relationship_snapshot_ref: Option<ArtifactId>,
    /// The state of the budget, if there is a budget and it could be read.
    pub budget_status: Option<Json>,
}

/// How many entries the working memory keeps.
pub const WORKING_MEMORY_CAP: usize = 50;

// ---------------------------------------------------------------------------
// The snapshot
// ---------------------------------------------------------------------------

/// The plan with new statuses of tasks.
pub open spec fn plan_with_statuses(
    p: PlanView,
    updates: Seq<TaskStatusUpdate>,
    now: Seq<char>,
) -> PlanView
    decreases updates.len(),
{
    if updates.len() == 0 {
        p
    } else {
        let u = updates.last();
        PlanView {
            updated_at: Some(now),
            ..plan_after(
                plan_with_statuses(p, updates.drop_last(), now),
                PlanOp::UpdateStatus { task_id: u.task_id, new_status: u.new_status },
            )
        }
    }
}

/// The model of an optional plan.
pub open spec fn opt_plan(p: Option<Plan>) -> Option<PlanView> {
    match p {
        Some(p) => Some(p@),
        None => None,
    }
}

/// The plan after a tick: the update of the Decide step comes first, then the
/// statuses of the Reflect step. Statuses need a plan.
pub open spec fn next_plan(
    plan: Option<PlanView>,
    update: Option<PlanUpdate>,
    statuses: Seq<TaskStatusUpdate>,
    now: Seq<char>,
) -> Option<PlanView> {
    let decided = match update {
        Some(u) => Some(
            plan_updated(
                match plan {
                    Some(p) => p,
                    None => empty_plan(now),
                },
                u,
            ),
        ),
        None => plan,
    };
    match decided {
        Some(p) => Some(plan_with_statuses(p, statuses, now)),
        None => None,
    }
}

/// The working memory after a tick: the changes of the Decide step, then those of
/// the Reflect step, without the expired entries, and at most the newest entries.
pub open spec fn next_memory(
    memory: Seq<EntryView>,
    decide_ops: Option<Vec<WorkingMemoryOp>>,
    reflect_ops: Seq<WorkingMemoryOp>,
    tick: u64,
) -> Seq<EntryView> {
    let decided = match decide_ops {
        Some(ops) => memory_after_all(memory, ops@, tick),
        None => memory,
    };
    let reflected = memory_after_all(decided, reflect_ops, tick);
    newest(
        entries_where(reflected, |e: EntryView| !expired(e, tick)),
        WORKING_MEMORY_CAP as nat,
    )
}

/// The entries that stay when a bounded coding session is over.
pub open spec fn session_entries(memory: Seq<EntryView>) -> Seq<EntryView> {
    entries_where(
        memory,
        |e: EntryView| e.key == "session_status"@ || e.key == "user_question_pending"@,
    )
}

/// How many of the outcomes are successes.
pub open spec fn successes(outcomes: Seq<bool>) -> nat
    decreases outcomes.len(),
{
    if outcomes.len() == 0 {
        0
    } else {
        successes(outcomes.drop_last()) + if outcomes.last() {
            1nat
        } else {
            0nat
        }
    }
}

/// What is said of the actions of a tick.
pub open spec fn actions_summary(outcomes: Seq<bool>) -> Seq<char> {
    if outcomes.len() == 0 {
        "No actions taken"@
    } else {
        dec(outcomes.len()) + " actions: "@ + dec(successes(outcomes)) + " succeeded, "@ + dec(
            (outcomes.len() - successes(outcomes)) as nat,
        ) + " failed"@
    }
}

/// The list of `o`, or an empty one.
pub open spec fn list_of<T>(o: Option<Vec<T>>) -> Seq<T> {
    match o {
        Some(v) => v@,
        None => Seq::empty(),
    }
}

/// `after` is the snapshot `before` after a tick.
pub open spec fn amended(after: StateSnapshot, before: StateSnapshot, i: AmendInput) -> bool {
    let memory = next_memory(
        before.working_memory@,
        i.decide_ops,
        i.reflect_ops@,
        i.tick_number,
    );
    &&& after.vessel_id == before.vessel_id
    &&& after.mission == before.mission
    &&& after.tick_number == i.tick_number
    &&& after.updated_at == i.now
    &&& after.status == VesselStatus::Idle
    &&& after.vessel_mode == i.vessel_mode
    &&& opt_plan(after.plan) == next_plan(
        opt_plan(before.plan),
        i.plan_update,
        i.task_updates@,
        i.now_text@,
    )
    &&& after.working_memory@ == if session_rests(
        i.return_to_idle,
        i.new_messages,
        list_of(i.exec_thread_summaries),
    ) {
        session_entries(memory)
    } else {
        memory
    }
    &&& opt_text(after.last_action_summary) == Some(actions_summary(i.outcomes@))
    &&& after.thread_summaries@ == list_of(i.thread_summaries)
    &&& after.exec_thread_summaries@ == list_of(i.exec_thread_summaries)
    &&& after.relationship_snapshot_ref == match i.relationship_snapshot_ref {
        Some(r) => Some(r),
        None => before.relationship_snapshot_ref,
    }
    &&& after.budget_status == match i.budget_status {
        Some(b) => b,
        None => before.budget_status,
    }
}

fn count_successes(outcomes: &Vec<bool>) -> (n: usize)
    ensures
        n == successes(outcomes@),
        n <= outcomes@.len(),
{
    let mut n: usize = 0;
    let mut i: usize = 0;
    while i < outcomes.len()
        invariant
            i <= outcomes@.len(),
            n <= i,
            n == successes(outcomes@.subrange(0, i as int)),
        decreases outcomes@.len() - i,
    {
        assert(outcomes@.subrange(0, i + 1).drop_last() =~= outcomes@.subrange(0, i as int));
        if outcomes[i] {
            n = n + 1;
        }
        i = i + 1;
    }
    assert(outcomes@.subrange(0, outcomes@.len() as int) =~= outcomes@);
    n
}

/// Says how the actions of a tick ended.
pub fn last_action_summary(outcomes: &Vec<bool>) -> (s: String)
    ensures
        s@ == actions_summary(outcomes@),
{
    if outcomes.len() == 0 {
        return "No actions taken".to_owned();
    }
    let succeeded = count_successes(outcomes);
    let mut s = dec_usize(outcomes.len());
    s.append(" actions: ");
    s.append(dec_usize(succeeded).as_str());
    s.append(" succeeded, ");
    s.append(dec_usize(outcomes.len() - succeeded).as_str());
    s.append(" failed");
    s
}

/// Whether each execution succeeded.
pub open spec fn outcomes_of(executions: Seq<ActionExecution>) -> Seq<bool> {
    Seq::new(executions.len(), |i: int| executions[i].result is Ok)
}

/// Tells of each execution whether it succeeded.
pub fn execution_outcomes(executions: &Vec<ActionExecution>) -> (r: Vec<bool>)
    ensures
        r@ == outcomes_of(executions@),
{
    let mut out: Vec<bool> = Vec::new();
    let mut i: usize = 0;
    while i < executions.len()
        invariant
            i <= executions@.len(),
            out@ == outcomes_of(executions@).subrange(0, i as int),
        decreases executions@.len() - i,
    {
        out.push(executions[i].result.is_ok());
        i = i + 1;
        assert(out@ =~= outcomes_of(executions@).subrange(0, i as int));
    }
    assert(out@ =~= outcomes_of(executions@));
    out
}

/// Keeps only the entries on the session if a bounded coding session is over.
pub fn prune_working_memory_for_bounded_coding_idle(
    memory: &mut WorkingMemory,
    return_to_idle: bool,
    new_messages: bool,
    summaries: &Vec<ExecThreadSummary>,
)
    ensures
        final(memory)@ == if session_rests(return_to_idle, new_messages, summaries@) {
            session_entries(old(memory)@)
        } else {
            old(memory)@
        },
{
    if bounded_coding_idle_visible(return_to_idle, new_messages, summaries) {
        memory.retain_keys("session_status", "user_question_pending");
    }
}

/// Applies the outcome of a tick to the snapshot.
pub fn amend(before: StateSnapshot, input: AmendInput) -> (after: StateSnapshot)
    ensures
        amended(after, before, input),
        keys_differ(before.working_memory@) ==> keys_differ(after.working_memory@),
        after.working_memory@.len() <= WORKING_MEMORY_CAP,
{
    let StateSnapshot {
        vessel_id,
        mission,
        tick_number: _,
        updated_at: _,
        status: _,
        vessel_mode: _,
        plan,
        working_memory,
        last_action_summary: _,
        thread_summaries: _,
        exec_thread_summaries: _,
        relationship_snapshot_ref,
        budget_status,
    } = before;
    let tick_number: u64 = input.tick_number;

    // The plan.
    let decided = match input.plan_update {
        Some(update) => {
            let current = match plan {
                Some(p) => p,
                None => Plan::empty(input.now_text.as_str()),
            };
            Some(current.apply_update(update))
        },
        None => plan,
    };
    let ghost decided_view = opt_plan(decided);
    let next = match decided {
        Some(p) => {
            let mut p = p;
            let ghost start = p@;
            let mut i: usize = 0;
            while i < input.task_updates.len()
                invariant
                    i <= input.task_updates@.len(),
                    p@ == plan_with_statuses(
                        start,
                        input.task_updates@.subrange(0, i as int),
                        input.now_text@,
                    ),
                decreases input.task_updates@.len() - i,
            {
                let u = &input.task_updates[i];
                assert(input.task_updates@.subrange(0, i + 1).drop_last()
                    =~= input.task_updates@.subrange(0, i as int));
                p.set_status(u.task_id, u.new_status);
                p.updated_at = Some(input.now_text.clone());
                i = i + 1;
            }
            assert(input.task_updates@.subrange(0, input.task_updates@.len() as int)
                =~= input.task_updates@);
            Some(p)
        },
        None => None,
    };

    // The working memory.
    let mut memory = working_memory;
    let ghost differ = keys_differ(memory@);
    match &input.decide_ops {
        Some(ops) => {
            proof {
                if differ {
                    changes_keep_keys_different(memory@, ops@, tick_number);
                }
            }
            memory.apply_ops(ops, tick_number);
        },
        None => {},
    }
    proof {
        if differ {
            changes_keep_keys_different(memory@, input.reflect_ops@, tick_number);
        }
    }
    memory.apply_ops(&input.reflect_ops, tick_number);
    proof {
        kept_entries_are_old(memory@, |e: EntryView| !expired(e, tick_number));
    }
    memory.evict_expired(tick_number);
    let ghost fresh = memory@;
    memory.enforce_cap(WORKING_MEMORY_CAP);
    proof {
        assert(differ ==> keys_differ(memory@)) by {
            assert forall|a: int, b: int| differ && 0 <= a < b < memory@.len() implies (
            #[trigger] memory@[a]).key != (#[trigger] memory@[b]).key by {
                let off = fresh.len() - memory@.len();
                assert(fresh[a + off].key != fresh[b + off].key);
            }
        }
        kept_entries_are_old(
            memory@,
            |e: EntryView| e.key == "session_status"@ || e.key == "user_question_pending"@,
        );
    }
    let exec_thread_summaries = match input.exec_thread_summaries {
        Some(v) => v,
        None => Vec::new(),
    };
    assert(exec_thread_summaries@ =~= list_of(input.exec_thread_summaries));
    prune_working_memory_for_bounded_coding_idle(
        &mut memory,
        input.return_to_idle,
        input.new_messages,
        &exec_thread_summaries,
    );
    let thread_summaries = match input.thread_summaries {
        Some(v) => v,
        None => Vec::new(),
    };
    assert(thread_summaries@ =~= list_of(input.thread_summaries));

    StateSnapshot {
        vessel_id,
        mission,
        tick_number,
        updated_at: input.now,
        status: VesselStatus::Idle,
        vessel_mode: input.vessel_mode,
        plan: next,
        working_memory: memory,
        last_action_summary: Some(last_action_summary(&input.outcomes)),
        thread_summaries,
        exec_thread_summaries,
        relationship_snapshot_ref: match input.relationship_snapshot_ref {
            Some(r) => Some(r),
            None => relationship_snapshot_ref,
        },
        budget_status: match input.budget_status {
            Some(b) => b,
            None => budget_status,
        },
    }
}

/// How many calls of tools are left, for the state of the budget. Without a rate
/// limit, or if it cannot be read, there is no bound.
pub fn tool_remaining(left: Option<u64>) -> (r: u64)
    ensures
        r == (match left {
            Some(n) => n,
            None => u64::MAX,
        }),
{
    match left {
        Some(n) => n,
        None => u64::MAX,
    }
}

/// A tick without a plan update and without new statuses leaves the plan alone.
pub proof fn plan_stays_without_update(plan: Option<PlanView>, now: Seq<char>)
    ensures
        next_plan(plan, None, Seq::empty(), now) == plan,
{
}

// ---------------------------------------------------------------------------
// Memory consolidation
// ---------------------------------------------------------------------------

/// A note for the long-term memory.
#[derive(Debug, PartialEq, Eq)]
pub struct LongTermDraft {
    pub topic: String,
    pub content: String,
    pub tags: Vec<String>,
}

/// What the memory consolidation thread concluded.
#[derive(Debug, PartialEq, Eq)]
pub struct MemoryConsolidation {
    pub episodic_summary: String,
    pub long_term_notes: Vec<LongTermDraft>,
    pub deprecated_notes: Vec<String>,
}

/// When a cognitive thread is due.
#[derive(Debug, Clone, Copy, PartialEq, Eq, Structural)]
pub enum ThreadSchedule {
    EveryTick,
    EveryNTicks(u32),
    OnDemand,
}

/// How many ticks a consolidation covers.
pub open spec fn span_of(schedule: ThreadSchedule) -> u64 {
    match schedule {
        ThreadSchedule::EveryNTicks(n) => n as u64,
        _ => 5,
    }
}

/// The first tick that a consolidation in `tick` covers.
pub open spec fn span_start(tick: u64, span: u64) -> u64 {
    if span == 0 {
        tick
    } else if tick >= span - 1 {
        (tick - (span - 1)) as u64
    } else {
        0
    }
}

/// `c` is the conclusion that is used: what the stored content says, or else what
/// the summary of the output says, or else the summary of the contribution with the
/// notes of the stored content.
pub open spec fn concluded(
    c: MemoryConsolidation,
    stored: MemoryConsolidation,
    fallback: MemoryConsolidation,
    contribution_summary: String,
) -> bool {
    if stored.episodic_summary@.len() > 0 {
        c == stored
    } else if fallback.episodic_summary@.len() > 0 {
        c == fallback
    } else {
        c == (MemoryConsolidation { episodic_summary: contribution_summary, ..stored })
    }
}

/// What a consolidation writes to the memory.
#[derive(Debug, PartialEq, Eq)]
pub struct ConsolidationWrites {
    pub episodic: Option<MergedSummary>,
    pub long_term: Vec<LongTermDraft>,
}

/// Turns the output of the memory consolidation thread into what is written to the
/// memory.
///
/// `stored` is what the stored content says, `fallback` what the summary of the
/// output says.
pub fn process_memory_consolidation_outputs(
    stored: MemoryConsolidation,
    fallback: MemoryConsolidation,
    contribution_summary: String,
    schedule: ThreadSchedule,
    tick_number: u64,
) -> (w: ConsolidationWrites)
    ensures
        exists|c: MemoryConsolidation|
            {
                &&& #[trigger] concluded(c, stored, fallback, contribution_summary)
                &&& w.long_term == c.long_term_notes
                &&& match w.episodic {
                    Some(s) => c.episodic_summary@.len() > 0 && s.summary == c.episodic_summary
                        && s.start_tick == span_start(tick_number, span_of(schedule))
                        && s.end_tick == tick_number && s.key_events@.len() == 0,
                    None => c.episodic_summary@.len() == 0,
                }
            },
{
    let c = if !stored.episodic_summary.as_str().is_empty() {
        stored
    } else if !fallback.episodic_summary.as_str().is_empty() {
        fallback
    } else {
        MemoryConsolidation {
            episodic_summary: contribution_summary,
            long_term_notes: stored.long_term_notes,
            deprecated_notes: stored.deprecated_notes,
        }
    };
    assert(concluded(c, stored, fallback, contribution_summary));
    let span: u64 = match schedule {
        ThreadSchedule::EveryNTicks(n) => n as u64,
        _ => 5,
    };
    let episodic = if c.episodic_summary.as_str().is_empty() {
        None
    } else {
        Some(
            MergedSummary {
                start_tick: tick_number.saturating_sub(span.saturating_sub(1)),
                end_tick: tick_number,
                summary: c.episodic_summary,
                key_events: Vec::new(),
            },
        )
    };
    ConsolidationWrites { episodic, long_term: c.long_term_notes }
}

/// The contributions of one thread, in order.
pub open spec fn contributions_by(all: Seq<ThreadContribution>, id: ThreadId) -> Seq<
    ThreadContribution,
>
    decreases all.len(),
{
    if all.len() == 0 {
        all
    } else if all.last().thread_id == id {
        contributions_by(all.drop_last(), id).push(all.last())
    } else {
        contributions_by(all.drop_last(), id)
    }
}

impl Clone for ThreadContribution {
    fn clone(&self) -> (r: Self)
        ensures
            r == *self,
    {
        ThreadContribution {
            thread_id: self.thread_id,
            artifact_id: self.artifact_id.clone(),
            summary: self.summary.clone(),
        }
    }
}

/// Selects the contributions of one thread.
pub fn contributions_of(all: &Vec<ThreadContribution>, id: ThreadId) -> (r: Vec<ThreadContribution>)
    ensures
        r@ == contributions_by(all@, id),
{
    let mut out: Vec<ThreadContribution> = Vec::new();
    let mut i: usize = 0;
    assert(out@ =~= contributions_by(all@.subrange(0, 0), id));
    while i < all.len()
        invariant
            i <= all@.len(),
            out@ == contributions_by(all@.subrange(0, i as int), id),
        decreases all@.len() - i,
    {
        assert(all@.subrange(0, i + 1).drop_last() =~= all@.subrange(0, i as int));
        if all[i].thread_id == id {
            out.push(all[i].clone());
        }
        i = i + 1;
    }
    assert(all@.subrange(0, all@.len() as int) =~= all@);
    out
}

// ---------------------------------------------------------------------------
// Events
// ---------------------------------------------------------------------------

/// The event that tells how many summaries were evicted. Nothing if none were, if
/// there is no capacity, or if the eviction failed.
pub fn eviction_event(capacity: Option<u64>, evicted: Option<u64>) -> (r: Option<String>)
    ensures
        match (capacity, evicted) {
            (Some(c), Some(n)) => if n > 0 {
                opt_text(r) == Some(
                    "Evicted "@ + dec(n as nat) + " episodic entries (capacity: "@ + dec(c as nat)
                        + ")"@,
                )
            } else {
                r is None
            },
            _ => r is None,
        },
{
    match (capacity, evicted) {
        (Some(c), Some(n)) => {
            if n > 0 {
                let mut s = "Evicted ".to_owned();
                s.append(dec_u64(n).as_str());
                s.append(" episodic entries (capacity: ");
                s.append(dec_u64(c).as_str());
                s.append(")");
                Some(s)
            } else {
                None
            }
        },
        _ => None,
    }
}

/// How many bytes of a reply an event quotes.
pub const REPLY_LIMIT: usize = 80;

/// Tells whether an event can quote a reply without splitting a character.
pub fn can_quote(reply: &str) -> (r: bool)
    ensures
        r == (byte_len(reply@) > REPLY_LIMIT ==> cuts_cleanly(reply@, REPLY_LIMIT as int)),
{
    !over_bytes(reply, REPLY_LIMIT) || clean_cut(reply, REPLY_LIMIT)
}

/// The event that tells of a reply of the vessel.
pub fn reply_event(reply: &str) -> (s: String)
    requires
        byte_len(reply@) > REPLY_LIMIT ==> cuts_cleanly(reply@, REPLY_LIMIT as int),
    ensures
        s@ == "Vessel reply: "@ + shortened(reply@, REPLY_LIMIT as nat, REPLY_LIMIT as int),
{
    let mut s = "Vessel reply: ".to_owned();
    s.append(shorten(reply, REPLY_LIMIT, REPLY_LIMIT).as_str());
    s
}

/// The event that tells how many relationship updates there were, if there were any.
pub fn relationship_event(count: usize) -> (r: Option<String>)
    ensures
        count == 0 ==> r is None,
        count > 0 ==> opt_text(r) == Some(
            dec(count as nat) + " relationship updates from Align step"@,
        ),
{
    if count == 0 {
        return None;
    }
    let mut s = dec_usize(count);
    s.append(" relationship updates from Align step");
    Some(s)
}

/// The event that tells of the end of a tick.
pub fn completed_event(tick_number: u64, last_action_summary: &Option<String>) -> (s: String)
    ensures
        s@ == "Tick "@ + dec(tick_number as nat) + " completed: "@ + (match *last_action_summary {
            Some(t) => t@,
            None => ""@,
        }),
{
    let mut s = "Tick ".to_owned();
    s.append(dec_u64(tick_number).as_str());
    s.append(" completed: ");
    match last_action_summary {
        Some(t) => {
            s.append(t.as_str());
        },
        None => {
            s.append("");
        },
    }
    s
}

/// The messages that are to be acknowledged.
pub fn acknowledged(messages: &Vec<MessageEnvelope>) -> (r: Vec<EnvelopeId>)
    ensures
        r@ == Seq::new(messages@.len(), |i: int| messages@[i].id),
{
    let mut out: Vec<EnvelopeId> = Vec::new();
    let mut i: usize = 0;
    while i < messages.len()
        invariant
            i <= messages@.len(),
            out@ == Seq::new(i as nat, |k: int| messages@[k].id),
        decreases messages@.len() - i,
    {
        out.push(messages[i].id);
        i = i + 1;
        assert(out@ =~= Seq::new(i as nat, |k: int| messages@[k].id));
    }
    out
}

/// The episodic summaries that keep the notes of the Decide step.
pub fn note_summaries(notes: &Vec<String>, tick_number: u64) -> (r: Vec<MergedSummary>)
    ensures
        r@.len() == notes@.len(),
        forall|i: int|
            0 <= i < r@.len() ==> {
                &&& (#[trigger] r@[i]).start_tick == tick_number
                &&& r@[i].end_tick == tick_number
                &&& r@[i].summary == notes@[i]
                &&& r@[i].key_events@.len() == 0
            },
{
    let mut out: Vec<MergedSummary> = Vec::new();
    let mut i: usize = 0;
    while i < notes.len()
        invariant
            i <= notes@.len(),
            out@.len() == i,
            forall|k: int|
                0 <= k < i ==> {
                    &&& (#[trigger] out@[k]).start_tick == tick_number
                    &&& out@[k].end_tick == tick_number
                    &&& out@[k].summary == notes@[k]
                    &&& out@[k].key_events@.len() == 0
                },
        decreases notes@.len() - i,
    {
        out.push(
            MergedSummary {
                start_tick: tick_number,
                end_tick: tick_number,
                summary: notes[i].clone(),
                key_events: Vec::new(),
            },
        );
        i = i + 1;
    }
    out
}

// ---------------------------------------------------------------------------
// The record of the tick
// ---------------------------------------------------------------------------

/// The steps of a tick.
#[derive(Debug, Clone, Copy, PartialEq, Eq, Structural)]
pub enum TickPhase {
    Perceive,
    Orient,
    Decide,
    Align,
    Act,
    Reflect,
    Amend,
}

/// The record of a tick.
#[derive(Debug, PartialEq, Eq)]
pub struct TickRecord {
    pub tick_id: TickId,
    pub tick_number: u64,
    /// The step that the tick has reached.
    pub phase: TickPhase,
    pub started_at: Timestamp,
    pub completed_at: Timestamp,
    pub snapshot_before: ArtifactId,
    pub snapshot_after: ArtifactId,
    pub thread_contributions: Vec<ThreadContribution>,
    pub exec_thread_contributions: Vec<ExecThreadContribution>,
    pub actions_taken: Vec<ActionRecord>,
    pub llm_calls: Vec<LlmCallRecord>,
    pub decision_rationale: String,
    pub context_breakdown_ref: Option<ArtifactId>,
}

impl Clone for ActionRecord {
    fn clone(&self) -> (r: Self)
        ensures
            r == *self,
    {
        ActionRecord {
            action_type: self.action_type.clone(),
            target: self.target.clone(),
            receipt_ref: crate::types::clone_artifact(&self.receipt_ref),
            outcome: self.outcome,
            origin_exec_thread_id: self.origin_exec_thread_id,
            proposal_id: crate::text::clone_opt(&self.proposal_id),
        }
    }
}

/// The records of the executions, in order.
pub fn action_records(executions: &Vec<ActionExecution>) -> (r: Vec<ActionRecord>)
    ensures
        r@ == Seq::new(executions@.len(), |i: int| executions@[i].record),
{
    let mut out: Vec<ActionRecord> = Vec::new();
    let mut i: usize = 0;
    while i < executions.len()
        invariant
            i <= executions@.len(),
            out@ == Seq::new(i as nat, |k: int| executions@[k].record),
        decreases executions@.len() - i,
    {
        out.push(executions[i].record.clone());
        i = i + 1;
        assert(out@ =~= Seq::new(i as nat, |k: int| executions@[k].record));
    }
    out
}

/// The calls of language models in a tick: that of the Decide step, and that of the
/// Reflect step if it made one.
pub fn llm_calls(decide: &LlmCallRecord, reflect: &Option<LlmCallRecord>) -> (r: Vec<LlmCallRecord>)
    ensures
        r@ == (match *reflect {
            Some(c) => seq![*decide, c],
            None => seq![*decide],
        }),
{
    let mut out: Vec<LlmCallRecord> = Vec::new();
    out.push(decide.clone());
    match reflect {
        Some(c) => {
            out.push(c.clone());
            assert(out@ =~= seq![*decide, *c]);
        },
        None => {
            assert(out@ =~= seq![*decide]);
        },
    }
    out
}

/// Builds the record of a tick. It is written in the last step, Amend.
pub fn tick_record(
    tick_id: TickId,
    tick_number: u64,
    started_at: Timestamp,
    completed_at: Timestamp,
    snapshot_before: ArtifactId,
    snapshot_after: ArtifactId,
    threads: Vec<ThreadContribution>,
    exec_threads: Vec<ExecThreadContribution>,
    executions: &Vec<ActionExecution>,
    decide: &LlmCallRecord,
    reflect: &Option<LlmCallRecord>,
    reasoning: &str,
    context_breakdown_ref: Option<ArtifactId>,
) -> (r: TickRecord)
    ensures
        r.tick_id == tick_id,
        r.tick_number == tick_number,
        r.phase is Amend,
        r.started_at == started_at,
        r.completed_at == completed_at,
        r.snapshot_before == snapshot_before,
        r.snapshot_after == snapshot_after,
        r.thread_contributions == threads,
        r.exec_thread_contributions == exec_threads,
        r.actions_taken@ == Seq::new(executions@.len(), |i: int| executions@[i].record),
        r.llm_calls@ == (match *reflect {
            Some(c) => seq![*decide, c],
            None => seq![*decide],
        }),
        r.decision_rationale@ == reasoning@,
        r.context_breakdown_ref == context_breakdown_ref,
{
    TickRecord {
        tick_id,
        tick_number,
        phase: TickPhase::Amend,
        started_at,
        completed_at,
        snapshot_before,
        snapshot_after,
        thread_contributions: threads,
        exec_thread_contributions: exec_threads,
        actions_taken: action_records(executions),
        llm_calls: llm_calls(decide, reflect),
        decision_rationale: reasoning.to_owned(),
        context_breakdown_ref,
    }
}

/// The output of a completed tick. The success rate comes in as JSON.
pub open spec fn tick_output(tick_id: TickId, tick_number: u64, actions: u64, rate: JsonView) -> JsonView {
    JsonView::Object(
        seq![
            ("tick_id"@, JsonView::Str(id_text(tick_id.raw))),
            ("tick_number"@, JsonView::UInt(tick_number)),
            ("actions"@, JsonView::UInt(actions)),
            ("success_rate"@, rate),
        ],
    )
}

/// Writes the output of a completed tick.
pub fn tick_output_bytes(tick_id: TickId, tick_number: u64, actions: usize, success_rate: &Json) -> (r:
    Vec<u8>)
    ensures
        r@ == encode_utf8(
            written(tick_output(tick_id, tick_number, actions as u64, success_rate@)),
        ),
{
    let id = write_id(tick_id.raw);
    let members = vec![
        member("tick_id", Json::Str(id)),
        member("tick_number", Json::UInt(tick_number)),
        member("actions", Json::UInt(actions as u64)),
        member("success_rate", success_rate.clone()),
    ];
    assert(member_views(members@) =~= tick_output(
        tick_id,
        tick_number,
        actions as u64,
        success_rate@,
    )->Object_0);
    let j = Json::object(members);
    write_json(&j).as_str().as_bytes_vec()
}

// ---------------------------------------------------------------------------
// Laws
// ---------------------------------------------------------------------------

proof fn statuses_keep_tasks(p: PlanView, updates: Seq<TaskStatusUpdate>, now: Seq<char>)
    ensures
        ({
            let q = plan_with_statuses(p, updates, now);
            &&& q.objective == p.objective
            &&& q.tasks.len() == p.tasks.len()
            &&& forall|i: int|
                0 <= i < p.tasks.len() ==> same_task(#[trigger] q.tasks[i], p.tasks[i])
            &&& forall|i: int|
                0 <= i < p.tasks.len() && (forall|k: int|
                    0 <= k < updates.len() ==> (#[trigger] updates[k]).task_id != p.tasks[i].id)
                    ==> (#[trigger] q.tasks[i]).status == p.tasks[i].status
        }),
    decreases updates.len(),
{
    if updates.len() > 0 {
        let front = updates.drop_last();
        let u = updates[updates.len() - 1];
        statuses_keep_tasks(p, front, now);
        let mid = plan_with_statuses(p, front, now);
        let q = plan_with_statuses(p, updates, now);
        let op = PlanOp::UpdateStatus { task_id: u.task_id, new_status: u.new_status };
        plan_change_is_exact(mid, op);
        assert forall|i: int| 0 <= i < p.tasks.len() implies same_task(
            #[trigger] q.tasks[i],
            p.tasks[i],
        ) by {
            assert(same_task(mid.tasks[i], p.tasks[i]));
        }
        assert forall|i: int|
            0 <= i < p.tasks.len() && (forall|k: int|
                0 <= k < updates.len() ==> (#[trigger] updates[k]).task_id != p.tasks[i].id)
            implies (#[trigger] q.tasks[i]).status == p.tasks[i].status by {
            assert(same_task(mid.tasks[i], p.tasks[i]));
            assert forall|k: int| 0 <= k < front.len() implies (#[trigger] front[k]).task_id
                != p.tasks[i].id by {
                assert(front[k] == updates[k]);
            }
            assert(mid.tasks[i].status == p.tasks[i].status);
        }
    }
}

proof fn last_status_wins(p: PlanView, updates: Seq<TaskStatusUpdate>, now: Seq<char>, at: int)
    requires
        0 <= at < updates.len(),
        forall|k: int|
            at < k < updates.len() ==> (#[trigger] updates[k]).task_id != updates[at].task_id,
    ensures
        forall|i: int|
            0 <= i < plan_with_statuses(p, updates, now).tasks.len() && plan_with_statuses(
                p,
                updates,
                now,
            ).tasks[i].id == updates[at].task_id ==> (#[trigger] plan_with_statuses(
                p,
                updates,
                now,
            ).tasks[i]).status == updates[at].new_status,
    decreases updates.len(),
{
    let front = updates.drop_last();
    let u = updates[updates.len() - 1];
    let mid = plan_with_statuses(p, front, now);
    let q = plan_with_statuses(p, updates, now);
    let op = PlanOp::UpdateStatus { task_id: u.task_id, new_status: u.new_status };
    plan_change_is_exact(mid, op);
    if at < updates.len() - 1 {
        assert(front[at] == updates[at]);
        assert forall|k: int| at < k < front.len() implies (#[trigger] front[k]).task_id
            != front[at].task_id by {
            assert(front[k] == updates[k]);
        }
        last_status_wins(p, front, now, at);
        assert(u.task_id != updates[at].task_id);
        assert forall|i: int|
            0 <= i < q.tasks.len() && q.tasks[i].id == updates[at].task_id implies (
        #[trigger] q.tasks[i]).status == updates[at].new_status by {
            assert(same_task(q.tasks[i], mid.tasks[i]));
            assert(mid.tasks[i].status == updates[at].new_status);
        }
    } else {
        assert forall|i: int|
            0 <= i < q.tasks.len() && q.tasks[i].id == updates[at].task_id implies (
        #[trigger] q.tasks[i]).status == updates[at].new_status by {
            assert(same_task(q.tasks[i], mid.tasks[i]));
        }
    }
}

/// A tick that patches the plan, and removes no task, keeps the plan: every task is there
/// after the tick as it was before, in its place, and without a new objective the
/// objective stays. A task that neither the patch nor the reflection names keeps its
/// status. The tasks that the patch adds are there.
pub proof fn patched_plan_is_kept(
    after: StateSnapshot,
    before: StateSnapshot,
    i: AmendInput,
    operations: Seq<PlanOp>,
)
    requires
        amended(after, before, i),
        before.plan is Some,
        i.plan_update matches Some(PlanUpdate::Patch { operations: ops }) && ops@ == operations,
        forall|k: int| 0 <= k < operations.len() ==> !((#[trigger] operations[k]) is RemoveTask),
    ensures
        after.plan is Some,
        ({
            let old_tasks = before.plan->Some_0.tasks@;
            let new_tasks = after.plan->Some_0.tasks@;
            &&& new_tasks.len() >= old_tasks.len()
            &&& forall|t: int|
                0 <= t < old_tasks.len() ==> {
                    &&& (#[trigger] new_tasks[t]).id == old_tasks[t].id
                    &&& new_tasks[t].description == old_tasks[t].description
                    &&& new_tasks[t].depends_on == old_tasks[t].depends_on
                    &&& new_tasks[t].tool_hint == old_tasks[t].tool_hint
                }
            &&& forall|t: int|
                0 <= t < old_tasks.len() && (forall|k: int|
                    0 <= k < operations.len() ==> ((#[trigger] operations[k])
                        matches PlanOp::UpdateStatus { task_id, .. } ==> task_id
                        != old_tasks[t].id)) && (forall|k: int|
                    0 <= k < i.task_updates@.len() ==> (#[trigger] i.task_updates@[k]).task_id
                        != old_tasks[t].id) ==> (#[trigger] new_tasks[t]).status
                    == old_tasks[t].status
            &&& forall|k: int|
                0 <= k < operations.len() && operations[k] is AddTask ==> exists|t: int|
                    0 <= t < new_tasks.len() && same_task(
                        #[trigger] new_tasks[t],
                        (#[trigger] operations[k])->AddTask_task,
                    )
        }),
        (forall|k: int|
            0 <= k < operations.len() ==> !((#[trigger] operations[k]) is UpdateObjective))
            ==> after.plan->Some_0.objective@ == before.plan->Some_0.objective@,
{
    let p = before.plan->Some_0@;
    let mid = plan_after_all(p, operations);
    let q = after.plan->Some_0@;
    assert(opt_plan(after.plan) == Some(plan_with_statuses(mid, i.task_updates@, i.now_text@)));
    patch_keeps_tasks(p, operations);
    statuses_keep_tasks(mid, i.task_updates@, i.now_text@);
    assert forall|t: int| 0 <= t < p.tasks.len() implies {
        &&& (#[trigger] q.tasks[t]).id == p.tasks[t].id
        &&& q.tasks[t].description == p.tasks[t].description
        &&& q.tasks[t].depends_on == p.tasks[t].depends_on
        &&& q.tasks[t].tool_hint == p.tasks[t].tool_hint
    } by {
        assert(same_task(mid.tasks[t], p.tasks[t]));
        assert(same_task(q.tasks[t], mid.tasks[t]));
    }
    assert forall|t: int|
        0 <= t < p.tasks.len() && (forall|k: int|
            0 <= k < operations.len() ==> ((#[trigger] operations[k])
                matches PlanOp::UpdateStatus { task_id, .. } ==> task_id != p.tasks[t].id)) && (
        forall|k: int|
            0 <= k < i.task_updates@.len() ==> (#[trigger] i.task_updates@[k]).task_id
                != p.tasks[t].id) implies (#[trigger] q.tasks[t]).status == p.tasks[t].status by {
        assert(same_task(mid.tasks[t], p.tasks[t]));
        assert(mid.tasks[t].status == p.tasks[t].status);
    }
    assert forall|k: int| 0 <= k < operations.len() && operations[k] is AddTask implies exists|
        t: int,
    |
        0 <= t < q.tasks.len() && same_task(
            #[trigger] q.tasks[t],
            (#[trigger] operations[k])->AddTask_task,
        ) by {
        patch_adds_tasks(p, operations, k);
        let t = choose|t: int|
            0 <= t < mid.tasks.len() && same_task(
                #[trigger] mid.tasks[t],
                operations[k]->AddTask_task,
            );
        assert(same_task(q.tasks[t], mid.tasks[t]));
        assert(same_task(q.tasks[t], operations[k]->AddTask_task));
    }
}

/// The statuses of the reflection come last: a task has the status of the last update that
/// names it, whatever the decision said. Without an update the decision's plan has it.
pub proof fn reflected_statuses_win(
    after: StateSnapshot,
    before: StateSnapshot,
    i: AmendInput,
    at: int,
)
    requires
        amended(after, before, i),
        after.plan is Some,
        0 <= at < i.task_updates@.len(),
        forall|k: int|
            at < k < i.task_updates@.len() ==> (#[trigger] i.task_updates@[k]).task_id
                != i.task_updates@[at].task_id,
    ensures
        forall|t: int|
            0 <= t < after.plan->Some_0.tasks@.len() && after.plan->Some_0.tasks@[t].id
                == i.task_updates@[at].task_id ==> (#[trigger] after.plan->Some_0.tasks@[t]).status
                == i.task_updates@[at].new_status,
{
    let decided = match i.plan_update {
        Some(u) => plan_updated(
            match opt_plan(before.plan) {
                Some(p) => p,
                None => empty_plan(i.now_text@),
            },
            u,
        ),
        None => opt_plan(before.plan)->Some_0,
    };
    last_status_wins(decided, i.task_updates@, i.now_text@, at);
    let q = plan_with_statuses(decided, i.task_updates@, i.now_text@);
    assert(after.plan->Some_0@ == q);
    assert forall|t: int|
        0 <= t < q.tasks.len() && q.tasks[t].id == i.task_updates@[at].task_id implies (
    #[trigger] after.plan->Some_0.tasks@[t]).status == i.task_updates@[at].new_status by {
        assert(q.tasks[t].status == i.task_updates@[at].new_status);
    }
}

/// A tick that replaces the plan has the new one: its objective, and its tasks in order,
/// but for the statuses that the reflection gives.
pub proof fn replaced_plan_is_new(
    after: StateSnapshot,
    before: StateSnapshot,
    i: AmendInput,
    plan: Plan,
)
    requires
        amended(after, before, i),
        i.plan_update == Some(PlanUpdate::Replace { plan }),
    ensures
        after.plan is Some,
        after.plan->Some_0.objective@ == plan.objective@,
        after.plan->Some_0.tasks@.len() == plan.tasks@.len(),
        forall|t: int|
            0 <= t < plan.tasks@.len() ==> same_task(
                #[trigger] after.plan->Some_0.tasks@[t],
                plan.tasks@[t],
            ),
        i.task_updates@.len() == 0 ==> after.plan->Some_0.tasks@ == plan.tasks@,
{
    statuses_keep_tasks(plan@, i.task_updates@, i.now_text@);
    let q = after.plan->Some_0@;
    assert(q == plan_with_statuses(plan@, i.task_updates@, i.now_text@));
    assert forall|t: int| 0 <= t < plan.tasks@.len() implies same_task(
        #[trigger] after.plan->Some_0.tasks@[t],
        plan.tasks@[t],
    ) by {
        assert(same_task(q.tasks[t], plan@.tasks[t]));
    }
}

/// A tick without a plan update keeps the objective and the tasks of the plan. Without a
/// plan there is none afterwards.
pub proof fn plan_is_not_invented(after: StateSnapshot, before: StateSnapshot, i: AmendInput)
    requires
        amended(after, before, i),
        i.plan_update is None,
    ensures
        after.plan is Some <==> before.plan is Some,
        before.plan matches Some(p) ==> {
            &&& after.plan->Some_0.objective@ == p.objective@
            &&& after.plan->Some_0.tasks@.len() == p.tasks@.len()
            &&& forall|t: int|
                0 <= t < p.tasks@.len() ==> same_task(
                    #[trigger] after.plan->Some_0.tasks@[t],
                    p.tasks@[t],
                )
        },
{
    if let Some(p) = before.plan {
        statuses_keep_tasks(p@, i.task_updates@, i.now_text@);
        let q = after.plan->Some_0@;
        assert forall|t: int| 0 <= t < p.tasks@.len() implies same_task(
            #[trigger] after.plan->Some_0.tasks@[t],
            p.tasks@[t],
        ) by {
            assert(same_task(q.tasks[t], p@.tasks[t]));
        }
    }
}

/// All changes of the working memory in a tick: those of the Decide step, then those of
/// the Reflect step.
pub open spec fn ops_of(i: AmendInput) -> Seq<WorkingMemoryOp> {
    (match i.decide_ops {
        Some(ops) => ops@,
        None => Seq::empty(),
    }) + i.reflect_ops@
}

proof fn changes_in_two_parts(
    m: Seq<EntryView>,
    a: Seq<WorkingMemoryOp>,
    b: Seq<WorkingMemoryOp>,
    tick: u64,
)
    ensures
        memory_after_all(memory_after_all(m, a, tick), b, tick) == memory_after_all(m, a + b, tick),
    decreases b.len(),
{
    if b.len() == 0 {
        assert(a + b =~= a);
    } else {
        changes_in_two_parts(m, a, b.drop_last(), tick);
        assert((a + b).drop_last() =~= a + b.drop_last());
    }
}

proof fn memory_of_tick(memory: Seq<EntryView>, i: AmendInput)
    ensures
        next_memory(memory, i.decide_ops, i.reflect_ops@, i.tick_number) == newest(
            entries_where(
                memory_after_all(memory, ops_of(i), i.tick_number),
                |e: EntryView| !expired(e, i.tick_number),
            ),
            WORKING_MEMORY_CAP as nat,
        ),
{
    match i.decide_ops {
        Some(ops) => {
            changes_in_two_parts(memory, ops@, i.reflect_ops@, i.tick_number);
        },
        None => {
            assert(ops_of(i) =~= i.reflect_ops@);
        },
    }
}

/// The working memory keeps what it holds: an entry that no change names and whose time to
/// live is not over is there after the tick. (There is room for fifty entries, and the end
/// of a coding session clears the memory.)
pub proof fn entries_are_kept(after: StateSnapshot, before: StateSnapshot, i: AmendInput, e: EntryView)
    requires
        amended(after, before, i),
        !session_rests(i.return_to_idle, i.new_messages, list_of(i.exec_thread_summaries)),
        before.working_memory@.len() + ops_of(i).len() <= 50,
        before.working_memory@.contains(e),
        e.ttl_ticks matches Some(ttl) ==> i.tick_number - e.set_at_tick < ttl,
        forall|k: int| 0 <= k < ops_of(i).len() ==> !names_key(#[trigger] ops_of(i)[k], e.key),
    ensures
        after.working_memory@.contains(e),
{
    let p = |e: EntryView| !expired(e, i.tick_number);
    let m = memory_after_all(before.working_memory@, ops_of(i), i.tick_number);
    memory_of_tick(before.working_memory@, i);
    unnamed_entries_stay(before.working_memory@, ops_of(i), i.tick_number, e);
    kept_entries_are_old(m, p);
    fulfilling_entries_stay(m, p, e);
}

/// The last change that names a key counts, and the Reflect step comes behind the Decide
/// step: what it sets is remembered with the number of the tick, what it removes is gone.
/// (There is room for fifty entries, and the end of a coding session clears the memory.)
pub proof fn changes_are_remembered(after: StateSnapshot, before: StateSnapshot, i: AmendInput, at: int)
    requires
        amended(after, before, i),
        !session_rests(i.return_to_idle, i.new_messages, list_of(i.exec_thread_summaries)),
        before.working_memory@.len() + ops_of(i).len() <= 50,
        0 <= at < ops_of(i).len(),
        forall|k: int|
            at < k < ops_of(i).len() ==> !names_key(
                #[trigger] ops_of(i)[k],
                (match ops_of(i)[at] {
                    WorkingMemoryOp::Put { key, .. } => key@,
                    WorkingMemoryOp::Remove { key } => key@,
                }),
            ),
    ensures
        match ops_of(i)[at] {
            WorkingMemoryOp::Put { key, value, ttl_ticks } => ttl_ticks != Some(0u64)
                ==> after.working_memory@.contains(
                EntryView { key: key@, value: value@, set_at_tick: i.tick_number, ttl_ticks },
            ),
            WorkingMemoryOp::Remove { key } => forall|e: EntryView|
                #[trigger] after.working_memory@.contains(e) ==> e.key != key@,
        },
{
    let p = |e: EntryView| !expired(e, i.tick_number);
    let m = memory_after_all(before.working_memory@, ops_of(i), i.tick_number);
    memory_of_tick(before.working_memory@, i);
    last_change_wins(before.working_memory@, ops_of(i), i.tick_number, at);
    changes_add_few(before.working_memory@, ops_of(i), i.tick_number);
    kept_entries_are_old(m, p);
    match ops_of(i)[at] {
        WorkingMemoryOp::Put { key, value, ttl_ticks } => {
            let e = EntryView {
                key: key@,
                value: value@,
                set_at_tick: i.tick_number,
                ttl_ticks,
            };
            if ttl_ticks != Some(0u64) {
                fulfilling_entries_stay(m, p, e);
            }
        },
        WorkingMemoryOp::Remove { key } => {
            assert forall|e: EntryView| #[trigger] after.working_memory@.contains(e) implies e.key
                != key@ by {
                let k = choose|k: int|
                    0 <= k < after.working_memory@.len() && after.working_memory@[k] == e;
                assert(entries_where(m, p)[k] == e);
                assert(m.contains(e));
            }
        },
    }
}

/// No entry outlives its time to live, and nothing but the state of the session outlives
/// a coding session that is over.
pub proof fn memory_is_swept(after: StateSnapshot, before: StateSnapshot, i: AmendInput)
    requires
        amended(after, before, i),
    ensures
        after.working_memory@.len() <= 50,
        forall|k: int|
            0 <= k < after.working_memory@.len() ==> ((
            #[trigger] after.working_memory@[k]).ttl_ticks matches Some(ttl) ==> i.tick_number
                - after.working_memory@[k].set_at_tick < ttl),
        session_rests(i.return_to_idle, i.new_messages, list_of(i.exec_thread_summaries))
            ==> forall|k: int|
            0 <= k < after.working_memory@.len() ==> ((
            #[trigger] after.working_memory@[k]).key == "session_status"@
                || after.working_memory@[k].key == "user_question_pending"@),
{
    let p = |e: EntryView| !expired(e, i.tick_number);
    let m = memory_after_all(before.working_memory@, ops_of(i), i.tick_number);
    let fresh = entries_where(m, p);
    let short = newest(fresh, WORKING_MEMORY_CAP as nat);
    memory_of_tick(before.working_memory@, i);
    kept_entries_are_old(m, p);
    assert forall|k: int| 0 <= k < short.len() implies ((#[trigger] short[k]).ttl_ticks
        matches Some(ttl) ==> i.tick_number - short[k].set_at_tick < ttl) by {
        assert(short[k] == fresh[fresh.len() - short.len() + k]);
        assert(p(fresh[fresh.len() - short.len() + k]));
    }
    let q = |e: EntryView| e.key == "session_status"@ || e.key == "user_question_pending"@;
    kept_entries_are_old(short, q);
    assert forall|k: int| 0 <= k < after.working_memory@.len() implies ((
    #[trigger] after.working_memory@[k]).ttl_ticks matches Some(ttl) ==> i.tick_number
        - after.working_memory@[k].set_at_tick < ttl) by {
        if session_rests(i.return_to_idle, i.new_messages, list_of(i.exec_thread_summaries)) {
            assert(entries_where(short, q)[k] == after.working_memory@[k]);
            assert(short.contains(after.working_memory@[k]));
            let j = choose|j: int| 0 <= j < short.len() && short[j] == after.working_memory@[k];
        } else {
            assert(short[k] == after.working_memory@[k]);
        }
    }
    if session_rests(i.return_to_idle, i.new_messages, list_of(i.exec_thread_summaries)) {
        assert forall|k: int| 0 <= k < after.working_memory@.len() implies ((
        #[trigger] after.working_memory@[k]).key == "session_status"@
            || after.working_memory@[k].key == "user_question_pending"@) by {
            assert(q(entries_where(short, q)[k]));
        }
    }
}

/// The rest of the snapshot is that of the tick: its number and time, idle, in the mode of
/// the vessel, with the threads and the budget as they are now. The vessel and its mission
/// stay. What could not be read stays as it was, but for the lists of threads.
pub proof fn snapshot_is_of_the_tick(after: StateSnapshot, before: StateSnapshot, i: AmendInput)
    requires
        amended(after, before, i),
    ensures
        after.vessel_id == before.vessel_id,
        after.mission@ == before.mission@,
        after.tick_number == i.tick_number,
        after.updated_at == i.now,
        after.status is Idle,
        after.vessel_mode == i.vessel_mode,
        i.thread_summaries matches Some(list) ==> after.thread_summaries@ == list@,
        i.exec_thread_summaries matches Some(list) ==> after.exec_thread_summaries@ == list@,
        i.relationship_snapshot_ref is Some ==> after.relationship_snapshot_ref
            == i.relationship_snapshot_ref,
        i.relationship_snapshot_ref is None ==> after.relationship_snapshot_ref
            == before.relationship_snapshot_ref,
        i.budget_status matches Some(b) ==> after.budget_status == b,
        i.budget_status is None ==> after.budget_status == before.budget_status,
        ({
            let n = i.outcomes@.len();
            let good = i.outcomes@.filter(|ok: bool| ok).len();
            after.last_action_summary matches Some(t) && t@ == if n == 0 {
                "No actions taken"@
            } else {
                dec(n) + " actions: "@ + dec(good) + " succeeded, "@ + dec((n - good) as nat)
                    + " failed"@
            }
        }),
{
    successes_are_counted(i.outcomes@);
}

proof fn successes_are_counted(outcomes: Seq<bool>)
    ensures
        successes(outcomes) == outcomes.filter(|ok: bool| ok).len(),
        successes(outcomes) <= outcomes.len(),
    decreases outcomes.len(),
{
    reveal(Seq::filter);
    if outcomes.len() > 0 {
        successes_are_counted(outcomes.drop_last());
    }
}

/// The contributions of a thread are all of its own, in order.
pub proof fn own_contributions_are_selected(all: Seq<ThreadContribution>, id: ThreadId)
    ensures
        contributions_by(all, id) == all.filter(|c: ThreadContribution| c.thread_id == id),
    decreases all.len(),
{
    reveal(Seq::filter);
    if all.len() > 0 {
        own_contributions_are_selected(all.drop_last(), id);
    } else {
        assert(contributions_by(all, id) =~= Seq::empty());
    }
}

/// A consolidation covers as many ticks as lie between two of them, up to the present one,
/// but none before the first tick. A thread without such a schedule covers five.
pub proof fn consolidation_covers_its_span(tick: u64, schedule: ThreadSchedule, n: u32)
    ensures
        schedule == ThreadSchedule::EveryNTicks(n) && 0 < n && n <= tick + 1 ==> tick - span_start(
            tick,
            span_of(schedule),
        ) + 1 == n,
        schedule == ThreadSchedule::EveryNTicks(n) && n > tick + 1 ==> span_start(
            tick,
            span_of(schedule),
        ) == 0,
        !(schedule is EveryNTicks) && tick >= 4 ==> tick - span_start(tick, span_of(schedule)) + 1
            == 5,
        span_start(tick, span_of(schedule)) <= tick,
{
}

/// What the thread stored is used if it has a summary, and otherwise what its output says.
/// If that has none either, the contribution is the summary, and the stored notes stay.
pub proof fn stored_conclusion_comes_first(
    c: MemoryConsolidation,
    stored: MemoryConsolidation,
    fallback: MemoryConsolidation,
    contribution: String,
)
    requires
        concluded(c, stored, fallback, contribution),
    ensures
        stored.episodic_summary@.len() > 0 ==> c.episodic_summary@ == stored.episodic_summary@
            && c.long_term_notes == stored.long_term_notes,
        stored.episodic_summary@.len() == 0 && fallback.episodic_summary@.len() > 0
            ==> c.episodic_summary@ == fallback.episodic_summary@ && c.long_term_notes
            == fallback.long_term_notes,
        stored.episodic_summary@.len() == 0 && fallback.episodic_summary@.len() == 0
            ==> c.episodic_summary@ == contribution@ && c.long_term_notes
            == stored.long_term_notes,
{
}

/// The output of a tick tells which tick it was, how many actions it took, and their
/// success.
pub proof fn tick_output_tells(tick_id: TickId, tick_number: u64, actions: u64, rate: JsonView)
    ensures
        ({
            let j = tick_output(tick_id, tick_number, actions, rate);
            &&& j.field("tick_id"@) == Some(JsonView::Str(id_text(tick_id.raw)))
            &&& j.field("tick_number"@) == Some(JsonView::UInt(tick_number))
            &&& j.field("actions"@) == Some(JsonView::UInt(actions))
            &&& j.field("success_rate"@) == Some(rate)
        }),
{
    let m = tick_output(tick_id, tick_number, actions, rate)->Object_0;
    reveal_strlit("tick_id");
    reveal_strlit("tick_number");
    reveal_strlit("actions");
    reveal_strlit("success_rate");
    assert("tick_id"@.len() == 7 && "tick_number"@.len() == 11 && "actions"@.len() == 7
        && "success_rate"@.len() == 12);
    assert("tick_id"@[0] == 't' && "actions"@[0] == 'a');
    assert(crate::encode::keys_differ(m));
    member_is_found(m, 0);
    member_is_found(m, 1);
    member_is_found(m, 2);
    member_is_found(m, 3);
}

} // verus!

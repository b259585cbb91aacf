//! The Reflect step: what is learned from the actions of a tick.
//!
//! The language model may be asked to reflect; its reply comes in as text. Without it
//! the outcomes of the actions are counted.

use vstd::prelude::*;
use vstd::string::*;

use crate::amend::TaskStatusUpdate;
use crate::decode::{
    field_at, flag_of, has_record_form, is_record, maybe_text_of, read_flag, read_maybe_text,
    read_text, read_text_list, record_field, text_of,
};
use crate::inner_loop::{items_of, texts_of};
use crate::json::{parse_json, parsed, ref_json, views, Json, JsonView};
use crate::memory::{Plan, PlanTask, PlanTaskStatus, WorkingMemoryOp};
use crate::proposals::{
    are_memory_ops, describes_memory_ops, read_memory_ops, read_task_id, read_task_status,
    task_id_of, task_status_of,
};
use crate::text::{dec, dec_usize, opt_text, texts};
use crate::types::{
    extract_json_from_code_fence, fenced, id_text, write_id, ActionExecution, ActionOutcome,
    LlmCallRecord,
};

verus! {

/// The outcome of the Reflect step.
#[derive(Debug)]
pub struct ReflectionResult {
    /// How many actions succeeded.
    pub successes: usize,
    /// How many actions there were. The success rate is the one divided by the other;
    /// without actions there is none.
    pub total: usize,
    pub observations: Vec<String>,
    pub concerns: Vec<String>,
    pub task_updates: Vec<TaskStatusUpdate>,
    pub working_memory_ops: Vec<WorkingMemoryOp>,
    /// The next tick should plan anew.
    pub should_replan: bool,
    /// The record of the call, if the model was asked.
    pub llm_call_record: Option<LlmCallRecord>,
}

/// What the model says in its reflection.
#[derive(Debug)]
pub struct ReflectProtocol {
    pub outcome_assessment: String,
    pub task_updates: Vec<TaskStatusUpdate>,
    pub working_memory_ops: Vec<WorkingMemoryOp>,
    pub observations: Vec<String>,
    pub concerns: Vec<String>,
    pub should_replan: bool,
}

// ---------------------------------------------------------------------------
// Counting
// ---------------------------------------------------------------------------

/// How many executions succeeded.
pub open spec fn success_count(executions: Seq<ActionExecution>) -> nat
    decreases executions.len(),
{
    if executions.len() == 0 {
        0
    } else {
        success_count(executions.drop_last()) + if executions.last().record.outcome
            == ActionOutcome::Success {
            1nat
        } else {
            0nat
        }
    }
}

/// The observation on a failed action.
pub open spec fn failure_note(e: ActionExecution) -> Seq<char> {
    "Failed action: "@ + e.action.tool_name@ + ": "@ + (match e.result {
        Err(error) => error@,
        Ok(_) => Seq::empty(),
    })
}

/// The observations on the failed actions, in order.
pub open spec fn failure_notes(executions: Seq<ActionExecution>) -> Seq<Seq<char>>
    decreases executions.len(),
{
    if executions.len() == 0 {
        Seq::empty()
    } else if executions.last().result is Err {
        failure_notes(executions.drop_last()).push(failure_note(executions.last()))
    } else {
        failure_notes(executions.drop_last())
    }
}

/// The observation on all actions.
pub open spec fn count_note(total: nat, successes: nat) -> Seq<char> {
    "Executed "@ + dec(total) + " actions: "@ + dec(successes) + " succeeded, "@ + dec(
        (total - successes) as nat,
    ) + " failed"@
}

/// The observations that counting makes.
pub open spec fn counted_observations(executions: Seq<ActionExecution>) -> Seq<Seq<char>> {
    if executions.len() == 0 {
        seq!["No actions taken"@]
    } else {
        seq![count_note(executions.len(), success_count(executions))] + failure_notes(executions)
    }
}

/// The concerns that counting raises.
pub open spec fn counted_concerns(total: nat, successes: nat) -> Seq<Seq<char>> {
    if total == 0 {
        Seq::empty()
    } else if successes == 0 {
        seq!["All actions failed — possible misconfiguration"@]
    } else if 2 * successes < total {
        seq!["More than half of actions failed"@]
    } else {
        Seq::empty()
    }
}

/// `r` is the reflection that counting makes.
pub open spec fn is_counted(r: ReflectionResult, executions: Seq<ActionExecution>) -> bool {
    &&& r.total == executions.len()
    &&& r.successes == success_count(executions)
    &&& texts(r.observations@) == counted_observations(executions)
    &&& texts(r.concerns@) == counted_concerns(executions.len(), success_count(executions))
    &&& r.task_updates@.len() == 0
    &&& r.working_memory_ops@.len() == 0
    &&& !r.should_replan
    &&& r.llm_call_record is None
}

fn count_successes(executions: &Vec<ActionExecution>) -> (n: usize)
    ensures
        n == success_count(executions@),
        n <= executions@.len(),
{
    let mut n: usize = 0;
    let mut i: usize = 0;
    while i < executions.len()
        invariant
            i <= executions@.len(),
            n <= i,
            n == success_count(executions@.subrange(0, i as int)),
        decreases executions@.len() - i,
    {
        assert(executions@.subrange(0, i + 1).drop_last() =~= executions@.subrange(0, i as int));
        if executions[i].record.outcome == ActionOutcome::Success {
            n = n + 1;
        }
        i = i + 1;
    }
    assert(executions@.subrange(0, executions@.len() as int) =~= executions@);
    n
}

/// Reflects on the actions by counting how they ended.
pub fn heuristic_reflect(executions: &Vec<ActionExecution>) -> (r: ReflectionResult)
    ensures
        is_counted(r, executions@),
{
    let total: usize = executions.len();
    let successes: usize = count_successes(executions);
    let mut observations: Vec<String> = Vec::new();
    let mut concerns: Vec<String> = Vec::new();
    if total == 0 {
        observations.push("No actions taken".to_owned());
        assert(texts(observations@) =~= seq!["No actions taken"@]);
        assert(texts(concerns@) =~= Seq::<Seq<char>>::empty());
    } else {
        let mut first = "Executed ".to_owned();
        first.append(dec_usize(total).as_str());
        first.append(" actions: ");
        first.append(dec_usize(successes).as_str());
        first.append(" succeeded, ");
        first.append(dec_usize(total - successes).as_str());
        first.append(" failed");
        let ghost head = first@;
        observations.push(first);
        let mut i: usize = 0;
        assert(texts(observations@) =~= seq![head] + failure_notes(executions@.subrange(0, 0)));
        while i < executions.len()
            invariant
                i <= executions@.len(),
                texts(observations@) == seq![head] + failure_notes(
                    executions@.subrange(0, i as int),
                ),
            decreases executions@.len() - i,
        {
            let e = &executions[i];
            let ghost now = executions@.subrange(0, i + 1);
            assert(now.drop_last() =~= executions@.subrange(0, i as int));
            assert(now.last() == *e);
            let ghost before = observations@;
            match &e.result {
                Err(error) => {
                    let mut note = "Failed action: ".to_owned();
                    note.append(e.action.tool_name.as_str());
                    note.append(": ");
                    note.append(error.as_str());
                    assert(note@ == failure_note(*e));
                    observations.push(note);
                    assert(texts(observations@) =~= texts(before).push(failure_note(*e)));
                    assert(texts(observations@) =~= seq![head] + failure_notes(now));
                },
                Ok(_) => {},
            }
            i = i + 1;
        }
        assert(executions@.subrange(0, executions@.len() as int) =~= executions@);
        if successes == 0 {
            concerns.push("All actions failed — possible misconfiguration".to_owned());
        } else if successes < total - successes {
            concerns.push("More than half of actions failed".to_owned());
        }
        assert(texts(concerns@) =~= counted_concerns(total as nat, successes as nat));
    }
    ReflectionResult {
        successes,
        total,
        observations,
        concerns,
        task_updates: Vec::new(),
        working_memory_ops: Vec::new(),
        should_replan: false,
        llm_call_record: None,
    }
}

// ---------------------------------------------------------------------------
// The reply of the model
// ---------------------------------------------------------------------------

/// The value describes a new status of a task.
pub open spec fn describes_status_update(j: JsonView) -> bool {
    &&& is_record(j, 3)
    &&& task_id_of(field_at(j, "task_id"@, 0)) is Some
    &&& task_status_of(field_at(j, "new_status"@, 1)) is Some
    &&& maybe_text_of(field_at(j, "reason"@, 2)) is Some
}

/// `u` is the new status that the value describes.
pub open spec fn is_status_update(u: TaskStatusUpdate, j: JsonView) -> bool {
    &&& Some(u.task_id) == task_id_of(field_at(j, "task_id"@, 0))
    &&& Some(u.new_status) == task_status_of(field_at(j, "new_status"@, 1))
    &&& Some(opt_text(u.reason)) == maybe_text_of(field_at(j, "reason"@, 2))
}

/// Every item describes a new status of a task.
pub open spec fn all_status_updates(items: Seq<JsonView>) -> bool {
    forall|i: int| 0 <= i < items.len() ==> describes_status_update(#[trigger] items[i])
}

/// `list` are the new statuses that the items describe.
pub open spec fn are_status_updates(list: Seq<TaskStatusUpdate>, items: Seq<JsonView>) -> bool {
    list.len() == items.len() && forall|i: int|
        0 <= i < items.len() ==> is_status_update(#[trigger] list[i], items[i])
}

/// The list of changes is missing or well described.
pub open spec fn ops_ok(v: Option<JsonView>) -> bool {
    match v {
        None => true,
        Some(j) => describes_memory_ops(j),
    }
}

/// `ops` are the changes that a list describes, which is empty if it is missing.
pub open spec fn ops_are(ops: Seq<WorkingMemoryOp>, v: Option<JsonView>) -> bool {
    match v {
        None => ops.len() == 0,
        Some(j) => are_memory_ops(ops, j),
    }
}

/// The value describes a reflection.
pub open spec fn describes_reflection(j: JsonView) -> bool {
    &&& is_record(j, 6)
    &&& text_of(field_at(j, "outcome_assessment"@, 0)) is Some
    &&& match items_of(field_at(j, "task_updates"@, 1)) {
        Some(items) => all_status_updates(items),
        None => false,
    }
    &&& ops_ok(field_at(j, "working_memory_ops"@, 2))
    &&& texts_of(field_at(j, "observations"@, 3)) is Some
    &&& texts_of(field_at(j, "concerns"@, 4)) is Some
    &&& flag_of(field_at(j, "should_replan"@, 5)) is Some
}

/// `p` is the reflection that the value describes.
pub open spec fn is_reflection(p: ReflectProtocol, j: JsonView) -> bool {
    &&& Some(p.outcome_assessment@) == text_of(field_at(j, "outcome_assessment"@, 0))
    &&& match items_of(field_at(j, "task_updates"@, 1)) {
        Some(items) => are_status_updates(p.task_updates@, items),
        None => false,
    }
    &&& ops_are(p.working_memory_ops@, field_at(j, "working_memory_ops"@, 2))
    &&& Some(texts(p.observations@)) == texts_of(field_at(j, "observations"@, 3))
    &&& Some(texts(p.concerns@)) == texts_of(field_at(j, "concerns"@, 4))
    &&& Some(p.should_replan) == flag_of(field_at(j, "should_replan"@, 5))
}

/// `p` is the reflection that stands for a text: the text is its observation.
pub open spec fn is_plain_reflection(p: ReflectProtocol, text: Seq<char>) -> bool {
    &&& p.outcome_assessment@ == text
    &&& p.task_updates@.len() == 0
    &&& p.working_memory_ops@.len() == 0
    &&& texts(p.observations@) == seq![text]
    &&& p.concerns@.len() == 0
    &&& !p.should_replan
}

/// The value that a text holds, if it describes a reflection.
pub open spec fn reflection_in(text: Seq<char>) -> Option<JsonView> {
    match parsed(text) {
        Ok(j) => if describes_reflection(j) {
            Some(j)
        } else {
            None
        },
        Err(_) => None,
    }
}

/// `p` is the reflection in a text of the model: the whole text as JSON, or else the
/// JSON in its first code fence, or else the text itself as an observation.
pub open spec fn reflection_from(p: ReflectProtocol, text: Seq<char>) -> bool {
    match reflection_in(text) {
        Some(j) => is_reflection(p, j),
        None => match fenced(text) {
            Some(content) => match reflection_in(content) {
                Some(j) => is_reflection(p, j),
                None => is_plain_reflection(p, text),
            },
            None => is_plain_reflection(p, text),
        },
    }
}

fn read_status_update(j: &Json) -> (r: Option<TaskStatusUpdate>)
    ensures
        match r {
            Some(u) => describes_status_update(j@) && is_status_update(u, j@),
            None => !describes_status_update(j@),
        },
{
    if !has_record_form(j, 3) {
        return None;
    }
    let task_id = read_task_id(record_field(j, "task_id", 0));
    let new_status = read_task_status(record_field(j, "new_status", 1));
    let reason = read_maybe_text(record_field(j, "reason", 2));
    match (task_id, new_status, reason) {
        (Some(task_id), Some(new_status), Some(reason)) => Some(
            TaskStatusUpdate { task_id, new_status, reason },
        ),
        _ => None,
    }
}

fn read_status_updates(v: Option<&Json>) -> (r: Option<Vec<TaskStatusUpdate>>)
    ensures
        match (r, items_of(ref_json(v))) {
            (Some(list), Some(items)) => all_status_updates(items) && are_status_updates(
                list@,
                items,
            ),
            (None, Some(items)) => !all_status_updates(items),
            (None, None) => true,
            _ => false,
        },
{
    let mut out: Vec<TaskStatusUpdate> = Vec::new();
    let list = match v {
        None => {
            return Some(out);
        },
        Some(j) => j,
    };
    let items = match list.as_array() {
        Some(items) => items,
        None => {
            return None;
        },
    };
    let ghost all = views(items@);
    let mut i: usize = 0;
    while i < items.len()
        invariant
            all == views(items@),
            items_of(ref_json(v)) == Some(all),
            i <= items@.len(),
            out@.len() == i,
            forall|k: int| 0 <= k < i ==> describes_status_update(#[trigger] all[k]),
            forall|k: int| 0 <= k < i ==> is_status_update(#[trigger] out@[k], all[k]),
        decreases items@.len() - i,
    {
        assert(all[i as int] == items@[i as int]@);
        match read_status_update(&items[i]) {
            Some(u) => {
                out.push(u);
            },
            None => {
                assert(i < all.len() && !describes_status_update(all[i as int]));
                return None;
            },
        }
        i = i + 1;
    }
    Some(out)
}

fn read_texts(v: Option<&Json>) -> (r: Option<Vec<String>>)
    ensures
        crate::decode::opt_texts(r) == texts_of(ref_json(v)),
{
    match v {
        None => {
            let none: Vec<String> = Vec::new();
            assert(texts(none@) =~= Seq::<Seq<char>>::empty());
            Some(none)
        },
        Some(j) => read_text_list(j),
    }
}

/// Reads a reflection.
pub fn read_reflection(j: &Json) -> (r: Option<ReflectProtocol>)
    ensures
        match r {
            Some(p) => describes_reflection(j@) && is_reflection(p, j@),
            None => !describes_reflection(j@),
        },
{
    if !has_record_form(j, 6) {
        return None;
    }
    let assessment = read_text(record_field(j, "outcome_assessment", 0));
    let updates = read_status_updates(record_field(j, "task_updates", 1));
    let ops = match record_field(j, "working_memory_ops", 2) {
        None => Some(Vec::new()),
        Some(list) => read_memory_ops(list),
    };
    let observations = read_texts(record_field(j, "observations", 3));
    let concerns = read_texts(record_field(j, "concerns", 4));
    let replan = read_flag(record_field(j, "should_replan", 5));
    match (assessment, updates, ops) {
        (Some(outcome_assessment), Some(task_updates), Some(working_memory_ops)) => match (
            observations,
            concerns,
            replan,
        ) {
            (Some(observations), Some(concerns), Some(should_replan)) => Some(
                ReflectProtocol {
                    outcome_assessment,
                    task_updates,
                    working_memory_ops,
                    observations,
                    concerns,
                    should_replan,
                },
            ),
            _ => None,
        },
        _ => None,
    }
}

fn read_reflection_text(text: &str) -> (r: Option<ReflectProtocol>)
    ensures
        match r {
            Some(p) => reflection_in(text@) matches Some(j) && is_reflection(p, j),
            None => reflection_in(text@) is None,
        },
{
    match parse_json(text) {
        Ok(j) => read_reflection(&j),
        Err(_) => None,
    }
}

/// Reads the reflection in a text of the model.
pub fn parse_reflect_protocol(response_text: &str) -> (p: ReflectProtocol)
    ensures
        reflection_from(p, response_text@),
{
    match read_reflection_text(response_text) {
        Some(p) => {
            return p;
        },
        None => {},
    }
    match extract_json_from_code_fence(response_text) {
        Some(content) => match read_reflection_text(content) {
            Some(p) => {
                return p;
            },
            None => {},
        },
        None => {},
    }
    let mut observations: Vec<String> = Vec::new();
    observations.push(response_text.to_owned());
    assert(texts(observations@) =~= seq![response_text@]);
    ReflectProtocol {
        outcome_assessment: response_text.to_owned(),
        task_updates: Vec::new(),
        working_memory_ops: Vec::new(),
        observations,
        concerns: Vec::new(),
        should_replan: false,
    }
}

// ---------------------------------------------------------------------------
// The message to the model
// ---------------------------------------------------------------------------

/// The lines on an execution.
pub open spec fn outcome_lines(e: ActionExecution) -> Seq<char> {
    "- "@ + e.action.tool_name@ + " ["@ + (if e.result is Ok {
        "SUCCESS"@
    } else {
        "FAILED"@
    }) + "]: "@ + e.action.rationale@ + "\n"@ + (match e.result {
        Err(error) => "  Error: "@ + error@ + "\n"@,
        Ok(_) => Seq::empty(),
    })
}

/// The lines on the executions.
pub open spec fn all_outcome_lines(executions: Seq<ActionExecution>) -> Seq<char>
    decreases executions.len(),
{
    if executions.len() == 0 {
        Seq::empty()
    } else {
        all_outcome_lines(executions.drop_last()) + outcome_lines(executions.last())
    }
}

/// The name of a status.
pub open spec fn task_status_name(s: PlanTaskStatus) -> Seq<char> {
    match s {
        PlanTaskStatus::Pending => "pending"@,
        PlanTaskStatus::InProgress => "in_progress"@,
        PlanTaskStatus::Completed => "completed"@,
        PlanTaskStatus::Failed => "failed"@,
        PlanTaskStatus::Blocked => "blocked"@,
        PlanTaskStatus::Skipped => "skipped"@,
    }
}

/// The line on a task.
pub open spec fn task_line(t: PlanTask) -> Seq<char> {
    "- ["@ + task_status_name(t.status) + "] "@ + t.description@ + " ("@ + id_text(t.id.raw)
        + ")\n"@
}

/// The lines on the tasks.
pub open spec fn task_lines(tasks: Seq<PlanTask>) -> Seq<char>
    decreases tasks.len(),
{
    if tasks.len() == 0 {
        Seq::empty()
    } else {
        task_lines(tasks.drop_last()) + task_line(tasks.last())
    }
}

/// The message to the model.
pub open spec fn reflect_message(
    plan: Option<Plan>,
    reasoning: Seq<char>,
    executions: Seq<ActionExecution>,
    diff_section: Seq<char>,
) -> Seq<char> {
    "## Action Outcomes\n\n"@ + all_outcome_lines(executions) + (match plan {
        Some(p) => "\n## Current Plan\nObjective: "@ + p.objective@ + "\n"@ + task_lines(p.tasks@),
        None => Seq::empty(),
    }) + "\n## Decision Reasoning\n"@ + reasoning + "\n"@ + diff_section
}

fn task_status_str(s: PlanTaskStatus) -> (r: &'static str)
    ensures
        r@ == task_status_name(s),
{
    match s {
        PlanTaskStatus::Pending => "pending",
        PlanTaskStatus::InProgress => "in_progress",
        PlanTaskStatus::Completed => "completed",
        PlanTaskStatus::Failed => "failed",
        PlanTaskStatus::Blocked => "blocked",
        PlanTaskStatus::Skipped => "skipped",
    }
}

fn outcome_text(e: &ActionExecution) -> (s: String)
    ensures
        s@ == outcome_lines(*e),
{
    let mut s = "- ".to_owned();
    s.append(e.action.tool_name.as_str());
    s.append(" [");
    match &e.result {
        Ok(_) => {
            s.append("SUCCESS");
        },
        Err(_) => {
            s.append("FAILED");
        },
    }
    s.append("]: ");
    s.append(e.action.rationale.as_str());
    s.append("\n");
    let mut error_line = String::new();
    match &e.result {
        Err(error) => {
            error_line = "  Error: ".to_owned();
            error_line.append(error.as_str());
            error_line.append("\n");
        },
        Ok(_) => {},
    }
    s.append(error_line.as_str());
    s
}

fn plan_text(plan: &Plan) -> (s: String)
    ensures
        s@ == "\n## Current Plan\nObjective: "@ + plan.objective@ + "\n"@ + task_lines(
            plan.tasks@,
        ),
{
    let mut lines = String::new();
    let mut i: usize = 0;
    assert(lines@ =~= task_lines(plan.tasks@.subrange(0, 0)));
    while i < plan.tasks.len()
        invariant
            i <= plan.tasks@.len(),
            lines@ == task_lines(plan.tasks@.subrange(0, i as int)),
        decreases plan.tasks@.len() - i,
    {
        let t = &plan.tasks[i];
        assert(plan.tasks@.subrange(0, i + 1).drop_last() =~= plan.tasks@.subrange(0, i as int));
        let mut line = "- [".to_owned();
        line.append(task_status_str(t.status));
        line.append("] ");
        line.append(t.description.as_str());
        line.append(" (");
        line.append(write_id(t.id.raw).as_str());
        line.append(")\n");
        lines.append(line.as_str());
        i = i + 1;
    }
    assert(plan.tasks@.subrange(0, plan.tasks@.len() as int) =~= plan.tasks@);
    let mut s = "\n## Current Plan\nObjective: ".to_owned();
    s.append(plan.objective.as_str());
    s.append("\n");
    s.append(lines.as_str());
    s
}

/// Builds the message to the model: the outcomes of the actions, the plan, the
/// reasoning of the decision, and the changes of files.
pub fn build_reflect_user_message(
    plan: &Option<Plan>,
    reasoning: &str,
    executions: &Vec<ActionExecution>,
    diff_section: &str,
) -> (r: String)
    ensures
        r@ == reflect_message(*plan, reasoning@, executions@, diff_section@),
{
    let mut outcomes = String::new();
    let mut i: usize = 0;
    assert(outcomes@ =~= all_outcome_lines(executions@.subrange(0, 0)));
    while i < executions.len()
        invariant
            i <= executions@.len(),
            outcomes@ == all_outcome_lines(executions@.subrange(0, i as int)),
        decreases executions@.len() - i,
    {
        assert(executions@.subrange(0, i + 1).drop_last() =~= executions@.subrange(0, i as int));
        outcomes.append(outcome_text(&executions[i]).as_str());
        i = i + 1;
    }
    assert(executions@.subrange(0, executions@.len() as int) =~= executions@);
    let plan_part = match plan {
        Some(p) => plan_text(p),
        None => String::new(),
    };
    let mut r = "## Action Outcomes\n\n".to_owned();
    r.append(outcomes.as_str());
    r.append(plan_part.as_str());
    r.append("\n## Decision Reasoning\n");
    r.append(reasoning);
    r.append("\n");
    r.append(diff_section);
    r
}

// ---------------------------------------------------------------------------
// The step
// ---------------------------------------------------------------------------

/// Tells whether the model is asked: there were actions and the tick was not
/// cancelled.
pub fn wants_model(executions: &Vec<ActionExecution>, cancelled: bool) -> (r: bool)
    ensures
        r == (executions@.len() > 0 && !cancelled),
{
    executions.len() > 0 && !cancelled
}

/// The reply of the model with the record of its call.
#[derive(Debug)]
pub struct ReflectReply {
    pub text: String,
    pub record: LlmCallRecord,
}

/// `r` is the reflection that the model makes: its own words, with the counts of the
/// actions.
pub open spec fn is_modelled(
    r: ReflectionResult,
    executions: Seq<ActionExecution>,
    reply: ReflectReply,
) -> bool {
    exists|p: ReflectProtocol|
        {
            &&& #[trigger] reflection_from(p, reply.text@)
            &&& r == (ReflectionResult {
                successes: r.successes,
                total: r.total,
                observations: p.observations,
                concerns: p.concerns,
                task_updates: p.task_updates,
                working_memory_ops: p.working_memory_ops,
                should_replan: p.should_replan,
                llm_call_record: Some(reply.record),
            })
            &&& r.total == executions.len()
            &&& r.successes == success_count(executions)
        }
}

/// Reflects on the actions of a tick. `reply` is what the model said, if it was asked
/// and answered. Without a reply the actions are counted.
pub fn reflect(executions: &Vec<ActionExecution>, cancelled: bool, reply: Option<ReflectReply>) -> (r:
    ReflectionResult)
    ensures
        match reply {
            Some(said) => if executions@.len() > 0 && !cancelled {
                is_modelled(r, executions@, said)
            } else {
                is_counted(r, executions@)
            },
            None => is_counted(r, executions@),
        },
{
    let counted = heuristic_reflect(executions);
    if !wants_model(executions, cancelled) {
        return counted;
    }
    match reply {
        None => counted,
        Some(said) => {
            let p = parse_reflect_protocol(said.text.as_str());
            let r = ReflectionResult {
                successes: counted.successes,
                total: counted.total,
                observations: p.observations,
                concerns: p.concerns,
                task_updates: p.task_updates,
                working_memory_ops: p.working_memory_ops,
                should_replan: p.should_replan,
                llm_call_record: Some(said.record),
            };
            assert(reflection_from(p, said.text@));
            r
        },
    }
}

/// The counts of a reflection never exceed the number of actions, whoever reflects.
pub proof fn successes_never_exceed_actions(executions: Seq<ActionExecution>)
    ensures
        success_count(executions) <= executions.len(),
    decreases executions.len(),
{
    if executions.len() > 0 {
        successes_never_exceed_actions(executions.drop_last());
    }
}

} // verus!

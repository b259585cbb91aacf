//! Laws of reading: what is read out of a JSON value stands in it, member by member.

use vstd::prelude::*;
use vstd::string::*;

use crate::amend::TaskStatusUpdate;
use crate::exec_threads::{
    reply_from, reply_of, ExecThreadProposalConfidence, ExecThreadStatus, ReplyView,
};
use crate::inner_loop::{decision_from, describes_decision, is_decision};
use crate::json::{parsed, JsonView};
use crate::memory::{Plan, PlanOp, PlanTask, PlanTaskStatus, PlanUpdate, WorkingMemoryOp};
use crate::proposals::{
    are_memory_ops, describes_action, describes_memory_op, describes_memory_ops, describes_plan,
    describes_plan_op, describes_plan_update, describes_task, describes_watch, describes_watch_type,
    is_action, is_memory_op, is_plan, is_plan_op, is_plan_update, is_task, is_watch, is_watch_type,
    mode_of, task_id_of, task_status_named,
};
use crate::reflect::{
    describes_reflection, describes_status_update, is_reflection, is_status_update, reflection_from,
    ReflectProtocol,
};
use crate::text::{opt_text, texts};
use crate::types::{fenced, id_parsed, DecisionResult, PlanTaskId, PlannedAction, VesselMode};
use crate::watches::{WatchProposal, WatchSchedule, WatchType};

verus! {

/// The member `key` is this text.
pub open spec fn says(j: JsonView, key: Seq<char>, text: Seq<char>) -> bool {
    j.field(key) == Some(JsonView::Str(text))
}

/// The member `key` is missing or null.
pub open spec fn lacks(j: JsonView, key: Seq<char>) -> bool {
    j.field(key) is None || j.field(key) == Some(JsonView::Null)
}

/// The member `key` is this text, or there is neither.
pub open spec fn may_say(j: JsonView, key: Seq<char>, text: Option<Seq<char>>) -> bool {
    match text {
        Some(t) => says(j, key, t),
        None => lacks(j, key),
    }
}

/// The member `key` is a text that identifies the task.
pub open spec fn names_task(j: JsonView, key: Seq<char>, id: PlanTaskId) -> bool {
    match j.field(key) {
        Some(JsonView::Str(t)) => id_parsed(t) == Some(id.raw),
        _ => false,
    }
}

/// The name in the form in which a status is told.
pub open spec fn status_word(s: PlanTaskStatus) -> Seq<char> {
    match s {
        PlanTaskStatus::Pending => "pending"@,
        PlanTaskStatus::InProgress => "in_progress"@,
        PlanTaskStatus::Completed => "completed"@,
        PlanTaskStatus::Failed => "failed"@,
        PlanTaskStatus::Blocked => "blocked"@,
        PlanTaskStatus::Skipped => "skipped"@,
    }
}

proof fn status_word_is_read(s: PlanTaskStatus)
    ensures
        task_status_named(status_word(s)) == Some(s),
{
    reveal_strlit("pending");
    reveal_strlit("in_progress");
    reveal_strlit("completed");
    reveal_strlit("failed");
    reveal_strlit("blocked");
    reveal_strlit("skipped");
    assert("pending"@[0] == 'p' && "in_progress"@[0] == 'i' && "completed"@[0] == 'c'
        && "failed"@[0] == 'f' && "blocked"@[0] == 'b' && "skipped"@[0] == 's');
}

/// A task that was read has the identifier, the description, the status, the dependencies
/// and the hint of the value. Without a status it is pending.
pub proof fn task_is_as_told(t: PlanTask, j: JsonView, s: PlanTaskStatus)
    requires
        describes_task(j),
        is_task(t, j),
    ensures
        names_task(j, "id"@, t.id),
        says(j, "description"@, t.description@),
        says(j, "status"@, status_word(s)) ==> t.status == s,
        j.field("status"@) is None ==> t.status is Pending,
        j.field("depends_on"@) is None ==> t.depends_on@.len() == 0,
        j.field("depends_on"@) matches Some(d) ==> (d matches JsonView::Array(items)
            && items.len() == t.depends_on@.len() && forall|i: int|
            0 <= i < items.len() ==> ((#[trigger] items[i]) matches JsonView::Str(x) && id_parsed(x)
                == Some(t.depends_on@[i].raw))),
        may_say(j, "tool_hint"@, opt_text(t.tool_hint)),
{
    status_word_is_read(s);
    if let Some(JsonView::Array(items)) = j.field("depends_on"@) {
        assert forall|i: int| 0 <= i < items.len() implies ((#[trigger] items[i]) matches JsonView::Str(
            x,
        ) && id_parsed(x) == Some(t.depends_on@[i].raw)) by {
            assert(task_id_of(Some(items[i])) is Some);
        }
    }
}

/// A value that tells an identifier and a description is a task; nothing else is needed.
pub proof fn short_task_is_read(j: JsonView, id: PlanTaskId, description: Seq<char>)
    requires
        j is Object,
        names_task(j, "id"@, id),
        says(j, "description"@, description),
        lacks(j, "tool_hint"@),
        j.field("status"@) is None,
        j.field("depends_on"@) is None,
    ensures
        describes_task(j),
{
}

/// A plan that was read has the objective of the value and all of its tasks, in order.
pub proof fn plan_is_as_told(p: Plan, j: JsonView)
    requires
        describes_plan(j),
        is_plan(p, j),
    ensures
        says(j, "objective"@, p.objective@),
        may_say(j, "updated_at"@, opt_text(p.updated_at)),
        j.field("tasks"@) is None ==> p.tasks@.len() == 0,
        j.field("tasks"@) matches Some(v) ==> (v matches JsonView::Array(items) && items.len()
            == p.tasks@.len() && forall|i: int|
            0 <= i < items.len() ==> describes_task(items[i]) && is_task(
                #[trigger] p.tasks@[i],
                items[i],
            )),
{
}

/// A change of a plan that was read is the one that the value names, on the task that it
/// names.
pub proof fn plan_op_is_as_told(o: PlanOp, j: JsonView, s: PlanTaskStatus)
    requires
        describes_plan_op(j),
        is_plan_op(o, j),
    ensures
        match o {
            PlanOp::AddTask { task } => says(j, "op"@, "add_task"@) && (j.field("task"@) matches Some(
                v,
            ) && describes_task(v) && is_task(task, v)),
            PlanOp::UpdateStatus { task_id, new_status } => says(j, "op"@, "update_status"@)
                && names_task(j, "task_id"@, task_id) && (says(j, "new_status"@, status_word(s))
                ==> new_status == s),
            PlanOp::RemoveTask { task_id } => says(j, "op"@, "remove_task"@) && names_task(
                j,
                "task_id"@,
                task_id,
            ),
            PlanOp::UpdateObjective { objective } => says(j, "op"@, "update_objective"@) && says(
                j,
                "objective"@,
                objective@,
            ),
        },
{
    reveal_strlit("add_task");
    reveal_strlit("update_status");
    reveal_strlit("remove_task");
    reveal_strlit("update_objective");
    assert("add_task"@.len() == 8 && "update_status"@.len() == 13 && "remove_task"@.len() == 11
        && "update_objective"@.len() == 16);
    status_word_is_read(s);
}

/// An update of a plan that was read is the one that the value names: a whole plan, or all
/// of its changes in order.
pub proof fn plan_update_is_as_told(u: PlanUpdate, j: JsonView)
    requires
        describes_plan_update(j),
        is_plan_update(u, j),
    ensures
        match u {
            PlanUpdate::Replace { plan } => says(j, "type"@, "replace"@) && (j.field(
                "plan"@,
            ) matches Some(v) && describes_plan(v) && is_plan(plan, v)),
            PlanUpdate::Patch { operations } => says(j, "type"@, "patch"@) && (j.field(
                "operations"@,
            ) matches Some(v) && v matches JsonView::Array(items) && items.len()
                == operations@.len() && forall|i: int|
                0 <= i < items.len() ==> describes_plan_op(items[i]) && is_plan_op(
                    #[trigger] operations@[i],
                    items[i],
                )),
        },
{
    reveal_strlit("replace");
    reveal_strlit("patch");
    assert("replace"@.len() == 7 && "patch"@.len() == 5);
}

/// A change of the memory that was read is the one that the value names, with its key, its
/// value and its time to live.
pub proof fn memory_op_is_as_told(o: WorkingMemoryOp, j: JsonView)
    requires
        describes_memory_op(j),
        is_memory_op(o, j),
    ensures
        match o {
            WorkingMemoryOp::Put { key, value, ttl_ticks } => says(j, "op"@, "set"@) && says(
                j,
                "key"@,
                key@,
            ) && says(j, "value"@, value@) && match ttl_ticks {
                Some(n) => j.field("ttl_ticks"@) == Some(JsonView::UInt(n)),
                None => lacks(j, "ttl_ticks"@),
            },
            WorkingMemoryOp::Remove { key } => says(j, "op"@, "remove"@) && says(j, "key"@, key@),
        },
{
}

/// A list of changes of the memory is read whole and in order.
pub proof fn memory_ops_are_as_told(ops: Seq<WorkingMemoryOp>, j: JsonView)
    requires
        describes_memory_ops(j),
        are_memory_ops(ops, j),
    ensures
        j matches JsonView::Array(items) && items.len() == ops.len() && forall|i: int|
            0 <= i < items.len() ==> describes_memory_op(items[i]) && is_memory_op(
                #[trigger] ops[i],
                items[i],
            ),
{
}

/// A watch that was read has the name, the description, the subject and the schedule of the
/// value.
pub proof fn watch_is_as_told(p: WatchProposal, j: JsonView)
    requires
        j is Object,
        describes_watch(j),
        is_watch(p, j),
    ensures
        says(j, "name"@, p.name@),
        says(j, "description"@, p.description@),
        j.field("watch_type"@) matches Some(w) && describes_watch_type(w) && is_watch_type(
            p.watch_type,
            w,
        ),
        j.field("schedule"@) matches Some(s) && match p.schedule {
            WatchSchedule::EveryNTicks { n } => says(s, "type"@, "every_n_ticks"@) && s.field("n"@)
                == Some(JsonView::UInt(n)),
            WatchSchedule::Once => says(s, "type"@, "once"@),
        },
{
}

/// What a watch observes is what the value says: a metric with its condition, or a
/// connector with its parameters.
pub proof fn watch_subject_is_as_told(w: WatchType, j: JsonView)
    requires
        describes_watch_type(j),
        is_watch_type(w, j),
    ensures
        match w {
            WatchType::Threshold { metric, condition } => says(j, "type"@, "threshold"@) && j.field(
                "metric"@,
            ) == Some(metric@) && j.field("condition"@) == Some(condition@),
            WatchType::Poll { connector, params, extract, condition } => says(j, "type"@, "poll"@)
                && says(j, "connector"@, connector@) && j.field("params"@) == Some(params@)
                && may_say(j, "extract"@, opt_text(extract)) && match condition {
                Some(c) => j.field("condition"@) == Some(c@),
                None => lacks(j, "condition"@),
            },
        },
{
}

/// Each mode is read by its name, and nothing else is a mode.
pub proof fn modes_are_read_by_name(j: JsonView)
    ensures
        mode_of(JsonView::Str("normal"@)) == Some(VesselMode::Normal),
        mode_of(JsonView::Str("planning"@)) == Some(VesselMode::Planning),
        mode_of(JsonView::Str("executing"@)) == Some(VesselMode::Executing),
        j matches JsonView::Str(t) && t != "normal"@ && t != "planning"@ && t != "executing"@
            ==> mode_of(j) is None,
{
    reveal_strlit("normal");
    reveal_strlit("planning");
    reveal_strlit("executing");
    assert("normal"@[0] == 'n' && "planning"@[0] == 'p' && "executing"@[0] == 'e');
}

/// An action that was read has the identifier, the tool, the arguments and the reasons of
/// the value. A text that identifies no task is dropped.
pub proof fn action_is_as_told(a: PlannedAction, j: JsonView)
    requires
        j is Object,
        describes_action(j),
        is_action(a, j),
    ensures
        says(j, "call_id"@, a.call_id@),
        says(j, "tool_name"@, a.tool_name@),
        j.field("params"@) == Some(a.params@),
        says(j, "rationale"@, a.rationale@),
        may_say(j, "proposal_id"@, opt_text(a.proposal_id)),
        match a.origin_exec_thread_id {
            Some(t) => j.field("origin_exec_thread_id"@) matches Some(v) && v matches JsonView::Str(
                x,
            ) && id_parsed(x) == Some(t.raw),
            None => lacks(j, "origin_exec_thread_id"@),
        },
        a.plan_task_id matches Some(id) ==> names_task(j, "plan_task_id"@, id),
        (forall|id: PlanTaskId| !#[trigger] names_task(j, "plan_task_id"@, id))
            ==> a.plan_task_id is None,
{
    if let Some(id) = a.plan_task_id {
        assert(names_task(j, "plan_task_id"@, id));
    }
}

/// A reply of a coding thread that was read says what the value says.
pub proof fn coding_reply_is_as_told(j: JsonView, r: ReplyView)
    requires
        j is Object,
        reply_of(j) == Some(r),
    ensures
        says(j, "summary"@, r.summary),
        may_say(j, "current_focus"@, r.current_focus),
        may_say(j, "work_phase"@, r.work_phase),
        may_say(j, "scratchpad"@, r.scratchpad),
        may_say(j, "completion_reason"@, r.completion_reason),
        r.evidence_complete == (j.field("evidence_complete"@) == Some(JsonView::Bool(true))),
        r.should_wake_master == (j.field("should_wake_master"@) == Some(JsonView::Bool(true))),
        match r.proposed_action {
            Some(p) => j.field("proposed_action"@) matches Some(v) && (v is Object ==> says(
                v,
                "tool_name"@,
                p.tool_name,
            ) && says(v, "rationale"@, p.rationale) && (v.field("params"@) matches Some(q) ==> q
                == p.params)),
            None => lacks(j, "proposed_action"@),
        },
        r.status is None <==> lacks(j, "status"@),
        r.proposal_confidence is None <==> lacks(j, "proposal_confidence"@),
{
}

/// The status and the confidence in a reply are read by their names.
pub proof fn coding_words_are_read(j: JsonView, r: ReplyView)
    requires
        j is Object,
        reply_of(j) == Some(r),
    ensures
        says(j, "status"@, "idle"@) ==> r.status == Some(ExecThreadStatus::Idle),
        says(j, "status"@, "active"@) ==> r.status == Some(ExecThreadStatus::Active),
        says(j, "status"@, "blocked"@) ==> r.status == Some(ExecThreadStatus::Blocked),
        says(j, "status"@, "completed"@) ==> r.status == Some(ExecThreadStatus::Completed),
        says(j, "status"@, "failed"@) ==> r.status == Some(ExecThreadStatus::Failed),
        says(j, "proposal_confidence"@, "low"@) ==> r.proposal_confidence == Some(
            ExecThreadProposalConfidence::Low,
        ),
        says(j, "proposal_confidence"@, "medium"@) ==> r.proposal_confidence == Some(
            ExecThreadProposalConfidence::Medium,
        ),
        says(j, "proposal_confidence"@, "high"@) ==> r.proposal_confidence == Some(
            ExecThreadProposalConfidence::High,
        ),
{
    reveal_strlit("idle");
    reveal_strlit("active");
    reveal_strlit("blocked");
    reveal_strlit("completed");
    reveal_strlit("failed");
    reveal_strlit("low");
    reveal_strlit("medium");
    reveal_strlit("high");
    assert("idle"@[0] == 'i' && "active"@[0] == 'a' && "blocked"@[0] == 'b' && "completed"@[0]
        == 'c' && "failed"@[0] == 'f');
    assert("low"@[0] == 'l' && "medium"@[0] == 'm' && "high"@[0] == 'h');
}

/// A text of the model that is a reply in JSON is that reply, and so is one that holds it in
/// a code fence. A text that holds no JSON is the summary, and proposes nothing.
pub proof fn coding_text_is_read(text: Seq<char>, j: JsonView)
    ensures
        parsed(text) == Ok::<JsonView, Seq<char>>(j) && reply_of(j) is Some ==> reply_of(j) == Some(
            reply_from(text),
        ),
        parsed(text) is Err && (fenced(text) matches Some(t) && parsed(t) == Ok::<
            JsonView,
            Seq<char>,
        >(j)) && reply_of(j) is Some ==> reply_of(j) == Some(reply_from(text)),
        parsed(text) is Err && fenced(text) is None ==> reply_from(text).summary == text
            && reply_from(text).proposed_action is None && reply_from(text).status is None
            && reply_from(text).completion_reason is None && !reply_from(text).evidence_complete
            && !reply_from(text).should_wake_master,
{
}

/// A new status of a task that was read is the one that the value tells.
pub proof fn status_update_is_as_told(u: TaskStatusUpdate, j: JsonView, s: PlanTaskStatus)
    requires
        j is Object,
        describes_status_update(j),
        is_status_update(u, j),
    ensures
        names_task(j, "task_id"@, u.task_id),
        says(j, "new_status"@, status_word(s)) ==> u.new_status == s,
        may_say(j, "reason"@, opt_text(u.reason)),
{
    status_word_is_read(s);
}

/// The member `key` lists these texts, or is missing and there are none.
pub open spec fn lists(j: JsonView, key: Seq<char>, list: Seq<Seq<char>>) -> bool {
    match j.field(key) {
        None => list.len() == 0,
        Some(JsonView::Array(items)) => items.len() == list.len() && forall|i: int|
            0 <= i < items.len() ==> #[trigger] items[i] == JsonView::Str(list[i]),
        _ => false,
    }
}

/// A reflection that was read says what the value says: all of its observations, concerns
/// and changes, in order.
pub proof fn reflection_is_as_told(p: ReflectProtocol, j: JsonView)
    requires
        j is Object,
        describes_reflection(j),
        is_reflection(p, j),
    ensures
        says(j, "outcome_assessment"@, p.outcome_assessment@),
        lists(j, "observations"@, texts(p.observations@)),
        lists(j, "concerns"@, texts(p.concerns@)),
        p.should_replan == (j.field("should_replan"@) == Some(JsonView::Bool(true))),
        j.field("task_updates"@) is None ==> p.task_updates@.len() == 0,
        j.field("task_updates"@) matches Some(v) ==> (v matches JsonView::Array(items)
            && items.len() == p.task_updates@.len() && forall|i: int|
            0 <= i < items.len() ==> describes_status_update(items[i]) && is_status_update(
                #[trigger] p.task_updates@[i],
                items[i],
            )),
        j.field("working_memory_ops"@) is None ==> p.working_memory_ops@.len() == 0,
        j.field("working_memory_ops"@) matches Some(v) ==> describes_memory_ops(v)
            && are_memory_ops(p.working_memory_ops@, v),
{
}

/// A text of the model that is a reflection in JSON is that reflection. A text that holds
/// no JSON is an observation.
pub proof fn reflection_text_is_read(p: ReflectProtocol, text: Seq<char>, j: JsonView)
    requires
        reflection_from(p, text),
    ensures
        parsed(text) == Ok::<JsonView, Seq<char>>(j) && describes_reflection(j) ==> is_reflection(
            p,
            j,
        ),
        parsed(text) is Err && (fenced(text) matches Some(t) && parsed(t) == Ok::<
            JsonView,
            Seq<char>,
        >(j)) && describes_reflection(j) ==> is_reflection(p, j),
        parsed(text) is Err && fenced(text) is None ==> texts(p.observations@) == seq![text]
            && p.task_updates@.len() == 0 && p.working_memory_ops@.len() == 0 && !p.should_replan,
{
}

/// A decision that was read says what the value says: all of its actions, notes and
/// watches, in order.
pub proof fn decision_is_as_told(d: DecisionResult, j: JsonView)
    requires
        j is Object,
        describes_decision(j),
        is_decision(d, j),
    ensures
        says(j, "reasoning"@, d.reasoning@),
        may_say(j, "reply"@, opt_text(d.reply)),
        lists(j, "memory_notes"@, texts(d.memory_notes@)),
        j.field("actions"@) is None ==> d.actions@.len() == 0,
        j.field("actions"@) matches Some(v) ==> (v matches JsonView::Array(items) && items.len()
            == d.actions@.len() && forall|i: int|
            0 <= i < items.len() ==> describes_action(items[i]) && is_action(
                #[trigger] d.actions@[i],
                items[i],
            )),
        j.field("watch_proposals"@) is None ==> d.watch_proposals@.len() == 0,
        j.field("watch_proposals"@) matches Some(v) ==> (v matches JsonView::Array(items)
            && items.len() == d.watch_proposals@.len() && forall|i: int|
            0 <= i < items.len() ==> describes_watch(items[i]) && is_watch(
                #[trigger] d.watch_proposals@[i],
                items[i],
            )),
{
}

/// The plan update, the changes of the memory and the mode of a decision are those that
/// the value tells. What is missing or null is absent.
pub proof fn decision_changes_are_as_told(d: DecisionResult, j: JsonView)
    requires
        j is Object,
        describes_decision(j),
        is_decision(d, j),
    ensures
        match d.snapshot_delta.plan_update {
            Some(u) => j.field("plan_update"@) matches Some(v) && describes_plan_update(v)
                && is_plan_update(u, v),
            None => lacks(j, "plan_update"@),
        },
        match d.snapshot_delta.working_memory_ops {
            Some(ops) => j.field("working_memory_ops"@) matches Some(v) && describes_memory_ops(v)
                && are_memory_ops(ops@, v),
            None => lacks(j, "working_memory_ops"@),
        },
        says(j, "vessel_mode_request"@, "normal"@) ==> d.vessel_mode_request == Some(
            VesselMode::Normal,
        ),
        says(j, "vessel_mode_request"@, "planning"@) ==> d.vessel_mode_request == Some(
            VesselMode::Planning,
        ),
        says(j, "vessel_mode_request"@, "executing"@) ==> d.vessel_mode_request == Some(
            VesselMode::Executing,
        ),
        d.vessel_mode_request is None <==> lacks(j, "vessel_mode_request"@),
{
    modes_are_read_by_name(j);
}

/// A text of the model that is a decision in JSON is that decision. A text that holds no
/// JSON is the reasoning of a decision that does nothing.
pub proof fn decision_text_is_read(d: DecisionResult, text: Seq<char>, j: JsonView)
    requires
        decision_from(d, text),
    ensures
        parsed(text) == Ok::<JsonView, Seq<char>>(j) && describes_decision(j) ==> is_decision(d, j),
        parsed(text) is Err && (fenced(text) matches Some(t) && parsed(t) == Ok::<
            JsonView,
            Seq<char>,
        >(j)) && describes_decision(j) ==> is_decision(d, j),
        parsed(text) is Err && fenced(text) is None ==> d.reasoning@ == text && d.actions@.len()
            == 0 && d.reply is None && d.snapshot_delta.plan_update is None,
{
}

} // verus!

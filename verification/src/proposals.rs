//! What a language model proposes, read out of JSON: plan updates, changes of the
//! working memory, watches, modes and actions.
//!
//! A form is described twice: by a predicate that tells which values have it, and
//! by a relation that says what a value of that form stands for.

use vstd::prelude::*;

use crate::decode::{
    field_at, is_record, has_record_form, maybe_number_of, maybe_text_of, read_maybe_number,
    read_maybe_text, read_text, read_variant, record_field, text_of, variant_of,
};
use crate::json::{array_view, opt_json, ref_json, views, Json, JsonView};
use crate::memory::{Plan, PlanOp, PlanTask, PlanTaskStatus, PlanUpdate, WorkingMemoryOp};
use crate::text::{opt_text, str_eq};
use crate::types::{
    deserialize_plan_task_id_lenient, id_parsed, read_id, PlanTaskId, PlannedAction, ThreadId, VesselMode,
};
use crate::watches::{WatchProposal, WatchSchedule, WatchType};

verus! {

// ---------------------------------------------------------------------------
// Tasks and plans
// ---------------------------------------------------------------------------

/// The status with a given name.
pub open spec fn task_status_named(name: Seq<char>) -> Option<PlanTaskStatus> {
    if name == "pending"@ {
        Some(PlanTaskStatus::Pending)
    } else if name == "in_progress"@ {
        Some(PlanTaskStatus::InProgress)
    } else if name == "completed"@ {
        Some(PlanTaskStatus::Completed)
    } else if name == "failed"@ {
        Some(PlanTaskStatus::Failed)
    } else if name == "blocked"@ {
        Some(PlanTaskStatus::Blocked)
    } else if name == "skipped"@ {
        Some(PlanTaskStatus::Skipped)
    } else {
        None
    }
}

/// The status that a value names.
pub open spec fn task_status_of(v: Option<JsonView>) -> Option<PlanTaskStatus> {
    match v {
        Some(j) => match variant_of(j) {
            Some(name) => task_status_named(name),
            None => None,
        },
        None => None,
    }
}

/// The task that a value identifies.
pub open spec fn task_id_of(v: Option<JsonView>) -> Option<PlanTaskId> {
    match text_of(v) {
        Some(t) => match id_parsed(t) {
            Some(raw) => Some(PlanTaskId { raw }),
            None => None,
        },
        None => None,
    }
}

/// Every item of the list identifies a task.
pub open spec fn all_task_ids(items: Seq<JsonView>) -> bool {
    forall|i: int| 0 <= i < items.len() ==> task_id_of(Some(#[trigger] items[i])) is Some
}

/// The tasks that another one depends on. None if the value is missing; nothing if
/// it is no list of identifiers.
pub open spec fn dependencies_of(v: Option<JsonView>) -> Option<Seq<PlanTaskId>> {
    match v {
        None => Some(Seq::empty()),
        Some(JsonView::Array(items)) => if all_task_ids(items) {
            Some(Seq::new(items.len(), |i: int| task_id_of(Some(items[i]))->Some_0))
        } else {
            None
        },
        _ => None,
    }
}

/// The status of a task that is described: pending if it is missing.
pub open spec fn status_or_pending(v: Option<JsonView>) -> Option<PlanTaskStatus> {
    match v {
        None => Some(PlanTaskStatus::Pending),
        _ => task_status_of(v),
    }
}

/// The value describes a task.
pub open spec fn describes_task(j: JsonView) -> bool {
    &&& j is Object
    &&& task_id_of(j.field("id"@)) is Some
    &&& text_of(j.field("description"@)) is Some
    &&& status_or_pending(j.field("status"@)) is Some
    &&& dependencies_of(j.field("depends_on"@)) is Some
    &&& maybe_text_of(j.field("tool_hint"@)) is Some
}

/// `t` is the task that the value describes.
pub open spec fn is_task(t: PlanTask, j: JsonView) -> bool {
    &&& Some(t.id) == task_id_of(j.field("id"@))
    &&& Some(t.description@) == text_of(j.field("description"@))
    &&& Some(t.status) == status_or_pending(j.field("status"@))
    &&& Some(t.depends_on@) == dependencies_of(j.field("depends_on"@))
    &&& Some(opt_text(t.tool_hint)) == maybe_text_of(j.field("tool_hint"@))
}

/// The items of a list. None if the value is missing; nothing if it is no list.
pub open spec fn items_or_none(v: Option<JsonView>) -> Option<Seq<JsonView>> {
    match v {
        None => Some(Seq::empty()),
        Some(j) => j.items(),
    }
}

/// The value describes a plan.
pub open spec fn describes_plan(j: JsonView) -> bool {
    &&& j is Object
    &&& text_of(j.field("objective"@)) is Some
    &&& maybe_text_of(j.field("updated_at"@)) is Some
    &&& match items_or_none(j.field("tasks"@)) {
        Some(items) => all_tasks(items),
        None => false,
    }
}

/// Every item of the list describes a task.
pub open spec fn all_tasks(items: Seq<JsonView>) -> bool {
    forall|i: int| 0 <= i < items.len() ==> describes_task(#[trigger] items[i])
}

/// `p` is the plan that the value describes.
pub open spec fn is_plan(p: Plan, j: JsonView) -> bool {
    &&& Some(p.objective@) == text_of(j.field("objective"@))
    &&& Some(opt_text(p.updated_at)) == maybe_text_of(j.field("updated_at"@))
    &&& match items_or_none(j.field("tasks"@)) {
        Some(items) => are_tasks(p.tasks@, items),
        None => false,
    }
}

/// `tasks` are the tasks that the items describe.
pub open spec fn are_tasks(tasks: Seq<PlanTask>, items: Seq<JsonView>) -> bool {
    tasks.len() == items.len() && forall|i: int|
        0 <= i < items.len() ==> is_task(#[trigger] tasks[i], items[i])
}

/// The value describes a change of a plan. Its kind stands in the field `op`.
pub open spec fn describes_plan_op(j: JsonView) -> bool {
    let op = j.field_text("op"@);
    &&& j is Object
    &&& if op == Some("add_task"@) {
        j.field("task"@) matches Some(t) && describes_task(t)
    } else if op == Some("update_status"@) {
        task_id_of(j.field("task_id"@)) is Some && task_status_of(j.field("new_status"@)) is Some
    } else if op == Some("remove_task"@) {
        task_id_of(j.field("task_id"@)) is Some
    } else if op == Some("update_objective"@) {
        text_of(j.field("objective"@)) is Some
    } else {
        false
    }
}

/// `o` is the change of a plan that the value describes.
pub open spec fn is_plan_op(o: PlanOp, j: JsonView) -> bool {
    let op = j.field_text("op"@);
    match o {
        PlanOp::AddTask { task } => op == Some("add_task"@) && is_task(
            task,
            j.field("task"@)->Some_0,
        ),
        PlanOp::UpdateStatus { task_id, new_status } => op == Some("update_status"@) && Some(
            task_id,
        ) == task_id_of(j.field("task_id"@)) && Some(new_status) == task_status_of(
            j.field("new_status"@),
        ),
        PlanOp::RemoveTask { task_id } => op == Some("remove_task"@) && Some(task_id)
            == task_id_of(j.field("task_id"@)),
        PlanOp::UpdateObjective { objective } => op == Some("update_objective"@) && Some(
            objective@,
        ) == text_of(j.field("objective"@)),
    }
}

/// The value describes an update of the plan. Its kind stands in the field `type`.
pub open spec fn describes_plan_update(j: JsonView) -> bool {
    let kind = j.field_text("type"@);
    &&& j is Object
    &&& if kind == Some("replace"@) {
        j.field("plan"@) matches Some(p) && describes_plan(p)
    } else if kind == Some("patch"@) {
        match j.field("operations"@) {
            Some(JsonView::Array(items)) => all_plan_ops(items),
            _ => false,
        }
    } else {
        false
    }
}

/// Every item of the list describes a change of a plan.
pub open spec fn all_plan_ops(items: Seq<JsonView>) -> bool {
    forall|i: int| 0 <= i < items.len() ==> describes_plan_op(#[trigger] items[i])
}

/// `u` is the update of the plan that the value describes.
pub open spec fn is_plan_update(u: PlanUpdate, j: JsonView) -> bool {
    let kind = j.field_text("type"@);
    match u {
        PlanUpdate::Replace { plan } => kind == Some("replace"@) && is_plan(
            plan,
            j.field("plan"@)->Some_0,
        ),
        PlanUpdate::Patch { operations } => kind == Some("patch"@) && match j.field(
            "operations"@,
        ) {
            Some(JsonView::Array(items)) => are_plan_ops(operations@, items),
            _ => false,
        },
    }
}

/// `ops` are the changes of a plan that the items describe.
pub open spec fn are_plan_ops(ops: Seq<PlanOp>, items: Seq<JsonView>) -> bool {
    ops.len() == items.len() && forall|i: int|
        0 <= i < items.len() ==> is_plan_op(#[trigger] ops[i], items[i])
}

/// Reads the status of a task.
pub fn read_task_status(v: Option<&Json>) -> (r: Option<PlanTaskStatus>)
    ensures
        r == task_status_of(ref_json(v)),
{
    let j = match v {
        Some(j) => j,
        None => {
            return None;
        },
    };
    let name = match read_variant(j) {
        Some(name) => name,
        None => {
            return None;
        },
    };
    let name = name.as_str();
    if str_eq(name, "pending") {
        Some(PlanTaskStatus::Pending)
    } else if str_eq(name, "in_progress") {
        Some(PlanTaskStatus::InProgress)
    } else if str_eq(name, "completed") {
        Some(PlanTaskStatus::Completed)
    } else if str_eq(name, "failed") {
        Some(PlanTaskStatus::Failed)
    } else if str_eq(name, "blocked") {
        Some(PlanTaskStatus::Blocked)
    } else if str_eq(name, "skipped") {
        Some(PlanTaskStatus::Skipped)
    } else {
        None
    }
}

/// Reads the identifier of a task.
pub fn read_task_id(v: Option<&Json>) -> (r: Option<PlanTaskId>)
    ensures
        r == task_id_of(ref_json(v)),
{
    match read_text(v) {
        Some(t) => match read_id(t.as_str()) {
            Some(raw) => Some(PlanTaskId { raw }),
            None => None,
        },
        None => None,
    }
}

fn read_dependencies(v: Option<&Json>) -> (r: Option<Vec<PlanTaskId>>)
    ensures
        match r {
            Some(ids) => dependencies_of(ref_json(v)) == Some(ids@),
            None => dependencies_of(ref_json(v)) is None,
        },
{
    broadcast use array_view;

    let mut out: Vec<PlanTaskId> = Vec::new();
    match v {
        None => {
            assert(out@ =~= Seq::<PlanTaskId>::empty());
            Some(out)
        },
        Some(Json::Array(items)) => {
            let ghost all = views(items@);
            assert(ref_json(v) == Some(JsonView::Array(all)));
            let mut i: usize = 0;
            while i < items.len()
                invariant
                    all == views(items@),
                    ref_json(v) == Some(JsonView::Array(all)),
                    i <= items@.len(),
                    out@.len() == i,
                    forall|k: int|
                        0 <= k < i ==> Some(#[trigger] out@[k]) == task_id_of(Some(all[k])),
                decreases items@.len() - i,
            {
                assert(all[i as int] == items@[i as int]@);
                match read_task_id(Some(&items[i])) {
                    Some(id) => {
                        out.push(id);
                    },
                    None => {
                        assert(task_id_of(Some(all[i as int])) is None);
                        return None;
                    },
                }
                i = i + 1;
            }
            assert forall|k: int| 0 <= k < all.len() implies task_id_of(
                Some(#[trigger] all[k]),
            ) is Some by {
                assert(Some(out@[k]) == task_id_of(Some(all[k])));
            }
            assert(out@ =~= Seq::new(all.len(), |k: int| task_id_of(Some(all[k]))->Some_0));
            Some(out)
        },
        _ => None,
    }
}

fn is_object(j: &Json) -> (r: bool)
    ensures
        r == (j@ is Object),
{
    match j {
        Json::Object(_) => true,
        _ => false,
    }
}

/// Reads a task.
pub fn read_task(j: &Json) -> (r: Option<PlanTask>)
    ensures
        match r {
            Some(t) => describes_task(j@) && is_task(t, j@),
            None => !describes_task(j@),
        },
{
    if !is_object(j) {
        return None;
    }
    let status_field = j.get("status");
    let status = if status_field.is_none() {
        Some(PlanTaskStatus::Pending)
    } else {
        read_task_status(status_field)
    };
    let id = read_task_id(j.get("id"));
    let description = read_text(j.get("description"));
    let depends_on = read_dependencies(j.get("depends_on"));
    let tool_hint = read_maybe_text(j.get("tool_hint"));
    match (id, description, status, depends_on, tool_hint) {
        (Some(id), Some(description), Some(status), Some(depends_on), Some(tool_hint)) => Some(
            PlanTask { id, description, status, depends_on, tool_hint },
        ),
        _ => None,
    }
}

/// Reads a plan.
pub fn read_plan(j: &Json) -> (r: Option<Plan>)
    ensures
        match r {
            Some(p) => describes_plan(j@) && is_plan(p, j@),
            None => !describes_plan(j@),
        },
{
    if !is_object(j) {
        return None;
    }
    let objective = match read_text(j.get("objective")) {
        Some(t) => t,
        None => {
            return None;
        },
    };
    let updated_at = match read_maybe_text(j.get("updated_at")) {
        Some(t) => t,
        None => {
            return None;
        },
    };
    let mut tasks: Vec<PlanTask> = Vec::new();
    match j.get("tasks") {
        None => {},
        Some(list) => match list.as_array() {
            None => {
                return None;
            },
            Some(items) => {
                let ghost all = views(items@);
                let mut i: usize = 0;
                while i < items.len()
                    invariant
                        all == views(items@),
                        items_or_none(j@.field("tasks"@)) == Some(all),
                        i <= items@.len(),
                        tasks@.len() == i,
                        forall|k: int| 0 <= k < i ==> describes_task(#[trigger] all[k]),
                        forall|k: int| 0 <= k < i ==> is_task(#[trigger] tasks@[k], all[k]),
                    decreases items@.len() - i,
                {
                    assert(all[i as int] == items@[i as int]@);
                    match read_task(&items[i]) {
                        Some(t) => {
                            tasks.push(t);
                        },
                        None => {
                            assert(i < all.len() && !describes_task(all[i as int]));
                            return None;
                        },
                    }
                    i = i + 1;
                }
            },
        },
    }
    Some(Plan { objective, tasks, updated_at })
}

/// Reads a change of a plan.
pub fn read_plan_op(j: &Json) -> (r: Option<PlanOp>)
    ensures
        match r {
            Some(o) => describes_plan_op(j@) && is_plan_op(o, j@),
            None => !describes_plan_op(j@),
        },
{
    if !is_object(j) {
        return None;
    }
    let op = match j.get_str("op") {
        Some(t) => t.as_str(),
        None => {
            return None;
        },
    };
    if str_eq(op, "add_task") {
        match j.get("task") {
            Some(t) => match read_task(t) {
                Some(task) => Some(PlanOp::AddTask { task }),
                None => None,
            },
            None => None,
        }
    } else if str_eq(op, "update_status") {
        match (read_task_id(j.get("task_id")), read_task_status(j.get("new_status"))) {
            (Some(task_id), Some(new_status)) => Some(
                PlanOp::UpdateStatus { task_id, new_status },
            ),
            _ => None,
        }
    } else if str_eq(op, "remove_task") {
        match read_task_id(j.get("task_id")) {
            Some(task_id) => Some(PlanOp::RemoveTask { task_id }),
            None => None,
        }
    } else if str_eq(op, "update_objective") {
        match read_text(j.get("objective")) {
            Some(objective) => Some(PlanOp::UpdateObjective { objective }),
            None => None,
        }
    } else {
        None
    }
}

/// Reads an update of the plan.
pub fn read_plan_update(j: &Json) -> (r: Option<PlanUpdate>)
    ensures
        match r {
            Some(u) => describes_plan_update(j@) && is_plan_update(u, j@),
            None => !describes_plan_update(j@),
        },
{
    if !is_object(j) {
        return None;
    }
    let kind = match j.get_str("type") {
        Some(t) => t.as_str(),
        None => {
            return None;
        },
    };
    proof {
        reveal_strlit("replace");
        reveal_strlit("patch");
        assert("replace"@.len() != "patch"@.len());
    }
    if str_eq(kind, "replace") {
        match j.get("plan") {
            Some(p) => match read_plan(p) {
                Some(plan) => Some(PlanUpdate::Replace { plan }),
                None => None,
            },
            None => None,
        }
    } else if str_eq(kind, "patch") {
        let items = match j.get("operations") {
            Some(list) => match list.as_array() {
                Some(items) => items,
                None => {
                    return None;
                },
            },
            None => {
                return None;
            },
        };
        let ghost all = views(items@);
        let mut operations: Vec<PlanOp> = Vec::new();
        let mut i: usize = 0;
        while i < items.len()
            invariant
                all == views(items@),
                j@ is Object,
                j@.field_text("type"@) == Some("patch"@),
                "replace"@.len() != "patch"@.len(),
                j@.field("operations"@) == Some(JsonView::Array(all)),
                i <= items@.len(),
                operations@.len() == i,
                forall|k: int| 0 <= k < i ==> describes_plan_op(#[trigger] all[k]),
                forall|k: int| 0 <= k < i ==> is_plan_op(#[trigger] operations@[k], all[k]),
            decreases items@.len() - i,
        {
            assert(all[i as int] == items@[i as int]@);
            match read_plan_op(&items[i]) {
                Some(o) => {
                    operations.push(o);
                },
                None => {
                    assert(i < all.len() && !describes_plan_op(all[i as int]));
                    return None;
                },
            }
            i = i + 1;
        }
        Some(PlanUpdate::Patch { operations })
    } else {
        None
    }
}

// ---------------------------------------------------------------------------
// Working memory
// ---------------------------------------------------------------------------

/// The value describes a change of the working memory. Its kind stands in the field
/// `op`.
pub open spec fn describes_memory_op(j: JsonView) -> bool {
    let op = j.field_text("op"@);
    &&& j is Object
    &&& text_of(j.field("key"@)) is Some
    &&& if op == Some("set"@) {
        text_of(j.field("value"@)) is Some && maybe_number_of(j.field("ttl_ticks"@)) is Some
    } else {
        op == Some("remove"@)
    }
}

/// `o` is the change of the working memory that the value describes.
pub open spec fn is_memory_op(o: WorkingMemoryOp, j: JsonView) -> bool {
    let op = j.field_text("op"@);
    match o {
        WorkingMemoryOp::Put { key, value, ttl_ticks } => op == Some("set"@) && Some(key@)
            == text_of(j.field("key"@)) && Some(value@) == text_of(j.field("value"@)) && Some(
            ttl_ticks,
        ) == maybe_number_of(j.field("ttl_ticks"@)),
        WorkingMemoryOp::Remove { key } => op == Some("remove"@) && Some(key@) == text_of(
            j.field("key"@),
        ),
    }
}

/// The value is a list of changes of the working memory.
pub open spec fn describes_memory_ops(j: JsonView) -> bool {
    match j {
        JsonView::Array(items) => all_memory_ops(items),
        _ => false,
    }
}

/// Every item of the list describes a change of the working memory.
pub open spec fn all_memory_ops(items: Seq<JsonView>) -> bool {
    forall|i: int| 0 <= i < items.len() ==> describes_memory_op(#[trigger] items[i])
}

/// `ops` are the changes of the working memory that the value lists.
pub open spec fn are_memory_ops(ops: Seq<WorkingMemoryOp>, j: JsonView) -> bool {
    match j {
        JsonView::Array(items) => ops.len() == items.len() && forall|i: int|
            0 <= i < items.len() ==> is_memory_op(#[trigger] ops[i], items[i]),
        _ => false,
    }
}

/// Reads a change of the working memory.
pub fn read_memory_op(j: &Json) -> (r: Option<WorkingMemoryOp>)
    ensures
        match r {
            Some(o) => describes_memory_op(j@) && is_memory_op(o, j@),
            None => !describes_memory_op(j@),
        },
{
    if !is_object(j) {
        return None;
    }
    let key = match read_text(j.get("key")) {
        Some(t) => t,
        None => {
            return None;
        },
    };
    let op = match j.get_str("op") {
        Some(t) => t.as_str(),
        None => {
            return None;
        },
    };
    proof {
        reveal_strlit("set");
        reveal_strlit("remove");
        assert("set"@.len() != "remove"@.len());
    }
    if str_eq(op, "set") {
        match (read_text(j.get("value")), read_maybe_number(j.get("ttl_ticks"))) {
            (Some(value), Some(ttl_ticks)) => Some(WorkingMemoryOp::Put { key, value, ttl_ticks }),
            _ => None,
        }
    } else if str_eq(op, "remove") {
        Some(WorkingMemoryOp::Remove { key })
    } else {
        None
    }
}

/// Reads a list of changes of the working memory.
pub fn read_memory_ops(j: &Json) -> (r: Option<Vec<WorkingMemoryOp>>)
    ensures
        match r {
            Some(ops) => describes_memory_ops(j@) && are_memory_ops(ops@, j@),
            None => !describes_memory_ops(j@),
        },
{
    let items = match j.as_array() {
        Some(items) => items,
        None => {
            return None;
        },
    };
    let ghost all = views(items@);
    let mut ops: Vec<WorkingMemoryOp> = Vec::new();
    let mut i: usize = 0;
    while i < items.len()
        invariant
            all == views(items@),
            j@.items() == Some(all),
            i <= items@.len(),
            ops@.len() == i,
            forall|k: int| 0 <= k < i ==> describes_memory_op(#[trigger] all[k]),
            forall|k: int| 0 <= k < i ==> is_memory_op(#[trigger] ops@[k], all[k]),
        decreases items@.len() - i,
    {
        assert(all[i as int] == items@[i as int]@);
        match read_memory_op(&items[i]) {
            Some(o) => {
                ops.push(o);
            },
            None => {
                assert(i < all.len() && !describes_memory_op(all[i as int]));
                return None;
            },
        }
        i = i + 1;
    }
    Some(ops)
}

// ---------------------------------------------------------------------------
// Watches
// ---------------------------------------------------------------------------

/// An optional value that is absent if it is missing or null.
pub open spec fn present(v: Option<JsonView>) -> Option<JsonView> {
    match v {
        Some(JsonView::Null) => None,
        other => other,
    }
}

/// The value describes what a watch observes. Its kind stands in the field `type`.
pub open spec fn describes_watch_type(j: JsonView) -> bool {
    let kind = j.field_text("type"@);
    &&& j is Object
    &&& if kind == Some("threshold"@) {
        j.field("metric"@) is Some && j.field("condition"@) is Some
    } else if kind == Some("poll"@) {
        text_of(j.field("connector"@)) is Some && j.field("params"@) is Some && maybe_text_of(
            j.field("extract"@),
        ) is Some
    } else {
        false
    }
}

/// `w` is what the watch observes that the value describes.
pub open spec fn is_watch_type(w: WatchType, j: JsonView) -> bool {
    let kind = j.field_text("type"@);
    match w {
        WatchType::Threshold { metric, condition } => kind == Some("threshold"@) && Some(metric@)
            == j.field("metric"@) && Some(condition@) == j.field("condition"@),
        WatchType::Poll { connector, params, extract, condition } => kind == Some("poll"@) && Some(
            connector@,
        ) == text_of(j.field("connector"@)) && Some(params@) == j.field("params"@) && Some(
            opt_text(extract),
        ) == maybe_text_of(j.field("extract"@)) && opt_json(condition) == present(
            j.field("condition"@),
        ),
    }
}

/// The schedule that a value describes. Its kind stands in the field `type`.
pub open spec fn schedule_of(j: JsonView) -> Option<WatchSchedule> {
    let kind = j.field_text("type"@);
    if kind == Some("every_n_ticks"@) {
        match j.field_unsigned("n"@) {
            Some(n) => Some(WatchSchedule::EveryNTicks { n }),
            None => None,
        }
    } else if kind == Some("once"@) {
        Some(WatchSchedule::Once)
    } else {
        None
    }
}

/// The value describes a watch.
pub open spec fn describes_watch(j: JsonView) -> bool {
    &&& is_record(j, 4)
    &&& text_of(field_at(j, "name"@, 0)) is Some
    &&& text_of(field_at(j, "description"@, 1)) is Some
    &&& field_at(j, "watch_type"@, 2) matches Some(w) && describes_watch_type(w)
    &&& field_at(j, "schedule"@, 3) matches Some(s) && schedule_of(s) is Some
}

/// `p` is the watch that the value describes.
pub open spec fn is_watch(p: WatchProposal, j: JsonView) -> bool {
    &&& Some(p.name@) == text_of(field_at(j, "name"@, 0))
    &&& Some(p.description@) == text_of(field_at(j, "description"@, 1))
    &&& is_watch_type(p.watch_type, field_at(j, "watch_type"@, 2)->Some_0)
    &&& Some(p.schedule) == schedule_of(field_at(j, "schedule"@, 3)->Some_0)
}

fn read_watch_type(j: &Json) -> (r: Option<WatchType>)
    ensures
        match r {
            Some(w) => describes_watch_type(j@) && is_watch_type(w, j@),
            None => !describes_watch_type(j@),
        },
{
    if !is_object(j) {
        return None;
    }
    let kind = match j.get_str("type") {
        Some(t) => t.as_str(),
        None => {
            return None;
        },
    };
    proof {
        reveal_strlit("threshold");
        reveal_strlit("poll");
        assert("threshold"@.len() != "poll"@.len());
    }
    if str_eq(kind, "threshold") {
        match (j.get("metric"), j.get("condition")) {
            (Some(metric), Some(condition)) => Some(
                WatchType::Threshold { metric: metric.clone(), condition: condition.clone() },
            ),
            _ => None,
        }
    } else if str_eq(kind, "poll") {
        let condition = match j.get("condition") {
            None => None,
            Some(Json::Null) => None,
            Some(c) => Some(c.clone()),
        };
        match (read_text(j.get("connector")), j.get("params"), read_maybe_text(j.get("extract"))) {
            (Some(connector), Some(params), Some(extract)) => Some(
                WatchType::Poll { connector, params: params.clone(), extract, condition },
            ),
            _ => None,
        }
    } else {
        None
    }
}

fn read_schedule(j: &Json) -> (r: Option<WatchSchedule>)
    ensures
        r == schedule_of(j@),
{
    let kind = match j.get_str("type") {
        Some(t) => t.as_str(),
        None => {
            return None;
        },
    };
    if str_eq(kind, "every_n_ticks") {
        match j.get_u64("n") {
            Some(n) => Some(WatchSchedule::EveryNTicks { n }),
            None => None,
        }
    } else if str_eq(kind, "once") {
        Some(WatchSchedule::Once)
    } else {
        None
    }
}

/// Reads a watch.
pub fn read_watch(j: &Json) -> (r: Option<WatchProposal>)
    ensures
        match r {
            Some(p) => describes_watch(j@) && is_watch(p, j@),
            None => !describes_watch(j@),
        },
{
    if !has_record_form(j, 4) {
        return None;
    }
    let name = read_text(record_field(j, "name", 0));
    let description = read_text(record_field(j, "description", 1));
    let watch_type = match record_field(j, "watch_type", 2) {
        Some(w) => read_watch_type(w),
        None => None,
    };
    let schedule = match record_field(j, "schedule", 3) {
        Some(s) => read_schedule(s),
        None => None,
    };
    match (name, description, watch_type, schedule) {
        (Some(name), Some(description), Some(watch_type), Some(schedule)) => Some(
            WatchProposal { name, description, watch_type, schedule },
        ),
        _ => None,
    }
}

// ---------------------------------------------------------------------------
// Modes
// ---------------------------------------------------------------------------

/// The mode that a value names.
pub open spec fn mode_of(j: JsonView) -> Option<VesselMode> {
    match variant_of(j) {
        Some(name) => if name == "normal"@ {
            Some(VesselMode::Normal)
        } else if name == "planning"@ {
            Some(VesselMode::Planning)
        } else if name == "executing"@ {
            Some(VesselMode::Executing)
        } else {
            None
        },
        None => None,
    }
}

/// Reads a mode.
pub fn read_mode(j: &Json) -> (r: Option<VesselMode>)
    ensures
        r == mode_of(j@),
{
    let name = match read_variant(j) {
        Some(name) => name,
        None => {
            return None;
        },
    };
    let name = name.as_str();
    if str_eq(name, "normal") {
        Some(VesselMode::Normal)
    } else if str_eq(name, "planning") {
        Some(VesselMode::Planning)
    } else if str_eq(name, "executing") {
        Some(VesselMode::Executing)
    } else {
        None
    }
}

// ---------------------------------------------------------------------------
// Actions
// ---------------------------------------------------------------------------

/// The plan task that a text names. A text that is no identifier names none.
pub open spec fn lenient_task(text: Option<Seq<char>>) -> Option<PlanTaskId> {
    match text {
        Some(t) => if t.len() == 0 {
            None
        } else {
            match id_parsed(t) {
                Some(raw) => Some(PlanTaskId { raw }),
                None => None,
            }
        },
        None => None,
    }
}

/// An optional thread, absent if the value is missing or null. Nothing if the value
/// identifies no thread.
pub open spec fn maybe_thread_of(v: Option<JsonView>) -> Option<Option<ThreadId>> {
    match v {
        None => Some(None),
        Some(JsonView::Null) => Some(None),
        Some(JsonView::Str(t)) => match id_parsed(t) {
            Some(raw) => Some(Some(ThreadId { raw })),
            None => None,
        },
        _ => None,
    }
}

/// The value describes an action.
pub open spec fn describes_action(j: JsonView) -> bool {
    &&& is_record(j, 7)
    &&& text_of(field_at(j, "call_id"@, 0)) is Some
    &&& text_of(field_at(j, "tool_name"@, 1)) is Some
    &&& field_at(j, "params"@, 2) is Some
    &&& text_of(field_at(j, "rationale"@, 3)) is Some
    &&& maybe_text_of(field_at(j, "plan_task_id"@, 4)) is Some
    &&& maybe_thread_of(field_at(j, "origin_exec_thread_id"@, 5)) is Some
    &&& maybe_text_of(field_at(j, "proposal_id"@, 6)) is Some
}

/// `a` is the action that the value describes.
pub open spec fn is_action(a: PlannedAction, j: JsonView) -> bool {
    &&& Some(a.call_id@) == text_of(field_at(j, "call_id"@, 0))
    &&& Some(a.tool_name@) == text_of(field_at(j, "tool_name"@, 1))
    &&& Some(a.params@) == field_at(j, "params"@, 2)
    &&& Some(a.rationale@) == text_of(field_at(j, "rationale"@, 3))
    &&& a.plan_task_id == lenient_task(maybe_text_of(field_at(j, "plan_task_id"@, 4))->Some_0)
    &&& Some(a.origin_exec_thread_id) == maybe_thread_of(
        field_at(j, "origin_exec_thread_id"@, 5),
    )
    &&& Some(opt_text(a.proposal_id)) == maybe_text_of(field_at(j, "proposal_id"@, 6))
}

fn read_thread(v: Option<&Json>) -> (r: Option<Option<ThreadId>>)
    ensures
        r == maybe_thread_of(ref_json(v)),
{
    match v {
        None => Some(None),
        Some(Json::Null) => Some(None),
        Some(Json::Str(t)) => match read_id(t.as_str()) {
            Some(raw) => Some(Some(ThreadId { raw })),
            None => None,
        },
        _ => None,
    }
}

/// Reads an action. A plan task that is no identifier is dropped.
pub fn read_action(j: &Json) -> (r: Option<PlannedAction>)
    ensures
        match r {
            Some(a) => describes_action(j@) && is_action(a, j@),
            None => !describes_action(j@),
        },
{
    if !has_record_form(j, 7) {
        return None;
    }
    let call_id = read_text(record_field(j, "call_id", 0));
    let tool_name = read_text(record_field(j, "tool_name", 1));
    let params = record_field(j, "params", 2);
    let rationale = read_text(record_field(j, "rationale", 3));
    let task = read_maybe_text(record_field(j, "plan_task_id", 4));
    let origin = read_thread(record_field(j, "origin_exec_thread_id", 5));
    let proposal = read_maybe_text(record_field(j, "proposal_id", 6));
    match (call_id, tool_name, params, rationale) {
        (Some(call_id), Some(tool_name), Some(params), Some(rationale)) => match (
            task,
            origin,
            proposal,
        ) {
            (Some(task), Some(origin_exec_thread_id), Some(proposal_id)) => Some(
                PlannedAction {
                    call_id,
                    tool_name,
                    params: params.clone(),
                    rationale,
                    plan_task_id: deserialize_plan_task_id_lenient(&task),
                    origin_exec_thread_id,
                    proposal_id,
                },
            ),
            _ => None,
        },
        _ => None,
    }
}

} // verus!

//! Decisions as JSON values, in the form in which they are stored.
//!
//! What a decision proposes is written in the form in which it is read.

use vstd::prelude::*;
use vstd::string::*;

use crate::chat::{opt_str_json, opt_string};
use crate::encode::{
    action_parts, field_is_found, memory_op_parts, names_differ, part_views, record, status_name,
    status_names_differ, status_str, write_action, write_memory_ops, write_record,
};
use crate::inner_loop::{
    all_actions, all_watches, are_actions, are_watches, describes_decision, is_decision, texts_of,
};
use crate::json::{member, member_views, opt_json, string_array, views, Json, JsonView};
use crate::memory::{Plan, PlanOp, PlanTask, PlanUpdate, WorkingMemoryOp};
use crate::proposals::{
    all_plan_ops, all_tasks, are_plan_ops, are_tasks, dependencies_of, describes_action,
    describes_plan, describes_plan_op, describes_plan_update, describes_task, describes_watch,
    describes_watch_type, is_action, is_plan, is_plan_op, is_plan_update, is_task, is_watch,
    is_watch_type, mode_of, schedule_of, task_id_of,
};
use crate::text::{opt_text, texts};
use crate::types::{
    id_parsed, id_text, write_id, DecisionResult, PlanTaskId, PlannedAction, VesselMode,
};
use crate::watches::{WatchProposal, WatchSchedule, WatchType};

verus! {

// ---------------------------------------------------------------------------
// Plan updates
// ---------------------------------------------------------------------------

/// The texts of identifiers.
pub open spec fn id_list(ids: Seq<PlanTaskId>) -> JsonView {
    JsonView::Array(Seq::new(ids.len(), |i: int| JsonView::Str(id_text(ids[i].raw))))
}

/// The fields of a task.
pub open spec fn task_parts(t: PlanTask) -> Seq<(Seq<char>, Option<JsonView>)> {
    seq![
        ("id"@, Some(JsonView::Str(id_text(t.id.raw)))),
        ("description"@, Some(JsonView::Str(t.description@))),
        ("status"@, Some(JsonView::Str(status_name(t.status)))),
        ("depends_on"@, Some(id_list(t.depends_on@))),
        ("tool_hint"@, opt_string(opt_text(t.tool_hint))),
    ]
}

/// The tasks as JSON.
pub open spec fn task_list(tasks: Seq<PlanTask>) -> JsonView {
    JsonView::Array(Seq::new(tasks.len(), |i: int| JsonView::Object(record(task_parts(tasks[i])))))
}

/// The fields of a plan.
pub open spec fn plan_parts(p: Plan) -> Seq<(Seq<char>, Option<JsonView>)> {
    seq![
        ("objective"@, Some(JsonView::Str(p.objective@))),
        ("tasks"@, Some(task_list(p.tasks@))),
        ("updated_at"@, opt_string(opt_text(p.updated_at))),
    ]
}

/// The fields of a change of a plan.
pub open spec fn plan_op_parts(o: PlanOp) -> Seq<(Seq<char>, Option<JsonView>)> {
    match o {
        PlanOp::AddTask { task } => seq![
            ("op"@, Some(JsonView::Str("add_task"@))),
            ("task"@, Some(JsonView::Object(record(task_parts(task))))),
        ],
        PlanOp::UpdateStatus { task_id, new_status } => seq![
            ("op"@, Some(JsonView::Str("update_status"@))),
            ("task_id"@, Some(JsonView::Str(id_text(task_id.raw)))),
            ("new_status"@, Some(JsonView::Str(status_name(new_status)))),
        ],
        PlanOp::RemoveTask { task_id } => seq![
            ("op"@, Some(JsonView::Str("remove_task"@))),
            ("task_id"@, Some(JsonView::Str(id_text(task_id.raw)))),
        ],
        PlanOp::UpdateObjective { objective } => seq![
            ("op"@, Some(JsonView::Str("update_objective"@))),
            ("objective"@, Some(JsonView::Str(objective@))),
        ],
    }
}

/// The changes of a plan as JSON.
pub open spec fn plan_op_list(ops: Seq<PlanOp>) -> JsonView {
    JsonView::Array(Seq::new(ops.len(), |i: int| JsonView::Object(record(plan_op_parts(ops[i])))))
}

/// The fields of an update of the plan.
pub open spec fn plan_update_parts(u: PlanUpdate) -> Seq<(Seq<char>, Option<JsonView>)> {
    match u {
        PlanUpdate::Replace { plan } => seq![
            ("type"@, Some(JsonView::Str("replace"@))),
            ("plan"@, Some(JsonView::Object(record(plan_parts(plan))))),
        ],
        PlanUpdate::Patch { operations } => seq![
            ("type"@, Some(JsonView::Str("patch"@))),
            ("operations"@, Some(plan_op_list(operations@))),
        ],
    }
}

fn write_ids(ids: &Vec<PlanTaskId>) -> (j: Json)
    ensures
        j@ == id_list(ids@),
        dependencies_of(Some(j@)) == Some(ids@),
{
    let mut out: Vec<Json> = Vec::new();
    let mut i: usize = 0;
    while i < ids.len()
        invariant
            i <= ids@.len(),
            out@.len() == i,
            forall|k: int|
                0 <= k < i ==> (#[trigger] out@[k])@ == JsonView::Str(id_text(ids@[k].raw))
                    && id_parsed(id_text(ids@[k].raw)) == Some(ids@[k].raw),
        decreases ids@.len() - i,
    {
        out.push(Json::Str(write_id(ids[i].raw)));
        i = i + 1;
    }
    let ghost items = views(out@);
    assert(items =~= id_list(ids@)->Array_0);
    assert forall|k: int| 0 <= k < items.len() implies task_id_of(Some(#[trigger] items[k]))
        == Some(ids@[k]) by {
        assert(items[k] == out@[k]@);
    }
    assert(Seq::new(items.len(), |k: int| task_id_of(Some(items[k]))->Some_0) =~= ids@);
    Json::array(out)
}

/// Writes a task. What is read from it is the task again.
pub fn write_task(t: &PlanTask) -> (j: Json)
    ensures
        j@ == JsonView::Object(record(task_parts(*t))),
        describes_task(j@),
        is_task(*t, j@),
{
    let parts: Vec<(&'static str, Option<Json>)> = vec![
        ("id", Some(Json::Str(write_id(t.id.raw)))),
        ("description", Some(Json::str(t.description.as_str()))),
        ("status", Some(Json::str(status_str(t.status)))),
        ("depends_on", Some(write_ids(&t.depends_on))),
        ("tool_hint", opt_str_json(&t.tool_hint)),
    ];
    let ghost all = task_parts(*t);
    assert(part_views(parts@) =~= all);
    let j = write_record(parts);
    proof {
        reveal_strlit("id");
        reveal_strlit("description");
        reveal_strlit("status");
        reveal_strlit("depends_on");
        reveal_strlit("tool_hint");
        assert("id"@.len() == 2);
        assert("description"@.len() == 11);
        assert("status"@.len() == 6);
        assert("depends_on"@.len() == 10);
        assert("tool_hint"@.len() == 9);
        assert(names_differ(all));
        field_is_found(all, 0);
        field_is_found(all, 1);
        field_is_found(all, 2);
        field_is_found(all, 3);
        field_is_found(all, 4);
        status_names_differ(t.status);
    }
    j
}

fn write_tasks(tasks: &Vec<PlanTask>) -> (j: Json)
    ensures
        j@ == task_list(tasks@),
        all_tasks(j@->Array_0),
        are_tasks(tasks@, j@->Array_0),
{
    let mut out: Vec<Json> = Vec::new();
    let mut i: usize = 0;
    while i < tasks.len()
        invariant
            i <= tasks@.len(),
            out@.len() == i,
            forall|k: int|
                0 <= k < i ==> (#[trigger] out@[k])@ == JsonView::Object(
                    record(task_parts(tasks@[k])),
                ) && describes_task(out@[k]@) && is_task(tasks@[k], out@[k]@),
        decreases tasks@.len() - i,
    {
        out.push(write_task(&tasks[i]));
        i = i + 1;
    }
    let ghost items = views(out@);
    assert(items =~= task_list(tasks@)->Array_0);
    assert forall|k: int| 0 <= k < items.len() implies describes_task(#[trigger] items[k]) by {
        assert(items[k] == out@[k]@);
    }
    assert forall|k: int| 0 <= k < items.len() implies is_task(#[trigger] tasks@[k], items[k]) by {
        assert(items[k] == out@[k]@);
    }
    Json::array(out)
}

/// Writes a plan. What is read from it is the plan again.
pub fn write_plan(p: &Plan) -> (j: Json)
    ensures
        j@ == JsonView::Object(record(plan_parts(*p))),
        describes_plan(j@),
        is_plan(*p, j@),
{
    let parts: Vec<(&'static str, Option<Json>)> = vec![
        ("objective", Some(Json::str(p.objective.as_str()))),
        ("tasks", Some(write_tasks(&p.tasks))),
        ("updated_at", opt_str_json(&p.updated_at)),
    ];
    let ghost all = plan_parts(*p);
    assert(part_views(parts@) =~= all);
    let j = write_record(parts);
    proof {
        reveal_strlit("objective");
        reveal_strlit("tasks");
        reveal_strlit("updated_at");
        assert("objective"@.len() == 9);
        assert("tasks"@.len() == 5);
        assert("updated_at"@.len() == 10);
        assert(names_differ(all));
        field_is_found(all, 0);
        field_is_found(all, 1);
        field_is_found(all, 2);
    }
    j
}

proof fn op_names_differ(o: PlanOp)
    ensures
        names_differ(plan_op_parts(o)),
        "add_task"@ != "update_status"@,
        "add_task"@ != "remove_task"@,
        "add_task"@ != "update_objective"@,
        "update_status"@ != "remove_task"@,
        "update_status"@ != "update_objective"@,
        "remove_task"@ != "update_objective"@,
{
    reveal_strlit("op");
    reveal_strlit("task");
    reveal_strlit("task_id");
    reveal_strlit("new_status");
    reveal_strlit("objective");
    reveal_strlit("add_task");
    reveal_strlit("update_status");
    reveal_strlit("remove_task");
    reveal_strlit("update_objective");
    assert("op"@.len() == 2);
    assert("task"@.len() == 4);
    assert("task_id"@.len() == 7);
    assert("new_status"@.len() == 10);
    assert("objective"@.len() == 9);
    assert("add_task"@.len() == 8);
    assert("update_status"@.len() == 13);
    assert("remove_task"@.len() == 11);
    assert("update_objective"@.len() == 16);
}

/// Writes a change of a plan. What is read from it is the change again.
pub fn write_plan_op(o: &PlanOp) -> (j: Json)
    ensures
        j@ == JsonView::Object(record(plan_op_parts(*o))),
        describes_plan_op(j@),
        is_plan_op(*o, j@),
{
    let ghost all = plan_op_parts(*o);
    proof {
        op_names_differ(*o);
        field_is_found(all, 0);
        field_is_found(all, 1);
    }
    match o {
        PlanOp::AddTask { task } => {
            let parts: Vec<(&'static str, Option<Json>)> = vec![
                ("op", Some(Json::str("add_task"))),
                ("task", Some(write_task(task))),
            ];
            assert(part_views(parts@) =~= all);
            write_record(parts)
        },
        PlanOp::UpdateStatus { task_id, new_status } => {
            let parts: Vec<(&'static str, Option<Json>)> = vec![
                ("op", Some(Json::str("update_status"))),
                ("task_id", Some(Json::Str(write_id(task_id.raw)))),
                ("new_status", Some(Json::str(status_str(*new_status)))),
            ];
            assert(part_views(parts@) =~= all);
            proof {
                field_is_found(all, 2);
                status_names_differ(*new_status);
            }
            write_record(parts)
        },
        PlanOp::RemoveTask { task_id } => {
            let parts: Vec<(&'static str, Option<Json>)> = vec![
                ("op", Some(Json::str("remove_task"))),
                ("task_id", Some(Json::Str(write_id(task_id.raw)))),
            ];
            assert(part_views(parts@) =~= all);
            write_record(parts)
        },
        PlanOp::UpdateObjective { objective } => {
            let parts: Vec<(&'static str, Option<Json>)> = vec![
                ("op", Some(Json::str("update_objective"))),
                ("objective", Some(Json::str(objective.as_str()))),
            ];
            assert(part_views(parts@) =~= all);
            write_record(parts)
        },
    }
}

fn write_plan_ops(ops: &Vec<PlanOp>) -> (j: Json)
    ensures
        j@ == plan_op_list(ops@),
        all_plan_ops(j@->Array_0),
        are_plan_ops(ops@, j@->Array_0),
{
    let mut out: Vec<Json> = Vec::new();
    let mut i: usize = 0;
    while i < ops.len()
        invariant
            i <= ops@.len(),
            out@.len() == i,
            forall|k: int|
                0 <= k < i ==> (#[trigger] out@[k])@ == JsonView::Object(
                    record(plan_op_parts(ops@[k])),
                ) && describes_plan_op(out@[k]@) && is_plan_op(ops@[k], out@[k]@),
        decreases ops@.len() - i,
    {
        out.push(write_plan_op(&ops[i]));
        i = i + 1;
    }
    let ghost items = views(out@);
    assert(items =~= plan_op_list(ops@)->Array_0);
    assert forall|k: int| 0 <= k < items.len() implies describes_plan_op(#[trigger] items[k]) by {
        assert(items[k] == out@[k]@);
    }
    assert forall|k: int| 0 <= k < items.len() implies is_plan_op(#[trigger] ops@[k], items[k]) by {
        assert(items[k] == out@[k]@);
    }
    Json::array(out)
}

/// Writes an update of the plan. What is read from it is the update again.
pub fn write_plan_update(u: &PlanUpdate) -> (j: Json)
    ensures
        j@ == JsonView::Object(record(plan_update_parts(*u))),
        describes_plan_update(j@),
        is_plan_update(*u, j@),
{
    let ghost all = plan_update_parts(*u);
    proof {
        reveal_strlit("type");
        reveal_strlit("plan");
        reveal_strlit("operations");
        reveal_strlit("replace");
        reveal_strlit("patch");
        assert("type"@[0] != "plan"@[0]);
        assert("type"@.len() == 4);
        assert("operations"@.len() == 10);
        assert("replace"@.len() == 7);
        assert("patch"@.len() == 5);
        assert(names_differ(all));
        field_is_found(all, 0);
        field_is_found(all, 1);
    }
    match u {
        PlanUpdate::Replace { plan } => {
            let parts: Vec<(&'static str, Option<Json>)> = vec![
                ("type", Some(Json::str("replace"))),
                ("plan", Some(write_plan(plan))),
            ];
            assert(part_views(parts@) =~= all);
            write_record(parts)
        },
        PlanUpdate::Patch { operations } => {
            let parts: Vec<(&'static str, Option<Json>)> = vec![
                ("type", Some(Json::str("patch"))),
                ("operations", Some(write_plan_ops(operations))),
            ];
            assert(part_views(parts@) =~= all);
            write_record(parts)
        },
    }
}

// ---------------------------------------------------------------------------
// Watches and modes
// ---------------------------------------------------------------------------

/// The fields of what a watch observes.
pub open spec fn watch_type_parts(w: WatchType) -> Seq<(Seq<char>, Option<JsonView>)> {
    match w {
        WatchType::Threshold { metric, condition } => seq![
            ("type"@, Some(JsonView::Str("threshold"@))),
            ("metric"@, Some(metric@)),
            ("condition"@, Some(condition@)),
        ],
        WatchType::Poll { connector, params, extract, condition } => seq![
            ("type"@, Some(JsonView::Str("poll"@))),
            ("connector"@, Some(JsonView::Str(connector@))),
            ("params"@, Some(params@)),
            ("extract"@, opt_string(opt_text(extract))),
            ("condition"@, opt_json(condition)),
        ],
    }
}

/// The fields of a schedule.
pub open spec fn schedule_parts(s: WatchSchedule) -> Seq<(Seq<char>, Option<JsonView>)> {
    match s {
        WatchSchedule::EveryNTicks { n } => seq![
            ("type"@, Some(JsonView::Str("every_n_ticks"@))),
            ("n"@, Some(JsonView::UInt(n))),
        ],
        WatchSchedule::Once => seq![("type"@, Some(JsonView::Str("once"@)))],
    }
}

/// The fields of a watch.
pub open spec fn watch_parts(p: WatchProposal) -> Seq<(Seq<char>, Option<JsonView>)> {
    seq![
        ("name"@, Some(JsonView::Str(p.name@))),
        ("description"@, Some(JsonView::Str(p.description@))),
        ("watch_type"@, Some(JsonView::Object(record(watch_type_parts(p.watch_type))))),
        ("schedule"@, Some(JsonView::Object(record(schedule_parts(p.schedule))))),
    ]
}

/// The condition of a poll is not null. A null that is read is no condition.
pub open spec fn has_no_null(w: WatchType) -> bool {
    w matches WatchType::Poll { condition: Some(c), .. } ==> !(c@ is Null)
}

fn write_watch_type(w: &WatchType) -> (j: Json)
    ensures
        j@ == JsonView::Object(record(watch_type_parts(*w))),
        describes_watch_type(j@),
        has_no_null(*w) ==> is_watch_type(*w, j@),
{
    let ghost all = watch_type_parts(*w);
    proof {
        reveal_strlit("type");
        reveal_strlit("metric");
        reveal_strlit("condition");
        reveal_strlit("connector");
        reveal_strlit("params");
        reveal_strlit("extract");
        reveal_strlit("threshold");
        reveal_strlit("poll");
        assert("type"@.len() == 4);
        assert("metric"@.len() == 6);
        assert("params"@.len() == 6);
        assert("extract"@.len() == 7);
        assert("condition"@.len() == 9);
        assert("connector"@.len() == 9);
        assert("condition"@[3] != "connector"@[3]);
        assert("threshold"@.len() == 9);
        assert("poll"@.len() == 4);
        assert(names_differ(all));
        field_is_found(all, 0);
        field_is_found(all, 1);
        field_is_found(all, 2);
    }
    match w {
        WatchType::Threshold { metric, condition } => {
            let parts: Vec<(&'static str, Option<Json>)> = vec![
                ("type", Some(Json::str("threshold"))),
                ("metric", Some(metric.clone())),
                ("condition", Some(condition.clone())),
            ];
            assert(part_views(parts@) =~= all);
            write_record(parts)
        },
        WatchType::Poll { connector, params, extract, condition } => {
            let wanted = match condition {
                Some(c) => Some(c.clone()),
                None => None,
            };
            let parts: Vec<(&'static str, Option<Json>)> = vec![
                ("type", Some(Json::str("poll"))),
                ("connector", Some(Json::str(connector.as_str()))),
                ("params", Some(params.clone())),
                ("extract", opt_str_json(extract)),
                ("condition", wanted),
            ];
            assert(part_views(parts@) =~= all);
            proof {
                field_is_found(all, 3);
                field_is_found(all, 4);
            }
            write_record(parts)
        },
    }
}

fn write_schedule(s: &WatchSchedule) -> (j: Json)
    ensures
        j@ == JsonView::Object(record(schedule_parts(*s))),
        schedule_of(j@) == Some(*s),
{
    let ghost all = schedule_parts(*s);
    proof {
        reveal_strlit("type");
        reveal_strlit("n");
        reveal_strlit("every_n_ticks");
        reveal_strlit("once");
        assert("type"@.len() == 4);
        assert("n"@.len() == 1);
        assert("every_n_ticks"@.len() == 13);
        assert("once"@.len() == 4);
        assert(names_differ(all));
        field_is_found(all, 0);
    }
    match s {
        WatchSchedule::EveryNTicks { n } => {
            let parts: Vec<(&'static str, Option<Json>)> = vec![
                ("type", Some(Json::str("every_n_ticks"))),
                ("n", Some(Json::UInt(*n))),
            ];
            assert(part_views(parts@) =~= all);
            proof {
                field_is_found(all, 1);
            }
            write_record(parts)
        },
        WatchSchedule::Once => {
            let parts: Vec<(&'static str, Option<Json>)> = vec![("type", Some(Json::str("once")))];
            assert(part_views(parts@) =~= all);
            write_record(parts)
        },
    }
}

/// Writes a watch. What is read from it is the watch again, unless a null stands for
/// its condition.
pub fn write_watch(p: &WatchProposal) -> (j: Json)
    ensures
        j@ == JsonView::Object(record(watch_parts(*p))),
        describes_watch(j@),
        has_no_null(p.watch_type) ==> is_watch(*p, j@),
{
    let parts: Vec<(&'static str, Option<Json>)> = vec![
        ("name", Some(Json::str(p.name.as_str()))),
        ("description", Some(Json::str(p.description.as_str()))),
        ("watch_type", Some(write_watch_type(&p.watch_type))),
        ("schedule", Some(write_schedule(&p.schedule))),
    ];
    let ghost all = watch_parts(*p);
    assert(part_views(parts@) =~= all);
    let j = write_record(parts);
    proof {
        reveal_strlit("name");
        reveal_strlit("description");
        reveal_strlit("watch_type");
        reveal_strlit("schedule");
        assert("name"@.len() == 4);
        assert("description"@.len() == 11);
        assert("watch_type"@.len() == 10);
        assert("schedule"@.len() == 8);
        assert(names_differ(all));
        field_is_found(all, 0);
        field_is_found(all, 1);
        field_is_found(all, 2);
        field_is_found(all, 3);
    }
    j
}

/// The name of a mode.
pub open spec fn mode_name(m: VesselMode) -> Seq<char> {
    match m {
        VesselMode::Normal => "normal"@,
        VesselMode::Planning => "planning"@,
        VesselMode::Executing => "executing"@,
    }
}

/// Writes a mode. What is read from it is the mode again.
pub fn write_mode(m: VesselMode) -> (j: Json)
    ensures
        j@ == JsonView::Str(mode_name(m)),
        mode_of(j@) == Some(m),
{
    proof {
        reveal_strlit("normal");
        reveal_strlit("planning");
        reveal_strlit("executing");
        assert("normal"@.len() == 6);
        assert("planning"@.len() == 8);
        assert("executing"@.len() == 9);
    }
    match m {
        VesselMode::Normal => Json::str("normal"),
        VesselMode::Planning => Json::str("planning"),
        VesselMode::Executing => Json::str("executing"),
    }
}

// ---------------------------------------------------------------------------
// Decisions
// ---------------------------------------------------------------------------

/// The value, or null if there is none.
pub open spec fn or_null(v: Option<JsonView>) -> JsonView {
    match v {
        Some(j) => j,
        None => JsonView::Null,
    }
}

/// The actions as JSON.
pub open spec fn action_list(actions: Seq<PlannedAction>) -> JsonView {
    JsonView::Array(
        Seq::new(actions.len(), |i: int| JsonView::Object(record(action_parts(actions[i])))),
    )
}

/// The changes of the working memory as JSON.
pub open spec fn memory_op_list(ops: Seq<WorkingMemoryOp>) -> JsonView {
    JsonView::Array(
        Seq::new(ops.len(), |i: int| JsonView::Object(record(memory_op_parts(ops[i])))),
    )
}

/// The watches as JSON.
pub open spec fn watch_list(watches: Seq<WatchProposal>) -> JsonView {
    JsonView::Array(
        Seq::new(watches.len(), |i: int| JsonView::Object(record(watch_parts(watches[i])))),
    )
}

/// A decision as it is stored. It asks for the inner loop if it plans an action.
pub open spec fn decision_json(d: DecisionResult) -> JsonView {
    JsonView::Object(
        seq![
            ("reasoning"@, JsonView::Str(d.reasoning@)),
            ("reply"@, or_null(opt_string(opt_text(d.reply)))),
            ("actions"@, action_list(d.actions@)),
            (
                "plan_update"@,
                match d.snapshot_delta.plan_update {
                    Some(u) => JsonView::Object(record(plan_update_parts(u))),
                    None => JsonView::Null,
                },
            ),
            (
                "working_memory_ops"@,
                match d.snapshot_delta.working_memory_ops {
                    Some(ops) => memory_op_list(ops@),
                    None => JsonView::Null,
                },
            ),
            ("memory_notes"@, string_array(texts(d.memory_notes@))),
            ("watch_proposals"@, watch_list(d.watch_proposals@)),
            (
                "vessel_mode_request"@,
                match d.vessel_mode_request {
                    Some(m) => JsonView::Str(mode_name(m)),
                    None => JsonView::Null,
                },
            ),
            ("inner_loop_requested"@, JsonView::Bool(d.actions@.len() > 0)),
        ],
    )
}

fn write_actions(actions: &Vec<PlannedAction>) -> (j: Json)
    ensures
        j@ == action_list(actions@),
        all_actions(j@->Array_0),
        are_actions(actions@, j@->Array_0),
{
    let mut out: Vec<Json> = Vec::new();
    let mut i: usize = 0;
    while i < actions.len()
        invariant
            i <= actions@.len(),
            out@.len() == i,
            forall|k: int|
                0 <= k < i ==> (#[trigger] out@[k])@ == JsonView::Object(
                    record(action_parts(actions@[k])),
                ) && describes_action(out@[k]@) && is_action(actions@[k], out@[k]@),
        decreases actions@.len() - i,
    {
        out.push(write_action(&actions[i]));
        i = i + 1;
    }
    let ghost items = views(out@);
    assert(items =~= action_list(actions@)->Array_0);
    assert forall|k: int| 0 <= k < items.len() implies describes_action(#[trigger] items[k]) by {
        assert(items[k] == out@[k]@);
    }
    assert forall|k: int| 0 <= k < items.len() implies is_action(
        #[trigger] actions@[k],
        items[k],
    ) by {
        assert(items[k] == out@[k]@);
    }
    Json::array(out)
}

/// No watch of the list polls with a null for its condition.
pub open spec fn have_no_null(watches: Seq<WatchProposal>) -> bool {
    forall|i: int| 0 <= i < watches.len() ==> has_no_null((#[trigger] watches[i]).watch_type)
}

fn write_watches(watches: &Vec<WatchProposal>) -> (j: Json)
    ensures
        j@ == watch_list(watches@),
        all_watches(j@->Array_0),
        have_no_null(watches@) ==> are_watches(watches@, j@->Array_0),
{
    let mut out: Vec<Json> = Vec::new();
    let mut i: usize = 0;
    while i < watches.len()
        invariant
            i <= watches@.len(),
            out@.len() == i,
            forall|k: int|
                0 <= k < i ==> (#[trigger] out@[k])@ == JsonView::Object(
                    record(watch_parts(watches@[k])),
                ) && describes_watch(out@[k]@) && (has_no_null(watches@[k].watch_type) ==> is_watch(
                    watches@[k],
                    out@[k]@,
                )),
        decreases watches@.len() - i,
    {
        out.push(write_watch(&watches[i]));
        i = i + 1;
    }
    let ghost items = views(out@);
    assert(items =~= watch_list(watches@)->Array_0);
    assert forall|k: int| 0 <= k < items.len() implies describes_watch(#[trigger] items[k]) by {
        assert(items[k] == out@[k]@);
    }
    assert forall|k: int| have_no_null(watches@) && 0 <= k < items.len() implies is_watch(
        #[trigger] watches@[k],
        items[k],
    ) by {
        assert(items[k] == out@[k]@);
    }
    Json::array(out)
}

/// The members of a stored decision are found under their names.
pub proof fn decision_members_are_found(d: DecisionResult)
    ensures
        decision_json(d) is Object,
        decision_json(d).field("reasoning"@) == Some(JsonView::Str(d.reasoning@)),
        decision_json(d).field("reply"@) == Some(or_null(opt_string(opt_text(d.reply)))),
        decision_json(d).field("actions"@) == Some(action_list(d.actions@)),
        decision_json(d).field("plan_update"@) == Some(
            match d.snapshot_delta.plan_update {
                Some(u) => JsonView::Object(record(plan_update_parts(u))),
                None => JsonView::Null,
            },
        ),
        decision_json(d).field("working_memory_ops"@) == Some(
            match d.snapshot_delta.working_memory_ops {
                Some(ops) => memory_op_list(ops@),
                None => JsonView::Null,
            },
        ),
        decision_json(d).field("memory_notes"@) == Some(string_array(texts(d.memory_notes@))),
        decision_json(d).field("watch_proposals"@) == Some(watch_list(d.watch_proposals@)),
        decision_json(d).field("vessel_mode_request"@) == Some(
            match d.vessel_mode_request {
                Some(m) => JsonView::Str(mode_name(m)),
                None => JsonView::Null,
            },
        ),
        decision_json(d).field("inner_loop_requested"@) == Some(
            JsonView::Bool(d.actions@.len() > 0),
        ),
{
    let members = decision_json(d)->Object_0;
    let parts = Seq::new(members.len(), |i: int| (members[i].0, Some(members[i].1)));
    reveal_strlit("reasoning");
    reveal_strlit("reply");
    reveal_strlit("actions");
    reveal_strlit("plan_update");
    reveal_strlit("working_memory_ops");
    reveal_strlit("memory_notes");
    reveal_strlit("watch_proposals");
    reveal_strlit("vessel_mode_request");
    reveal_strlit("inner_loop_requested");
    assert("reasoning"@.len() == 9);
    assert("reply"@.len() == 5);
    assert("actions"@.len() == 7);
    assert("plan_update"@.len() == 11);
    assert("working_memory_ops"@.len() == 18);
    assert("memory_notes"@.len() == 12);
    assert("watch_proposals"@.len() == 15);
    assert("vessel_mode_request"@.len() == 19);
    assert("inner_loop_requested"@.len() == 20);
    assert(names_differ(parts));
    full_record(members);
    field_is_found(parts, 0);
    field_is_found(parts, 1);
    field_is_found(parts, 2);
    field_is_found(parts, 3);
    field_is_found(parts, 4);
    field_is_found(parts, 5);
    field_is_found(parts, 6);
    field_is_found(parts, 7);
    field_is_found(parts, 8);
}

proof fn full_record(members: Seq<(Seq<char>, JsonView)>)
    ensures
        record(Seq::new(members.len(), |i: int| (members[i].0, Some(members[i].1)))) == members,
    decreases members.len(),
{
    let parts = Seq::new(members.len(), |i: int| (members[i].0, Some(members[i].1)));
    if members.len() == 0 {
        assert(record(parts) =~= members);
    } else {
        let front = members.drop_last();
        full_record(front);
        assert(parts.drop_last() =~= Seq::new(front.len(), |i: int| (front[i].0, Some(front[i].1))));
        assert(record(parts) =~= members);
    }
}

proof fn notes_are_read(list: Seq<Seq<char>>)
    ensures
        texts_of(Some(string_array(list))) == Some(list),
{
    let items = string_array(list)->Array_0;
    assert(Seq::new(items.len(), |i: int| items[i]->Str_0) =~= list);
}

/// Writes a decision as it is stored. What is read from it is the decision again, unless a
/// null stands for the condition of a watch.
pub fn write_decision(d: &DecisionResult) -> (j: Json)
    ensures
        j@ == decision_json(*d),
        describes_decision(j@),
        have_no_null(d.watch_proposals@) ==> is_decision(*d, j@),
{
    let reply = match &d.reply {
        Some(t) => Json::str(t.as_str()),
        None => Json::Null,
    };
    let plan_update = match &d.snapshot_delta.plan_update {
        Some(u) => write_plan_update(u),
        None => Json::Null,
    };
    let memory_ops = match &d.snapshot_delta.working_memory_ops {
        Some(ops) => write_memory_ops(ops),
        None => Json::Null,
    };
    let mode = match d.vessel_mode_request {
        Some(m) => write_mode(m),
        None => Json::Null,
    };
    let members = vec![
        member("reasoning", Json::str(d.reasoning.as_str())),
        member("reply", reply),
        member("actions", write_actions(&d.actions)),
        member("plan_update", plan_update),
        member("working_memory_ops", memory_ops),
        member("memory_notes", Json::strings(&d.memory_notes)),
        member("watch_proposals", write_watches(&d.watch_proposals)),
        member("vessel_mode_request", mode),
        member("inner_loop_requested", Json::Bool(d.actions.len() > 0)),
    ];
    assert(member_views(members@) =~= decision_json(*d)->Object_0);
    proof {
        decision_members_are_found(*d);
        notes_are_read(texts(d.memory_notes@));
    }
    Json::object(members)
}

} // verus!

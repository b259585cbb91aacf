//! Writing records as JSON values, in the form in which they are read.

use vstd::prelude::*;
use vstd::string::*;

use crate::amend::TaskStatusUpdate;
use crate::chat::{opt_member, opt_str_json, opt_string, push_opt};
use crate::decode::text_list_of;
use crate::json::{lookup, member_views, opt_json, string_array, views, Json, JsonView};
use crate::memory::{PlanTaskStatus, WorkingMemoryOp};
use crate::proposals::{
    are_memory_ops, describes_action, describes_memory_op, describes_memory_ops, is_action,
    is_memory_op, task_status_of,
};
use crate::reflect::{
    are_status_updates, describes_reflection, describes_status_update, is_reflection,
    is_status_update, ReflectProtocol,
};
use crate::text::{opt_text, texts};
use crate::types::{id_parsed, id_text, id_text_length, write_id, PlanTaskId, PlannedAction, ThreadId};

verus! {

// ---------------------------------------------------------------------------
// Records
// ---------------------------------------------------------------------------

/// The members of a record. A field without a value is left out.
pub open spec fn record(parts: Seq<(Seq<char>, Option<JsonView>)>) -> Seq<(Seq<char>, JsonView)>
    decreases parts.len(),
{
    if parts.len() == 0 {
        Seq::empty()
    } else {
        record(parts.drop_last()) + opt_member(parts.last().0, parts.last().1)
    }
}

/// All fields have different names.
pub open spec fn names_differ(parts: Seq<(Seq<char>, Option<JsonView>)>) -> bool {
    forall|i: int, j: int|
        0 <= i < j < parts.len() ==> (#[trigger] parts[i]).0 != (#[trigger] parts[j]).0
}

proof fn lookup_behind(
    members: Seq<(Seq<char>, JsonView)>,
    name: Seq<char>,
    value: Option<JsonView>,
    key: Seq<char>,
)
    ensures
        lookup(members + opt_member(name, value), key) == if name == key && value is Some {
            value
        } else {
            lookup(members, key)
        },
{
    match value {
        Some(v) => {
            let longer = members + opt_member(name, value);
            assert(longer =~= members.push((name, v)));
            assert(longer.drop_last() =~= members);
        },
        None => {
            assert(members + opt_member(name, value) =~= members);
        },
    }
}

proof fn other_field(parts: Seq<(Seq<char>, Option<JsonView>)>, key: Seq<char>)
    requires
        forall|i: int| 0 <= i < parts.len() ==> (#[trigger] parts[i]).0 != key,
    ensures
        lookup(record(parts), key) is None,
    decreases parts.len(),
{
    if parts.len() > 0 {
        let rest = parts.drop_last();
        assert forall|i: int| 0 <= i < rest.len() implies (#[trigger] rest[i]).0 != key by {
            assert(rest[i] == parts[i]);
        }
        other_field(rest, key);
        assert(parts[parts.len() - 1].0 != key);
        lookup_behind(record(rest), parts.last().0, parts.last().1, key);
    }
}

/// A field is found in a record under its name.
pub proof fn field_is_found(parts: Seq<(Seq<char>, Option<JsonView>)>, i: int)
    requires
        names_differ(parts),
        0 <= i < parts.len(),
    ensures
        lookup(record(parts), parts[i].0) == parts[i].1,
    decreases parts.len(),
{
    let rest = parts.drop_last();
    let key = parts[i].0;
    lookup_behind(record(rest), parts.last().0, parts.last().1, key);
    if i == parts.len() - 1 {
        assert forall|k: int| 0 <= k < rest.len() implies (#[trigger] rest[k]).0 != key by {
            assert(parts[k].0 != parts[i].0);
        }
        other_field(rest, key);
    } else {
        assert(names_differ(rest)) by {
            assert forall|a: int, b: int| 0 <= a < b < rest.len() implies (#[trigger] rest[a]).0
                != (#[trigger] rest[b]).0 by {
                assert(parts[a].0 != parts[b].0);
            }
        }
        field_is_found(rest, i);
        assert(parts[i].0 != parts[parts.len() - 1].0);
    }
}

/// The models of a list of fields.
pub open spec fn part_views(parts: Seq<(&'static str, Option<Json>)>) -> Seq<
    (Seq<char>, Option<JsonView>),
> {
    Seq::new(parts.len(), |i: int| (parts[i].0@, opt_json(parts[i].1)))
}

/// Writes a record. A field without a value is left out.
pub fn write_record(parts: Vec<(&'static str, Option<Json>)>) -> (j: Json)
    ensures
        j@ == JsonView::Object(record(part_views(parts@))),
{
    let ghost all = part_views(parts@);
    let ghost given = parts@;
    let ghost mut done: int = 0;
    let mut rest = parts;
    let mut members: Vec<(String, Json)> = Vec::new();
    assert(given.subrange(0, given.len() as int) =~= given);
    assert(member_views(members@) =~= record(all.subrange(0, 0)));
    while rest.len() > 0
        invariant
            0 <= done <= given.len(),
            all == part_views(given),
            rest@ == given.subrange(done, given.len() as int),
            member_views(members@) == record(all.subrange(0, done)),
        decreases rest@.len(),
    {
        let (key, value) = rest.remove(0);
        assert((key, value) == given[done]);
        assert(rest@ =~= given.subrange(done + 1, given.len() as int));
        assert(all.subrange(0, done + 1).drop_last() =~= all.subrange(0, done));
        assert(all.subrange(0, done + 1).last() == (key@, opt_json(value)));
        push_opt(&mut members, key, value);
        proof {
            done = done + 1;
        }
    }
    assert(all.subrange(0, all.len() as int) =~= all);
    Json::object(members)
}

// ---------------------------------------------------------------------------
// Actions
// ---------------------------------------------------------------------------

/// The text of an optional identifier.
pub open spec fn opt_id(raw: Option<u128>) -> Option<JsonView> {
    match raw {
        Some(raw) => Some(JsonView::Str(id_text(raw))),
        None => None,
    }
}

/// The number of an optional plan task.
pub open spec fn raw_task(id: Option<PlanTaskId>) -> Option<u128> {
    match id {
        Some(id) => Some(id.raw),
        None => None,
    }
}

/// The number of an optional thread.
pub open spec fn raw_thread(id: Option<ThreadId>) -> Option<u128> {
    match id {
        Some(id) => Some(id.raw),
        None => None,
    }
}

/// The fields of an action.
pub open spec fn action_parts(a: PlannedAction) -> Seq<(Seq<char>, Option<JsonView>)> {
    seq![
        ("call_id"@, Some(JsonView::Str(a.call_id@))),
        ("tool_name"@, Some(JsonView::Str(a.tool_name@))),
        ("params"@, Some(a.params@)),
        ("rationale"@, Some(JsonView::Str(a.rationale@))),
        ("plan_task_id"@, opt_id(raw_task(a.plan_task_id))),
        ("origin_exec_thread_id"@, opt_id(raw_thread(a.origin_exec_thread_id))),
        ("proposal_id"@, opt_string(opt_text(a.proposal_id))),
    ]
}

proof fn action_names_differ(a: PlannedAction)
    ensures
        names_differ(action_parts(a)),
{
    reveal_strlit("call_id");
    reveal_strlit("tool_name");
    reveal_strlit("params");
    reveal_strlit("rationale");
    reveal_strlit("plan_task_id");
    reveal_strlit("origin_exec_thread_id");
    reveal_strlit("proposal_id");
    assert("call_id"@.len() == 7);
    assert("tool_name"@.len() == 9);
    assert("params"@.len() == 6);
    assert("rationale"@.len() == 9);
    assert("plan_task_id"@.len() == 12);
    assert("origin_exec_thread_id"@.len() == 21);
    assert("proposal_id"@.len() == 11);
    assert("tool_name"@[0] != "rationale"@[0]);
}

fn write_opt_id(raw: Option<u128>) -> (r: Option<Json>)
    ensures
        opt_json(r) == opt_id(raw),
        raw matches Some(n) ==> id_parsed(id_text(n)) == Some(n) && id_text(n).len() > 0,
{
    match raw {
        Some(n) => {
            let text = write_id(n);
            proof {
                id_text_length(n);
            }
            Some(Json::str(text.as_str()))
        },
        None => None,
    }
}

/// Writes an action. What is read from it is the action again.
pub fn write_action(a: &PlannedAction) -> (j: Json)
    ensures
        j@ == JsonView::Object(record(action_parts(*a))),
        describes_action(j@),
        is_action(*a, j@),
{
    let task = match a.plan_task_id {
        Some(id) => Some(id.raw),
        None => None,
    };
    let thread = match a.origin_exec_thread_id {
        Some(id) => Some(id.raw),
        None => None,
    };
    let parts: Vec<(&'static str, Option<Json>)> = vec![
        ("call_id", Some(Json::str(a.call_id.as_str()))),
        ("tool_name", Some(Json::str(a.tool_name.as_str()))),
        ("params", Some(a.params.clone())),
        ("rationale", Some(Json::str(a.rationale.as_str()))),
        ("plan_task_id", write_opt_id(task)),
        ("origin_exec_thread_id", write_opt_id(thread)),
        ("proposal_id", opt_str_json(&a.proposal_id)),
    ];
    assert(part_views(parts@) =~= action_parts(*a));
    let j = write_record(parts);
    proof {
        let p = action_parts(*a);
        action_names_differ(*a);
        field_is_found(p, 0);
        field_is_found(p, 1);
        field_is_found(p, 2);
        field_is_found(p, 3);
        field_is_found(p, 4);
        field_is_found(p, 5);
        field_is_found(p, 6);
    }
    j
}

// ---------------------------------------------------------------------------
// Reflections
// ---------------------------------------------------------------------------

/// The name of a status.
pub open spec fn status_name(s: PlanTaskStatus) -> Seq<char> {
    match s {
        PlanTaskStatus::Pending => "pending"@,
        PlanTaskStatus::InProgress => "in_progress"@,
        PlanTaskStatus::Completed => "completed"@,
        PlanTaskStatus::Failed => "failed"@,
        PlanTaskStatus::Blocked => "blocked"@,
        PlanTaskStatus::Skipped => "skipped"@,
    }
}

/// The name of a status is read as the status.
pub proof fn status_names_differ(s: PlanTaskStatus)
    ensures
        task_status_of(Some(JsonView::Str(status_name(s)))) == Some(s),
{
    reveal_strlit("pending");
    reveal_strlit("in_progress");
    reveal_strlit("completed");
    reveal_strlit("failed");
    reveal_strlit("blocked");
    reveal_strlit("skipped");
    assert("pending"@.len() == 7);
    assert("in_progress"@.len() == 11);
    assert("completed"@.len() == 9);
    assert("failed"@.len() == 6);
    assert("blocked"@.len() == 7);
    assert("skipped"@.len() == 7);
    assert("pending"@[0] == 'p');
    assert("blocked"@[0] == 'b');
    assert("skipped"@[0] == 's');
}

/// Names a status.
pub fn status_str(s: PlanTaskStatus) -> (r: &'static str)
    ensures
        r@ == status_name(s),
{
    match s {
        PlanTaskStatus::Pending => "pending",
        PlanTaskStatus::InProgress => "in_progress",
        PlanTaskStatus::Completed => "completed",
        PlanTaskStatus::Failed => "failed",
        PlanTaskStatus::Blocked => "blocked",
        PlanTaskStatus::Skipped => "skipped",
    }
}

/// The fields of a new status of a task.
pub open spec fn status_update_parts(u: TaskStatusUpdate) -> Seq<(Seq<char>, Option<JsonView>)> {
    seq![
        ("task_id"@, Some(JsonView::Str(id_text(u.task_id.raw)))),
        ("new_status"@, Some(JsonView::Str(status_name(u.new_status)))),
        ("reason"@, opt_string(opt_text(u.reason))),
    ]
}

/// Writes a new status of a task. What is read from it is the status again.
pub fn write_status_update(u: &TaskStatusUpdate) -> (j: Json)
    ensures
        j@ == JsonView::Object(record(status_update_parts(*u))),
        describes_status_update(j@),
        is_status_update(*u, j@),
{
    let id = write_id(u.task_id.raw);
    let parts: Vec<(&'static str, Option<Json>)> = vec![
        ("task_id", Some(Json::str(id.as_str()))),
        ("new_status", Some(Json::str(status_str(u.new_status)))),
        ("reason", opt_str_json(&u.reason)),
    ];
    assert(part_views(parts@) =~= status_update_parts(*u));
    let j = write_record(parts);
    proof {
        let p = status_update_parts(*u);
        reveal_strlit("task_id");
        reveal_strlit("new_status");
        reveal_strlit("reason");
        assert("task_id"@.len() == 7);
        assert("new_status"@.len() == 10);
        assert("reason"@.len() == 6);
        assert(names_differ(p));
        field_is_found(p, 0);
        field_is_found(p, 1);
        field_is_found(p, 2);
        status_names_differ(u.new_status);
    }
    j
}

/// The fields of a change of the working memory.
pub open spec fn memory_op_parts(o: WorkingMemoryOp) -> Seq<(Seq<char>, Option<JsonView>)> {
    match o {
        WorkingMemoryOp::Put { key, value, ttl_ticks } => seq![
            ("op"@, Some(JsonView::Str("set"@))),
            ("key"@, Some(JsonView::Str(key@))),
            ("value"@, Some(JsonView::Str(value@))),
            (
                "ttl_ticks"@,
                match ttl_ticks {
                    Some(n) => Some(JsonView::UInt(n)),
                    None => None,
                },
            ),
        ],
        WorkingMemoryOp::Remove { key } => seq![
            ("op"@, Some(JsonView::Str("remove"@))),
            ("key"@, Some(JsonView::Str(key@))),
        ],
    }
}

proof fn memory_op_names_differ(o: WorkingMemoryOp)
    ensures
        names_differ(memory_op_parts(o)),
        "set"@ != "remove"@,
{
    reveal_strlit("op");
    reveal_strlit("key");
    reveal_strlit("value");
    reveal_strlit("ttl_ticks");
    reveal_strlit("set");
    reveal_strlit("remove");
    assert("op"@.len() == 2);
    assert("key"@.len() == 3);
    assert("value"@.len() == 5);
    assert("ttl_ticks"@.len() == 9);
    assert("set"@.len() == 3);
    assert("remove"@.len() == 6);
}

/// Writes a change of the working memory. What is read from it is the change again.
pub fn write_memory_op(o: &WorkingMemoryOp) -> (j: Json)
    ensures
        j@ == JsonView::Object(record(memory_op_parts(*o))),
        describes_memory_op(j@),
        is_memory_op(*o, j@),
{
    proof {
        memory_op_names_differ(*o);
    }
    let ghost p = memory_op_parts(*o);
    match o {
        WorkingMemoryOp::Put { key, value, ttl_ticks } => {
            let ttl = match ttl_ticks {
                Some(n) => Some(Json::UInt(*n)),
                None => None,
            };
            let parts: Vec<(&'static str, Option<Json>)> = vec![
                ("op", Some(Json::str("set"))),
                ("key", Some(Json::str(key.as_str()))),
                ("value", Some(Json::str(value.as_str()))),
                ("ttl_ticks", ttl),
            ];
            assert(part_views(parts@) =~= p);
            let j = write_record(parts);
            proof {
                field_is_found(p, 0);
                field_is_found(p, 1);
                field_is_found(p, 2);
                field_is_found(p, 3);
            }
            j
        },
        WorkingMemoryOp::Remove { key } => {
            let parts: Vec<(&'static str, Option<Json>)> = vec![
                ("op", Some(Json::str("remove"))),
                ("key", Some(Json::str(key.as_str()))),
            ];
            assert(part_views(parts@) =~= p);
            let j = write_record(parts);
            proof {
                field_is_found(p, 0);
                field_is_found(p, 1);
            }
            j
        },
    }
}

/// The fields of a reflection.
pub open spec fn reflection_parts(p: ReflectProtocol) -> Seq<(Seq<char>, Option<JsonView>)> {
    seq![
        ("outcome_assessment"@, Some(JsonView::Str(p.outcome_assessment@))),
        (
            "task_updates"@,
            Some(
                JsonView::Array(
                    Seq::new(
                        p.task_updates@.len(),
                        |i: int| JsonView::Object(record(status_update_parts(p.task_updates@[i]))),
                    ),
                ),
            ),
        ),
        (
            "working_memory_ops"@,
            Some(
                JsonView::Array(
                    Seq::new(
                        p.working_memory_ops@.len(),
                        |i: int| JsonView::Object(record(memory_op_parts(p.working_memory_ops@[i]))),
                    ),
                ),
            ),
        ),
        ("observations"@, Some(string_array(texts(p.observations@)))),
        ("concerns"@, Some(string_array(texts(p.concerns@)))),
        ("should_replan"@, Some(JsonView::Bool(p.should_replan))),
    ]
}

proof fn reflection_names_differ(p: ReflectProtocol)
    ensures
        names_differ(reflection_parts(p)),
{
    reveal_strlit("outcome_assessment");
    reveal_strlit("task_updates");
    reveal_strlit("working_memory_ops");
    reveal_strlit("observations");
    reveal_strlit("concerns");
    reveal_strlit("should_replan");
    assert("outcome_assessment"@.len() == 18);
    assert("task_updates"@.len() == 12);
    assert("working_memory_ops"@.len() == 18);
    assert("observations"@.len() == 12);
    assert("concerns"@.len() == 8);
    assert("should_replan"@.len() == 13);
    assert("outcome_assessment"@[0] != "working_memory_ops"@[0]);
    assert("task_updates"@[0] != "observations"@[0]);
}

fn write_status_updates(updates: &Vec<TaskStatusUpdate>) -> (j: Json)
    ensures
        j@ matches JsonView::Array(items) && items == Seq::new(
            updates@.len(),
            |i: int| JsonView::Object(record(status_update_parts(updates@[i]))),
        ) && crate::reflect::all_status_updates(items) && are_status_updates(updates@, items),
{
    let mut out: Vec<Json> = Vec::new();
    let mut i: usize = 0;
    while i < updates.len()
        invariant
            i <= updates@.len(),
            out@.len() == i,
            forall|k: int|
                0 <= k < i ==> (#[trigger] out@[k])@ == JsonView::Object(
                    record(status_update_parts(updates@[k])),
                ) && describes_status_update(out@[k]@) && is_status_update(updates@[k], out@[k]@),
        decreases updates@.len() - i,
    {
        out.push(write_status_update(&updates[i]));
        i = i + 1;
    }
    let ghost items = views(out@);
    assert(items =~= Seq::new(
        updates@.len(),
        |i: int| JsonView::Object(record(status_update_parts(updates@[i]))),
    ));
    assert forall|k: int| 0 <= k < items.len() implies describes_status_update(
        #[trigger] items[k],
    ) by {
        assert(items[k] == out@[k]@);
    }
    assert forall|k: int| 0 <= k < items.len() implies is_status_update(
        #[trigger] updates@[k],
        items[k],
    ) by {
        assert(items[k] == out@[k]@);
    }
    Json::array(out)
}

/// Writes changes of the working memory. What is read from them are the changes again.
pub fn write_memory_ops(ops: &Vec<WorkingMemoryOp>) -> (j: Json)
    ensures
        j@ == JsonView::Array(
            Seq::new(ops@.len(), |i: int| JsonView::Object(record(memory_op_parts(ops@[i])))),
        ),
        describes_memory_ops(j@),
        are_memory_ops(ops@, j@),
{
    let mut out: Vec<Json> = Vec::new();
    let mut i: usize = 0;
    while i < ops.len()
        invariant
            i <= ops@.len(),
            out@.len() == i,
            forall|k: int|
                0 <= k < i ==> (#[trigger] out@[k])@ == JsonView::Object(
                    record(memory_op_parts(ops@[k])),
                ) && describes_memory_op(out@[k]@) && is_memory_op(ops@[k], out@[k]@),
        decreases ops@.len() - i,
    {
        out.push(write_memory_op(&ops[i]));
        i = i + 1;
    }
    let ghost items = views(out@);
    assert(items =~= Seq::new(
        ops@.len(),
        |i: int| JsonView::Object(record(memory_op_parts(ops@[i]))),
    ));
    assert forall|k: int| 0 <= k < items.len() implies describes_memory_op(#[trigger] items[k]) by {
        assert(items[k] == out@[k]@);
    }
    assert forall|k: int| 0 <= k < items.len() implies is_memory_op(#[trigger] ops@[k], items[k]) by {
        assert(items[k] == out@[k]@);
    }
    Json::array(out)
}

/// Writes a reflection. What is read from it is the reflection again.
pub fn write_reflection(p: &ReflectProtocol) -> (j: Json)
    ensures
        j@ == JsonView::Object(record(reflection_parts(*p))),
        describes_reflection(j@),
        is_reflection(*p, j@),
{
    let parts: Vec<(&'static str, Option<Json>)> = vec![
        ("outcome_assessment", Some(Json::str(p.outcome_assessment.as_str()))),
        ("task_updates", Some(write_status_updates(&p.task_updates))),
        ("working_memory_ops", Some(write_memory_ops(&p.working_memory_ops))),
        ("observations", Some(Json::strings(&p.observations))),
        ("concerns", Some(Json::strings(&p.concerns))),
        ("should_replan", Some(Json::Bool(p.should_replan))),
    ];
    let ghost all = reflection_parts(*p);
    assert(part_views(parts@) =~= all);
    let j = write_record(parts);
    proof {
        reflection_names_differ(*p);
        field_is_found(all, 0);
        field_is_found(all, 1);
        field_is_found(all, 2);
        field_is_found(all, 3);
        field_is_found(all, 4);
        field_is_found(all, 5);
        text_list_is_read(texts(p.observations@));
        text_list_is_read(texts(p.concerns@));
    }
    j
}

proof fn text_list_is_read(list: Seq<Seq<char>>)
    ensures
        text_list_of(string_array(list)) == Some(list),
{
    let items = string_array(list)->Array_0;
    assert(Seq::new(items.len(), |i: int| items[i]->Str_0) =~= list);
}

/// No two members have the same key.
pub open spec fn keys_differ(members: Seq<(Seq<char>, JsonView)>) -> bool {
    forall|i: int, j: int|
        0 <= i < j < members.len() ==> (#[trigger] members[i]).0 != (#[trigger] members[j]).0
}

/// A member of an object is found under its key, if no other member has that key.
pub proof fn member_is_found(members: Seq<(Seq<char>, JsonView)>, i: int)
    requires
        keys_differ(members),
        0 <= i < members.len(),
    ensures
        lookup(members, members[i].0) == Some(members[i].1),
        JsonView::Object(members).field(members[i].0) == Some(members[i].1),
    decreases members.len(),
{
    if i < members.len() - 1 {
        let front = members.drop_last();
        assert(front[i] == members[i]);
        assert(members[i].0 != members[members.len() - 1].0);
        assert(keys_differ(front)) by {
            assert forall|a: int, b: int| 0 <= a < b < front.len() implies (
            #[trigger] front[a]).0 != (#[trigger] front[b]).0 by {
                assert(members[a].0 != members[b].0);
            }
        }
        member_is_found(front, i);
    }
}

} // verus!

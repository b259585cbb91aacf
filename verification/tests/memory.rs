use exoskeleton_host::memory::{
    Plan, PlanOp, PlanTask, PlanTaskStatus, PlanUpdate, WorkingMemory, WorkingMemoryEntry,
    WorkingMemoryOp,
};
use exoskeleton_host::types::PlanTaskId;

fn put(key: &str, value: &str, ttl_ticks: Option<u64>) -> WorkingMemoryOp {
    WorkingMemoryOp::Put { key: key.into(), value: value.into(), ttl_ticks }
}

fn keys(m: &WorkingMemory) -> Vec<&str> {
    m.entries.iter().map(|e| e.key.as_str()).collect()
}

#[test]
fn entries_are_set_and_removed() {
    let mut m = WorkingMemory { entries: vec![] };
    m.apply_ops(&vec![put("a", "1", None), put("b", "2", None), put("a", "3", None)], 4);
    assert_eq!(keys(&m), vec!["a", "b"]);
    assert_eq!(m.entries[0].value, "3");
    assert_eq!(m.entries[0].set_at_tick, 4);
    m.apply_op(&WorkingMemoryOp::Remove { key: "a".into() }, 5);
    assert_eq!(keys(&m), vec!["b"]);
    m.apply_op(&WorkingMemoryOp::Remove { key: "none".into() }, 5);
    assert_eq!(keys(&m), vec!["b"]);
}

#[test]
fn entries_expire() {
    let mut m = WorkingMemory { entries: vec![] };
    m.apply_ops(&vec![put("short", "1", Some(2)), put("long", "2", None)], 10);
    m.evict_expired(11);
    assert_eq!(keys(&m), vec!["short", "long"]);
    m.evict_expired(12);
    assert_eq!(keys(&m), vec!["long"]);
}

#[test]
fn the_newest_entries_stay() {
    let mut m = WorkingMemory { entries: vec![] };
    m.apply_ops(&vec![put("a", "", None), put("b", "", None), put("c", "", None)], 1);
    m.enforce_cap(2);
    assert_eq!(keys(&m), vec!["b", "c"]);
    m.retain_keys("c", "x");
    assert_eq!(keys(&m), vec!["c"]);
}

fn task(raw: u128) -> PlanTask {
    PlanTask {
        id: PlanTaskId { raw },
        description: format!("task {raw}"),
        status: PlanTaskStatus::Pending,
        depends_on: vec![],
        tool_hint: None,
    }
}

#[test]
fn plans_change() {
    let plan = Plan { objective: "o".into(), tasks: vec![task(1), task(2)], updated_at: None };
    let plan = plan.apply_update(PlanUpdate::Patch {
        operations: vec![
            PlanOp::UpdateStatus {
                task_id: PlanTaskId { raw: 2 },
                new_status: PlanTaskStatus::Blocked,
            },
            PlanOp::AddTask { task: task(3) },
            PlanOp::RemoveTask { task_id: PlanTaskId { raw: 1 } },
            PlanOp::UpdateObjective { objective: "new".into() },
        ],
    });
    assert_eq!(plan.objective, "new");
    let ids: Vec<u128> = plan.tasks.iter().map(|t| t.id.raw).collect();
    assert_eq!(ids, vec![2, 3]);
    assert_eq!(plan.tasks[0].status, PlanTaskStatus::Blocked);
    let replaced = plan.apply_update(PlanUpdate::Replace {
        plan: Plan { objective: "other".into(), tasks: vec![], updated_at: None },
    });
    assert_eq!(replaced.objective, "other");
    assert!(replaced.tasks.is_empty());
}

#[test]
fn a_new_status_keeps_the_tasks() {
    let mut plan = Plan { objective: "o".into(), tasks: vec![task(1), task(2)], updated_at: None };
    plan.set_status(PlanTaskId { raw: 9 }, PlanTaskStatus::Failed);
    plan.set_status(PlanTaskId { raw: 1 }, PlanTaskStatus::Skipped);
    assert_eq!(plan.tasks.len(), 2);
    assert_eq!(plan.tasks[0].status, PlanTaskStatus::Skipped);
    assert_eq!(plan.tasks[1].status, PlanTaskStatus::Pending);
    let empty = Plan::empty("now");
    assert_eq!(empty.objective, "");
    assert_eq!(empty.updated_at.as_deref(), Some("now"));
}

#[test]
fn a_repeated_key_is_set_at_its_first_entry() {
    let entry = |key: &str, value: &str| WorkingMemoryEntry {
        key: key.into(),
        value: value.into(),
        set_at_tick: 0,
        ttl_ticks: None,
    };
    let mut m = WorkingMemory { entries: vec![entry("a", "1"), entry("b", "2"), entry("a", "3")] };
    m.apply_op(&put("a", "new", None), 4);
    let values: Vec<&str> = m.entries.iter().map(|e| e.value.as_str()).collect();
    assert_eq!(values, vec!["new", "2", "3"]);
    m.apply_op(&WorkingMemoryOp::Remove { key: "a".into() }, 5);
    assert_eq!(keys(&m), vec!["b"]);
}

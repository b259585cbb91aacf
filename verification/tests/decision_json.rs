use exoskeleton_host::decision_json::{write_decision, write_plan_update, write_watch};
use exoskeleton_host::json::{parse_json, write_json};
use exoskeleton_host::memory::{
    Plan, PlanOp, PlanTask, PlanTaskStatus, PlanUpdate, WorkingMemoryOp,
};
use exoskeleton_host::proposals::{read_plan_update, read_watch};
use exoskeleton_host::types::{
    ArtifactId, DecisionResult, LlmCallRecord, PlanTaskId, PlannedAction, SnapshotDelta,
    VesselMode,
};
use exoskeleton_host::watches::{WatchProposal, WatchSchedule, WatchType};

const TASK: u128 = 0x67e55044_10b1_426f_9247_bb680e5fe0c8;

fn decision() -> DecisionResult {
    DecisionResult {
        reasoning: "think".into(),
        reply: None,
        actions: vec![],
        snapshot_delta: SnapshotDelta::default(),
        memory_notes: vec![],
        llm_call_record: LlmCallRecord {
            model: "m".into(),
            tokens_in: 1,
            tokens_out: 2,
            cost_micros: 0,
            latency_ms: 3,
            response_artifact_ref: None,
            turns: 1,
        },
        response_artifact_id: ArtifactId { digest: "d".into() },
        watch_proposals: vec![],
        vessel_mode_request: None,
    }
}

fn as_value(text: &str) -> serde_json::Value {
    serde_json::from_str(text).unwrap()
}

#[test]
fn a_bare_decision_is_stored() {
    let stored = write_json(&write_decision(&decision()));
    assert_eq!(
        as_value(&stored),
        as_value(
            r#"{"reasoning": "think", "reply": null, "actions": [], "plan_update": null,
            "working_memory_ops": null, "memory_notes": [], "watch_proposals": [],
            "vessel_mode_request": null, "inner_loop_requested": false}"#
        )
    );
}

#[test]
fn a_full_decision_is_stored() {
    let mut d = decision();
    d.reply = Some("hello".into());
    d.actions = vec![PlannedAction {
        call_id: "c".into(),
        tool_name: "code.read".into(),
        params: parse_json(r#"{"file_path": "/a"}"#).unwrap(),
        rationale: "look".into(),
        plan_task_id: Some(PlanTaskId { raw: TASK }),
        origin_exec_thread_id: None,
        proposal_id: None,
    }];
    d.snapshot_delta.plan_update = Some(PlanUpdate::Patch {
        operations: vec![PlanOp::UpdateStatus {
            task_id: PlanTaskId { raw: TASK },
            new_status: PlanTaskStatus::InProgress,
        }],
    });
    d.snapshot_delta.working_memory_ops = Some(vec![WorkingMemoryOp::Remove { key: "k".into() }]);
    d.memory_notes = vec!["note".into()];
    d.watch_proposals = vec![watch(None)];
    d.vessel_mode_request = Some(VesselMode::Planning);
    let stored = write_json(&write_decision(&d));
    assert_eq!(
        as_value(&stored),
        as_value(
            r#"{"reasoning": "think", "reply": "hello",
            "actions": [{"call_id": "c", "tool_name": "code.read", "params": {"file_path": "/a"},
                "rationale": "look", "plan_task_id": "67e55044-10b1-426f-9247-bb680e5fe0c8"}],
            "plan_update": {"type": "patch", "operations": [{"op": "update_status",
                "task_id": "67e55044-10b1-426f-9247-bb680e5fe0c8", "new_status": "in_progress"}]},
            "working_memory_ops": [{"op": "remove", "key": "k"}],
            "memory_notes": ["note"],
            "watch_proposals": [{"name": "w", "description": "d",
                "watch_type": {"type": "poll", "connector": "http.get", "params": {}},
                "schedule": {"type": "every_n_ticks", "n": 5}}],
            "vessel_mode_request": "planning", "inner_loop_requested": true}"#
        )
    );
}

fn watch(condition: Option<&str>) -> WatchProposal {
    WatchProposal {
        name: "w".into(),
        description: "d".into(),
        watch_type: WatchType::Poll {
            connector: "http.get".into(),
            params: parse_json("{}").unwrap(),
            extract: None,
            condition: condition.map(|c| parse_json(c).unwrap()),
        },
        schedule: WatchSchedule::EveryNTicks { n: 5 },
    }
}

#[test]
fn what_is_stored_reads_back() {
    let update = || PlanUpdate::Replace {
        plan: Plan {
            objective: "ship".into(),
            tasks: vec![PlanTask {
                id: PlanTaskId { raw: TASK },
                description: "first".into(),
                status: PlanTaskStatus::Blocked,
                depends_on: vec![PlanTaskId { raw: 1 }, PlanTaskId { raw: 2 }],
                tool_hint: Some("code.edit".into()),
            }],
            updated_at: None,
        },
    };
    assert_eq!(read_plan_update(&write_plan_update(&update())), Some(update()));
    let read = read_watch(&write_watch(&watch(Some("1")))).unwrap();
    assert!(matches!(read.watch_type, WatchType::Poll { condition: Some(_), .. }));
    let read = read_watch(&write_watch(&watch(Some("null")))).unwrap();
    assert!(matches!(read.watch_type, WatchType::Poll { condition: None, .. }));
    assert_eq!(read.schedule, WatchSchedule::EveryNTicks { n: 5 });
}

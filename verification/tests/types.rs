use exoskeleton_host::amend::TaskStatusUpdate;
use exoskeleton_host::encode::{write_action, write_reflection, write_status_update};
use exoskeleton_host::json::{parse_json, write_json};
use exoskeleton_host::memory::{PlanTaskStatus, WorkingMemoryOp};
use exoskeleton_host::proposals::{read_action, read_task_id, read_task_status};
use exoskeleton_host::reflect::{parse_reflect_protocol, ReflectProtocol};
use exoskeleton_host::types::{
    deserialize_plan_task_id_lenient, extract_json_from_code_fence, ActionExecution,
    ActionOutcome, ActionRecord, ContentBlock, PlanTaskId, PlannedAction, SnapshotDelta, ThreadId,
};

#[test]
fn planned_action_with_task_id_roundtrip() {
    let task_id = PlanTaskId { raw: 0x0123_4567_89ab_cdef_0123_4567_89ab_cdef };
    let action = PlannedAction {
        call_id: "call_1".into(),
        tool_name: "fs.write".into(),
        params: parse_json(r#"{"path": "/tmp/out.txt"}"#).unwrap(),
        rationale: "Write output".into(),
        plan_task_id: Some(task_id),
        origin_exec_thread_id: None,
        proposal_id: None,
    };
    let json = write_json(&write_action(&action));
    assert!(json.contains("01234567-89ab-cdef-0123-456789abcdef"));
    let parsed = read_action(&parse_json(&json).unwrap()).unwrap();
    assert_eq!(parsed.call_id, "call_1");
    assert_eq!(parsed.plan_task_id, Some(task_id));
}

#[test]
fn actions_with_all_fields_roundtrip() {
    let action = PlannedAction {
        call_id: "c".into(),
        tool_name: "t".into(),
        params: parse_json("[1, null]").unwrap(),
        rationale: "r".into(),
        plan_task_id: None,
        origin_exec_thread_id: Some(ThreadId { raw: 7 }),
        proposal_id: Some("p".into()),
    };
    let parsed = read_action(&write_action(&action)).unwrap();
    assert_eq!(parsed.origin_exec_thread_id, Some(ThreadId { raw: 7 }));
    assert_eq!(parsed.proposal_id.as_deref(), Some("p"));
    assert_eq!(write_json(&parsed.params), "[1,null]");
}

#[test]
fn planned_action_without_task_id_compat() {
    let json = r#"{"call_id":"call_2","tool_name":"fs.write","params":{},"rationale":"test"}"#;
    let parsed = read_action(&parse_json(json).unwrap()).unwrap();
    assert!(parsed.plan_task_id.is_none());
    assert_eq!(parsed.call_id, "call_2");
    assert_eq!(parsed.tool_name, "fs.write");
}

#[test]
fn planned_action_non_uuid_task_id_is_dropped() {
    let json = r#"{"call_id":"call_3","tool_name":"fs.write","params":{},"rationale":"test","plan_task_id":"explore-project"}"#;
    let parsed = read_action(&parse_json(json).unwrap()).unwrap();
    assert!(parsed.plan_task_id.is_none());
}

#[test]
fn incomplete_actions_are_not_read() {
    for text in [
        r#"{"call_id":"c","tool_name":"t","params":{}}"#,
        r#"{"call_id":1,"tool_name":"t","params":{},"rationale":"r"}"#,
        r#"{"call_id":"c","tool_name":"t","rationale":"r"}"#,
        r#"{"call_id":"c","tool_name":"t","params":{},"rationale":"r","plan_task_id":5}"#,
        r#"{"call_id":"c","tool_name":"t","params":{},"rationale":"r","origin_exec_thread_id":"no"}"#,
        r#""call""#,
    ] {
        assert!(read_action(&parse_json(text).unwrap()).is_none(), "{text}");
    }
}

#[test]
fn task_ids_are_lenient() {
    assert_eq!(deserialize_plan_task_id_lenient(&None), None);
    assert_eq!(deserialize_plan_task_id_lenient(&Some("".into())), None);
    assert_eq!(deserialize_plan_task_id_lenient(&Some("x".into())), None);
    assert_eq!(
        deserialize_plan_task_id_lenient(&Some("00000000-0000-0000-0000-00000000000a".into())),
        Some(PlanTaskId { raw: 10 })
    );
    let id = parse_json(r#""00000000-0000-0000-0000-000000000001""#).unwrap();
    assert_eq!(read_task_id(Some(&id)), Some(PlanTaskId { raw: 1 }));
    assert_eq!(read_task_id(None), None);
    let status = parse_json(r#""in_progress""#).unwrap();
    assert_eq!(read_task_status(Some(&status)), Some(PlanTaskStatus::InProgress));
}

#[test]
fn snapshot_delta_default_is_no_change() {
    let delta = SnapshotDelta::default();
    assert!(delta.plan_update.is_none());
    assert!(delta.working_memory_ops.is_none());
}

#[test]
fn reflect_protocol_roundtrip() {
    let proto = ReflectProtocol {
        outcome_assessment: "Action succeeded".into(),
        task_updates: vec![TaskStatusUpdate {
            task_id: PlanTaskId { raw: 99 },
            new_status: PlanTaskStatus::Completed,
            reason: Some("Action succeeded".into()),
        }],
        working_memory_ops: vec![WorkingMemoryOp::Put {
            key: "obs".into(),
            value: "learned something".into(),
            ttl_ticks: Some(10),
        }],
        observations: vec!["All good".into()],
        concerns: vec![],
        should_replan: false,
    };
    let json = write_json(&write_reflection(&proto));
    let parsed = parse_reflect_protocol(&json);
    assert_eq!(parsed.outcome_assessment, proto.outcome_assessment);
    assert_eq!(parsed.task_updates.len(), 1);
    assert_eq!(parsed.working_memory_ops.len(), 1);
    assert_eq!(parsed.task_updates, proto.task_updates);
    assert_eq!(parsed.observations, proto.observations);
}

#[test]
fn task_status_update_roundtrip() {
    let update = TaskStatusUpdate {
        task_id: PlanTaskId { raw: 12345 },
        new_status: PlanTaskStatus::Failed,
        reason: Some("Timeout".into()),
    };
    let json = write_json(&write_status_update(&update));
    let text = format!(r#"{{"outcome_assessment":"x","task_updates":[{json}]}}"#);
    let parsed = parse_reflect_protocol(&text);
    assert_eq!(vec![update], parsed.task_updates);
}

#[test]
fn extract_json_from_markdown_code_fence() {
    let text = r#"Here is data:

```json
{
    "tool_name": "fs.write"
}
```

Done."#;

    let json_str = extract_json_from_code_fence(text).unwrap();
    let parsed = parse_json(json_str).unwrap();
    assert_eq!(parsed.get_str("tool_name").unwrap(), "fs.write");
    assert!(extract_json_from_code_fence("no code fence here").is_none());
    assert_eq!(extract_json_from_code_fence("```json\n```"), Some(""));
}

#[test]
fn action_execution_holds_tool_result() {
    let execution = ActionExecution {
        action: PlannedAction {
            call_id: "call_4".into(),
            tool_name: "delay".into(),
            params: parse_json(r#"{"duration_ms": 1}"#).unwrap(),
            rationale: "test".into(),
            plan_task_id: None,
            origin_exec_thread_id: None,
            proposal_id: None,
        },
        result: Ok(parse_json(r#"{"status": "ok"}"#).unwrap()),
        record: ActionRecord {
            action_type: "delay".into(),
            target: "{}".into(),
            receipt_ref: None,
            outcome: ActionOutcome::Success,
            origin_exec_thread_id: None,
            proposal_id: None,
        },
        tool_result: ContentBlock::ToolResult {
            tool_use_id: "call_4".into(),
            content: "{\"status\":\"ok\"}".into(),
            is_error: false,
        },
        pending_question: false,
        code_diff: None,
    };
    match execution.tool_result {
        ContentBlock::ToolResult { tool_use_id, .. } => assert_eq!(tool_use_id, "call_4"),
        other => panic!("expected tool result, got {other:?}"),
    }
}

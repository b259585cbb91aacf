use exoskeleton_host::json::parse_json;
use exoskeleton_host::memory::{PlanTaskStatus, WorkingMemoryOp};
use exoskeleton_host::reflect::{
    build_reflect_user_message, heuristic_reflect, parse_reflect_protocol, reflect, wants_model,
    ReflectReply,
};
use exoskeleton_host::types::{
    ActionExecution, ActionOutcome, ActionRecord, ArtifactId, ContentBlock, LlmCallRecord,
    PlanTaskId, PlannedAction,
};

fn execution(name: &str, result: Result<&str, &str>) -> ActionExecution {
    let failed = result.is_err();
    ActionExecution {
        action: PlannedAction {
            call_id: format!("call_{name}"),
            tool_name: name.into(),
            params: parse_json("{}").unwrap(),
            rationale: "test".into(),
            plan_task_id: None,
            origin_exec_thread_id: None,
            proposal_id: None,
        },
        result: match result {
            Ok(text) => Ok(parse_json(text).unwrap()),
            Err(e) => Err(e.into()),
        },
        record: ActionRecord {
            action_type: name.into(),
            target: "test".into(),
            receipt_ref: None,
            outcome: if failed { ActionOutcome::Failure } else { ActionOutcome::Success },
            origin_exec_thread_id: None,
            proposal_id: None,
        },
        tool_result: ContentBlock::ToolResult {
            tool_use_id: format!("call_{name}"),
            content: "{}".into(),
            is_error: failed,
        },
        pending_question: false,
        code_diff: None,
    }
}

fn success_execution(name: &str) -> ActionExecution {
    execution(name, Ok(r#"{"ok": true}"#))
}

fn failure_execution(name: &str, error: &str) -> ActionExecution {
    execution(name, Err(error))
}

fn reply(text: &str) -> Option<ReflectReply> {
    Some(ReflectReply {
        text: text.into(),
        record: LlmCallRecord {
            model: "mock-model".into(),
            tokens_in: 100,
            tokens_out: 50,
            cost_micros: 500_000,
            latency_ms: 0,
            response_artifact_ref: Some(ArtifactId { digest: "response".into() }),
            turns: 1,
        },
    })
}

#[test]
fn heuristic_all_success() {
    let result = heuristic_reflect(&vec![
        success_execution("a"),
        success_execution("b"),
        success_execution("c"),
    ]);
    assert_eq!((result.successes, result.total), (3, 3));
    assert!(result.concerns.is_empty());
    assert!(result.task_updates.is_empty());
    assert!(result.working_memory_ops.is_empty());
    assert!(!result.should_replan);
    assert!(result.llm_call_record.is_none());
}

#[test]
fn heuristic_mixed_results() {
    let result = heuristic_reflect(&vec![
        success_execution("a"),
        success_execution("b"),
        failure_execution("c", "timeout"),
    ]);
    assert_eq!((result.successes, result.total), (2, 3));
    let rate = result.successes as f64 / result.total as f64;
    assert!((rate - 2.0 / 3.0).abs() < 0.01);
    assert!(result.concerns.is_empty());
}

#[test]
fn heuristic_no_actions() {
    let result = heuristic_reflect(&vec![]);
    assert!((result.successes as f64 / result.total as f64).is_nan());
    assert!(result.observations.iter().any(|o| o.contains("No actions taken")));
}

#[test]
fn heuristic_new_fields_defaulted() {
    let result = heuristic_reflect(&vec![success_execution("a")]);
    assert!(result.task_updates.is_empty());
    assert!(result.working_memory_ops.is_empty());
    assert!(!result.should_replan);
    assert!(result.llm_call_record.is_none());
}

#[test]
fn parse_reflect_protocol_unparseable() {
    let result = parse_reflect_protocol("This is just free text");
    assert_eq!(result.outcome_assessment, "This is just free text");
    assert!(result.task_updates.is_empty());
    assert!(result.observations.len() == 1);
}

#[test]
fn parse_reflect_protocol_code_fence() {
    let text = r#"Here is my reflection:

```json
{
    "outcome_assessment": "Actions succeeded",
    "task_updates": [],
    "working_memory_ops": [],
    "observations": ["All good"],
    "concerns": [],
    "should_replan": false
}
```
"#;
    let result = parse_reflect_protocol(text);
    assert_eq!(result.outcome_assessment, "Actions succeeded");
    assert_eq!(result.observations, vec!["All good"]);
}

#[test]
fn heuristic_all_failures() {
    let result = heuristic_reflect(&vec![
        failure_execution("a", "err1"),
        failure_execution("b", "err2"),
        failure_execution("c", "err3"),
    ]);
    assert_eq!((result.successes, result.total), (0, 3));
    assert!(result.concerns.iter().any(|c| c.contains("All actions failed")));
}

#[test]
fn heuristic_generates_observation_summary() {
    let result = heuristic_reflect(&vec![
        success_execution("delay"),
        failure_execution("fs.write", "denied"),
    ]);
    assert!(result.observations[0].contains("2 actions"));
    assert!(result.observations[0].contains("1 succeeded"));
    assert!(result.observations[0].contains("1 failed"));
}

#[test]
fn llm_reflect_returns_task_updates() {
    let task = "00000000-0000-0000-0000-00000000002a";
    let text = format!(
        r#"{{"outcome_assessment": "Task completed successfully", "task_updates": [{{"task_id": "{task}", "new_status": "completed", "reason": "Action succeeded"}}], "working_memory_ops": [], "observations": ["File written"], "concerns": [], "should_replan": false}}"#
    );
    let result = reflect(&vec![success_execution("fs.write")], false, reply(&text));
    assert_eq!(result.task_updates.len(), 1);
    assert_eq!(result.task_updates[0].task_id, PlanTaskId { raw: 42 });
    assert_eq!(result.task_updates[0].new_status, PlanTaskStatus::Completed);
    assert!(result.llm_call_record.is_some());
}

#[test]
fn llm_reflect_returns_working_memory_ops() {
    let text = r#"{"outcome_assessment": "Learned new info", "task_updates": [], "working_memory_ops": [{"op": "set", "key": "discovery", "value": "found config file"}], "observations": ["Config found"], "concerns": [], "should_replan": false}"#;
    let result = reflect(&vec![success_execution("fs.write")], false, reply(text));
    assert_eq!(result.working_memory_ops.len(), 1);
    match &result.working_memory_ops[0] {
        WorkingMemoryOp::Put { key, value, .. } => {
            assert_eq!(key, "discovery");
            assert_eq!(value, "found config file");
        }
        other => panic!("expected Put, got: {other:?}"),
    }
}

#[test]
fn llm_reflect_returns_should_replan() {
    let text = r#"{"outcome_assessment": "Plan is no longer viable", "task_updates": [], "working_memory_ops": [], "observations": ["Unexpected error pattern"], "concerns": ["Plan assumptions invalidated"], "should_replan": true}"#;
    let result = reflect(&vec![success_execution("fs.write")], false, reply(text));
    assert!(result.should_replan);
    assert!(!result.concerns.is_empty());
}

#[test]
fn llm_reflect_failure_falls_back_to_heuristic() {
    let result = reflect(&vec![success_execution("fs.write")], false, None);
    assert_eq!((result.successes, result.total), (1, 1));
    assert!(result.llm_call_record.is_none());
    assert!(result.task_updates.is_empty());
    assert!(result.working_memory_ops.is_empty());
    assert!(!result.should_replan);
}

#[test]
fn llm_reflect_cancelled_returns_heuristic() {
    let executions = vec![success_execution("fs.write")];
    assert!(!wants_model(&executions, true));
    let result =
        reflect(&executions, true, reply(r#"{"outcome_assessment":"should not see this"}"#));
    assert!(result.llm_call_record.is_none());
    assert_eq!((result.successes, result.total), (1, 1));
}

#[test]
fn llm_reflect_stores_response_artifact() {
    let text = r#"{"outcome_assessment": "OK", "task_updates": [], "working_memory_ops": [], "observations": ["Done"], "concerns": [], "should_replan": false}"#;
    let result = reflect(&vec![success_execution("fs.write")], false, reply(text));
    let record = result.llm_call_record.expect("should have LLM call record");
    let artifact_id = record.response_artifact_ref.expect("should have artifact ref");
    assert_eq!(artifact_id, ArtifactId { digest: "response".into() });
}

#[test]
fn reflect_no_actions_skips_llm() {
    assert!(!wants_model(&vec![], false));
    assert!(wants_model(&vec![success_execution("a")], false));
    let result = reflect(&vec![], false, reply("{}"));
    assert!(result.llm_call_record.is_none());
}

#[test]
fn the_model_is_told_what_happened() {
    let text = build_reflect_user_message(
        &None,
        "because",
        &vec![success_execution("a"), failure_execution("b", "denied")],
        "",
    );
    assert!(text.contains("because"));
    assert!(text.contains("denied"));
}

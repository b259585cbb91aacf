use exoskeleton_host::act::{outcome_label, start_act, summarize_text, HostSlot, ToolReport};
use exoskeleton_host::json::{parse_json, Json};
use exoskeleton_host::policy::PolicyDecision;
use exoskeleton_host::tick::{start_tick, SnapshotHead, TickEvent, TickRequest};
use exoskeleton_host::types::{
    ActionOutcome, ArtifactId, ContentBlock, DecisionResult, ExoError, LlmCallRecord,
    PlannedAction, SnapshotDelta, VesselMode,
};

fn action(tool: &str) -> PlannedAction {
    PlannedAction {
        call_id: format!("call_{tool}"),
        tool_name: tool.into(),
        params: parse_json(r#"{"duration_ms": 10}"#).unwrap(),
        rationale: "test delay".into(),
        plan_task_id: None,
        origin_exec_thread_id: None,
        proposal_id: None,
    }
}

fn report(result: Result<Json, String>) -> ToolReport {
    ToolReport {
        result,
        receipt_ref: Some(ArtifactId { digest: "receipt".into() }),
        pending_question: false,
        code_diff: None,
    }
}

fn ok() -> Result<Json, String> {
    Ok(parse_json(r#"{"slept_ms":10}"#).unwrap())
}

#[test]
fn act_with_no_actions() {
    for slot in [HostSlot::Empty, HostSlot::Locked, HostSlot::Ready] {
        let run = start_act(vec![], slot).unwrap();
        assert!(run.is_finished());
        assert!(run.executions.is_empty());
    }
}

#[test]
fn act_wi_host_not_available() {
    let e = start_act(vec![action("delay")], HostSlot::Empty).unwrap_err();
    assert_eq!(e, ExoError::Engine("WI host not available".into()));
    let e = start_act(vec![action("delay")], HostSlot::Locked).unwrap_err();
    assert_eq!(e, ExoError::Engine("WI host slot locked (concurrent access)".into()));
}

#[test]
fn reports_become_executions() {
    let mut run = start_act(vec![action("delay"), action("nonexistent.tool")], HostSlot::Ready).unwrap();
    let log = run.completed(report(ok()), false).unwrap();
    assert_eq!(
        log.executed.summary,
        "Action delay: succeeded \u{2014} {\"slept_ms\":10} (test delay)"
    );
    assert!(log.skipped.is_empty());
    let log = run.completed(report(Err("unknown tool".into())), false).unwrap();
    assert_eq!(
        log.executed.summary,
        "Action nonexistent.tool: failed: unknown tool (test delay)"
    );
    assert!(run.is_finished());
    let e = &run.executions[0];
    assert_eq!(e.record.outcome, ActionOutcome::Success);
    assert_eq!(e.record.target, r#"{"duration_ms":10}"#);
    assert_eq!(e.record.receipt_ref, Some(ArtifactId { digest: "receipt".into() }));
    assert!(matches!(
        &e.tool_result,
        ContentBlock::ToolResult { tool_use_id, content, is_error: false }
            if tool_use_id == "call_delay" && content == r#"{"slept_ms":10}"#
    ));
    let e = &run.executions[1];
    assert_eq!(e.record.outcome, ActionOutcome::Failure);
    assert!(e.result.is_err());
}

#[test]
fn a_cancelled_run_answers_every_action() {
    let mut run =
        start_act(vec![action("a"), action("b"), action("c")], HostSlot::Ready).unwrap();
    let log = run.completed(report(ok()), true).unwrap();
    assert_eq!(log.skipped.len(), 2);
    assert_eq!(log.skipped[0].summary, "Action b: skipped (cancelled) (test delay)");
    assert!(run.is_finished());
    assert_eq!(run.executions.len(), 3);
    assert_eq!(run.executions[2].record.outcome, ActionOutcome::Skipped);
    let names: Vec<&str> = run.executions.iter().map(|e| e.action.tool_name.as_str()).collect();
    assert_eq!(names, vec!["a", "b", "c"]);
}

#[test]
fn rate_limited_actions_are_not_executed() {
    let mut run = start_act(vec![action("a"), action("b")], HostSlot::Ready).unwrap();
    let event = run.rate_limited();
    assert_eq!(event.summary, "Action a: rate-limited (test delay)");
    assert_eq!(run.executions[0].record.outcome, ActionOutcome::RateLimited);
    assert_eq!(run.executions[0].result.as_ref().unwrap_err(), "rate_limited");
    assert_eq!(run.waiting.len(), 1);
}

#[test]
fn denied_actions_are_not_executed() {
    let mut run = start_act(vec![action("a"), action("b"), action("c")], HostSlot::Ready).unwrap();
    assert!(run.apply_policy(&PolicyDecision::Allowed).is_none());
    assert_eq!(run.waiting.len(), 3);
    let event = run.apply_policy(&PolicyDecision::Denied { reason: "no".into() }).unwrap();
    assert_eq!(event.summary, "Action a: no (test delay)");
    assert_eq!(run.executions[0].record.outcome, ActionOutcome::PolicyDenied);
    assert_eq!(run.executions[0].result.as_ref().unwrap_err(), "no");
    run.apply_policy(&PolicyDecision::NeedsApproval).unwrap();
    assert_eq!(run.executions[1].result.as_ref().unwrap_err(), "tool 'b' requires approval");
    assert_eq!(run.waiting.len(), 1);
}

#[test]
fn results_that_would_split_a_character_are_not_taken() {
    // The cut falls into the middle of a character of two bytes.
    let text = format!("\"{}{}\"", "x".repeat(495), "é".repeat(10));
    let mut run = start_act(vec![action("a")], HostSlot::Ready).unwrap();
    assert!(run.completed(report(Ok(parse_json(&text).unwrap())), false).is_none());
    assert_eq!(run.waiting.len(), 1);
    let text = format!("\"{}{}\"", "x".repeat(496), "é".repeat(10));
    assert!(run.completed(report(Ok(parse_json(&text).unwrap())), false).is_some());
}

#[test]
fn long_results_are_shortened() {
    assert_eq!(
        summarize_text(&"x".repeat(500)),
        format!("succeeded \u{2014} {}", "x".repeat(500))
    );
    assert_eq!(
        summarize_text(&"x".repeat(501)),
        format!("succeeded \u{2014} {}...", "x".repeat(497))
    );
}

#[test]
fn outcomes_have_labels() {
    assert_eq!(outcome_label(ActionOutcome::Success), "success");
    assert_eq!(outcome_label(ActionOutcome::RateLimited), "rate_limited");
    assert_eq!(outcome_label(ActionOutcome::PolicyDenied), "policy_denied");
}

fn decision(actions: Vec<PlannedAction>) -> DecisionResult {
    DecisionResult {
        reasoning: "r".into(),
        reply: None,
        actions,
        snapshot_delta: SnapshotDelta::default(),
        memory_notes: vec![],
        llm_call_record: LlmCallRecord {
            model: "mock".into(),
            tokens_in: 0,
            tokens_out: 0,
            cost_micros: 0,
            latency_ms: 0,
            response_artifact_ref: None,
            turns: 1,
        },
        response_artifact_id: ArtifactId { digest: "resp".into() },
        watch_proposals: vec![],
        vessel_mode_request: None,
    }
}

#[test]
fn act_does_not_call_wi_host_from_other_steps() {
    let events = vec![
        TickEvent::SnapshotLoaded(Ok(Some(SnapshotHead { tick_number: 4, terminal: false }))),
        TickEvent::SnapshotStored(Ok(())),
        TickEvent::Perceived(Ok(vec![])),
        TickEvent::ThreadsRan {
            threads: Ok(vec![]),
            exec_threads: Ok(vec![]),
            poll_actions: vec![],
            cancelled: false,
        },
        TickEvent::Oriented { result: Ok(vec![]), cancelled: false },
        TickEvent::Decided {
            result: Ok(decision(vec![action("delay"), action("blocked")])),
            threads: vec![],
            summaries: vec![],
            mode: VesselMode::Normal,
        },
        TickEvent::Settled { cancelled: false },
        TickEvent::Aligned(vec![action("delay")]),
    ];
    let (mut run, mut request) = start_tick(false, None);
    for event in events {
        assert!(
            !matches!(request, TickRequest::Act { .. }),
            "only the Act step hands actions to the tools"
        );
        (run, request) = run.step(event);
    }
    match request {
        TickRequest::Act { actions } => {
            assert_eq!(actions.len(), 1);
            assert_eq!(actions[0].tool_name, "delay");
        }
        other => panic!("expected Act, got {other:?}"),
    }
    let (run, request) = run.step(TickEvent::Acted(Ok(vec![])));
    assert!(matches!(request, TickRequest::Reflect { .. }));
    drop(run);
}

use exoskeleton_host::decide::{
    action_rationale, build_system_prompt, check_escalation_triggers, extract_high_threat,
    introspection_queries, needed_plan_section, resolve_backend, start_decide, DecideNext,
    EscalationSigns, FrontierBudget, ThreatSeverity,
};
use exoskeleton_host::exec_threads::{
    ExecThreadKind, ExecThreadLocalState, ExecThreadOutput, ExecThreadProposal,
    ExecThreadProposalConfidence, ExecThreadSpec, ExecThreadStatus,
};
use exoskeleton_host::decision_json::write_plan_update;
use exoskeleton_host::json::{parse_json, write_json, Json};
use exoskeleton_host::llm::{LlmBackend, LlmResponse, StopReason};
use exoskeleton_host::memory::{Plan, PlanTask, PlanTaskStatus, PlanUpdate};
use exoskeleton_host::proposals::read_plan_update;
use exoskeleton_host::settle::{
    annotate_exec_thread_origins, latest_coding_exec_thread_proposals,
    reconcile_exec_thread_proposals, settle_decision, ListedThread,
};
use exoskeleton_host::types::{
    ArtifactId, ContentBlock, DecisionResult, ExoError, LlmCallRecord, PlannedAction,
    PlanTaskId, SnapshotDelta, ThreadId, TickId, VesselMode,
};

fn json(text: &str) -> Json {
    parse_json(text).unwrap()
}

fn record() -> LlmCallRecord {
    LlmCallRecord {
        model: "mock".into(),
        tokens_in: 10,
        tokens_out: 5,
        cost_micros: 0,
        latency_ms: 1,
        response_artifact_ref: None,
        turns: 1,
    }
}

fn id(digest: &str) -> ArtifactId {
    ArtifactId { digest: digest.into() }
}

fn tool_use(call: &str, name: &str, input: &str) -> ContentBlock {
    ContentBlock::ToolUse { id: call.into(), name: name.into(), input: json(input) }
}

fn response(content_blocks: Vec<ContentBlock>) -> LlmResponse {
    LlmResponse {
        content_blocks,
        model: "mock".into(),
        tokens_in: 10,
        tokens_out: 5,
        latency_ms: 1,
        stop_reason: StopReason::ToolUse,
        cost_micros: None,
        backend: LlmBackend::Local,
    }
}

#[test]
fn conversations_end_with_actions() {
    let run = start_decide("context", 3, false).unwrap();
    assert_eq!(run.next(false, None), DecideNext::Ask);
    let said = response(vec![
        ContentBlock::Text { text: "thinking".into() },
        tool_use("c1", "reply_to_user", r#"{"message": "hi"}"#),
        tool_use("c2", "introspect_budget_status", "{}"),
    ]);
    assert_eq!(introspection_queries(&said.content_blocks).len(), 1);
    let (run, go_on) =
        run.take_turn(said, record(), id("r1"), &vec![Ok(json(r#"{"left": 1}"#))]);
    assert!(go_on);
    assert_eq!(run.accumulator.reply.as_deref(), Some("hi"));
    assert!(run.accumulator.actions.is_empty());
    // The answers to the two calls stand in the last message.
    let answers = run.messages.last().unwrap();
    assert_eq!(answers.content.len(), 2);
    let said = response(vec![tool_use("c3", "code.read", r#"{"file_path": "a"}"#)]);
    let (run, go_on) = run.take_turn(said, record(), id("r2"), &vec![]);
    assert!(!go_on);
    let d = run.finish(record()).unwrap();
    assert_eq!(d.actions.len(), 1);
    assert_eq!(d.actions[0].tool_name, "code.read");
    assert_eq!(d.actions[0].call_id, "c3");
    assert_eq!(d.response_artifact_id, id("r2"));
    assert_eq!(d.llm_call_record.response_artifact_ref, Some(id("r2")));
    assert_eq!(d.reply.as_deref(), Some("hi"));
}

#[test]
fn conversations_are_bounded() {
    assert_eq!(
        start_decide("c", 3, true).err().unwrap(),
        ExoError::LlmInvocation("cancelled before Decide step".into())
    );
    let run = start_decide("c", 0, false).unwrap();
    assert_eq!(run.next(false, None), DecideNext::Stop);
    assert_eq!(
        run.finish(record()).err().unwrap(),
        ExoError::LlmInvocation("Decide produced no LLM response artifact".into())
    );
    let run = start_decide("c", 3, false).unwrap();
    assert_eq!(
        run.next(true, None),
        DecideNext::Fail(ExoError::LlmInvocation("cancelled during Decide loop".into()))
    );
    assert_eq!(run.next(false, Some(0)), DecideNext::Ask);
    let (run, _) = run.take_turn(
        response(vec![tool_use("c", "save_memory_note", r#"{"note": "n"}"#)]),
        record(),
        id("r"),
        &vec![],
    );
    assert_eq!(run.next(false, Some(0)), DecideNext::Stop);
}

fn signs() -> EscalationSigns {
    EscalationSigns {
        consecutive_failures: 0,
        failure_threshold: 3,
        uncertain: false,
        threat: None,
    }
}

fn budget() -> FrontierBudget {
    FrontierBudget {
        remaining_tokens: 1000,
        remaining_cost: 10,
        calls_this_window: 0,
        max_calls_per_window: 5,
    }
}

#[test]
fn escalation_to_the_stronger_model() {
    let local = LlmBackend::Local;
    assert!(!check_escalation_triggers(&signs()));
    assert!(extract_high_threat(Some(ThreatSeverity::Critical)));
    assert!(!extract_high_threat(Some(ThreatSeverity::Lower)));
    let urgent = EscalationSigns { consecutive_failures: 3, ..signs() };
    assert_eq!(resolve_backend(local, true, &urgent, Some(budget())), LlmBackend::Frontier);
    assert_eq!(resolve_backend(local, false, &urgent, Some(budget())), local);
    assert_eq!(resolve_backend(local, true, &urgent, None), local);
    assert_eq!(resolve_backend(local, true, &signs(), Some(budget())), local);
    for spent in [
        FrontierBudget { remaining_tokens: 0, ..budget() },
        FrontierBudget { remaining_cost: 0, ..budget() },
        FrontierBudget { calls_this_window: 5, ..budget() },
    ] {
        assert_eq!(resolve_backend(local, true, &urgent, Some(spent)), local);
    }
}

#[test]
fn prompts_of_decisions() {
    assert_eq!(action_rationale("  why \n", "t"), "why");
    assert_eq!(action_rationale(" ", "t"), "model selected t");
    assert_eq!(build_system_prompt("base".into(), &None), "base");
    assert_eq!(build_system_prompt("base".into(), &Some("code".into())), "base\n\ncode");
    assert!(needed_plan_section(false, VesselMode::Normal).is_none());
    assert!(needed_plan_section(false, VesselMode::Planning).unwrap().contains("Planning"));
}

fn action(tool: &str) -> PlannedAction {
    PlannedAction {
        call_id: "c".into(),
        tool_name: tool.into(),
        params: json("{}"),
        rationale: "r".into(),
        plan_task_id: None,
        origin_exec_thread_id: None,
        proposal_id: None,
    }
}

fn output(raw: u128, tool: &str, sure: bool) -> ExecThreadOutput {
    ExecThreadOutput {
        thread_id: ThreadId { raw },
        tick_id: TickId { raw: 1 },
        artifact_id: id("o"),
        kind: ExecThreadKind::Coding,
        summary: "s".into(),
        status: ExecThreadStatus::Active,
        evidence_complete: sure,
        proposal_confidence: Some(ExecThreadProposalConfidence::High),
        proposed_action: Some(ExecThreadProposal {
            proposal_id: format!("p{raw}"),
            tool_name: tool.into(),
            params: json(r#"{"x": 1}"#),
            rationale: "fix".into(),
        }),
        local_state: ExecThreadLocalState::default(),
    }
}

fn listed(raw: u128, status: ExecThreadStatus, latest: Option<ExecThreadOutput>) -> ListedThread {
    ListedThread {
        spec: ExecThreadSpec {
            thread_id: ThreadId { raw },
            kind: ExecThreadKind::Coding,
            name: "Coding".into(),
            charter: "c".into(),
            token_budget: 1,
            workspace_root: None,
        },
        status,
        latest,
    }
}

#[test]
fn failed_threads_propose_nothing() {
    let live = latest_coding_exec_thread_proposals(vec![
        listed(1, ExecThreadStatus::Failed, Some(output(1, "code.edit", true))),
        listed(2, ExecThreadStatus::Idle, Some(output(2, "code.edit", true))),
        listed(3, ExecThreadStatus::Active, None),
    ]);
    assert_eq!(live.len(), 1);
    assert_eq!(live[0].0, ThreadId { raw: 2 });
}

#[test]
fn origins_are_given_once() {
    let outputs = vec![(ThreadId { raw: 2 }, output(2, "code.edit", true))];
    let mut owned = action("code.edit");
    owned.origin_exec_thread_id = Some(ThreadId { raw: 9 });
    let mut actions = vec![action("code.edit"), owned, action("code.read")];
    annotate_exec_thread_origins(&mut actions, &outputs);
    assert_eq!(actions[0].origin_exec_thread_id, Some(ThreadId { raw: 2 }));
    assert_eq!(actions[0].proposal_id.as_deref(), Some("p2"));
    assert_eq!(actions[1].origin_exec_thread_id, Some(ThreadId { raw: 9 }));
    assert_eq!(actions[2].origin_exec_thread_id, None);
    let two = vec![
        (ThreadId { raw: 2 }, output(2, "code.edit", true)),
        (ThreadId { raw: 3 }, output(3, "code.edit", true)),
    ];
    let mut actions = vec![action("code.edit")];
    annotate_exec_thread_origins(&mut actions, &two);
    assert_eq!(actions[0].origin_exec_thread_id, None);
}

#[test]
fn changes_replace_exploration() {
    let outputs = vec![(ThreadId { raw: 2 }, output(2, "code.edit", true))];
    let r = reconcile_exec_thread_proposals(vec![action("code.read"), action("code.ls")], &outputs);
    assert_eq!(r.len(), 1);
    assert_eq!(r[0].tool_name, "code.edit");
    assert_eq!(r[0].call_id, "exec-proposal-p2");
    assert_eq!(r[0].origin_exec_thread_id, Some(ThreadId { raw: 2 }));
    let kept = reconcile_exec_thread_proposals(vec![action("code.read"), action("delay")], &outputs);
    assert_eq!(kept.len(), 2);
    let unsure = vec![(ThreadId { raw: 2 }, output(2, "code.edit", false))];
    assert_eq!(
        reconcile_exec_thread_proposals(vec![action("code.read")], &unsure)[0].tool_name,
        "code.read"
    );
    assert!(reconcile_exec_thread_proposals(vec![], &outputs).is_empty());
}

#[test]
fn decisions_are_settled() {
    let d = DecisionResult {
        reasoning: "r".into(),
        reply: None,
        actions: vec![action("code.read")],
        snapshot_delta: SnapshotDelta::default(),
        memory_notes: vec![],
        llm_call_record: record(),
        response_artifact_id: id("a"),
        watch_proposals: vec![],
        vessel_mode_request: Some(VesselMode::Executing),
    };
    let s = settle_decision(d, vec![], true, VesselMode::Normal);
    assert!(s.decision.actions.is_empty());
    assert_eq!(s.mode, VesselMode::Normal);
    assert!(s.transition.is_none());
    assert!(!s.keep_draft);
}

#[test]
fn plan_draft_artifact_stored_in_planning() {
    let decide = |vessel_mode_request| {
        let update = PlanUpdate::Replace {
            plan: Plan {
                objective: "Refactor auth module".into(),
                tasks: vec![PlanTask {
                    id: PlanTaskId { raw: 1 },
                    description: "Read current code".into(),
                    status: PlanTaskStatus::Pending,
                    depends_on: vec![],
                    tool_hint: None,
                }],
                updated_at: None,
            },
        };
        DecisionResult {
            reasoning: "r".into(),
            reply: None,
            actions: vec![],
            snapshot_delta: SnapshotDelta { plan_update: Some(update), working_memory_ops: None },
            memory_notes: vec![],
            llm_call_record: record(),
            response_artifact_id: id("a"),
            watch_proposals: vec![],
            vessel_mode_request,
        }
    };
    let s = settle_decision(decide(None), vec![], false, VesselMode::Planning);
    assert!(s.keep_draft, "storing PlanDraft must succeed");
    let draft = s.decision.snapshot_delta.plan_update.unwrap();
    let stored = write_json(&write_plan_update(&draft));
    assert_eq!(read_plan_update(&json(&stored)), Some(draft));
    // The mode after the decision counts.
    let s = settle_decision(decide(Some(VesselMode::Planning)), vec![], false, VesselMode::Normal);
    assert!(s.keep_draft);
    assert!(!settle_decision(decide(None), vec![], false, VesselMode::Normal).keep_draft);
}

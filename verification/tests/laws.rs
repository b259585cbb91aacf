use exoskeleton_host::align::AlignmentResult;
use exoskeleton_host::amend::{amend, can_quote, AmendInput, StateSnapshot, VesselStatus};
use exoskeleton_host::anthropic::{
    anthropic_content_from_blocks, parse_anthropic_response_blocks, AnthropicContent,
};
use exoskeleton_host::compaction::{try_plan_compaction, CompactionConfig, EpisodicSummary};
use exoskeleton_host::diff_tracker::DiffTracker;
use exoskeleton_host::exec_threads::{
    can_preview, settle_coding_turn, CodingFeedbackState, ExecThreadLocalState, ExecThreadStatus,
    ResolvedResult,
};
use exoskeleton_host::json::parse_json;
use exoskeleton_host::llm::{collect_text, LlmBackend, LlmMessage, LlmRole};
use exoskeleton_host::memory::{Plan, WorkingMemory};
use exoskeleton_host::orient::messages_to_resolve;
use exoskeleton_host::perceive::{Conversation, ConversationId, EnvelopeId, PrincipalId};
use exoskeleton_host::requests::{
    coding_request, decide_lite_request, decide_request, reflect_backend, reflect_request,
};
use exoskeleton_host::session::{start_session, DoomLoopStatus, SessionEvent, SessionRequest};
use exoskeleton_host::tick::{start_tick, SnapshotHead, TickEvent, TickRequest};
use exoskeleton_host::tool_defs::{
    cognitive_tool_definitions, introspection_tool_definitions, is_cognitive_tool,
    is_introspection_tool,
};
use exoskeleton_host::tools::connector_tool_definitions;
use exoskeleton_host::types::{
    ArtifactId, CodeDiffContent, CodeDiffOperation, ContentBlock, DecisionResult, HandlerOutput,
    LlmCallRecord, PlannedAction, SnapshotDelta, ThreadId, TickId, Timestamp, VesselId, VesselMode,
};
use exoskeleton_host::virtual_tools::{
    is_virtual_tool, virtual_tool_definitions, ConnectorCategory, Descriptor,
};

fn id(digest: &str) -> ArtifactId {
    ArtifactId { digest: digest.into() }
}

#[test]
fn plans_stay_without_an_update() {
    let before = StateSnapshot {
        vessel_id: VesselId { raw: 1 },
        mission: "m".into(),
        tick_number: 4,
        updated_at: Timestamp { nanos: 0 },
        status: VesselStatus::Idle,
        vessel_mode: VesselMode::Normal,
        plan: Some(Plan { objective: "keep".into(), tasks: vec![], updated_at: None }),
        working_memory: WorkingMemory { entries: vec![] },
        last_action_summary: None,
        thread_summaries: vec![],
        exec_thread_summaries: vec![],
        relationship_snapshot_ref: Some(id("old")),
        budget_status: parse_json("{}").unwrap(),
    };
    let after = amend(
        before,
        AmendInput {
            tick_number: 5,
            now: Timestamp { nanos: 9 },
            now_text: "now".into(),
            plan_update: None,
            decide_ops: None,
            task_updates: vec![],
            reflect_ops: vec![],
            vessel_mode: VesselMode::Planning,
            outcomes: vec![],
            thread_summaries: None,
            exec_thread_summaries: None,
            return_to_idle: false,
            new_messages: false,
            relationship_snapshot_ref: None,
            budget_status: None,
        },
    );
    assert_eq!(after.plan.unwrap().objective, "keep");
    assert_eq!(after.relationship_snapshot_ref, Some(id("old")));
    assert_eq!(after.vessel_mode, VesselMode::Planning);
}

#[test]
fn messages_come_back_from_the_wire() {
    let sent = vec![
        ContentBlock::Text { text: "t".into() },
        ContentBlock::ToolUse {
            id: "i".into(),
            name: "agent.ask_user".into(),
            input: parse_json("{}").unwrap(),
        },
        ContentBlock::ToolResult { tool_use_id: "i".into(), content: "c".into(), is_error: true },
    ];
    match anthropic_content_from_blocks(&sent) {
        AnthropicContent::Blocks(blocks) => {
            let back = parse_anthropic_response_blocks(blocks);
            assert_eq!(back.len(), 3);
            assert!(matches!(&back[0], ContentBlock::Text { text } if text == "t"));
            assert!(matches!(&back[1], ContentBlock::ToolUse { name, .. } if name == "agent.ask_user"));
            assert!(matches!(&back[2], ContentBlock::ToolResult { is_error: true, .. }));
        }
        other => panic!("expected Blocks, got {other:?}"),
    }
}

#[test]
fn messages_are_fetched_once() {
    let conversation = |raw: u128| {
        Conversation::from_first_message(
            ConversationId { raw },
            PrincipalId { raw: 1 },
            EnvelopeId { raw },
            id("same"),
            Timestamp { nanos: 0 },
        )
    };
    assert_eq!(messages_to_resolve(&vec![conversation(1), conversation(2)]), vec![id("same")]);
}

#[test]
fn verified_work_ends_idle() {
    let local = ExecThreadLocalState {
        verification_pending: true,
        verification_attempted: true,
        ..ExecThreadLocalState::default()
    };
    let feedback = CodingFeedbackState {
        mutating_success: false,
        mutating_failure: false,
        verification_success: true,
    };
    let out = settle_coding_turn(
        ThreadId { raw: 1 },
        TickId { raw: 2 },
        id("a"),
        r#"{"status": "active", "summary": "checking", "proposed_action": {"tool_name": "code.read", "params": {"file_path": "/a"}, "rationale": "again"}}"#,
        false,
        true,
        &local,
        &feedback,
    );
    assert_eq!(out.status, ExecThreadStatus::Idle);
    assert!(out.proposed_action.is_none());
}

fn action(tool: &str) -> PlannedAction {
    PlannedAction {
        call_id: "c".into(),
        tool_name: tool.into(),
        params: parse_json("{}").unwrap(),
        rationale: "r".into(),
        plan_task_id: None,
        origin_exec_thread_id: None,
        proposal_id: None,
    }
}

fn decision(actions: Vec<PlannedAction>) -> DecisionResult {
    DecisionResult {
        reasoning: "r".into(),
        reply: None,
        actions,
        snapshot_delta: SnapshotDelta::default(),
        memory_notes: vec![],
        llm_call_record: LlmCallRecord {
            model: "m".into(),
            tokens_in: 7,
            tokens_out: 3,
            cost_micros: 0,
            latency_ms: 0,
            response_artifact_ref: None,
            turns: 1,
        },
        response_artifact_id: id("d"),
        watch_proposals: vec![],
        vessel_mode_request: None,
    }
}

#[test]
fn sessions_only_grow() {
    let (s, _) = start_session(decision(vec![action("a")]), 2, DiffTracker::new(1));
    let (s, _) = s.step(SessionEvent::Checked { stop: None, cancelled: false });
    let (s, _) = s.step(SessionEvent::Aligned(AlignmentResult {
        approved_actions: vec![action("a")],
        blocked_actions: vec![],
        relationship_updates: vec![],
        relationship_snapshot: None,
    }));
    let (s, r) = s.step(SessionEvent::Acted {
        result: Ok(vec![]),
        doom: DoomLoopStatus::CorrectionNeeded {
            tool: "a".into(),
            count: 3,
            last_error: None,
        },
    });
    assert!(matches!(&r, SessionRequest::Decide { correction: Some(t) } if t.contains("3 times")));
    let (s, r) = s.step(SessionEvent::Decided(Ok(decision(vec![]))));
    match r {
        SessionRequest::Continue { announcement, detail, changes } => {
            assert_eq!(announcement, "Step 1/2: no actions");
            assert_eq!(detail.tokens_this_step, 10);
            assert_eq!(detail.tool_name, None);
            assert_eq!(changes, None);
        }
        other => panic!("expected Continue, got {other:?}"),
    }
    assert_eq!(s.llm_call_records.len(), 1);
    let (s, r) = s.step(SessionEvent::Checked { stop: None, cancelled: false });
    assert!(matches!(r, SessionRequest::Finish(_)));
    assert_eq!(s.step, 1);
}

#[test]
fn cancelled_ticks_can_be_retried() {
    let (run, _) = start_tick(false, None);
    let head = SnapshotHead { tick_number: 1, terminal: false };
    let (run, _) = run.step(TickEvent::SnapshotLoaded(Ok(Some(head))));
    let (run, _) = run.step(TickEvent::SnapshotStored(Ok(())));
    let (run, _) = run.step(TickEvent::Perceived(Ok(vec![])));
    let (_, r) = run.step(TickEvent::ThreadsRan {
        threads: Ok(vec![]),
        exec_threads: Ok(vec![]),
        poll_actions: vec![],
        cancelled: true,
    });
    match r {
        TickRequest::Finish(f) => match f.output {
            HandlerOutput::RetryableFailure { error, .. } => {
                assert_eq!(error, "cancelled after Perceive");
            }
            other => panic!("expected RetryableFailure, got {other:?}"),
        },
        other => panic!("expected Finish, got {other:?}"),
    }
}

#[test]
fn terminal_vessels_do_nothing() {
    let (run, _) = start_tick(false, None);
    let head = SnapshotHead { tick_number: 1, terminal: true };
    let (_, r) = run.step(TickEvent::SnapshotLoaded(Ok(Some(head))));
    assert!(matches!(
        r,
        TickRequest::Finish(f) if matches!(f.output, HandlerOutput::Success { output: None, .. })
    ));
}

#[test]
fn signal_tools_stay_hidden() {
    let connector = |name: &str| Descriptor {
        name: name.into(),
        display_name: name.into(),
        description: "d".into(),
        category: ConnectorCategory::Delay,
        input_schema: None,
        output_schema: None,
        idempotent: true,
        side_effects: false,
        is_read_only: true,
        is_mutating: false,
        is_concurrency_safe: true,
        requires_read_before_write: false,
    };
    let shown = connector_tool_definitions(vec![
        connector("signal.await"),
        connector("delay"),
        connector("signal.emit"),
    ]);
    assert_eq!(shown.len(), 1);
    assert_eq!(shown[0].name, "delay");
}

#[test]
fn requests_of_the_steps() {
    let messages = vec![LlmMessage::text(LlmRole::User, "hello")];
    let tools = cognitive_tool_definitions();
    let q = decide_request("system", &messages, LlmBackend::Frontier, 100, &tools);
    assert_eq!(q.backend, Some(LlmBackend::Frontier));
    assert_eq!(q.temperature.as_deref(), Some("0.7"));
    assert!(q.stream);
    assert_eq!(q.tools.len(), 6);
    assert_eq!(collect_text(&q.messages[0].content), "hello");
    let q = decide_lite_request("system".into(), messages, 100);
    assert_eq!(q.backend, None);
    assert_eq!(q.temperature.as_deref(), Some("0.3"));
    assert!(q.stream && q.tools.is_empty());
    let q = coding_request(None, "prompt", LlmBackend::Local, 101);
    assert_eq!(q.max_output_tokens, 50);
    assert!(q.system_prompt.unwrap().starts_with("You are an executable coding thread."));
    assert!(!q.stream);
    let q = coding_request(Some("own".into()), "prompt", LlmBackend::Local, 100);
    assert_eq!(q.system_prompt.as_deref(), Some("own"));
    let q = reflect_request("system".into(), "what", 100);
    assert_eq!(q.max_output_tokens, 50);
    assert_eq!(collect_text(&q.messages[0].content), "what");
    assert_eq!(reflect_backend(true, true).unwrap(), LlmBackend::Local);
    assert_eq!(reflect_backend(false, true).unwrap(), LlmBackend::Frontier);
    assert!(reflect_backend(false, false).is_err());
}

#[test]
fn callers_can_test_what_is_required() {
    assert!(can_quote(&"x".repeat(81)));
    assert!(!can_quote(&format!("{}é{}", "x".repeat(79), "y".repeat(9))));
    let summary = |text: String, end_tick: u64| EpisodicSummary {
        id: id("s"),
        start_tick: 1,
        end_tick,
        summary: text,
        key_events: vec![],
    };
    let uncut = || summary(format!("{}é{}", "x".repeat(96), "y".repeat(9)), 5);
    let config = CompactionConfig { preserve_recent: 1 };
    let planned = |all| try_plan_compaction(all, &config).map(|merges| merges.len());
    // The newest summary stays, and one that stands alone is not quoted.
    assert_eq!(planned(vec![uncut()]), Some(0));
    assert_eq!(planned(vec![uncut(), uncut()]), Some(0));
    assert_eq!(planned(vec![uncut(), uncut(), uncut()]), None);
    let short = |end_tick| summary("short".into(), end_tick);
    assert_eq!(planned(vec![short(u64::MAX), short(u64::MAX)]), Some(0));
    assert_eq!(planned(vec![short(1), short(u64::MAX), short(2)]), None);
    assert_eq!(planned(vec![short(1), short(2), short(u64::MAX)]), Some(1));
    let result = |text: String| ResolvedResult {
        summary: "s".into(),
        receipt: Some(text.into_bytes()),
    };
    assert!(can_preview(&vec![result("x".repeat(1300))]));
    assert!(!can_preview(&vec![result(format!("{}é{}", "x".repeat(1199), "y"))]));
    let mut tracker = DiffTracker::new(1);
    for lines_added in [1, i64::MAX] {
        tracker.record(
            id("d"),
            CodeDiffContent {
                file_path: "f".into(),
                tool_name: "t".into(),
                operation: CodeDiffOperation::Edit,
                diff_text: "".into(),
                lines_added,
                lines_removed: 0,
                before_sha256: None,
                after_sha256: None,
            },
        );
    }
    assert!(!tracker.fits());
    assert!(DiffTracker::new(1).fits());
}

#[test]
fn no_tool_belongs_to_two_groups() {
    let mut all = cognitive_tool_definitions();
    all.append(&mut introspection_tool_definitions());
    all.append(&mut virtual_tool_definitions());
    assert_eq!(all.len(), 16);
    for tool in &all {
        let name = tool.name.as_str();
        let groups = [is_cognitive_tool(name), is_introspection_tool(name), is_virtual_tool(name)];
        assert_eq!(groups.iter().filter(|g| **g).count(), 1, "{name}");
    }
}

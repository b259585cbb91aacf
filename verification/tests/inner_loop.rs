use exoskeleton_host::align::AlignmentResult;
use exoskeleton_host::diff_tracker::DiffTracker;
use exoskeleton_host::inner_loop::{
    build_doom_loop_correction, build_mode_context, build_tools_description, decide_lite_messages,
    format_decision_summary, parse_decide_lite_response,
};
use exoskeleton_host::json::parse_json;
use exoskeleton_host::session::{
    build_step_diff_summary, session_completed_text, session_started_text, start_session,
    DoomLoopStatus, SessionCompletionReason, SessionEvent, SessionRequest,
};
use exoskeleton_host::types::{
    ActionExecution, ActionOutcome, ActionRecord, ArtifactId, CodeDiffContent, CodeDiffOperation,
    ContentBlock, DecisionResult, ExoError, LlmCallRecord, PlannedAction, SnapshotDelta,
    VesselMode,
};

fn call_record() -> LlmCallRecord {
    LlmCallRecord {
        model: "mock".into(),
        tokens_in: 10,
        tokens_out: 5,
        cost_micros: 0,
        latency_ms: 0,
        response_artifact_ref: None,
        turns: 1,
    }
}

fn id(digest: &str) -> ArtifactId {
    ArtifactId { digest: digest.into() }
}

fn action(tool: &str) -> PlannedAction {
    PlannedAction {
        call_id: "c".into(),
        tool_name: tool.into(),
        params: parse_json("{}").unwrap(),
        rationale: "because".into(),
        plan_task_id: None,
        origin_exec_thread_id: None,
        proposal_id: None,
    }
}

fn decision(actions: Vec<PlannedAction>) -> DecisionResult {
    DecisionResult {
        reasoning: "think".into(),
        reply: None,
        actions,
        snapshot_delta: SnapshotDelta::default(),
        memory_notes: vec![],
        llm_call_record: call_record(),
        response_artifact_id: id("resp"),
        watch_proposals: vec![],
        vessel_mode_request: None,
    }
}

fn alignment(approved: Vec<PlannedAction>) -> AlignmentResult {
    AlignmentResult {
        approved_actions: approved,
        blocked_actions: vec![],
        relationship_updates: vec![],
        relationship_snapshot: None,
    }
}

#[test]
fn doom_loop_correction_message_format() {
    let msg = build_doom_loop_correction("code.grep", 3, Some("pattern not found"));
    assert!(msg.contains("code.grep"));
    assert!(msg.contains("3 times"));
    assert!(msg.contains("pattern not found"));
    assert!(msg.contains("different approach"));
}

#[test]
fn mode_context_names_the_mode() {
    assert!(build_mode_context(VesselMode::Planning).contains("Planning"));
    assert!(build_mode_context(VesselMode::Executing).contains("Executing"));
    assert_eq!(build_mode_context(VesselMode::Normal), "");
}

#[test]
fn inner_loop_completed_event_has_diff_summary() {
    let mut tracker = DiffTracker::new(3);
    tracker.record(
        id("diff-a"),
        CodeDiffContent {
            file_path: "src/main.rs".into(),
            tool_name: "code.edit".into(),
            operation: CodeDiffOperation::Edit,
            diff_text: "--- a/src/main.rs\n+++ b/src/main.rs\n".into(),
            lines_added: 4,
            lines_removed: 1,
            before_sha256: None,
            after_sha256: None,
        },
    );
    assert_eq!(
        session_completed_text(2, 0, "agent_complete"),
        "Inner loop completed after 2 steps (0 tokens): agent_complete"
    );
    let diff_summary = tracker.build_event_summary().expect("diff summary must be present");
    assert_eq!(diff_summary.files_modified, 1);
    assert_eq!(diff_summary.lines_added, 4);
    assert_eq!(diff_summary.lines_removed, 1);
}

#[test]
fn sessions_announce_themselves() {
    assert_eq!(
        session_started_text(5, 1000),
        "Inner loop started (max 5 steps, 1000 token budget)"
    );
    assert!(build_step_diff_summary(&vec![]).is_none());
}

#[test]
fn lite_decisions_are_read() {
    let d = parse_decide_lite_response(
        r#"{"reasoning": "go", "actions": [{"call_id": "c", "tool_name": "code.read", "params": {}, "rationale": "r"}]}"#,
        call_record(),
        id("a"),
    );
    assert_eq!(d.reasoning, "go");
    assert_eq!(d.actions.len(), 1);
    assert_eq!(d.response_artifact_id, id("a"));
    let d = parse_decide_lite_response("no json", call_record(), id("a"));
    assert!(d.actions.is_empty());
    assert!(d.reasoning.contains("no json"));
}

#[test]
fn summaries_of_decisions() {
    let text = format_decision_summary(&decision(vec![action("code.read")]));
    assert!(text.contains("Reasoning: think"));
    assert!(text.contains("code.read"));
    assert_eq!(build_tools_description(&None), "(no tools available)");
}

#[test]
fn lite_messages_hold_the_correction() {
    let messages = decide_lite_messages(
        "context",
        &vec![],
        &decision(vec![]),
        &Some("try something else".into()),
        3,
    )
    .unwrap();
    let texts: Vec<String> = messages
        .iter()
        .map(|m| exoskeleton_host::llm::collect_text(&m.content))
        .collect();
    assert!(texts.iter().any(|t| t.contains("context")));
    assert!(texts.iter().any(|t| t.contains("try something else")));
}

#[test]
fn sessions_act_on_what_was_approved() {
    let (s, r) = start_session(decision(vec![action("a"), action("b")]), 3, DiffTracker::new(7));
    assert!(matches!(r, SessionRequest::CheckBudget));
    let (s, r) = s.step(SessionEvent::Checked { stop: None, cancelled: false });
    assert!(matches!(r, SessionRequest::Align));
    let (s, r) = s.step(SessionEvent::Aligned(alignment(vec![action("a")])));
    match r {
        SessionRequest::Act { actions } => {
            assert_eq!(actions.len(), 1);
            assert_eq!(actions[0].tool_name, "a");
        }
        other => panic!("expected Act, got {other:?}"),
    }
    drop(s);
}

#[test]
fn sessions_end() {
    let (s, _) = start_session(decision(vec![]), 3, DiffTracker::new(7));
    let (_, r) = s.step(SessionEvent::Checked { stop: None, cancelled: true });
    assert!(matches!(r, SessionRequest::Finish(_)));
    let (s, _) = start_session(decision(vec![]), 3, DiffTracker::new(7));
    let (_, r) = s.step(SessionEvent::Checked { stop: Some("out of tokens".into()), cancelled: false });
    assert!(matches!(r, SessionRequest::Finish(_)));
    let (s, _) = start_session(decision(vec![action("a")]), 3, DiffTracker::new(7));
    let (s, _) = s.step(SessionEvent::Checked { stop: None, cancelled: false });
    let (s, _) = s.step(SessionEvent::Aligned(alignment(vec![action("a")])));
    let (_, r) = s.step(SessionEvent::Acted {
        result: Err(ExoError::Engine("WI host not available".into())),
        doom: DoomLoopStatus::Clear,
    });
    assert!(matches!(r, SessionRequest::Fail(ExoError::Engine(m)) if m == "WI host not available"));
}

fn change(path: &str, lines_added: i64, lines_removed: i64) -> CodeDiffContent {
    CodeDiffContent {
        file_path: path.into(),
        tool_name: "code.edit".into(),
        operation: CodeDiffOperation::Edit,
        diff_text: "".into(),
        lines_added,
        lines_removed,
        before_sha256: None,
        after_sha256: None,
    }
}

fn execution(
    tool: &str,
    pending_question: bool,
    code_diff: Option<(ArtifactId, CodeDiffContent)>,
) -> ActionExecution {
    ActionExecution {
        action: action(tool),
        result: Ok(parse_json("{}").unwrap()),
        record: ActionRecord {
            action_type: tool.into(),
            target: "{}".into(),
            receipt_ref: None,
            outcome: ActionOutcome::Success,
            origin_exec_thread_id: None,
            proposal_id: None,
        },
        tool_result: ContentBlock::Text { text: "".into() },
        pending_question,
        code_diff,
    }
}

#[test]
fn sessions_record_changes() {
    let mut tracker = DiffTracker::new(7);
    tracker.record(id("before"), change("z.rs", 1, 1));
    let (s, _) = start_session(decision(vec![action("a")]), 3, tracker);
    let (s, _) = s.step(SessionEvent::Checked { stop: None, cancelled: false });
    let (s, _) = s.step(SessionEvent::Aligned(alignment(vec![action("a")])));
    let executions = vec![
        execution("code.edit", false, Some((id("d1"), change("a.rs", 4, 1)))),
        execution("code.read", false, None),
        execution("code.edit", false, Some((id("d2"), change("b.rs", 2, 0)))),
    ];
    let (s, _) = s.step(SessionEvent::Acted { result: Ok(executions), doom: DoomLoopStatus::Clear });
    assert_eq!(s.tracker.tick_number, 7);
    let recorded: Vec<&str> = s.tracker.entries.iter().map(|e| e.0.digest.as_str()).collect();
    assert_eq!(recorded, vec!["before", "d1", "d2"]);
    let (s, r) = s.step(SessionEvent::Decided(Ok(decision(vec![action("b")]))));
    match r {
        SessionRequest::Continue { announcement, detail, changes } => {
            assert_eq!(announcement, "Step 1/3: code.edit (success)");
            assert_eq!(detail.tool_name.as_deref(), Some("code.edit"));
            assert_eq!(detail.tool_outcome.as_deref(), Some("success"));
            assert_eq!((detail.step_number, detail.max_steps), (1, 3));
            assert_eq!(detail.tokens_this_step, 15);
            let changes = changes.unwrap();
            assert_eq!((changes.files_modified, changes.net_delta), (2, 5));
        }
        other => panic!("expected Continue, got {other:?}"),
    }
    // A question ends the session, and its changes are recorded all the same.
    let (s, _) = s.step(SessionEvent::Checked { stop: None, cancelled: false });
    let (s, _) = s.step(SessionEvent::Aligned(alignment(vec![action("b")])));
    let executions = vec![execution("agent.ask_user", true, Some((id("d3"), change("c.rs", 1, 0))))];
    let (s, r) = s.step(SessionEvent::Acted { result: Ok(executions), doom: DoomLoopStatus::Clear });
    assert!(matches!(r, SessionRequest::Finish(SessionCompletionReason::AwaitingInput)));
    assert_eq!(s.tracker.len(), 4);
    assert_eq!((s.step, s.llm_call_records.len()), (2, 1));
    assert_eq!(s.executions.len(), 4);
}

#[test]
fn a_stopped_session_needs_no_room_for_a_step() {
    let (mut s, _) = start_session(decision(vec![action("a")]), 3, DiffTracker::new(7));
    s.step = u32::MAX;
    let (_, r) = s.step(SessionEvent::Checked { stop: None, cancelled: true });
    assert!(matches!(r, SessionRequest::Finish(SessionCompletionReason::Cancelled)));
}

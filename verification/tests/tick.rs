use std::sync::atomic::{AtomicUsize, Ordering};
use std::sync::Arc;

use exoskeleton_host::diff_tracker::track_executions;
use exoskeleton_host::exec_threads::{
    is_exploratory_code_action, ExecThreadKind, ExecThreadStatus, ExecThreadSummary,
};
use exoskeleton_host::json::parse_json;
use exoskeleton_host::settle::{
    bounded_coding_idle_visible, suppress_actions_for_bounded_coding_idle, transition_mode,
};
use exoskeleton_host::tick::{
    should_wake_for_exec, start_tick, SnapshotHead, ThrashAssessment, ThrashLevel, TickEvent,
    TickFinish, TickLabel, TickRequest, TickRun,
};
use exoskeleton_host::types::{
    ActionExecution, ActionOutcome, ActionRecord, ArtifactId, CodeDiffContent, CodeDiffOperation,
    ContentBlock, DecisionResult, HandlerOutput, LlmCallRecord, PlannedAction, SnapshotDelta,
    ThreadId, VesselMode,
};

fn summary(status: ExecThreadStatus, reason: Option<&str>) -> ExecThreadSummary {
    ExecThreadSummary {
        thread_id: ThreadId { raw: 1 },
        kind: ExecThreadKind::Coding,
        status,
        last_completion_reason: reason.map(|r| r.to_string()),
    }
}

fn should_wake(status: ExecThreadStatus) -> bool {
    should_wake_for_exec(&Some(vec![summary(ExecThreadStatus::Idle, None), summary(status, None)]))
}

fn counting_signal() -> (Arc<AtomicUsize>, Arc<dyn Fn() + Send + Sync>) {
    let call_count = Arc::new(AtomicUsize::new(0));
    let counter = Arc::clone(&call_count);
    let signal: Arc<dyn Fn() + Send + Sync> = Arc::new(move || {
        counter.fetch_add(1, Ordering::SeqCst);
    });
    (call_count, signal)
}

#[test]
fn wake_signal_called_on_step_limit() {
    let (call_count, wake_signal) = counting_signal();
    if should_wake(ExecThreadStatus::Active) {
        wake_signal();
    }
    assert_eq!(
        call_count.load(Ordering::SeqCst),
        1,
        "wake signal must fire when exec-thread work remains active"
    );
}

#[test]
fn wake_signal_called_on_blocked_exec_thread() {
    let (call_count, wake_signal) = counting_signal();
    if should_wake(ExecThreadStatus::Blocked) {
        wake_signal();
    }
    assert_eq!(
        call_count.load(Ordering::SeqCst),
        1,
        "wake signal must fire when exec-thread work remains blocked"
    );
}

#[test]
fn wake_signal_not_called_when_no_exec_thread_requires_work() {
    let (call_count, wake_signal) = counting_signal();
    if should_wake(ExecThreadStatus::Failed) || should_wake_for_exec(&None) {
        wake_signal();
    }
    assert_eq!(
        call_count.load(Ordering::SeqCst),
        0,
        "wake signal must NOT fire when no exec thread needs another cycle"
    );
}

#[test]
fn exploratory_code_actions_include_legacy_listing_tools() {
    assert!(is_exploratory_code_action("code.read"));
    assert!(is_exploratory_code_action("code.grep"));
    assert!(is_exploratory_code_action("code.ls"));
    assert!(is_exploratory_code_action("code.glob"));
    assert!(!is_exploratory_code_action("code.edit"));
}

#[test]
fn bounded_coding_idle_detected_only_when_enabled() {
    let summaries = vec![summary(ExecThreadStatus::Idle, Some("completed"))];
    assert!(bounded_coding_idle_visible(true, false, &summaries));
    assert!(!bounded_coding_idle_visible(false, false, &summaries));
    assert!(!bounded_coding_idle_visible(true, true, &summaries));
    let blank = vec![summary(ExecThreadStatus::Idle, Some("  "))];
    assert!(!bounded_coding_idle_visible(true, false, &blank));
}

fn read_action() -> PlannedAction {
    PlannedAction {
        call_id: "call_1".into(),
        tool_name: "code.read".into(),
        params: parse_json(r#"{"file_path": "/tmp/sample.rs"}"#).unwrap(),
        rationale: "verify".into(),
        plan_task_id: None,
        origin_exec_thread_id: None,
        proposal_id: None,
    }
}

#[test]
fn bounded_coding_idle_suppresses_external_actions() {
    let suppressed = suppress_actions_for_bounded_coding_idle(vec![read_action()], true);
    assert!(suppressed.is_empty());
    let kept = suppress_actions_for_bounded_coding_idle(vec![read_action()], false);
    assert_eq!(kept.len(), 1);
}

#[test]
fn kernel_context_wake_signal_none_in_tests() {
    let wake_signal: Option<Arc<dyn Fn() + Send + Sync>> = None;
    if should_wake(ExecThreadStatus::Active) {
        if let Some(ws) = &wake_signal {
            ws();
        }
    }
}

#[test]
fn agent_requests_planning_mode() {
    let t = transition_mode(VesselMode::Normal, Some(VesselMode::Planning)).unwrap();
    assert_eq!(t.mode, VesselMode::Planning, "Normal -> Planning transition must succeed");
}

#[test]
fn agent_requests_normal_from_executing() {
    let t = transition_mode(VesselMode::Executing, Some(VesselMode::Normal)).unwrap();
    assert_eq!(t.mode, VesselMode::Normal, "Executing -> Normal transition must succeed");
}

#[test]
fn invalid_transition_ignored() {
    let t = transition_mode(VesselMode::Normal, Some(VesselMode::Executing));
    assert!(t.is_none(), "Normal -> Executing transition must be ignored (invalid)");
    assert!(transition_mode(VesselMode::Planning, Some(VesselMode::Normal)).is_none());
    assert!(transition_mode(VesselMode::Normal, None).is_none());
}

fn edit_execution() -> ActionExecution {
    ActionExecution {
        action: PlannedAction {
            call_id: "call_code_edit".into(),
            tool_name: "code.edit".into(),
            params: parse_json(r#"{"file_path": "/tmp/sample.rs"}"#).unwrap(),
            rationale: "test".into(),
            plan_task_id: None,
            origin_exec_thread_id: None,
            proposal_id: None,
        },
        result: Ok(parse_json(r#"{"ok": true}"#).unwrap()),
        record: ActionRecord {
            action_type: "code.edit".into(),
            target: "/tmp/sample.rs".into(),
            outcome: ActionOutcome::Success,
            receipt_ref: None,
            origin_exec_thread_id: None,
            proposal_id: None,
        },
        tool_result: ContentBlock::ToolResult {
            tool_use_id: "call_code_edit".into(),
            content: "{\"ok\":true}".into(),
            is_error: false,
        },
        pending_question: false,
        code_diff: Some((
            ArtifactId { digest: "code-edit-diff".into() },
            CodeDiffContent {
                file_path: "/tmp/sample.rs".into(),
                tool_name: "code.edit".into(),
                operation: CodeDiffOperation::Edit,
                diff_text: "--- a/sample.rs\n+++ b/sample.rs\n".into(),
                lines_added: 3,
                lines_removed: 1,
                before_sha256: None,
                after_sha256: None,
            },
        )),
    }
}

#[test]
fn classic_path_records_diffs_in_tracker() {
    let diff_tracker = track_executions(7, &vec![edit_execution()]);
    let rendered = diff_tracker.format_for_reflect();
    assert!(!rendered.is_empty());
    assert!(rendered.contains("File Changes This Tick"));
    assert!(rendered.contains("/tmp/sample.rs"));
}

fn decision(actions: Vec<PlannedAction>) -> DecisionResult {
    DecisionResult {
        reasoning: "done".into(),
        reply: None,
        actions,
        snapshot_delta: SnapshotDelta::default(),
        memory_notes: vec![],
        llm_call_record: LlmCallRecord {
            model: "mock".into(),
            tokens_in: 0,
            tokens_out: 0,
            cost_micros: 0,
            latency_ms: 0,
            response_artifact_ref: None,
            turns: 1,
        },
        response_artifact_id: ArtifactId { digest: "resp".into() },
        watch_proposals: vec![],
        vessel_mode_request: Some(VesselMode::Planning),
    }
}

fn until_deciding() -> (TickRun, TickRequest) {
    let (mut run, mut request) = start_tick(true, Some(10));
    for event in [
        TickEvent::SnapshotLoaded(Ok(Some(SnapshotHead { tick_number: 4, terminal: false }))),
        TickEvent::SnapshotStored(Ok(())),
        TickEvent::Perceived(Ok(vec!["operator".into()])),
        TickEvent::ThreadsRan {
            threads: Err("down".into()),
            exec_threads: Ok(vec![]),
            poll_actions: vec![read_action()],
            cancelled: false,
        },
        TickEvent::Oriented { result: Ok(vec!["memory".into()]), cancelled: false },
    ] {
        (run, request) = run.step(event);
    }
    (run, request)
}

fn finish(request: TickRequest) -> TickFinish {
    match request {
        TickRequest::Finish(f) => f,
        other => panic!("expected Finish, got {other:?}"),
    }
}

#[test]
fn a_whole_tick() {
    let (run, request) = until_deciding();
    assert!(matches!(request, TickRequest::Decide));
    let (run, request) = run.step(TickEvent::Decided {
        result: Ok(decision(vec![read_action()])),
        threads: vec![],
        summaries: vec![],
        mode: VesselMode::Normal,
    });
    match request {
        TickRequest::Settle(s) => assert_eq!(s.mode, VesselMode::Planning),
        other => panic!("expected Settle, got {other:?}"),
    }
    let (run, request) = run.step(TickEvent::Settled { cancelled: false });
    assert!(matches!(request, TickRequest::Align));
    let (run, request) = run.step(TickEvent::Aligned(vec![read_action()]));
    match request {
        TickRequest::Act { actions } => assert_eq!(actions.len(), 2),
        other => panic!("expected Act, got {other:?}"),
    }
    let (run, request) = run.step(TickEvent::Acted(Ok(vec![edit_execution()])));
    match request {
        TickRequest::Reflect { executions, diffs, .. } => {
            assert_eq!(executions.len(), 1);
            assert_eq!(diffs.len(), 1);
        }
        other => panic!("expected Reflect, got {other:?}"),
    }
    let (run, request) = run.step(TickEvent::Reflected {
        assessment: ThrashAssessment { level: ThrashLevel::Low, indicators: vec![] },
        consumption: vec![],
    });
    assert!(matches!(request, TickRequest::Amend { .. }));
    let (run, request) = run.step(TickEvent::Amended(Ok(HandlerOutput::Success {
        output: None,
        consumption: vec![],
    })));
    assert!(matches!(request, TickRequest::Close { .. }));
    let (_, request) = run.step(TickEvent::Closed {
        consumption: vec![],
        episodic_count: Some(1),
        summaries: Some(vec![summary(ExecThreadStatus::Active, None)]),
    });
    let f = finish(request);
    assert!(matches!(f.output, HandlerOutput::Success { .. }));
    assert_eq!(f.label, Some(TickLabel::Completed));
    assert!(f.compact);
    assert!(f.wake);
}

#[test]
fn failures_before_amend_can_be_retried() {
    let (run, _) = start_tick(false, None);
    let (_, request) = run.step(TickEvent::SnapshotLoaded(Err("disk".into())));
    assert!(matches!(finish(request).output, HandlerOutput::RetryableFailure { .. }));

    let (run, _) = until_deciding();
    let (_, request) = run.step(TickEvent::Decided {
        result: Err("model".into()),
        threads: vec![],
        summaries: vec![],
        mode: VesselMode::Normal,
    });
    assert!(matches!(finish(request).output, HandlerOutput::RetryableFailure { .. }));
}

#[test]
fn high_thrash_suspends_the_tick() {
    let (run, _) = until_deciding();
    let (run, _) = run.step(TickEvent::Decided {
        result: Ok(decision(vec![])),
        threads: vec![],
        summaries: vec![],
        mode: VesselMode::Normal,
    });
    let (run, _) = run.step(TickEvent::Settled { cancelled: false });
    let (run, _) = run.step(TickEvent::Aligned(vec![]));
    let (run, _) = run.step(TickEvent::Acted(Ok(vec![])));
    let (_, request) = run.step(TickEvent::Reflected {
        assessment: ThrashAssessment {
            level: ThrashLevel::High,
            indicators: vec!["same action".into()],
        },
        consumption: vec![],
    });
    let f = finish(request);
    assert!(matches!(f.output, HandlerOutput::Success { .. }));
    assert_eq!(f.label, Some(TickLabel::Suspended));
    assert!(f.announcement.unwrap().contains("same action"));
}

#[test]
fn a_failed_amend_is_final() {
    let (run, _) = until_deciding();
    let (run, _) = run.step(TickEvent::Decided {
        result: Ok(decision(vec![])),
        threads: vec![],
        summaries: vec![],
        mode: VesselMode::Normal,
    });
    let (run, _) = run.step(TickEvent::Settled { cancelled: false });
    let (run, _) = run.step(TickEvent::Aligned(vec![]));
    let (run, _) = run.step(TickEvent::Acted(Ok(vec![])));
    let (run, _) = run.step(TickEvent::Reflected {
        assessment: ThrashAssessment { level: ThrashLevel::Absent, indicators: vec![] },
        consumption: vec![],
    });
    let (_, request) = run.step(TickEvent::Amended(Err("no store".into())));
    assert!(matches!(finish(request).output, HandlerOutput::TerminalFailure { .. }));
}

#[test]
fn a_terminal_vessel_needs_no_room_for_a_tick() {
    let (run, _) = start_tick(false, None);
    let head = SnapshotHead { tick_number: u64::MAX, terminal: true };
    let (_, request) = run.step(TickEvent::SnapshotLoaded(Ok(Some(head))));
    match request {
        TickRequest::Finish(f) => {
            assert!(matches!(f.output, HandlerOutput::Success { output: None, .. }))
        }
        other => panic!("expected Finish, got {other:?}"),
    }
}

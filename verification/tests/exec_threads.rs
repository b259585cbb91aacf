use exoskeleton_host::exec_threads::{
    apply_coding_feedback_state, canonicalize_exec_thread_status, coding_feedback_from_latest_tick,
    contribution_of, exec_thread_event, is_exploratory_code_action, is_mutating_code_action,
    normalize_coding_proposal, parse_exec_response, settle_coding_turn, should_run_exec_thread,
    CodingExecProposal, CodingFeedbackState, ExecThreadKind, ExecThreadLocalState, ExecThreadSpec,
    ExecThreadStatus,
};
use exoskeleton_host::json::parse_json;
use exoskeleton_host::types::{ActionOutcome, ActionRecord, ArtifactId, ThreadId, TickId};

fn coding_spec() -> ExecThreadSpec {
    ExecThreadSpec {
        thread_id: ThreadId { raw: 1 },
        kind: ExecThreadKind::Coding,
        name: "Coding".into(),
        charter: "charter".into(),
        token_budget: 1000,
        workspace_root: None,
    }
}

#[test]
fn canonicalize_completed_status_to_idle() {
    assert_eq!(
        canonicalize_exec_thread_status(ExecThreadStatus::Completed),
        ExecThreadStatus::Idle
    );
}

#[test]
fn idle_coding_thread_does_not_reactivate_for_unrelated_action_feedback() {
    let spec = coding_spec();
    let local_state = ExecThreadLocalState::default();
    assert!(!should_run_exec_thread(&spec, ExecThreadStatus::Idle, false, true, &local_state));
}

#[test]
fn idle_coding_thread_reactivates_when_awaiting_feedback() {
    let spec = coding_spec();
    let local_state =
        ExecThreadLocalState { awaiting_feedback: true, ..ExecThreadLocalState::default() };
    assert!(should_run_exec_thread(&spec, ExecThreadStatus::Idle, false, true, &local_state));
}

#[test]
fn idle_coding_thread_reactivates_for_new_messages() {
    let spec = coding_spec();
    let local_state = ExecThreadLocalState::default();
    assert!(should_run_exec_thread(&spec, ExecThreadStatus::Idle, true, false, &local_state));
}

#[test]
fn failed_threads_never_run() {
    let spec = coding_spec();
    let local_state = ExecThreadLocalState {
        awaiting_feedback: true,
        should_wake_master: true,
        ..ExecThreadLocalState::default()
    };
    assert!(!should_run_exec_thread(&spec, ExecThreadStatus::Failed, true, true, &local_state));
    assert!(should_run_exec_thread(
        &spec,
        ExecThreadStatus::Active,
        false,
        false,
        &ExecThreadLocalState::default()
    ));
}

fn proposal(tool: &str, params: &str) -> CodingExecProposal {
    CodingExecProposal {
        tool_name: tool.into(),
        params: parse_json(params).unwrap(),
        rationale: "r".into(),
    }
}

#[test]
fn proposals_need_an_object_of_parameters() {
    assert!(normalize_coding_proposal(proposal("code.read", "[]")).is_none());
    assert!(
        normalize_coding_proposal(proposal("code.read", r#"{"file_path": "a.rs"}"#)).is_some()
    );
}

#[test]
fn replies_are_read_from_text_or_fences() {
    let bare = r#"{"status": "active", "summary": "reading"}"#;
    let r = parse_exec_response(bare);
    assert_eq!(r.status, Some(ExecThreadStatus::Active));
    assert_eq!(r.summary, "reading");
    let r = parse_exec_response(&format!("text\n```json\n{bare}\n```"));
    assert_eq!(r.summary, "reading");
    let r = parse_exec_response("just words");
    assert_eq!(r.summary, "just words");
    assert!(r.proposed_action.is_none());
}

fn record(tool: &str, outcome: ActionOutcome, origin: u128) -> ActionRecord {
    ActionRecord {
        action_type: tool.into(),
        target: "t".into(),
        receipt_ref: None,
        outcome,
        origin_exec_thread_id: Some(ThreadId { raw: origin }),
        proposal_id: None,
    }
}

#[test]
fn feedback_counts_only_the_actions_of_the_thread() {
    let records = Some(vec![
        record("code.edit", ActionOutcome::Success, 2),
        record("code.edit", ActionOutcome::Failure, 1),
    ]);
    let f = coding_feedback_from_latest_tick(&records, ThreadId { raw: 1 });
    assert!(f.mutating_failure && !f.mutating_success);
    let f = coding_feedback_from_latest_tick(&records, ThreadId { raw: 2 });
    assert!(f.mutating_success && !f.mutating_failure);
    let f = coding_feedback_from_latest_tick(&None, ThreadId { raw: 1 });
    assert!(!f.mutating_success && !f.mutating_failure && !f.verification_success);
}

#[test]
fn failed_changes_keep_a_thread_active() {
    let mut status = ExecThreadStatus::Idle;
    let mut local = ExecThreadLocalState::default();
    let mut reply = parse_exec_response(r#"{"summary": "done", "completion_reason": "done"}"#);
    let feedback = CodingFeedbackState {
        mutating_success: false,
        mutating_failure: true,
        verification_success: false,
    };
    apply_coding_feedback_state(&mut status, &mut local, &feedback, &mut reply);
    assert_eq!(status, ExecThreadStatus::Active);
    assert_eq!(local.work_phase.as_deref(), Some("editing"));
}

#[test]
fn turns_end_idle_rather_than_completed() {
    let feedback = CodingFeedbackState {
        mutating_success: false,
        mutating_failure: false,
        verification_success: false,
    };
    let out = settle_coding_turn(
        ThreadId { raw: 1 },
        TickId { raw: 2 },
        ArtifactId { digest: "d".into() },
        r#"{"status": "completed", "summary": "all done", "completion_reason": "done"}"#,
        false,
        false,
        &ExecThreadLocalState::default(),
        &feedback,
    );
    assert_eq!(out.status, ExecThreadStatus::Idle);
    assert_eq!(out.summary, "all done");
    assert_eq!(exec_thread_event("Coding", &out), "Exec thread Coding: all done");
    let c = contribution_of(&out);
    assert_eq!(c.summary, "all done");
    assert!(c.proposal_id.is_none());
}

#[test]
fn tools_change_or_explore() {
    for tool in ["code.edit", "code.write", "code.apply_patch", "fs.write"] {
        assert!(is_mutating_code_action(tool));
        assert!(!is_exploratory_code_action(tool));
    }
    assert!(!is_mutating_code_action("code.read"));
}

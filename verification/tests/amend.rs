use exoskeleton_host::amend::{
    acknowledged, amend, completed_event, contributions_of, eviction_event, note_summaries,
    process_memory_consolidation_outputs, reply_event, relationship_event, tick_output_bytes,
    tick_record, tool_remaining, AmendInput, LongTermDraft, MemoryConsolidation, StateSnapshot,
    TaskStatusUpdate, ThreadSchedule, TickPhase, VesselStatus,
};
use exoskeleton_host::amend_run::{
    start_amend, AmendEvent, AmendPhase, AmendRequest, AmendRun,
};
use exoskeleton_host::exec_threads::{ExecThreadKind, ExecThreadStatus, ExecThreadSummary};
use exoskeleton_host::decision_json::write_mode;
use exoskeleton_host::json::{parse_json, write_json};
use exoskeleton_host::memory::{
    Plan, PlanTask, PlanTaskStatus, PlanUpdate, WorkingMemory, WorkingMemoryOp,
};
use exoskeleton_host::perceive::{EnvelopeId, EnvelopeKind, MessageEnvelope, PrincipalId};
use exoskeleton_host::proposals::read_mode;
use exoskeleton_host::types::{
    ArtifactId, ExoError, LlmCallRecord, PlanTaskId, ThreadContribution, ThreadId, TickId,
    Timestamp, VesselId, VesselMode,
};

fn id(digest: &str) -> ArtifactId {
    ArtifactId { digest: digest.into() }
}

fn at(nanos: i128) -> Timestamp {
    Timestamp { nanos }
}

fn snapshot() -> StateSnapshot {
    StateSnapshot {
        vessel_id: VesselId { raw: 7 },
        mission: "test".into(),
        tick_number: 0,
        updated_at: at(0),
        status: VesselStatus::Other { name: "Running".into(), terminal: false },
        vessel_mode: VesselMode::Normal,
        plan: None,
        working_memory: WorkingMemory { entries: vec![] },
        last_action_summary: None,
        thread_summaries: vec![],
        exec_thread_summaries: vec![],
        relationship_snapshot_ref: None,
        budget_status: parse_json("{}").unwrap(),
    }
}

fn input(tick_number: u64) -> AmendInput {
    AmendInput {
        tick_number,
        now: at(100),
        now_text: "1970-01-01T00:00:00Z".into(),
        plan_update: None,
        decide_ops: None,
        task_updates: vec![],
        reflect_ops: vec![],
        vessel_mode: VesselMode::Normal,
        outcomes: vec![],
        thread_summaries: Some(vec![]),
        exec_thread_summaries: Some(vec![]),
        return_to_idle: false,
        new_messages: false,
        relationship_snapshot_ref: None,
        budget_status: None,
    }
}

fn put(key: &str, value: &str) -> WorkingMemoryOp {
    WorkingMemoryOp::Put { key: key.into(), value: value.into(), ttl_ticks: None }
}

fn keys(s: &StateSnapshot) -> Vec<&str> {
    s.working_memory.entries.iter().map(|e| e.key.as_str()).collect()
}

#[test]
fn amend_increments_tick_number() {
    let saved = amend(snapshot(), input(42));
    assert_eq!(saved.tick_number, 42);
}

#[test]
fn amend_applies_plan_update() {
    let mut i = input(1);
    i.plan_update = Some(PlanUpdate::Replace {
        plan: Plan {
            objective: "Updated plan from decide".into(),
            tasks: vec![],
            updated_at: None,
        },
    });
    let saved = amend(snapshot(), i);
    assert_eq!(saved.plan.unwrap().objective, "Updated plan from decide");
}

#[test]
fn amend_applies_working_memory_ops() {
    let mut i = input(1);
    i.decide_ops = Some(vec![put("context", "New working context")]);
    let saved = amend(snapshot(), i);
    assert_eq!(saved.working_memory.entries.len(), 1);
    assert_eq!(saved.working_memory.entries[0].value, "New working context");
}

#[test]
fn amend_prunes_task_working_memory_for_bounded_coding_idle() {
    let mut before = snapshot();
    before.working_memory.apply_op(&put("session_status", "awaiting_user_direction"), 0);
    before.working_memory.apply_op(&put("task_ready", "ready"), 0);
    let mut i = input(1);
    i.return_to_idle = true;
    i.exec_thread_summaries = Some(vec![ExecThreadSummary {
        thread_id: ThreadId { raw: 1 },
        kind: ExecThreadKind::Coding,
        status: ExecThreadStatus::Idle,
        last_completion_reason: Some("completed".into()),
    }]);
    i.decide_ops = Some(vec![put("lib_rs_content", "stale")]);
    let saved = amend(before, i);
    assert_eq!(keys(&saved), vec!["session_status"]);
}

#[test]
fn amend_saves_snapshot_to_store() {
    let snap = amend(snapshot(), input(7));
    assert_eq!(snap.tick_number, 7);
    assert_eq!(snap.status, VesselStatus::Idle);
    assert_eq!(snap.vessel_id, VesselId { raw: 7 });
    assert_eq!(snap.last_action_summary.as_deref(), Some("No actions taken"));
}

#[test]
fn amend_counts_outcomes() {
    let mut i = input(7);
    i.outcomes = vec![true, false, true];
    let snap = amend(snapshot(), i);
    assert_eq!(
        snap.last_action_summary.as_deref(),
        Some("3 actions: 2 succeeded, 1 failed")
    );
}

#[test]
fn reflections_override_decisions() {
    let task = |status| PlanTask {
        id: PlanTaskId { raw: 5 },
        description: "d".into(),
        status,
        depends_on: vec![],
        tool_hint: None,
    };
    let mut i = input(3);
    i.plan_update = Some(PlanUpdate::Replace {
        plan: Plan {
            objective: "o".into(),
            tasks: vec![task(PlanTaskStatus::InProgress)],
            updated_at: None,
        },
    });
    i.task_updates = vec![TaskStatusUpdate {
        task_id: PlanTaskId { raw: 5 },
        new_status: PlanTaskStatus::Completed,
        reason: None,
    }];
    i.decide_ops = Some(vec![put("k", "decided")]);
    i.reflect_ops = vec![put("k", "reflected")];
    let saved = amend(snapshot(), i);
    assert_eq!(saved.plan.unwrap().tasks[0].status, PlanTaskStatus::Completed);
    assert_eq!(saved.working_memory.entries[0].value, "reflected");
}

#[test]
fn working_memory_is_bounded() {
    let mut i = input(3);
    i.decide_ops = Some((0..60).map(|k| put(&format!("k{k}"), "v")).collect());
    let saved = amend(snapshot(), i);
    assert_eq!(saved.working_memory.entries.len(), 50);
}

fn call_record(model: &str) -> LlmCallRecord {
    LlmCallRecord {
        model: model.into(),
        tokens_in: 1,
        tokens_out: 2,
        cost_micros: 3,
        latency_ms: 4,
        response_artifact_ref: None,
        turns: 1,
    }
}

#[test]
fn amend_saves_tick_record_to_store() {
    let record = tick_record(
        TickId { raw: 9 },
        3,
        at(1),
        at(2),
        id("snap-before"),
        id("snap-after"),
        vec![],
        vec![],
        &vec![],
        &call_record("decide"),
        &Some(call_record("reflect")),
        "test reasoning",
        None,
    );
    assert_eq!(record.tick_id, TickId { raw: 9 });
    assert_eq!(record.tick_number, 3);
    assert_eq!(record.phase, TickPhase::Amend);
    assert_eq!(record.decision_rationale, "test reasoning");
    assert_eq!(record.llm_calls.len(), 2);
    assert_eq!(record.llm_calls[1].model, "reflect");
    assert_eq!(record.snapshot_after, id("snap-after"));
}

#[test]
fn amend_acknowledges_inbox_messages() {
    let envelope = |raw| MessageEnvelope {
        id: EnvelopeId { raw },
        source: PrincipalId { raw: 1 },
        target: None,
        kind: EnvelopeKind::HumanMessage,
        payload_ref: id("test-msg"),
        timestamp: at(0),
        in_reply_to: None,
    };
    let acked = acknowledged(&vec![envelope(1), envelope(2)]);
    assert!(acked.contains(&EnvelopeId { raw: 1 }), "message 1 should be acknowledged");
    assert!(acked.contains(&EnvelopeId { raw: 2 }), "message 2 should be acknowledged");
}

#[test]
fn amend_persists_memory_notes() {
    let episodics = note_summaries(
        &vec!["Learned something important".into(), "Another observation".into()],
        5,
    );
    assert_eq!(episodics.len(), 2);
    let summaries: Vec<&str> = episodics.iter().map(|e| e.summary.as_str()).collect();
    assert!(summaries.contains(&"Learned something important"));
    assert!(summaries.contains(&"Another observation"));
    assert_eq!((episodics[0].start_tick, episodics[0].end_tick), (5, 5));
}

#[test]
fn amend_logs_tick_completed_event() {
    let summary = completed_event(10, &Some("No actions taken".into()));
    assert!(summary.contains("Tick 10"));
    assert_eq!(summary, "Tick 10 completed: No actions taken");
    assert_eq!(completed_event(10, &None), "Tick 10 completed: ");
}

#[test]
fn amend_returns_success_output() {
    let bytes = tick_output_bytes(TickId { raw: 1 }, 1, 1, &parse_json("1.0").unwrap());
    let parsed: serde_json::Value = serde_json::from_slice(&bytes).unwrap();
    assert_eq!(parsed["tick_number"], 1);
    assert_eq!(parsed["actions"], 1);
    assert_eq!(parsed["tick_id"], "00000000-0000-0000-0000-000000000001");
}

fn nothing() -> MemoryConsolidation {
    MemoryConsolidation {
        episodic_summary: "".into(),
        long_term_notes: vec![],
        deprecated_notes: vec![],
    }
}

#[test]
fn amend_processes_memory_consolidation_episodic_summary() {
    let w = process_memory_consolidation_outputs(
        nothing(),
        nothing(),
        "Consolidated ticks 1-5 into episodic memory".into(),
        ThreadSchedule::EveryNTicks(5),
        5,
    );
    let e = w.episodic.unwrap();
    assert!(e.summary.contains("Consolidated ticks"), "episodic summary should contain MC output");
    assert_eq!((e.start_tick, e.end_tick), (1, 5));
}

#[test]
fn amend_processes_memory_consolidation_long_term_notes() {
    let stored = MemoryConsolidation {
        episodic_summary: "Ticks 1-5 summary".into(),
        long_term_notes: vec![LongTermDraft {
            topic: "strategy".into(),
            content: "Incremental approach works".into(),
            tags: vec!["reliability".into()],
        }],
        deprecated_notes: vec![],
    };
    let w = process_memory_consolidation_outputs(
        stored,
        nothing(),
        "Consolidated".into(),
        ThreadSchedule::EveryNTicks(5),
        5,
    );
    assert!(
        w.long_term.iter().any(|n| n.topic == "strategy"),
        "expected long-term note with topic 'strategy'"
    );
    assert_eq!(w.episodic.unwrap().summary, "Ticks 1-5 summary");
}

#[test]
fn amend_handles_invalid_memory_consolidation_json() {
    let w = process_memory_consolidation_outputs(
        nothing(),
        nothing(),
        "not valid".into(),
        ThreadSchedule::OnDemand,
        5,
    );
    assert!(w.long_term.is_empty());
    // What concludes nothing leaves the summary of the contribution.
    assert_eq!(w.episodic.unwrap().summary, "not valid");
}

#[test]
fn amend_no_memory_writes_without_mc_contribution() {
    let other = ThreadContribution {
        thread_id: ThreadId { raw: 2 },
        artifact_id: id("a"),
        summary: "s".into(),
    };
    assert!(contributions_of(&vec![other], ThreadId { raw: 1 }).is_empty());
    assert!(note_summaries(&vec![], 1).is_empty());
}

fn said() -> Option<String> {
    Some("Hello, I'm your vessel!".into())
}

/// Runs the effects of the Amend step and returns the requests in order.
fn requests(mut run: AmendRun, first: AmendRequest, fail_at: Option<AmendPhase>) -> Vec<AmendRequest> {
    let mut seen = vec![first];
    while run.phase != AmendPhase::Done {
        let refused = || ExoError::Storage("full".into());
        let saved = if fail_at == Some(run.phase) { Err(refused()) } else { Ok(()) };
        let event = match run.phase {
            AmendPhase::Evicting => AmendEvent::Evicted(Some(2)),
            AmendPhase::StoringReply => AmendEvent::Stored(Some(id("reply"))),
            AmendPhase::StoringRelationships => AmendEvent::Stored(Some(id("rel"))),
            AmendPhase::StoringSnapshot => AmendEvent::SnapshotStored(saved.map(|_| id("snap"))),
            AmendPhase::SavingSnapshot
            | AmendPhase::StoringRecord
            | AmendPhase::SavingRecord
            | AmendPhase::LoggingCompletion
            | AmendPhase::Acknowledging => AmendEvent::Saved(saved),
            _ => AmendEvent::Tried,
        };
        let (next, request) = run.step(event);
        run = next;
        seen.push(request);
    }
    seen
}

#[test]
fn amend_eviction_runs_after_mc_outputs_processed() {
    let (run, first) = start_amend(Some(5), None, false, false, 0, 0);
    let seen = requests(run, first, None);
    let consolidated = seen.iter().position(|r| *r == AmendRequest::Consolidate).unwrap();
    let evicted =
        seen.iter().position(|r| matches!(r, AmendRequest::Evict { capacity: 5 })).unwrap();
    assert!(consolidated < evicted);
    assert_eq!(seen.last(), Some(&AmendRequest::Finish));
}

#[test]
fn amend_logs_episodic_evicted_event_with_count() {
    let event = eviction_event(Some(3), Some(2)).unwrap();
    assert!(event.contains("2"), "summary should mention 2 evicted entries, got: {event}");
    assert_eq!(event, "Evicted 2 episodic entries (capacity: 3)");
    let (run, first) = start_amend(Some(3), None, false, false, 0, 0);
    let seen = requests(run, first, None);
    assert!(seen.contains(&AmendRequest::LogEviction { summary: event }));
}

#[test]
fn amend_no_eviction_when_capacity_is_none() {
    let (run, first) = start_amend(None, None, false, false, 0, 0);
    let seen = requests(run, first, None);
    assert!(!seen.iter().any(|r| matches!(r, AmendRequest::Evict { .. })));
    assert!(!seen.iter().any(|r| matches!(r, AmendRequest::LogEviction { .. })));
    assert_eq!(eviction_event(None, Some(3)), None);
    assert_eq!(eviction_event(Some(3), Some(0)), None);
    assert_eq!(eviction_event(Some(3), None), None);
}

#[test]
fn amend_stores_reply_artifact() {
    let (run, first) = start_amend(None, said(), false, false, 0, 0);
    let seen = requests(run, first, None);
    let stored = AmendRequest::StoreReply { text: "Hello, I'm your vessel!".into() };
    let announced = AmendRequest::AnnounceReply { reply: id("reply"), to_conversation: false };
    let at = seen.iter().position(|r| *r == stored).unwrap();
    assert_eq!(seen[at + 1], announced);
    // A reply that cannot be stored is not announced.
    let (run, _) = start_amend(None, said(), false, false, 0, 0);
    let (run, _) = run.step(AmendEvent::Tried);
    let (run, request) = run.step(AmendEvent::Tried);
    assert_eq!(request, stored);
    let (_, request) = run.step(AmendEvent::Stored(None));
    assert_eq!(request, AmendRequest::StoreSnapshot { relationships: None });
}

#[test]
fn amend_appends_vessel_reply_to_conversation() {
    let (run, first) = start_amend(None, said(), true, false, 0, 0);
    let seen = requests(run, first, None);
    assert!(seen
        .contains(&AmendRequest::AnnounceReply { reply: id("reply"), to_conversation: true }));
}

#[test]
fn amend_emits_vessel_response_sent_event() {
    let summary = reply_event("My response");
    assert!(summary.contains("Vessel reply"));
    assert_eq!(summary, "Vessel reply: My response");
    let long = "x".repeat(81);
    assert_eq!(reply_event(&long), format!("Vessel reply: {}...", "x".repeat(80)));
}

#[test]
fn amend_no_reply_when_none() {
    let (run, first) = start_amend(None, None, true, false, 0, 0);
    let seen = requests(run, first, None);
    assert!(!seen.iter().any(|r| matches!(r, AmendRequest::StoreReply { .. })));
    assert!(!seen.iter().any(|r| matches!(r, AmendRequest::AnnounceReply { .. })));
}

#[test]
fn amend_reply_with_no_active_conversations() {
    let (run, first) = start_amend(None, said(), false, false, 0, 0);
    let seen = requests(run, first, None);
    assert!(seen
        .contains(&AmendRequest::AnnounceReply { reply: id("reply"), to_conversation: false }));
    assert_eq!(seen.last(), Some(&AmendRequest::Finish));
}

#[test]
fn relationships_reach_the_snapshot() {
    let (run, first) = start_amend(None, None, false, true, 2, 1);
    let seen = requests(run, first, None);
    assert!(seen.contains(&AmendRequest::RecordRelationships {
        summary: "2 relationship updates from Align step".into()
    }));
    assert!(seen.contains(&AmendRequest::StoreSnapshot { relationships: Some(id("rel")) }));
    assert_eq!(relationship_event(0), None);
}

#[test]
fn messages_stay_unacknowledged_if_saving_fails() {
    for phase in [
        AmendPhase::StoringSnapshot,
        AmendPhase::SavingSnapshot,
        AmendPhase::StoringRecord,
        AmendPhase::SavingRecord,
        AmendPhase::LoggingCompletion,
    ] {
        let (run, first) = start_amend(Some(9), said(), true, true, 1, 4);
        let seen = requests(run, first, Some(phase));
        assert!(!seen.contains(&AmendRequest::Acknowledge));
        assert_eq!(seen.last(), Some(&AmendRequest::Fail(ExoError::Storage("full".into()))));
    }
    let (run, first) = start_amend(Some(9), said(), true, true, 1, 4);
    let seen = requests(run, first, None);
    assert!(seen.contains(&AmendRequest::Acknowledge));
    assert!(seen.contains(&AmendRequest::WriteNotes));
}

#[test]
fn unknown_tool_budgets_count_as_unbounded() {
    assert_eq!(tool_remaining(Some(3)), 3);
    assert_eq!(tool_remaining(None), u64::MAX);
}

#[test]
fn vessel_mode_persisted_in_snapshot() {
    assert_eq!(snapshot().vessel_mode, VesselMode::Normal, "initial snapshot should have Normal mode");
    for mode in [VesselMode::Normal, VesselMode::Planning, VesselMode::Executing] {
        let mut i = input(1);
        i.vessel_mode = mode;
        assert_eq!(amend(snapshot(), i).vessel_mode, mode);
        // The mode survives its stored form.
        let text = write_json(&write_mode(mode));
        assert_eq!(read_mode(&parse_json(&text).unwrap()), Some(mode));
    }
}

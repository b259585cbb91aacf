use exoskeleton_host::align::{
    align, align_actions, AlignVerdict, RelationshipSnapshot,
};
use exoskeleton_host::json::{parse_json, write_json};
use exoskeleton_host::types::{PlannedAction, Timestamp, WatchId};
use exoskeleton_host::watches::{
    start_watches, WatchAnswer, WatchDefinition, WatchProposal, WatchRequest, WatchSchedule,
    WatchStatus, WatchType,
};

fn test_action(name: &str) -> PlannedAction {
    PlannedAction {
        call_id: format!("call_{name}"),
        tool_name: name.into(),
        params: parse_json("{}").unwrap(),
        rationale: format!("test {name}"),
        plan_task_id: None,
        origin_exec_thread_id: None,
        proposal_id: None,
    }
}

fn verdict(approved: Vec<usize>, blocked: Vec<(usize, String)>) -> Option<AlignVerdict> {
    Some(AlignVerdict {
        approved,
        blocked,
        updates: vec![],
        snapshot: RelationshipSnapshot { payload: parse_json(r#"{"principals":[]}"#).unwrap() },
    })
}

#[test]
fn align_with_empty_relationship_state_passthrough() {
    let actions = vec![test_action("fs.write"), test_action("delay")];
    let (result, requests) = align(&actions, verdict(vec![0, 1], vec![]));
    assert_eq!(result.approved_actions.len(), 2);
    assert!(result.blocked_actions.is_empty());
    assert!(result.relationship_snapshot.is_some());
    assert!(requests.is_empty());
}

#[test]
fn align_with_no_actions_returns_empty() {
    let (result, _) = align(&vec![], verdict(vec![], vec![]));
    assert!(result.approved_actions.is_empty());
    assert!(result.blocked_actions.is_empty());
}

#[test]
fn align_with_low_trust_blocks_actions() {
    let actions = vec![test_action("delay")];
    let (result, _) = align(&actions, verdict(vec![], vec![(0, "trust gate: 0.00".into())]));
    assert!(result.approved_actions.is_empty());
    assert_eq!(result.blocked_actions.len(), 1);
    assert!(result.blocked_actions[0].1.contains("trust gate"));
    assert_eq!(result.blocked_actions[0].0.tool_name, "delay");
}

#[test]
fn align_emits_capability_request_on_block() {
    let actions = vec![test_action("discord")];
    let (_, requests) = align(&actions, verdict(vec![], vec![(0, "trust gate".into())]));
    assert_eq!(requests.len(), 1);
    assert!(requests[0].summary.contains("discord"));
    let payload: serde_json::Value =
        serde_json::from_str(&write_json(&requests[0].payload)).unwrap();
    assert_eq!(payload["capability"], "discord");
    assert_eq!(payload["acknowledged"], false);
    assert_eq!(payload["context"], "test discord");
}

#[test]
fn align_no_capability_request_on_approve() {
    let actions = vec![test_action("delay"), test_action("fs.read")];
    let (_, requests) = align(&actions, verdict(vec![0, 1], vec![]));
    assert!(requests.is_empty());
}

#[test]
fn align_capability_request_broadcasts_live_event() {
    let actions = vec![test_action("webhook.send")];
    let (_, requests) = align(&actions, verdict(vec![], vec![(0, "trust gate".into())]));
    assert_eq!(
        requests[0].summary,
        "Capability request: webhook.send blocked \u{2014} trust gate"
    );
}

#[test]
fn without_relationships_every_action_passes() {
    let actions = vec![test_action("a"), test_action("b")];
    let (result, requests) = align(&actions, None);
    assert_eq!(result.approved_actions.len(), 2);
    assert!(result.relationship_snapshot.is_none());
    assert!(result.relationship_updates.is_empty());
    assert!(requests.is_empty());
    let asked = align_actions(&actions);
    assert_eq!(asked[1].tool_name, "b");
    assert_eq!(asked[1].rationale, "test b");
}

fn proposal(name: &str) -> WatchProposal {
    WatchProposal {
        name: name.into(),
        description: "A test watch".into(),
        watch_type: WatchType::Threshold {
            metric: parse_json(r#""tick_duration""#).unwrap(),
            condition: parse_json(r#"{"above":{"value":1000.0}}"#).unwrap(),
        },
        schedule: WatchSchedule::EveryNTicks { n: 1 },
    }
}

/// Runs the admission with a store that does not fail.
fn save_watches(
    verdict: Option<AlignVerdict>,
    proposals: Vec<WatchProposal>,
    active: u32,
    max: u32,
    tick: u64,
) -> Vec<WatchDefinition> {
    let (alignment, _) = align(&vec![], verdict);
    let mut saved = Vec::new();
    let (mut run, mut request) = start_watches(&alignment, proposals, max, tick);
    loop {
        let answer = match request {
            WatchRequest::Count => WatchAnswer::Counted {
                active: Some(active + saved.len() as u32),
                id: WatchId { raw: saved.len() as u128 },
                now: Timestamp { nanos: 5 },
            },
            WatchRequest::Save(watch) => {
                saved.push(watch);
                WatchAnswer::Saved
            }
            WatchRequest::Done => return saved,
        };
        request = run.step(answer);
    }
}

fn make_watches(proposals: Vec<WatchProposal>, max: u32, tick: u64) -> Vec<WatchDefinition> {
    save_watches(verdict(vec![], vec![]), proposals, 0, max, tick)
}

#[test]
fn watch_creation_align_gated() {
    let watches = make_watches(vec![proposal("test-watch")], 20, 42);
    assert_eq!(watches.len(), 1);
    assert_eq!(watches[0].created_at_tick, 42);
}

#[test]
fn watch_count_limit_enforced() {
    let watches = make_watches(vec![proposal("first-watch"), proposal("second-watch")], 1, 1);
    assert_eq!(watches.len(), 1);
    assert_eq!(watches[0].name, "first-watch");
}

#[test]
fn the_first_watches_are_saved() {
    let four = || vec![proposal("a"), proposal("b"), proposal("c"), proposal("d")];
    let saved = save_watches(verdict(vec![], vec![]), four(), 3, 5, 9);
    let names: Vec<&str> = saved.iter().map(|w| w.name.as_str()).collect();
    assert_eq!(names, vec!["a", "b"]);
    for w in &saved {
        assert_eq!(w.status, WatchStatus::Active);
        assert_eq!((w.created_at_tick, w.last_checked_tick, w.trigger_count), (9, None, 0));
        assert_eq!(w.created_at, Timestamp { nanos: 5 });
    }
    assert_eq!(save_watches(verdict(vec![], vec![]), four(), 0, 20, 9).len(), 4);
    assert!(save_watches(verdict(vec![], vec![]), four(), 7, 5, 9).is_empty());
}

#[test]
fn a_failed_check_admits_no_watch() {
    assert!(save_watches(None, vec![proposal("a")], 0, 20, 9).is_empty());
}

#[test]
fn an_unreadable_count_is_zero() {
    let (alignment, _) = align(&vec![], verdict(vec![], vec![]));
    let (mut run, request) = start_watches(&alignment, vec![proposal("a")], 1, 2);
    assert!(matches!(request, WatchRequest::Count));
    let now = Timestamp { nanos: 0 };
    let request = run.step(WatchAnswer::Counted { active: None, id: WatchId { raw: 1 }, now });
    assert!(matches!(request, WatchRequest::Save(w) if w.name == "a"));
}

use exoskeleton_host::json::{parse_json, write_json};
use exoskeleton_host::types::{Timestamp, WatchId};
use exoskeleton_host::watches::{
    admits_watch, check_watches, define_watch, DueWatch, Reading, WatchDefinition, WatchMark,
    WatchProposal, WatchSchedule, WatchStatus, WatchType,
};

fn make_watch(name: &str, watch_type: WatchType) -> WatchDefinition {
    WatchDefinition {
        id: WatchId { raw: 1 },
        name: name.into(),
        description: format!("Test: {name}"),
        watch_type,
        schedule: WatchSchedule::EveryNTicks { n: 1 },
        status: WatchStatus::Active,
        created_at_tick: 0,
        last_checked_tick: None,
        trigger_count: 0,
        created_at: Timestamp { nanos: 0 },
    }
}

fn threshold(name: &str, above: &str, triggered: bool) -> DueWatch {
    let condition = parse_json(&format!(r#"{{"type":"above","value":{above}}}"#)).unwrap();
    DueWatch {
        watch: make_watch(
            name,
            WatchType::Threshold {
                metric: parse_json(r#""consecutive_failures""#).unwrap(),
                condition,
            },
        ),
        reading: Reading::Value {
            triggered,
            value: parse_json("0.0").unwrap(),
            rounded: "0.00".into(),
        },
        id_text: "watch-1".into(),
        type_json: parse_json(r#"{"type":"threshold"}"#).unwrap(),
    }
}

fn poll(name: &str) -> DueWatch {
    DueWatch {
        watch: make_watch(
            name,
            WatchType::Poll {
                connector: "http.request".into(),
                params: parse_json(r#"{"url": "https://example.com"}"#).unwrap(),
                extract: None,
                condition: None,
            },
        ),
        reading: Reading::Absent,
        id_text: "watch-2".into(),
        type_json: parse_json(r#"{"type":"poll"}"#).unwrap(),
    }
}

#[test]
fn watch_executor_threshold_triggers() {
    let result = check_watches(&vec![threshold("always-triggers", "-1.0", true)]);
    assert_eq!(result.triggered_events.len(), 1);
    assert!(result.triggered_events[0].summary.contains("always-triggers"));
    assert_eq!(result.marks, vec![WatchMark::Triggered(WatchId { raw: 1 })]);
}

#[test]
fn watch_executor_threshold_no_trigger() {
    let result = check_watches(&vec![threshold("never-triggers", "100.0", false)]);
    assert_eq!(result.triggered_events.len(), 0);
    assert_eq!(result.marks, vec![WatchMark::Checked(WatchId { raw: 1 })]);
}

#[test]
fn watch_executor_poll_queued() {
    let result = check_watches(&vec![poll("api-health")]);
    assert_eq!(result.poll_actions.len(), 1);
    assert_eq!(result.poll_actions[0].tool_name, "http.request");
    assert!(result.poll_actions[0].rationale.contains("api-health"));
}

#[test]
fn watch_triggered_event_in_ledger() {
    let result = check_watches(&vec![threshold("ledger-test", "-1.0", true)]);
    assert_eq!(result.triggered_events.len(), 1);
    let event = &result.triggered_events[0];
    assert!(event.summary.contains("ledger-test"));
    assert_eq!(event.summary, "Watch 'ledger-test' triggered: value=0.00");
    assert!(write_json(&event.payload).contains("\"watch_name\":\"ledger-test\""));
}

#[test]
fn unreadable_metrics_trigger_nothing() {
    let mut due = threshold("x", "0.0", true);
    due.reading = Reading::Absent;
    let result = check_watches(&vec![due, poll("y")]);
    assert!(result.triggered_events.is_empty());
    assert_eq!(result.marks.len(), 2);
    assert_eq!(result.poll_actions.len(), 1);
}

#[test]
fn watches_are_limited() {
    assert!(admits_watch(Some(19), 20));
    assert!(!admits_watch(Some(20), 20));
    assert!(admits_watch(None, 1));
    assert!(!admits_watch(None, 0));
}

#[test]
fn new_watches_are_active() {
    let w = define_watch(
        WatchId { raw: 5 },
        WatchProposal {
            name: "n".into(),
            description: "d".into(),
            watch_type: poll("p").watch.watch_type,
            schedule: WatchSchedule::Once,
        },
        42,
        Timestamp { nanos: 3 },
    );
    assert_eq!(w.status, WatchStatus::Active);
    assert_eq!(w.created_at_tick, 42);
    assert_eq!(w.trigger_count, 0);
    assert_eq!(w.schedule, WatchSchedule::Once);
}

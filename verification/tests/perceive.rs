use exoskeleton_host::orient::{messages_to_resolve, resolved_text};
use exoskeleton_host::perceive::{
    mark_stale_conversations, pending_action_results, place_envelope, recent_messages,
    Conversation, ConversationId, ConversationState, EnvelopeId, EnvelopeKind, EventEntry,
    EventType, MessageEnvelope, PrincipalId,
};
use exoskeleton_host::types::{ArtifactId, TickId, Timestamp};

const SECOND: i128 = 1_000_000_000;
const MINUTE: i128 = 60 * SECOND;
const NOW: i128 = 1_700_000_000 * SECOND;

fn id(digest: &str) -> ArtifactId {
    ArtifactId { digest: digest.into() }
}

fn at(nanos: i128) -> Timestamp {
    Timestamp { nanos }
}

fn envelope(source: u128, kind: EnvelopeKind, time: i128, reply: Option<u128>) -> MessageEnvelope {
    MessageEnvelope {
        id: EnvelopeId { raw: 900 },
        source: PrincipalId { raw: source },
        target: None,
        kind,
        payload_ref: id("message"),
        timestamp: at(time),
        in_reply_to: reply.map(|raw| EnvelopeId { raw }),
    }
}

fn conversation(source: u128, time: i128) -> Conversation {
    Conversation::from_first_message(
        ConversationId { raw: 1 },
        PrincipalId { raw: source },
        EnvelopeId { raw: 100 },
        id("first"),
        at(time),
    )
}

const NEW_ID: ConversationId = ConversationId { raw: 77 };

fn event(event_type: EventType, summary: &str) -> EventEntry {
    EventEntry {
        id: 1,
        tick_id: Some(TickId { raw: 5 }),
        event_type,
        payload_ref: None,
        summary: summary.into(),
        timestamp: at(NOW),
    }
}

#[test]
fn perceive_with_previous_tick_events() {
    let results = pending_action_results(Some(vec![
        event(EventType::ActionExecuted, "Action delay: succeeded"),
        event(EventType::ActionExecuted, "Action fs.write: failed"),
    ]));
    assert_eq!(results.len(), 2);
    assert!(results.iter().all(|e| e.event_type == EventType::ActionExecuted));
}

#[test]
fn perceive_ignores_non_action_events() {
    let results = pending_action_results(Some(vec![
        event(EventType::TickStarted, "Tick started"),
        event(EventType::ActionExecuted, "Action executed"),
    ]));
    assert_eq!(results.len(), 1);
    assert_eq!(results[0].event_type, EventType::ActionExecuted);
}

#[test]
fn perceive_no_previous_tick() {
    assert!(pending_action_results(None).is_empty());
}

#[test]
fn envelope_with_reply_to_joins_conversation() {
    let conv = conversation(3, NOW);
    let reply = envelope(3, EnvelopeKind::HumanMessage, NOW + 5 * SECOND, Some(100));
    let updated = place_envelope(&reply, Some(conv), vec![], NEW_ID).unwrap();
    assert_eq!(updated.id, ConversationId { raw: 1 });
    assert_eq!(updated.message_count(), 2);
}

#[test]
fn time_window_groups_same_principal() {
    let msg = envelope(3, EnvelopeKind::HumanMessage, NOW + 5 * MINUTE, None);
    let updated = place_envelope(&msg, None, vec![conversation(3, NOW)], NEW_ID).unwrap();
    assert_eq!(updated.message_count(), 2);
    assert_eq!(updated.id, ConversationId { raw: 1 });
}

#[test]
fn the_window_is_ten_minutes() {
    let msg = envelope(3, EnvelopeKind::HumanMessage, NOW + 10 * MINUTE, None);
    let new = place_envelope(&msg, None, vec![conversation(3, NOW)], NEW_ID).unwrap();
    assert_eq!(new.id, NEW_ID);
    let msg = envelope(3, EnvelopeKind::HumanMessage, NOW + 10 * MINUTE - 1, None);
    let old = place_envelope(&msg, None, vec![conversation(3, NOW)], NEW_ID).unwrap();
    assert_eq!(old.id, ConversationId { raw: 1 });
}

#[test]
fn new_principal_creates_new_conversation() {
    let msg = envelope(4, EnvelopeKind::HumanMessage, NOW + 5 * SECOND, None);
    let new = place_envelope(&msg, None, vec![conversation(3, NOW)], NEW_ID).unwrap();
    assert_eq!(new.id, NEW_ID);
    assert_eq!(new.message_count(), 1);
}

#[test]
fn agent_message_groups_identically() {
    let msg = envelope(9, EnvelopeKind::AgentMessage, NOW, None);
    let conv = place_envelope(&msg, None, vec![], NEW_ID).unwrap();
    assert_eq!(conv.participants, vec![PrincipalId { raw: 9 }]);
}

#[test]
fn system_event_not_grouped() {
    let msg = envelope(9, EnvelopeKind::SystemEvent, NOW, None);
    assert!(place_envelope(&msg, None, vec![], NEW_ID).is_none());
    let msg = envelope(9, EnvelopeKind::RelationalSignal, NOW, None);
    assert!(place_envelope(&msg, None, vec![], NEW_ID).is_none());
}

#[test]
fn stale_conversation_reactivated() {
    let mut conv = conversation(3, NOW - 5 * MINUTE);
    conv.state = ConversationState::Stale;
    let msg = envelope(3, EnvelopeKind::HumanMessage, NOW, Some(100));
    let updated = place_envelope(&msg, Some(conv), vec![], NEW_ID).unwrap();
    assert_eq!(updated.state, ConversationState::Active);
}

#[test]
fn active_conversations_populated() {
    let msg = envelope(3, EnvelopeKind::HumanMessage, NOW, None);
    let conv = place_envelope(&msg, None, vec![], NEW_ID).unwrap();
    assert_eq!(conv.state, ConversationState::Active);
    assert_eq!(conv.message_count(), 1);
}

#[test]
fn replies_to_unknown_messages_fall_back_to_the_window() {
    let msg = envelope(3, EnvelopeKind::HumanMessage, NOW + MINUTE, Some(555));
    let updated = place_envelope(&msg, None, vec![conversation(3, NOW)], NEW_ID).unwrap();
    assert_eq!(updated.id, ConversationId { raw: 1 });
}

#[test]
fn old_conversations_become_stale() {
    let marked = mark_stale_conversations(
        vec![conversation(3, NOW - 31 * MINUTE), conversation(4, NOW - 5 * MINUTE)],
        at(NOW),
    );
    assert_eq!(marked.len(), 1);
    assert_eq!(marked[0].state, ConversationState::Stale);
    assert_eq!(marked[0].participants, vec![PrincipalId { raw: 3 }]);
}

#[test]
fn recent_messages_come_last() {
    let mut conv = conversation(3, NOW);
    for (k, digest) in ["b", "c", "d"].iter().enumerate() {
        conv.add_message(
            PrincipalId { raw: 3 },
            EnvelopeId { raw: 200 + k as u128 },
            id(digest),
            at(NOW),
        );
    }
    let recent = recent_messages(&conv, 2);
    let digests: Vec<&str> = recent.iter().map(|m| m.payload_ref.digest.as_str()).collect();
    assert_eq!(digests.len(), 2);
    assert!(digests.contains(&"c") && digests.contains(&"d"));
    let wanted = messages_to_resolve(&vec![conv]);
    assert_eq!(wanted.len(), 3);
    assert!(!wanted.contains(&id("first")));
}

#[test]
fn contents_that_are_no_text_are_left_out() {
    assert_eq!(resolved_text(Some(b"hello".to_vec())), Some("hello".to_string()));
    assert_eq!(resolved_text(Some(vec![0xff])), None);
    assert_eq!(resolved_text(None), None);
}

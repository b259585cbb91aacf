use exoskeleton_host::json::{parse_json, write_json, Json};
use exoskeleton_host::types::ExoError;
use exoskeleton_host::virtual_tools::{
    is_pending,
    is_virtual_tool, post_process, post_process_ask_user, post_process_peer_resolve, translate,
    translate_ask_user, translate_peer_resolve, translate_with_id, virtual_tool_descriptors,
    VirtualContext,
};

fn json(text: &str) -> Json {
    parse_json(text).unwrap()
}

fn value(j: &Json) -> serde_json::Value {
    serde_json::from_str(&write_json(j)).unwrap()
}

#[test]
fn is_virtual_tool_recognizes_known_tools() {
    assert!(is_virtual_tool("agent.ask_user"));
    assert!(is_virtual_tool("peer.resolve"));
}

#[test]
fn is_virtual_tool_rejects_unknown() {
    assert!(!is_virtual_tool("code.read"));
    assert!(!is_virtual_tool("signal.await"));
    assert!(!is_virtual_tool("signal.emit"));
    assert!(!is_virtual_tool("delay"));
    assert!(!is_virtual_tool(""));
}

#[test]
fn ask_user_translation_produces_signal_await() {
    let descriptors = virtual_tool_descriptors();
    let ask_desc = descriptors.iter().find(|d| d.name == "agent.ask_user").unwrap();
    assert_eq!(ask_desc.name, "agent.ask_user");

    let signal_result = json(
        r#"{"status": "received", "payload": {"answer": "pytest", "answered_by": "operator"}}"#,
    );
    let result = value(&post_process_ask_user("test-id", &signal_result));
    assert_eq!(result["status"], "answered");
    assert_eq!(result["answer"], "pytest");
    assert_eq!(result["question_id"], "test-id");

    let t = translate_ask_user(&json(r#"{"question": "which?"}"#), "q-1", "now").unwrap();
    assert_eq!(t.tool_name, "signal.await");
    assert!(matches!(t.context, VirtualContext::AskUser { question_id } if question_id == "q-1"));
    assert!(t.question.is_some());
    let e = translate_ask_user(&json("{}"), "q-1", "now").unwrap_err();
    assert_eq!(e, ExoError::Engine("agent.ask_user: missing 'question'".into()));
}

#[test]
fn ask_user_post_process_received() {
    let signal_result =
        json(r#"{"status": "received", "payload": {"answer": "yes", "answered_by": "operator"}}"#);
    let result = value(&post_process_ask_user("q-123", &signal_result));
    assert_eq!(result["status"], "answered");
    assert_eq!(result["answer"], "yes");
    assert_eq!(result["answered_by"], "operator");
    assert_eq!(result["question_id"], "q-123");
}

#[test]
fn ask_user_post_process_timeout() {
    let signal_result = json(r#"{"status": "timeout"}"#);
    let result = value(&post_process_ask_user("q-456", &signal_result));
    assert_eq!(result["status"], "pending");
    assert_eq!(result["question_id"], "q-456");
}

#[test]
fn peer_resolve_translation_produces_http_request() {
    let params = json(r#"{"name": "atlas"}"#);
    let (tool_name, tool_params) =
        translate_peer_resolve(&params, "http://observatory:3000", None).unwrap();
    let tool_params = value(&tool_params);
    assert_eq!(tool_name, "http.request");
    assert_eq!(
        tool_params["url"],
        "http://observatory:3000/api/v1/fleet/vessels/atlas/inbox-url"
    );
    assert_eq!(tool_params["method"], "GET");
}

#[test]
fn peer_resolve_name_validation() {
    let err = translate_peer_resolve(&json(r#"{"name": ""}"#), "http://obs", None);
    assert!(err.is_err());

    let err = translate_peer_resolve(&json(r#"{"name": "../../admin"}"#), "http://obs", None);
    assert!(err.is_err());

    let err = translate_peer_resolve(&json(r#"{"name": "bad name"}"#), "http://obs", None);
    assert!(err.is_err());

    let err = translate_peer_resolve(&json("{}"), "http://obs", None);
    assert!(err.is_err());

    assert!(translate_peer_resolve(&json(r#"{"name": "atlas"}"#), "http://obs", None).is_ok());
    assert!(
        translate_peer_resolve(&json(r#"{"name": "my-vessel.v2"}"#), "http://obs", None).is_ok()
    );
    assert!(translate_peer_resolve(&json(r#"{"name": "vessel_1"}"#), "http://obs", None).is_ok());
}

#[test]
fn peer_resolve_auth_header_included() {
    let params = json(r#"{"name": "atlas"}"#);
    let (_, tool_params) =
        translate_peer_resolve(&params, "http://obs:3000", Some("my-token")).unwrap();
    assert_eq!(value(&tool_params)["headers"]["Authorization"], "Bearer my-token");
}

#[test]
fn peer_resolve_post_process_404() {
    let http_result = Ok(json(r#"{"status_code": 404, "body": "not found"}"#));
    let result = post_process_peer_resolve(&http_result);
    assert!(result.is_err());
    assert!(result.unwrap_err().contains("not found"));
}

#[test]
fn peer_resolve_post_process_5xx() {
    let http_result = Ok(json(r#"{"status_code": 503, "body": "unavailable"}"#));
    let result = post_process_peer_resolve(&http_result);
    assert!(result.is_err());
    assert!(result.unwrap_err().contains("503"));
}

#[test]
fn peer_resolve_excluded_without_observatory_url() {
    let mut tools = virtual_tool_descriptors();
    let observatory_url: Option<String> = None;
    if observatory_url.is_none() {
        tools.retain(|d| d.name != "peer.resolve");
    }
    assert!(tools.iter().any(|d| d.name == "agent.ask_user"));
    assert!(!tools.iter().any(|d| d.name == "peer.resolve"));
}

#[test]
fn questions_get_identifiers_of_their_own() {
    let params = json(r#"{"question": "which?"}"#);
    let mut seen = Vec::new();
    for _ in 0..2 {
        let t = translate("agent.ask_user", &params, None, None).unwrap();
        match t.context {
            VirtualContext::AskUser { question_id } => {
                assert_eq!(question_id.len(), 36);
                seen.push(question_id);
                let record = value(&t.question.as_ref().unwrap().record);
                let asked_at = record["asked_at"].as_str().unwrap();
                assert!(chrono::DateTime::parse_from_rfc3339(asked_at).is_ok());
            }
            other => panic!("expected AskUser, got {other:?}"),
        }
    }
    assert_ne!(seen[0], seen[1]);
}

#[test]
fn translations_that_fail() {
    let params = json(r#"{"name": "atlas"}"#);
    assert!(translate_with_id("peer.resolve", &params, "q", "now", None, None).is_err());
    assert!(translate_with_id("code.read", &params, "q", "now", Some("http://o"), None).is_err());
    let t = translate_with_id("peer.resolve", &params, "q", "now", Some("http://o"), None).unwrap();
    assert_eq!(t.tool_name, "http.request");
    assert!(t.question.is_none());
}

#[test]
fn failed_calls_stay_failed() {
    for context in
        [VirtualContext::PeerResolve, VirtualContext::AskUser { question_id: "q".into() }]
    {
        let r = post_process(&context, &Err("broken".into()));
        assert_eq!(r.unwrap_err(), "broken");
    }
}

#[test]
fn questions_wait_for_their_answer() {
    let asked = VirtualContext::AskUser { question_id: "q".into() };
    let said = |text: &str| Ok(parse_json(text).unwrap());
    assert!(is_pending(&asked, &said(r#"{"status": "pending"}"#)));
    assert!(!is_pending(&asked, &said(r#"{"status": "answered"}"#)));
    assert!(!is_pending(&asked, &said("{}")));
    assert!(!is_pending(&asked, &Err("lost".into())));
    assert!(!is_pending(&VirtualContext::PeerResolve, &said(r#"{"status": "pending"}"#)));
}

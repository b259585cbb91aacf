use exoskeleton_host::json::{parse_json, Json};
use exoskeleton_host::memory::PlanUpdate;
use exoskeleton_host::tool_defs::{
    cognitive_tool_definitions, introspection_tool_definitions, is_cognitive_tool,
    is_introspection_tool,
};
use exoskeleton_host::tools::{
    accumulate_cognitive_outcome, build_decide_tools, build_inner_loop_tools,
    introspection_tool_to_query, process_cognitive_tool, CognitiveAccumulator, IntrospectionQuery,
};
use exoskeleton_host::types::VesselMode;

fn json(text: &str) -> Json {
    parse_json(text).unwrap()
}

#[test]
fn cognitive_tool_definitions_count() {
    let tools = cognitive_tool_definitions();
    assert_eq!(tools.len(), 6, "expected 6 cognitive tools");
}

#[test]
fn cognitive_tool_definitions_have_schemas() {
    for tool in cognitive_tool_definitions() {
        assert!(!tool.name.is_empty());
        assert!(!tool.description.is_empty());
        assert!(
            matches!(tool.input_schema, Json::Object(_)),
            "schema for {} must be an object",
            tool.name
        );
    }
}

#[test]
fn is_cognitive_tool_recognizes_all() {
    assert!(is_cognitive_tool("update_plan"));
    assert!(is_cognitive_tool("set_working_memory"));
    assert!(is_cognitive_tool("save_memory_note"));
    assert!(is_cognitive_tool("propose_watch"));
    assert!(is_cognitive_tool("request_vessel_mode"));
    assert!(is_cognitive_tool("reply_to_user"));
}

#[test]
fn is_cognitive_tool_rejects_non_cognitive() {
    assert!(!is_cognitive_tool("code.read"));
    assert!(!is_cognitive_tool("introspect_tick_history"));
    assert!(!is_cognitive_tool("agent.ask_user"));
    assert!(!is_cognitive_tool(""));
}

#[test]
fn introspection_tool_definitions_count() {
    let tools = introspection_tool_definitions();
    assert_eq!(tools.len(), 8, "expected 8 introspection tools");
}

#[test]
fn introspection_tool_definitions_have_schemas() {
    for tool in introspection_tool_definitions() {
        assert!(!tool.name.is_empty());
        assert!(!tool.description.is_empty());
        assert!(
            matches!(tool.input_schema, Json::Object(_)),
            "schema for {} must be an object",
            tool.name
        );
    }
}

#[test]
fn is_introspection_tool_recognizes_all() {
    for name in [
        "introspect_tick_history",
        "introspect_budget_status",
        "introspect_thread_status",
        "introspect_memory_search",
        "introspect_trust_scores",
        "introspect_connector_details",
        "introspect_watch_list",
        "introspect_event_history",
    ] {
        assert!(is_introspection_tool(name), "{name} should be introspection");
    }
}

#[test]
fn is_introspection_tool_rejects_non_introspection() {
    assert!(!is_introspection_tool("code.read"));
    assert!(!is_introspection_tool("update_plan"));
    assert!(!is_introspection_tool(""));
}

#[test]
fn defined_tools_are_recognized() {
    for tool in cognitive_tool_definitions() {
        assert!(is_cognitive_tool(&tool.name));
        assert!(!is_introspection_tool(&tool.name));
    }
    for tool in introspection_tool_definitions() {
        assert!(is_introspection_tool(&tool.name));
        assert!(!is_cognitive_tool(&tool.name));
    }
}

#[test]
fn introspection_tool_to_query_tick_history() {
    let q = introspection_tool_to_query("introspect_tick_history", &json(r#"{"limit": 5}"#)).unwrap();
    assert!(matches!(q, IntrospectionQuery::TickHistory { limit: 5 }));
}

#[test]
fn introspection_tool_to_query_budget_status() {
    let q = introspection_tool_to_query("introspect_budget_status", &json("{}")).unwrap();
    assert!(matches!(q, IntrospectionQuery::BudgetStatus));
}

#[test]
fn introspection_tool_to_query_unknown_tool_errors() {
    let result = introspection_tool_to_query("unknown_tool", &json("{}"));
    assert!(result.is_err());
}

#[test]
fn introspection_tool_to_query_memory_search_with_tags() {
    let q = introspection_tool_to_query(
        "introspect_memory_search",
        &json(r#"{"topic": "deployment", "tags": ["ops", "infra"]}"#),
    )
    .unwrap();
    match q {
        IntrospectionQuery::MemorySearch { topic, tags } => {
            assert_eq!(topic, Some("deployment".into()));
            assert_eq!(tags, Some(vec!["ops".into(), "infra".into()]));
        }
        other => panic!("expected MemorySearch, got: {other:?}"),
    }
}

#[test]
fn process_cognitive_tool_reply_to_user() {
    let result = process_cognitive_tool("reply_to_user", &json(r#"{"message": "hi"}"#)).unwrap();
    assert_eq!(result.reply.as_deref(), Some("hi"));
}

#[test]
fn process_cognitive_tool_set_working_memory() {
    let result = process_cognitive_tool(
        "set_working_memory",
        &json(r#"{"ops": [{"op": "set", "key": "k", "value": "v", "ttl_ticks": 2}]}"#),
    )
    .unwrap();
    assert_eq!(result.working_memory_ops.len(), 1);
}

#[test]
fn process_cognitive_tool_update_plan_patch() {
    let task_id = "00000000-0000-0000-0000-000000000001";
    let input = json(&format!(
        r#"{{"type": "patch", "operations": [{{"op": "update_status", "task_id": "{task_id}", "new_status": "completed"}}]}}"#
    ));
    let result = process_cognitive_tool("update_plan", &input).unwrap();
    match result.plan_update {
        Some(PlanUpdate::Patch { operations }) => {
            assert_eq!(operations.len(), 1);
        }
        other => panic!("expected PlanUpdate::Patch, got: {other:?}"),
    }
}

#[test]
fn cognitive_tools_with_bad_input_fail() {
    for (name, input) in [
        ("reply_to_user", "{}"),
        ("save_memory_note", "{}"),
        ("set_working_memory", r#"{"ops": 3}"#),
        ("update_plan", r#"{"type": "unknown"}"#),
        ("update_plan", r#"{"type": "patch", "operations": [{"op": "update_status", "task_id": "no", "new_status": "completed"}]}"#),
        ("propose_watch", "{}"),
        ("request_vessel_mode", r#"{"mode": "sleeping"}"#),
        ("code.read", "{}"),
    ] {
        assert!(process_cognitive_tool(name, &json(input)).is_err(), "{name} {input}");
    }
}

#[test]
fn effects_of_tools_are_gathered() {
    let mut a = CognitiveAccumulator::default();
    for (name, input) in [
        ("save_memory_note", r#"{"note": "one"}"#),
        ("save_memory_note", r#"{"note": "two"}"#),
        ("reply_to_user", r#"{"message": "first"}"#),
        ("reply_to_user", r#"{"message": "second"}"#),
        ("request_vessel_mode", r#"{"mode": "planning"}"#),
    ] {
        let effect = process_cognitive_tool(name, &json(input)).unwrap();
        accumulate_cognitive_outcome(&mut a, effect);
    }
    assert_eq!(a.memory_notes, vec!["one".to_string(), "two".to_string()]);
    assert!(a.reply.is_some());
    assert_eq!(a.vessel_mode_request, Some(VesselMode::Planning));
}

#[test]
fn offered_tools() {
    let with = build_decide_tools(vec![], true);
    let without = build_decide_tools(vec![], false);
    assert!(with.iter().any(|t| t.name == "peer.resolve"));
    assert!(!without.iter().any(|t| t.name == "peer.resolve"));
    assert!(without.iter().any(|t| t.name == "agent.ask_user"));
    let inner = build_inner_loop_tools(vec![]);
    assert_eq!(inner.len(), 6);
}

use exoskeleton_host::anthropic::{
    anthropic_content_from_blocks, parse_anthropic_response_blocks, read_block,
    read_response as read_anthropic, tool_to_json, AnthropicBackend, AnthropicContent,
    AnthropicContentBlock, AnthropicToolDefinition,
};
use exoskeleton_host::anthropic_stream::{
    parse_anthropic_sse_event, AnthropicSseEvent, AnthropicStream,
};
use exoskeleton_host::chat::{
    chat_to_json, parse_openai_response_blocks, read_call, tool_to_openai_definition,
    OpenAiFunctionCall, OpenAiMessage, OpenAiToolCall,
};
use exoskeleton_host::http::{
    check_cancelled, check_stream, classify_llm_error, endpoint_url, estimate_anthropic_cost,
    estimate_openai_cost, is_retryable_error, request_text_len, status_error, transport_error,
    TransportFailure,
};
use exoskeleton_host::json::{parse_json, write_json, Json};
use exoskeleton_host::llm::{
    LlmBackend, LlmMessage, LlmRequest, LlmResponse, LlmRole, StopReason,
};
use exoskeleton_host::mock::MockLlmBackend;
use exoskeleton_host::ollama::{read_response as read_ollama, OllamaNativeBackend};
use exoskeleton_host::openai::{read_response as read_openai, OpenAiCompatBackend};
use exoskeleton_host::openai_stream::{parse_openai_sse_line, OpenAiSseEvent, OpenAiStream};
use exoskeleton_host::tool_defs::ToolDefinition;
use exoskeleton_host::tool_names::{decode_anthropic_tool_name, encode_anthropic_tool_name};
use exoskeleton_host::types::{ContentBlock, ExoError, HandlerOutput};

fn request(system: Option<&str>, text: &str, max: u64) -> LlmRequest {
    LlmRequest {
        backend: None,
        system_prompt: system.map(|s| s.to_string()),
        messages: vec![LlmMessage::text(LlmRole::User, text)],
        max_output_tokens: max,
        temperature: None,
        stop_sequences: vec![],
        stream: false,
        tools: vec![],
    }
}

fn read_tool() -> ToolDefinition {
    ToolDefinition {
        name: "code.read".into(),
        description: "Read a file".into(),
        input_schema: parse_json(r#"{"type":"object"}"#).unwrap(),
    }
}

fn message(e: ExoError) -> String {
    match e {
        ExoError::LlmInvocation(m) => m,
        other => panic!("expected LlmInvocation, got {other:?}"),
    }
}

#[test]
fn parse_openai_sse_delta_extracts_content() {
    let line = r#"data: {"choices":[{"delta":{"content":"Hello"},"index":0}]}"#;
    let delta = parse_openai_sse_line(line);
    assert_eq!(delta, OpenAiSseEvent::Delta("Hello".into()));
}

#[test]
fn parse_openai_sse_done_signal() {
    let delta = parse_openai_sse_line("data: [DONE]");
    assert_eq!(delta, OpenAiSseEvent::Done);
}

#[test]
fn parse_openai_sse_with_usage() {
    let line = r#"data: {"choices":[{"delta":{},"finish_reason":"stop","index":0}],"usage":{"prompt_tokens":10,"completion_tokens":5}}"#;
    let delta = parse_openai_sse_line(line);
    match delta {
        OpenAiSseEvent::Final { finish_reason, prompt_tokens, completion_tokens } => {
            assert_eq!(finish_reason.as_deref(), Some("stop"));
            assert_eq!(prompt_tokens, Some(10));
            assert_eq!(completion_tokens, Some(5));
        }
        other => panic!("expected Final, got {other:?}"),
    }
}

#[test]
fn parse_openai_sse_empty_delta_ignored() {
    let line = r#"data: {"choices":[{"delta":{},"index":0}]}"#;
    let delta = parse_openai_sse_line(line);
    assert_eq!(delta, OpenAiSseEvent::Skip);
}

#[test]
fn openai_sse_lines_that_tell_nothing() {
    for line in [
        "",
        "   ",
        ": keep-alive",
        "event: ping",
        "data: not json",
        r#"data: {"choices":[]}"#,
        r#"data: {"choices":[{"delta":{"content":7}}]}"#,
        r#"data: {"usage":{"prompt_tokens":1,"completion_tokens":2}}"#,
    ] {
        assert_eq!(parse_openai_sse_line(line), OpenAiSseEvent::Skip, "{line}");
    }
}

#[test]
fn parse_anthropic_sse_content_block_delta() {
    let event_type = "content_block_delta";
    let data =
        r#"{"type":"content_block_delta","index":0,"delta":{"type":"text_delta","text":"Hello"}}"#;
    let delta = parse_anthropic_sse_event(event_type, data);
    assert_eq!(delta, AnthropicSseEvent::TextDelta("Hello".into()));
}

#[test]
fn parse_anthropic_sse_message_delta_stop_reason() {
    let event_type = "message_delta";
    let data = r#"{"type":"message_delta","delta":{"stop_reason":"end_turn"},"usage":{"output_tokens":5}}"#;
    let delta = parse_anthropic_sse_event(event_type, data);
    match delta {
        AnthropicSseEvent::MessageDelta { stop_reason, output_tokens } => {
            assert_eq!(stop_reason.as_deref(), Some("end_turn"));
            assert_eq!(output_tokens, Some(5));
        }
        other => panic!("expected MessageDelta, got {other:?}"),
    }
}

#[test]
fn parse_anthropic_sse_message_stop() {
    let delta = parse_anthropic_sse_event("message_stop", r#"{"type":"message_stop"}"#);
    assert_eq!(delta, AnthropicSseEvent::Done);
}

#[test]
fn parse_anthropic_sse_message_start_extracts_input_tokens() {
    let event_type = "message_start";
    let data = r#"{"type":"message_start","message":{"model":"sonnet-4-20250514","usage":{"input_tokens":25,"output_tokens":0}}}"#;
    let delta = parse_anthropic_sse_event(event_type, data);
    match delta {
        AnthropicSseEvent::MessageStart { model, input_tokens } => {
            assert_eq!(model.as_deref(), Some("sonnet-4-20250514"));
            assert_eq!(input_tokens, Some(25));
        }
        other => panic!("expected MessageStart, got {other:?}"),
    }
}

#[test]
fn anthropic_sse_events_that_tell_nothing() {
    for (kind, data) in [
        ("ping", "{}"),
        ("", r#"{"delta":{"text":"x"}}"#),
        ("content_block_delta", "not json"),
        ("content_block_delta", r#"{"delta":{"text":""}}"#),
        ("content_block_delta", r#"{"delta":{"type":"input_json_delta"}}"#),
        ("message_delta", r#"{"usage":{"output_tokens":5}}"#),
        ("message_delta", r#"{"delta":{},"usage":{"output_tokens":"five"}}"#),
        ("message_start", r#"{"model":"m"}"#),
    ] {
        assert_eq!(parse_anthropic_sse_event(kind, data), AnthropicSseEvent::Skip, "{kind} {data}");
    }
}

#[test]
fn call_streaming_default_falls_back_to_call() {
    let response = LlmResponse {
        content_blocks: vec![ContentBlock::Text { text: "streaming fallback".into() }],
        model: "mock".into(),
        tokens_in: 10,
        tokens_out: 5,
        latency_ms: 50,
        stop_reason: StopReason::EndTurn,
        cost_micros: None,
        backend: LlmBackend::Local,
    };
    let mut mock = MockLlmBackend::new(response);
    let mut request = request(None, "Hi", 100);
    request.stream = true;
    let backend = exoskeleton_host::direct::HttpBackend::Ollama(OllamaNativeBackend::new(
        "http://localhost:11434".into(),
        "test".into(),
    ));
    assert!(backend.open_stream(&request).is_none());
    let result = mock.call(&request);
    assert!(result.is_ok());
    assert_eq!(result.unwrap().text(), "streaming fallback");
}

#[test]
fn openai_compat_request_format() {
    let backend = OpenAiCompatBackend::new(
        "http://localhost:11434".into(),
        "llama3.2:latest".into(),
        None,
    );
    let mut request = request(Some("You are helpful."), "Hello", 1024);
    request.temperature = Some("0.7".into());
    request.stop_sequences = vec!["</answer>".into()];
    let body = backend.build_request_body(&request);
    assert_eq!(body.model, "llama3.2:latest");
    assert_eq!(body.messages.len(), 2);
    assert_eq!(body.messages[0].role, "system");
    assert_eq!(body.messages[0].content.as_deref(), Some("You are helpful."));
    assert_eq!(body.messages[1].role, "user");
    assert_eq!(body.messages[1].content.as_deref(), Some("Hello"));
    assert_eq!(body.max_completion_tokens, 1024);
    assert_eq!(body.temperature, Some("0.7".into()));
    assert_eq!(body.stop, Some(vec!["</answer>".into()]));
}

#[test]
fn openai_request_as_text() {
    let backend = OpenAiCompatBackend::new("http://h/".into(), "gpt-4o".into(), None);
    let mut request = request(Some("Be brief."), "Hello", 16);
    request.temperature = Some("0.7".into());
    let text = write_json(&backend.build_request_body(&request).to_json());
    assert_eq!(
        text,
        r#"{"max_completion_tokens":16,"messages":[{"content":"Be brief.","role":"system"},{"content":"Hello","role":"user"}],"model":"gpt-4o","temperature":0.7}"#
    );
    request.stream = true;
    let text = write_json(&backend.build_request_body(&request).to_json());
    assert!(text.contains(r#""stream":true"#));
    assert_eq!(backend.url(), "http://h/v1/chat/completions");
}

#[test]
fn openai_compat_response_parsing() {
    let json = r#"{
            "choices": [{
                "message": {"role": "assistant", "content": "Hello there!"},
                "finish_reason": "stop"
            }],
            "usage": {"prompt_tokens": 10, "completion_tokens": 5},
            "model": "llama3.2:latest"
        }"#;
    let parsed = read_openai(&parse_json(json).unwrap()).unwrap();
    assert_eq!(parsed.choices[0].message.content.as_deref(), Some("Hello there!"));
    assert_eq!(parsed.choices[0].finish_reason.as_deref(), Some("stop"));
    let usage = parsed.usage.unwrap();
    assert_eq!(usage.prompt_tokens, 10);
    assert_eq!(usage.completion_tokens, 5);
}

#[test]
fn openai_answers() {
    let backend = OpenAiCompatBackend::new(
        "http://h".into(),
        "gpt-4o".into(),
        Some("key".into()),
    );
    let request = request(Some("12345678"), "abcd", 10);
    let body = r#"{"choices":[{"message":{"role":"assistant","content":"Hello there!"},"finish_reason":"length"}],"usage":{"prompt_tokens":1000000,"completion_tokens":10}}"#;
    let a = backend.answer_text(&request, body, 7).unwrap();
    assert_eq!(a.text(), "Hello there!");
    assert_eq!(a.model, "gpt-4o");
    assert_eq!((a.tokens_in, a.tokens_out, a.latency_ms), (1_000_000, 10, 7));
    assert_eq!(a.stop_reason, StopReason::MaxTokens);
    assert_eq!(a.backend, LlmBackend::Frontier);
    assert_eq!(a.cost_micros, estimate_openai_cost("gpt-4o", 1_000_000, 10));

    let estimated = r#"{"choices":[{"message":{"role":"assistant","content":"12345678"}}]}"#;
    let a = backend.answer_text(&request, estimated, 0).unwrap();
    assert_eq!((a.tokens_in, a.tokens_out), (3, 2));

    let e = backend.answer_text(&request, r#"{"choices":[]}"#, 0).unwrap_err();
    assert_eq!(message(e), "empty choices array");
    let e = backend.answer_text(&request, "{", 0).unwrap_err();
    assert!(message(e).starts_with("malformed response body: "));
    let e = backend.answer_text(&request, "{}", 0).unwrap_err();
    assert!(message(e).starts_with("malformed response body: "));
}

#[test]
fn openai_compat_system_message_injection() {
    let backend = OpenAiCompatBackend::new("http://localhost:11434".into(), "test".into(), None);
    let request = request(Some("Be concise."), "Hi", 100);
    let body = backend.build_request_body(&request);
    assert_eq!(body.messages[0].role, "system");
    assert_eq!(body.messages[0].content.as_deref(), Some("Be concise."));
}

#[test]
fn anthropic_request_format() {
    let backend = AnthropicBackend::new(
        "https://api.anthropic.com".into(),
        "sonnet-4-20250514".into(),
        "test-key".into(),
    );
    let mut request = request(Some("You are helpful."), "Hello", 2048);
    request.temperature = Some("0.5".into());
    request.stop_sequences = vec!["STOP".into()];
    let body = backend.build_request_body(&request);
    assert_eq!(body.model, "sonnet-4-20250514");
    assert_eq!(body.system, Some("You are helpful.".into()));
    assert_eq!(body.messages.len(), 1);
    assert_eq!(body.messages[0].role, "user");
    assert_eq!(body.max_tokens, 2048);
    assert_eq!(body.stop_sequences, Some(vec!["STOP".into()]));
}

#[test]
fn anthropic_request_as_text() {
    let backend = AnthropicBackend::new("http://h//".into(), "m".into(), "k".into());
    let mut request = request(Some("s"), "Hello", 16);
    request.messages.push(LlmMessage {
        role: LlmRole::Assistant,
        content: vec![
            ContentBlock::Text { text: "ok".into() },
            ContentBlock::ToolUse {
                id: "t1".into(),
                name: "code.read".into(),
                input: parse_json(r#"{"a":1}"#).unwrap(),
            },
        ],
    });
    request.messages.push(LlmMessage {
        role: LlmRole::System,
        content: vec![
            ContentBlock::ToolResult {
                tool_use_id: "t1".into(),
                content: "done".into(),
                is_error: false,
            },
            ContentBlock::ToolResult {
                tool_use_id: "t2".into(),
                content: "no".into(),
                is_error: true,
            },
        ],
    });
    let text = write_json(&backend.build_request_body(&request).to_json());
    assert_eq!(
        text,
        r#"{"max_tokens":16,"messages":[{"content":"Hello","role":"user"},{"content":[{"text":"ok","type":"text"},{"id":"t1","input":{"a":1},"name":"tool_636f64652e72656164","type":"tool_use"}],"role":"assistant"},{"content":[{"content":"done","tool_use_id":"t1","type":"tool_result"},{"content":"no","is_error":true,"tool_use_id":"t2","type":"tool_result"}],"role":"user"}],"model":"m","system":"s"}"#
    );
    assert_eq!(backend.url(), "http://h/v1/messages");
}

#[test]
fn anthropic_content_of_nothing_is_empty_text() {
    match anthropic_content_from_blocks(&vec![]) {
        AnthropicContent::Text(t) => assert_eq!(t, ""),
        other => panic!("expected Text, got {other:?}"),
    }
}

#[test]
fn anthropic_response_parsing() {
    let json = r#"{
            "content": [{"type": "text", "text": "I'm a model."}],
            "model": "sonnet-4-20250514",
            "stop_reason": "end_turn",
            "usage": {"input_tokens": 20, "output_tokens": 8}
        }"#;
    let parsed = read_anthropic(&parse_json(json).unwrap()).unwrap();
    assert!(matches!(
        parsed.content[0],
        AnthropicContentBlock::Text { ref text } if text == "I'm a model."
    ));
    assert_eq!(parsed.model, "sonnet-4-20250514");
    assert_eq!(parsed.stop_reason.as_deref(), Some("end_turn"));
    assert_eq!(parsed.usage.input_tokens, 20);
    assert_eq!(parsed.usage.output_tokens, 8);
}

#[test]
fn anthropic_answers() {
    let backend = AnthropicBackend::new("http://h".into(), "sonnet".into(), "k".into());
    let body = r#"{"content":[{"type":"tool_use","id":"t","name":"tool_636f64652e72656164","input":{}}],"model":"haiku","stop_reason":"tool_use","usage":{"input_tokens":20,"output_tokens":8}}"#;
    let a = backend.answer_text(body, 3).unwrap();
    assert!(matches!(&a.content_blocks[0], ContentBlock::ToolUse { name, .. } if name == "code.read"));
    assert_eq!(a.stop_reason, StopReason::ToolUse);
    assert_eq!(a.model, "haiku");
    assert_eq!((a.tokens_in, a.tokens_out, a.latency_ms), (20, 8, 3));
    assert_eq!(a.cost_micros, Some(estimate_anthropic_cost("haiku", 20, 8)));
    assert_eq!(a.backend, LlmBackend::Frontier);

    let long = "x".repeat(1000);
    let m = message(backend.answer_text(&long, 0).unwrap_err());
    assert!(m.starts_with("malformed response body: "));
    assert!(m.ends_with(&format!("; body={}", "x".repeat(600))));
    let m = message(backend.answer_text("{}", 0).unwrap_err());
    assert!(m.ends_with("; body={}"));
}

#[test]
fn anthropic_stop_reasons() {
    let backend = AnthropicBackend::new("http://h".into(), "sonnet".into(), "k".into());
    for (reason, expected) in [
        ("\"end_turn\"", StopReason::EndTurn),
        ("\"max_tokens\"", StopReason::MaxTokens),
        ("\"stop_sequence\"", StopReason::StopSequence),
        ("\"tool_use\"", StopReason::ToolUse),
        ("\"refusal\"", StopReason::EndTurn),
        ("null", StopReason::EndTurn),
    ] {
        let body = format!(
            r#"{{"content":[],"model":"m","stop_reason":{reason},"usage":{{"input_tokens":1,"output_tokens":1}}}}"#
        );
        assert_eq!(backend.answer_text(&body, 0).unwrap().stop_reason, expected);
    }
}

#[test]
fn anthropic_system_as_top_level() {
    let backend = AnthropicBackend::new(
        "https://api.anthropic.com".into(),
        "test".into(),
        "key".into(),
    );
    let request = request(Some("System instruction"), "Hi", 100);
    let body = backend.build_request_body(&request);
    assert_eq!(body.system, Some("System instruction".into()));
    assert!(body.messages.iter().all(|m| m.role != "system"));
}

#[test]
fn anthropic_headers() {
    let backend = AnthropicBackend::new(
        "https://api.anthropic.com".into(),
        "sonnet-4-20250514".into(),
        "sk-test-key".into(),
    );
    let debug = backend.debug_text();
    assert!(debug.contains("[REDACTED]"));
    assert!(!debug.contains("sk-test-key"));
    assert_eq!(
        debug,
        r#"AnthropicBackend { base_url: "https://api.anthropic.com", model: "sonnet-4-20250514", api_key: "[REDACTED]" }"#
    );
    let headers = backend.headers();
    assert_eq!(headers[0], ("x-api-key".to_string(), "sk-test-key".to_string()));
    assert_eq!(headers[1], ("anthropic-version".to_string(), "2023-06-01".to_string()));
    assert_eq!(headers[2], ("content-type".to_string(), "application/json".to_string()));
}

#[test]
fn ollama_native_request_format() {
    let backend =
        OllamaNativeBackend::new("http://localhost:11434".into(), "llama3.2:latest".into());
    let mut request = request(Some("Be helpful."), "Hello", 1024);
    request.temperature = Some("0.8".into());
    request.stop_sequences = vec!["END".into()];
    let body = backend.build_request_body(&request);
    let json = body.to_json();
    assert_eq!(json.get_str("model").unwrap(), "llama3.2:latest");
    assert!(matches!(json.get("stream"), Some(Json::Bool(false))));
    let messages = json.get("messages").unwrap().as_array().unwrap();
    assert_eq!(messages[0].get_str("role").unwrap(), "system");
    let options = json.get("options").unwrap();
    assert!(matches!(options.get("temperature"), Some(Json::Float(_))));
    let value: serde_json::Value = serde_json::from_str(&write_json(&json)).unwrap();
    assert_eq!(value["model"], "llama3.2:latest");
    assert_eq!(value["stream"], false);
    assert_eq!(value["messages"][0]["role"], "system");
    assert!(value["options"]["temperature"].is_number());
    assert_eq!(value["options"]["stop"][0], "END");
    assert_eq!(backend.url(), "http://localhost:11434/api/chat");
}

#[test]
fn ollama_options_are_left_out_without_need() {
    let backend = OllamaNativeBackend::new("http://h".into(), "m".into());
    let body = backend.build_request_body(&request(None, "Hello", 5));
    assert!(body.options.is_none());
    assert_eq!(
        write_json(&body.to_json()),
        r#"{"messages":[{"content":"Hello","role":"user"}],"model":"m","stream":false}"#
    );
    assert_eq!(
        backend.debug_text(),
        r#"OllamaNativeBackend { base_url: "http://h", model: "m" }"#
    );
}

#[test]
fn ollama_native_response_parsing() {
    let json = r#"{
            "message": {"role": "assistant", "content": "Hello from Ollama!"},
            "model": "llama3.2:latest",
            "eval_count": 15,
            "prompt_eval_count": 25
        }"#;
    let parsed = read_ollama(&parse_json(json).unwrap()).unwrap();
    assert_eq!(parsed.message.content.as_deref(), Some("Hello from Ollama!"));
    assert_eq!(parsed.model, "llama3.2:latest");
    assert_eq!(parsed.eval_count, Some(15));
    assert_eq!(parsed.prompt_eval_count, Some(25));
}

#[test]
fn ollama_answers() {
    let backend = OllamaNativeBackend::new("http://h".into(), "m".into());
    let request = request(None, "12345678", 5);
    let a = backend
        .answer_text(&request, r#"{"message":{"role":"assistant","content":"abcdefgh"},"model":"n"}"#, 9)
        .unwrap();
    assert_eq!((a.tokens_in, a.tokens_out, a.latency_ms), (2, 2, 9));
    assert_eq!(a.stop_reason, StopReason::EndTurn);
    assert_eq!(a.cost_micros, None);
    assert_eq!(a.backend, LlmBackend::Local);
    assert_eq!(a.model, "n");
    let a = backend
        .answer_text(
            &request,
            r#"{"message":{"role":"assistant","tool_calls":[{"type":"function","function":{"name":"f","arguments":"{}"}}]},"model":"n","eval_count":4,"prompt_eval_count":6}"#,
            0,
        )
        .unwrap();
    assert_eq!(a.stop_reason, StopReason::ToolUse);
    assert_eq!((a.tokens_in, a.tokens_out), (6, 4));
    assert!(matches!(&a.content_blocks[0], ContentBlock::ToolUse { id, .. } if id == "synthetic_call_0"));
    let m = message(backend.answer_text(&request, "[]", 0).unwrap_err());
    assert!(m.starts_with("malformed response body: "));
    let m = message(backend.answer_text(&request, "nope", 0).unwrap_err());
    assert!(m.starts_with("malformed response body: "));
}

#[test]
fn http_429_is_retryable() {
    assert!(is_retryable_error("429: rate limit exceeded"));
    assert!(is_retryable_error("HTTP 429 Too Many Requests"));
}

#[test]
fn http_401_is_terminal() {
    assert!(!is_retryable_error("401: unauthorized"));
    assert!(!is_retryable_error("403: forbidden"));
    assert!(!is_retryable_error("400: bad request"));
}

#[test]
fn http_5xx_is_retryable() {
    assert!(is_retryable_error("500: internal server error"));
    assert!(is_retryable_error("502: bad gateway"));
    assert!(is_retryable_error("503: service unavailable"));
    assert!(is_retryable_error("504: gateway timeout"));
}

#[test]
fn timeout_is_retryable() {
    assert!(is_retryable_error("timeout: operation timed out"));
    assert!(is_retryable_error("connection refused: could not connect"));
}

#[test]
fn errors_on_the_way() {
    assert_eq!(
        message(transport_error(TransportFailure::Timeout, "slow")),
        "timeout: slow"
    );
    assert_eq!(
        message(transport_error(TransportFailure::Connect, "down")),
        "connection refused: down"
    );
    assert_eq!(message(transport_error(TransportFailure::Other, "odd")), "HTTP error: odd");
    assert_eq!(message(status_error(404, "gone")), "404: gone");
    assert!(check_cancelled(false).is_ok());
    assert_eq!(message(check_cancelled(true).unwrap_err()), "cancelled before HTTP call");
    assert!(check_stream(false, &None).is_ok());
    assert_eq!(
        message(check_stream(true, &Some("x".into())).unwrap_err()),
        "cancelled during streaming"
    );
    assert_eq!(
        message(check_stream(false, &Some("x".into())).unwrap_err()),
        "stream read error: x"
    );
    assert!(matches!(
        classify_llm_error("timeout: x".into()),
        HandlerOutput::RetryableFailure { error, .. } if error == "timeout: x"
    ));
    assert!(matches!(
        classify_llm_error("401: x".into()),
        HandlerOutput::TerminalFailure { error, .. } if error == "401: x"
    ));
    assert_eq!(endpoint_url("http://h///", "/p"), "http://h/p");
}

#[test]
fn lost_requests_are_retried() {
    for failure in [TransportFailure::Timeout, TransportFailure::Connect] {
        assert!(is_retryable_error(&message(transport_error(failure, "whatever"))));
    }
}

#[test]
fn prices_of_calls() {
    // Dollars per million tokens: 15 and 75, 3 and 15, 0.25 and 1.25.
    assert_eq!(estimate_anthropic_cost("opus-4", 1_000_000, 1_000_000), 9_000_000_000);
    assert_eq!(estimate_anthropic_cost("sonnet-4", 1_000_000, 0), 300_000_000);
    assert_eq!(estimate_anthropic_cost("haiku", 0, 1_000_000), 125_000_000);
    assert_eq!(estimate_anthropic_cost("unknown", 1_000_000, 0), 300_000_000);
    assert_eq!(estimate_openai_cost("no-such-model", 1, 1), None);
    assert_eq!(estimate_openai_cost("gpt-4o-mini", 1_000_000, 1_000_000), Some(75_000_000));
}

#[test]
fn text_lengths_count_bytes() {
    let mut r = request(Some("é"), "abc", 1);
    r.messages.push(LlmMessage {
        role: LlmRole::Assistant,
        content: vec![
            ContentBlock::ToolUse {
                id: "ignored".into(),
                name: "ignored".into(),
                input: parse_json(r#"{ "a" : 1 }"#).unwrap(),
            },
            ContentBlock::ToolResult {
                tool_use_id: "ignored".into(),
                content: "xy".into(),
                is_error: true,
            },
        ],
    });
    assert_eq!(request_text_len(&r), 2 + 3 + 7 + 2);
}

#[test]
fn openai_debug_redacts_api_key() {
    let backend = OpenAiCompatBackend::new(
        "http://api.openai.com".into(),
        "gpt-4o".into(),
        Some("sk-secret123".into()),
    );
    let debug = backend.debug_text();
    assert!(debug.contains("[REDACTED]"));
    assert!(!debug.contains("sk-secret123"));
}

#[test]
fn parse_anthropic_text_content_block() {
    let json = r#"{"type": "text", "text": "I'll read the file."}"#;
    let block = read_block(&parse_json(json).unwrap()).unwrap();
    match block {
        AnthropicContentBlock::Text { text } => assert_eq!(text, "I'll read the file."),
        other => panic!("expected Text, got: {other:?}"),
    }
}

#[test]
fn parse_anthropic_tool_use_content_block() {
    let json = r#"{
            "type": "tool_use",
            "id": "toolu_01ABC",
            "name": "code.read",
            "input": {"file_path": "src/lib.rs"}
        }"#;
    let block = read_block(&parse_json(json).unwrap()).unwrap();
    match block {
        AnthropicContentBlock::ToolUse { id, name, input } => {
            assert_eq!(id, "toolu_01ABC");
            assert_eq!(name, "code.read");
            assert_eq!(input.get_str("file_path").unwrap(), "src/lib.rs");
        }
        other => panic!("expected ToolUse, got: {other:?}"),
    }
}

#[test]
fn parse_anthropic_tool_result_content_block() {
    let json = r#"{
            "type": "tool_result",
            "tool_use_id": "toolu_01ABC",
            "content": "file contents here",
            "is_error": false
        }"#;
    let block = read_block(&parse_json(json).unwrap()).unwrap();
    match block {
        AnthropicContentBlock::ToolResult { tool_use_id, content, is_error } => {
            assert_eq!(tool_use_id, "toolu_01ABC");
            assert_eq!(content, "file contents here");
            assert!(!is_error);
        }
        other => panic!("expected ToolResult, got: {other:?}"),
    }
}

#[test]
fn anthropic_tool_definition_serialization() {
    let tool_def = AnthropicToolDefinition {
        name: encode_anthropic_tool_name("code.read"),
        description: "Read a file".into(),
        input_schema: parse_json(
            r#"{"type":"object","properties":{"file_path":{"type":"string"}},"required":["file_path"]}"#,
        )
        .unwrap(),
    };
    let json = write_json(&tool_to_json(&tool_def));
    assert!(json.contains("\"name\":\"tool_636f64652e72656164\""));
    assert!(json.contains("\"input_schema\""));
    assert!(json.contains("\"description\":\"Read a file\""));
}

#[test]
fn anthropic_tool_name_roundtrip_preserves_canonical_name() {
    let encoded = encode_anthropic_tool_name("agent.ask_user");
    assert_eq!(encoded, "tool_6167656e742e61736b5f75736572");
    assert_eq!(decode_anthropic_tool_name(&encoded), "agent.ask_user");
    assert_eq!(decode_anthropic_tool_name("update_plan"), "update_plan");
}

#[test]
fn tool_names_that_look_encoded() {
    for name in ["tool_", "tool_6", "tool_zz", "tool_ff", "tool_6162", "é.x", "", "tool_tool_"] {
        assert_eq!(decode_anthropic_tool_name(&encode_anthropic_tool_name(name)), name);
    }
}

#[test]
fn parse_anthropic_response_blocks_decodes_tool_names() {
    let blocks = parse_anthropic_response_blocks(vec![AnthropicContentBlock::ToolUse {
        id: "toolu_01ABC".into(),
        name: encode_anthropic_tool_name("code.read"),
        input: parse_json(r#"{"file_path":"src/lib.rs"}"#).unwrap(),
    }]);
    assert!(matches!(
        &blocks[0],
        ContentBlock::ToolUse { id, name, input }
            if id == "toolu_01ABC" && name == "code.read"
                && input.get_str("file_path").unwrap() == "src/lib.rs"
    ));
}

#[test]
fn parse_openai_tool_call_with_id() {
    let json = r#"{
            "id": "call_abc123",
            "type": "function",
            "function": {
                "name": "code.read",
                "arguments": "{\"file_path\":\"src/lib.rs\"}"
            }
        }"#;
    let call = read_call(&parse_json(json).unwrap()).unwrap();
    assert_eq!(call.id, Some("call_abc123".into()));
    assert_eq!(call.function.name, "code.read");
}

#[test]
fn parse_openai_tool_call_without_id() {
    let json = r#"{
            "type": "function",
            "function": {
                "name": "code.read",
                "arguments": "{\"file_path\":\"src/lib.rs\"}"
            }
        }"#;
    let call = read_call(&parse_json(json).unwrap()).unwrap();
    assert_eq!(call.id, None);
    assert_eq!(call.function.name, "code.read");
}

#[test]
fn parse_openai_response_blocks_with_tool_calls() {
    let msg = OpenAiMessage {
        role: "assistant".into(),
        content: Some("I'll read the file.".into()),
        tool_calls: Some(vec![OpenAiToolCall {
            id: Some("call_1".into()),
            call_type: "function".into(),
            function: OpenAiFunctionCall {
                name: "code.read".into(),
                arguments: r#"{"file_path":"src/lib.rs"}"#.into(),
            },
        }]),
        tool_call_id: None,
    };
    let blocks = parse_openai_response_blocks(msg).unwrap();
    assert_eq!(blocks.len(), 2);
    assert!(matches!(&blocks[0], ContentBlock::Text { text } if text == "I'll read the file."));
    assert!(matches!(&blocks[1], ContentBlock::ToolUse { id, name, .. } if id == "call_1" && name == "code.read"));
}

#[test]
fn parse_openai_response_blocks_synthetic_id() {
    let msg = OpenAiMessage {
        role: "assistant".into(),
        content: None,
        tool_calls: Some(vec![OpenAiToolCall {
            id: None,
            call_type: "function".into(),
            function: OpenAiFunctionCall {
                name: "code.read".into(),
                arguments: r#"{"file_path":"test"}"#.into(),
            },
        }]),
        tool_call_id: None,
    };
    let blocks = parse_openai_response_blocks(msg).unwrap();
    assert_eq!(blocks.len(), 1);
    assert!(matches!(&blocks[0], ContentBlock::ToolUse { id, .. } if id == "synthetic_call_0"));
}

#[test]
fn openai_tool_definition_serialization() {
    let json = write_json(&tool_to_openai_definition(&read_tool()));
    assert!(json.contains("\"type\":\"function\""));
    assert!(json.contains("\"name\":\"code.read\""));
    assert!(json.contains("\"parameters\""));
}

#[test]
fn openai_messages_on_the_wire() {
    let backend = OpenAiCompatBackend::new("http://h".into(), "m".into(), None);
    let mut r = request(None, "Hello", 5);
    r.messages = vec![LlmMessage {
        role: LlmRole::Assistant,
        content: vec![
            ContentBlock::ToolUse {
                id: "c".into(),
                name: "f".into(),
                input: parse_json(r#"{"x":1}"#).unwrap(),
            },
            ContentBlock::ToolResult {
                tool_use_id: "c".into(),
                content: "out".into(),
                is_error: false,
            },
        ],
    }];
    let body = backend.build_request_body(&r);
    assert_eq!(body.messages.len(), 2);
    assert_eq!(
        write_json(&chat_to_json(&body.messages[0])),
        r#"{"role":"assistant","tool_calls":[{"function":{"arguments":"{\"x\":1}","name":"f"},"id":"c","type":"function"}]}"#
    );
    assert_eq!(
        write_json(&chat_to_json(&body.messages[1])),
        r#"{"content":"out","role":"tool","tool_call_id":"c"}"#
    );
}

#[test]
fn anthropic_request_disables_streaming_when_tools_present() {
    let backend = AnthropicBackend::new(
        "https://api.anthropic.com".into(),
        "sonnet-4-20250514".into(),
        "test-key".into(),
    );
    let mut request = request(Some("test"), "hello", 256);
    request.stream = true;
    request.tools = vec![read_tool()];
    let body = backend.build_request_body(&request);
    assert!(!body.stream);
}

#[test]
fn openai_request_disables_streaming_when_tools_present() {
    let backend =
        OpenAiCompatBackend::new("https://api.openai.com".into(), "gpt-4o".into(), None);
    let mut request = request(Some("test"), "hello", 256);
    request.stream = true;
    request.tools = vec![read_tool()];
    let body = backend.build_request_body(&request);
    assert!(!body.stream);
}

#[test]
fn openai_stream_in_chunks() {
    let whole = "data: {\"choices\":[{\"delta\":{\"content\":\"Hel\"}}]}\r\n\n: ping\ndata: {\"choices\":[{\"delta\":{\"content\":\"lo\"}}]}\ndata: {\"choices\":[{\"delta\":{},\"finish_reason\":\"length\"}],\"usage\":{\"prompt_tokens\":3,\"completion_tokens\":2}}\ndata: [DONE]\ndata: {\"choices\":[{\"delta\":{\"content\":\"late\"}}]}\n";
    let backend = OpenAiCompatBackend::new("http://h".into(), "m".into(), None);
    let r = request(None, "Hello", 5);
    for cut in [1, 7, 40, whole.len() - 90] {
        let mut s = OpenAiStream::new();
        let mut said = s.feed(&whole.as_bytes()[..cut].to_vec());
        said.extend(s.feed(&whole.as_bytes()[cut..].to_vec()));
        assert_eq!(said, vec!["Hel".to_string(), "lo".to_string()]);
        assert!(s.done);
        let a = backend.conclude_stream(&r, s);
        assert_eq!(a.text(), "Hello");
        assert_eq!((a.tokens_in, a.tokens_out), (3, 2));
        assert_eq!(a.stop_reason, StopReason::MaxTokens);
        assert_eq!(a.latency_ms, 0);
    }
}

#[test]
fn openai_stream_without_usage_is_estimated() {
    let backend = OpenAiCompatBackend::new("http://h".into(), "m".into(), None);
    let r = request(None, "12345678", 5);
    let mut s = OpenAiStream::new();
    s.feed_text("data: {\"choices\":[{\"delta\":{\"content\":\"abcd\"}}]}\n");
    let a = backend.conclude_stream(&r, s);
    assert_eq!((a.tokens_in, a.tokens_out), (2, 1));
    assert_eq!(a.stop_reason, StopReason::EndTurn);
}

#[test]
fn anthropic_stream_in_chunks() {
    let whole = "event: message_start\ndata: {\"message\":{\"model\":\"haiku\",\"usage\":{\"input_tokens\":25}}}\n\nevent: content_block_delta\ndata: {\"delta\":{\"text\":\"Hel\"}}\ndata: {\"delta\":{\"text\":\"unnamed\"}}\nevent: content_block_delta\ndata: {\"delta\":{\"text\":\"lo\"}}\nevent: message_delta\ndata: {\"delta\":{\"stop_reason\":\"max_tokens\"},\"usage\":{\"output_tokens\":7}}\nevent: message_stop\ndata: {}\nevent: content_block_delta\ndata: {\"delta\":{\"text\":\"late\"}}\n";
    let backend = AnthropicBackend::new("http://h".into(), "m".into(), "k".into());
    for cut in [1, 17, 60, 200] {
        let mut s = AnthropicStream::new();
        let mut said = s.feed(&whole.as_bytes()[..cut].to_vec());
        said.extend(s.feed(&whole.as_bytes()[cut..].to_vec()));
        assert_eq!(said, vec!["Hel".to_string(), "lo".to_string()]);
        assert!(s.done);
        let a = backend.conclude_stream(s);
        assert_eq!(a.text(), "Hello");
        assert_eq!(a.model, "haiku");
        assert_eq!((a.tokens_in, a.tokens_out), (25, 7));
        assert_eq!(a.stop_reason, StopReason::MaxTokens);
        assert_eq!(a.cost_micros, Some(estimate_anthropic_cost("haiku", 25, 7)));
    }
    let a = backend.conclude_stream(AnthropicStream::new());
    assert_eq!(a.model, "m");
    assert_eq!(a.text(), "");
}

#[test]
fn malformed_bytes_in_a_stream_are_replaced() {
    let mut s = OpenAiStream::new();
    let mut bytes = b"data: {\"choices\":[{\"delta\":{\"content\":\"a".to_vec();
    bytes.push(0xff);
    bytes.extend_from_slice(b"\"}}]}\n");
    assert_eq!(s.feed(&bytes), vec!["a\u{fffd}".to_string()]);
}

#[test]
fn listed_content_blocks_are_read() {
    let read = |text: &str| read_block(&parse_json(text).unwrap());
    assert!(matches!(read(r#"["text", "hi"]"#), Some(AnthropicContentBlock::Text { text }) if text == "hi"));
    match read(r#"["tool_use", "t1", "code.read", {"a": 1}]"#) {
        Some(AnthropicContentBlock::ToolUse { id, name, input }) => {
            assert_eq!((id.as_str(), name.as_str()), ("t1", "code.read"));
            assert_eq!(input.get_u64("a"), Some(1));
        }
        other => panic!("expected ToolUse, got: {other:?}"),
    }
    // The flag may be missing at the end of the list.
    for (text, wanted) in [
        (r#"["tool_result", "t1", "done"]"#, false),
        (r#"["tool_result", "t1", "done", true]"#, true),
    ] {
        match read(text) {
            Some(AnthropicContentBlock::ToolResult { is_error, .. }) => assert_eq!(is_error, wanted),
            other => panic!("expected ToolResult, got: {other:?}"),
        }
    }
    for refused in [
        "[]",
        "[0, \"hi\"]",
        r#"["text"]"#,
        r#"["text", "hi", "more"]"#,
        r#"["tool_use", "t1", "code.read"]"#,
        r#"["tool_result", "t1", "done", true, 1]"#,
        r#"["image", "x"]"#,
    ] {
        assert!(read(refused).is_none(), "{refused}");
    }
}

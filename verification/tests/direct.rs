use exoskeleton_host::client::{
    extract_response, AttemptReport, LlmClient, RunReport, RunStatus,
};
use exoskeleton_host::direct::{
    build_default_backend, build_frontier_backend, build_local_backend, call_metrics,
    direct_llm_result, resolve_handler_backend, FrontierModelConfig, FrontierProvider,
    HttpBackend, LlmConfig, LocalApiFormat, LocalModelConfig, Reply,
};
use exoskeleton_host::http::TransportFailure;
use exoskeleton_host::json::write_json;
use exoskeleton_host::llm::{
    LlmBackend, LlmMessage, LlmRequest, LlmResponse, LlmRole, StopReason,
};
use exoskeleton_host::mock::{default_mock_response, MockLlmBackend, MockSequenceLlmBackend};
use exoskeleton_host::types::{ArtifactId, ContentBlock, ExoError};

fn config(default_backend: LlmBackend) -> LlmConfig {
    LlmConfig {
        local: None,
        frontier: None,
        default_backend,
        max_output_tokens: 4096,
        timeout_secs: 60,
    }
}

fn local(api_format: LocalApiFormat) -> Option<LocalModelConfig> {
    Some(LocalModelConfig {
        endpoint: "http://localhost:11434".into(),
        model: "llama3.2:latest".into(),
        api_format,
    })
}

fn frontier(provider: FrontierProvider, endpoint: Option<&str>) -> Option<FrontierModelConfig> {
    Some(FrontierModelConfig {
        provider,
        model: "big".into(),
        api_key_env: "MY_KEY".into(),
        endpoint: endpoint.map(|e| e.to_string()),
    })
}

fn test_request() -> LlmRequest {
    LlmRequest {
        backend: None,
        system_prompt: Some("system".into()),
        messages: vec![LlmMessage::text(LlmRole::User, "test")],
        max_output_tokens: 256,
        temperature: Some("0.0".into()),
        stop_sequences: vec![],
        stream: false,
        tools: vec![],
    }
}

fn mock_response() -> LlmResponse {
    LlmResponse {
        content_blocks: vec![ContentBlock::Text { text: "test response".into() }],
        model: "mock-model".into(),
        tokens_in: 100,
        tokens_out: 50,
        latency_ms: 0,
        stop_reason: StopReason::EndTurn,
        cost_micros: Some(500_000),
        backend: LlmBackend::Local,
    }
}

#[test]
fn build_default_backend_rejects_missing_local() {
    let e = build_default_backend(&config(LlmBackend::Local), None).err().unwrap();
    assert_eq!(e, ExoError::Config("default_backend is Local but no local config".into()));
}

#[test]
fn build_default_backend_rejects_missing_frontier() {
    let e = build_default_backend(&config(LlmBackend::Frontier), None).err().unwrap();
    assert_eq!(e, ExoError::Config("default_backend is Frontier but no frontier config".into()));
}

#[test]
fn build_local_backend_openai_compat() {
    let mut c = config(LlmBackend::Local);
    c.local = local(LocalApiFormat::OpenAICompat);
    assert!(build_local_backend(&c).unwrap().is_some());
    assert!(matches!(build_default_backend(&c, None).ok().unwrap(), HttpBackend::OpenAiCompat(_)));
}

#[test]
fn build_local_backend_ollama() {
    let mut c = config(LlmBackend::Local);
    c.local = local(LocalApiFormat::Ollama);
    assert!(build_local_backend(&c).unwrap().is_some());
    assert!(matches!(build_default_backend(&c, None).ok().unwrap(), HttpBackend::Ollama(_)));
}

#[test]
fn build_local_backend_none_when_not_configured() {
    assert!(build_local_backend(&config(LlmBackend::Local)).unwrap().is_none());
}

#[test]
fn frontier_backends_by_provider() {
    for (provider, url) in [
        (FrontierProvider::OpenAI, "https://api.openai.com"),
        (FrontierProvider::Gemini, "https://generativelanguage.googleapis.com/v1beta/openai"),
        (FrontierProvider::Grok, "https://api.x.ai"),
        (FrontierProvider::OpenRouter, "https://openrouter.ai/api"),
        (FrontierProvider::DeepSeek, "https://api.deepseek.com"),
    ] {
        let mut c = config(LlmBackend::Frontier);
        c.frontier = frontier(provider, None);
        match build_frontier_backend(&c, Some("k".into())).unwrap().unwrap() {
            HttpBackend::OpenAiCompat(b) => {
                assert_eq!(b.base_url, url);
                assert_eq!(b.api_key.as_deref(), Some("k"));
            }
            _ => panic!("expected an OpenAI-compatible backend"),
        }
    }
    let mut c = config(LlmBackend::Frontier);
    c.frontier = frontier(FrontierProvider::Anthropic, Some("http://proxy"));
    match build_default_backend(&c, Some("k".into())).ok().unwrap() {
        HttpBackend::Anthropic(b) => assert_eq!(b.base_url, "http://proxy"),
        _ => panic!("expected Anthropic"),
    }
    let e = build_frontier_backend(&c, None).err().unwrap();
    assert_eq!(
        e,
        ExoError::Config("API key env var 'MY_KEY' not set (required for frontier backend)".into())
    );
}

#[test]
fn direct_llm_call_resolves_local_backend() {
    assert_eq!(
        resolve_handler_backend(None, LlmBackend::Local, true, false).unwrap(),
        LlmBackend::Local
    );
    assert_eq!(
        resolve_handler_backend(Some(LlmBackend::Frontier), LlmBackend::Local, true, true).unwrap(),
        LlmBackend::Frontier
    );
}

#[test]
fn direct_llm_call_escalates_to_frontier() {
    let chosen = resolve_handler_backend(None, LlmBackend::Local, false, true).unwrap();
    assert_eq!(chosen, LlmBackend::Frontier);
    let mut mock = MockLlmBackend::new(mock_response());
    let result = mock.call(&test_request()).unwrap();
    assert_eq!(mock.call_count(), 1);
    assert_eq!(result.text(), "test response");
}

#[test]
fn direct_llm_call_no_backend_errors() {
    let err = resolve_handler_backend(None, LlmBackend::Local, false, false).unwrap_err();
    assert!(
        matches!(err, ExoError::LlmInvocation(_)),
        "expected LlmInvocation error, got: {err:?}"
    );
    assert_eq!(err, ExoError::LlmInvocation("no LLM backend configured".into()));
}

#[test]
fn direct_llm_call_records_budget() {
    let result = direct_llm_result(mock_response(), 12, ArtifactId { digest: "a".into() });
    assert_eq!(result.llm_call_record.tokens_in, 100);
    assert_eq!(result.llm_call_record.tokens_out, 50);
    assert_eq!(result.llm_call_record.cost_micros, 500_000);
    let m = call_metrics(LlmBackend::Frontier, &result.response, 12);
    assert_eq!(m.backend, "frontier");
    assert_eq!((m.input_tokens, m.output_tokens, m.latency_ms), (100, 50, 12));
    assert_eq!(call_metrics(LlmBackend::Local, &default_mock_response(), 0).cost_micros, 0);
}

#[test]
fn direct_llm_call_stores_artifact() {
    let result = direct_llm_result(mock_response(), 12, ArtifactId { digest: "a".into() });
    assert_eq!(result.llm_call_record.response_artifact_ref, Some(result.artifact_id));
}

#[test]
fn direct_llm_call_measures_latency() {
    let result = direct_llm_result(mock_response(), 12, ArtifactId { digest: "a".into() });
    assert!(
        result.llm_call_record.latency_ms < 1000,
        "latency should be reasonable: {}ms",
        result.llm_call_record.latency_ms
    );
    assert_eq!(result.response.latency_ms, result.llm_call_record.latency_ms);
    assert_eq!(result.response.latency_ms, 12);
}

#[test]
fn calls_are_prepared_and_received() {
    let mut c = config(LlmBackend::Frontier);
    c.frontier = frontier(FrontierProvider::OpenAI, None);
    let backend = build_default_backend(&c, Some("k".into())).ok().unwrap();
    let out = backend.prepare(&test_request(), false).unwrap();
    assert_eq!(out.url, "https://api.openai.com/v1/chat/completions");
    assert_eq!(out.headers, vec![("authorization".to_string(), "Bearer k".to_string())]);
    assert!(write_json(&out.body).contains("\"model\":\"big\""));
    assert_eq!(
        backend.prepare(&test_request(), true).unwrap_err(),
        ExoError::LlmInvocation("cancelled before HTTP call".into())
    );
    let lost = Reply::Lost { failure: TransportFailure::Timeout, error: "slow".into() };
    assert_eq!(
        backend.receive(&test_request(), &lost, 1).unwrap_err(),
        ExoError::LlmInvocation("timeout: slow".into())
    );
    for status in [199, 300, 429, 500] {
        let reply = Reply::Arrived { status, body: "no".into() };
        assert_eq!(
            backend.receive(&test_request(), &reply, 1).unwrap_err(),
            ExoError::LlmInvocation(format!("{status}: no"))
        );
    }
    let unreadable = |status| Reply::Unreadable { status, error: "cut off".into() };
    assert_eq!(
        backend.receive(&test_request(), &unreadable(200), 1).unwrap_err(),
        ExoError::LlmInvocation("malformed response body: cut off".into())
    );
    assert_eq!(
        backend.receive(&test_request(), &unreadable(503), 1).unwrap_err(),
        ExoError::LlmInvocation("503: ".into())
    );
    c.frontier = frontier(FrontierProvider::Anthropic, None);
    assert_eq!(
        build_default_backend(&c, Some("k".into()))
            .ok()
            .unwrap()
            .receive(&test_request(), &unreadable(200), 1)
            .unwrap_err(),
        ExoError::LlmInvocation("failed to read response body: cut off".into())
    );
    let reply = Reply::Arrived {
        status: 200,
        body: r#"{"choices":[{"message":{"role":"assistant","content":"hi"}}]}"#.into(),
    };
    assert_eq!(backend.receive(&test_request(), &reply, 1).unwrap().text(), "hi");
}

#[test]
fn streams_are_opened_taken_and_concluded() {
    let mut c = config(LlmBackend::Frontier);
    c.frontier = frontier(FrontierProvider::Anthropic, None);
    let backend = build_default_backend(&c, Some("k".into())).ok().unwrap();
    let mut request = test_request();
    assert!(backend.open_stream(&request).is_none());
    request.stream = true;
    let mut stream = backend.open_stream(&request).unwrap();
    let said = stream
        .take(false, Ok(b"event: content_block_delta\ndata: {\"delta\":{\"text\":\"hi\"}}\n".to_vec()))
        .unwrap();
    assert_eq!(said, vec!["hi".to_string()]);
    assert_eq!(
        stream.take(true, Ok(vec![])).unwrap_err(),
        ExoError::LlmInvocation("cancelled during streaming".into())
    );
    assert_eq!(
        stream.take(false, Err("broken".into())).unwrap_err(),
        ExoError::LlmInvocation("stream read error: broken".into())
    );
    assert!(!stream.is_done());
    stream.take(false, Ok(b"event: message_stop\ndata: {}\n".to_vec())).unwrap();
    assert!(stream.is_done());
    assert_eq!(backend.conclude(&request, stream).unwrap().text(), "hi");
}

#[test]
fn local_servers_get_no_key() {
    let mut c = config(LlmBackend::Local);
    c.local = local(LocalApiFormat::OpenAICompat);
    assert!(build_default_backend(&c, None).ok().unwrap().headers().is_empty());
}

#[test]
fn mock_backend_returns_canned_response() {
    let response = LlmResponse {
        content_blocks: vec![ContentBlock::Text { text: "Custom response".into() }],
        model: "test-model".into(),
        tokens_in: 20,
        tokens_out: 10,
        latency_ms: 50,
        stop_reason: StopReason::EndTurn,
        cost_micros: None,
        backend: LlmBackend::Local,
    };
    let mut mock = MockLlmBackend::new(response);
    let result = mock.call(&test_request()).unwrap();
    assert_eq!(result.text(), "Custom response");
    assert_eq!(result.model, "test-model");
}

#[test]
fn mock_backend_tracks_call_count() {
    let mut mock = MockLlmBackend::new(default_mock_response());
    assert_eq!(mock.call_count(), 0);
    mock.call(&test_request()).unwrap();
    assert_eq!(mock.call_count(), 1);
    mock.call(&test_request()).unwrap();
    assert_eq!(mock.call_count(), 2);
}

#[test]
fn mock_backend_can_fail() {
    let mut mock = MockLlmBackend::failing("test error 429");
    let result = mock.call(&test_request());
    assert!(result.is_err());
    let err = result.unwrap_err();
    assert!(err.message().contains("test error 429"));
    assert_eq!(mock.call_count(), 1);
}

#[test]
fn prepared_responses_come_round() {
    let response = |text: &str| LlmResponse {
        content_blocks: vec![ContentBlock::Text { text: text.into() }],
        ..default_mock_response()
    };
    let mut mock = MockSequenceLlmBackend::new(vec![response("a"), response("b")]);
    let said: Vec<String> = (0..5).map(|_| mock.call(&test_request()).unwrap().text()).collect();
    assert_eq!(said, vec!["a", "b", "a", "b", "a"]);
    assert_eq!(mock.call_count(), 5);
    assert_eq!(default_mock_response().text(), "Mock LLM response.");
}

fn completed(output: Option<&str>) -> RunReport {
    RunReport {
        status: RunStatus::Completed,
        attempts: Some(vec![AttemptReport {
            error: None,
            output: output.map(|o| o.as_bytes().to_vec()),
        }]),
    }
}

fn failed(error: Option<&str>) -> RunReport {
    RunReport {
        status: RunStatus::Failed,
        attempts: Some(vec![AttemptReport {
            error: error.map(|e| e.to_string()),
            output: None,
        }]),
    }
}

#[test]
fn outputs_of_tasks() {
    let engine = |m: &str| ExoError::Engine(m.into());
    let llm = |m: &str| ExoError::LlmInvocation(m.into());
    assert_eq!(extract_response(None).unwrap_err(), engine("cognitive engine not available"));
    assert_eq!(extract_response(Some(vec![])).unwrap_err(), engine("no runs found for task"));
    let out = extract_response(Some(vec![failed(None), completed(Some("{}"))]));
    assert_eq!(out.unwrap(), b"{}".to_vec());
    assert_eq!(
        extract_response(Some(vec![completed(None)])).unwrap_err(),
        engine("task completed but no output")
    );
    let none = RunReport { status: RunStatus::Completed, attempts: None };
    assert_eq!(extract_response(Some(vec![none])).unwrap_err(), engine("no attempt history for run"));
    let empty = RunReport { status: RunStatus::Completed, attempts: Some(vec![]) };
    assert_eq!(extract_response(Some(vec![empty])).unwrap_err(), engine("no attempts in history"));
    assert_eq!(extract_response(Some(vec![failed(Some("429"))])).unwrap_err(), llm("429"));
    assert_eq!(
        extract_response(Some(vec![completed(Some("x")), failed(None)])).unwrap_err(),
        llm("LLM task failed (check handler logs)")
    );
    let other = RunReport { status: RunStatus::Other("Running".into()), attempts: None };
    assert_eq!(
        extract_response(Some(vec![other])).unwrap_err(),
        engine("unexpected run state: Running")
    );
}

#[test]
fn clients_know_their_settings() {
    let c = LlmClient::new(&config(LlmBackend::Frontier));
    assert_eq!(c.default_backend(), LlmBackend::Frontier);
    assert_eq!(c.max_output_tokens(), 4096);
    let mut asked = test_request();
    asked.backend = Some(LlmBackend::Local);
    let sent = c.for_default(asked);
    assert_eq!(sent.backend, Some(LlmBackend::Frontier));
    assert_eq!(sent.max_output_tokens, test_request().max_output_tokens);
}

//! The backend for the native API of Ollama.
//!
//! The HTTP calls are made outside. Here the request is built and the response is
//! read. Messages and tools have the form of the OpenAI API.

use vstd::prelude::*;
use vstd::string::*;

use crate::chat::{
    all_chats, chat_blocks, chat_messages, chat_of, chat_views, chats_json, chats_to_json,
    opt_member, parse_openai_response_blocks, push_opt, read_chat, system_chat, tools_json,
    tools_to_json, ChatView, OpenAiMessage,
};
use crate::decode::{
    field_at, has_record_form, is_record, maybe_number_of, opt_texts, read_maybe_number, read_text,
    record_field, text_of,
};
use crate::http::{
    blocks_len, content_len, debug_quote, endpoint, endpoint_url, llm_error, quoted, request_len,
    request_text_len,
};
use crate::json::{member, member_views, opt_json, parse_json, parsed, Json, JsonView};
use crate::llm::{block_views, message_views, LlmBackend, LlmRequest, LlmResponse, StopReason};
use crate::openai::{
    clone_if_any, estimated_tokens, list_if_any, opt_array, opt_array_json, opt_number,
    opt_number_json,
};
use crate::text::{clone_opt, opt_text, texts};
use crate::tool_defs::definition_views;
use crate::types::ExoError;

verus! {

/// A backend that speaks the native API of Ollama.
pub struct OllamaNativeBackend {
    pub base_url: String,
    pub model: String,
}

/// The options of a request.
#[derive(Debug)]
pub struct OllamaOptions {
    pub temperature: Option<String>,
    pub stop: Option<Vec<String>>,
}

/// The body of a request. It is never streamed.
#[derive(Debug)]
pub struct OllamaRequest {
    pub model: String,
    pub messages: Vec<OpenAiMessage>,
    pub stream: bool,
    pub options: Option<OllamaOptions>,
    pub tools: Option<Json>,
}

/// A response.
#[derive(Debug)]
pub struct OllamaResponse {
    pub message: OpenAiMessage,
    pub model: String,
    pub eval_count: Option<u64>,
    pub prompt_eval_count: Option<u64>,
}

// ---------------------------------------------------------------------------
// The request
// ---------------------------------------------------------------------------

/// The options of a request: absent if neither a temperature nor a stop sequence is set.
pub open spec fn are_options(o: Option<OllamaOptions>, request: LlmRequest) -> bool {
    match o {
        None => request.temperature is None && request.stop_sequences@.len() == 0,
        Some(o) => (request.temperature is Some || request.stop_sequences@.len() > 0)
            && o.temperature == request.temperature && opt_texts(o.stop) == list_if_any(
            texts(request.stop_sequences@),
        ),
    }
}

/// `b` is the body of a request to a model.
pub open spec fn is_body(b: OllamaRequest, model: Seq<char>, request: LlmRequest) -> bool {
    &&& b.model@ == model
    &&& chat_views(b.messages@) == system_chat(opt_text(request.system_prompt)) + all_chats(
        message_views(request.messages@),
    )
    &&& !b.stream
    &&& are_options(b.options, request)
    &&& opt_json(b.tools) == tools_json(definition_views(request.tools@))
}

/// The options of a request as JSON, if there are any.
pub open spec fn options_json(o: Option<OllamaOptions>) -> Option<JsonView> {
    match o {
        Some(o) => Some(
            JsonView::Object(
                opt_member("temperature"@, opt_number(opt_text(o.temperature))) + opt_member(
                    "stop"@,
                    opt_array(opt_texts(o.stop)),
                ),
            ),
        ),
        None => None,
    }
}

/// The body of a request as JSON. What is absent is left out; the flag for streaming
/// never is.
pub open spec fn body_json(b: OllamaRequest) -> JsonView {
    JsonView::Object(
        seq![
            ("model"@, JsonView::Str(b.model@)),
            ("messages"@, chats_json(chat_views(b.messages@))),
            ("stream"@, JsonView::Bool(b.stream)),
        ] + opt_member("options"@, options_json(b.options)) + opt_member(
            "tools"@,
            opt_json(b.tools),
        ),
    )
}

fn options_to_json(o: &Option<OllamaOptions>) -> (r: Option<Json>)
    ensures
        opt_json(r) == options_json(*o),
{
    match o {
        Some(o) => {
            let mut members: Vec<(String, Json)> = Vec::new();
            push_opt(&mut members, "temperature", opt_number_json(&o.temperature));
            push_opt(&mut members, "stop", opt_array_json(&o.stop));
            assert(member_views(members@) =~= options_json(Some(*o))->Some_0->Object_0);
            Some(Json::object(members))
        },
        None => None,
    }
}

impl OllamaRequest {
    /// Writes the body as JSON.
    pub fn to_json(&self) -> (j: Json)
        ensures
            j@ == body_json(*self),
    {
        let mut members = vec![
            member("model", Json::str(self.model.as_str())),
            member("messages", chats_to_json(&self.messages)),
            member("stream", Json::Bool(self.stream)),
        ];
        assert(member_views(members@) =~= seq![
            ("model"@, JsonView::Str(self.model@)),
            ("messages"@, chats_json(chat_views(self.messages@))),
            ("stream"@, JsonView::Bool(self.stream)),
        ]);
        push_opt(&mut members, "options", options_to_json(&self.options));
        let tools = match &self.tools {
            Some(t) => Some(t.clone()),
            None => None,
        };
        push_opt(&mut members, "tools", tools);
        Json::object(members)
    }
}

// ---------------------------------------------------------------------------
// Reading a response
// ---------------------------------------------------------------------------

/// The model of a response.
pub struct OllamaView {
    pub message: ChatView,
    pub model: Seq<char>,
    pub eval_count: Option<u64>,
    pub prompt_eval_count: Option<u64>,
}

impl View for OllamaResponse {
    type V = OllamaView;

    open spec fn view(&self) -> OllamaView {
        OllamaView {
            message: self.message@,
            model: self.model@,
            eval_count: self.eval_count,
            prompt_eval_count: self.prompt_eval_count,
        }
    }
}

/// The response that a value describes.
pub open spec fn response_of(j: JsonView) -> Option<OllamaView> {
    let model = text_of(field_at(j, "model"@, 1));
    let out = maybe_number_of(field_at(j, "eval_count"@, 2));
    let prompt = maybe_number_of(field_at(j, "prompt_eval_count"@, 3));
    match field_at(j, "message"@, 0) {
        Some(m) => if is_record(j, 4) && chat_of(m) is Some && model is Some && out is Some
            && prompt is Some {
            Some(
                OllamaView {
                    message: chat_of(m)->Some_0,
                    model: model->Some_0,
                    eval_count: out->Some_0,
                    prompt_eval_count: prompt->Some_0,
                },
            )
        } else {
            None
        },
        None => None,
    }
}

/// The model of a response that was read.
pub open spec fn opt_response(r: Option<OllamaResponse>) -> Option<OllamaView> {
    match r {
        Some(r) => Some(r@),
        None => None,
    }
}

/// Reads a response.
pub fn read_response(j: &Json) -> (r: Option<OllamaResponse>)
    ensures
        opt_response(r) == response_of(j@),
{
    let m = match record_field(j, "message", 0) {
        Some(m) => m,
        None => {
            return None;
        },
    };
    if !has_record_form(j, 4) {
        return None;
    }
    match (
        read_chat(m),
        read_text(record_field(j, "model", 1)),
        read_maybe_number(record_field(j, "eval_count", 2)),
        read_maybe_number(record_field(j, "prompt_eval_count", 3)),
    ) {
        (Some(message), Some(model), Some(eval_count), Some(prompt_eval_count)) => Some(
            OllamaResponse { message, model, eval_count, prompt_eval_count },
        ),
        _ => None,
    }
}

// ---------------------------------------------------------------------------
// From a response to the answer of the backend
// ---------------------------------------------------------------------------

/// A count as reported, or else as estimated from a length.
pub open spec fn tokens_or(reported: Option<u64>, bytes: nat) -> u64 {
    match reported {
        Some(n) => n,
        None => estimated_tokens(bytes),
    }
}

/// The result of a call, given the response.
pub open spec fn answers_with(
    r: Result<LlmResponse, ExoError>,
    request: LlmRequest,
    response: OllamaView,
    latency_ms: u64,
) -> bool {
    match (chat_blocks(response.message), r) {
        (Err(e), Err(ExoError::LlmInvocation(m))) => m@ == e,
        (Ok(blocks), Ok(a)) => {
            &&& block_views(a.content_blocks@) == blocks
            &&& a.model@ == response.model
            &&& a.tokens_in == tokens_or(response.prompt_eval_count, request_len(request))
            &&& a.tokens_out == tokens_or(response.eval_count, blocks_len(blocks))
            &&& a.latency_ms == latency_ms
            &&& a.stop_reason == if response.message.tool_calls is Some {
                StopReason::ToolUse
            } else {
                StopReason::EndTurn
            }
            &&& a.cost_micros is None
            &&& a.backend == LlmBackend::Local
        },
        _ => false,
    }
}

/// The result of a call, given the text of the response.
pub open spec fn answers_text(
    r: Result<LlmResponse, ExoError>,
    request: LlmRequest,
    body: Seq<char>,
    latency_ms: u64,
) -> bool {
    match parsed(body) {
        Err(e) => r matches Err(ExoError::LlmInvocation(m)) && m@ == "malformed response body: "@
            + e,
        Ok(j) => match response_of(j) {
            None => r matches Err(ExoError::LlmInvocation(m)) && m@
                == "malformed response body: not a chat response"@,
            Some(response) => answers_with(r, request, response, latency_ms),
        },
    }
}

impl OllamaNativeBackend {
    /// A backend at a base URL.
    pub fn new(base_url: String, model: String) -> (b: OllamaNativeBackend)
        ensures
            b == (OllamaNativeBackend { base_url, model }),
    {
        OllamaNativeBackend { base_url, model }
    }

    /// The text of the backend for logs.
    pub fn debug_text(&self) -> (r: String)
        ensures
            r@ == "OllamaNativeBackend { base_url: "@ + quoted(self.base_url@) + ", model: "@
                + quoted(self.model@) + " }"@,
    {
        let mut r = "OllamaNativeBackend { base_url: ".to_owned();
        r.append(debug_quote(self.base_url.as_str()).as_str());
        r.append(", model: ");
        r.append(debug_quote(self.model.as_str()).as_str());
        r.append(" }");
        r
    }

    /// The endpoint of the backend.
    pub fn url(&self) -> (r: String)
        ensures
            r@ == endpoint(self.base_url@, "/api/chat"@),
    {
        endpoint_url(self.base_url.as_str(), "/api/chat")
    }

    /// Builds the body of a request.
    pub fn build_request_body(&self, request: &LlmRequest) -> (b: OllamaRequest)
        ensures
            is_body(b, self.model@, *request),
    {
        let options = if request.temperature.is_some() || request.stop_sequences.len() > 0 {
            Some(
                OllamaOptions {
                    temperature: clone_opt(&request.temperature),
                    stop: clone_if_any(&request.stop_sequences),
                },
            )
        } else {
            None
        };
        OllamaRequest {
            model: self.model.clone(),
            messages: chat_messages(&request.system_prompt, &request.messages),
            stream: false,
            options,
            tools: tools_to_json(&request.tools),
        }
    }

    /// Turns a response that was read into the answer of the backend.
    pub fn answer(&self, request: &LlmRequest, response: OllamaResponse, latency_ms: u64) -> (r:
        Result<LlmResponse, ExoError>)
        ensures
            answers_with(r, *request, response@, latency_ms),
    {
        let called = response.message.tool_calls.is_some();
        let blocks = match parse_openai_response_blocks(response.message) {
            Ok(b) => b,
            Err(e) => {
                return Err(e);
            },
        };
        let tokens_in: u64 = match response.prompt_eval_count {
            Some(n) => n,
            None => {
                let bytes: usize = request_text_len(request);
                (bytes / 4) as u64
            },
        };
        let tokens_out: u64 = match response.eval_count {
            Some(n) => n,
            None => {
                let bytes: usize = content_len(&blocks);
                (bytes / 4) as u64
            },
        };
        Ok(
            LlmResponse {
                content_blocks: blocks,
                model: response.model,
                tokens_in,
                tokens_out,
                latency_ms,
                stop_reason: if called {
                    StopReason::ToolUse
                } else {
                    StopReason::EndTurn
                },
                cost_micros: None,
                backend: LlmBackend::Local,
            },
        )
    }

    /// Turns the text of a response into the answer of the backend.
    pub fn answer_text(&self, request: &LlmRequest, body: &str, latency_ms: u64) -> (r: Result<
        LlmResponse,
        ExoError,
    >)
        ensures
            answers_text(r, *request, body@, latency_ms),
    {
        let j = match parse_json(body) {
            Ok(j) => j,
            Err(e) => {
                let mut m = "malformed response body: ".to_owned();
                m.append(e.as_str());
                return Err(ExoError::LlmInvocation(m));
            },
        };
        match read_response(&j) {
            Some(response) => self.answer(request, response, latency_ms),
            None => Err(llm_error("malformed response body: not a chat response")),
        }
    }
}

/// Local models have no cost: an answer never carries one.
pub proof fn local_calls_are_free(
    a: LlmResponse,
    request: LlmRequest,
    response: OllamaView,
    latency_ms: u64,
)
    requires
        answers_with(Ok(a), request, response, latency_ms),
    ensures
        a.cost_micros is None,
        a.backend == LlmBackend::Local,
{
}

} // verus!

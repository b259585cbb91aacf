//! The backend for servers that speak the OpenAI chat completions API.
//!
//! The HTTP calls are made outside. Here the request is built, the response is read,
//! and a stream is put together.

use vstd::prelude::*;
use vstd::string::*;

use crate::chat::{
    all_chats, chat_blocks, chat_messages, chat_of, chat_views, chats_json, chats_to_json,
    opt_member, parse_openai_response_blocks, push_opt, read_chat, system_chat, tools_json,
    tools_to_json, ChatView, OpenAiMessage,
};
use crate::decode::{
    drop_null, field_at, has_full_form, is_full_record, maybe_text_of, not_null, number_of,
    read_maybe_text, read_number, record_field,
};
use crate::http::{
    at_most_max, blocks_len, content_len, cost_at, debug_quote, effective_stream, endpoint,
    endpoint_url, estimate_openai_cost, llm_error, openai_prices, quoted, request_len,
    request_text_len, streams,
};
use crate::json::{
    member, member_views, parse_json, parsed, ref_json, string_array, views, Json, JsonView,
};
use crate::llm::{
    block_views, message_views, BlockView, LlmBackend, LlmRequest, LlmResponse, StopReason,
};
use crate::text::{clone_opt, clone_strings, opt_text, str_eq, texts};
use crate::tool_defs::definition_views;
use crate::types::ExoError;

verus! {

/// A backend that speaks the OpenAI chat completions API.
pub struct OpenAiCompatBackend {
    pub base_url: String,
    pub model: String,
    pub api_key: Option<String>,
}

/// The body of a request.
#[derive(Debug)]
pub struct OpenAiRequest {
    pub model: String,
    pub messages: Vec<OpenAiMessage>,
    pub max_completion_tokens: u64,
    pub temperature: Option<String>,
    pub stop: Option<Vec<String>>,
    pub stream: bool,
    /// The tool definitions as JSON, if there are any.
    pub tools: Option<Json>,
}

/// How many tokens a call used.
#[derive(Debug, Clone, Copy, PartialEq, Eq, Structural)]
pub struct OpenAiUsage {
    pub prompt_tokens: u64,
    pub completion_tokens: u64,
}

/// One of the answers in a response.
#[derive(Debug)]
pub struct OpenAiChoice {
    pub message: OpenAiMessage,
    pub finish_reason: Option<String>,
}

/// A response.
#[derive(Debug)]
pub struct OpenAiResponse {
    pub choices: Vec<OpenAiChoice>,
    pub usage: Option<OpenAiUsage>,
    pub model: Option<String>,
}

// ---------------------------------------------------------------------------
// The request
// ---------------------------------------------------------------------------

/// The list, if it is not empty.
pub open spec fn list_if_any(list: Seq<Seq<char>>) -> Option<Seq<Seq<char>>> {
    if list.len() == 0 {
        None
    } else {
        Some(list)
    }
}

/// Copies the list, if it is not empty.
pub fn clone_if_any(list: &Vec<String>) -> (r: Option<Vec<String>>)
    ensures
        crate::decode::opt_texts(r) == list_if_any(texts(list@)),
{
    assert(texts(list@).len() == list@.len());
    if list.len() == 0 {
        None
    } else {
        Some(clone_strings(list))
    }
}

/// `b` is the body of a request to a model.
pub open spec fn is_body(b: OpenAiRequest, model: Seq<char>, request: LlmRequest) -> bool {
    &&& b.model@ == model
    &&& chat_views(b.messages@) == system_chat(opt_text(request.system_prompt)) + all_chats(
        message_views(request.messages@),
    )
    &&& b.max_completion_tokens == request.max_output_tokens
    &&& b.temperature == request.temperature
    &&& crate::decode::opt_texts(b.stop) == list_if_any(texts(request.stop_sequences@))
    &&& b.stream == streams(request)
    &&& crate::json::opt_json(b.tools) == tools_json(definition_views(request.tools@))
}

/// The number with this text, if there is one.
pub open spec fn opt_number(t: Option<Seq<char>>) -> Option<JsonView> {
    match t {
        Some(s) => Some(JsonView::Float(s)),
        None => None,
    }
}

/// The array of the texts, if there are any.
pub open spec fn opt_array(list: Option<Seq<Seq<char>>>) -> Option<JsonView> {
    match list {
        Some(l) => Some(string_array(l)),
        None => None,
    }
}

/// The body of a request as JSON. What is absent is left out, and so is the flag for
/// streaming unless it is set.
pub open spec fn body_json(b: OpenAiRequest) -> JsonView {
    JsonView::Object(
        seq![
            ("model"@, JsonView::Str(b.model@)),
            ("messages"@, chats_json(chat_views(b.messages@))),
            ("max_completion_tokens"@, JsonView::UInt(b.max_completion_tokens)),
        ] + opt_member("temperature"@, opt_number(opt_text(b.temperature))) + opt_member(
            "stop"@,
            opt_array(crate::decode::opt_texts(b.stop)),
        ) + opt_member(
            "stream"@,
            if b.stream {
                Some(JsonView::Bool(true))
            } else {
                None
            },
        ) + opt_member("tools"@, crate::json::opt_json(b.tools)),
    )
}

/// The number for an optional text.
pub fn opt_number_json(t: &Option<String>) -> (r: Option<Json>)
    ensures
        crate::json::opt_json(r) == opt_number(opt_text(*t)),
{
    match t {
        Some(s) => Some(Json::Float(s.clone())),
        None => None,
    }
}

/// The array for an optional list of texts.
pub fn opt_array_json(list: &Option<Vec<String>>) -> (r: Option<Json>)
    ensures
        crate::json::opt_json(r) == opt_array(crate::decode::opt_texts(*list)),
{
    match list {
        Some(l) => Some(Json::strings(l)),
        None => None,
    }
}

/// The member for a flag that is left out unless it is set.
pub fn flag_json(flag: bool) -> (r: Option<Json>)
    ensures
        crate::json::opt_json(r) == (if flag {
            Some(JsonView::Bool(true))
        } else {
            None
        }),
{
    if crate::http::is_false(&flag) {
        None
    } else {
        Some(Json::Bool(true))
    }
}

impl OpenAiRequest {
    /// Writes the body as JSON.
    pub fn to_json(&self) -> (j: Json)
        ensures
            j@ == body_json(*self),
    {
        let mut members = vec![
            member("model", Json::str(self.model.as_str())),
            member("messages", chats_to_json(&self.messages)),
            member("max_completion_tokens", Json::UInt(self.max_completion_tokens)),
        ];
        assert(member_views(members@) =~= seq![
            ("model"@, JsonView::Str(self.model@)),
            ("messages"@, chats_json(chat_views(self.messages@))),
            ("max_completion_tokens"@, JsonView::UInt(self.max_completion_tokens)),
        ]);
        push_opt(&mut members, "temperature", opt_number_json(&self.temperature));
        push_opt(&mut members, "stop", opt_array_json(&self.stop));
        push_opt(&mut members, "stream", flag_json(self.stream));
        let tools = match &self.tools {
            Some(t) => Some(t.clone()),
            None => None,
        };
        push_opt(&mut members, "tools", tools);
        Json::object(members)
    }
}

// ---------------------------------------------------------------------------
// Reading a response
// ---------------------------------------------------------------------------

/// The usage that a value describes.
pub open spec fn usage_of(j: JsonView) -> Option<OpenAiUsage> {
    let prompt = number_of(field_at(j, "prompt_tokens"@, 0));
    let completion = number_of(field_at(j, "completion_tokens"@, 1));
    if is_full_record(j, 2) && prompt is Some && completion is Some {
        Some(
            OpenAiUsage {
                prompt_tokens: prompt->Some_0,
                completion_tokens: completion->Some_0,
            },
        )
    } else {
        None
    }
}

/// An optional usage, absent if the value is missing or null. Nothing if the value
/// describes none.
pub open spec fn maybe_usage_of(v: Option<JsonView>) -> Option<Option<OpenAiUsage>> {
    match not_null(v) {
        None => Some(None),
        Some(j) => match usage_of(j) {
            Some(u) => Some(Some(u)),
            None => None,
        },
    }
}

/// The model of an answer.
pub struct ChoiceView {
    pub message: ChatView,
    pub finish_reason: Option<Seq<char>>,
}

impl View for OpenAiChoice {
    type V = ChoiceView;

    open spec fn view(&self) -> ChoiceView {
        ChoiceView { message: self.message@, finish_reason: opt_text(self.finish_reason) }
    }
}

/// The answer that a value describes.
pub open spec fn choice_of(j: JsonView) -> Option<ChoiceView> {
    let reason = maybe_text_of(field_at(j, "finish_reason"@, 1));
    match field_at(j, "message"@, 0) {
        Some(m) => if is_full_record(j, 2) && chat_of(m) is Some && reason is Some {
            Some(ChoiceView { message: chat_of(m)->Some_0, finish_reason: reason->Some_0 })
        } else {
            None
        },
        None => None,
    }
}

/// Every item describes an answer.
pub open spec fn all_choices(items: Seq<JsonView>) -> bool {
    forall|i: int| 0 <= i < items.len() ==> choice_of(#[trigger] items[i]) is Some
}

/// The model of a response.
pub struct ResponseView {
    pub choices: Seq<ChoiceView>,
    pub usage: Option<OpenAiUsage>,
    pub model: Option<Seq<char>>,
}

impl View for OpenAiResponse {
    type V = ResponseView;

    open spec fn view(&self) -> ResponseView {
        ResponseView {
            choices: Seq::new(self.choices@.len(), |i: int| self.choices@[i]@),
            usage: self.usage,
            model: opt_text(self.model),
        }
    }
}

/// The response that a value describes.
pub open spec fn response_of(j: JsonView) -> Option<ResponseView> {
    let usage = maybe_usage_of(field_at(j, "usage"@, 1));
    let model = maybe_text_of(field_at(j, "model"@, 2));
    match field_at(j, "choices"@, 0) {
        Some(JsonView::Array(items)) => if is_full_record(j, 3) && all_choices(items) && usage is Some
            && model is Some {
            Some(
                ResponseView {
                    choices: Seq::new(items.len(), |i: int| choice_of(items[i])->Some_0),
                    usage: usage->Some_0,
                    model: model->Some_0,
                },
            )
        } else {
            None
        },
        _ => None,
    }
}

/// Reads an optional usage.
pub fn read_usage(v: Option<&Json>) -> (r: Option<Option<OpenAiUsage>>)
    ensures
        r == maybe_usage_of(ref_json(v)),
{
    let j = match drop_null(v) {
        None => {
            return Some(None);
        },
        Some(j) => j,
    };
    if !has_full_form(j, 2) {
        return None;
    }
    match (
        read_number(record_field(j, "prompt_tokens", 0)),
        read_number(record_field(j, "completion_tokens", 1)),
    ) {
        (Some(prompt_tokens), Some(completion_tokens)) => Some(
            Some(OpenAiUsage { prompt_tokens, completion_tokens }),
        ),
        _ => None,
    }
}

/// The model of an answer that was read.
pub open spec fn opt_choice(c: Option<OpenAiChoice>) -> Option<ChoiceView> {
    match c {
        Some(c) => Some(c@),
        None => None,
    }
}

fn read_choice(j: &Json) -> (r: Option<OpenAiChoice>)
    ensures
        opt_choice(r) == choice_of(j@),
{
    let m = match record_field(j, "message", 0) {
        Some(m) => m,
        None => {
            return None;
        },
    };
    if !has_full_form(j, 2) {
        return None;
    }
    match (read_chat(m), read_maybe_text(record_field(j, "finish_reason", 1))) {
        (Some(message), Some(finish_reason)) => Some(OpenAiChoice { message, finish_reason }),
        _ => None,
    }
}

/// The model of a response that was read.
pub open spec fn opt_response(r: Option<OpenAiResponse>) -> Option<ResponseView> {
    match r {
        Some(r) => Some(r@),
        None => None,
    }
}

/// Reads a response.
pub fn read_response(j: &Json) -> (r: Option<OpenAiResponse>)
    ensures
        opt_response(r) == response_of(j@),
{
    let items = match record_field(j, "choices", 0) {
        Some(list) => match list.as_array() {
            Some(items) => items,
            None => {
                return None;
            },
        },
        None => {
            return None;
        },
    };
    if !has_full_form(j, 3) {
        return None;
    }
    let ghost all = views(items@);
    let mut choices: Vec<OpenAiChoice> = Vec::new();
    let mut i: usize = 0;
    while i < items.len()
        invariant
            all == views(items@),
            field_at(j@, "choices"@, 0) == Some(JsonView::Array(all)),
            i <= items@.len(),
            choices@.len() == i,
            forall|k: int| 0 <= k < i ==> choice_of(#[trigger] all[k]) is Some,
            forall|k: int| 0 <= k < i ==> Some((#[trigger] choices@[k])@) == choice_of(all[k]),
        decreases items@.len() - i,
    {
        assert(all[i as int] == items@[i as int]@);
        match read_choice(&items[i]) {
            Some(c) => {
                choices.push(c);
            },
            None => {
                assert(i < all.len() && choice_of(all[i as int]) is None);
                return None;
            },
        }
        i = i + 1;
    }
    match (
        read_usage(record_field(j, "usage", 1)),
        read_maybe_text(record_field(j, "model", 2)),
    ) {
        (Some(usage), Some(model)) => {
            let r = OpenAiResponse { choices, usage, model };
            assert(r@.choices =~= Seq::new(all.len(), |k: int| choice_of(all[k])->Some_0));
            Some(r)
        },
        _ => None,
    }
}

// ---------------------------------------------------------------------------
// From a response to the answer of the backend
// ---------------------------------------------------------------------------

/// Why the model stopped.
pub open spec fn stop_reason_of(reason: Option<Seq<char>>) -> StopReason {
    if reason == Some("length"@) {
        StopReason::MaxTokens
    } else if reason == Some("stop_sequence"@) {
        StopReason::StopSequence
    } else if reason == Some("tool_calls"@) {
        StopReason::ToolUse
    } else {
        StopReason::EndTurn
    }
}

/// Says why the model stopped.
pub fn stop_reason(reason: &Option<String>) -> (r: StopReason)
    ensures
        r == stop_reason_of(opt_text(*reason)),
{
    match reason {
        Some(t) => {
            let t = t.as_str();
            if str_eq(t, "length") {
                StopReason::MaxTokens
            } else if str_eq(t, "stop_sequence") {
                StopReason::StopSequence
            } else if str_eq(t, "tool_calls") {
                StopReason::ToolUse
            } else {
                StopReason::EndTurn
            }
        },
        None => StopReason::EndTurn,
    }
}

/// Four bytes count as one token.
pub open spec fn estimated_tokens(bytes: nat) -> u64 {
    (at_most_max(bytes) / 4) as u64
}

/// The tokens of a call: as reported, or else as estimated.
pub open spec fn tokens_of(
    usage: Option<OpenAiUsage>,
    request: LlmRequest,
    blocks: Seq<BlockView>,
) -> (u64, u64) {
    match usage {
        Some(u) => (u.prompt_tokens, u.completion_tokens),
        None => (estimated_tokens(request_len(request)), estimated_tokens(blocks_len(blocks))),
    }
}

/// `cost` is what a call costs: known only for a model with a key whose prices are
/// known.
pub open spec fn costs(
    cost: Option<u128>,
    has_key: bool,
    model: Seq<char>,
    tokens_in: u64,
    tokens_out: u64,
) -> bool {
    match openai_prices(model) {
        Some(p) => if has_key {
            cost matches Some(c) && c == cost_at(p.0, p.1, tokens_in, tokens_out)
        } else {
            cost is None
        },
        None => cost is None,
    }
}

/// The backend that answers: a model with a key is a frontier model.
pub open spec fn backend_of(has_key: bool) -> LlmBackend {
    if has_key {
        LlmBackend::Frontier
    } else {
        LlmBackend::Local
    }
}

/// The result of a call, given the response.
pub open spec fn answers_with(
    r: Result<LlmResponse, ExoError>,
    backend: OpenAiCompatBackend,
    request: LlmRequest,
    response: ResponseView,
    latency_ms: u64,
) -> bool {
    if response.choices.len() == 0 {
        r matches Err(ExoError::LlmInvocation(m)) && m@ == "empty choices array"@
    } else {
        let choice = response.choices[0];
        match (chat_blocks(choice.message), r) {
            (Err(e), Err(ExoError::LlmInvocation(m))) => m@ == e,
            (Ok(blocks), Ok(a)) => {
                let tokens = tokens_of(response.usage, request, blocks);
                &&& block_views(a.content_blocks@) == blocks
                &&& a.model@ == match response.model {
                    Some(m) => m,
                    None => backend.model@,
                }
                &&& a.tokens_in == tokens.0
                &&& a.tokens_out == tokens.1
                &&& a.latency_ms == latency_ms
                &&& a.stop_reason == stop_reason_of(choice.finish_reason)
                &&& costs(
                    a.cost_micros,
                    backend.api_key is Some,
                    backend.model@,
                    tokens.0,
                    tokens.1,
                )
                &&& a.backend == backend_of(backend.api_key is Some)
            },
            _ => false,
        }
    }
}

/// The result of a call, given the text of the response.
pub open spec fn answers_text(
    r: Result<LlmResponse, ExoError>,
    backend: OpenAiCompatBackend,
    request: LlmRequest,
    body: Seq<char>,
    latency_ms: u64,
) -> bool {
    match parsed(body) {
        Err(e) => r matches Err(ExoError::LlmInvocation(m)) && m@ == "malformed response body: "@
            + e,
        Ok(j) => match response_of(j) {
            None => r matches Err(ExoError::LlmInvocation(m)) && m@
                == "malformed response body: not a chat completion"@,
            Some(response) => answers_with(r, backend, request, response, latency_ms),
        },
    }
}

impl OpenAiCompatBackend {
    /// A backend at a base URL.
    pub fn new(base_url: String, model: String, api_key: Option<String>) -> (b: OpenAiCompatBackend)
        ensures
            b == (OpenAiCompatBackend { base_url, model, api_key }),
    {
        OpenAiCompatBackend { base_url, model, api_key }
    }

    /// The text of the backend for logs. The key is not part of it.
    pub open spec fn shown(self) -> Seq<char> {
        "OpenAiCompatBackend { base_url: "@ + quoted(self.base_url@) + ", model: "@ + quoted(
            self.model@,
        ) + ", api_key: "@ + quoted("[REDACTED]"@) + " }"@
    }

    /// The text of the backend for logs, without the key.
    pub fn debug_text(&self) -> (r: String)
        ensures
            r@ == self.shown(),
    {
        let mut r = "OpenAiCompatBackend { base_url: ".to_owned();
        r.append(debug_quote(self.base_url.as_str()).as_str());
        r.append(", model: ");
        r.append(debug_quote(self.model.as_str()).as_str());
        r.append(", api_key: ");
        r.append(debug_quote("[REDACTED]").as_str());
        r.append(" }");
        r
    }

    /// The endpoint of the backend.
    pub fn url(&self) -> (r: String)
        ensures
            r@ == endpoint(self.base_url@, "/v1/chat/completions"@),
    {
        endpoint_url(self.base_url.as_str(), "/v1/chat/completions")
    }

    /// Builds the body of a request.
    pub fn build_request_body(&self, request: &LlmRequest) -> (b: OpenAiRequest)
        ensures
            is_body(b, self.model@, *request),
    {
        OpenAiRequest {
            model: self.model.clone(),
            messages: chat_messages(&request.system_prompt, &request.messages),
            max_completion_tokens: request.max_output_tokens,
            temperature: clone_opt(&request.temperature),
            stop: clone_if_any(&request.stop_sequences),
            stream: effective_stream(request),
            tools: tools_to_json(&request.tools),
        }
    }

    /// Where the model of the backend runs.
    pub fn backend_kind(&self) -> (b: LlmBackend)
        ensures
            b == backend_of(self.api_key is Some),
    {
        if self.api_key.is_some() {
            LlmBackend::Frontier
        } else {
            LlmBackend::Local
        }
    }

    /// Estimates the cost of a call in millionths of a cent.
    pub fn call_cost(&self, tokens_in: u64, tokens_out: u64) -> (c: Option<u128>)
        ensures
            costs(c, self.api_key is Some, self.model@, tokens_in, tokens_out),
    {
        if self.api_key.is_some() {
            estimate_openai_cost(self.model.as_str(), tokens_in, tokens_out)
        } else {
            None
        }
    }

    /// Turns a response that was read into the answer of the backend.
    pub fn answer(&self, request: &LlmRequest, response: OpenAiResponse, latency_ms: u64) -> (r:
        Result<LlmResponse, ExoError>)
        ensures
            answers_with(r, *self, *request, response@, latency_ms),
    {
        let ghost view = response@;
        let mut choices = response.choices;
        if choices.len() == 0 {
            return Err(llm_error("empty choices array"));
        }
        let choice = choices.remove(0);
        assert(view.choices[0] == choice@);
        let reason = stop_reason(&choice.finish_reason);
        let blocks = match parse_openai_response_blocks(choice.message) {
            Ok(b) => b,
            Err(e) => {
                return Err(e);
            },
        };
        let (tokens_in, tokens_out): (u64, u64) = match response.usage {
            Some(u) => (u.prompt_tokens, u.completion_tokens),
            None => {
                let bytes_in: usize = request_text_len(request);
                let bytes_out: usize = content_len(&blocks);
                ((bytes_in / 4) as u64, (bytes_out / 4) as u64)
            },
        };
        let model = match response.model {
            Some(m) => m,
            None => self.model.clone(),
        };
        Ok(
            LlmResponse {
                content_blocks: blocks,
                model,
                tokens_in,
                tokens_out,
                latency_ms,
                stop_reason: reason,
                cost_micros: self.call_cost(tokens_in, tokens_out),
                backend: self.backend_kind(),
            },
        )
    }

    /// Turns the text of a response into the answer of the backend.
    pub fn answer_text(&self, request: &LlmRequest, body: &str, latency_ms: u64) -> (r: Result<
        LlmResponse,
        ExoError,
    >)
        ensures
            answers_text(r, *self, *request, body@, latency_ms),
    {
        let j = match parse_json(body) {
            Ok(j) => j,
            Err(e) => {
                let mut m = "malformed response body: ".to_owned();
                m.append(e.as_str());
                return Err(ExoError::LlmInvocation(m));
            },
        };
        match read_response(&j) {
            Some(response) => self.answer(request, response, latency_ms),
            None => Err(llm_error("malformed response body: not a chat completion")),
        }
    }
}

/// What is logged of a backend does not depend on its key.
pub proof fn logs_never_show_the_key(a: OpenAiCompatBackend, b: OpenAiCompatBackend)
    requires
        a.base_url == b.base_url,
        a.model == b.model,
    ensures
        a.shown() == b.shown(),
{
}

/// A request with tools is never streamed.
pub proof fn tools_switch_streaming_off(b: OpenAiRequest, model: Seq<char>, request: LlmRequest)
    requires
        is_body(b, model, request),
        request.tools@.len() > 0,
    ensures
        !b.stream,
{
}

} // verus!

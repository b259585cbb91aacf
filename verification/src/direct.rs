//! Calls of a language model: which backend is used, what is sent, and what becomes of
//! the reply.
//!
//! The HTTP calls are made outside. What they need is prepared here, and what came back
//! is handed in.

use vstd::prelude::*;
use vstd::string::*;

use crate::anthropic::{self, AnthropicBackend};
use crate::anthropic_stream::{self, AnthropicStream};
use crate::http::{
    check_cancelled, check_stream, endpoint, llm_error, status_error, streams, transport_error,
    transport_text, TransportFailure,
};
use crate::json::{Json, JsonView};
use crate::llm::{LlmBackend, LlmRequest, LlmResponse};
use crate::ollama::{self, OllamaNativeBackend};
use crate::openai::{self, OpenAiCompatBackend};
use crate::openai_stream::{self, OpenAiStream};
use crate::text::{dec, lossy, texts};
use crate::types::{ArtifactId, ExoError, LlmCallRecord};

verus! {

// ---------------------------------------------------------------------------
// Configuration
// ---------------------------------------------------------------------------

/// The API that a local server speaks.
#[derive(Debug, Clone, Copy, PartialEq, Eq, Structural)]
pub enum LocalApiFormat {
    OpenAICompat,
    Ollama,
}

/// A local model.
#[derive(Debug)]
pub struct LocalModelConfig {
    pub endpoint: String,
    pub model: String,
    pub api_format: LocalApiFormat,
}

/// Who offers a frontier model.
#[derive(Debug, Clone, Copy, PartialEq, Eq, Structural)]
pub enum FrontierProvider {
    Anthropic,
    OpenAI,
    Gemini,
    Grok,
    OpenRouter,
    DeepSeek,
}

/// A frontier model.
#[derive(Debug)]
pub struct FrontierModelConfig {
    pub provider: FrontierProvider,
    pub model: String,
    /// The environment variable that holds the key.
    pub api_key_env: String,
    /// Without it the provider's own endpoint is used.
    pub endpoint: Option<String>,
}

/// Which models there are.
#[derive(Debug)]
pub struct LlmConfig {
    pub local: Option<LocalModelConfig>,
    pub frontier: Option<FrontierModelConfig>,
    pub default_backend: LlmBackend,
    pub max_output_tokens: u64,
    pub timeout_secs: u64,
}

/// A backend of one of the three kinds.
pub enum HttpBackend {
    OpenAiCompat(OpenAiCompatBackend),
    Anthropic(AnthropicBackend),
    Ollama(OllamaNativeBackend),
}

/// The model of a backend.
#[allow(inconsistent_fields)]
pub enum HttpBackendView {
    OpenAiCompat { base_url: Seq<char>, model: Seq<char>, api_key: Option<Seq<char>> },
    Anthropic { base_url: Seq<char>, model: Seq<char>, api_key: Seq<char> },
    Ollama { base_url: Seq<char>, model: Seq<char> },
}

impl View for HttpBackend {
    type V = HttpBackendView;

    open spec fn view(&self) -> HttpBackendView {
        match self {
            HttpBackend::OpenAiCompat(b) => HttpBackendView::OpenAiCompat {
                base_url: b.base_url@,
                model: b.model@,
                api_key: crate::text::opt_text(b.api_key),
            },
            HttpBackend::Anthropic(b) => HttpBackendView::Anthropic {
                base_url: b.base_url@,
                model: b.model@,
                api_key: b.api_key@,
            },
            HttpBackend::Ollama(b) => HttpBackendView::Ollama {
                base_url: b.base_url@,
                model: b.model@,
            },
        }
    }
}

/// The backend for a local model.
pub open spec fn local_backend(c: LocalModelConfig) -> HttpBackendView {
    match c.api_format {
        LocalApiFormat::OpenAICompat => HttpBackendView::OpenAiCompat {
            base_url: c.endpoint@,
            model: c.model@,
            api_key: None,
        },
        LocalApiFormat::Ollama => HttpBackendView::Ollama {
            base_url: c.endpoint@,
            model: c.model@,
        },
    }
}

/// The endpoint of a provider.
pub open spec fn provider_url(p: FrontierProvider) -> Seq<char> {
    match p {
        FrontierProvider::Anthropic => "https://api.anthropic.com"@,
        FrontierProvider::OpenAI => "https://api.openai.com"@,
        FrontierProvider::Gemini => "https://generativelanguage.googleapis.com/v1beta/openai"@,
        FrontierProvider::Grok => "https://api.x.ai"@,
        FrontierProvider::OpenRouter => "https://openrouter.ai/api"@,
        FrontierProvider::DeepSeek => "https://api.deepseek.com"@,
    }
}

/// The endpoint of a frontier model.
pub open spec fn frontier_url(c: FrontierModelConfig) -> Seq<char> {
    match c.endpoint {
        Some(e) => e@,
        None => provider_url(c.provider),
    }
}

/// The backend for a frontier model. Only Anthropic's own API is not the OpenAI one.
pub open spec fn frontier_backend(c: FrontierModelConfig, key: Seq<char>) -> HttpBackendView {
    match c.provider {
        FrontierProvider::Anthropic => HttpBackendView::Anthropic {
            base_url: frontier_url(c),
            model: c.model@,
            api_key: key,
        },
        _ => HttpBackendView::OpenAiCompat {
            base_url: frontier_url(c),
            model: c.model@,
            api_key: Some(key),
        },
    }
}

/// The message on a key that is missing.
pub open spec fn missing_key_text(c: FrontierModelConfig) -> Seq<char> {
    "API key env var '"@ + c.api_key_env@ + "' not set (required for frontier backend)"@
}

/// Builds the backend for the local model, if there is one.
pub fn build_local_backend(config: &LlmConfig) -> (r: Result<Option<HttpBackend>, ExoError>)
    ensures
        r is Ok,
        match r->Ok_0 {
            None => config.local is None,
            Some(b) => config.local matches Some(c) && b@ == local_backend(c),
        },
{
    match &config.local {
        None => Ok(None),
        Some(c) => match c.api_format {
            LocalApiFormat::OpenAICompat => Ok(
                Some(
                    HttpBackend::OpenAiCompat(
                        OpenAiCompatBackend::new(c.endpoint.clone(), c.model.clone(), None),
                    ),
                ),
            ),
            LocalApiFormat::Ollama => Ok(
                Some(
                    HttpBackend::Ollama(
                        OllamaNativeBackend::new(c.endpoint.clone(), c.model.clone()),
                    ),
                ),
            ),
        },
    }
}

/// The outcome of building the backend for the frontier model.
pub open spec fn builds_frontier(
    r: Result<Option<HttpBackend>, ExoError>,
    config: LlmConfig,
    key: Option<String>,
) -> bool {
    match (config.frontier, key) {
        (None, _) => r matches Ok(None),
        (Some(c), None) => r matches Err(ExoError::Config(m)) && m@ == missing_key_text(c),
        (Some(c), Some(k)) => r matches Ok(Some(b)) && b@ == frontier_backend(c, k@),
    }
}

/// Builds the backend for the frontier model, if there is one. `key` is what the
/// environment variable holds, if it is set.
pub fn build_frontier_backend(config: &LlmConfig, key: Option<String>) -> (r: Result<
    Option<HttpBackend>,
    ExoError,
>)
    ensures
        builds_frontier(r, *config, key),
{
    let c = match &config.frontier {
        None => {
            return Ok(None);
        },
        Some(c) => c,
    };
    let api_key = match key {
        Some(k) => k,
        None => {
            let mut m = "API key env var '".to_owned();
            m.append(c.api_key_env.as_str());
            m.append("' not set (required for frontier backend)");
            return Err(ExoError::Config(m));
        },
    };
    let base_url = match &c.endpoint {
        Some(e) => e.clone(),
        None => match c.provider {
            FrontierProvider::Anthropic => "https://api.anthropic.com".to_owned(),
            FrontierProvider::OpenAI => "https://api.openai.com".to_owned(),
            FrontierProvider::Gemini => {
                "https://generativelanguage.googleapis.com/v1beta/openai".to_owned()
            },
            FrontierProvider::Grok => "https://api.x.ai".to_owned(),
            FrontierProvider::OpenRouter => "https://openrouter.ai/api".to_owned(),
            FrontierProvider::DeepSeek => "https://api.deepseek.com".to_owned(),
        },
    };
    match c.provider {
        FrontierProvider::Anthropic => Ok(
            Some(
                HttpBackend::Anthropic(
                    AnthropicBackend::new(base_url, c.model.clone(), api_key),
                ),
            ),
        ),
        _ => Ok(
            Some(
                HttpBackend::OpenAiCompat(
                    OpenAiCompatBackend::new(base_url, c.model.clone(), Some(api_key)),
                ),
            ),
        ),
    }
}

/// The outcome of building the default backend.
pub open spec fn builds_default(
    r: Result<HttpBackend, ExoError>,
    config: LlmConfig,
    key: Option<String>,
) -> bool {
    match config.default_backend {
        LlmBackend::Local => match config.local {
            Some(c) => r matches Ok(b) && b@ == local_backend(c),
            None => r matches Err(ExoError::Config(m)) && m@
                == "default_backend is Local but no local config"@,
        },
        LlmBackend::Frontier => match (config.frontier, key) {
            (None, _) => r matches Err(ExoError::Config(m)) && m@
                == "default_backend is Frontier but no frontier config"@,
            (Some(c), None) => r matches Err(ExoError::Config(m)) && m@ == missing_key_text(c),
            (Some(c), Some(k)) => r matches Ok(b) && b@ == frontier_backend(c, k@),
        },
    }
}

/// Builds the default backend. `key` is what the environment variable for the
/// frontier model holds, if it is set.
pub fn build_default_backend(config: &LlmConfig, key: Option<String>) -> (r: Result<
    HttpBackend,
    ExoError,
>)
    ensures
        builds_default(r, *config, key),
{
    match config.default_backend {
        LlmBackend::Local => match build_local_backend(config) {
            Err(e) => Err(e),
            Ok(Some(b)) => Ok(b),
            Ok(None) => Err(
                ExoError::Config("default_backend is Local but no local config".to_owned()),
            ),
        },
        LlmBackend::Frontier => match build_frontier_backend(config, key) {
            Err(e) => Err(e),
            Ok(Some(b)) => Ok(b),
            Ok(None) => Err(
                ExoError::Config(
                    "default_backend is Frontier but no frontier config".to_owned(),
                ),
            ),
        },
    }
}

// ---------------------------------------------------------------------------
// Which backend answers a request
// ---------------------------------------------------------------------------

/// The other backend.
pub open spec fn other_backend(b: LlmBackend) -> LlmBackend {
    match b {
        LlmBackend::Local => LlmBackend::Frontier,
        LlmBackend::Frontier => LlmBackend::Local,
    }
}

/// There is such a backend.
pub open spec fn available(b: LlmBackend, has_local: bool, has_frontier: bool) -> bool {
    match b {
        LlmBackend::Local => has_local,
        LlmBackend::Frontier => has_frontier,
    }
}

/// The backend that a request asks for, or else the default.
pub open spec fn preferred_backend(requested: Option<LlmBackend>, default: LlmBackend) -> LlmBackend {
    match requested {
        Some(b) => b,
        None => default,
    }
}

/// The backend that answers a request: the preferred one if there is one, or else the
/// other.
pub open spec fn answering_backend(
    requested: Option<LlmBackend>,
    default: LlmBackend,
    has_local: bool,
    has_frontier: bool,
) -> Option<LlmBackend> {
    let p = preferred_backend(requested, default);
    if available(p, has_local, has_frontier) {
        Some(p)
    } else if available(other_backend(p), has_local, has_frontier) {
        Some(other_backend(p))
    } else {
        None
    }
}

/// Chooses the backend that answers a request.
pub fn resolve_handler_backend(
    requested: Option<LlmBackend>,
    default_backend: LlmBackend,
    has_local: bool,
    has_frontier: bool,
) -> (r: Result<LlmBackend, ExoError>)
    ensures
        match answering_backend(requested, default_backend, has_local, has_frontier) {
            Some(b) => r == Ok::<LlmBackend, ExoError>(b),
            None => r matches Err(ExoError::LlmInvocation(m)) && m@
                == "no LLM backend configured"@,
        },
{
    let preferred = match requested {
        Some(b) => b,
        None => default_backend,
    };
    let (there, fallback, fallback_there) = match preferred {
        LlmBackend::Local => (has_local, LlmBackend::Frontier, has_frontier),
        LlmBackend::Frontier => (has_frontier, LlmBackend::Local, has_local),
    };
    if there {
        Ok(preferred)
    } else if fallback_there {
        Ok(fallback)
    } else {
        Err(llm_error("no LLM backend configured"))
    }
}

// ---------------------------------------------------------------------------
// A call
// ---------------------------------------------------------------------------

/// What is sent to a server.
#[derive(Debug)]
pub struct Outgoing {
    pub url: String,
    pub headers: Vec<(String, String)>,
    pub body: Json,
}

/// What came back from a server.
#[derive(Debug)]
pub enum Reply {
    /// The request, or the response, was lost.
    Lost { failure: TransportFailure, error: String },
    /// A response with a status and a body.
    Arrived { status: u16, body: String },
    /// A response with a status, whose body could not be read.
    Unreadable { status: u16, error: String },
}

/// The models of headers.
pub open spec fn header_views(headers: Seq<(String, String)>) -> Seq<(Seq<char>, Seq<char>)> {
    Seq::new(headers.len(), |i: int| (headers[i].0@, headers[i].1@))
}

/// The headers of a request.
pub open spec fn headers_of(b: HttpBackendView) -> Seq<(Seq<char>, Seq<char>)> {
    match b {
        HttpBackendView::OpenAiCompat { base_url, model, api_key } => match api_key {
            Some(k) => seq![("authorization"@, "Bearer "@ + k)],
            None => Seq::empty(),
        },
        HttpBackendView::Anthropic { base_url, model, api_key } => seq![
            ("x-api-key"@, api_key),
            ("anthropic-version"@, "2023-06-01"@),
            ("content-type"@, "application/json"@),
        ],
        HttpBackendView::Ollama { base_url, model } => Seq::empty(),
    }
}

/// The endpoint of a backend.
pub open spec fn url_of(b: HttpBackendView) -> Seq<char> {
    match b {
        HttpBackendView::OpenAiCompat { base_url, model, api_key } => endpoint(
            base_url,
            "/v1/chat/completions"@,
        ),
        HttpBackendView::Anthropic { base_url, model, api_key } => endpoint(
            base_url,
            "/v1/messages"@,
        ),
        HttpBackendView::Ollama { base_url, model } => endpoint(base_url, "/api/chat"@),
    }
}

/// `j` is the body of a request as JSON.
pub open spec fn is_body_json(j: JsonView, b: HttpBackendView, request: LlmRequest) -> bool {
    match b {
        HttpBackendView::OpenAiCompat { base_url, model, api_key } => exists|body:
            openai::OpenAiRequest|
            openai::is_body(body, model, request) && j == #[trigger] openai::body_json(body),
        HttpBackendView::Anthropic { base_url, model, api_key } => exists|body:
            anthropic::AnthropicRequest|
            anthropic::is_body(body, model, request) && j == #[trigger] anthropic::body_json(body),
        HttpBackendView::Ollama { base_url, model } => exists|body: ollama::OllamaRequest|
            ollama::is_body(body, model, request) && j == #[trigger] ollama::body_json(body),
    }
}

/// The status tells of success.
pub open spec fn is_success(status: u16) -> bool {
    200 <= status <= 299
}

/// The result of a call whose response has a body.
pub open spec fn answers_body(
    r: Result<LlmResponse, ExoError>,
    b: HttpBackend,
    request: LlmRequest,
    body: Seq<char>,
    latency_ms: u64,
) -> bool {
    match b {
        HttpBackend::OpenAiCompat(b) => openai::answers_text(r, b, request, body, latency_ms),
        HttpBackend::Anthropic(_) => anthropic::answers_text(r, body, latency_ms),
        HttpBackend::Ollama(_) => ollama::answers_text(r, request, body, latency_ms),
    }
}

/// The message on a body that could not be read.
pub open spec fn unreadable_text(b: HttpBackend, error: Seq<char>) -> Seq<char> {
    match b {
        HttpBackend::Anthropic(_) => "failed to read response body: "@ + error,
        _ => "malformed response body: "@ + error,
    }
}

/// The result of a call, given what came back.
pub open spec fn answers_reply(
    r: Result<LlmResponse, ExoError>,
    b: HttpBackend,
    request: LlmRequest,
    reply: Reply,
    latency_ms: u64,
) -> bool {
    match reply {
        Reply::Lost { failure, error } => r matches Err(ExoError::LlmInvocation(m)) && m@
            == transport_text(failure, error@),
        Reply::Arrived { status, body } => if is_success(status) {
            answers_body(r, b, request, body@, latency_ms)
        } else {
            r matches Err(ExoError::LlmInvocation(m)) && m@ == dec(status as nat) + ": "@ + body@
        },
        Reply::Unreadable { status, error } => r matches Err(ExoError::LlmInvocation(m)) && m@
            == if is_success(status) {
            unreadable_text(b, error@)
        } else {
            dec(status as nat) + ": "@ + ""@
        },
    }
}

/// A stream that comes in from a server.
#[derive(Debug)]
pub enum StreamRun {
    OpenAi(OpenAiStream),
    Anthropic(AnthropicStream),
}

/// The model of a stream.
pub enum StreamRunView {
    OpenAi(openai_stream::StreamView),
    Anthropic(anthropic_stream::AnthropicStreamView),
}

impl View for StreamRun {
    type V = StreamRunView;

    open spec fn view(&self) -> StreamRunView {
        match self {
            StreamRun::OpenAi(s) => StreamRunView::OpenAi(s@),
            StreamRun::Anthropic(s) => StreamRunView::Anthropic(s@),
        }
    }
}

/// The stream when more text has come in, and the pieces of text in it.
pub open spec fn run_fed(s: StreamRunView, text: Seq<char>) -> (StreamRunView, Seq<Seq<char>>) {
    match s {
        StreamRunView::OpenAi(s) => (
            StreamRunView::OpenAi(openai_stream::fed(s, text).0),
            openai_stream::fed(s, text).1,
        ),
        StreamRunView::Anthropic(s) => (
            StreamRunView::Anthropic(anthropic_stream::fed(s, text).0),
            anthropic_stream::fed(s, text).1,
        ),
    }
}

/// The end of the stream has come.
pub open spec fn run_done(s: StreamRunView) -> bool {
    match s {
        StreamRunView::OpenAi(s) => s.done,
        StreamRunView::Anthropic(s) => s.done,
    }
}

/// A stream of which nothing has come in.
pub open spec fn is_fresh(s: StreamRunView) -> bool {
    match s {
        StreamRunView::OpenAi(s) => s == (openai_stream::StreamView {
            buffer: Seq::empty(),
            content: Seq::empty(),
            finish_reason: None,
            tokens_in: 0,
            tokens_out: 0,
            done: false,
        }),
        StreamRunView::Anthropic(s) => s == (anthropic_stream::AnthropicStreamView {
            buffer: Seq::empty(),
            event_type: Seq::empty(),
            content: Seq::empty(),
            stop_reason: None,
            model: None,
            tokens_in: 0,
            tokens_out: 0,
            done: false,
        }),
    }
}

/// The stream has the form of the backend.
pub open spec fn fits(s: StreamRun, b: HttpBackend) -> bool {
    match b {
        HttpBackend::OpenAiCompat(_) => s is OpenAi,
        HttpBackend::Anthropic(_) => s is Anthropic,
        HttpBackend::Ollama(_) => false,
    }
}

impl StreamRun {
    /// Takes what came in: a chunk, or the error on reading it. Returns the pieces of
    /// the answer in it.
    pub fn take(&mut self, cancelled: bool, chunk: Result<Vec<u8>, String>) -> (r: Result<
        Vec<String>,
        ExoError,
    >)
        ensures
            match (cancelled, chunk) {
                (true, _) => (r matches Err(ExoError::LlmInvocation(m)) && m@
                    == "cancelled during streaming"@) && *final(self) == *old(self),
                (false, Err(e)) => (r matches Err(ExoError::LlmInvocation(m)) && m@
                    == "stream read error: "@ + e@) && *final(self) == *old(self),
                (false, Ok(bytes)) => r matches Ok(said) && (final(self)@, texts(said@))
                    == run_fed(old(self)@, lossy(bytes@)),
            },
            (*final(self)) is OpenAi == (*old(self)) is OpenAi,
    {
        let (bytes, read_error) = match chunk {
            Ok(b) => (Some(b), None),
            Err(e) => (None, Some(e)),
        };
        match check_stream(cancelled, &read_error) {
            Err(e) => {
                return Err(e);
            },
            Ok(_) => {},
        }
        let bytes = match bytes {
            Some(b) => b,
            None => Vec::new(),
        };
        match self {
            StreamRun::OpenAi(s) => Ok(s.feed(&bytes)),
            StreamRun::Anthropic(s) => Ok(s.feed(&bytes)),
        }
    }

    /// Tells whether the end of the stream has come.
    pub fn is_done(&self) -> (r: bool)
        ensures
            r == run_done(self@),
    {
        match self {
            StreamRun::OpenAi(s) => s.done,
            StreamRun::Anthropic(s) => s.done,
        }
    }
}

/// The answer that a stream amounts to.
pub open spec fn concludes(
    a: LlmResponse,
    s: StreamRunView,
    b: HttpBackend,
    request: LlmRequest,
) -> bool {
    match (b, s) {
        (HttpBackend::OpenAiCompat(b), StreamRunView::OpenAi(s)) => openai_stream::concludes(
            a,
            s,
            b,
            request,
        ),
        (HttpBackend::Anthropic(b), StreamRunView::Anthropic(s)) => anthropic_stream::concludes(
            a,
            s,
            b,
        ),
        _ => false,
    }
}

impl HttpBackend {
    fn url(&self) -> (r: String)
        ensures
            r@ == url_of(self@),
    {
        match self {
            HttpBackend::OpenAiCompat(b) => b.url(),
            HttpBackend::Anthropic(b) => b.url(),
            HttpBackend::Ollama(b) => b.url(),
        }
    }

    /// The headers of a request.
    pub fn headers(&self) -> (r: Vec<(String, String)>)
        ensures
            header_views(r@) == headers_of(self@),
    {
        match self {
            HttpBackend::OpenAiCompat(b) => match &b.api_key {
                Some(k) => {
                    let mut value = "Bearer ".to_owned();
                    value.append(k.as_str());
                    let r = vec![("authorization".to_owned(), value)];
                    assert(header_views(r@) =~= headers_of(self@));
                    r
                },
                None => {
                    let r = Vec::new();
                    assert(header_views(r@) =~= headers_of(self@));
                    r
                },
            },
            HttpBackend::Anthropic(b) => {
                let r = b.headers();
                assert(header_views(r@) =~= headers_of(self@));
                r
            },
            HttpBackend::Ollama(_) => {
                let r = Vec::new();
                assert(header_views(r@) =~= headers_of(self@));
                r
            },
        }
    }

    fn body(&self, request: &LlmRequest) -> (j: Json)
        ensures
            is_body_json(j@, self@, *request),
    {
        match self {
            HttpBackend::OpenAiCompat(b) => {
                let body = b.build_request_body(request);
                body.to_json()
            },
            HttpBackend::Anthropic(b) => {
                let body = b.build_request_body(request);
                body.to_json()
            },
            HttpBackend::Ollama(b) => {
                let body = b.build_request_body(request);
                body.to_json()
            },
        }
    }

    /// Prepares what is sent to the server. Nothing is sent for a call that was
    /// cancelled.
    pub fn prepare(&self, request: &LlmRequest, cancelled: bool) -> (r: Result<Outgoing, ExoError>)
        ensures
            match r {
                Ok(o) => !cancelled && o.url@ == url_of(self@) && header_views(o.headers@)
                    == headers_of(self@) && is_body_json(o.body@, self@, *request),
                Err(e) => cancelled && (e matches ExoError::LlmInvocation(m) && m@
                    == "cancelled before HTTP call"@),
            },
    {
        match check_cancelled(cancelled) {
            Err(e) => Err(e),
            Ok(_) => Ok(
                Outgoing { url: self.url(), headers: self.headers(), body: self.body(request) },
            ),
        }
    }

    /// Turns what came back into the answer of the backend.
    pub fn receive(&self, request: &LlmRequest, reply: &Reply, latency_ms: u64) -> (r: Result<
        LlmResponse,
        ExoError,
    >)
        ensures
            answers_reply(r, *self, *request, *reply, latency_ms),
    {
        match reply {
            Reply::Lost { failure, error } => Err(transport_error(*failure, error.as_str())),
            Reply::Arrived { status, body } => {
                if *status < 200 || *status > 299 {
                    return Err(status_error(*status, body.as_str()));
                }
                match self {
                    HttpBackend::OpenAiCompat(b) => b.answer_text(
                        request,
                        body.as_str(),
                        latency_ms,
                    ),
                    HttpBackend::Anthropic(b) => b.answer_text(body.as_str(), latency_ms),
                    HttpBackend::Ollama(b) => b.answer_text(request, body.as_str(), latency_ms),
                }
            },
            Reply::Unreadable { status, error } => {
                if *status < 200 || *status > 299 {
                    Err(status_error(*status, ""))
                } else {
                    Err(self.unreadable(error.as_str()))
                }
            },
        }
    }

    fn unreadable(&self, error: &str) -> (e: ExoError)
        ensures
            e matches ExoError::LlmInvocation(m) && m@ == unreadable_text(*self, error@),
    {
        let mut m = match self {
            HttpBackend::Anthropic(_) => "failed to read response body: ".to_owned(),
            _ => "malformed response body: ".to_owned(),
        };
        m.append(error);
        ExoError::LlmInvocation(m)
    }

    /// Opens a stream for a request. There is none if the request is not to be
    /// streamed, or has tools, or if the backend does not stream; then the answer
    /// comes at once.
    pub fn open_stream(&self, request: &LlmRequest) -> (r: Option<StreamRun>)
        ensures
            match r {
                Some(s) => streams(*request) && fits(s, *self) && is_fresh(s@),
                None => !streams(*request) || self is Ollama,
            },
    {
        if !request.stream || request.tools.len() > 0 {
            return None;
        }
        match self {
            HttpBackend::OpenAiCompat(_) => Some(StreamRun::OpenAi(OpenAiStream::new())),
            HttpBackend::Anthropic(_) => Some(StreamRun::Anthropic(AnthropicStream::new())),
            HttpBackend::Ollama(_) => None,
        }
    }

    /// Turns a stream that has come in into the answer of the backend.
    pub fn conclude(&self, request: &LlmRequest, stream: StreamRun) -> (r: Option<LlmResponse>)
        ensures
            match r {
                Some(a) => concludes(a, stream@, *self, *request),
                None => !fits(stream, *self),
            },
    {
        match (self, stream) {
            (HttpBackend::OpenAiCompat(b), StreamRun::OpenAi(s)) => Some(
                b.conclude_stream(request, s),
            ),
            (HttpBackend::Anthropic(b), StreamRun::Anthropic(s)) => Some(b.conclude_stream(s)),
            _ => None,
        }
    }
}

// ---------------------------------------------------------------------------
// The record of a call
// ---------------------------------------------------------------------------

/// A call that was made, and where its response is kept.
#[derive(Debug)]
pub struct DirectLlmResult {
    pub response: LlmResponse,
    pub artifact_id: ArtifactId,
    pub llm_call_record: LlmCallRecord,
}

/// The cost that is booked for a call. Without an estimate it is zero.
pub open spec fn booked_cost(response: LlmResponse) -> u128 {
    match response.cost_micros {
        Some(c) => c,
        None => 0,
    }
}

/// Puts the record of a call together. `latency_ms` is the latency as measured, which
/// replaces the one in the response.
pub fn direct_llm_result(response: LlmResponse, latency_ms: u64, artifact_id: ArtifactId) -> (r:
    DirectLlmResult)
    ensures
        r.response == (LlmResponse { latency_ms, ..response }),
        r.artifact_id == artifact_id,
        r.llm_call_record.model == response.model,
        r.llm_call_record.tokens_in == response.tokens_in,
        r.llm_call_record.tokens_out == response.tokens_out,
        r.llm_call_record.cost_micros == booked_cost(response),
        r.llm_call_record.latency_ms == latency_ms,
        r.llm_call_record.response_artifact_ref == Some(artifact_id),
        r.llm_call_record.turns == 1,
{
    let mut response = response;
    response.latency_ms = latency_ms;
    let llm_call_record = LlmCallRecord {
        model: response.model.clone(),
        tokens_in: response.tokens_in,
        tokens_out: response.tokens_out,
        cost_micros: match response.cost_micros {
            Some(c) => c,
            None => 0,
        },
        latency_ms,
        response_artifact_ref: Some(artifact_id.clone()),
        turns: 1,
    };
    DirectLlmResult { response, artifact_id, llm_call_record }
}

/// What the counters of the calls are told.
#[derive(Debug)]
pub struct CallMetrics {
    /// The label of the backend.
    pub backend: String,
    pub input_tokens: u64,
    pub output_tokens: u64,
    pub cost_micros: u128,
    pub latency_ms: u64,
}

/// The label of a backend.
pub open spec fn backend_label(b: LlmBackend) -> Seq<char> {
    match b {
        LlmBackend::Local => "local"@,
        LlmBackend::Frontier => "frontier"@,
    }
}

/// Tells the counters of a call. The label is that of the backend that was chosen.
pub fn call_metrics(backend: LlmBackend, response: &LlmResponse, latency_ms: u64) -> (m: CallMetrics)
    ensures
        m.backend@ == backend_label(backend),
        m.input_tokens == response.tokens_in,
        m.output_tokens == response.tokens_out,
        m.cost_micros == booked_cost(*response),
        m.latency_ms == latency_ms,
{
    CallMetrics {
        backend: match backend {
            LlmBackend::Local => "local".to_owned(),
            LlmBackend::Frontier => "frontier".to_owned(),
        },
        input_tokens: response.tokens_in,
        output_tokens: response.tokens_out,
        cost_micros: match response.cost_micros {
            Some(c) => c,
            None => 0,
        },
        latency_ms,
    }
}

// ---------------------------------------------------------------------------
// Laws
// ---------------------------------------------------------------------------

/// If there is any backend, a request is answered, whatever it asks for.
pub proof fn any_backend_answers(
    requested: Option<LlmBackend>,
    default: LlmBackend,
    has_local: bool,
    has_frontier: bool,
)
    ensures
        answering_backend(requested, default, has_local, has_frontier) is Some <==> has_local
            || has_frontier,
        answering_backend(requested, default, has_local, has_frontier) matches Some(b)
            ==> available(b, has_local, has_frontier),
{
}

/// A local model is never sent a key.
pub proof fn local_models_get_no_key(c: LocalModelConfig)
    ensures
        headers_of(local_backend(c)).len() == 0,
{
}

} // verus!

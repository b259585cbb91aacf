//! Laws of calls and streams: which server is asked, what it is sent, and what its answer
//! amounts to.

use vstd::prelude::*;
use vstd::string::*;
use vstd::utf8::encode_utf8;

use crate::anthropic::{self, ReplyView};
use crate::anthropic_stream::{self, AnthropicStreamView};
use crate::chat::opt_string;
use crate::direct::{
    answering_backend, answers_reply, backend_label, booked_cost, builds_default, frontier_backend,
    headers_of, is_body_json, is_fresh, run_done, run_fed, url_of, FrontierModelConfig, HttpBackend,
    HttpBackendView, LlmConfig, Reply, StreamRunView,
};
use crate::encode::{field_is_found, record};
use crate::http::{
    anthropic_prices, blocks_len, cost_at, endpoint, is_retryable, messages_len, openai_prices,
    request_len,
};
use crate::json::{parsed, JsonView};
use crate::llm::{block_views, BlockView, LlmBackend, LlmMessage, LlmRequest, LlmResponse};
use crate::ollama;
use crate::openai::{self, OpenAiCompatBackend, OpenAiUsage};
use crate::openai_stream::{self, StreamView};
use crate::text::{
    begins_with, behind_prefix, byte_len, dec, has_text, index_of, index_of_is_first,
    start_is_found, trimmed,
};
use crate::types::{ContentBlock, ExoError};
use crate::wire_laws::{
    anthropic_body_holds_everything, anthropic_response_is_read, ollama_body_holds_everything,
    openai_body_holds_everything, reply_parts,
};

verus! {

// ---------------------------------------------------------------------------
// Streams of the OpenAI API
// ---------------------------------------------------------------------------

/// The text is one line.
pub open spec fn is_line(line: Seq<char>) -> bool {
    forall|i: int| 0 <= i < line.len() ==> line[i] != '\n'
}

/// What the data of the line are, if it holds any.
pub open spec fn line_data(line: Seq<char>, prefix: Seq<char>) -> Option<Seq<char>> {
    match behind_prefix(trimmed(line), prefix) {
        Some(rest) => Some(trimmed(rest)),
        None => None,
    }
}

proof fn line_ends(line: Seq<char>)
    requires
        is_line(line),
    ensures
        index_of(line.push('\n'), '\n', 0) == Some(line.len() as int),
        index_of(Seq::<char>::empty(), '\n', 0) is None,
        line.push('\n').subrange(0, line.len() as int) == line,
        line.push('\n').subrange(line.len() as int + 1, line.push('\n').len() as int) == Seq::<
            char,
        >::empty(),
{
    let all = line.push('\n');
    index_of_is_first(all, '\n', 0);
    match index_of(all, '\n', 0) {
        Some(i) => {
            if i < line.len() {
                assert(all[i] == line[i]);
            }
        },
        None => {
            assert(all[line.len() as int] == '\n');
        },
    }
    assert(all.subrange(0, line.len() as int) =~= line);
    assert(all.subrange(line.len() as int + 1, all.len() as int) =~= Seq::<char>::empty());
}

/// A stream of the OpenAI API takes a line when it ends.
proof fn openai_line(s: StreamView, line: Seq<char>)
    requires
        s.buffer.len() == 0,
        !s.done,
        is_line(line),
    ensures
        openai_stream::fed(s, line.push('\n')) == openai_stream::after_event(
            s,
            Seq::empty(),
            openai_stream::line_event(line),
        ),
{
    line_ends(line);
    let text = line.push('\n');
    assert(s.buffer + text =~= text);
    assert(s.buffer =~= Seq::<char>::empty());
    let start = StreamView { buffer: text, ..s };
    let rest = StreamView { buffer: Seq::empty(), ..s };
    assert(rest == s);
    let next = openai_stream::after_event(rest, Seq::empty(), openai_stream::line_event(line));
    assert(next.0.buffer == Seq::<char>::empty());
    assert(openai_stream::drained(next.0, next.1) == next);
}

/// The fields of a piece of an answer in a chunk.
pub open spec fn piece_parts(content: Option<Seq<char>>, reason: Option<Seq<char>>) -> Seq<
    (Seq<char>, Option<JsonView>),
> {
    seq![
        ("delta"@, Some(JsonView::Object(record(seq![("content"@, opt_string(content))])))),
        ("finish_reason"@, opt_string(reason)),
    ]
}

/// The usage as JSON, if there is one.
pub open spec fn usage_json(usage: Option<OpenAiUsage>) -> Option<JsonView> {
    match usage {
        Some(u) => Some(JsonView::Object(record(usage_parts(u)))),
        None => None,
    }
}

/// The fields of a usage.
pub open spec fn usage_parts(u: OpenAiUsage) -> Seq<(Seq<char>, Option<JsonView>)> {
    seq![
        ("prompt_tokens"@, Some(JsonView::UInt(u.prompt_tokens))),
        ("completion_tokens"@, Some(JsonView::UInt(u.completion_tokens))),
    ]
}

/// The fields of a chunk of the OpenAI API.
pub open spec fn chunk_parts(
    content: Option<Seq<char>>,
    reason: Option<Seq<char>>,
    usage: Option<OpenAiUsage>,
) -> Seq<(Seq<char>, Option<JsonView>)> {
    seq![
        (
            "choices"@,
            Some(JsonView::Array(seq![JsonView::Object(record(piece_parts(content, reason)))])),
        ),
        ("usage"@, usage_json(usage)),
    ]
}

/// A chunk of the OpenAI API.
pub open spec fn chunk_json(
    content: Option<Seq<char>>,
    reason: Option<Seq<char>>,
    usage: Option<OpenAiUsage>,
) -> JsonView {
    JsonView::Object(record(chunk_parts(content, reason, usage)))
}

proof fn chunk_is_read(
    content: Option<Seq<char>>,
    reason: Option<Seq<char>>,
    usage: Option<OpenAiUsage>,
)
    ensures
        openai_stream::chunk_event(chunk_json(content, reason, usage))
            == openai_stream::piece_event((content, reason), usage),
{
    let delta_parts = seq![("content"@, opt_string(content))];
    let choice_parts = piece_parts(content, reason);
    let choice = JsonView::Object(record(choice_parts));
    let used = usage_json(usage);
    let parts = chunk_parts(content, reason, usage);
    reveal_strlit("choices");
    reveal_strlit("usage");
    reveal_strlit("delta");
    reveal_strlit("finish_reason");
    reveal_strlit("prompt_tokens");
    reveal_strlit("completion_tokens");
    assert("choices"@.len() == 7);
    assert("usage"@.len() == 5);
    assert("delta"@.len() == 5);
    assert("finish_reason"@.len() == 13);
    assert("prompt_tokens"@.len() == 13);
    assert("completion_tokens"@.len() == 17);
    field_is_found(parts, 0);
    field_is_found(parts, 1);
    field_is_found(choice_parts, 0);
    field_is_found(choice_parts, 1);
    field_is_found(delta_parts, 0);
    if let Some(u) = usage {
        let inner = usage_parts(u);
        field_is_found(inner, 0);
        field_is_found(inner, 1);
        assert(openai::usage_of(used->Some_0) == Some(u));
    }
    assert(openai_stream::piece_of(choice) == Some((content, reason)));
    let items = seq![choice];
    assert(openai_stream::all_pieces(items)) by {
        assert forall|i: int| 0 <= i < items.len() implies openai_stream::piece_of(
            #[trigger] items[i],
        ) is Some by {
            assert(items[i] == choice);
        }
    }
    assert(items[0] == choice);
}

/// A piece of text in a stream is added to the answer and handed out, as it is. The end of
/// an answer sets the reason and the tokens. Nothing else changes, and nothing is left
/// over of the line.
pub proof fn openai_chunk_is_taken(
    s: StreamView,
    line: Seq<char>,
    content: Option<Seq<char>>,
    reason: Option<Seq<char>>,
    usage: Option<OpenAiUsage>,
)
    requires
        s.buffer.len() == 0,
        !s.done,
        is_line(line),
        line_data(line, "data:"@) matches Some(data) && data != "[DONE]"@ && parsed(data)
            == Ok::<JsonView, Seq<char>>(chunk_json(content, reason, usage)),
    ensures
        ({
            let (next, said) = openai_stream::fed(s, line.push('\n'));
            &&& next.buffer.len() == 0
            &&& !next.done
            &&& if content is Some && content->Some_0.len() > 0 {
                &&& next.content == s.content + content->Some_0
                &&& said == seq![content->Some_0]
                &&& next.finish_reason == s.finish_reason
                &&& next.tokens_in == s.tokens_in
                &&& next.tokens_out == s.tokens_out
            } else {
                &&& next.content == s.content
                &&& said.len() == 0
                &&& (reason is Some || usage is Some) ==> next.finish_reason == reason
                &&& usage matches Some(u) ==> next.tokens_in == u.prompt_tokens
                    && next.tokens_out == u.completion_tokens
                &&& usage is None ==> next.tokens_in == s.tokens_in && next.tokens_out
                    == s.tokens_out
            }
        }),
{
    openai_line(s, line);
    chunk_is_read(content, reason, usage);
    data_is_no_comment(line);
    assert(Seq::<Seq<char>>::empty().push(content->Some_0) =~= seq![content->Some_0]);
}

proof fn data_is_no_comment(line: Seq<char>)
    requires
        line_data(line, "data:"@) is Some,
    ensures
        !begins_with(trimmed(line), ":"@),
{
    reveal_strlit("data:");
    reveal_strlit(":");
    let l = trimmed(line);
    assert(l.subrange(0, 5) == "data:"@);
    assert(l[0] == l.subrange(0, 5)[0]);
    if begins_with(l, ":"@) {
        assert(l.subrange(0, 1)[0] == ":"@[0]);
    }
}

/// The mark at the end of a stream ends it. Behind it nothing is taken any more.
pub proof fn openai_end_is_the_end(s: StreamView, line: Seq<char>, more: Seq<char>)
    requires
        s.buffer.len() == 0,
        !s.done,
        is_line(line),
        line_data(line, "data:"@) == Some("[DONE]"@),
    ensures
        ({
            let (ended, said) = openai_stream::fed(s, line.push('\n'));
            let (later, nothing) = openai_stream::fed(ended, more);
            &&& ended.done && ended.content == s.content && said.len() == 0
            &&& later.done && later.content == s.content && nothing.len() == 0
            &&& later.finish_reason == s.finish_reason && later.tokens_in == s.tokens_in
                && later.tokens_out == s.tokens_out
        }),
{
    openai_line(s, line);
    data_is_no_comment(line);
}

/// What is no complete line waits for its end: it changes nothing but the buffer.
pub proof fn openai_line_waits(s: StreamView, text: Seq<char>)
    requires
        is_line(s.buffer + text),
    ensures
        openai_stream::fed(s, text) == (
            StreamView { buffer: s.buffer + text, ..s },
            Seq::<Seq<char>>::empty(),
        ),
{
    index_of_is_first(s.buffer + text, '\n', 0);
}

/// The answer of a stream is one text: all that came in. Its tokens are those that were
/// reported, if any were.
pub proof fn openai_stream_makes_the_answer(
    a: LlmResponse,
    s: StreamView,
    backend: OpenAiCompatBackend,
    request: LlmRequest,
)
    requires
        openai_stream::concludes(a, s, backend, request),
    ensures
        a.content_blocks@.len() == 1,
        a.content_blocks@[0] matches ContentBlock::Text { text } && text@ == s.content,
        a.model@ == backend.model@,
        s.tokens_in > 0 || s.tokens_out > 0 ==> a.tokens_in == s.tokens_in && a.tokens_out
            == s.tokens_out,
        a.stop_reason is MaxTokens <==> s.finish_reason == Some("length"@),
        a.backend is Frontier <==> backend.api_key is Some,
        backend.api_key is None ==> a.cost_micros is None,
{
    reveal_strlit("tool_calls");
    reveal_strlit("length");
    reveal_strlit("stop_sequence");
    assert("tool_calls"@.len() == 10);
    assert("length"@.len() == 6);
    assert("stop_sequence"@.len() == 13);
    assert(block_views(a.content_blocks@).len() == a.content_blocks@.len());
    assert(block_views(a.content_blocks@)[0] == a.content_blocks@[0]@);
}

// ---------------------------------------------------------------------------
// Streams of the Anthropic API
// ---------------------------------------------------------------------------

proof fn anthropic_line(s: AnthropicStreamView, line: Seq<char>)
    requires
        s.buffer.len() == 0,
        !s.done,
        is_line(line),
    ensures
        anthropic_stream::fed(s, line.push('\n')) == anthropic_stream::after_line(
            s,
            Seq::empty(),
            line,
        ),
{
    line_ends(line);
    let text = line.push('\n');
    assert(s.buffer + text =~= text);
    assert(s.buffer =~= Seq::<char>::empty());
    let rest = AnthropicStreamView { buffer: Seq::empty(), ..s };
    assert(rest == s);
    let next = anthropic_stream::after_line(rest, Seq::empty(), line);
    assert(next.0.buffer == Seq::<char>::empty());
    assert(anthropic_stream::drained(next.0, next.1) == next);
}

proof fn event_is_no_data(line: Seq<char>)
    requires
        line_data(line, "data: "@) is Some,
    ensures
        behind_prefix(trimmed(line), "event: "@) is None,
{
    reveal_strlit("data: ");
    reveal_strlit("event: ");
    let l = trimmed(line);
    assert(l.subrange(0, 6)[0] == "data: "@[0]);
    if begins_with(l, "event: "@) {
        assert(l.subrange(0, 7)[0] == "event: "@[0]);
    }
}

/// A line that names the kind of an event changes nothing but what the next data are
/// taken for.
pub proof fn anthropic_kind_is_kept(s: AnthropicStreamView, line: Seq<char>, kind: Seq<char>)
    requires
        s.buffer.len() == 0,
        !s.done,
        is_line(line),
        line_data(line, "event: "@) == Some(kind),
    ensures
        anthropic_stream::fed(s, line.push('\n')) == (
            AnthropicStreamView { event_type: kind, ..s },
            Seq::<Seq<char>>::empty(),
        ),
{
    anthropic_line(s, line);
}

proof fn kinds_differ()
    ensures
        "content_block_delta"@ != "message_stop"@,
        "message_delta"@ != "message_stop"@,
        "message_start"@ != "message_stop"@,
        "message_delta"@ != "content_block_delta"@,
        "message_start"@ != "content_block_delta"@,
        "message_start"@ != "message_delta"@,
{
    reveal_strlit("content_block_delta");
    reveal_strlit("message_stop");
    reveal_strlit("message_delta");
    reveal_strlit("message_start");
    assert("content_block_delta"@.len() == 19);
    assert("message_stop"@.len() == 12);
    assert("message_delta"@.len() == 13);
    assert("message_start"@.len() == 13);
    assert("message_delta"@[8] != "message_start"@[8]);
}

/// A piece of text in a stream is added to the answer and handed out, as it is. Nothing
/// else changes.
pub proof fn anthropic_text_is_taken(s: AnthropicStreamView, line: Seq<char>, text: Seq<char>)
    requires
        s.buffer.len() == 0,
        !s.done,
        is_line(line),
        s.event_type == "content_block_delta"@,
        text.len() > 0,
        line_data(line, "data: "@) matches Some(data) && parsed(data) == Ok::<
            JsonView,
            Seq<char>,
        >(
            JsonView::Object(
                seq![("delta"@, JsonView::Object(seq![("text"@, JsonView::Str(text))]))],
            ),
        ),
    ensures
        anthropic_stream::fed(s, line.push('\n')) == (
            AnthropicStreamView { content: s.content + text, event_type: Seq::empty(), ..s },
            seq![text],
        ),
{
    anthropic_line(s, line);
    event_is_no_data(line);
    kinds_differ();
    let d = JsonView::Object(seq![("text"@, JsonView::Str(text))]);
    let j = JsonView::Object(seq![("delta"@, d)]);
    assert(d->Object_0.last() == ("text"@, JsonView::Str(text)));
    assert(j->Object_0.last() == ("delta"@, d));
    assert(anthropic_stream::text_event(j) == anthropic_stream::AnthropicEventView::TextDelta(text));
    assert(Seq::<Seq<char>>::empty().push(text) =~= seq![text]);
}

/// The beginning of an answer tells its model and the tokens of the prompt.
pub proof fn anthropic_start_is_taken(
    s: AnthropicStreamView,
    line: Seq<char>,
    model: Seq<char>,
    tokens: u64,
)
    requires
        s.buffer.len() == 0,
        !s.done,
        is_line(line),
        s.event_type == "message_start"@,
        line_data(line, "data: "@) matches Some(data) && parsed(data) == Ok::<
            JsonView,
            Seq<char>,
        >(
            JsonView::Object(
                seq![
                    (
                        "message"@,
                        JsonView::Object(
                            seq![
                                ("model"@, JsonView::Str(model)),
                                (
                                    "usage"@,
                                    JsonView::Object(
                                        seq![("input_tokens"@, JsonView::UInt(tokens))],
                                    ),
                                ),
                            ],
                        ),
                    ),
                ],
            ),
        ),
    ensures
        anthropic_stream::fed(s, line.push('\n')) == (
            AnthropicStreamView {
                model: Some(model),
                tokens_in: tokens,
                event_type: Seq::empty(),
                ..s
            },
            Seq::<Seq<char>>::empty(),
        ),
{
    anthropic_line(s, line);
    event_is_no_data(line);
    kinds_differ();
    let u = JsonView::Object(seq![("input_tokens"@, JsonView::UInt(tokens))]);
    let parts = seq![("model"@, Some(JsonView::Str(model))), ("usage"@, Some(u))];
    let m = JsonView::Object(seq![("model"@, JsonView::Str(model)), ("usage"@, u)]);
    let j = JsonView::Object(seq![("message"@, m)]);
    reveal_strlit("model");
    reveal_strlit("usage");
    assert("model"@[0] != "usage"@[0]);
    reveal_with_fuel(record, 3);
    assert(m->Object_0 =~= record(parts));
    field_is_found(parts, 0);
    field_is_found(parts, 1);
    assert(u->Object_0.last() == ("input_tokens"@, JsonView::UInt(tokens)));
    assert(j->Object_0.last() == ("message"@, m));
}

/// The end of the text tells why it ended and the tokens of the answer.
pub proof fn anthropic_stop_is_taken(
    s: AnthropicStreamView,
    line: Seq<char>,
    reason: Seq<char>,
    tokens: u64,
)
    requires
        s.buffer.len() == 0,
        !s.done,
        is_line(line),
        s.event_type == "message_delta"@,
        line_data(line, "data: "@) matches Some(data) && parsed(data) == Ok::<
            JsonView,
            Seq<char>,
        >(
            JsonView::Object(
                seq![
                    ("delta"@, JsonView::Object(seq![("stop_reason"@, JsonView::Str(reason))])),
                    ("usage"@, JsonView::Object(seq![("output_tokens"@, JsonView::UInt(tokens))])),
                ],
            ),
        ),
    ensures
        anthropic_stream::fed(s, line.push('\n')) == (
            AnthropicStreamView {
                stop_reason: Some(reason),
                tokens_out: tokens,
                event_type: Seq::empty(),
                ..s
            },
            Seq::<Seq<char>>::empty(),
        ),
{
    anthropic_line(s, line);
    event_is_no_data(line);
    kinds_differ();
    let d = JsonView::Object(seq![("stop_reason"@, JsonView::Str(reason))]);
    let u = JsonView::Object(seq![("output_tokens"@, JsonView::UInt(tokens))]);
    let parts = seq![("delta"@, Some(d)), ("usage"@, Some(u))];
    let j = JsonView::Object(seq![("delta"@, d), ("usage"@, u)]);
    reveal_strlit("delta");
    reveal_strlit("usage");
    assert("delta"@[0] != "usage"@[0]);
    reveal_with_fuel(record, 3);
    assert(j->Object_0 =~= record(parts));
    field_is_found(parts, 0);
    field_is_found(parts, 1);
    assert(d->Object_0.last() == ("stop_reason"@, JsonView::Str(reason)));
    assert(u->Object_0.last() == ("output_tokens"@, JsonView::UInt(tokens)));
}

/// The event at the end of a stream ends it, whatever its data are. Behind it nothing is
/// taken any more.
pub proof fn anthropic_end_is_the_end(s: AnthropicStreamView, line: Seq<char>, more: Seq<char>)
    requires
        s.buffer.len() == 0,
        !s.done,
        is_line(line),
        s.event_type == "message_stop"@,
        line_data(line, "data: "@) is Some,
    ensures
        ({
            let (ended, said) = anthropic_stream::fed(s, line.push('\n'));
            let (later, nothing) = anthropic_stream::fed(ended, more);
            &&& ended.done && ended.content == s.content && said.len() == 0
            &&& later.done && later.content == s.content && nothing.len() == 0
            &&& later.model == s.model && later.stop_reason == s.stop_reason && later.tokens_in
                == s.tokens_in && later.tokens_out == s.tokens_out
        }),
{
    anthropic_line(s, line);
    event_is_no_data(line);
}

/// What is no complete line waits for its end: it changes nothing but the buffer.
pub proof fn anthropic_line_waits(s: AnthropicStreamView, text: Seq<char>)
    requires
        is_line(s.buffer + text),
    ensures
        anthropic_stream::fed(s, text) == (
            AnthropicStreamView { buffer: s.buffer + text, ..s },
            Seq::<Seq<char>>::empty(),
        ),
{
    index_of_is_first(s.buffer + text, '\n', 0);
}

/// The answer of a stream is one text: all that came in, with the tokens as reported.
pub proof fn anthropic_stream_makes_the_answer(
    a: LlmResponse,
    s: AnthropicStreamView,
    backend: anthropic::AnthropicBackend,
)
    requires
        anthropic_stream::concludes(a, s, backend),
    ensures
        a.content_blocks@.len() == 1,
        a.content_blocks@[0] matches ContentBlock::Text { text } && text@ == s.content,
        s.model matches Some(m) ==> a.model@ == m,
        s.model is None ==> a.model@ == backend.model@,
        a.tokens_in == s.tokens_in,
        a.tokens_out == s.tokens_out,
        a.stop_reason is MaxTokens <==> s.stop_reason == Some("max_tokens"@),
        a.backend is Frontier,
        a.cost_micros is Some,
{
    reveal_strlit("tool_use");
    reveal_strlit("max_tokens");
    reveal_strlit("stop_sequence");
    assert("tool_use"@.len() == 8);
    assert("max_tokens"@.len() == 10);
    assert("stop_sequence"@.len() == 13);
    assert(block_views(a.content_blocks@).len() == a.content_blocks@.len());
    assert(block_views(a.content_blocks@)[0] == a.content_blocks@[0]@);
}

// ---------------------------------------------------------------------------
// Calls
// ---------------------------------------------------------------------------

/// A request is answered by the backend that it asks for, if there is one; without a wish
/// by the default backend, if there is one; and otherwise by the only one that there is.
pub proof fn wished_backend_answers(
    requested: Option<LlmBackend>,
    default: LlmBackend,
    has_local: bool,
    has_frontier: bool,
)
    ensures
        ({
            let wish = match requested {
                Some(b) => b,
                None => default,
            };
            let r = answering_backend(requested, default, has_local, has_frontier);
            &&& wish is Local && has_local ==> r == Some(LlmBackend::Local)
            &&& wish is Frontier && has_frontier ==> r == Some(LlmBackend::Frontier)
            &&& has_local && !has_frontier ==> r == Some(LlmBackend::Local)
            &&& has_frontier && !has_local ==> r == Some(LlmBackend::Frontier)
            &&& !has_frontier && !has_local ==> r is None
        }),
{
}

/// The default backend is the one that the configuration names, with the model of that
/// configuration; it exists exactly if it is configured and, at the frontier, its key is
/// set.
pub proof fn default_backend_is_configured(
    r: Result<HttpBackend, ExoError>,
    config: LlmConfig,
    key: Option<String>,
)
    requires
        builds_default(r, config, key),
    ensures
        config.default_backend is Local ==> (r is Ok <==> config.local is Some),
        config.default_backend is Frontier ==> (r is Ok <==> config.frontier is Some && key
            is Some),
        r matches Ok(b) ==> match b {
            HttpBackend::Ollama(b) => config.default_backend is Local
                && config.local->Some_0.api_format is Ollama && b.model@
                == config.local->Some_0.model@ && b.base_url@ == config.local->Some_0.endpoint@,
            HttpBackend::Anthropic(b) => config.default_backend is Frontier
                && config.frontier->Some_0.provider is Anthropic && b.model@
                == config.frontier->Some_0.model@ && b.api_key@ == key->Some_0@,
            HttpBackend::OpenAiCompat(b) => match config.default_backend {
                LlmBackend::Local => config.local->Some_0.api_format is OpenAICompat && b.model@
                    == config.local->Some_0.model@ && b.base_url@ == config.local->Some_0.endpoint@
                    && b.api_key is None,
                LlmBackend::Frontier => !(config.frontier->Some_0.provider is Anthropic)
                    && b.model@ == config.frontier->Some_0.model@ && (b.api_key matches Some(k)
                    && k@ == key->Some_0@),
            },
        },
{
}

/// A frontier model is sent its key, and is reached at its own endpoint if one is
/// configured.
pub proof fn frontier_models_get_their_key(c: FrontierModelConfig, key: Seq<char>)
    ensures
        c.provider is Anthropic ==> headers_of(frontier_backend(c, key)).contains(
            ("x-api-key"@, key),
        ),
        !(c.provider is Anthropic) ==> headers_of(frontier_backend(c, key)).contains(
            ("authorization"@, "Bearer "@ + key),
        ),
        c.endpoint matches Some(e) ==> url_of(frontier_backend(c, key)) == endpoint(
            e@,
            if c.provider is Anthropic {
                "/v1/messages"@
            } else {
                "/v1/chat/completions"@
            },
        ),
{
    let h = headers_of(frontier_backend(c, key));
    if c.provider is Anthropic {
        assert(h[0] == ("x-api-key"@, key));
    } else {
        assert(h[0] == ("authorization"@, "Bearer "@ + key));
    }
}

/// A slash at the end of a base URL does not matter. A base URL without one is followed by
/// the path.
pub proof fn slashes_do_not_matter(base: Seq<char>, path: Seq<char>)
    ensures
        endpoint(base.push('/'), path) == endpoint(base, path),
        base.len() > 0 && base.last() != '/' ==> endpoint(base, path) == base + path,
{
    assert(base.push('/').drop_last() =~= base);
}

/// A response of the Anthropic API that arrives with success is the answer, whole.
pub proof fn anthropic_reply_is_answered(
    r: Result<LlmResponse, ExoError>,
    b: anthropic::AnthropicBackend,
    request: LlmRequest,
    status: u16,
    body: String,
    latency_ms: u64,
    view: ReplyView,
)
    requires
        answers_reply(
            r,
            HttpBackend::Anthropic(b),
            request,
            Reply::Arrived { status, body },
            latency_ms,
        ),
        200 <= status < 300,
        parsed(body@) == Ok::<JsonView, Seq<char>>(JsonView::Object(record(reply_parts(view)))),
    ensures
        r matches Ok(a) && anthropic::answers_with(a, view, latency_ms),
{
    anthropic_response_is_read(view);
}

/// A response without success is no answer but an error, which tells the status and the
/// body. What was lost or cannot be read is an error.
pub proof fn failures_are_no_answers(
    r: Result<LlmResponse, ExoError>,
    b: HttpBackend,
    request: LlmRequest,
    reply: Reply,
    latency_ms: u64,
)
    requires
        answers_reply(r, b, request, reply, latency_ms),
        reply matches Reply::Arrived { status, .. } ==> status < 200 || status >= 300,
    ensures
        r matches Err(ExoError::LlmInvocation(m)) && (reply matches Reply::Arrived { status, body }
            ==> m@ == dec(status as nat) + ": "@ + body@),
{
}

/// A server that is overloaded or fails can be asked again, whatever it says.
pub proof fn overload_can_be_retried(status: u16, body: Seq<char>)
    requires
        status == 429 || status == 500 || status == 502 || status == 503 || status == 504,
    ensures
        is_retryable(dec(status as nat) + ": "@ + body),
{
    reveal_strlit("429");
    reveal_strlit("500");
    reveal_strlit("502");
    reveal_strlit("503");
    reveal_strlit("504");
    reveal_with_fuel(dec, 4);
    let code = dec(status as nat);
    assert(dec(429) =~= "429"@);
    assert(dec(500) =~= "500"@);
    assert(dec(502) =~= "502"@);
    assert(dec(503) =~= "503"@);
    assert(dec(504) =~= "504"@);
    start_is_found(code, ": "@ + body);
    assert(code + (": "@ + body) =~= code + ": "@ + body);
}

/// The costs of two calls of one model add up to the cost of all their tokens; a call
/// without tokens costs nothing.
pub proof fn costs_add_up(price_in: nat, price_out: nat, a: u64, b: u64, c: u64, d: u64)
    requires
        a + c <= u64::MAX,
        b + d <= u64::MAX,
    ensures
        cost_at(price_in, price_out, 0, 0) == 0,
        cost_at(price_in, price_out, a, b) + cost_at(price_in, price_out, c, d) == cost_at(
            price_in,
            price_out,
            (a + c) as u64,
            (b + d) as u64,
        ),
        cost_at(price_in, price_out, 1, 0) == price_in,
        cost_at(price_in, price_out, 0, 1) == price_out,
{
    assert(price_in * (a + c) == price_in * a + price_in * c) by (nonlinear_arith);
    assert(price_out * (b + d) == price_out * b + price_out * d) by (nonlinear_arith);
}

/// The length of messages is that of their parts, added up: of a text, of a result, of
/// arguments as JSON text.
pub proof fn lengths_add_up(a: Seq<BlockView>, b: Seq<BlockView>)
    ensures
        blocks_len(a + b) == blocks_len(a) + blocks_len(b),
    decreases b.len(),
{
    if b.len() == 0 {
        assert(a + b =~= a);
    } else {
        lengths_add_up(a, b.drop_last());
        assert((a + b).drop_last() =~= a + b.drop_last());
    }
}

/// A model is charged by its name, and the larger the model the more a token costs.
pub proof fn larger_models_cost_more(model: Seq<char>)
    ensures
        has_text(model, "opus"@) ==> anthropic_prices(model) == (1500nat, 7500nat),
        !has_text(model, "opus"@) && has_text(model, "sonnet"@) ==> anthropic_prices(model) == (
            300nat,
            1500nat,
        ),
        !has_text(model, "opus"@) && !has_text(model, "sonnet"@) && has_text(model, "haiku"@)
            ==> anthropic_prices(model) == (25nat, 125nat),
        anthropic_prices(model).0 < anthropic_prices(model).1,
        has_text(model, "gpt-4o-mini"@) ==> openai_prices(model) == Some((15nat, 60nat)),
        !has_text(model, "gpt-4o-mini"@) && has_text(model, "gpt-4o"@) ==> openai_prices(model)
            == Some((250nat, 1000nat)),
        !has_text(model, "gpt-4"@) && !has_text(model, "gpt-4o"@) && !has_text(
            model,
            "gpt-4o-mini"@,
        ) ==> openai_prices(model) is None,
{
}

/// A stream takes what comes in as the stream of its API does.
pub proof fn each_stream_is_its_own(s: StreamRunView, text: Seq<char>)
    ensures
        match (s, run_fed(s, text).0) {
            (StreamRunView::OpenAi(a), StreamRunView::OpenAi(b)) => (b, run_fed(s, text).1)
                == openai_stream::fed(a, text),
            (StreamRunView::Anthropic(a), StreamRunView::Anthropic(b)) => (b, run_fed(s, text).1)
                == anthropic_stream::fed(a, text),
            _ => false,
        },
{
}

/// What is sent to a server asks for the model of the backend.
pub proof fn body_asks_for_the_model(j: JsonView, b: HttpBackendView, request: LlmRequest)
    requires
        is_body_json(j, b, request),
    ensures
        j.field("model"@) == Some(
            JsonView::Str(
                match b {
                    HttpBackendView::OpenAiCompat { base_url, model, api_key } => model,
                    HttpBackendView::Anthropic { base_url, model, api_key } => model,
                    HttpBackendView::Ollama { base_url, model } => model,
                },
            ),
        ),
{
    match b {
        HttpBackendView::OpenAiCompat { base_url, model, api_key } => {
            let body = choose|body: openai::OpenAiRequest|
                openai::is_body(body, model, request) && j == #[trigger] openai::body_json(body);
            openai_body_holds_everything(body);
        },
        HttpBackendView::Anthropic { base_url, model, api_key } => {
            let body = choose|body: anthropic::AnthropicRequest|
                anthropic::is_body(body, model, request) && j == #[trigger] anthropic::body_json(
                    body,
                );
            anthropic_body_holds_everything(body);
        },
        HttpBackendView::Ollama { base_url, model } => {
            let body = choose|body: ollama::OllamaRequest|
                ollama::is_body(body, model, request) && j == #[trigger] ollama::body_json(body);
            ollama_body_holds_everything(body);
        },
    }
}

/// A stream of which nothing has come in has said nothing, counted nothing, and is not
/// over.
pub proof fn fresh_streams_are_empty(s: StreamRunView)
    requires
        is_fresh(s),
    ensures
        !run_done(s),
        match s {
            StreamRunView::OpenAi(a) => a.content.len() == 0 && a.buffer.len() == 0 && a.tokens_in
                == 0 && a.tokens_out == 0,
            StreamRunView::Anthropic(a) => a.content.len() == 0 && a.buffer.len() == 0
                && a.tokens_in == 0 && a.tokens_out == 0 && a.model is None,
        },
{
}

/// The cost of a response is booked. The counters name the backend.
pub proof fn costs_are_booked(response: LlmResponse)
    ensures
        response.cost_micros matches Some(c) ==> booked_cost(response) == c,
        response.cost_micros is None ==> booked_cost(response) == 0,
        backend_label(LlmBackend::Local) == "local"@,
        backend_label(LlmBackend::Frontier) == "frontier"@,
{
}

/// A call of an Anthropic model costs its tokens at the prices of the model that answered.
pub proof fn anthropic_calls_cost_their_tokens(a: LlmResponse, response: ReplyView, latency_ms: u64)
    requires
        anthropic::answers_with(a, response, latency_ms),
    ensures
        a.cost_micros matches Some(c) && {
            &&& has_text(a.model@, "opus"@) ==> c == 1500 * a.tokens_in + 7500 * a.tokens_out
            &&& !has_text(a.model@, "opus"@) && has_text(a.model@, "sonnet"@) ==> c == 300
                * a.tokens_in + 1500 * a.tokens_out
            &&& !has_text(a.model@, "opus"@) && !has_text(a.model@, "sonnet"@) && has_text(
                a.model@,
                "haiku"@,
            ) ==> c == 25 * a.tokens_in + 125 * a.tokens_out
        },
{
}

/// A streamed call of an Anthropic model costs as much as one that is not streamed, and its
/// latency is left to whoever measures it.
pub proof fn anthropic_streams_cost_their_tokens(
    a: LlmResponse,
    s: AnthropicStreamView,
    backend: anthropic::AnthropicBackend,
)
    requires
        anthropic_stream::concludes(a, s, backend),
    ensures
        a.latency_ms == 0,
        a.cost_micros matches Some(c) && {
            &&& has_text(a.model@, "opus"@) ==> c == 1500 * a.tokens_in + 7500 * a.tokens_out
            &&& !has_text(a.model@, "opus"@) && has_text(a.model@, "sonnet"@) ==> c == 300
                * a.tokens_in + 1500 * a.tokens_out
            &&& !has_text(a.model@, "opus"@) && !has_text(a.model@, "sonnet"@) && has_text(
                a.model@,
                "haiku"@,
            ) ==> c == 25 * a.tokens_in + 125 * a.tokens_out
        },
{
}

/// A call of a model with a key costs its tokens at the prices of the model, if they are
/// known. A model without a key costs nothing that is known.
pub proof fn openai_calls_cost_their_tokens(
    cost: Option<u128>,
    has_key: bool,
    model: Seq<char>,
    tokens_in: u64,
    tokens_out: u64,
)
    requires
        openai::costs(cost, has_key, model, tokens_in, tokens_out),
    ensures
        !has_key ==> cost is None,
        has_key && has_text(model, "gpt-4o-mini"@) ==> (cost matches Some(c) && c == 15 * tokens_in
            + 60 * tokens_out),
        has_key && !has_text(model, "gpt-4o-mini"@) && has_text(model, "gpt-4o"@) ==> (
        cost matches Some(c) && c == 250 * tokens_in + 1000 * tokens_out),
        has_key && !has_text(model, "gpt-4o"@) && !has_text(model, "gpt-4o-mini"@) && has_text(
            model,
            "gpt-4"@,
        ) ==> (cost matches Some(c) && c == 3000 * tokens_in + 6000 * tokens_out),
{
}

/// An answer is charged for the tokens that it counts. Tokens that the server does not
/// count are estimated, four bytes to a token.
pub proof fn openai_tokens_are_charged(
    a: LlmResponse,
    backend: OpenAiCompatBackend,
    request: LlmRequest,
    response: openai::ResponseView,
    latency_ms: u64,
)
    requires
        openai::answers_with(Ok(a), backend, request, response, latency_ms),
    ensures
        openai::costs(
            a.cost_micros,
            backend.api_key is Some,
            backend.model@,
            a.tokens_in,
            a.tokens_out,
        ),
        response.usage is None && request_len(request) <= usize::MAX ==> a.tokens_in == request_len(
            request,
        ) / 4,
        response.usage is None && blocks_len(block_views(a.content_blocks@)) <= usize::MAX
            ==> a.tokens_out == blocks_len(block_views(a.content_blocks@)) / 4,
{
}

/// The same holds of an answer that is streamed.
pub proof fn openai_stream_tokens_are_charged(
    a: LlmResponse,
    s: StreamView,
    backend: OpenAiCompatBackend,
    request: LlmRequest,
)
    requires
        openai_stream::concludes(a, s, backend, request),
    ensures
        a.latency_ms == 0,
        openai::costs(
            a.cost_micros,
            backend.api_key is Some,
            backend.model@,
            a.tokens_in,
            a.tokens_out,
        ),
        s.tokens_in == 0 && s.tokens_out == 0 && request_len(request) <= usize::MAX ==> a.tokens_in
            == request_len(request) / 4,
        s.tokens_in == 0 && s.tokens_out == 0 && byte_len(s.content) <= usize::MAX ==> a.tokens_out
            == byte_len(s.content) / 4,
        a.stop_reason is ToolUse <==> s.finish_reason == Some("tool_calls"@),
        a.stop_reason is StopSequence <==> s.finish_reason == Some("stop_sequence"@),
{
    reveal_strlit("tool_calls");
    reveal_strlit("length");
    reveal_strlit("stop_sequence");
    assert("tool_calls"@.len() == 10);
    assert("length"@.len() == 6);
    assert("stop_sequence"@.len() == 13);
}

/// The length of a request is that of its system prompt and of all its messages.
pub proof fn request_lengths_add_up(a: Seq<LlmMessage>, b: Seq<LlmMessage>, one: LlmMessage)
    ensures
        messages_len(seq![one]) == blocks_len(block_views(one.content@)),
        messages_len(a + b) == messages_len(a) + messages_len(b),
        forall|q: LlmRequest| #[trigger]
            request_len(q) == messages_len(q.messages@) + (match q.system_prompt {
                Some(s) => encode_utf8(s@).len(),
                None => 0,
            }),
    decreases b.len(),
{
    reveal_with_fuel(messages_len, 2);
    assert(seq![one].drop_last() =~= Seq::empty());
    if b.len() == 0 {
        assert(a + b =~= a);
    } else {
        request_lengths_add_up(a, b.drop_last(), one);
        assert((a + b).drop_last() =~= a + b.drop_last());
        assert((a + b).last() == b.last());
    }
}

} // verus!

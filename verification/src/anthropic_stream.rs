//! Streams of the Anthropic messages API.
//!
//! A line names the kind of an event, and a later line holds its data. Chunks need not
//! end with a line; what is said does not depend on between which characters they are
//! cut. The bytes of each chunk are decoded on their own, so a character whose bytes are
//! cut apart is lost.

use vstd::prelude::*;
use vstd::string::*;

use crate::anthropic::{call_cost, stop_reason, stop_reason_of, AnthropicBackend};
use crate::decode::{
    drop_null, field_at, has_full_form, has_record_form, is_full_record, is_record, maybe_text_of,
    not_null, number_of, read_maybe_text, read_number, record_field,
};
use crate::http::estimate_anthropic_cost;
use crate::json::{parse_json, parsed, ref_json, Json, JsonView};
use crate::llm::{block_views, BlockView, LlmBackend, LlmResponse};
use crate::text::{
    behind_prefix, chars_of, find_char, index_of, index_of_is_first, index_of_longer,
    index_of_shift, lossy, lossy_text, opt_text, put_together, str_eq, string_of, strip_prefix,
    texts, trim, trimmed,
};
use crate::types::ContentBlock;

verus! {

/// What an event of a stream tells.
#[derive(Debug, PartialEq, Eq)]
pub enum AnthropicSseEvent {
    /// The beginning of the answer.
    MessageStart { model: Option<String>, input_tokens: Option<u64> },
    /// A piece of the text.
    TextDelta(String),
    /// The end of the text.
    MessageDelta { stop_reason: Option<String>, output_tokens: Option<u64> },
    /// The end of the stream.
    Done,
    /// Nothing.
    Skip,
}

/// The model of what an event tells.
pub enum AnthropicEventView {
    MessageStart { model: Option<Seq<char>>, input_tokens: Option<u64> },
    TextDelta(Seq<char>),
    MessageDelta { stop_reason: Option<Seq<char>>, output_tokens: Option<u64> },
    Done,
    Skip,
}

impl View for AnthropicSseEvent {
    type V = AnthropicEventView;

    open spec fn view(&self) -> AnthropicEventView {
        match self {
            AnthropicSseEvent::MessageStart { model, input_tokens } => {
                AnthropicEventView::MessageStart {
                    model: opt_text(*model),
                    input_tokens: *input_tokens,
                }
            },
            AnthropicSseEvent::TextDelta(t) => AnthropicEventView::TextDelta(t@),
            AnthropicSseEvent::MessageDelta { stop_reason, output_tokens } => {
                AnthropicEventView::MessageDelta {
                    stop_reason: opt_text(*stop_reason),
                    output_tokens: *output_tokens,
                }
            },
            AnthropicSseEvent::Done => AnthropicEventView::Done,
            AnthropicSseEvent::Skip => AnthropicEventView::Skip,
        }
    }
}

// ---------------------------------------------------------------------------
// Events
// ---------------------------------------------------------------------------

/// An optional record of one count, absent if the value is missing or null. Nothing if
/// the value is no such record.
pub open spec fn maybe_count_of(v: Option<JsonView>, key: Seq<char>) -> Option<Option<u64>> {
    match not_null(v) {
        None => Some(None),
        Some(j) => if is_full_record(j, 1) && number_of(field_at(j, key, 0)) is Some {
            Some(number_of(field_at(j, key, 0)))
        } else {
            None
        },
    }
}

/// What the data of a piece of text tells.
pub open spec fn text_event(j: JsonView) -> AnthropicEventView {
    match field_at(j, "delta"@, 0) {
        Some(d) => if is_full_record(j, 1) && is_record(d, 1) {
            match maybe_text_of(field_at(d, "text"@, 0)) {
                Some(Some(t)) => if t.len() > 0 {
                    AnthropicEventView::TextDelta(t)
                } else {
                    AnthropicEventView::Skip
                },
                _ => AnthropicEventView::Skip,
            }
        } else {
            AnthropicEventView::Skip
        },
        None => AnthropicEventView::Skip,
    }
}

/// What the data of the end of the text tells.
pub open spec fn end_event(j: JsonView) -> AnthropicEventView {
    match field_at(j, "delta"@, 0) {
        Some(d) => if is_record(j, 2) && is_record(d, 1) {
            match (
                maybe_text_of(field_at(d, "stop_reason"@, 0)),
                maybe_count_of(field_at(j, "usage"@, 1), "output_tokens"@),
            ) {
                (Some(stop_reason), Some(output_tokens)) => AnthropicEventView::MessageDelta {
                    stop_reason,
                    output_tokens,
                },
                _ => AnthropicEventView::Skip,
            }
        } else {
            AnthropicEventView::Skip
        },
        None => AnthropicEventView::Skip,
    }
}

/// What the data of the beginning of the answer tells.
pub open spec fn start_event(j: JsonView) -> AnthropicEventView {
    match field_at(j, "message"@, 0) {
        Some(m) => if is_full_record(j, 1) && is_record(m, 2) {
            match (
                maybe_text_of(field_at(m, "model"@, 0)),
                maybe_count_of(field_at(m, "usage"@, 1), "input_tokens"@),
            ) {
                (Some(model), Some(input_tokens)) => AnthropicEventView::MessageStart {
                    model,
                    input_tokens,
                },
                _ => AnthropicEventView::Skip,
            }
        } else {
            AnthropicEventView::Skip
        },
        None => AnthropicEventView::Skip,
    }
}

/// What an event tells, by its kind and its data. Data that cannot be read tell nothing.
pub open spec fn event_of(kind: Seq<char>, data: Seq<char>) -> AnthropicEventView {
    if kind == "message_stop"@ {
        AnthropicEventView::Done
    } else {
        match parsed(data) {
            Ok(j) => if kind == "content_block_delta"@ {
                text_event(j)
            } else if kind == "message_delta"@ {
                end_event(j)
            } else if kind == "message_start"@ {
                start_event(j)
            } else {
                AnthropicEventView::Skip
            },
            Err(_) => AnthropicEventView::Skip,
        }
    }
}

fn read_maybe_count(v: Option<&Json>, key: &str) -> (r: Option<Option<u64>>)
    ensures
        r == maybe_count_of(ref_json(v), key@),
{
    match drop_null(v) {
        None => Some(None),
        Some(j) => {
            if !has_full_form(j, 1) {
                return None;
            }
            match read_number(record_field(j, key, 0)) {
                Some(n) => Some(Some(n)),
                None => None,
            }
        },
    }
}

/// Reads what a piece of text tells.
pub fn read_text_event(j: &Json) -> (e: AnthropicSseEvent)
    ensures
        e@ == text_event(j@),
{
    let d = match record_field(j, "delta", 0) {
        Some(d) => d,
        None => {
            return AnthropicSseEvent::Skip;
        },
    };
    if !has_full_form(j, 1) || !has_record_form(d, 1) {
        return AnthropicSseEvent::Skip;
    }
    match read_maybe_text(record_field(d, "text", 0)) {
        Some(Some(t)) => {
            if t.as_str().is_empty() {
                AnthropicSseEvent::Skip
            } else {
                AnthropicSseEvent::TextDelta(t)
            }
        },
        _ => AnthropicSseEvent::Skip,
    }
}

/// Reads what the end of the text tells.
pub fn read_end_event(j: &Json) -> (e: AnthropicSseEvent)
    ensures
        e@ == end_event(j@),
{
    let d = match record_field(j, "delta", 0) {
        Some(d) => d,
        None => {
            return AnthropicSseEvent::Skip;
        },
    };
    if !has_record_form(j, 2) || !has_record_form(d, 1) {
        return AnthropicSseEvent::Skip;
    }
    match (
        read_maybe_text(record_field(d, "stop_reason", 0)),
        read_maybe_count(record_field(j, "usage", 1), "output_tokens"),
    ) {
        (Some(stop_reason), Some(output_tokens)) => AnthropicSseEvent::MessageDelta {
            stop_reason,
            output_tokens,
        },
        _ => AnthropicSseEvent::Skip,
    }
}

/// Reads what the beginning of the answer tells.
pub fn read_start_event(j: &Json) -> (e: AnthropicSseEvent)
    ensures
        e@ == start_event(j@),
{
    let m = match record_field(j, "message", 0) {
        Some(m) => m,
        None => {
            return AnthropicSseEvent::Skip;
        },
    };
    if !has_full_form(j, 1) || !has_record_form(m, 2) {
        return AnthropicSseEvent::Skip;
    }
    match (
        read_maybe_text(record_field(m, "model", 0)),
        read_maybe_count(record_field(m, "usage", 1), "input_tokens"),
    ) {
        (Some(model), Some(input_tokens)) => AnthropicSseEvent::MessageStart {
            model,
            input_tokens,
        },
        _ => AnthropicSseEvent::Skip,
    }
}

/// Reads what an event of a stream tells.
pub fn parse_anthropic_sse_event(event_type: &str, data: &str) -> (e: AnthropicSseEvent)
    ensures
        e@ == event_of(event_type@, data@),
{
    if str_eq(event_type, "message_stop") {
        return AnthropicSseEvent::Done;
    }
    let j = match parse_json(data) {
        Ok(j) => j,
        Err(_) => {
            return AnthropicSseEvent::Skip;
        },
    };
    if str_eq(event_type, "content_block_delta") {
        read_text_event(&j)
    } else if str_eq(event_type, "message_delta") {
        read_end_event(&j)
    } else if str_eq(event_type, "message_start") {
        read_start_event(&j)
    } else {
        AnthropicSseEvent::Skip
    }
}

// ---------------------------------------------------------------------------
// The stream
// ---------------------------------------------------------------------------

/// A stream in progress.
#[derive(Debug)]
pub struct AnthropicStream {
    /// What came in behind the last complete line.
    pub buffer: String,
    /// The kind of the event whose data come next. It is empty if there is none.
    pub event_type: String,
    pub content: String,
    pub stop_reason: Option<String>,
    pub model: Option<String>,
    pub tokens_in: u64,
    pub tokens_out: u64,
    /// The end of the stream has come.
    pub done: bool,
}

/// The model of a stream.
pub struct AnthropicStreamView {
    pub buffer: Seq<char>,
    pub event_type: Seq<char>,
    pub content: Seq<char>,
    pub stop_reason: Option<Seq<char>>,
    pub model: Option<Seq<char>>,
    pub tokens_in: u64,
    pub tokens_out: u64,
    pub done: bool,
}

impl View for AnthropicStream {
    type V = AnthropicStreamView;

    open spec fn view(&self) -> AnthropicStreamView {
        AnthropicStreamView {
            buffer: self.buffer@,
            event_type: self.event_type@,
            content: self.content@,
            stop_reason: opt_text(self.stop_reason),
            model: opt_text(self.model),
            tokens_in: self.tokens_in,
            tokens_out: self.tokens_out,
            done: self.done,
        }
    }
}

/// The stream after an event, and the pieces of text that came in. The kind of the
/// next event is unknown again, except at the end of the stream.
pub open spec fn after_event(
    s: AnthropicStreamView,
    said: Seq<Seq<char>>,
    e: AnthropicEventView,
) -> (AnthropicStreamView, Seq<Seq<char>>) {
    let next = AnthropicStreamView { event_type: Seq::empty(), ..s };
    match e {
        AnthropicEventView::MessageStart { model, input_tokens } => (
            AnthropicStreamView {
                model,
                tokens_in: match input_tokens {
                    Some(n) => n,
                    None => s.tokens_in,
                },
                ..next
            },
            said,
        ),
        AnthropicEventView::TextDelta(t) => (
            AnthropicStreamView { content: s.content + t, ..next },
            said.push(t),
        ),
        AnthropicEventView::MessageDelta { stop_reason, output_tokens } => (
            AnthropicStreamView {
                stop_reason,
                tokens_out: match output_tokens {
                    Some(n) => n,
                    None => s.tokens_out,
                },
                ..next
            },
            said,
        ),
        AnthropicEventView::Done => (AnthropicStreamView { done: true, ..s }, said),
        AnthropicEventView::Skip => (next, said),
    }
}

/// The stream after a line, and the pieces of text that came in. A line names the kind
/// of an event, holds its data, or tells nothing.
pub open spec fn after_line(
    s: AnthropicStreamView,
    said: Seq<Seq<char>>,
    line: Seq<char>,
) -> (AnthropicStreamView, Seq<Seq<char>>) {
    let l = trimmed(line);
    match behind_prefix(l, "event: "@) {
        Some(kind) => (AnthropicStreamView { event_type: trimmed(kind), ..s }, said),
        None => match behind_prefix(l, "data: "@) {
            Some(data) => after_event(s, said, event_of(s.event_type, trimmed(data))),
            None => (s, said),
        },
    }
}

/// The stream when all complete lines in its buffer have been read, up to the end of
/// the stream.
pub open spec fn drained(
    s: AnthropicStreamView,
    said: Seq<Seq<char>>,
) -> (AnthropicStreamView, Seq<Seq<char>>)
    decreases s.buffer.len(),
{
    match index_of(s.buffer, '\n', 0) {
        Some(i) => if 0 <= i < s.buffer.len() && !s.done {
            let line = s.buffer.subrange(0, i);
            let rest = s.buffer.subrange(i + 1, s.buffer.len() as int);
            let next = after_line(AnthropicStreamView { buffer: rest, ..s }, said, line);
            drained(next.0, next.1)
        } else {
            (s, said)
        },
        None => (s, said),
    }
}

/// The stream when more text has come in, and the pieces of text in it.
pub open spec fn fed(
    s: AnthropicStreamView,
    text: Seq<char>,
) -> (AnthropicStreamView, Seq<Seq<char>>) {
    drained(AnthropicStreamView { buffer: s.buffer + text, ..s }, Seq::empty())
}

impl AnthropicStream {
    /// A stream of which nothing has come in.
    pub fn new() -> (s: AnthropicStream)
        ensures
            s@ == (AnthropicStreamView {
                buffer: Seq::empty(),
                event_type: Seq::empty(),
                content: Seq::empty(),
                stop_reason: None,
                model: None,
                tokens_in: 0,
                tokens_out: 0,
                done: false,
            }),
    {
        AnthropicStream {
            buffer: String::new(),
            event_type: String::new(),
            content: String::new(),
            stop_reason: None,
            model: None,
            tokens_in: 0,
            tokens_out: 0,
            done: false,
        }
    }

    /// Takes an event. Adds the piece of text in it, if there is one.
    fn take_event(&mut self, event: AnthropicSseEvent, said: &mut Vec<String>)
        ensures
            (final(self)@, texts(final(said)@)) == after_event(
                old(self)@,
                texts(old(said)@),
                event@,
            ),
    {
        let ghost before = said@;
        match event {
            AnthropicSseEvent::MessageStart { model, input_tokens } => {
                self.model = model;
                match input_tokens {
                    Some(n) => {
                        self.tokens_in = n;
                    },
                    None => {},
                }
            },
            AnthropicSseEvent::TextDelta(t) => {
                self.content.append(t.as_str());
                said.push(t);
                assert(texts(said@) =~= texts(before).push(t@));
            },
            AnthropicSseEvent::MessageDelta { stop_reason, output_tokens } => {
                self.stop_reason = stop_reason;
                match output_tokens {
                    Some(n) => {
                        self.tokens_out = n;
                    },
                    None => {},
                }
            },
            AnthropicSseEvent::Done => {
                self.done = true;
                return;
            },
            AnthropicSseEvent::Skip => {},
        }
        self.event_type = String::new();
    }

    /// Takes a line. Adds the piece of text in it, if there is one.
    fn take_line(&mut self, line: &str, said: &mut Vec<String>)
        ensures
            (final(self)@, texts(final(said)@)) == after_line(
                old(self)@,
                texts(old(said)@),
                line@,
            ),
    {
        let l = trim(line);
        match strip_prefix(l.as_str(), "event: ") {
            Some(kind) => {
                self.event_type = trim(kind.as_str());
                return;
            },
            None => {},
        }
        match strip_prefix(l.as_str(), "data: ") {
            Some(data) => {
                let e = parse_anthropic_sse_event(
                    self.event_type.as_str(),
                    trim(data.as_str()).as_str(),
                );
                self.take_event(e, said);
            },
            None => {},
        }
    }

    /// Takes more text. Returns the pieces of the answer in it.
    pub fn feed_text(&mut self, text: &str) -> (said: Vec<String>)
        ensures
            (final(self)@, texts(said@)) == fed(old(self)@, text@),
    {
        let mut said: Vec<String> = Vec::new();
        let ghost start = AnthropicStreamView { buffer: self@.buffer + text@, ..self@ };
        self.buffer.append(text);
        let v = chars_of(self.buffer.as_str());
        let mut pos: usize = 0;
        assert(texts(said@) =~= Seq::<Seq<char>>::empty());
        assert(v@.subrange(0, v@.len() as int) =~= v@);
        while !self.done
            invariant
                pos <= v@.len(),
                drained(start, Seq::empty()) == drained(
                    AnthropicStreamView {
                        buffer: v@.subrange(pos as int, v@.len() as int),
                        ..self@
                    },
                    texts(said@),
                ),
            ensures
                pos <= v@.len(),
                drained(start, Seq::empty()) == (
                    AnthropicStreamView {
                        buffer: v@.subrange(pos as int, v@.len() as int),
                        ..self@
                    },
                    texts(said@),
                ),
            decreases v@.len() - pos,
        {
            let ghost rest = v@.subrange(pos as int, v@.len() as int);
            proof {
                index_of_shift(v@, '\n', pos as int, 0);
                index_of_is_first(rest, '\n', 0);
            }
            match find_char(&v, '\n', pos) {
                None => {
                    break;
                },
                Some(i) => {
                    let line = string_of(&v, pos, i);
                    let ghost before = self@;
                    let ghost words = texts(said@);
                    assert(rest.subrange(0, i - pos) =~= line@);
                    assert(rest.subrange(i - pos + 1, rest.len() as int) =~= v@.subrange(
                        i + 1,
                        v@.len() as int,
                    ));
                    self.take_line(line.as_str(), &mut said);
                    proof {
                        let next = v@.subrange(i + 1, v@.len() as int);
                        let a = after_line(
                            AnthropicStreamView { buffer: next, ..before },
                            words,
                            line@,
                        );
                        assert(a.0 == (AnthropicStreamView { buffer: next, ..self@ }));
                        assert(a.1 == texts(said@));
                    }
                    assert(i < v.len());
                    pos = i + 1;
                },
            }
        }
        self.buffer = string_of(&v, pos, v.len());
        said
    }

    /// Takes a chunk of bytes. Returns the pieces of the answer in it.
    pub fn feed(&mut self, chunk: &Vec<u8>) -> (said: Vec<String>)
        ensures
            (final(self)@, texts(said@)) == fed(old(self)@, lossy(chunk@)),
    {
        let text = lossy_text(chunk);
        self.feed_text(text.as_str())
    }
}

// ---------------------------------------------------------------------------
// The end of the stream
// ---------------------------------------------------------------------------

/// The model that answered: as the stream names it, or else as it was asked for.
pub open spec fn answering_model(s: AnthropicStreamView, backend: AnthropicBackend) -> Seq<char> {
    match s.model {
        Some(m) => m,
        None => backend.model@,
    }
}

/// `r` is the answer that a stream amounts to.
pub open spec fn concludes(
    r: LlmResponse,
    s: AnthropicStreamView,
    backend: AnthropicBackend,
) -> bool {
    &&& block_views(r.content_blocks@) == seq![BlockView::Text { text: s.content }]
    &&& r.model@ == answering_model(s, backend)
    &&& r.tokens_in == s.tokens_in
    &&& r.tokens_out == s.tokens_out
    &&& r.latency_ms == 0
    &&& r.stop_reason == stop_reason_of(s.stop_reason)
    &&& r.cost_micros matches Some(c) && c == call_cost(
        answering_model(s, backend),
        s.tokens_in,
        s.tokens_out,
    )
    &&& r.backend == LlmBackend::Frontier
}

impl AnthropicBackend {
    /// Turns a stream that has come in into the answer of the backend.
    pub fn conclude_stream(&self, stream: AnthropicStream) -> (r: LlmResponse)
        ensures
            concludes(r, stream@, *self),
    {
        let ghost view = stream@;
        let reason = stop_reason(&stream.stop_reason);
        let model = match stream.model {
            Some(m) => m,
            None => self.model.clone(),
        };
        let cost: u128 = estimate_anthropic_cost(
            model.as_str(),
            stream.tokens_in,
            stream.tokens_out,
        );
        let content_blocks = vec![ContentBlock::Text { text: stream.content }];
        assert(block_views(content_blocks@) =~= seq![BlockView::Text { text: view.content }]);
        LlmResponse {
            content_blocks,
            model,
            tokens_in: stream.tokens_in,
            tokens_out: stream.tokens_out,
            latency_ms: 0,
            stop_reason: reason,
            cost_micros: Some(cost),
            backend: LlmBackend::Frontier,
        }
    }
}

// ---------------------------------------------------------------------------
// Laws
// ---------------------------------------------------------------------------

proof fn line_content(s: AnthropicStreamView, said: Seq<Seq<char>>, line: Seq<char>, start: Seq<char>)
    requires
        s.content == start + put_together(said),
    ensures
        ({
            let next = after_line(s, said, line);
            next.0.content == start + put_together(next.1)
        }),
{
    let l = trimmed(line);
    match behind_prefix(l, "data: "@) {
        Some(data) => {
            match event_of(s.event_type, trimmed(data)) {
                AnthropicEventView::TextDelta(t) => {
                    assert(said.push(t).drop_last() =~= said);
                    assert(start + put_together(said) + t =~= start + put_together(said.push(t)));
                },
                _ => {},
            }
        },
        None => {},
    }
}

proof fn drained_content(s: AnthropicStreamView, said: Seq<Seq<char>>, start: Seq<char>)
    requires
        s.content == start + put_together(said),
    ensures
        drained(s, said).0.content == start + put_together(drained(s, said).1),
    decreases s.buffer.len(),
{
    match index_of(s.buffer, '\n', 0) {
        Some(i) => {
            if 0 <= i < s.buffer.len() && !s.done {
                let line = s.buffer.subrange(0, i);
                let rest = s.buffer.subrange(i + 1, s.buffer.len() as int);
                let cut = AnthropicStreamView { buffer: rest, ..s };
                line_content(cut, said, line, start);
                let next = after_line(cut, said, line);
                drained_content(next.0, next.1, start);
            }
        },
        None => {},
    }
}

/// The text of the answer is what the pieces make when they are put together:
/// nothing is lost and nothing is added.
pub proof fn pieces_make_the_answer(s: AnthropicStreamView, text: Seq<char>)
    ensures
        fed(s, text).0.content == s.content + put_together(fed(s, text).1),
{
    let start = AnthropicStreamView { buffer: s.buffer + text, ..s };
    assert(s.content + put_together(Seq::<Seq<char>>::empty()) =~= s.content);
    drained_content(start, Seq::empty(), s.content);
}

proof fn line_keeps_buffer(
    s: AnthropicStreamView,
    said: Seq<Seq<char>>,
    line: Seq<char>,
    other: Seq<char>,
)
    ensures
        after_line(s, said, line).0.buffer == s.buffer,
        after_line(AnthropicStreamView { buffer: other, ..s }, said, line) == (
            AnthropicStreamView { buffer: other, ..after_line(s, said, line).0 },
            after_line(s, said, line).1,
        ),
{
}

proof fn drained_in_two(s: AnthropicStreamView, said: Seq<Seq<char>>, more: Seq<char>)
    requires
        !drained(s, said).0.done,
    ensures
        drained(AnthropicStreamView { buffer: s.buffer + more, ..s }, said) == ({
            let first = drained(s, said);
            drained(AnthropicStreamView { buffer: first.0.buffer + more, ..first.0 }, first.1)
        }),
    decreases s.buffer.len(),
{
    let long = AnthropicStreamView { buffer: s.buffer + more, ..s };
    match index_of(s.buffer, '\n', 0) {
        Some(i) => {
            index_of_is_first(s.buffer, '\n', 0);
            if !s.done {
                index_of_longer(s.buffer, more, '\n', 0);
                let line = s.buffer.subrange(0, i);
                let rest = s.buffer.subrange(i + 1, s.buffer.len() as int);
                let cut = AnthropicStreamView { buffer: rest, ..s };
                let next = after_line(cut, said, line);
                line_keeps_buffer(cut, said, line, rest + more);
                assert(long.buffer.subrange(0, i) =~= line);
                assert(long.buffer.subrange(i + 1, long.buffer.len() as int) =~= rest + more);
                drained_in_two(next.0, next.1, more);
            }
        },
        None => {},
    }
}

proof fn drained_prefix(
    s: AnthropicStreamView,
    said: Seq<Seq<char>>,
    earlier: Seq<Seq<char>>,
)
    ensures
        drained(s, earlier + said).0 == drained(s, said).0,
        drained(s, earlier + said).1 == earlier + drained(s, said).1,
    decreases s.buffer.len(),
{
    match index_of(s.buffer, '\n', 0) {
        Some(i) => {
            if 0 <= i < s.buffer.len() && !s.done {
                let line = s.buffer.subrange(0, i);
                let rest = s.buffer.subrange(i + 1, s.buffer.len() as int);
                let cut = AnthropicStreamView { buffer: rest, ..s };
                let next = after_line(cut, said, line);
                let l = trimmed(line);
                match behind_prefix(l, "data: "@) {
                    Some(data) => {
                        match event_of(s.event_type, trimmed(data)) {
                            AnthropicEventView::TextDelta(t) => {
                                assert((earlier + said).push(t) =~= earlier + said.push(t));
                            },
                            _ => {},
                        }
                    },
                    None => {},
                }
                drained_prefix(next.0, next.1, earlier);
            }
        },
        None => {},
    }
}

/// It does not matter where a stream is cut: taking a text in two parts leads to the
/// same stream, and to the same pieces, as taking it at once. (Once the end of the
/// stream has come, nothing more is taken.)
pub proof fn cuts_do_not_matter(s: AnthropicStreamView, a: Seq<char>, b: Seq<char>)
    requires
        !fed(s, a).0.done,
    ensures
        fed(s, a + b).0 == fed(fed(s, a).0, b).0,
        fed(s, a + b).1 == fed(s, a).1 + fed(fed(s, a).0, b).1,
{
    let start = AnthropicStreamView { buffer: s.buffer + a, ..s };
    drained_in_two(start, Seq::empty(), b);
    assert(s.buffer + (a + b) =~= s.buffer + a + b);
    let first = fed(s, a);
    let second = AnthropicStreamView { buffer: first.0.buffer + b, ..first.0 };
    drained_prefix(second, Seq::empty(), first.1);
    assert(first.1 + Seq::<Seq<char>>::empty() =~= first.1);
}

} // verus!

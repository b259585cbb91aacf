//! Streams of the OpenAI chat completions API.
//!
//! A stream is a sequence of lines. It comes in chunks that need not end with a line;
//! what is said does not depend on between which characters the chunks are cut. The
//! bytes of each chunk are decoded on their own, so a character whose bytes are cut apart
//! is lost.

use vstd::prelude::*;
use vstd::string::*;

use crate::decode::{
    field_at, has_record_form, is_record, maybe_text_of, read_maybe_text, record_field,
};
use crate::http::{request_len, request_text_len};
use crate::json::{parse_json, parsed, views, Json, JsonView};
use crate::llm::{block_views, BlockView, LlmRequest, LlmResponse};
use crate::openai::{
    backend_of, costs, estimated_tokens, maybe_usage_of, read_usage, stop_reason, stop_reason_of,
    OpenAiCompatBackend, OpenAiUsage,
};
use crate::text::{
    begins_with, behind_prefix, byte_len, chars_of, find_char, index_of, index_of_is_first,
    index_of_longer, index_of_shift, lossy, lossy_text, opt_text, put_together, starts_with,
    str_eq, string_of, strip_prefix, texts, trim, trimmed,
};
use crate::types::ContentBlock;

verus! {

/// What a line of a stream tells.
#[derive(Debug, PartialEq, Eq)]
pub enum OpenAiSseEvent {
    /// A piece of the text.
    Delta(String),
    /// The end of the text, or the usage.
    Final {
        finish_reason: Option<String>,
        prompt_tokens: Option<u64>,
        completion_tokens: Option<u64>,
    },
    /// The end of the stream.
    Done,
    /// Nothing.
    Skip,
}

/// The model of what a line tells.
pub enum EventView {
    Delta(Seq<char>),
    Final {
        finish_reason: Option<Seq<char>>,
        prompt_tokens: Option<u64>,
        completion_tokens: Option<u64>,
    },
    Done,
    Skip,
}

impl View for OpenAiSseEvent {
    type V = EventView;

    open spec fn view(&self) -> EventView {
        match self {
            OpenAiSseEvent::Delta(t) => EventView::Delta(t@),
            OpenAiSseEvent::Final { finish_reason, prompt_tokens, completion_tokens } => {
                EventView::Final {
                    finish_reason: opt_text(*finish_reason),
                    prompt_tokens: *prompt_tokens,
                    completion_tokens: *completion_tokens,
                }
            },
            OpenAiSseEvent::Done => EventView::Done,
            OpenAiSseEvent::Skip => EventView::Skip,
        }
    }
}

// ---------------------------------------------------------------------------
// Lines
// ---------------------------------------------------------------------------

/// The text and the end of an answer in a chunk: nothing if the value describes none.
pub open spec fn piece_of(j: JsonView) -> Option<(Option<Seq<char>>, Option<Seq<char>>)> {
    let reason = maybe_text_of(field_at(j, "finish_reason"@, 1));
    let content = match field_at(j, "delta"@, 0) {
        None => Some(None),
        Some(d) => if is_record(d, 1) {
            maybe_text_of(field_at(d, "content"@, 0))
        } else {
            None
        },
    };
    if is_record(j, 2) && reason is Some && content is Some {
        Some((content->Some_0, reason->Some_0))
    } else {
        None
    }
}

/// Every item describes a piece of an answer.
pub open spec fn all_pieces(items: Seq<JsonView>) -> bool {
    forall|i: int| 0 <= i < items.len() ==> piece_of(#[trigger] items[i]) is Some
}

/// What a piece tells, together with the usage.
pub open spec fn piece_event(
    piece: (Option<Seq<char>>, Option<Seq<char>>),
    usage: Option<OpenAiUsage>,
) -> EventView {
    if piece.0 is Some && piece.0->Some_0.len() > 0 {
        EventView::Delta(piece.0->Some_0)
    } else if piece.1 is Some || usage is Some {
        EventView::Final {
            finish_reason: piece.1,
            prompt_tokens: match usage {
                Some(u) => Some(u.prompt_tokens),
                None => None,
            },
            completion_tokens: match usage {
                Some(u) => Some(u.completion_tokens),
                None => None,
            },
        }
    } else {
        EventView::Skip
    }
}

/// What a chunk tells. A value that is no chunk tells nothing.
pub open spec fn chunk_event(j: JsonView) -> EventView {
    let usage = maybe_usage_of(field_at(j, "usage"@, 1));
    match field_at(j, "choices"@, 0) {
        Some(JsonView::Array(items)) => if is_record(j, 2) && all_pieces(items) && usage is Some
            && items.len() > 0 {
            piece_event(piece_of(items[0])->Some_0, usage->Some_0)
        } else {
            EventView::Skip
        },
        _ => EventView::Skip,
    }
}

/// What a line tells.
pub open spec fn line_event(line: Seq<char>) -> EventView {
    let l = trimmed(line);
    match behind_prefix(l, "data:"@) {
        Some(rest) => {
            let data = trimmed(rest);
            if begins_with(l, ":"@) {
                EventView::Skip
            } else if data == "[DONE]"@ {
                EventView::Done
            } else {
                match parsed(data) {
                    Ok(j) => chunk_event(j),
                    Err(_) => EventView::Skip,
                }
            }
        },
        None => EventView::Skip,
    }
}

fn read_piece(j: &Json) -> (r: Option<(Option<String>, Option<String>)>)
    ensures
        match r {
            Some(p) => piece_of(j@) == Some((opt_text(p.0), opt_text(p.1))),
            None => piece_of(j@) is None,
        },
{
    if !has_record_form(j, 2) {
        return None;
    }
    let content = match record_field(j, "delta", 0) {
        None => Some(None),
        Some(d) => if has_record_form(d, 1) {
            read_maybe_text(record_field(d, "content", 0))
        } else {
            None
        },
    };
    match (content, read_maybe_text(record_field(j, "finish_reason", 1))) {
        (Some(c), Some(f)) => Some((c, f)),
        _ => None,
    }
}

/// Reads what a chunk tells.
pub fn read_chunk(j: &Json) -> (e: OpenAiSseEvent)
    ensures
        e@ == chunk_event(j@),
{
    let items = match record_field(j, "choices", 0) {
        Some(list) => match list.as_array() {
            Some(items) => items,
            None => {
                return OpenAiSseEvent::Skip;
            },
        },
        None => {
            return OpenAiSseEvent::Skip;
        },
    };
    if !has_record_form(j, 2) {
        return OpenAiSseEvent::Skip;
    }
    let ghost all = views(items@);
    let mut first: Option<(Option<String>, Option<String>)> = None;
    let mut i: usize = 0;
    while i < items.len()
        invariant
            all == views(items@),
            field_at(j@, "choices"@, 0) == Some(JsonView::Array(all)),
            i <= items@.len(),
            forall|k: int| 0 <= k < i ==> piece_of(#[trigger] all[k]) is Some,
            i == 0 ==> first is None,
            i > 0 ==> (first matches Some(p) && piece_of(all[0]) == Some(
                (opt_text(p.0), opt_text(p.1)),
            )),
        decreases items@.len() - i,
    {
        assert(all[i as int] == items@[i as int]@);
        match read_piece(&items[i]) {
            Some(p) => {
                if i == 0 {
                    first = Some(p);
                }
            },
            None => {
                assert(i < all.len() && piece_of(all[i as int]) is None);
                return OpenAiSseEvent::Skip;
            },
        }
        i = i + 1;
    }
    assert(all.len() == items@.len());
    let usage = match read_usage(record_field(j, "usage", 1)) {
        Some(u) => u,
        None => {
            return OpenAiSseEvent::Skip;
        },
    };
    let (content, finish_reason) = match first {
        Some(p) => p,
        None => {
            return OpenAiSseEvent::Skip;
        },
    };
    match content {
        Some(t) => {
            if !t.as_str().is_empty() {
                return OpenAiSseEvent::Delta(t);
            }
        },
        None => {},
    }
    if finish_reason.is_some() || usage.is_some() {
        let (prompt_tokens, completion_tokens): (Option<u64>, Option<u64>) = match usage {
            Some(u) => (Some(u.prompt_tokens), Some(u.completion_tokens)),
            None => (None, None),
        };
        return OpenAiSseEvent::Final { finish_reason, prompt_tokens, completion_tokens };
    }
    OpenAiSseEvent::Skip
}

/// Reads what a line of a stream tells.
pub fn parse_openai_sse_line(line: &str) -> (e: OpenAiSseEvent)
    ensures
        e@ == line_event(line@),
{
    let l = trim(line);
    if starts_with(l.as_str(), ":") {
        return OpenAiSseEvent::Skip;
    }
    let data = match strip_prefix(l.as_str(), "data:") {
        Some(rest) => trim(rest.as_str()),
        None => {
            return OpenAiSseEvent::Skip;
        },
    };
    if str_eq(data.as_str(), "[DONE]") {
        return OpenAiSseEvent::Done;
    }
    match parse_json(data.as_str()) {
        Ok(j) => read_chunk(&j),
        Err(_) => OpenAiSseEvent::Skip,
    }
}

// ---------------------------------------------------------------------------
// The stream
// ---------------------------------------------------------------------------

/// A stream in progress.
#[derive(Debug)]
pub struct OpenAiStream {
    /// What came in behind the last complete line.
    pub buffer: String,
    pub content: String,
    pub finish_reason: Option<String>,
    pub tokens_in: u64,
    pub tokens_out: u64,
    /// The end of the stream has come.
    pub done: bool,
}

/// The model of a stream.
pub struct StreamView {
    pub buffer: Seq<char>,
    pub content: Seq<char>,
    pub finish_reason: Option<Seq<char>>,
    pub tokens_in: u64,
    pub tokens_out: u64,
    pub done: bool,
}

impl View for OpenAiStream {
    type V = StreamView;

    open spec fn view(&self) -> StreamView {
        StreamView {
            buffer: self.buffer@,
            content: self.content@,
            finish_reason: opt_text(self.finish_reason),
            tokens_in: self.tokens_in,
            tokens_out: self.tokens_out,
            done: self.done,
        }
    }
}

/// The stream after what a line tells, and the pieces of text that came in.
pub open spec fn after_event(
    s: StreamView,
    said: Seq<Seq<char>>,
    e: EventView,
) -> (StreamView, Seq<Seq<char>>) {
    match e {
        EventView::Delta(t) => (StreamView { content: s.content + t, ..s }, said.push(t)),
        EventView::Final { finish_reason, prompt_tokens, completion_tokens } => (
            StreamView {
                finish_reason,
                tokens_in: match prompt_tokens {
                    Some(n) => n,
                    None => s.tokens_in,
                },
                tokens_out: match completion_tokens {
                    Some(n) => n,
                    None => s.tokens_out,
                },
                ..s
            },
            said,
        ),
        EventView::Done => (StreamView { done: true, ..s }, said),
        EventView::Skip => (s, said),
    }
}

/// The stream when all complete lines in its buffer have been read, up to the end of
/// the stream.
pub open spec fn drained(s: StreamView, said: Seq<Seq<char>>) -> (StreamView, Seq<Seq<char>>)
    decreases s.buffer.len(),
{
    match index_of(s.buffer, '\n', 0) {
        Some(i) => if 0 <= i < s.buffer.len() && !s.done {
            let line = s.buffer.subrange(0, i);
            let rest = s.buffer.subrange(i + 1, s.buffer.len() as int);
            let next = after_event(StreamView { buffer: rest, ..s }, said, line_event(line));
            drained(next.0, next.1)
        } else {
            (s, said)
        },
        None => (s, said),
    }
}

/// The stream when more text has come in, and the pieces of text in it.
pub open spec fn fed(s: StreamView, text: Seq<char>) -> (StreamView, Seq<Seq<char>>) {
    drained(StreamView { buffer: s.buffer + text, ..s }, Seq::empty())
}

impl OpenAiStream {
    /// A stream of which nothing has come in.
    pub fn new() -> (s: OpenAiStream)
        ensures
            s@ == (StreamView {
                buffer: Seq::empty(),
                content: Seq::empty(),
                finish_reason: None,
                tokens_in: 0,
                tokens_out: 0,
                done: false,
            }),
    {
        OpenAiStream {
            buffer: String::new(),
            content: String::new(),
            finish_reason: None,
            tokens_in: 0,
            tokens_out: 0,
            done: false,
        }
    }

    /// Takes a line. Returns the piece of text in it, if there is one.
    fn take_line(&mut self, line: &str, said: &mut Vec<String>)
        ensures
            (final(self)@, texts(final(said)@)) == after_event(
                old(self)@,
                texts(old(said)@),
                line_event(line@),
            ),
    {
        let ghost before = said@;
        match parse_openai_sse_line(line) {
            OpenAiSseEvent::Delta(t) => {
                self.content.append(t.as_str());
                said.push(t);
                assert(texts(said@) =~= texts(before).push(t@));
            },
            OpenAiSseEvent::Final { finish_reason, prompt_tokens, completion_tokens } => {
                self.finish_reason = finish_reason;
                match prompt_tokens {
                    Some(n) => {
                        self.tokens_in = n;
                    },
                    None => {},
                }
                match completion_tokens {
                    Some(n) => {
                        self.tokens_out = n;
                    },
                    None => {},
                }
            },
            OpenAiSseEvent::Done => {
                self.done = true;
            },
            OpenAiSseEvent::Skip => {},
        }
    }

    /// Takes more text. Returns the pieces of the answer in it.
    pub fn feed_text(&mut self, text: &str) -> (said: Vec<String>)
        ensures
            (final(self)@, texts(said@)) == fed(old(self)@, text@),
    {
        let mut said: Vec<String> = Vec::new();
        let ghost start = StreamView { buffer: self@.buffer + text@, ..self@ };
        self.buffer.append(text);
        let v = chars_of(self.buffer.as_str());
        let mut pos: usize = 0;
        assert(texts(said@) =~= Seq::<Seq<char>>::empty());
        assert(v@.subrange(0, v@.len() as int) =~= v@);
        while !self.done
            invariant
                pos <= v@.len(),
                drained(start, Seq::empty()) == drained(
                    StreamView { buffer: v@.subrange(pos as int, v@.len() as int), ..self@ },
                    texts(said@),
                ),
            ensures
                pos <= v@.len(),
                drained(start, Seq::empty()) == (
                    StreamView { buffer: v@.subrange(pos as int, v@.len() as int), ..self@ },
                    texts(said@),
                ),
            decreases v@.len() - pos,
        {
            let ghost rest = v@.subrange(pos as int, v@.len() as int);
            proof {
                index_of_shift(v@, '\n', pos as int, 0);
                index_of_is_first(rest, '\n', 0);
            }
            match find_char(&v, '\n', pos) {
                None => {
                    break;
                },
                Some(i) => {
                    let line = string_of(&v, pos, i);
                    let ghost before = self@;
                    let ghost words = texts(said@);
                    assert(rest.subrange(0, i - pos) =~= line@);
                    assert(rest.subrange(i - pos + 1, rest.len() as int) =~= v@.subrange(
                        i + 1,
                        v@.len() as int,
                    ));
                    self.take_line(line.as_str(), &mut said);
                    proof {
                        let next = v@.subrange(i + 1, v@.len() as int);
                        let a = after_event(
                            StreamView { buffer: next, ..before },
                            words,
                            line_event(line@),
                        );
                        assert(a.0 == (StreamView { buffer: next, ..self@ }));
                        assert(a.1 == texts(said@));
                    }
                    assert(i < v.len());
                    pos = i + 1;
                },
            }
        }
        self.buffer = string_of(&v, pos, v.len());
        said
    }

    /// Takes a chunk of bytes. Returns the pieces of the answer in it.
    pub fn feed(&mut self, chunk: &Vec<u8>) -> (said: Vec<String>)
        ensures
            (final(self)@, texts(said@)) == fed(old(self)@, lossy(chunk@)),
    {
        let text = lossy_text(chunk);
        self.feed_text(text.as_str())
    }
}

// ---------------------------------------------------------------------------
// The end of the stream
// ---------------------------------------------------------------------------

/// The tokens of a streamed call: as reported, or else as estimated.
pub open spec fn stream_tokens(s: StreamView, request: LlmRequest) -> (u64, u64) {
    if s.tokens_in == 0 && s.tokens_out == 0 {
        (estimated_tokens(request_len(request)), (byte_len(s.content) / 4) as u64)
    } else {
        (s.tokens_in, s.tokens_out)
    }
}

/// `r` is the answer that a stream amounts to.
pub open spec fn concludes(
    r: LlmResponse,
    s: StreamView,
    backend: OpenAiCompatBackend,
    request: LlmRequest,
) -> bool {
    let tokens = stream_tokens(s, request);
    &&& block_views(r.content_blocks@) == seq![BlockView::Text { text: s.content }]
    &&& r.model == backend.model
    &&& r.tokens_in == tokens.0
    &&& r.tokens_out == tokens.1
    &&& r.latency_ms == 0
    &&& r.stop_reason == stop_reason_of(s.finish_reason)
    &&& costs(r.cost_micros, backend.api_key is Some, backend.model@, tokens.0, tokens.1)
    &&& r.backend == backend_of(backend.api_key is Some)
}

impl OpenAiCompatBackend {
    /// Turns a stream that has come in into the answer of the backend.
    pub fn conclude_stream(&self, request: &LlmRequest, stream: OpenAiStream) -> (r: LlmResponse)
        ensures
            concludes(r, stream@, *self, *request),
    {
        let reason = stop_reason(&stream.finish_reason);
        let mut tokens_in: u64 = stream.tokens_in;
        let mut tokens_out: u64 = stream.tokens_out;
        if tokens_in == 0 && tokens_out == 0 {
            let bytes_in: usize = request_text_len(request);
            tokens_in = (bytes_in / 4) as u64;
            let bytes_out: usize = stream.content.as_str().as_bytes().len();
            tokens_out = (bytes_out / 4) as u64;
        }
        let content_blocks = vec![ContentBlock::Text { text: stream.content }];
        assert(block_views(content_blocks@) =~= seq![BlockView::Text { text: stream@.content }]);
        LlmResponse {
            content_blocks,
            model: self.model.clone(),
            tokens_in,
            tokens_out,
            latency_ms: 0,
            stop_reason: reason,
            cost_micros: self.call_cost(tokens_in, tokens_out),
            backend: self.backend_kind(),
        }
    }
}

// ---------------------------------------------------------------------------
// Laws
// ---------------------------------------------------------------------------

proof fn drained_content(s: StreamView, said: Seq<Seq<char>>, start: Seq<char>)
    requires
        s.content == start + put_together(said),
    ensures
        drained(s, said).0.content == start + put_together(drained(s, said).1),
    decreases s.buffer.len(),
{
    match index_of(s.buffer, '\n', 0) {
        Some(i) => {
            if 0 <= i < s.buffer.len() && !s.done {
                let line = s.buffer.subrange(0, i);
                let rest = s.buffer.subrange(i + 1, s.buffer.len() as int);
                let next = after_event(StreamView { buffer: rest, ..s }, said, line_event(line));
                match line_event(line) {
                    EventView::Delta(t) => {
                        assert(said.push(t).drop_last() =~= said);
                        assert(start + put_together(said) + t =~= start + put_together(
                            said.push(t),
                        ));
                    },
                    _ => {},
                }
                drained_content(next.0, next.1, start);
            }
        },
        None => {},
    }
}

/// The text of the answer is what the pieces make when they are put together:
/// nothing is lost and nothing is added.
pub proof fn pieces_make_the_answer(s: StreamView, text: Seq<char>)
    ensures
        fed(s, text).0.content == s.content + put_together(fed(s, text).1),
{
    let start = StreamView { buffer: s.buffer + text, ..s };
    assert(s.content + put_together(Seq::<Seq<char>>::empty()) =~= s.content);
    drained_content(start, Seq::empty(), s.content);
}

proof fn drained_in_two(s: StreamView, said: Seq<Seq<char>>, more: Seq<char>)
    requires
        !drained(s, said).0.done,
    ensures
        drained(StreamView { buffer: s.buffer + more, ..s }, said) == ({
            let first = drained(s, said);
            drained(StreamView { buffer: first.0.buffer + more, ..first.0 }, first.1)
        }),
    decreases s.buffer.len(),
{
    let long = StreamView { buffer: s.buffer + more, ..s };
    match index_of(s.buffer, '\n', 0) {
        Some(i) => {
            index_of_is_first(s.buffer, '\n', 0);
            if !s.done {
                index_of_longer(s.buffer, more, '\n', 0);
                let line = s.buffer.subrange(0, i);
                let rest = s.buffer.subrange(i + 1, s.buffer.len() as int);
                let next = after_event(StreamView { buffer: rest, ..s }, said, line_event(line));
                assert(long.buffer.subrange(0, i) =~= line);
                assert(long.buffer.subrange(i + 1, long.buffer.len() as int) =~= rest + more);
                drained_in_two(next.0, next.1, more);
                let long_next = after_event(
                    StreamView { buffer: rest + more, ..long },
                    said,
                    line_event(line),
                );
                assert(long_next.0 == (StreamView { buffer: next.0.buffer + more, ..next.0 }));
            }
        },
        None => {},
    }
}

proof fn drained_prefix(s: StreamView, said: Seq<Seq<char>>, earlier: Seq<Seq<char>>)
    ensures
        drained(s, earlier + said).0 == drained(s, said).0,
        drained(s, earlier + said).1 == earlier + drained(s, said).1,
    decreases s.buffer.len(),
{
    match index_of(s.buffer, '\n', 0) {
        Some(i) => {
            if 0 <= i < s.buffer.len() && !s.done {
                let line = s.buffer.subrange(0, i);
                let rest = s.buffer.subrange(i + 1, s.buffer.len() as int);
                let next = after_event(StreamView { buffer: rest, ..s }, said, line_event(line));
                match line_event(line) {
                    EventView::Delta(t) => {
                        assert((earlier + said).push(t) =~= earlier + said.push(t));
                    },
                    _ => {},
                }
                drained_prefix(next.0, next.1, earlier);
            }
        },
        None => {},
    }
}

/// It does not matter where a stream is cut: taking a text in two parts leads to the
/// same stream, and to the same pieces, as taking it at once. (Once the end of the
/// stream has come, nothing more is taken.)
pub proof fn cuts_do_not_matter(s: StreamView, a: Seq<char>, b: Seq<char>)
    requires
        !fed(s, a).0.done,
    ensures
        fed(s, a + b).0 == fed(fed(s, a).0, b).0,
        fed(s, a + b).1 == fed(s, a).1 + fed(fed(s, a).0, b).1,
{
    let start = StreamView { buffer: s.buffer + a, ..s };
    drained_in_two(start, Seq::empty(), b);
    assert(s.buffer + (a + b) =~= s.buffer + a + b);
    let first = fed(s, a);
    let second = StreamView { buffer: first.0.buffer + b, ..first.0 };
    drained_prefix(second, Seq::empty(), first.1);
    assert(first.1 + Seq::<Seq<char>>::empty() =~= first.1);
}

} // verus!

//! What the HTTP backends of language models have in common: when they stream, how
//! they estimate tokens and costs, and which of their errors can be retried.

use vstd::prelude::*;
use vstd::string::*;

use crate::json::{write_json, written};
use crate::llm::{block_views, BlockView, LlmMessage, LlmRequest};
use crate::text::{byte_len, contains_text, dec, dec_u64, has_text, trim_end_of, trimmed_end_of};
use crate::types::{ContentBlock, ExoError, HandlerOutput};

verus! {

// ---------------------------------------------------------------------------
// Requests
// ---------------------------------------------------------------------------

/// Tells whether a flag is off, so that it is left out of a request.
pub fn is_false(v: &bool) -> (r: bool)
    ensures
        r == !*v,
{
    !*v
}

/// The response is streamed: it was asked for, and there are no tools.
pub open spec fn streams(request: LlmRequest) -> bool {
    request.stream && request.tools@.len() == 0
}

/// Tells whether the response is streamed. Tool calls cannot be streamed.
pub fn effective_stream(request: &LlmRequest) -> (r: bool)
    ensures
        r == streams(*request),
{
    request.stream && request.tools.len() == 0
}

/// The endpoint below a base URL.
pub open spec fn endpoint(base_url: Seq<char>, path: Seq<char>) -> Seq<char> {
    trimmed_end_of(base_url, '/') + path
}

/// Builds the endpoint below a base URL, which may end in slashes.
pub fn endpoint_url(base_url: &str, path: &str) -> (r: String)
    ensures
        r@ == endpoint(base_url@, path@),
{
    let mut url = trim_end_of(base_url, '/');
    url.append(path);
    url
}

// ---------------------------------------------------------------------------
// Lengths
// ---------------------------------------------------------------------------

/// The number of bytes of a part of a message.
pub open spec fn block_len(b: BlockView) -> nat {
    match b {
        BlockView::Text { text } => byte_len(text),
        BlockView::ToolResult { tool_use_id, content, is_error } => byte_len(content),
        BlockView::ToolUse { id, name, input } => byte_len(written(input)),
    }
}

/// The number of bytes of the parts of a message.
pub open spec fn blocks_len(blocks: Seq<BlockView>) -> nat
    decreases blocks.len(),
{
    if blocks.len() == 0 {
        0
    } else {
        blocks_len(blocks.drop_last()) + block_len(blocks.last())
    }
}

/// The number of bytes of the messages.
pub open spec fn messages_len(messages: Seq<LlmMessage>) -> nat
    decreases messages.len(),
{
    if messages.len() == 0 {
        0
    } else {
        messages_len(messages.drop_last()) + blocks_len(block_views(messages.last().content@))
    }
}

/// The number of bytes of the texts of a request.
pub open spec fn request_len(request: LlmRequest) -> nat {
    messages_len(request.messages@) + match request.system_prompt {
        Some(s) => byte_len(s@),
        None => 0,
    }
}

/// The number, or the largest that fits.
pub open spec fn at_most_max(n: nat) -> usize {
    if n <= usize::MAX {
        n as usize
    } else {
        usize::MAX
    }
}

fn text_len(s: &str) -> (n: usize)
    ensures
        n == byte_len(s@),
{
    s.as_bytes().len()
}

/// Counts the bytes of the parts of a message, up to the largest number that fits.
pub fn content_len(blocks: &Vec<ContentBlock>) -> (n: usize)
    ensures
        n == at_most_max(blocks_len(block_views(blocks@))),
{
    let ghost all = block_views(blocks@);
    let mut n: usize = 0;
    let mut i: usize = 0;
    assert(all.subrange(0, 0) =~= Seq::<BlockView>::empty());
    while i < blocks.len()
        invariant
            all == block_views(blocks@),
            i <= blocks@.len(),
            n == at_most_max(blocks_len(all.subrange(0, i as int))),
        decreases blocks@.len() - i,
    {
        assert(all.subrange(0, i + 1).drop_last() =~= all.subrange(0, i as int));
        assert(all.subrange(0, i + 1).last() == blocks@[i as int]@);
        let part: usize = match &blocks[i] {
            ContentBlock::Text { text } => text_len(text.as_str()),
            ContentBlock::ToolResult { tool_use_id: _, content, is_error: _ } => text_len(
                content.as_str(),
            ),
            ContentBlock::ToolUse { id: _, name: _, input } => {
                let text = write_json(input);
                text_len(text.as_str())
            },
        };
        n = n.saturating_add(part);
        i = i + 1;
    }
    assert(all.subrange(0, all.len() as int) =~= all);
    n
}

/// Counts the bytes of the texts of a request, up to the largest number that fits.
pub fn request_text_len(request: &LlmRequest) -> (n: usize)
    ensures
        n == at_most_max(request_len(*request)),
{
    let mut n: usize = 0;
    let mut i: usize = 0;
    let ghost all = request.messages@;
    assert(all.subrange(0, 0) =~= Seq::<LlmMessage>::empty());
    while i < request.messages.len()
        invariant
            all == request.messages@,
            i <= all.len(),
            n == at_most_max(messages_len(all.subrange(0, i as int))),
        decreases all.len() - i,
    {
        assert(all.subrange(0, i + 1).drop_last() =~= all.subrange(0, i as int));
        n = n.saturating_add(content_len(&request.messages[i].content));
        i = i + 1;
    }
    assert(all.subrange(0, all.len() as int) =~= all);
    match &request.system_prompt {
        Some(s) => n.saturating_add(text_len(s.as_str())),
        None => n,
    }
}

// ---------------------------------------------------------------------------
// Errors
// ---------------------------------------------------------------------------

/// How a request failed on its way.
#[derive(Debug, Clone, Copy, PartialEq, Eq, Structural)]
pub enum TransportFailure {
    Timeout,
    Connect,
    Other,
}

/// The message of a request that failed on its way.
pub open spec fn transport_text(failure: TransportFailure, error: Seq<char>) -> Seq<char> {
    match failure {
        TransportFailure::Timeout => "timeout: "@ + error,
        TransportFailure::Connect => "connection refused: "@ + error,
        TransportFailure::Other => "HTTP error: "@ + error,
    }
}

/// The error of a request that failed on its way.
pub fn transport_error(failure: TransportFailure, error: &str) -> (e: ExoError)
    ensures
        e matches ExoError::LlmInvocation(m) && m@ == transport_text(failure, error@),
{
    let mut m = match failure {
        TransportFailure::Timeout => "timeout: ".to_owned(),
        TransportFailure::Connect => "connection refused: ".to_owned(),
        TransportFailure::Other => "HTTP error: ".to_owned(),
    };
    m.append(error);
    ExoError::LlmInvocation(m)
}

/// The error of a response with an error status.
pub fn status_error(status: u16, body: &str) -> (e: ExoError)
    ensures
        e matches ExoError::LlmInvocation(m) && m@ == dec(status as nat) + ": "@ + body@,
{
    let mut m = dec_u64(status as u64);
    m.append(": ");
    m.append(body);
    ExoError::LlmInvocation(m)
}

/// An error of a language model with a message.
pub fn llm_error(message: &str) -> (e: ExoError)
    ensures
        e matches ExoError::LlmInvocation(m) && m@ == message@,
{
    ExoError::LlmInvocation(message.to_owned())
}

/// The error of a call that was cancelled before it was made, if it was.
pub fn check_cancelled(cancelled: bool) -> (r: Result<(), ExoError>)
    ensures
        match r {
            Ok(_) => !cancelled,
            Err(e) => cancelled && (e matches ExoError::LlmInvocation(m) && m@
                == "cancelled before HTTP call"@),
        },
{
    if cancelled {
        Err(llm_error("cancelled before HTTP call"))
    } else {
        Ok(())
    }
}

/// The error of a stream that could not be read, or that was cancelled, if it was.
/// A cancellation comes first.
pub fn check_stream(cancelled: bool, read_error: &Option<String>) -> (r: Result<(), ExoError>)
    ensures
        match r {
            Ok(_) => !cancelled && read_error is None,
            Err(ExoError::LlmInvocation(m)) => if cancelled {
                m@ == "cancelled during streaming"@
            } else {
                read_error matches Some(e) && m@ == "stream read error: "@ + e@
            },
            Err(_) => false,
        },
{
    if cancelled {
        return Err(llm_error("cancelled during streaming"));
    }
    match read_error {
        Some(e) => {
            let mut m = "stream read error: ".to_owned();
            m.append(e.as_str());
            Err(ExoError::LlmInvocation(m))
        },
        None => Ok(()),
    }
}

/// The error with this message can be retried: it tells of a timeout, a refused
/// connection, a rate limit, a failure of the server, or a cancellation.
pub open spec fn is_retryable(msg: Seq<char>) -> bool {
    has_text(msg, "timeout"@) || has_text(msg, "connection refused"@) || has_text(msg, "429"@)
        || has_text(msg, "500"@) || has_text(msg, "502"@) || has_text(msg, "503"@) || has_text(
        msg,
        "504"@,
    ) || has_text(msg, "cancelled"@)
}

/// Tells whether an error with this message can be retried.
pub fn is_retryable_error(msg: &str) -> (r: bool)
    ensures
        r == is_retryable(msg@),
{
    contains_text(msg, "timeout") || contains_text(msg, "connection refused") || contains_text(
        msg,
        "429",
    ) || contains_text(msg, "500") || contains_text(msg, "502") || contains_text(msg, "503")
        || contains_text(msg, "504") || contains_text(msg, "cancelled")
}

/// Turns the error of a language model into what the queue is told.
pub fn classify_llm_error(message: String) -> (o: HandlerOutput)
    ensures
        match o {
            HandlerOutput::RetryableFailure { error, consumption } => is_retryable(message@)
                && error == message && consumption@.len() == 0,
            HandlerOutput::TerminalFailure { error, consumption } => !is_retryable(message@)
                && error == message && consumption@.len() == 0,
            _ => false,
        },
{
    if is_retryable_error(message.as_str()) {
        HandlerOutput::RetryableFailure { error: message, consumption: Vec::new() }
    } else {
        HandlerOutput::TerminalFailure { error: message, consumption: Vec::new() }
    }
}

/// A text stands in what it is part of.
proof fn part_is_found(s: Seq<char>, p: Seq<char>, i: int)
    requires
        0 <= i,
        i + p.len() <= s.len(),
        s.subrange(i, i + p.len()) =~= p,
    ensures
        has_text(s, p),
{
    assert(crate::text::occurs_at(s, p, i));
}

/// A request that timed out, or whose connection was refused, can be retried,
/// whatever the error says.
pub proof fn lost_requests_can_be_retried(failure: TransportFailure, error: Seq<char>)
    requires
        failure != TransportFailure::Other,
    ensures
        is_retryable(transport_text(failure, error)),
{
    reveal_strlit("timeout: ");
    reveal_strlit("timeout");
    reveal_strlit("connection refused: ");
    reveal_strlit("connection refused");
    let text = transport_text(failure, error);
    match failure {
        TransportFailure::Timeout => {
            part_is_found(text, "timeout"@, 0);
        },
        TransportFailure::Connect => {
            part_is_found(text, "connection refused"@, 0);
        },
        TransportFailure::Other => {},
    }
}

// ---------------------------------------------------------------------------
// Costs
// ---------------------------------------------------------------------------

/// The cost of tokens in millionths of a cent, at prices in cents for a million
/// tokens.
pub open spec fn cost_at(price_in: nat, price_out: nat, tokens_in: u64, tokens_out: u64) -> nat {
    price_in * tokens_in as nat + price_out * tokens_out as nat
}

/// The prices of an OpenAI model in cents for a million tokens. Nothing for a model
/// whose prices are not known.
pub open spec fn openai_prices(model: Seq<char>) -> Option<(nat, nat)> {
    if has_text(model, "gpt-4o-mini"@) {
        Some((15, 60))
    } else if has_text(model, "gpt-4o"@) {
        Some((250, 1000))
    } else if has_text(model, "gpt-4"@) {
        Some((3000, 6000))
    } else {
        None
    }
}

/// The prices of an Anthropic model in cents for a million tokens. A model that is
/// not known costs as much as the middle one.
pub open spec fn anthropic_prices(model: Seq<char>) -> (nat, nat) {
    if has_text(model, "opus"@) {
        (1500, 7500)
    } else if has_text(model, "sonnet"@) {
        (300, 1500)
    } else if has_text(model, "haiku"@) {
        (25, 125)
    } else {
        (300, 1500)
    }
}

fn cost(price_in: u128, price_out: u128, tokens_in: u64, tokens_out: u64) -> (r: u128)
    requires
        price_in <= 10000,
        price_out <= 10000,
    ensures
        r == cost_at(price_in as nat, price_out as nat, tokens_in, tokens_out),
{
    assert(price_in * tokens_in <= 10000 * 18446744073709551615) by (nonlinear_arith)
        requires
            price_in <= 10000,
            tokens_in <= 18446744073709551615,
    ;
    assert(price_out * tokens_out <= 10000 * 18446744073709551615) by (nonlinear_arith)
        requires
            price_out <= 10000,
            tokens_out <= 18446744073709551615,
    ;
    price_in * (tokens_in as u128) + price_out * (tokens_out as u128)
}

/// Estimates the cost of a call of an OpenAI-compatible model, in millionths of a
/// cent.
pub fn estimate_openai_cost(model: &str, tokens_in: u64, tokens_out: u64) -> (r: Option<u128>)
    ensures
        match openai_prices(model@) {
            Some(p) => r matches Some(c) && c == cost_at(p.0, p.1, tokens_in, tokens_out),
            None => r is None,
        },
{
    if contains_text(model, "gpt-4o-mini") {
        Some(cost(15, 60, tokens_in, tokens_out))
    } else if contains_text(model, "gpt-4o") {
        Some(cost(250, 1000, tokens_in, tokens_out))
    } else if contains_text(model, "gpt-4") {
        Some(cost(3000, 6000, tokens_in, tokens_out))
    } else {
        None
    }
}

/// Estimates the cost of a call of an Anthropic model, in millionths of a cent.
pub fn estimate_anthropic_cost(model: &str, tokens_in: u64, tokens_out: u64) -> (r: u128)
    ensures
        r == cost_at(
            anthropic_prices(model@).0,
            anthropic_prices(model@).1,
            tokens_in,
            tokens_out,
        ),
{
    if contains_text(model, "opus") {
        cost(1500, 7500, tokens_in, tokens_out)
    } else if contains_text(model, "sonnet") {
        cost(300, 1500, tokens_in, tokens_out)
    } else if contains_text(model, "haiku") {
        cost(25, 125, tokens_in, tokens_out)
    } else {
        cost(300, 1500, tokens_in, tokens_out)
    }
}

// ---------------------------------------------------------------------------
// Debug texts
// ---------------------------------------------------------------------------

/// The `Debug` text of a string.
pub uninterp spec fn quoted(s: Seq<char>) -> Seq<char>;

/// The `Debug` text of a string slice: the string in quotation marks, with escapes.
/// The contract says only that the string decides it.
#[verifier::external_body]
pub(crate) fn debug_quote(s: &str) -> (r: String)
    ensures
        r@ == quoted(s@),
{
    format!("{:?}", s)
}

} // verus!

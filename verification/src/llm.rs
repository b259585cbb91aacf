//! Requests to language models and their responses.

use vstd::prelude::*;
use vstd::string::*;

use crate::json::JsonView;
use crate::tool_defs::ToolDefinition;
use crate::types::ContentBlock;

verus! {

/// Where a model runs.
#[derive(Debug, Clone, Copy, PartialEq, Eq, Structural)]
pub enum LlmBackend {
    Local,
    Frontier,
}

/// Who speaks in a message.
#[derive(Debug, Clone, Copy, PartialEq, Eq, Structural)]
pub enum LlmRole {
    System,
    User,
    Assistant,
}

/// Why a model stopped.
#[derive(Debug, Clone, Copy, PartialEq, Eq, Structural)]
pub enum StopReason {
    EndTurn,
    MaxTokens,
    StopSequence,
    ToolUse,
}

/// A message to or from a model.
#[derive(Debug)]
pub struct LlmMessage {
    pub role: LlmRole,
    pub content: Vec<ContentBlock>,
}

/// A request to a model.
#[derive(Debug)]
pub struct LlmRequest {
    /// The backend that is asked for. Without it the default is used.
    pub backend: Option<LlmBackend>,
    pub system_prompt: Option<String>,
    pub messages: Vec<LlmMessage>,
    pub max_output_tokens: u64,
    /// The temperature, as the text of a decimal number.
    pub temperature: Option<String>,
    pub stop_sequences: Vec<String>,
    pub stream: bool,
    pub tools: Vec<ToolDefinition>,
}

/// The response of a model.
#[derive(Debug)]
pub struct LlmResponse {
    pub content_blocks: Vec<ContentBlock>,
    pub model: String,
    pub tokens_in: u64,
    pub tokens_out: u64,
    pub latency_ms: u64,
    pub stop_reason: StopReason,
    /// The estimated cost in millionths of a cent, if it is known.
    pub cost_micros: Option<u128>,
    pub backend: LlmBackend,
}

/// The model of a part of a message.
pub enum BlockView {
    Text { text: Seq<char> },
    ToolUse { id: Seq<char>, name: Seq<char>, input: JsonView },
    ToolResult { tool_use_id: Seq<char>, content: Seq<char>, is_error: bool },
}

impl View for ContentBlock {
    type V = BlockView;

    open spec fn view(&self) -> BlockView {
        match self {
            ContentBlock::Text { text } => BlockView::Text { text: text@ },
            ContentBlock::ToolUse { id, name, input } => BlockView::ToolUse {
                id: id@,
                name: name@,
                input: input@,
            },
            ContentBlock::ToolResult { tool_use_id, content, is_error } => BlockView::ToolResult {
                tool_use_id: tool_use_id@,
                content: content@,
                is_error: *is_error,
            },
        }
    }
}

/// The models of the parts of a message.
pub open spec fn block_views(blocks: Seq<ContentBlock>) -> Seq<BlockView> {
    Seq::new(blocks.len(), |i: int| blocks[i]@)
}

/// The model of a message.
pub struct MessageView {
    pub role: LlmRole,
    pub content: Seq<BlockView>,
}

impl View for LlmMessage {
    type V = MessageView;

    open spec fn view(&self) -> MessageView {
        MessageView { role: self.role, content: block_views(self.content@) }
    }
}

/// The models of a list of messages.
pub open spec fn message_views(messages: Seq<LlmMessage>) -> Seq<MessageView> {
    Seq::new(messages.len(), |i: int| messages[i]@)
}

/// A message that is one text.
pub open spec fn text_message(role: LlmRole, text: Seq<char>) -> MessageView {
    MessageView { role, content: seq![BlockView::Text { text }] }
}

impl Clone for ContentBlock {
    fn clone(&self) -> (r: Self)
        ensures
            r@ == self@,
    {
        match self {
            ContentBlock::Text { text } => ContentBlock::Text { text: text.clone() },
            ContentBlock::ToolUse { id, name, input } => ContentBlock::ToolUse {
                id: id.clone(),
                name: name.clone(),
                input: input.clone(),
            },
            ContentBlock::ToolResult { tool_use_id, content, is_error } => ContentBlock::ToolResult {
                tool_use_id: tool_use_id.clone(),
                content: content.clone(),
                is_error: *is_error,
            },
        }
    }
}

impl LlmMessage {
    /// A message that is one text.
    pub fn text(role: LlmRole, text: &str) -> (m: LlmMessage)
        ensures
            m@ == text_message(role, text@),
    {
        let content = vec![ContentBlock::Text { text: text.to_owned() }];
        assert(block_views(content@) =~= seq![BlockView::Text { text: text@ }]);
        LlmMessage { role, content }
    }
}

/// The texts among the parts of a message, put together.
pub open spec fn text_in(blocks: Seq<BlockView>) -> Seq<char>
    decreases blocks.len(),
{
    if blocks.len() == 0 {
        Seq::empty()
    } else {
        match blocks.last() {
            BlockView::Text { text } => text_in(blocks.drop_last()) + text,
            _ => text_in(blocks.drop_last()),
        }
    }
}

/// Puts the texts among the parts of a message together.
pub fn collect_text(blocks: &Vec<ContentBlock>) -> (r: String)
    ensures
        r@ == text_in(block_views(blocks@)),
{
    let mut out = String::new();
    let ghost all = block_views(blocks@);
    let mut i: usize = 0;
    assert(out@ =~= text_in(all.subrange(0, 0)));
    while i < blocks.len()
        invariant
            all == block_views(blocks@),
            i <= blocks@.len(),
            out@ == text_in(all.subrange(0, i as int)),
        decreases blocks@.len() - i,
    {
        assert(all.subrange(0, i + 1).drop_last() =~= all.subrange(0, i as int));
        assert(all.subrange(0, i + 1).last() == blocks@[i as int]@);
        match &blocks[i] {
            ContentBlock::Text { text } => {
                out.append(text.as_str());
            },
            _ => {},
        }
        i = i + 1;
    }
    assert(all.subrange(0, all.len() as int) =~= all);
    out
}

/// The model of a response.
pub struct LlmResponseView {
    pub content_blocks: Seq<BlockView>,
    pub model: Seq<char>,
    pub tokens_in: u64,
    pub tokens_out: u64,
    pub latency_ms: u64,
    pub stop_reason: StopReason,
    pub cost_micros: Option<u128>,
    pub backend: LlmBackend,
}

impl View for LlmResponse {
    type V = LlmResponseView;

    open spec fn view(&self) -> LlmResponseView {
        LlmResponseView {
            content_blocks: block_views(self.content_blocks@),
            model: self.model@,
            tokens_in: self.tokens_in,
            tokens_out: self.tokens_out,
            latency_ms: self.latency_ms,
            stop_reason: self.stop_reason,
            cost_micros: self.cost_micros,
            backend: self.backend,
        }
    }
}

impl Clone for LlmResponse {
    fn clone(&self) -> (r: Self)
        ensures
            r@ == self@,
    {
        let mut content_blocks: Vec<ContentBlock> = Vec::new();
        let mut i: usize = 0;
        while i < self.content_blocks.len()
            invariant
                i <= self.content_blocks@.len(),
                content_blocks@.len() == i,
                forall|k: int|
                    0 <= k < i ==> (#[trigger] content_blocks@[k])@ == self.content_blocks@[k]@,
            decreases self.content_blocks@.len() - i,
        {
            content_blocks.push(self.content_blocks[i].clone());
            i = i + 1;
        }
        assert(block_views(content_blocks@) =~= block_views(self.content_blocks@));
        LlmResponse {
            content_blocks,
            model: self.model.clone(),
            tokens_in: self.tokens_in,
            tokens_out: self.tokens_out,
            latency_ms: self.latency_ms,
            stop_reason: self.stop_reason,
            cost_micros: self.cost_micros,
            backend: self.backend,
        }
    }
}

impl LlmResponse {
    /// The text of the response.
    pub fn text(&self) -> (r: String)
        ensures
            r@ == text_in(block_views(self.content_blocks@)),
    {
        collect_text(&self.content_blocks)
    }
}

} // verus!

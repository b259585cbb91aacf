//! The backend for the Anthropic messages API.
//!
//! The HTTP calls are made outside. Here the request is built and the response is
//! read. The system prompt is a field of its own, and tool names are encoded.

use vstd::prelude::*;
use vstd::string::*;

use crate::chat::{opt_member, opt_str_json, opt_string, push_opt};
use crate::decode::{
    field_at, flag_of, has_full_form, has_record_form, is_full_record, is_record, maybe_text_of,
    number_of, read_flag, read_maybe_text, read_number, read_text, record_field, text_of,
};
use crate::http::{
    anthropic_prices, cost_at, debug_quote, effective_stream, endpoint, endpoint_url,
    estimate_anthropic_cost, quoted, streams,
};
use crate::json::{member, member_views, opt_json, parse_json, parsed, views, Json, JsonView};
use crate::llm::{
    block_views, collect_text, text_in, BlockView, LlmBackend, LlmMessage, LlmRequest,
    LlmResponse, LlmRole, StopReason,
};
use crate::openai::{
    clone_if_any, flag_json, list_if_any, opt_array, opt_array_json, opt_number, opt_number_json,
};
use crate::text::{clone_opt, first_n, opt_text, str_eq, take_chars, texts};
use crate::tool_defs::ToolDefinition;
use crate::tool_names::{
    decode_anthropic_tool_name, decoded, encode_anthropic_tool_name, encoded,
    names_survive_the_wire,
};
use crate::types::{ContentBlock, ExoError};

verus! {

/// A backend that speaks the Anthropic messages API.
pub struct AnthropicBackend {
    pub base_url: String,
    pub model: String,
    pub api_key: String,
}

/// A part of a message on the wire.
#[derive(Debug)]
pub enum AnthropicContentBlock {
    Text { text: String },
    ToolUse { id: String, name: String, input: Json },
    ToolResult { tool_use_id: String, content: String, is_error: bool },
}

/// The content of a message on the wire.
#[derive(Debug)]
pub enum AnthropicContent {
    Text(String),
    Blocks(Vec<AnthropicContentBlock>),
}

/// A message on the wire.
#[derive(Debug)]
pub struct AnthropicMessage {
    pub role: String,
    pub content: AnthropicContent,
}

/// A tool definition on the wire.
#[derive(Debug)]
pub struct AnthropicToolDefinition {
    pub name: String,
    pub description: String,
    pub input_schema: Json,
}

/// The body of a request.
#[derive(Debug)]
pub struct AnthropicRequest {
    pub model: String,
    pub max_tokens: u64,
    pub system: Option<String>,
    pub messages: Vec<AnthropicMessage>,
    pub temperature: Option<String>,
    pub stop_sequences: Option<Vec<String>>,
    pub stream: bool,
    pub tools: Option<Vec<AnthropicToolDefinition>>,
}

/// How many tokens a call used.
#[derive(Debug, Clone, Copy, PartialEq, Eq, Structural)]
pub struct AnthropicUsage {
    pub input_tokens: u64,
    pub output_tokens: u64,
}

/// A response.
#[derive(Debug)]
pub struct AnthropicResponse {
    pub content: Vec<AnthropicContentBlock>,
    pub model: String,
    pub stop_reason: Option<String>,
    pub usage: AnthropicUsage,
}

// ---------------------------------------------------------------------------
// Models
// ---------------------------------------------------------------------------

impl View for AnthropicContentBlock {
    type V = BlockView;

    open spec fn view(&self) -> BlockView {
        match self {
            AnthropicContentBlock::Text { text } => BlockView::Text { text: text@ },
            AnthropicContentBlock::ToolUse { id, name, input } => BlockView::ToolUse {
                id: id@,
                name: name@,
                input: input@,
            },
            AnthropicContentBlock::ToolResult { tool_use_id, content, is_error } => {
                BlockView::ToolResult {
                    tool_use_id: tool_use_id@,
                    content: content@,
                    is_error: *is_error,
                }
            },
        }
    }
}

/// The models of a list of parts on the wire.
pub open spec fn wire_views(blocks: Seq<AnthropicContentBlock>) -> Seq<BlockView> {
    Seq::new(blocks.len(), |i: int| blocks[i]@)
}

/// The model of the content of a message on the wire.
pub enum ContentView {
    Text(Seq<char>),
    Blocks(Seq<BlockView>),
}

impl View for AnthropicContent {
    type V = ContentView;

    open spec fn view(&self) -> ContentView {
        match self {
            AnthropicContent::Text(t) => ContentView::Text(t@),
            AnthropicContent::Blocks(b) => ContentView::Blocks(wire_views(b@)),
        }
    }
}

// ---------------------------------------------------------------------------
// The request
// ---------------------------------------------------------------------------

/// A part on the wire: the name of a tool is encoded.
pub open spec fn to_wire(b: BlockView) -> BlockView {
    match b {
        BlockView::ToolUse { id, name, input } => BlockView::ToolUse {
            id,
            name: encoded(name),
            input,
        },
        other => other,
    }
}

/// A part from the wire: the name of a tool is decoded.
pub open spec fn from_wire(b: BlockView) -> BlockView {
    match b {
        BlockView::ToolUse { id, name, input } => BlockView::ToolUse {
            id,
            name: decoded(name),
            input,
        },
        other => other,
    }
}

/// Every part is text.
pub open spec fn only_text(blocks: Seq<BlockView>) -> bool {
    forall|i: int| 0 <= i < blocks.len() ==> (#[trigger] blocks[i]) is Text
}

/// The content of a message on the wire: one text if it is nothing but text,
/// otherwise its parts.
pub open spec fn content_of(blocks: Seq<BlockView>) -> ContentView {
    if only_text(blocks) {
        ContentView::Text(text_in(blocks))
    } else {
        ContentView::Blocks(Seq::new(blocks.len(), |i: int| to_wire(blocks[i])))
    }
}

/// The name of a role on the wire. There is no system role among the messages.
pub open spec fn wire_role(role: LlmRole) -> Seq<char> {
    match role {
        LlmRole::Assistant => "assistant"@,
        _ => "user"@,
    }
}

/// `m` is a message on the wire.
pub open spec fn is_wire_message(m: AnthropicMessage, message: LlmMessage) -> bool {
    m.role@ == wire_role(message.role) && m.content@ == content_of(block_views(message.content@))
}

/// `t` is a tool definition on the wire.
pub open spec fn is_wire_tool(t: AnthropicToolDefinition, tool: ToolDefinition) -> bool {
    t.name@ == encoded(tool.name@) && t.description == tool.description && t.input_schema@
        == tool.input_schema@
}

/// The tool definitions on the wire, if there are any.
pub open spec fn are_wire_tools(
    t: Option<Vec<AnthropicToolDefinition>>,
    tools: Seq<ToolDefinition>,
) -> bool {
    match t {
        None => tools.len() == 0,
        Some(list) => tools.len() > 0 && list@.len() == tools.len() && forall|i: int|
            0 <= i < tools.len() ==> is_wire_tool(#[trigger] list@[i], tools[i]),
    }
}

/// `b` is the body of a request to a model.
pub open spec fn is_body(b: AnthropicRequest, model: Seq<char>, request: LlmRequest) -> bool {
    &&& b.model@ == model
    &&& b.max_tokens == request.max_output_tokens
    &&& b.system == request.system_prompt
    &&& b.messages@.len() == request.messages@.len()
    &&& forall|i: int|
        0 <= i < b.messages@.len() ==> is_wire_message(
            #[trigger] b.messages@[i],
            request.messages@[i],
        )
    &&& b.temperature == request.temperature
    &&& crate::decode::opt_texts(b.stop_sequences) == list_if_any(texts(request.stop_sequences@))
    &&& b.stream == streams(request)
    &&& are_wire_tools(b.tools, request.tools@)
}

fn all_text(blocks: &Vec<ContentBlock>) -> (r: bool)
    ensures
        r == only_text(block_views(blocks@)),
{
    let ghost all = block_views(blocks@);
    let mut i: usize = 0;
    while i < blocks.len()
        invariant
            all == block_views(blocks@),
            i <= blocks@.len(),
            forall|k: int| 0 <= k < i ==> (#[trigger] all[k]) is Text,
        decreases blocks@.len() - i,
    {
        assert(all[i as int] == blocks@[i as int]@);
        match &blocks[i] {
            ContentBlock::Text { text: _ } => {},
            _ => {
                assert(i < all.len() && !(all[i as int] is Text));
                return false;
            },
        }
        i = i + 1;
    }
    true
}

/// Puts the parts of a message on the wire.
pub fn anthropic_content_from_blocks(blocks: &Vec<ContentBlock>) -> (c: AnthropicContent)
    ensures
        c@ == content_of(block_views(blocks@)),
{
    if all_text(blocks) {
        return AnthropicContent::Text(collect_text(blocks));
    }
    let ghost all = block_views(blocks@);
    let mut out: Vec<AnthropicContentBlock> = Vec::new();
    let mut i: usize = 0;
    while i < blocks.len()
        invariant
            all == block_views(blocks@),
            i <= blocks@.len(),
            out@.len() == i,
            forall|k: int| 0 <= k < i ==> (#[trigger] out@[k])@ == to_wire(all[k]),
        decreases blocks@.len() - i,
    {
        assert(all[i as int] == blocks@[i as int]@);
        let b = match &blocks[i] {
            ContentBlock::Text { text } => AnthropicContentBlock::Text { text: text.clone() },
            ContentBlock::ToolUse { id, name, input } => AnthropicContentBlock::ToolUse {
                id: id.clone(),
                name: encode_anthropic_tool_name(name.as_str()),
                input: input.clone(),
            },
            ContentBlock::ToolResult { tool_use_id, content, is_error } => {
                AnthropicContentBlock::ToolResult {
                    tool_use_id: tool_use_id.clone(),
                    content: content.clone(),
                    is_error: *is_error,
                }
            },
        };
        out.push(b);
        i = i + 1;
    }
    assert(wire_views(out@) =~= Seq::new(all.len(), |k: int| to_wire(all[k])));
    AnthropicContent::Blocks(out)
}

fn wire_tools(tools: &Vec<ToolDefinition>) -> (r: Option<Vec<AnthropicToolDefinition>>)
    ensures
        are_wire_tools(r, tools@),
{
    if tools.len() == 0 {
        return None;
    }
    let mut out: Vec<AnthropicToolDefinition> = Vec::new();
    let mut i: usize = 0;
    while i < tools.len()
        invariant
            i <= tools@.len(),
            out@.len() == i,
            forall|k: int| 0 <= k < i ==> is_wire_tool(#[trigger] out@[k], tools@[k]),
        decreases tools@.len() - i,
    {
        out.push(
            AnthropicToolDefinition {
                name: encode_anthropic_tool_name(tools[i].name.as_str()),
                description: tools[i].description.clone(),
                input_schema: tools[i].input_schema.clone(),
            },
        );
        i = i + 1;
    }
    Some(out)
}

// ---------------------------------------------------------------------------
// The request as JSON
// ---------------------------------------------------------------------------

/// A part of a message as JSON. The flag for an error is left out unless it is set.
pub open spec fn block_json(b: BlockView) -> JsonView {
    match b {
        BlockView::Text { text } => JsonView::Object(
            seq![("type"@, JsonView::Str("text"@)), ("text"@, JsonView::Str(text))],
        ),
        BlockView::ToolUse { id, name, input } => JsonView::Object(
            seq![
                ("type"@, JsonView::Str("tool_use"@)),
                ("id"@, JsonView::Str(id)),
                ("name"@, JsonView::Str(name)),
                ("input"@, input),
            ],
        ),
        BlockView::ToolResult { tool_use_id, content, is_error } => JsonView::Object(
            seq![
                ("type"@, JsonView::Str("tool_result"@)),
                ("tool_use_id"@, JsonView::Str(tool_use_id)),
                ("content"@, JsonView::Str(content)),
            ] + opt_member(
                "is_error"@,
                if is_error {
                    Some(JsonView::Bool(true))
                } else {
                    None
                },
            ),
        ),
    }
}

/// The content of a message as JSON.
pub open spec fn content_json(c: ContentView) -> JsonView {
    match c {
        ContentView::Text(t) => JsonView::Str(t),
        ContentView::Blocks(b) => JsonView::Array(Seq::new(b.len(), |i: int| block_json(b[i]))),
    }
}

/// A message as JSON.
pub open spec fn message_json(m: AnthropicMessage) -> JsonView {
    JsonView::Object(
        seq![("role"@, JsonView::Str(m.role@)), ("content"@, content_json(m.content@))],
    )
}

/// A tool definition as JSON.
pub open spec fn tool_json(t: AnthropicToolDefinition) -> JsonView {
    JsonView::Object(
        seq![
            ("name"@, JsonView::Str(t.name@)),
            ("description"@, JsonView::Str(t.description@)),
            ("input_schema"@, t.input_schema@),
        ],
    )
}

/// The tool definitions as JSON, if there are any.
pub open spec fn tools_json(t: Option<Vec<AnthropicToolDefinition>>) -> Option<JsonView> {
    match t {
        Some(list) => Some(
            JsonView::Array(Seq::new(list@.len(), |i: int| tool_json(list@[i]))),
        ),
        None => None,
    }
}

/// The body of a request as JSON. What is absent is left out.
pub open spec fn body_json(b: AnthropicRequest) -> JsonView {
    JsonView::Object(
        seq![
            ("model"@, JsonView::Str(b.model@)),
            ("max_tokens"@, JsonView::UInt(b.max_tokens)),
        ] + opt_member("system"@, opt_string(opt_text(b.system))) + seq![
            (
                "messages"@,
                JsonView::Array(
                    Seq::new(b.messages@.len(), |i: int| message_json(b.messages@[i])),
                ),
            ),
        ] + opt_member("temperature"@, opt_number(opt_text(b.temperature))) + opt_member(
            "stop_sequences"@,
            opt_array(crate::decode::opt_texts(b.stop_sequences)),
        ) + opt_member(
            "stream"@,
            if b.stream {
                Some(JsonView::Bool(true))
            } else {
                None
            },
        ) + opt_member("tools"@, tools_json(b.tools)),
    )
}

fn block_to_json(b: &AnthropicContentBlock) -> (j: Json)
    ensures
        j@ == block_json(b@),
{
    match b {
        AnthropicContentBlock::Text { text } => {
            let members = vec![
                member("type", Json::str("text")),
                member("text", Json::str(text.as_str())),
            ];
            assert(member_views(members@) =~= block_json(b@)->Object_0);
            Json::object(members)
        },
        AnthropicContentBlock::ToolUse { id, name, input } => {
            let members = vec![
                member("type", Json::str("tool_use")),
                member("id", Json::str(id.as_str())),
                member("name", Json::str(name.as_str())),
                member("input", input.clone()),
            ];
            assert(member_views(members@) =~= block_json(b@)->Object_0);
            Json::object(members)
        },
        AnthropicContentBlock::ToolResult { tool_use_id, content, is_error } => {
            let mut members = vec![
                member("type", Json::str("tool_result")),
                member("tool_use_id", Json::str(tool_use_id.as_str())),
                member("content", Json::str(content.as_str())),
            ];
            assert(member_views(members@) =~= seq![
                ("type"@, JsonView::Str("tool_result"@)),
                ("tool_use_id"@, JsonView::Str(tool_use_id@)),
                ("content"@, JsonView::Str(content@)),
            ]);
            push_opt(&mut members, "is_error", flag_json(*is_error));
            Json::object(members)
        },
    }
}

fn content_to_json(c: &AnthropicContent) -> (j: Json)
    ensures
        j@ == content_json(c@),
{
    match c {
        AnthropicContent::Text(t) => Json::str(t.as_str()),
        AnthropicContent::Blocks(blocks) => {
            let mut items: Vec<Json> = Vec::new();
            let mut i: usize = 0;
            while i < blocks.len()
                invariant
                    i <= blocks@.len(),
                    items@.len() == i,
                    forall|k: int|
                        0 <= k < i ==> (#[trigger] items@[k])@ == block_json(blocks@[k]@),
                decreases blocks@.len() - i,
            {
                items.push(block_to_json(&blocks[i]));
                i = i + 1;
            }
            assert(views(items@) =~= content_json(c@)->Array_0);
            Json::array(items)
        },
    }
}

fn message_to_json(m: &AnthropicMessage) -> (j: Json)
    ensures
        j@ == message_json(*m),
{
    let members = vec![
        member("role", Json::str(m.role.as_str())),
        member("content", content_to_json(&m.content)),
    ];
    assert(member_views(members@) =~= message_json(*m)->Object_0);
    Json::object(members)
}

/// Writes a tool definition as JSON.
pub fn tool_to_json(t: &AnthropicToolDefinition) -> (j: Json)
    ensures
        j@ == tool_json(*t),
{
    let members = vec![
        member("name", Json::str(t.name.as_str())),
        member("description", Json::str(t.description.as_str())),
        member("input_schema", t.input_schema.clone()),
    ];
    assert(member_views(members@) =~= tool_json(*t)->Object_0);
    Json::object(members)
}

fn tools_to_json(t: &Option<Vec<AnthropicToolDefinition>>) -> (r: Option<Json>)
    ensures
        opt_json(r) == tools_json(*t),
{
    match t {
        None => None,
        Some(list) => {
            let mut items: Vec<Json> = Vec::new();
            let mut i: usize = 0;
            while i < list.len()
                invariant
                    i <= list@.len(),
                    items@.len() == i,
                    forall|k: int| 0 <= k < i ==> (#[trigger] items@[k])@ == tool_json(list@[k]),
                decreases list@.len() - i,
            {
                items.push(tool_to_json(&list[i]));
                i = i + 1;
            }
            assert(views(items@) =~= tools_json(*t)->Some_0->Array_0);
            Some(Json::array(items))
        },
    }
}

impl AnthropicRequest {
    /// Writes the body as JSON.
    pub fn to_json(&self) -> (j: Json)
        ensures
            j@ == body_json(*self),
    {
        let mut members = vec![
            member("model", Json::str(self.model.as_str())),
            member("max_tokens", Json::UInt(self.max_tokens)),
        ];
        assert(member_views(members@) =~= seq![
            ("model"@, JsonView::Str(self.model@)),
            ("max_tokens"@, JsonView::UInt(self.max_tokens)),
        ]);
        push_opt(&mut members, "system", opt_str_json(&self.system));
        let mut items: Vec<Json> = Vec::new();
        let mut i: usize = 0;
        while i < self.messages.len()
            invariant
                i <= self.messages@.len(),
                items@.len() == i,
                forall|k: int|
                    0 <= k < i ==> (#[trigger] items@[k])@ == message_json(self.messages@[k]),
            decreases self.messages@.len() - i,
        {
            items.push(message_to_json(&self.messages[i]));
            i = i + 1;
        }
        let ghost list = Seq::new(self.messages@.len(), |i: int| message_json(self.messages@[i]));
        assert(views(items@) =~= list);
        let ghost before = members@;
        members.push(member("messages", Json::array(items)));
        assert(member_views(members@) =~= member_views(before) + seq![
            ("messages"@, JsonView::Array(list)),
        ]);
        push_opt(&mut members, "temperature", opt_number_json(&self.temperature));
        push_opt(&mut members, "stop_sequences", opt_array_json(&self.stop_sequences));
        push_opt(&mut members, "stream", flag_json(self.stream));
        push_opt(&mut members, "tools", tools_to_json(&self.tools));
        Json::object(members)
    }
}

// ---------------------------------------------------------------------------
// Reading a response
// ---------------------------------------------------------------------------

/// The part that a value describes. Its kind stands in the field `type`, or in front if
/// the fields are listed.
pub open spec fn block_of(j: JsonView) -> Option<BlockView> {
    let kind = text_of(field_at(j, "type"@, 0));
    if kind == Some("text"@) && is_full_record(j, 2) {
        match text_of(field_at(j, "text"@, 1)) {
            Some(text) => Some(BlockView::Text { text }),
            None => None,
        }
    } else if kind == Some("tool_use"@) && is_full_record(j, 4) {
        match (
            text_of(field_at(j, "id"@, 1)),
            text_of(field_at(j, "name"@, 2)),
            field_at(j, "input"@, 3),
        ) {
            (Some(id), Some(name), Some(input)) => Some(BlockView::ToolUse { id, name, input }),
            _ => None,
        }
    } else if kind == Some("tool_result"@) && is_record(j, 4) {
        match (
            text_of(field_at(j, "tool_use_id"@, 1)),
            text_of(field_at(j, "content"@, 2)),
            flag_of(field_at(j, "is_error"@, 3)),
        ) {
            (Some(tool_use_id), Some(content), Some(is_error)) => Some(
                BlockView::ToolResult { tool_use_id, content, is_error },
            ),
            _ => None,
        }
    } else {
        None
    }
}

/// Every item describes a part.
pub open spec fn all_blocks(items: Seq<JsonView>) -> bool {
    forall|i: int| 0 <= i < items.len() ==> block_of(#[trigger] items[i]) is Some
}

/// The usage that a value describes.
pub open spec fn usage_of(j: JsonView) -> Option<AnthropicUsage> {
    let input = number_of(field_at(j, "input_tokens"@, 0));
    let output = number_of(field_at(j, "output_tokens"@, 1));
    if is_full_record(j, 2) && input is Some && output is Some {
        Some(AnthropicUsage { input_tokens: input->Some_0, output_tokens: output->Some_0 })
    } else {
        None
    }
}

/// The model of a response.
pub struct ReplyView {
    pub content: Seq<BlockView>,
    pub model: Seq<char>,
    pub stop_reason: Option<Seq<char>>,
    pub usage: AnthropicUsage,
}

impl View for AnthropicResponse {
    type V = ReplyView;

    open spec fn view(&self) -> ReplyView {
        ReplyView {
            content: wire_views(self.content@),
            model: self.model@,
            stop_reason: opt_text(self.stop_reason),
            usage: self.usage,
        }
    }
}

/// The response that a value describes.
pub open spec fn response_of(j: JsonView) -> Option<ReplyView> {
    let model = text_of(field_at(j, "model"@, 1));
    let reason = maybe_text_of(field_at(j, "stop_reason"@, 2));
    match (field_at(j, "content"@, 0), field_at(j, "usage"@, 3)) {
        (Some(JsonView::Array(items)), Some(u)) => if is_full_record(j, 4) && all_blocks(items)
            && model is Some && reason is Some && usage_of(u) is Some {
            Some(
                ReplyView {
                    content: Seq::new(items.len(), |i: int| block_of(items[i])->Some_0),
                    model: model->Some_0,
                    stop_reason: reason->Some_0,
                    usage: usage_of(u)->Some_0,
                },
            )
        } else {
            None
        },
        _ => None,
    }
}

/// The model of a part that was read.
pub open spec fn opt_block(b: Option<AnthropicContentBlock>) -> Option<BlockView> {
    match b {
        Some(b) => Some(b@),
        None => None,
    }
}

/// Reads a part of a message.
pub fn read_block(j: &Json) -> (r: Option<AnthropicContentBlock>)
    ensures
        opt_block(r) == block_of(j@),
{
    let kind = match read_text(record_field(j, "type", 0)) {
        Some(t) => t,
        None => {
            return None;
        },
    };
    let kind = kind.as_str();
    proof {
        reveal_strlit("text");
        reveal_strlit("tool_use");
        reveal_strlit("tool_result");
        assert("text"@.len() == 4);
        assert("tool_use"@.len() == 8);
        assert("tool_result"@.len() == 11);
    }
    if str_eq(kind, "text") && has_full_form(j, 2) {
        match read_text(record_field(j, "text", 1)) {
            Some(text) => Some(AnthropicContentBlock::Text { text }),
            None => None,
        }
    } else if str_eq(kind, "tool_use") && has_full_form(j, 4) {
        match (
            read_text(record_field(j, "id", 1)),
            read_text(record_field(j, "name", 2)),
            record_field(j, "input", 3),
        ) {
            (Some(id), Some(name), Some(input)) => Some(
                AnthropicContentBlock::ToolUse { id, name, input: input.clone() },
            ),
            _ => None,
        }
    } else if str_eq(kind, "tool_result") && has_record_form(j, 4) {
        match (
            read_text(record_field(j, "tool_use_id", 1)),
            read_text(record_field(j, "content", 2)),
            read_flag(record_field(j, "is_error", 3)),
        ) {
            (Some(tool_use_id), Some(content), Some(is_error)) => Some(
                AnthropicContentBlock::ToolResult { tool_use_id, content, is_error },
            ),
            _ => None,
        }
    } else {
        None
    }
}

fn read_usage(j: &Json) -> (r: Option<AnthropicUsage>)
    ensures
        r == usage_of(j@),
{
    if !has_full_form(j, 2) {
        return None;
    }
    match (
        read_number(record_field(j, "input_tokens", 0)),
        read_number(record_field(j, "output_tokens", 1)),
    ) {
        (Some(input_tokens), Some(output_tokens)) => Some(
            AnthropicUsage { input_tokens, output_tokens },
        ),
        _ => None,
    }
}

/// The model of a response that was read.
pub open spec fn opt_reply(r: Option<AnthropicResponse>) -> Option<ReplyView> {
    match r {
        Some(r) => Some(r@),
        None => None,
    }
}

/// Reads a response.
pub fn read_response(j: &Json) -> (r: Option<AnthropicResponse>)
    ensures
        opt_reply(r) == response_of(j@),
{
    let items = match record_field(j, "content", 0) {
        Some(list) => match list.as_array() {
            Some(items) => items,
            None => {
                return None;
            },
        },
        None => {
            return None;
        },
    };
    let usage = match record_field(j, "usage", 3) {
        Some(u) => read_usage(u),
        None => {
            return None;
        },
    };
    if !has_full_form(j, 4) {
        return None;
    }
    let ghost all = views(items@);
    let mut content: Vec<AnthropicContentBlock> = Vec::new();
    let mut i: usize = 0;
    while i < items.len()
        invariant
            all == views(items@),
            field_at(j@, "content"@, 0) == Some(JsonView::Array(all)),
            i <= items@.len(),
            content@.len() == i,
            forall|k: int| 0 <= k < i ==> block_of(#[trigger] all[k]) is Some,
            forall|k: int| 0 <= k < i ==> Some((#[trigger] content@[k])@) == block_of(all[k]),
        decreases items@.len() - i,
    {
        assert(all[i as int] == items@[i as int]@);
        match read_block(&items[i]) {
            Some(b) => {
                content.push(b);
            },
            None => {
                assert(i < all.len() && block_of(all[i as int]) is None);
                return None;
            },
        }
        i = i + 1;
    }
    match (
        read_text(record_field(j, "model", 1)),
        read_maybe_text(record_field(j, "stop_reason", 2)),
        usage,
    ) {
        (Some(model), Some(stop_reason), Some(usage)) => {
            let r = AnthropicResponse { content, model, stop_reason, usage };
            assert(r@.content =~= Seq::new(all.len(), |k: int| block_of(all[k])->Some_0));
            Some(r)
        },
        _ => None,
    }
}

/// Takes the parts of a response from the wire.
pub fn parse_anthropic_response_blocks(blocks: Vec<AnthropicContentBlock>) -> (r: Vec<ContentBlock>)
    ensures
        block_views(r@) == Seq::new(blocks@.len(), |i: int| from_wire(blocks@[i]@)),
{
    let ghost all = blocks@;
    let mut rest = blocks;
    let mut out: Vec<ContentBlock> = Vec::new();
    assert(all.subrange(0, all.len() as int) =~= all);
    while rest.len() > 0
        invariant
            out@.len() <= all.len(),
            rest@ == all.subrange(out@.len() as int, all.len() as int),
            forall|k: int| 0 <= k < out@.len() ==> (#[trigger] out@[k])@ == from_wire(all[k]@),
        decreases rest@.len(),
    {
        let ghost n = out@.len() as int;
        let b = rest.remove(0);
        assert(b == all[n]);
        assert(rest@ =~= all.subrange(n + 1, all.len() as int));
        let c = match b {
            AnthropicContentBlock::Text { text } => ContentBlock::Text { text },
            AnthropicContentBlock::ToolUse { id, name, input } => ContentBlock::ToolUse {
                id,
                name: decode_anthropic_tool_name(name.as_str()),
                input,
            },
            AnthropicContentBlock::ToolResult { tool_use_id, content, is_error } => {
                ContentBlock::ToolResult { tool_use_id, content, is_error }
            },
        };
        out.push(c);
    }
    assert(block_views(out@) =~= Seq::new(all.len(), |i: int| from_wire(all[i]@)));
    out
}

// ---------------------------------------------------------------------------
// The backend
// ---------------------------------------------------------------------------

/// Why the model stopped.
pub open spec fn stop_reason_of(reason: Option<Seq<char>>) -> StopReason {
    if reason == Some("max_tokens"@) {
        StopReason::MaxTokens
    } else if reason == Some("stop_sequence"@) {
        StopReason::StopSequence
    } else if reason == Some("tool_use"@) {
        StopReason::ToolUse
    } else {
        StopReason::EndTurn
    }
}

/// Says why the model stopped.
pub fn stop_reason(reason: &Option<String>) -> (r: StopReason)
    ensures
        r == stop_reason_of(opt_text(*reason)),
{
    match reason {
        Some(t) => {
            let t = t.as_str();
            if str_eq(t, "max_tokens") {
                StopReason::MaxTokens
            } else if str_eq(t, "stop_sequence") {
                StopReason::StopSequence
            } else if str_eq(t, "tool_use") {
                StopReason::ToolUse
            } else {
                StopReason::EndTurn
            }
        },
        None => StopReason::EndTurn,
    }
}

/// The cost of a call in millionths of a cent.
pub open spec fn call_cost(model: Seq<char>, tokens_in: u64, tokens_out: u64) -> nat {
    cost_at(anthropic_prices(model).0, anthropic_prices(model).1, tokens_in, tokens_out)
}

/// `a` is the answer of the backend, given the response.
pub open spec fn answers_with(a: LlmResponse, response: ReplyView, latency_ms: u64) -> bool {
    &&& block_views(a.content_blocks@) == Seq::new(
        response.content.len(),
        |i: int| from_wire(response.content[i]),
    )
    &&& a.model@ == response.model
    &&& a.tokens_in == response.usage.input_tokens
    &&& a.tokens_out == response.usage.output_tokens
    &&& a.latency_ms == latency_ms
    &&& a.stop_reason == stop_reason_of(response.stop_reason)
    &&& a.cost_micros matches Some(c) && c == call_cost(
        response.model,
        response.usage.input_tokens,
        response.usage.output_tokens,
    )
    &&& a.backend == LlmBackend::Frontier
}

/// How many characters of a malformed body an error quotes.
pub const SNIPPET_LIMIT: usize = 600;

/// The message on a malformed body, which quotes its beginning.
pub open spec fn malformed(error: Seq<char>, body: Seq<char>) -> Seq<char> {
    "malformed response body: "@ + error + "; body="@ + first_n(body, SNIPPET_LIMIT as int)
}

/// The result of a call, given the text of the response.
pub open spec fn answers_text(
    r: Result<LlmResponse, ExoError>,
    body: Seq<char>,
    latency_ms: u64,
) -> bool {
    match parsed(body) {
        Err(e) => r matches Err(ExoError::LlmInvocation(m)) && m@ == malformed(e, body),
        Ok(j) => match response_of(j) {
            None => r matches Err(ExoError::LlmInvocation(m)) && m@ == malformed(
                "not a message"@,
                body,
            ),
            Some(response) => r matches Ok(a) && answers_with(a, response, latency_ms),
        },
    }
}

fn malformed_error(error: &str, body: &str) -> (e: ExoError)
    ensures
        e matches ExoError::LlmInvocation(m) && m@ == malformed(error@, body@),
{
    let mut m = "malformed response body: ".to_owned();
    m.append(error);
    m.append("; body=");
    m.append(take_chars(body, SNIPPET_LIMIT).as_str());
    ExoError::LlmInvocation(m)
}

impl AnthropicBackend {
    /// A backend at a base URL.
    pub fn new(base_url: String, model: String, api_key: String) -> (b: AnthropicBackend)
        ensures
            b == (AnthropicBackend { base_url, model, api_key }),
    {
        AnthropicBackend { base_url, model, api_key }
    }

    /// The text of the backend for logs. The key is not part of it.
    pub open spec fn shown(self) -> Seq<char> {
        "AnthropicBackend { base_url: "@ + quoted(self.base_url@) + ", model: "@ + quoted(
            self.model@,
        ) + ", api_key: "@ + quoted("[REDACTED]"@) + " }"@
    }

    /// The text of the backend for logs, without the key.
    pub fn debug_text(&self) -> (r: String)
        ensures
            r@ == self.shown(),
    {
        let mut r = "AnthropicBackend { base_url: ".to_owned();
        r.append(debug_quote(self.base_url.as_str()).as_str());
        r.append(", model: ");
        r.append(debug_quote(self.model.as_str()).as_str());
        r.append(", api_key: ");
        r.append(debug_quote("[REDACTED]").as_str());
        r.append(" }");
        r
    }

    /// The endpoint of the backend.
    pub fn url(&self) -> (r: String)
        ensures
            r@ == endpoint(self.base_url@, "/v1/messages"@),
    {
        endpoint_url(self.base_url.as_str(), "/v1/messages")
    }

    /// The headers of a request: the key, the version of the API and the content type.
    pub fn headers(&self) -> (r: Vec<(String, String)>)
        ensures
            r@.len() == 3,
            r@[0].0@ == "x-api-key"@ && r@[0].1 == self.api_key,
            r@[1].0@ == "anthropic-version"@ && r@[1].1@ == "2023-06-01"@,
            r@[2].0@ == "content-type"@ && r@[2].1@ == "application/json"@,
    {
        vec![
            ("x-api-key".to_owned(), self.api_key.clone()),
            ("anthropic-version".to_owned(), "2023-06-01".to_owned()),
            ("content-type".to_owned(), "application/json".to_owned()),
        ]
    }

    /// Builds the body of a request.
    pub fn build_request_body(&self, request: &LlmRequest) -> (b: AnthropicRequest)
        ensures
            is_body(b, self.model@, *request),
    {
        let mut messages: Vec<AnthropicMessage> = Vec::new();
        let mut i: usize = 0;
        while i < request.messages.len()
            invariant
                i <= request.messages@.len(),
                messages@.len() == i,
                forall|k: int|
                    0 <= k < i ==> is_wire_message(
                        #[trigger] messages@[k],
                        request.messages@[k],
                    ),
            decreases request.messages@.len() - i,
        {
            let msg = &request.messages[i];
            let role = match msg.role {
                LlmRole::System => "user",
                LlmRole::User => "user",
                LlmRole::Assistant => "assistant",
            };
            messages.push(
                AnthropicMessage {
                    role: role.to_owned(),
                    content: anthropic_content_from_blocks(&msg.content),
                },
            );
            i = i + 1;
        }
        AnthropicRequest {
            model: self.model.clone(),
            max_tokens: request.max_output_tokens,
            system: clone_opt(&request.system_prompt),
            messages,
            temperature: clone_opt(&request.temperature),
            stop_sequences: clone_if_any(&request.stop_sequences),
            stream: effective_stream(request),
            tools: wire_tools(&request.tools),
        }
    }

    /// Turns a response that was read into the answer of the backend.
    pub fn answer(&self, response: AnthropicResponse, latency_ms: u64) -> (a: LlmResponse)
        ensures
            answers_with(a, response@, latency_ms),
    {
        let ghost view = response@;
        let reason = stop_reason(&response.stop_reason);
        let cost: u128 = estimate_anthropic_cost(
            response.model.as_str(),
            response.usage.input_tokens,
            response.usage.output_tokens,
        );
        let blocks = parse_anthropic_response_blocks(response.content);
        assert(block_views(blocks@) =~= Seq::new(
            view.content.len(),
            |i: int| from_wire(view.content[i]),
        ));
        LlmResponse {
            content_blocks: blocks,
            model: response.model,
            tokens_in: response.usage.input_tokens,
            tokens_out: response.usage.output_tokens,
            latency_ms,
            stop_reason: reason,
            cost_micros: Some(cost),
            backend: LlmBackend::Frontier,
        }
    }

    /// Turns the text of a response into the answer of the backend.
    pub fn answer_text(&self, body: &str, latency_ms: u64) -> (r: Result<LlmResponse, ExoError>)
        ensures
            answers_text(r, body@, latency_ms),
    {
        let j = match parse_json(body) {
            Ok(j) => j,
            Err(e) => {
                return Err(malformed_error(e.as_str(), body));
            },
        };
        match read_response(&j) {
            Some(response) => Ok(self.answer(response, latency_ms)),
            None => Err(malformed_error("not a message", body)),
        }
    }
}

// ---------------------------------------------------------------------------
// Laws
// ---------------------------------------------------------------------------

/// What is logged of a backend does not depend on its key.
pub proof fn logs_never_show_the_key(a: AnthropicBackend, b: AnthropicBackend)
    requires
        a.base_url == b.base_url,
        a.model == b.model,
    ensures
        a.shown() == b.shown(),
{
}

/// A part comes back from the wire as it was sent.
pub proof fn blocks_survive_the_wire(b: BlockView)
    ensures
        from_wire(to_wire(b)) == b,
{
    match b {
        BlockView::ToolUse { id, name, input } => {
            names_survive_the_wire(name);
        },
        _ => {},
    }
}

/// No message on the wire has the system role: the system prompt goes into a field of
/// its own.
pub proof fn system_prompt_is_no_message(b: AnthropicRequest, model: Seq<char>, request: LlmRequest, i: int)
    requires
        is_body(b, model, request),
        0 <= i < b.messages@.len(),
    ensures
        b.messages@[i].role@ != "system"@,
        b.system == request.system_prompt,
{
    reveal_strlit("system");
    reveal_strlit("user");
    reveal_strlit("assistant");
    assert(is_wire_message(b.messages@[i], request.messages@[i]));
    assert("system"@.len() == 6);
    assert("user"@.len() == 4);
    assert("assistant"@.len() == 9);
}

/// A request with tools is never streamed.
pub proof fn tools_switch_streaming_off(b: AnthropicRequest, model: Seq<char>, request: LlmRequest)
    requires
        is_body(b, model, request),
        request.tools@.len() > 0,
    ensures
        !b.stream,
{
}

} // verus!

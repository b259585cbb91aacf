//! Chat messages in the form of the OpenAI API, which Ollama shares.

use vstd::prelude::*;
use vstd::string::*;

use crate::decode::{
    drop_null, field_at, has_full_form, is_full_record, maybe_text_of, not_null, read_maybe_text,
    read_text, record_field, text_of,
};
use crate::json::{
    member, member_views, parse_json, parsed, ref_json, views, write_json, written, Json, JsonView,
};
use crate::llm::{
    block_views, collect_text, message_views, text_in, BlockView, LlmMessage, LlmRole, MessageView,
};
use crate::text::{dec, dec_usize, opt_text};
use crate::tool_defs::{definition_views, ToolDefinition, ToolDefinitionView};
use crate::types::{ContentBlock, ExoError};

verus! {

/// A chat message.
#[derive(Debug, PartialEq, Eq)]
pub struct OpenAiMessage {
    pub role: String,
    pub content: Option<String>,
    pub tool_calls: Option<Vec<OpenAiToolCall>>,
    /// The call that a message of a tool answers.
    pub tool_call_id: Option<String>,
}

/// The call of a tool in a message.
#[derive(Debug, PartialEq, Eq)]
pub struct OpenAiToolCall {
    /// Some servers leave the identifier out.
    pub id: Option<String>,
    pub call_type: String,
    pub function: OpenAiFunctionCall,
}

/// The function that a call names, with its arguments as JSON text.
#[derive(Debug, PartialEq, Eq)]
pub struct OpenAiFunctionCall {
    pub name: String,
    pub arguments: String,
}

// ---------------------------------------------------------------------------
// Models
// ---------------------------------------------------------------------------

/// The model of a tool call.
pub struct CallView {
    pub id: Option<Seq<char>>,
    pub call_type: Seq<char>,
    pub name: Seq<char>,
    pub arguments: Seq<char>,
}

impl View for OpenAiToolCall {
    type V = CallView;

    open spec fn view(&self) -> CallView {
        CallView {
            id: opt_text(self.id),
            call_type: self.call_type@,
            name: self.function.name@,
            arguments: self.function.arguments@,
        }
    }
}

/// The models of a list of tool calls.
pub open spec fn call_views(calls: Seq<OpenAiToolCall>) -> Seq<CallView> {
    Seq::new(calls.len(), |i: int| calls[i]@)
}

/// The models of an optional list of tool calls.
pub open spec fn opt_calls(o: Option<Vec<OpenAiToolCall>>) -> Option<Seq<CallView>> {
    match o {
        Some(v) => Some(call_views(v@)),
        None => None,
    }
}

/// The model of a chat message.
pub struct ChatView {
    pub role: Seq<char>,
    pub content: Option<Seq<char>>,
    pub tool_calls: Option<Seq<CallView>>,
    pub tool_call_id: Option<Seq<char>>,
}

impl View for OpenAiMessage {
    type V = ChatView;

    open spec fn view(&self) -> ChatView {
        ChatView {
            role: self.role@,
            content: opt_text(self.content),
            tool_calls: opt_calls(self.tool_calls),
            tool_call_id: opt_text(self.tool_call_id),
        }
    }
}

/// The models of a list of chat messages.
pub open spec fn chat_views(messages: Seq<OpenAiMessage>) -> Seq<ChatView> {
    Seq::new(messages.len(), |i: int| messages[i]@)
}

// ---------------------------------------------------------------------------
// From messages to chat messages
// ---------------------------------------------------------------------------

/// The name of a role.
pub open spec fn role_name(role: LlmRole) -> Seq<char> {
    match role {
        LlmRole::System => "system"@,
        LlmRole::User => "user"@,
        LlmRole::Assistant => "assistant"@,
    }
}

/// The tool calls among the parts of a message, in order.
pub open spec fn calls_in(blocks: Seq<BlockView>) -> Seq<CallView>
    decreases blocks.len(),
{
    if blocks.len() == 0 {
        Seq::empty()
    } else {
        match blocks.last() {
            BlockView::ToolUse { id, name, input } => calls_in(blocks.drop_last()).push(
                CallView {
                    id: Some(id),
                    call_type: "function"@,
                    name,
                    arguments: written(input),
                },
            ),
            _ => calls_in(blocks.drop_last()),
        }
    }
}

/// The messages for the tool results among the parts of a message, in order.
pub open spec fn answers_in(blocks: Seq<BlockView>) -> Seq<ChatView>
    decreases blocks.len(),
{
    if blocks.len() == 0 {
        Seq::empty()
    } else {
        match blocks.last() {
            BlockView::ToolResult { tool_use_id, content, is_error } => answers_in(
                blocks.drop_last(),
            ).push(
                ChatView {
                    role: "tool"@,
                    content: Some(content),
                    tool_calls: None,
                    tool_call_id: Some(tool_use_id),
                },
            ),
            _ => answers_in(blocks.drop_last()),
        }
    }
}

/// The message that holds the text and the tool calls.
pub open spec fn spoken(m: MessageView) -> ChatView {
    let text = text_in(m.content);
    let calls = calls_in(m.content);
    ChatView {
        role: role_name(m.role),
        content: if text.len() == 0 {
            None
        } else {
            Some(text)
        },
        tool_calls: if calls.len() == 0 {
            None
        } else {
            Some(calls)
        },
        tool_call_id: None,
    }
}

/// The chat messages for a message: one with its text and tool calls, and one for
/// each tool result.
pub open spec fn chats_of(m: MessageView) -> Seq<ChatView> {
    seq![spoken(m)] + answers_in(m.content)
}

/// The chat messages for a list of messages.
pub open spec fn all_chats(messages: Seq<MessageView>) -> Seq<ChatView>
    decreases messages.len(),
{
    if messages.len() == 0 {
        Seq::empty()
    } else {
        all_chats(messages.drop_last()) + chats_of(messages.last())
    }
}

/// The system prompt as a chat message, if there is one.
pub open spec fn system_chat(system: Option<Seq<char>>) -> Seq<ChatView> {
    match system {
        Some(t) => seq![
            ChatView {
                role: "system"@,
                content: Some(t),
                tool_calls: None,
                tool_call_id: None,
            },
        ],
        None => Seq::empty(),
    }
}

fn role_str(role: LlmRole) -> (r: &'static str)
    ensures
        r@ == role_name(role),
{
    match role {
        LlmRole::System => "system",
        LlmRole::User => "user",
        LlmRole::Assistant => "assistant",
    }
}

fn collect_calls(blocks: &Vec<ContentBlock>) -> (r: Vec<OpenAiToolCall>)
    ensures
        call_views(r@) == calls_in(block_views(blocks@)),
{
    let mut out: Vec<OpenAiToolCall> = Vec::new();
    let ghost all = block_views(blocks@);
    let mut i: usize = 0;
    assert(call_views(out@) =~= calls_in(all.subrange(0, 0)));
    while i < blocks.len()
        invariant
            all == block_views(blocks@),
            i <= blocks@.len(),
            call_views(out@) == calls_in(all.subrange(0, i as int)),
        decreases blocks@.len() - i,
    {
        assert(all.subrange(0, i + 1).drop_last() =~= all.subrange(0, i as int));
        assert(all.subrange(0, i + 1).last() == blocks@[i as int]@);
        let ghost before = out@;
        match &blocks[i] {
            ContentBlock::ToolUse { id, name, input } => {
                let call = OpenAiToolCall {
                    id: Some(id.clone()),
                    call_type: "function".to_owned(),
                    function: OpenAiFunctionCall {
                        name: name.clone(),
                        arguments: write_json(input),
                    },
                };
                let ghost v = call@;
                out.push(call);
                assert(call_views(out@) =~= call_views(before).push(v));
            },
            _ => {},
        }
        i = i + 1;
    }
    assert(all.subrange(0, all.len() as int) =~= all);
    out
}

/// Appends the chat messages for a message.
pub fn append_openai_messages(messages: &mut Vec<OpenAiMessage>, msg: &LlmMessage)
    ensures
        chat_views(final(messages)@) == chat_views(old(messages)@) + chats_of(msg@),
{
    let ghost start = messages@;
    let ghost all = block_views(msg.content@);
    let text = collect_text(&msg.content);
    let calls = collect_calls(&msg.content);
    let ghost call_list = calls@;
    assert(call_views(call_list).len() == call_list.len());
    let content = if text.as_str().is_empty() {
        None
    } else {
        Some(text)
    };
    let tool_calls = if calls.len() == 0 {
        None
    } else {
        Some(calls)
    };
    let first = OpenAiMessage {
        role: role_str(msg.role).to_owned(),
        content,
        tool_calls,
        tool_call_id: None,
    };
    let ghost said = first@;
    assert(said == spoken(msg@));
    messages.push(first);
    let mut i: usize = 0;
    assert(chat_views(messages@) =~= chat_views(start) + (seq![said] + answers_in(
        all.subrange(0, 0),
    )));
    while i < msg.content.len()
        invariant
            all == block_views(msg.content@),
            i <= msg.content@.len(),
            chat_views(messages@) == chat_views(start) + (seq![said] + answers_in(
                all.subrange(0, i as int),
            )),
        decreases msg.content@.len() - i,
    {
        let ghost before = messages@;
        let ghost now = all.subrange(0, i + 1);
        assert(now.drop_last() =~= all.subrange(0, i as int));
        assert(now.last() == msg.content@[i as int]@);
        match &msg.content[i] {
            ContentBlock::ToolResult { tool_use_id, content, is_error: _ } => {
                let m = OpenAiMessage {
                    role: "tool".to_owned(),
                    content: Some(content.clone()),
                    tool_calls: None,
                    tool_call_id: Some(tool_use_id.clone()),
                };
                let ghost v = m@;
                messages.push(m);
                assert(chat_views(messages@) =~= chat_views(before).push(v));
                assert(chat_views(messages@) =~= chat_views(start) + (seq![said] + answers_in(
                    now,
                )));
            },
            _ => {},
        }
        i = i + 1;
    }
    assert(all.subrange(0, all.len() as int) =~= all);
}

/// The chat messages of a request: the system prompt first, then the messages.
pub fn chat_messages(system: &Option<String>, list: &Vec<LlmMessage>) -> (r: Vec<OpenAiMessage>)
    ensures
        chat_views(r@) == system_chat(opt_text(*system)) + all_chats(message_views(list@)),
{
    let mut out: Vec<OpenAiMessage> = Vec::new();
    match system {
        Some(t) => {
            out.push(
                OpenAiMessage {
                    role: "system".to_owned(),
                    content: Some(t.clone()),
                    tool_calls: None,
                    tool_call_id: None,
                },
            );
        },
        None => {},
    }
    let ghost head = system_chat(opt_text(*system));
    let ghost all = message_views(list@);
    assert(chat_views(out@) =~= head + all_chats(all.subrange(0, 0)));
    let mut i: usize = 0;
    while i < list.len()
        invariant
            all == message_views(list@),
            i <= list@.len(),
            chat_views(out@) == head + all_chats(all.subrange(0, i as int)),
        decreases list@.len() - i,
    {
        let ghost now = all.subrange(0, i + 1);
        let ghost before = chat_views(out@);
        assert(now.drop_last() =~= all.subrange(0, i as int));
        assert(now.last() == list@[i as int]@);
        append_openai_messages(&mut out, &list[i]);
        assert(before + chats_of(list@[i as int]@) =~= head + all_chats(now));
        i = i + 1;
    }
    assert(all.subrange(0, all.len() as int) =~= all);
    out
}

// ---------------------------------------------------------------------------
// To JSON
// ---------------------------------------------------------------------------

/// The member, if there is a value for it.
pub open spec fn opt_member(key: Seq<char>, value: Option<JsonView>) -> Seq<(Seq<char>, JsonView)> {
    match value {
        Some(v) => seq![(key, v)],
        None => Seq::empty(),
    }
}

/// The string, if there is a text.
pub open spec fn opt_string(t: Option<Seq<char>>) -> Option<JsonView> {
    match t {
        Some(s) => Some(JsonView::Str(s)),
        None => None,
    }
}

/// A tool call as JSON.
pub open spec fn call_json(c: CallView) -> JsonView {
    JsonView::Object(
        seq![
            (
                "id"@,
                match c.id {
                    Some(t) => JsonView::Str(t),
                    None => JsonView::Null,
                },
            ),
            ("type"@, JsonView::Str(c.call_type)),
            (
                "function"@,
                JsonView::Object(
                    seq![
                        ("name"@, JsonView::Str(c.name)),
                        ("arguments"@, JsonView::Str(c.arguments)),
                    ],
                ),
            ),
        ],
    )
}

/// The tool calls as JSON.
pub open spec fn calls_json(calls: Seq<CallView>) -> JsonView {
    JsonView::Array(Seq::new(calls.len(), |i: int| call_json(calls[i])))
}

/// A chat message as JSON. What is absent is left out.
pub open spec fn chat_json(c: ChatView) -> JsonView {
    JsonView::Object(
        seq![("role"@, JsonView::Str(c.role))] + opt_member("content"@, opt_string(c.content))
            + opt_member(
            "tool_calls"@,
            match c.tool_calls {
                Some(calls) => Some(calls_json(calls)),
                None => None,
            },
        ) + opt_member("tool_call_id"@, opt_string(c.tool_call_id)),
    )
}

/// The chat messages as JSON.
pub open spec fn chats_json(chats: Seq<ChatView>) -> JsonView {
    JsonView::Array(Seq::new(chats.len(), |i: int| chat_json(chats[i])))
}

/// Adds a member, if there is a value for it.
pub fn push_opt(members: &mut Vec<(String, Json)>, key: &str, value: Option<Json>)
    ensures
        member_views(final(members)@) == member_views(old(members)@) + opt_member(
            key@,
            crate::json::opt_json(value),
        ),
{
    let ghost before = members@;
    match value {
        Some(v) => {
            let ghost j = v@;
            members.push(member(key, v));
            assert(member_views(members@) =~= member_views(before) + seq![(key@, j)]);
        },
        None => {
            assert(member_views(members@) =~= member_views(before) + Seq::<
                (Seq<char>, JsonView),
            >::empty());
        },
    }
}

/// The string for an optional text.
pub fn opt_str_json(t: &Option<String>) -> (r: Option<Json>)
    ensures
        crate::json::opt_json(r) == opt_string(opt_text(*t)),
{
    match t {
        Some(s) => Some(Json::Str(s.clone())),
        None => None,
    }
}

fn call_to_json(c: &OpenAiToolCall) -> (j: Json)
    ensures
        j@ == call_json(c@),
{
    let id = match &c.id {
        Some(t) => Json::Str(t.clone()),
        None => Json::Null,
    };
    let function = vec![
        member("name", Json::str(c.function.name.as_str())),
        member("arguments", Json::str(c.function.arguments.as_str())),
    ];
    assert(member_views(function@) =~= seq![
        ("name"@, JsonView::Str(c@.name)),
        ("arguments"@, JsonView::Str(c@.arguments)),
    ]);
    let members = vec![
        member("id", id),
        member("type", Json::str(c.call_type.as_str())),
        member("function", Json::object(function)),
    ];
    assert(member_views(members@) =~= call_json(c@)->Object_0);
    Json::object(members)
}

fn calls_to_json(calls: &Vec<OpenAiToolCall>) -> (j: Json)
    ensures
        j@ == calls_json(call_views(calls@)),
{
    let mut items: Vec<Json> = Vec::new();
    let mut i: usize = 0;
    while i < calls.len()
        invariant
            i <= calls@.len(),
            items@.len() == i,
            forall|k: int| 0 <= k < i ==> (#[trigger] items@[k])@ == call_json(calls@[k]@),
        decreases calls@.len() - i,
    {
        items.push(call_to_json(&calls[i]));
        i = i + 1;
    }
    assert(views(items@) =~= calls_json(call_views(calls@))->Array_0);
    Json::array(items)
}

/// Writes a chat message as JSON.
pub fn chat_to_json(m: &OpenAiMessage) -> (j: Json)
    ensures
        j@ == chat_json(m@),
{
    let mut members: Vec<(String, Json)> = Vec::new();
    members.push(member("role", Json::str(m.role.as_str())));
    assert(member_views(members@) =~= seq![("role"@, JsonView::Str(m.role@))]);
    push_opt(&mut members, "content", opt_str_json(&m.content));
    let calls = match &m.tool_calls {
        Some(c) => Some(calls_to_json(c)),
        None => None,
    };
    push_opt(&mut members, "tool_calls", calls);
    push_opt(&mut members, "tool_call_id", opt_str_json(&m.tool_call_id));
    Json::object(members)
}

/// Writes chat messages as JSON.
pub fn chats_to_json(messages: &Vec<OpenAiMessage>) -> (j: Json)
    ensures
        j@ == chats_json(chat_views(messages@)),
{
    let mut items: Vec<Json> = Vec::new();
    let mut i: usize = 0;
    while i < messages.len()
        invariant
            i <= messages@.len(),
            items@.len() == i,
            forall|k: int| 0 <= k < i ==> (#[trigger] items@[k])@ == chat_json(messages@[k]@),
        decreases messages@.len() - i,
    {
        items.push(chat_to_json(&messages[i]));
        i = i + 1;
    }
    assert(views(items@) =~= chats_json(chat_views(messages@))->Array_0);
    Json::array(items)
}

/// A tool definition as JSON.
pub open spec fn tool_json(t: ToolDefinitionView) -> JsonView {
    JsonView::Object(
        seq![
            ("type"@, JsonView::Str("function"@)),
            (
                "function"@,
                JsonView::Object(
                    seq![
                        ("name"@, JsonView::Str(t.name)),
                        ("description"@, JsonView::Str(t.description)),
                        ("parameters"@, t.input_schema),
                    ],
                ),
            ),
        ],
    )
}

/// The tool definitions as JSON, if there are any.
pub open spec fn tools_json(tools: Seq<ToolDefinitionView>) -> Option<JsonView> {
    if tools.len() == 0 {
        None
    } else {
        Some(JsonView::Array(Seq::new(tools.len(), |i: int| tool_json(tools[i]))))
    }
}

/// Writes a tool definition as JSON.
pub fn tool_to_openai_definition(tool: &ToolDefinition) -> (j: Json)
    ensures
        j@ == tool_json(tool@),
{
    let function = vec![
        member("name", Json::str(tool.name.as_str())),
        member("description", Json::str(tool.description.as_str())),
        member("parameters", tool.input_schema.clone()),
    ];
    assert(member_views(function@) =~= seq![
        ("name"@, JsonView::Str(tool.name@)),
        ("description"@, JsonView::Str(tool.description@)),
        ("parameters"@, tool.input_schema@),
    ]);
    let members = vec![
        member("type", Json::str("function")),
        member("function", Json::object(function)),
    ];
    assert(member_views(members@) =~= tool_json(tool@)->Object_0);
    Json::object(members)
}

/// Writes the tool definitions as JSON; nothing if there are none.
pub fn tools_to_json(tools: &Vec<ToolDefinition>) -> (r: Option<Json>)
    ensures
        crate::json::opt_json(r) == tools_json(definition_views(tools@)),
{
    if tools.len() == 0 {
        return None;
    }
    let mut items: Vec<Json> = Vec::new();
    let mut i: usize = 0;
    while i < tools.len()
        invariant
            i <= tools@.len(),
            items@.len() == i,
            forall|k: int| 0 <= k < i ==> (#[trigger] items@[k])@ == tool_json(tools@[k]@),
        decreases tools@.len() - i,
    {
        items.push(tool_to_openai_definition(&tools[i]));
        i = i + 1;
    }
    assert(views(items@) =~= tools_json(definition_views(tools@))->Some_0->Array_0);
    Some(Json::array(items))
}

// ---------------------------------------------------------------------------
// From JSON
// ---------------------------------------------------------------------------

/// The tool call that a value describes.
pub open spec fn call_of(j: JsonView) -> Option<CallView> {
    let id = maybe_text_of(field_at(j, "id"@, 0));
    let kind = text_of(field_at(j, "type"@, 1));
    match field_at(j, "function"@, 2) {
        Some(f) => {
            let name = text_of(field_at(f, "name"@, 0));
            let arguments = text_of(field_at(f, "arguments"@, 1));
            if is_full_record(j, 3) && is_full_record(f, 2) && id is Some && kind is Some && name
                is Some && arguments is Some {
                Some(
                    CallView {
                        id: id->Some_0,
                        call_type: kind->Some_0,
                        name: name->Some_0,
                        arguments: arguments->Some_0,
                    },
                )
            } else {
                None
            }
        },
        None => None,
    }
}

/// Every item describes a tool call.
pub open spec fn all_calls(items: Seq<JsonView>) -> bool {
    forall|i: int| 0 <= i < items.len() ==> call_of(#[trigger] items[i]) is Some
}

/// An optional list of tool calls, absent if the value is missing or null. Nothing if
/// the value is no such list.
pub open spec fn maybe_calls_of(v: Option<JsonView>) -> Option<Option<Seq<CallView>>> {
    match not_null(v) {
        None => Some(None),
        Some(JsonView::Array(items)) => if all_calls(items) {
            Some(Some(Seq::new(items.len(), |i: int| call_of(items[i])->Some_0)))
        } else {
            None
        },
        Some(_) => None,
    }
}

/// The chat message that a value describes.
pub open spec fn chat_of(j: JsonView) -> Option<ChatView> {
    let role = text_of(field_at(j, "role"@, 0));
    let content = maybe_text_of(field_at(j, "content"@, 1));
    let calls = maybe_calls_of(field_at(j, "tool_calls"@, 2));
    let id = maybe_text_of(field_at(j, "tool_call_id"@, 3));
    if is_full_record(j, 4) && role is Some && content is Some && calls is Some && id is Some {
        Some(
            ChatView {
                role: role->Some_0,
                content: content->Some_0,
                tool_calls: calls->Some_0,
                tool_call_id: id->Some_0,
            },
        )
    } else {
        None
    }
}

/// The model of a tool call that was read.
pub open spec fn opt_call(c: Option<OpenAiToolCall>) -> Option<CallView> {
    match c {
        Some(c) => Some(c@),
        None => None,
    }
}

/// Reads a tool call.
pub fn read_call(j: &Json) -> (r: Option<OpenAiToolCall>)
    ensures
        opt_call(r) == call_of(j@),
{
    let f = match record_field(j, "function", 2) {
        Some(f) => f,
        None => {
            return None;
        },
    };
    if !has_full_form(j, 3) || !has_full_form(f, 2) {
        return None;
    }
    let id = read_maybe_text(record_field(j, "id", 0));
    let kind = read_text(record_field(j, "type", 1));
    let name = read_text(record_field(f, "name", 0));
    let arguments = read_text(record_field(f, "arguments", 1));
    match (id, kind, name, arguments) {
        (Some(id), Some(call_type), Some(name), Some(arguments)) => Some(
            OpenAiToolCall { id, call_type, function: OpenAiFunctionCall { name, arguments } },
        ),
        _ => None,
    }
}

/// The model of an optional list of tool calls that was read.
pub open spec fn opt_opt_calls(o: Option<Option<Vec<OpenAiToolCall>>>) -> Option<
    Option<Seq<CallView>>,
> {
    match o {
        Some(c) => Some(opt_calls(c)),
        None => None,
    }
}

fn read_maybe_calls(v: Option<&Json>) -> (r: Option<Option<Vec<OpenAiToolCall>>>)
    ensures
        opt_opt_calls(r) == maybe_calls_of(ref_json(v)),
{
    let list = match drop_null(v) {
        None => {
            return Some(None);
        },
        Some(j) => j,
    };
    let items = match list.as_array() {
        Some(items) => items,
        None => {
            return None;
        },
    };
    let ghost all = views(items@);
    let mut out: Vec<OpenAiToolCall> = Vec::new();
    let mut i: usize = 0;
    while i < items.len()
        invariant
            all == views(items@),
            not_null(ref_json(v)) == Some(JsonView::Array(all)),
            i <= items@.len(),
            out@.len() == i,
            forall|k: int| 0 <= k < i ==> call_of(#[trigger] all[k]) is Some,
            forall|k: int| 0 <= k < i ==> Some((#[trigger] out@[k])@) == call_of(all[k]),
        decreases items@.len() - i,
    {
        assert(all[i as int] == items@[i as int]@);
        match read_call(&items[i]) {
            Some(c) => {
                out.push(c);
            },
            None => {
                assert(i < all.len() && call_of(all[i as int]) is None);
                return None;
            },
        }
        i = i + 1;
    }
    assert(call_views(out@) =~= Seq::new(all.len(), |k: int| call_of(all[k])->Some_0));
    Some(Some(out))
}

/// The model of a chat message that was read.
pub open spec fn opt_chat(m: Option<OpenAiMessage>) -> Option<ChatView> {
    match m {
        Some(m) => Some(m@),
        None => None,
    }
}

/// Reads a chat message.
pub fn read_chat(j: &Json) -> (r: Option<OpenAiMessage>)
    ensures
        opt_chat(r) == chat_of(j@),
{
    if !has_full_form(j, 4) {
        return None;
    }
    let role = read_text(record_field(j, "role", 0));
    let content = read_maybe_text(record_field(j, "content", 1));
    let calls = read_maybe_calls(record_field(j, "tool_calls", 2));
    let id = read_maybe_text(record_field(j, "tool_call_id", 3));
    match (role, content, calls, id) {
        (Some(role), Some(content), Some(tool_calls), Some(tool_call_id)) => Some(
            OpenAiMessage { role, content, tool_calls, tool_call_id },
        ),
        _ => None,
    }
}

// ---------------------------------------------------------------------------
// From a chat message to the parts of a response
// ---------------------------------------------------------------------------

/// The part for the `i`-th tool call, or the error of its arguments.
pub open spec fn call_block(c: CallView, i: nat) -> Result<BlockView, Seq<char>> {
    match parsed(c.arguments) {
        Ok(input) => Ok(
            BlockView::ToolUse {
                id: match c.id {
                    Some(t) => t,
                    None => "synthetic_call_"@ + dec(i),
                },
                name: c.name,
                input,
            },
        ),
        Err(e) => Err("malformed tool call arguments for '"@ + c.name + "': "@ + e),
    }
}

/// The parts for the first `n` tool calls, or the first error.
pub open spec fn call_blocks(calls: Seq<CallView>, n: int) -> Result<Seq<BlockView>, Seq<char>>
    decreases n,
{
    if n <= 0 {
        Ok(Seq::empty())
    } else {
        match call_blocks(calls, n - 1) {
            Ok(front) => match call_block(calls[n - 1], (n - 1) as nat) {
                Ok(b) => Ok(front.push(b)),
                Err(e) => Err(e),
            },
            Err(e) => Err(e),
        }
    }
}

/// The parts of a chat message: its text, then its tool calls. An error if the
/// arguments of a call are no JSON.
pub open spec fn chat_blocks(c: ChatView) -> Result<Seq<BlockView>, Seq<char>> {
    let text = match c.content {
        Some(t) => if t.len() > 0 {
            seq![BlockView::Text { text: t }]
        } else {
            Seq::empty()
        },
        None => Seq::empty(),
    };
    match c.tool_calls {
        Some(calls) => match call_blocks(calls, calls.len() as int) {
            Ok(blocks) => Ok(text + blocks),
            Err(e) => Err(e),
        },
        None => Ok(text),
    }
}

/// The parts of a response that were read, or the error.
pub open spec fn blocks_outcome(r: Result<Vec<ContentBlock>, ExoError>) -> Result<
    Seq<BlockView>,
    Seq<char>,
> {
    match r {
        Ok(blocks) => Ok(block_views(blocks@)),
        Err(e) => Err(crate::decide::error_text(e)),
    }
}

proof fn call_blocks_fail_early(calls: Seq<CallView>, k: int, n: int)
    requires
        0 <= k <= n,
        call_blocks(calls, k) is Err,
    ensures
        call_blocks(calls, n) == call_blocks(calls, k),
    decreases n - k,
{
    if k < n {
        call_blocks_fail_early(calls, k, n - 1);
    }
}

/// Takes a chat message of a response apart. A call without an identifier gets one by
/// its place.
pub fn parse_openai_response_blocks(message: OpenAiMessage) -> (r: Result<
    Vec<ContentBlock>,
    ExoError,
>)
    ensures
        blocks_outcome(r) == chat_blocks(message@),
        r matches Err(e) ==> e is LlmInvocation,
{
    let ghost view = message@;
    let mut blocks: Vec<ContentBlock> = Vec::new();
    match message.content {
        Some(content) => {
            if !content.as_str().is_empty() {
                blocks.push(ContentBlock::Text { text: content });
            }
        },
        None => {},
    }
    let ghost text = block_views(blocks@);
    assert(text =~= (match view.content {
        Some(t) => if t.len() > 0 {
            seq![BlockView::Text { text: t }]
        } else {
            Seq::empty()
        },
        None => Seq::empty(),
    }));
    match message.tool_calls {
        None => {},
        Some(calls) => {
            let ghost all = call_views(calls@);
            let mut i: usize = 0;
            assert(block_views(blocks@) =~= text + Seq::<BlockView>::empty());
            while i < calls.len()
                invariant
                    all == call_views(calls@),
                    view == message@,
                    view.tool_calls == Some(all),
                    i <= calls@.len(),
                    call_blocks(all, i as int) is Ok,
                    block_views(blocks@) == text + call_blocks(all, i as int)->Ok_0,
                decreases calls@.len() - i,
            {
                let call = &calls[i];
                assert(all[i as int] == call@);
                match parse_json(call.function.arguments.as_str()) {
                    Ok(input) => {
                        let id = match &call.id {
                            Some(t) => t.clone(),
                            None => {
                                let mut t = "synthetic_call_".to_owned();
                                t.append(dec_usize(i).as_str());
                                t
                            },
                        };
                        let b = ContentBlock::ToolUse {
                            id,
                            name: call.function.name.clone(),
                            input,
                        };
                        let ghost before = blocks@;
                        let ghost v = b@;
                        blocks.push(b);
                        assert(block_views(blocks@) =~= block_views(before).push(v));
                        assert(block_views(blocks@) =~= text + call_blocks(all, i + 1)->Ok_0);
                    },
                    Err(e) => {
                        let mut m = "malformed tool call arguments for '".to_owned();
                        m.append(call.function.name.as_str());
                        m.append("': ");
                        m.append(e.as_str());
                        proof {
                            assert(call_block(all[i as int], i as nat) == Err::<BlockView, Seq<char>>(
                                m@,
                            ));
                            call_blocks_fail_early(all, i + 1, all.len() as int);
                        }
                        return Err(ExoError::LlmInvocation(m));
                    },
                }
                i = i + 1;
            }
        },
    }
    Ok(blocks)
}

} // verus!

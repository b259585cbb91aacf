//! Laws of the wire formats: what a request holds reaches the model, and what the model
//! says comes back.

use vstd::prelude::*;
use vstd::string::*;

use crate::anthropic::{
    self, block_json, block_of, AnthropicContent, AnthropicContentBlock, AnthropicMessage,
    AnthropicRequest, ReplyView,
};
use crate::chat::{
    all_chats, answers_in, call_block, call_blocks, call_json, call_of, calls_in, calls_json,
    chat_blocks, chat_json, chat_of, chat_views, chats_json, chats_of, opt_member, spoken,
    system_chat, CallView, ChatView,
};
use crate::encode::{field_is_found, names_differ, record};
use crate::json::{opt_json, parsed, string_array, written, JsonView};
use crate::llm::{
    block_views, message_views, text_in, BlockView, LlmRequest, LlmResponse, LlmRole, MessageView,
};
use crate::ollama::{self, OllamaRequest, OllamaView};
use crate::openai::{self, OpenAiCompatBackend, OpenAiRequest, ResponseView};
use crate::text::{opt_text, texts};
use crate::tool_defs::{definition_views, ToolDefinition};
use crate::tool_names::{decoded, names_survive_the_wire};
use crate::types::{ContentBlock, ExoError};

verus! {

// ---------------------------------------------------------------------------
// Texts of messages
// ---------------------------------------------------------------------------

/// The text of a message is that of its parts put together, in order.
pub proof fn texts_add_up(a: Seq<BlockView>, b: Seq<BlockView>)
    ensures
        text_in(a + b) == text_in(a) + text_in(b),
    decreases b.len(),
{
    if b.len() == 0 {
        assert(a + b =~= a);
        assert(text_in(a) + text_in(b) =~= text_in(a));
    } else {
        texts_add_up(a, b.drop_last());
        assert((a + b).drop_last() =~= a + b.drop_last());
        match b.last() {
            BlockView::Text { text } => {
                assert(text_in(a) + (text_in(b.drop_last()) + text) =~= text_in(a) + text_in(
                    b.drop_last(),
                ) + text);
            },
            _ => {},
        }
    }
}

/// A part that is text adds it to the text of a message. Any other part adds nothing.
pub proof fn part_adds_its_text(part: BlockView)
    ensures
        text_in(seq![part]) == match part {
            BlockView::Text { text } => text,
            _ => Seq::empty(),
        },
{
    reveal_with_fuel(text_in, 2);
    assert(seq![part].drop_last() =~= Seq::<BlockView>::empty());
    if let BlockView::Text { text } = part {
        assert(Seq::empty() + text =~= text);
    }
}

// ---------------------------------------------------------------------------
// Anthropic: requests
// ---------------------------------------------------------------------------

/// Every tool of a request is offered to the model: there are as many definitions on the
/// wire as tools, and each stands for the tool in its place, with its description and its
/// schema. Without tools there is no list.
pub proof fn every_tool_is_offered(b: AnthropicRequest, model: Seq<char>, request: LlmRequest)
    requires
        anthropic::is_body(b, model, request),
    ensures
        request.tools@.len() == 0 <==> b.tools is None,
        b.tools matches Some(list) ==> {
            &&& list@.len() == request.tools@.len()
            &&& forall|i: int|
                0 <= i < request.tools@.len() ==> {
                    &&& decoded((#[trigger] list@[i]).name@) == request.tools@[i].name@
                    &&& list@[i].description@ == request.tools@[i].description@
                    &&& list@[i].input_schema@ == request.tools@[i].input_schema@
                }
        },
{
    if let Some(list) = b.tools {
        assert forall|i: int| 0 <= i < request.tools@.len() implies {
            &&& decoded((#[trigger] list@[i]).name@) == request.tools@[i].name@
            &&& list@[i].description@ == request.tools@[i].description@
            &&& list@[i].input_schema@ == request.tools@[i].input_schema@
        } by {
            assert(anthropic::is_wire_tool(list@[i], request.tools@[i]));
            names_survive_the_wire(request.tools@[i].name@);
        }
    }
}

/// The part on the wire says what the part of the message says.
pub open spec fn same_part(w: AnthropicContentBlock, b: ContentBlock) -> bool {
    match (w, b) {
        (AnthropicContentBlock::Text { text: t }, ContentBlock::Text { text }) => t@ == text@,
        (
            AnthropicContentBlock::ToolUse { id: i, name: n, input: j },
            ContentBlock::ToolUse { id, name, input },
        ) => i@ == id@ && decoded(n@) == name@ && j@ == input@,
        (
            AnthropicContentBlock::ToolResult { tool_use_id: i, content: c, is_error: e },
            ContentBlock::ToolResult { tool_use_id, content, is_error },
        ) => i@ == tool_use_id@ && c@ == content@ && e == is_error,
        _ => false,
    }
}

/// Every message of a request is sent, in order. What the model said stays its own; all
/// else comes from the user. A message that is nothing but text is sent as its text;
/// otherwise all its parts are sent, in order.
pub proof fn every_message_is_sent(
    b: AnthropicRequest,
    model: Seq<char>,
    request: LlmRequest,
    i: int,
)
    requires
        anthropic::is_body(b, model, request),
        0 <= i < request.messages@.len(),
    ensures
        b.messages@.len() == request.messages@.len(),
        request.messages@[i].role is Assistant ==> b.messages@[i].role@ == "assistant"@,
        !(request.messages@[i].role is Assistant) ==> b.messages@[i].role@ == "user"@,
        match b.messages@[i].content {
            AnthropicContent::Text(t) => {
                &&& forall|k: int|
                    0 <= k < request.messages@[i].content@.len() ==> (
                    #[trigger] request.messages@[i].content@[k]) is Text
                &&& t@ == text_in(block_views(request.messages@[i].content@))
            },
            AnthropicContent::Blocks(list) => {
                &&& list@.len() == request.messages@[i].content@.len()
                &&& forall|k: int|
                    0 <= k < list@.len() ==> same_part(
                        #[trigger] list@[k],
                        request.messages@[i].content@[k],
                    )
            },
        },
{
    let parts = request.messages@[i].content@;
    let blocks = block_views(parts);
    assert(anthropic::is_wire_message(b.messages@[i], request.messages@[i]));
    match b.messages@[i].content {
        AnthropicContent::Text(t) => {
            assert(anthropic::only_text(blocks));
            assert forall|k: int| 0 <= k < parts.len() implies (#[trigger] parts[k]) is Text by {
                assert(blocks[k] is Text);
                assert(blocks[k] == parts[k]@);
            }
        },
        AnthropicContent::Blocks(list) => {
            let wired = anthropic::wire_views(list@);
            assert(wired.len() == blocks.len());
            assert forall|k: int| 0 <= k < list@.len() implies same_part(
                #[trigger] list@[k],
                parts[k],
            ) by {
                assert(wired[k] == anthropic::to_wire(blocks[k]));
                assert(wired[k] == list@[k]@);
                assert(blocks[k] == parts[k]@);
                if let ContentBlock::ToolUse { id, name, input } = parts[k] {
                    names_survive_the_wire(name@);
                }
            }
        },
    }
}

/// The settings of a request are sent as they are. The answer is streamed exactly if that
/// was asked for and there are no tools.
pub proof fn settings_are_sent(b: AnthropicRequest, model: Seq<char>, request: LlmRequest)
    requires
        anthropic::is_body(b, model, request),
    ensures
        b.model@ == model,
        b.max_tokens == request.max_output_tokens,
        opt_text(b.system) == opt_text(request.system_prompt),
        opt_text(b.temperature) == opt_text(request.temperature),
        request.stop_sequences@.len() == 0 <==> b.stop_sequences is None,
        b.stop_sequences matches Some(list) ==> texts(list@) == texts(request.stop_sequences@),
        b.stream == (request.stream && request.tools@.len() == 0),
{
    assert(texts(request.stop_sequences@).len() == request.stop_sequences@.len());
}

proof fn anthropic_names_differ()
    ensures
        names_differ(
            seq![
                ("model"@, None::<JsonView>),
                ("max_tokens"@, None),
                ("system"@, None),
                ("messages"@, None),
                ("temperature"@, None),
                ("stop_sequences"@, None),
                ("stream"@, None),
                ("tools"@, None),
            ],
        ),
{
    reveal_strlit("model");
    reveal_strlit("max_tokens");
    reveal_strlit("system");
    reveal_strlit("messages");
    reveal_strlit("temperature");
    reveal_strlit("stop_sequences");
    reveal_strlit("stream");
    reveal_strlit("tools");
    assert("model"@.len() == 5);
    assert("max_tokens"@.len() == 10);
    assert("system"@.len() == 6);
    assert("messages"@.len() == 8);
    assert("temperature"@.len() == 11);
    assert("stop_sequences"@.len() == 14);
    assert("stream"@.len() == 6);
    assert("tools"@.len() == 5);
    assert("model"@[0] != "tools"@[0]);
    assert("system"@[1] != "stream"@[1]);
}

/// Names that differ stay different whatever the values are.
proof fn same_names(a: Seq<(Seq<char>, Option<JsonView>)>, b: Seq<(Seq<char>, Option<JsonView>)>)
    requires
        names_differ(a),
        a.len() == b.len(),
        forall|i: int| 0 <= i < a.len() ==> (#[trigger] a[i]).0 == b[i].0,
    ensures
        names_differ(b),
{
    assert forall|i: int, j: int| 0 <= i < j < b.len() implies (#[trigger] b[i]).0 != (
    #[trigger] b[j]).0 by {
        assert(a[i].0 != a[j].0);
        assert(a[i].0 == b[i].0);
        assert(a[j].0 == b[j].0);
    }
}

/// The body as JSON holds all of the request under the names of the API: the model, the
/// bound on the answer, the system prompt, the messages with role and content, the
/// settings, and the tools with name, description and schema. What is absent is left out.
pub proof fn anthropic_body_holds_everything(b: AnthropicRequest)
    ensures
        ({
            let j = anthropic::body_json(b);
            &&& j.field("model"@) == Some(JsonView::Str(b.model@))
            &&& j.field("max_tokens"@) == Some(JsonView::UInt(b.max_tokens))
            &&& j.field("system"@) == (match b.system {
                Some(t) => Some(JsonView::Str(t@)),
                None => None,
            })
            &&& j.field("temperature"@) == (match b.temperature {
                Some(t) => Some(JsonView::Float(t@)),
                None => None,
            })
            &&& j.field("stop_sequences"@) == (match b.stop_sequences {
                Some(list) => Some(
                    JsonView::Array(
                        Seq::new(list@.len(), |i: int| JsonView::Str(list@[i]@)),
                    ),
                ),
                None => None,
            })
            &&& j.field("stream"@) == (if b.stream {
                Some(JsonView::Bool(true))
            } else {
                None
            })
            &&& j.field("messages"@) matches Some(JsonView::Array(items)) && items.len()
                == b.messages@.len() && forall|i: int|
                0 <= i < items.len() ==> (#[trigger] items[i]).field("role"@) == Some(
                    JsonView::Str(b.messages@[i].role@),
                ) && items[i].field("content"@) == Some(
                    anthropic::content_json(b.messages@[i].content@),
                )
            &&& match b.tools {
                None => j.field("tools"@) is None,
                Some(list) => j.field("tools"@) matches Some(JsonView::Array(items)) && items.len()
                    == list@.len() && forall|i: int|
                    0 <= i < items.len() ==> {
                        &&& (#[trigger] items[i]).field("name"@) == Some(
                            JsonView::Str(list@[i].name@),
                        )
                        &&& items[i].field("description"@) == Some(
                            JsonView::Str(list@[i].description@),
                        )
                        &&& items[i].field("input_schema"@) == Some(list@[i].input_schema@)
                    },
            }
        }),
{
    let messages = JsonView::Array(
        Seq::new(b.messages@.len(), |i: int| anthropic::message_json(b.messages@[i])),
    );
    let parts = seq![
        ("model"@, Some(JsonView::Str(b.model@))),
        ("max_tokens"@, Some(JsonView::UInt(b.max_tokens))),
        ("system"@, crate::chat::opt_string(opt_text(b.system))),
        ("messages"@, Some(messages)),
        ("temperature"@, openai::opt_number(opt_text(b.temperature))),
        ("stop_sequences"@, openai::opt_array(crate::decode::opt_texts(b.stop_sequences))),
        (
            "stream"@,
            if b.stream {
                Some(JsonView::Bool(true))
            } else {
                None
            },
        ),
        ("tools"@, anthropic::tools_json(b.tools)),
    ];
    let j = anthropic::body_json(b);
    reveal_with_fuel(record, 9);
    eight_parts(parts);
    assert(j->Object_0 =~= record(parts));
    anthropic_names_differ();
    same_names(
        seq![
            ("model"@, None::<JsonView>),
            ("max_tokens"@, None),
            ("system"@, None),
            ("messages"@, None),
            ("temperature"@, None),
            ("stop_sequences"@, None),
            ("stream"@, None),
            ("tools"@, None),
        ],
        parts,
    );
    field_is_found(parts, 0);
    field_is_found(parts, 1);
    field_is_found(parts, 2);
    field_is_found(parts, 3);
    field_is_found(parts, 4);
    field_is_found(parts, 5);
    field_is_found(parts, 6);
    field_is_found(parts, 7);
    if let Some(list) = b.stop_sequences {
        assert(string_array(texts(list@)) =~= JsonView::Array(
            Seq::new(list@.len(), |i: int| JsonView::Str(list@[i]@)),
        )) by {
            assert(string_array(texts(list@))->Array_0 =~= Seq::new(
                list@.len(),
                |i: int| JsonView::Str(list@[i]@),
            ));
        }
    }
    let items = messages->Array_0;
    assert forall|i: int| 0 <= i < items.len() implies (#[trigger] items[i]).field("role"@) == Some(
        JsonView::Str(b.messages@[i].role@),
    ) && items[i].field("content"@) == Some(anthropic::content_json(b.messages@[i].content@)) by {
        message_is_found(b.messages@[i]);
    }
    if let Some(list) = b.tools {
        let items = anthropic::tools_json(b.tools)->Some_0->Array_0;
        assert forall|i: int| 0 <= i < items.len() implies {
            &&& (#[trigger] items[i]).field("name"@) == Some(JsonView::Str(list@[i].name@))
            &&& items[i].field("description"@) == Some(JsonView::Str(list@[i].description@))
            &&& items[i].field("input_schema"@) == Some(list@[i].input_schema@)
        } by {
            tool_is_found(list@[i]);
        }
    }
}

/// A record of eight fields, written out.
proof fn eight_parts(p: Seq<(Seq<char>, Option<JsonView>)>)
    requires
        p.len() == 8,
    ensures
        record(p) == opt_member(p[0].0, p[0].1) + opt_member(p[1].0, p[1].1) + opt_member(
            p[2].0,
            p[2].1,
        ) + opt_member(p[3].0, p[3].1) + opt_member(p[4].0, p[4].1) + opt_member(p[5].0, p[5].1)
            + opt_member(p[6].0, p[6].1) + opt_member(p[7].0, p[7].1),
{
    reveal_with_fuel(record, 9);
    assert(record(p) =~= opt_member(p[0].0, p[0].1) + opt_member(p[1].0, p[1].1) + opt_member(
        p[2].0,
        p[2].1,
    ) + opt_member(p[3].0, p[3].1) + opt_member(p[4].0, p[4].1) + opt_member(p[5].0, p[5].1)
        + opt_member(p[6].0, p[6].1) + opt_member(p[7].0, p[7].1));
}

proof fn message_is_found(m: AnthropicMessage)
    ensures
        anthropic::message_json(m).field("role"@) == Some(JsonView::Str(m.role@)),
        anthropic::message_json(m).field("content"@) == Some(anthropic::content_json(m.content@)),
{
    let parts = seq![
        ("role"@, Some(JsonView::Str(m.role@))),
        ("content"@, Some(anthropic::content_json(m.content@))),
    ];
    reveal_strlit("role");
    reveal_strlit("content");
    assert("role"@.len() == 4);
    assert("content"@.len() == 7);
    reveal_with_fuel(record, 3);
    assert(anthropic::message_json(m)->Object_0 =~= record(parts));
    field_is_found(parts, 0);
    field_is_found(parts, 1);
}

proof fn tool_is_found(t: anthropic::AnthropicToolDefinition)
    ensures
        anthropic::tool_json(t).field("name"@) == Some(JsonView::Str(t.name@)),
        anthropic::tool_json(t).field("description"@) == Some(JsonView::Str(t.description@)),
        anthropic::tool_json(t).field("input_schema"@) == Some(t.input_schema@),
{
    let parts = seq![
        ("name"@, Some(JsonView::Str(t.name@))),
        ("description"@, Some(JsonView::Str(t.description@))),
        ("input_schema"@, Some(t.input_schema@)),
    ];
    reveal_strlit("name");
    reveal_strlit("description");
    reveal_strlit("input_schema");
    assert("name"@.len() == 4);
    assert("description"@.len() == 11);
    assert("input_schema"@.len() == 12);
    reveal_with_fuel(record, 4);
    assert(anthropic::tool_json(t)->Object_0 =~= record(parts));
    field_is_found(parts, 0);
    field_is_found(parts, 1);
    field_is_found(parts, 2);
}

/// A part that was written as JSON is read as the same part.
pub proof fn parts_are_read_back(b: BlockView)
    ensures
        block_of(block_json(b)) == Some(b),
{
    let j = block_json(b);
    reveal_strlit("type");
    reveal_strlit("text");
    reveal_strlit("id");
    reveal_strlit("name");
    reveal_strlit("input");
    reveal_strlit("tool_use_id");
    reveal_strlit("content");
    reveal_strlit("is_error");
    reveal_strlit("tool_use");
    reveal_strlit("tool_result");
    assert("type"@.len() == 4);
    assert("text"@.len() == 4);
    assert("type"@[1] != "text"@[1]);
    assert("id"@.len() == 2);
    assert("name"@.len() == 4);
    assert("type"@[0] != "name"@[0]);
    assert("input"@.len() == 5);
    assert("tool_use_id"@.len() == 11);
    assert("content"@.len() == 7);
    assert("is_error"@.len() == 8);
    assert("tool_use"@.len() == 8);
    assert("tool_result"@.len() == 11);
    reveal_with_fuel(record, 5);
    match b {
        BlockView::Text { text } => {
            let parts = seq![
                ("type"@, Some(JsonView::Str("text"@))),
                ("text"@, Some(JsonView::Str(text))),
            ];
            assert(j->Object_0 =~= record(parts));
            field_is_found(parts, 0);
            field_is_found(parts, 1);
        },
        BlockView::ToolUse { id, name, input } => {
            let parts = seq![
                ("type"@, Some(JsonView::Str("tool_use"@))),
                ("id"@, Some(JsonView::Str(id))),
                ("name"@, Some(JsonView::Str(name))),
                ("input"@, Some(input)),
            ];
            assert(j->Object_0 =~= record(parts));
            field_is_found(parts, 0);
            field_is_found(parts, 1);
            field_is_found(parts, 2);
            field_is_found(parts, 3);
        },
        BlockView::ToolResult { tool_use_id, content, is_error } => {
            let flag = if is_error {
                Some(JsonView::Bool(true))
            } else {
                None
            };
            let parts = seq![
                ("type"@, Some(JsonView::Str("tool_result"@))),
                ("tool_use_id"@, Some(JsonView::Str(tool_use_id))),
                ("content"@, Some(JsonView::Str(content))),
                ("is_error"@, flag),
            ];
            assert(j->Object_0 =~= record(parts));
            field_is_found(parts, 0);
            field_is_found(parts, 1);
            field_is_found(parts, 2);
            field_is_found(parts, 3);
        },
    }
}

/// The content of a message is written part by part: a text as a string, parts as a list
/// in which each is read as the same part.
pub proof fn content_is_written(c: anthropic::ContentView)
    ensures
        match c {
            anthropic::ContentView::Text(t) => anthropic::content_json(c) == JsonView::Str(t),
            anthropic::ContentView::Blocks(b) => anthropic::content_json(c)
                matches JsonView::Array(items) && items.len() == b.len() && forall|i: int|
                0 <= i < items.len() ==> block_of(#[trigger] items[i]) == Some(b[i]),
        },
{
    if let anthropic::ContentView::Blocks(b) = c {
        let items = anthropic::content_json(c)->Array_0;
        assert forall|i: int| 0 <= i < items.len() implies block_of(#[trigger] items[i]) == Some(
            b[i],
        ) by {
            parts_are_read_back(b[i]);
        }
    }
}

// ---------------------------------------------------------------------------
// Anthropic: responses
// ---------------------------------------------------------------------------

/// A response as the API writes it.
pub open spec fn reply_parts(r: ReplyView) -> Seq<(Seq<char>, Option<JsonView>)> {
    seq![
        (
            "content"@,
            Some(JsonView::Array(Seq::new(r.content.len(), |i: int| block_json(r.content[i])))),
        ),
        ("model"@, Some(JsonView::Str(r.model))),
        ("stop_reason"@, crate::chat::opt_string(r.stop_reason)),
        (
            "usage"@,
            Some(
                JsonView::Object(
                    seq![
                        ("input_tokens"@, JsonView::UInt(r.usage.input_tokens)),
                        ("output_tokens"@, JsonView::UInt(r.usage.output_tokens)),
                    ],
                ),
            ),
        ),
    ]
}

/// A response as the API writes it is read whole: its parts in order, its model, the
/// reason for its end and its usage.
pub proof fn anthropic_response_is_read(r: ReplyView)
    ensures
        anthropic::response_of(JsonView::Object(record(reply_parts(r)))) == Some(r),
{
    let parts = reply_parts(r);
    let j = JsonView::Object(record(parts));
    reveal_strlit("content");
    reveal_strlit("model");
    reveal_strlit("stop_reason");
    reveal_strlit("usage");
    reveal_strlit("input_tokens");
    reveal_strlit("output_tokens");
    assert("content"@.len() == 7);
    assert("model"@.len() == 5);
    assert("stop_reason"@.len() == 11);
    assert("usage"@.len() == 5);
    assert("model"@[0] != "usage"@[0]);
    assert("input_tokens"@.len() == 12);
    assert("output_tokens"@.len() == 13);
    assert(names_differ(parts));
    field_is_found(parts, 0);
    field_is_found(parts, 1);
    field_is_found(parts, 2);
    field_is_found(parts, 3);
    let used = seq![
        ("input_tokens"@, Some(JsonView::UInt(r.usage.input_tokens))),
        ("output_tokens"@, Some(JsonView::UInt(r.usage.output_tokens))),
    ];
    let u = parts[3].1->Some_0;
    reveal_with_fuel(record, 3);
    assert(u->Object_0 =~= record(used));
    field_is_found(used, 0);
    field_is_found(used, 1);
    let items = parts[0].1->Some_0->Array_0;
    assert forall|i: int| 0 <= i < items.len() implies block_of(#[trigger] items[i]) == Some(
        r.content[i],
    ) by {
        parts_are_read_back(r.content[i]);
    }
    assert(Seq::new(items.len(), |i: int| block_of(items[i])->Some_0) =~= r.content);
}

/// The answer holds what the response holds: every part in order, with the names of tools
/// as the vessel knows them, the model, and the tokens as reported. The model runs at the
/// frontier. A response that ends in a tool call says so.
pub proof fn anthropic_answer_holds_response(a: LlmResponse, response: ReplyView, latency_ms: u64)
    requires
        anthropic::answers_with(a, response, latency_ms),
    ensures
        a.content_blocks@.len() == response.content.len(),
        forall|i: int|
            0 <= i < response.content.len() ==> match (
                #[trigger] a.content_blocks@[i],
                response.content[i],
            ) {
                (ContentBlock::Text { text: t }, BlockView::Text { text }) => t@ == text,
                (
                    ContentBlock::ToolUse { id: d, name: n, input: j },
                    BlockView::ToolUse { id, name, input },
                ) => d@ == id && n@ == decoded(name) && j@ == input,
                (
                    ContentBlock::ToolResult { tool_use_id: d, content: c, is_error: e },
                    BlockView::ToolResult { tool_use_id, content, is_error },
                ) => d@ == tool_use_id && c@ == content && e == is_error,
                _ => false,
            },
        a.model@ == response.model,
        a.tokens_in == response.usage.input_tokens,
        a.tokens_out == response.usage.output_tokens,
        a.latency_ms == latency_ms,
        a.backend is Frontier,
        a.cost_micros is Some,
        a.stop_reason is ToolUse <==> response.stop_reason == Some("tool_use"@),
        a.stop_reason is MaxTokens <==> response.stop_reason == Some("max_tokens"@),
        a.stop_reason is StopSequence <==> response.stop_reason == Some("stop_sequence"@),
{
    reveal_strlit("tool_use");
    reveal_strlit("max_tokens");
    reveal_strlit("stop_sequence");
    assert("tool_use"@.len() == 8);
    assert("max_tokens"@.len() == 10);
    assert("stop_sequence"@.len() == 13);
    let blocks = block_views(a.content_blocks@);
    assert(blocks.len() == a.content_blocks@.len());
    assert forall|i: int| 0 <= i < response.content.len() implies match (
        #[trigger] a.content_blocks@[i],
        response.content[i],
    ) {
        (ContentBlock::Text { text: t }, BlockView::Text { text }) => t@ == text,
        (
            ContentBlock::ToolUse { id: d, name: n, input: j },
            BlockView::ToolUse { id, name, input },
        ) => d@ == id && n@ == decoded(name) && j@ == input,
        (
            ContentBlock::ToolResult { tool_use_id: d, content: c, is_error: e },
            BlockView::ToolResult { tool_use_id, content, is_error },
        ) => d@ == tool_use_id && c@ == content && e == is_error,
        _ => false,
    } by {
        assert(blocks[i] == anthropic::from_wire(response.content[i]));
        assert(blocks[i] == a.content_blocks@[i]@);
    }
}

// ---------------------------------------------------------------------------
// Chat messages
// ---------------------------------------------------------------------------

/// The tool calls of a message are its calls, all of them and in order: each with its
/// identifier, its name and its arguments as JSON text.
pub proof fn every_call_is_sent(blocks: Seq<BlockView>)
    ensures
        ({
            let uses = blocks.filter(|b: BlockView| b is ToolUse);
            let calls = calls_in(blocks);
            &&& calls.len() == uses.len()
            &&& forall|i: int|
                0 <= i < calls.len() ==> {
                    &&& (#[trigger] calls[i]).id == Some(uses[i]->ToolUse_id)
                    &&& calls[i].name == uses[i]->ToolUse_name
                    &&& calls[i].arguments == written(uses[i]->ToolUse_input)
                    &&& calls[i].call_type == "function"@
                }
        }),
    decreases blocks.len(),
{
    reveal(Seq::filter);
    if blocks.len() > 0 {
        every_call_is_sent(blocks.drop_last());
    }
}

/// Every result of a tool gets a message of its own, in order: from the tool, with the
/// content of the result, and naming the call that it answers.
pub proof fn every_result_is_sent(blocks: Seq<BlockView>)
    ensures
        ({
            let results = blocks.filter(|b: BlockView| b is ToolResult);
            let answers = answers_in(blocks);
            &&& answers.len() == results.len()
            &&& forall|i: int|
                0 <= i < answers.len() ==> {
                    &&& (#[trigger] answers[i]).role == "tool"@
                    &&& answers[i].content == Some(results[i]->ToolResult_content)
                    &&& answers[i].tool_call_id == Some(results[i]->ToolResult_tool_use_id)
                    &&& answers[i].tool_calls is None
                }
        }),
    decreases blocks.len(),
{
    reveal(Seq::filter);
    if blocks.len() > 0 {
        every_result_is_sent(blocks.drop_last());
    }
}

/// How many chat messages there are for the first `k` messages: one for each, and one for
/// each result of a tool.
pub open spec fn chats_before(messages: Seq<MessageView>, k: int) -> nat
    decreases k,
{
    if k <= 0 {
        0
    } else {
        chats_before(messages, k - 1) + 1 + messages[k - 1].content.filter(
            |b: BlockView| b is ToolResult,
        ).len()
    }
}

proof fn chats_of_prefix(messages: Seq<MessageView>, k: int)
    requires
        0 <= k <= messages.len(),
    ensures
        all_chats(messages.subrange(0, k)).len() == chats_before(messages, k),
        all_chats(messages.subrange(0, k)).is_prefix_of(all_chats(messages)),
    decreases messages.len() - k,
{
    chats_are_counted(messages, k);
    if k == messages.len() {
        assert(messages.subrange(0, k) =~= messages);
    } else {
        chats_of_prefix(messages, k + 1);
        let more = messages.subrange(0, k + 1);
        assert(more.drop_last() =~= messages.subrange(0, k));
        assert(all_chats(messages.subrange(0, k)).is_prefix_of(all_chats(more)));
        let a = all_chats(messages.subrange(0, k));
        let b = all_chats(more);
        let c = all_chats(messages);
        assert(a =~= c.subrange(0, a.len() as int)) by {
            assert(b =~= c.subrange(0, b.len() as int));
            assert(a =~= b.subrange(0, a.len() as int));
            assert forall|i: int| 0 <= i < a.len() implies a[i] == c[i] by {
                assert(b.subrange(0, a.len() as int)[i] == b[i]);
                assert(c.subrange(0, b.len() as int)[i] == c[i]);
            }
        }
    }
}

proof fn chats_are_counted(messages: Seq<MessageView>, k: int)
    requires
        0 <= k <= messages.len(),
    ensures
        all_chats(messages.subrange(0, k)).len() == chats_before(messages, k),
    decreases k,
{
    if k > 0 {
        chats_are_counted(messages, k - 1);
        assert(messages.subrange(0, k).drop_last() =~= messages.subrange(0, k - 1));
        assert(messages.subrange(0, k).last() == messages[k - 1]);
        every_result_is_sent(messages[k - 1].content);
    }
}

/// The chat message says what the message says: its role, its text unless it is empty, and
/// its calls if there are any.
pub open spec fn speaks_for(c: ChatView, m: MessageView) -> bool {
    let uses = m.content.filter(|b: BlockView| b is ToolUse);
    &&& c.role == match m.role {
        LlmRole::System => "system"@,
        LlmRole::User => "user"@,
        LlmRole::Assistant => "assistant"@,
    }
    &&& c.tool_call_id is None
    &&& text_in(m.content).len() > 0 ==> c.content == Some(text_in(m.content))
    &&& text_in(m.content).len() == 0 ==> c.content is None
    &&& match c.tool_calls {
        None => uses.len() == 0,
        Some(calls) => calls.len() == uses.len() && uses.len() > 0 && forall|i: int|
            0 <= i < calls.len() ==> {
                &&& (#[trigger] calls[i]).id == Some(uses[i]->ToolUse_id)
                &&& calls[i].name == uses[i]->ToolUse_name
                &&& calls[i].arguments == written(uses[i]->ToolUse_input)
                &&& calls[i].call_type == "function"@
            },
    }
}

/// The chat messages of a request hold all of it, in order: first the system prompt, if
/// there is one; then for each message one with its role, text and calls, and behind it
/// one for each result of a tool in it.
pub proof fn every_chat_is_sent(chats: Seq<ChatView>, system: Option<Seq<char>>, messages: Seq<MessageView>, k: int)
    requires
        chats == system_chat(system) + all_chats(messages),
        0 <= k < messages.len(),
    ensures
        ({
            let first: int = if system is Some {
                1
            } else {
                0
            };
            let at = first + chats_before(messages, k);
            let results = messages[k].content.filter(|b: BlockView| b is ToolResult);
            &&& chats.len() == first + chats_before(messages, messages.len() as int)
            &&& system matches Some(t) ==> chats[0].role == "system"@ && chats[0].content == Some(t)
                && chats[0].tool_calls is None && chats[0].tool_call_id is None
            &&& at + results.len() < chats.len()
            &&& speaks_for(chats[at], messages[k])
            &&& forall|i: int|
                0 <= i < results.len() ==> {
                    let c = chats[at + 1 + i];
                    &&& c.role == "tool"@
                    &&& c.content == Some((#[trigger] results[i])->ToolResult_content)
                    &&& c.tool_call_id == Some(results[i]->ToolResult_tool_use_id)
                    &&& c.tool_calls is None
                }
        }),
{
    let first: int = if system is Some {
        1
    } else {
        0
    };
    let head = system_chat(system);
    let all = all_chats(messages);
    let before = chats_before(messages, k) as int;
    let m = messages[k];
    let results = m.content.filter(|b: BlockView| b is ToolResult);
    chats_are_counted(messages, messages.len() as int);
    assert(messages.subrange(0, messages.len() as int) =~= messages);
    chats_of_prefix(messages, k);
    chats_of_prefix(messages, k + 1);
    let more = messages.subrange(0, k + 1);
    assert(more.drop_last() =~= messages.subrange(0, k));
    assert(more.last() == m);
    let b = all_chats(more);
    assert(b == all_chats(messages.subrange(0, k)) + chats_of(m));
    assert(b =~= all.subrange(0, b.len() as int));
    every_call_is_sent(m.content);
    every_result_is_sent(m.content);
    assert forall|i: int| 0 <= i < chats_of(m).len() implies chats[first + before + i] == #[trigger] chats_of(
        m,
    )[i] by {
        assert(chats[first + before + i] == all[before + i]);
        assert(all.subrange(0, b.len() as int)[before + i] == all[before + i]);
        assert(b[before + i] == chats_of(m)[i]);
    }
    assert(chats_of(m)[0] == spoken(m));
    assert(chats[first + before + 0] == chats_of(m)[0]);
    assert forall|i: int| 0 <= i < results.len() implies {
        let c = chats[first + before + 1 + i];
        &&& c.role == "tool"@
        &&& c.content == Some((#[trigger] results[i])->ToolResult_content)
        &&& c.tool_call_id == Some(results[i]->ToolResult_tool_use_id)
        &&& c.tool_calls is None
    } by {
        assert(chats_of(m)[1 + i] == answers_in(m.content)[i]);
        assert(chats[first + before + (1 + i)] == chats_of(m)[1 + i]);
    }
}

proof fn chat_names_differ()
    ensures
        "role"@ != "content"@,
        "role"@ != "tool_calls"@,
        "role"@ != "tool_call_id"@,
        "content"@ != "tool_calls"@,
        "content"@ != "tool_call_id"@,
        "tool_calls"@ != "tool_call_id"@,
        "id"@ != "type"@,
        "id"@ != "function"@,
        "type"@ != "function"@,
        "name"@ != "arguments"@,
        "name"@ != "description"@,
        "name"@ != "parameters"@,
        "description"@ != "parameters"@,
{
    reveal_strlit("role");
    reveal_strlit("content");
    reveal_strlit("tool_calls");
    reveal_strlit("tool_call_id");
    reveal_strlit("id");
    reveal_strlit("type");
    reveal_strlit("function");
    reveal_strlit("name");
    reveal_strlit("arguments");
    reveal_strlit("description");
    reveal_strlit("parameters");
    assert("role"@.len() == 4);
    assert("content"@.len() == 7);
    assert("tool_calls"@.len() == 10);
    assert("tool_call_id"@.len() == 12);
    assert("id"@.len() == 2);
    assert("type"@.len() == 4);
    assert("function"@.len() == 8);
    assert("name"@.len() == 4);
    assert("arguments"@.len() == 9);
    assert("description"@.len() == 11);
    assert("parameters"@.len() == 10);
}

/// A tool call that was written as JSON is read as the same call.
pub proof fn calls_are_read_back(c: CallView)
    ensures
        call_of(call_json(c)) == Some(c),
{
    chat_names_differ();
    let j = call_json(c);
    let id = match c.id {
        Some(t) => JsonView::Str(t),
        None => JsonView::Null,
    };
    let f = seq![
        ("name"@, Some(JsonView::Str(c.name))),
        ("arguments"@, Some(JsonView::Str(c.arguments))),
    ];
    let function = JsonView::Object(
        seq![("name"@, JsonView::Str(c.name)), ("arguments"@, JsonView::Str(c.arguments))],
    );
    let parts = seq![
        ("id"@, Some(id)),
        ("type"@, Some(JsonView::Str(c.call_type))),
        ("function"@, Some(function)),
    ];
    reveal_with_fuel(record, 4);
    assert(function->Object_0 =~= record(f));
    assert(j->Object_0 =~= record(parts));
    field_is_found(f, 0);
    field_is_found(f, 1);
    field_is_found(parts, 0);
    field_is_found(parts, 1);
    field_is_found(parts, 2);
}

/// A chat message that was written as JSON is read as the same message: its role, its
/// text, its calls in order, and the call that it answers.
pub proof fn chats_are_read_back(c: ChatView)
    ensures
        chat_of(chat_json(c)) == Some(c),
{
    chat_names_differ();
    let j = chat_json(c);
    let calls = match c.tool_calls {
        Some(calls) => Some(calls_json(calls)),
        None => None,
    };
    let parts = seq![
        ("role"@, Some(JsonView::Str(c.role))),
        ("content"@, crate::chat::opt_string(c.content)),
        ("tool_calls"@, calls),
        ("tool_call_id"@, crate::chat::opt_string(c.tool_call_id)),
    ];
    reveal_with_fuel(record, 5);
    assert(j->Object_0 =~= record(parts));
    field_is_found(parts, 0);
    field_is_found(parts, 1);
    field_is_found(parts, 2);
    field_is_found(parts, 3);
    if let Some(list) = c.tool_calls {
        let items = calls_json(list)->Array_0;
        assert forall|i: int| 0 <= i < items.len() implies call_of(#[trigger] items[i]) == Some(
            list[i],
        ) by {
            calls_are_read_back(list[i]);
        }
        assert(Seq::new(items.len(), |i: int| call_of(items[i])->Some_0) =~= list);
    }
}

/// Every tool is offered to the model: as a function with its name, its description and
/// its schema, in order. Without tools there is no list.
pub proof fn every_tool_is_a_function(tools: Seq<ToolDefinition>)
    ensures
        match crate::chat::tools_json(definition_views(tools)) {
            None => tools.len() == 0,
            Some(j) => j matches JsonView::Array(items) && items.len() == tools.len() && forall|
                i: int,
            |
                0 <= i < tools.len() ==> {
                    &&& (#[trigger] items[i]).field("type"@) == Some(JsonView::Str("function"@))
                    &&& items[i].field("function"@) matches Some(f) && {
                        &&& f.field("name"@) == Some(JsonView::Str(tools[i].name@))
                        &&& f.field("description"@) == Some(JsonView::Str(tools[i].description@))
                        &&& f.field("parameters"@) == Some(tools[i].input_schema@)
                    }
                },
        },
{
    chat_names_differ();
    assert(definition_views(tools).len() == tools.len());
    if tools.len() > 0 {
        let items = crate::chat::tools_json(definition_views(tools))->Some_0->Array_0;
        assert forall|i: int| 0 <= i < tools.len() implies {
            &&& (#[trigger] items[i]).field("type"@) == Some(JsonView::Str("function"@))
            &&& items[i].field("function"@) matches Some(f) && {
                &&& f.field("name"@) == Some(JsonView::Str(tools[i].name@))
                &&& f.field("description"@) == Some(JsonView::Str(tools[i].description@))
                &&& f.field("parameters"@) == Some(tools[i].input_schema@)
            }
        } by {
            let t = tools[i]@;
            assert(definition_views(tools)[i] == t);
            let inner = seq![
                ("name"@, Some(JsonView::Str(t.name))),
                ("description"@, Some(JsonView::Str(t.description))),
                ("parameters"@, Some(t.input_schema)),
            ];
            let function = JsonView::Object(
                seq![
                    ("name"@, JsonView::Str(t.name)),
                    ("description"@, JsonView::Str(t.description)),
                    ("parameters"@, t.input_schema),
                ],
            );
            let parts = seq![
                ("type"@, Some(JsonView::Str("function"@))),
                ("function"@, Some(function)),
            ];
            reveal_with_fuel(record, 4);
            assert(function->Object_0 =~= record(inner));
            assert(items[i]->Object_0 =~= record(parts));
            field_is_found(inner, 0);
            field_is_found(inner, 1);
            field_is_found(inner, 2);
            field_is_found(parts, 0);
            field_is_found(parts, 1);
        }
    }
}

/// The part makes the call: with its name, its identifier if it has one, and its arguments
/// as JSON.
pub open spec fn makes_call(b: BlockView, c: CallView) -> bool {
    match b {
        BlockView::ToolUse { id, name, input } => {
            &&& name == c.name
            &&& parsed(c.arguments) == Ok::<JsonView, Seq<char>>(input)
            &&& c.id matches Some(d) ==> id == d
        },
        _ => false,
    }
}

/// The calls of a chat message.
pub open spec fn calls_made(c: ChatView) -> Seq<CallView> {
    match c.tool_calls {
        Some(calls) => calls,
        None => Seq::empty(),
    }
}

/// How many parts stand for the text of a chat message: one unless it is empty.
pub open spec fn text_parts(c: ChatView) -> int {
    match c.content {
        Some(t) => if t.len() > 0 {
            1
        } else {
            0
        },
        None => 0,
    }
}

/// The parts of a response are those of its message: its text in front unless it is empty,
/// then its calls in order, each with its name, its identifier, and its arguments as JSON.
/// Nothing else is in it.
pub proof fn response_parts_are_the_message(c: ChatView, blocks: Seq<BlockView>)
    requires
        chat_blocks(c) == Ok::<Seq<BlockView>, Seq<char>>(blocks),
    ensures
        blocks.len() == text_parts(c) + calls_made(c).len(),
        text_parts(c) == 1 ==> blocks[0] == (BlockView::Text { text: c.content->Some_0 }),
        forall|i: int|
            0 <= i < calls_made(c).len() ==> makes_call(
                blocks[text_parts(c) + i],
                #[trigger] calls_made(c)[i],
            ),
{
    if let Some(calls) = c.tool_calls {
        calls_become_parts(calls, calls.len() as int);
        let made = call_blocks(calls, calls.len() as int)->Ok_0;
        assert forall|i: int| 0 <= i < calls_made(c).len() implies makes_call(
            blocks[text_parts(c) + i],
            #[trigger] calls_made(c)[i],
        ) by {
            assert(blocks[text_parts(c) + i] == made[i]);
            assert(call_block(calls[i], i as nat) == Ok::<BlockView, Seq<char>>(made[i]));
        }
    }
}

/// A response is refused only if the arguments of a call are no JSON.
pub proof fn only_bad_arguments_are_refused(c: ChatView)
    requires
        forall|i: int| 0 <= i < calls_made(c).len() ==> parsed((#[trigger] calls_made(c)[i]).arguments) is Ok,
    ensures
        chat_blocks(c) is Ok,
{
    if let Some(calls) = c.tool_calls {
        calls_become_parts(calls, calls.len() as int);
        if call_blocks(calls, calls.len() as int) is Err {
            let i = choose|i: int|
                0 <= i < calls.len() && parsed((#[trigger] calls[i]).arguments) is Err;
            assert(parsed(calls_made(c)[i].arguments) is Ok);
        }
    }
}

proof fn calls_become_parts(calls: Seq<CallView>, n: int)
    requires
        0 <= n <= calls.len(),
    ensures
        match call_blocks(calls, n) {
            Ok(blocks) => blocks.len() == n && forall|i: int|
                0 <= i < n ==> call_block(calls[i], i as nat) == Ok::<BlockView, Seq<char>>(
                    #[trigger] blocks[i],
                ),
            Err(_) => exists|i: int|
                0 <= i < n && parsed((#[trigger] calls[i]).arguments) is Err,
        },
    decreases n,
{
    if n > 0 {
        calls_become_parts(calls, n - 1);
        if call_blocks(calls, n - 1) is Ok && call_blocks(calls, n) is Err {
            assert(parsed(calls[n - 1].arguments) is Err);
        }
    }
}

// ---------------------------------------------------------------------------
// OpenAI
// ---------------------------------------------------------------------------

/// A request is sent whole: all its messages behind the system prompt, all its tools, and
/// its settings. The answer is streamed exactly if that was asked for and there are no
/// tools.
pub proof fn openai_request_is_sent(b: OpenAiRequest, model: Seq<char>, request: LlmRequest)
    requires
        openai::is_body(b, model, request),
    ensures
        chat_views(b.messages@) == system_chat(opt_text(request.system_prompt)) + all_chats(
            message_views(request.messages@),
        ),
        opt_json(b.tools) == crate::chat::tools_json(definition_views(request.tools@)),
        request.tools@.len() > 0 <==> b.tools is Some,
        b.model@ == model,
        b.max_completion_tokens == request.max_output_tokens,
        opt_text(b.temperature) == opt_text(request.temperature),
        request.stop_sequences@.len() == 0 <==> b.stop is None,
        b.stop matches Some(list) ==> texts(list@) == texts(request.stop_sequences@),
        b.stream == (request.stream && request.tools@.len() == 0),
{
    assert(texts(request.stop_sequences@).len() == request.stop_sequences@.len());
    assert(definition_views(request.tools@).len() == request.tools@.len());
}

/// The chat messages in a list of JSON values are these, each in its place.
pub open spec fn hold_chats(j: Option<JsonView>, chats: Seq<ChatView>) -> bool {
    j matches Some(JsonView::Array(items)) && items.len() == chats.len() && forall|i: int|
        0 <= i < items.len() ==> chat_of(#[trigger] items[i]) == Some(chats[i])
}

proof fn written_chats_hold(chats: Seq<ChatView>)
    ensures
        hold_chats(Some(chats_json(chats)), chats),
{
    let items = chats_json(chats)->Array_0;
    assert forall|i: int| 0 <= i < items.len() implies chat_of(#[trigger] items[i]) == Some(
        chats[i],
    ) by {
        chats_are_read_back(chats[i]);
    }
}

/// The body as JSON holds all of the request under the names of the API. What is absent is
/// left out.
pub proof fn openai_body_holds_everything(b: OpenAiRequest)
    ensures
        ({
            let j = openai::body_json(b);
            &&& j.field("model"@) == Some(JsonView::Str(b.model@))
            &&& hold_chats(j.field("messages"@), chat_views(b.messages@))
            &&& j.field("max_completion_tokens"@) == Some(JsonView::UInt(b.max_completion_tokens))
            &&& j.field("temperature"@) == (match b.temperature {
                Some(t) => Some(JsonView::Float(t@)),
                None => None,
            })
            &&& j.field("stop"@) == (match b.stop {
                Some(list) => Some(string_array(texts(list@))),
                None => None,
            })
            &&& j.field("stream"@) == (if b.stream {
                Some(JsonView::Bool(true))
            } else {
                None
            })
            &&& j.field("tools"@) == opt_json(b.tools)
        }),
{
    let parts = seq![
        ("model"@, Some(JsonView::Str(b.model@))),
        ("messages"@, Some(chats_json(chat_views(b.messages@)))),
        ("max_completion_tokens"@, Some(JsonView::UInt(b.max_completion_tokens))),
        ("temperature"@, openai::opt_number(opt_text(b.temperature))),
        ("stop"@, openai::opt_array(crate::decode::opt_texts(b.stop))),
        (
            "stream"@,
            if b.stream {
                Some(JsonView::Bool(true))
            } else {
                None
            },
        ),
        ("tools"@, opt_json(b.tools)),
    ];
    let j = openai::body_json(b);
    reveal_with_fuel(record, 8);
    assert(j->Object_0 =~= record(parts));
    reveal_strlit("model");
    reveal_strlit("messages");
    reveal_strlit("max_completion_tokens");
    reveal_strlit("temperature");
    reveal_strlit("stop");
    reveal_strlit("stream");
    reveal_strlit("tools");
    assert("model"@.len() == 5);
    assert("messages"@.len() == 8);
    assert("max_completion_tokens"@.len() == 21);
    assert("temperature"@.len() == 11);
    assert("stop"@.len() == 4);
    assert("stream"@.len() == 6);
    assert("tools"@.len() == 5);
    assert("model"@[0] != "tools"@[0]);
    assert(names_differ(parts));
    field_is_found(parts, 0);
    field_is_found(parts, 1);
    field_is_found(parts, 2);
    field_is_found(parts, 3);
    field_is_found(parts, 4);
    field_is_found(parts, 5);
    field_is_found(parts, 6);
    written_chats_hold(chat_views(b.messages@));
}

/// The answer holds what the first choice of the response says: the parts of its message,
/// whether it ends in a tool call, and the tokens as reported. A model with a key is at the
/// frontier; one without is local and costs nothing. Without a choice there is no answer.
pub proof fn openai_answer_holds_response(
    r: Result<LlmResponse, ExoError>,
    backend: OpenAiCompatBackend,
    request: LlmRequest,
    response: ResponseView,
    latency_ms: u64,
)
    requires
        openai::answers_with(r, backend, request, response, latency_ms),
    ensures
        r is Ok <==> response.choices.len() > 0 && chat_blocks(response.choices[0].message) is Ok,
        r matches Ok(a) ==> {
            let choice = response.choices[0];
            &&& chat_blocks(choice.message) == Ok::<Seq<BlockView>, Seq<char>>(
                block_views(a.content_blocks@),
            )
            &&& a.stop_reason is ToolUse <==> choice.finish_reason == Some("tool_calls"@)
            &&& a.stop_reason is MaxTokens <==> choice.finish_reason == Some("length"@)
            &&& response.model matches Some(m) ==> a.model@ == m
            &&& response.model is None ==> a.model@ == backend.model@
            &&& response.usage matches Some(u) ==> a.tokens_in == u.prompt_tokens && a.tokens_out
                == u.completion_tokens
            &&& a.latency_ms == latency_ms
            &&& backend.api_key is Some <==> a.backend is Frontier
            &&& backend.api_key is None ==> a.cost_micros is None
        },
{
    reveal_strlit("tool_calls");
    reveal_strlit("length");
    reveal_strlit("stop_sequence");
    assert("tool_calls"@.len() == 10);
    assert("length"@.len() == 6);
    assert("stop_sequence"@.len() == 13);
}

/// A response as the API writes it.
pub open spec fn completion_parts(r: ResponseView) -> Seq<(Seq<char>, Option<JsonView>)> {
    seq![
        (
            "choices"@,
            Some(
                JsonView::Array(
                    Seq::new(
                        r.choices.len(),
                        |i: int| JsonView::Object(record(choice_parts(r.choices[i]))),
                    ),
                ),
            ),
        ),
        (
            "usage"@,
            match r.usage {
                Some(u) => Some(
                    JsonView::Object(
                        seq![
                            ("prompt_tokens"@, JsonView::UInt(u.prompt_tokens)),
                            ("completion_tokens"@, JsonView::UInt(u.completion_tokens)),
                        ],
                    ),
                ),
                None => None,
            },
        ),
        ("model"@, crate::chat::opt_string(r.model)),
    ]
}

/// A choice as the API writes it.
pub open spec fn choice_parts(c: openai::ChoiceView) -> Seq<(Seq<char>, Option<JsonView>)> {
    seq![
        ("message"@, Some(chat_json(c.message))),
        ("finish_reason"@, crate::chat::opt_string(c.finish_reason)),
    ]
}

/// A response as the API writes it is read whole: its choices in order, its usage and its
/// model.
pub proof fn openai_response_is_read(r: ResponseView)
    ensures
        openai::response_of(JsonView::Object(record(completion_parts(r)))) == Some(r),
{
    let parts = completion_parts(r);
    reveal_strlit("choices");
    reveal_strlit("usage");
    reveal_strlit("model");
    reveal_strlit("prompt_tokens");
    reveal_strlit("completion_tokens");
    assert("choices"@.len() == 7);
    assert("usage"@.len() == 5);
    assert("model"@.len() == 5);
    assert("usage"@[0] != "model"@[0]);
    assert("prompt_tokens"@.len() == 13);
    assert("completion_tokens"@.len() == 17);
    assert(names_differ(parts));
    field_is_found(parts, 0);
    field_is_found(parts, 1);
    field_is_found(parts, 2);
    if let Some(u) = r.usage {
        let used = seq![
            ("prompt_tokens"@, Some(JsonView::UInt(u.prompt_tokens))),
            ("completion_tokens"@, Some(JsonView::UInt(u.completion_tokens))),
        ];
        reveal_with_fuel(record, 3);
        assert(parts[1].1->Some_0->Object_0 =~= record(used));
        field_is_found(used, 0);
        field_is_found(used, 1);
    }
    let items = parts[0].1->Some_0->Array_0;
    assert forall|i: int| 0 <= i < items.len() implies openai::choice_of(#[trigger] items[i])
        == Some(r.choices[i]) by {
        choice_is_read(r.choices[i]);
    }
    assert(Seq::new(items.len(), |i: int| openai::choice_of(items[i])->Some_0) =~= r.choices);
}

proof fn choice_is_read(c: openai::ChoiceView)
    ensures
        openai::choice_of(JsonView::Object(record(choice_parts(c)))) == Some(c),
{
    let parts = choice_parts(c);
    reveal_strlit("message");
    reveal_strlit("finish_reason");
    assert("message"@.len() == 7);
    assert("finish_reason"@.len() == 13);
    assert(names_differ(parts));
    field_is_found(parts, 0);
    field_is_found(parts, 1);
    chats_are_read_back(c.message);
}

// ---------------------------------------------------------------------------
// Ollama
// ---------------------------------------------------------------------------

/// A request is sent whole: all its messages behind the system prompt, all its tools, and
/// its settings. The answer is never streamed.
pub proof fn ollama_request_is_sent(b: OllamaRequest, model: Seq<char>, request: LlmRequest)
    requires
        ollama::is_body(b, model, request),
    ensures
        chat_views(b.messages@) == system_chat(opt_text(request.system_prompt)) + all_chats(
            message_views(request.messages@),
        ),
        opt_json(b.tools) == crate::chat::tools_json(definition_views(request.tools@)),
        request.tools@.len() > 0 <==> b.tools is Some,
        b.model@ == model,
        !b.stream,
        b.options is None <==> request.temperature is None && request.stop_sequences@.len() == 0,
        b.options matches Some(o) ==> {
            &&& opt_text(o.temperature) == opt_text(request.temperature)
            &&& request.stop_sequences@.len() == 0 <==> o.stop is None
            &&& o.stop matches Some(list) ==> texts(list@) == texts(request.stop_sequences@)
        },
{
    assert(texts(request.stop_sequences@).len() == request.stop_sequences@.len());
    assert(definition_views(request.tools@).len() == request.tools@.len());
}

/// The body as JSON holds all of the request under the names of the API. What is absent is
/// left out, but for the flag for streaming.
pub proof fn ollama_body_holds_everything(b: OllamaRequest)
    ensures
        ({
            let j = ollama::body_json(b);
            &&& j.field("model"@) == Some(JsonView::Str(b.model@))
            &&& hold_chats(j.field("messages"@), chat_views(b.messages@))
            &&& j.field("stream"@) == Some(JsonView::Bool(b.stream))
            &&& j.field("tools"@) == opt_json(b.tools)
            &&& match b.options {
                None => j.field("options"@) is None,
                Some(o) => j.field("options"@) matches Some(p) && {
                    &&& p.field("temperature"@) == (match o.temperature {
                        Some(t) => Some(JsonView::Float(t@)),
                        None => None,
                    })
                    &&& p.field("stop"@) == (match o.stop {
                        Some(list) => Some(string_array(texts(list@))),
                        None => None,
                    })
                },
            }
        }),
{
    let parts = seq![
        ("model"@, Some(JsonView::Str(b.model@))),
        ("messages"@, Some(chats_json(chat_views(b.messages@)))),
        ("stream"@, Some(JsonView::Bool(b.stream))),
        ("options"@, ollama::options_json(b.options)),
        ("tools"@, opt_json(b.tools)),
    ];
    let j = ollama::body_json(b);
    reveal_with_fuel(record, 6);
    assert(j->Object_0 =~= record(parts));
    reveal_strlit("model");
    reveal_strlit("messages");
    reveal_strlit("stream");
    reveal_strlit("options");
    reveal_strlit("tools");
    reveal_strlit("temperature");
    reveal_strlit("stop");
    assert("model"@.len() == 5);
    assert("messages"@.len() == 8);
    assert("stream"@.len() == 6);
    assert("options"@.len() == 7);
    assert("tools"@.len() == 5);
    assert("model"@[0] != "tools"@[0]);
    assert("temperature"@.len() == 11);
    assert("stop"@.len() == 4);
    assert(names_differ(parts));
    field_is_found(parts, 0);
    field_is_found(parts, 1);
    field_is_found(parts, 2);
    field_is_found(parts, 3);
    field_is_found(parts, 4);
    written_chats_hold(chat_views(b.messages@));
    if let Some(o) = b.options {
        let inner = seq![
            ("temperature"@, openai::opt_number(opt_text(o.temperature))),
            ("stop"@, openai::opt_array(crate::decode::opt_texts(o.stop))),
        ];
        assert(ollama::options_json(b.options)->Some_0->Object_0 =~= record(inner));
        field_is_found(inner, 0);
        field_is_found(inner, 1);
    }
}

/// The answer holds what the response says: the parts of its message, its model, and the
/// tokens as reported. A message with calls ends in a tool call.
pub proof fn ollama_answer_holds_response(
    r: Result<LlmResponse, ExoError>,
    request: LlmRequest,
    response: OllamaView,
    latency_ms: u64,
)
    requires
        ollama::answers_with(r, request, response, latency_ms),
    ensures
        r is Ok <==> chat_blocks(response.message) is Ok,
        r matches Ok(a) ==> {
            &&& chat_blocks(response.message) == Ok::<Seq<BlockView>, Seq<char>>(
                block_views(a.content_blocks@),
            )
            &&& a.stop_reason is ToolUse <==> response.message.tool_calls is Some
            &&& a.stop_reason is ToolUse || a.stop_reason is EndTurn
            &&& a.model@ == response.model
            &&& response.prompt_eval_count matches Some(n) ==> a.tokens_in == n
            &&& response.eval_count matches Some(n) ==> a.tokens_out == n
            &&& a.latency_ms == latency_ms
            &&& a.backend is Local
            &&& a.cost_micros is None
        },
{
}

/// A response as the API writes it.
pub open spec fn ollama_parts(r: OllamaView) -> Seq<(Seq<char>, Option<JsonView>)> {
    seq![
        ("message"@, Some(chat_json(r.message))),
        ("model"@, Some(JsonView::Str(r.model))),
        ("eval_count"@, opt_count(r.eval_count)),
        ("prompt_eval_count"@, opt_count(r.prompt_eval_count)),
    ]
}

/// The number, if there is one.
pub open spec fn opt_count(n: Option<u64>) -> Option<JsonView> {
    match n {
        Some(n) => Some(JsonView::UInt(n)),
        None => None,
    }
}

/// A response as the API writes it is read whole.
pub proof fn ollama_response_is_read(r: OllamaView)
    ensures
        ollama::response_of(JsonView::Object(record(ollama_parts(r)))) == Some(r),
{
    let parts = ollama_parts(r);
    reveal_strlit("message");
    reveal_strlit("model");
    reveal_strlit("eval_count");
    reveal_strlit("prompt_eval_count");
    assert("message"@.len() == 7);
    assert("model"@.len() == 5);
    assert("eval_count"@.len() == 10);
    assert("prompt_eval_count"@.len() == 17);
    assert(names_differ(parts));
    field_is_found(parts, 0);
    field_is_found(parts, 1);
    field_is_found(parts, 2);
    field_is_found(parts, 3);
    chats_are_read_back(r.message);
}

} // verus!

//! Virtual tools: names that the language model sees, and that are carried out by
//! other, generic tools.
//!
//! `agent.ask_user` waits for a signal; `peer.resolve` makes an HTTP request. The
//! generic tools for signals are not shown to the language model.

use vstd::prelude::*;
use vstd::string::*;

use crate::decode::{opt_texts, read_text_list, text_list_of};
use crate::json::{member, member_views, ref_json, Json, JsonView};
use crate::schema::{
    described, make_described, make_object_requiring, make_object_with, make_one_of, make_typed,
    object_requiring, object_with, one_of, typed,
};
use crate::text::{alnum, chars_of, dec, dec_u64, is_alnum, str_eq, texts};
use crate::tool_defs::{definition_views, ToolDefinition, ToolDefinitionView};
use crate::types::{id_text, write_id, ExoError};

verus! {

/// The kind of a connector.
#[derive(Debug, PartialEq, Eq)]
pub enum ConnectorCategory {
    Http,
    FileSystem,
    Delay,
    Transform,
    Custom(String),
}

/// The description of a connector.
#[derive(Debug)]
pub struct Descriptor {
    pub name: String,
    pub display_name: String,
    pub description: String,
    pub category: ConnectorCategory,
    pub input_schema: Option<Json>,
    pub output_schema: Option<Json>,
    pub idempotent: bool,
    pub side_effects: bool,
    pub is_read_only: bool,
    pub is_mutating: bool,
    pub is_concurrency_safe: bool,
    pub requires_read_before_write: bool,
}

/// What is needed to turn the result of the generic tool into that of the virtual
/// one.
#[derive(Debug, PartialEq, Eq)]
pub enum VirtualContext {
    AskUser { question_id: String },
    PeerResolve,
}

/// The call of a generic tool that carries out a virtual one.
#[derive(Debug)]
pub struct Translation {
    pub tool_name: String,
    pub params: Json,
    pub context: VirtualContext,
    /// The question that is to be stored and announced.
    pub question: Option<Question>,
}

/// A question to the operator.
#[derive(Debug)]
pub struct Question {
    pub record: Json,
    pub summary: String,
    pub text: String,
    pub choices: Option<Vec<String>>,
}

// ---------------------------------------------------------------------------
// Descriptors
// ---------------------------------------------------------------------------

/// The names of the virtual tools.
pub open spec fn is_virtual(name: Seq<char>) -> bool {
    name == "agent.ask_user"@ || name == "peer.resolve"@
}

/// Tells whether a tool is a virtual one.
pub fn is_virtual_tool(name: &str) -> (r: bool)
    ensures
        r == is_virtual(name@),
{
    str_eq(name, "agent.ask_user") || str_eq(name, "peer.resolve")
}

/// What the language model is told of `agent.ask_user`.
pub open spec fn ask_user_definition() -> ToolDefinitionView {
    ToolDefinitionView {
        name: "agent.ask_user"@,
        description: "Present a question to the operator and wait for a response. If the operator answers promptly, returns the answer. On timeout, returns pending status and the coding session yields gracefully."@,
        input_schema: object_requiring(
            seq!["question"@],
            seq![
                ("question"@, described("string"@, "The question text"@)),
                (
                    "choices"@,
                    JsonView::Object(
                        seq![
                            ("type"@, JsonView::Str("array"@)),
                            ("items"@, typed("string"@)),
                            (
                                "description"@,
                                JsonView::Str("Bounded choices (omit for free-text)"@),
                            ),
                        ],
                    ),
                ),
                (
                    "timeout_secs"@,
                    JsonView::Object(
                        seq![
                            ("type"@, JsonView::Str("integer"@)),
                            ("description"@, JsonView::Str("Wait timeout. Default: 30"@)),
                            ("minimum"@, JsonView::UInt(1)),
                        ],
                    ),
                ),
                ("context"@, described("string"@, "Additional context"@)),
            ],
        ),
    }
}

/// The form of the result of `agent.ask_user`.
pub open spec fn ask_user_output() -> JsonView {
    object_with(
        seq![
            ("status"@, one_of(seq!["answered"@, "pending"@])),
            ("question_id"@, typed("string"@)),
            ("answer"@, typed("string"@)),
        ],
    )
}

/// What the language model is told of `peer.resolve`.
pub open spec fn peer_resolve_definition() -> ToolDefinitionView {
    ToolDefinitionView {
        name: "peer.resolve"@,
        description: "Resolves a vessel name to its inbox URL via the fleet registry."@,
        input_schema: object_requiring(
            seq!["name"@],
            seq![("name"@, described("string"@, "Vessel name to resolve"@))],
        ),
    }
}

/// The form of the result of `peer.resolve`.
pub open spec fn peer_resolve_output() -> JsonView {
    object_with(
        seq![
            ("name"@, typed("string"@)),
            ("inbox_url"@, typed("string"@)),
            ("vessel_id"@, typed("string"@)),
        ],
    )
}

/// `d` describes a tool with this definition and output.
pub open spec fn describes(d: Descriptor, definition: ToolDefinitionView, output: JsonView) -> bool {
    &&& d.name@ == definition.name
    &&& d.description@ == definition.description
    &&& d.input_schema matches Some(s) && s@ == definition.input_schema
    &&& d.output_schema matches Some(s) && s@ == output
    &&& d.idempotent && !d.side_effects && d.is_read_only && !d.is_mutating
    &&& !d.requires_read_before_write
}

/// `d` describes `agent.ask_user`.
pub open spec fn describes_ask_user(d: Descriptor) -> bool {
    &&& describes(d, ask_user_definition(), ask_user_output())
    &&& d.display_name@ == "Ask User"@
    &&& d.category matches ConnectorCategory::Custom(c) && c@ == "interaction"@
    &&& !d.is_concurrency_safe
}

/// `d` describes `peer.resolve`.
pub open spec fn describes_peer_resolve(d: Descriptor) -> bool {
    &&& describes(d, peer_resolve_definition(), peer_resolve_output())
    &&& d.display_name@ == "Peer Resolve"@
    &&& d.category is Http
    &&& d.is_concurrency_safe
}

fn ask_user_descriptor() -> (d: Descriptor)
    ensures
        describes_ask_user(d),
{
    let choices = vec![
        member("type", Json::str("array")),
        member("items", make_typed("string")),
        member("description", Json::str("Bounded choices (omit for free-text)")),
    ];
    assert(member_views(choices@) =~= seq![
        ("type"@, JsonView::Str("array"@)),
        ("items"@, typed("string"@)),
        ("description"@, JsonView::Str("Bounded choices (omit for free-text)"@)),
    ]);
    let timeout = vec![
        member("type", Json::str("integer")),
        member("description", Json::str("Wait timeout. Default: 30")),
        member("minimum", Json::UInt(1)),
    ];
    assert(member_views(timeout@) =~= seq![
        ("type"@, JsonView::Str("integer"@)),
        ("description"@, JsonView::Str("Wait timeout. Default: 30"@)),
        ("minimum"@, JsonView::UInt(1)),
    ]);
    let properties = vec![
        member("question", make_described("string", "The question text")),
        member("choices", Json::object(choices)),
        member("timeout_secs", Json::object(timeout)),
        member("context", make_described("string", "Additional context")),
    ];
    let required = vec!["question".to_owned()];
    assert(texts(required@) =~= seq!["question"@]);
    let input = make_object_requiring(required, properties);
    proof {
        let wanted = ask_user_definition().input_schema->Object_0;
        assert(input@->Object_0[2].1->Object_0 =~= wanted[2].1->Object_0);
        assert(input@->Object_0 =~= wanted);
    }
    let values = vec!["answered".to_owned(), "pending".to_owned()];
    assert(texts(values@) =~= seq!["answered"@, "pending"@]);
    let results = vec![
        member("status", make_one_of(values)),
        member("question_id", make_typed("string")),
        member("answer", make_typed("string")),
    ];
    assert(member_views(results@) =~= seq![
        ("status"@, one_of(seq!["answered"@, "pending"@])),
        ("question_id"@, typed("string"@)),
        ("answer"@, typed("string"@)),
    ]);
    Descriptor {
        name: "agent.ask_user".to_owned(),
        display_name: "Ask User".to_owned(),
        description: "Present a question to the operator and wait for a response. If the operator answers promptly, returns the answer. On timeout, returns pending status and the coding session yields gracefully.".to_owned(),
        category: ConnectorCategory::Custom("interaction".to_owned()),
        input_schema: Some(input),
        output_schema: Some(make_object_with(results)),
        idempotent: true,
        side_effects: false,
        is_read_only: true,
        is_mutating: false,
        is_concurrency_safe: false,
        requires_read_before_write: false,
    }
}

fn peer_resolve_descriptor() -> (d: Descriptor)
    ensures
        describes_peer_resolve(d),
{
    let properties = vec![member("name", make_described("string", "Vessel name to resolve"))];
    assert(member_views(properties@) =~= seq![
        ("name"@, described("string"@, "Vessel name to resolve"@)),
    ]);
    let required = vec!["name".to_owned()];
    assert(texts(required@) =~= seq!["name"@]);
    let results = vec![
        member("name", make_typed("string")),
        member("inbox_url", make_typed("string")),
        member("vessel_id", make_typed("string")),
    ];
    assert(member_views(results@) =~= seq![
        ("name"@, typed("string"@)),
        ("inbox_url"@, typed("string"@)),
        ("vessel_id"@, typed("string"@)),
    ]);
    Descriptor {
        name: "peer.resolve".to_owned(),
        display_name: "Peer Resolve".to_owned(),
        description: "Resolves a vessel name to its inbox URL via the fleet registry.".to_owned(),
        category: ConnectorCategory::Http,
        input_schema: Some(make_object_requiring(required, properties)),
        output_schema: Some(make_object_with(results)),
        idempotent: true,
        side_effects: false,
        is_read_only: true,
        is_mutating: false,
        is_concurrency_safe: true,
        requires_read_before_write: false,
    }
}

/// Describes the virtual tools.
pub fn virtual_tool_descriptors() -> (r: Vec<Descriptor>)
    ensures
        r@.len() == 2,
        describes_ask_user(r@[0]),
        describes_peer_resolve(r@[1]),
{
    vec![ask_user_descriptor(), peer_resolve_descriptor()]
}

/// The schema of a tool that describes none: an object without properties.
pub open spec fn schema_or_empty(schema: Option<Json>) -> JsonView {
    match schema {
        Some(s) => s@,
        None => object_with(Seq::empty()),
    }
}

/// What the language model is told of a connector.
pub open spec fn definition_of(d: Descriptor) -> ToolDefinitionView {
    ToolDefinitionView {
        name: d.name@,
        description: d.description@,
        input_schema: schema_or_empty(d.input_schema),
    }
}

/// Turns the description of a connector into a tool definition.
pub fn define_tool(d: Descriptor) -> (t: ToolDefinition)
    ensures
        t@ == definition_of(d),
{
    let input_schema = match d.input_schema {
        Some(s) => s,
        None => {
            let none: Vec<(String, Json)> = Vec::new();
            assert(member_views(none@) =~= Seq::<(Seq<char>, JsonView)>::empty());
            make_object_with(none)
        },
    };
    ToolDefinition { name: d.name, description: d.description, input_schema }
}

/// Defines the virtual tools for the language model.
pub fn virtual_tool_definitions() -> (r: Vec<ToolDefinition>)
    ensures
        definition_views(r@) == seq![ask_user_definition(), peer_resolve_definition()],
{
    let ask = define_tool(ask_user_descriptor());
    let peer = define_tool(peer_resolve_descriptor());
    let r = vec![ask, peer];
    assert(definition_views(r@) =~= seq![ask_user_definition(), peer_resolve_definition()]);
    r
}

// ---------------------------------------------------------------------------
// Asking the operator
// ---------------------------------------------------------------------------

/// The value, or null if there is none.
pub open spec fn or_null(v: Option<JsonView>) -> JsonView {
    match v {
        Some(j) => j,
        None => JsonView::Null,
    }
}

/// How long a question waits for an answer, in seconds.
pub open spec fn question_timeout(params: JsonView) -> u64 {
    match params.field_unsigned("timeout_secs"@) {
        Some(n) => n,
        None => 30,
    }
}

/// The call that waits for the answer to a question.
pub open spec fn question_wait(params: JsonView, id: Seq<char>) -> JsonView {
    JsonView::Object(
        seq![
            ("key"@, JsonView::Str("question:"@ + id)),
            ("timeout_secs"@, JsonView::UInt(question_timeout(params))),
        ],
    )
}

/// The record of a question.
pub open spec fn question_record(params: JsonView, id: Seq<char>, asked_at: Seq<char>) -> JsonView {
    JsonView::Object(
        seq![
            ("question_id"@, JsonView::Str(id)),
            ("question"@, JsonView::Str(params.field_text("question"@)->Some_0)),
            ("choices"@, or_null(params.field("choices"@))),
            ("context"@, or_null(params.field("context"@))),
            ("asked_at"@, JsonView::Str(asked_at)),
        ],
    )
}

/// The choices of a question, if they are a list of texts.
pub open spec fn choices_of(params: JsonView) -> Option<Seq<Seq<char>>> {
    match params.field("choices"@) {
        Some(list) => text_list_of(list),
        None => None,
    }
}

/// `t` asks the question of `params` under the identifier `id`.
pub open spec fn asks(t: Translation, params: JsonView, id: Seq<char>, asked_at: Seq<char>) -> bool {
    &&& t.tool_name@ == "signal.await"@
    &&& t.params@ == question_wait(params, id)
    &&& t.context matches VirtualContext::AskUser { question_id } && question_id@ == id
    &&& match t.question {
        Some(q) => {
            &&& q.record@ == question_record(params, id, asked_at)
            &&& params.field_text("question"@) == Some(q.text@)
            &&& q.summary@ == "Question: "@ + q.text@
            &&& opt_texts(q.choices) == choices_of(params)
        },
        None => false,
    }
}

fn clone_or_null(v: Option<&Json>) -> (j: Json)
    ensures
        j@ == or_null(ref_json(v)),
{
    match v {
        Some(j) => j.clone(),
        None => Json::Null,
    }
}

/// Turns a question to the operator, identified by `question_id`, into a wait for a
/// signal.
pub fn translate_ask_user(params: &Json, question_id: &str, asked_at: &str) -> (r: Result<
    Translation,
    ExoError,
>)
    ensures
        match r {
            Ok(t) => params@.field_text("question"@) is Some && asks(
                t,
                params@,
                question_id@,
                asked_at@,
            ),
            Err(ExoError::Engine(m)) => params@.field_text("question"@) is None && m@
                == "agent.ask_user: missing 'question'"@,
            Err(_) => false,
        },
{
    let question = match params.get_str("question") {
        Some(q) => q,
        None => {
            return Err(ExoError::Engine("agent.ask_user: missing 'question'".to_owned()));
        },
    };
    let timeout_secs: u64 = match params.get_u64("timeout_secs") {
        Some(n) => n,
        None => 30,
    };
    let members = vec![
        member("question_id", Json::str(question_id)),
        member("question", Json::Str(question.clone())),
        member("choices", clone_or_null(params.get("choices"))),
        member("context", clone_or_null(params.get("context"))),
        member("asked_at", Json::str(asked_at)),
    ];
    assert(member_views(members@) =~= question_record(
        params@,
        question_id@,
        asked_at@,
    )->Object_0);
    let record = Json::object(members);
    let mut summary = "Question: ".to_owned();
    summary.append(question.as_str());
    let choices = match params.get("choices") {
        Some(list) => read_text_list(list),
        None => None,
    };
    let mut key = "question:".to_owned();
    key.append(question_id);
    let wait = vec![member("key", Json::Str(key)), member("timeout_secs", Json::UInt(timeout_secs))];
    assert(member_views(wait@) =~= question_wait(params@, question_id@)->Object_0);
    Ok(
        Translation {
            tool_name: "signal.await".to_owned(),
            params: Json::object(wait),
            context: VirtualContext::AskUser { question_id: question_id.to_owned() },
            question: Some(Question { record, summary, text: question.clone(), choices }),
        },
    )
}

/// The result of `agent.ask_user`: the answer if a signal came, otherwise that the
/// question is pending.
pub open spec fn ask_user_result(question_id: Seq<char>, signal: JsonView) -> JsonView {
    if signal.field_text("status"@) == Some("received"@) {
        let payload = match signal.field("payload"@) {
            Some(p) => p,
            None => JsonView::Object(Seq::empty()),
        };
        JsonView::Object(
            seq![
                ("status"@, JsonView::Str("answered"@)),
                ("question_id"@, JsonView::Str(question_id)),
                ("answer"@, or_null(payload.field("answer"@))),
                ("answered_by"@, or_null(payload.field("answered_by"@))),
            ],
        )
    } else {
        JsonView::Object(
            seq![
                ("status"@, JsonView::Str("pending"@)),
                ("question_id"@, JsonView::Str(question_id)),
            ],
        )
    }
}

/// Turns the result of waiting for a signal into that of `agent.ask_user`.
pub fn post_process_ask_user(question_id: &str, signal_result: &Json) -> (r: Json)
    ensures
        r@ == ask_user_result(question_id@, signal_result@),
{
    let received = match signal_result.get_str("status") {
        Some(s) => str_eq(s.as_str(), "received"),
        None => false,
    };
    if received {
        let (answer, answered_by) = match signal_result.get("payload") {
            Some(p) => (clone_or_null(p.get("answer")), clone_or_null(p.get("answered_by"))),
            None => (Json::Null, Json::Null),
        };
        let members = vec![
            member("status", Json::str("answered")),
            member("question_id", Json::str(question_id)),
            member("answer", answer),
            member("answered_by", answered_by),
        ];
        assert(member_views(members@) =~= ask_user_result(
            question_id@,
            signal_result@,
        )->Object_0);
        Json::object(members)
    } else {
        let members = vec![
            member("status", Json::str("pending")),
            member("question_id", Json::str(question_id)),
        ];
        assert(member_views(members@) =~= ask_user_result(
            question_id@,
            signal_result@,
        )->Object_0);
        Json::object(members)
    }
}

// ---------------------------------------------------------------------------
// Resolving a peer
// ---------------------------------------------------------------------------

/// The character may stand in the name of a vessel.
pub open spec fn is_name_char(c: char) -> bool {
    is_alnum(c) || c == '.' || c == '-' || c == '_'
}

/// The text is the name of a vessel: not empty, and made of letters, digits, dots,
/// hyphens and underscores.
pub open spec fn is_vessel_name(name: Seq<char>) -> bool {
    name.len() > 0 && forall|i: int| 0 <= i < name.len() ==> is_name_char(#[trigger] name[i])
}

/// The headers of the request to the fleet registry.
pub open spec fn registry_headers(token: Option<Seq<char>>) -> JsonView {
    match token {
        Some(t) => JsonView::Object(seq![("Authorization"@, JsonView::Str("Bearer "@ + t))]),
        None => JsonView::Object(Seq::empty()),
    }
}

/// The request that asks the fleet registry for the inbox of a vessel.
pub open spec fn registry_request(
    name: Seq<char>,
    observatory_url: Seq<char>,
    token: Option<Seq<char>>,
) -> JsonView {
    JsonView::Object(
        seq![
            (
                "url"@,
                JsonView::Str(
                    observatory_url + "/api/v1/fleet/vessels/"@ + name + "/inbox-url"@,
                ),
            ),
            ("method"@, JsonView::Str("GET"@)),
            ("headers"@, registry_headers(token)),
        ],
    )
}

/// The text of an optional string slice.
pub open spec fn opt_str(o: Option<&str>) -> Option<Seq<char>> {
    match o {
        Some(s) => Some(s@),
        None => None,
    }
}

fn valid_vessel_name(name: &str) -> (r: bool)
    ensures
        r == is_vessel_name(name@),
{
    let v = chars_of(name);
    if v.len() == 0 {
        return false;
    }
    let mut i: usize = 0;
    while i < v.len()
        invariant
            v@ == name@,
            v@.len() > 0,
            i <= v@.len(),
            forall|k: int| 0 <= k < i ==> is_name_char(#[trigger] v@[k]),
        decreases v@.len() - i,
    {
        let c = v[i];
        if !(alnum(c) || c == '.' || c == '-' || c == '_') {
            assert(!is_name_char(name@[i as int]));
            return false;
        }
        i = i + 1;
    }
    true
}

/// Turns the resolution of a vessel name into a request to the fleet registry. A
/// name that could change the path of the request is refused.
pub fn translate_peer_resolve(
    params: &Json,
    observatory_url: &str,
    observatory_token: Option<&str>,
) -> (r: Result<(String, Json), ExoError>)
    ensures
        match (params@.field_text("name"@), r) {
            (None, Err(ExoError::Engine(m))) => m@ == "peer.resolve: missing 'name'"@,
            (Some(name), Err(ExoError::Engine(m))) => !is_vessel_name(name) && m@
                == "peer.resolve: invalid vessel name '"@ + name + "'"@,
            (Some(name), Ok(call)) => is_vessel_name(name) && call.0@ == "http.request"@
                && call.1@ == registry_request(name, observatory_url@, opt_str(observatory_token)),
            _ => false,
        },
{
    let name = match params.get_str("name") {
        Some(n) => n,
        None => {
            return Err(ExoError::Engine("peer.resolve: missing 'name'".to_owned()));
        },
    };
    if !valid_vessel_name(name.as_str()) {
        let mut m = "peer.resolve: invalid vessel name '".to_owned();
        m.append(name.as_str());
        m.append("'");
        return Err(ExoError::Engine(m));
    }
    let mut url = observatory_url.to_owned();
    url.append("/api/v1/fleet/vessels/");
    url.append(name.as_str());
    url.append("/inbox-url");
    let mut headers: Vec<(String, Json)> = Vec::new();
    match observatory_token {
        Some(token) => {
            let mut value = "Bearer ".to_owned();
            value.append(token);
            headers.push(member("Authorization", Json::Str(value)));
            assert(member_views(headers@) =~= seq![
                ("Authorization"@, JsonView::Str("Bearer "@ + token@)),
            ]);
        },
        None => {
            assert(member_views(headers@) =~= Seq::<(Seq<char>, JsonView)>::empty());
        },
    }
    let members = vec![
        member("url", Json::Str(url)),
        member("method", Json::str("GET")),
        member("headers", Json::object(headers)),
    ];
    assert(member_views(members@) =~= registry_request(
        name@,
        observatory_url@,
        opt_str(observatory_token),
    )->Object_0);
    Ok(("http.request".to_owned(), Json::object(members)))
}

/// The result of `peer.resolve`, given that of the request.
pub open spec fn peer_result(value: JsonView) -> Result<JsonView, Seq<char>> {
    match value.field_unsigned("status_code"@) {
        Some(404) => Err("vessel not found"@),
        Some(status) => if status >= 400 {
            Err("fleet registry returned HTTP "@ + dec(status as nat))
        } else {
            Ok(
                match value.field("body"@) {
                    Some(b) => b,
                    None => value,
                },
            )
        },
        None => Ok(
            match value.field("body"@) {
                Some(b) => b,
                None => value,
            },
        ),
    }
}

/// Turns the result of the request into that of `peer.resolve`.
pub fn post_process_peer_resolve(http_result: &Result<Json, String>) -> (r: Result<Json, String>)
    ensures
        crate::json::outcome(r) == (match *http_result {
            Ok(value) => peer_result(value@),
            Err(e) => Err(e@),
        }),
{
    match http_result {
        Ok(value) => {
            match value.get_u64("status_code") {
                Some(status) => {
                    if status == 404 {
                        return Err("vessel not found".to_owned());
                    }
                    if status >= 400 {
                        let mut m = "fleet registry returned HTTP ".to_owned();
                        m.append(dec_u64(status).as_str());
                        return Err(m);
                    }
                },
                None => {},
            }
            match value.get("body") {
                Some(b) => Ok(b.clone()),
                None => Ok(value.clone()),
            }
        },
        Err(e) => Err(e.clone()),
    }
}

// ---------------------------------------------------------------------------
// Both tools
// ---------------------------------------------------------------------------

/// What the translation of a virtual tool leads to.
pub open spec fn translated(
    r: Result<Translation, ExoError>,
    name: Seq<char>,
    params: JsonView,
    question_id: Seq<char>,
    asked_at: Seq<char>,
    url: Option<Seq<char>>,
    token: Option<Seq<char>>,
) -> bool {
    if name == "agent.ask_user"@ {
        match (params.field_text("question"@), r) {
            (Some(_), Ok(t)) => asks(t, params, question_id, asked_at),
            (None, Err(ExoError::Engine(m))) => m@ == "agent.ask_user: missing 'question'"@,
            _ => false,
        }
    } else if name == "peer.resolve"@ {
        match (url, params.field_text("name"@), r) {
            (None, _, Err(ExoError::Engine(m))) => m@
                == "peer.resolve: observatory_url not configured"@,
            (Some(_), None, Err(ExoError::Engine(m))) => m@ == "peer.resolve: missing 'name'"@,
            (Some(_), Some(n), Err(ExoError::Engine(m))) => !is_vessel_name(n) && m@
                == "peer.resolve: invalid vessel name '"@ + n + "'"@,
            (Some(u), Some(n), Ok(t)) => {
                &&& is_vessel_name(n)
                &&& t.tool_name@ == "http.request"@
                &&& t.params@ == registry_request(n, u, token)
                &&& t.context is PeerResolve
                &&& t.question is None
            },
            _ => false,
        }
    } else {
        r matches Err(ExoError::Engine(m)) && m@ == "unknown virtual tool: "@ + name
    }
}

/// Turns the call of a virtual tool into that of a generic one. A question gets the
/// identifier `question_id`.
pub fn translate_with_id(
    virtual_name: &str,
    params: &Json,
    question_id: &str,
    asked_at: &str,
    observatory_url: Option<&str>,
    observatory_token: Option<&str>,
) -> (r: Result<Translation, ExoError>)
    ensures
        translated(
            r,
            virtual_name@,
            params@,
            question_id@,
            asked_at@,
            opt_str(observatory_url),
            opt_str(observatory_token),
        ),
{
    if str_eq(virtual_name, "agent.ask_user") {
        translate_ask_user(params, question_id, asked_at)
    } else if str_eq(virtual_name, "peer.resolve") {
        let url = match observatory_url {
            Some(u) => u,
            None => {
                return Err(
                    ExoError::Engine("peer.resolve: observatory_url not configured".to_owned()),
                );
            },
        };
        match translate_peer_resolve(params, url, observatory_token) {
            Ok((tool_name, params)) => Ok(
                Translation {
                    tool_name,
                    params,
                    context: VirtualContext::PeerResolve,
                    question: None,
                },
            ),
            Err(e) => Err(e),
        }
    } else {
        let mut m = "unknown virtual tool: ".to_owned();
        m.append(virtual_name);
        Err(ExoError::Engine(m))
    }
}

/// `Uuid::new_v4`: a random identifier, of which nothing is known.
#[verifier::external_body]
fn random_id() -> (raw: u128) {
    uuid::Uuid::new_v4().as_u128()
}

/// `Utc::now` and its RFC 3339 text: the time of the call, of which nothing is known.
#[verifier::external_body]
fn present_time() -> (text: String) {
    chrono::Utc::now().to_rfc3339()
}

/// Turns the call of a virtual tool into that of a generic one. A question gets a
/// fresh identifier and the present time.
pub fn translate(
    virtual_name: &str,
    params: &Json,
    observatory_url: Option<&str>,
    observatory_token: Option<&str>,
) -> (r: Result<Translation, ExoError>)
    ensures
        exists|raw: u128, asked_at: Seq<char>|
            #[trigger] translated(
                r,
                virtual_name@,
                params@,
                id_text(raw),
                asked_at,
                opt_str(observatory_url),
                opt_str(observatory_token),
            ),
{
    let raw: u128 = random_id();
    let id = write_id(raw);
    let asked_at = present_time();
    translate_with_id(
        virtual_name,
        params,
        id.as_str(),
        asked_at.as_str(),
        observatory_url,
        observatory_token,
    )
}

/// Turns the result of the generic tool into that of the virtual one.
pub fn post_process(context: &VirtualContext, result: &Result<Json, String>) -> (r: Result<
    Json,
    String,
>)
    ensures
        crate::json::outcome(r) == (match (*context, *result) {
            (_, Err(e)) => Err(e@),
            (VirtualContext::AskUser { question_id }, Ok(v)) => Ok(
                ask_user_result(question_id@, v@),
            ),
            (VirtualContext::PeerResolve, Ok(v)) => peer_result(v@),
        }),
{
    match context {
        VirtualContext::AskUser { question_id } => match result {
            Ok(signal) => Ok(post_process_ask_user(question_id.as_str(), signal)),
            Err(e) => Err(e.clone()),
        },
        VirtualContext::PeerResolve => post_process_peer_resolve(result),
    }
}

/// Tells whether a question waits for its answer: the result of `agent.ask_user` says
/// that it is pending.
pub fn is_pending(context: &VirtualContext, result: &Result<Json, String>) -> (r: bool)
    ensures
        r == (*context is AskUser && (*result matches Ok(j) && j@.field_text("status"@) == Some(
            "pending"@,
        ))),
{
    match (context, result) {
        (VirtualContext::AskUser { .. }, Ok(j)) => match j.get_str("status") {
            Some(status) => str_eq(status.as_str(), "pending"),
            None => false,
        },
        _ => false,
    }
}

/// The name of a vessel never holds a slash, so a request stays in its place in the
/// registry.
pub proof fn vessel_names_hold_no_slash(name: Seq<char>)
    requires
        is_vessel_name(name),
    ensures
        !name.contains('/'),
{
    assert forall|i: int| 0 <= i < name.len() implies name[i] != '/' by {
        assert(is_name_char(name[i]));
    }
}

} // verus!

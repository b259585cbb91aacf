//! Laws of the tools: which of them the language model is offered, and what its calls of
//! the kernel's own tools lead to.

use vstd::prelude::*;
use vstd::string::*;

use crate::decode::opt_texts;
use crate::encode::{keys_differ, member_is_found};
use crate::json::JsonView;
use crate::proposals::{describes_memory_ops, describes_plan_update, describes_watch, mode_of};
use crate::schema::{object_requiring, typed};
use crate::text::{dec, end_is_found, has_text, part_is_found};
use crate::tool_defs::{cognitive_definitions, introspection_definitions, ToolDefinitionView};
use crate::tools::{
    accumulated, asks_for, cognitive_error, cognitive_names_differ, connector_definitions,
    is_question, offered_virtual_tools, CognitiveAccumulator, CognitiveToolResult,
    IntrospectionQuery,
};
use crate::types::ExoError;
use crate::virtual_tools::{
    ask_user_definition, ask_user_result, asks, describes_ask_user, describes_peer_resolve,
    is_name_char, is_vessel_name, peer_resolve_definition, peer_result, registry_headers,
    registry_request, translated, Descriptor, Translation, VirtualContext,
};

verus! {

// ---------------------------------------------------------------------------
// The lists of tools
// ---------------------------------------------------------------------------

/// The connector is not for signals.
pub open spec fn is_shown(d: Descriptor) -> bool {
    d.name@ != "signal.await"@ && d.name@ != "signal.emit"@
}

/// Every connector but those for signals is offered, in order, under its name, with its
/// description and with its schema if it has one.
pub proof fn every_connector_is_offered(descriptors: Seq<Descriptor>)
    ensures
        ({
            let shown = descriptors.filter(|d: Descriptor| is_shown(d));
            let offered = connector_definitions(descriptors);
            &&& offered.len() == shown.len()
            &&& forall|i: int|
                0 <= i < offered.len() ==> {
                    &&& (#[trigger] offered[i]).name == shown[i].name@
                    &&& offered[i].description == shown[i].description@
                    &&& shown[i].input_schema matches Some(s) ==> offered[i].input_schema == s@
                }
        }),
    decreases descriptors.len(),
{
    reveal(Seq::filter);
    if descriptors.len() > 0 {
        every_connector_is_offered(descriptors.drop_last());
    }
}

/// Some tool of the list has this name.
pub open spec fn offers(list: Seq<ToolDefinitionView>, name: Seq<char>) -> bool {
    exists|i: int| 0 <= i < list.len() && (#[trigger] list[i]).name == name
}

/// The operator can always be asked. A peer can be resolved exactly if there is an
/// observatory.
pub proof fn operator_can_be_asked(has_observatory: bool)
    ensures
        offers(offered_virtual_tools(has_observatory), "agent.ask_user"@),
        offers(offered_virtual_tools(has_observatory), "peer.resolve"@) <==> has_observatory,
{
    let list = offered_virtual_tools(has_observatory);
    reveal_strlit("agent.ask_user");
    reveal_strlit("peer.resolve");
    assert("agent.ask_user"@.len() == 14 && "peer.resolve"@.len() == 12);
    assert(list[0].name == "agent.ask_user"@);
    if has_observatory {
        assert(list[1].name == "peer.resolve"@);
    }
}

/// The model is offered a tool for each way in which it can change its mind and for each
/// question that it can ask about itself.
pub proof fn own_tools_are_offered()
    ensures
        offers(cognitive_definitions(), "update_plan"@),
        offers(cognitive_definitions(), "set_working_memory"@),
        offers(cognitive_definitions(), "save_memory_note"@),
        offers(cognitive_definitions(), "propose_watch"@),
        offers(cognitive_definitions(), "request_vessel_mode"@),
        offers(cognitive_definitions(), "reply_to_user"@),
        offers(introspection_definitions(), "introspect_tick_history"@),
        offers(introspection_definitions(), "introspect_budget_status"@),
        offers(introspection_definitions(), "introspect_thread_status"@),
        offers(introspection_definitions(), "introspect_memory_search"@),
        offers(introspection_definitions(), "introspect_trust_scores"@),
        offers(introspection_definitions(), "introspect_connector_details"@),
        offers(introspection_definitions(), "introspect_watch_list"@),
        offers(introspection_definitions(), "introspect_event_history"@),
{
    let a = cognitive_definitions();
    assert(a[0].name == "update_plan"@);
    assert(a[1].name == "set_working_memory"@);
    assert(a[2].name == "save_memory_note"@);
    assert(a[3].name == "propose_watch"@);
    assert(a[4].name == "request_vessel_mode"@);
    assert(a[5].name == "reply_to_user"@);
    let b = introspection_definitions();
    assert(b[0].name == "introspect_tick_history"@);
    assert(b[1].name == "introspect_budget_status"@);
    assert(b[2].name == "introspect_thread_status"@);
    assert(b[3].name == "introspect_memory_search"@);
    assert(b[4].name == "introspect_trust_scores"@);
    assert(b[5].name == "introspect_connector_details"@);
    assert(b[6].name == "introspect_watch_list"@);
    assert(b[7].name == "introspect_event_history"@);
}

// ---------------------------------------------------------------------------
// Questions of the vessel about itself
// ---------------------------------------------------------------------------

/// A question has the limit that the call names, or ten ticks, or twenty events.
pub proof fn question_has_its_limit(
    q: IntrospectionQuery,
    name: Seq<char>,
    input: JsonView,
    n: u64,
)
    requires
        asks_for(q, name, input),
    ensures
        match q {
            IntrospectionQuery::TickHistory { limit } => {
                &&& input.field("limit"@) == Some(JsonView::UInt(n)) && n <= u32::MAX ==> limit == n
                &&& input.field("limit"@) is None ==> limit == 10
            },
            IntrospectionQuery::EventHistory { event_type, limit } => {
                &&& input.field("limit"@) == Some(JsonView::UInt(n)) && n <= u32::MAX ==> limit == n
                &&& input.field("limit"@) is None ==> limit == 20
                &&& match event_type {
                    Some(t) => input.field("event_type"@) == Some(JsonView::Str(t@)),
                    None => !(input.field("event_type"@) matches Some(v) && v is Str),
                }
            },
            IntrospectionQuery::ConnectorDetails { name: connector } => input.field("name"@)
                == Some(JsonView::Str(connector@)),
            _ => true,
        },
{
    assert(n <= u32::MAX ==> n as u32 == n);
}

/// A search of the memory is for the topic and the tags that the call names.
pub proof fn search_is_for_what_is_named(
    q: IntrospectionQuery,
    name: Seq<char>,
    input: JsonView,
    tags: Seq<Seq<char>>,
)
    requires
        asks_for(q, name, input),
        q is MemorySearch,
    ensures
        match q {
            IntrospectionQuery::MemorySearch { topic, tags: found } => {
                &&& match topic {
                    Some(t) => input.field("topic"@) == Some(JsonView::Str(t@)),
                    None => !(input.field("topic"@) matches Some(v) && v is Str),
                }
                &&& input.field("tags"@) is None ==> found is None
                &&& input.field("tags"@) == Some(crate::json::string_array(tags)) ==> opt_texts(
                    found,
                ) == Some(tags)
            },
            _ => true,
        },
{
    let items = crate::json::string_array(tags)->Array_0;
    assert(Seq::new(items.len(), |i: int| items[i]->Str_0) =~= tags);
}

// ---------------------------------------------------------------------------
// Effects
// ---------------------------------------------------------------------------

/// Of two values the later one counts, and a call that names none leaves the earlier one.
/// Changes, notes and watches are added at the end.
pub proof fn later_values_count(
    after: CognitiveAccumulator,
    before: CognitiveAccumulator,
    effect: CognitiveToolResult,
)
    requires
        accumulated(after, before, effect),
    ensures
        effect.reply is Some ==> after.reply == effect.reply,
        effect.reply is None ==> after.reply == before.reply,
        effect.plan_update is Some ==> after.snapshot_delta.plan_update == effect.plan_update,
        effect.plan_update is None ==> after.snapshot_delta.plan_update
            == before.snapshot_delta.plan_update,
        effect.vessel_mode_request is Some ==> after.vessel_mode_request
            == effect.vessel_mode_request,
        effect.vessel_mode_request is None ==> after.vessel_mode_request
            == before.vessel_mode_request,
        effect.memory_note matches Some(n) ==> after.memory_notes@ == before.memory_notes@.push(n),
        effect.watch_proposal matches Some(w) ==> after.watch_proposals@
            == before.watch_proposals@.push(w),
        effect.working_memory_ops@.len() > 0 ==> (after.snapshot_delta.working_memory_ops matches Some(
            ops,
        ) && effect.working_memory_ops@.is_suffix_of(ops@)
            && (before.snapshot_delta.working_memory_ops matches Some(old_ops)
            ==> old_ops@.is_prefix_of(ops@))),
        after.actions == before.actions,
        after.reasoning_parts == before.reasoning_parts,
{
    if let Some(a) = after.snapshot_delta.working_memory_ops {
        match before.snapshot_delta.working_memory_ops {
            Some(b) => {
                let more = effect.working_memory_ops@;
                assert((b@ + more).subrange(b@.len() as int, (b@ + more).len() as int) =~= more);
                assert((b@ + more).subrange(0, b@.len() as int) =~= b@);
            },
            None => {
                assert(a@.subrange(0, a@.len() as int) =~= a@);
            },
        }
    }
}

// ---------------------------------------------------------------------------
// Virtual tools
// ---------------------------------------------------------------------------

/// A question is stored with its identifier, its text, its choices and its time, and the
/// call waits for the answer to this very question, as long as is asked for.
pub proof fn question_is_asked(
    t: Translation,
    params: JsonView,
    id: Seq<char>,
    asked_at: Seq<char>,
    seconds: u64,
)
    requires
        asks(t, params, id, asked_at),
    ensures
        t.tool_name@ == "signal.await"@,
        t.params@.field("key"@) == Some(JsonView::Str("question:"@ + id)),
        params.field("timeout_secs"@) == Some(JsonView::UInt(seconds)) ==> t.params@.field(
            "timeout_secs"@,
        ) == Some(JsonView::UInt(seconds)),
        params.field("timeout_secs"@) is None ==> t.params@.field("timeout_secs"@) == Some(
            JsonView::UInt(30),
        ),
        t.context matches VirtualContext::AskUser { question_id } && question_id@ == id,
        t.question matches Some(q) && {
            &&& params.field("question"@) == Some(JsonView::Str(q.text@))
            &&& has_text(q.summary@, q.text@)
            &&& q.record@.field("question_id"@) == Some(JsonView::Str(id))
            &&& q.record@.field("question"@) == Some(JsonView::Str(q.text@))
            &&& q.record@.field("asked_at"@) == Some(JsonView::Str(asked_at))
            &&& params.field("choices"@) is Some ==> q.record@.field("choices"@) == params.field(
                "choices"@,
            )
            &&& params.field("context"@) is Some ==> q.record@.field("context"@) == params.field(
                "context"@,
            )
        },
{
    let q = t.question->Some_0;
    end_is_found("Question: "@, q.text@);
    reveal_strlit("key");
    reveal_strlit("timeout_secs");
    reveal_strlit("question_id");
    reveal_strlit("question");
    reveal_strlit("choices");
    reveal_strlit("context");
    reveal_strlit("asked_at");
    assert("key"@.len() == 3 && "timeout_secs"@.len() == 12);
    assert("question_id"@.len() == 11 && "question"@.len() == 8 && "choices"@.len() == 7
        && "context"@.len() == 7 && "asked_at"@.len() == 8);
    assert("question"@[0] == 'q' && "asked_at"@[0] == 'a');
    assert("choices"@[1] == 'h' && "context"@[1] == 'o');
    let m = t.params@->Object_0;
    assert(keys_differ(m));
    member_is_found(m, 0);
    member_is_found(m, 1);
    let r = q.record@->Object_0;
    assert(keys_differ(r));
    member_is_found(r, 0);
    member_is_found(r, 1);
    member_is_found(r, 2);
    member_is_found(r, 3);
    member_is_found(r, 4);
}

/// The choices of a question are those that the call lists.
pub proof fn choices_are_those(
    t: Translation,
    params: JsonView,
    id: Seq<char>,
    asked_at: Seq<char>,
    choices: Seq<Seq<char>>,
)
    requires
        asks(t, params, id, asked_at),
        params.field("choices"@) == Some(crate::json::string_array(choices)),
    ensures
        t.question matches Some(q) && opt_texts(q.choices) == Some(choices),
{
    let items = crate::json::string_array(choices)->Array_0;
    assert(Seq::new(items.len(), |i: int| items[i]->Str_0) =~= choices);
}

/// A question is answered exactly if a signal came, with the answer that the signal
/// carries. Otherwise it is pending. Either way the result names the question.
pub proof fn answer_reaches_the_asker(id: Seq<char>, signal: JsonView, payload: JsonView)
    ensures
        ({
            let r = ask_user_result(id, signal);
            let came = signal.field("status"@) == Some(JsonView::Str("received"@));
            &&& r.field("question_id"@) == Some(JsonView::Str(id))
            &&& came ==> r.field("status"@) == Some(JsonView::Str("answered"@))
            &&& !came ==> r.field("status"@) == Some(JsonView::Str("pending"@))
            &&& came && signal.field("payload"@) == Some(payload) && payload.field("answer"@) is Some
                ==> r.field("answer"@) == payload.field("answer"@)
            &&& came && signal.field("payload"@) == Some(payload) && payload.field(
                "answered_by"@,
            ) is Some ==> r.field("answered_by"@) == payload.field("answered_by"@)
        }),
{
    let r = ask_user_result(id, signal)->Object_0;
    reveal_strlit("status");
    reveal_strlit("question_id");
    reveal_strlit("answer");
    reveal_strlit("answered_by");
    assert("status"@.len() == 6 && "question_id"@.len() == 11 && "answer"@.len() == 6
        && "answered_by"@.len() == 11);
    assert("status"@[0] == 's' && "answer"@[0] == 'a');
    assert("question_id"@[0] == 'q' && "answered_by"@[0] == 'a');
    assert(keys_differ(r));
    member_is_found(r, 0);
    member_is_found(r, 1);
    if r.len() > 2 {
        member_is_found(r, 2);
        member_is_found(r, 3);
    }
}

/// The registry is asked for the inbox of the vessel, at the observatory, with the token as
/// the bearer.
pub proof fn registry_is_asked(name: Seq<char>, url: Seq<char>, token: Option<Seq<char>>)
    ensures
        ({
            let r = registry_request(name, url, token);
            &&& r.field("method"@) == Some(JsonView::Str("GET"@))
            &&& r.field("url"@) matches Some(v) && v matches JsonView::Str(u) && {
                &&& u.subrange(0, url.len() as int) == url
                &&& has_text(u, "/"@ + name + "/"@)
            }
            &&& r.field("headers"@) matches Some(h) && match token {
                Some(t) => h.field("Authorization"@) == Some(JsonView::Str("Bearer "@ + t)),
                None => h == JsonView::Object(Seq::empty()),
            }
        }),
{
    let r = registry_request(name, url, token)->Object_0;
    reveal_strlit("url");
    reveal_strlit("method");
    reveal_strlit("headers");
    assert("url"@.len() == 3 && "method"@.len() == 6 && "headers"@.len() == 7);
    assert(keys_differ(r));
    member_is_found(r, 0);
    member_is_found(r, 1);
    member_is_found(r, 2);
    if token is Some {
        let h = registry_headers(token)->Object_0;
        assert(keys_differ(h));
        member_is_found(h, 0);
    }
    let u = url + "/api/v1/fleet/vessels/"@ + name + "/inbox-url"@;
    assert(u.subrange(0, url.len() as int) =~= url);
    reveal_strlit("/api/v1/fleet/vessels/");
    reveal_strlit("/inbox-url");
    reveal_strlit("/");
    assert("/api/v1/fleet/vessels/"@.len() == 22);
    let front = url + "/api/v1/fleet/vessels/"@.subrange(0, 21);
    let rest = "/inbox-url"@.subrange(1, 10);
    assert("/api/v1/fleet/vessels/"@ =~= "/api/v1/fleet/vessels/"@.subrange(0, 21) + "/"@);
    assert("/inbox-url"@ =~= "/"@ + rest);
    assert(front + ("/"@ + name + "/"@) + rest =~= u);
    part_is_found(front, "/"@ + name + "/"@, rest);
}

/// A vessel that the registry does not know is not found, any other refusal is an error
/// with its status, and otherwise the body is the result.
pub proof fn registry_answers(value: JsonView, status: u64, body: JsonView)
    ensures
        value.field("status_code"@) == Some(JsonView::UInt(404)) ==> peer_result(value) == Err::<
            JsonView,
            Seq<char>,
        >("vessel not found"@),
        value.field("status_code"@) == Some(JsonView::UInt(status)) && status >= 400 ==> peer_result(
            value,
        ) is Err,
        value.field("status_code"@) == Some(JsonView::UInt(status)) && status >= 400 && status
            != 404 ==> (peer_result(value) matches Err(m) && has_text(m, dec(status as nat))),
        value.field("status_code"@) == Some(JsonView::UInt(status)) && status < 400 && value.field(
            "body"@,
        ) == Some(body) ==> peer_result(value) == Ok::<JsonView, Seq<char>>(body),
{
    end_is_found("fleet registry returned HTTP "@, dec(status as nat));
}

/// A call of a virtual tool leads to a wait for a signal or to a request, by its name. Any
/// other tool is refused with its name.
pub proof fn virtual_tools_are_told_apart(
    r: Result<Translation, ExoError>,
    name: Seq<char>,
    params: JsonView,
    id: Seq<char>,
    asked_at: Seq<char>,
    url: Option<Seq<char>>,
    token: Option<Seq<char>>,
)
    requires
        translated(r, name, params, id, asked_at, url, token),
    ensures
        name == "agent.ask_user"@ ==> (r is Ok <==> (params.field("question"@) matches Some(q)
            && q is Str)),
        name == "agent.ask_user"@ ==> (r matches Ok(t) ==> asks(t, params, id, asked_at)),
        name == "peer.resolve"@ ==> (r matches Ok(t) ==> t.tool_name@ == "http.request"@ && (
        params.field("name"@) matches Some(v) && v matches JsonView::Str(n) && url matches Some(u)
            && t.params@ == registry_request(n, u, token)) && t.context is PeerResolve
            && t.question is None),
        name == "peer.resolve"@ && url is None ==> r is Err,
        name != "agent.ask_user"@ && name != "peer.resolve"@ ==> (r matches Err(e)
            && e matches ExoError::Engine(m) && has_text(m@, name)),
{
    reveal_strlit("agent.ask_user");
    reveal_strlit("peer.resolve");
    assert("agent.ask_user"@.len() == 14 && "peer.resolve"@.len() == 12);
    end_is_found("unknown virtual tool: "@, name);
}

// ---------------------------------------------------------------------------
// Schemas
// ---------------------------------------------------------------------------

/// The schema of an object tells which members it needs, and the schema of each.
pub proof fn schema_tells_members(
    required: Seq<Seq<char>>,
    properties: Seq<(Seq<char>, JsonView)>,
    i: int,
)
    requires
        keys_differ(properties),
        0 <= i < properties.len(),
    ensures
        ({
            let s = object_requiring(required, properties);
            &&& s.field("type"@) == Some(JsonView::Str("object"@))
            &&& s.field("required"@) == Some(crate::json::string_array(required))
            &&& s.field("properties"@) matches Some(p) && p.field(properties[i].0) == Some(
                properties[i].1,
            )
        }),
{
    reveal_strlit("type");
    reveal_strlit("required");
    reveal_strlit("properties");
    assert("type"@.len() == 4 && "required"@.len() == 8 && "properties"@.len() == 10);
    let m = object_requiring(required, properties)->Object_0;
    assert(keys_differ(m));
    member_is_found(m, 0);
    member_is_found(m, 1);
    member_is_found(m, 2);
    member_is_found(properties, i);
}

/// The tool needs one text, under this name.
pub open spec fn needs_text(t: ToolDefinitionView, name: Seq<char>) -> bool {
    &&& t.input_schema.field("required"@) == Some(crate::json::string_array(seq![name]))
    &&& t.input_schema.field("properties"@) matches Some(p) && p.field(name) matches Some(s)
        && s.field("type"@) == Some(JsonView::Str("string"@))
}

proof fn text_is_needed(name: Seq<char>)
    ensures
        ({
            let s = object_requiring(seq![name], seq![(name, typed("string"@))]);
            &&& s.field("required"@) == Some(crate::json::string_array(seq![name]))
            &&& s.field("properties"@) matches Some(p) && p.field(name) matches Some(t) && t.field(
                "type"@,
            ) == Some(JsonView::Str("string"@))
        }),
{
    let properties = seq![(name, typed("string"@))];
    schema_tells_members(seq![name], properties, 0);
    let m = typed("string"@)->Object_0;
    assert(keys_differ(m));
    member_is_found(m, 0);
}

/// The model is told what its own tools need, and a call that has it is carried out: a note
/// has its text, a reply its message, and a look at a connector its name.
pub proof fn tools_need_what_they_say(input: JsonView)
    ensures
        needs_text(cognitive_definitions()[2], "note"@),
        cognitive_error("save_memory_note"@, input) is None <==> (input.field("note"@) matches Some(
            v,
        ) && v is Str),
        needs_text(cognitive_definitions()[5], "message"@),
        cognitive_error("reply_to_user"@, input) is None <==> (input.field("message"@) matches Some(
            v,
        ) && v is Str),
        needs_text(introspection_definitions()[5], "name"@),
        is_question("introspect_connector_details"@, input) <==> (input.field("name"@) matches Some(
            v,
        ) && v is Str),
{
    cognitive_names_differ();
    text_is_needed("note"@);
    text_is_needed("message"@);
    text_is_needed("name"@);
}

/// A call that cannot be carried out is told which tool it was, or what is missing.
pub proof fn refused_calls_are_told(tool: Seq<char>, input: JsonView)
    requires
        tool != "update_plan"@,
        tool != "set_working_memory"@,
        tool != "save_memory_note"@,
        tool != "propose_watch"@,
        tool != "request_vessel_mode"@,
        tool != "reply_to_user"@,
    ensures
        cognitive_error(tool, input) matches Some(t) && has_text(t, tool),
{
    end_is_found("unknown cognitive tool: "@, tool);
}

/// A change of the memory, a change of the plan, a watch and a mode are carried out exactly
/// if the call describes one.
pub proof fn described_changes_are_carried_out(input: JsonView)
    ensures
        cognitive_error("set_working_memory"@, input) is None <==> (input.field("ops"@) matches Some(
            ops,
        ) && describes_memory_ops(ops)),
        cognitive_error("update_plan"@, input) is None <==> describes_plan_update(input),
        cognitive_error("propose_watch"@, input) is None <==> describes_watch(input),
        cognitive_error("request_vessel_mode"@, input) is None <==> (input.field(
            "mode"@,
        ) matches Some(m) && mode_of(m) is Some),
{
    cognitive_names_differ();
}

/// The tools with which the operator is asked and a peer is resolved change nothing, and
/// are described under their names with what they need.
pub proof fn virtual_tools_change_nothing(ask: Descriptor, resolve: Descriptor)
    requires
        describes_ask_user(ask),
        describes_peer_resolve(resolve),
    ensures
        ask.name@ == "agent.ask_user"@,
        resolve.name@ == "peer.resolve"@,
        !ask.is_mutating && ask.is_read_only && !ask.side_effects,
        !resolve.is_mutating && resolve.is_read_only && !resolve.side_effects,
        !ask.requires_read_before_write && !resolve.requires_read_before_write,
        !ask.is_concurrency_safe && resolve.is_concurrency_safe,
        ask.display_name@ == "Ask User"@,
        resolve.display_name@ == "Peer Resolve"@,
        ask.output_schema is Some && resolve.output_schema is Some,
        ask.input_schema matches Some(s) && s@.field("required"@) == Some(
            crate::json::string_array(seq!["question"@]),
        ),
        resolve.input_schema matches Some(s) && s@.field("required"@) == Some(
            crate::json::string_array(seq!["name"@]),
        ),
{
    reveal_strlit("type");
    reveal_strlit("required");
    reveal_strlit("properties");
    assert("type"@.len() == 4 && "required"@.len() == 8 && "properties"@.len() == 10);
    let a = ask_user_definition().input_schema->Object_0;
    assert(keys_differ(a));
    member_is_found(a, 1);
    let b = peer_resolve_definition().input_schema->Object_0;
    assert(keys_differ(b));
    member_is_found(b, 1);
}

/// A vessel is looked up exactly if it has a name and there is an observatory: the name is
/// not empty and holds nothing but letters, digits, dots, hyphens and underscores.
pub proof fn only_names_are_looked_up(
    r: Result<Translation, ExoError>,
    params: JsonView,
    id: Seq<char>,
    asked_at: Seq<char>,
    url: Seq<char>,
    token: Option<Seq<char>>,
    name: Seq<char>,
)
    requires
        translated(r, "peer.resolve"@, params, id, asked_at, Some(url), token),
        params.field("name"@) == Some(JsonView::Str(name)),
    ensures
        r is Ok <==> name.len() > 0 && forall|i: int|
            0 <= i < name.len() ==> {
                let c = #[trigger] name[i];
                ('a' <= c && c <= 'z') || ('A' <= c && c <= 'Z') || ('0' <= c && c <= '9') || c
                    == '.' || c == '-' || c == '_'
            },
        r matches Err(e) ==> (e matches ExoError::Engine(m) && has_text(m@, name)),
{
    reveal_strlit("agent.ask_user");
    reveal_strlit("peer.resolve");
    assert("agent.ask_user"@.len() == 14 && "peer.resolve"@.len() == 12);
    part_is_found("peer.resolve: invalid vessel name '"@, name, "'"@);
    if is_vessel_name(name) {
        assert forall|i: int| 0 <= i < name.len() implies {
            let c = #[trigger] name[i];
            ('a' <= c && c <= 'z') || ('A' <= c && c <= 'Z') || ('0' <= c && c <= '9') || c == '.'
                || c == '-' || c == '_'
        } by {
            assert(is_name_char(name[i]));
        }
    }
}

} // verus!

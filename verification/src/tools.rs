//! The tools that the language model is offered, and what the kernel's own tools do.
//!
//! Cognitive tools change the mind of the vessel and introspection tools look at it;
//! both are carried out inside the kernel. All other tools are connectors.

use vstd::prelude::*;
use vstd::string::*;

use crate::decode::{opt_texts, read_text_list, text_list_of};
use crate::json::{Json, JsonView};
use crate::memory::{PlanUpdate, WorkingMemoryOp};
use crate::proposals::{
    are_memory_ops, describes_memory_ops, describes_plan_update, describes_watch, is_plan_update,
    is_watch, mode_of, read_memory_ops, read_mode, read_plan_update, read_watch,
};
use crate::text::{opt_text, str_eq};
use crate::tool_defs::{
    cognitive_definitions, cognitive_tool_definitions, definition_views,
    introspection_definitions, introspection_tool_definitions, is_cognitive, is_introspective,
    ToolDefinition, ToolDefinitionView,
};
use crate::types::{ExoError, PlannedAction, SnapshotDelta, VesselMode};
use crate::virtual_tools::{
    ask_user_definition, define_tool, definition_of, peer_resolve_definition,
    virtual_tool_definitions, Descriptor,
};
use crate::watches::WatchProposal;

verus! {

// ---------------------------------------------------------------------------
// Introspection
// ---------------------------------------------------------------------------

/// A question of the vessel about itself.
#[derive(Debug, PartialEq, Eq)]
#[allow(inconsistent_fields)]
pub enum IntrospectionQuery {
    TickHistory { limit: u32 },
    BudgetStatus,
    ThreadStatus,
    MemorySearch { topic: Option<String>, tags: Option<Vec<String>> },
    TrustScores,
    ConnectorDetails { name: String },
    WatchList,
    EventHistory { event_type: Option<String>, limit: u32 },
}

/// The limit that the input names, or `default`. Of a larger number the lower 32
/// bits count.
pub open spec fn limit_of(input: JsonView, default: u64) -> u32 {
    (match input.field_unsigned("limit"@) {
        Some(n) => n,
        None => default,
    }) as u32
}

/// The texts of the member `tags`, if it is a list of texts.
pub open spec fn tags_of(input: JsonView) -> Option<Seq<Seq<char>>> {
    match input.field("tags"@) {
        Some(list) => text_list_of(list),
        None => None,
    }
}

/// `q` is the question that the tool `name` asks with `input`.
pub open spec fn asks_for(q: IntrospectionQuery, name: Seq<char>, input: JsonView) -> bool {
    match q {
        IntrospectionQuery::TickHistory { limit } => name == "introspect_tick_history"@ && limit
            == limit_of(input, 10),
        IntrospectionQuery::BudgetStatus => name == "introspect_budget_status"@,
        IntrospectionQuery::ThreadStatus => name == "introspect_thread_status"@,
        IntrospectionQuery::MemorySearch { topic, tags } => name == "introspect_memory_search"@
            && opt_text(topic) == input.field_text("topic"@) && opt_texts(tags) == tags_of(input),
        IntrospectionQuery::TrustScores => name == "introspect_trust_scores"@,
        IntrospectionQuery::ConnectorDetails { name: connector } => name
            == "introspect_connector_details"@ && Some(connector@) == input.field_text("name"@),
        IntrospectionQuery::WatchList => name == "introspect_watch_list"@,
        IntrospectionQuery::EventHistory { event_type, limit } => name
            == "introspect_event_history"@ && opt_text(event_type) == input.field_text(
            "event_type"@,
        ) && limit == limit_of(input, 20),
    }
}

/// The call of an introspection tool asks a question that can be answered.
pub open spec fn is_question(name: Seq<char>, input: JsonView) -> bool {
    is_introspective(name) && (name == "introspect_connector_details"@ ==> input.field_text(
        "name"@,
    ) is Some)
}

/// The error of an introspection call that asks no question.
pub open spec fn question_error() -> Seq<char> {
    "introspect_connector_details requires string field 'name'"@
}

/// The tool for connector details has a name that no other has.
proof fn connector_details_is_another_name()
    ensures
        "introspect_connector_details"@ != "introspect_tick_history"@,
        "introspect_connector_details"@ != "introspect_budget_status"@,
        "introspect_connector_details"@ != "introspect_thread_status"@,
        "introspect_connector_details"@ != "introspect_memory_search"@,
        "introspect_connector_details"@ != "introspect_trust_scores"@,
        "introspect_connector_details"@ != "introspect_watch_list"@,
        "introspect_connector_details"@ != "introspect_event_history"@,
{
    reveal_strlit("introspect_connector_details");
    reveal_strlit("introspect_tick_history");
    reveal_strlit("introspect_budget_status");
    reveal_strlit("introspect_thread_status");
    reveal_strlit("introspect_memory_search");
    reveal_strlit("introspect_trust_scores");
    reveal_strlit("introspect_watch_list");
    reveal_strlit("introspect_event_history");
    assert("introspect_connector_details"@.len() == 28);
    assert("introspect_tick_history"@.len() == 23);
    assert("introspect_budget_status"@.len() == 24);
    assert("introspect_thread_status"@.len() == 24);
    assert("introspect_memory_search"@.len() == 24);
    assert("introspect_trust_scores"@.len() == 23);
    assert("introspect_watch_list"@.len() == 21);
    assert("introspect_event_history"@.len() == 24);
}

fn read_limit(input: &Json, default: u64) -> (r: u32)
    ensures
        r == limit_of(input@, default),
{
    let n: u64 = match input.get_u64("limit") {
        Some(n) => n,
        None => default,
    };
    n as u32
}

fn read_field_text(input: &Json, key: &str) -> (r: Option<String>)
    ensures
        opt_text(r) == input@.field_text(key@),
{
    match input.get_str(key) {
        Some(t) => Some(t.clone()),
        None => None,
    }
}

/// Turns the call of an introspection tool into a question.
///
/// It fails for a tool that is no introspection tool, and for
/// `introspect_connector_details` without a name.
pub fn introspection_tool_to_query(name: &str, input: &Json) -> (r: Result<
    IntrospectionQuery,
    ExoError,
>)
    ensures
        match r {
            Ok(q) => is_question(name@, input@) && asks_for(q, name@, input@),
            Err(ExoError::Engine(m)) => !is_question(name@, input@) && m@ == if is_introspective(
                name@,
            ) {
                question_error()
            } else {
                "unknown introspection tool: "@ + name@
            },
            Err(_) => false,
        },
{
    proof {
        connector_details_is_another_name();
    }
    if str_eq(name, "introspect_tick_history") {
        Ok(IntrospectionQuery::TickHistory { limit: read_limit(input, 10) })
    } else if str_eq(name, "introspect_budget_status") {
        Ok(IntrospectionQuery::BudgetStatus)
    } else if str_eq(name, "introspect_thread_status") {
        Ok(IntrospectionQuery::ThreadStatus)
    } else if str_eq(name, "introspect_memory_search") {
        let tags = match input.get("tags") {
            Some(list) => read_text_list(list),
            None => None,
        };
        Ok(IntrospectionQuery::MemorySearch { topic: read_field_text(input, "topic"), tags })
    } else if str_eq(name, "introspect_trust_scores") {
        Ok(IntrospectionQuery::TrustScores)
    } else if str_eq(name, "introspect_connector_details") {
        match read_field_text(input, "name") {
            Some(connector) => Ok(IntrospectionQuery::ConnectorDetails { name: connector }),
            None => Err(
                ExoError::Engine(
                    "introspect_connector_details requires string field 'name'".to_owned(),
                ),
            ),
        }
    } else if str_eq(name, "introspect_watch_list") {
        Ok(IntrospectionQuery::WatchList)
    } else if str_eq(name, "introspect_event_history") {
        Ok(
            IntrospectionQuery::EventHistory {
                event_type: read_field_text(input, "event_type"),
                limit: read_limit(input, 20),
            },
        )
    } else {
        let mut m = "unknown introspection tool: ".to_owned();
        m.append(name);
        Err(ExoError::Engine(m))
    }
}

// ---------------------------------------------------------------------------
// Cognitive tools
// ---------------------------------------------------------------------------

/// What a cognitive tool does. Each tool fills one field.
#[derive(Debug)]
pub struct CognitiveToolResult {
    pub plan_update: Option<PlanUpdate>,
    pub working_memory_ops: Vec<WorkingMemoryOp>,
    pub memory_note: Option<String>,
    pub watch_proposal: Option<WatchProposal>,
    pub vessel_mode_request: Option<VesselMode>,
    pub reply: Option<String>,
}

/// The fields that are set: none but the one that `tool` fills.
pub open spec fn fills_only(r: CognitiveToolResult, tool: Seq<char>) -> bool {
    &&& r.plan_update is Some ==> tool == "update_plan"@
    &&& r.working_memory_ops@.len() > 0 ==> tool == "set_working_memory"@
    &&& r.memory_note is Some ==> tool == "save_memory_note"@
    &&& r.watch_proposal is Some ==> tool == "propose_watch"@
    &&& r.vessel_mode_request is Some ==> tool == "request_vessel_mode"@
    &&& r.reply is Some ==> tool == "reply_to_user"@
}

impl Default for CognitiveToolResult {
    /// No effect.
    fn default() -> (r: Self)
        ensures
            r.plan_update is None,
            r.working_memory_ops@.len() == 0,
            r.memory_note is None,
            r.watch_proposal is None,
            r.vessel_mode_request is None,
            r.reply is None,
    {
        CognitiveToolResult {
            plan_update: None,
            working_memory_ops: Vec::new(),
            memory_note: None,
            watch_proposal: None,
            vessel_mode_request: None,
            reply: None,
        }
    }
}

/// The error of a cognitive tool that cannot be carried out.
pub open spec fn cognitive_error(tool: Seq<char>, input: JsonView) -> Option<Seq<char>> {
    if tool == "update_plan"@ {
        if describes_plan_update(input) {
            None
        } else {
            Some("update_plan invalid input: expected a plan update"@)
        }
    } else if tool == "set_working_memory"@ {
        match input.field("ops"@) {
            None => Some("set_working_memory requires field 'ops'"@),
            Some(ops) => if describes_memory_ops(ops) {
                None
            } else {
                Some("set_working_memory invalid ops: expected a list of set and remove"@)
            },
        }
    } else if tool == "save_memory_note"@ {
        if input.field_text("note"@) is Some {
            None
        } else {
            Some("save_memory_note requires string field 'note'"@)
        }
    } else if tool == "propose_watch"@ {
        if describes_watch(input) {
            None
        } else {
            Some("propose_watch invalid watch proposal: expected a watch"@)
        }
    } else if tool == "request_vessel_mode"@ {
        match input.field("mode"@) {
            None => Some("request_vessel_mode requires field 'mode'"@),
            Some(m) => if mode_of(m) is Some {
                None
            } else {
                Some(
                    "request_vessel_mode invalid mode: expected normal, planning or executing"@,
                )
            },
        }
    } else if tool == "reply_to_user"@ {
        if input.field_text("message"@) is Some {
            None
        } else {
            Some("reply_to_user requires string field 'message'"@)
        }
    } else {
        Some("unknown cognitive tool: "@ + tool)
    }
}

/// `r` is what the cognitive tool `tool` does with `input`.
pub open spec fn effect_of(r: CognitiveToolResult, tool: Seq<char>, input: JsonView) -> bool {
    &&& fills_only(r, tool)
    &&& tool == "update_plan"@ ==> (r.plan_update matches Some(u) && is_plan_update(u, input))
    &&& tool == "set_working_memory"@ ==> are_memory_ops(
        r.working_memory_ops@,
        input.field("ops"@)->Some_0,
    )
    &&& tool == "save_memory_note"@ ==> opt_text(r.memory_note) == input.field_text("note"@)
    &&& tool == "propose_watch"@ ==> (r.watch_proposal matches Some(w) && is_watch(w, input))
    &&& tool == "request_vessel_mode"@ ==> r.vessel_mode_request == mode_of(
        input.field("mode"@)->Some_0,
    )
    &&& tool == "reply_to_user"@ ==> opt_text(r.reply) == input.field_text("message"@)
}

/// The names of the cognitive tools differ.
pub proof fn cognitive_names_differ()
    ensures
        "update_plan"@ != "set_working_memory"@,
        "update_plan"@ != "save_memory_note"@,
        "update_plan"@ != "propose_watch"@,
        "update_plan"@ != "request_vessel_mode"@,
        "update_plan"@ != "reply_to_user"@,
        "set_working_memory"@ != "save_memory_note"@,
        "set_working_memory"@ != "propose_watch"@,
        "set_working_memory"@ != "request_vessel_mode"@,
        "set_working_memory"@ != "reply_to_user"@,
        "save_memory_note"@ != "propose_watch"@,
        "save_memory_note"@ != "request_vessel_mode"@,
        "save_memory_note"@ != "reply_to_user"@,
        "propose_watch"@ != "request_vessel_mode"@,
        "propose_watch"@ != "reply_to_user"@,
        "request_vessel_mode"@ != "reply_to_user"@,
{
    reveal_strlit("update_plan");
    reveal_strlit("set_working_memory");
    reveal_strlit("save_memory_note");
    reveal_strlit("propose_watch");
    reveal_strlit("request_vessel_mode");
    reveal_strlit("reply_to_user");
    assert("update_plan"@[0] == 'u');
    assert("set_working_memory"@[1] == 'e');
    assert("save_memory_note"@[1] == 'a');
    assert("propose_watch"@[0] == 'p');
    assert("request_vessel_mode"@[2] == 'q');
    assert("reply_to_user"@[2] == 'p');
    assert("set_working_memory"@[0] == 's');
    assert("save_memory_note"@[0] == 's');
    assert("request_vessel_mode"@[0] == 'r');
    assert("reply_to_user"@[0] == 'r');
}

fn engine(message: &str) -> (e: ExoError)
    ensures
        e matches ExoError::Engine(m) && m@ == message@,
{
    ExoError::Engine(message.to_owned())
}

/// Carries out a cognitive tool.
pub fn process_cognitive_tool(name: &str, input: &Json) -> (r: Result<CognitiveToolResult, ExoError>)
    ensures
        match (r, cognitive_error(name@, input@)) {
            (Ok(effect), None) => is_cognitive(name@) && effect_of(effect, name@, input@),
            (Err(ExoError::Engine(m)), Some(text)) => m@ == text,
            _ => false,
        },
{
    proof {
        cognitive_names_differ();
    }
    let mut result = CognitiveToolResult::default();
    if str_eq(name, "update_plan") {
        match read_plan_update(input) {
            Some(update) => {
                result.plan_update = Some(update);
            },
            None => {
                return Err(engine("update_plan invalid input: expected a plan update"));
            },
        }
    } else if str_eq(name, "set_working_memory") {
        match input.get("ops") {
            None => {
                return Err(engine("set_working_memory requires field 'ops'"));
            },
            Some(list) => match read_memory_ops(list) {
                Some(ops) => {
                    result.working_memory_ops = ops;
                },
                None => {
                    return Err(
                        engine("set_working_memory invalid ops: expected a list of set and remove"),
                    );
                },
            },
        }
    } else if str_eq(name, "save_memory_note") {
        match read_field_text(input, "note") {
            Some(note) => {
                result.memory_note = Some(note);
            },
            None => {
                return Err(engine("save_memory_note requires string field 'note'"));
            },
        }
    } else if str_eq(name, "propose_watch") {
        match read_watch(input) {
            Some(watch) => {
                result.watch_proposal = Some(watch);
            },
            None => {
                return Err(engine("propose_watch invalid watch proposal: expected a watch"));
            },
        }
    } else if str_eq(name, "request_vessel_mode") {
        match input.get("mode") {
            None => {
                return Err(engine("request_vessel_mode requires field 'mode'"));
            },
            Some(m) => match read_mode(m) {
                Some(mode) => {
                    result.vessel_mode_request = Some(mode);
                },
                None => {
                    return Err(
                        engine(
                            "request_vessel_mode invalid mode: expected normal, planning or executing",
                        ),
                    );
                },
            },
        }
    } else if str_eq(name, "reply_to_user") {
        match read_field_text(input, "message") {
            Some(message) => {
                result.reply = Some(message);
            },
            None => {
                return Err(engine("reply_to_user requires string field 'message'"));
            },
        }
    } else {
        let mut m = "unknown cognitive tool: ".to_owned();
        m.append(name);
        return Err(ExoError::Engine(m));
    }
    Ok(result)
}

// ---------------------------------------------------------------------------
// Accumulating effects
// ---------------------------------------------------------------------------

/// What the tools of a decision have done so far.
#[derive(Debug)]
pub struct CognitiveAccumulator {
    pub reasoning_parts: Vec<String>,
    pub reply: Option<String>,
    pub actions: Vec<PlannedAction>,
    pub snapshot_delta: SnapshotDelta,
    pub memory_notes: Vec<String>,
    pub watch_proposals: Vec<WatchProposal>,
    pub vessel_mode_request: Option<VesselMode>,
}

impl Default for CognitiveAccumulator {
    /// Nothing has been done.
    fn default() -> (r: Self)
        ensures
            r.reasoning_parts@.len() == 0,
            r.reply is None,
            r.actions@.len() == 0,
            r.snapshot_delta.plan_update is None,
            r.snapshot_delta.working_memory_ops is None,
            r.memory_notes@.len() == 0,
            r.watch_proposals@.len() == 0,
            r.vessel_mode_request is None,
    {
        CognitiveAccumulator {
            reasoning_parts: Vec::new(),
            reply: None,
            actions: Vec::new(),
            snapshot_delta: SnapshotDelta::default(),
            memory_notes: Vec::new(),
            watch_proposals: Vec::new(),
            vessel_mode_request: None,
        }
    }
}

/// The later of two values, if there is one.
pub open spec fn latest<T>(earlier: Option<T>, later: Option<T>) -> Option<T> {
    match later {
        Some(v) => Some(v),
        None => earlier,
    }
}

/// The list with one more value, if there is one.
pub open spec fn extended<T>(list: Seq<T>, more: Option<T>) -> Seq<T> {
    match more {
        Some(v) => list.push(v),
        None => list,
    }
}

/// The changes of the working memory with more of them. Without any the memory is
/// not touched.
pub open spec fn ops_extended(
    after: Option<Vec<WorkingMemoryOp>>,
    before: Option<Vec<WorkingMemoryOp>>,
    more: Seq<WorkingMemoryOp>,
) -> bool {
    if more.len() == 0 {
        after == before
    } else {
        match (after, before) {
            (Some(a), Some(b)) => a@ == b@ + more,
            (Some(a), None) => a@ == more,
            _ => false,
        }
    }
}

/// `after` is the accumulator `before` with one more effect: single values are
/// replaced, lists grow.
pub open spec fn accumulated(
    after: CognitiveAccumulator,
    before: CognitiveAccumulator,
    effect: CognitiveToolResult,
) -> bool {
    &&& after.reasoning_parts == before.reasoning_parts
    &&& after.actions == before.actions
    &&& after.reply == latest(before.reply, effect.reply)
    &&& after.snapshot_delta.plan_update == latest(
        before.snapshot_delta.plan_update,
        effect.plan_update,
    )
    &&& ops_extended(
        after.snapshot_delta.working_memory_ops,
        before.snapshot_delta.working_memory_ops,
        effect.working_memory_ops@,
    )
    &&& after.memory_notes@ == extended(before.memory_notes@, effect.memory_note)
    &&& after.watch_proposals@ == extended(before.watch_proposals@, effect.watch_proposal)
    &&& after.vessel_mode_request == latest(
        before.vessel_mode_request,
        effect.vessel_mode_request,
    )
}

/// Adds the effect of a cognitive tool.
pub fn accumulate_cognitive_outcome(
    accumulator: &mut CognitiveAccumulator,
    result: CognitiveToolResult,
)
    ensures
        accumulated(*final(accumulator), *old(accumulator), result),
{
    match result.plan_update {
        Some(update) => {
            accumulator.snapshot_delta.plan_update = Some(update);
        },
        None => {},
    }
    if result.working_memory_ops.len() > 0 {
        let mut more = result.working_memory_ops;
        let merged = match accumulator.snapshot_delta.working_memory_ops.take() {
            Some(ops) => {
                let mut ops = ops;
                ops.append(&mut more);
                ops
            },
            None => more,
        };
        accumulator.snapshot_delta.working_memory_ops = Some(merged);
    }
    match result.memory_note {
        Some(note) => {
            accumulator.memory_notes.push(note);
        },
        None => {},
    }
    match result.watch_proposal {
        Some(watch) => {
            accumulator.watch_proposals.push(watch);
        },
        None => {},
    }
    match result.vessel_mode_request {
        Some(mode) => {
            accumulator.vessel_mode_request = Some(mode);
        },
        None => {},
    }
    match result.reply {
        Some(message) => {
            accumulator.reply = Some(message);
        },
        None => {},
    }
}

/// Notes and watches are never lost: what was accumulated stays at its place.
pub proof fn accumulation_keeps_lists(
    after: CognitiveAccumulator,
    before: CognitiveAccumulator,
    effect: CognitiveToolResult,
)
    requires
        accumulated(after, before, effect),
    ensures
        before.memory_notes@.is_prefix_of(after.memory_notes@),
        before.watch_proposals@.is_prefix_of(after.watch_proposals@),
{
}

// ---------------------------------------------------------------------------
// The lists of tools
// ---------------------------------------------------------------------------

/// The connectors that the language model does not see.
pub open spec fn is_filtered(name: Seq<char>) -> bool {
    name == "signal.await"@ || name == "signal.emit"@
}

/// What the language model is told of the connectors, in order.
pub open spec fn connector_definitions(descriptors: Seq<Descriptor>) -> Seq<ToolDefinitionView>
    decreases descriptors.len(),
{
    if descriptors.len() == 0 {
        Seq::empty()
    } else if is_filtered(descriptors.last().name@) {
        connector_definitions(descriptors.drop_last())
    } else {
        connector_definitions(descriptors.drop_last()).push(definition_of(descriptors.last()))
    }
}

/// Defines the connectors for the language model. The tools for signals are left
/// out.
pub fn connector_tool_definitions(capabilities: Vec<Descriptor>) -> (r: Vec<ToolDefinition>)
    ensures
        definition_views(r@) == connector_definitions(capabilities@),
{
    let mut rest = capabilities;
    let mut out: Vec<ToolDefinition> = Vec::new();
    let ghost all = capabilities@;
    let ghost mut done: int = 0;
    assert(all.subrange(0, all.len() as int) =~= all);
    assert(definition_views(out@) =~= connector_definitions(all.subrange(0, 0)));
    while rest.len() > 0
        invariant
            0 <= done <= all.len(),
            rest@ == all.subrange(done, all.len() as int),
            definition_views(out@) == connector_definitions(all.subrange(0, done)),
        decreases rest@.len(),
    {
        let d = rest.remove(0);
        proof {
            assert(rest@ =~= all.subrange(done + 1, all.len() as int));
            assert(all.subrange(0, done + 1).drop_last() =~= all.subrange(0, done));
            assert(all.subrange(0, done + 1).last() == d);
            done = done + 1;
        }
        let ghost before = out@;
        if !(str_eq(d.name.as_str(), "signal.await") || str_eq(d.name.as_str(), "signal.emit")) {
            out.push(define_tool(d));
            assert(definition_views(out@) =~= definition_views(before).push(definition_of(d)));
        }
    }
    assert(all.subrange(0, done) =~= all);
    out
}

/// The virtual tools that are offered: a peer can be resolved only through an
/// observatory.
pub open spec fn offered_virtual_tools(has_observatory: bool) -> Seq<ToolDefinitionView> {
    if has_observatory {
        seq![ask_user_definition(), peer_resolve_definition()]
    } else {
        seq![ask_user_definition()]
    }
}

/// The tools of the Decide step: the connectors, the virtual tools, the cognitive
/// tools and the introspection tools.
pub fn build_decide_tools(capabilities: Vec<Descriptor>, has_observatory: bool) -> (r: Vec<
    ToolDefinition,
>)
    ensures
        definition_views(r@) == connector_definitions(capabilities@) + offered_virtual_tools(
            has_observatory,
        ) + cognitive_definitions() + introspection_definitions(),
{
    let mut tools = connector_tool_definitions(capabilities);
    let ghost t0 = tools@;
    let mut more = virtual_tool_definitions();
    let ghost m = more@;
    assert(definition_views(m).len() == m.len());
    if !has_observatory {
        more.truncate(1);
        assert(definition_views(more@) =~= offered_virtual_tools(false)) by {
            assert(definition_views(m)[0] == ask_user_definition());
            assert(more@.len() == 1 && more@[0] == m[0]);
        }
    }
    let ghost v = more@;
    tools.append(&mut more);
    assert(definition_views(tools@) =~= definition_views(t0) + definition_views(v));
    let ghost t1 = tools@;
    let mut cognitive = cognitive_tool_definitions();
    let ghost c = cognitive@;
    tools.append(&mut cognitive);
    assert(definition_views(tools@) =~= definition_views(t1) + definition_views(c));
    let ghost t2 = tools@;
    let mut introspection = introspection_tool_definitions();
    let ghost i = introspection@;
    tools.append(&mut introspection);
    assert(definition_views(tools@) =~= definition_views(t2) + definition_views(i));
    tools
}

/// The tools of the inner loop: the connectors and the cognitive tools.
pub fn build_inner_loop_tools(capabilities: Vec<Descriptor>) -> (r: Vec<ToolDefinition>)
    ensures
        definition_views(r@) == connector_definitions(capabilities@) + cognitive_definitions(),
{
    let mut tools = connector_tool_definitions(capabilities);
    let ghost t0 = tools@;
    let mut cognitive = cognitive_tool_definitions();
    let ghost c = cognitive@;
    tools.append(&mut cognitive);
    assert(definition_views(tools@) =~= definition_views(t0) + definition_views(c));
    tools
}

/// The tools for signals never reach the language model as connectors.
pub proof fn signal_tools_stay_hidden(descriptors: Seq<Descriptor>)
    ensures
        forall|i: int|
            0 <= i < connector_definitions(descriptors).len() ==> !is_filtered(
                (#[trigger] connector_definitions(descriptors)[i]).name,
            ),
    decreases descriptors.len(),
{
    if descriptors.len() > 0 {
        signal_tools_stay_hidden(descriptors.drop_last());
    }
}

} // verus!

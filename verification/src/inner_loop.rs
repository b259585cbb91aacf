//! The inner loop: within one tick the vessel decides, aligns and acts several
//! times.
//!
//! Every action of the loop passes the Align step. The machine decides; the session
//! budget, the relationships, the tools and the language model are outside.

use vstd::prelude::*;
use vstd::string::*;

use crate::context_window::{all_showable, format_windowed_results, windowed};
use crate::decode::{
    field_at, flag_of, has_record_form, is_record, maybe_text_of, read_flag, read_maybe_text,
    read_text, read_text_list, record_field, text_list_of, text_of,
};
use crate::json::{parse_json, parsed, views, write_json, written, Json, JsonView};
use crate::llm::{block_views, message_views, text_message, LlmMessage, LlmRole, MessageView};
use crate::memory::{PlanUpdate, WorkingMemoryOp};
use crate::proposals::{
    are_memory_ops, describes_action, describes_memory_ops, describes_plan_update, describes_watch,
    is_action, is_plan_update, is_watch, mode_of, read_action, read_memory_ops, read_mode,
    read_plan_update, read_watch,
};
use crate::text::{
    dec, dec_u64, end_is_found, found_by_way, found_in_longer, has_text, opt_text, part_is_found,
    texts,
};
use crate::types::{
    extract_json_from_code_fence, fenced, ActionExecution, ArtifactId, ContentBlock, DecisionResult,
    LlmCallRecord, PlannedAction, SnapshotDelta, VesselMode,
};
use crate::virtual_tools::Descriptor;
use crate::watches::WatchProposal;

verus! {

// ---------------------------------------------------------------------------
// Texts
// ---------------------------------------------------------------------------

/// What is said about an error in a correction.
pub open spec fn error_context(last_error: Option<Seq<char>>) -> Seq<char> {
    match last_error {
        Some(e) => "Previous attempts failed because: "@ + e + "."@,
        None => "Previous attempts are repeating without progress."@,
    }
}

/// The message to a model that repeats itself.
pub open spec fn correction_text(
    tool: Seq<char>,
    count: u32,
    last_error: Option<Seq<char>>,
) -> Seq<char> {
    "You have attempted "@ + tool + " with the same arguments "@ + dec(count as nat) + " times. "@
        + error_context(last_error)
        + " Try a different approach: read the file again, change the search pattern, or break the edit into smaller pieces."@
}

/// Builds the message to a model that repeats itself.
pub fn build_doom_loop_correction(tool: &str, count: u32, last_error: Option<&str>) -> (r: String)
    ensures
        r@ == correction_text(tool@, count, crate::virtual_tools::opt_str(last_error)),
{
    let context = match last_error {
        Some(e) => {
            let mut c = "Previous attempts failed because: ".to_owned();
            c.append(e);
            c.append(".");
            c
        },
        None => "Previous attempts are repeating without progress.".to_owned(),
    };
    let mut r = "You have attempted ".to_owned();
    r.append(tool);
    r.append(" with the same arguments ");
    r.append(dec_u64(count as u64).as_str());
    r.append(" times. ");
    r.append(context.as_str());
    r.append(
        " Try a different approach: read the file again, change the search pattern, or break the edit into smaller pieces.",
    );
    r
}

/// What the mode of the vessel means for the model.
pub open spec fn mode_context(mode: VesselMode) -> Seq<char> {
    match mode {
        VesselMode::Planning => "You are in **Planning** mode. Only read-only tools are allowed. Propose your plan."@,
        VesselMode::Executing => "You are **Executing** an approved plan. Follow the plan tasks in order."@,
        VesselMode::Normal => ""@,
    }
}

/// Tells the model what the mode of the vessel means.
pub fn build_mode_context(mode: VesselMode) -> (r: String)
    ensures
        r@ == mode_context(mode),
{
    match mode {
        VesselMode::Planning => "You are in **Planning** mode. Only read-only tools are allowed. Propose your plan.".to_owned(),
        VesselMode::Executing => "You are **Executing** an approved plan. Follow the plan tasks in order.".to_owned(),
        VesselMode::Normal => "".to_owned(),
    }
}

/// The lines of the actions of a decision.
pub open spec fn action_lines(actions: Seq<PlannedAction>) -> Seq<char>
    decreases actions.len(),
{
    if actions.len() == 0 {
        Seq::empty()
    } else {
        action_lines(actions.drop_last()) + ("- "@ + actions.last().tool_name@ + ": "@
            + actions.last().rationale@ + "\n"@)
    }
}

/// The summary of a decision.
pub open spec fn decision_summary(
    reasoning: Seq<char>,
    actions: Seq<PlannedAction>,
    reply: Option<Seq<char>>,
) -> Seq<char> {
    "Reasoning: "@ + reasoning + "\n"@ + (if actions.len() > 0 {
        "\nActions taken:\n"@ + action_lines(actions)
    } else {
        Seq::empty()
    }) + (match reply {
        Some(t) => "\nReply: "@ + t + "\n"@,
        None => Seq::empty(),
    })
}

/// Summarises a decision for the model that made it.
pub fn format_decision_summary(decision: &DecisionResult) -> (r: String)
    ensures
        r@ == decision_summary(
            decision.reasoning@,
            decision.actions@,
            opt_text(decision.reply),
        ),
{
    let mut r = "Reasoning: ".to_owned();
    r.append(decision.reasoning.as_str());
    r.append("\n");
    let mut part = String::new();
    if decision.actions.len() > 0 {
        let mut lines = String::new();
        let mut i: usize = 0;
        assert(lines@ =~= action_lines(decision.actions@.subrange(0, 0)));
        while i < decision.actions.len()
            invariant
                i <= decision.actions@.len(),
                lines@ == action_lines(decision.actions@.subrange(0, i as int)),
            decreases decision.actions@.len() - i,
        {
            let action = &decision.actions[i];
            assert(decision.actions@.subrange(0, i + 1).drop_last() =~= decision.actions@.subrange(
                0,
                i as int,
            ));
            let mut line = "- ".to_owned();
            line.append(action.tool_name.as_str());
            line.append(": ");
            line.append(action.rationale.as_str());
            line.append("\n");
            lines.append(line.as_str());
            i = i + 1;
        }
        assert(decision.actions@.subrange(0, decision.actions@.len() as int)
            =~= decision.actions@);
        part = "\nActions taken:\n".to_owned();
        part.append(lines.as_str());
    }
    r.append(part.as_str());
    let mut answer = String::new();
    match &decision.reply {
        Some(t) => {
            answer = "\nReply: ".to_owned();
            answer.append(t.as_str());
            answer.append("\n");
        },
        None => {},
    }
    r.append(answer.as_str());
    r
}

/// The schema of a connector as text.
pub open spec fn schema_text(schema: Option<Json>) -> Seq<char> {
    match schema {
        Some(s) => written(s@),
        None => written(JsonView::Null),
    }
}

/// The lines on the connectors.
pub open spec fn tool_lines(descriptors: Seq<Descriptor>) -> Seq<char>
    decreases descriptors.len(),
{
    if descriptors.len() == 0 {
        Seq::empty()
    } else {
        let d = descriptors.last();
        tool_lines(descriptors.drop_last()) + ("- **"@ + d.name@ + "**: "@ + d.description@
            + "\n  Input: "@ + schema_text(d.input_schema) + "\n"@)
    }
}

/// Describes the connectors for the prompt. Without a tool host there are none.
pub fn build_tools_description(capabilities: &Option<Vec<Descriptor>>) -> (r: String)
    ensures
        r@ == (match *capabilities {
            Some(list) => tool_lines(list@),
            None => "(no tools available)"@,
        }),
{
    match capabilities {
        None => "(no tools available)".to_owned(),
        Some(list) => {
            let mut out = String::new();
            let mut i: usize = 0;
            assert(out@ =~= tool_lines(list@.subrange(0, 0)));
            while i < list.len()
                invariant
                    i <= list@.len(),
                    out@ == tool_lines(list@.subrange(0, i as int)),
                decreases list@.len() - i,
            {
                let d = &list[i];
                assert(list@.subrange(0, i + 1).drop_last() =~= list@.subrange(0, i as int));
                let schema = match &d.input_schema {
                    Some(s) => write_json(s),
                    None => write_json(&Json::Null),
                };
                let mut line = "- **".to_owned();
                line.append(d.name.as_str());
                line.append("**: ");
                line.append(d.description.as_str());
                line.append("\n  Input: ");
                line.append(schema.as_str());
                line.append("\n");
                out.append(line.as_str());
                i = i + 1;
            }
            assert(list@.subrange(0, list@.len() as int) =~= list@);
            out
        },
    }
}

/// The results of the tools, behind a correction if there is one.
pub open spec fn results_text(correction: Option<Seq<char>>, results: Seq<char>) -> Seq<char> {
    match correction {
        Some(c) => c + "\n\n"@ + results,
        None => results,
    }
}

/// The messages of a decision in the inner loop.
pub open spec fn lite_messages(
    prompt: Seq<char>,
    summary: Seq<char>,
    results: Seq<char>,
) -> Seq<MessageView> {
    seq![
        text_message(LlmRole::User, prompt),
        text_message(LlmRole::Assistant, summary),
        text_message(LlmRole::User, results),
    ]
}

/// `m` are the messages of a decision in the inner loop.
pub open spec fn asks_again(
    m: Seq<LlmMessage>,
    prompt: Seq<char>,
    executions: Seq<ActionExecution>,
    previous: DecisionResult,
    correction: Option<String>,
    window: u32,
) -> bool {
    message_views(m) == lite_messages(
        prompt,
        decision_summary(previous.reasoning@, previous.actions@, opt_text(previous.reply)),
        results_text(opt_text(correction), windowed(executions, window)),
    )
}

/// Builds the messages of a decision in the inner loop: the context of the tick, what
/// was decided last, and what the tools returned since.
///
/// Nothing is returned if an output would have to be cut inside a character.
pub fn decide_lite_messages(
    context_prompt: &str,
    executions: &Vec<ActionExecution>,
    previous: &DecisionResult,
    correction: &Option<String>,
    context_window_size: u32,
) -> (r: Option<Vec<LlmMessage>>)
    ensures
        match r {
            Some(m) => all_showable(executions@, context_window_size) && asks_again(
                m@,
                context_prompt@,
                executions@,
                *previous,
                *correction,
                context_window_size,
            ),
            None => !all_showable(executions@, context_window_size),
        },
{
    let results = match format_windowed_results(executions, context_window_size) {
        Some(t) => t,
        None => {
            return None;
        },
    };
    let text = match correction {
        Some(c) => {
            let mut t = c.clone();
            t.append("\n\n");
            t.append(results.as_str());
            t
        },
        None => results,
    };
    let summary = format_decision_summary(previous);
    let m = vec![
        LlmMessage::text(LlmRole::User, context_prompt),
        LlmMessage::text(LlmRole::Assistant, summary.as_str()),
        LlmMessage::text(LlmRole::User, text.as_str()),
    ];
    assert(message_views(m@) =~= lite_messages(context_prompt@, summary@, text@));
    Some(m)
}

// ---------------------------------------------------------------------------
// Replies
// ---------------------------------------------------------------------------

/// An optional list, absent if the value is missing or null.
pub open spec fn maybe_ops_ok(v: Option<JsonView>) -> bool {
    match v {
        None => true,
        Some(JsonView::Null) => true,
        Some(j) => describes_memory_ops(j),
    }
}

/// `ops` are the changes of the working memory that an optional value lists.
pub open spec fn maybe_ops_are(ops: Option<Vec<WorkingMemoryOp>>, v: Option<JsonView>) -> bool {
    match v {
        None => ops is None,
        Some(JsonView::Null) => ops is None,
        Some(j) => ops matches Some(list) && are_memory_ops(list@, j),
    }
}

/// The optional value is missing, null, or a plan update.
pub open spec fn maybe_update_ok(v: Option<JsonView>) -> bool {
    match v {
        None => true,
        Some(JsonView::Null) => true,
        Some(j) => describes_plan_update(j),
    }
}

/// `u` is the plan update of an optional value.
pub open spec fn maybe_update_is(u: Option<PlanUpdate>, v: Option<JsonView>) -> bool {
    match v {
        None => u is None,
        Some(JsonView::Null) => u is None,
        Some(j) => u matches Some(update) && is_plan_update(update, j),
    }
}

/// The mode of an optional value. Nothing if the value names no mode.
pub open spec fn maybe_mode_of(v: Option<JsonView>) -> Option<Option<VesselMode>> {
    match v {
        None => Some(None),
        Some(JsonView::Null) => Some(None),
        Some(j) => match mode_of(j) {
            Some(m) => Some(Some(m)),
            None => None,
        },
    }
}

/// Every item describes an action.
pub open spec fn all_actions(items: Seq<JsonView>) -> bool {
    forall|i: int| 0 <= i < items.len() ==> describes_action(#[trigger] items[i])
}

/// `list` are the actions that the items describe.
pub open spec fn are_actions(list: Seq<PlannedAction>, items: Seq<JsonView>) -> bool {
    list.len() == items.len() && forall|i: int|
        0 <= i < items.len() ==> is_action(#[trigger] list[i], items[i])
}

/// Every item describes a watch.
pub open spec fn all_watches(items: Seq<JsonView>) -> bool {
    forall|i: int| 0 <= i < items.len() ==> describes_watch(#[trigger] items[i])
}

/// `list` are the watches that the items describe.
pub open spec fn are_watches(list: Seq<WatchProposal>, items: Seq<JsonView>) -> bool {
    list.len() == items.len() && forall|i: int|
        0 <= i < items.len() ==> is_watch(#[trigger] list[i], items[i])
}

/// The items of a list that is empty if it is missing. Nothing if it is no list.
pub open spec fn items_of(v: Option<JsonView>) -> Option<Seq<JsonView>> {
    match v {
        None => Some(Seq::empty()),
        Some(j) => j.items(),
    }
}

/// The texts of a list that is empty if it is missing. Nothing if it is no list of
/// texts.
pub open spec fn texts_of(v: Option<JsonView>) -> Option<Seq<Seq<char>>> {
    match v {
        None => Some(Seq::empty()),
        Some(j) => text_list_of(j),
    }
}

/// The value describes a decision.
pub open spec fn describes_decision(j: JsonView) -> bool {
    &&& is_record(j, 9)
    &&& text_of(field_at(j, "reasoning"@, 0)) is Some
    &&& flag_of(field_at(j, "inner_loop_requested"@, 1)) is Some
    &&& maybe_text_of(field_at(j, "reply"@, 2)) is Some
    &&& maybe_update_ok(field_at(j, "plan_update"@, 3))
    &&& maybe_ops_ok(field_at(j, "working_memory_ops"@, 4))
    &&& maybe_mode_of(field_at(j, "vessel_mode_request"@, 5)) is Some
    &&& match items_of(field_at(j, "actions"@, 6)) {
        Some(items) => all_actions(items),
        None => false,
    }
    &&& texts_of(field_at(j, "memory_notes"@, 7)) is Some
    &&& match items_of(field_at(j, "watch_proposals"@, 8)) {
        Some(items) => all_watches(items),
        None => false,
    }
}

/// `d` is the decision that the value describes.
pub open spec fn is_decision(d: DecisionResult, j: JsonView) -> bool {
    &&& Some(d.reasoning@) == text_of(field_at(j, "reasoning"@, 0))
    &&& Some(opt_text(d.reply)) == maybe_text_of(field_at(j, "reply"@, 2))
    &&& maybe_update_is(d.snapshot_delta.plan_update, field_at(j, "plan_update"@, 3))
    &&& maybe_ops_are(
        d.snapshot_delta.working_memory_ops,
        field_at(j, "working_memory_ops"@, 4),
    )
    &&& Some(d.vessel_mode_request) == maybe_mode_of(field_at(j, "vessel_mode_request"@, 5))
    &&& match items_of(field_at(j, "actions"@, 6)) {
        Some(items) => are_actions(d.actions@, items),
        None => false,
    }
    &&& Some(texts(d.memory_notes@)) == texts_of(field_at(j, "memory_notes"@, 7))
    &&& match items_of(field_at(j, "watch_proposals"@, 8)) {
        Some(items) => are_watches(d.watch_proposals@, items),
        None => false,
    }
}

/// `d` is the decision to do nothing more, with `text` as its reasoning.
pub open spec fn is_completion(d: DecisionResult, text: Seq<char>) -> bool {
    &&& d.reasoning@ == text
    &&& d.reply is None
    &&& d.snapshot_delta.plan_update is None
    &&& d.snapshot_delta.working_memory_ops is None
    &&& d.vessel_mode_request is None
    &&& d.actions@.len() == 0
    &&& d.memory_notes@.len() == 0
    &&& d.watch_proposals@.len() == 0
}

/// The value that a text holds, if it describes a decision.
pub open spec fn decision_in(text: Seq<char>) -> Option<JsonView> {
    match parsed(text) {
        Ok(j) => if describes_decision(j) {
            Some(j)
        } else {
            None
        },
        Err(_) => None,
    }
}

/// `d` is the decision in a text of the model: the whole text as JSON, or else the
/// JSON in its first code fence, or else the decision to do nothing more.
pub open spec fn decision_from(d: DecisionResult, text: Seq<char>) -> bool {
    match decision_in(text) {
        Some(j) => is_decision(d, j),
        None => match fenced(text) {
            Some(content) => match decision_in(content) {
                Some(j) => is_decision(d, j),
                None => is_completion(d, text),
            },
            None => is_completion(d, text),
        },
    }
}

fn read_actions(v: Option<&Json>) -> (r: Option<Vec<PlannedAction>>)
    ensures
        match (r, items_of(crate::json::ref_json(v))) {
            (Some(list), Some(items)) => all_actions(items) && are_actions(list@, items),
            (None, Some(items)) => !all_actions(items),
            (None, None) => true,
            _ => false,
        },
{
    let mut out: Vec<PlannedAction> = Vec::new();
    let list = match v {
        None => {
            return Some(out);
        },
        Some(j) => j,
    };
    let items = match list.as_array() {
        Some(items) => items,
        None => {
            return None;
        },
    };
    let ghost all = views(items@);
    let mut i: usize = 0;
    while i < items.len()
        invariant
            all == views(items@),
            items_of(crate::json::ref_json(v)) == Some(all),
            i <= items@.len(),
            out@.len() == i,
            forall|k: int| 0 <= k < i ==> describes_action(#[trigger] all[k]),
            forall|k: int| 0 <= k < i ==> is_action(#[trigger] out@[k], all[k]),
        decreases items@.len() - i,
    {
        assert(all[i as int] == items@[i as int]@);
        match read_action(&items[i]) {
            Some(a) => {
                out.push(a);
            },
            None => {
                assert(i < all.len() && !describes_action(all[i as int]));
                return None;
            },
        }
        i = i + 1;
    }
    Some(out)
}

fn read_watches(v: Option<&Json>) -> (r: Option<Vec<WatchProposal>>)
    ensures
        match (r, items_of(crate::json::ref_json(v))) {
            (Some(list), Some(items)) => all_watches(items) && are_watches(list@, items),
            (None, Some(items)) => !all_watches(items),
            (None, None) => true,
            _ => false,
        },
{
    let mut out: Vec<WatchProposal> = Vec::new();
    let list = match v {
        None => {
            return Some(out);
        },
        Some(j) => j,
    };
    let items = match list.as_array() {
        Some(items) => items,
        None => {
            return None;
        },
    };
    let ghost all = views(items@);
    let mut i: usize = 0;
    while i < items.len()
        invariant
            all == views(items@),
            items_of(crate::json::ref_json(v)) == Some(all),
            i <= items@.len(),
            out@.len() == i,
            forall|k: int| 0 <= k < i ==> describes_watch(#[trigger] all[k]),
            forall|k: int| 0 <= k < i ==> is_watch(#[trigger] out@[k], all[k]),
        decreases items@.len() - i,
    {
        assert(all[i as int] == items@[i as int]@);
        match read_watch(&items[i]) {
            Some(w) => {
                out.push(w);
            },
            None => {
                assert(i < all.len() && !describes_watch(all[i as int]));
                return None;
            },
        }
        i = i + 1;
    }
    Some(out)
}

fn read_maybe_update(v: Option<&Json>) -> (r: Option<Option<PlanUpdate>>)
    ensures
        match r {
            Some(u) => maybe_update_ok(crate::json::ref_json(v)) && maybe_update_is(
                u,
                crate::json::ref_json(v),
            ),
            None => !maybe_update_ok(crate::json::ref_json(v)),
        },
{
    match v {
        None => Some(None),
        Some(Json::Null) => Some(None),
        Some(j) => match read_plan_update(j) {
            Some(u) => Some(Some(u)),
            None => None,
        },
    }
}

fn read_maybe_ops(v: Option<&Json>) -> (r: Option<Option<Vec<WorkingMemoryOp>>>)
    ensures
        match r {
            Some(o) => maybe_ops_ok(crate::json::ref_json(v)) && maybe_ops_are(
                o,
                crate::json::ref_json(v),
            ),
            None => !maybe_ops_ok(crate::json::ref_json(v)),
        },
{
    match v {
        None => Some(None),
        Some(Json::Null) => Some(None),
        Some(j) => match read_memory_ops(j) {
            Some(o) => Some(Some(o)),
            None => None,
        },
    }
}

fn read_maybe_mode(v: Option<&Json>) -> (r: Option<Option<VesselMode>>)
    ensures
        r == maybe_mode_of(crate::json::ref_json(v)),
{
    match v {
        None => Some(None),
        Some(Json::Null) => Some(None),
        Some(j) => match read_mode(j) {
            Some(m) => Some(Some(m)),
            None => None,
        },
    }
}

/// What a decision holds besides the record of the call that made it.
#[derive(Debug)]
pub struct DecisionProtocol {
    pub reasoning: String,
    pub reply: Option<String>,
    pub plan_update: Option<PlanUpdate>,
    pub working_memory_ops: Option<Vec<WorkingMemoryOp>>,
    pub vessel_mode_request: Option<VesselMode>,
    pub actions: Vec<PlannedAction>,
    pub memory_notes: Vec<String>,
    pub watch_proposals: Vec<WatchProposal>,
}

impl DecisionProtocol {
    /// The decision with the record of the call that made it.
    pub fn into_decision(self, llm_call_record: LlmCallRecord, artifact_id: ArtifactId) -> (d:
        DecisionResult)
        ensures
            d == (DecisionResult {
                reasoning: self.reasoning,
                reply: self.reply,
                actions: self.actions,
                snapshot_delta: SnapshotDelta {
                    plan_update: self.plan_update,
                    working_memory_ops: self.working_memory_ops,
                },
                memory_notes: self.memory_notes,
                llm_call_record,
                response_artifact_id: artifact_id,
                watch_proposals: self.watch_proposals,
                vessel_mode_request: self.vessel_mode_request,
            }),
    {
        DecisionResult {
            reasoning: self.reasoning,
            reply: self.reply,
            actions: self.actions,
            snapshot_delta: SnapshotDelta {
                plan_update: self.plan_update,
                working_memory_ops: self.working_memory_ops,
            },
            memory_notes: self.memory_notes,
            llm_call_record,
            response_artifact_id: artifact_id,
            watch_proposals: self.watch_proposals,
            vessel_mode_request: self.vessel_mode_request,
        }
    }
}

/// `p` is the decision that the value describes.
pub open spec fn is_protocol(p: DecisionProtocol, j: JsonView) -> bool {
    &&& Some(p.reasoning@) == text_of(field_at(j, "reasoning"@, 0))
    &&& Some(opt_text(p.reply)) == maybe_text_of(field_at(j, "reply"@, 2))
    &&& maybe_update_is(p.plan_update, field_at(j, "plan_update"@, 3))
    &&& maybe_ops_are(p.working_memory_ops, field_at(j, "working_memory_ops"@, 4))
    &&& Some(p.vessel_mode_request) == maybe_mode_of(field_at(j, "vessel_mode_request"@, 5))
    &&& match items_of(field_at(j, "actions"@, 6)) {
        Some(items) => are_actions(p.actions@, items),
        None => false,
    }
    &&& Some(texts(p.memory_notes@)) == texts_of(field_at(j, "memory_notes"@, 7))
    &&& match items_of(field_at(j, "watch_proposals"@, 8)) {
        Some(items) => are_watches(p.watch_proposals@, items),
        None => false,
    }
}

/// Reads a decision.
pub fn read_decision(j: &Json) -> (r: Option<DecisionProtocol>)
    ensures
        match r {
            Some(p) => describes_decision(j@) && is_protocol(p, j@),
            None => !describes_decision(j@),
        },
{
    if !has_record_form(j, 9) {
        return None;
    }
    let reasoning = read_text(record_field(j, "reasoning", 0));
    let requested = read_flag(record_field(j, "inner_loop_requested", 1));
    let reply = read_maybe_text(record_field(j, "reply", 2));
    let plan_update = read_maybe_update(record_field(j, "plan_update", 3));
    let ops = read_maybe_ops(record_field(j, "working_memory_ops", 4));
    let mode = read_maybe_mode(record_field(j, "vessel_mode_request", 5));
    let actions = read_actions(record_field(j, "actions", 6));
    let notes = match record_field(j, "memory_notes", 7) {
        None => {
            let none: Vec<String> = Vec::new();
            assert(texts(none@) =~= Seq::<Seq<char>>::empty());
            Some(none)
        },
        Some(list) => read_text_list(list),
    };
    let watches = read_watches(record_field(j, "watch_proposals", 8));
    match (reasoning, requested, reply, plan_update, ops) {
        (
            Some(reasoning),
            Some(_),
            Some(reply),
            Some(plan_update),
            Some(working_memory_ops),
        ) => match (mode, actions, notes, watches) {
            (
                Some(vessel_mode_request),
                Some(actions),
                Some(memory_notes),
                Some(watch_proposals),
            ) => Some(
                DecisionProtocol {
                    reasoning,
                    reply,
                    plan_update,
                    working_memory_ops,
                    vessel_mode_request,
                    actions,
                    memory_notes,
                    watch_proposals,
                },
            ),
            _ => None,
        },
        _ => None,
    }
}

fn read_decision_text(text: &str) -> (r: Option<DecisionProtocol>)
    ensures
        match r {
            Some(p) => decision_in(text@) matches Some(j) && is_protocol(p, j),
            None => decision_in(text@) is None,
        },
{
    match parse_json(text) {
        Ok(j) => read_decision(&j),
        Err(_) => None,
    }
}

/// Reads the decision in a text of the model. A text without a decision means that
/// nothing more is to be done.
pub fn parse_decide_lite_response(
    response_text: &str,
    llm_call_record: LlmCallRecord,
    artifact_id: ArtifactId,
) -> (d: DecisionResult)
    ensures
        decision_from(d, response_text@),
        d.llm_call_record == llm_call_record,
        d.response_artifact_id == artifact_id,
{
    match read_decision_text(response_text) {
        Some(p) => {
            return p.into_decision(llm_call_record, artifact_id);
        },
        None => {},
    }
    match extract_json_from_code_fence(response_text) {
        Some(content) => match read_decision_text(content) {
            Some(p) => {
                return p.into_decision(llm_call_record, artifact_id);
            },
            None => {},
        },
        None => {},
    }
    let p = DecisionProtocol {
        reasoning: response_text.to_owned(),
        reply: None,
        plan_update: None,
        working_memory_ops: None,
        vessel_mode_request: None,
        actions: Vec::new(),
        memory_notes: Vec::new(),
        watch_proposals: Vec::new(),
    };
    p.into_decision(llm_call_record, artifact_id)
}

// ---------------------------------------------------------------------------
// Laws
// ---------------------------------------------------------------------------

/// The text of a message that is nothing but one text.
pub open spec fn says(m: LlmMessage, role: LlmRole, text: Seq<char>) -> bool {
    &&& m.role == role
    &&& m.content@.len() == 1
    &&& m.content@[0] matches ContentBlock::Text { text: t } && t@ == text
}

/// When the model decides again it sees three messages: from the user the context of the
/// tick, from itself what it decided last, and from the user what the tools returned. The
/// last is the text of the results, whole, behind a correction if there is one; without a
/// correction it is the text of the results and nothing else. What was decided last tells
/// the reasoning and the tools.
pub proof fn results_reach_the_model(
    m: Seq<LlmMessage>,
    prompt: Seq<char>,
    executions: Seq<ActionExecution>,
    previous: DecisionResult,
    correction: Option<String>,
    window: u32,
)
    requires
        asks_again(m, prompt, executions, previous, correction, window),
    ensures
        m.len() == 3,
        says(m[0], LlmRole::User, prompt),
        exists|summary: Seq<char>|
            {
                &&& #[trigger] says(m[1], LlmRole::Assistant, summary)
                &&& has_text(summary, previous.reasoning@)
                &&& forall|i: int|
                    0 <= i < previous.actions@.len() ==> has_text(
                        summary,
                        (#[trigger] previous.actions@[i]).tool_name@,
                    )
                &&& previous.reply matches Some(t) ==> has_text(summary, t@)
            },
        match correction {
            None => says(m[2], LlmRole::User, windowed(executions, window)),
            Some(c) => says(m[2], LlmRole::User, c@ + "\n\n"@ + windowed(executions, window)),
        },
{
    let summary = decision_summary(previous.reasoning@, previous.actions@, opt_text(previous.reply));
    let told = lite_messages(
        prompt,
        summary,
        results_text(opt_text(correction), windowed(executions, window)),
    );
    assert(message_views(m).len() == m.len());
    assert forall|i: int| 0 <= i < 3 implies (#[trigger] m[i])@ == told[i] by {
        assert(message_views(m)[i] == told[i]);
    }
    message_is_text(m[0], LlmRole::User, prompt);
    message_is_text(m[1], LlmRole::Assistant, summary);
    message_is_text(
        m[2],
        LlmRole::User,
        results_text(opt_text(correction), windowed(executions, window)),
    );
    assert(says(m[1], LlmRole::Assistant, summary));
    summary_tells_decision(previous.reasoning@, previous.actions@, opt_text(previous.reply));
}

proof fn message_is_text(m: LlmMessage, role: LlmRole, text: Seq<char>)
    requires
        m@ == text_message(role, text),
    ensures
        says(m, role, text),
{
    assert(block_views(m.content@).len() == m.content@.len());
    assert(block_views(m.content@)[0] == m.content@[0]@);
}

proof fn lines_tell_actions(actions: Seq<PlannedAction>, i: int)
    requires
        0 <= i < actions.len(),
    ensures
        has_text(
            action_lines(actions),
            "- "@ + actions[i].tool_name@ + ": "@ + actions[i].rationale@ + "\n"@,
        ),
    decreases actions.len(),
{
    let front = action_lines(actions.drop_last());
    let last = "- "@ + actions.last().tool_name@ + ": "@ + actions.last().rationale@ + "\n"@;
    if i == actions.len() - 1 {
        part_is_found(front, last, Seq::empty());
        assert(front + last + Seq::<char>::empty() =~= action_lines(actions));
    } else {
        lines_tell_actions(actions.drop_last(), i);
        let wanted = "- "@ + actions[i].tool_name@ + ": "@ + actions[i].rationale@ + "\n"@;
        found_in_longer(Seq::empty(), front, last, wanted);
        assert(Seq::empty() + front + last =~= action_lines(actions));
    }
}

/// The summary of a decision tells its reasoning, each action with its rationale, and the
/// reply.
pub proof fn summary_tells_decision(
    reasoning: Seq<char>,
    actions: Seq<PlannedAction>,
    reply: Option<Seq<char>>,
)
    ensures
        has_text(decision_summary(reasoning, actions, reply), reasoning),
        forall|i: int|
            0 <= i < actions.len() ==> has_text(
                decision_summary(reasoning, actions, reply),
                (#[trigger] actions[i]).tool_name@,
            ) && has_text(decision_summary(reasoning, actions, reply), actions[i].rationale@),
        reply matches Some(t) ==> has_text(decision_summary(reasoning, actions, reply), t),
{
    let text = decision_summary(reasoning, actions, reply);
    summary_tells_reasons(reasoning, actions, reply);
    assert forall|i: int| 0 <= i < actions.len() implies has_text(
        text,
        (#[trigger] actions[i]).tool_name@,
    ) && has_text(text, actions[i].rationale@) by {
        summary_tells_action(reasoning, actions, reply, i);
    }
}

proof fn summary_tells_reasons(
    reasoning: Seq<char>,
    actions: Seq<PlannedAction>,
    reply: Option<Seq<char>>,
)
    ensures
        has_text(decision_summary(reasoning, actions, reply), reasoning),
        reply matches Some(t) ==> has_text(decision_summary(reasoning, actions, reply), t),
{
    let text = decision_summary(reasoning, actions, reply);
    let head = "Reasoning: "@;
    let rest = text.subrange((head.len() + reasoning.len()) as int, text.len() as int);
    assert(head + reasoning + rest =~= text);
    part_is_found(head, reasoning, rest);
    if let Some(t) = reply {
        let front = text.subrange(0, text.len() - t.len() - "\n"@.len());
        assert(front + t + "\n"@ =~= text);
        part_is_found(front, t, "\n"@);
    }
}

proof fn summary_tells_action(
    reasoning: Seq<char>,
    actions: Seq<PlannedAction>,
    reply: Option<Seq<char>>,
    i: int,
)
    requires
        0 <= i < actions.len(),
    ensures
        has_text(decision_summary(reasoning, actions, reply), actions[i].tool_name@),
        has_text(decision_summary(reasoning, actions, reply), actions[i].rationale@),
{
    let text = decision_summary(reasoning, actions, reply);
    let front = "Reasoning: "@ + reasoning + "\n"@ + "\nActions taken:\n"@;
    let rest = text.subrange(
        (front.len() + action_lines(actions).len()) as int,
        text.len() as int,
    );
    let tool = actions[i].tool_name@;
    let why = actions[i].rationale@;
    let line = "- "@ + tool + ": "@ + why + "\n"@;
    lines_tell_actions(actions, i);
    assert(front + action_lines(actions) + rest =~= text);
    found_in_longer(front, action_lines(actions), rest, line);
    line_tells_action(tool, why);
    found_by_way(text, line, tool);
    found_by_way(text, line, why);
}

proof fn line_tells_action(tool: Seq<char>, why: Seq<char>)
    ensures
        has_text("- "@ + tool + ": "@ + why + "\n"@, tool),
        has_text("- "@ + tool + ": "@ + why + "\n"@, why),
{
    let line = "- "@ + tool + ": "@ + why + "\n"@;
    part_is_found("- "@, tool, ": "@ + why + "\n"@);
    assert("- "@ + tool + (": "@ + why + "\n"@) =~= line);
    part_is_found("- "@ + tool + ": "@, why, "\n"@);
}

/// Every tool is told with its name and its description.
#[verifier::rlimit(40)]
pub proof fn every_tool_is_described(descriptors: Seq<Descriptor>, i: int)
    requires
        0 <= i < descriptors.len(),
    ensures
        has_text(tool_lines(descriptors), descriptors[i].name@),
        has_text(tool_lines(descriptors), descriptors[i].description@),
        has_text(tool_lines(descriptors), schema_text(descriptors[i].input_schema)),
    decreases descriptors.len(),
{
    let d = descriptors.last();
    let all = tool_lines(descriptors);
    let front = tool_lines(descriptors.drop_last());
    let schema = schema_text(d.input_schema);
    let last = "- **"@ + d.name@ + "**: "@ + d.description@ + "\n  Input: "@ + schema + "\n"@;
    if i == descriptors.len() - 1 {
        end_is_found(front, last);
        tool_is_described(d.name@, d.description@, schema);
        found_by_way(all, last, d.name@);
        found_by_way(all, last, d.description@);
        found_by_way(all, last, schema);
    } else {
        every_tool_is_described(descriptors.drop_last(), i);
        assert(Seq::empty() + front + last =~= all);
        found_in_longer(Seq::empty(), front, last, descriptors[i].name@);
        found_in_longer(Seq::empty(), front, last, descriptors[i].description@);
        found_in_longer(Seq::empty(), front, last, schema_text(descriptors[i].input_schema));
    }
}

proof fn tool_is_described(name: Seq<char>, description: Seq<char>, schema: Seq<char>)
    ensures
        ({
            let line = "- **"@ + name + "**: "@ + description + "\n  Input: "@ + schema + "\n"@;
            &&& has_text(line, name)
            &&& has_text(line, description)
            &&& has_text(line, schema)
        }),
{
    let line = "- **"@ + name + "**: "@ + description + "\n  Input: "@ + schema + "\n"@;
    let a = "**: "@ + description + "\n  Input: "@ + schema + "\n"@;
    assert("- **"@ + name + a =~= line);
    part_is_found("- **"@, name, a);
    let b = "\n  Input: "@ + schema + "\n"@;
    assert("- **"@ + name + "**: "@ + description + b =~= line);
    part_is_found("- **"@ + name + "**: "@, description, b);
    part_is_found("- **"@ + name + "**: "@ + description + "\n  Input: "@, schema, "\n"@);
}

} // verus!

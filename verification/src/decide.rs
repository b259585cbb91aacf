//! The Decide step: a conversation with the language model that ends in a decision.
//!
//! In each turn the model may call tools. The kernel's own tools are answered at
//! once; calls of other tools become planned actions and end the conversation. The
//! model and the service that answers introspection are outside.

use vstd::prelude::*;
use vstd::string::*;

use crate::json::{member, member_views, outcome, write_json, written, Json, JsonView};
use crate::llm::{
    block_views, collect_text, message_views, text_in, text_message, BlockView, LlmBackend,
    LlmMessage, LlmResponse, LlmRole, MessageView, StopReason,
};
use crate::memory::WorkingMemoryOp;
use crate::proposals::{are_memory_ops, is_plan_update, is_watch, mode_of};
use crate::text::{is_blank, join, joined, texts, trim, trimmed};
use crate::tool_defs::{
    is_cognitive, is_cognitive_tool, is_introspection_tool, is_introspective,
    tool_groups_are_apart,
};
use crate::tools::{
    accumulate_cognitive_outcome, accumulated, asks_for, cognitive_error, cognitive_names_differ,
    effect_of,
    introspection_tool_to_query, is_question, process_cognitive_tool, question_error,
    CognitiveAccumulator,
    CognitiveToolResult, IntrospectionQuery,
};
use crate::types::{
    ArtifactId, ContentBlock, DecisionResult, ExoError, LlmCallRecord, PlannedAction,
    PlannedActionView, VesselMode,
};

verus! {

// ---------------------------------------------------------------------------
// Texts
// ---------------------------------------------------------------------------

/// Why an action is taken: the reasoning of the turn, or that the model selected it.
pub open spec fn rationale_of(reasoning: Seq<char>, tool: Seq<char>) -> Seq<char> {
    if trimmed(reasoning).len() == 0 {
        "model selected "@ + tool
    } else {
        trimmed(reasoning)
    }
}

/// Says why an action is taken.
pub fn action_rationale(reasoning: &str, tool_name: &str) -> (r: String)
    ensures
        r@ == rationale_of(reasoning@, tool_name@),
{
    let t = trim(reasoning);
    if t.as_str().is_empty() {
        let mut r = "model selected ".to_owned();
        r.append(tool_name);
        r
    } else {
        t
    }
}

/// What the model is told about the mode of the vessel.
pub open spec fn plan_section(mode: VesselMode) -> Seq<char> {
    match mode {
        VesselMode::Planning => "You are in Planning mode. Restrict yourself to read-only external tools and use cognitive tools to draft or refine a plan."@,
        VesselMode::Executing => "You are in Executing mode. Follow the approved plan and use cognitive tools to update task status as work progresses."@,
        VesselMode::Normal => "Use cognitive tools for plan, memory, mode, watch, and reply updates. External tool calls are threaded into Act automatically."@,
    }
}

/// The section on the mode that the system prompt needs. In normal mode it is needed
/// only if the inner loop is enabled.
pub fn needed_plan_section(inner_loop_enabled: bool, mode: VesselMode) -> (r: Option<String>)
    ensures
        match r {
            Some(t) => (inner_loop_enabled || mode != VesselMode::Normal) && t@ == plan_section(
                mode,
            ),
            None => !inner_loop_enabled && mode == VesselMode::Normal,
        },
{
    if !inner_loop_enabled && mode == VesselMode::Normal {
        return None;
    }
    let text = match mode {
        VesselMode::Planning => "You are in Planning mode. Restrict yourself to read-only external tools and use cognitive tools to draft or refine a plan.",
        VesselMode::Executing => "You are in Executing mode. Follow the approved plan and use cognitive tools to update task status as work progresses.",
        VesselMode::Normal => "Use cognitive tools for plan, memory, mode, watch, and reply updates. External tool calls are threaded into Act automatically.",
    };
    Some(text.to_owned())
}

/// Builds the system prompt: the base, and behind it the section on coding if that
/// could be made.
pub fn build_system_prompt(base: String, coding_section: &Option<String>) -> (r: String)
    ensures
        r@ == (match *coding_section {
            Some(s) => base@ + "\n\n"@ + s@,
            None => base@,
        }),
{
    let mut r = base;
    match coding_section {
        Some(s) => {
            r.append("\n\n");
            r.append(s.as_str());
        },
        None => {},
    }
    r
}

// ---------------------------------------------------------------------------
// Escalation
// ---------------------------------------------------------------------------

/// How severe a threat is.
#[derive(Debug, Clone, Copy, PartialEq, Eq, Structural)]
pub enum ThreatSeverity {
    /// Any severity below high.
    Lower,
    High,
    Critical,
}

/// What speaks for asking a stronger model.
#[derive(Debug, Clone, Copy, PartialEq, Eq, Structural)]
pub struct EscalationSigns {
    pub consecutive_failures: u32,
    pub failure_threshold: u32,
    /// The self-critique exceeds the threshold of uncertainty.
    pub uncertain: bool,
    /// The latest assessment of the threats, if there is one.
    pub threat: Option<ThreatSeverity>,
}

/// The state of the budget for the stronger model.
#[derive(Debug, Clone, Copy, PartialEq, Eq, Structural)]
pub struct FrontierBudget {
    pub remaining_tokens: u64,
    pub remaining_cost: u64,
    pub calls_this_window: u32,
    pub max_calls_per_window: u32,
}

/// The threat is high or critical.
pub open spec fn is_high_threat(threat: Option<ThreatSeverity>) -> bool {
    threat == Some(ThreatSeverity::High) || threat == Some(ThreatSeverity::Critical)
}

/// Something speaks for asking a stronger model.
pub open spec fn calls_for_escalation(s: EscalationSigns) -> bool {
    s.consecutive_failures >= s.failure_threshold || s.uncertain || is_high_threat(s.threat)
}

/// Tells whether a threat is high or critical.
pub fn extract_high_threat(threat: Option<ThreatSeverity>) -> (r: bool)
    ensures
        r == is_high_threat(threat),
{
    match threat {
        Some(s) => s == ThreatSeverity::High || s == ThreatSeverity::Critical,
        None => false,
    }
}

/// Tells whether something speaks for asking a stronger model.
pub fn check_escalation_triggers(signs: &EscalationSigns) -> (r: bool)
    ensures
        r == calls_for_escalation(*signs),
{
    signs.consecutive_failures >= signs.failure_threshold || signs.uncertain
        || extract_high_threat(signs.threat)
}

/// The backend for a decision. `budget` is absent if there is no budget or it cannot
/// be read.
pub open spec fn backend_for(
    default: LlmBackend,
    has_frontier: bool,
    signs: EscalationSigns,
    budget: Option<FrontierBudget>,
) -> LlmBackend {
    match budget {
        None => default,
        Some(b) => if !has_frontier || !calls_for_escalation(signs) {
            default
        } else if b.remaining_tokens == 0 || b.remaining_cost == 0 || b.calls_this_window
            >= b.max_calls_per_window {
            LlmBackend::Local
        } else {
            LlmBackend::Frontier
        },
    }
}

/// Chooses the backend for a decision.
///
/// The default is used unless there is a budget, a frontier model, and something that
/// speaks for it. Then the frontier model is used while its budget lasts.
pub fn resolve_backend(
    default_backend: LlmBackend,
    has_frontier: bool,
    signs: &EscalationSigns,
    budget: Option<FrontierBudget>,
) -> (r: LlmBackend)
    ensures
        r == backend_for(default_backend, has_frontier, *signs, budget),
{
    let b = match budget {
        Some(b) => b,
        None => {
            return default_backend;
        },
    };
    if !has_frontier || !check_escalation_triggers(signs) {
        return default_backend;
    }
    if b.remaining_tokens == 0 || b.remaining_cost == 0 {
        return LlmBackend::Local;
    }
    if b.calls_this_window >= b.max_calls_per_window {
        return LlmBackend::Local;
    }
    LlmBackend::Frontier
}

/// The frontier model is never chosen by escalation once its budget is used up.
pub proof fn exhausted_budget_stays_local(
    default: LlmBackend,
    has_frontier: bool,
    signs: EscalationSigns,
    b: FrontierBudget,
)
    requires
        b.remaining_tokens == 0 || b.remaining_cost == 0 || b.calls_this_window
            >= b.max_calls_per_window,
    ensures
        backend_for(default, has_frontier, signs, Some(b)) == LlmBackend::Frontier ==> default
            == LlmBackend::Frontier,
{
}

// ---------------------------------------------------------------------------
// A turn
// ---------------------------------------------------------------------------

/// The message of an error.
pub open spec fn error_text(e: ExoError) -> Seq<char> {
    match e {
        ExoError::Config(m) => m@,
        ExoError::Engine(m) => m@,
        ExoError::LlmInvocation(m) => m@,
        ExoError::Serde(m) => m@,
        ExoError::Storage(m) => m@,
    }
}

impl ExoError {
    /// The message of the error.
    pub fn message(&self) -> (r: &String)
        ensures
            r@ == error_text(*self),
    {
        match self {
            ExoError::Config(m) => m,
            ExoError::Engine(m) => m,
            ExoError::LlmInvocation(m) => m,
            ExoError::Serde(m) => m,
            ExoError::Storage(m) => m,
        }
    }
}

/// What the service answered, as JSON.
pub open spec fn answer_json(answer: Result<JsonView, Seq<char>>) -> JsonView {
    match answer {
        Ok(v) => v,
        Err(e) => JsonView::Object(seq![("error"@, JsonView::Str(e))]),
    }
}

/// The answer to an introspection call.
pub open spec fn introspection_block(
    id: Seq<char>,
    name: Seq<char>,
    input: JsonView,
    answer: Result<JsonView, Seq<char>>,
) -> BlockView {
    if is_question(name, input) {
        BlockView::ToolResult {
            tool_use_id: id,
            content: written(answer_json(answer)),
            is_error: answer_json(answer).field("error"@) is Some,
        }
    } else {
        BlockView::ToolResult { tool_use_id: id, content: question_error(), is_error: true }
    }
}

/// The answer to the call of a cognitive tool.
pub open spec fn cognitive_block(id: Seq<char>, name: Seq<char>, input: JsonView) -> BlockView {
    match cognitive_error(name, input) {
        None => BlockView::ToolResult { tool_use_id: id, content: "ok"@, is_error: false },
        Some(e) => BlockView::ToolResult { tool_use_id: id, content: e, is_error: true },
    }
}

/// The action that the call of any other tool plans.
pub open spec fn planned(
    id: Seq<char>,
    name: Seq<char>,
    input: JsonView,
    reasoning: Seq<char>,
) -> PlannedActionView {
    PlannedActionView {
        call_id: id,
        tool_name: name,
        params: input,
        rationale: rationale_of(reasoning, name),
        plan_task_id: None,
        origin_exec_thread_id: None,
        proposal_id: None,
    }
}

/// A turn in progress.
#[derive(Debug)]
pub struct Turn {
    pub accumulator: CognitiveAccumulator,
    /// The answers to the calls of the kernel's own tools.
    pub results: Vec<ContentBlock>,
    /// How many answers of the introspection service have been used.
    pub used: usize,
}

/// `after` is the turn `before` with one more answer.
pub open spec fn answered(after: Turn, before: Turn, answer: BlockView) -> bool {
    block_views(after.results@) == block_views(before.results@).push(answer)
}

/// `after` is the turn `before` with one more part of the response.
pub open spec fn block_taken(
    after: Turn,
    before: Turn,
    block: BlockView,
    reasoning: Seq<char>,
    answers: Seq<Result<Json, String>>,
) -> bool {
    match block {
        BlockView::ToolUse { id, name, input } => if is_introspective(name) {
            &&& after.accumulator == before.accumulator
            &&& after.used == before.used + (if is_question(name, input) {
                1int
            } else {
                0int
            })
            &&& answered(
                after,
                before,
                introspection_block(id, name, input, outcome(answers[before.used as int])),
            )
        } else if is_cognitive(name) {
            &&& after.used == before.used
            &&& answered(after, before, cognitive_block(id, name, input))
            &&& match cognitive_error(name, input) {
                None => exists|effect: CognitiveToolResult|
                    #[trigger] effect_of(effect, name, input) && accumulated(
                        after.accumulator,
                        before.accumulator,
                        effect,
                    ),
                Some(_) => after.accumulator == before.accumulator,
            }
        } else {
            &&& after.used == before.used
            &&& after.results == before.results
            &&& after.accumulator == (CognitiveAccumulator {
                actions: after.accumulator.actions,
                ..before.accumulator
            })
            &&& after.accumulator.actions@.len() == before.accumulator.actions@.len() + 1
            &&& after.accumulator.actions@.drop_last() == before.accumulator.actions@
            &&& after.accumulator.actions@.last()@ == planned(id, name, input, reasoning)
        },
        _ => after == before,
    }
}

/// How many questions the calls among the parts ask.
pub open spec fn questions_in(blocks: Seq<BlockView>) -> nat
    decreases blocks.len(),
{
    if blocks.len() == 0 {
        0
    } else {
        questions_in(blocks.drop_last()) + match blocks.last() {
            BlockView::ToolUse { id, name, input } => if is_question(name, input) {
                1nat
            } else {
                0nat
            },
            _ => 0nat,
        }
    }
}

/// The turns that lead from `first` to `last` take the parts one after the other.
pub open spec fn is_course(
    course: Seq<Turn>,
    first: Turn,
    last: Turn,
    blocks: Seq<BlockView>,
    reasoning: Seq<char>,
    answers: Seq<Result<Json, String>>,
) -> bool {
    &&& course.len() == blocks.len() + 1
    &&& course[0] == first
    &&& course.last() == last
    &&& forall|i: int|
        0 <= i < blocks.len() ==> block_taken(
            course[i + 1],
            course[i],
            #[trigger] blocks[i],
            reasoning,
            answers,
        )
}

/// `queries` are the questions that the calls among the parts ask, in order.
pub open spec fn asks_all(queries: Seq<IntrospectionQuery>, blocks: Seq<BlockView>) -> bool
    decreases blocks.len(),
{
    if blocks.len() == 0 {
        queries.len() == 0
    } else {
        match blocks.last() {
            BlockView::ToolUse { id, name, input } => if is_question(name, input) {
                queries.len() > 0 && asks_for(queries.last(), name, input) && asks_all(
                    queries.drop_last(),
                    blocks.drop_last(),
                )
            } else {
                asks_all(queries, blocks.drop_last())
            },
            _ => asks_all(queries, blocks.drop_last()),
        }
    }
}

/// The questions that the calls in a response ask, in order.
pub fn introspection_queries(blocks: &Vec<ContentBlock>) -> (r: Vec<IntrospectionQuery>)
    ensures
        r@.len() == questions_in(block_views(blocks@)),
        asks_all(r@, block_views(blocks@)),
{
    let mut out: Vec<IntrospectionQuery> = Vec::new();
    let ghost all = block_views(blocks@);
    let mut i: usize = 0;
    assert(all.subrange(0, 0) =~= Seq::<BlockView>::empty());
    while i < blocks.len()
        invariant
            all == block_views(blocks@),
            i <= blocks@.len(),
            out@.len() == questions_in(all.subrange(0, i as int)),
            asks_all(out@, all.subrange(0, i as int)),
        decreases blocks@.len() - i,
    {
        assert(all.subrange(0, i + 1).drop_last() =~= all.subrange(0, i as int));
        assert(all.subrange(0, i + 1).last() == blocks@[i as int]@);
        let ghost before = out@;
        match &blocks[i] {
            ContentBlock::ToolUse { id: _, name, input } => {
                if is_introspection_tool(name.as_str()) {
                    match introspection_tool_to_query(name.as_str(), input) {
                        Ok(q) => {
                            out.push(q);
                            assert(out@.drop_last() =~= before);
                        },
                        Err(_) => {},
                    }
                }
            },
            _ => {},
        }
        i = i + 1;
    }
    assert(all.subrange(0, all.len() as int) =~= all);
    out
}

fn make_answer(id: &String, content: String, is_error: bool) -> (b: ContentBlock)
    ensures
        b@ == (BlockView::ToolResult { tool_use_id: id@, content: content@, is_error }),
{
    ContentBlock::ToolResult { tool_use_id: id.clone(), content, is_error }
}

/// Answers an introspection call with what the service said.
pub fn resolve_introspection_tool(
    name: &str,
    input: &Json,
    call_id: &String,
    answer: &Result<Json, String>,
) -> (b: ContentBlock)
    requires
        is_introspective(name@),
    ensures
        b@ == introspection_block(call_id@, name@, input@, outcome(*answer)),
{
    match introspection_tool_to_query(name, input) {
        Ok(_) => {
            let result = match answer {
                Ok(v) => v.clone(),
                Err(e) => {
                    let members = vec![member("error", Json::str(e.as_str()))];
                    assert(member_views(members@) =~= seq![("error"@, JsonView::Str(e@))]);
                    Json::object(members)
                },
            };
            assert(result@ == answer_json(outcome(*answer)));
            let is_error = result.get("error").is_some();
            make_answer(call_id, write_json(&result), is_error)
        },
        Err(e) => make_answer(call_id, e.message().clone(), true),
    }
}

/// Carries out a cognitive tool and answers its call.
pub fn resolve_cognitive_tool(
    name: &str,
    input: &Json,
    call_id: &String,
    accumulator: &mut CognitiveAccumulator,
) -> (b: ContentBlock)
    ensures
        b@ == cognitive_block(call_id@, name@, input@),
        match cognitive_error(name@, input@) {
            None => exists|effect: CognitiveToolResult|
                #[trigger] effect_of(effect, name@, input@) && accumulated(
                    *final(accumulator),
                    *old(accumulator),
                    effect,
                ),
            Some(_) => *final(accumulator) == *old(accumulator),
        },
{
    match process_cognitive_tool(name, input) {
        Ok(effect) => {
            accumulate_cognitive_outcome(accumulator, effect);
            make_answer(call_id, "ok".to_owned(), false)
        },
        Err(e) => make_answer(call_id, e.message().clone(), true),
    }
}

/// Takes the parts of a response one after the other.
fn take_blocks(
    turn: Turn,
    blocks: &Vec<ContentBlock>,
    reasoning: &str,
    answers: &Vec<Result<Json, String>>,
) -> (r: Turn)
    requires
        turn.used == 0,
        answers@.len() == questions_in(block_views(blocks@)),
    ensures
        exists|course: Seq<Turn>|
            #[trigger] is_course(
                course,
                turn,
                r,
                block_views(blocks@),
                reasoning@,
                answers@,
            ),
{
    let ghost first = turn;
    let ghost all = block_views(blocks@);
    let mut turn = turn;
    let ghost mut course: Seq<Turn> = seq![turn];
    let mut i: usize = 0;
    while i < blocks.len()
        invariant
            all == block_views(blocks@),
            answers@.len() == questions_in(all),
            i <= blocks@.len(),
            turn.used == questions_in(all.subrange(0, i as int)),
            course.len() == i + 1,
            course[0] == first,
            course.last() == turn,
            forall|k: int|
                0 <= k < i ==> block_taken(
                    course[k + 1],
                    course[k],
                    #[trigger] all[k],
                    reasoning@,
                    answers@,
                ),
        decreases blocks@.len() - i,
    {
        let ghost before = turn;
        let ghost old_course = course;
        proof {
            assert(all.subrange(0, i + 1).drop_last() =~= all.subrange(0, i as int));
            assert(all.subrange(0, i + 1).last() == blocks@[i as int]@);
            questions_grow(all, i + 1);
        }
        match &blocks[i] {
            ContentBlock::ToolUse { id, name, input } => {
                proof {
                    tool_groups_are_apart(name@);
                }
                if is_introspection_tool(name.as_str()) {
                    match introspection_tool_to_query(name.as_str(), input) {
                        Ok(_) => {
                            let b = resolve_introspection_tool(
                                name.as_str(),
                                input,
                                id,
                                &answers[turn.used],
                            );
                            turn.results.push(b);
                            assert(turn.used < answers.len());
                            turn.used = turn.used + 1;
                            assert(block_views(turn.results@) =~= block_views(
                                before.results@,
                            ).push(b@));
                        },
                        Err(e) => {
                            let b = make_answer(id, e.message().clone(), true);
                            turn.results.push(b);
                            assert(block_views(turn.results@) =~= block_views(
                                before.results@,
                            ).push(b@));
                        },
                    }
                } else if is_cognitive_tool(name.as_str()) {
                    let b = resolve_cognitive_tool(
                        name.as_str(),
                        input,
                        id,
                        &mut turn.accumulator,
                    );
                    turn.results.push(b);
                    assert(block_views(turn.results@) =~= block_views(before.results@).push(b@));
                } else {
                    let action = PlannedAction {
                        call_id: id.clone(),
                        tool_name: name.clone(),
                        params: input.clone(),
                        rationale: action_rationale(reasoning, name.as_str()),
                        plan_task_id: None,
                        origin_exec_thread_id: None,
                        proposal_id: None,
                    };
                    turn.accumulator.actions.push(action);
                    assert(turn.accumulator.actions@.drop_last()
                        =~= before.accumulator.actions@);
                }
            },
            _ => {},
        }
        proof {
            assert(all[i as int] == blocks@[i as int]@);
            assert(block_taken(turn, before, all[i as int], reasoning@, answers@));
            course = course.push(turn);
            assert forall|k: int| 0 <= k < i + 1 implies block_taken(
                course[k + 1],
                course[k],
                #[trigger] all[k],
                reasoning@,
                answers@,
            ) by {
                if k < i {
                    assert(course[k + 1] == old_course[k + 1]);
                    assert(course[k] == old_course[k]);
                }
            }
        }
        i = i + 1;
    }
    proof {
        assert(is_course(course, first, turn, all, reasoning@, answers@));
    }
    turn
}

proof fn questions_grow(blocks: Seq<BlockView>, n: int)
    requires
        0 <= n <= blocks.len(),
    ensures
        questions_in(blocks.subrange(0, n)) <= questions_in(blocks),
    decreases blocks.len() - n,
{
    if n == blocks.len() {
        assert(blocks.subrange(0, n) =~= blocks);
    } else {
        questions_grow(blocks, n + 1);
        assert(blocks.subrange(0, n + 1).drop_last() =~= blocks.subrange(0, n));
    }
}

// ---------------------------------------------------------------------------
// The conversation
// ---------------------------------------------------------------------------

/// A conversation with the model.
#[derive(Debug)]
pub struct DecideRun {
    pub turn: u32,
    pub max_turns: u32,
    pub messages: Vec<LlmMessage>,
    pub records: Vec<LlmCallRecord>,
    pub accumulator: CognitiveAccumulator,
    pub last_response_artifact_id: Option<ArtifactId>,
}

/// What comes next in a conversation.
#[derive(Debug, PartialEq, Eq)]
pub enum DecideNext {
    /// Ask the model.
    Ask,
    /// The conversation is over.
    Stop,
    Fail(ExoError),
}

/// Begins a conversation with the context of the tick.
pub fn start_decide(context_prompt: &str, max_turns: u32, cancelled: bool) -> (r: Result<
    DecideRun,
    ExoError,
>)
    ensures
        match r {
            Ok(run) => {
                &&& !cancelled
                &&& run.turn == 0
                &&& run.max_turns == max_turns
                &&& message_views(run.messages@) == seq![
                    text_message(LlmRole::User, context_prompt@),
                ]
                &&& run.records@.len() == 0
                &&& run.accumulator.actions@.len() == 0
                &&& run.accumulator.reasoning_parts@.len() == 0
                &&& run.accumulator.memory_notes@.len() == 0
                &&& run.accumulator.watch_proposals@.len() == 0
                &&& run.accumulator.reply is None
                &&& run.accumulator.vessel_mode_request is None
                &&& run.accumulator.snapshot_delta.plan_update is None
                &&& run.accumulator.snapshot_delta.working_memory_ops is None
                &&& run.last_response_artifact_id is None
            },
            Err(ExoError::LlmInvocation(m)) => cancelled && m@ == "cancelled before Decide step"@,
            Err(_) => false,
        },
{
    if cancelled {
        return Err(ExoError::LlmInvocation("cancelled before Decide step".to_owned()));
    }
    let messages = vec![LlmMessage::text(LlmRole::User, context_prompt)];
    assert(message_views(messages@) =~= seq![text_message(LlmRole::User, context_prompt@)]);
    Ok(
        DecideRun {
            turn: 0,
            max_turns,
            messages,
            records: Vec::new(),
            accumulator: CognitiveAccumulator::default(),
            last_response_artifact_id: None,
        },
    )
}

/// Whether the conversation goes on after a turn.
pub open spec fn goes_on(stop: StopReason, has_actions: bool, has_results: bool) -> bool {
    !has_actions && stop == StopReason::ToolUse && has_results
}

/// The messages that a turn adds: what the model said, and the answers to its calls
/// if there are any.
pub open spec fn turn_messages(said: Seq<BlockView>, results: Seq<BlockView>) -> Seq<MessageView> {
    let spoken = MessageView { role: LlmRole::Assistant, content: said };
    if results.len() > 0 {
        seq![spoken, MessageView { role: LlmRole::User, content: results }]
    } else {
        seq![spoken]
    }
}

/// The turn with which the parts of a response begin: the reasoning of the turn has
/// been noted unless it is blank.
pub open spec fn is_opened(t: Turn, before: CognitiveAccumulator, reasoning: Seq<char>) -> bool {
    &&& t.used == 0
    &&& t.results@.len() == 0
    &&& t.accumulator == (CognitiveAccumulator {
        reasoning_parts: t.accumulator.reasoning_parts,
        ..before
    })
    &&& texts(t.accumulator.reasoning_parts@) == if trimmed(reasoning).len() > 0 {
        texts(before.reasoning_parts@).push(reasoning)
    } else {
        texts(before.reasoning_parts@)
    }
}

/// `after` is the conversation `before` with one more turn, in which the model gave
/// `response`; `more` tells whether it goes on.
pub open spec fn turn_taken(
    after: DecideRun,
    more: bool,
    before: DecideRun,
    response: LlmResponse,
    record: LlmCallRecord,
    artifact_id: ArtifactId,
    answers: Seq<Result<Json, String>>,
) -> bool {
    let said = block_views(response.content_blocks@);
    let reasoning = text_in(said);
    &&& after.turn == before.turn + 1
    &&& after.max_turns == before.max_turns
    &&& after.records@ == before.records@.push(record)
    &&& after.last_response_artifact_id == Some(artifact_id)
    &&& exists|opened: Turn, course: Seq<Turn>, closed: Turn|
        {
            &&& is_opened(opened, before.accumulator, reasoning)
            &&& #[trigger] is_course(course, opened, closed, said, reasoning, answers)
            &&& after.accumulator == closed.accumulator
            &&& message_views(after.messages@) == message_views(before.messages@)
                + turn_messages(said, block_views(closed.results@))
            &&& more == goes_on(
                response.stop_reason,
                closed.accumulator.actions@.len() > before.accumulator.actions@.len(),
                closed.results@.len() > 0,
            )
        }
}

impl DecideRun {
    /// Decides what comes next. `local_tokens_left` is what the budget allows, if there
    /// is a budget that can be read.
    pub fn next(&self, cancelled: bool, local_tokens_left: Option<u64>) -> (r: DecideNext)
        ensures
            if self.turn >= self.max_turns {
                r is Stop
            } else if cancelled {
                r matches DecideNext::Fail(ExoError::LlmInvocation(m)) && m@
                    == "cancelled during Decide loop"@
            } else if self.turn > 0 && local_tokens_left == Some(0u64) {
                r is Stop
            } else {
                r is Ask
            },
    {
        if self.turn >= self.max_turns {
            return DecideNext::Stop;
        }
        if cancelled {
            return DecideNext::Fail(
                ExoError::LlmInvocation("cancelled during Decide loop".to_owned()),
            );
        }
        if self.turn > 0 {
            match local_tokens_left {
                Some(n) => {
                    if n == 0 {
                        return DecideNext::Stop;
                    }
                },
                None => {},
            }
        }
        DecideNext::Ask
    }

    /// Takes the response of the model. `answers` are those of the introspection
    /// service to the questions in the response. Tells whether the conversation goes
    /// on.
    pub fn take_turn(
        self,
        response: LlmResponse,
        record: LlmCallRecord,
        artifact_id: ArtifactId,
        answers: &Vec<Result<Json, String>>,
    ) -> (r: (DecideRun, bool))
        requires
            self.turn < u32::MAX,
            answers@.len() == questions_in(block_views(response.content_blocks@)),
        ensures
            turn_taken(r.0, r.1, self, response, record, artifact_id, answers@),
    {
        let ghost said = block_views(response.content_blocks@);
        let reasoning = collect_text(&response.content_blocks);
        let DecideRun {
            turn: turn_number,
            max_turns,
            messages,
            records,
            accumulator,
            last_response_artifact_id: _,
        } = self;
        let mut accumulator = accumulator;
        let before_count: usize = accumulator.actions.len();
        let ghost parts = accumulator.reasoning_parts@;
        if !is_blank(reasoning.as_str()) {
            accumulator.reasoning_parts.push(reasoning.clone());
            assert(texts(accumulator.reasoning_parts@) =~= texts(parts).push(reasoning@));
        }
        let opened = Turn { accumulator, results: Vec::new(), used: 0 };
        let ghost opened_turn = opened;
        assert(is_opened(opened_turn, self.accumulator, reasoning@));
        let closed = take_blocks(opened, &response.content_blocks, reasoning.as_str(), answers);
        let ghost closed_turn = closed;
        let ghost course = choose|course: Seq<Turn>|
            #[trigger] is_course(course, opened_turn, closed_turn, said, reasoning@, answers@);
        let has_actions = closed.accumulator.actions.len() > before_count;
        let has_results = closed.results.len() > 0;
        let more = !has_actions && response.stop_reason == StopReason::ToolUse && has_results;
        let mut messages = messages;
        let ghost messages_before = messages@;
        messages.push(LlmMessage { role: LlmRole::Assistant, content: response.content_blocks });
        let ghost spoken = MessageView { role: LlmRole::Assistant, content: said };
        assert(message_views(messages@) =~= message_views(messages_before) + seq![spoken]);
        assert(block_views(closed_turn.results@).len() == closed_turn.results@.len());
        if has_results {
            messages.push(LlmMessage { role: LlmRole::User, content: closed.results });
            assert(message_views(messages@) =~= message_views(messages_before) + turn_messages(
                said,
                block_views(closed_turn.results@),
            ));
        }
        let mut records = records;
        records.push(record);
        let next = DecideRun {
            turn: turn_number + 1,
            max_turns,
            messages,
            records,
            accumulator: closed.accumulator,
            last_response_artifact_id: Some(artifact_id),
        };
        assert(is_course(course, opened_turn, closed_turn, said, reasoning@, answers@));
        (next, more)
    }

    /// Ends the conversation. `merged` is the record of all its calls.
    pub fn finish(self, merged: LlmCallRecord) -> (r: Result<DecisionResult, ExoError>)
        ensures
            match (r, self.last_response_artifact_id) {
                (Ok(d), Some(artifact_id)) => is_result(d, self.accumulator, merged, artifact_id),
                (Err(ExoError::LlmInvocation(m)), None) => m@
                    == "Decide produced no LLM response artifact"@,
                _ => false,
            },
    {
        match self.last_response_artifact_id {
            Some(artifact_id) => Ok(build_decision_result(self.accumulator, merged, artifact_id)),
            None => Err(
                ExoError::LlmInvocation("Decide produced no LLM response artifact".to_owned()),
            ),
        }
    }
}

/// `d` is the decision that the accumulated effects amount to.
pub open spec fn is_result(
    d: DecisionResult,
    a: CognitiveAccumulator,
    merged: LlmCallRecord,
    artifact_id: ArtifactId,
) -> bool {
    &&& d.reasoning@ == joined(texts(a.reasoning_parts@), "\n"@)
    &&& d.reply == a.reply
    &&& d.actions == a.actions
    &&& d.snapshot_delta == a.snapshot_delta
    &&& d.memory_notes == a.memory_notes
    &&& d.llm_call_record == (LlmCallRecord { response_artifact_ref: Some(artifact_id), ..merged })
    &&& d.response_artifact_id == artifact_id
    &&& d.watch_proposals == a.watch_proposals
    &&& d.vessel_mode_request == a.vessel_mode_request
}

/// Turns the accumulated effects into a decision.
pub fn build_decision_result(
    accumulator: CognitiveAccumulator,
    merged: LlmCallRecord,
    response_artifact_id: ArtifactId,
) -> (d: DecisionResult)
    ensures
        is_result(d, accumulator, merged, response_artifact_id),
{
    let reasoning = join(&accumulator.reasoning_parts, "\n");
    let mut record = merged;
    record.response_artifact_ref = Some(response_artifact_id.clone());
    DecisionResult {
        reasoning,
        reply: accumulator.reply,
        actions: accumulator.actions,
        snapshot_delta: accumulator.snapshot_delta,
        memory_notes: accumulator.memory_notes,
        llm_call_record: record,
        response_artifact_id,
        watch_proposals: accumulator.watch_proposals,
        vessel_mode_request: accumulator.vessel_mode_request,
    }
}

// ---------------------------------------------------------------------------
// Laws
// ---------------------------------------------------------------------------

/// The kernel's own tools never become actions: they do not leave the kernel.
pub proof fn own_tools_never_become_actions(
    after: Turn,
    before: Turn,
    id: Seq<char>,
    name: Seq<char>,
    input: JsonView,
    reasoning: Seq<char>,
    answers: Seq<Result<Json, String>>,
)
    requires
        is_cognitive(name) || is_introspective(name),
        block_taken(after, before, BlockView::ToolUse { id, name, input }, reasoning, answers),
    ensures
        after.accumulator.actions == before.accumulator.actions,
{
    tool_groups_are_apart(name);
}

/// Every call of the kernel's own tools is answered once, and the answer names the
/// call.
pub proof fn own_tools_are_answered(
    after: Turn,
    before: Turn,
    id: Seq<char>,
    name: Seq<char>,
    input: JsonView,
    reasoning: Seq<char>,
    answers: Seq<Result<Json, String>>,
)
    requires
        is_cognitive(name) || is_introspective(name),
        block_taken(after, before, BlockView::ToolUse { id, name, input }, reasoning, answers),
    ensures
        after.results@.len() == before.results@.len() + 1,
        block_views(after.results@).last() matches BlockView::ToolResult { tool_use_id, .. }
            && tool_use_id == id,
{
    assert(block_views(after.results@).len() == after.results@.len());
    assert(block_views(before.results@).len() == before.results@.len());
}

/// A turn that plans an action ends the conversation.
pub proof fn actions_end_the_conversation(stop: StopReason, has_results: bool)
    ensures
        !goes_on(stop, true, has_results),
{
}

/// A call of a tool that is not the kernel's own becomes one action behind the others. It
/// has the identifier, the name and the arguments of the call; the reasons of the turn,
/// if any were given, are its rationale. Nothing else changes.
pub proof fn outside_call_is_planned(
    after: Turn,
    before: Turn,
    id: Seq<char>,
    name: Seq<char>,
    input: JsonView,
    reasoning: Seq<char>,
    answers: Seq<Result<Json, String>>,
)
    requires
        !is_cognitive(name),
        !is_introspective(name),
        block_taken(after, before, BlockView::ToolUse { id, name, input }, reasoning, answers),
    ensures
        after.accumulator.actions@.len() == before.accumulator.actions@.len() + 1,
        forall|i: int|
            0 <= i < before.accumulator.actions@.len() ==> after.accumulator.actions@[i]
                == #[trigger] before.accumulator.actions@[i],
        ({
            let action = after.accumulator.actions@[before.accumulator.actions@.len() as int];
            &&& action.call_id@ == id
            &&& action.tool_name@ == name
            &&& action.params@ == input
            &&& trimmed(reasoning).len() > 0 ==> action.rationale@ == trimmed(reasoning)
            &&& trimmed(reasoning).len() == 0 ==> action.rationale@ == "model selected "@ + name
            &&& action.plan_task_id is None
            &&& action.origin_exec_thread_id is None
            &&& action.proposal_id is None
        }),
        after.results@ == before.results@,
        after.used == before.used,
        after.accumulator.reply == before.accumulator.reply,
        after.accumulator.reasoning_parts == before.accumulator.reasoning_parts,
        after.accumulator.memory_notes == before.accumulator.memory_notes,
        after.accumulator.watch_proposals == before.accumulator.watch_proposals,
        after.accumulator.snapshot_delta == before.accumulator.snapshot_delta,
        after.accumulator.vessel_mode_request == before.accumulator.vessel_mode_request,
{
    let actions = after.accumulator.actions@;
    assert forall|i: int| 0 <= i < before.accumulator.actions@.len() implies actions[i]
        == #[trigger] before.accumulator.actions@[i] by {
        assert(actions.drop_last()[i] == actions[i]);
    }
}

/// The calls of tools that are not the kernel's own, in order: identifier, name and
/// arguments of each.
pub open spec fn outside_calls(blocks: Seq<BlockView>) -> Seq<(Seq<char>, Seq<char>, JsonView)>
    decreases blocks.len(),
{
    if blocks.len() == 0 {
        Seq::empty()
    } else {
        match blocks.last() {
            BlockView::ToolUse { id, name, input } => if !is_cognitive(name) && !is_introspective(
                name,
            ) {
                outside_calls(blocks.drop_last()).push((id, name, input))
            } else {
                outside_calls(blocks.drop_last())
            },
            _ => outside_calls(blocks.drop_last()),
        }
    }
}

/// The actions behind the first `from` are those that the calls ask for, in order.
pub open spec fn carry_out(
    actions: Seq<PlannedAction>,
    from: int,
    calls: Seq<(Seq<char>, Seq<char>, JsonView)>,
) -> bool {
    &&& actions.len() == from + calls.len()
    &&& forall|i: int|
        0 <= i < calls.len() ==> {
            &&& actions[from + i].call_id@ == (#[trigger] calls[i]).0
            &&& actions[from + i].tool_name@ == calls[i].1
            &&& actions[from + i].params@ == calls[i].2
        }
}

proof fn course_plans_calls(
    course: Seq<Turn>,
    first: Turn,
    last: Turn,
    blocks: Seq<BlockView>,
    reasoning: Seq<char>,
    answers: Seq<Result<Json, String>>,
    n: int,
)
    requires
        is_course(course, first, last, blocks, reasoning, answers),
        0 <= n <= blocks.len(),
    ensures
        carry_out(
            course[n].accumulator.actions@,
            first.accumulator.actions@.len() as int,
            outside_calls(blocks.subrange(0, n)),
        ),
        forall|i: int|
            0 <= i < first.accumulator.actions@.len() ==> course[n].accumulator.actions@[i]
                == #[trigger] first.accumulator.actions@[i],
    decreases n,
{
    if n > 0 {
        let p = n - 1;
        course_plans_calls(course, first, last, blocks, reasoning, answers, p);
        let before = course[p];
        let after = course[n];
        assert(block_taken(after, before, blocks[p], reasoning, answers));
        assert(blocks.subrange(0, n).drop_last() =~= blocks.subrange(0, p));
        assert(blocks.subrange(0, n).last() == blocks[p]);
        match blocks[p] {
            BlockView::ToolUse { id, name, input } => {
                if !is_cognitive(name) && !is_introspective(name) {
                    outside_call_is_planned(after, before, id, name, input, reasoning, answers);
                    let from = first.accumulator.actions@.len() as int;
                    let calls = outside_calls(blocks.subrange(0, n));
                    assert forall|i: int| 0 <= i < calls.len() implies {
                        &&& after.accumulator.actions@[from + i].call_id@ == (#[trigger] calls[i]).0
                        &&& after.accumulator.actions@[from + i].tool_name@ == calls[i].1
                        &&& after.accumulator.actions@[from + i].params@ == calls[i].2
                    } by {
                        if i < calls.len() - 1 {
                            assert(outside_calls(blocks.subrange(0, p))[i] == calls[i]);
                            assert(before.accumulator.actions@[from + i]
                                == after.accumulator.actions@[from + i]);
                        }
                    }
                    assert forall|i: int| 0 <= i < from implies after.accumulator.actions@[i]
                        == #[trigger] first.accumulator.actions@[i] by {
                        assert(before.accumulator.actions@[i] == first.accumulator.actions@[i]);
                    }
                } else {
                    own_tools_never_become_actions(
                        after,
                        before,
                        id,
                        name,
                        input,
                        reasoning,
                        answers,
                    );
                }
            },
            _ => {},
        }
    } else {
        assert(blocks.subrange(0, 0) =~= Seq::<BlockView>::empty());
    }
}

/// A turn plans one action for each call of a tool that is not the kernel's own, in the
/// order of the calls and behind the actions that were planned before, which stay.
pub proof fn turn_plans_every_call(
    after: DecideRun,
    more: bool,
    before: DecideRun,
    response: LlmResponse,
    record: LlmCallRecord,
    artifact_id: ArtifactId,
    answers: Seq<Result<Json, String>>,
)
    requires
        turn_taken(after, more, before, response, record, artifact_id, answers),
    ensures
        carry_out(
            after.accumulator.actions@,
            before.accumulator.actions@.len() as int,
            outside_calls(block_views(response.content_blocks@)),
        ),
        forall|i: int|
            0 <= i < before.accumulator.actions@.len() ==> after.accumulator.actions@[i]
                == #[trigger] before.accumulator.actions@[i],
{
    let said = block_views(response.content_blocks@);
    let reasoning = text_in(said);
    let (opened, course, closed) = choose|opened: Turn, course: Seq<Turn>, closed: Turn|
        {
            &&& is_opened(opened, before.accumulator, reasoning)
            &&& #[trigger] is_course(course, opened, closed, said, reasoning, answers)
            &&& after.accumulator == closed.accumulator
            &&& message_views(after.messages@) == message_views(before.messages@)
                + turn_messages(said, block_views(closed.results@))
            &&& more == goes_on(
                response.stop_reason,
                closed.accumulator.actions@.len() > before.accumulator.actions@.len(),
                closed.results@.len() > 0,
            )
        };
    course_plans_calls(course, opened, closed, said, reasoning, answers, said.len() as int);
    assert(said.subrange(0, said.len() as int) =~= said);
    assert(course[said.len() as int] == course.last());
}

/// What the model says in a turn is kept for the next one: the messages so far stay, the
/// response follows as it was, and behind it come the answers to the calls of the
/// kernel's own tools, one for each, if there are any. A turn that plans an action is the
/// last one.
pub proof fn turn_is_remembered(
    after: DecideRun,
    more: bool,
    before: DecideRun,
    response: LlmResponse,
    record: LlmCallRecord,
    artifact_id: ArtifactId,
    answers: Seq<Result<Json, String>>,
)
    requires
        turn_taken(after, more, before, response, record, artifact_id, answers),
    ensures
        ({
            let n = before.messages@.len() as int;
            let said = block_views(response.content_blocks@);
            let asked = own_calls(said);
            &&& after.messages@.len() == n + (if asked.len() > 0 {
                2int
            } else {
                1int
            })
            &&& forall|i: int| 0 <= i < n ==> after.messages@[i]@ == (#[trigger] before.messages@[i])@
            &&& after.messages@[n].role == LlmRole::Assistant
            &&& after.messages@[n]@.content == said
            &&& asked.len() > 0 ==> {
                let answered = after.messages@[n + 1];
                &&& answered.role == LlmRole::User
                &&& answered@.content.len() == asked.len()
                &&& forall|i: int|
                    0 <= i < asked.len() ==> ((#[trigger] answered@.content[i])
                        matches BlockView::ToolResult { tool_use_id, .. } && tool_use_id
                        == asked[i])
            }
            &&& outside_calls(said).len() > 0 ==> !more
            &&& more ==> response.stop_reason == StopReason::ToolUse && asked.len() > 0
            &&& response.stop_reason == StopReason::ToolUse && asked.len() > 0 && outside_calls(
                said,
            ).len() == 0 ==> more
        }),
        after.turn == before.turn + 1,
        after.records@ == before.records@.push(record),
        after.last_response_artifact_id == Some(artifact_id),
{
    let said = block_views(response.content_blocks@);
    let reasoning = text_in(said);
    turn_plans_every_call(after, more, before, response, record, artifact_id, answers);
    let (opened, course, closed) = choose|opened: Turn, course: Seq<Turn>, closed: Turn|
        {
            &&& is_opened(opened, before.accumulator, reasoning)
            &&& #[trigger] is_course(course, opened, closed, said, reasoning, answers)
            &&& after.accumulator == closed.accumulator
            &&& message_views(after.messages@) == message_views(before.messages@)
                + turn_messages(said, block_views(closed.results@))
            &&& more == goes_on(
                response.stop_reason,
                closed.accumulator.actions@.len() > before.accumulator.actions@.len(),
                closed.results@.len() > 0,
            )
        };
    course_answers_calls(course, opened, closed, said, reasoning, answers, said.len() as int);
    assert(said.subrange(0, said.len() as int) =~= said);
    assert(course[said.len() as int] == course.last());
    let results = block_views(closed.results@);
    let told = message_views(before.messages@) + turn_messages(said, results);
    assert(message_views(after.messages@).len() == after.messages@.len());
    assert forall|i: int| 0 <= i < before.messages@.len() implies after.messages@[i]@ == (
    #[trigger] before.messages@[i])@ by {
        assert(message_views(after.messages@)[i] == told[i]);
    }
    let n = before.messages@.len() as int;
    assert(message_views(after.messages@)[n] == told[n]);
    if own_calls(said).len() > 0 {
        assert(message_views(after.messages@)[n + 1] == told[n + 1]);
    }
}

/// The identifiers of the calls of the kernel's own tools, in order.
pub open spec fn own_calls(blocks: Seq<BlockView>) -> Seq<Seq<char>>
    decreases blocks.len(),
{
    if blocks.len() == 0 {
        Seq::empty()
    } else {
        match blocks.last() {
            BlockView::ToolUse { id, name, .. } => if is_cognitive(name) || is_introspective(name) {
                own_calls(blocks.drop_last()).push(id)
            } else {
                own_calls(blocks.drop_last())
            },
            _ => own_calls(blocks.drop_last()),
        }
    }
}

proof fn course_answers_calls(
    course: Seq<Turn>,
    first: Turn,
    last: Turn,
    blocks: Seq<BlockView>,
    reasoning: Seq<char>,
    answers: Seq<Result<Json, String>>,
    n: int,
)
    requires
        is_course(course, first, last, blocks, reasoning, answers),
        first.results@.len() == 0,
        0 <= n <= blocks.len(),
    ensures
        ({
            let asked = own_calls(blocks.subrange(0, n));
            let told = block_views(course[n].results@);
            &&& told.len() == asked.len()
            &&& forall|i: int|
                0 <= i < asked.len() ==> ((#[trigger] told[i]) matches BlockView::ToolResult {
                    tool_use_id,
                    ..
                } && tool_use_id == asked[i])
        }),
    decreases n,
{
    if n > 0 {
        let p = n - 1;
        course_answers_calls(course, first, last, blocks, reasoning, answers, p);
        let before = course[p];
        let after = course[n];
        assert(block_taken(after, before, blocks[p], reasoning, answers));
        assert(blocks.subrange(0, n).drop_last() =~= blocks.subrange(0, p));
        assert(blocks.subrange(0, n).last() == blocks[p]);
        match blocks[p] {
            BlockView::ToolUse { id, name, input } => {
                if is_cognitive(name) || is_introspective(name) {
                    own_tools_are_answered(after, before, id, name, input, reasoning, answers);
                }
            },
            _ => {},
        }
    } else {
        assert(blocks.subrange(0, 0) =~= Seq::<BlockView>::empty());
    }
}

/// What a cognitive tool is asked to do is done, and nothing else is: a note goes behind
/// the notes, a reply, a mode and a plan update replace the earlier ones, a watch goes
/// behind the watches, and changes of the working memory go behind the changes. The call
/// is answered with `ok`.
pub proof fn cognitive_call_takes_effect(
    after: Turn,
    before: Turn,
    id: Seq<char>,
    name: Seq<char>,
    input: JsonView,
    reasoning: Seq<char>,
    answers: Seq<Result<Json, String>>,
)
    requires
        is_cognitive(name),
        cognitive_error(name, input) is None,
        block_taken(after, before, BlockView::ToolUse { id, name, input }, reasoning, answers),
    ensures
        block_views(after.results@).last() == (BlockView::ToolResult {
            tool_use_id: id,
            content: "ok"@,
            is_error: false,
        }),
        ({
            let a = after.accumulator;
            let b = before.accumulator;
            &&& a.actions == b.actions
            &&& a.reasoning_parts == b.reasoning_parts
            &&& if name == "save_memory_note"@ {
                &&& a.memory_notes@.len() == b.memory_notes@.len() + 1
                &&& a.memory_notes@.drop_last() == b.memory_notes@
                &&& Some(a.memory_notes@.last()@) == input.field_text("note"@)
            } else {
                a.memory_notes@ == b.memory_notes@
            }
            &&& if name == "reply_to_user"@ {
                a.reply matches Some(t) && Some(t@) == input.field_text("message"@)
            } else {
                a.reply == b.reply
            }
            &&& if name == "request_vessel_mode"@ {
                a.vessel_mode_request is Some && a.vessel_mode_request == mode_of(
                    input.field("mode"@)->Some_0,
                )
            } else {
                a.vessel_mode_request == b.vessel_mode_request
            }
            &&& if name == "update_plan"@ {
                a.snapshot_delta.plan_update matches Some(u) && is_plan_update(u, input)
            } else {
                a.snapshot_delta.plan_update == b.snapshot_delta.plan_update
            }
            &&& if name == "propose_watch"@ {
                &&& a.watch_proposals@.len() == b.watch_proposals@.len() + 1
                &&& a.watch_proposals@.drop_last() == b.watch_proposals@
                &&& is_watch(a.watch_proposals@.last(), input)
            } else {
                a.watch_proposals@ == b.watch_proposals@
            }
            &&& if name == "set_working_memory"@ {
                exists|ops: Seq<WorkingMemoryOp>|
                    {
                        &&& #[trigger] are_memory_ops(ops, input.field("ops"@)->Some_0)
                        &&& all_ops(a) == all_ops(b) + ops
                    }
            } else {
                a.snapshot_delta.working_memory_ops == b.snapshot_delta.working_memory_ops
            }
        }),
{
    cognitive_names_differ();
    tool_groups_are_apart(name);
    assert(block_views(after.results@).last() == cognitive_block(id, name, input));
    let effect = choose|effect: CognitiveToolResult|
        #[trigger] effect_of(effect, name, input) && accumulated(
            after.accumulator,
            before.accumulator,
            effect,
        );
    let a = after.accumulator;
    let b = before.accumulator;
    if name == "save_memory_note"@ {
        assert(a.memory_notes@.drop_last() =~= b.memory_notes@);
    }
    if name == "propose_watch"@ {
        assert(a.watch_proposals@.drop_last() =~= b.watch_proposals@);
    }
    if name == "set_working_memory"@ {
        let ops = effect.working_memory_ops@;
        assert(are_memory_ops(ops, input.field("ops"@)->Some_0));
        assert(all_ops(a) =~= all_ops(b) + ops);
    }
}

/// The changes of the working memory so far.
pub open spec fn all_ops(a: CognitiveAccumulator) -> Seq<WorkingMemoryOp> {
    match a.snapshot_delta.working_memory_ops {
        Some(ops) => ops@,
        None => Seq::empty(),
    }
}

/// A question to the introspection service is answered with what the service said, as
/// JSON; the next question gets the next answer. It changes nothing else.
pub proof fn question_is_answered(
    after: Turn,
    before: Turn,
    id: Seq<char>,
    name: Seq<char>,
    input: JsonView,
    reasoning: Seq<char>,
    answers: Seq<Result<Json, String>>,
)
    requires
        is_introspective(name),
        is_question(name, input),
        block_taken(after, before, BlockView::ToolUse { id, name, input }, reasoning, answers),
    ensures
        after.accumulator == before.accumulator,
        after.used == before.used + 1,
        match answers[before.used as int] {
            Ok(j) => block_views(after.results@).last() matches BlockView::ToolResult {
                tool_use_id,
                content,
                is_error,
            } && tool_use_id == id && content == written(j@) && is_error == (j@.field("error"@)
                is Some),
            Err(e) => block_views(after.results@).last() matches BlockView::ToolResult {
                tool_use_id,
                content,
                is_error,
            } && tool_use_id == id && is_error && content == written(
                JsonView::Object(seq![("error"@, JsonView::Str(e@))]),
            ),
        },
{
    if let Err(e) = answers[before.used as int] {
        let j = JsonView::Object(seq![("error"@, JsonView::Str(e@))]);
        assert(j->Object_0.last() == ("error"@, JsonView::Str(e@)));
        assert(j.field("error"@) is Some);
    }
}

/// A decision holds what its turns gathered: after one turn in a fresh conversation, the
/// actions are those that the response calls for, and the text of the response is the
/// reasoning unless it is blank.
pub proof fn decision_follows_response(
    d: DecisionResult,
    run: DecideRun,
    more: bool,
    start: DecideRun,
    response: LlmResponse,
    record: LlmCallRecord,
    merged: LlmCallRecord,
    artifact_id: ArtifactId,
    answers: Seq<Result<Json, String>>,
)
    requires
        start.accumulator.actions@.len() == 0,
        start.accumulator.reasoning_parts@.len() == 0,
        turn_taken(run, more, start, response, record, artifact_id, answers),
        is_result(d, run.accumulator, merged, artifact_id),
    ensures
        carry_out(d.actions@, 0, outside_calls(block_views(response.content_blocks@))),
        ({
            let said = text_in(block_views(response.content_blocks@));
            d.reasoning@ == if trimmed(said).len() > 0 {
                said
            } else {
                Seq::empty()
            }
        }),
        d.reply == run.accumulator.reply,
        d.memory_notes == run.accumulator.memory_notes,
        d.watch_proposals == run.accumulator.watch_proposals,
        d.vessel_mode_request == run.accumulator.vessel_mode_request,
        d.snapshot_delta == run.accumulator.snapshot_delta,
        d.response_artifact_id == artifact_id,
        d.llm_call_record.response_artifact_ref == Some(artifact_id),
        d.llm_call_record.model == merged.model,
        d.llm_call_record.tokens_in == merged.tokens_in,
        d.llm_call_record.tokens_out == merged.tokens_out,
        d.llm_call_record.cost_micros == merged.cost_micros,
        d.llm_call_record.latency_ms == merged.latency_ms,
        d.llm_call_record.turns == merged.turns,
{
    turn_plans_every_call(run, more, start, response, record, artifact_id, answers);
    let said = block_views(response.content_blocks@);
    let reasoning = text_in(said);
    let (opened, course, closed) = choose|opened: Turn, course: Seq<Turn>, closed: Turn|
        {
            &&& is_opened(opened, start.accumulator, reasoning)
            &&& #[trigger] is_course(course, opened, closed, said, reasoning, answers)
            &&& run.accumulator == closed.accumulator
            &&& message_views(run.messages@) == message_views(start.messages@)
                + turn_messages(said, block_views(closed.results@))
            &&& more == goes_on(
                response.stop_reason,
                closed.accumulator.actions@.len() > start.accumulator.actions@.len(),
                closed.results@.len() > 0,
            )
        };
    course_keeps_reasons(course, opened, closed, said, reasoning, answers, said.len() as int);
    assert(course[said.len() as int] == course.last());
    let parts = texts(run.accumulator.reasoning_parts@);
    assert(texts(start.accumulator.reasoning_parts@) =~= Seq::<Seq<char>>::empty());
    if trimmed(reasoning).len() > 0 {
        assert(parts =~= seq![reasoning]);
    } else {
        assert(parts =~= Seq::<Seq<char>>::empty());
    }
}

proof fn course_keeps_reasons(
    course: Seq<Turn>,
    first: Turn,
    last: Turn,
    blocks: Seq<BlockView>,
    reasoning: Seq<char>,
    answers: Seq<Result<Json, String>>,
    n: int,
)
    requires
        is_course(course, first, last, blocks, reasoning, answers),
        0 <= n <= blocks.len(),
    ensures
        course[n].accumulator.reasoning_parts == first.accumulator.reasoning_parts,
    decreases n,
{
    if n > 0 {
        course_keeps_reasons(course, first, last, blocks, reasoning, answers, n - 1);
        assert(block_taken(course[n], course[n - 1], blocks[n - 1], reasoning, answers));
    }
}

/// The block is the call of a tool with which the vessel asks a question about itself.
pub open spec fn calls_for_answer(b: BlockView) -> bool {
    b matches BlockView::ToolUse { id, name, input } && is_question(name, input)
}

/// Every call that asks a question about the vessel is asked, in order.
pub proof fn every_question_is_asked(queries: Seq<IntrospectionQuery>, blocks: Seq<BlockView>)
    requires
        asks_all(queries, blocks),
    ensures
        ({
            let calls = blocks.filter(|b: BlockView| calls_for_answer(b));
            &&& queries.len() == calls.len()
            &&& questions_in(blocks) == calls.len()
            &&& forall|i: int|
                0 <= i < calls.len() ==> asks_for(
                    #[trigger] queries[i],
                    calls[i]->ToolUse_name,
                    calls[i]->ToolUse_input,
                )
        }),
    decreases blocks.len(),
{
    reveal(Seq::filter);
    if blocks.len() > 0 {
        if calls_for_answer(blocks.last()) {
            every_question_is_asked(queries.drop_last(), blocks.drop_last());
            let front = blocks.drop_last().filter(|b: BlockView| calls_for_answer(b));
            let calls = blocks.filter(|b: BlockView| calls_for_answer(b));
            assert(calls == front.push(blocks.last()));
            assert forall|i: int| 0 <= i < calls.len() implies asks_for(
                #[trigger] queries[i],
                calls[i]->ToolUse_name,
                calls[i]->ToolUse_input,
            ) by {
                if i < front.len() {
                    assert(queries.drop_last()[i] == queries[i]);
                    assert(calls[i] == front[i]);
                }
            }
        } else {
            every_question_is_asked(queries, blocks.drop_last());
        }
    }
}

} // verus!

//! The machine of the inner loop.
//!
//! A session goes round: check the budget, align, act, decide again. It ends when the
//! budget is used up, the tick is cancelled, there is nothing more to do, a question
//! waits for an answer, or the model repeats itself.

use vstd::prelude::*;
use vstd::string::*;

use crate::align::{AlignmentResult, RelationshipRecord, RelationshipSnapshot};
use crate::diff_tracker::{
    can_sum, changes_add_up, diffs_of, sums_up, track_executions, DiffSummary, DiffTracker,
};
use crate::inner_loop::{build_doom_loop_correction, correction_text};
use crate::text::{dec, dec_u64, opt_text};
use crate::types::{ActionExecution, DecisionResult, ExoError, LlmCallRecord, PlannedAction};

verus! {

/// Why a session ended.
#[derive(Debug, PartialEq, Eq)]
pub enum SessionCompletionReason {
    /// The budget of the session is used up, for the given reason.
    Budget(String),
    Cancelled,
    /// There is nothing more to do.
    AgentComplete,
    /// A question waits for an answer.
    AwaitingInput,
    /// The model repeats itself.
    DoomLoop,
}

/// Whether the model repeats itself.
#[derive(Debug, PartialEq, Eq)]
pub enum DoomLoopStatus {
    Clear,
    CorrectionNeeded { tool: String, count: u32, last_error: Option<String> },
    HardStop,
}

/// What a session waits for.
#[derive(Debug, Clone, Copy, PartialEq, Eq, Structural)]
pub enum SessionPhase {
    Checking,
    Aligning,
    Acting,
    Deciding,
    Done,
}

/// A session of the inner loop.
#[derive(Debug)]
pub struct Session {
    pub phase: SessionPhase,
    pub max_steps: u32,
    pub step: u32,
    pub decision: DecisionResult,
    pub executions: Vec<ActionExecution>,
    pub llm_call_records: Vec<LlmCallRecord>,
    pub relationship_updates: Vec<RelationshipRecord>,
    pub relationship_snapshot: Option<RelationshipSnapshot>,
    /// The changes of the tick.
    pub tracker: DiffTracker,
    /// The tool of the first action of the present step.
    pub step_tool: Option<StepTool>,
    /// The changes of the present step.
    pub step_changes: Option<DiffSummary>,
}

/// A tool that was used, and whether it succeeded.
#[derive(Debug, PartialEq, Eq)]
pub struct StepTool {
    pub name: String,
    pub succeeded: bool,
}

/// What is told of a step besides its text.
#[derive(Debug, PartialEq, Eq)]
pub struct StepDetail {
    pub step_number: u32,
    pub max_steps: u32,
    pub tool_name: Option<String>,
    pub tool_outcome: Option<String>,
    pub tokens_this_step: u64,
}

/// The answer to a request of the session.
#[derive(Debug)]
pub enum SessionEvent {
    /// The state of the budget: the reason to stop, if there is one.
    Checked { stop: Option<String>, cancelled: bool },
    Aligned(AlignmentResult),
    /// What became of the approved actions, and whether the model repeats itself.
    Acted { result: Result<Vec<ActionExecution>, ExoError>, doom: DoomLoopStatus },
    Decided(Result<DecisionResult, ExoError>),
}

/// What the session asks for.
#[derive(Debug)]
pub enum SessionRequest {
    CheckBudget,
    /// Check the actions of the present decision against the relationships.
    Align,
    /// Hand the actions to the tools and record their calls.
    Act { actions: Vec<PlannedAction> },
    /// Decide again. A correction that was given is to be noted.
    Decide { correction: Option<String> },
    /// Count the tokens of the step and announce it with its changes, then go on with
    /// the budget.
    Continue { announcement: String, detail: StepDetail, changes: Option<DiffSummary> },
    Finish(SessionCompletionReason),
    Fail(ExoError),
}

// ---------------------------------------------------------------------------
// What a step does
// ---------------------------------------------------------------------------

/// The check lets the session take another step.
pub open spec fn goes_on(s: Session, stop: Option<String>, cancelled: bool) -> bool {
    stop is None && !cancelled && s.decision.actions@.len() > 0
}

/// The event is the answer that the phase waits for, and the counters have room for
/// it.
pub open spec fn session_answers(s: Session, event: SessionEvent) -> bool {
    match event {
        SessionEvent::Checked { stop, cancelled } => s.phase == SessionPhase::Checking && (goes_on(
            s,
            stop,
            cancelled,
        ) ==> s.step < u32::MAX),
        SessionEvent::Aligned(_) => s.phase == SessionPhase::Aligning,
        SessionEvent::Acted { result, .. } => s.phase == SessionPhase::Acting && (
        result matches Ok(executions) ==> can_sum(diffs_of(executions@))),
        SessionEvent::Decided(r) => s.phase == SessionPhase::Deciding && (r matches Ok(d)
            ==> d.llm_call_record.tokens_in + d.llm_call_record.tokens_out <= u64::MAX),
    }
}

/// Some execution waits for an answer.
pub open spec fn waits_for_answer(executions: Seq<ActionExecution>) -> bool {
    exists|i: int| 0 <= i < executions.len() && (#[trigger] executions[i]).pending_question
}

/// The tool of the first action of a step, and whether it succeeded.
pub open spec fn first_tool(executions: Seq<ActionExecution>) -> Option<(Seq<char>, bool)> {
    if executions.len() == 0 {
        None
    } else {
        Some((executions[0].action.tool_name@, executions[0].result is Ok))
    }
}

/// The model of a tool that was used.
pub open spec fn tool_view(t: Option<StepTool>) -> Option<(Seq<char>, bool)> {
    match t {
        Some(t) => Some((t.name@, t.succeeded)),
        None => None,
    }
}

/// How the use of a tool ended.
pub open spec fn tool_outcome(succeeded: bool) -> Seq<char> {
    if succeeded {
        "success"@
    } else {
        "failed"@
    }
}

/// The event that announces a step.
pub open spec fn step_text(step: u32, max_steps: u32, tool: Option<(Seq<char>, bool)>) -> Seq<
    char,
> {
    "Step "@ + dec(step as nat) + "/"@ + dec(max_steps as nat) + ": "@ + (match tool {
        Some(t) => t.0 + " ("@ + tool_outcome(t.1) + ")"@,
        None => "no actions"@,
    })
}

/// What is told of a step besides its text.
pub open spec fn tells_of_step(d: StepDetail, s: Session, tokens: int) -> bool {
    &&& d.step_number == s.step
    &&& d.max_steps == s.max_steps
    &&& opt_text(d.tool_name) == (match tool_view(s.step_tool) {
        Some(t) => Some(t.0),
        None => None,
    })
    &&& opt_text(d.tool_outcome) == (match tool_view(s.step_tool) {
        Some(t) => Some(tool_outcome(t.1)),
        None => None,
    })
    &&& d.tokens_this_step == tokens
}

/// The tracker with the changes of executions.
pub open spec fn records(next: DiffTracker, before: DiffTracker, executions: Seq<ActionExecution>) -> bool {
    next.entries@ == before.entries@ + diffs_of(executions) && next.tick_number
        == before.tick_number
}

/// The session ends for a reason and keeps what it gathered.
pub open spec fn ends(
    next: Session,
    request: SessionRequest,
    before: Session,
    reason: SessionCompletionReason,
) -> bool {
    next == (Session { phase: SessionPhase::Done, ..before }) && request
        == SessionRequest::Finish(reason)
}

/// The step from `s` with `event` leads to `next` and asks for `request`.
pub open spec fn session_step(
    s: Session,
    event: SessionEvent,
    next: Session,
    request: SessionRequest,
) -> bool {
    match event {
        SessionEvent::Checked { stop, cancelled } => {
            if stop is Some {
                ends(next, request, s, SessionCompletionReason::Budget(stop->Some_0))
            } else if cancelled {
                ends(next, request, s, SessionCompletionReason::Cancelled)
            } else if s.decision.actions@.len() == 0 {
                ends(next, request, s, SessionCompletionReason::AgentComplete)
            } else {
                next == (Session {
                    phase: SessionPhase::Aligning,
                    step: (s.step + 1) as u32,
                    ..s
                }) && request is Align
            }
        },
        SessionEvent::Aligned(a) => {
            &&& next.relationship_updates@ == s.relationship_updates@ + a.relationship_updates@
            &&& next == (Session {
                phase: SessionPhase::Acting,
                relationship_updates: next.relationship_updates,
                relationship_snapshot: match a.relationship_snapshot {
                    Some(r) => Some(r),
                    None => s.relationship_snapshot,
                },
                ..s
            })
            &&& request == (SessionRequest::Act { actions: a.approved_actions })
        },
        SessionEvent::Acted { result: Err(e), doom: _ } => next == (Session {
            phase: SessionPhase::Done,
            ..s
        }) && request == SessionRequest::Fail(e),
        SessionEvent::Acted { result: Ok(executions), doom } => {
            &&& next.executions@ == s.executions@ + executions@
            &&& records(next.tracker, s.tracker, executions@)
            &&& if waits_for_answer(executions@) {
                ends(
                    next,
                    request,
                    Session { executions: next.executions, tracker: next.tracker, ..s },
                    SessionCompletionReason::AwaitingInput,
                )
            } else if doom is HardStop {
                ends(
                    next,
                    request,
                    Session { executions: next.executions, tracker: next.tracker, ..s },
                    SessionCompletionReason::DoomLoop,
                )
            } else {
                &&& tool_view(next.step_tool) == first_tool(executions@)
                &&& sums_up(next.step_changes, diffs_of(executions@))
                &&& next == (Session {
                    phase: SessionPhase::Deciding,
                    executions: next.executions,
                    tracker: next.tracker,
                    step_tool: next.step_tool,
                    step_changes: next.step_changes,
                    ..s
                })
                &&& request matches SessionRequest::Decide { correction } && opt_text(correction)
                    == match doom {
                    DoomLoopStatus::CorrectionNeeded { tool, count, last_error } => Some(
                        correction_text(tool@, count, opt_text(last_error)),
                    ),
                    _ => None,
                }
            }
        },
        SessionEvent::Decided(Err(e)) => next == (Session { phase: SessionPhase::Done, ..s })
            && request == SessionRequest::Fail(e),
        SessionEvent::Decided(Ok(decision)) => {
            &&& next.llm_call_records@ == s.llm_call_records@.push(decision.llm_call_record)
            &&& next == (Session {
                phase: SessionPhase::Checking,
                decision,
                llm_call_records: next.llm_call_records,
                step_changes: None,
                ..s
            })
            &&& request matches SessionRequest::Continue { announcement, detail, changes }
                && announcement@ == step_text(s.step, s.max_steps, tool_view(s.step_tool))
                && tells_of_step(
                detail,
                s,
                decision.llm_call_record.tokens_in + decision.llm_call_record.tokens_out,
            ) && changes == s.step_changes
        },
    }
}

// ---------------------------------------------------------------------------
// The machine
// ---------------------------------------------------------------------------

/// The event that announces a session.
pub fn session_started_text(max_steps: u32, max_tokens: u64) -> (s: String)
    ensures
        s@ == "Inner loop started (max "@ + dec(max_steps as nat) + " steps, "@ + dec(
            max_tokens as nat,
        ) + " token budget)"@,
{
    let mut s = "Inner loop started (max ".to_owned();
    s.append(dec_u64(max_steps as u64).as_str());
    s.append(" steps, ");
    s.append(dec_u64(max_tokens).as_str());
    s.append(" token budget)");
    s
}

/// The event that announces the end of a session.
pub fn session_completed_text(steps: u32, tokens: u64, reason: &str) -> (s: String)
    ensures
        s@ == "Inner loop completed after "@ + dec(steps as nat) + " steps ("@ + dec(tokens as nat)
            + " tokens): "@ + reason@,
{
    let mut s = "Inner loop completed after ".to_owned();
    s.append(dec_u64(steps as u64).as_str());
    s.append(" steps (");
    s.append(dec_u64(tokens).as_str());
    s.append(" tokens): ");
    s.append(reason);
    s
}

/// Begins a session with the decision of the tick and the changes recorded so far.
pub fn start_session(decision: DecisionResult, max_steps: u32, tracker: DiffTracker) -> (r: (
    Session,
    SessionRequest,
))
    ensures
        r.0.phase == SessionPhase::Checking,
        r.0.max_steps == max_steps,
        r.0.step == 0,
        r.0.decision == decision,
        r.0.executions@.len() == 0,
        r.0.llm_call_records@.len() == 0,
        r.0.relationship_updates@.len() == 0,
        r.0.relationship_snapshot is None,
        r.0.tracker == tracker,
        r.0.step_tool is None,
        r.0.step_changes is None,
        r.1 is CheckBudget,
{
    (
        Session {
            phase: SessionPhase::Checking,
            max_steps,
            step: 0,
            decision,
            executions: Vec::new(),
            llm_call_records: Vec::new(),
            relationship_updates: Vec::new(),
            relationship_snapshot: None,
            tracker,
            step_tool: None,
            step_changes: None,
        },
        SessionRequest::CheckBudget,
    )
}

fn any_waits(executions: &Vec<ActionExecution>) -> (r: bool)
    ensures
        r == waits_for_answer(executions@),
{
    let mut i: usize = 0;
    while i < executions.len()
        invariant
            i <= executions@.len(),
            forall|k: int| 0 <= k < i ==> !(#[trigger] executions@[k]).pending_question,
        decreases executions@.len() - i,
    {
        if executions[i].pending_question {
            return true;
        }
        i = i + 1;
    }
    false
}

fn tool_of_first(executions: &Vec<ActionExecution>) -> (r: Option<StepTool>)
    ensures
        tool_view(r) == first_tool(executions@),
{
    if executions.len() == 0 {
        return None;
    }
    Some(
        StepTool {
            name: executions[0].action.tool_name.clone(),
            succeeded: executions[0].result.is_ok(),
        },
    )
}

fn outcome_str(succeeded: bool) -> (r: &'static str)
    ensures
        r@ == tool_outcome(succeeded),
{
    if succeeded {
        "success"
    } else {
        "failed"
    }
}

impl Session {
    fn finish(self, reason: SessionCompletionReason) -> (r: (Session, SessionRequest))
        ensures
            ends(r.0, r.1, self, reason),
    {
        (Session { phase: SessionPhase::Done, ..self }, SessionRequest::Finish(reason))
    }

    fn on_checked(self, stop: Option<String>, cancelled: bool) -> (r: (Session, SessionRequest))
        requires
            goes_on(self, stop, cancelled) ==> self.step < u32::MAX,
        ensures
            session_step(self, SessionEvent::Checked { stop, cancelled }, r.0, r.1),
    {
        match stop {
            Some(reason) => {
                return self.finish(SessionCompletionReason::Budget(reason));
            },
            None => {},
        }
        if cancelled {
            return self.finish(SessionCompletionReason::Cancelled);
        }
        if self.decision.actions.len() == 0 {
            return self.finish(SessionCompletionReason::AgentComplete);
        }
        let step: u32 = self.step + 1;
        (Session { phase: SessionPhase::Aligning, step, ..self }, SessionRequest::Align)
    }

    fn on_aligned(self, a: AlignmentResult) -> (r: (Session, SessionRequest))
        ensures
            session_step(self, SessionEvent::Aligned(a), r.0, r.1),
    {
        let mut next = self;
        let mut updates = a.relationship_updates;
        next.relationship_updates.append(&mut updates);
        if a.relationship_snapshot.is_some() {
            next.relationship_snapshot = a.relationship_snapshot;
        }
        next.phase = SessionPhase::Acting;
        (next, SessionRequest::Act { actions: a.approved_actions })
    }

    fn on_acted(
        self,
        result: Result<Vec<ActionExecution>, ExoError>,
        doom: DoomLoopStatus,
    ) -> (r: (Session, SessionRequest))
        requires
            result matches Ok(executions) ==> can_sum(diffs_of(executions@)),
        ensures
            session_step(self, SessionEvent::Acted { result, doom }, r.0, r.1),
    {
        match result {
            Err(e) => (Session { phase: SessionPhase::Done, ..self }, SessionRequest::Fail(e)),
            Ok(executions) => {
                let waits = any_waits(&executions);
                let tool = tool_of_first(&executions);
                let changes = build_step_diff_summary(&executions);
                let mut next = self;
                next.tracker.record_executions(&executions);
                let mut more = executions;
                next.executions.append(&mut more);
                if waits {
                    return next.finish(SessionCompletionReason::AwaitingInput);
                }
                let correction = match doom {
                    DoomLoopStatus::HardStop => {
                        return next.finish(SessionCompletionReason::DoomLoop);
                    },
                    DoomLoopStatus::CorrectionNeeded { tool, count, last_error } => {
                        let error = match &last_error {
                            Some(e) => Some(e.as_str()),
                            None => None,
                        };
                        Some(build_doom_loop_correction(tool.as_str(), count, error))
                    },
                    DoomLoopStatus::Clear => None,
                };
                next.step_tool = tool;
                next.step_changes = changes;
                next.phase = SessionPhase::Deciding;
                (next, SessionRequest::Decide { correction })
            },
        }
    }

    fn on_decided(self, r: Result<DecisionResult, ExoError>) -> (o: (Session, SessionRequest))
        requires
            r matches Ok(d) ==> d.llm_call_record.tokens_in + d.llm_call_record.tokens_out
                <= u64::MAX,
        ensures
            session_step(self, SessionEvent::Decided(r), o.0, o.1),
    {
        match r {
            Err(e) => (Session { phase: SessionPhase::Done, ..self }, SessionRequest::Fail(e)),
            Ok(decision) => {
                let tokens_this_step: u64 = decision.llm_call_record.tokens_in
                    + decision.llm_call_record.tokens_out;
                let mut announcement = "Step ".to_owned();
                announcement.append(dec_u64(self.step as u64).as_str());
                announcement.append("/");
                announcement.append(dec_u64(self.max_steps as u64).as_str());
                announcement.append(": ");
                let mut tool_name: Option<String> = None;
                let mut outcome: Option<String> = None;
                match &self.step_tool {
                    Some(t) => {
                        let ended = outcome_str(t.succeeded);
                        announcement.append(t.name.as_str());
                        announcement.append(" (");
                        announcement.append(ended);
                        announcement.append(")");
                        tool_name = Some(t.name.clone());
                        outcome = Some(ended.to_owned());
                    },
                    None => {
                        announcement.append("no actions");
                    },
                }
                assert(announcement@ =~= step_text(
                    self.step,
                    self.max_steps,
                    tool_view(self.step_tool),
                ));
                let detail = StepDetail {
                    step_number: self.step,
                    max_steps: self.max_steps,
                    tool_name,
                    tool_outcome: outcome,
                    tokens_this_step,
                };
                let mut next = self;
                let changes = next.step_changes;
                next.step_changes = None;
                next.llm_call_records.push(decision.llm_call_record.clone());
                next.decision = decision;
                next.phase = SessionPhase::Checking;
                (next, SessionRequest::Continue { announcement, detail, changes })
            },
        }
    }

    /// Takes the answer to the latest request and returns the next request.
    pub fn step(self, event: SessionEvent) -> (r: (Session, SessionRequest))
        requires
            session_answers(self, event),
        ensures
            session_step(self, event, r.0, r.1),
    {
        match event {
            SessionEvent::Checked { stop, cancelled } => self.on_checked(stop, cancelled),
            SessionEvent::Aligned(a) => self.on_aligned(a),
            SessionEvent::Acted { result, doom } => self.on_acted(result, doom),
            SessionEvent::Decided(r) => self.on_decided(r),
        }
    }
}

/// Sums the changes of a step up for its event; nothing if there are none.
pub fn build_step_diff_summary(executions: &Vec<ActionExecution>) -> (r: Option<DiffSummary>)
    requires
        can_sum(diffs_of(executions@)),
    ensures
        sums_up(r, diffs_of(executions@)),
{
    track_executions(0, executions).build_event_summary()
}

// ---------------------------------------------------------------------------
// Laws
// ---------------------------------------------------------------------------

/// Every action that the session hands to the tools was approved by the Align step.
pub proof fn session_acts_only_on_approval(
    s: Session,
    event: SessionEvent,
    next: Session,
    request: SessionRequest,
)
    requires
        session_answers(s, event),
        session_step(s, event, next, request),
        request is Act,
    ensures
        event matches SessionEvent::Aligned(a) && request->Act_actions == a.approved_actions,
{
}

/// What a session gathered is never lost: executions, records and relationship
/// updates only grow, whatever the outcome of a step.
pub proof fn session_only_grows(
    s: Session,
    event: SessionEvent,
    next: Session,
    request: SessionRequest,
)
    requires
        session_answers(s, event),
        session_step(s, event, next, request),
    ensures
        s.executions@.is_prefix_of(next.executions@),
        s.llm_call_records@.is_prefix_of(next.llm_call_records@),
        s.relationship_updates@.is_prefix_of(next.relationship_updates@),
        s.step <= next.step <= s.step + 1,
{
}

/// A session takes a step only while the budget allows it, the tick is not
/// cancelled and there is something to do.
pub proof fn session_steps_are_allowed(
    s: Session,
    stop: Option<String>,
    cancelled: bool,
    next: Session,
    request: SessionRequest,
)
    requires
        session_answers(s, SessionEvent::Checked { stop, cancelled }),
        session_step(s, SessionEvent::Checked { stop, cancelled }, next, request),
        next.step == s.step + 1,
    ensures
        stop is None,
        !cancelled,
        s.decision.actions@.len() > 0,
{
}

/// The tracker holds what was recorded before the session, then the changes of its
/// executions, in order.
pub proof fn session_records_changes(
    start: DiffTracker,
    s: Session,
    event: SessionEvent,
    next: Session,
    request: SessionRequest,
)
    requires
        records(s.tracker, start, s.executions@),
        session_answers(s, event),
        session_step(s, event, next, request),
    ensures
        records(next.tracker, start, next.executions@),
{
    if let SessionEvent::Acted { result: Ok(executions), doom: _ } = event {
        changes_add_up(s.executions@, executions@);
        assert(start.entries@ + diffs_of(s.executions@) + diffs_of(executions@) =~= start.entries@
            + (diffs_of(s.executions@) + diffs_of(executions@)));
    }
}

/// Each step has one call of the model, except one that has not got that far.
pub open spec fn calls_counted(s: Session) -> bool {
    match s.phase {
        SessionPhase::Checking => s.llm_call_records@.len() == s.step,
        SessionPhase::Done => true,
        _ => s.llm_call_records@.len() + 1 == s.step,
    }
}

/// A session that ends between two steps made one call of the model in each step. One
/// that ends because of what the tools did made none in its last step; if it waits for
/// an answer, one of its actions asked a question.
pub proof fn each_step_has_one_call(
    s: Session,
    event: SessionEvent,
    next: Session,
    request: SessionRequest,
)
    requires
        calls_counted(s),
        session_answers(s, event),
        session_step(s, event, next, request),
    ensures
        calls_counted(next),
        request matches SessionRequest::Finish(reason) ==> match reason {
            SessionCompletionReason::AwaitingInput => next.llm_call_records@.len() + 1 == next.step
                && waits_for_answer(next.executions@),
            SessionCompletionReason::DoomLoop => next.llm_call_records@.len() + 1 == next.step,
            _ => next.llm_call_records@.len() == next.step,
        },
{
    if let SessionEvent::Acted { result: Ok(executions), doom: _ } = event {
        if waits_for_answer(executions@) {
            let i = choose|i: int|
                0 <= i < executions@.len() && (#[trigger] executions@[i]).pending_question;
            assert(next.executions@[s.executions@.len() + i] == executions@[i]);
        }
    }
}

} // verus!

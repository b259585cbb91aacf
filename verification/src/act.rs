//! The Act step: the approved actions cross over to the tools.
//!
//! The tools themselves are outside. A run of the step holds the actions that
//! still wait, and takes the answer to each in turn: that the rate limit refused
//! it, or what the tool reported.

use vstd::prelude::*;
use vstd::string::*;

use crate::json::{member, member_views, write_json, written, Json, JsonView};
use crate::policy::PolicyDecision;
use crate::text::{clean_cut, clone_opt, cuts_cleanly, byte_len, over_bytes, shorten, shortened};
use crate::types::{
    clone_artifact, ActionExecution, ActionOutcome, ActionRecord, ArtifactId, CodeDiffContent,
    ContentBlock, ExoError, PlannedAction,
};

verus! {

/// The state of the slot that holds the tool host.
#[derive(Debug, Clone, Copy, PartialEq, Eq, Structural)]
pub enum HostSlot {
    /// Another task holds the slot.
    Locked,
    /// The slot holds no host.
    Empty,
    Ready,
}

/// What a tool reported of one action.
#[derive(Debug)]
pub struct ToolReport {
    pub result: Result<Json, String>,
    /// Where the receipt of the action was stored, if it was.
    pub receipt_ref: Option<ArtifactId>,
    pub pending_question: bool,
    pub code_diff: Option<(ArtifactId, CodeDiffContent)>,
}

/// An event for the ledger that tells what became of an action.
#[derive(Debug, PartialEq, Eq)]
pub struct ActionEvent {
    pub payload_ref: Option<ArtifactId>,
    pub summary: String,
}

/// The events of one answered action.
#[derive(Debug, PartialEq, Eq)]
pub struct ActLog {
    /// The event of the action itself.
    pub executed: ActionEvent,
    /// The events of the actions that were given up because of a cancellation.
    pub skipped: Vec<ActionEvent>,
}

/// A run of the Act step.
#[derive(Debug)]
pub struct ActRun {
    pub waiting: Vec<PlannedAction>,
    pub executions: Vec<ActionExecution>,
}

/// The longest result text that a summary quotes whole, in bytes.
pub const RESULT_LIMIT: usize = 500;

/// The bytes of a longer result text that a summary quotes.
pub const RESULT_KEEP: usize = 497;

// ---------------------------------------------------------------------------
// What a run is
// ---------------------------------------------------------------------------

impl ActRun {
    /// The run deals with `approved`: its executions answer the first of them, in
    /// order, and the rest waits, in order.
    pub open spec fn tracks(self, approved: Seq<PlannedAction>) -> bool {
        &&& self.executions@.len() + self.waiting@.len() == approved.len()
        &&& forall|i: int|
            0 <= i < self.executions@.len() ==> (#[trigger] self.executions@[i]).action
                == approved[i]
        &&& forall|i: int|
            0 <= i < self.waiting@.len() ==> #[trigger] self.waiting@[i] == approved[i
                + self.executions@.len()]
    }
}

/// The record of `a` with the given outcome and receipt.
pub open spec fn records(
    r: ActionRecord,
    a: PlannedAction,
    outcome: ActionOutcome,
    receipt: Option<ArtifactId>,
) -> bool {
    &&& r.action_type@ == a.tool_name@
    &&& r.target@ == written(a.params@)
    &&& r.receipt_ref == receipt
    &&& r.outcome == outcome
    &&& r.origin_exec_thread_id == a.origin_exec_thread_id
    &&& r.proposal_id == a.proposal_id
}

/// The tool result that answers the call of `a` with `content`.
pub open spec fn answers(b: ContentBlock, a: PlannedAction, content: Seq<char>, failed: bool) -> bool {
    match b {
        ContentBlock::ToolResult { tool_use_id, content: c, is_error } => tool_use_id@ == a.call_id@
            && c@ == content && is_error == failed,
        _ => false,
    }
}

/// The execution of an action that was not carried out for `reason`.
pub open spec fn refused(
    e: ActionExecution,
    a: PlannedAction,
    outcome: ActionOutcome,
    reason: Seq<char>,
) -> bool {
    &&& e.action == a
    &&& e.result matches Err(m) && m@ == reason
    &&& records(e.record, a, outcome, None)
    &&& answers(e.tool_result, a, reason, true)
    &&& !e.pending_question
    &&& e.code_diff is None
}

/// The execution of an action of which a tool reported.
pub open spec fn reported(e: ActionExecution, a: PlannedAction, report: ToolReport) -> bool {
    &&& e.action == a
    &&& e.result == report.result
    &&& records(
        e.record,
        a,
        if report.result is Ok {
            ActionOutcome::Success
        } else {
            ActionOutcome::Failure
        },
        report.receipt_ref,
    )
    &&& answers(e.tool_result, a, result_text(report.result), report.result is Err)
    &&& e.pending_question == report.pending_question
    &&& e.code_diff == report.code_diff
}

/// The text of a result: the value as JSON, or the error.
pub open spec fn result_text(result: Result<Json, String>) -> Seq<char> {
    match result {
        Ok(v) => written(v@),
        Err(e) => e@,
    }
}

/// The summary of a result can be cut without splitting a character.
pub open spec fn quotable(result: Result<Json, String>) -> bool {
    match result {
        Ok(v) => byte_len(written(v@)) > RESULT_LIMIT ==> cuts_cleanly(
            written(v@),
            RESULT_KEEP as int,
        ),
        Err(_) => true,
    }
}

/// The summary of a result.
pub open spec fn result_summary(result: Result<Json, String>) -> Seq<char> {
    match result {
        Ok(v) => "succeeded — "@ + shortened(
            written(v@),
            RESULT_LIMIT as nat,
            RESULT_KEEP as int,
        ),
        Err(e) => "failed: "@ + e@,
    }
}

/// Why a decision on a tool does not allow an action, if it does not.
pub open spec fn policy_reason(decision: PolicyDecision, tool: Seq<char>) -> Option<Seq<char>> {
    match decision {
        PolicyDecision::Allowed => None,
        PolicyDecision::Denied { reason } => Some(reason@),
        PolicyDecision::NeedsApproval => Some("tool '"@ + tool + "' requires approval"@),
    }
}

/// The summary of the event of an action.
pub open spec fn event_summary(a: PlannedAction, what: Seq<char>) -> Seq<char> {
    "Action "@ + a.tool_name@ + ": "@ + what + " ("@ + a.rationale@ + ")"@
}

// ---------------------------------------------------------------------------
// The run
// ---------------------------------------------------------------------------

/// Begins the Act step for the approved actions.
///
/// Without actions the host is not needed. Otherwise the slot must hold a host
/// that no other task uses.
pub fn start_act(approved: Vec<PlannedAction>, slot: HostSlot) -> (r: Result<ActRun, ExoError>)
    ensures
        match r {
            Ok(run) => {
                &&& approved@.len() == 0 || slot == HostSlot::Ready
                &&& run.waiting == approved
                &&& run.executions@.len() == 0
                &&& run.tracks(approved@)
            },
            Err(ExoError::Engine(m)) => {
                &&& approved@.len() > 0
                &&& slot == HostSlot::Locked ==> m@ == "WI host slot locked (concurrent access)"@
                &&& slot == HostSlot::Empty ==> m@ == "WI host not available"@
                &&& slot != HostSlot::Ready
            },
            Err(_) => false,
        },
{
    if approved.len() > 0 {
        match slot {
            HostSlot::Locked => {
                return Err(
                    ExoError::Engine("WI host slot locked (concurrent access)".to_owned()),
                );
            },
            HostSlot::Empty => {
                return Err(ExoError::Engine("WI host not available".to_owned()));
            },
            HostSlot::Ready => {},
        }
    }
    Ok(ActRun { waiting: approved, executions: Vec::new() })
}

/// The label under which an outcome is counted.
pub fn outcome_label(outcome: ActionOutcome) -> (r: &'static str)
    ensures
        r@ == (match outcome {
            ActionOutcome::Success => "success"@,
            ActionOutcome::Failure => "failure"@,
            ActionOutcome::RateLimited => "rate_limited"@,
            ActionOutcome::Skipped => "skipped"@,
            ActionOutcome::Timeout => "timeout"@,
            ActionOutcome::PolicyDenied => "policy_denied"@,
        }),
{
    match outcome {
        ActionOutcome::Success => "success",
        ActionOutcome::Failure => "failure",
        ActionOutcome::RateLimited => "rate_limited",
        ActionOutcome::Skipped => "skipped",
        ActionOutcome::Timeout => "timeout",
        ActionOutcome::PolicyDenied => "policy_denied",
    }
}

/// The receipt of an action: what the tool returned, or the error with the call
/// that caused it.
pub fn receipt_content(action: &PlannedAction, result: &Result<Json, String>) -> (j: Json)
    ensures
        match *result {
            Ok(v) => j@ == v@,
            Err(e) => j@ == JsonView::Object(
                seq![
                    ("error"@, JsonView::Str(e@)),
                    ("tool"@, JsonView::Str(action.tool_name@)),
                    ("params"@, action.params@),
                ],
            ),
        },
{
    match result {
        Ok(v) => v.clone(),
        Err(e) => {
            let members = vec![
                member("error", Json::str(e.as_str())),
                member("tool", Json::str(action.tool_name.as_str())),
                member("params", action.params.clone()),
            ];
            assert(member_views(members@) =~= seq![
                ("error"@, JsonView::Str(e@)),
                ("tool"@, JsonView::Str(action.tool_name@)),
                ("params"@, action.params@),
            ]);
            Json::object(members)
        },
    }
}

/// Summarises the text of a successful result.
pub fn summarize_text(text: &str) -> (s: String)
    requires
        byte_len(text@) > RESULT_LIMIT ==> cuts_cleanly(text@, RESULT_KEEP as int),
    ensures
        s@ == "succeeded — "@ + shortened(text@, RESULT_LIMIT as nat, RESULT_KEEP as int),
{
    let mut s = "succeeded — ".to_owned();
    s.append(shorten(text, RESULT_LIMIT, RESULT_KEEP).as_str());
    s
}

/// Summarises a result; nothing if a character would have to be split.
pub fn summarize_result(result: &Result<Json, String>) -> (r: Option<String>)
    ensures
        match r {
            Some(s) => quotable(*result) && s@ == result_summary(*result),
            None => !quotable(*result),
        },
{
    match result {
        Ok(v) => {
            let text = write_json(v);
            if over_bytes(text.as_str(), RESULT_LIMIT) && !clean_cut(text.as_str(), RESULT_KEEP) {
                None
            } else {
                Some(summarize_text(text.as_str()))
            }
        },
        Err(e) => {
            let mut s = "failed: ".to_owned();
            s.append(e.as_str());
            Some(s)
        },
    }
}

/// The summary of the event of an action.
fn event_text(action: &PlannedAction, what: &str) -> (s: String)
    ensures
        s@ == event_summary(*action, what@),
{
    let mut s = "Action ".to_owned();
    s.append(action.tool_name.as_str());
    s.append(": ");
    s.append(what);
    s.append(" (");
    s.append(action.rationale.as_str());
    s.append(")");
    s
}

/// The record of an action.
fn make_record(
    action: &PlannedAction,
    outcome: ActionOutcome,
    receipt: Option<ArtifactId>,
) -> (r: ActionRecord)
    ensures
        records(r, *action, outcome, receipt),
{
    ActionRecord {
        action_type: action.tool_name.clone(),
        target: write_json(&action.params),
        receipt_ref: receipt,
        outcome,
        origin_exec_thread_id: action.origin_exec_thread_id,
        proposal_id: clone_opt(&action.proposal_id),
    }
}

/// The execution of an action that was not carried out.
fn make_refusal(action: PlannedAction, outcome: ActionOutcome, reason: &str) -> (e: ActionExecution)
    ensures
        refused(e, action, outcome, reason@),
{
    let record = make_record(&action, outcome, None);
    let tool_result = ContentBlock::ToolResult {
        tool_use_id: action.call_id.clone(),
        content: reason.to_owned(),
        is_error: true,
    };
    ActionExecution {
        action,
        result: Err(reason.to_owned()),
        record,
        tool_result,
        pending_question: false,
        code_diff: None,
    }
}

impl ActRun {
    /// Tells whether no action waits any more.
    pub fn is_finished(&self) -> (r: bool)
        ensures
            r == (self.waiting@.len() == 0),
    {
        self.waiting.len() == 0
    }

    /// The first waiting action is not carried out because the rate limit of the
    /// tools is reached. The others go on waiting.
    pub fn rate_limited(&mut self) -> (event: ActionEvent)
        requires
            old(self).waiting@.len() > 0,
        ensures
            final(self).waiting@ == old(self).waiting@.drop_first(),
            final(self).executions@.len() == old(self).executions@.len() + 1,
            final(self).executions@.drop_last() == old(self).executions@,
            refused(
                final(self).executions@.last(),
                old(self).waiting@[0],
                ActionOutcome::RateLimited,
                "rate_limited"@,
            ),
            event.payload_ref is None,
            event.summary@ == event_summary(old(self).waiting@[0], "rate-limited"@),
            forall|approved: Seq<PlannedAction>|
                #[trigger] old(self).tracks(approved) ==> final(self).tracks(approved),
    {
        let ghost before = *self;
        let action = self.waiting.remove(0);
        let event = ActionEvent { payload_ref: None, summary: event_text(&action, "rate-limited") };
        self.executions.push(make_refusal(action, ActionOutcome::RateLimited, "rate_limited"));
        assert(self.waiting@ =~= before.waiting@.drop_first());
        assert(self.executions@.drop_last() =~= before.executions@);
        event
    }

    /// Applies the decision on the tool of the first waiting action. An action that is
    /// not allowed, or that nobody has approved, is not carried out. The others go on
    /// waiting.
    pub fn apply_policy(&mut self, decision: &PolicyDecision) -> (event: Option<ActionEvent>)
        requires
            old(self).waiting@.len() > 0,
        ensures
            match (policy_reason(*decision, old(self).waiting@[0].tool_name@), event) {
                (None, None) => *final(self) == *old(self),
                (Some(reason), Some(event)) => {
                    &&& final(self).waiting@ == old(self).waiting@.drop_first()
                    &&& final(self).executions@.len() == old(self).executions@.len() + 1
                    &&& final(self).executions@.drop_last() == old(self).executions@
                    &&& refused(
                        final(self).executions@.last(),
                        old(self).waiting@[0],
                        ActionOutcome::PolicyDenied,
                        reason,
                    )
                    &&& event.payload_ref is None
                    &&& event.summary@ == event_summary(old(self).waiting@[0], reason)
                },
                _ => false,
            },
            forall|approved: Seq<PlannedAction>|
                #[trigger] old(self).tracks(approved) ==> final(self).tracks(approved),
    {
        let reason = match decision {
            PolicyDecision::Allowed => {
                return None;
            },
            PolicyDecision::Denied { reason } => reason.clone(),
            PolicyDecision::NeedsApproval => {
                let mut reason = "tool '".to_owned();
                reason.append(self.waiting[0].tool_name.as_str());
                reason.append("' requires approval");
                reason
            },
        };
        let ghost before = *self;
        let action = self.waiting.remove(0);
        let event = ActionEvent {
            payload_ref: None,
            summary: event_text(&action, reason.as_str()),
        };
        self.executions.push(
            make_refusal(action, ActionOutcome::PolicyDenied, reason.as_str()),
        );
        assert(self.waiting@ =~= before.waiting@.drop_first());
        assert(self.executions@.drop_last() =~= before.executions@);
        Some(event)
    }

    /// Takes what a tool reported of the first waiting action. If the tick was
    /// cancelled meanwhile, the actions that still wait are given up.
    ///
    /// Nothing happens, and nothing is returned, if the summary of the result would
    /// have to split a character.
    pub fn completed(&mut self, report: ToolReport, cancelled: bool) -> (r: Option<ActLog>)
        requires
            old(self).waiting@.len() > 0,
        ensures
            r is Some <==> quotable(report.result),
            r is None ==> *final(self) == *old(self),
            match r {
                Some(log) => {
                    let n = old(self).executions@.len() as int;
                    let rest = old(self).waiting@.drop_first();
                    &&& log.executed.payload_ref == report.receipt_ref
                    &&& log.executed.summary@ == event_summary(
                        old(self).waiting@[0],
                        result_summary(report.result),
                    )
                    &&& final(self).executions@.subrange(0, n) == old(self).executions@
                    &&& reported(final(self).executions@[n], old(self).waiting@[0], report)
                    &&& !cancelled ==> final(self).waiting@ == rest
                        && final(self).executions@.len() == n + 1 && log.skipped@.len() == 0
                    &&& cancelled ==> {
                        &&& final(self).waiting@.len() == 0
                        &&& final(self).executions@.len() == n + 1 + rest.len()
                        &&& log.skipped@.len() == rest.len()
                        &&& forall|k: int|
                            0 <= k < rest.len() ==> refused(
                                final(self).executions@[n + 1 + k],
                                #[trigger] rest[k],
                                ActionOutcome::Skipped,
                                "cancelled"@,
                            )
                        &&& forall|k: int|
                            0 <= k < rest.len() ==> (#[trigger] log.skipped@[k]).payload_ref is None
                                && log.skipped@[k].summary@ == event_summary(
                                rest[k],
                                "skipped (cancelled)"@,
                            )
                    }
                },
                None => true,
            },
            forall|approved: Seq<PlannedAction>|
                #[trigger] old(self).tracks(approved) ==> final(self).tracks(approved),
    {
        let ghost before = *self;
        let what = match summarize_result(&report.result) {
            Some(s) => s,
            None => {
                return None;
            },
        };
        let action = self.waiting.remove(0);
        let executed = ActionEvent {
            payload_ref: clone_artifact(&report.receipt_ref),
            summary: event_text(&action, what.as_str()),
        };
        let ghost rest = before.waiting@.drop_first();
        let ghost n = before.executions@.len() as int;
        assert(self.waiting@ =~= rest);
        let content = match &report.result {
            Ok(v) => write_json(v),
            Err(e) => e.clone(),
        };
        let failed = report.result.is_err();
        let record = make_record(
            &action,
            if failed {
                ActionOutcome::Failure
            } else {
                ActionOutcome::Success
            },
            report.receipt_ref,
        );
        let tool_result = ContentBlock::ToolResult {
            tool_use_id: action.call_id.clone(),
            content,
            is_error: failed,
        };
        self.executions.push(
            ActionExecution {
                action,
                result: report.result,
                record,
                tool_result,
                pending_question: report.pending_question,
                code_diff: report.code_diff,
            },
        );
        assert(self.executions@.subrange(0, n) =~= before.executions@);
        let mut skipped: Vec<ActionEvent> = Vec::new();
        if cancelled {
            while self.waiting.len() > 0
                invariant
                    rest == before.waiting@.drop_first(),
                    n == before.executions@.len(),
                    skipped@.len() <= rest.len(),
                    self.waiting@ == rest.subrange(skipped@.len() as int, rest.len() as int),
                    self.executions@.len() == n + 1 + skipped@.len(),
                    self.executions@.subrange(0, n) == before.executions@,
                    reported(self.executions@[n], before.waiting@[0], report),
                    before.waiting@.len() > 0,
                    forall|k: int|
                        0 <= k < skipped@.len() ==> refused(
                            self.executions@[n + 1 + k],
                            #[trigger] rest[k],
                            ActionOutcome::Skipped,
                            "cancelled"@,
                        ),
                    forall|k: int|
                        0 <= k < skipped@.len() ==> (#[trigger] skipped@[k]).payload_ref is None
                            && skipped@[k].summary@ == event_summary(
                            rest[k],
                            "skipped (cancelled)"@,
                        ),
                decreases self.waiting@.len(),
            {
                let ghost k = skipped@.len() as int;
                let ghost earlier = self.executions@;
                let action = self.waiting.remove(0);
                assert(action == rest[k]);
                assert(self.waiting@ =~= rest.subrange(k + 1, rest.len() as int));
                skipped.push(
                    ActionEvent {
                        payload_ref: None,
                        summary: event_text(&action, "skipped (cancelled)"),
                    },
                );
                self.executions.push(make_refusal(action, ActionOutcome::Skipped, "cancelled"));
                assert(self.executions@.subrange(0, n) =~= earlier.subrange(0, n));
                assert forall|j: int| 0 <= j < skipped@.len() implies refused(
                    self.executions@[n + 1 + j],
                    #[trigger] rest[j],
                    ActionOutcome::Skipped,
                    "cancelled"@,
                ) by {
                    if j < k {
                        assert(self.executions@[n + 1 + j] == earlier[n + 1 + j]);
                    }
                }
            }
            assert forall|approved: Seq<PlannedAction>| #[trigger]
                before.tracks(approved) implies self.tracks(approved) by {
                assert forall|i: int| 0 <= i < self.executions@.len() implies (
                #[trigger] self.executions@[i]).action == approved[i] by {
                    if i < n {
                        assert(self.executions@[i] == before.executions@[i]);
                    } else if i == n {
                        assert(before.waiting@[0] == approved[n]);
                    } else {
                        let k = i - n - 1;
                        assert(self.executions@[n + 1 + k].action == rest[k]);
                        assert(rest[k] == before.waiting@[k + 1]);
                    }
                }
            }
        } else {
            assert forall|approved: Seq<PlannedAction>| #[trigger]
                before.tracks(approved) implies self.tracks(approved) by {
                assert forall|i: int| 0 <= i < self.executions@.len() implies (
                #[trigger] self.executions@[i]).action == approved[i] by {
                    if i < n {
                        assert(self.executions@[i] == before.executions@[i]);
                    } else {
                        assert(before.waiting@[0] == approved[n]);
                    }
                }
            }
        }
        Some(ActLog { executed, skipped })
    }
}

/// A finished run answered every approved action, once and in order.
pub proof fn finished_run_answers_all(run: ActRun, approved: Seq<PlannedAction>)
    requires
        run.tracks(approved),
        run.waiting@.len() == 0,
    ensures
        run.executions@.len() == approved.len(),
        forall|i: int|
            0 <= i < approved.len() ==> (#[trigger] run.executions@[i]).action == approved[i],
{
}

} // verus!

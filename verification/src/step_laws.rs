//! Laws of the steps of a tick: what each of them does with what it is given.

use vstd::prelude::*;
use vstd::string::*;
use vstd::utf8::encode_utf8;

use crate::act::{self, ToolReport};
use crate::align::{approved_under, blocked_under, request_for, AlignVerdict, AlignmentResult};
use crate::context_laws::every_change_is_tracked;
use crate::encode::{field_is_found, record};
use crate::exec_threads::{is_exploratory, ExecThreadOutput, ExecThreadSummary};
use crate::inner_loop::correction_text;
use crate::json::{parsed, string_array, written, Json, JsonView};
use crate::memory::{Plan, PlanTask};
use crate::policy::{decides, listed_rule, PolicyDecision, PolicyRule, ToolPolicyConfig};
use crate::proposals::are_memory_ops;
use crate::reading_laws::{lists, reflection_is_as_told};
use crate::reflect::{
    all_outcome_lines, describes_reflection, failure_note, failure_notes, is_counted, is_modelled,
    is_status_update, outcome_lines, reflect_message, reflection_from, reflection_in, success_count,
    task_line, task_lines, ReflectProtocol, ReflectReply, ReflectionResult,
};
use crate::session::{
    session_answers, session_step, step_text, waits_for_answer, DoomLoopStatus, Session,
    SessionCompletionReason, SessionEvent, SessionRequest,
};
use crate::settle::{
    announces, calls_for_change, is_sole, live_outputs, only_explores, proposed, proposes,
    reconciled, rests, session_rests, settled, sole_index, with_origin, ListedThread,
    ModeTransition, SettledDecision,
};
use crate::text::{
    dec, end_is_found, found_by_way, found_in_longer, has_text, opt_text, part_is_found, shortened,
    texts, trimmed,
};
use crate::threads::{
    harvested, in_grace, is_sensitive, known_drafts, notes_run, proposes_charter, response_from,
    runnable_of, thread_named, AnnouncedProposal, BuiltinThreads, CharterDraft, ThreadNote,
    ThreadRun, ThreadSpec,
};
use crate::types::{
    fenced, id_text, ActionExecution, ActionOutcome, ContentBlock, DecisionResult, ExoError,
    PlannedAction, ThreadId, VesselMode,
};

verus! {

// ---------------------------------------------------------------------------
// Act
// ---------------------------------------------------------------------------

/// The block answers the call of the action with this content.
pub open spec fn answers_call(b: ContentBlock, a: PlannedAction, content: Seq<char>, failed: bool) -> bool {
    match b {
        ContentBlock::ToolResult { tool_use_id, content: c, is_error } => {
            &&& tool_use_id@ == a.call_id@
            &&& c@ == content
            &&& is_error == failed
        },
        _ => false,
    }
}

/// What a tool returned is kept as it is, and answers the call: with the value as JSON, or
/// with the error. The record says whether the action succeeded, what it was, and where
/// its receipt is.
pub proof fn report_is_kept(e: ActionExecution, a: PlannedAction, report: ToolReport)
    requires
        act::reported(e, a, report),
    ensures
        e.action == a,
        e.result == report.result,
        e.pending_question == report.pending_question,
        e.code_diff == report.code_diff,
        e.record.outcome is Success <==> report.result is Ok,
        e.record.outcome is Failure <==> report.result is Err,
        e.record.action_type@ == a.tool_name@,
        e.record.target@ == written(a.params@),
        e.record.receipt_ref == report.receipt_ref,
        e.record.origin_exec_thread_id == a.origin_exec_thread_id,
        e.record.proposal_id == a.proposal_id,
        match report.result {
            Ok(v) => answers_call(e.tool_result, a, written(v@), false),
            Err(m) => answers_call(e.tool_result, a, m@, true),
        },
{
}

/// An action that is not carried out is a failure with the reason, which also answers its
/// call. It has no receipt, no change and no question.
pub proof fn refusal_tells_why(
    e: ActionExecution,
    a: PlannedAction,
    outcome: ActionOutcome,
    reason: Seq<char>,
)
    requires
        act::refused(e, a, outcome, reason),
    ensures
        e.action == a,
        e.result matches Err(m) && m@ == reason,
        answers_call(e.tool_result, a, reason, true),
        e.record.outcome == outcome,
        e.record.action_type@ == a.tool_name@,
        e.record.target@ == written(a.params@),
        e.record.receipt_ref is None,
        e.record.origin_exec_thread_id == a.origin_exec_thread_id,
        e.record.proposal_id == a.proposal_id,
        !e.pending_question,
        e.code_diff is None,
{
}

/// The event on an action names the tool, tells what became of it, and gives the rationale.
pub proof fn event_tells_action(a: PlannedAction, what: Seq<char>)
    ensures
        has_text(act::event_summary(a, what), a.tool_name@),
        has_text(act::event_summary(a, what), what),
        has_text(act::event_summary(a, what), a.rationale@),
{
    let text = act::event_summary(a, what);
    let tool = a.tool_name@;
    let why = a.rationale@;
    part_is_found("Action "@, tool, ": "@ + what + " ("@ + why + ")"@);
    assert("Action "@ + tool + (": "@ + what + " ("@ + why + ")"@) =~= text);
    part_is_found("Action "@ + tool + ": "@, what, " ("@ + why + ")"@);
    assert("Action "@ + tool + ": "@ + what + (" ("@ + why + ")"@) =~= text);
    part_is_found("Action "@ + tool + ": "@ + what + " ("@, why, ")"@);
}

/// The summary of a result quotes the error, or the value as JSON, whole if it has at most
/// five hundred bytes.
pub proof fn summary_quotes_result(result: Result<Json, String>)
    ensures
        match result {
            Err(e) => has_text(act::result_summary(result), e@),
            Ok(v) => encode_utf8(written(v@)).len() <= 500 ==> has_text(
                act::result_summary(result),
                written(v@),
            ),
        },
{
    match result {
        Err(e) => {
            end_is_found("failed: "@, e@);
        },
        Ok(v) => {
            end_is_found("succeeded — "@, shortened(written(v@), 500, 497));
        },
    }
}

/// A tool that is allowed is used. One that is denied is not, for the reason of the denial;
/// one that nobody approved is not either, and the reason names it.
pub proof fn policy_stops_tools(decision: PolicyDecision, tool: Seq<char>)
    ensures
        match (decision, act::policy_reason(decision, tool)) {
            (PolicyDecision::Allowed, None) => true,
            (PolicyDecision::Denied { reason }, Some(r)) => r == reason@,
            (PolicyDecision::NeedsApproval, Some(r)) => has_text(r, tool) && has_text(
                r,
                "requires approval"@,
            ),
            _ => false,
        },
{
    let text = "tool '"@ + tool + "' requires approval"@;
    part_is_found("tool '"@, tool, "' requires approval"@);
    reveal_strlit("' requires approval");
    reveal_strlit("requires approval");
    assert("' requires approval"@ =~= "' requires approval"@.subrange(0, 2) + "requires approval"@);
    end_is_found("tool '"@ + tool + "' requires approval"@.subrange(0, 2), "requires approval"@);
    assert("tool '"@ + tool + "' requires approval"@.subrange(0, 2) + "requires approval"@ =~= text);
}

// ---------------------------------------------------------------------------
// Policy
// ---------------------------------------------------------------------------

/// The last rule that is listed for a tool counts; a tool that is not listed has the
/// default rule.
pub proof fn last_rule_counts(c: ToolPolicyConfig, tool: Seq<char>)
    ensures
        forall|i: int|
            0 <= i < c.rules@.len() && (#[trigger] c.rules@[i]).0@ == tool && (forall|k: int|
                i < k < c.rules@.len() ==> (#[trigger] c.rules@[k]).0@ != tool) ==> c.rule_of(tool)
                == c.rules@[i].1,
        (forall|k: int| 0 <= k < c.rules@.len() ==> (#[trigger] c.rules@[k]).0@ != tool)
            ==> c.rule_of(tool) == c.default,
{
    rule_is_last(c.rules@, tool);
}

proof fn rule_is_last(rules: Seq<(String, PolicyRule)>, tool: Seq<char>)
    ensures
        forall|i: int|
            0 <= i < rules.len() && (#[trigger] rules[i]).0@ == tool && (forall|k: int|
                i < k < rules.len() ==> (#[trigger] rules[k]).0@ != tool) ==> listed_rule(
                rules,
                tool,
            ) == Some(rules[i].1),
        (forall|k: int| 0 <= k < rules.len() ==> (#[trigger] rules[k]).0@ != tool) ==> listed_rule(
            rules,
            tool,
        ) is None,
    decreases rules.len(),
{
    if rules.len() > 0 {
        let front = rules.drop_last();
        rule_is_last(front, tool);
        assert forall|i: int|
            0 <= i < rules.len() && (#[trigger] rules[i]).0@ == tool && (forall|k: int|
                i < k < rules.len() ==> (#[trigger] rules[k]).0@ != tool) implies listed_rule(
            rules,
            tool,
        ) == Some(rules[i].1) by {
            if i < rules.len() - 1 {
                assert(rules[rules.len() - 1].0@ != tool);
                assert(front[i] == rules[i]);
                assert forall|k: int| i < k < front.len() implies (#[trigger] front[k]).0@
                    != tool by {
                    assert(front[k] == rules[k]);
                }
            }
        }
        if forall|k: int| 0 <= k < rules.len() ==> (#[trigger] rules[k]).0@ != tool {
            assert(rules[rules.len() - 1].0@ != tool);
            assert forall|k: int| 0 <= k < front.len() implies (#[trigger] front[k]).0@ != tool by {
                assert(front[k] == rules[k]);
            }
        }
    }
}

/// Outside of planning the rule decides: an allowed tool is allowed, a denied one is
/// denied, and one that is to be asked for is allowed exactly if it was approved. In
/// planning a tool that changes nothing is treated the same.
pub proof fn rules_decide(
    d: PolicyDecision,
    tool: Seq<char>,
    is_read_only: bool,
    mode: VesselMode,
    rule: PolicyRule,
    approved: bool,
)
    requires
        decides(d, tool, is_read_only, mode, rule, approved),
        is_read_only || !(mode is Planning),
    ensures
        d is Allowed <==> rule is Allow || (rule is Ask && approved),
        d is NeedsApproval <==> rule is Ask && !approved,
        d is Denied <==> rule is Deny,
{
}

// ---------------------------------------------------------------------------
// Align
// ---------------------------------------------------------------------------

/// What the verdict approves is carried out as it was planned, in the order of the verdict.
/// Without a verdict every action is.
pub proof fn approved_actions_are_the_planned(
    actions: Seq<PlannedAction>,
    verdict: Option<AlignVerdict>,
    k: int,
)
    requires
        verdict matches Some(v) ==> v.speaks_of(actions.len()),
        0 <= k < approved_under(actions, verdict).len(),
    ensures
        approved_under(actions, verdict).len() == match verdict {
            Some(v) => v.approved@.len(),
            None => actions.len(),
        },
        ({
            let planned = match verdict {
                Some(v) => actions[v.approved@[k] as int],
                None => actions[k],
            };
            let a = approved_under(actions, verdict)[k];
            &&& a.call_id == planned.call_id@
            &&& a.tool_name == planned.tool_name@
            &&& a.params == planned.params@
            &&& a.rationale == planned.rationale@
            &&& a.plan_task_id == planned.plan_task_id
            &&& a.origin_exec_thread_id == planned.origin_exec_thread_id
            &&& a.proposal_id == opt_text(planned.proposal_id)
        }),
{
}

/// What the verdict blocks is blocked as it was planned, with the reason. Without a verdict
/// nothing is.
pub proof fn blocked_actions_have_reasons(
    actions: Seq<PlannedAction>,
    verdict: Option<AlignVerdict>,
)
    requires
        verdict matches Some(v) ==> v.speaks_of(actions.len()),
    ensures
        verdict is None ==> blocked_under(actions, verdict).len() == 0,
        verdict matches Some(v) ==> blocked_under(actions, verdict).len() == v.blocked@.len()
            && forall|k: int|
            0 <= k < v.blocked@.len() ==> (#[trigger] blocked_under(actions, verdict)[k]).1
                == v.blocked@[k].1@ && blocked_under(actions, verdict)[k].0.tool_name
                == actions[v.blocked@[k].0 as int].tool_name@ && blocked_under(
                actions,
                verdict,
            )[k].0.params == actions[v.blocked@[k].0 as int].params@,
{
}

/// The request for a capability names the tool and tells why it was blocked and what it was
/// for.
pub proof fn capability_request_tells_why(a: PlannedAction, reason: Seq<char>)
    ensures
        request_for(a@, reason).0.field("capability"@) == Some(JsonView::Str(a.tool_name@)),
        request_for(a@, reason).0.field("reason"@) == Some(JsonView::Str(reason)),
        request_for(a@, reason).0.field("context"@) == Some(JsonView::Str(a.rationale@)),
        request_for(a@, reason).0.field("acknowledged"@) == Some(JsonView::Bool(false)),
        has_text(request_for(a@, reason).1, a.tool_name@),
        has_text(request_for(a@, reason).1, reason),
{
    let parts = seq![
        ("capability"@, Some(JsonView::Str(a.tool_name@))),
        ("reason"@, Some(JsonView::Str(reason))),
        ("context"@, Some(JsonView::Str(a.rationale@))),
        ("acknowledged"@, Some(JsonView::Bool(false))),
    ];
    reveal_strlit("capability");
    reveal_strlit("reason");
    reveal_strlit("context");
    reveal_strlit("acknowledged");
    assert("capability"@.len() == 10);
    assert("reason"@.len() == 6);
    assert("context"@.len() == 7);
    assert("acknowledged"@.len() == 12);
    reveal_with_fuel(record, 5);
    assert(request_for(a@, reason).0->Object_0 =~= record(parts));
    field_is_found(parts, 0);
    field_is_found(parts, 1);
    field_is_found(parts, 2);
    field_is_found(parts, 3);
    let text = request_for(a@, reason).1;
    part_is_found("Capability request: "@, a.tool_name@, " blocked — "@ + reason);
    assert("Capability request: "@ + a.tool_name@ + (" blocked — "@ + reason) =~= text);
    end_is_found("Capability request: "@ + a.tool_name@ + " blocked — "@, reason);
}

// ---------------------------------------------------------------------------
// Settle
// ---------------------------------------------------------------------------

/// The outputs that count are the latest ones of the coding threads that have not failed,
/// all of them and in order.
pub proof fn live_outputs_are_the_latest(threads: Seq<ListedThread>)
    ensures
        ({
            let live = threads.filter(
                |t: ListedThread|
                    t.spec.kind is Coding && !(t.status is Failed) && t.latest is Some,
            );
            let outputs = live_outputs(threads);
            &&& outputs.len() == live.len()
            &&& forall|i: int|
                0 <= i < outputs.len() ==> (#[trigger] outputs[i]).0 == live[i].spec.thread_id
                    && Some(outputs[i].1) == live[i].latest
        }),
    decreases threads.len(),
{
    reveal(Seq::filter);
    if threads.len() > 0 {
        live_outputs_are_the_latest(threads.drop_last());
    }
}

proof fn sole_is_it(n: int, p: spec_fn(int) -> bool, at: int)
    requires
        is_sole(n, p, at),
    ensures
        sole_index(n, p) == Some(at),
{
    let i = sole_index(n, p)->Some_0;
    assert(is_sole(n, p, i));
    assert(p(at));
}

/// The output makes a sure case for a change of files.
pub open spec fn surely_changes(o: ExecThreadOutput) -> bool {
    &&& o.evidence_complete
    &&& o.proposal_confidence matches Some(c) && c is High
    &&& o.proposed_action matches Some(p) && (p.tool_name@ == "code.edit"@ || p.tool_name@
        == "code.write"@ || p.tool_name@ == "code.apply_patch"@ || p.tool_name@ == "fs.write"@)
}

/// The tool only looks at files.
pub open spec fn only_looks(tool: Seq<char>) -> bool {
    tool == "code.read"@ || tool == "code.grep"@ || tool == "code.ls"@ || tool == "code.glob"@
        || tool == "fs.read"@
}

/// If a decision does nothing but look at files, and exactly one coding thread makes a sure
/// case for a change, then that change is made instead: with the tool, the arguments and
/// the reasons of the proposal, and traced to the thread.
pub proof fn sure_change_is_made(
    after: Seq<PlannedAction>,
    actions: Seq<PlannedAction>,
    outputs: Seq<(ThreadId, ExecThreadOutput)>,
    at: int,
)
    requires
        reconciled(after, actions, outputs),
        actions.len() > 0,
        forall|i: int| 0 <= i < actions.len() ==> only_looks((#[trigger] actions[i]).tool_name@),
        0 <= at < outputs.len(),
        surely_changes(outputs[at].1),
        forall|i: int|
            0 <= i < outputs.len() && i != at ==> !surely_changes((#[trigger] outputs[i]).1),
    ensures
        after.len() == 1,
        ({
            let p = outputs[at].1.proposed_action->Some_0;
            &&& after[0].tool_name@ == p.tool_name@
            &&& after[0].params@ == p.params@
            &&& after[0].rationale@ == p.rationale@
            &&& after[0].origin_exec_thread_id == Some(outputs[at].0)
            &&& opt_text(after[0].proposal_id) == Some(p.proposal_id@)
            &&& after[0].plan_task_id is None
            &&& has_text(after[0].call_id@, p.proposal_id@)
        }),
{
    let p = |i: int| calls_for_change(outputs[i].1);
    let n = outputs.len() as int;
    assert forall|i: int| 0 <= i < actions.len() implies is_exploratory(
        (#[trigger] actions[i]).tool_name@,
    ) by {
        assert(only_looks(actions[i].tool_name@));
    }
    assert(only_explores(actions));
    assert(is_sole(n, p, at)) by {
        assert(p(at));
        assert forall|j: int| 0 <= j < n && #[trigger] p(j) implies j == at by {
            if j != at {
                assert(!surely_changes(outputs[j].1));
            }
        }
    }
    sole_is_it(n, p, at);
    end_is_found("exec-proposal-"@, outputs[at].1.proposed_action->Some_0.proposal_id@);
    assert(after[0]@ == proposed(outputs[at].0, outputs[at].1));
}

/// Without a sure case for a change, or with more than one, the actions of a decision stay
/// as they are.
pub proof fn unsure_changes_are_not_made(
    after: Seq<PlannedAction>,
    actions: Seq<PlannedAction>,
    outputs: Seq<(ThreadId, ExecThreadOutput)>,
)
    requires
        reconciled(after, actions, outputs),
        (forall|i: int| 0 <= i < outputs.len() ==> !surely_changes((#[trigger] outputs[i]).1))
            || exists|i: int, j: int|
            0 <= i < j < outputs.len() && surely_changes((#[trigger] outputs[i]).1)
                && surely_changes((#[trigger] outputs[j]).1),
    ensures
        after == actions,
{
    let p = |i: int| calls_for_change(outputs[i].1);
    let n = outputs.len() as int;
    assert forall|k: int| !is_sole(n, p, k) by {
        if is_sole(n, p, k) {
            assert(p(k));
            assert(surely_changes(outputs[k].1));
            let (i, j) = choose|i: int, j: int|
                0 <= i < j < outputs.len() && surely_changes((#[trigger] outputs[i]).1)
                    && surely_changes((#[trigger] outputs[j]).1);
            assert(p(i));
            assert(p(j));
        }
    }
}

/// An action without an origin whose tool exactly one thread proposes stems from that
/// proposal. If none or several propose it, the action stays as it is.
pub proof fn sole_proposal_is_the_origin(
    action: PlannedAction,
    outputs: Seq<(ThreadId, ExecThreadOutput)>,
    at: int,
)
    requires
        action.origin_exec_thread_id is None,
        0 <= at < outputs.len(),
        outputs[at].1.proposed_action matches Some(p) && p.tool_name@ == action.tool_name@,
        forall|i: int|
            0 <= i < outputs.len() && i != at ==> !((#[trigger] outputs[i]).1.proposed_action
                matches Some(p) && p.tool_name@ == action.tool_name@),
    ensures
        with_origin(action, outputs).origin_exec_thread_id == Some(outputs[at].0),
        opt_text(with_origin(action, outputs).proposal_id) == Some(
            outputs[at].1.proposed_action->Some_0.proposal_id@,
        ),
        with_origin(action, outputs).tool_name == action.tool_name,
        with_origin(action, outputs).params == action.params,
        with_origin(action, outputs).call_id == action.call_id,
        with_origin(action, outputs).rationale == action.rationale,
        with_origin(action, outputs).plan_task_id == action.plan_task_id,
{
    let p = |i: int| proposes(outputs[i].1, action.tool_name@);
    let n = outputs.len() as int;
    assert(is_sole(n, p, at)) by {
        assert(p(at));
        assert forall|j: int| 0 <= j < n && #[trigger] p(j) implies j == at by {
            if j != at {
                assert(!(outputs[j].1.proposed_action matches Some(q) && q.tool_name@
                    == action.tool_name@));
            }
        }
    }
    sole_is_it(n, p, at);
}

/// A decision keeps what it says when it is settled: all but its actions. Held back it has
/// no actions. Its mode is the one it asks for exactly from normal to planning and from
/// executing to normal. A plan update in planning mode is kept as a draft.
pub proof fn settling_keeps_the_decision(
    s: SettledDecision,
    d: DecisionResult,
    outputs: Seq<(ThreadId, ExecThreadOutput)>,
    suppress: bool,
    mode: VesselMode,
)
    requires
        settled(s, d, outputs, suppress, mode),
    ensures
        s.decision.reasoning == d.reasoning,
        s.decision.reply == d.reply,
        s.decision.snapshot_delta == d.snapshot_delta,
        s.decision.memory_notes == d.memory_notes,
        s.decision.watch_proposals == d.watch_proposals,
        s.decision.llm_call_record == d.llm_call_record,
        s.decision.response_artifact_id == d.response_artifact_id,
        suppress ==> s.decision.actions@.len() == 0,
        !suppress && d.actions@.len() > 0 ==> s.decision.actions@.len() > 0,
        ({
            let changes = (mode is Normal && d.vessel_mode_request == Some(VesselMode::Planning))
                || (mode is Executing && d.vessel_mode_request == Some(VesselMode::Normal));
            &&& s.mode == if changes {
                d.vessel_mode_request->Some_0
            } else {
                mode
            }
            &&& s.transition is Some <==> changes
        }),
        s.keep_draft <==> s.mode is Planning && d.snapshot_delta.plan_update is Some,
{
}

/// A bounded coding session rests exactly if that was asked for, no message came in, and
/// some coding thread is idle with a reason for its completion.
pub proof fn session_rests_when_done(
    return_to_idle: bool,
    new_messages: bool,
    summaries: Seq<ExecThreadSummary>,
)
    ensures
        session_rests(return_to_idle, new_messages, summaries) <==> return_to_idle && !new_messages
            && exists|i: int|
            0 <= i < summaries.len() && (#[trigger] summaries[i]).kind is Coding
                && summaries[i].status is Idle && (summaries[i].last_completion_reason matches Some(
                r,
            ) && trimmed(r@).len() > 0),
{
    if session_rests(return_to_idle, new_messages, summaries) {
        let i = choose|i: int| 0 <= i < summaries.len() && rests(#[trigger] summaries[i]);
        assert(summaries[i].kind is Coding);
    }
    if return_to_idle && !new_messages && exists|i: int|
        0 <= i < summaries.len() && (#[trigger] summaries[i]).kind is Coding && summaries[i].status
            is Idle && (summaries[i].last_completion_reason matches Some(r) && trimmed(r@).len()
            > 0) {
        let i = choose|i: int|
            0 <= i < summaries.len() && (#[trigger] summaries[i]).kind is Coding
                && summaries[i].status is Idle && (summaries[i].last_completion_reason matches Some(
                r,
            ) && trimmed(r@).len() > 0);
        assert(rests(summaries[i]));
    }
}

// ---------------------------------------------------------------------------
// Reflect
// ---------------------------------------------------------------------------

/// The successes are the executions that are recorded as such.
pub proof fn successes_are_counted(executions: Seq<ActionExecution>)
    ensures
        success_count(executions) == executions.filter(
            |e: ActionExecution| e.record.outcome is Success,
        ).len(),
    decreases executions.len(),
{
    reveal(Seq::filter);
    if executions.len() > 0 {
        successes_are_counted(executions.drop_last());
    }
}

/// Every failure is observed, in order, with its tool and its error.
pub proof fn failures_are_observed(executions: Seq<ActionExecution>)
    ensures
        ({
            let failed = executions.filter(|e: ActionExecution| e.result is Err);
            let notes = failure_notes(executions);
            &&& notes.len() == failed.len()
            &&& forall|i: int|
                0 <= i < notes.len() ==> has_text(
                    #[trigger] notes[i],
                    failed[i].action.tool_name@,
                ) && has_text(notes[i], failed[i].result->Err_0@)
        }),
    decreases executions.len(),
{
    reveal(Seq::filter);
    if executions.len() > 0 {
        failures_are_observed(executions.drop_last());
        let e = executions.last();
        if let Err(error) = e.result {
            let note = failure_note(e);
            part_is_found("Failed action: "@, e.action.tool_name@, ": "@ + error@);
            assert("Failed action: "@ + e.action.tool_name@ + (": "@ + error@) =~= note);
            end_is_found("Failed action: "@ + e.action.tool_name@ + ": "@, error@);
        }
    }
}

/// Counting reflects on all actions: their number and how many succeeded, an observation
/// on each failure, and a concern exactly if fewer than half succeeded. It proposes no
/// changes.
pub proof fn counting_reflects_on_all(r: ReflectionResult, executions: Seq<ActionExecution>)
    requires
        is_counted(r, executions),
    ensures
        r.total == executions.len(),
        r.successes == executions.filter(|e: ActionExecution| e.record.outcome is Success).len(),
        executions.len() > 0 ==> r.observations@.len() == 1 + executions.filter(
            |e: ActionExecution| e.result is Err,
        ).len(),
        executions.len() == 0 ==> r.observations@.len() == 1,
        r.concerns@.len() == if executions.len() > 0 && 2 * r.successes < executions.len() {
            1int
        } else {
            0int
        },
        r.task_updates@.len() == 0,
        r.working_memory_ops@.len() == 0,
        !r.should_replan,
        r.llm_call_record is None,
{
    successes_are_counted(executions);
    failures_are_observed(executions);
    assert(texts(r.observations@).len() == r.observations@.len());
    assert(texts(r.concerns@).len() == r.concerns@.len());
}

/// The reflection of the model is what it says, with the counts of the actions and the
/// record of its call. A text that holds no reflection is an observation.
pub proof fn model_reflects(
    r: ReflectionResult,
    executions: Seq<ActionExecution>,
    reply: ReflectReply,
)
    requires
        is_modelled(r, executions, reply),
    ensures
        r.total == executions.len(),
        r.successes == executions.filter(|e: ActionExecution| e.record.outcome is Success).len(),
        r.llm_call_record == Some(reply.record),
        reflection_in(reply.text@) is None && fenced(reply.text@) is None ==> texts(
            r.observations@,
        ) == seq![reply.text@] && r.concerns@.len() == 0 && r.task_updates@.len() == 0
            && r.working_memory_ops@.len() == 0 && !r.should_replan,
{
    successes_are_counted(executions);
}

/// A line that opens with these parts holds each of them.
proof fn opening_parts_are_found(tool: Seq<char>, word: Seq<char>, why: Seq<char>, tail: Seq<char>)
    ensures
        has_text("- "@ + tool + " ["@ + word + "]: "@ + why + "\n"@ + tail, tool),
        has_text("- "@ + tool + " ["@ + word + "]: "@ + why + "\n"@ + tail, word),
        has_text("- "@ + tool + " ["@ + word + "]: "@ + why + "\n"@ + tail, why),
{
    opening_word_is_found("- "@, tool, " ["@ + word + "]: "@ + why + "\n"@ + tail);
    assert("- "@ + tool + (" ["@ + word + "]: "@ + why + "\n"@ + tail) =~= "- "@ + tool + " ["@
        + word + "]: "@ + why + "\n"@ + tail);
    opening_word_is_found("- "@ + tool + " ["@, word, "]: "@ + why + "\n"@ + tail);
    assert("- "@ + tool + " ["@ + word + ("]: "@ + why + "\n"@ + tail) =~= "- "@ + tool + " ["@
        + word + "]: "@ + why + "\n"@ + tail);
    opening_word_is_found("- "@ + tool + " ["@ + word + "]: "@, why, "\n"@ + tail);
    assert("- "@ + tool + " ["@ + word + "]: "@ + why + ("\n"@ + tail) =~= "- "@ + tool + " ["@
        + word + "]: "@ + why + "\n"@ + tail);
}

proof fn opening_word_is_found(a: Seq<char>, b: Seq<char>, c: Seq<char>)
    ensures
        has_text(a + b + c, b),
{
    part_is_found(a, b, c);
}

proof fn error_is_told(head: Seq<char>, error: Seq<char>)
    ensures
        has_text(head + ("  Error: "@ + error + "\n"@), error),
{
    end_is_found(head, "  Error: "@ + error + "\n"@);
    part_is_found("  Error: "@, error, "\n"@);
    found_by_way(head + ("  Error: "@ + error + "\n"@), "  Error: "@ + error + "\n"@, error);
}

proof fn outcome_is_told(e: ActionExecution)
    ensures
        has_text(outcome_lines(e), e.action.tool_name@),
        has_text(outcome_lines(e), e.action.rationale@),
        e.result matches Err(error) ==> has_text(outcome_lines(e), error@) && has_text(
            outcome_lines(e),
            "FAILED"@,
        ),
        e.result is Ok ==> has_text(outcome_lines(e), "SUCCESS"@),
{
    let tool = e.action.tool_name@;
    let why = e.action.rationale@;
    match e.result {
        Err(error) => {
            let tail = "  Error: "@ + error@ + "\n"@;
            opening_parts_are_found(tool, "FAILED"@, why, tail);
            error_is_told("- "@ + tool + " ["@ + "FAILED"@ + "]: "@ + why + "\n"@, error@);
        },
        Ok(_) => {
            opening_parts_are_found(tool, "SUCCESS"@, why, Seq::empty());
        },
    }
}

proof fn outcomes_are_told(executions: Seq<ActionExecution>, i: int)
    requires
        0 <= i < executions.len(),
    ensures
        has_text(all_outcome_lines(executions), outcome_lines(executions[i])),
    decreases executions.len(),
{
    let front = all_outcome_lines(executions.drop_last());
    let last = outcome_lines(executions.last());
    if i == executions.len() - 1 {
        end_is_found(front, last);
    } else {
        outcomes_are_told(executions.drop_last(), i);
        found_in_longer(Seq::empty(), front, last, outcome_lines(executions[i]));
        assert(Seq::empty() + front + last =~= all_outcome_lines(executions));
    }
}

proof fn tasks_are_told(tasks: Seq<PlanTask>, i: int)
    requires
        0 <= i < tasks.len(),
    ensures
        has_text(task_lines(tasks), task_line(tasks[i])),
    decreases tasks.len(),
{
    let front = task_lines(tasks.drop_last());
    let last = task_line(tasks.last());
    if i == tasks.len() - 1 {
        end_is_found(front, last);
    } else {
        tasks_are_told(tasks.drop_last(), i);
        found_in_longer(Seq::empty(), front, last, task_line(tasks[i]));
        assert(Seq::empty() + front + last =~= task_lines(tasks));
    }
}

proof fn task_is_told(t: PlanTask)
    ensures
        has_text(task_line(t), t.description@),
        has_text(task_line(t), id_text(t.id.raw)),
{
    let head = "- ["@ + crate::reflect::task_status_name(t.status) + "] "@;
    let id = id_text(t.id.raw);
    part_is_found(head, t.description@, " ("@ + id + ")\n"@);
    assert(head + t.description@ + (" ("@ + id + ")\n"@) =~= task_line(t));
    part_is_found(head + t.description@ + " ("@, id, ")\n"@);
}

/// The model that reflects is told how every action ended, with its reasons and its error.
#[verifier::rlimit(40)]
pub proof fn reflection_sees_outcomes(
    plan: Option<Plan>,
    reasoning: Seq<char>,
    executions: Seq<ActionExecution>,
    diff_section: Seq<char>,
    i: int,
)
    requires
        0 <= i < executions.len(),
    ensures
        ({
            let text = reflect_message(plan, reasoning, executions, diff_section);
            &&& has_text(text, executions[i].action.tool_name@)
            &&& has_text(text, executions[i].action.rationale@)
            &&& executions[i].result matches Err(error) ==> has_text(text, error@) && has_text(
                text,
                "FAILED"@,
            )
            &&& executions[i].result is Ok ==> has_text(text, "SUCCESS"@)
        }),
{
    let text = reflect_message(plan, reasoning, executions, diff_section);
    let e = executions[i];
    let lines = all_outcome_lines(executions);
    let head = "## Action Outcomes\n\n"@;
    let rest = text.subrange((head.len() + lines.len()) as int, text.len() as int);
    outcomes_are_told(executions, i);
    assert(head + lines + rest =~= text);
    found_in_longer(head, lines, rest, outcome_lines(e));
    outcome_is_told(e);
    found_by_way(text, outcome_lines(e), e.action.tool_name@);
    found_by_way(text, outcome_lines(e), e.action.rationale@);
    match e.result {
        Err(error) => {
            found_by_way(text, outcome_lines(e), error@);
            found_by_way(text, outcome_lines(e), "FAILED"@);
        },
        Ok(_) => {
            found_by_way(text, outcome_lines(e), "SUCCESS"@);
        },
    }
}

/// What the model that reflects is told of the plan.
pub open spec fn told_plan(p: Plan) -> Seq<char> {
    "\n## Current Plan\nObjective: "@ + p.objective@ + "\n"@ + task_lines(p.tasks@)
}

proof fn told_plan_tells(p: Plan)
    ensures
        has_text(told_plan(p), p.objective@),
        has_text(told_plan(p), task_lines(p.tasks@)),
{
    let title = "\n## Current Plan\nObjective: "@;
    let rest = "\n"@ + task_lines(p.tasks@);
    assert(title + p.objective@ + rest =~= told_plan(p));
    part_is_found(title, p.objective@, rest);
    end_is_found(title + p.objective@ + "\n"@, task_lines(p.tasks@));
}

proof fn told_task_is_found(p: Plan, i: int)
    requires
        0 <= i < p.tasks@.len(),
    ensures
        has_text(told_plan(p), p.tasks@[i].description@),
        has_text(told_plan(p), id_text(p.tasks@[i].id.raw)),
{
    let t = p.tasks@[i];
    told_plan_tells(p);
    tasks_are_told(p.tasks@, i);
    task_is_told(t);
    found_by_way(told_plan(p), task_lines(p.tasks@), task_line(t));
    found_by_way(told_plan(p), task_line(t), t.description@);
    found_by_way(told_plan(p), task_line(t), id_text(t.id.raw));
}

/// The model that reflects is told the reasons of the decision and the changes of files.
pub proof fn reflection_sees_reasons(
    plan: Option<Plan>,
    reasoning: Seq<char>,
    executions: Seq<ActionExecution>,
    diff_section: Seq<char>,
)
    ensures
        has_text(reflect_message(plan, reasoning, executions, diff_section), reasoning),
        has_text(reflect_message(plan, reasoning, executions, diff_section), diff_section),
{
    let text = reflect_message(plan, reasoning, executions, diff_section);
    let rest = "\n"@ + diff_section;
    let n = text.len() - rest.len() - reasoning.len();
    let front = text.subrange(0, n);
    assert(front + reasoning + rest =~= text);
    part_is_found(front, reasoning, rest);
    let head = text.subrange(0, text.len() - diff_section.len());
    assert(head + diff_section =~= text);
    end_is_found(head, diff_section);
}

/// The model that reflects is told the plan: its objective and every task.
pub proof fn reflection_sees_plan(
    p: Plan,
    reasoning: Seq<char>,
    executions: Seq<ActionExecution>,
    diff_section: Seq<char>,
    i: int,
)
    ensures
        has_text(
            reflect_message(Some(p), reasoning, executions, diff_section),
            p.objective@,
        ),
        0 <= i < p.tasks@.len() ==> has_text(
            reflect_message(Some(p), reasoning, executions, diff_section),
            p.tasks@[i].description@,
        ) && has_text(
            reflect_message(Some(p), reasoning, executions, diff_section),
            id_text(p.tasks@[i].id.raw),
        ),
{
    let text = reflect_message(Some(p), reasoning, executions, diff_section);
    plan_is_told(p, reasoning, executions, diff_section);
    told_plan_tells(p);
    found_by_way(text, told_plan(p), p.objective@);
    if 0 <= i < p.tasks@.len() {
        told_task_is_found(p, i);
        found_by_way(text, told_plan(p), p.tasks@[i].description@);
        found_by_way(text, told_plan(p), id_text(p.tasks@[i].id.raw));
    }
}

proof fn plan_is_told(
    p: Plan,
    reasoning: Seq<char>,
    executions: Seq<ActionExecution>,
    diff_section: Seq<char>,
)
    ensures
        has_text(reflect_message(Some(p), reasoning, executions, diff_section), told_plan(p)),
{
    let text = reflect_message(Some(p), reasoning, executions, diff_section);
    let outcomes = "## Action Outcomes\n\n"@ + all_outcome_lines(executions);
    let n = (outcomes.len() + told_plan(p).len()) as int;
    let rest = text.subrange(n, text.len() as int);
    assert(outcomes + told_plan(p) + rest =~= text);
    part_is_found(outcomes, told_plan(p), rest);
}

// ---------------------------------------------------------------------------
// Threads
// ---------------------------------------------------------------------------

/// The threads that run are the due ones that the budget allows, all of them and in order.
pub proof fn allowed_threads_run(due: Seq<ThreadSpec>, allowed: Seq<bool>, i: int)
    requires
        due.len() <= allowed.len(),
        0 <= i < due.len(),
    ensures
        allowed[i] ==> runnable_of(due, allowed).contains(due[i]),
        runnable_of(due, allowed).len() == allowed.subrange(0, due.len() as int).filter(
            |a: bool| a,
        ).len(),
    decreases due.len(),
{
    allowed_are_counted(due, allowed);
    if allowed[i] {
        let run = runnable_of(due, allowed);
        let front = runnable_of(due.drop_last(), allowed);
        if i == due.len() - 1 {
            assert(run[run.len() - 1] == due[i]);
        } else {
            allowed_threads_run(due.drop_last(), allowed, i);
            let k = choose|k: int| 0 <= k < front.len() && front[k] == due[i];
            assert(run[k] == due[i]);
        }
    }
}

proof fn allowed_are_counted(due: Seq<ThreadSpec>, allowed: Seq<bool>)
    requires
        due.len() <= allowed.len(),
    ensures
        runnable_of(due, allowed).len() == allowed.subrange(0, due.len() as int).filter(
            |a: bool| a,
        ).len(),
    decreases due.len(),
{
    reveal(Seq::filter);
    if due.len() > 0 {
        allowed_are_counted(due.drop_last(), allowed);
        assert(allowed.subrange(0, due.len() as int).drop_last() =~= allowed.subrange(
            0,
            due.len() - 1,
        ));
    }
}

/// The threads that succeeded contribute, each once and in order, with their artifact and
/// their summary. A thread that failed does not stand in the way of the others.
pub proof fn successful_threads_contribute(runs: Seq<ThreadRun>)
    ensures
        ({
            let good = runs.filter(|r: ThreadRun| r.result is Ok);
            let all = harvested(runs);
            &&& all.len() == good.len()
            &&& forall|i: int|
                0 <= i < all.len() ==> {
                    &&& (#[trigger] all[i]).thread_id == good[i].result->Ok_0.thread_id
                    &&& all[i].artifact_id == good[i].result->Ok_0.artifact_id
                    &&& all[i].summary == good[i].result->Ok_0.summary
                }
        }),
    decreases runs.len(),
{
    reveal(Seq::filter);
    if runs.len() > 0 {
        successful_threads_contribute(runs.drop_last());
    }
}

/// What is noted of a thread names it and tells its summary, or its error. Only a thread
/// that succeeded is announced, and only the meta-cognition thread is searched for
/// charters.
#[verifier::rlimit(40)]
pub proof fn thread_note_tells(n: ThreadNote, run: ThreadRun, meta_cognition: ThreadId)
    requires
        notes_run(n, run, meta_cognition),
    ensures
        has_text(n.event@, run.name@),
        match run.result {
            Ok(o) => has_text(n.event@, o.summary@) && n.completed && (n.announcement matches Some(t)
                && has_text(t@, run.name@)) && n.meta_cognition == (run.thread_id
                == meta_cognition),
            Err(e) => has_text(n.event@, e@) && !n.completed && n.announcement is None
                && !n.meta_cognition,
        },
{
    match run.result {
        Ok(o) => {
            part_is_found("Thread '"@, run.name@, "' produced: "@ + o.summary@);
            assert("Thread '"@ + run.name@ + ("' produced: "@ + o.summary@) =~= n.event@);
            end_is_found("Thread '"@ + run.name@ + "' produced: "@, o.summary@);
            part_is_found("Thread '"@, run.name@, "' completed"@);
        },
        Err(e) => {
            part_is_found("Thread '"@, run.name@, "' failed: "@ + e@);
            assert("Thread '"@ + run.name@ + ("' failed: "@ + e@) =~= n.event@);
            end_is_found("Thread '"@ + run.name@ + "' failed: "@, e@);
        },
    }
}

/// A response of a thread in JSON is read: its summary and its recommendations in order.
/// Any other text is the summary.
pub proof fn thread_response_is_read(text: Seq<char>, summary: Seq<char>, list: Seq<Seq<char>>)
    ensures
        parsed(text) == Ok::<JsonView, Seq<char>>(
            JsonView::Object(
                seq![
                    ("summary"@, JsonView::Str(summary)),
                    ("recommendations"@, string_array(list)),
                ],
            ),
        ) ==> response_from(text) == (summary, list),
        parsed(text) is Err ==> response_from(text) == (text, Seq::<Seq<char>>::empty()),
{
    let parts = seq![
        ("summary"@, Some(JsonView::Str(summary))),
        ("recommendations"@, Some(string_array(list))),
    ];
    let j = JsonView::Object(
        seq![("summary"@, JsonView::Str(summary)), ("recommendations"@, string_array(list))],
    );
    reveal_strlit("summary");
    reveal_strlit("recommendations");
    assert("summary"@.len() == 7);
    assert("recommendations"@.len() == 15);
    reveal_with_fuel(record, 3);
    assert(j->Object_0 =~= record(parts));
    field_is_found(parts, 0);
    field_is_found(parts, 1);
    let items = string_array(list)->Array_0;
    assert(Seq::new(items.len(), |i: int| items[i]->Str_0) =~= list);
}

/// A thread is found by its name: the first that has it, if any has it.
pub proof fn threads_are_found_by_name(threads: Seq<ThreadSpec>, name: Seq<char>, at: int)
    requires
        0 <= at < threads.len(),
        threads[at].name@ == name,
        forall|k: int| 0 <= k < at ==> (#[trigger] threads[k]).name@ != name,
    ensures
        thread_named(threads, name, 0) == Some(threads[at].thread_id),
{
    named_from(threads, name, 0, at);
}

proof fn named_from(threads: Seq<ThreadSpec>, name: Seq<char>, from: int, at: int)
    requires
        0 <= from <= at < threads.len(),
        threads[at].name@ == name,
        forall|k: int| 0 <= k < at ==> (#[trigger] threads[k]).name@ != name,
    ensures
        thread_named(threads, name, from) == Some(threads[at].thread_id),
    decreases at - from,
{
    if from < at {
        named_from(threads, name, from + 1, at);
    }
}

/// The drafts that become proposals are those for threads that exist, all of them and in
/// order.
pub proof fn drafts_for_known_threads_count(drafts: Seq<CharterDraft>, threads: Seq<ThreadSpec>)
    ensures
        known_drafts(drafts, threads) == drafts.filter(
            |d: CharterDraft|
                exists|i: int|
                    0 <= i < threads.len() && (#[trigger] threads[i]).name@ == d.thread_name@,
        ),
    decreases drafts.len(),
{
    reveal(Seq::filter);
    if drafts.len() > 0 {
        drafts_for_known_threads_count(drafts.drop_last(), threads);
        name_is_known(threads, drafts.last().thread_name@, 0);
    }
}

proof fn name_is_known(threads: Seq<ThreadSpec>, name: Seq<char>, from: int)
    requires
        0 <= from,
    ensures
        thread_named(threads, name, from) is Some <==> exists|i: int|
            from <= i < threads.len() && (#[trigger] threads[i]).name@ == name,
    decreases threads.len() - from,
{
    if from < threads.len() {
        name_is_known(threads, name, from + 1);
        if threads[from].name@ != name && exists|i: int|
            from <= i < threads.len() && (#[trigger] threads[i]).name@ == name {
            let i = choose|i: int|
                from <= i < threads.len() && (#[trigger] threads[i]).name@ == name;
            assert(from + 1 <= i);
        }
    }
}

// ---------------------------------------------------------------------------
// The inner loop
// ---------------------------------------------------------------------------

/// What the tools did decides how a session goes on. A question ends it; a model that
/// repeats itself for good ends it; otherwise the model decides again, with a correction
/// exactly if one is needed, which names the tool and the error.
pub proof fn tools_decide_how_it_goes_on(
    s: Session,
    executions: Vec<ActionExecution>,
    doom: DoomLoopStatus,
    next: Session,
    request: SessionRequest,
)
    requires
        session_answers(s, SessionEvent::Acted { result: Ok(executions), doom }),
        session_step(s, SessionEvent::Acted { result: Ok(executions), doom }, next, request),
    ensures
        next.executions@ == s.executions@ + executions@,
        ({
            let asked = exists|i: int|
                0 <= i < executions@.len() && (#[trigger] executions@[i]).pending_question;
            &&& asked ==> request == SessionRequest::Finish(SessionCompletionReason::AwaitingInput)
            &&& !asked && doom is HardStop ==> request == SessionRequest::Finish(
                SessionCompletionReason::DoomLoop,
            )
            &&& !asked && doom is Clear ==> (request matches SessionRequest::Decide { correction }
                && correction is None)
            &&& !asked && doom is CorrectionNeeded ==> (request matches SessionRequest::Decide {
                correction,
            } && correction matches Some(t) && has_text(t@, doom->tool@) && (doom->last_error
                matches Some(e) ==> has_text(t@, e@)))
            &&& request is Finish <==> next.phase is Done
        }),
{
    assert(waits_for_answer(executions@) == exists|i: int|
        0 <= i < executions@.len() && (#[trigger] executions@[i]).pending_question);
    if let DoomLoopStatus::CorrectionNeeded { tool, count, last_error } = doom {
        correction_tells(tool@, count, opt_text(last_error));
    }
}

proof fn correction_tells(tool: Seq<char>, count: u32, last_error: Option<Seq<char>>)
    ensures
        has_text(correction_text(tool, count, last_error), tool),
        last_error matches Some(e) ==> has_text(correction_text(tool, count, last_error), e),
{
    let text = correction_text(tool, count, last_error);
    let head = "You have attempted "@;
    let rest = text.subrange((head.len() + tool.len()) as int, text.len() as int);
    assert(head + tool + rest =~= text);
    part_is_found(head, tool, rest);
    if let Some(e) = last_error {
        let front = head + tool + " with the same arguments "@ + dec(count as nat) + " times. "@
            + "Previous attempts failed because: "@;
        let tail = text.subrange((front.len() + e.len()) as int, text.len() as int);
        assert(front + e + tail =~= text);
        part_is_found(front, e, tail);
    }
}

/// A failure of the tools or of the model ends a session with that failure.
pub proof fn failures_end_a_session(
    s: Session,
    event: SessionEvent,
    next: Session,
    request: SessionRequest,
    e: ExoError,
)
    requires
        session_step(s, event, next, request),
        event matches SessionEvent::Decided(r) ==> r == Err::<DecisionResult, ExoError>(e),
        event matches SessionEvent::Acted { result, .. } ==> result == Err::<
            Vec<ActionExecution>,
            ExoError,
        >(e),
        event is Decided || event is Acted,
    ensures
        request == SessionRequest::Fail(e),
        next.phase is Done,
{
}

/// A session stops before a step for the first reason that there is: the budget, then a
/// cancellation, then that nothing is left to do.
pub proof fn session_stops_for_a_reason(
    s: Session,
    stop: Option<String>,
    cancelled: bool,
    next: Session,
    request: SessionRequest,
)
    requires
        session_answers(s, SessionEvent::Checked { stop, cancelled }),
        session_step(s, SessionEvent::Checked { stop, cancelled }, next, request),
    ensures
        stop matches Some(t) ==> request == SessionRequest::Finish(SessionCompletionReason::Budget(t)),
        stop is None && cancelled ==> request == SessionRequest::Finish(
            SessionCompletionReason::Cancelled,
        ),
        stop is None && !cancelled && s.decision.actions@.len() == 0 ==> request
            == SessionRequest::Finish(SessionCompletionReason::AgentComplete),
        stop is None && !cancelled && s.decision.actions@.len() > 0 ==> request is Align
            && next.step == s.step + 1 && next.decision == s.decision,
{
}

/// What the model decides again is what the session goes on with. The step is announced
/// with its number and the tool that was used.
pub proof fn session_goes_on_with_decision(
    s: Session,
    decision: DecisionResult,
    next: Session,
    request: SessionRequest,
)
    requires
        session_answers(s, SessionEvent::Decided(Ok(decision))),
        session_step(s, SessionEvent::Decided(Ok(decision)), next, request),
    ensures
        next.decision == decision,
        next.phase is Checking,
        next.executions == s.executions,
        next.llm_call_records@ == s.llm_call_records@.push(decision.llm_call_record),
        request matches SessionRequest::Continue { announcement, detail, changes } && {
            &&& changes == s.step_changes
            &&& detail.step_number == s.step
            &&& detail.max_steps == s.max_steps
            &&& detail.tokens_this_step == decision.llm_call_record.tokens_in
                + decision.llm_call_record.tokens_out
            &&& s.step_tool matches Some(t) ==> has_text(announcement@, t.name@) && has_text(
                announcement@,
                if t.succeeded {
                    "success"@
                } else {
                    "failed"@
                },
            ) && opt_text(detail.tool_name) == Some(t.name@) && opt_text(detail.tool_outcome)
                == Some(
                if t.succeeded {
                    "success"@
                } else {
                    "failed"@
                },
            )
            &&& s.step_tool is None ==> detail.tool_name is None
        },
{
    if let Some(t) = s.step_tool {
        let text = step_text(s.step, s.max_steps, Some((t.name@, t.succeeded)));
        let head = "Step "@ + dec(s.step as nat) + "/"@ + dec(s.max_steps as nat) + ": "@;
        let word = crate::session::tool_outcome(t.succeeded);
        let rest = " ("@ + word + ")"@;
        assert(head + t.name@ + rest =~= text);
        part_is_found(head, t.name@, rest);
        let front = head + t.name@ + " ("@;
        assert(front + word + ")"@ =~= text);
        part_is_found(front, word, ")"@);
    }
}

// ---------------------------------------------------------------------------
// Charters and grace
// ---------------------------------------------------------------------------

/// A draft becomes a proposal as it is: for its thread, with both charters and the reasons,
/// pending, and made in this tick. What is announced names the thread.
pub proof fn draft_becomes_proposal(
    p: AnnouncedProposal,
    d: CharterDraft,
    id: ThreadId,
    patterns: Seq<Seq<char>>,
    tick_number: u64,
)
    requires
        proposes_charter(p, d, id, patterns, tick_number),
    ensures
        p.proposal.thread_id == id,
        p.proposal.thread_name@ == d.thread_name@,
        p.proposal.current_charter@ == d.current_charter@,
        p.proposal.proposed_charter@ == d.proposed_charter@,
        p.proposal.rationale@ == d.rationale@,
        p.proposal.proposed_at_tick == tick_number,
        p.proposal.status is Pending,
        texts(p.proposal.detected_patterns@) == patterns,
        has_text(p.summary@, d.thread_name@),
        d.rationale@.len() <= 80 ==> has_text(p.summary@, d.rationale@),
{
    let head = "Charter proposal for '"@;
    let rest = p.summary@.subrange(
        (head.len() + d.thread_name@.len()) as int,
        p.summary@.len() as int,
    );
    assert(head + d.thread_name@ + rest =~= p.summary@);
    part_is_found(head, d.thread_name@, rest);
    if d.rationale@.len() <= 80 {
        end_is_found(head + d.thread_name@ + "': "@, d.rationale@);
    }
}

/// The threads that watch the vessel are spared in the first ticks, and only they. Without
/// a grace period none is spared.
pub proof fn grace_is_for_watchful_threads(
    id: ThreadId,
    builtin: BuiltinThreads,
    grace_period: u64,
    tick_number: u64,
)
    ensures
        grace_period == 0 ==> !in_grace(grace_period, tick_number),
        tick_number >= grace_period ==> !in_grace(grace_period, tick_number),
        tick_number < grace_period ==> in_grace(grace_period, tick_number),
        is_sensitive(builtin.threat_monitor, builtin),
        is_sensitive(builtin.self_critique, builtin),
        id != builtin.threat_monitor && id != builtin.self_critique ==> !is_sensitive(id, builtin),
{
}

/// A reflection of the model in JSON is taken as it is: all observations, concerns, new
/// statuses and changes of the memory that it lists, and whether to plan anew.
pub proof fn model_reflection_is_taken(
    r: ReflectionResult,
    executions: Seq<ActionExecution>,
    reply: ReflectReply,
    j: JsonView,
)
    requires
        is_modelled(r, executions, reply),
        parsed(reply.text@) == Ok::<JsonView, Seq<char>>(j),
        describes_reflection(j),
        j is Object,
    ensures
        lists(j, "observations"@, texts(r.observations@)),
        lists(j, "concerns"@, texts(r.concerns@)),
        r.should_replan == (j.field("should_replan"@) == Some(JsonView::Bool(true))),
        j.field("task_updates"@) matches Some(v) ==> (v matches JsonView::Array(items)
            && items.len() == r.task_updates@.len() && forall|i: int|
            0 <= i < items.len() ==> is_status_update(#[trigger] r.task_updates@[i], items[i])),
        j.field("working_memory_ops"@) matches Some(v) ==> are_memory_ops(
            r.working_memory_ops@,
            v,
        ),
{
    let p = choose|p: ReflectProtocol|
        #[trigger] reflection_from(p, reply.text@) && r == (ReflectionResult {
            successes: r.successes,
            total: r.total,
            observations: p.observations,
            concerns: p.concerns,
            task_updates: p.task_updates,
            working_memory_ops: p.working_memory_ops,
            should_replan: p.should_replan,
            llm_call_record: Some(reply.record),
        });
    reflection_is_as_told(p, j);
}

/// What the Align step finds reaches the session: its approved actions reach the tools, its
/// changes of the relationships are added, and its view of them replaces the earlier one.
pub proof fn alignment_reaches_session(
    s: Session,
    a: AlignmentResult,
    next: Session,
    request: SessionRequest,
)
    requires
        session_step(s, SessionEvent::Aligned(a), next, request),
    ensures
        request matches SessionRequest::Act { actions } && actions@ == a.approved_actions@,
        next.relationship_updates@ == s.relationship_updates@ + a.relationship_updates@,
        a.relationship_snapshot is Some ==> next.relationship_snapshot == a.relationship_snapshot,
        a.relationship_snapshot is None ==> next.relationship_snapshot == s.relationship_snapshot,
        next.decision == s.decision,
        next.executions == s.executions,
        next.step == s.step,
{
}

/// A step is told with the tool of its first action and with the changes of this step.
pub proof fn step_is_of_its_actions(
    s: Session,
    executions: Vec<ActionExecution>,
    doom: DoomLoopStatus,
    next: Session,
    request: SessionRequest,
)
    requires
        session_step(s, SessionEvent::Acted { result: Ok(executions), doom }, next, request),
        request is Decide,
    ensures
        executions@.len() > 0 ==> (next.step_tool matches Some(t) && t.name@
            == executions@[0].action.tool_name@ && t.succeeded == (executions@[0].result is Ok)),
        executions@.len() == 0 ==> next.step_tool is None,
        next.step_changes is Some <==> exists|i: int|
            0 <= i < executions@.len() && (#[trigger] executions@[i]).code_diff is Some,
        next.step_changes matches Some(c) ==> c.files@.len() == executions@.filter(
            |e: ActionExecution| e.code_diff is Some,
        ).len(),
{
    every_change_is_tracked(executions@);
    some_change_is_found(executions@);
}

proof fn some_change_is_found(executions: Seq<ActionExecution>)
    ensures
        executions.filter(|e: ActionExecution| e.code_diff is Some).len() > 0 <==> exists|i: int|
            0 <= i < executions.len() && (#[trigger] executions[i]).code_diff is Some,
    decreases executions.len(),
{
    reveal(Seq::filter);
    if executions.len() > 0 {
        let front = executions.drop_last();
        some_change_is_found(front);
        if front.filter(|e: ActionExecution| e.code_diff is Some).len() > 0 {
            let i = choose|i: int| 0 <= i < front.len() && (#[trigger] front[i]).code_diff is Some;
            assert(executions[i].code_diff is Some);
        }
        if executions.last().code_diff is Some {
            assert(executions[executions.len() - 1].code_diff is Some);
        } else if exists|i: int|
            0 <= i < executions.len() && (#[trigger] executions[i]).code_diff is Some {
            let i = choose|i: int|
                0 <= i < executions.len() && (#[trigger] executions[i]).code_diff is Some;
            assert(front[i].code_diff is Some);
        }
    }
}

/// A settled decision carries out what was decided: every action with its tool, its
/// arguments and its reasons, in order, unless a thread makes a sure case for a change.
pub proof fn settled_actions_are_the_decided(
    s: SettledDecision,
    d: DecisionResult,
    outputs: Seq<(ThreadId, ExecThreadOutput)>,
    mode: VesselMode,
)
    requires
        settled(s, d, outputs, false, mode),
        forall|i: int| 0 <= i < outputs.len() ==> !surely_changes((#[trigger] outputs[i]).1),
    ensures
        !s.suppress,
        s.decision.actions@.len() == d.actions@.len(),
        forall|i: int|
            0 <= i < d.actions@.len() ==> {
                &&& (#[trigger] s.decision.actions@[i]).call_id == d.actions@[i].call_id
                &&& s.decision.actions@[i].tool_name == d.actions@[i].tool_name
                &&& s.decision.actions@[i].params == d.actions@[i].params
                &&& s.decision.actions@[i].rationale == d.actions@[i].rationale
                &&& s.decision.actions@[i].plan_task_id == d.actions@[i].plan_task_id
            },
        outputs.len() == 0 ==> s.decision.actions@ == d.actions@,
{
    let annotated = Seq::new(d.actions@.len(), |i: int| with_origin(d.actions@[i], outputs));
    unsure_changes_are_not_made(s.decision.actions@, annotated, outputs);
    if outputs.len() == 0 {
        assert forall|i: int| 0 <= i < d.actions@.len() implies #[trigger] annotated[i]
            == d.actions@[i] by {
            let p = |k: int| proposes(outputs[k].1, d.actions@[i].tool_name@);
            assert(forall|k: int| !is_sole(0, p, k));
        }
        assert(annotated =~= d.actions@);
    }
}

/// A change of the mode is announced with both modes.
pub proof fn mode_change_is_announced(t: ModeTransition, from: VesselMode, to: VesselMode)
    requires
        announces(t, from, to),
    ensures
        t.mode == to,
        from is Normal && to is Planning ==> t.from@ == "normal"@ && t.to@ == "planning"@
            && t.summary@ == "Mode: "@ + "Normal"@ + " -> "@ + "Planning"@,
        from is Executing && to is Normal ==> t.from@ == "executing"@ && t.to@ == "normal"@
            && t.summary@ == "Mode: "@ + "Executing"@ + " -> "@ + "Normal"@,
{
}

} // verus!

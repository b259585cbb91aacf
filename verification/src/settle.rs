//! What becomes of a decision before it is carried out: where its actions come from,
//! whether a proposal of an executable thread takes their place, and whether they
//! are held back.

use vstd::prelude::*;
use vstd::string::*;

use crate::exec_threads::{
    is_exploratory, is_exploratory_code_action, is_mutating, is_mutating_code_action,
    ExecThreadKind, ExecThreadOutput, ExecThreadProposalConfidence, ExecThreadSpec,
    ExecThreadStatus, ExecThreadSummary,
};
use crate::text::{is_blank, str_eq, trimmed};
use crate::types::{
    DecisionResult, PlannedAction, PlannedActionView, ThreadId, VesselMode,
};

verus! {

/// A registered executable thread with its latest output.
#[derive(Debug)]
pub struct ListedThread {
    pub spec: ExecThreadSpec,
    pub status: ExecThreadStatus,
    pub latest: Option<ExecThreadOutput>,
}

/// The coding threads that have not failed and have an output: each with its latest
/// output, in order.
pub open spec fn live_outputs(threads: Seq<ListedThread>) -> Seq<(ThreadId, ExecThreadOutput)>
    decreases threads.len(),
{
    if threads.len() == 0 {
        Seq::empty()
    } else {
        let front = live_outputs(threads.drop_last());
        let t = threads.last();
        if t.spec.kind == ExecThreadKind::Coding && t.status != ExecThreadStatus::Failed
            && t.latest is Some {
            front.push((t.spec.thread_id, t.latest->Some_0))
        } else {
            front
        }
    }
}

/// Selects the latest outputs of the coding threads that have not failed.
pub fn latest_coding_exec_thread_proposals(threads: Vec<ListedThread>) -> (r: Vec<
    (ThreadId, ExecThreadOutput),
>)
    ensures
        r@ == live_outputs(threads@),
{
    let mut rest = threads;
    let mut out: Vec<(ThreadId, ExecThreadOutput)> = Vec::new();
    let ghost all = threads@;
    let ghost mut done: int = 0;
    assert(all.subrange(0, all.len() as int) =~= all);
    assert(out@ =~= live_outputs(all.subrange(0, 0)));
    while rest.len() > 0
        invariant
            0 <= done <= all.len(),
            rest@ == all.subrange(done, all.len() as int),
            out@ == live_outputs(all.subrange(0, done)),
        decreases rest@.len(),
    {
        let t = rest.remove(0);
        proof {
            assert(rest@ =~= all.subrange(done + 1, all.len() as int));
            assert(all.subrange(0, done + 1).drop_last() =~= all.subrange(0, done));
            assert(all.subrange(0, done + 1).last() == t);
            done = done + 1;
        }
        if t.spec.kind == ExecThreadKind::Coding && t.status != ExecThreadStatus::Failed {
            match t.latest {
                Some(output) => {
                    out.push((t.spec.thread_id, output));
                },
                None => {},
            }
        }
    }
    assert(all.subrange(0, done) =~= all);
    out
}

/// The only index below `n` that fulfils `p`, if exactly one does.
pub open spec fn sole_index(n: int, p: spec_fn(int) -> bool) -> Option<int> {
    if exists|i: int| is_sole(n, p, i) {
        Some(choose|i: int| is_sole(n, p, i))
    } else {
        None
    }
}

/// `i` is the only index below `n` that fulfils `p`.
pub open spec fn is_sole(n: int, p: spec_fn(int) -> bool, i: int) -> bool {
    0 <= i < n && p(i) && forall|j: int| 0 <= j < n && #[trigger] p(j) ==> j == i
}

// ---------------------------------------------------------------------------
// Origins
// ---------------------------------------------------------------------------

/// The output proposes an action with the tool `tool`.
pub open spec fn proposes(output: ExecThreadOutput, tool: Seq<char>) -> bool {
    output.proposed_action matches Some(p) && p.tool_name@ == tool
}

/// The action with its origin: if it has none yet and exactly one output proposes
/// its tool, that proposal is its origin.
pub open spec fn with_origin(
    action: PlannedAction,
    outputs: Seq<(ThreadId, ExecThreadOutput)>,
) -> PlannedAction {
    let sole = sole_index(
        outputs.len() as int,
        |i: int| proposes(outputs[i].1, action.tool_name@),
    );
    if action.origin_exec_thread_id is None && sole is Some {
        let source = outputs[sole->Some_0];
        PlannedAction {
            origin_exec_thread_id: Some(source.0),
            proposal_id: Some(source.1.proposed_action->Some_0.proposal_id),
            ..action
        }
    } else {
        action
    }
}

/// Finds the only output that proposes `tool`.
fn sole_proposal(outputs: &Vec<(ThreadId, ExecThreadOutput)>, tool: &str) -> (r: Option<usize>)
    ensures
        match r {
            Some(i) => sole_index(
                outputs@.len() as int,
                |i: int| proposes(outputs@[i].1, tool@),
            ) == Some(i as int),
            None => sole_index(
                outputs@.len() as int,
                |i: int| proposes(outputs@[i].1, tool@),
            ) is None,
        },
{
    let ghost n = outputs@.len() as int;
    let ghost p = |i: int| proposes(outputs@[i].1, tool@);
    let mut found: Option<usize> = None;
    let mut i: usize = 0;
    while i < outputs.len()
        invariant
            n == outputs@.len(),
            p == (|i: int| proposes(outputs@[i].1, tool@)),
            i <= outputs@.len(),
            match found {
                Some(k) => k < i && p(k as int) && forall|j: int|
                    0 <= j < i && #[trigger] p(j) ==> j == k,
                None => forall|j: int| 0 <= j < i ==> !#[trigger] p(j),
            },
        decreases outputs@.len() - i,
    {
        let same = match &outputs[i].1.proposed_action {
            Some(q) => str_eq(q.tool_name.as_str(), tool),
            None => false,
        };
        assert(same == p(i as int));
        if same {
            if found.is_some() {
                assert forall|k: int| !is_sole(n, p, k) by {
                    let first = found->Some_0 as int;
                    assert(p(first) && p(i as int));
                }
                return None;
            }
            found = Some(i);
        }
        i = i + 1;
    }
    match found {
        Some(k) => {
            assert(is_sole(n, p, k as int));
        },
        None => {
            assert forall|k: int| !is_sole(n, p, k) by {}
        },
    }
    found
}

/// Gives each action that has no origin the proposal that it stems from, if exactly
/// one thread proposes its tool.
pub fn annotate_exec_thread_origins(
    actions: &mut Vec<PlannedAction>,
    outputs: &Vec<(ThreadId, ExecThreadOutput)>,
)
    ensures
        final(actions)@ == Seq::new(
            old(actions)@.len(),
            |i: int| with_origin(old(actions)@[i], outputs@),
        ),
{
    let ghost before = actions@;
    let mut i: usize = 0;
    while i < actions.len()
        invariant
            i <= actions@.len(),
            actions@.len() == before.len(),
            forall|k: int| 0 <= k < i ==> actions@[k] == with_origin(before[k], outputs@),
            forall|k: int| i <= k < before.len() ==> actions@[k] == before[k],
        decreases actions@.len() - i,
    {
        if actions[i].origin_exec_thread_id.is_none() {
            match sole_proposal(outputs, actions[i].tool_name.as_str()) {
                Some(k) => {
                    match &outputs[k].1.proposed_action {
                        Some(q) => {
                            let id = q.proposal_id.clone();
                            actions[i].origin_exec_thread_id = Some(outputs[k].0);
                            actions[i].proposal_id = Some(id);
                        },
                        None => {
                            proof {
                                let p = |j: int| proposes(outputs@[j].1, before[i as int].tool_name@);
                                assert(is_sole(outputs@.len() as int, p, k as int));
                            }
                        },
                    }
                },
                None => {},
            }
        }
        i = i + 1;
    }
    assert(actions@ =~= Seq::new(before.len(), |i: int| with_origin(before[i], outputs@)));
}

/// An action that has an origin keeps it, and nothing but the origin of an action
/// changes.
pub proof fn origins_are_never_overwritten(
    action: PlannedAction,
    outputs: Seq<(ThreadId, ExecThreadOutput)>,
)
    ensures
        action.origin_exec_thread_id is Some ==> with_origin(action, outputs) == action,
        with_origin(action, outputs).tool_name == action.tool_name,
        with_origin(action, outputs).params == action.params,
        with_origin(action, outputs).call_id == action.call_id,
{
}

// ---------------------------------------------------------------------------
// Proposals that take the place of exploration
// ---------------------------------------------------------------------------

/// The output makes the case for a change: it proposes one, its evidence is
/// complete, and its confidence is high.
pub open spec fn calls_for_change(output: ExecThreadOutput) -> bool {
    &&& output.evidence_complete
    &&& output.proposal_confidence == Some(ExecThreadProposalConfidence::High)
    &&& output.proposed_action matches Some(p) && is_mutating(p.tool_name@)
}

/// Every action only looks at files, and there is at least one.
pub open spec fn only_explores(actions: Seq<PlannedAction>) -> bool {
    actions.len() > 0 && forall|i: int|
        0 <= i < actions.len() ==> is_exploratory((#[trigger] actions[i]).tool_name@)
}

/// The output whose proposal takes the place of the actions: the only one that calls
/// for a change, if the actions do nothing but explore.
pub open spec fn replacement(
    actions: Seq<PlannedAction>,
    outputs: Seq<(ThreadId, ExecThreadOutput)>,
) -> Option<int> {
    if only_explores(actions) {
        sole_index(outputs.len() as int, |i: int| calls_for_change(outputs[i].1))
    } else {
        None
    }
}

/// The action that carries out a proposal.
pub open spec fn proposed(thread_id: ThreadId, output: ExecThreadOutput) -> PlannedActionView {
    let p = output.proposed_action->Some_0;
    PlannedActionView {
        call_id: "exec-proposal-"@ + p.proposal_id@,
        tool_name: p.tool_name@,
        params: p.params@,
        rationale: p.rationale@,
        plan_task_id: None,
        origin_exec_thread_id: Some(thread_id),
        proposal_id: Some(p.proposal_id@),
    }
}

/// `after` are the actions after the proposals have been considered.
pub open spec fn reconciled(
    after: Seq<PlannedAction>,
    actions: Seq<PlannedAction>,
    outputs: Seq<(ThreadId, ExecThreadOutput)>,
) -> bool {
    match replacement(actions, outputs) {
        Some(i) => after.len() == 1 && after[0]@ == proposed(outputs[i].0, outputs[i].1),
        None => after == actions,
    }
}

fn explores_only(actions: &Vec<PlannedAction>) -> (r: bool)
    ensures
        r == only_explores(actions@),
{
    if actions.len() == 0 {
        return false;
    }
    let mut i: usize = 0;
    while i < actions.len()
        invariant
            i <= actions@.len(),
            forall|k: int| 0 <= k < i ==> is_exploratory((#[trigger] actions@[k]).tool_name@),
        decreases actions@.len() - i,
    {
        if !is_exploratory_code_action(actions[i].tool_name.as_str()) {
            return false;
        }
        i = i + 1;
    }
    true
}

/// Lets the proposal of a coding thread take the place of actions that only explore.
///
/// That happens if every planned action only looks at files and exactly one thread
/// proposes a change with complete evidence and high confidence.
pub fn reconcile_exec_thread_proposals(
    actions: Vec<PlannedAction>,
    outputs: &Vec<(ThreadId, ExecThreadOutput)>,
) -> (r: Vec<PlannedAction>)
    ensures
        reconciled(r@, actions@, outputs@),
{
    if !explores_only(&actions) {
        return actions;
    }
    let ghost n = outputs@.len() as int;
    let ghost p = |i: int| calls_for_change(outputs@[i].1);
    let mut found: Option<usize> = None;
    let mut i: usize = 0;
    while i < outputs.len()
        invariant
            n == outputs@.len(),
            p == (|i: int| calls_for_change(outputs@[i].1)),
            only_explores(actions@),
            i <= outputs@.len(),
            match found {
                Some(k) => k < i && p(k as int) && forall|j: int|
                    0 <= j < i && #[trigger] p(j) ==> j == k,
                None => forall|j: int| 0 <= j < i ==> !#[trigger] p(j),
            },
        decreases outputs@.len() - i,
    {
        let output = &outputs[i].1;
        let sure = match output.proposal_confidence {
            Some(c) => c == ExecThreadProposalConfidence::High,
            None => false,
        };
        let changes = match &output.proposed_action {
            Some(q) => is_mutating_code_action(q.tool_name.as_str()),
            None => false,
        };
        let calls = output.evidence_complete && sure && changes;
        assert(calls == p(i as int));
        if calls {
            if found.is_some() {
                assert forall|k: int| !is_sole(n, p, k) by {
                    let first = found->Some_0 as int;
                    assert(p(first) && p(i as int));
                }
                return actions;
            }
            found = Some(i);
        }
        i = i + 1;
    }
    let k: usize = match found {
        Some(k) => k,
        None => {
            assert forall|k: int| !is_sole(n, p, k) by {}
            return actions;
        },
    };
    assert(is_sole(n, p, k as int));
    match &outputs[k].1.proposed_action {
        Some(q) => {
            let mut call_id = "exec-proposal-".to_owned();
            call_id.append(q.proposal_id.as_str());
            let mut out: Vec<PlannedAction> = Vec::new();
            out.push(
                PlannedAction {
                    call_id,
                    tool_name: q.tool_name.clone(),
                    params: q.params.clone(),
                    rationale: q.rationale.clone(),
                    plan_task_id: None,
                    origin_exec_thread_id: Some(outputs[k].0),
                    proposal_id: Some(q.proposal_id.clone()),
                },
            );
            out
        },
        None => actions,
    }
}

/// A decision with an action that changes files, or that does anything but explore,
/// is carried out as it stands.
pub proof fn only_exploration_is_replaced(
    after: Seq<PlannedAction>,
    actions: Seq<PlannedAction>,
    outputs: Seq<(ThreadId, ExecThreadOutput)>,
    i: int,
)
    requires
        reconciled(after, actions, outputs),
        0 <= i < actions.len(),
        is_mutating(actions[i].tool_name@) || !is_exploratory(actions[i].tool_name@),
    ensures
        after == actions,
{
    crate::exec_threads::exploring_never_mutates(actions[i].tool_name@);
}

// ---------------------------------------------------------------------------
// Holding actions back
// ---------------------------------------------------------------------------

/// The summary is of a coding thread that is idle after completing its work.
pub open spec fn rests(s: ExecThreadSummary) -> bool {
    &&& s.kind == ExecThreadKind::Coding
    &&& s.status == ExecThreadStatus::Idle
    &&& s.last_completion_reason matches Some(reason) && trimmed(reason@).len() > 0
}

/// A bounded coding session is over and nothing new came in.
pub open spec fn session_rests(
    return_to_idle: bool,
    new_messages: bool,
    summaries: Seq<ExecThreadSummary>,
) -> bool {
    return_to_idle && !new_messages && exists|i: int|
        0 <= i < summaries.len() && rests(#[trigger] summaries[i])
}

/// Tells whether a bounded coding session is over and nothing new came in.
pub fn bounded_coding_idle_visible(
    return_to_idle_after_completion: bool,
    has_new_messages: bool,
    summaries: &Vec<ExecThreadSummary>,
) -> (r: bool)
    ensures
        r == session_rests(return_to_idle_after_completion, has_new_messages, summaries@),
{
    if !return_to_idle_after_completion || has_new_messages {
        return false;
    }
    let mut i: usize = 0;
    while i < summaries.len()
        invariant
            return_to_idle_after_completion && !has_new_messages,
            i <= summaries@.len(),
            forall|k: int| 0 <= k < i ==> !rests(#[trigger] summaries@[k]),
        decreases summaries@.len() - i,
    {
        let s = &summaries[i];
        let has_reason = match &s.last_completion_reason {
            Some(reason) => !is_blank(reason.as_str()),
            None => false,
        };
        if s.kind == ExecThreadKind::Coding && s.status == ExecThreadStatus::Idle && has_reason {
            assert(rests(summaries@[i as int]));
            return true;
        }
        i = i + 1;
    }
    false
}

/// Holds the actions back if `should_suppress`.
pub fn suppress_actions_for_bounded_coding_idle(
    actions: Vec<PlannedAction>,
    should_suppress: bool,
) -> (r: Vec<PlannedAction>)
    ensures
        should_suppress ==> r@.len() == 0,
        !should_suppress ==> r == actions,
{
    if should_suppress {
        Vec::new()
    } else {
        actions
    }
}

// ---------------------------------------------------------------------------
// Modes
// ---------------------------------------------------------------------------

/// The changes of the mode that a decision may ask for.
pub open spec fn mode_change_allowed(from: VesselMode, to: VesselMode) -> bool {
    (from == VesselMode::Normal && to == VesselMode::Planning) || (from == VesselMode::Executing
        && to == VesselMode::Normal)
}

/// The mode after a decision: the requested one if the change is allowed.
pub open spec fn mode_after(current: VesselMode, requested: Option<VesselMode>) -> VesselMode {
    match requested {
        Some(to) => if mode_change_allowed(current, to) {
            to
        } else {
            current
        },
        None => current,
    }
}

/// The name of a mode.
pub open spec fn mode_name(mode: VesselMode) -> Seq<char> {
    match mode {
        VesselMode::Normal => "Normal"@,
        VesselMode::Planning => "Planning"@,
        VesselMode::Executing => "Executing"@,
    }
}

/// The name of a mode in lower case.
pub open spec fn mode_label(mode: VesselMode) -> Seq<char> {
    match mode {
        VesselMode::Normal => "normal"@,
        VesselMode::Planning => "planning"@,
        VesselMode::Executing => "executing"@,
    }
}

/// A change of the mode that is announced.
#[derive(Debug, PartialEq, Eq)]
pub struct ModeTransition {
    pub mode: VesselMode,
    pub summary: String,
    pub from: String,
    pub to: String,
}

/// `t` announces the change from one mode to another.
pub open spec fn announces(t: ModeTransition, from: VesselMode, to: VesselMode) -> bool {
    &&& t.mode == to
    &&& t.summary@ == "Mode: "@ + mode_name(from) + " -> "@ + mode_name(to)
    &&& t.from@ == mode_label(from)
    &&& t.to@ == mode_label(to)
}

pub(crate) fn mode_name_str(mode: VesselMode) -> (r: &'static str)
    ensures
        r@ == mode_name(mode),
{
    match mode {
        VesselMode::Normal => "Normal",
        VesselMode::Planning => "Planning",
        VesselMode::Executing => "Executing",
    }
}

pub(crate) fn mode_label_str(mode: VesselMode) -> (r: &'static str)
    ensures
        r@ == mode_label(mode),
{
    match mode {
        VesselMode::Normal => "normal",
        VesselMode::Planning => "planning",
        VesselMode::Executing => "executing",
    }
}

/// Decides on a requested change of the mode. Only the changes from normal to
/// planning and from executing to normal are made; any other request is ignored.
pub fn transition_mode(current: VesselMode, requested: Option<VesselMode>) -> (r: Option<
    ModeTransition,
>)
    ensures
        match r {
            Some(t) => requested is Some && mode_change_allowed(current, requested->Some_0)
                && announces(t, current, requested->Some_0) && t.mode == mode_after(
                current,
                requested,
            ),
            None => (requested is None || !mode_change_allowed(current, requested->Some_0))
                && mode_after(current, requested) == current,
        },
{
    let to = match requested {
        Some(to) => to,
        None => {
            return None;
        },
    };
    let allowed = (current == VesselMode::Normal && to == VesselMode::Planning) || (current
        == VesselMode::Executing && to == VesselMode::Normal);
    if !allowed {
        return None;
    }
    let mut summary = "Mode: ".to_owned();
    summary.append(mode_name_str(current));
    summary.append(" -> ");
    summary.append(mode_name_str(to));
    Some(
        ModeTransition {
            mode: to,
            summary,
            from: mode_label_str(current).to_owned(),
            to: mode_label_str(to).to_owned(),
        },
    )
}

/// A decision never starts the execution of a plan: only a person does.
pub proof fn decisions_never_start_execution(current: VesselMode, requested: Option<VesselMode>)
    ensures
        mode_after(current, requested) == VesselMode::Executing ==> current
            == VesselMode::Executing,
{
}

// ---------------------------------------------------------------------------
// The settled decision
// ---------------------------------------------------------------------------

/// A decision that is ready to be aligned.
#[derive(Debug)]
pub struct SettledDecision {
    pub decision: DecisionResult,
    /// Actions are held back in this tick.
    pub suppress: bool,
    pub transition: Option<ModeTransition>,
    /// The mode of the vessel afterwards.
    pub mode: VesselMode,
    /// The plan update is to be stored as a draft.
    pub keep_draft: bool,
}

/// `s` is the decision `d` after it has been settled.
pub open spec fn settled(
    s: SettledDecision,
    d: DecisionResult,
    outputs: Seq<(ThreadId, ExecThreadOutput)>,
    suppress: bool,
    mode: VesselMode,
) -> bool {
    let annotated = Seq::new(d.actions@.len(), |i: int| with_origin(d.actions@[i], outputs));
    &&& s.suppress == suppress
    &&& suppress ==> s.decision.actions@.len() == 0
    &&& !suppress ==> reconciled(s.decision.actions@, annotated, outputs)
    &&& s.decision == (DecisionResult { actions: s.decision.actions, ..d })
    &&& s.mode == mode_after(mode, d.vessel_mode_request)
    &&& match s.transition {
        Some(t) => d.vessel_mode_request is Some && announces(
            t,
            mode,
            d.vessel_mode_request->Some_0,
        ) && mode_change_allowed(mode, d.vessel_mode_request->Some_0),
        None => d.vessel_mode_request is None || !mode_change_allowed(
            mode,
            d.vessel_mode_request->Some_0,
        ),
    }
    &&& s.keep_draft == (s.mode == VesselMode::Planning && d.snapshot_delta.plan_update is Some)
}

/// Settles a decision: its actions get their origins, a proposal may take their
/// place, they may be held back, and the mode may change.
pub fn settle_decision(
    decision: DecisionResult,
    threads: Vec<ListedThread>,
    suppress: bool,
    mode: VesselMode,
) -> (s: SettledDecision)
    ensures
        settled(s, decision, live_outputs(threads@), suppress, mode),
{
    let outputs = latest_coding_exec_thread_proposals(threads);
    let mut decision = decision;
    let mut actions: Vec<PlannedAction> = Vec::new();
    std::mem::swap(&mut actions, &mut decision.actions);
    annotate_exec_thread_origins(&mut actions, &outputs);
    let actions = reconcile_exec_thread_proposals(actions, &outputs);
    decision.actions = suppress_actions_for_bounded_coding_idle(actions, suppress);
    let transition = transition_mode(mode, decision.vessel_mode_request);
    let mode = match &transition {
        Some(t) => t.mode,
        None => mode,
    };
    let keep_draft = mode == VesselMode::Planning && decision.snapshot_delta.plan_update.is_some();
    SettledDecision { decision, suppress, transition, mode, keep_draft }
}

} // verus!

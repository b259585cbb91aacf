//! Executable threads: workers that keep local state and propose one action at a
//! time.
//!
//! The language model that a thread consults is outside: its reply comes in as
//! text.

use vstd::prelude::*;
use vstd::string::*;
use vstd::utf8::*;

use crate::decode::{
    field_at, flag_of, has_record_form, is_record, maybe_text_of, read_flag, read_maybe_text,
    read_text, read_variant, record_field, text_of, variant_of,
};
use crate::json::{
    lookup, member_views, object_view, parse_json, parsed, ref_json, Json, JsonView,
};
use crate::text::{
    byte_len, byte_prefix, clean_cut, clone_opt, cuts_cleanly, dec, dec_u64, dec_usize, flag_str,
    flag_text,
    is_blank, opt_text, over_bytes, prefix_bytes, str_eq, trim, trimmed, utf8_text,
};
use crate::types::{
    extract_json_from_code_fence, fenced, id_text, write_id, ActionOutcome, ActionRecord,
    ArtifactId, ThreadId, TickId,
};

verus! {

/// The kinds of executable threads.
#[derive(Debug, Clone, Copy, PartialEq, Eq, Structural)]
pub enum ExecThreadKind {
    Coding,
}

/// The state of an executable thread.
#[derive(Debug, Clone, Copy, PartialEq, Eq, Structural)]
pub enum ExecThreadStatus {
    Idle,
    Active,
    Blocked,
    Completed,
    Failed,
}

/// How sure a thread is of its proposal.
#[derive(Debug, Clone, Copy, PartialEq, Eq, Structural)]
pub enum ExecThreadProposalConfidence {
    Low,
    Medium,
    High,
}

/// An executable thread.
#[derive(Debug, PartialEq, Eq)]
pub struct ExecThreadSpec {
    pub thread_id: ThreadId,
    pub kind: ExecThreadKind,
    pub name: String,
    pub charter: String,
    pub token_budget: u64,
    pub workspace_root: Option<String>,
}

/// What a thread remembers from one turn to the next.
#[derive(Debug, PartialEq, Eq)]
pub struct ExecThreadLocalState {
    pub scratchpad: Option<String>,
    pub current_focus: Option<String>,
    pub last_completion_reason: Option<String>,
    pub work_phase: Option<String>,
    pub evidence_complete: bool,
    pub verification_pending: bool,
    pub verification_attempted: bool,
    pub proposal_confidence: Option<ExecThreadProposalConfidence>,
    pub awaiting_feedback: bool,
    pub should_wake_master: bool,
}

/// An action that a thread proposes.
#[derive(Debug)]
pub struct ExecThreadProposal {
    pub proposal_id: String,
    pub tool_name: String,
    pub params: Json,
    pub rationale: String,
}

/// The outcome of a turn of a thread.
#[derive(Debug)]
pub struct ExecThreadOutput {
    pub thread_id: ThreadId,
    pub tick_id: TickId,
    pub artifact_id: ArtifactId,
    pub kind: ExecThreadKind,
    pub summary: String,
    pub status: ExecThreadStatus,
    pub evidence_complete: bool,
    pub proposal_confidence: Option<ExecThreadProposalConfidence>,
    pub proposed_action: Option<ExecThreadProposal>,
    pub local_state: ExecThreadLocalState,
}

/// What is shown of a thread.
#[derive(Debug, PartialEq, Eq)]
pub struct ExecThreadSummary {
    pub thread_id: ThreadId,
    pub kind: ExecThreadKind,
    pub status: ExecThreadStatus,
    pub last_completion_reason: Option<String>,
}

/// What a thread contributes to a tick.
#[derive(Debug, PartialEq, Eq)]
pub struct ExecThreadContribution {
    pub thread_id: ThreadId,
    pub kind: ExecThreadKind,
    pub artifact_id: ArtifactId,
    pub summary: String,
    pub proposal_id: Option<String>,
    pub proposed_action_summary: Option<String>,
}

/// The reply of the language model to a coding thread.
#[derive(Debug)]
pub struct CodingExecResponse {
    pub status: Option<ExecThreadStatus>,
    pub summary: String,
    pub current_focus: Option<String>,
    pub work_phase: Option<String>,
    pub scratchpad: Option<String>,
    pub evidence_complete: bool,
    pub proposal_confidence: Option<ExecThreadProposalConfidence>,
    pub should_wake_master: bool,
    pub completion_reason: Option<String>,
    pub proposed_action: Option<CodingExecProposal>,
}

/// An action in the reply to a coding thread.
#[derive(Debug)]
pub struct CodingExecProposal {
    pub tool_name: String,
    pub params: Json,
    pub rationale: String,
}

/// What became of the actions that a coding thread proposed.
#[derive(Debug, Clone, Copy, PartialEq, Eq, Structural)]
pub struct CodingFeedbackState {
    pub mutating_success: bool,
    pub mutating_failure: bool,
    pub verification_success: bool,
}

// ---------------------------------------------------------------------------
// Models
// ---------------------------------------------------------------------------

/// The model of a proposal in a reply.
pub struct ProposalView {
    pub tool_name: Seq<char>,
    pub params: JsonView,
    pub rationale: Seq<char>,
}

impl View for CodingExecProposal {
    type V = ProposalView;

    open spec fn view(&self) -> ProposalView {
        ProposalView {
            tool_name: self.tool_name@,
            params: self.params@,
            rationale: self.rationale@,
        }
    }
}

/// The model of an optional proposal.
pub open spec fn opt_proposal(p: Option<CodingExecProposal>) -> Option<ProposalView> {
    match p {
        Some(p) => Some(p@),
        None => None,
    }
}

/// The model of a reply.
pub struct ReplyView {
    pub status: Option<ExecThreadStatus>,
    pub summary: Seq<char>,
    pub current_focus: Option<Seq<char>>,
    pub work_phase: Option<Seq<char>>,
    pub scratchpad: Option<Seq<char>>,
    pub evidence_complete: bool,
    pub proposal_confidence: Option<ExecThreadProposalConfidence>,
    pub should_wake_master: bool,
    pub completion_reason: Option<Seq<char>>,
    pub proposed_action: Option<ProposalView>,
}

impl View for CodingExecResponse {
    type V = ReplyView;

    open spec fn view(&self) -> ReplyView {
        ReplyView {
            status: self.status,
            summary: self.summary@,
            current_focus: opt_text(self.current_focus),
            work_phase: opt_text(self.work_phase),
            scratchpad: opt_text(self.scratchpad),
            evidence_complete: self.evidence_complete,
            proposal_confidence: self.proposal_confidence,
            should_wake_master: self.should_wake_master,
            completion_reason: opt_text(self.completion_reason),
            proposed_action: opt_proposal(self.proposed_action),
        }
    }
}

/// The model of the local state of a thread.
pub struct LocalView {
    pub scratchpad: Option<Seq<char>>,
    pub current_focus: Option<Seq<char>>,
    pub last_completion_reason: Option<Seq<char>>,
    pub work_phase: Option<Seq<char>>,
    pub evidence_complete: bool,
    pub verification_pending: bool,
    pub verification_attempted: bool,
    pub proposal_confidence: Option<ExecThreadProposalConfidence>,
    pub awaiting_feedback: bool,
    pub should_wake_master: bool,
}

impl View for ExecThreadLocalState {
    type V = LocalView;

    open spec fn view(&self) -> LocalView {
        LocalView {
            scratchpad: opt_text(self.scratchpad),
            current_focus: opt_text(self.current_focus),
            last_completion_reason: opt_text(self.last_completion_reason),
            work_phase: opt_text(self.work_phase),
            evidence_complete: self.evidence_complete,
            verification_pending: self.verification_pending,
            verification_attempted: self.verification_attempted,
            proposal_confidence: self.proposal_confidence,
            awaiting_feedback: self.awaiting_feedback,
            should_wake_master: self.should_wake_master,
        }
    }
}

impl Default for ExecThreadLocalState {
    /// The state of a thread that has not run yet.
    fn default() -> (r: Self)
        ensures
            r == (ExecThreadLocalState {
                scratchpad: None,
                current_focus: None,
                last_completion_reason: None,
                work_phase: None,
                evidence_complete: false,
                verification_pending: false,
                verification_attempted: false,
                proposal_confidence: None,
                awaiting_feedback: false,
                should_wake_master: false,
            }),
    {
        ExecThreadLocalState {
            scratchpad: None,
            current_focus: None,
            last_completion_reason: None,
            work_phase: None,
            evidence_complete: false,
            verification_pending: false,
            verification_attempted: false,
            proposal_confidence: None,
            awaiting_feedback: false,
            should_wake_master: false,
        }
    }
}

// ---------------------------------------------------------------------------
// Which threads run
// ---------------------------------------------------------------------------

/// There is something for a coding thread to do: a message came in, or a result
/// that it waits for.
pub open spec fn work_waits(new_messages: bool, results: bool, awaiting_feedback: bool) -> bool {
    new_messages || (awaiting_feedback && results)
}

/// Tells whether there is something for a coding thread to do.
pub fn has_coding_work(
    new_messages: bool,
    pending_results: bool,
    local_state: &ExecThreadLocalState,
) -> (r: bool)
    ensures
        r == work_waits(new_messages, pending_results, local_state.awaiting_feedback),
{
    new_messages || (local_state.awaiting_feedback && pending_results)
}

/// Tells whether a thread runs in this tick. A failed thread never runs; an idle one
/// only if there is something for it to do or it asked to be woken.
pub fn should_run_exec_thread(
    spec: &ExecThreadSpec,
    status: ExecThreadStatus,
    new_messages: bool,
    pending_results: bool,
    local_state: &ExecThreadLocalState,
) -> (r: bool)
    ensures
        r == (match status {
            ExecThreadStatus::Failed => false,
            ExecThreadStatus::Idle => work_waits(
                new_messages,
                pending_results,
                local_state.awaiting_feedback,
            ) || local_state.should_wake_master,
            _ => true,
        }),
{
    match spec.kind {
        ExecThreadKind::Coding => match status {
            ExecThreadStatus::Failed => false,
            ExecThreadStatus::Active
            | ExecThreadStatus::Blocked
            | ExecThreadStatus::Completed => true,
            ExecThreadStatus::Idle => {
                has_coding_work(new_messages, pending_results, local_state)
                    || local_state.should_wake_master
            },
        },
    }
}

/// The status of a thread whose reply names none.
pub open spec fn default_status(
    reply: ReplyView,
    new_messages: bool,
    results: bool,
    awaiting_feedback: bool,
) -> ExecThreadStatus {
    if reply.completion_reason is None && (reply.proposed_action is Some || work_waits(
        new_messages,
        results,
        awaiting_feedback,
    )) {
        ExecThreadStatus::Active
    } else {
        ExecThreadStatus::Idle
    }
}

/// Chooses the status of a thread whose reply names none.
pub fn default_coding_status(
    reply: &CodingExecResponse,
    new_messages: bool,
    pending_results: bool,
    local_state: &ExecThreadLocalState,
) -> (r: ExecThreadStatus)
    ensures
        r == default_status(reply@, new_messages, pending_results, local_state.awaiting_feedback),
{
    if reply.completion_reason.is_some() {
        ExecThreadStatus::Idle
    } else if reply.proposed_action.is_some() || has_coding_work(
        new_messages,
        pending_results,
        local_state,
    ) {
        ExecThreadStatus::Active
    } else {
        ExecThreadStatus::Idle
    }
}

/// The status that is kept: a completed thread is idle.
pub open spec fn kept_status(status: ExecThreadStatus) -> ExecThreadStatus {
    if status == ExecThreadStatus::Completed {
        ExecThreadStatus::Idle
    } else {
        status
    }
}

/// Turns the completed status into the idle one.
pub fn canonicalize_exec_thread_status(status: ExecThreadStatus) -> (r: ExecThreadStatus)
    ensures
        r == kept_status(status),
{
    match status {
        ExecThreadStatus::Completed => ExecThreadStatus::Idle,
        other => other,
    }
}

// ---------------------------------------------------------------------------
// Tools
// ---------------------------------------------------------------------------

/// The tools that change files.
pub open spec fn is_mutating(tool: Seq<char>) -> bool {
    tool == "code.edit"@ || tool == "code.write"@ || tool == "code.apply_patch"@ || tool
        == "fs.write"@
}

/// Tells whether a tool changes files.
pub fn is_mutating_code_action(tool_name: &str) -> (r: bool)
    ensures
        r == is_mutating(tool_name@),
{
    str_eq(tool_name, "code.edit") || str_eq(tool_name, "code.write") || str_eq(
        tool_name,
        "code.apply_patch",
    ) || str_eq(tool_name, "fs.write")
}

/// The tools that only look at files.
pub open spec fn is_exploratory(tool: Seq<char>) -> bool {
    tool == "code.read"@ || tool == "code.grep"@ || tool == "code.ls"@ || tool == "code.glob"@
        || tool == "fs.read"@
}

/// Tells whether a tool only looks at files.
pub fn is_exploratory_code_action(tool_name: &str) -> (r: bool)
    ensures
        r == is_exploratory(tool_name@),
{
    str_eq(tool_name, "code.read") || str_eq(tool_name, "code.grep") || str_eq(
        tool_name,
        "code.ls",
    ) || str_eq(tool_name, "code.glob") || str_eq(tool_name, "fs.read")
}

/// The tools with which a change can be verified.
pub open spec fn is_verifying(tool: Seq<char>) -> bool {
    tool == "code.read"@ || tool == "code.grep"@ || tool == "shell.exec"@
}

/// Tells whether a proposal verifies a change.
pub fn is_verification_action(proposal: &Option<CodingExecProposal>) -> (r: bool)
    ensures
        r == (opt_proposal(*proposal) matches Some(p) && is_verifying(p.tool_name)),
{
    match proposal {
        Some(p) => str_eq(p.tool_name.as_str(), "code.read") || str_eq(
            p.tool_name.as_str(),
            "code.grep",
        ) || str_eq(p.tool_name.as_str(), "shell.exec"),
        None => false,
    }
}

/// The tools with which a thread explores the code.
pub open spec fn is_exploring(tool: Seq<char>) -> bool {
    tool == "code.read"@ || tool == "code.grep"@ || tool == "code.ls"@
}

/// Tells whether a thread explores the code with a tool.
pub fn is_exploratory_tool(tool_name: &str) -> (r: bool)
    ensures
        r == is_exploring(tool_name@),
{
    str_eq(tool_name, "code.read") || str_eq(tool_name, "code.grep") || str_eq(tool_name, "code.ls")
}

/// No tool both changes files and only looks at them.
pub proof fn exploring_never_mutates(tool: Seq<char>)
    ensures
        !(is_mutating(tool) && is_exploratory(tool)),
        !(is_mutating(tool) && is_verifying(tool)),
        is_exploring(tool) ==> is_exploratory(tool),
{
    reveal_strlit("code.edit");
    reveal_strlit("code.write");
    reveal_strlit("code.apply_patch");
    reveal_strlit("fs.write");
    reveal_strlit("code.read");
    reveal_strlit("code.grep");
    reveal_strlit("code.ls");
    reveal_strlit("code.glob");
    reveal_strlit("fs.read");
    reveal_strlit("shell.exec");
    if is_mutating(tool) {
        assert(tool[5] == 'e' || tool[5] == 'w' || tool[5] == 'a' || tool[0] == 'f');
        assert(tool[0] == 'c' || tool[3] == 'w');
    }
}

// ---------------------------------------------------------------------------
// Proposals
// ---------------------------------------------------------------------------

/// The members without those that have the key `key`.
pub open spec fn without_key(
    members: Seq<(Seq<char>, JsonView)>,
    key: Seq<char>,
) -> Seq<(Seq<char>, JsonView)>
    decreases members.len(),
{
    if members.len() == 0 {
        members
    } else if members.last().0 == key {
        without_key(members.drop_last(), key)
    } else {
        without_key(members.drop_last(), key).push(members.last())
    }
}

/// The members with `from` renamed to `to`. If there is a member `to` already, it
/// stays and `from` is dropped.
pub open spec fn renamed(
    members: Seq<(Seq<char>, JsonView)>,
    from: Seq<char>,
    to: Seq<char>,
) -> Seq<(Seq<char>, JsonView)> {
    match lookup(members, from) {
        None => members,
        Some(value) => if lookup(without_key(members, from), to) is Some {
            without_key(members, from)
        } else {
            without_key(members, from).push((to, value))
        },
    }
}

/// There is a member with the key `key`.
pub open spec fn has_key(members: Seq<(Seq<char>, JsonView)>, key: Seq<char>) -> bool {
    lookup(members, key) is Some
}

/// The parameters of a proposal in the form that its tool expects. Nothing if a
/// parameter that the tool needs is missing.
pub open spec fn normalized(tool: Seq<char>, params: JsonView) -> Option<JsonView> {
    match params {
        JsonView::Object(m) => {
            let with_path = renamed(m, "path"@, "file_path"@);
            if tool == "code.read"@ {
                if has_key(with_path, "file_path"@) {
                    Some(JsonView::Object(with_path))
                } else {
                    None
                }
            } else if tool == "code.write"@ {
                let with_content = renamed(with_path, "new_content"@, "content"@);
                if has_key(with_content, "file_path"@) && has_key(with_content, "content"@) {
                    Some(JsonView::Object(with_content))
                } else {
                    None
                }
            } else if tool == "code.edit"@ {
                if has_key(with_path, "file_path"@) && has_key(with_path, "old_string"@) && has_key(
                    with_path,
                    "new_string"@,
                ) {
                    Some(JsonView::Object(with_path))
                } else {
                    None
                }
            } else if tool == "code.grep"@ {
                if has_key(m, "pattern"@) {
                    Some(params)
                } else {
                    None
                }
            } else {
                Some(params)
            }
        },
        _ => None,
    }
}

/// Tells whether an object has the member `key`.
fn contains_key(j: &Json, key: &str) -> (r: bool)
    ensures
        r == (j@.field(key@) is Some),
{
    j.get(key).is_some()
}

/// Renames a member of an object.
fn rename_member(j: Json, from: &str, to: &str) -> (r: Json)
    requires
        j@ is Object,
    ensures
        r@ == JsonView::Object(renamed(j@->Object_0, from@, to@)),
{
    broadcast use object_view;

    let ghost all = j@->Object_0;
    let value = match j.get(from) {
        Some(v) => v.clone(),
        None => {
            return j;
        },
    };
    match j {
        Json::Object(members) => {
            let mut out: Vec<(String, Json)> = Vec::new();
            let mut i: usize = 0;
            assert(member_views(out@) =~= without_key(all.subrange(0, 0), from@));
            while i < members.len()
                invariant
                    i <= members@.len(),
                    all == member_views(members@),
                    member_views(out@) == without_key(all.subrange(0, i as int), from@),
                decreases members@.len() - i,
            {
                let ghost seen = all.subrange(0, i + 1);
                let ghost before = out@;
                assert(seen.drop_last() =~= all.subrange(0, i as int));
                assert(seen.last() == (members@[i as int].0@, members@[i as int].1@));
                if !str_eq(members[i].0.as_str(), from) {
                    out.push((members[i].0.clone(), members[i].1.clone()));
                    assert(member_views(out@) =~= member_views(before).push(seen.last()));
                }
                i = i + 1;
            }
            assert(all.subrange(0, all.len() as int) =~= all);
            let kept = Json::object(out);
            if contains_key(&kept, to) {
                kept
            } else {
                match kept {
                    Json::Object(mut rest) => {
                        let ghost before = rest@;
                        rest.push((to.to_owned(), value));
                        assert(member_views(rest@) =~= member_views(before).push((to@, value@)));
                        Json::object(rest)
                    },
                    other => other,
                }
            }
        },
        other => other,
    }
}

/// Brings the parameters of a proposal into the form that its tool expects.
///
/// `path` becomes `file_path` and, for a write, `new_content` becomes `content`.
/// A proposal whose parameters are no object, or that lacks a parameter that its
/// tool needs, is dropped.
pub fn normalize_coding_proposal(proposal: CodingExecProposal) -> (r: Option<CodingExecProposal>)
    ensures
        match normalized(proposal.tool_name@, proposal.params@) {
            Some(params) => r matches Some(p) && p.tool_name == proposal.tool_name && p.rationale
                == proposal.rationale && p.params@ == params,
            None => r is None,
        },
{
    broadcast use object_view;

    let CodingExecProposal { tool_name, params, rationale } = proposal;
    match &params {
        Json::Object(_) => {},
        _ => {
            return None;
        },
    }
    if str_eq(tool_name.as_str(), "code.read") {
        let params = rename_member(params, "path", "file_path");
        if contains_key(&params, "file_path") {
            Some(CodingExecProposal { tool_name, params, rationale })
        } else {
            None
        }
    } else if str_eq(tool_name.as_str(), "code.write") {
        let params = rename_member(params, "path", "file_path");
        let params = rename_member(params, "new_content", "content");
        if contains_key(&params, "file_path") && contains_key(&params, "content") {
            Some(CodingExecProposal { tool_name, params, rationale })
        } else {
            None
        }
    } else if str_eq(tool_name.as_str(), "code.edit") {
        let params = rename_member(params, "path", "file_path");
        if contains_key(&params, "file_path") && contains_key(&params, "old_string")
            && contains_key(&params, "new_string") {
            Some(CodingExecProposal { tool_name, params, rationale })
        } else {
            None
        }
    } else if str_eq(tool_name.as_str(), "code.grep") {
        if contains_key(&params, "pattern") {
            Some(CodingExecProposal { tool_name, params, rationale })
        } else {
            None
        }
    } else {
        Some(CodingExecProposal { tool_name, params, rationale })
    }
}

// ---------------------------------------------------------------------------
// Replies
// ---------------------------------------------------------------------------

/// The status with a given name.
pub open spec fn status_named(name: Seq<char>) -> Option<ExecThreadStatus> {
    if name == "idle"@ {
        Some(ExecThreadStatus::Idle)
    } else if name == "active"@ {
        Some(ExecThreadStatus::Active)
    } else if name == "blocked"@ {
        Some(ExecThreadStatus::Blocked)
    } else if name == "completed"@ {
        Some(ExecThreadStatus::Completed)
    } else if name == "failed"@ {
        Some(ExecThreadStatus::Failed)
    } else {
        None
    }
}

/// The confidence with a given name.
pub open spec fn confidence_named(name: Seq<char>) -> Option<ExecThreadProposalConfidence> {
    if name == "low"@ {
        Some(ExecThreadProposalConfidence::Low)
    } else if name == "medium"@ {
        Some(ExecThreadProposalConfidence::Medium)
    } else if name == "high"@ {
        Some(ExecThreadProposalConfidence::High)
    } else {
        None
    }
}

/// An optional status, absent if the value is missing or null. Nothing if the value
/// names no status.
pub open spec fn maybe_status_of(v: Option<JsonView>) -> Option<Option<ExecThreadStatus>> {
    match v {
        None => Some(None),
        Some(JsonView::Null) => Some(None),
        Some(j) => match variant_of(j) {
            Some(name) => match status_named(name) {
                Some(s) => Some(Some(s)),
                None => None,
            },
            None => None,
        },
    }
}

/// An optional confidence, absent if the value is missing or null. Nothing if the
/// value names none.
pub open spec fn maybe_confidence_of(v: Option<JsonView>) -> Option<
    Option<ExecThreadProposalConfidence>,
> {
    match v {
        None => Some(None),
        Some(JsonView::Null) => Some(None),
        Some(j) => match variant_of(j) {
            Some(name) => match confidence_named(name) {
                Some(c) => Some(Some(c)),
                None => None,
            },
            None => None,
        },
    }
}

/// The proposal that a value describes. Parameters that are missing are null.
pub open spec fn proposal_of(j: JsonView) -> Option<ProposalView> {
    let tool = text_of(field_at(j, "tool_name"@, 0));
    let rationale = text_of(field_at(j, "rationale"@, 2));
    if is_record(j, 3) && tool is Some && rationale is Some {
        Some(
            ProposalView {
                tool_name: tool->Some_0,
                params: match field_at(j, "params"@, 1) {
                    Some(p) => p,
                    None => JsonView::Null,
                },
                rationale: rationale->Some_0,
            },
        )
    } else {
        None
    }
}

/// An optional proposal, absent if the value is missing or null. Nothing if the
/// value describes no proposal.
pub open spec fn maybe_proposal_of(v: Option<JsonView>) -> Option<Option<ProposalView>> {
    match v {
        None => Some(None),
        Some(JsonView::Null) => Some(None),
        Some(j) => match proposal_of(j) {
            Some(p) => Some(Some(p)),
            None => None,
        },
    }
}

/// The reply that a value describes.
pub open spec fn reply_of(j: JsonView) -> Option<ReplyView> {
    let status = maybe_status_of(field_at(j, "status"@, 0));
    let summary = text_of(field_at(j, "summary"@, 1));
    let focus = maybe_text_of(field_at(j, "current_focus"@, 2));
    let phase = maybe_text_of(field_at(j, "work_phase"@, 3));
    let pad = maybe_text_of(field_at(j, "scratchpad"@, 4));
    let complete = flag_of(field_at(j, "evidence_complete"@, 5));
    let confidence = maybe_confidence_of(field_at(j, "proposal_confidence"@, 6));
    let wake = flag_of(field_at(j, "should_wake_master"@, 7));
    let reason = maybe_text_of(field_at(j, "completion_reason"@, 8));
    let action = maybe_proposal_of(field_at(j, "proposed_action"@, 9));
    if is_record(j, 10) && status is Some && summary is Some && focus is Some && phase is Some
        && pad is Some && complete is Some && confidence is Some && wake is Some && reason is Some
        && action is Some {
        Some(
            ReplyView {
                status: status->Some_0,
                summary: summary->Some_0,
                current_focus: focus->Some_0,
                work_phase: phase->Some_0,
                scratchpad: pad->Some_0,
                evidence_complete: complete->Some_0,
                proposal_confidence: confidence->Some_0,
                should_wake_master: wake->Some_0,
                completion_reason: reason->Some_0,
                proposed_action: action->Some_0,
            },
        )
    } else {
        None
    }
}

/// The reply that a JSON text holds.
pub open spec fn reply_in(text: Seq<char>) -> Option<ReplyView> {
    match parsed(text) {
        Ok(j) => reply_of(j),
        Err(_) => None,
    }
}

/// The reply that stands for a text that is no JSON reply: the text is its summary.
pub open spec fn plain_reply(text: Seq<char>) -> ReplyView {
    ReplyView {
        status: None,
        summary: text,
        current_focus: None,
        work_phase: None,
        scratchpad: None,
        evidence_complete: false,
        proposal_confidence: None,
        should_wake_master: false,
        completion_reason: None,
        proposed_action: None,
    }
}

/// The reply that a text of the language model holds: the whole text as JSON, or
/// else the JSON in its first code fence, or else the text itself as the summary.
pub open spec fn reply_from(text: Seq<char>) -> ReplyView {
    match reply_in(text) {
        Some(reply) => reply,
        None => match fenced(text) {
            Some(content) => match reply_in(content) {
                Some(reply) => reply,
                None => plain_reply(text),
            },
            None => plain_reply(text),
        },
    }
}

fn read_status(v: Option<&Json>) -> (r: Option<Option<ExecThreadStatus>>)
    ensures
        r == maybe_status_of(ref_json(v)),
{
    let j = match v {
        None => {
            return Some(None);
        },
        Some(Json::Null) => {
            return Some(None);
        },
        Some(j) => j,
    };
    match read_variant(j) {
        Some(name) => {
            let name = name.as_str();
            if str_eq(name, "idle") {
                Some(Some(ExecThreadStatus::Idle))
            } else if str_eq(name, "active") {
                Some(Some(ExecThreadStatus::Active))
            } else if str_eq(name, "blocked") {
                Some(Some(ExecThreadStatus::Blocked))
            } else if str_eq(name, "completed") {
                Some(Some(ExecThreadStatus::Completed))
            } else if str_eq(name, "failed") {
                Some(Some(ExecThreadStatus::Failed))
            } else {
                None
            }
        },
        None => None,
    }
}

fn read_confidence(v: Option<&Json>) -> (r: Option<Option<ExecThreadProposalConfidence>>)
    ensures
        r == maybe_confidence_of(ref_json(v)),
{
    let j = match v {
        None => {
            return Some(None);
        },
        Some(Json::Null) => {
            return Some(None);
        },
        Some(j) => j,
    };
    match read_variant(j) {
        Some(name) => {
            let name = name.as_str();
            if str_eq(name, "low") {
                Some(Some(ExecThreadProposalConfidence::Low))
            } else if str_eq(name, "medium") {
                Some(Some(ExecThreadProposalConfidence::Medium))
            } else if str_eq(name, "high") {
                Some(Some(ExecThreadProposalConfidence::High))
            } else {
                None
            }
        },
        None => None,
    }
}

/// The model of an optional proposal that could not be read.
pub open spec fn opt_opt_proposal(p: Option<Option<CodingExecProposal>>) -> Option<
    Option<ProposalView>,
> {
    match p {
        Some(p) => Some(opt_proposal(p)),
        None => None,
    }
}

fn read_proposal(v: Option<&Json>) -> (r: Option<Option<CodingExecProposal>>)
    ensures
        opt_opt_proposal(r) == maybe_proposal_of(ref_json(v)),
{
    let j = match v {
        None => {
            return Some(None);
        },
        Some(Json::Null) => {
            return Some(None);
        },
        Some(j) => j,
    };
    if !has_record_form(j, 3) {
        return None;
    }
    let tool = read_text(record_field(j, "tool_name", 0));
    let rationale = read_text(record_field(j, "rationale", 2));
    let params = match record_field(j, "params", 1) {
        Some(p) => p.clone(),
        None => Json::Null,
    };
    match (tool, rationale) {
        (Some(tool_name), Some(rationale)) => Some(
            Some(CodingExecProposal { tool_name, params, rationale }),
        ),
        _ => None,
    }
}

/// The model of a reply, if there is one.
pub open spec fn opt_reply(r: Option<CodingExecResponse>) -> Option<ReplyView> {
    match r {
        Some(r) => Some(r@),
        None => None,
    }
}

/// Reads the reply that a JSON value describes.
pub fn read_reply(j: &Json) -> (r: Option<CodingExecResponse>)
    ensures
        opt_reply(r) == reply_of(j@),
{
    if !has_record_form(j, 10) {
        return None;
    }
    let status = read_status(record_field(j, "status", 0));
    let summary = read_text(record_field(j, "summary", 1));
    let current_focus = read_maybe_text(record_field(j, "current_focus", 2));
    let work_phase = read_maybe_text(record_field(j, "work_phase", 3));
    let scratchpad = read_maybe_text(record_field(j, "scratchpad", 4));
    let evidence_complete = read_flag(record_field(j, "evidence_complete", 5));
    let proposal_confidence = read_confidence(record_field(j, "proposal_confidence", 6));
    let should_wake_master = read_flag(record_field(j, "should_wake_master", 7));
    let completion_reason = read_maybe_text(record_field(j, "completion_reason", 8));
    let proposed_action = read_proposal(record_field(j, "proposed_action", 9));
    match (status, summary, current_focus, work_phase, scratchpad) {
        (
            Some(status),
            Some(summary),
            Some(current_focus),
            Some(work_phase),
            Some(scratchpad),
        ) => match (
            evidence_complete,
            proposal_confidence,
            should_wake_master,
            completion_reason,
            proposed_action,
        ) {
            (
                Some(evidence_complete),
                Some(proposal_confidence),
                Some(should_wake_master),
                Some(completion_reason),
                Some(proposed_action),
            ) => Some(
                CodingExecResponse {
                    status,
                    summary,
                    current_focus,
                    work_phase,
                    scratchpad,
                    evidence_complete,
                    proposal_confidence,
                    should_wake_master,
                    completion_reason,
                    proposed_action,
                },
            ),
            _ => None,
        },
        _ => None,
    }
}

/// Reads the reply that a JSON text holds.
fn read_reply_text(text: &str) -> (r: Option<CodingExecResponse>)
    ensures
        opt_reply(r) == reply_in(text@),
{
    match parse_json(text) {
        Ok(j) => read_reply(&j),
        Err(_) => None,
    }
}

/// Reads a reply of the language model to a coding thread.
pub fn parse_exec_response(response_text: &str) -> (r: CodingExecResponse)
    ensures
        r@ == reply_from(response_text@),
{
    match read_reply_text(response_text) {
        Some(reply) => {
            return reply;
        },
        None => {},
    }
    match extract_json_from_code_fence(response_text) {
        Some(content) => match read_reply_text(content) {
            Some(reply) => {
                return reply;
            },
            None => {},
        },
        None => {},
    }
    CodingExecResponse {
        status: None,
        summary: response_text.to_owned(),
        current_focus: None,
        work_phase: None,
        scratchpad: None,
        evidence_complete: false,
        proposal_confidence: None,
        should_wake_master: false,
        completion_reason: None,
        proposed_action: None,
    }
}

// ---------------------------------------------------------------------------
// Feedback
// ---------------------------------------------------------------------------

/// The record of an action that the thread proposed, with a tool that fulfils `p`
/// and with the outcome success exactly if `success`.
pub open spec fn did(
    r: ActionRecord,
    thread_id: ThreadId,
    p: spec_fn(Seq<char>) -> bool,
    success: bool,
) -> bool {
    r.origin_exec_thread_id == Some(thread_id) && p(r.action_type@) && (r.outcome
        == ActionOutcome::Success) == success
}

/// Some record is of such an action.
pub open spec fn any_did(
    records: Seq<ActionRecord>,
    thread_id: ThreadId,
    p: spec_fn(Seq<char>) -> bool,
    success: bool,
) -> bool {
    exists|i: int| 0 <= i < records.len() && did(#[trigger] records[i], thread_id, p, success)
}

/// What the actions of a tick tell the thread that proposed them.
pub open spec fn feedback_of(records: Seq<ActionRecord>, thread_id: ThreadId) -> CodingFeedbackState {
    CodingFeedbackState {
        mutating_success: any_did(records, thread_id, |t: Seq<char>| is_mutating(t), true),
        mutating_failure: any_did(records, thread_id, |t: Seq<char>| is_mutating(t), false),
        verification_success: any_did(records, thread_id, |t: Seq<char>| is_verifying(t), true),
    }
}

/// Tells a thread what became of the actions that it proposed in the latest tick.
/// Without a latest tick there is no feedback.
pub fn coding_feedback_from_latest_tick(
    latest: &Option<Vec<ActionRecord>>,
    thread_id: ThreadId,
) -> (r: CodingFeedbackState)
    ensures
        r == (match *latest {
            Some(records) => feedback_of(records@, thread_id),
            None => feedback_of(Seq::empty(), thread_id),
        }),
{
    let mut mutating_success = false;
    let mut mutating_failure = false;
    let mut verification_success = false;
    match latest {
        None => {},
        Some(records) => {
            let ghost mutates = |t: Seq<char>| is_mutating(t);
            let ghost verifies = |t: Seq<char>| is_verifying(t);
            let mut i: usize = 0;
            while i < records.len()
                invariant
                    i <= records@.len(),
                    mutates == (|t: Seq<char>| is_mutating(t)),
                    verifies == (|t: Seq<char>| is_verifying(t)),
                    mutating_success == any_did(
                        records@.subrange(0, i as int),
                        thread_id,
                        mutates,
                        true,
                    ),
                    mutating_failure == any_did(
                        records@.subrange(0, i as int),
                        thread_id,
                        mutates,
                        false,
                    ),
                    verification_success == any_did(
                        records@.subrange(0, i as int),
                        thread_id,
                        verifies,
                        true,
                    ),
                decreases records@.len() - i,
            {
                let record = &records[i];
                let tool = record.action_type.as_str();
                let mine = match record.origin_exec_thread_id {
                    Some(id) => id == thread_id,
                    None => false,
                };
                let success = record.outcome == ActionOutcome::Success;
                let ghost next = records@.subrange(0, i + 1);
                proof {
                    exploring_never_mutates(tool@);
                    any_did_step(records@, i as int, thread_id, mutates, true);
                    any_did_step(records@, i as int, thread_id, mutates, false);
                    any_did_step(records@, i as int, thread_id, verifies, true);
                }
                if mine {
                    if is_mutating_code_action(tool) {
                        if success {
                            mutating_success = true;
                        } else {
                            mutating_failure = true;
                        }
                    } else if success && (str_eq(tool, "code.read") || str_eq(tool, "code.grep")
                        || str_eq(tool, "shell.exec")) {
                        verification_success = true;
                    }
                }
                i = i + 1;
            }
            assert(records@.subrange(0, records@.len() as int) =~= records@);
        },
    }
    CodingFeedbackState { mutating_success, mutating_failure, verification_success }
}

/// One more record adds what that record did.
proof fn any_did_step(
    records: Seq<ActionRecord>,
    i: int,
    thread_id: ThreadId,
    p: spec_fn(Seq<char>) -> bool,
    success: bool,
)
    requires
        0 <= i < records.len(),
    ensures
        any_did(records.subrange(0, i + 1), thread_id, p, success) == (any_did(
            records.subrange(0, i),
            thread_id,
            p,
            success,
        ) || did(records[i], thread_id, p, success)),
{
    let now = records.subrange(0, i + 1);
    let before = records.subrange(0, i);
    if any_did(before, thread_id, p, success) {
        let k = choose|k: int|
            0 <= k < before.len() && did(#[trigger] before[k], thread_id, p, success);
        assert(now[k] == before[k]);
    }
    if did(records[i], thread_id, p, success) {
        assert(now[i] == records[i]);
    }
    if any_did(now, thread_id, p, success) {
        let k = choose|k: int| 0 <= k < now.len() && did(#[trigger] now[k], thread_id, p, success);
        if k < i {
            assert(before[k] == now[k]);
        }
    }
}

/// The state of a turn: status, local state and reply.
pub struct TurnView {
    pub status: ExecThreadStatus,
    pub local: LocalView,
    pub reply: ReplyView,
}

/// The turn after the feedback on a failed change: the thread goes on editing.
pub open spec fn after_failed_change(t: TurnView) -> TurnView {
    TurnView {
        status: ExecThreadStatus::Active,
        local: LocalView {
            verification_pending: false,
            verification_attempted: false,
            work_phase: Some("editing"@),
            ..t.local
        },
        reply: ReplyView {
            proposal_confidence: if t.reply.proposal_confidence is None {
                Some(ExecThreadProposalConfidence::Medium)
            } else {
                t.reply.proposal_confidence
            },
            ..t.reply
        },
    }
}

/// The local state when a change succeeded: it is to be verified.
pub open spec fn verification_due(local: LocalView, mutating_success: bool) -> LocalView {
    if mutating_success {
        LocalView {
            verification_pending: true,
            verification_attempted: false,
            work_phase: Some("verifying"@),
            ..local
        }
    } else {
        local
    }
}

/// The local state when a verification is proposed while one is due.
pub open spec fn verification_noted(local: LocalView, reply: ReplyView) -> LocalView {
    if local.verification_pending && reply.proposed_action is Some && is_verifying(
        reply.proposed_action->Some_0.tool_name,
    ) {
        LocalView { verification_attempted: true, ..local }
    } else {
        local
    }
}

/// The turn after a verification succeeded: the work is done.
pub open spec fn after_verification(t: TurnView) -> TurnView {
    let reason = if t.local.last_completion_reason is None {
        Some("Coding work item completed after successful verification"@)
    } else {
        t.local.last_completion_reason
    };
    TurnView {
        status: ExecThreadStatus::Idle,
        local: LocalView {
            verification_pending: false,
            verification_attempted: true,
            evidence_complete: true,
            work_phase: Some("idle"@),
            last_completion_reason: reason,
            ..t.local
        },
        reply: ReplyView {
            completion_reason: reason,
            proposed_action: None,
            should_wake_master: false,
            ..t.reply
        },
    }
}

/// The turn after the feedback on earlier proposals.
pub open spec fn with_feedback(t: TurnView, feedback: CodingFeedbackState) -> TurnView {
    if feedback.mutating_failure {
        after_failed_change(t)
    } else {
        let local = verification_noted(
            verification_due(t.local, feedback.mutating_success),
            t.reply,
        );
        if local.verification_pending && feedback.verification_success {
            after_verification(TurnView { local, ..t })
        } else if local.verification_pending && local.verification_attempted
            && t.reply.proposed_action is Some && is_exploring(
            t.reply.proposed_action->Some_0.tool_name,
        ) {
            TurnView {
                status: ExecThreadStatus::Idle,
                local,
                reply: ReplyView { proposed_action: None, should_wake_master: false, ..t.reply },
            }
        } else {
            TurnView { local, ..t }
        }
    }
}

/// Applies the feedback on earlier proposals to a turn.
pub fn apply_coding_feedback_state(
    status: &mut ExecThreadStatus,
    local_state: &mut ExecThreadLocalState,
    feedback: &CodingFeedbackState,
    parsed: &mut CodingExecResponse,
)
    ensures
        (TurnView { status: *final(status), local: final(local_state)@, reply: final(parsed)@ })
            == with_feedback(
            TurnView { status: *old(status), local: old(local_state)@, reply: old(parsed)@ },
            *feedback,
        ),
{
    if feedback.mutating_failure {
        local_state.verification_pending = false;
        local_state.verification_attempted = false;
        local_state.work_phase = Some("editing".to_owned());
        if parsed.proposal_confidence.is_none() {
            parsed.proposal_confidence = Some(ExecThreadProposalConfidence::Medium);
        }
        *status = ExecThreadStatus::Active;
        return;
    }
    if feedback.mutating_success {
        local_state.verification_pending = true;
        local_state.verification_attempted = false;
        local_state.work_phase = Some("verifying".to_owned());
    }
    if local_state.verification_pending && is_verification_action(&parsed.proposed_action) {
        local_state.verification_attempted = true;
    }
    if local_state.verification_pending && feedback.verification_success {
        local_state.verification_pending = false;
        local_state.verification_attempted = true;
        local_state.evidence_complete = true;
        local_state.work_phase = Some("idle".to_owned());
        if local_state.last_completion_reason.is_none() {
            local_state.last_completion_reason = Some(
                "Coding work item completed after successful verification".to_owned(),
            );
        }
        parsed.completion_reason = clone_opt(&local_state.last_completion_reason);
        parsed.proposed_action = None;
        parsed.should_wake_master = false;
        *status = ExecThreadStatus::Idle;
        return;
    }
    let explores = match &parsed.proposed_action {
        Some(proposal) => is_exploratory_tool(proposal.tool_name.as_str()),
        None => false,
    };
    if local_state.verification_pending && local_state.verification_attempted && explores {
        parsed.proposed_action = None;
        parsed.should_wake_master = false;
        *status = ExecThreadStatus::Idle;
    }
}

// ---------------------------------------------------------------------------
// A turn of a coding thread
// ---------------------------------------------------------------------------

/// What a coding thread is given for a turn, besides the reply.
pub struct TurnInput {
    pub new_messages: bool,
    pub results: bool,
    pub local: LocalView,
    pub feedback: CodingFeedbackState,
}

/// The reply with its proposal in the form that the tool expects, and with a
/// confidence for a proposal that has none.
pub open spec fn prepared_reply(reply: ReplyView) -> ReplyView {
    let action = match reply.proposed_action {
        Some(p) => match normalized(p.tool_name, p.params) {
            Some(params) => Some(ProposalView { params, ..p }),
            None => None,
        },
        None => None,
    };
    ReplyView {
        proposed_action: action,
        proposal_confidence: if reply.proposal_confidence is None && action is Some {
            if reply.evidence_complete {
                Some(ExecThreadProposalConfidence::High)
            } else {
                Some(ExecThreadProposalConfidence::Medium)
            }
        } else {
            reply.proposal_confidence
        },
        ..reply
    }
}

/// `a` if it is there, otherwise `b`.
pub open spec fn or_else<T>(a: Option<T>, b: Option<T>) -> Option<T> {
    if a is Some {
        a
    } else {
        b
    }
}

/// The turn before the feedback is applied.
pub open spec fn turn_of(reply: ReplyView, input: TurnInput) -> TurnView {
    let r = prepared_reply(reply);
    TurnView {
        status: kept_status(
            match r.status {
                Some(s) => s,
                None => default_status(
                    r,
                    input.new_messages,
                    input.results,
                    input.local.awaiting_feedback,
                ),
            },
        ),
        local: LocalView {
            scratchpad: r.scratchpad,
            current_focus: r.current_focus,
            last_completion_reason: or_else(
                r.completion_reason,
                input.local.last_completion_reason,
            ),
            work_phase: or_else(r.work_phase, input.local.work_phase),
            evidence_complete: r.evidence_complete,
            verification_pending: input.local.verification_pending,
            verification_attempted: input.local.verification_attempted,
            proposal_confidence: or_else(
                r.proposal_confidence,
                input.local.proposal_confidence,
            ),
            awaiting_feedback: r.proposed_action is Some,
            should_wake_master: r.should_wake_master,
        },
        reply: r,
    }
}

/// The turn that a reply leads to.
pub open spec fn settled_turn(reply: ReplyView, input: TurnInput) -> TurnView {
    with_feedback(turn_of(reply, input), input.feedback)
}

/// The output of a turn.
pub open spec fn outputs(
    o: ExecThreadOutput,
    turn: TurnView,
    thread_id: ThreadId,
    tick_id: TickId,
) -> bool {
    &&& o.thread_id == thread_id
    &&& o.tick_id == tick_id
    &&& o.kind == ExecThreadKind::Coding
    &&& o.summary@ == turn.reply.summary
    &&& o.status == turn.status
    &&& o.evidence_complete == turn.local.evidence_complete
    &&& o.proposal_confidence == turn.local.proposal_confidence
    &&& o.local_state@ == turn.local
    &&& match (o.proposed_action, turn.reply.proposed_action) {
        (Some(p), Some(q)) => p.proposal_id@ == id_text(tick_id.raw) + "-"@ + id_text(
            thread_id.raw,
        ) && p.tool_name@ == q.tool_name && p.params@ == q.params && p.rationale@ == q.rationale,
        (None, None) => true,
        _ => false,
    }
}

fn first_of(a: &Option<String>, b: &Option<String>) -> (r: Option<String>)
    ensures
        opt_text(r) == or_else(opt_text(*a), opt_text(*b)),
{
    if a.is_some() {
        clone_opt(a)
    } else {
        clone_opt(b)
    }
}

/// Turns a reply of the language model into the output of a turn of a coding
/// thread, which is stored under `artifact_id`.
pub fn settle_coding_turn(
    thread_id: ThreadId,
    tick_id: TickId,
    artifact_id: ArtifactId,
    response_text: &str,
    new_messages: bool,
    pending_results: bool,
    local_state: &ExecThreadLocalState,
    feedback: &CodingFeedbackState,
) -> (o: ExecThreadOutput)
    ensures
        o.artifact_id == artifact_id,
        outputs(
            o,
            settled_turn(
                reply_from(response_text@),
                TurnInput {
                    new_messages,
                    results: pending_results,
                    local: local_state@,
                    feedback: *feedback,
                },
            ),
            thread_id,
            tick_id,
        ),
{
    let reply = parse_exec_response(response_text);
    settle_coding_reply(
        thread_id,
        tick_id,
        artifact_id,
        reply,
        new_messages,
        pending_results,
        local_state,
        feedback,
    )
}

/// Turns a reply that was read into the output of a turn of a coding thread.
#[verifier::rlimit(60)]
pub fn settle_coding_reply(
    thread_id: ThreadId,
    tick_id: TickId,
    artifact_id: ArtifactId,
    reply: CodingExecResponse,
    new_messages: bool,
    pending_results: bool,
    local_state: &ExecThreadLocalState,
    feedback: &CodingFeedbackState,
) -> (o: ExecThreadOutput)
    ensures
        o.artifact_id == artifact_id,
        outputs(
            o,
            settled_turn(
                reply@,
                TurnInput {
                    new_messages,
                    results: pending_results,
                    local: local_state@,
                    feedback: *feedback,
                },
            ),
            thread_id,
            tick_id,
        ),
{
    let ghost given = reply@;
    let CodingExecResponse {
        status,
        summary,
        current_focus,
        work_phase,
        scratchpad,
        evidence_complete,
        proposal_confidence,
        should_wake_master,
        completion_reason,
        proposed_action,
    } = reply;
    let proposed_action = match proposed_action {
        Some(p) => normalize_coding_proposal(p),
        None => None,
    };
    let confidence = if proposal_confidence.is_none() && proposed_action.is_some() {
        if evidence_complete {
            Some(ExecThreadProposalConfidence::High)
        } else {
            Some(ExecThreadProposalConfidence::Medium)
        }
    } else {
        proposal_confidence
    };
    let mut reply = CodingExecResponse {
        status,
        summary,
        current_focus,
        work_phase,
        scratchpad,
        evidence_complete,
        proposal_confidence: confidence,
        should_wake_master,
        completion_reason,
        proposed_action,
    };
    assert(reply@ == prepared_reply(given));
    let chosen = match reply.status {
        Some(s) => s,
        None => default_coding_status(&reply, new_messages, pending_results, local_state),
    };
    let mut status = canonicalize_exec_thread_status(chosen);
    let kept_confidence = if reply.proposal_confidence.is_some() {
        reply.proposal_confidence
    } else {
        local_state.proposal_confidence
    };
    let mut next = ExecThreadLocalState {
        scratchpad: clone_opt(&reply.scratchpad),
        current_focus: clone_opt(&reply.current_focus),
        last_completion_reason: first_of(
            &reply.completion_reason,
            &local_state.last_completion_reason,
        ),
        work_phase: first_of(&reply.work_phase, &local_state.work_phase),
        evidence_complete: reply.evidence_complete,
        verification_pending: local_state.verification_pending,
        verification_attempted: local_state.verification_attempted,
        proposal_confidence: kept_confidence,
        awaiting_feedback: reply.proposed_action.is_some(),
        should_wake_master: reply.should_wake_master,
    };
    assert((TurnView { status, local: next@, reply: reply@ }) == turn_of(
        given,
        TurnInput {
            new_messages,
            results: pending_results,
            local: local_state@,
            feedback: *feedback,
        },
    ));
    apply_coding_feedback_state(&mut status, &mut next, feedback, &mut reply);
    let proposed_action = match reply.proposed_action {
        Some(p) => {
            let mut proposal_id = write_id(tick_id.raw);
            proposal_id.append("-");
            proposal_id.append(write_id(thread_id.raw).as_str());
            Some(
                ExecThreadProposal {
                    proposal_id,
                    tool_name: p.tool_name,
                    params: p.params,
                    rationale: p.rationale,
                },
            )
        },
        None => None,
    };
    ExecThreadOutput {
        thread_id,
        tick_id,
        artifact_id,
        kind: ExecThreadKind::Coding,
        summary: reply.summary,
        status,
        evidence_complete: next.evidence_complete,
        proposal_confidence: next.proposal_confidence,
        proposed_action,
        local_state: next,
    }
}

/// A turn never ends in the completed status: completed work leaves the thread idle.
pub proof fn turn_is_never_completed(reply: ReplyView, input: TurnInput)
    ensures
        settled_turn(reply, input).status != ExecThreadStatus::Completed,
{
}

/// After a failed change the thread is active, whatever the model replied.
pub proof fn failed_change_keeps_thread_active(reply: ReplyView, input: TurnInput)
    requires
        input.feedback.mutating_failure,
    ensures
        settled_turn(reply, input).status == ExecThreadStatus::Active,
        !settled_turn(reply, input).local.verification_pending,
{
}

/// Once a pending verification has succeeded the thread is idle, proposes nothing,
/// and has a reason for its completion.
pub proof fn verified_work_is_done(reply: ReplyView, input: TurnInput)
    requires
        !input.feedback.mutating_failure,
        input.feedback.verification_success,
        input.feedback.mutating_success || input.local.verification_pending,
    ensures
        settled_turn(reply, input).status == ExecThreadStatus::Idle,
        settled_turn(reply, input).reply.proposed_action is None,
        settled_turn(reply, input).local.last_completion_reason is Some,
{
}

/// The event that tells that a thread ran.
pub fn exec_thread_event(name: &str, output: &ExecThreadOutput) -> (s: String)
    ensures
        s@ == "Exec thread "@ + name@ + ": "@ + output.summary@,
{
    let mut s = "Exec thread ".to_owned();
    s.append(name);
    s.append(": ");
    s.append(output.summary.as_str());
    s
}

/// What the output of a turn contributes to the tick.
pub fn contribution_of(output: &ExecThreadOutput) -> (c: ExecThreadContribution)
    ensures
        c.thread_id == output.thread_id,
        c.kind == output.kind,
        c.artifact_id == output.artifact_id,
        c.summary == output.summary,
        match output.proposed_action {
            Some(p) => c.proposal_id == Some(p.proposal_id) && (c.proposed_action_summary matches Some(
                t,
            ) && t@ == p.tool_name@ + ": "@ + p.rationale@),
            None => c.proposal_id is None && c.proposed_action_summary is None,
        },
{
    let (proposal_id, proposed_action_summary) = match &output.proposed_action {
        Some(p) => {
            let mut t = p.tool_name.clone();
            t.append(": ");
            t.append(p.rationale.as_str());
            (Some(p.proposal_id.clone()), Some(t))
        },
        None => (None, None),
    };
    ExecThreadContribution {
        thread_id: output.thread_id,
        kind: output.kind,
        artifact_id: output.artifact_id.clone(),
        summary: output.summary.clone(),
        proposal_id,
        proposed_action_summary,
    }
}

/// What to do with the next executable thread.
#[derive(Debug, Clone, Copy, PartialEq, Eq, Structural)]
pub enum ExecStep {
    /// The tick was cancelled: no further thread runs.
    Stop,
    /// This thread does not run.
    Skip,
    Run,
}

/// Decides what to do with the next executable thread.
pub fn next_exec_step(
    cancelled: bool,
    spec: &ExecThreadSpec,
    status: ExecThreadStatus,
    new_messages: bool,
    pending_results: bool,
    local_state: &ExecThreadLocalState,
) -> (r: ExecStep)
    ensures
        r == (if cancelled {
            ExecStep::Stop
        } else if status != ExecThreadStatus::Failed && (status != ExecThreadStatus::Idle
            || work_waits(new_messages, pending_results, local_state.awaiting_feedback)
            || local_state.should_wake_master) {
            ExecStep::Run
        } else {
            ExecStep::Skip
        }),
{
    if cancelled {
        ExecStep::Stop
    } else if should_run_exec_thread(spec, status, new_messages, pending_results, local_state) {
        ExecStep::Run
    } else {
        ExecStep::Skip
    }
}

// ---------------------------------------------------------------------------
// The prompt of a coding thread
// ---------------------------------------------------------------------------

/// A message of a conversation with its stored content, if that was found.
#[derive(Debug, PartialEq, Eq)]
pub struct ResolvedMessage {
    pub source: String,
    pub content: Option<Vec<u8>>,
}

/// The result of an action of the previous tick with the content of its receipt, if
/// that was found.
#[derive(Debug, PartialEq, Eq)]
pub struct ResolvedResult {
    pub summary: String,
    pub receipt: Option<Vec<u8>>,
}

/// What the prompt counts.
#[derive(Debug, Clone, Copy, PartialEq, Eq, Structural)]
pub struct PromptCounts {
    pub thread_outputs: usize,
    pub exec_thread_outputs: usize,
    pub messages: usize,
}

/// The longest receipt that a prompt quotes, in bytes.
pub const RECEIPT_LIMIT: usize = 1200;

/// The text that stored content holds, if it is valid UTF-8.
pub open spec fn content_text(content: Option<Vec<u8>>) -> Option<Seq<char>> {
    match content {
        Some(bytes) => if valid_utf8(bytes@) {
            Some(decode_utf8(bytes@))
        } else {
            None
        },
        None => None,
    }
}

/// The line of a message.
pub open spec fn message_line(m: ResolvedMessage) -> Seq<char> {
    "- ["@ + m.source@ + "] "@ + trimmed(
        match content_text(m.content) {
            Some(t) => t,
            None => "<unresolved message>"@,
        },
    ) + "\n"@
}

/// The lines of the messages, one after the other.
pub open spec fn message_lines(messages: Seq<ResolvedMessage>) -> Seq<char>
    decreases messages.len(),
{
    if messages.len() == 0 {
        Seq::empty()
    } else {
        message_lines(messages.drop_last()) + message_line(messages.last())
    }
}

/// `text`, or "none" if it is blank.
pub open spec fn or_none(text: Seq<char>) -> Seq<char> {
    if trimmed(text).len() == 0 {
        "none"@
    } else {
        text
    }
}

fn content_string(content: &Option<Vec<u8>>) -> (r: Option<String>)
    ensures
        opt_text(r) == content_text(*content),
{
    match content {
        Some(bytes) => {
            let copy = bytes.clone();
            assert(copy@ =~= bytes@);
            utf8_text(copy)
        },
        None => None,
    }
}

/// Renders the recent messages of the conversations.
pub fn render_conversation_context(messages: &Vec<ResolvedMessage>) -> (r: String)
    ensures
        r@ == or_none(message_lines(messages@)),
{
    let mut out = String::new();
    let mut i: usize = 0;
    assert(out@ =~= message_lines(messages@.subrange(0, 0)));
    while i < messages.len()
        invariant
            i <= messages@.len(),
            out@ == message_lines(messages@.subrange(0, i as int)),
        decreases messages@.len() - i,
    {
        let m = &messages[i];
        let ghost seen = messages@.subrange(0, i + 1);
        assert(seen.drop_last() =~= messages@.subrange(0, i as int));
        let text = match content_string(&m.content) {
            Some(t) => t,
            None => "<unresolved message>".to_owned(),
        };
        let mut line = "- [".to_owned();
        line.append(m.source.as_str());
        line.append("] ");
        line.append(trim(text.as_str()).as_str());
        line.append("\n");
        out.append(line.as_str());
        i = i + 1;
    }
    assert(messages@.subrange(0, messages@.len() as int) =~= messages@);
    if is_blank(out.as_str()) {
        "none".to_owned()
    } else {
        out
    }
}

/// The part of a receipt that the prompt quotes.
pub open spec fn receipt_preview(text: Seq<char>) -> Seq<char> {
    if byte_len(trimmed(text)) > RECEIPT_LIMIT {
        byte_prefix(trimmed(text), RECEIPT_LIMIT as int)
    } else {
        trimmed(text)
    }
}

/// The preview of the receipt splits no character.
pub open spec fn previewable(r: ResolvedResult) -> bool {
    content_text(r.receipt) matches Some(t) ==> (byte_len(trimmed(t)) > RECEIPT_LIMIT
        ==> cuts_cleanly(trimmed(t), RECEIPT_LIMIT as int))
}

/// Tells whether the previews of the receipts split no character.
pub fn can_preview(results: &Vec<ResolvedResult>) -> (r: bool)
    ensures
        r == (forall|i: int| 0 <= i < results@.len() ==> previewable(#[trigger] results@[i])),
{
    let mut i: usize = 0;
    while i < results.len()
        invariant
            i <= results@.len(),
            forall|k: int| 0 <= k < i ==> previewable(#[trigger] results@[k]),
        decreases results@.len() - i,
    {
        match content_string(&results[i].receipt) {
            Some(text) => {
                let all = trim(text.as_str());
                if over_bytes(all.as_str(), RECEIPT_LIMIT) && !clean_cut(
                    all.as_str(),
                    RECEIPT_LIMIT,
                ) {
                    assert(!previewable(results@[i as int]));
                    return false;
                }
            },
            None => {},
        }
        i = i + 1;
    }
    true
}

/// The lines of a result: its summary, and its receipt if that is text.
pub open spec fn result_line(r: ResolvedResult) -> Seq<char> {
    let head = "- "@ + r.summary@ + "\n"@;
    match content_text(r.receipt) {
        Some(t) => head + "  receipt: "@ + receipt_preview(t) + "\n"@,
        None => head,
    }
}

/// The lines of the results, one after the other.
pub open spec fn result_lines(results: Seq<ResolvedResult>) -> Seq<char>
    decreases results.len(),
{
    if results.len() == 0 {
        Seq::empty()
    } else {
        result_lines(results.drop_last()) + result_line(results.last())
    }
}

/// Renders the results of the actions of the previous tick.
pub fn render_pending_action_results(results: &Vec<ResolvedResult>) -> (r: String)
    requires
        forall|i: int| 0 <= i < results@.len() ==> previewable(#[trigger] results@[i]),
    ensures
        r@ == or_none(result_lines(results@)),
{
    let mut out = String::new();
    let mut i: usize = 0;
    assert(out@ =~= result_lines(results@.subrange(0, 0)));
    while i < results.len()
        invariant
            i <= results@.len(),
            out@ == result_lines(results@.subrange(0, i as int)),
            forall|k: int| 0 <= k < results@.len() ==> previewable(#[trigger] results@[k]),
        decreases results@.len() - i,
    {
        let item = &results[i];
        let ghost seen = results@.subrange(0, i + 1);
        assert(seen.drop_last() =~= results@.subrange(0, i as int));
        let mut line = "- ".to_owned();
        line.append(item.summary.as_str());
        line.append("\n");
        match content_string(&item.receipt) {
            Some(text) => {
                let all = trim(text.as_str());
                let preview = if over_bytes(all.as_str(), RECEIPT_LIMIT) {
                    prefix_bytes(all.as_str(), RECEIPT_LIMIT)
                } else {
                    all
                };
                line.append("  receipt: ");
                line.append(preview.as_str());
                line.append("\n");
            },
            None => {},
        }
        out.append(line.as_str());
        i = i + 1;
    }
    assert(results@.subrange(0, results@.len() as int) =~= results@);
    if is_blank(out.as_str()) {
        "none".to_owned()
    } else {
        out
    }
}

/// The text of `o`, or `default`.
pub open spec fn text_or_default(o: Option<String>, default: Seq<char>) -> Seq<char> {
    match o {
        Some(s) => s@,
        None => default,
    }
}

fn text_or<'a>(o: &'a Option<String>, default: &'a str) -> (r: &'a str)
    ensures
        r@ == text_or_default(*o, default@),
{
    match o {
        Some(s) => s.as_str(),
        None => default,
    }
}

/// The end of the prompt: the parameters of the tools, the rules, and the form of
/// the reply.
pub fn coding_rules() -> (r: &'static str)
    ensures
        r@ == coding_rules_text(),
{
    "\n\
\n\
Tool parameter schemas:\n\
- code.read params: {\"file_path\": \"ABSOLUTE_PATH\", \"offset\": optional_integer, \"limit\": optional_integer}\n\
- code.grep params: {\"pattern\": \"REGEX\", \"path\": \"ABSOLUTE_DIR\", \"output_mode\": optional_string}\n\
- code.edit params: {\"file_path\": \"ABSOLUTE_PATH\", \"old_string\": \"EXACT_TEXT_FROM_RECENT_READ\", \"new_string\": \"REPLACEMENT_TEXT\", \"replace_all\": optional_boolean}\n\
- code.write params: {\"file_path\": \"ABSOLUTE_PATH\", \"content\": \"FULL_FILE_CONTENT\"}\n\
\n\
Rules:\n\
- If there is no active coding work in the conversation or action feedback, return status=\"idle\" and proposed_action=null.\n\
- If the task is complete based on the conversation request and recent action results, set status=\"idle\", set completion_reason, and do not propose another action.\n\
- If a successful action already satisfied the task, prefer completion over redundant reads.\n\
- Use the workspace path exactly as given for any proposed code tool params.\n\
- Prefer code.edit for localized changes. Use code.write only for full-file replacement.\n\
- Never use `path` for code.read, code.edit, or code.write. Use `file_path`.\n\
- Never use `new_content` for code.edit. code.edit must use `old_string` and `new_string` copied exactly from a recent read result.\n\
- When you have enough evidence to perform the next edit safely, set evidence_complete=true.\n\
- Set proposal_confidence to low, medium, or high. Use high only when the next action is directly supported by recent reads/searches/action feedback.\n\
- After a successful mutating action, prefer either completion or one explicit verification action. Do not restart broad exploration.\n\
- If verification already succeeded, transition to idle rather than proposing more exploratory reads.\n\
- For typo or rename tasks, propose the smallest exact replacement needed rather than rewriting the file.\n\
\n\
Respond as JSON with fields: status, summary, current_focus, work_phase, scratchpad, evidence_complete, proposal_confidence, should_wake_master, completion_reason, proposed_action.\n\
`status` should usually be idle, active, or blocked.\n\
`proposed_action` must be null or an object with tool_name, params, rationale."
}

/// The text of the end of the prompt.
pub open spec fn coding_rules_text() -> Seq<char> {
    "\n\
\n\
Tool parameter schemas:\n\
- code.read params: {\"file_path\": \"ABSOLUTE_PATH\", \"offset\": optional_integer, \"limit\": optional_integer}\n\
- code.grep params: {\"pattern\": \"REGEX\", \"path\": \"ABSOLUTE_DIR\", \"output_mode\": optional_string}\n\
- code.edit params: {\"file_path\": \"ABSOLUTE_PATH\", \"old_string\": \"EXACT_TEXT_FROM_RECENT_READ\", \"new_string\": \"REPLACEMENT_TEXT\", \"replace_all\": optional_boolean}\n\
- code.write params: {\"file_path\": \"ABSOLUTE_PATH\", \"content\": \"FULL_FILE_CONTENT\"}\n\
\n\
Rules:\n\
- If there is no active coding work in the conversation or action feedback, return status=\"idle\" and proposed_action=null.\n\
- If the task is complete based on the conversation request and recent action results, set status=\"idle\", set completion_reason, and do not propose another action.\n\
- If a successful action already satisfied the task, prefer completion over redundant reads.\n\
- Use the workspace path exactly as given for any proposed code tool params.\n\
- Prefer code.edit for localized changes. Use code.write only for full-file replacement.\n\
- Never use `path` for code.read, code.edit, or code.write. Use `file_path`.\n\
- Never use `new_content` for code.edit. code.edit must use `old_string` and `new_string` copied exactly from a recent read result.\n\
- When you have enough evidence to perform the next edit safely, set evidence_complete=true.\n\
- Set proposal_confidence to low, medium, or high. Use high only when the next action is directly supported by recent reads/searches/action feedback.\n\
- After a successful mutating action, prefer either completion or one explicit verification action. Do not restart broad exploration.\n\
- If verification already succeeded, transition to idle rather than proposing more exploratory reads.\n\
- For typo or rename tasks, propose the smallest exact replacement needed rather than rewriting the file.\n\
\n\
Respond as JSON with fields: status, summary, current_focus, work_phase, scratchpad, evidence_complete, proposal_confidence, should_wake_master, completion_reason, proposed_action.\n\
`status` should usually be idle, active, or blocked.\n\
`proposed_action` must be null or an object with tool_name, params, rationale."@
}

/// The prompt of a coding thread.
pub open spec fn coding_prompt(
    spec: ExecThreadSpec,
    mission: Seq<char>,
    tick_number: u64,
    last_action: Option<String>,
    local: ExecThreadLocalState,
    counts: PromptCounts,
    conversation: Seq<char>,
    results: Seq<char>,
) -> Seq<char> {
    "Kind: "@ + "Coding"@ + "\nName: "@ + spec.name@ + "\nCharter: "@
         + spec.charter@ + "\nMission: "@ + mission + "\nTick: "@
         + dec((tick_number + 1) as nat) + "\nWorkspace: "@ + text_or_default(spec.workspace_root, "(none)"@) + "\nLast action: "@
         + text_or_default(last_action, "none"@) + "\nCurrent focus: "@ + text_or_default(local.current_focus, "none"@) + "\nWork phase: "@
         + text_or_default(local.work_phase, "none"@) + "\nScratchpad: "@ + text_or_default(local.scratchpad, "none"@) + "\nEvidence complete: "@
         + flag_text(local.evidence_complete) + "\nVerification pending: "@ + flag_text(local.verification_pending) + "\nVerification attempted: "@
         + flag_text(local.verification_attempted) + "\nRecent thread outputs: "@ + dec(counts.thread_outputs as nat) + "\nRecent exec outputs: "@
         + dec(counts.exec_thread_outputs as nat) + "\nRecent messages: "@ + dec(counts.messages as nat) + "\n\nConversation context:\n"@
         + conversation + "\n\nPending action results:\n"@ + results + coding_rules_text()
}

/// Builds the prompt of a coding thread.
pub fn build_coding_exec_prompt(
    spec: &ExecThreadSpec,
    mission: &str,
    tick_number: u64,
    last_action_summary: &Option<String>,
    local_state: &ExecThreadLocalState,
    counts: PromptCounts,
    conversation_context: &str,
    pending_results: &str,
) -> (r: String)
    requires
        tick_number < u64::MAX,
    ensures
        r@ == coding_prompt(
            *spec,
            mission@,
            tick_number,
            *last_action_summary,
            *local_state,
            counts,
            conversation_context@,
            pending_results@,
        ),
{
    let mut out = "Kind: ".to_owned();
    out.append("Coding");
    out.append("\nName: ");
    out.append(spec.name.as_str());
    out.append("\nCharter: ");
    out.append(spec.charter.as_str());
    out.append("\nMission: ");
    out.append(mission);
    out.append("\nTick: ");
    out.append(dec_u64(tick_number + 1).as_str());
    out.append("\nWorkspace: ");
    out.append(text_or(&spec.workspace_root, "(none)"));
    out.append("\nLast action: ");
    out.append(text_or(last_action_summary, "none"));
    out.append("\nCurrent focus: ");
    out.append(text_or(&local_state.current_focus, "none"));
    out.append("\nWork phase: ");
    out.append(text_or(&local_state.work_phase, "none"));
    out.append("\nScratchpad: ");
    out.append(text_or(&local_state.scratchpad, "none"));
    out.append("\nEvidence complete: ");
    out.append(flag_str(local_state.evidence_complete));
    out.append("\nVerification pending: ");
    out.append(flag_str(local_state.verification_pending));
    out.append("\nVerification attempted: ");
    out.append(flag_str(local_state.verification_attempted));
    out.append("\nRecent thread outputs: ");
    out.append(dec_usize(counts.thread_outputs).as_str());
    out.append("\nRecent exec outputs: ");
    out.append(dec_usize(counts.exec_thread_outputs).as_str());
    out.append("\nRecent messages: ");
    out.append(dec_usize(counts.messages).as_str());
    out.append("\n\nConversation context:\n");
    out.append(conversation_context);
    out.append("\n\nPending action results:\n");
    out.append(pending_results);
    out.append(coding_rules());
    out
}

} // verus!

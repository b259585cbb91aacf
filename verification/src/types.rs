//! The data that the steps of a tick hand to one another.

use vstd::prelude::*;
use vstd::string::*;

use crate::json::{Json, JsonView};
use crate::memory::{PlanUpdate, WorkingMemoryOp};
use crate::watches::WatchProposal;
use crate::text::{
    chars_of, clone_opt, find_from, first_occurrence, first_occurrence_is_first, opt_text, trim_bounds,
    trimmed,
};
use crate::tool_names::hex_char;

verus! {

/// Identifies a thread.
#[derive(Debug, Clone, Copy, PartialEq, Eq, Structural)]
pub struct ThreadId {
    pub raw: u128,
}

/// Identifies a tick.
#[derive(Debug, Clone, Copy, PartialEq, Eq, Structural)]
pub struct TickId {
    pub raw: u128,
}

/// Identifies a task of the plan.
#[derive(Debug, Clone, Copy, PartialEq, Eq, Structural)]
pub struct PlanTaskId {
    pub raw: u128,
}

/// Identifies a vessel.
#[derive(Debug, Clone, Copy, PartialEq, Eq, Structural)]
pub struct VesselId {
    pub raw: u128,
}

/// Identifies a watch.
#[derive(Debug, Clone, Copy, PartialEq, Eq, Structural)]
pub struct WatchId {
    pub raw: u128,
}

/// A point in time, in nanoseconds since the beginning of 1970 in UTC.
#[derive(Debug, Clone, Copy, PartialEq, Eq, Structural)]
pub struct Timestamp {
    pub nanos: i128,
}

/// Identifies a stored artifact by the digest of its content.
#[derive(Debug, PartialEq, Eq)]
pub struct ArtifactId {
    pub digest: String,
}

impl Clone for ArtifactId {
    fn clone(&self) -> (r: Self)
        ensures
            r == *self,
    {
        ArtifactId { digest: self.digest.clone() }
    }
}

/// Copies an optional artifact reference.
pub fn clone_artifact(o: &Option<ArtifactId>) -> (r: Option<ArtifactId>)
    ensures
        r == *o,
{
    match o {
        Some(id) => Some(id.clone()),
        None => None,
    }
}

/// An error of the host.
#[derive(Debug, PartialEq, Eq)]
pub enum ExoError {
    /// The configuration does not allow the operation.
    Config(String),
    /// An engine or the tool host is not available.
    Engine(String),
    /// A call of a language model failed.
    LlmInvocation(String),
    /// A text or a value does not have the expected form.
    Serde(String),
    /// A store failed.
    Storage(String),
}

/// What the cognitive queue is told about a finished task.
#[derive(Debug, PartialEq, Eq)]
pub enum HandlerOutput {
    Success { output: Option<Vec<u8>>, consumption: Vec<BudgetConsumption> },
    RetryableFailure { error: String, consumption: Vec<BudgetConsumption> },
    TerminalFailure { error: String, consumption: Vec<BudgetConsumption> },
    Suspended { output: Option<Vec<u8>>, consumption: Vec<BudgetConsumption> },
}

/// An amount consumed in one dimension of a budget.
#[derive(Debug, Clone, Copy, PartialEq, Eq, Structural)]
pub struct BudgetConsumption {
    pub dimension: BudgetDimension,
    pub amount: u64,
}

/// The dimensions of a budget.
#[derive(Debug, Clone, Copy, PartialEq, Eq, Structural)]
pub enum BudgetDimension {
    Token,
    CostCents,
    TimeSecs,
}

/// The mode of a vessel.
#[derive(Debug, Clone, Copy, PartialEq, Eq, Structural)]
pub enum VesselMode {
    Normal,
    Planning,
    Executing,
}

/// A part of a message to or from a language model.
#[derive(Debug)]
pub enum ContentBlock {
    Text { text: String },
    ToolUse { id: String, name: String, input: Json },
    ToolResult { tool_use_id: String, content: String, is_error: bool },
}

/// An action that the Decide step planned.
#[derive(Debug)]
pub struct PlannedAction {
    /// The tool call that asked for the action; its result answers that call.
    pub call_id: String,
    pub tool_name: String,
    pub params: Json,
    pub rationale: String,
    /// The plan task that the action implements.
    pub plan_task_id: Option<PlanTaskId>,
    /// The executable thread that proposed the action.
    pub origin_exec_thread_id: Option<ThreadId>,
    pub proposal_id: Option<String>,
}

/// The model of a planned action.
pub struct PlannedActionView {
    pub call_id: Seq<char>,
    pub tool_name: Seq<char>,
    pub params: JsonView,
    pub rationale: Seq<char>,
    pub plan_task_id: Option<PlanTaskId>,
    pub origin_exec_thread_id: Option<ThreadId>,
    pub proposal_id: Option<Seq<char>>,
}

impl View for PlannedAction {
    type V = PlannedActionView;

    open spec fn view(&self) -> PlannedActionView {
        PlannedActionView {
            call_id: self.call_id@,
            tool_name: self.tool_name@,
            params: self.params@,
            rationale: self.rationale@,
            plan_task_id: self.plan_task_id,
            origin_exec_thread_id: self.origin_exec_thread_id,
            proposal_id: opt_text(self.proposal_id),
        }
    }
}

/// The models of a list of planned actions.
pub open spec fn action_views(actions: Seq<PlannedAction>) -> Seq<PlannedActionView> {
    Seq::new(actions.len(), |i: int| actions[i]@)
}

impl Clone for PlannedAction {
    fn clone(&self) -> (r: Self)
        ensures
            r@ == self@,
    {
        PlannedAction {
            call_id: self.call_id.clone(),
            tool_name: self.tool_name.clone(),
            params: self.params.clone(),
            rationale: self.rationale.clone(),
            plan_task_id: self.plan_task_id,
            origin_exec_thread_id: self.origin_exec_thread_id,
            proposal_id: clone_opt(&self.proposal_id),
        }
    }
}

/// The record of a call of a language model.
#[derive(Debug, PartialEq, Eq)]
pub struct LlmCallRecord {
    pub model: String,
    pub tokens_in: u64,
    pub tokens_out: u64,
    /// The cost in millionths of a cent.
    pub cost_micros: u128,
    pub latency_ms: u64,
    pub response_artifact_ref: Option<ArtifactId>,
    /// How many turns the call took.
    pub turns: u32,
}

impl Clone for LlmCallRecord {
    fn clone(&self) -> (r: Self)
        ensures
            r == *self,
    {
        LlmCallRecord {
            model: self.model.clone(),
            tokens_in: self.tokens_in,
            tokens_out: self.tokens_out,
            cost_micros: self.cost_micros,
            latency_ms: self.latency_ms,
            response_artifact_ref: clone_artifact(&self.response_artifact_ref),
            turns: self.turns,
        }
    }
}

/// The changes of the snapshot that the Decide step proposes.
#[derive(Debug)]
pub struct SnapshotDelta {
    pub plan_update: Option<PlanUpdate>,
    pub working_memory_ops: Option<Vec<WorkingMemoryOp>>,
}

impl Default for SnapshotDelta {
    /// No change.
    fn default() -> (r: Self)
        ensures
            r.plan_update is None,
            r.working_memory_ops is None,
    {
        SnapshotDelta { plan_update: None, working_memory_ops: None }
    }
}

/// The outcome of the Decide step.
#[derive(Debug)]
pub struct DecisionResult {
    pub reasoning: String,
    pub reply: Option<String>,
    pub actions: Vec<PlannedAction>,
    pub snapshot_delta: SnapshotDelta,
    pub memory_notes: Vec<String>,
    pub llm_call_record: LlmCallRecord,
    pub response_artifact_id: ArtifactId,
    /// Watches that the Align step is to admit.
    pub watch_proposals: Vec<WatchProposal>,
    /// The mode that the vessel is asked to change to.
    pub vessel_mode_request: Option<VesselMode>,
}

/// What a cognitive thread contributes to a tick.
#[derive(Debug, PartialEq, Eq)]
pub struct ThreadContribution {
    pub thread_id: ThreadId,
    pub artifact_id: ArtifactId,
    pub summary: String,
}

/// How an action ended.
#[derive(Debug, Clone, Copy, PartialEq, Eq, Structural)]
pub enum ActionOutcome {
    Success,
    Failure,
    RateLimited,
    Skipped,
    Timeout,
    /// The rules for the tools do not allow the action.
    PolicyDenied,
}

/// The record of an action in the tick record.
#[derive(Debug, PartialEq, Eq)]
pub struct ActionRecord {
    pub action_type: String,
    pub target: String,
    pub receipt_ref: Option<ArtifactId>,
    pub outcome: ActionOutcome,
    pub origin_exec_thread_id: Option<ThreadId>,
    pub proposal_id: Option<String>,
}

/// What a change did to a file.
#[derive(Debug, Clone, Copy, PartialEq, Eq, Structural)]
pub enum CodeDiffOperation {
    Edit,
    Create,
    Patch,
}

/// One change of a file.
#[derive(Debug, PartialEq, Eq)]
pub struct CodeDiffContent {
    pub file_path: String,
    pub tool_name: String,
    pub operation: CodeDiffOperation,
    pub diff_text: String,
    pub lines_added: i64,
    pub lines_removed: i64,
    pub before_sha256: Option<String>,
    pub after_sha256: Option<String>,
}

impl Clone for CodeDiffContent {
    fn clone(&self) -> (r: Self)
        ensures
            r == *self,
    {
        CodeDiffContent {
            file_path: self.file_path.clone(),
            tool_name: self.tool_name.clone(),
            operation: self.operation,
            diff_text: self.diff_text.clone(),
            lines_added: self.lines_added,
            lines_removed: self.lines_removed,
            before_sha256: clone_opt(&self.before_sha256),
            after_sha256: clone_opt(&self.after_sha256),
        }
    }
}

/// An action with what became of it.
#[derive(Debug)]
pub struct ActionExecution {
    pub action: PlannedAction,
    pub result: Result<Json, String>,
    pub record: ActionRecord,
    /// The answer to the tool call that asked for the action.
    pub tool_result: ContentBlock,
    /// The action asked the user something and waits for the answer.
    pub pending_question: bool,
    /// The change of a file that the action made.
    pub code_diff: Option<(ArtifactId, CodeDiffContent)>,
}

/// Copies a list of planned actions.
pub fn clone_actions(actions: &Vec<PlannedAction>) -> (r: Vec<PlannedAction>)
    ensures
        action_views(r@) == action_views(actions@),
{
    let mut out: Vec<PlannedAction> = Vec::new();
    let mut i: usize = 0;
    while i < actions.len()
        invariant
            i <= actions@.len(),
            out@.len() == i,
            forall|k: int| 0 <= k < i ==> out@[k]@ == actions@[k]@,
        decreases actions@.len() - i,
    {
        out.push(actions[i].clone());
        i = i + 1;
    }
    assert(action_views(out@) =~= action_views(actions@));
    out
}

// ---------------------------------------------------------------------------
// Text with embedded JSON
// ---------------------------------------------------------------------------

/// The content of the first code fence that is marked as JSON, without white space
/// around it.
pub open spec fn fenced(text: Seq<char>) -> Option<Seq<char>> {
    match first_occurrence(text, "```json"@, 0) {
        Some(i) => match first_occurrence(text, "```"@, i + "```json"@.len()) {
            Some(k) => Some(trimmed(text.subrange(i + "```json"@.len(), k))),
            None => None,
        },
        None => None,
    }
}

/// Extracts the JSON content of a markdown code fence.
///
/// The content stands between the first "```json" and the next "```". Returns
/// `None` if there is no such fence.
pub fn extract_json_from_code_fence(text: &str) -> (r: Option<&str>)
    ensures
        match r {
            Some(content) => fenced(text@) == Some(content@),
            None => fenced(text@) is None,
        },
{
    let all = chars_of(text);
    let open = chars_of("```json");
    let close = chars_of("```");
    let start: usize = match find_from(&all, &open, 0) {
        Some(i) => i,
        None => {
            return None;
        },
    };
    proof {
        first_occurrence_is_first(text@, "```json"@, 0);
    }
    assert(start + open@.len() <= all.len());
    let from: usize = start + open.len();
    let to: usize = match find_from(&all, &close, from) {
        Some(k) => k,
        None => {
            return None;
        },
    };
    proof {
        first_occurrence_is_first(text@, "```"@, from as int);
    }
    let (a, b) = trim_bounds(&all, from, to);
    Some(text.substring_char(a, b))
}

// ---------------------------------------------------------------------------
// Identifiers as text
// ---------------------------------------------------------------------------

/// The last `n` hexadecimal digits of a number.
pub open spec fn hex_digits(v: nat, n: nat) -> Seq<char>
    decreases n,
{
    if n == 0 {
        Seq::empty()
    } else {
        hex_digits(v / 16, (n - 1) as nat).push(hex_char((v % 16) as int))
    }
}

/// The hyphenated text of a 128-bit identifier: its 32 hexadecimal digits in groups of
/// eight, four, four, four and twelve.
pub open spec fn id_text(raw: u128) -> Seq<char> {
    let d = hex_digits(raw as nat, 32);
    d.subrange(0, 8) + "-"@ + d.subrange(8, 12) + "-"@ + d.subrange(12, 16) + "-"@ + d.subrange(
        16,
        20,
    ) + "-"@ + d.subrange(20, 32)
}

proof fn hex_digits_len(v: nat, n: nat)
    ensures
        hex_digits(v, n).len() == n,
    decreases n,
{
    if n > 0 {
        hex_digits_len(v / 16, (n - 1) as nat);
    }
}

/// The text of an identifier has 36 characters.
pub proof fn id_text_length(raw: u128)
    ensures
        id_text(raw).len() == 36,
{
    hex_digits_len(raw as nat, 32);
    reveal_strlit("-");
}

/// The identifier that a text stands for, if it is the text of one.
pub uninterp spec fn id_parsed(text: Seq<char>) -> Option<u128>;

/// `Uuid::from_u128` and its `Display` text. The contract says that the text is the
/// number in hexadecimal digits with hyphens, in lower case, and that it reads back as
/// the number.
#[verifier::external_body]
pub(crate) fn write_id(raw: u128) -> (s: String)
    ensures
        s@ == id_text(raw),
        id_parsed(s@) == Some(raw),
{
    uuid::Uuid::from_u128(raw).to_string()
}

/// `Uuid::parse_str`: the number of the identifier that the text stands for. The
/// contract says only that the text decides the result.
#[verifier::external_body]
pub(crate) fn read_id(text: &str) -> (r: Option<u128>)
    ensures
        r == id_parsed(text@),
{
    uuid::Uuid::parse_str(text).ok().map(|id| id.as_u128())
}

/// The plan task that a text names. A text that is no identifier names none.
pub fn deserialize_plan_task_id_lenient(text: &Option<String>) -> (r: Option<PlanTaskId>)
    ensures
        r == (match *text {
            Some(t) => if t@.len() == 0 {
                None
            } else {
                match id_parsed(t@) {
                    Some(raw) => Some(PlanTaskId { raw }),
                    None => None,
                }
            },
            None => None,
        }),
{
    match text {
        Some(t) => {
            if t.as_str().is_empty() {
                return None;
            }
            match read_id(t.as_str()) {
                Some(raw) => Some(PlanTaskId { raw }),
                None => None,
            }
        },
        None => None,
    }
}

} // verus!

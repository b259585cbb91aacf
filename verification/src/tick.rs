//! One tick of the master loop, as a state machine.
//!
//! A tick goes through the phases Perceive, Orient, Decide, Align, Act, Reflect and
//! Amend. The machine decides; stores, threads, models and tools are outside. Each
//! step takes the answer to the latest request and returns the next request.
//!
//! A failure before the Amend step can be retried. A failure of the Amend step
//! cannot: the state could not be saved.

use vstd::prelude::*;
use vstd::string::*;
use vstd::utf8::*;

use crate::compaction::{should_compact, wants_compaction};
use crate::diff_tracker::{diffs_of, track_executions, DiffTracker};
use crate::exec_threads::{ExecThreadContribution, ExecThreadStatus, ExecThreadSummary};
use crate::json::{member, member_views, string_array, write_json, written, Json, JsonView};
use crate::settle::{
    bounded_coding_idle_visible, live_outputs, session_rests, settle_decision, settled,
    ListedThread, SettledDecision,
};
use crate::text::{dec, dec_u64, join, joined, texts};
use crate::types::{
    ActionExecution, ActionOutcome, BudgetConsumption, DecisionResult, HandlerOutput,
    PlannedAction, ThreadContribution, VesselMode,
};

verus! {

/// How far a tick has come: what the machine waits for.
#[derive(Debug, Clone, Copy, PartialEq, Eq, Structural)]
pub enum Phase {
    Loading,
    Storing,
    Perceiving,
    RunningThreads,
    Orienting,
    Deciding,
    Settling,
    Aligning,
    Acting,
    Reflecting,
    Amending,
    Closing,
    Done,
}

/// The place of a phase in the order of a tick.
pub open spec fn rank(p: Phase) -> nat {
    match p {
        Phase::Loading => 0,
        Phase::Storing => 1,
        Phase::Perceiving => 2,
        Phase::RunningThreads => 3,
        Phase::Orienting => 4,
        Phase::Deciding => 5,
        Phase::Settling => 6,
        Phase::Aligning => 7,
        Phase::Acting => 8,
        Phase::Reflecting => 9,
        Phase::Amending => 10,
        Phase::Closing => 11,
        Phase::Done => 12,
    }
}

/// A tick in progress.
#[derive(Debug)]
pub struct TickRun {
    pub phase: Phase,
    /// Whether a bounded coding session returns to rest when its work is done.
    pub return_to_idle: bool,
    /// How many episodic summaries the memory holds.
    pub episodic_capacity: Option<u64>,
    pub tick_number: u64,
    pub new_messages: bool,
    pub truncated_sections: Vec<String>,
    pub poll_actions: Vec<PlannedAction>,
    pub suppress: bool,
    /// Some action was executed or refused.
    pub acted: bool,
    /// Some action succeeded.
    pub succeeded: bool,
    /// What the Amend step returned.
    pub output: Option<HandlerOutput>,
}

/// What the machine needs to know of the snapshot.
#[derive(Debug, Clone, Copy, PartialEq, Eq, Structural)]
pub struct SnapshotHead {
    pub tick_number: u64,
    /// The vessel is in a state in which no tick runs.
    pub terminal: bool,
}

/// Why the snapshot could not be stored as an artifact.
#[derive(Debug, PartialEq, Eq)]
pub enum StoreFailure {
    Serialize(String),
    Store(String),
}

/// How much the recent ticks repeat themselves.
#[derive(Debug, Clone, Copy, PartialEq, Eq, Structural)]
pub enum ThrashLevel {
    Absent,
    Low,
    Medium,
    High,
}

/// The assessment of the recent ticks.
#[derive(Debug, PartialEq, Eq)]
pub struct ThrashAssessment {
    pub level: ThrashLevel,
    pub indicators: Vec<String>,
}

/// What is to be noted of the success of a tick.
#[derive(Debug, Clone, Copy, PartialEq, Eq, Structural)]
pub enum FailureNote {
    /// Some action succeeded: the count of failures starts anew.
    Clear,
    /// Actions were taken and none succeeded.
    Record,
    Keep,
}

/// Under which label a tick is counted.
#[derive(Debug, Clone, Copy, PartialEq, Eq, Structural)]
pub enum TickLabel {
    Completed,
    Failed,
    Suspended,
}

/// The answer to a request of the machine.
#[derive(Debug)]
#[allow(inconsistent_fields)]
pub enum TickEvent {
    /// The latest snapshot, if there is one.
    SnapshotLoaded(Result<Option<SnapshotHead>, String>),
    SnapshotStored(Result<(), StoreFailure>),
    /// The sources of the new messages.
    Perceived(Result<Vec<String>, String>),
    ThreadsRan {
        threads: Result<Vec<ThreadContribution>, String>,
        exec_threads: Result<Vec<ExecThreadContribution>, String>,
        poll_actions: Vec<PlannedAction>,
        cancelled: bool,
    },
    /// The sections of the context that had to be truncated.
    Oriented { result: Result<Vec<String>, String>, cancelled: bool },
    Decided {
        result: Result<DecisionResult, String>,
        threads: Vec<ListedThread>,
        summaries: Vec<ExecThreadSummary>,
        mode: VesselMode,
    },
    Settled { cancelled: bool },
    /// The approved actions.
    Aligned(Vec<PlannedAction>),
    Acted(Result<Vec<ActionExecution>, String>),
    Reflected { assessment: ThrashAssessment, consumption: Vec<BudgetConsumption> },
    Amended(Result<HandlerOutput, String>),
    Closed {
        consumption: Vec<BudgetConsumption>,
        /// The number of episodic summaries, if it could be read.
        episodic_count: Option<u64>,
        /// The executable threads, if they could be read.
        summaries: Option<Vec<ExecThreadSummary>>,
    },
}

/// What the machine asks for.
#[derive(Debug)]
pub enum TickRequest {
    LoadSnapshot,
    /// Reset the counters of the tick, forget which paths were read, and store the
    /// snapshot as an artifact.
    StoreSnapshot,
    /// Announce the tick and gather its inputs.
    Perceive { started: String },
    /// Announce the messages, check the watches and run the threads.
    RunThreads { tick_number: u64, announcements: Vec<String> },
    Orient {
        threads: Vec<ThreadContribution>,
        exec_threads: Vec<ExecThreadContribution>,
    },
    Decide,
    /// Change the mode and store the draft as the settled decision says.
    Settle(SettledDecision),
    Align,
    /// Hand the actions to the tools.
    Act { actions: Vec<PlannedAction> },
    /// Reflect on the executions and assess the ticks in the window.
    Reflect {
        executions: Vec<ActionExecution>,
        diffs: DiffTracker,
        window_from: u64,
        window_to: u64,
    },
    Amend { announcement: Option<String> },
    /// Note the success of the tick and read what the end of the tick needs.
    Close { note: FailureNote },
    Finish(TickFinish),
}

/// The end of a tick.
#[derive(Debug)]
pub struct TickFinish {
    pub output: HandlerOutput,
    /// An event for the observers.
    pub announcement: Option<String>,
    /// An error event for the ledger.
    pub error_event: Option<String>,
    pub note: FailureNote,
    pub label: Option<TickLabel>,
    /// The episodic memory is to be compacted.
    pub compact: bool,
    /// The next tick is to start early.
    pub wake: bool,
}

// ---------------------------------------------------------------------------
// What a step does
// ---------------------------------------------------------------------------

/// A tick that is about to close has an output.
pub open spec fn well_formed(run: TickRun) -> bool {
    run.phase == Phase::Closing ==> run.output is Some
}

/// The event is the answer that the phase waits for.
pub open spec fn answers(phase: Phase, event: TickEvent) -> bool {
    match event {
        TickEvent::SnapshotLoaded(r) => phase == Phase::Loading && (r matches Ok(Some(head))
            ==> head.terminal || head.tick_number < u64::MAX),
        TickEvent::SnapshotStored(_) => phase == Phase::Storing,
        TickEvent::Perceived(_) => phase == Phase::Perceiving,
        TickEvent::ThreadsRan { .. } => phase == Phase::RunningThreads,
        TickEvent::Oriented { .. } => phase == Phase::Orienting,
        TickEvent::Decided { .. } => phase == Phase::Deciding,
        TickEvent::Settled { .. } => phase == Phase::Settling,
        TickEvent::Aligned(_) => phase == Phase::Aligning,
        TickEvent::Acted(_) => phase == Phase::Acting,
        TickEvent::Reflected { .. } => phase == Phase::Reflecting,
        TickEvent::Amended(_) => phase == Phase::Amending,
        TickEvent::Closed { .. } => phase == Phase::Closing,
    }
}

/// The tick ends with a failure that can be retried.
pub open spec fn fails(next: TickRun, request: TickRequest, error: Seq<char>) -> bool {
    next.phase == Phase::Done && match request {
        TickRequest::Finish(f) => {
            &&& match f.output {
                HandlerOutput::RetryableFailure { error: e, consumption } => e@ == error
                    && consumption@.len() == 0,
                _ => false,
            }
            &&& f.announcement is None && f.error_event is None && f.label is None
            &&& f.note == FailureNote::Keep && !f.compact && !f.wake
        },
        _ => false,
    }
}

/// The list of `r`, or an empty one.
pub open spec fn list_or_empty<T>(list: Seq<T>, r: Result<Vec<T>, String>) -> bool {
    match r {
        Ok(v) => list == v@,
        Err(_) => list.len() == 0,
    }
}

/// What is noted of the success of a tick.
pub open spec fn note_of(acted: bool, succeeded: bool) -> FailureNote {
    if succeeded {
        FailureNote::Clear
    } else if acted {
        FailureNote::Record
    } else {
        FailureNote::Keep
    }
}

/// Some execution succeeded.
pub open spec fn any_success(executions: Seq<ActionExecution>) -> bool {
    exists|i: int|
        0 <= i < executions.len() && (#[trigger] executions[i]).record.outcome
            == ActionOutcome::Success
}

/// The name of a level.
pub open spec fn level_name(level: ThrashLevel) -> Seq<char> {
    match level {
        ThrashLevel::Absent => "None"@,
        ThrashLevel::Low => "Low"@,
        ThrashLevel::Medium => "Medium"@,
        ThrashLevel::High => "High"@,
    }
}

/// The event that tells of an assessment.
pub open spec fn thrash_text(a: ThrashAssessment) -> Seq<char> {
    "Thrash level: "@ + level_name(a.level) + " ("@ + joined(texts(a.indicators@), "; "@) + ")"@
}

/// The output of a tick that was suspended.
pub open spec fn suspension(a: ThrashAssessment) -> JsonView {
    JsonView::Object(
        seq![
            ("suspended"@, JsonView::Bool(true)),
            ("reason"@, JsonView::Str("high_thrash"@)),
            ("indicators"@, string_array(texts(a.indicators@))),
        ],
    )
}

/// Some executable thread has work left.
pub open spec fn work_left(summaries: Option<Vec<ExecThreadSummary>>) -> bool {
    match summaries {
        Some(list) => exists|i: int|
            0 <= i < list@.len() && ((#[trigger] list@[i]).status == ExecThreadStatus::Active
                || list@[i].status == ExecThreadStatus::Blocked),
        None => false,
    }
}

/// The window of ticks that is assessed: the ten before this one.
pub open spec fn back(tick_number: u64, n: int) -> int {
    if tick_number >= n {
        tick_number - n
    } else {
        0
    }
}

/// The step from `run` with `event` leads to `next` and asks for `request`.
pub open spec fn tick_step(
    run: TickRun,
    event: TickEvent,
    next: TickRun,
    request: TickRequest,
) -> bool {
    match event {
        TickEvent::SnapshotLoaded(Err(e)) => fails(
            next,
            request,
            "Perceive: failed to load snapshot: "@ + e@,
        ),
        TickEvent::SnapshotLoaded(Ok(head)) => {
            if head matches Some(h) && h.terminal {
                next.phase == Phase::Done && match request {
                    TickRequest::Finish(f) => {
                        &&& match f.output {
                            HandlerOutput::Success { output, consumption } => output is None
                                && consumption@.len() == 0,
                            _ => false,
                        }
                        &&& f.announcement is None && f.error_event is None && f.label is None
                        &&& f.note == FailureNote::Keep && !f.compact && !f.wake
                    },
                    _ => false,
                }
            } else {
                &&& next == (TickRun {
                    phase: Phase::Storing,
                    tick_number: match head {
                        Some(h) => (h.tick_number + 1) as u64,
                        None => 1,
                    },
                    ..run
                })
                &&& request is StoreSnapshot
            }
        },
        TickEvent::SnapshotStored(Err(StoreFailure::Serialize(e))) => fails(
            next,
            request,
            "Perceive: failed to serialize snapshot: "@ + e@,
        ),
        TickEvent::SnapshotStored(Err(StoreFailure::Store(e))) => fails(
            next,
            request,
            "Perceive: failed to store snapshot artifact: "@ + e@,
        ),
        TickEvent::SnapshotStored(Ok(_)) => {
            &&& next == (TickRun { phase: Phase::Perceiving, ..run })
            &&& request matches TickRequest::Perceive { started } && started@ == "Tick "@ + dec(
                run.tick_number as nat,
            ) + " started"@
        },
        TickEvent::Perceived(Err(e)) => fails(next, request, "Perceive failed: "@ + e@),
        TickEvent::Perceived(Ok(sources)) => {
            &&& next == (TickRun {
                phase: Phase::RunningThreads,
                new_messages: sources@.len() > 0,
                ..run
            })
            &&& request matches TickRequest::RunThreads { tick_number, announcements }
                && tick_number == run.tick_number && texts(announcements@) == Seq::new(
                sources@.len(),
                |i: int| "Message received from "@ + sources@[i]@,
            )
        },
        TickEvent::ThreadsRan { threads, exec_threads, poll_actions, cancelled } => {
            if cancelled {
                fails(next, request, "cancelled after Perceive"@)
            } else {
                &&& next == (TickRun { phase: Phase::Orienting, poll_actions, ..run })
                &&& request matches TickRequest::Orient { threads: t, exec_threads: x }
                    && list_or_empty(t@, threads) && list_or_empty(x@, exec_threads)
            }
        },
        TickEvent::Oriented { result: Err(e), cancelled: _ } => fails(
            next,
            request,
            "Orient failed: "@ + e@,
        ),
        TickEvent::Oriented { result: Ok(sections), cancelled } => {
            if cancelled {
                fails(next, request, "cancelled after Orient"@)
            } else {
                &&& next == (TickRun {
                    phase: Phase::Deciding,
                    truncated_sections: sections,
                    ..run
                })
                &&& request is Decide
            }
        },
        TickEvent::Decided { result: Err(e), .. } => fails(next, request, "Decide failed: "@ + e@),
        TickEvent::Decided { result: Ok(decision), threads, summaries, mode } => {
            let suppress = session_rests(run.return_to_idle, run.new_messages, summaries@);
            &&& next == (TickRun { phase: Phase::Settling, suppress, ..run })
            &&& request matches TickRequest::Settle(s) && settled(
                s,
                decision,
                live_outputs(threads@),
                suppress,
                mode,
            )
        },
        TickEvent::Settled { cancelled } => {
            if cancelled {
                fails(next, request, "cancelled after Decide"@)
            } else {
                &&& next == (TickRun { phase: Phase::Aligning, ..run })
                &&& request is Align
            }
        },
        TickEvent::Aligned(approved) => {
            &&& next.phase == Phase::Acting
            &&& next == (TickRun {
                phase: Phase::Acting,
                poll_actions: next.poll_actions,
                ..run
            })
            &&& request matches TickRequest::Act { actions } && actions@ == (if run.suppress {
                approved@
            } else {
                approved@ + run.poll_actions@
            })
        },
        TickEvent::Acted(Err(e)) => fails(next, request, "Act failed: "@ + e@),
        TickEvent::Acted(Ok(executions)) => {
            &&& next == (TickRun {
                phase: Phase::Reflecting,
                acted: executions@.len() > 0,
                succeeded: any_success(executions@),
                ..run
            })
            &&& request matches TickRequest::Reflect {
                executions: done,
                diffs,
                window_from,
                window_to,
            } && done == executions && diffs.tick_number == run.tick_number && diffs.entries@
                == diffs_of(executions@) && window_from == back(run.tick_number, 10) && window_to
                == back(run.tick_number, 1)
        },
        TickEvent::Reflected { assessment, consumption } => {
            if assessment.level == ThrashLevel::High {
                next.phase == Phase::Done && match request {
                    TickRequest::Finish(f) => {
                        &&& match f.output {
                            HandlerOutput::Success { output: Some(bytes), consumption: used } => bytes@
                                == encode_utf8(written(suspension(assessment))) && used
                                == consumption,
                            _ => false,
                        }
                        &&& f.announcement matches Some(t) && t@ == thrash_text(assessment)
                        &&& f.error_event matches Some(t) && t@
                            == "Cognitive loop suspended due to high thrash: "@ + joined(
                            texts(assessment.indicators@),
                            "; "@,
                        )
                        &&& f.label == Some(TickLabel::Suspended)
                        &&& f.note == FailureNote::Keep && !f.compact && !f.wake
                    },
                    _ => false,
                }
            } else {
                &&& next == (TickRun { phase: Phase::Amending, ..run })
                &&& match request {
                    TickRequest::Amend { announcement } => if assessment.level
                        == ThrashLevel::Absent {
                        announcement is None
                    } else {
                        announcement matches Some(t) && t@ == thrash_text(assessment)
                    },
                    _ => false,
                }
            }
        },
        TickEvent::Amended(Err(e)) => next.phase == Phase::Done && match request {
            TickRequest::Finish(f) => {
                &&& match f.output {
                    HandlerOutput::TerminalFailure { error, consumption } => error@
                        == "Amend failed (persistence error): "@ + e@ && consumption@.len() == 0,
                    _ => false,
                }
                &&& f.announcement is None && f.error_event is None
                &&& f.label == Some(TickLabel::Failed)
                &&& f.note == note_of(run.acted, run.succeeded) && !f.compact && !f.wake
            },
            _ => false,
        },
        TickEvent::Amended(Ok(output)) => {
            &&& next == (TickRun { phase: Phase::Closing, output: Some(output), ..run })
            &&& request matches TickRequest::Close { note } && note == note_of(
                run.acted,
                run.succeeded,
            )
        },
        TickEvent::Closed { consumption, episodic_count, summaries } => next.phase == Phase::Done
            && match request {
            TickRequest::Finish(f) => {
                &&& closes(
                    f.output,
                    f.wake,
                    run.output->Some_0,
                    consumption,
                    work_left(summaries),
                )
                &&& f.announcement is None && f.error_event is None
                &&& f.label == Some(TickLabel::Completed)
                &&& f.note == FailureNote::Keep
                &&& f.compact == wants_compaction(
                    run.truncated_sections@.len(),
                    (match episodic_count {
                        Some(n) => n,
                        None => 0,
                    }),
                    run.episodic_capacity,
                )
            },
            _ => false,
        },
    }
}

/// The output at the end of a completed tick, and whether the next tick starts
/// early.
///
/// What was consumed goes into an output that is a success. Any other output stays
/// as it is, and if something was consumed then the next tick is not started early.
pub open spec fn closes(
    output: HandlerOutput,
    wake: bool,
    amended: HandlerOutput,
    consumption: Vec<BudgetConsumption>,
    work: bool,
) -> bool {
    if consumption@.len() == 0 {
        output == amended && wake == work
    } else {
        match amended {
            HandlerOutput::Success { output: out, consumption: _ } => output
                == (HandlerOutput::Success { output: out, consumption }) && wake == work,
            _ => output == amended && !wake,
        }
    }
}

// ---------------------------------------------------------------------------
// The machine
// ---------------------------------------------------------------------------

/// Begins a tick. The first request is to load the snapshot.
pub fn start_tick(return_to_idle: bool, episodic_capacity: Option<u64>) -> (r: (
    TickRun,
    TickRequest,
))
    ensures
        r.0.phase == Phase::Loading,
        r.0.return_to_idle == return_to_idle,
        r.0.episodic_capacity == episodic_capacity,
        r.0.poll_actions@.len() == 0,
        r.0.output is None,
        well_formed(r.0),
        r.1 is LoadSnapshot,
{
    (
        TickRun {
            phase: Phase::Loading,
            return_to_idle,
            episodic_capacity,
            tick_number: 0,
            new_messages: false,
            truncated_sections: Vec::new(),
            poll_actions: Vec::new(),
            suppress: false,
            acted: false,
            succeeded: false,
            output: None,
        },
        TickRequest::LoadSnapshot,
    )
}

/// The text `prefix` followed by `rest`.
fn prefixed(prefix: &str, rest: &str) -> (s: String)
    ensures
        s@ == prefix@ + rest@,
{
    let mut s = prefix.to_owned();
    s.append(rest);
    s
}

fn plain_finish(output: HandlerOutput) -> (f: TickFinish)
    ensures
        f.output == output,
        f.announcement is None && f.error_event is None && f.label is None,
        f.note == FailureNote::Keep && !f.compact && !f.wake,
{
    TickFinish {
        output,
        announcement: None,
        error_event: None,
        note: FailureNote::Keep,
        label: None,
        compact: false,
        wake: false,
    }
}

fn level_str(level: ThrashLevel) -> (r: &'static str)
    ensures
        r@ == level_name(level),
{
    match level {
        ThrashLevel::Absent => "None",
        ThrashLevel::Low => "Low",
        ThrashLevel::Medium => "Medium",
        ThrashLevel::High => "High",
    }
}

fn thrash_event(a: &ThrashAssessment) -> (s: String)
    ensures
        s@ == thrash_text(*a),
{
    let mut s = "Thrash level: ".to_owned();
    s.append(level_str(a.level));
    s.append(" (");
    s.append(join(&a.indicators, "; ").as_str());
    s.append(")");
    s
}

fn suspension_bytes(a: &ThrashAssessment) -> (bytes: Vec<u8>)
    ensures
        bytes@ == encode_utf8(written(suspension(*a))),
{
    let members = vec![
        member("suspended", Json::Bool(true)),
        member("reason", Json::str("high_thrash")),
        member("indicators", Json::strings(&a.indicators)),
    ];
    assert(member_views(members@) =~= suspension(*a)->Object_0);
    let j = Json::object(members);
    let text = write_json(&j);
    text.as_str().as_bytes_vec()
}

fn has_success(executions: &Vec<ActionExecution>) -> (r: bool)
    ensures
        r == any_success(executions@),
{
    let mut i: usize = 0;
    while i < executions.len()
        invariant
            i <= executions@.len(),
            forall|k: int|
                0 <= k < i ==> (#[trigger] executions@[k]).record.outcome
                    != ActionOutcome::Success,
        decreases executions@.len() - i,
    {
        if executions[i].record.outcome == ActionOutcome::Success {
            return true;
        }
        i = i + 1;
    }
    false
}

/// Tells whether an executable thread has work left, so that the next tick should
/// start early.
pub fn should_wake_for_exec(summaries: &Option<Vec<ExecThreadSummary>>) -> (r: bool)
    ensures
        r == work_left(*summaries),
{
    match summaries {
        None => false,
        Some(list) => {
            let mut i: usize = 0;
            while i < list.len()
                invariant
                    *summaries == Some(*list),
                    i <= list@.len(),
                    forall|k: int|
                        0 <= k < i ==> (#[trigger] list@[k]).status != ExecThreadStatus::Active
                            && list@[k].status != ExecThreadStatus::Blocked,
                decreases list@.len() - i,
            {
                if list[i].status == ExecThreadStatus::Active || list[i].status
                    == ExecThreadStatus::Blocked {
                    assert(list@[i as int].status == ExecThreadStatus::Active
                        || list@[i as int].status == ExecThreadStatus::Blocked);
                    return true;
                }
                i = i + 1;
            }
            false
        },
    }
}

fn announcements_for(sources: &Vec<String>) -> (r: Vec<String>)
    ensures
        texts(r@) == Seq::new(sources@.len(), |i: int| "Message received from "@ + sources@[i]@),
{
    let mut out: Vec<String> = Vec::new();
    let mut i: usize = 0;
    while i < sources.len()
        invariant
            i <= sources@.len(),
            out@.len() == i,
            forall|k: int|
                0 <= k < i ==> (#[trigger] out@[k])@ == "Message received from "@ + sources@[k]@,
        decreases sources@.len() - i,
    {
        out.push(prefixed("Message received from ", sources[i].as_str()));
        i = i + 1;
    }
    assert(texts(out@) =~= Seq::new(
        sources@.len(),
        |i: int| "Message received from "@ + sources@[i]@,
    ));
    out
}

impl TickRun {
    /// Ends the tick with a failure that can be retried.
    fn fail(self, error: String) -> (r: (TickRun, TickRequest))
        ensures
            fails(r.0, r.1, error@),
    {
        let output = HandlerOutput::RetryableFailure { error, consumption: Vec::new() };
        self.finish(plain_finish(output))
    }

    fn finish(self, f: TickFinish) -> (r: (TickRun, TickRequest))
        ensures
            r.0.phase == Phase::Done,
            r.1 == TickRequest::Finish(f),
    {
        (TickRun { phase: Phase::Done, ..self }, TickRequest::Finish(f))
    }

    fn on_loaded(self, r: Result<Option<SnapshotHead>, String>) -> (o: (TickRun, TickRequest))
        requires
            r matches Ok(Some(head)) ==> head.terminal || head.tick_number < u64::MAX,
        ensures
            tick_step(self, TickEvent::SnapshotLoaded(r), o.0, o.1),
    {
        match r {
            Err(e) => self.fail(prefixed("Perceive: failed to load snapshot: ", e.as_str())),
            Ok(head) => {
                let number: u64 = match head {
                    Some(h) => {
                        if h.terminal {
                            return self.finish(
                                plain_finish(
                                    HandlerOutput::Success {
                                        output: None,
                                        consumption: Vec::new(),
                                    },
                                ),
                            );
                        }
                        h.tick_number + 1
                    },
                    None => 1,
                };
                (
                    TickRun { phase: Phase::Storing, tick_number: number, ..self },
                    TickRequest::StoreSnapshot,
                )
            },
        }
    }

    fn on_stored(self, r: Result<(), StoreFailure>) -> (o: (TickRun, TickRequest))
        ensures
            tick_step(self, TickEvent::SnapshotStored(r), o.0, o.1),
    {
        match r {
            Err(StoreFailure::Serialize(e)) => self.fail(
                prefixed("Perceive: failed to serialize snapshot: ", e.as_str()),
            ),
            Err(StoreFailure::Store(e)) => self.fail(
                prefixed("Perceive: failed to store snapshot artifact: ", e.as_str()),
            ),
            Ok(_) => {
                let mut started = "Tick ".to_owned();
                started.append(dec_u64(self.tick_number).as_str());
                started.append(" started");
                (
                    TickRun { phase: Phase::Perceiving, ..self },
                    TickRequest::Perceive { started },
                )
            },
        }
    }

    fn on_perceived(self, r: Result<Vec<String>, String>) -> (o: (TickRun, TickRequest))
        ensures
            tick_step(self, TickEvent::Perceived(r), o.0, o.1),
    {
        match r {
            Err(e) => self.fail(prefixed("Perceive failed: ", e.as_str())),
            Ok(sources) => {
                let announcements = announcements_for(&sources);
                let tick_number: u64 = self.tick_number;
                (
                    TickRun {
                        phase: Phase::RunningThreads,
                        new_messages: sources.len() > 0,
                        ..self
                    },
                    TickRequest::RunThreads { tick_number, announcements },
                )
            },
        }
    }

    fn on_threads(
        self,
        threads: Result<Vec<ThreadContribution>, String>,
        exec_threads: Result<Vec<ExecThreadContribution>, String>,
        poll_actions: Vec<PlannedAction>,
        cancelled: bool,
    ) -> (o: (TickRun, TickRequest))
        ensures
            tick_step(
                self,
                TickEvent::ThreadsRan { threads, exec_threads, poll_actions, cancelled },
                o.0,
                o.1,
            ),
    {
        if cancelled {
            return self.fail("cancelled after Perceive".to_owned());
        }
        let t = match threads {
            Ok(v) => v,
            Err(_) => Vec::new(),
        };
        let x = match exec_threads {
            Ok(v) => v,
            Err(_) => Vec::new(),
        };
        (
            TickRun { phase: Phase::Orienting, poll_actions, ..self },
            TickRequest::Orient { threads: t, exec_threads: x },
        )
    }

    fn on_oriented(self, result: Result<Vec<String>, String>, cancelled: bool) -> (o: (
        TickRun,
        TickRequest,
    ))
        ensures
            tick_step(self, TickEvent::Oriented { result, cancelled }, o.0, o.1),
    {
        match result {
            Err(e) => self.fail(prefixed("Orient failed: ", e.as_str())),
            Ok(sections) => {
                if cancelled {
                    return self.fail("cancelled after Orient".to_owned());
                }
                (
                    TickRun { phase: Phase::Deciding, truncated_sections: sections, ..self },
                    TickRequest::Decide,
                )
            },
        }
    }

    fn on_decided(
        self,
        result: Result<DecisionResult, String>,
        threads: Vec<ListedThread>,
        summaries: Vec<ExecThreadSummary>,
        mode: VesselMode,
    ) -> (o: (TickRun, TickRequest))
        ensures
            tick_step(self, TickEvent::Decided { result, threads, summaries, mode }, o.0, o.1),
    {
        match result {
            Err(e) => self.fail(prefixed("Decide failed: ", e.as_str())),
            Ok(decision) => {
                let suppress = bounded_coding_idle_visible(
                    self.return_to_idle,
                    self.new_messages,
                    &summaries,
                );
                let s = settle_decision(decision, threads, suppress, mode);
                (TickRun { phase: Phase::Settling, suppress, ..self }, TickRequest::Settle(s))
            },
        }
    }

    fn on_aligned(self, approved: Vec<PlannedAction>) -> (o: (TickRun, TickRequest))
        ensures
            tick_step(self, TickEvent::Aligned(approved), o.0, o.1),
    {
        let mut run = self;
        let mut actions = approved;
        if !run.suppress {
            actions.append(&mut run.poll_actions);
        }
        run.phase = Phase::Acting;
        (run, TickRequest::Act { actions })
    }

    fn on_acted(self, r: Result<Vec<ActionExecution>, String>) -> (o: (TickRun, TickRequest))
        ensures
            tick_step(self, TickEvent::Acted(r), o.0, o.1),
    {
        match r {
            Err(e) => self.fail(prefixed("Act failed: ", e.as_str())),
            Ok(executions) => {
                let diffs = track_executions(self.tick_number, &executions);
                let window_from: u64 = self.tick_number.saturating_sub(10);
                let window_to: u64 = self.tick_number.saturating_sub(1);
                (
                    TickRun {
                        phase: Phase::Reflecting,
                        acted: executions.len() > 0,
                        succeeded: has_success(&executions),
                        ..self
                    },
                    TickRequest::Reflect { executions, diffs, window_from, window_to },
                )
            },
        }
    }

    fn on_reflected(self, assessment: ThrashAssessment, consumption: Vec<BudgetConsumption>) -> (o:
        (TickRun, TickRequest))
        ensures
            tick_step(self, TickEvent::Reflected { assessment, consumption }, o.0, o.1),
    {
        if assessment.level == ThrashLevel::High {
            let joined_text = join(&assessment.indicators, "; ");
            let f = TickFinish {
                output: HandlerOutput::Success {
                    output: Some(suspension_bytes(&assessment)),
                    consumption,
                },
                announcement: Some(thrash_event(&assessment)),
                error_event: Some(
                    prefixed(
                        "Cognitive loop suspended due to high thrash: ",
                        joined_text.as_str(),
                    ),
                ),
                note: FailureNote::Keep,
                label: Some(TickLabel::Suspended),
                compact: false,
                wake: false,
            };
            return self.finish(f);
        }
        let announcement = if assessment.level == ThrashLevel::Absent {
            None
        } else {
            Some(thrash_event(&assessment))
        };
        (TickRun { phase: Phase::Amending, ..self }, TickRequest::Amend { announcement })
    }

    fn failure_note(&self) -> (n: FailureNote)
        ensures
            n == note_of(self.acted, self.succeeded),
    {
        if self.succeeded {
            FailureNote::Clear
        } else if self.acted {
            FailureNote::Record
        } else {
            FailureNote::Keep
        }
    }

    fn on_amended(self, r: Result<HandlerOutput, String>) -> (o: (TickRun, TickRequest))
        ensures
            tick_step(self, TickEvent::Amended(r), o.0, o.1),
    {
        let note = self.failure_note();
        match r {
            Err(e) => {
                let f = TickFinish {
                    output: HandlerOutput::TerminalFailure {
                        error: prefixed("Amend failed (persistence error): ", e.as_str()),
                        consumption: Vec::new(),
                    },
                    announcement: None,
                    error_event: None,
                    note,
                    label: Some(TickLabel::Failed),
                    compact: false,
                    wake: false,
                };
                self.finish(f)
            },
            Ok(output) => (
                TickRun { phase: Phase::Closing, output: Some(output), ..self },
                TickRequest::Close { note },
            ),
        }
    }

    fn on_closed(
        self,
        consumption: Vec<BudgetConsumption>,
        episodic_count: Option<u64>,
        summaries: Option<Vec<ExecThreadSummary>>,
    ) -> (o: (TickRun, TickRequest))
        requires
            self.output is Some,
        ensures
            tick_step(self, TickEvent::Closed { consumption, episodic_count, summaries }, o.0, o.1),
    {
        let work = should_wake_for_exec(&summaries);
        let count: u64 = match episodic_count {
            Some(n) => n,
            None => 0,
        };
        let compact = should_compact(&self.truncated_sections, count, self.episodic_capacity);
        let mut run = self;
        let amended = run.output.take().unwrap();
        let (output, wake) = if consumption.len() == 0 {
            (amended, work)
        } else {
            match amended {
                HandlerOutput::Success { output, consumption: _ } => (
                    HandlerOutput::Success { output, consumption },
                    work,
                ),
                other => (other, false),
            }
        };
        let f = TickFinish {
            output,
            announcement: None,
            error_event: None,
            note: FailureNote::Keep,
            label: Some(TickLabel::Completed),
            compact,
            wake,
        };
        run.finish(f)
    }

    /// Takes the answer to the latest request and returns the next request.
    pub fn step(self, event: TickEvent) -> (r: (TickRun, TickRequest))
        requires
            well_formed(self),
            answers(self.phase, event),
        ensures
            tick_step(self, event, r.0, r.1),
            well_formed(r.0),
    {
        match event {
            TickEvent::SnapshotLoaded(r) => self.on_loaded(r),
            TickEvent::SnapshotStored(r) => self.on_stored(r),
            TickEvent::Perceived(r) => self.on_perceived(r),
            TickEvent::ThreadsRan { threads, exec_threads, poll_actions, cancelled } => {
                self.on_threads(threads, exec_threads, poll_actions, cancelled)
            },
            TickEvent::Oriented { result, cancelled } => self.on_oriented(result, cancelled),
            TickEvent::Decided { result, threads, summaries, mode } => {
                self.on_decided(result, threads, summaries, mode)
            },
            TickEvent::Settled { cancelled } => {
                if cancelled {
                    return self.fail("cancelled after Decide".to_owned());
                }
                (TickRun { phase: Phase::Aligning, ..self }, TickRequest::Align)
            },
            TickEvent::Aligned(approved) => self.on_aligned(approved),
            TickEvent::Acted(r) => self.on_acted(r),
            TickEvent::Reflected { assessment, consumption } => {
                self.on_reflected(assessment, consumption)
            },
            TickEvent::Amended(r) => self.on_amended(r),
            TickEvent::Closed { consumption, episodic_count, summaries } => {
                self.on_closed(consumption, episodic_count, summaries)
            },
        }
    }
}

// ---------------------------------------------------------------------------
// Laws
// ---------------------------------------------------------------------------

/// Every step brings the tick forward, so a tick ends after at most twelve steps.
pub proof fn steps_advance(run: TickRun, event: TickEvent, next: TickRun, request: TickRequest)
    requires
        answers(run.phase, event),
        tick_step(run, event, next, request),
    ensures
        rank(run.phase) < rank(next.phase) <= 12,
        next.phase == Phase::Done <==> request is Finish,
{
}

/// Actions reach the tools only from the Align step, and only those that were
/// approved or that belong to a watch. While actions are held back, those of the
/// watches are held back too.
pub proof fn only_approved_actions_reach_tools(
    run: TickRun,
    event: TickEvent,
    next: TickRun,
    request: TickRequest,
)
    requires
        answers(run.phase, event),
        tick_step(run, event, next, request),
        request is Act,
    ensures
        run.phase == Phase::Aligning,
        event matches TickEvent::Aligned(approved) && {
            let actions = request->Act_actions@;
            &&& run.suppress ==> actions == approved@
            &&& !run.suppress ==> actions == approved@ + run.poll_actions@
        },
{
}

/// A tick with high thrash is suspended: it ends without changing the state.
pub proof fn high_thrash_never_amends(
    run: TickRun,
    assessment: ThrashAssessment,
    consumption: Vec<BudgetConsumption>,
    next: TickRun,
    request: TickRequest,
)
    requires
        assessment.level == ThrashLevel::High,
        tick_step(run, TickEvent::Reflected { assessment, consumption }, next, request),
    ensures
        next.phase == Phase::Done,
        request is Finish,
{
}

/// A tick that fails before the Amend step can be retried; one that fails in the
/// Amend step cannot.
pub proof fn only_amend_fails_for_good(
    run: TickRun,
    event: TickEvent,
    next: TickRun,
    request: TickRequest,
)
    requires
        answers(run.phase, event),
        tick_step(run, event, next, request),
        request matches TickRequest::Finish(f),
    ensures
        rank(run.phase) < rank(Phase::Amending) ==> !(request->Finish_0.output is TerminalFailure),
        event matches TickEvent::Amended(Err(_)) ==> request->Finish_0.output is TerminalFailure,
{
}

/// A cancelled tick ends with a failure that can be retried.
pub proof fn cancelled_tick_can_be_retried(
    run: TickRun,
    event: TickEvent,
    next: TickRun,
    request: TickRequest,
)
    requires
        answers(run.phase, event),
        tick_step(run, event, next, request),
        event matches TickEvent::ThreadsRan { cancelled: true, .. } || event
            matches TickEvent::Oriented { cancelled: true, .. } || event
            matches TickEvent::Settled { cancelled: true },
    ensures
        next.phase == Phase::Done,
        request matches TickRequest::Finish(f) && f.output is RetryableFailure,
{
}

} // verus!

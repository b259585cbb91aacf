//! Cognitive threads: sub-tasks that think along with the master loop.
//!
//! A thread gets its own prompt and produces recommendations; it never calls tools.
//! The threads of a tick run side by side outside; here it is decided which of them
//! run, what they are told, and what becomes of their outputs.

use vstd::prelude::*;
use vstd::string::*;

use crate::amend::ThreadSchedule;
use crate::decode::{field_at, has_record_form, is_record, read_text, record_field, text_of};
use crate::inner_loop::texts_of;
use crate::json::{parse_json, parsed, Json, JsonView};
use crate::llm::{message_views, text_message, LlmBackend, LlmMessage, LlmRequest, LlmRole};
use crate::text::{first_n, str_eq, take_chars, texts};
use crate::types::{ArtifactId, ExoError, ThreadContribution, ThreadId, TickId};

verus! {

/// How urgent a thread is.
#[derive(Debug, Clone, Copy, PartialEq, Eq, Structural)]
pub enum ThreadPriority {
    Critical,
    High,
    Normal,
    Low,
}

/// A cognitive thread.
#[derive(Debug, PartialEq, Eq)]
pub struct ThreadSpec {
    pub thread_id: ThreadId,
    pub name: String,
    pub charter: String,
    pub priority: ThreadPriority,
    pub token_budget: u64,
    pub schedule: ThreadSchedule,
}

/// The output of a thread.
#[derive(Debug, PartialEq, Eq)]
pub struct ThreadOutput {
    pub thread_id: ThreadId,
    pub tick_id: TickId,
    pub artifact_id: ArtifactId,
    pub summary: String,
    pub recommendations: Vec<String>,
}

/// The threads that are built in.
#[derive(Debug, Clone, Copy, PartialEq, Eq, Structural)]
pub struct BuiltinThreads {
    pub threat_monitor: ThreadId,
    pub self_critique: ThreadId,
    pub meta_cognition: ThreadId,
}

// ---------------------------------------------------------------------------
// Which threads run
// ---------------------------------------------------------------------------

/// The threads that the budget allows, in order. `allowed` tells it of each.
pub open spec fn runnable_of(due: Seq<ThreadSpec>, allowed: Seq<bool>) -> Seq<ThreadSpec>
    recommends
        due.len() <= allowed.len(),
    decreases due.len(),
{
    if due.len() == 0 {
        due
    } else if allowed[due.len() - 1] {
        runnable_of(due.drop_last(), allowed).push(due.last())
    } else {
        runnable_of(due.drop_last(), allowed)
    }
}

/// Selects the due threads that the budget allows. Their order stays.
pub fn runnable_threads(due: Vec<ThreadSpec>, allowed: &Vec<bool>) -> (r: Vec<ThreadSpec>)
    requires
        due@.len() == allowed@.len(),
    ensures
        r@ == runnable_of(due@, allowed@),
{
    let mut rest = due;
    let mut out: Vec<ThreadSpec> = Vec::new();
    let ghost all = due@;
    let mut i: usize = 0;
    assert(all.subrange(0, all.len() as int) =~= all);
    assert(out@ =~= runnable_of(all.subrange(0, 0), allowed@));
    while rest.len() > 0
        invariant
            all.len() == allowed@.len(),
            i <= all.len(),
            rest@ == all.subrange(i as int, all.len() as int),
            out@ == runnable_of(all.subrange(0, i as int), allowed@),
        decreases rest@.len(),
    {
        let t = rest.remove(0);
        assert(rest@ =~= all.subrange(i + 1, all.len() as int));
        assert(all.subrange(0, i + 1).drop_last() =~= all.subrange(0, i as int));
        assert(all.subrange(0, i + 1).last() == t);
        assert(i < allowed.len());
        if allowed[i] {
            out.push(t);
        }
        i = i + 1;
    }
    assert(all.subrange(0, i as int) =~= all);
    out
}

/// The vessel is still new: the tick lies in the grace period.
pub open spec fn in_grace(grace_period: u64, tick_number: u64) -> bool {
    grace_period > 0 && tick_number < grace_period
}

/// The thread is one that would judge a new vessel too harshly.
pub open spec fn is_sensitive(id: ThreadId, builtin: BuiltinThreads) -> bool {
    id == builtin.threat_monitor || id == builtin.self_critique
}

/// Tells whether the tick lies in the grace period.
pub fn in_grace_period(grace_period: u64, tick_number: u64) -> (r: bool)
    ensures
        r == in_grace(grace_period, tick_number),
{
    grace_period > 0 && tick_number < grace_period
}

/// Tells whether a thread is told that the vessel is new.
pub fn is_bootstrap_sensitive_thread(thread_id: ThreadId, builtin: &BuiltinThreads) -> (r: bool)
    ensures
        r == is_sensitive(thread_id, *builtin),
{
    thread_id == builtin.threat_monitor || thread_id == builtin.self_critique
}

/// Tells whether a thread gets the preamble for a new vessel.
pub fn gets_preamble(
    thread_id: ThreadId,
    builtin: &BuiltinThreads,
    grace_period: u64,
    tick_number: u64,
) -> (r: bool)
    ensures
        r == (in_grace(grace_period, tick_number) && is_sensitive(thread_id, *builtin)),
{
    in_grace_period(grace_period, tick_number) && is_bootstrap_sensitive_thread(thread_id, builtin)
}

/// A thread that runs was due, and the threads that run keep their order.
pub proof fn runnable_threads_were_due(due: Seq<ThreadSpec>, allowed: Seq<bool>)
    requires
        due.len() == allowed.len(),
    ensures
        runnable_of(due, allowed).len() <= due.len(),
        forall|i: int|
            0 <= i < runnable_of(due, allowed).len() ==> due.contains(
                #[trigger] runnable_of(due, allowed)[i],
            ),
{
    runnable_threads_were_due_upto(due, allowed, due.len() as int);
}

proof fn runnable_threads_were_due_upto(due: Seq<ThreadSpec>, allowed: Seq<bool>, n: int)
    requires
        due.len() == allowed.len(),
        0 <= n <= due.len(),
    ensures
        runnable_of(due.subrange(0, n), allowed).len() <= n,
        forall|i: int|
            0 <= i < runnable_of(due.subrange(0, n), allowed).len() ==> due.contains(
                #[trigger] runnable_of(due.subrange(0, n), allowed)[i],
            ),
        n == due.len() ==> due.subrange(0, n) == due,
    decreases n,
{
    assert(n == due.len() ==> due.subrange(0, n) =~= due);
    if n > 0 {
        runnable_threads_were_due_upto(due, allowed, n - 1);
        assert(due.subrange(0, n).drop_last() =~= due.subrange(0, n - 1));
        assert(due.subrange(0, n).last() == due[n - 1]);
    }
}

// ---------------------------------------------------------------------------
// A thread
// ---------------------------------------------------------------------------

/// The message to a thread that has none of its own.
pub open spec fn default_thread_message() -> Seq<char> {
    "Analyze the current situation per your charter. Respond with JSON."@
}

/// Builds the request of a thread. A cancelled thread makes none.
pub fn thread_request(
    thread: &ThreadSpec,
    prompt: String,
    user_message: &Option<String>,
    backend: LlmBackend,
    cancelled: bool,
) -> (r: Result<LlmRequest, ExoError>)
    ensures
        match r {
            Ok(q) => {
                &&& !cancelled
                &&& q.backend == Some(backend)
                &&& q.system_prompt == Some(prompt)
                &&& message_views(q.messages@) == seq![
                    text_message(
                        LlmRole::User,
                        match *user_message {
                            Some(t) => t@,
                            None => default_thread_message(),
                        },
                    ),
                ]
                &&& q.max_output_tokens == thread.token_budget / 4
                &&& q.temperature matches Some(t) && t@ == "0.7"@
                &&& q.stop_sequences@.len() == 0
                &&& !q.stream
                &&& q.tools@.len() == 0
            },
            Err(ExoError::Engine(m)) => cancelled && m@ == "thread execution cancelled"@,
            Err(_) => false,
        },
{
    if cancelled {
        return Err(ExoError::Engine("thread execution cancelled".to_owned()));
    }
    let message = match user_message {
        Some(t) => LlmMessage::text(LlmRole::User, t.as_str()),
        None => LlmMessage::text(
            LlmRole::User,
            "Analyze the current situation per your charter. Respond with JSON.",
        ),
    };
    let messages = vec![message];
    assert(message_views(messages@) =~= seq![message@]);
    Ok(
        LlmRequest {
            backend: Some(backend),
            system_prompt: Some(prompt),
            messages,
            max_output_tokens: thread.token_budget / 4,
            temperature: Some("0.7".to_owned()),
            stop_sequences: Vec::new(),
            stream: false,
            tools: Vec::new(),
        },
    )
}

/// What a value says as the response of a thread: a summary and recommendations.
pub open spec fn response_of(j: JsonView) -> Option<(Seq<char>, Seq<Seq<char>>)> {
    let summary = text_of(field_at(j, "summary"@, 0));
    let recommendations = texts_of(field_at(j, "recommendations"@, 1));
    if is_record(j, 2) && summary is Some && recommendations is Some {
        Some((summary->Some_0, recommendations->Some_0))
    } else {
        None
    }
}

/// What a text says as the response of a thread. A text that is no JSON response is
/// its own summary.
pub open spec fn response_from(text: Seq<char>) -> (Seq<char>, Seq<Seq<char>>) {
    match parsed(text) {
        Ok(j) => match response_of(j) {
            Some(r) => r,
            None => (text, Seq::empty()),
        },
        Err(_) => (text, Seq::empty()),
    }
}

/// Reads the response of a thread from a JSON value.
pub fn read_thread_response(j: &Json) -> (r: Option<(String, Vec<String>)>)
    ensures
        match r {
            Some(p) => response_of(j@) == Some((p.0@, texts(p.1@))),
            None => response_of(j@) is None,
        },
{
    if !has_record_form(j, 2) {
        return None;
    }
    let summary = match read_text(record_field(j, "summary", 0)) {
        Some(t) => t,
        None => {
            return None;
        },
    };
    match record_field(j, "recommendations", 1) {
        None => {
            let none: Vec<String> = Vec::new();
            assert(texts(none@) =~= Seq::<Seq<char>>::empty());
            Some((summary, none))
        },
        Some(list) => match crate::decode::read_text_list(list) {
            Some(v) => Some((summary, v)),
            None => None,
        },
    }
}

/// Turns the response of the model into the output of a thread.
pub fn thread_output(
    thread_id: ThreadId,
    tick_id: TickId,
    artifact_id: ArtifactId,
    response_text: &str,
) -> (o: ThreadOutput)
    ensures
        o.thread_id == thread_id,
        o.tick_id == tick_id,
        o.artifact_id == artifact_id,
        (o.summary@, texts(o.recommendations@)) == response_from(response_text@),
{
    let read = match parse_json(response_text) {
        Ok(j) => read_thread_response(&j),
        Err(_) => None,
    };
    let (summary, recommendations) = match read {
        Some(p) => p,
        None => {
            let none: Vec<String> = Vec::new();
            assert(texts(none@) =~= Seq::<Seq<char>>::empty());
            (response_text.to_owned(), none)
        },
    };
    ThreadOutput { thread_id, tick_id, artifact_id, summary, recommendations }
}

// ---------------------------------------------------------------------------
// The outputs of a tick
// ---------------------------------------------------------------------------

/// A thread that ran, with its output or its error.
#[derive(Debug)]
pub struct ThreadRun {
    pub name: String,
    pub thread_id: ThreadId,
    pub result: Result<ThreadOutput, String>,
}

/// What is noted of a thread that ran.
#[derive(Debug, PartialEq, Eq)]
pub struct ThreadNote {
    /// The event for the ledger.
    pub event: String,
    /// The event for the observers, if the thread succeeded.
    pub announcement: Option<String>,
    /// The thread succeeded.
    pub completed: bool,
    /// The output is to be searched for charter proposals.
    pub meta_cognition: bool,
}

/// What the threads of a tick amount to.
#[derive(Debug)]
pub struct ThreadHarvest {
    pub contributions: Vec<ThreadContribution>,
    /// What is noted of each thread, in order.
    pub notes: Vec<ThreadNote>,
}

/// The contributions of the threads that succeeded, in order.
pub open spec fn harvested(runs: Seq<ThreadRun>) -> Seq<ThreadContribution>
    decreases runs.len(),
{
    if runs.len() == 0 {
        Seq::empty()
    } else {
        match runs.last().result {
            Ok(o) => harvested(runs.drop_last()).push(
                ThreadContribution {
                    thread_id: o.thread_id,
                    artifact_id: o.artifact_id,
                    summary: o.summary,
                },
            ),
            Err(_) => harvested(runs.drop_last()),
        }
    }
}

/// `n` is what is noted of a thread that ran.
pub open spec fn notes_run(n: ThreadNote, run: ThreadRun, meta_cognition: ThreadId) -> bool {
    match run.result {
        Ok(o) => {
            &&& n.event@ == "Thread '"@ + run.name@ + "' produced: "@ + o.summary@
            &&& n.announcement matches Some(t) && t@ == "Thread '"@ + run.name@ + "' completed"@
            &&& n.completed
            &&& n.meta_cognition == (run.thread_id == meta_cognition)
        },
        Err(e) => {
            &&& n.event@ == "Thread '"@ + run.name@ + "' failed: "@ + e@
            &&& n.announcement is None
            &&& !n.completed
            &&& !n.meta_cognition
        },
    }
}

fn thread_text(name: &str, verb: &str, rest: &str) -> (s: String)
    ensures
        s@ == "Thread '"@ + name@ + verb@ + rest@,
{
    let mut s = "Thread '".to_owned();
    s.append(name);
    s.append(verb);
    s.append(rest);
    s
}

/// Gathers the outputs of the threads of a tick. A thread that failed is noted and
/// does not stand in the way of the others.
pub fn harvest_threads(runs: &Vec<ThreadRun>, builtin: &BuiltinThreads) -> (h: ThreadHarvest)
    ensures
        h.contributions@ == harvested(runs@),
        h.notes@.len() == runs@.len(),
        forall|i: int|
            0 <= i < runs@.len() ==> notes_run(
                #[trigger] h.notes@[i],
                runs@[i],
                builtin.meta_cognition,
            ),
{
    let mut contributions: Vec<ThreadContribution> = Vec::new();
    let mut notes: Vec<ThreadNote> = Vec::new();
    let mut i: usize = 0;
    assert(contributions@ =~= harvested(runs@.subrange(0, 0)));
    while i < runs.len()
        invariant
            i <= runs@.len(),
            contributions@ == harvested(runs@.subrange(0, i as int)),
            notes@.len() == i,
            forall|k: int|
                0 <= k < i ==> notes_run(#[trigger] notes@[k], runs@[k], builtin.meta_cognition),
        decreases runs@.len() - i,
    {
        let run = &runs[i];
        assert(runs@.subrange(0, i + 1).drop_last() =~= runs@.subrange(0, i as int));
        assert(runs@.subrange(0, i + 1).last() == *run);
        match &run.result {
            Ok(o) => {
                let mut done = "Thread '".to_owned();
                done.append(run.name.as_str());
                done.append("' completed");
                notes.push(
                    ThreadNote {
                        event: thread_text(
                            run.name.as_str(),
                            "' produced: ",
                            o.summary.as_str(),
                        ),
                        announcement: Some(done),
                        completed: true,
                        meta_cognition: run.thread_id == builtin.meta_cognition,
                    },
                );
                contributions.push(
                    ThreadContribution {
                        thread_id: o.thread_id,
                        artifact_id: o.artifact_id.clone(),
                        summary: o.summary.clone(),
                    },
                );
            },
            Err(e) => {
                notes.push(
                    ThreadNote {
                        event: thread_text(run.name.as_str(), "' failed: ", e.as_str()),
                        announcement: None,
                        completed: false,
                        meta_cognition: false,
                    },
                );
            },
        }
        i = i + 1;
    }
    assert(runs@.subrange(0, runs@.len() as int) =~= runs@);
    ThreadHarvest { contributions, notes }
}

/// If every thread fails, the tick goes on without contributions.
pub proof fn failed_threads_contribute_nothing(runs: Seq<ThreadRun>)
    requires
        forall|i: int| 0 <= i < runs.len() ==> (#[trigger] runs[i]).result is Err,
    ensures
        harvested(runs).len() == 0,
    decreases runs.len(),
{
    if runs.len() > 0 {
        let front = runs.drop_last();
        assert forall|i: int| 0 <= i < front.len() implies (#[trigger] front[i]).result is Err by {
            assert(runs[i].result is Err);
        }
        failed_threads_contribute_nothing(front);
    }
}

/// If every thread succeeds, each contributes once, in order.
pub proof fn successful_threads_all_contribute(runs: Seq<ThreadRun>)
    requires
        forall|i: int| 0 <= i < runs.len() ==> (#[trigger] runs[i]).result is Ok,
    ensures
        harvested(runs).len() == runs.len(),
        forall|i: int|
            0 <= i < runs.len() ==> (#[trigger] harvested(runs)[i]).thread_id
                == runs[i].result->Ok_0.thread_id,
    decreases runs.len(),
{
    if runs.len() > 0 {
        let front = runs.drop_last();
        assert forall|i: int| 0 <= i < front.len() implies (#[trigger] front[i]).result is Ok by {
            assert(runs[i].result is Ok);
        }
        successful_threads_all_contribute(front);
        assert(runs[runs.len() - 1].result is Ok);
        assert forall|i: int| 0 <= i < runs.len() implies (#[trigger] harvested(runs)[i]).thread_id
            == runs[i].result->Ok_0.thread_id by {
            if i < front.len() {
                assert(harvested(runs)[i] == harvested(front)[i]);
                assert(front[i] == runs[i]);
            }
        }
    }
}

// ---------------------------------------------------------------------------
// Charter proposals
// ---------------------------------------------------------------------------

/// A proposal for a new charter, as the meta-cognition thread makes it.
#[derive(Debug, PartialEq, Eq)]
pub struct CharterDraft {
    pub thread_name: String,
    pub current_charter: String,
    pub proposed_charter: String,
    pub rationale: String,
}

/// The state of a proposal.
#[derive(Debug, Clone, Copy, PartialEq, Eq, Structural)]
pub enum ProposalStatus {
    Pending,
    Approved,
    Rejected,
}

/// A proposal for a new charter of a thread.
#[derive(Debug, PartialEq, Eq)]
pub struct CharterProposal {
    pub thread_id: ThreadId,
    pub thread_name: String,
    pub current_charter: String,
    pub proposed_charter: String,
    pub rationale: String,
    pub detected_patterns: Vec<String>,
    pub proposed_at_tick: u64,
    pub status: ProposalStatus,
}

/// A proposal with the event that announces it.
#[derive(Debug, PartialEq, Eq)]
pub struct AnnouncedProposal {
    pub proposal: CharterProposal,
    pub summary: String,
}

/// How many characters of the rationale an event quotes.
pub const RATIONALE_LIMIT: usize = 100;

/// The first thread with the name `name`.
pub open spec fn thread_named(threads: Seq<ThreadSpec>, name: Seq<char>, from: int) -> Option<ThreadId>
    decreases threads.len() - from,
{
    if from < 0 || from >= threads.len() {
        None
    } else if threads[from].name@ == name {
        Some(threads[from].thread_id)
    } else {
        thread_named(threads, name, from + 1)
    }
}

/// Finds the thread with the name `name`.
pub fn find_thread_by_name(threads: &Vec<ThreadSpec>, name: &str) -> (r: Option<ThreadId>)
    ensures
        r == thread_named(threads@, name@, 0),
{
    let mut i: usize = 0;
    while i < threads.len()
        invariant
            i <= threads@.len(),
            thread_named(threads@, name@, 0) == thread_named(threads@, name@, i as int),
        decreases threads@.len() - i,
    {
        if str_eq(threads[i].name.as_str(), name) {
            return Some(threads[i].thread_id);
        }
        i = i + 1;
    }
    None
}

/// `p` announces the draft `d` for the thread `id`.
pub open spec fn proposes_charter(
    p: AnnouncedProposal,
    d: CharterDraft,
    id: ThreadId,
    patterns: Seq<Seq<char>>,
    tick_number: u64,
) -> bool {
    &&& p.proposal.thread_id == id
    &&& p.proposal.thread_name == d.thread_name
    &&& p.proposal.current_charter == d.current_charter
    &&& p.proposal.proposed_charter == d.proposed_charter
    &&& p.proposal.rationale == d.rationale
    &&& texts(p.proposal.detected_patterns@) == patterns
    &&& p.proposal.proposed_at_tick == tick_number
    &&& p.proposal.status == ProposalStatus::Pending
    &&& p.summary@ == "Charter proposal for '"@ + d.thread_name@ + "': "@ + first_n(
        d.rationale@,
        RATIONALE_LIMIT as int,
    )
}

/// The drafts for threads that exist, in order.
pub open spec fn known_drafts(drafts: Seq<CharterDraft>, threads: Seq<ThreadSpec>) -> Seq<
    CharterDraft,
>
    decreases drafts.len(),
{
    if drafts.len() == 0 {
        drafts
    } else if thread_named(threads, drafts.last().thread_name@, 0) is Some {
        known_drafts(drafts.drop_last(), threads).push(drafts.last())
    } else {
        known_drafts(drafts.drop_last(), threads)
    }
}

/// Turns the drafts of the meta-cognition thread into proposals. A draft for a thread
/// that does not exist is dropped.
pub fn process_meta_cognition_output(
    drafts: &Vec<CharterDraft>,
    patterns: &Vec<String>,
    threads: &Vec<ThreadSpec>,
    tick_number: u64,
) -> (r: Vec<AnnouncedProposal>)
    ensures
        r@.len() == known_drafts(drafts@, threads@).len(),
        forall|i: int|
            0 <= i < r@.len() ==> proposes_charter(
                #[trigger] r@[i],
                known_drafts(drafts@, threads@)[i],
                thread_named(
                    threads@,
                    known_drafts(drafts@, threads@)[i].thread_name@,
                    0,
                )->Some_0,
                texts(patterns@),
                tick_number,
            ),
{
    let mut out: Vec<AnnouncedProposal> = Vec::new();
    let mut i: usize = 0;
    assert(known_drafts(drafts@.subrange(0, 0), threads@).len() == 0);
    while i < drafts.len()
        invariant
            i <= drafts@.len(),
            out@.len() == known_drafts(drafts@.subrange(0, i as int), threads@).len(),
            forall|k: int|
                0 <= k < out@.len() ==> proposes_charter(
                    #[trigger] out@[k],
                    known_drafts(drafts@.subrange(0, i as int), threads@)[k],
                    thread_named(
                        threads@,
                        known_drafts(drafts@.subrange(0, i as int), threads@)[k].thread_name@,
                        0,
                    )->Some_0,
                    texts(patterns@),
                    tick_number,
                ),
        decreases drafts@.len() - i,
    {
        let d = &drafts[i];
        let ghost seen = drafts@.subrange(0, i + 1);
        assert(seen.drop_last() =~= drafts@.subrange(0, i as int));
        assert(seen.last() == *d);
        match find_thread_by_name(threads, d.thread_name.as_str()) {
            Some(thread_id) => {
                let mut summary = "Charter proposal for '".to_owned();
                summary.append(d.thread_name.as_str());
                summary.append("': ");
                summary.append(take_chars(d.rationale.as_str(), RATIONALE_LIMIT).as_str());
                let proposal = CharterProposal {
                    thread_id,
                    thread_name: d.thread_name.clone(),
                    current_charter: d.current_charter.clone(),
                    proposed_charter: d.proposed_charter.clone(),
                    rationale: d.rationale.clone(),
                    detected_patterns: crate::text::clone_strings(patterns),
                    proposed_at_tick: tick_number,
                    status: ProposalStatus::Pending,
                };
                out.push(AnnouncedProposal { proposal, summary });
            },
            None => {},
        }
        i = i + 1;
    }
    assert(drafts@.subrange(0, drafts@.len() as int) =~= drafts@);
    out
}

} // verus!

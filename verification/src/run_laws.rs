//! Laws of a tick as a whole: what its steps hand to one another.

use vstd::prelude::*;
use vstd::string::*;

use crate::amend_run::{amend_step, AmendEvent, AmendRequest, AmendRun};
use crate::client::{task_output, AttemptReport, RunReport, RunStatus};
use crate::context_laws::every_change_is_tracked;
use crate::encode::{keys_differ, member_is_found};
use crate::exec_threads::{ExecThreadContribution, ExecThreadSummary};
use crate::json::{string_array, JsonView};
use crate::text::{
    dec, end_is_found, first_occurrence, first_occurrence_is_first, found_by_way, has_text, joined,
    joined_parts_are_found, occurs_at, part_is_found, texts, trimmed,
};
use crate::tick::{
    suspension, thrash_text, tick_step, Phase, SnapshotHead, ThrashAssessment, TickEvent,
    TickRequest, TickRun,
};
use crate::types::{
    fenced, ActionExecution, BudgetConsumption, DecisionResult, ExoError, HandlerOutput,
    PlannedAction, ThreadContribution,
};

verus! {

// ---------------------------------------------------------------------------
// A tick
// ---------------------------------------------------------------------------

/// The ticks are numbered one after the other, from one on. In a terminal state no tick
/// runs.
pub proof fn ticks_are_numbered(
    run: TickRun,
    head: Option<SnapshotHead>,
    next: TickRun,
    request: TickRequest,
)
    requires
        tick_step(run, TickEvent::SnapshotLoaded(Ok(head)), next, request),
        head matches Some(h) ==> h.terminal || h.tick_number < u64::MAX,
    ensures
        head is None ==> next.tick_number == 1 && request is StoreSnapshot,
        head matches Some(h) ==> (!h.terminal ==> next.tick_number == h.tick_number + 1
            && request is StoreSnapshot),
        head matches Some(h) ==> (h.terminal ==> (request matches TickRequest::Finish(f)
            && f.output is Success)),
{
}

/// The request ends the tick with a failure that can be retried and that tells this error.
pub open spec fn gives_up(request: TickRequest, error: Seq<char>) -> bool {
    request matches TickRequest::Finish(f) && f.output matches HandlerOutput::RetryableFailure {
        error: e,
        consumption,
    } && has_text(e@, error)
}

/// A failure of a step before the Amend step ends the tick and is told.
#[verifier::rlimit(40)]
pub proof fn failures_are_told(
    run: TickRun,
    event: TickEvent,
    next: TickRun,
    request: TickRequest,
    e: String,
)
    requires
        tick_step(run, event, next, request),
        match event {
            TickEvent::SnapshotLoaded(r) => r == Err::<Option<SnapshotHead>, String>(e),
            TickEvent::Perceived(r) => r == Err::<Vec<String>, String>(e),
            TickEvent::Oriented { result, .. } => result == Err::<Vec<String>, String>(e),
            TickEvent::Decided { result, .. } => result == Err::<DecisionResult, String>(e),
            TickEvent::Acted(r) => r == Err::<Vec<ActionExecution>, String>(e),
            _ => false,
        },
    ensures
        gives_up(request, e@),
        next.phase == Phase::Done,
{
    end_is_found("Perceive: failed to load snapshot: "@, e@);
    end_is_found("Perceive failed: "@, e@);
    end_is_found("Orient failed: "@, e@);
    end_is_found("Decide failed: "@, e@);
    end_is_found("Act failed: "@, e@);
}

/// Every message that came in is announced with its source, in order.
pub proof fn every_message_is_announced(
    run: TickRun,
    sources: Vec<String>,
    next: TickRun,
    request: TickRequest,
)
    requires
        tick_step(run, TickEvent::Perceived(Ok(sources)), next, request),
    ensures
        next.new_messages == (sources@.len() > 0),
        request matches TickRequest::RunThreads { tick_number, announcements } && {
            &&& tick_number == run.tick_number
            &&& announcements@.len() == sources@.len()
            &&& forall|i: int|
                0 <= i < sources@.len() ==> has_text(
                    (#[trigger] announcements@[i])@,
                    sources@[i]@,
                )
        },
{
    let announcements = request->RunThreads_announcements;
    assert(texts(announcements@).len() == announcements@.len());
    assert forall|i: int| 0 <= i < sources@.len() implies has_text(
        (#[trigger] announcements@[i])@,
        sources@[i]@,
    ) by {
        assert(texts(announcements@)[i] == announcements@[i]@);
        end_is_found("Message received from "@, sources@[i]@);
    }
}

/// What the threads contribute reaches the Orient step. If the ones fail, what the others
/// contribute does so all the same. What the watches ask for is kept.
pub proof fn contributions_reach_orient(
    run: TickRun,
    threads: Result<Vec<ThreadContribution>, String>,
    exec_threads: Result<Vec<ExecThreadContribution>, String>,
    poll_actions: Vec<PlannedAction>,
    next: TickRun,
    request: TickRequest,
)
    requires
        tick_step(
            run,
            TickEvent::ThreadsRan { threads, exec_threads, poll_actions, cancelled: false },
            next,
            request,
        ),
    ensures
        next.poll_actions == poll_actions,
        request matches TickRequest::Orient { threads: t, exec_threads: x } && {
            &&& threads matches Ok(list) ==> t@ == list@
            &&& exec_threads matches Ok(list) ==> x@ == list@
            &&& threads is Err ==> t@.len() == 0
            &&& exec_threads is Err ==> x@.len() == 0
        },
{
}

/// What the watches ask for, and the number of the tick, stay from the Orient step to the
/// Align step. What was truncated stays from there to the end.
pub proof fn tick_remembers(run: TickRun, event: TickEvent, next: TickRun, request: TickRequest)
    requires
        tick_step(run, event, next, request),
        !(request is Finish),
    ensures
        !(event is SnapshotLoaded) ==> next.tick_number == run.tick_number,
        event is Oriented || event is Decided || event is Settled ==> next.poll_actions
            == run.poll_actions,
        !(event is Oriented) ==> next.truncated_sections == run.truncated_sections,
        event matches TickEvent::Oriented { result, .. } ==> Ok::<Vec<String>, String>(
            next.truncated_sections,
        ) == result,
        !(event is Decided) ==> next.suppress == run.suppress,
        !(event is Acted) ==> next.acted == run.acted && next.succeeded == run.succeeded,
        next.episodic_capacity == run.episodic_capacity,
        next.return_to_idle == run.return_to_idle,
{
}

/// All that was executed reaches the Reflect step, with every change of a file, and next to
/// the ten ticks before this one.
pub proof fn executions_reach_reflect(
    run: TickRun,
    executions: Vec<ActionExecution>,
    next: TickRun,
    request: TickRequest,
)
    requires
        tick_step(run, TickEvent::Acted(Ok(executions)), next, request),
    ensures
        next.acted == (executions@.len() > 0),
        next.succeeded <==> exists|i: int|
            0 <= i < executions@.len() && (#[trigger] executions@[i]).record.outcome is Success,
        request matches TickRequest::Reflect { executions: done, diffs, window_from, window_to }
            && {
            &&& done@ == executions@
            &&& diffs.tick_number == run.tick_number
            &&& diffs.entries@.len() == executions@.filter(
                |e: ActionExecution| e.code_diff is Some,
            ).len()
            &&& run.tick_number >= 10 ==> window_from == run.tick_number - 10
            &&& run.tick_number >= 1 ==> window_to == run.tick_number - 1
            &&& run.tick_number < 10 ==> window_from == 0
        },
{
    every_change_is_tracked(executions@);
}

/// The count of failures starts anew exactly if an action succeeded. It grows exactly if
/// actions were taken and none succeeded.
pub proof fn failures_are_counted(
    run: TickRun,
    output: HandlerOutput,
    next: TickRun,
    request: TickRequest,
)
    requires
        tick_step(run, TickEvent::Amended(Ok(output)), next, request),
        run.succeeded ==> run.acted,
    ensures
        next.output == Some(output),
        request matches TickRequest::Close { note } && {
            &&& note is Clear <==> run.succeeded
            &&& note is Record <==> run.acted && !run.succeeded
            &&& note is Keep <==> !run.acted
        },
{
}

/// A tick that repeats itself too much says so: with every sign of it, to the observers and
/// in the ledger. A little of it is only announced.
#[verifier::rlimit(40)]
pub proof fn thrash_is_told(
    run: TickRun,
    assessment: ThrashAssessment,
    consumption: Vec<BudgetConsumption>,
    next: TickRun,
    request: TickRequest,
    i: int,
)
    requires
        tick_step(run, TickEvent::Reflected { assessment, consumption }, next, request),
        0 <= i < assessment.indicators@.len(),
    ensures
        assessment.level is High ==> (request matches TickRequest::Finish(f) && {
            &&& f.announcement matches Some(t) && has_text(t@, assessment.indicators@[i]@)
            &&& f.error_event matches Some(t) && has_text(t@, assessment.indicators@[i]@)
            &&& f.output matches HandlerOutput::Success { output, consumption: used } && used
                == consumption && output is Some
        }),
        assessment.level is Low || assessment.level is Medium ==> (
        request matches TickRequest::Amend { announcement } && announcement matches Some(t)
            && has_text(t@, assessment.indicators@[i]@)),
        assessment.level is Absent ==> (request matches TickRequest::Amend { announcement }
            && announcement is None),
{
    let all = texts(assessment.indicators@);
    let list = joined(all, "; "@);
    let sign = assessment.indicators@[i]@;
    assert(all[i] == sign);
    joined_parts_are_found(all, "; "@, i);
    let text = thrash_text(assessment);
    let n = text.len() - list.len() - ")"@.len();
    assert(text.subrange(0, n) + list + ")"@ =~= text);
    part_is_found(text.subrange(0, n), list, ")"@);
    found_by_way(text, list, sign);
    let event = "Cognitive loop suspended due to high thrash: "@ + list;
    end_is_found("Cognitive loop suspended due to high thrash: "@, list);
    found_by_way(event, list, sign);
}

/// The output of a suspended tick tells that it was suspended, why, and all signs.
pub proof fn suspension_is_told(a: ThrashAssessment)
    ensures
        suspension(a).field("suspended"@) == Some(JsonView::Bool(true)),
        suspension(a).field("reason"@) == Some(JsonView::Str("high_thrash"@)),
        suspension(a).field("indicators"@) == Some(string_array(texts(a.indicators@))),
{
    let m = suspension(a)->Object_0;
    reveal_strlit("suspended");
    reveal_strlit("reason");
    reveal_strlit("indicators");
    assert("suspended"@.len() == 9 && "reason"@.len() == 6 && "indicators"@.len() == 10);
    assert(keys_differ(m));
    member_is_found(m, 0);
    member_is_found(m, 1);
    member_is_found(m, 2);
}

/// The next tick starts early exactly if a thread is active or blocked. What the Amend step
/// returned is returned, with what was consumed. The memory is compacted if something had
/// to be truncated.
pub proof fn tick_ends_with_its_output(
    run: TickRun,
    consumption: Vec<BudgetConsumption>,
    episodic_count: Option<u64>,
    summaries: Vec<ExecThreadSummary>,
    next: TickRun,
    request: TickRequest,
)
    requires
        tick_step(
            run,
            TickEvent::Closed { consumption, episodic_count, summaries: Some(summaries) },
            next,
            request,
        ),
        run.output matches Some(o) && o is Success,
    ensures
        request matches TickRequest::Finish(f) && {
            &&& f.output matches HandlerOutput::Success { output, consumption: used }
                && run.output matches Some(o) && o matches HandlerOutput::Success {
                output: before,
                consumption: earlier,
            } && output == before && used == if consumption@.len() > 0 {
                consumption
            } else {
                earlier
            }
            &&& f.wake <==> exists|i: int|
                0 <= i < summaries@.len() && ((#[trigger] summaries@[i]).status is Active
                    || summaries@[i].status is Blocked)
            &&& run.truncated_sections@.len() > 0 ==> f.compact
            &&& run.truncated_sections@.len() == 0 && run.episodic_capacity is None ==> !f.compact
        },
{
}

// ---------------------------------------------------------------------------
// The Amend step
// ---------------------------------------------------------------------------

/// A reply is stored with its text, and once it is stored it is announced under its
/// reference, and goes to the conversation if there is one.
pub proof fn reply_is_stored_and_announced(
    run: AmendRun,
    event: AmendEvent,
    next: AmendRun,
    request: AmendRequest,
)
    requires
        amend_step(run, event, next, request),
    ensures
        run.phase is MarkingStale && event is Tried ==> {
            &&& run.reply matches Some(t) ==> request == (AmendRequest::StoreReply { text: t })
            &&& run.reply is None ==> !(request is StoreReply)
        },
        run.phase is StoringReply ==> {
            &&& event matches AmendEvent::Stored(Some(id)) ==> request
                == (AmendRequest::AnnounceReply {
                reply: id,
                to_conversation: run.has_conversation,
            })
            &&& event == AmendEvent::Stored(None) ==> !(request is AnnounceReply) && !(
            request is Fail)
        },
{
}

/// The snapshot refers to the relationships as they were stored in this step. They are
/// stored exactly if they were compiled.
pub proof fn relationships_reach_snapshot(
    run: AmendRun,
    event: AmendEvent,
    next: AmendRun,
    request: AmendRequest,
)
    requires
        amend_step(run, event, next, request),
    ensures
        request matches AmendRequest::StoreSnapshot { relationships } ==> relationships
            == next.relationships_ref,
        run.phase is StoringRelationships ==> (event matches AmendEvent::Stored(id)
            ==> next.relationships_ref == id),
        !(run.phase is StoringRelationships) ==> next.relationships_ref == run.relationships_ref,
        run.phase is AnnouncingReply && event is Tried ==> (request is StoreRelationships
            <==> run.has_relationships),
        run.phase is StoringRelationships && event is Stored ==> (request is RecordRelationships
            <==> run.updates > 0),
        request matches AmendRequest::RecordRelationships { summary } ==> has_text(
            summary@,
            dec(run.updates as nat),
        ),
{
    crate::text::start_is_found(
        dec(run.updates as nat),
        " relationship updates from Align step"@,
    );
}

/// A bounded memory is brought to its capacity, and what was evicted is told. An unbounded
/// one is left alone.
pub proof fn memory_is_bounded(
    run: AmendRun,
    event: AmendEvent,
    next: AmendRun,
    request: AmendRequest,
)
    requires
        amend_step(run, event, next, request),
    ensures
        run.phase is Consolidating && event is Tried ==> match run.capacity {
            Some(c) => request == (AmendRequest::Evict { capacity: c }),
            None => request is MarkStale,
        },
        run.phase is Evicting && run.capacity is Some ==> (event matches AmendEvent::Evicted(
            Some(n),
        ) ==> (n > 0 ==> (request matches AmendRequest::LogEviction { summary } && has_text(
            summary@,
            dec(n as nat),
        )))),
        run.phase is Evicting && event == AmendEvent::Evicted(None) ==> request is MarkStale,
{
    if let AmendEvent::Evicted(Some(n)) = event {
        if let Some(c) = run.capacity {
            let rest = " episodic entries (capacity: "@ + dec(c as nat) + ")"@;
            part_is_found("Evicted "@, dec(n as nat), rest);
            assert("Evicted "@ + dec(n as nat) + rest =~= "Evicted "@ + dec(n as nat)
                + " episodic entries (capacity: "@ + dec(c as nat) + ")"@);
        }
    }
}

/// With everything that must work working, the snapshot is stored and saved, then the record
/// is, then the end is logged, then the messages are acknowledged, then the notes are
/// written.
pub proof fn state_is_saved_in_order(
    run: AmendRun,
    event: AmendEvent,
    next: AmendRun,
    request: AmendRequest,
)
    requires
        amend_step(run, event, next, request),
        event == AmendEvent::Saved(Ok(())) || event is Tried || (
        event matches AmendEvent::SnapshotStored(r) && r is Ok),
    ensures
        run.phase is StoringSnapshot ==> request is SaveSnapshot,
        run.phase is SavingSnapshot ==> request is StoreRecord,
        run.phase is StoringRecord ==> request is SaveRecord,
        run.phase is SavingRecord ==> request is LogCompletion,
        run.phase is LoggingCompletion && run.messages > 0 ==> request is Acknowledge,
        run.phase is LoggingCompletion && run.messages == 0 ==> request is WriteNotes,
        run.phase is Acknowledging ==> request is WriteNotes,
        run.phase is WritingNotes ==> request is Finish,
{
}

// ---------------------------------------------------------------------------
// Tasks of the queue
// ---------------------------------------------------------------------------

/// The output of a task is that of the last attempt of its last run, if that was completed.
/// If it failed, the error of the last attempt is told.
pub proof fn last_attempt_counts(
    r: Result<Vec<u8>, ExoError>,
    runs: Vec<RunReport>,
    attempts: Vec<AttemptReport>,
)
    requires
        task_output(r, Some(runs)),
        runs@.len() > 0,
        runs@[runs@.len() - 1].attempts == Some(attempts),
        attempts@.len() > 0,
    ensures
        ({
            let run = runs@[runs@.len() - 1];
            let last = attempts@[attempts@.len() - 1];
            &&& run.status is Completed ==> match last.output {
                Some(bytes) => r matches Ok(b) && b@ == bytes@,
                None => r is Err,
            }
            &&& run.status is Failed ==> (last.error matches Some(e) ==> (r matches Err(x)
                && x matches ExoError::LlmInvocation(m) && m@ == e@))
            &&& run.status matches RunStatus::Other(state) ==> (r matches Err(x)
                && x matches ExoError::Engine(m) && has_text(m@, state@))
        }),
{
    if let RunStatus::Other(state) = runs@[runs@.len() - 1].status {
        end_is_found("unexpected run state: "@, state@);
    }
}

// ---------------------------------------------------------------------------
// Code fences and prompts
// ---------------------------------------------------------------------------

/// What stands in the first code fence that is marked as JSON is found, whatever stands in
/// front of it and behind it.
pub proof fn fenced_json_is_found(front: Seq<char>, body: Seq<char>, rest: Seq<char>)
    requires
        ({
            let text = front + "```json"@ + body + "```"@ + rest;
            let start = front.len() + "```json"@.len();
            &&& forall|i: int| 0 <= i < front.len() ==> !#[trigger] occurs_at(text, "```json"@, i)
            &&& forall|i: int|
                start <= i < start + body.len() ==> !#[trigger] occurs_at(text, "```"@, i)
        }),
    ensures
        fenced(front + "```json"@ + body + "```"@ + rest) == Some(trimmed(body)),
{
    let open = "```json"@;
    let close = "```"@;
    let text = front + open + body + close + rest;
    let start = (front.len() + open.len()) as int;
    let end = start + body.len();
    assert(text.subrange(front.len() as int, start) =~= open);
    assert(occurs_at(text, open, front.len() as int));
    first_occurrence_is_first(text, open, 0);
    assert(first_occurrence(text, open, 0) == Some(front.len() as int)) by {
        let i = first_occurrence(text, open, 0)->Some_0;
        if i < front.len() {
            assert(!occurs_at(text, open, i));
        }
    }
    assert(text.subrange(end, end + close.len()) =~= close);
    assert(occurs_at(text, close, end));
    first_occurrence_is_first(text, close, start);
    assert(first_occurrence(text, close, start) == Some(end)) by {
        let k = first_occurrence(text, close, start)->Some_0;
        if k < end {
            assert(!occurs_at(text, close, k));
        }
    }
    assert(text.subrange(start, end) =~= body);
}

/// Without a code fence that is marked as JSON there is nothing to be found.
pub proof fn no_fence_no_json(text: Seq<char>)
    requires
        !has_text(text, "```json"@),
    ensures
        fenced(text) is None,
{
    first_occurrence_is_first(text, "```json"@, 0);
}

} // verus!

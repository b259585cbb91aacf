//! Watches: standing observations that are checked at the beginning of a tick.

use vstd::prelude::*;
use vstd::string::*;

use crate::align::AlignmentResult;
use crate::json::{member, member_views, Json, JsonView};
use crate::types::{PlannedAction, PlannedActionView, Timestamp, WatchId};

verus! {

/// What a watch observes.
#[derive(Debug)]
#[allow(inconsistent_fields)]
pub enum WatchType {
    /// A metric, and the condition under which its reading triggers the watch.
    Threshold { metric: Json, condition: Json },
    /// A connector that is to be called.
    Poll { connector: String, params: Json, extract: Option<String>, condition: Option<Json> },
}

/// When a watch is due.
#[derive(Debug, Clone, Copy, PartialEq, Eq, Structural)]
pub enum WatchSchedule {
    EveryNTicks { n: u64 },
    Once,
}

/// The state of a watch.
#[derive(Debug, Clone, Copy, PartialEq, Eq, Structural)]
pub enum WatchStatus {
    Active,
    Paused,
    Completed,
}

/// A watch that the Decide step proposes.
#[derive(Debug)]
pub struct WatchProposal {
    pub name: String,
    pub description: String,
    pub watch_type: WatchType,
    pub schedule: WatchSchedule,
}

/// A watch.
#[derive(Debug)]
pub struct WatchDefinition {
    pub id: WatchId,
    pub name: String,
    pub description: String,
    pub watch_type: WatchType,
    pub schedule: WatchSchedule,
    pub status: WatchStatus,
    pub created_at_tick: u64,
    pub last_checked_tick: Option<u64>,
    pub trigger_count: u64,
    pub created_at: Timestamp,
}

/// A due watch, with what was read for it.
#[derive(Debug)]
pub struct DueWatch {
    pub watch: WatchDefinition,
    pub reading: Reading,
    /// The identifier of the watch as text.
    pub id_text: String,
    /// What the watch observes, as JSON.
    pub type_json: Json,
}

/// What was read for a watch.
#[derive(Debug)]
pub enum Reading {
    /// The metric could not be read, or the watch reads none.
    Absent,
    /// The metric has a value.
    Value {
        /// Whether the value meets the condition of the watch.
        triggered: bool,
        /// The value as JSON.
        value: Json,
        /// The value with two decimals.
        rounded: String,
    },
}

/// What is to be noted of a checked watch.
#[derive(Debug, Clone, Copy, PartialEq, Eq, Structural)]
pub enum WatchMark {
    Triggered(WatchId),
    Checked(WatchId),
}

/// The event of a triggered watch.
#[derive(Debug)]
pub struct WatchEvent {
    pub summary: String,
    pub payload: Json,
}

/// The outcome of checking the due watches.
#[derive(Debug)]
pub struct WatchCheckResult {
    /// The events of the threshold watches that were triggered.
    pub triggered_events: Vec<WatchEvent>,
    /// The actions of the poll watches. They need no approval: it was given when the
    /// watch was made.
    pub poll_actions: Vec<PlannedAction>,
    /// What is to be noted of each watch, in the order of the watches.
    pub marks: Vec<WatchMark>,
}

/// The watch is a threshold watch and its reading meets the condition.
pub open spec fn is_triggered(due: DueWatch) -> bool {
    due.watch.watch_type is Threshold && due.reading is Value && due.reading->triggered
}

/// What is noted of a checked watch.
pub open spec fn mark_of(due: DueWatch) -> WatchMark {
    if is_triggered(due) {
        WatchMark::Triggered(due.watch.id)
    } else {
        WatchMark::Checked(due.watch.id)
    }
}

/// The event of a triggered watch: its summary and its payload.
pub open spec fn event_of(due: DueWatch) -> (Seq<char>, JsonView) {
    (
        "Watch '"@ + due.watch.name@ + "' triggered: value="@ + due.reading->rounded@,
        JsonView::Object(
            seq![
                ("watch_id"@, JsonView::Str(due.id_text@)),
                ("watch_name"@, JsonView::Str(due.watch.name@)),
                ("metric"@, due.type_json@),
                ("value"@, due.reading->value@),
                ("condition"@, due.watch.watch_type->Threshold_condition@),
            ],
        ),
    )
}

/// The action of a poll watch.
pub open spec fn poll_of(due: DueWatch) -> PlannedActionView {
    PlannedActionView {
        call_id: ""@,
        tool_name: due.watch.watch_type->connector@,
        params: due.watch.watch_type->params@,
        rationale: "Poll watch '"@ + due.watch.name@ + "' scheduled check"@,
        plan_task_id: None,
        origin_exec_thread_id: None,
        proposal_id: None,
    }
}

/// The events of the triggered watches among `due`, in order.
pub open spec fn events_of(due: Seq<DueWatch>) -> Seq<(Seq<char>, JsonView)>
    decreases due.len(),
{
    if due.len() == 0 {
        Seq::empty()
    } else if is_triggered(due.last()) {
        events_of(due.drop_last()).push(event_of(due.last()))
    } else {
        events_of(due.drop_last())
    }
}

/// The actions of the poll watches among `due`, in order.
pub open spec fn polls_of(due: Seq<DueWatch>) -> Seq<PlannedActionView>
    decreases due.len(),
{
    if due.len() == 0 {
        Seq::empty()
    } else if due.last().watch.watch_type is Poll {
        polls_of(due.drop_last()).push(poll_of(due.last()))
    } else {
        polls_of(due.drop_last())
    }
}

/// The models of a list of events.
pub open spec fn event_views(events: Seq<WatchEvent>) -> Seq<(Seq<char>, JsonView)> {
    Seq::new(events.len(), |i: int| (events[i].summary@, events[i].payload@))
}

/// Builds the event of a triggered watch.
fn make_event(due: &DueWatch, condition: &Json, value: &Json, rounded: &String) -> (e: WatchEvent)
    requires
        is_triggered(*due),
        due.watch.watch_type->Threshold_condition == *condition,
        due.reading->value == *value,
        due.reading->rounded == *rounded,
    ensures
        (e.summary@, e.payload@) == event_of(*due),
{
    let mut summary = "Watch '".to_owned();
    summary.append(due.watch.name.as_str());
    summary.append("' triggered: value=");
    summary.append(rounded.as_str());
    let members = vec![
        member("watch_id", Json::str(due.id_text.as_str())),
        member("watch_name", Json::str(due.watch.name.as_str())),
        member("metric", due.type_json.clone()),
        member("value", value.clone()),
        member("condition", condition.clone()),
    ];
    assert(member_views(members@) =~= event_of(*due).1->Object_0);
    WatchEvent { summary, payload: Json::object(members) }
}

/// Checks the due watches against what was read for them.
///
/// A threshold watch whose reading meets its condition gives an event; a poll
/// watch gives an action. Every watch is noted as triggered or as checked.
pub fn check_watches(due: &Vec<DueWatch>) -> (r: WatchCheckResult)
    ensures
        event_views(r.triggered_events@) == events_of(due@),
        crate::types::action_views(r.poll_actions@) == polls_of(due@),
        r.marks@ == Seq::new(due@.len(), |i: int| mark_of(due@[i])),
{
    let mut events: Vec<WatchEvent> = Vec::new();
    let mut polls: Vec<PlannedAction> = Vec::new();
    let mut marks: Vec<WatchMark> = Vec::new();
    let mut i: usize = 0;
    assert(event_views(events@) =~= events_of(due@.subrange(0, 0)));
    assert(crate::types::action_views(polls@) =~= polls_of(due@.subrange(0, 0)));
    while i < due.len()
        invariant
            i <= due@.len(),
            event_views(events@) == events_of(due@.subrange(0, i as int)),
            crate::types::action_views(polls@) == polls_of(due@.subrange(0, i as int)),
            marks@ == Seq::new(i as nat, |k: int| mark_of(due@[k])),
        decreases due@.len() - i,
    {
        let item = &due[i];
        let ghost seen = due@.subrange(0, i + 1);
        let ghost events_before = events@;
        let ghost polls_before = polls@;
        assert(seen.drop_last() =~= due@.subrange(0, i as int));
        assert(seen.last() == *item);
        let mut mark = WatchMark::Checked(item.watch.id);
        match &item.watch.watch_type {
            WatchType::Threshold { metric: _, condition } => {
                match &item.reading {
                    Reading::Value { triggered, value, rounded } => {
                        if *triggered {
                            let e = make_event(item, condition, value, rounded);
                            events.push(e);
                            mark = WatchMark::Triggered(item.watch.id);
                            assert(event_views(events@) =~= event_views(events_before).push(
                                event_of(*item),
                            ));
                        }
                    },
                    Reading::Absent => {},
                }
            },
            WatchType::Poll { connector, params, extract: _, condition: _ } => {
                let mut rationale = "Poll watch '".to_owned();
                rationale.append(item.watch.name.as_str());
                rationale.append("' scheduled check");
                polls.push(
                    PlannedAction {
                        call_id: "".to_owned(),
                        tool_name: connector.clone(),
                        params: params.clone(),
                        rationale,
                        plan_task_id: None,
                        origin_exec_thread_id: None,
                        proposal_id: None,
                    },
                );
                assert(crate::types::action_views(polls@) =~= crate::types::action_views(
                    polls_before,
                ).push(poll_of(*item)));
            },
        }
        marks.push(mark);
        assert(marks@ =~= Seq::new((i + 1) as nat, |k: int| mark_of(due@[k])));
        i = i + 1;
    }
    assert(due@.subrange(0, due@.len() as int) =~= due@);
    WatchCheckResult { triggered_events: events, poll_actions: polls, marks }
}

// ---------------------------------------------------------------------------
// Admitting watches
// ---------------------------------------------------------------------------

/// One more watch may be made. A count that could not be read counts as zero.
pub open spec fn has_room(active_count: Option<u32>, max_watches: u32) -> bool {
    (match active_count {
        Some(n) => n,
        None => 0,
    }) < max_watches
}

/// The active watch that a proposal becomes.
pub open spec fn watch_of(
    id: WatchId,
    proposal: WatchProposal,
    tick_number: u64,
    now: Timestamp,
) -> WatchDefinition {
    WatchDefinition {
        id,
        name: proposal.name,
        description: proposal.description,
        watch_type: proposal.watch_type,
        schedule: proposal.schedule,
        status: WatchStatus::Active,
        created_at_tick: tick_number,
        last_checked_tick: None,
        trigger_count: 0,
        created_at: now,
    }
}

/// Tells whether one more watch may be made. A count that could not be read counts
/// as zero.
pub fn admits_watch(active_count: Option<u32>, max_watches: u32) -> (r: bool)
    ensures
        r == has_room(active_count, max_watches),
{
    let count: u32 = match active_count {
        Some(n) => n,
        None => 0,
    };
    count < max_watches
}

/// Makes an active watch of a proposal.
pub fn define_watch(
    id: WatchId,
    proposal: WatchProposal,
    tick_number: u64,
    now: Timestamp,
) -> (w: WatchDefinition)
    ensures
        w == watch_of(id, proposal, tick_number, now),
{
    WatchDefinition {
        id,
        name: proposal.name,
        description: proposal.description,
        watch_type: proposal.watch_type,
        schedule: proposal.schedule,
        status: WatchStatus::Active,
        created_at_tick: tick_number,
        last_checked_tick: None,
        trigger_count: 0,
        created_at: now,
    }
}

/// Proposals that are being admitted, one after the other.
#[derive(Debug)]
pub struct WatchRun {
    /// The proposals whose turn has not come.
    pub waiting: Vec<WatchProposal>,
    pub max_watches: u32,
    pub tick_number: u64,
}

/// What is asked for.
#[derive(Debug)]
pub enum WatchRequest {
    /// Count the active watches.
    Count,
    /// Save the watch.
    Save(WatchDefinition),
    Done,
}

/// The answer to a request.
#[derive(Debug)]
pub enum WatchAnswer {
    /// The number of active watches, if it could be read. A new watch gets this
    /// identifier and this time.
    Counted { active: Option<u32>, id: WatchId, now: Timestamp },
    /// The watch was saved, or could not be saved.
    Saved,
}

/// What comes in front of the next proposal: a count, unless none is left.
pub open spec fn goes_to_next(request: WatchRequest, left: nat) -> bool {
    if left == 0 {
        request is Done
    } else {
        request is Count
    }
}

/// The answer `answer` leaves the proposals `left` and leads to `request`.
///
/// A counted proposal is gone: it becomes a watch that is saved, or it is dropped if
/// there is no room.
pub open spec fn watch_step(
    waiting: Seq<WatchProposal>,
    max_watches: u32,
    tick_number: u64,
    answer: WatchAnswer,
    left: Seq<WatchProposal>,
    request: WatchRequest,
) -> bool {
    match answer {
        WatchAnswer::Counted { active, id, now } => {
            &&& left == waiting.drop_first()
            &&& if has_room(active, max_watches) {
                request == WatchRequest::Save(watch_of(id, waiting[0], tick_number, now))
            } else {
                goes_to_next(request, left.len())
            }
        },
        WatchAnswer::Saved => left == waiting && goes_to_next(request, left.len()),
    }
}

impl WatchRun {
    fn next_request(&self) -> (r: WatchRequest)
        ensures
            goes_to_next(r, self.waiting@.len()),
    {
        if self.waiting.len() == 0 {
            WatchRequest::Done
        } else {
            WatchRequest::Count
        }
    }

    /// Takes the answer to the latest request and returns the next request.
    pub fn step(&mut self, answer: WatchAnswer) -> (r: WatchRequest)
        requires
            answer is Counted ==> old(self).waiting@.len() > 0,
        ensures
            watch_step(
                old(self).waiting@,
                old(self).max_watches,
                old(self).tick_number,
                answer,
                final(self).waiting@,
                r,
            ),
            final(self).max_watches == old(self).max_watches,
            final(self).tick_number == old(self).tick_number,
    {
        match answer {
            WatchAnswer::Counted { active, id, now } => {
                let ghost before = self.waiting@;
                let proposal = self.waiting.remove(0);
                assert(self.waiting@ =~= before.drop_first());
                if admits_watch(active, self.max_watches) {
                    WatchRequest::Save(define_watch(id, proposal, self.tick_number, now))
                } else {
                    self.next_request()
                }
            },
            WatchAnswer::Saved => self.next_request(),
        }
    }
}

/// Begins to admit the watches that a decision proposes. Where the relationships could
/// not be checked there is no snapshot of them, and no watch is admitted.
pub fn start_watches(
    alignment: &AlignmentResult,
    proposals: Vec<WatchProposal>,
    max_watches: u32,
    tick_number: u64,
) -> (r: (WatchRun, WatchRequest))
    ensures
        r.0.waiting@ == (if alignment.relationship_snapshot is Some {
            proposals@
        } else {
            Seq::empty()
        }),
        r.0.max_watches == max_watches,
        r.0.tick_number == tick_number,
        goes_to_next(r.1, r.0.waiting@.len()),
        alignment.relationship_snapshot is None ==> r.1 is Done,
{
    let waiting = if alignment.relationship_snapshot.is_some() {
        proposals
    } else {
        Vec::new()
    };
    let run = WatchRun { waiting, max_watches, tick_number };
    let request = run.next_request();
    (run, request)
}

/// A course of the admission with a store that does not fail: the proposals, the number
/// of active watches and the saved watches in front of each turn and in the end, and the
/// request to which the count of each turn led. If that is to save a watch, it is saved,
/// and one more watch is active.
pub struct WatchCourse {
    pub waiting: Seq<Seq<WatchProposal>>,
    pub active: Seq<u32>,
    pub saved: Seq<Seq<WatchDefinition>>,
    pub requests: Seq<WatchRequest>,
}

/// The turn `k` of a course follows the steps.
pub open spec fn is_turn(
    c: WatchCourse,
    k: int,
    max_watches: u32,
    tick_number: u64,
    id: WatchId,
    now: Timestamp,
) -> bool {
    &&& watch_step(
        c.waiting[k],
        max_watches,
        tick_number,
        WatchAnswer::Counted { active: Some(c.active[k]), id, now },
        c.waiting[k + 1],
        c.requests[k],
    )
    &&& match c.requests[k] {
        WatchRequest::Save(w) => c.saved[k + 1] == c.saved[k].push(w) && c.active[k + 1]
            == c.active[k] + 1,
        _ => c.saved[k + 1] == c.saved[k] && c.active[k + 1] == c.active[k],
    }
}

/// The course has `n` turns. In turn `k` a watch would get the identifier `ids[k]` and the
/// time `times[k]`.
pub open spec fn is_watch_course(
    c: WatchCourse,
    n: nat,
    max_watches: u32,
    tick_number: u64,
    ids: Seq<WatchId>,
    times: Seq<Timestamp>,
) -> bool {
    &&& c.waiting.len() == n + 1
    &&& c.active.len() == n + 1
    &&& c.saved.len() == n + 1
    &&& c.requests.len() == n
    &&& c.saved[0].len() == 0
    &&& forall|k: int|
        0 <= k < n ==> is_turn(
            c,
            k,
            max_watches,
            tick_number,
            #[trigger] ids[k],
            times[k],
        )
}

/// How many of `n` proposals are admitted next to `active` watches.
pub open spec fn admitted_count(n: int, active: int, max_watches: int) -> int {
    if active + n <= max_watches {
        n
    } else {
        max_watches - active
    }
}

/// With a store that does not fail, the watches that were saved after `k` turns are those
/// of the first of `k` proposals, in order, as many as there was room for. They are active
/// and made in this tick. The others were dropped.
pub proof fn first_watches_are_saved(
    c: WatchCourse,
    proposals: Seq<WatchProposal>,
    max_watches: u32,
    tick_number: u64,
    ids: Seq<WatchId>,
    times: Seq<Timestamp>,
    k: int,
)
    requires
        is_watch_course(c, proposals.len(), max_watches, tick_number, ids, times),
        c.waiting[0] == proposals,
        c.active[0] <= max_watches,
        0 <= k <= proposals.len(),
    ensures
        c.waiting[k] == proposals.subrange(k, proposals.len() as int),
        c.saved[k] == Seq::new(
            admitted_count(k, c.active[0] as int, max_watches as int) as nat,
            |i: int| watch_of(ids[i], proposals[i], tick_number, times[i]),
        ),
        c.active[k] == c.active[0] + admitted_count(k, c.active[0] as int, max_watches as int),
    decreases k,
{
    if k == 0 {
        assert(proposals.subrange(0, proposals.len() as int) =~= proposals);
        assert(c.saved[0] =~= Seq::new(
            0,
            |i: int| watch_of(ids[i], proposals[i], tick_number, times[i]),
        ));
    } else {
        let p = k - 1;
        first_watches_are_saved(c, proposals, max_watches, tick_number, ids, times, p);
        assert(is_turn(c, p, max_watches, tick_number, ids[p], times[p]));
        assert(c.waiting[p].drop_first() =~= proposals.subrange(k, proposals.len() as int));
        assert(c.waiting[p][0] == proposals[p]);
        assert(c.saved[k] =~= Seq::new(
            admitted_count(k, c.active[0] as int, max_watches as int) as nat,
            |i: int| watch_of(ids[i], proposals[i], tick_number, times[i]),
        ));
    }
}

/// A due watch gives an event or an action, never both.
pub proof fn event_or_action(due: DueWatch)
    ensures
        !(events_of(seq![due]).len() > 0 && polls_of(seq![due]).len() > 0),
{
    assert(seq![due].drop_last() =~= Seq::<DueWatch>::empty());
    reveal_with_fuel(events_of, 2);
    reveal_with_fuel(polls_of, 2);
}

} // verus!

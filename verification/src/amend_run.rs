//! The effects of the Amend step, as a state machine.
//!
//! The memory is consolidated before old summaries are evicted from it. The snapshot,
//! the record of the tick and the event of its end must all be saved: if one of them
//! cannot be, the step fails, and the messages are not acknowledged. The other effects
//! may fail without harm. Stores are outside; each step takes the answer to the latest
//! request and returns the next request.

use vstd::prelude::*;

use crate::amend::{eviction_event, relationship_event};
use crate::text::dec;
use crate::types::{clone_artifact, ArtifactId, ExoError};

verus! {

/// What the step waits for.
#[derive(Debug, Clone, Copy, PartialEq, Eq, Structural)]
pub enum AmendPhase {
    Consolidating,
    Evicting,
    LoggingEviction,
    MarkingStale,
    StoringReply,
    AnnouncingReply,
    StoringRelationships,
    RecordingRelationships,
    StoringSnapshot,
    SavingSnapshot,
    StoringRecord,
    SavingRecord,
    LoggingCompletion,
    Acknowledging,
    WritingNotes,
    Done,
}

/// The place of a phase in the order of the effects.
pub open spec fn rank(p: AmendPhase) -> nat {
    match p {
        AmendPhase::Consolidating => 0,
        AmendPhase::Evicting => 1,
        AmendPhase::LoggingEviction => 2,
        AmendPhase::MarkingStale => 3,
        AmendPhase::StoringReply => 4,
        AmendPhase::AnnouncingReply => 5,
        AmendPhase::StoringRelationships => 6,
        AmendPhase::RecordingRelationships => 7,
        AmendPhase::StoringSnapshot => 8,
        AmendPhase::SavingSnapshot => 9,
        AmendPhase::StoringRecord => 10,
        AmendPhase::SavingRecord => 11,
        AmendPhase::LoggingCompletion => 12,
        AmendPhase::Acknowledging => 13,
        AmendPhase::WritingNotes => 14,
        AmendPhase::Done => 15,
    }
}

/// The Amend step in progress.
#[derive(Debug, PartialEq, Eq)]
pub struct AmendRun {
    pub phase: AmendPhase,
    /// How many episodic summaries the memory holds, if it is bounded.
    pub capacity: Option<u64>,
    /// The reply of the Decide step.
    pub reply: Option<String>,
    /// There is an active conversation, to which the reply goes.
    pub has_conversation: bool,
    /// The Align step compiled the relationships.
    pub has_relationships: bool,
    /// How many changes of the relationships are to be recorded.
    pub updates: usize,
    /// How many messages came in.
    pub messages: usize,
    /// Where the relationships were stored, if they were.
    pub relationships_ref: Option<ArtifactId>,
}

/// The answer to a request.
#[derive(Debug, PartialEq, Eq)]
pub enum AmendEvent {
    /// The effect was tried. Whether it worked does not matter.
    Tried,
    /// How many summaries were evicted, if that worked.
    Evicted(Option<u64>),
    /// Where something was stored, if that worked.
    Stored(Option<ArtifactId>),
    /// Where the snapshot was stored, or why it was not.
    SnapshotStored(Result<ArtifactId, ExoError>),
    /// Something was saved, or why it was not.
    Saved(Result<(), ExoError>),
}

/// What is to be done.
#[derive(Debug, PartialEq, Eq)]
pub enum AmendRequest {
    /// Write what the memory consolidation thread concluded.
    Consolidate,
    Evict { capacity: u64 },
    LogEviction { summary: String },
    MarkStale,
    StoreReply { text: String },
    /// Log and announce the reply, and add it to the latest conversation.
    AnnounceReply { reply: ArtifactId, to_conversation: bool },
    StoreRelationships,
    /// Append the changes to the ledger, then log and announce them.
    RecordRelationships { summary: String },
    /// Build the new snapshot and store it.
    StoreSnapshot { relationships: Option<ArtifactId> },
    SaveSnapshot,
    /// Build the record of the tick and store it.
    StoreRecord,
    SaveRecord,
    LogCompletion,
    Acknowledge,
    WriteNotes,
    /// The step is over.
    Finish,
    /// The step failed.
    Fail(ExoError),
}

// ---------------------------------------------------------------------------
// What a step does
// ---------------------------------------------------------------------------

/// The event is the answer that the phase waits for.
pub open spec fn answers(phase: AmendPhase, event: AmendEvent) -> bool {
    match event {
        AmendEvent::Tried => phase == AmendPhase::Consolidating || phase
            == AmendPhase::LoggingEviction || phase == AmendPhase::MarkingStale || phase
            == AmendPhase::AnnouncingReply || phase == AmendPhase::RecordingRelationships || phase
            == AmendPhase::WritingNotes,
        AmendEvent::Evicted(_) => phase == AmendPhase::Evicting,
        AmendEvent::Stored(_) => phase == AmendPhase::StoringReply || phase
            == AmendPhase::StoringRelationships,
        AmendEvent::SnapshotStored(_) => phase == AmendPhase::StoringSnapshot,
        AmendEvent::Saved(_) => is_durable(phase) && phase != AmendPhase::StoringSnapshot,
    }
}

/// What is done in the phase must work.
pub open spec fn is_durable(phase: AmendPhase) -> bool {
    phase == AmendPhase::StoringSnapshot || phase == AmendPhase::SavingSnapshot || phase
        == AmendPhase::StoringRecord || phase == AmendPhase::SavingRecord || phase
        == AmendPhase::LoggingCompletion || phase == AmendPhase::Acknowledging
}

/// The phase after the reply was dealt with.
pub open spec fn after_reply(run: AmendRun) -> AmendPhase {
    if run.has_relationships {
        AmendPhase::StoringRelationships
    } else {
        after_relationships(run)
    }
}

/// The phase after the relationships were stored.
pub open spec fn after_relationships(run: AmendRun) -> AmendPhase {
    if run.updates > 0 {
        AmendPhase::RecordingRelationships
    } else {
        AmendPhase::StoringSnapshot
    }
}

/// The phase after what came before it worked, or did not have to.
pub open spec fn phase_after(run: AmendRun, event: AmendEvent) -> AmendPhase {
    match run.phase {
        AmendPhase::Consolidating => if run.capacity is Some {
            AmendPhase::Evicting
        } else {
            AmendPhase::MarkingStale
        },
        AmendPhase::Evicting => match event {
            AmendEvent::Evicted(Some(n)) => if n > 0 {
                AmendPhase::LoggingEviction
            } else {
                AmendPhase::MarkingStale
            },
            _ => AmendPhase::MarkingStale,
        },
        AmendPhase::LoggingEviction => AmendPhase::MarkingStale,
        AmendPhase::MarkingStale => if run.reply is Some {
            AmendPhase::StoringReply
        } else {
            after_reply(run)
        },
        AmendPhase::StoringReply => match event {
            AmendEvent::Stored(Some(_)) => AmendPhase::AnnouncingReply,
            _ => after_reply(run),
        },
        AmendPhase::AnnouncingReply => after_reply(run),
        AmendPhase::StoringRelationships => after_relationships(run),
        AmendPhase::RecordingRelationships => AmendPhase::StoringSnapshot,
        AmendPhase::StoringSnapshot => AmendPhase::SavingSnapshot,
        AmendPhase::SavingSnapshot => AmendPhase::StoringRecord,
        AmendPhase::StoringRecord => AmendPhase::SavingRecord,
        AmendPhase::SavingRecord => AmendPhase::LoggingCompletion,
        AmendPhase::LoggingCompletion => if run.messages > 0 {
            AmendPhase::Acknowledging
        } else {
            AmendPhase::WritingNotes
        },
        AmendPhase::Acknowledging => AmendPhase::WritingNotes,
        AmendPhase::WritingNotes => AmendPhase::Done,
        AmendPhase::Done => AmendPhase::Done,
    }
}

/// Why the effect did not work, if it had to.
pub open spec fn failure_of(event: AmendEvent) -> Option<ExoError> {
    match event {
        AmendEvent::SnapshotStored(Err(e)) => Some(e),
        AmendEvent::Saved(Err(e)) => Some(e),
        _ => None,
    }
}

/// The request of a phase, given the answer that led to it.
pub open spec fn asks(request: AmendRequest, run: AmendRun, event: AmendEvent) -> bool {
    match run.phase {
        AmendPhase::Consolidating => request is Consolidate,
        AmendPhase::Evicting => run.capacity is Some && request == (AmendRequest::Evict {
            capacity: run.capacity->Some_0,
        }),
        AmendPhase::LoggingEviction => match (event, request, run.capacity) {
            (
                AmendEvent::Evicted(Some(n)),
                AmendRequest::LogEviction { summary },
                Some(c),
            ) => summary@ == "Evicted "@ + dec(n as nat) + " episodic entries (capacity: "@ + dec(
                c as nat,
            ) + ")"@,
            _ => false,
        },
        AmendPhase::MarkingStale => request is MarkStale,
        AmendPhase::StoringReply => run.reply is Some && request == (AmendRequest::StoreReply {
            text: run.reply->Some_0,
        }),
        AmendPhase::AnnouncingReply => match (event, request) {
            (
                AmendEvent::Stored(Some(id)),
                AmendRequest::AnnounceReply { reply, to_conversation },
            ) => reply == id && to_conversation == run.has_conversation,
            _ => false,
        },
        AmendPhase::StoringRelationships => request is StoreRelationships,
        AmendPhase::RecordingRelationships => match request {
            AmendRequest::RecordRelationships { summary } => summary@ == dec(run.updates as nat)
                + " relationship updates from Align step"@,
            _ => false,
        },
        AmendPhase::StoringSnapshot => request == (AmendRequest::StoreSnapshot {
            relationships: run.relationships_ref,
        }),
        AmendPhase::SavingSnapshot => request is SaveSnapshot,
        AmendPhase::StoringRecord => request is StoreRecord,
        AmendPhase::SavingRecord => request is SaveRecord,
        AmendPhase::LoggingCompletion => request is LogCompletion,
        AmendPhase::Acknowledging => request is Acknowledge,
        AmendPhase::WritingNotes => request is WriteNotes,
        AmendPhase::Done => request is Finish,
    }
}

/// Where the relationships are stored, once that was tried.
pub open spec fn ref_after(run: AmendRun, event: AmendEvent) -> Option<ArtifactId> {
    match (run.phase, event) {
        (AmendPhase::StoringRelationships, AmendEvent::Stored(id)) => id,
        _ => run.relationships_ref,
    }
}

/// What a step does.
pub open spec fn amend_step(
    run: AmendRun,
    event: AmendEvent,
    next: AmendRun,
    request: AmendRequest,
) -> bool {
    match failure_of(event) {
        Some(e) => next == (AmendRun { phase: AmendPhase::Done, ..run }) && request
            == AmendRequest::Fail(e),
        None => {
            &&& next == (AmendRun {
                phase: phase_after(run, event),
                relationships_ref: ref_after(run, event),
                ..run
            })
            &&& asks(request, next, event)
        },
    }
}

// ---------------------------------------------------------------------------
// The machine
// ---------------------------------------------------------------------------

/// Begins the effects of the Amend step.
pub fn start_amend(
    capacity: Option<u64>,
    reply: Option<String>,
    has_conversation: bool,
    has_relationships: bool,
    updates: usize,
    messages: usize,
) -> (r: (AmendRun, AmendRequest))
    ensures
        r.0 == (AmendRun {
            phase: AmendPhase::Consolidating,
            capacity,
            reply,
            has_conversation,
            has_relationships,
            updates,
            messages,
            relationships_ref: None,
        }),
        r.1 is Consolidate,
{
    (
        AmendRun {
            phase: AmendPhase::Consolidating,
            capacity,
            reply,
            has_conversation,
            has_relationships,
            updates,
            messages,
            relationships_ref: None,
        },
        AmendRequest::Consolidate,
    )
}

impl AmendRun {
    fn phase_behind_reply(&self) -> (p: AmendPhase)
        ensures
            p == after_reply(*self),
    {
        if self.has_relationships {
            AmendPhase::StoringRelationships
        } else {
            self.phase_behind_relationships()
        }
    }

    fn phase_behind_relationships(&self) -> (p: AmendPhase)
        ensures
            p == after_relationships(*self),
    {
        if self.updates > 0 {
            AmendPhase::RecordingRelationships
        } else {
            AmendPhase::StoringSnapshot
        }
    }

    /// Goes on to a phase whose request needs nothing but the run.
    fn enter(self, phase: AmendPhase) -> (r: (AmendRun, AmendRequest))
        requires
            phase != AmendPhase::LoggingEviction,
            phase != AmendPhase::AnnouncingReply,
            phase == AmendPhase::Evicting ==> self.capacity is Some,
            phase == AmendPhase::StoringReply ==> self.reply is Some,
            phase == AmendPhase::RecordingRelationships ==> self.updates > 0,
        ensures
            r.0 == (AmendRun { phase, ..self }),
            asks(r.1, r.0, AmendEvent::Tried),
    {
        let request = match phase {
            AmendPhase::Consolidating => AmendRequest::Consolidate,
            AmendPhase::Evicting => match self.capacity {
                Some(capacity) => AmendRequest::Evict { capacity },
                None => AmendRequest::MarkStale,
            },
            AmendPhase::StoringReply => match &self.reply {
                Some(text) => AmendRequest::StoreReply { text: text.clone() },
                None => AmendRequest::MarkStale,
            },
            AmendPhase::StoringRelationships => AmendRequest::StoreRelationships,
            AmendPhase::RecordingRelationships => match relationship_event(self.updates) {
                Some(summary) => AmendRequest::RecordRelationships { summary },
                None => AmendRequest::MarkStale,
            },
            AmendPhase::StoringSnapshot => AmendRequest::StoreSnapshot {
                relationships: clone_artifact(&self.relationships_ref),
            },
            AmendPhase::SavingSnapshot => AmendRequest::SaveSnapshot,
            AmendPhase::StoringRecord => AmendRequest::StoreRecord,
            AmendPhase::SavingRecord => AmendRequest::SaveRecord,
            AmendPhase::LoggingCompletion => AmendRequest::LogCompletion,
            AmendPhase::Acknowledging => AmendRequest::Acknowledge,
            AmendPhase::WritingNotes => AmendRequest::WriteNotes,
            AmendPhase::Done => AmendRequest::Finish,
            _ => AmendRequest::MarkStale,
        };
        (AmendRun { phase, ..self }, request)
    }

    fn fail(self, e: ExoError) -> (r: (AmendRun, AmendRequest))
        ensures
            r.0 == (AmendRun { phase: AmendPhase::Done, ..self }),
            r.1 == AmendRequest::Fail(e),
    {
        (AmendRun { phase: AmendPhase::Done, ..self }, AmendRequest::Fail(e))
    }

    fn on_tried(self) -> (r: (AmendRun, AmendRequest))
        requires
            answers(self.phase, AmendEvent::Tried),
        ensures
            amend_step(self, AmendEvent::Tried, r.0, r.1),
    {
        let phase = match self.phase {
            AmendPhase::Consolidating => {
                if self.capacity.is_some() {
                    AmendPhase::Evicting
                } else {
                    AmendPhase::MarkingStale
                }
            },
            AmendPhase::LoggingEviction => AmendPhase::MarkingStale,
            AmendPhase::MarkingStale => {
                if self.reply.is_some() {
                    AmendPhase::StoringReply
                } else {
                    self.phase_behind_reply()
                }
            },
            AmendPhase::AnnouncingReply => self.phase_behind_reply(),
            AmendPhase::RecordingRelationships => AmendPhase::StoringSnapshot,
            _ => AmendPhase::Done,
        };
        self.enter(phase)
    }

    fn on_evicted(self, evicted: Option<u64>) -> (r: (AmendRun, AmendRequest))
        requires
            self.phase == AmendPhase::Evicting,
            self.capacity is Some,
        ensures
            amend_step(self, AmendEvent::Evicted(evicted), r.0, r.1),
    {
        match eviction_event(self.capacity, evicted) {
            Some(summary) => (
                AmendRun { phase: AmendPhase::LoggingEviction, ..self },
                AmendRequest::LogEviction { summary },
            ),
            None => self.enter(AmendPhase::MarkingStale),
        }
    }

    fn on_stored(self, id: Option<ArtifactId>) -> (r: (AmendRun, AmendRequest))
        requires
            answers(self.phase, AmendEvent::Stored(id)),
        ensures
            amend_step(self, AmendEvent::Stored(id), r.0, r.1),
    {
        match self.phase {
            AmendPhase::StoringReply => match id {
                Some(reply) => {
                    let to_conversation = self.has_conversation;
                    (
                        AmendRun { phase: AmendPhase::AnnouncingReply, ..self },
                        AmendRequest::AnnounceReply { reply, to_conversation },
                    )
                },
                None => {
                    let phase = self.phase_behind_reply();
                    self.enter(phase)
                },
            },
            _ => {
                let phase = self.phase_behind_relationships();
                let run = AmendRun { relationships_ref: id, ..self };
                run.enter(phase)
            },
        }
    }

    fn on_snapshot(self, stored: Result<ArtifactId, ExoError>) -> (r: (AmendRun, AmendRequest))
        requires
            self.phase == AmendPhase::StoringSnapshot,
        ensures
            amend_step(self, AmendEvent::SnapshotStored(stored), r.0, r.1),
    {
        match stored {
            Ok(_) => self.enter(AmendPhase::SavingSnapshot),
            Err(e) => self.fail(e),
        }
    }

    fn on_saved(self, saved: Result<(), ExoError>) -> (r: (AmendRun, AmendRequest))
        requires
            answers(self.phase, AmendEvent::Saved(saved)),
        ensures
            amend_step(self, AmendEvent::Saved(saved), r.0, r.1),
    {
        match saved {
            Err(e) => {
                return self.fail(e);
            },
            Ok(_) => {},
        }
        let phase = match self.phase {
            AmendPhase::SavingSnapshot => AmendPhase::StoringRecord,
            AmendPhase::StoringRecord => AmendPhase::SavingRecord,
            AmendPhase::SavingRecord => AmendPhase::LoggingCompletion,
            AmendPhase::LoggingCompletion => {
                if self.messages > 0 {
                    AmendPhase::Acknowledging
                } else {
                    AmendPhase::WritingNotes
                }
            },
            _ => AmendPhase::WritingNotes,
        };
        self.enter(phase)
    }

    /// A run that evicts knows its capacity.
    pub open spec fn wf(self) -> bool {
        self.phase == AmendPhase::Evicting ==> self.capacity is Some
    }

    /// Takes the answer to the latest request.
    pub fn step(self, event: AmendEvent) -> (r: (AmendRun, AmendRequest))
        requires
            self.wf(),
            answers(self.phase, event),
        ensures
            r.0.wf(),
            amend_step(self, event, r.0, r.1),
    {
        match event {
            AmendEvent::Tried => self.on_tried(),
            AmendEvent::Evicted(n) => self.on_evicted(n),
            AmendEvent::Stored(id) => self.on_stored(id),
            AmendEvent::SnapshotStored(r) => self.on_snapshot(r),
            AmendEvent::Saved(r) => self.on_saved(r),
        }
    }
}

// ---------------------------------------------------------------------------
// Laws
// ---------------------------------------------------------------------------

/// Each step leads to a later phase, so that the Amend step comes to an end. In
/// particular the memory is consolidated before anything is evicted from it.
pub proof fn effects_advance(run: AmendRun, event: AmendEvent, next: AmendRun, request: AmendRequest)
    requires
        answers(run.phase, event),
        amend_step(run, event, next, request),
    ensures
        rank(run.phase) < rank(next.phase),
{
}

/// What must work is never passed over: the step goes beyond such a phase only by
/// doing it with success. (Without messages there is nothing to acknowledge.)
pub proof fn what_must_work_is_done(
    run: AmendRun,
    event: AmendEvent,
    next: AmendRun,
    request: AmendRequest,
    d: AmendPhase,
)
    requires
        answers(run.phase, event),
        amend_step(run, event, next, request),
        is_durable(d),
        d == AmendPhase::Acknowledging ==> run.messages > 0,
        rank(run.phase) <= rank(d) < rank(next.phase),
        !(request is Fail),
    ensures
        run.phase == d,
        failure_of(event) is None,
{
}

/// A failure of what must work ends the step with the error, and nothing else is done.
pub proof fn failures_end_the_step(
    run: AmendRun,
    event: AmendEvent,
    next: AmendRun,
    request: AmendRequest,
    e: ExoError,
)
    requires
        answers(run.phase, event),
        amend_step(run, event, next, request),
        failure_of(event) == Some(e),
    ensures
        request == AmendRequest::Fail(e),
        next.phase == AmendPhase::Done,
{
}

/// Messages are acknowledged only when the end of the tick has been logged, and only
/// if there are any.
pub proof fn messages_are_acknowledged_last(
    run: AmendRun,
    event: AmendEvent,
    next: AmendRun,
    request: AmendRequest,
)
    requires
        answers(run.phase, event),
        amend_step(run, event, next, request),
        request is Acknowledge,
    ensures
        run.phase == AmendPhase::LoggingCompletion,
        event is Saved,
        failure_of(event) is None,
        run.messages > 0,
{
}

} // verus!

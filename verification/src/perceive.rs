//! The Perceive step: messages are grouped into conversations, and the results of
//! the previous tick are gathered.

use vstd::prelude::*;

use crate::types::{ArtifactId, TickId, Timestamp};

verus! {

/// Identifies a person, an agent or a vessel.
#[derive(Debug, Clone, Copy, PartialEq, Eq, Structural)]
pub struct PrincipalId {
    pub raw: u128,
}

/// Identifies an envelope.
#[derive(Debug, Clone, Copy, PartialEq, Eq, Structural)]
pub struct EnvelopeId {
    pub raw: u128,
}

/// Identifies a conversation.
#[derive(Debug, Clone, Copy, PartialEq, Eq, Structural)]
pub struct ConversationId {
    pub raw: u128,
}

/// What an envelope carries.
#[derive(Debug, Clone, Copy, PartialEq, Eq, Structural)]
pub enum EnvelopeKind {
    HumanMessage,
    AgentMessage,
    SystemEvent,
    RelationalSignal,
}

/// A message in the inbox.
#[derive(Debug, PartialEq, Eq)]
pub struct MessageEnvelope {
    pub id: EnvelopeId,
    pub source: PrincipalId,
    pub target: Option<PrincipalId>,
    pub kind: EnvelopeKind,
    pub payload_ref: ArtifactId,
    pub timestamp: Timestamp,
    pub in_reply_to: Option<EnvelopeId>,
}

/// The kinds of events in the ledger.
#[derive(Debug, Clone, Copy, PartialEq, Eq, Structural)]
pub enum EventType {
    TickStarted,
    TickCompleted,
    MessageReceived,
    ActionExecuted,
    ThreadRan,
    WatchTriggered,
    CapabilityRequest,
    CharterProposal,
    EpisodicEvicted,
    VesselResponseSent,
    RelationshipUpdated,
    BudgetConsumed,
    PlanModeTransition,
    QuestionAsked,
    InnerLoopStarted,
    InnerLoopStep,
    InnerLoopCompleted,
    Error,
}

/// An event in the ledger.
#[derive(Debug, PartialEq, Eq)]
pub struct EventEntry {
    pub id: u128,
    pub tick_id: Option<TickId>,
    pub event_type: EventType,
    pub payload_ref: Option<ArtifactId>,
    pub summary: String,
    pub timestamp: Timestamp,
}

/// The state of a conversation.
#[derive(Debug, Clone, Copy, PartialEq, Eq, Structural)]
pub enum ConversationState {
    Active,
    Stale,
}

/// A message of a conversation.
#[derive(Debug, PartialEq, Eq)]
pub struct ConversationMessage {
    pub source: PrincipalId,
    pub envelope_id: EnvelopeId,
    pub payload_ref: ArtifactId,
    pub timestamp: Timestamp,
}

/// A conversation.
#[derive(Debug, PartialEq, Eq)]
pub struct Conversation {
    pub id: ConversationId,
    pub participants: Vec<PrincipalId>,
    pub message_refs: Vec<ConversationMessage>,
    pub state: ConversationState,
    pub created_at: Timestamp,
    pub updated_at: Timestamp,
}

/// The time within which a message goes on with a conversation: ten minutes, in
/// nanoseconds.
pub const GROUPING_WINDOW_NANOS: i128 = 600_000_000_000;

/// The time after which a conversation is stale: thirty minutes, in nanoseconds.
pub const STALE_THRESHOLD_NANOS: i128 = 1_800_000_000_000;

// ---------------------------------------------------------------------------
// Conversations
// ---------------------------------------------------------------------------

/// The message that an envelope adds to a conversation.
pub open spec fn message_of(e: MessageEnvelope) -> ConversationMessage {
    ConversationMessage {
        source: e.source,
        envelope_id: e.id,
        payload_ref: e.payload_ref,
        timestamp: e.timestamp,
    }
}

/// The participants with one more, if it is not among them yet.
pub open spec fn joined_by(participants: Seq<PrincipalId>, p: PrincipalId) -> Seq<PrincipalId> {
    if participants.contains(p) {
        participants
    } else {
        participants.push(p)
    }
}

/// `after` is the conversation `before` with one more message. A stale conversation
/// is active again.
pub open spec fn continued(
    after: Conversation,
    before: Conversation,
    m: ConversationMessage,
) -> bool {
    &&& after.id == before.id
    &&& after.participants@ == joined_by(before.participants@, m.source)
    &&& after.message_refs@ == before.message_refs@.push(m)
    &&& after.state == ConversationState::Active
    &&& after.created_at == before.created_at
    &&& after.updated_at == m.timestamp
}

/// `c` is a new conversation that begins with a message.
pub open spec fn begun(c: Conversation, id: ConversationId, m: ConversationMessage) -> bool {
    &&& c.id == id
    &&& c.participants@ == seq![m.source]
    &&& c.message_refs@ == seq![m]
    &&& c.state == ConversationState::Active
    &&& c.created_at == m.timestamp
    &&& c.updated_at == m.timestamp
}

fn takes_part(participants: &Vec<PrincipalId>, p: PrincipalId) -> (r: bool)
    ensures
        r == participants@.contains(p),
{
    let mut i: usize = 0;
    while i < participants.len()
        invariant
            i <= participants@.len(),
            forall|k: int| 0 <= k < i ==> participants@[k] != p,
        decreases participants@.len() - i,
    {
        if participants[i] == p {
            assert(participants@[i as int] == p);
            return true;
        }
        i = i + 1;
    }
    false
}

impl Conversation {
    /// Adds a message.
    pub fn add_message(
        &mut self,
        source: PrincipalId,
        envelope_id: EnvelopeId,
        payload_ref: ArtifactId,
        timestamp: Timestamp,
    )
        ensures
            continued(
                *final(self),
                *old(self),
                ConversationMessage { source, envelope_id, payload_ref, timestamp },
            ),
    {
        if !takes_part(&self.participants, source) {
            self.participants.push(source);
        }
        self.message_refs.push(
            ConversationMessage { source, envelope_id, payload_ref, timestamp },
        );
        self.state = ConversationState::Active;
        self.updated_at = timestamp;
    }

    /// A conversation that begins with a message.
    pub fn from_first_message(
        id: ConversationId,
        source: PrincipalId,
        envelope_id: EnvelopeId,
        payload_ref: ArtifactId,
        timestamp: Timestamp,
    ) -> (c: Conversation)
        ensures
            begun(
                c,
                id,
                ConversationMessage { source, envelope_id, payload_ref, timestamp },
            ),
    {
        let mut participants: Vec<PrincipalId> = Vec::new();
        participants.push(source);
        let mut message_refs: Vec<ConversationMessage> = Vec::new();
        message_refs.push(ConversationMessage { source, envelope_id, payload_ref, timestamp });
        assert(participants@ =~= seq![source]);
        assert(message_refs@ =~= seq![
            ConversationMessage { source, envelope_id, payload_ref, timestamp },
        ]);
        Conversation {
            id,
            participants,
            message_refs,
            state: ConversationState::Active,
            created_at: timestamp,
            updated_at: timestamp,
        }
    }

    /// The number of messages.
    pub fn message_count(&self) -> (r: usize)
        ensures
            r == self.message_refs@.len(),
    {
        self.message_refs.len()
    }
}

// ---------------------------------------------------------------------------
// Grouping
// ---------------------------------------------------------------------------

/// The envelope belongs to a conversation.
pub open spec fn is_conversational(kind: EnvelopeKind) -> bool {
    kind == EnvelopeKind::HumanMessage || kind == EnvelopeKind::AgentMessage
}

/// The message goes on with the conversation: its sender takes part in it, and it
/// came within the window.
pub open spec fn goes_on(c: Conversation, e: MessageEnvelope) -> bool {
    c.participants@.contains(e.source) && e.timestamp.nanos - c.updated_at.nanos
        < GROUPING_WINDOW_NANOS
}

/// The first conversation that the message goes on with.
pub open spec fn first_match(active: Seq<Conversation>, e: MessageEnvelope, from: int) -> Option<int>
    decreases active.len() - from,
{
    if from < 0 || from >= active.len() {
        None
    } else if goes_on(active[from], e) {
        Some(from)
    } else {
        first_match(active, e, from + 1)
    }
}

/// The times of a message and a conversation lie so close together that their
/// difference can be computed.
pub open spec fn comparable(e: MessageEnvelope, c: Conversation) -> bool {
    i128::MIN <= e.timestamp.nanos - c.updated_at.nanos <= i128::MAX
}

/// What becomes of an envelope: the conversation that is to be saved, if any.
///
/// A message that replies to a known message joins its conversation. Any other
/// joins the first active conversation that it goes on with, or begins a new one.
/// Envelopes that are no messages are left alone.
pub open spec fn placed(
    r: Option<Conversation>,
    e: MessageEnvelope,
    replied: Option<Conversation>,
    active: Seq<Conversation>,
    new_id: ConversationId,
) -> bool {
    if !is_conversational(e.kind) {
        r is None
    } else {
        r matches Some(c) && if e.in_reply_to is Some && replied is Some {
            continued(c, replied->Some_0, message_of(e))
        } else {
            match first_match(active, e, 0) {
                Some(i) => continued(c, active[i], message_of(e)),
                None => begun(c, new_id, message_of(e)),
            }
        }
    }
}

/// Places an envelope. `replied` is the conversation of the message that it replies
/// to, if that was found; `active` are the active conversations.
pub fn place_envelope(
    envelope: &MessageEnvelope,
    replied: Option<Conversation>,
    active: Vec<Conversation>,
    new_id: ConversationId,
) -> (r: Option<Conversation>)
    requires
        forall|i: int| 0 <= i < active@.len() ==> comparable(*envelope, #[trigger] active@[i]),
    ensures
        placed(r, *envelope, replied, active@, new_id),
{
    match envelope.kind {
        EnvelopeKind::HumanMessage | EnvelopeKind::AgentMessage => {},
        EnvelopeKind::SystemEvent | EnvelopeKind::RelationalSignal => {
            return None;
        },
    }
    if envelope.in_reply_to.is_some() {
        match replied {
            Some(c) => {
                let mut c = c;
                c.add_message(
                    envelope.source,
                    envelope.id,
                    envelope.payload_ref.clone(),
                    envelope.timestamp,
                );
                return Some(c);
            },
            None => {},
        }
    }
    let mut list = active;
    let mut i: usize = 0;
    while i < list.len()
        invariant
            list == active,
            i <= list@.len(),
            first_match(active@, *envelope, 0) == first_match(active@, *envelope, i as int),
            forall|k: int| 0 <= k < active@.len() ==> comparable(*envelope, #[trigger] active@[k]),
            is_conversational(envelope.kind),
            envelope.in_reply_to is None || replied is None,
        decreases list@.len() - i,
    {
        assert(comparable(*envelope, active@[i as int]));
        if takes_part(&list[i].participants, envelope.source) && envelope.timestamp.nanos
            - list[i].updated_at.nanos < GROUPING_WINDOW_NANOS {
            let mut c = list.remove(i);
            c.add_message(
                envelope.source,
                envelope.id,
                envelope.payload_ref.clone(),
                envelope.timestamp,
            );
            return Some(c);
        }
        i = i + 1;
    }
    Some(
        Conversation::from_first_message(
            new_id,
            envelope.source,
            envelope.id,
            envelope.payload_ref.clone(),
            envelope.timestamp,
        ),
    )
}

/// Every message ends up in exactly one conversation, as its newest message.
pub proof fn message_is_placed(
    r: Option<Conversation>,
    e: MessageEnvelope,
    replied: Option<Conversation>,
    active: Seq<Conversation>,
    new_id: ConversationId,
)
    requires
        placed(r, e, replied, active, new_id),
    ensures
        is_conversational(e.kind) <==> r is Some,
        r matches Some(c) ==> c.message_refs@.len() > 0 && c.message_refs@.last() == message_of(e)
            && c.state == ConversationState::Active && c.updated_at == e.timestamp
            && c.participants@.contains(e.source),
{
    if r is Some {
        let c = r->Some_0;
        let m = message_of(e);
        if e.in_reply_to is Some && replied is Some {
            joined_contains(replied->Some_0.participants@, e.source);
        } else {
            match first_match(active, e, 0) {
                Some(i) => {
                    joined_contains(active[i].participants@, e.source);
                },
                None => {
                    assert(c.participants@[0] == e.source);
                },
            }
        }
    }
}

proof fn joined_contains(participants: Seq<PrincipalId>, p: PrincipalId)
    ensures
        joined_by(participants, p).contains(p),
{
    if !participants.contains(p) {
        assert(participants.push(p)[participants.len() as int] == p);
    }
}

// ---------------------------------------------------------------------------
// Results of the previous tick
// ---------------------------------------------------------------------------

/// The events that tell of executed actions, in order.
pub open spec fn action_events(events: Seq<EventEntry>) -> Seq<EventEntry>
    decreases events.len(),
{
    if events.len() == 0 {
        events
    } else if events.last().event_type == EventType::ActionExecuted {
        action_events(events.drop_last()).push(events.last())
    } else {
        action_events(events.drop_last())
    }
}

/// The results that the previous tick left: its events on executed actions. Without
/// a previous tick there are none.
pub fn pending_action_results(previous: Option<Vec<EventEntry>>) -> (r: Vec<EventEntry>)
    ensures
        r@ == (match previous {
            Some(events) => action_events(events@),
            None => Seq::empty(),
        }),
{
    let mut out: Vec<EventEntry> = Vec::new();
    match previous {
        None => {
            assert(out@ =~= Seq::<EventEntry>::empty());
        },
        Some(events) => {
            let ghost all = events@;
            let ghost mut done: int = 0;
            let mut rest = events;
            assert(all.subrange(0, all.len() as int) =~= all);
            assert(out@ =~= action_events(all.subrange(0, 0)));
            while rest.len() > 0
                invariant
                    0 <= done <= all.len(),
                    rest@ == all.subrange(done, all.len() as int),
                    out@ == action_events(all.subrange(0, done)),
                decreases rest@.len(),
            {
                let e = rest.remove(0);
                proof {
                    assert(rest@ =~= all.subrange(done + 1, all.len() as int));
                    assert(all.subrange(0, done + 1).drop_last() =~= all.subrange(0, done));
                    assert(all.subrange(0, done + 1).last() == e);
                    done = done + 1;
                }
                if e.event_type == EventType::ActionExecuted {
                    out.push(e);
                }
            }
            assert(all.subrange(0, done) =~= all);
        },
    }
    out
}

// ---------------------------------------------------------------------------
// Stale conversations
// ---------------------------------------------------------------------------

/// Nothing happened in the conversation for longer than the threshold.
pub open spec fn is_stale(c: Conversation, now: Timestamp) -> bool {
    now.nanos - c.updated_at.nanos > STALE_THRESHOLD_NANOS
}

/// The stale conversations, in order.
pub open spec fn stale_of(active: Seq<Conversation>, now: Timestamp) -> Seq<Conversation>
    decreases active.len(),
{
    if active.len() == 0 {
        active
    } else if is_stale(active.last(), now) {
        stale_of(active.drop_last(), now).push(
            Conversation { state: ConversationState::Stale, updated_at: now, ..active.last() },
        )
    } else {
        stale_of(active.drop_last(), now)
    }
}

/// Marks the conversations stale in which nothing happened for more than thirty
/// minutes, and returns them.
pub fn mark_stale_conversations(active: Vec<Conversation>, now: Timestamp) -> (r: Vec<Conversation>)
    requires
        forall|i: int|
            0 <= i < active@.len() ==> i128::MIN <= now.nanos - (
            #[trigger] active@[i]).updated_at.nanos <= i128::MAX,
    ensures
        r@ == stale_of(active@, now),
{
    let mut out: Vec<Conversation> = Vec::new();
    let ghost all = active@;
    let ghost mut done: int = 0;
    let mut rest = active;
    assert(all.subrange(0, all.len() as int) =~= all);
    assert(out@ =~= stale_of(all.subrange(0, 0), now));
    while rest.len() > 0
        invariant
            0 <= done <= all.len(),
            rest@ == all.subrange(done, all.len() as int),
            out@ == stale_of(all.subrange(0, done), now),
            forall|i: int|
                0 <= i < all.len() ==> i128::MIN <= now.nanos - (
                #[trigger] all[i]).updated_at.nanos <= i128::MAX,
        decreases rest@.len(),
    {
        let c = rest.remove(0);
        proof {
            assert(c == all[done]);
            assert(rest@ =~= all.subrange(done + 1, all.len() as int));
            assert(all.subrange(0, done + 1).drop_last() =~= all.subrange(0, done));
            assert(all.subrange(0, done + 1).last() == c);
            done = done + 1;
        }
        if now.nanos - c.updated_at.nanos > STALE_THRESHOLD_NANOS {
            out.push(Conversation { state: ConversationState::Stale, updated_at: now, ..c });
        }
    }
    assert(all.subrange(0, done) =~= all);
    out
}

/// The last `n` messages of a conversation, or all of them if there are fewer.
pub open spec fn last_messages(messages: Seq<ConversationMessage>, n: int) -> Seq<
    ConversationMessage,
> {
    if messages.len() <= n {
        messages
    } else {
        messages.subrange(messages.len() - n, messages.len() as int)
    }
}

impl Clone for ConversationMessage {
    fn clone(&self) -> (r: Self)
        ensures
            r == *self,
    {
        ConversationMessage {
            source: self.source,
            envelope_id: self.envelope_id,
            payload_ref: self.payload_ref.clone(),
            timestamp: self.timestamp,
        }
    }
}

/// The last `n` messages of a conversation, in order.
pub fn recent_messages(conversation: &Conversation, n: usize) -> (r: Vec<ConversationMessage>)
    ensures
        r@ == last_messages(conversation.message_refs@, n as int),
{
    let all = &conversation.message_refs;
    let start: usize = if all.len() <= n {
        0
    } else {
        all.len() - n
    };
    let mut out: Vec<ConversationMessage> = Vec::new();
    let mut i: usize = start;
    while i < all.len()
        invariant
            start <= i <= all@.len(),
            out@ == all@.subrange(start as int, i as int),
        decreases all@.len() - i,
    {
        out.push(all[i].clone());
        i = i + 1;
        assert(out@ =~= all@.subrange(start as int, i as int));
    }
    assert(out@ =~= last_messages(all@, n as int));
    out
}

// ---------------------------------------------------------------------------
// Laws
// ---------------------------------------------------------------------------

/// `c` is the conversation `old_one` with the message of the envelope behind its messages.
pub open spec fn goes_behind(c: Conversation, old_one: Conversation, e: MessageEnvelope) -> bool {
    &&& c.id == old_one.id
    &&& c.created_at == old_one.created_at
    &&& c.message_refs@.len() == old_one.message_refs@.len() + 1
    &&& forall|i: int|
        0 <= i < old_one.message_refs@.len() ==> c.message_refs@[i]
            == #[trigger] old_one.message_refs@[i]
    &&& forall|p: PrincipalId|
        old_one.participants@.contains(p) ==> #[trigger] c.participants@.contains(p)
    &&& holds_last(c, e)
}

/// The newest message of the conversation is that of the envelope.
pub open spec fn holds_last(c: Conversation, e: MessageEnvelope) -> bool {
    let m = c.message_refs@[c.message_refs@.len() - 1];
    &&& c.message_refs@.len() > 0
    &&& m.source == e.source
    &&& m.envelope_id == e.id
    &&& m.payload_ref == e.payload_ref
    &&& m.timestamp == e.timestamp
    &&& c.participants@.contains(e.source)
    &&& c.state == ConversationState::Active
    &&& c.updated_at == e.timestamp
}

proof fn match_is_first(active: Seq<Conversation>, e: MessageEnvelope, from: int)
    requires
        0 <= from,
    ensures
        match first_match(active, e, from) {
            Some(i) => from <= i < active.len() && goes_on(active[i], e) && forall|k: int|
                from <= k < i ==> !goes_on(#[trigger] active[k], e),
            None => forall|k: int| from <= k < active.len() ==> !goes_on(#[trigger] active[k], e),
        },
    decreases active.len() - from,
{
    if from < active.len() && !goes_on(active[from], e) {
        match_is_first(active, e, from + 1);
    }
}

proof fn continued_goes_behind(c: Conversation, before: Conversation, e: MessageEnvelope)
    requires
        continued(c, before, message_of(e)),
    ensures
        goes_behind(c, before, e),
{
    joined_contains(before.participants@, e.source);
    assert forall|p: PrincipalId| before.participants@.contains(p) implies #[trigger] c.participants@.contains(p) by {
        let k = choose|k: int| 0 <= k < before.participants@.len() && before.participants@[k] == p;
        assert(c.participants@[k] == p);
    }
}

/// A message that is no known reply goes on with an active conversation if its sender
/// takes part in one that was updated less than ten minutes before: it comes behind the
/// messages of the first such conversation.
pub proof fn message_goes_on(
    r: Option<Conversation>,
    e: MessageEnvelope,
    replied: Option<Conversation>,
    active: Seq<Conversation>,
    new_id: ConversationId,
    at: int,
)
    requires
        placed(r, e, replied, active, new_id),
        e.kind is HumanMessage || e.kind is AgentMessage,
        e.in_reply_to is None || replied is None,
        0 <= at < active.len(),
        active[at].participants@.contains(e.source),
        e.timestamp.nanos - active[at].updated_at.nanos < 600_000_000_000,
    ensures
        r matches Some(c) && exists|i: int|
            {
                &&& 0 <= i <= at
                &&& goes_behind(c, #[trigger] active[i], e)
                &&& active[i].participants@.contains(e.source)
                &&& e.timestamp.nanos - active[i].updated_at.nanos < 600_000_000_000
                &&& forall|k: int|
                    0 <= k < i ==> !((#[trigger] active[k]).participants@.contains(e.source)
                        && e.timestamp.nanos - active[k].updated_at.nanos < 600_000_000_000)
            },
{
    match_is_first(active, e, 0);
    assert(goes_on(active[at], e));
    let i = first_match(active, e, 0)->Some_0;
    let c = r->Some_0;
    continued_goes_behind(c, active[i], e);
    assert(goes_behind(c, active[i], e));
    assert forall|k: int| 0 <= k < i implies !((#[trigger] active[k]).participants@.contains(
        e.source,
    ) && e.timestamp.nanos - active[k].updated_at.nanos < 600_000_000_000) by {
        assert(!goes_on(active[k], e));
    }
}

/// A message that is no known reply begins a new conversation, with itself as the only
/// message and its sender as the only participant, if its sender takes part in no active
/// conversation that was updated less than ten minutes before.
pub proof fn message_begins_conversation(
    r: Option<Conversation>,
    e: MessageEnvelope,
    replied: Option<Conversation>,
    active: Seq<Conversation>,
    new_id: ConversationId,
)
    requires
        placed(r, e, replied, active, new_id),
        e.kind is HumanMessage || e.kind is AgentMessage,
        e.in_reply_to is None || replied is None,
        forall|k: int|
            0 <= k < active.len() ==> !((#[trigger] active[k]).participants@.contains(e.source)
                && e.timestamp.nanos - active[k].updated_at.nanos < 600_000_000_000),
    ensures
        r matches Some(c) && c.id == new_id && c.message_refs@.len() == 1 && c.participants@.len()
            == 1 && c.created_at == e.timestamp && holds_last(c, e),
{
    match_is_first(active, e, 0);
    assert(first_match(active, e, 0) is None) by {
        if let Some(i) = first_match(active, e, 0) {
            assert(goes_on(active[i], e));
        }
    }
    let c = r->Some_0;
    assert(c.participants@[0] == e.source);
}

/// A reply to a known message joins the conversation of that message, whoever sent it and
/// however late it comes. What is no message is left alone.
pub proof fn reply_joins_conversation(
    r: Option<Conversation>,
    e: MessageEnvelope,
    replied: Option<Conversation>,
    active: Seq<Conversation>,
    new_id: ConversationId,
)
    requires
        placed(r, e, replied, active, new_id),
    ensures
        (e.kind is SystemEvent || e.kind is RelationalSignal) ==> r is None,
        (e.kind is HumanMessage || e.kind is AgentMessage) && e.in_reply_to is Some && replied
            is Some ==> (r matches Some(c) && goes_behind(c, replied->Some_0, e)),
{
    if (e.kind is HumanMessage || e.kind is AgentMessage) && e.in_reply_to is Some && replied
        is Some {
        continued_goes_behind(r->Some_0, replied->Some_0, e);
    }
}

/// The results of the previous tick are its events on executed actions, all of them and
/// in order.
pub proof fn results_are_action_events(events: Seq<EventEntry>)
    ensures
        action_events(events) == events.filter(|e: EventEntry| e.event_type is ActionExecuted),
    decreases events.len(),
{
    reveal(Seq::filter);
    if events.len() > 0 {
        results_are_action_events(events.drop_last());
    }
}

/// The stale conversations are those that were not updated for more than thirty minutes.
/// They stay as they are but for their state and time.
pub proof fn quiet_conversations_are_stale(active: Seq<Conversation>, now: Timestamp)
    ensures
        ({
            let quiet = active.filter(
                |c: Conversation| now.nanos - c.updated_at.nanos > 1_800_000_000_000,
            );
            let stale = stale_of(active, now);
            &&& stale.len() == quiet.len()
            &&& forall|i: int|
                0 <= i < stale.len() ==> {
                    &&& (#[trigger] stale[i]).id == quiet[i].id
                    &&& stale[i].state is Stale
                    &&& stale[i].updated_at == now
                    &&& stale[i].participants == quiet[i].participants
                    &&& stale[i].message_refs == quiet[i].message_refs
                    &&& stale[i].created_at == quiet[i].created_at
                }
        }),
    decreases active.len(),
{
    reveal(Seq::filter);
    if active.len() > 0 {
        quiet_conversations_are_stale(active.drop_last(), now);
    }
}

/// The recent messages are the last ones, in order, all of them if there are no more than
/// asked for.
pub proof fn recent_messages_are_last(messages: Seq<ConversationMessage>, n: nat)
    ensures
        ({
            let recent = last_messages(messages, n as int);
            &&& recent.len() == if messages.len() < n {
                messages.len()
            } else {
                n
            }
            &&& forall|k: int|
                0 < k <= recent.len() ==> recent[recent.len() - k] == #[trigger] messages[messages.len()
                    - k]
        }),
{
}

} // verus!

//! The Align step: proposed actions are checked against the relationships of the
//! vessel.
//!
//! The relationship check itself is outside: its verdict comes in as data.

use vstd::prelude::*;
use vstd::string::*;

use crate::json::{member, member_views, Json, JsonView};
use crate::types::{action_views, clone_actions, PlannedAction, PlannedActionView};

verus! {

/// What the relationship check needs to know of an action.
#[derive(Debug, PartialEq, Eq)]
pub struct AlignAction {
    pub tool_name: String,
    pub rationale: String,
}

/// A record for the relationship ledger, in the form in which it is stored.
#[derive(Debug)]
pub struct RelationshipRecord {
    pub payload: Json,
}

/// The state of the relationships, in the form in which it is stored.
#[derive(Debug)]
pub struct RelationshipSnapshot {
    pub payload: Json,
}

/// The verdict of the relationship check on a list of actions.
#[derive(Debug)]
pub struct AlignVerdict {
    /// The indices of the approved actions.
    pub approved: Vec<usize>,
    /// The indices of the blocked actions, each with the reason.
    pub blocked: Vec<(usize, String)>,
    pub updates: Vec<RelationshipRecord>,
    pub snapshot: RelationshipSnapshot,
}

impl AlignVerdict {
    /// The verdict speaks only of the `n` actions that were checked.
    pub open spec fn speaks_of(self, n: nat) -> bool {
        &&& forall|k: int| 0 <= k < self.approved@.len() ==> (#[trigger] self.approved@[k]) < n
        &&& forall|k: int| 0 <= k < self.blocked@.len() ==> (#[trigger] self.blocked@[k]).0 < n
    }
}

/// The outcome of the Align step.
#[derive(Debug)]
pub struct AlignmentResult {
    pub approved_actions: Vec<PlannedAction>,
    /// The blocked actions, each with the reason.
    pub blocked_actions: Vec<(PlannedAction, String)>,
    pub relationship_updates: Vec<RelationshipRecord>,
    pub relationship_snapshot: Option<RelationshipSnapshot>,
}

/// A request to be granted a capability that was blocked.
#[derive(Debug)]
pub struct CapabilityRequest {
    pub payload: Json,
    pub summary: String,
}

/// The models of the blocked actions, each with its reason.
pub open spec fn blocked_views(
    blocked: Seq<(PlannedAction, String)>,
) -> Seq<(PlannedActionView, Seq<char>)> {
    Seq::new(blocked.len(), |i: int| (blocked[i].0@, blocked[i].1@))
}

/// The approved actions under a verdict. Without a verdict every action passes.
pub open spec fn approved_under(
    actions: Seq<PlannedAction>,
    verdict: Option<AlignVerdict>,
) -> Seq<PlannedActionView> {
    match verdict {
        Some(v) => Seq::new(v.approved@.len(), |k: int| actions[v.approved@[k] as int]@),
        None => action_views(actions),
    }
}

/// The blocked actions under a verdict, each with its reason.
pub open spec fn blocked_under(
    actions: Seq<PlannedAction>,
    verdict: Option<AlignVerdict>,
) -> Seq<(PlannedActionView, Seq<char>)> {
    match verdict {
        Some(v) => Seq::new(
            v.blocked@.len(),
            |k: int| (actions[v.blocked@[k].0 as int]@, v.blocked@[k].1@),
        ),
        None => Seq::empty(),
    }
}

/// The capability request for a blocked action: its payload and its summary.
pub open spec fn request_for(action: PlannedActionView, reason: Seq<char>) -> (JsonView, Seq<char>) {
    (
        JsonView::Object(
            seq![
                ("capability"@, JsonView::Str(action.tool_name)),
                ("reason"@, JsonView::Str(reason)),
                ("context"@, JsonView::Str(action.rationale)),
                ("acknowledged"@, JsonView::Bool(false)),
            ],
        ),
        "Capability request: "@ + action.tool_name + " blocked — "@ + reason,
    )
}

/// The models of the capability requests.
pub open spec fn request_views(requests: Seq<CapabilityRequest>) -> Seq<(JsonView, Seq<char>)> {
    Seq::new(requests.len(), |i: int| (requests[i].payload@, requests[i].summary@))
}

/// What the relationship check is asked: tool and rationale of each action.
pub fn align_actions(actions: &Vec<PlannedAction>) -> (r: Vec<AlignAction>)
    ensures
        r@.len() == actions@.len(),
        forall|i: int|
            0 <= i < r@.len() ==> (#[trigger] r@[i]).tool_name == actions@[i].tool_name
                && r@[i].rationale == actions@[i].rationale,
{
    let mut out: Vec<AlignAction> = Vec::new();
    let mut i: usize = 0;
    while i < actions.len()
        invariant
            i <= actions@.len(),
            out@.len() == i,
            forall|k: int|
                0 <= k < i ==> (#[trigger] out@[k]).tool_name == actions@[k].tool_name
                    && out@[k].rationale == actions@[k].rationale,
        decreases actions@.len() - i,
    {
        out.push(
            AlignAction {
                tool_name: actions[i].tool_name.clone(),
                rationale: actions[i].rationale.clone(),
            },
        );
        i = i + 1;
    }
    out
}

/// Builds the capability request for a blocked action.
pub fn capability_request(action: &PlannedAction, reason: &str) -> (r: CapabilityRequest)
    ensures
        (r.payload@, r.summary@) == request_for(action@, reason@),
{
    let members = vec![
        member("capability", Json::str(action.tool_name.as_str())),
        member("reason", Json::str(reason)),
        member("context", Json::str(action.rationale.as_str())),
        member("acknowledged", Json::Bool(false)),
    ];
    assert(member_views(members@) =~= request_for(action@, reason@).0->Object_0);
    let mut summary = "Capability request: ".to_owned();
    summary.append(action.tool_name.as_str());
    summary.append(" blocked — ");
    summary.append(reason);
    CapabilityRequest { payload: Json::object(members), summary }
}

/// Applies the verdict of the relationship check to the proposed actions, and
/// builds a capability request for each blocked one.
///
/// Without a verdict (the relationships could not be compiled) every action
/// passes, nothing is blocked and there is nothing to record.
pub fn align(actions: &Vec<PlannedAction>, verdict: Option<AlignVerdict>) -> (r: (
    AlignmentResult,
    Vec<CapabilityRequest>,
))
    requires
        verdict matches Some(v) ==> v.speaks_of(actions@.len()),
    ensures
        action_views(r.0.approved_actions@) == approved_under(actions@, verdict),
        blocked_views(r.0.blocked_actions@) == blocked_under(actions@, verdict),
        match verdict {
            Some(v) => r.0.relationship_updates == v.updates && r.0.relationship_snapshot == Some(
                v.snapshot,
            ),
            None => r.0.relationship_updates@.len() == 0 && r.0.relationship_snapshot is None,
        },
        request_views(r.1@) == Seq::new(
            blocked_under(actions@, verdict).len(),
            |k: int|
                request_for(
                    blocked_under(actions@, verdict)[k].0,
                    blocked_under(actions@, verdict)[k].1,
                ),
        ),
{
    let mut requests: Vec<CapabilityRequest> = Vec::new();
    let mut blocked: Vec<(PlannedAction, String)> = Vec::new();
    match verdict {
        None => {
            let approved = clone_actions(actions);
            assert(blocked_views(blocked@) =~= blocked_under(actions@, verdict));
            assert(request_views(requests@) =~= Seq::<(JsonView, Seq<char>)>::empty());
            (
                AlignmentResult {
                    approved_actions: approved,
                    blocked_actions: blocked,
                    relationship_updates: Vec::new(),
                    relationship_snapshot: None,
                },
                requests,
            )
        },
        Some(v) => {
            let mut approved: Vec<PlannedAction> = Vec::new();
            let mut i: usize = 0;
            while i < v.approved.len()
                invariant
                    verdict == Some(v),
                    v.speaks_of(actions@.len()),
                    i <= v.approved@.len(),
                    out_matches(approved@, actions@, v.approved@, i as int),
                decreases v.approved@.len() - i,
            {
                let index: usize = v.approved[i];
                approved.push(actions[index].clone());
                i = i + 1;
            }
            assert(action_views(approved@) =~= approved_under(actions@, verdict));
            let mut j: usize = 0;
            while j < v.blocked.len()
                invariant
                    verdict == Some(v),
                    v.speaks_of(actions@.len()),
                    j <= v.blocked@.len(),
                    blocked@.len() == j,
                    requests@.len() == j,
                    forall|k: int|
                        0 <= k < j ==> (#[trigger] blocked@[k]).0@
                            == actions@[v.blocked@[k].0 as int]@ && blocked@[k].1@
                            == v.blocked@[k].1@,
                    forall|k: int|
                        0 <= k < j ==> ((#[trigger] requests@[k]).payload@, requests@[k].summary@)
                            == request_for(
                            actions@[v.blocked@[k].0 as int]@,
                            v.blocked@[k].1@,
                        ),
                decreases v.blocked@.len() - j,
            {
                let index: usize = v.blocked[j].0;
                requests.push(capability_request(&actions[index], v.blocked[j].1.as_str()));
                blocked.push((actions[index].clone(), v.blocked[j].1.clone()));
                j = j + 1;
            }
            assert(blocked_views(blocked@) =~= blocked_under(actions@, verdict));
            assert(request_views(requests@) =~= Seq::new(
                blocked_under(actions@, verdict).len(),
                |k: int|
                    request_for(
                        blocked_under(actions@, verdict)[k].0,
                        blocked_under(actions@, verdict)[k].1,
                    ),
            ));
            (
                AlignmentResult {
                    approved_actions: approved,
                    blocked_actions: blocked,
                    relationship_updates: v.updates,
                    relationship_snapshot: Some(v.snapshot),
                },
                requests,
            )
        },
    }
}

/// The first `n` of `out` are copies of the actions at the first `n` indices.
spec fn out_matches(
    out: Seq<PlannedAction>,
    actions: Seq<PlannedAction>,
    indices: Seq<usize>,
    n: int,
) -> bool {
    &&& out.len() == n
    &&& forall|k: int| 0 <= k < n ==> (#[trigger] out[k])@ == actions[indices[k] as int]@
}

/// Every action that leaves the Align step was proposed: nothing is approved or
/// blocked that was not among the actions.
pub proof fn align_invents_nothing(actions: Seq<PlannedAction>, verdict: Option<AlignVerdict>)
    requires
        verdict matches Some(v) ==> v.speaks_of(actions.len()),
    ensures
        forall|k: int|
            0 <= k < approved_under(actions, verdict).len() ==> action_views(actions).contains(
                #[trigger] approved_under(actions, verdict)[k],
            ),
        forall|k: int|
            0 <= k < blocked_under(actions, verdict).len() ==> action_views(actions).contains(
                (#[trigger] blocked_under(actions, verdict)[k]).0,
            ),
{
    assert forall|k: int| 0 <= k < approved_under(actions, verdict).len() implies action_views(
        actions,
    ).contains(#[trigger] approved_under(actions, verdict)[k]) by {
        match verdict {
            Some(v) => {
                let i = v.approved@[k] as int;
                assert(action_views(actions)[i] == approved_under(actions, verdict)[k]);
            },
            None => {
                assert(action_views(actions)[k] == approved_under(actions, verdict)[k]);
            },
        }
    }
    assert forall|k: int| 0 <= k < blocked_under(actions, verdict).len() implies action_views(
        actions,
    ).contains((#[trigger] blocked_under(actions, verdict)[k]).0) by {
        let v = verdict->Some_0;
        let i = v.blocked@[k].0 as int;
        assert(action_views(actions)[i] == blocked_under(actions, verdict)[k].0);
    }
}

} // verus!

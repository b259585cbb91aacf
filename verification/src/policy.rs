//! Which tools may be used: rules per tool, approvals of the operator, and what the
//! planning mode allows.

use vstd::prelude::*;
use vstd::string::*;

use crate::text::{has_text, list_has, part_is_found, str_eq, texts};
use crate::types::VesselMode;

verus! {

/// The rule for a tool.
#[derive(Debug, Clone, Copy, PartialEq, Eq, Structural)]
pub enum PolicyRule {
    /// The tool may be used.
    Allow,
    /// The tool may not be used.
    Deny,
    /// The operator must approve the tool once in a session.
    Ask,
}

/// The rule for tools without a rule of their own, if none is configured.
pub fn default_policy_rule() -> (r: PolicyRule)
    ensures
        r == PolicyRule::Allow,
{
    PolicyRule::Allow
}

/// The rules for the tools.
#[derive(Debug, PartialEq, Eq)]
pub struct ToolPolicyConfig {
    /// The rule for tools that are not listed.
    pub default: PolicyRule,
    /// The rules of the listed tools. Where a tool is listed twice, the later rule
    /// counts.
    pub rules: Vec<(String, PolicyRule)>,
}

impl Default for ToolPolicyConfig {
    /// Every tool may be used.
    fn default() -> (r: Self)
        ensures
            r.default == PolicyRule::Allow,
            r.rules@.len() == 0,
    {
        ToolPolicyConfig { default: default_policy_rule(), rules: Vec::new() }
    }
}

/// The last rule that is listed for a tool.
pub open spec fn listed_rule(rules: Seq<(String, PolicyRule)>, tool: Seq<char>) -> Option<PolicyRule>
    decreases rules.len(),
{
    if rules.len() == 0 {
        None
    } else if rules.last().0@ == tool {
        Some(rules.last().1)
    } else {
        listed_rule(rules.drop_last(), tool)
    }
}

impl ToolPolicyConfig {
    /// The rule that holds for a tool.
    pub open spec fn rule_of(self, tool: Seq<char>) -> PolicyRule {
        match listed_rule(self.rules@, tool) {
            Some(rule) => rule,
            None => self.default,
        }
    }

    /// Looks up the rule that holds for a tool.
    pub fn rule_for(&self, tool_name: &str) -> (r: PolicyRule)
        ensures
            r == self.rule_of(tool_name@),
    {
        let mut i: usize = self.rules.len();
        assert(self.rules@.subrange(0, self.rules@.len() as int) =~= self.rules@);
        while i > 0
            invariant
                i <= self.rules@.len(),
                listed_rule(self.rules@, tool_name@) == listed_rule(
                    self.rules@.subrange(0, i as int),
                    tool_name@,
                ),
            decreases i,
        {
            i = i - 1;
            assert(self.rules@.subrange(0, i + 1).drop_last() =~= self.rules@.subrange(
                0,
                i as int,
            ));
            if str_eq(self.rules[i].0.as_str(), tool_name) {
                return self.rules[i].1;
            }
        }
        self.default
    }
}

/// The tools that the operator approved in this session.
#[derive(Debug)]
pub struct SessionApprovals {
    approvals: Vec<String>,
}

impl View for SessionApprovals {
    type V = Set<Seq<char>>;

    closed spec fn view(&self) -> Set<Seq<char>> {
        Set::new(|t: Seq<char>| texts(self.approvals@).contains(t))
    }
}

impl SessionApprovals {
    /// No tool is approved.
    pub fn new() -> (r: SessionApprovals)
        ensures
            r@ == Set::<Seq<char>>::empty(),
    {
        let r = SessionApprovals { approvals: Vec::new() };
        assert(r@ =~= Set::<Seq<char>>::empty());
        r
    }

    /// Tells whether a tool is approved.
    pub fn is_approved(&self, tool_name: &str) -> (r: bool)
        ensures
            r == self@.contains(tool_name@),
    {
        list_has(&self.approvals, tool_name)
    }

    /// Approves a tool for the rest of the session.
    pub fn approve(&mut self, tool_name: &str)
        ensures
            final(self)@ == old(self)@.insert(tool_name@),
    {
        let ghost before = texts(self.approvals@);
        if !list_has(&self.approvals, tool_name) {
            self.approvals.push(tool_name.to_owned());
            let ghost after = texts(self.approvals@);
            assert(after =~= before.push(tool_name@));
            assert forall|t: Seq<char>| after.contains(t) == (before.contains(t) || t
                == tool_name@) by {
                if before.contains(t) {
                    let i = choose|i: int| 0 <= i < before.len() && before[i] == t;
                    assert(after[i] == t);
                }
                if t == tool_name@ {
                    assert(after[before.len() as int] == t);
                }
            }
        }
        assert(self@ =~= old(self)@.insert(tool_name@));
    }
}

impl Default for SessionApprovals {
    fn default() -> (r: Self)
        ensures
            r@ == Set::<Seq<char>>::empty(),
    {
        SessionApprovals::new()
    }
}

/// Whether a tool may be used.
#[derive(Debug, PartialEq, Eq)]
pub enum PolicyDecision {
    Allowed,
    Denied { reason: String },
    NeedsApproval,
}

/// The decision on a tool.
pub open spec fn decides(
    d: PolicyDecision,
    tool: Seq<char>,
    is_read_only: bool,
    mode: VesselMode,
    rule: PolicyRule,
    approved: bool,
) -> bool {
    if mode == VesselMode::Planning && !is_read_only {
        d matches PolicyDecision::Denied { reason } && reason@ == "tool '"@ + tool
            + "' is mutating; blocked in planning mode (read-only only)"@
    } else {
        match rule {
            PolicyRule::Allow => d is Allowed,
            PolicyRule::Deny => d matches PolicyDecision::Denied { reason } && reason@ == "tool '"@
                + tool + "' denied by policy"@,
            PolicyRule::Ask => if approved {
                d is Allowed
            } else {
                d is NeedsApproval
            },
        }
    }
}

/// Decides whether a tool may be used. In planning mode only tools that change
/// nothing are allowed, whatever the rules say.
pub fn evaluate_policy(
    tool_name: &str,
    is_read_only: bool,
    vessel_mode: VesselMode,
    policy_config: &ToolPolicyConfig,
    session_approvals: &SessionApprovals,
) -> (d: PolicyDecision)
    ensures
        decides(
            d,
            tool_name@,
            is_read_only,
            vessel_mode,
            policy_config.rule_of(tool_name@),
            session_approvals@.contains(tool_name@),
        ),
{
    if vessel_mode == VesselMode::Planning && !is_read_only {
        let mut reason = "tool '".to_owned();
        reason.append(tool_name);
        reason.append("' is mutating; blocked in planning mode (read-only only)");
        return PolicyDecision::Denied { reason };
    }
    match policy_config.rule_for(tool_name) {
        PolicyRule::Allow => PolicyDecision::Allowed,
        PolicyRule::Deny => {
            let mut reason = "tool '".to_owned();
            reason.append(tool_name);
            reason.append("' denied by policy");
            PolicyDecision::Denied { reason }
        },
        PolicyRule::Ask => if session_approvals.is_approved(tool_name) {
            PolicyDecision::Allowed
        } else {
            PolicyDecision::NeedsApproval
        },
    }
}

/// In planning mode no tool that changes something is allowed, whatever the rules and
/// approvals are.
pub proof fn planning_blocks_every_change(
    d: PolicyDecision,
    tool: Seq<char>,
    rule: PolicyRule,
    approved: bool,
)
    requires
        decides(d, tool, false, VesselMode::Planning, rule, approved),
    ensures
        d is Denied,
{
}

/// An approval lifts the question, never a denial.
pub proof fn approval_never_lifts_denial(
    d: PolicyDecision,
    tool: Seq<char>,
    is_read_only: bool,
    mode: VesselMode,
    approved: bool,
)
    requires
        decides(d, tool, is_read_only, mode, PolicyRule::Deny, approved),
    ensures
        d is Denied,
{
}

/// An approval lasts: whatever else is approved later, the tool stays approved.
pub proof fn approvals_last(approvals: Set<Seq<char>>, tool: Seq<char>, later: Seq<char>)
    ensures
        approvals.insert(tool).contains(tool),
        approvals.insert(tool).insert(later).contains(tool),
{
}

/// A tool that is denied is told so by its name.
pub proof fn denials_name_the_tool(
    d: PolicyDecision,
    tool: Seq<char>,
    is_read_only: bool,
    mode: VesselMode,
    rule: PolicyRule,
    approved: bool,
)
    requires
        decides(d, tool, is_read_only, mode, rule, approved),
        d is Denied,
    ensures
        has_text(d->reason@, tool),
{
    part_is_found("tool '"@, tool, "' is mutating; blocked in planning mode (read-only only)"@);
    part_is_found("tool '"@, tool, "' denied by policy"@);
}

} // verus!

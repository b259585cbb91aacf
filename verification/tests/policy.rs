use exoskeleton_host::policy::{
    default_policy_rule, evaluate_policy, PolicyDecision, PolicyRule, SessionApprovals,
    ToolPolicyConfig,
};
use exoskeleton_host::types::VesselMode;

fn config(default: PolicyRule, rules: &[(&str, PolicyRule)]) -> ToolPolicyConfig {
    ToolPolicyConfig {
        default,
        rules: rules.iter().map(|(k, v)| ((*k).to_string(), *v)).collect(),
    }
}

#[test]
fn policy_rule_allow_passes() {
    let approvals = SessionApprovals::new();
    let decision = evaluate_policy(
        "code.read",
        true,
        VesselMode::Normal,
        &config(PolicyRule::Deny, &[("code.read", PolicyRule::Allow)]),
        &approvals,
    );
    assert_eq!(decision, PolicyDecision::Allowed);
}

#[test]
fn policy_rule_deny_blocks() {
    let approvals = SessionApprovals::new();
    let decision = evaluate_policy(
        "fs.write",
        false,
        VesselMode::Normal,
        &config(PolicyRule::Allow, &[("fs.write", PolicyRule::Deny)]),
        &approvals,
    );
    assert!(matches!(decision, PolicyDecision::Denied { .. }));
}

#[test]
fn policy_rule_ask_without_approval_needs_approval() {
    let approvals = SessionApprovals::new();
    let decision = evaluate_policy(
        "code.edit",
        false,
        VesselMode::Normal,
        &config(PolicyRule::Allow, &[("code.edit", PolicyRule::Ask)]),
        &approvals,
    );
    assert_eq!(decision, PolicyDecision::NeedsApproval);
}

#[test]
fn policy_rule_ask_with_approval_passes() {
    let mut approvals = SessionApprovals::new();
    approvals.approve("code.edit");
    let decision = evaluate_policy(
        "code.edit",
        false,
        VesselMode::Normal,
        &config(PolicyRule::Allow, &[("code.edit", PolicyRule::Ask)]),
        &approvals,
    );
    assert_eq!(decision, PolicyDecision::Allowed);
}

#[test]
fn policy_default_rule_applies_to_unlisted_tools() {
    let approvals = SessionApprovals::new();
    let decision = evaluate_policy(
        "shell.exec",
        false,
        VesselMode::Normal,
        &config(PolicyRule::Deny, &[]),
        &approvals,
    );
    assert!(matches!(decision, PolicyDecision::Denied { .. }));
}

#[test]
fn policy_config_default_is_all_allow() {
    let approvals = SessionApprovals::new();
    let decision = evaluate_policy(
        "shell.exec",
        false,
        VesselMode::Normal,
        &ToolPolicyConfig::default(),
        &approvals,
    );
    assert_eq!(decision, PolicyDecision::Allowed);
    assert_eq!(default_policy_rule(), PolicyRule::Allow);
}

#[test]
fn session_approvals_persist_across_actions() {
    let mut approvals = SessionApprovals::new();
    assert!(!approvals.is_approved("code.edit"));
    approvals.approve("code.edit");
    assert!(approvals.is_approved("code.edit"));
    approvals.approve("fs.write");
    assert!(approvals.is_approved("code.edit"));
}

#[test]
fn planning_mode_blocks_mutating_tools() {
    let approvals = SessionApprovals::new();
    let decision = evaluate_policy(
        "code.edit",
        false,
        VesselMode::Planning,
        &ToolPolicyConfig::default(),
        &approvals,
    );
    assert!(matches!(decision, PolicyDecision::Denied { .. }));
}

#[test]
fn planning_blocks_changes_that_were_approved() {
    let mut approvals = SessionApprovals::new();
    approvals.approve("code.edit");
    let decision = evaluate_policy(
        "code.edit",
        false,
        VesselMode::Planning,
        &config(PolicyRule::Allow, &[("code.edit", PolicyRule::Ask)]),
        &approvals,
    );
    assert!(matches!(decision, PolicyDecision::Denied { .. }));
}

#[test]
fn planning_mode_allows_read_only_tools() {
    let approvals = SessionApprovals::new();
    let decision = evaluate_policy(
        "code.read",
        true,
        VesselMode::Planning,
        &ToolPolicyConfig::default(),
        &approvals,
    );
    assert_eq!(decision, PolicyDecision::Allowed);
}

#[test]
fn executing_mode_uses_normal_policy() {
    let approvals = SessionApprovals::new();
    let decision = evaluate_policy(
        "shell.exec",
        false,
        VesselMode::Executing,
        &config(PolicyRule::Allow, &[("shell.exec", PolicyRule::Deny)]),
        &approvals,
    );
    assert!(matches!(decision, PolicyDecision::Denied { .. }));
}

#[test]
fn planning_mode_allows_agent_ask_user() {
    let approvals = SessionApprovals::new();
    let decision = evaluate_policy(
        "agent.ask_user",
        true,
        VesselMode::Planning,
        &ToolPolicyConfig::default(),
        &approvals,
    );
    assert_eq!(decision, PolicyDecision::Allowed);
}

#[test]
fn listed_tools_have_rules_of_their_own() {
    let c = config(
        PolicyRule::Allow,
        &[("code.edit", PolicyRule::Ask), ("shell.exec", PolicyRule::Deny)],
    );
    assert_eq!(c.rule_for("code.edit"), PolicyRule::Ask);
    assert_eq!(c.rule_for("shell.exec"), PolicyRule::Deny);
    assert_eq!(c.rule_for("delay"), PolicyRule::Allow);
}

#[test]
fn policy_composes_with_trust_gate() {
    let approvals = SessionApprovals::new();
    let policy_decision = evaluate_policy(
        "code.edit",
        false,
        VesselMode::Normal,
        &config(PolicyRule::Allow, &[]),
        &approvals,
    );
    assert_eq!(policy_decision, PolicyDecision::Allowed);

    let trust_denied = true;
    let effective_allowed = !trust_denied && policy_decision == PolicyDecision::Allowed;
    assert!(!effective_allowed, "trust-denied must override policy-allowed");
}

#[test]
fn act_policy_denied_records_outcome() {
    let approvals = SessionApprovals::new();
    let decision = evaluate_policy(
        "fs.write",
        false,
        VesselMode::Normal,
        &config(PolicyRule::Deny, &[]),
        &approvals,
    );
    assert!(
        matches!(decision, PolicyDecision::Denied { .. }),
        "Deny rule must produce PolicyDecision::Denied"
    );
}

#[test]
fn act_policy_denied_broadcasts_event() {
    let approvals = SessionApprovals::new();
    let decision = evaluate_policy(
        "code.edit",
        false,
        VesselMode::Normal,
        &config(PolicyRule::Allow, &[("code.edit", PolicyRule::Ask)]),
        &approvals,
    );
    assert_eq!(
        decision,
        PolicyDecision::NeedsApproval,
        "Ask rule without approval must produce NeedsApproval"
    );
}

#[test]
fn policy_config_none_defaults_to_all_allow() {
    let config = ToolPolicyConfig::default();
    assert_eq!(config.default, PolicyRule::Allow);
    assert!(config.rules.is_empty());

    let approvals = SessionApprovals::new();
    for tool in &["code.edit", "shell.exec", "fs.write", "code.read", "delay"] {
        let decision = evaluate_policy(tool, false, VesselMode::Normal, &config, &approvals);
        assert_eq!(decision, PolicyDecision::Allowed, "default config must allow '{tool}'");
    }
}

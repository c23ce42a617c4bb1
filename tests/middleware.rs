use aumos_governance_core::{AuditFilter, CfConfig, CfGovernanceMiddleware, MiddlewareDecision};

#[test]
fn test_default_config() {
    let config = CfConfig::default();
    assert_eq!(config.trust_kv_binding, "TRUST_KV");
    assert_eq!(config.default_trust_level, 0);
    assert_eq!(config.required_trust_level, 2);
    assert_eq!(config.budget_category, "api-calls");
}

#[test]
fn test_middleware_allow_sufficient_trust() {
    let config = CfConfig { required_trust_level: 2, ..CfConfig::default() };
    let mut middleware = CfGovernanceMiddleware::new(config);
    let decision = middleware.evaluate_agent("agent-001", 3, 0, "read_data");
    assert!(matches!(decision, MiddlewareDecision::Allow { .. }));
}

#[test]
fn test_middleware_deny_insufficient_trust() {
    let config = CfConfig { required_trust_level: 4, ..CfConfig::default() };
    let mut middleware = CfGovernanceMiddleware::new(config);
    let decision = middleware.evaluate_agent("agent-001", 1, 0, "delete_resource");
    assert!(matches!(decision, MiddlewareDecision::Deny { .. }));
}

#[test]
fn test_budget_enforcement() {
    let config = CfConfig { budget_limit: 10, ..CfConfig::default() };
    let mut middleware = CfGovernanceMiddleware::new(config);

    let decision = middleware.evaluate_agent("agent-001", 4, 5, "action_1");
    assert!(matches!(decision, MiddlewareDecision::Allow { .. }));

    let decision = middleware.evaluate_agent("agent-001", 4, 5, "action_2");
    assert!(matches!(decision, MiddlewareDecision::Allow { .. }));

    // 10 of 10 spent: nothing more fits.
    let decision = middleware.evaluate_agent("agent-001", 4, 1, "action_3");
    assert!(matches!(decision, MiddlewareDecision::Deny { .. }));
}

#[test]
fn middleware_deny_carries_code_and_status() {
    let config = CfConfig { required_trust_level: 5, ..CfConfig::default() };
    let mut middleware = CfGovernanceMiddleware::new(config);
    match middleware.evaluate_agent("agent-001", 0, 0, "nuke_prod") {
        MiddlewareDecision::Deny { status, code, reason } => {
            assert_eq!(status, 403);
            assert_eq!(code, "GOVERNANCE_DENIED");
            assert_eq!(reason, "Trust gate denied.");
        }
        other => panic!("expected a denial, got {:?}", other),
    }
}

#[test]
fn middleware_allow_reports_tier_and_reason() {
    let mut middleware = CfGovernanceMiddleware::new(CfConfig::default());
    match middleware.evaluate_agent("agent-001", 3, 1, "read_data") {
        MiddlewareDecision::Allow { agent_trust_level, reason } => {
            assert_eq!(agent_trust_level, 3);
            assert_eq!(reason, "All governance gates passed.");
        }
        other => panic!("expected an allow, got {:?}", other),
    }
}

#[test]
fn middleware_out_of_range_tier_counts_as_observer() {
    let config = CfConfig { required_trust_level: 1, ..CfConfig::default() };
    let mut middleware = CfGovernanceMiddleware::new(config);
    let decision = middleware.evaluate_agent("agent-001", 42, 0, "read_data");
    assert!(matches!(decision, MiddlewareDecision::Deny { .. }));
}

#[test]
fn middleware_audit_trail_populated_after_evaluation() {
    let mut middleware = CfGovernanceMiddleware::new(CfConfig::default());
    let _ = middleware.evaluate_agent("agent-001", 3, 1, "test_action");
    let trail = middleware.audit_trail(&AuditFilter::default());
    assert_eq!(trail.len(), 1);
    assert_eq!(trail[0].decision.action, "test_action");
    assert!(trail[0].decision.permitted);
}

use aumos_governance_core::registry::INVALID_HANDLE;
use aumos_governance_core::{AuditFilter, Config, Context, EngineRegistry, TrustLevel};

#[test]
fn test_engine_lifecycle() {
    let mut registry = EngineRegistry::new();
    let handle = registry.create_engine();
    assert_ne!(handle, u32::MAX);
    registry.destroy_engine(handle);
    assert!(registry.audit_records(handle, &AuditFilter::default()).is_none());
}

#[test]
fn test_trust_check() {
    let mut registry = EngineRegistry::new();
    let handle = registry.create_engine();
    registry.set_trust_level(handle, "agent-001", "ops", 3, "admin");
    assert!(registry.check_trust(handle, "agent-001", "ops", 2));
    assert!(!registry.check_trust(handle, "agent-001", "ops", 5));
    registry.destroy_engine(handle);
}

#[test]
fn test_budget_check() {
    let mut registry = EngineRegistry::new();
    let handle = registry.create_engine();
    registry.create_budget(handle, "tokens", 100, 0, 0);
    assert!(registry.check_budget(handle, "tokens", 99));
    assert!(!registry.check_budget(handle, "tokens", 101));
    registry.destroy_engine(handle);
}

#[test]
fn test_invalid_trust_level_is_noop() {
    let mut registry = EngineRegistry::new();
    let handle = registry.create_engine();
    registry.set_trust_level(handle, "agent-001", "ops", 99, "admin");
    assert!(!registry.check_trust(handle, "agent-001", "ops", 0));
    registry.destroy_engine(handle);
}

#[test]
fn test_audit_trail_initially_empty() {
    let mut registry = EngineRegistry::new();
    let handle = registry.create_engine();
    let trail = registry.audit_records(handle, &AuditFilter::default()).unwrap();
    assert!(trail.is_empty());
    registry.destroy_engine(handle);
}

#[test]
fn registry_handles_count_up_and_unknown_handles_are_refused() {
    let mut registry = EngineRegistry::new();
    let first = registry.create_engine();
    let second = registry.create_engine_with_config(Config {
        require_consent: true,
        default_observer_on_missing: false,
        pass_on_missing_envelope: false,
    });
    assert_eq!(first, 0);
    assert_eq!(second, 1);
    assert_ne!(second, INVALID_HANDLE);
    assert!(!registry.check_trust(7, "agent-001", "ops", 0));
    assert!(!registry.check_budget(7, "tokens", 1));
    // strict engine: a missing envelope denies
    assert!(!registry.check_budget(second, "tokens", 1));
    assert!(registry.check_budget(first, "tokens", 1));
}

#[test]
fn registry_full_evaluate() {
    let mut registry = EngineRegistry::new();
    let handle = registry.create_engine();
    registry.set_trust_level(handle, "agent-001", "finance", 4, "owner");
    registry.create_budget(handle, "financial", 1000, 0, 0);
    registry.record_consent(handle, "agent-001", "process_pii");
    let ctx = Context {
        agent_id: "agent-001".into(),
        scope: "finance".into(),
        required_trust: TrustLevel::ActAndReport,
        cost: Some(50),
        category: "financial".into(),
        data_type: Some("process_pii".into()),
        purpose: None,
    };
    let decision = registry.evaluate(handle, "send_payment", &ctx).unwrap();
    assert!(decision.permitted);
    assert!(registry.evaluate(99_999, "send_payment", &ctx).is_none());

    registry.revoke_consent(handle, "agent-001", "process_pii");
    let decision = registry.evaluate(handle, "send_payment", &ctx).unwrap();
    assert!(!decision.permitted);
    assert_eq!(decision.reason, "Consent gate denied.");

    let trail = registry.audit_records(handle, &AuditFilter::default()).unwrap();
    assert_eq!(trail.len(), 2);
}

#[test]
fn created_engine_uses_default_settings() {
    let mut registry = EngineRegistry::new();
    let handle = registry.create_engine();
    // default settings: a missing assignment denies, a missing envelope passes
    assert!(!registry.check_trust(handle, "nobody", "ops", 0));
    assert!(registry.check_budget(handle, "anything", 5));
}

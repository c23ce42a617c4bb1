use aumos_governance_core::engine::{after_budget, after_consent, after_debit, after_trust, PipelineStep};
use aumos_governance_core::keyed::KeyedTable;
use aumos_governance_core::FlushingStorage;
use aumos_governance_core::{
    AuditFilter, BudgetManager, Config, ConsentManager, Context, Envelope, GovernanceEngine,
    InMemoryStorage, Storage, TrustLevel, TrustManager,
};

const LEVELS: [TrustLevel; 6] = [
    TrustLevel::Observer,
    TrustLevel::Monitor,
    TrustLevel::Suggest,
    TrustLevel::ActWithApproval,
    TrustLevel::ActAndReport,
    TrustLevel::Autonomous,
];

fn invoice_context(cost: u64) -> Context {
    Context {
        agent_id: "agent-001".into(),
        scope: "finance".into(),
        required_trust: TrustLevel::Suggest,
        cost: Some(cost),
        category: "financial".into(),
        data_type: Some("process_pii".into()),
        purpose: None,
    }
}

fn invoice_engine() -> GovernanceEngine<InMemoryStorage> {
    let mut engine = GovernanceEngine::new(Config::default(), InMemoryStorage::new());
    engine.trust.set_level("agent-001", "finance", TrustLevel::ActAndReport, "owner");
    engine.budget.create_envelope("financial", 1000, 86_400_000, 0);
    engine.consent.record("agent-001", "process_pii");
    engine
}

#[test]
fn trust_check_follows_tier_order_for_all_pairs() {
    for held in LEVELS {
        for required in LEVELS {
            let mut manager = TrustManager::new(Config::default(), InMemoryStorage::new());
            manager.set_level("agent-001", "default", held, "owner");
            let result = manager.check_level("agent-001", "default", required);
            assert_eq!(result.permitted, held.rank() >= required.rank());
            assert_eq!(result.permitted, held >= required);
            assert_eq!(result.current_level, held);
            assert_eq!(result.required_level, required);
        }
    }
}

#[test]
fn trust_reasons_name_the_case() {
    let mut manager = TrustManager::new(Config::default(), InMemoryStorage::new());
    manager.set_level("agent-001", "default", TrustLevel::Suggest, "owner");
    let met = manager.check_level("agent-001", "default", TrustLevel::Monitor);
    assert_eq!(
        met.reason,
        "Agent 'agent-001' has trust level 'Suggest' which meets required 'Monitor'."
    );
    let below = manager.check_level("agent-001", "default", TrustLevel::ActWithApproval);
    assert_eq!(
        below.reason,
        "Agent 'agent-001' has trust level 'Suggest' which is below required 'Act-with-Approval'."
    );
    let missing = manager.check_level("agent-002", "default", TrustLevel::Observer);
    assert!(!missing.permitted);
    assert_eq!(missing.reason, "No trust assignment found for agent 'agent-002' in scope 'default'.");
}

#[test]
fn trust_expired_assignment_counts_as_absent() {
    let mut manager = TrustManager::new(Config::default(), InMemoryStorage::new());
    manager.set_level_with_expiry("agent-001", "default", TrustLevel::Autonomous, "owner", 1_000);
    assert!(manager.get_level_at("agent-001", "default", 1_000).is_some());
    assert!(manager.get_level_at("agent-001", "default", 1_001).is_none());
    // the wall clock is long past 1970 + one second
    assert!(manager.get_level("agent-001", "default").is_none());
    assert!(!manager.check_level("agent-001", "default", TrustLevel::Observer).permitted);
}

#[test]
fn trust_assignment_records_its_time_and_author() {
    let mut manager = TrustManager::new(Config::default(), InMemoryStorage::new());
    manager.set_level("agent-001", "billing", TrustLevel::Monitor, "owner");
    let assignment = manager.get_level("agent-001", "billing").unwrap();
    assert_eq!(assignment.level, TrustLevel::Monitor);
    assert_eq!(assignment.assigned_by, "owner");
    assert_eq!(assignment.scope, "billing");
    assert!(assignment.assigned_at_ms > 0);
    assert_eq!(assignment.expires_at_ms, None);
}

#[test]
fn trust_level_names_and_ranks() {
    assert_eq!(TrustLevel::Observer.display_name(), "Observer");
    assert_eq!(TrustLevel::ActWithApproval.display_name(), "Act-with-Approval");
    assert_eq!(TrustLevel::ActAndReport.display_name(), "Act-and-Report");
    assert_eq!(TrustLevel::Autonomous.display_name(), "Autonomous");
    assert_eq!(TrustLevel::from_u8(3), Some(TrustLevel::ActWithApproval));
    assert_eq!(TrustLevel::from_u8(6), None);
    assert_eq!(TrustLevel::from_u8(99), None);
    for (i, level) in LEVELS.iter().enumerate() {
        assert_eq!(level.rank() as usize, i);
        assert_eq!(TrustLevel::from_u8(i as u8), Some(*level));
    }
}

#[test]
fn envelope_available_is_never_negative() {
    let mut envelope = Envelope {
        category: "financial".into(),
        limit: 1000,
        spent: 250,
        period_ms: 0,
        starts_at_ms: 0,
    };
    assert_eq!(envelope.available(), 750);
    assert!(envelope.can_spend(750));
    assert!(!envelope.can_spend(751));
    envelope.spent = 1200;
    assert_eq!(envelope.available(), 0);
    assert!(!envelope.can_spend(0));
    envelope.spent = u64::MAX;
    assert!(!envelope.can_spend(u64::MAX));
}

#[test]
fn budget_check_then_record_stays_within_limit() {
    let mut manager = BudgetManager::new(Config::default(), InMemoryStorage::new());
    manager.create_envelope("financial", 500, 86_400_000, 0);
    assert!(manager.check("financial", 100).permitted);
    manager.record("financial", 100);
    let result = manager.check("financial", 401);
    assert!(!result.permitted);
    assert_eq!(result.available, 400);
    assert_eq!(
        result.reason,
        "Spend of 401 exceeds envelope 'financial' (available: 400, limit: 500)."
    );
    let result = manager.check("financial", 400);
    assert!(result.permitted);
    manager.record("financial", 400);
    let envelope = manager.get_envelope("financial").unwrap();
    assert_eq!(envelope.spent, 500);
    assert!(envelope.spent <= envelope.limit);
}

#[test]
fn budget_missing_envelope_follows_configuration() {
    let open = BudgetManager::new(Config::default(), InMemoryStorage::new());
    let result = open.check("unknown", 5);
    assert!(result.permitted);
    assert_eq!(result.available, u64::MAX);
    assert_eq!(result.reason, "No envelope configured for 'unknown'; passing (open budget).");

    let strict_config = Config { pass_on_missing_envelope: false, ..Config::default() };
    let mut strict = BudgetManager::new(strict_config, InMemoryStorage::new());
    let result = strict.check("unknown", 5);
    assert!(!result.permitted);
    assert_eq!(result.available, 0);
    strict.record("unknown", 5);
    assert!(strict.get_envelope("unknown").is_none());
}

#[test]
fn budget_record_saturates() {
    let mut manager = BudgetManager::new(Config::default(), InMemoryStorage::new());
    manager.create_envelope("tokens", 10, 0, 0);
    manager.record("tokens", u64::MAX);
    manager.record("tokens", 5);
    assert_eq!(manager.get_envelope("tokens").unwrap().spent, u64::MAX);
    assert_eq!(manager.check("tokens", 0).available, 0);
}

#[test]
fn consent_round_trip() {
    let mut manager = ConsentManager::new(Config::default(), InMemoryStorage::new());
    let result = manager.check("agent-001", "read_pii");
    assert!(!result.permitted);
    assert!(result.reason.contains("No consent"));
    manager.revoke("agent-001", "read_pii");
    assert!(!manager.check("agent-001", "read_pii").permitted);
    manager.record("agent-001", "read_pii");
    manager.record("agent-001", "read_pii");
    let granted = manager.check("agent-001", "read_pii");
    assert!(granted.permitted);
    assert_eq!(granted.reason, "Active consent exists for agent 'agent-001' on action 'read_pii'.");
    manager.revoke("agent-001", "read_pii");
    assert!(!manager.check("agent-001", "read_pii").permitted);
    assert!(!manager.check("agent-001", "other").permitted);
}

#[test]
fn storage_keeps_pairs_apart() {
    let mut store = InMemoryStorage::new();
    store.set_consent("agent-001", "read_pii", true);
    assert!(store.get_consent("agent-001", "read_pii"));
    assert!(!store.get_consent("agent-001", "delete_records"));
    assert!(!store.get_consent("agent-002", "read_pii"));
    store.set_consent("agent-001", "read_pii", false);
    assert!(!store.get_consent("agent-001", "read_pii"));
}

#[test]
fn invoice_permitted_and_debited() {
    let mut engine = invoice_engine();
    let decision = engine.check("send_invoice", &invoice_context(250));
    assert!(decision.permitted);
    assert_eq!(decision.reason, "All governance gates passed.");
    assert_eq!(engine.budget.get_envelope("financial").unwrap().spent, 250);
}

#[test]
fn second_invoice_denied_by_budget() {
    let mut engine = invoice_engine();
    assert!(engine.check("send_invoice", &invoice_context(250)).permitted);
    let decision = engine.check("send_invoice", &invoice_context(800));
    assert!(!decision.permitted);
    assert_eq!(decision.reason, "Budget gate denied.");
    assert!(decision.reason.contains("Budget"));
    assert_eq!(engine.budget.get_envelope("financial").unwrap().spent, 250);
    assert_eq!(decision.budget.available, 750);
    assert_eq!(decision.consent.reason, "Consent gate skipped (no data type specified).");
}

#[test]
fn unknown_agent_resolves_to_observer_and_is_denied() {
    let config = Config { default_observer_on_missing: true, ..Config::default() };
    let mut engine = GovernanceEngine::new(config, InMemoryStorage::new());
    let ctx = Context {
        agent_id: "stranger".into(),
        scope: "finance".into(),
        required_trust: TrustLevel::Autonomous,
        cost: None,
        category: "financial".into(),
        data_type: None,
        purpose: None,
    };
    let decision = engine.check("wire_funds", &ctx);
    assert_eq!(decision.trust.current_level, TrustLevel::Observer);
    assert!(!decision.permitted);
    assert_eq!(decision.reason, "Trust gate denied.");
    assert!(decision.reason.contains("Trust"));
}

#[test]
fn trust_denial_skips_budget_and_consent() {
    let mut engine = invoice_engine();
    let mut ctx = invoice_context(250);
    ctx.required_trust = TrustLevel::Autonomous;
    let decision = engine.check("send_invoice", &ctx);
    assert!(!decision.permitted);
    assert_eq!(engine.budget.get_envelope("financial").unwrap().spent, 0);
    assert_eq!(decision.budget.reason, "Budget gate skipped (no cost specified).");
    assert_eq!(decision.budget.available, u64::MAX);
    assert_eq!(decision.consent.reason, "Consent gate skipped (no data type specified).");
    assert_eq!(engine.query_audit(&AuditFilter::default()).len(), 1);
}

#[test]
fn consent_denial_still_debits_and_audits() {
    let mut engine = invoice_engine();
    engine.consent.revoke("agent-001", "process_pii");
    let decision = engine.check("send_invoice", &invoice_context(250));
    assert!(!decision.permitted);
    assert_eq!(decision.reason, "Consent gate denied.");
    assert_eq!(engine.budget.get_envelope("financial").unwrap().spent, 250);
    assert_eq!(engine.query_audit(&AuditFilter::default()).len(), 1);
}

#[test]
fn zero_cost_and_no_data_type_skip_their_gates() {
    let mut engine = invoice_engine();
    let mut ctx = invoice_context(0);
    ctx.data_type = None;
    let decision = engine.check("read_report", &ctx);
    assert!(decision.permitted);
    assert_eq!(decision.budget.requested, 0);
    assert_eq!(decision.budget.reason, "Budget gate skipped (no cost specified).");
    assert_eq!(engine.budget.get_envelope("financial").unwrap().spent, 0);
}

#[test]
fn every_outcome_writes_one_audit_record() {
    let mut engine = invoice_engine();
    let mut denied_trust = invoice_context(1);
    denied_trust.required_trust = TrustLevel::Autonomous;
    engine.check("a", &denied_trust);
    engine.check("b", &invoice_context(5000));
    engine.check("c", &invoice_context(1));
    let records = engine.query_audit(&AuditFilter::default());
    assert_eq!(records.len(), 3);
    assert_eq!(records[0].decision.reason, "Trust gate denied.");
    assert_eq!(records[1].decision.reason, "Budget gate denied.");
    assert_eq!(records[2].decision.reason, "All governance gates passed.");
}

#[derive(Clone, Default)]
struct CountingSink {
    saves: usize,
    audit_len: usize,
}

impl aumos_governance_core::SnapshotSink for CountingSink {
    fn save(&mut self, store: &InMemoryStorage) {
        self.saves += 1;
        self.audit_len = store.audit_records().len();
    }
}

#[test]
fn flushing_storage_saves_after_every_change() {
    let store = FlushingStorage::new(InMemoryStorage::new(), CountingSink::default());
    let mut engine = GovernanceEngine::new(Config::default(), store);
    engine.trust.set_level("agent-001", "finance", TrustLevel::ActAndReport, "owner");
    assert_eq!(engine.trust.storage().sink().saves, 1);
    let ctx = invoice_context(0);
    let decision = engine.check("read", &Context { data_type: None, ..ctx });
    assert!(decision.permitted);
    assert_eq!(engine.audit.storage().sink().saves, 1);
    assert_eq!(engine.audit.storage().sink().audit_len, 1);
    assert_eq!(engine.audit.storage().store().audit_records().len(), 1);
}

#[test]
fn keyed_table_lists_keys_with_values() {
    let mut table: KeyedTable<u64> = KeyedTable::new();
    table.insert("b", 2);
    table.insert("a", 1);
    table.insert("b", 3);
    assert_eq!(table.keys(), &vec!["b".to_string(), "a".to_string()]);
    assert_eq!(table.values(), &vec![3, 1]);
    assert_eq!(table.get("b"), Some(&3));
    assert_eq!(table.get("c"), None);

    let mut store = InMemoryStorage::new();
    store.set_trust(
        "agent-001",
        "ops",
        aumos_governance_core::TrustAssignment {
            agent_id: "agent-001".into(),
            level: TrustLevel::Monitor,
            scope: "ops".into(),
            assigned_at_ms: 1,
            expires_at_ms: None,
            assigned_by: "owner".into(),
        },
    );
    assert_eq!(store.trust_table().keys(), &vec!["agent-001:ops".to_string()]);
}

fn trust_result(permitted: bool) -> aumos_governance_core::TrustResult {
    aumos_governance_core::TrustResult {
        permitted,
        current_level: TrustLevel::Suggest,
        required_level: TrustLevel::Suggest,
        reason: "r".into(),
    }
}

#[test]
fn pipeline_steps_follow_the_gates() {
    let ctx = invoice_context(250);

    match after_trust("send", &ctx, 7, &trust_result(false)) {
        PipelineStep::Log(d) => {
            assert!(!d.permitted);
            assert_eq!(d.reason, "Trust gate denied.");
            assert_eq!(d.budget.reason, "Budget gate skipped (no cost specified).");
            assert_eq!(d.timestamp_ms, 7);
        }
        _ => panic!("a trust denial is logged at once"),
    }
    assert!(matches!(
        after_trust("send", &ctx, 7, &trust_result(true)),
        PipelineStep::CheckBudget { amount: 250 }
    ));
    let free = Context { cost: Some(0), ..invoice_context(0) };
    assert!(matches!(
        after_trust("send", &free, 7, &trust_result(true)),
        PipelineStep::CheckConsent { .. }
    ));
    let free_plain = Context { data_type: None, ..invoice_context(0) };
    match after_trust("send", &free_plain, 7, &trust_result(true)) {
        PipelineStep::Log(d) => {
            assert!(d.permitted);
            assert_eq!(d.reason, "All governance gates passed.");
        }
        _ => panic!("nothing to check"),
    }

    let denied = aumos_governance_core::BudgetResult {
        permitted: false,
        available: 10,
        requested: 250,
        category: "financial".into(),
        reason: "no".into(),
    };
    match after_budget("send", 7, &trust_result(true), 250, denied) {
        PipelineStep::Log(d) => {
            assert_eq!(d.reason, "Budget gate denied.");
            assert_eq!(d.consent.reason, "Consent gate skipped (no data type specified).");
        }
        _ => panic!("a budget denial is logged at once"),
    }
    let passed = aumos_governance_core::BudgetResult { permitted: true, ..denied_clone() };
    assert!(matches!(
        after_budget("send", 7, &trust_result(true), 250, passed.clone()),
        PipelineStep::Debit { amount: 250, .. }
    ));
    match after_debit("send", &ctx, 7, &trust_result(true), passed.clone()) {
        PipelineStep::CheckConsent { data_type, .. } => assert_eq!(data_type, "process_pii"),
        _ => panic!("consent comes next"),
    }
    let refused = aumos_governance_core::ConsentResult { permitted: false, reason: "no".into() };
    let d = after_consent("send", 7, &trust_result(true), passed, refused);
    assert!(!d.permitted);
    assert_eq!(d.reason, "Consent gate denied.");
}

fn denied_clone() -> aumos_governance_core::BudgetResult {
    aumos_governance_core::BudgetResult {
        permitted: false,
        available: 10,
        requested: 250,
        category: "financial".into(),
        reason: "no".into(),
    }
}

#[test]
fn unfiltered_query_returns_every_record() {
    let mut engine = invoice_engine();
    for i in 0..5u64 {
        engine.check("a", &invoice_context(i));
    }
    let records = engine.query_audit(&AuditFilter::default());
    assert_eq!(records.len(), 5);
    assert_eq!(records[4].prev_hash, records[3].hash);
    assert_eq!(records[4].hash, engine.audit.chain_tip());
}

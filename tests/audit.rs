use aumos_governance_core::audit::{compute_hash, fnv1a_64, genesis_text, u64_to_hex};
use aumos_governance_core::encoding::payload_of;
use aumos_governance_core::text::decimal_text;
use aumos_governance_core::{
    AuditFilter, AuditLogger, BudgetResult, ConsentResult, Decision, InMemoryStorage, TrustLevel,
    TrustResult,
};

fn decision(action: &str, permitted: bool, timestamp_ms: u64) -> Decision {
    Decision {
        permitted,
        action: action.into(),
        timestamp_ms,
        reason: "ok".into(),
        trust: TrustResult {
            permitted: true,
            current_level: TrustLevel::ActAndReport,
            required_level: TrustLevel::Suggest,
            reason: "ok".into(),
        },
        budget: BudgetResult {
            permitted: true,
            available: 400,
            requested: 0,
            category: "default".into(),
            reason: "ok".into(),
        },
        consent: ConsentResult { permitted: true, reason: "ok".into() },
    }
}

#[test]
fn fnv1a_known_values() {
    assert_eq!(fnv1a_64(b""), 0xcbf29ce484222325);
    assert_eq!(fnv1a_64(b"a"), 0xaf63dc4c8601ec8c);
    assert_eq!(fnv1a_64(b"foobar"), 0x85944171f73967e8);
}

#[test]
fn hex_and_decimal_text() {
    assert_eq!(u64_to_hex(0), "0000000000000000");
    assert_eq!(u64_to_hex(0x1234_abcd), "000000001234abcd");
    assert_eq!(u64_to_hex(u64::MAX), "ffffffffffffffff");
    assert_eq!(decimal_text(0), "0");
    assert_eq!(decimal_text(1234), "1234");
    assert_eq!(decimal_text(u64::MAX), "18446744073709551615");
    assert_eq!(genesis_text(), "0".repeat(64));
}

fn push_text(out: &mut Vec<u8>, s: &str) {
    out.extend_from_slice(&(s.len() as u64).to_be_bytes());
    out.extend_from_slice(s.as_bytes());
}

#[test]
fn hash_covers_every_field() {
    let d = decision("send_report", true, 42);
    let prev = "0".repeat(64);
    let mut expected: Vec<u8> = Vec::new();
    push_text(&mut expected, &prev);
    push_text(&mut expected, "send_report");
    expected.push(1);
    expected.extend_from_slice(&42u64.to_be_bytes());
    push_text(&mut expected, "ok");
    expected.push(1);
    expected.push(4);
    expected.push(2);
    push_text(&mut expected, "ok");
    expected.push(1);
    expected.extend_from_slice(&400u64.to_be_bytes());
    expected.extend_from_slice(&0u64.to_be_bytes());
    push_text(&mut expected, "default");
    push_text(&mut expected, "ok");
    expected.push(1);
    push_text(&mut expected, "ok");
    assert_eq!(payload_of(&d, &prev), expected);
    let hex = u64_to_hex(fnv1a_64(&expected));
    assert_eq!(compute_hash(&d, &prev), hex.repeat(4));
}

#[test]
fn audit_chain_links_records() {
    let mut logger = AuditLogger::new(InMemoryStorage::new());
    assert_eq!(logger.chain_tip(), "0".repeat(64));
    for (i, action) in ["one", "two", "three"].iter().enumerate() {
        logger.log(decision(action, i % 2 == 0, i as u64));
    }
    let records = logger.query(&AuditFilter::default());
    assert_eq!(records.len(), 3);
    assert_eq!(records[0].prev_hash, "0".repeat(64));
    for i in 1..records.len() {
        assert_eq!(records[i].prev_hash, records[i - 1].hash);
    }
    for record in &records {
        assert_eq!(compute_hash(&record.decision, &record.prev_hash), record.hash);
        assert_eq!(record.hash.len(), 64);
        assert_eq!(record.id, format!("{}-{}", record.decision.action, &record.hash[..8]));
        assert_eq!(record.timestamp_ms, record.decision.timestamp_ms);
    }
    assert_eq!(logger.chain_tip(), records[2].hash);
}

#[test]
fn audit_tampering_with_hashed_fields_is_detected() {
    let mut logger = AuditLogger::new(InMemoryStorage::new());
    logger.log(decision("send_payment", true, 7));
    let record = logger.query(&AuditFilter::default()).remove(0);

    let mut flipped = record.decision.clone();
    flipped.permitted = false;
    assert_ne!(compute_hash(&flipped, &record.prev_hash), record.hash);

    let mut renamed = record.decision.clone();
    renamed.action = "send_payments".into();
    assert_ne!(compute_hash(&renamed, &record.prev_hash), record.hash);

    let mut moved = record.decision.clone();
    moved.timestamp_ms = 8;
    assert_ne!(compute_hash(&moved, &record.prev_hash), record.hash);

    let mut reworded = record.decision.clone();
    reworded.reason = "All governance gates passed!".into();
    assert_ne!(compute_hash(&reworded, &record.prev_hash), record.hash);

    let mut trust = record.decision.clone();
    trust.trust.current_level = TrustLevel::Autonomous;
    assert_ne!(compute_hash(&trust, &record.prev_hash), record.hash);

    let mut budget = record.decision.clone();
    budget.budget.available = 401;
    assert_ne!(compute_hash(&budget, &record.prev_hash), record.hash);

    let mut consent = record.decision.clone();
    consent.consent.reason = "no".into();
    assert_ne!(compute_hash(&consent, &record.prev_hash), record.hash);

    // moving text between adjacent fields changes the hashed bytes too
    let mut shifted = record.decision.clone();
    shifted.budget.category = "defaultok".into();
    shifted.budget.reason = "".into();
    assert_ne!(compute_hash(&shifted, &record.prev_hash), record.hash);
}

#[test]
fn audit_query_filters_and_limits() {
    let mut logger = AuditLogger::new(InMemoryStorage::new());
    logger.log(decision("read", true, 10));
    logger.log(decision("write", false, 20));
    logger.log(decision("read", false, 30));
    logger.log(decision("read", true, 40));

    let reads = logger.query(&AuditFilter { action: Some("read".into()), ..AuditFilter::default() });
    assert_eq!(reads.len(), 3);

    let window = logger.query(&AuditFilter {
        since_ms: Some(20),
        until_ms: Some(30),
        ..AuditFilter::default()
    });
    assert_eq!(window.len(), 2);
    assert_eq!(window[0].timestamp_ms, 20);
    assert_eq!(window[1].timestamp_ms, 30);

    let first_two = logger.query(&AuditFilter {
        action: Some("read".into()),
        limit: Some(2),
        ..AuditFilter::default()
    });
    assert_eq!(first_two.len(), 2);
    assert_eq!(first_two[0].timestamp_ms, 10);
    assert_eq!(first_two[1].timestamp_ms, 30);

    let by_prefix = logger.query(&AuditFilter { agent_id: Some("wri".into()), ..AuditFilter::default() });
    assert_eq!(by_prefix.len(), 1);
    assert_eq!(by_prefix[0].decision.action, "write");

    let none = logger.query(&AuditFilter { limit: Some(0), ..AuditFilter::default() });
    assert!(none.is_empty());
}

#[test]
fn logger_over_existing_records_starts_a_new_chain() {
    let mut first = AuditLogger::new(InMemoryStorage::new());
    first.log(decision("one", true, 1));
    let store = first.storage().clone();
    let mut second = AuditLogger::new(store);
    assert_eq!(second.chain_tip(), "0".repeat(64));
    second.log(decision("two", true, 2));
    let records = second.query(&AuditFilter::default());
    assert_eq!(records.len(), 2);
    assert_eq!(records[1].prev_hash, "0".repeat(64));
}

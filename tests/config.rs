use aumos_governance_core::config_loader::{check_trust_threshold, default_trust_threshold, parse_flag};
use aumos_governance_core::{AuditLevel, Config, ConfigError};

#[test]
fn default_engine_config() {
    let config = Config::default();
    assert!(!config.require_consent);
    assert!(!config.default_observer_on_missing);
    assert!(config.pass_on_missing_envelope);
}

#[test]
fn audit_level_names_in_any_case() {
    assert_eq!(AuditLevel::from_str_case_insensitive("MINIMAL").unwrap(), AuditLevel::Minimal);
    assert_eq!(AuditLevel::from_str_case_insensitive("Standard").unwrap(), AuditLevel::Standard);
    assert_eq!(AuditLevel::from_str_case_insensitive("detailed").unwrap(), AuditLevel::Detailed);
    assert_eq!(AuditLevel::default(), AuditLevel::Standard);
    assert_eq!(AuditLevel::Detailed.as_str(), "detailed");
    match AuditLevel::from_str_case_insensitive("Verbose") {
        Err(ConfigError::ParseField { field, value, reason }) => {
            assert_eq!(field, "audit_level");
            assert_eq!(value, "verbose");
            assert_eq!(reason, "expected one of: minimal, standard, detailed");
        }
        other => panic!("expected a parse error, got {:?}", other),
    }
}

#[test]
fn flag_words() {
    assert!(parse_flag("K", " Yes ").unwrap());
    assert!(parse_flag("K", "ON").unwrap());
    assert!(parse_flag("K", "1").unwrap());
    assert!(!parse_flag("K", "\tfalse\n").unwrap());
    assert!(!parse_flag("K", "off").unwrap());
    match parse_flag("AUMOS_CONSENT_REQUIRED", " Maybe ") {
        Err(ConfigError::ParseField { field, value, .. }) => {
            assert_eq!(field, "AUMOS_CONSENT_REQUIRED");
            assert_eq!(value, "maybe");
        }
        other => panic!("expected a parse error, got {:?}", other),
    }
}

#[test]
fn trust_threshold_range() {
    assert_eq!(default_trust_threshold(), 2);
    assert_eq!(check_trust_threshold("AUMOS_TRUST_THRESHOLD", 5).unwrap(), 5);
    match check_trust_threshold("AUMOS_TRUST_THRESHOLD", 6) {
        Err(ConfigError::InvalidRange { field, value, .. }) => {
            assert_eq!(field, "AUMOS_TRUST_THRESHOLD");
            assert_eq!(value, "6");
        }
        other => panic!("expected a range error, got {:?}", other),
    }
}

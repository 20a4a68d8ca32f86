use cargo_preflight::config::{PreflightConfig, PreflightConfigWrapper};
use cargo_preflight::fix::{autofix, FixKind};
use cargo_preflight::error::PreflightError;

#[test]
fn stock_profile_formats_and_tests_on_push() {
    let cfg = PreflightConfig::default();
    assert_eq!(cfg.run_when, vec!["push".to_string()]);
    assert!(cfg.branches.is_empty());
    assert_eq!(cfg.checks, vec!["fmt".to_string(), "test".to_string()]);
    assert!(cfg.autofix);
    assert!(!cfg.over_ride);
}

#[test]
fn stock_config_holds_one_stock_profile() {
    let w = PreflightConfigWrapper::default();
    assert_eq!(w.preflight.len(), 1);
    assert_eq!(w.preflight[0].checks, vec!["fmt".to_string(), "test".to_string()]);
}

#[test]
fn only_fmt_and_clippy_have_fixers() {
    match autofix(&"fmt".to_string()) {
        Ok(kind) => assert_eq!(kind, FixKind::Fmt),
        _ => panic!("expected the formatting fixer"),
    }
    match autofix(&"clippy".to_string()) {
        Ok(kind) => assert_eq!(kind, FixKind::Clippy),
        _ => panic!("expected the lint fixer"),
    }
    match autofix(&"test".to_string()) {
        Err(PreflightError::InvalidCheck { config }) => assert_eq!(config, "test"),
        _ => panic!("expected an invalid-check failure"),
    }
    match autofix(&"secrets".to_string()) {
        Err(PreflightError::InvalidCheck { config }) => assert_eq!(config, "secrets"),
        _ => panic!("expected an invalid-check failure"),
    }
}

use cargo_preflight::checks::{parse_check, run_checks, CheckId, CheckOutcome};
use cargo_preflight::error::PreflightError;

fn names(list: &[&str]) -> Vec<String> {
    list.iter().map(|s| s.to_string()).collect()
}

fn passed(n: usize) -> Vec<CheckOutcome> {
    (0..n).map(|_| CheckOutcome::Passed).collect()
}

#[test]
fn every_vocabulary_name_parses() {
    assert_eq!(parse_check(&"fmt".to_string()), Some(CheckId::Fmt));
    assert_eq!(parse_check(&"clippy".to_string()), Some(CheckId::Clippy));
    assert_eq!(parse_check(&"test".to_string()), Some(CheckId::Test));
    assert_eq!(
        parse_check(&"check_tests".to_string()),
        Some(CheckId::CheckTests)
    );
    assert_eq!(
        parse_check(&"check_examples".to_string()),
        Some(CheckId::CheckExamples)
    );
    assert_eq!(
        parse_check(&"check_benches".to_string()),
        Some(CheckId::CheckBenches)
    );
    assert_eq!(
        parse_check(&"unused_deps".to_string()),
        Some(CheckId::UnusedDeps)
    );
    assert_eq!(parse_check(&"secrets".to_string()), Some(CheckId::Secrets));
}

#[test]
fn names_outside_the_vocabulary_do_not_parse() {
    assert_eq!(parse_check(&"Fmt".to_string()), None);
    assert_eq!(parse_check(&"format".to_string()), None);
    assert_eq!(parse_check(&"".to_string()), None);
}

#[test]
fn all_passing_checks_run_to_the_end() {
    let checks = names(&["fmt", "test"]);
    let (outcome, reached) = run_checks(&checks, &passed(2), 0);
    assert!(matches!(outcome, CheckOutcome::Passed));
    assert_eq!(reached, 2);
}

#[test]
fn run_stops_at_the_first_failure() {
    // fmt fails: test's outcome is immaterial, execution stops at 0.
    let checks = names(&["fmt", "test"]);
    let outcomes = vec![
        CheckOutcome::Failed {
            error: PreflightError::FormatFailed {
                fmt_output: "diff".to_string(),
            },
        },
        CheckOutcome::Passed,
    ];
    let (outcome, reached) = run_checks(&checks, &outcomes, 0);
    assert_eq!(reached, 0);
    match outcome {
        CheckOutcome::Failed {
            error: PreflightError::FormatFailed { fmt_output },
        } => assert_eq!(fmt_output, "diff"),
        _ => panic!("expected the formatting failure"),
    }
}

#[test]
fn run_from_a_start_index_never_consults_earlier_checks() {
    // The check before the start index failed; starting at 1 ignores it.
    let checks = names(&["fmt", "test"]);
    let outcomes = vec![
        CheckOutcome::Failed {
            error: PreflightError::FormatFailed {
                fmt_output: String::new(),
            },
        },
        CheckOutcome::Passed,
    ];
    let (outcome, reached) = run_checks(&checks, &outcomes, 1);
    assert!(matches!(outcome, CheckOutcome::Passed));
    assert_eq!(reached, 2);
}

#[test]
fn unknown_name_fails_by_itself_without_a_tool_outcome() {
    let checks = names(&["fmt", "bogus", "test"]);
    // Whatever the tools would have said, the unknown name stops the run.
    let (outcome, reached) = run_checks(&checks, &passed(3), 0);
    assert_eq!(reached, 1);
    match outcome {
        CheckOutcome::Failed {
            error: PreflightError::InvalidCheck { config },
        } => assert_eq!(config, "bogus"),
        _ => panic!("expected an invalid-check failure"),
    }
}

#[test]
fn empty_check_list_passes_immediately() {
    let checks: Vec<String> = Vec::new();
    let outcomes: Vec<CheckOutcome> = Vec::new();
    let (outcome, reached) = run_checks(&checks, &outcomes, 0);
    assert!(matches!(outcome, CheckOutcome::Passed));
    assert_eq!(reached, 0);
}

#[test]
fn starting_at_the_end_passes_immediately() {
    let checks = names(&["fmt"]);
    let outcomes = vec![CheckOutcome::Failed {
        error: PreflightError::FormatFailed {
            fmt_output: String::new(),
        },
    }];
    let (outcome, reached) = run_checks(&checks, &outcomes, 1);
    assert!(matches!(outcome, CheckOutcome::Passed));
    assert_eq!(reached, 1);
}

#[test]
fn cloned_outcome_keeps_its_error() {
    let outcome = CheckOutcome::Failed {
        error: PreflightError::ShearFailed {
            shear_output: "unused: serde".to_string(),
        },
    };
    match outcome.clone() {
        CheckOutcome::Failed {
            error: PreflightError::ShearFailed { shear_output },
        } => assert_eq!(shear_output, "unused: serde"),
        _ => panic!("clone changed the outcome"),
    }
}

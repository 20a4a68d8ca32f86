use cargo_preflight::error::{failed_check_index, PreflightError};

fn names(list: &[&str]) -> Vec<String> {
    list.iter().map(|s| s.to_string()).collect()
}

#[test]
fn failure_locates_its_check_not_position_zero() {
    // checks ["test", "fmt"] and a failure mapping to "fmt": index 1,
    // not 0.
    let checks = names(&["test", "fmt"]);
    let error = PreflightError::FormatFailed {
        fmt_output: String::new(),
    };
    assert_eq!(failed_check_index(&checks, &error), Some(1));
}

#[test]
fn each_failure_kind_locates_its_canonical_check() {
    let checks = names(&[
        "fmt",
        "clippy",
        "check_tests",
        "check_examples",
        "check_benches",
        "test",
        "unused_deps",
        "secrets",
    ]);
    let empty = String::new;
    assert_eq!(
        failed_check_index(
            &checks,
            &PreflightError::FormatFailed { fmt_output: empty() }
        ),
        Some(0)
    );
    assert_eq!(
        failed_check_index(
            &checks,
            &PreflightError::ClippyFailed {
                clippy_output: empty()
            }
        ),
        Some(1)
    );
    assert_eq!(
        failed_check_index(
            &checks,
            &PreflightError::CheckTestsFailed {
                check_outputs: empty()
            }
        ),
        Some(2)
    );
    assert_eq!(
        failed_check_index(
            &checks,
            &PreflightError::CheckExamplesFailed {
                check_outputs: empty()
            }
        ),
        Some(3)
    );
    assert_eq!(
        failed_check_index(
            &checks,
            &PreflightError::CheckBenchesFailed {
                check_outputs: empty()
            }
        ),
        Some(4)
    );
    assert_eq!(
        failed_check_index(
            &checks,
            &PreflightError::TestsFailed {
                test_outputs: empty()
            }
        ),
        Some(5)
    );
    assert_eq!(
        failed_check_index(
            &checks,
            &PreflightError::ShearFailed {
                shear_output: empty()
            }
        ),
        Some(6)
    );
    assert_eq!(
        failed_check_index(
            &checks,
            &PreflightError::SecretsFailed {
                ripsecrets_output: empty()
            }
        ),
        Some(7)
    );
}

#[test]
fn invalid_check_locates_by_its_own_literal() {
    let checks = names(&["fmt", "bogus", "test"]);
    let error = PreflightError::InvalidCheck {
        config: "bogus".to_string(),
    };
    assert_eq!(failed_check_index(&checks, &error), Some(1));
}

#[test]
fn duplicate_names_locate_at_the_first_occurrence() {
    let checks = names(&["fmt", "test", "fmt"]);
    let error = PreflightError::FormatFailed {
        fmt_output: String::new(),
    };
    assert_eq!(failed_check_index(&checks, &error), Some(0));
}

#[test]
fn failure_outside_the_configured_checks_locates_nowhere() {
    let checks = names(&["fmt", "test"]);
    let error = PreflightError::ClippyFailed {
        clippy_output: String::new(),
    };
    assert_eq!(failed_check_index(&checks, &error), None);
}

#[test]
fn invalid_hook_locates_nowhere_among_checks() {
    let checks = names(&["fmt", "test"]);
    let error = PreflightError::InvalidHook {
        config: "merge".to_string(),
    };
    assert_eq!(failed_check_index(&checks, &error), None);
}

#[test]
fn cloned_error_keeps_its_variant_and_output() {
    let error = PreflightError::CheckExamplesFailed {
        check_outputs: "example broke".to_string(),
    };
    match error.clone() {
        PreflightError::CheckExamplesFailed { check_outputs } => {
            assert_eq!(check_outputs, "example broke")
        }
        _ => panic!("clone changed the variant"),
    }
}

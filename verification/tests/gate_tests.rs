use cargo_preflight::git::{branch_applies, check_branch_rules};

fn names(list: &[&str]) -> Vec<String> {
    list.iter().map(|s| s.to_string()).collect()
}

#[test]
fn empty_branch_scope_applies_on_any_branch() {
    let branches: Vec<String> = Vec::new();
    assert!(branch_applies(&branches, &Some("main".to_string())));
    assert!(branch_applies(&branches, &Some("feature".to_string())));
    assert!(branch_applies(&branches, &None));
}

#[test]
fn listed_branch_applies_and_unlisted_does_not() {
    let branches = names(&["main", "release"]);
    assert!(branch_applies(&branches, &Some("main".to_string())));
    assert!(branch_applies(&branches, &Some("release".to_string())));
    assert!(!branch_applies(&branches, &Some("feature".to_string())));
    assert!(!branch_applies(&branches, &Some("mai".to_string())));
}

#[test]
fn unresolved_branch_fails_open_whatever_the_scope() {
    assert!(branch_applies(&names(&["main"]), &None));
    assert!(branch_applies(&names(&["main", "dev"]), &None));
}

#[test]
fn empty_scope_needs_no_branch_lookup() {
    // An empty scope applies without consulting the repository at all,
    // wherever the tests happen to run.
    let branches: Vec<String> = Vec::new();
    assert!(check_branch_rules(&branches));
}

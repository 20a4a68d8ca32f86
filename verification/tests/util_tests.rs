use cargo_preflight::util::{contains_string, display_checks, display_vecs};

fn names(list: &[&str]) -> Vec<String> {
    list.iter().map(|s| s.to_string()).collect()
}

#[test]
fn dashed_list_renders_one_line_per_item() {
    let v = names(&["commit", "push"]);
    assert_eq!(display_vecs(&v), "- commit\n- push");
}

#[test]
fn dashed_list_of_one_item_has_no_newline() {
    let v = names(&["push"]);
    assert_eq!(display_vecs(&v), "- push");
}

#[test]
fn dashed_list_of_nothing_is_empty() {
    let v: Vec<String> = Vec::new();
    assert_eq!(display_vecs(&v), "");
}

#[test]
fn checklist_renders_unticked_boxes() {
    let v = names(&["fmt", "clippy", "test"]);
    assert_eq!(display_checks(&v), "[ ] fmt\n[ ] clippy\n[ ] test");
}

#[test]
fn checklist_of_nothing_is_empty() {
    let v: Vec<String> = Vec::new();
    assert_eq!(display_checks(&v), "");
}

#[test]
fn membership_is_exact() {
    let v = names(&["main", "dev"]);
    assert!(contains_string(&v, &"main".to_string()));
    assert!(contains_string(&v, &"dev".to_string()));
    assert!(!contains_string(&v, &"m".to_string()));
    assert!(!contains_string(&v, &"maine".to_string()));
    assert!(!contains_string(&v, &String::new()));
}

use rbazel::repo::{branch_label, sanitize_branch_label, trim_output};

#[test]
fn trim_removes_surrounding_whitespace() {
    assert_eq!(trim_output("  hi \n"), "hi");
    assert_eq!(trim_output("deadbeef\n"), "deadbeef");
    assert_eq!(trim_output("a"), "a");
    assert_eq!(trim_output(""), "");
    assert_eq!(trim_output(" \t\r\n"), "");
    assert_eq!(trim_output("a b\n"), "a b");
}

#[test]
fn detached_head_label_synthesis() {
    assert_eq!(branch_label("HEAD", "abc1234"), "detached-abc1234");
    // and its filesystem-safe form replaces no characters
    assert_eq!(sanitize_branch_label("detached-abc1234"), "detached-abc1234");
}

#[test]
fn named_branch_label_passes_through() {
    assert_eq!(branch_label("main", "abc1234"), "main");
}

#[test]
fn branch_label_sanitization() {
    assert_eq!(sanitize_branch_label("feature/foo bar"), "feature__foo__bar");
    assert_eq!(sanitize_branch_label("main"), "main");
    assert_eq!(sanitize_branch_label("a/b/c"), "a__b__c");
    assert_eq!(sanitize_branch_label(""), "");
}

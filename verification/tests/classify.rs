use rbazel::args::{classify_args, is_target_pattern};

#[test]
fn classify_splits_targets_and_options_in_order() {
    let args: Vec<String> = vec![
        "--config=x".to_string(),
        "//a:b".to_string(),
        ":c".to_string(),
        "@ext//y:z".to_string(),
        "-k".to_string(),
    ];
    let (targets, opts) = classify_args(&args);
    assert_eq!(targets, vec!["//a:b".to_string(), ":c".to_string(), "@ext//y:z".to_string()]);
    assert_eq!(opts, vec!["--config=x".to_string(), "-k".to_string()]);
}

#[test]
fn classify_keeps_duplicates_and_empty_sets() {
    let args: Vec<String> = vec!["//a".to_string(), "//a".to_string()];
    let (targets, opts) = classify_args(&args);
    assert_eq!(targets, vec!["//a".to_string(), "//a".to_string()]);
    assert!(opts.is_empty());

    let none: Vec<String> = Vec::new();
    let (targets, opts) = classify_args(&none);
    assert!(targets.is_empty());
    assert!(opts.is_empty());
}

#[test]
fn target_pattern_rule() {
    assert!(is_target_pattern("//a:b"));
    assert!(is_target_pattern("//"));
    assert!(is_target_pattern(":c"));
    assert!(is_target_pattern("@ext//y:z"));
    assert!(!is_target_pattern("@ext"));
    assert!(!is_target_pattern("--config=foo"));
    assert!(!is_target_pattern("-k"));
    assert!(!is_target_pattern("build"));
    assert!(!is_target_pattern(""));
    assert!(!is_target_pattern("a//b"));
}

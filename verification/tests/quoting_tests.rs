use rbazel::quoting::shell_join_quoted;

#[test]
fn join_quotes_each_token() {
    let args = vec!["a".to_string(), "b".to_string()];
    assert_eq!(shell_join_quoted(&args), "'a' 'b'");
}

#[test]
fn join_of_nothing_is_empty() {
    let args: Vec<String> = Vec::new();
    assert_eq!(shell_join_quoted(&args), "");
}

#[test]
fn empty_token_stays_a_token() {
    let args = vec!["".to_string()];
    assert_eq!(shell_join_quoted(&args), "''");
}

#[test]
fn spaces_survive_inside_quotes() {
    let args = vec!["a b".to_string(), "-k".to_string()];
    assert_eq!(shell_join_quoted(&args), "'a b' '-k'");
}

#[test]
fn single_quotes_are_escaped() {
    // A quote closes the region, stands escaped, and reopens it, so the
    // remote shell reads back exactly c'd.
    let args = vec!["c'd".to_string()];
    assert_eq!(shell_join_quoted(&args), "'c'\\''d'");
}

#[test]
fn metacharacters_are_inert_inside_quotes() {
    let args = vec!["$HOME;rm -rf *".to_string(), "a\"b".to_string()];
    assert_eq!(shell_join_quoted(&args), "'$HOME;rm -rf *' 'a\"b'");
}

use minishell::redirect::split_stdout_redirection;

fn split(ts: &[&str]) -> (Vec<String>, Option<String>) {
    let owned: Vec<String> = ts.iter().map(|t| t.to_string()).collect();
    split_stdout_redirection(&owned)
}

#[test]
fn last_redirection_wins() {
    let (argv, target) = split(&["echo", "hi", ">", "a", ">", "b"]);
    assert_eq!(argv, vec!["echo", "hi"]);
    assert_eq!(target, Some("b".to_string()));
}

#[test]
fn dangling_operator_is_an_argument() {
    let (argv, target) = split(&["echo", ">"]);
    assert_eq!(argv, vec!["echo", ">"]);
    assert_eq!(target, None);
}

#[test]
fn dangling_folded_operator_is_an_argument() {
    let (argv, target) = split(&["echo", "1>"]);
    assert_eq!(argv, vec!["echo", "1>"]);
    assert_eq!(target, None);
}

#[test]
fn folded_operator_redirects() {
    let (argv, target) = split(&["echo", "hi", "1>", "out", "there"]);
    assert_eq!(argv, vec!["echo", "hi", "there"]);
    assert_eq!(target, Some("out".to_string()));
}

#[test]
fn decomposed_operator_redirects() {
    let (argv, target) = split(&["echo", "1", ">", "out"]);
    assert_eq!(argv, vec!["echo"]);
    assert_eq!(target, Some("out".to_string()));
}

#[test]
fn decomposed_operator_dangling() {
    let (argv, target) = split(&["echo", "1", ">"]);
    assert_eq!(argv, vec!["echo", "1", ">"]);
    assert_eq!(target, None);
}

#[test]
fn no_operator_passes_through() {
    let (argv, target) = split(&["ls", "-l", "1", "x"]);
    assert_eq!(argv, vec!["ls", "-l", "1", "x"]);
    assert_eq!(target, None);
}

#[test]
fn empty_tokens() {
    let (argv, target) = split(&[]);
    assert!(argv.is_empty());
    assert_eq!(target, None);
}

use minishell::resolver::{candidate, first_runnable, is_runnable, search_candidates, search_dirs};

#[test]
fn path_entries_in_order() {
    assert_eq!(search_dirs("/bin:/usr/bin"), vec!["/bin", "/usr/bin"]);
    assert_eq!(search_dirs("/bin"), vec!["/bin"]);
    assert_eq!(search_dirs(""), vec![""]);
    assert_eq!(search_dirs("a::b:"), vec!["a", "", "b", ""]);
}

#[test]
fn candidate_files() {
    assert_eq!(candidate("/usr/bin", "ls"), "/usr/bin/ls");
    assert_eq!(candidate("/usr/bin/", "ls"), "/usr/bin/ls");
    assert_eq!(candidate("", "ls"), "ls");
    assert_eq!(candidate("/usr/bin", "/bin/ls"), "/bin/ls");
    assert_eq!(candidate("bin", "sub/ls"), "bin/sub/ls");
}

#[test]
fn candidates_for_search_path() {
    assert_eq!(
        search_candidates("/bin:/usr/local/bin/:", "ls"),
        vec!["/bin/ls", "/usr/local/bin/ls", "ls"]
    );
}

#[test]
fn execute_bits() {
    assert!(!is_runnable(true, Some(0o644)));
    assert!(is_runnable(true, Some(0o755)));
    assert!(is_runnable(true, Some(0o100)));
    assert!(is_runnable(true, Some(0o010)));
    assert!(is_runnable(true, Some(0o001)));
    assert!(!is_runnable(true, Some(0o100666)));
    assert!(!is_runnable(false, Some(0o755)));
    assert!(is_runnable(true, None));
    assert!(!is_runnable(false, None));
}

#[test]
fn first_match_wins() {
    let cs: Vec<String> = vec!["/a/ls".to_string(), "/b/ls".to_string(), "/c/ls".to_string()];
    assert_eq!(first_runnable(&cs, &[false, true, true]), Some("/b/ls".to_string()));
    assert_eq!(first_runnable(&cs, &[true, true, true]), Some("/a/ls".to_string()));
    assert_eq!(first_runnable(&cs, &[false, false, false]), None);
    assert_eq!(first_runnable(&[], &[]), None);
}

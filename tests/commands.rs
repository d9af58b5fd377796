use minishell::builtins::{
    builtin_of, builtin_report, cd_failure_message, echo_text, external_report,
    not_found_message, Builtin,
};
use minishell::dispatch::{builtin_action, expand_home, parse_line, resolve_command, Action, Resolved};
use minishell::text::same_text;

fn strings(ts: &[&str]) -> Vec<String> {
    ts.iter().map(|t| t.to_string()).collect()
}

#[test]
fn builtin_names() {
    assert_eq!(builtin_of("exit"), Some(Builtin::Exit));
    assert_eq!(builtin_of("echo"), Some(Builtin::Echo));
    assert_eq!(builtin_of("pwd"), Some(Builtin::Pwd));
    assert_eq!(builtin_of("cd"), Some(Builtin::Cd));
    assert_eq!(builtin_of("type"), Some(Builtin::Type));
    assert_eq!(builtin_of("ls"), None);
    assert_eq!(builtin_of("Echo"), None);
    assert_eq!(builtin_of(""), None);
}

#[test]
fn builtin_wins_over_search_path() {
    match resolve_command("echo", Some("/usr/bin/echo".to_string())) {
        Resolved::Builtin(b) => assert_eq!(b, Builtin::Echo),
        _ => panic!("echo must run as a builtin"),
    }
    let line = parse_line("echo hi").unwrap();
    match builtin_action(Builtin::Echo, &line.argv) {
        Action::Print(s) => assert_eq!(s, "hi"),
        _ => panic!("echo prints"),
    }
}

#[test]
fn external_and_missing_commands() {
    match resolve_command("ls", Some("/usr/bin/ls".to_string())) {
        Resolved::External(p) => assert_eq!(p, "/usr/bin/ls"),
        _ => panic!("ls is external"),
    }
    match resolve_command("nonexistent-cmd", None) {
        Resolved::NotFound(n) => {
            assert_eq!(n, "nonexistent-cmd");
            assert_eq!(not_found_message(&n), "nonexistent-cmd: command not found");
        }
        _ => panic!("not found"),
    }
}

#[test]
fn type_reports() {
    let argv = strings(&["type", "ls"]);
    match builtin_action(Builtin::Type, &argv) {
        Action::Describe(n) => {
            assert_eq!(n, "ls");
            assert_eq!(external_report(&n, Some("/usr/bin/ls".to_string())), "ls is /usr/bin/ls");
            assert_eq!(external_report(&n, None), "ls: not found");
        }
        _ => panic!("type of an external name searches it"),
    }
    match builtin_action(Builtin::Type, &strings(&["type", "cd"])) {
        Action::Print(s) => assert_eq!(s, "cd is a shell builtin"),
        _ => panic!("type of a builtin prints"),
    }
    match builtin_action(Builtin::Type, &strings(&["type"])) {
        Action::Print(s) => assert_eq!(s, "type: not found"),
        _ => panic!("type without a name prints"),
    }
    assert_eq!(builtin_report("exit"), "exit is a shell builtin");
}

#[test]
fn echo_joins_arguments() {
    assert_eq!(echo_text(&strings(&["echo", "a", "b  c", "d"])), "a b  c d");
    assert_eq!(echo_text(&strings(&["echo"])), "");
    assert_eq!(echo_text(&strings(&["echo", ""])), "");
    assert_eq!(echo_text(&strings(&["echo", "", "x"])), " x");
    assert_eq!(echo_text(&[]), "");
}

#[test]
fn other_builtin_actions() {
    assert!(matches!(builtin_action(Builtin::Exit, &strings(&["exit", "3"])), Action::Exit));
    assert!(matches!(builtin_action(Builtin::Pwd, &strings(&["pwd"])), Action::PrintWorkingDir));
    assert!(matches!(builtin_action(Builtin::Cd, &strings(&["cd"])), Action::Stay));
    match builtin_action(Builtin::Cd, &strings(&["cd", "/tmp"])) {
        Action::ChangeDir(t) => assert_eq!(t, "/tmp"),
        _ => panic!("cd with a target changes directory"),
    }
}

#[test]
fn cd_target_expansion() {
    assert_eq!(expand_home("/tmp", None), Some("/tmp".to_string()));
    assert_eq!(expand_home("~", Some("/home/u".to_string())), Some("/home/u".to_string()));
    assert_eq!(expand_home("~/src", Some("/home/u".to_string())), Some("/home/u/src".to_string()));
    assert_eq!(expand_home("~", None), None);
    assert_eq!(expand_home("~/src", None), None);
    assert_eq!(expand_home("~u", Some("/home/u".to_string())), Some("~u".to_string()));
    assert_eq!(expand_home("", None), Some("".to_string()));
    assert_eq!(cd_failure_message("/nope"), "cd: /nope: No such file or directory");
}

#[test]
fn parse_redirected_echo() {
    let c = parse_line("echo hello > /tmp/out.txt\n").unwrap();
    assert_eq!(c.argv, vec!["echo", "hello"]);
    assert_eq!(c.redirect, Some("/tmp/out.txt".to_string()));
    assert_eq!(echo_text(&c.argv), "hello");
}

#[test]
fn parse_cd_then_pwd() {
    let c = parse_line("cd /tmp").unwrap();
    assert_eq!(c.argv, vec!["cd", "/tmp"]);
    assert_eq!(c.redirect, None);
    let p = parse_line("pwd\r\n").unwrap();
    assert_eq!(p.argv, vec!["pwd"]);
}

#[test]
fn parse_blank_lines() {
    assert!(parse_line("").is_none());
    assert!(parse_line("   \n").is_none());
    assert!(parse_line("> out").is_none());
}

#[test]
fn parse_keeps_line_end_out_of_quotes() {
    let c = parse_line("echo 'abc\n").unwrap();
    assert_eq!(c.argv, vec!["echo", "abc"]);
}

#[test]
fn text_comparison() {
    assert!(same_text("abc", "abc"));
    assert!(!same_text("abc", "abd"));
    assert!(!same_text("abc", "ab"));
    assert!(same_text("", ""));
}

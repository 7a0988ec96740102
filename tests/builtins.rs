use shell_core::{
    builtin_names, cd_target, completion_matches, echo_output, exit_code, history_output, is_builtin,
    lookup_builtin, parse_i32, type_output, Builtin, Found, Need, Session,
};

fn words(v: &[&str]) -> Vec<String> {
    v.iter().map(|s| s.to_string()).collect()
}

#[test]
fn registry() {
    assert_eq!(lookup_builtin("echo"), Some(Builtin::Echo));
    assert_eq!(lookup_builtin("exit"), Some(Builtin::Exit));
    assert_eq!(lookup_builtin("type"), Some(Builtin::Type));
    assert_eq!(lookup_builtin("pwd"), Some(Builtin::Pwd));
    assert_eq!(lookup_builtin("cd"), Some(Builtin::Cd));
    assert_eq!(lookup_builtin("history"), Some(Builtin::History));
    assert_eq!(lookup_builtin("cat"), None);
    assert_eq!(lookup_builtin("echoo"), None);
    assert!(is_builtin("pwd"));
    assert!(!is_builtin(""));
    let names = builtin_names();
    assert_eq!(names.len(), 6);
    assert!(names.iter().all(|n| is_builtin(n)));
}

#[test]
fn echo_joins_with_spaces() {
    assert_eq!(echo_output(&words(&["hi"])), "hi\n");
    assert_eq!(echo_output(&words(&["a b", "c"])), "a b c\n");
    assert_eq!(echo_output(&words(&[])), "\n");
}

#[test]
fn type_descriptions() {
    assert_eq!(type_output("echo", None), "echo is a shell builtin\n");
    assert_eq!(type_output("ls", Some("/bin/ls".to_string())), "ls is /bin/ls\n");
    assert_eq!(type_output("nope", None), "nope: not found\n");
}

#[test]
fn integers_read_like_i32() {
    assert_eq!(parse_i32("7"), Some(7));
    assert_eq!(parse_i32("-3"), Some(-3));
    assert_eq!(parse_i32("+5"), Some(5));
    assert_eq!(parse_i32("2147483647"), Some(2147483647));
    assert_eq!(parse_i32("-2147483648"), Some(-2147483648));
    assert_eq!(parse_i32("2147483648"), None);
    assert_eq!(parse_i32("99999999999999999999"), None);
    assert_eq!(parse_i32(""), None);
    assert_eq!(parse_i32("-"), None);
    assert_eq!(parse_i32("1a"), None);
    assert_eq!(parse_i32(" 1"), None);
}

#[test]
fn exit_codes() {
    assert_eq!(exit_code(&words(&["7"])), 7);
    assert_eq!(exit_code(&words(&[])), 0);
    assert_eq!(exit_code(&words(&["abc"])), 0);
    assert_eq!(exit_code(&words(&["3", "4"])), 3);
}

#[test]
fn history_lists_and_limits() {
    let log = words(&["echo a", "pwd", "history 2"]);
    assert_eq!(
        history_output(&log, &words(&[])),
        "    1  echo a\n    2  pwd\n    3  history 2\n"
    );
    assert_eq!(history_output(&log, &words(&["2"])), "    2  pwd\n    3  history 2\n");
    assert_eq!(history_output(&log, &words(&["9"])), history_output(&log, &words(&[])));
    assert_eq!(history_output(&log, &words(&["0"])), "");
    assert_eq!(history_output(&log, &words(&["x"])), history_output(&log, &words(&[])));
}

#[test]
fn history_numbers_past_five_digits() {
    let log: Vec<String> = (0..100000).map(|i| format!("c{}", i)).collect();
    assert_eq!(history_output(&log, &words(&["1"])), "100000  c99999\n");
    assert_eq!(history_output(&log, &words(&["2"])), "99999  c99998\n100000  c99999\n");
}

#[test]
fn cd_targets() {
    let home = Some("/home/u".to_string());
    assert_eq!(cd_target("/x", &words(&["~"]), home.clone()), "/home/u");
    assert_eq!(cd_target("/x", &words(&["~/d"]), home.clone()), "/home/u/d");
    assert_eq!(cd_target("/x", &words(&[]), home.clone()), "/home/u");
    assert_eq!(cd_target("/x", &words(&["sub"]), home.clone()), "/x/sub");
    assert_eq!(cd_target("/x", &words(&["/abs"]), home.clone()), "/abs");
    assert_eq!(cd_target("/x", &words(&["~u"]), home.clone()), "/x/~u");
    assert_eq!(cd_target("/x", &words(&["~"]), None), "/x/~");
}

#[test]
fn session_builtins() {
    let mut s = Session::new("/start".to_string());
    s.record("pwd".to_string());
    assert_eq!(s.run_builtin(Builtin::Pwd, &words(&[]), Found::Nothing), "/start\n");

    let need = s.builtin_need(Builtin::Cd, &words(&["d"]), None);
    assert!(matches!(need, Need::Directory(ref d) if d == "/start/d"));
    let out = s.run_builtin(Builtin::Cd, &words(&["d"]), Found::Directory(Some("/start/d".to_string())));
    assert_eq!(out, "");
    assert_eq!(s.cwd, "/start/d");

    let out = s.run_builtin(Builtin::Cd, &words(&["missing"]), Found::Directory(None));
    assert_eq!(out, "cd: missing: No such file or directory\n");
    assert_eq!(s.cwd, "/start/d");

    let need = s.builtin_need(Builtin::Type, &words(&["ls"]), None);
    assert!(matches!(need, Need::Lookup(ref n) if n == "ls"));
    assert!(matches!(s.builtin_need(Builtin::Type, &words(&["cd"]), None), Need::Nothing));
    assert!(matches!(s.builtin_need(Builtin::Echo, &words(&["x"]), None), Need::Nothing));
    let out = s.run_builtin(Builtin::Type, &words(&["ls"]), Found::Program(Some("/bin/ls".to_string())));
    assert_eq!(out, "ls is /bin/ls\n");
    let out = s.run_builtin(Builtin::Type, &words(&["cd"]), Found::Nothing);
    assert_eq!(out, "cd is a shell builtin\n");

    s.record("history".to_string());
    let out = s.run_builtin(Builtin::History, &words(&[]), Found::Nothing);
    assert_eq!(out, "    1  pwd\n    2  history\n");
    assert_eq!(s.run_builtin(Builtin::Echo, &words(&["a", "b"]), Found::Nothing), "a b\n");
}

#[test]
fn completion_candidates() {
    let names = words(&["echo", "exit", "type", "echo", "env", "ech"]);
    assert_eq!(completion_matches("ec", &names), words(&["echo", "ech"]));
    assert_eq!(completion_matches("e", &names), words(&["echo", "exit", "env", "ech"]));
    assert!(completion_matches("", &names).is_empty());
    assert!(completion_matches("zz", &names).is_empty());
}

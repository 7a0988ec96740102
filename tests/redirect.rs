use shell_core::{classify_token, parse_arguments, parse_redirection, Mode, Redirect, Stream, TokenClass};

fn words(v: &[&str]) -> Vec<String> {
    v.iter().map(|s| s.to_string()).collect()
}

fn target(r: &Option<Redirect>) -> Option<(String, Mode)> {
    r.as_ref().map(|x| (x.target.clone(), x.mode))
}

#[test]
fn stdout_truncate_and_append() {
    let r = parse_redirection(&parse_arguments("echo foo > out.txt"));
    assert_eq!(r.command, words(&["echo", "foo"]));
    assert_eq!(target(&r.stdout), Some(("out.txt".to_string(), Mode::Truncate)));
    assert_eq!(target(&r.stderr), None);

    let r = parse_redirection(&parse_arguments("echo bar >> out.txt"));
    assert_eq!(r.command, words(&["echo", "bar"]));
    assert_eq!(target(&r.stdout), Some(("out.txt".to_string(), Mode::Append)));

    let r = parse_redirection(&parse_arguments("echo baz 1> out.txt"));
    assert_eq!(target(&r.stdout), Some(("out.txt".to_string(), Mode::Truncate)));

    let r = parse_redirection(&parse_arguments("echo baz 1>> out.txt"));
    assert_eq!(target(&r.stdout), Some(("out.txt".to_string(), Mode::Append)));
}

#[test]
fn stderr_operators_are_not_stdout() {
    let r = parse_redirection(&words(&["ls", "2>", "err.txt"]));
    assert_eq!(r.command, words(&["ls"]));
    assert_eq!(target(&r.stdout), None);
    assert_eq!(target(&r.stderr), Some(("err.txt".to_string(), Mode::Truncate)));

    let r = parse_redirection(&words(&["ls", "2>>", "err.txt"]));
    assert_eq!(target(&r.stderr), Some(("err.txt".to_string(), Mode::Append)));
    assert_eq!(target(&r.stdout), None);
}

#[test]
fn fused_operators() {
    let r = parse_redirection(&words(&["cmd", ">out.txt", "2>err.txt"]));
    assert_eq!(r.command, words(&["cmd"]));
    assert_eq!(target(&r.stdout), Some(("out.txt".to_string(), Mode::Truncate)));
    assert_eq!(target(&r.stderr), Some(("err.txt".to_string(), Mode::Truncate)));

    let r = parse_redirection(&words(&["cmd", "1>>log", "2>>elog"]));
    assert_eq!(target(&r.stdout), Some(("log".to_string(), Mode::Append)));
    assert_eq!(target(&r.stderr), Some(("elog".to_string(), Mode::Append)));

    let r = parse_redirection(&words(&["cmd", ">>a", "x"]));
    assert_eq!(r.command, words(&["cmd", "x"]));
    assert_eq!(target(&r.stdout), Some(("a".to_string(), Mode::Append)));

    let r = parse_redirection(&words(&["cmd", "1>b"]));
    assert_eq!(target(&r.stdout), Some(("b".to_string(), Mode::Truncate)));
}

#[test]
fn later_operator_wins() {
    let r = parse_redirection(&words(&["cmd", ">", "a", "x", ">>", "b", "2>", "c", "2>>d"]));
    assert_eq!(r.command, words(&["cmd", "x"]));
    assert_eq!(target(&r.stdout), Some(("b".to_string(), Mode::Append)));
    assert_eq!(target(&r.stderr), Some(("d".to_string(), Mode::Append)));
}

#[test]
fn trailing_operator_is_dropped() {
    let r = parse_redirection(&words(&["echo", "hi", ">"]));
    assert_eq!(r.command, words(&["echo", "hi"]));
    assert_eq!(target(&r.stdout), None);

    let r = parse_redirection(&words(&["echo", "2>>"]));
    assert_eq!(r.command, words(&["echo"]));
    assert_eq!(target(&r.stderr), None);
}

#[test]
fn no_redirection_keeps_everything() {
    let r = parse_redirection(&words(&["a", "b=c", "x2>"]));
    assert_eq!(r.command, words(&["a", "b=c", "x2>"]));
    assert!(r.stdout.is_none() && r.stderr.is_none());
    assert!(parse_redirection(&[]).command.is_empty());
}

#[test]
fn classes_of_tokens() {
    assert_eq!(classify_token(">>"), TokenClass::Operator(Stream::Stdout, Mode::Append));
    assert_eq!(classify_token("2>"), TokenClass::Operator(Stream::Stderr, Mode::Truncate));
    assert_eq!(classify_token("2>>f"), TokenClass::Fused(Stream::Stderr, Mode::Append, 3));
    assert_eq!(classify_token(">>>"), TokenClass::Fused(Stream::Stdout, Mode::Append, 2));
    assert_eq!(classify_token("1>x"), TokenClass::Fused(Stream::Stdout, Mode::Truncate, 2));
    assert_eq!(classify_token("word"), TokenClass::Word);
    assert_eq!(classify_token(""), TokenClass::Word);
}

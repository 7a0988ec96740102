use shell_core::{
    echo_output, failure_message, parse_line, Action, Builtin, Carry, Event, Executor, Failure,
    Output, Phase, Sink, Stream,
};

fn start(line: &str) -> (Executor, Action) {
    Executor::start(parse_line(line))
}

#[test]
fn unknown_command_is_reported() {
    let (mut e, a) = start("doesnotexist123");
    assert_eq!(a, Action::Resolve { stage: 0 });
    let a = e.step(Event::Resolved(None));
    assert_eq!(a, Action::Abort { stage: 0, failure: Failure::NotFound, status: 127 });
    assert_eq!(e.phase, Phase::Done);
    assert_eq!(failure_message(&e.stages[0], Failure::NotFound), "doesnotexist123: command not found");
    assert_eq!(e.step(Event::Spawned), Action::Ignore);
}

#[test]
fn builtin_into_process() {
    let (mut e, a) = start("echo hi | cat");
    assert_eq!(
        a,
        Action::RunBuiltin {
            stage: 0,
            builtin: Builtin::Echo,
            upstream: false,
            sink: Sink::Relay,
            touch_stderr: false
        }
    );
    let out = echo_output(&e.stages[0].args);
    assert_eq!(out, "hi\n");
    assert_eq!(e.step(Event::BuiltinRan(out)), Action::Resolve { stage: 1 });
    let a = e.step(Event::Resolved(Some("/bin/cat".to_string())));
    assert_eq!(
        a,
        Action::Spawn {
            stage: 1,
            program: "/bin/cat".to_string(),
            stdin: Carry::Text("hi\n".to_string()),
            stdout: Output::Terminal,
            stderr: Output::Terminal
        }
    );
    assert_eq!(e.step(Event::Spawned), Action::WaitAll);
    assert_eq!(e.step(Event::Reaped(Some(0))), Action::Finish { status: 0 });
}

#[test]
fn process_into_process() {
    let (mut e, a) = start("false | true");
    assert_eq!(a, Action::Resolve { stage: 0 });
    let a = e.step(Event::Resolved(Some("/bin/false".to_string())));
    assert_eq!(
        a,
        Action::Spawn {
            stage: 0,
            program: "/bin/false".to_string(),
            stdin: Carry::Terminal,
            stdout: Output::Pipe,
            stderr: Output::Terminal
        }
    );
    assert_eq!(e.step(Event::Spawned), Action::Resolve { stage: 1 });
    let a = e.step(Event::Resolved(Some("/bin/true".to_string())));
    assert_eq!(
        a,
        Action::Spawn {
            stage: 1,
            program: "/bin/true".to_string(),
            stdin: Carry::Pipe,
            stdout: Output::Terminal,
            stderr: Output::Terminal
        }
    );
    assert_eq!(e.step(Event::Spawned), Action::WaitAll);
    assert_eq!(e.live, 2);
    assert_eq!(e.step(Event::Reaped(Some(0))), Action::Finish { status: 0 });
    assert_eq!(e.live, 0);
}

#[test]
fn last_process_status_is_the_pipeline_status() {
    let (mut e, _) = start("true | false");
    e.step(Event::Resolved(Some("/bin/true".to_string())));
    e.step(Event::Spawned);
    e.step(Event::Resolved(Some("/bin/false".to_string())));
    assert_eq!(e.step(Event::Spawned), Action::WaitAll);
    assert_eq!(e.step(Event::Reaped(Some(1))), Action::Finish { status: 1 });
}

#[test]
fn builtin_into_builtin_drops_left_output() {
    let (mut e, a) = start("echo a | echo b");
    assert_eq!(
        a,
        Action::RunBuiltin {
            stage: 0,
            builtin: Builtin::Echo,
            upstream: false,
            sink: Sink::Discard,
            touch_stderr: false
        }
    );
    let a = e.step(Event::BuiltinRan("a\n".to_string()));
    assert_eq!(
        a,
        Action::RunBuiltin {
            stage: 1,
            builtin: Builtin::Echo,
            upstream: false,
            sink: Sink::Terminal,
            touch_stderr: false
        }
    );
    assert_eq!(echo_output(&e.stages[1].args), "b\n");
    assert_eq!(e.step(Event::BuiltinRan("b\n".to_string())), Action::Finish { status: 0 });
}

#[test]
fn process_into_builtin_drains() {
    let (mut e, _) = start("ls | echo x");
    let a = e.step(Event::Resolved(Some("/bin/ls".to_string())));
    assert!(matches!(a, Action::Spawn { stdout: Output::Pipe, .. }));
    let a = e.step(Event::Spawned);
    assert_eq!(
        a,
        Action::RunBuiltin {
            stage: 1,
            builtin: Builtin::Echo,
            upstream: true,
            sink: Sink::Terminal,
            touch_stderr: false
        }
    );
    assert_eq!(e.step(Event::BuiltinRan("x\n".to_string())), Action::WaitAll);
    assert_eq!(e.step(Event::Reaped(Some(3))), Action::Finish { status: 0 });
}

#[test]
fn exit_ends_the_shell() {
    let (_, a) = start("exit 7");
    assert_eq!(a, Action::Exit { code: 7 });
    let (_, a) = start("exit");
    assert_eq!(a, Action::Exit { code: 0 });
    let (_, a) = start("exit nope");
    assert_eq!(a, Action::Exit { code: 0 });
}

#[test]
fn exit_after_other_stages() {
    let (mut e, _) = start("sleep 1 | exit 7");
    e.step(Event::Resolved(Some("/bin/sleep".to_string())));
    assert_eq!(e.step(Event::Spawned), Action::Exit { code: 7 });
    let (mut e, _) = start("echo x | exit 3");
    assert_eq!(e.step(Event::BuiltinRan("x\n".to_string())), Action::Exit { code: 3 });
}

#[test]
fn failure_after_spawn_aborts() {
    let (mut e, _) = start("cat | missing");
    e.step(Event::Resolved(Some("/bin/cat".to_string())));
    assert_eq!(e.step(Event::Spawned), Action::Resolve { stage: 1 });
    assert_eq!(
        e.step(Event::Resolved(None)),
        Action::Abort { stage: 1, failure: Failure::NotFound, status: 127 }
    );
    assert_eq!(e.live, 1);
    assert_eq!(failure_message(&e.stages[1], Failure::NotFound), "missing: command not found");
}

#[test]
fn spawn_and_open_failures() {
    let (mut e, _) = start("prog");
    e.step(Event::Resolved(Some("/bin/prog".to_string())));
    assert_eq!(
        e.step(Event::Failed(Failure::SpawnFailed)),
        Action::Abort { stage: 0, failure: Failure::SpawnFailed, status: 126 }
    );
    assert_eq!(failure_message(&e.stages[0], Failure::SpawnFailed), "Failed to execute prog");

    let (mut e, a) = start("echo hi > /nope/out.txt");
    assert!(matches!(a, Action::RunBuiltin { sink: Sink::File, .. }));
    let f = Failure::OpenFailed(Stream::Stdout);
    assert_eq!(e.step(Event::Failed(f)), Action::Abort { stage: 0, failure: f, status: 1 });
    assert_eq!(failure_message(&e.stages[0], f), "Failed to create file: /nope/out.txt");
}

#[test]
fn redirected_stages() {
    let (mut e, a) = start("echo foo > out.txt 2> err.txt");
    assert_eq!(
        a,
        Action::RunBuiltin {
            stage: 0,
            builtin: Builtin::Echo,
            upstream: false,
            sink: Sink::File,
            touch_stderr: true
        }
    );
    assert_eq!(e.step(Event::BuiltinRan("foo\n".to_string())), Action::Finish { status: 0 });

    let (mut e, _) = start("ls > a.txt | cat 2>> e.txt");
    let a = e.step(Event::Resolved(Some("/bin/ls".to_string())));
    assert!(matches!(a, Action::Spawn { stdout: Output::File, .. }));
    e.step(Event::Spawned);
    let a = e.step(Event::Resolved(Some("/bin/cat".to_string())));
    assert!(matches!(
        a,
        Action::Spawn { stdin: Carry::Empty, stdout: Output::Terminal, stderr: Output::File, .. }
    ));
}

#[test]
fn empty_pipeline_finishes() {
    let (mut e, a) = start("|");
    assert_eq!(a, Action::Finish { status: 0 });
    assert_eq!(e.step(Event::Reaped(None)), Action::Ignore);
}

#[test]
fn signaled_last_process_fails() {
    let (mut e, _) = start("yes");
    e.step(Event::Resolved(Some("/usr/bin/yes".to_string())));
    assert_eq!(e.step(Event::Spawned), Action::WaitAll);
    assert_eq!(e.step(Event::Reaped(None)), Action::Finish { status: 1 });
}

#[test]
fn unexpected_events_are_ignored() {
    let (mut e, _) = start("cat");
    assert_eq!(e.step(Event::Spawned), Action::Ignore);
    assert_eq!(e.step(Event::BuiltinRan(String::new())), Action::Ignore);
    assert_eq!(e.phase, Phase::Resolving);
}

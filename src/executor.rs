use vstd::prelude::*;

use crate::builtins::{builtin_named, exit_code, exit_status, lookup_builtin, Builtin};
use crate::pipeline::Stage;
use crate::redirect::Stream;
use crate::tokenizer::texts;

verus! {

/// What the stage about to start reads as its standard input.
#[derive(Debug, PartialEq, Eq)]
pub enum Carry {
    /// The terminal: nothing comes before this stage.
    Terminal,
    /// The piped standard output of the process spawned for the stage before.
    Pipe,
    /// The output of the builtin before, to be relayed into a fresh pipe.
    Text(String),
    /// Nothing: the stage before sent its output elsewhere.
    Empty,
}

impl Carry {
    /// A copy of this input.
    pub fn duplicate(&self) -> (r: Carry)
        ensures
            r == *self,
    {
        match self {
            Carry::Terminal => Carry::Terminal,
            Carry::Pipe => Carry::Pipe,
            Carry::Text(t) => Carry::Text(t.clone()),
            Carry::Empty => Carry::Empty,
        }
    }
}

/// Where a spawned process's output stream goes.
#[derive(Clone, Copy, PartialEq, Eq, Structural, Debug)]
pub enum Output {
    /// Inherited from the shell.
    Terminal,
    /// A pipe that the next stage reads.
    Pipe,
    /// The stage's own redirection target for that stream.
    File,
}

/// Where a builtin's output goes.
#[derive(Clone, Copy, PartialEq, Eq, Structural, Debug)]
pub enum Sink {
    /// Written to the shell's standard output.
    Terminal,
    /// Written to the stage's standard output redirection target.
    File,
    /// Handed back, to be relayed into the next stage's standard input.
    Relay,
    /// Dropped: a builtin after this one never reads it.
    Discard,
}

/// Why a pipeline stops before all its stages ran.
#[derive(Clone, Copy, PartialEq, Eq, Structural, Debug)]
pub enum Failure {
    /// The command is no builtin and `PATH` has no executable of its name.
    NotFound,
    /// The operating system did not create the process.
    SpawnFailed,
    /// A redirection target of the stage could not be opened.
    OpenFailed(Stream),
}

/// What the executor waits for.
#[derive(Clone, Copy, PartialEq, Eq, Structural, Debug)]
pub enum Phase {
    /// The `PATH` lookup of the current stage's command.
    Resolving,
    /// The spawning of the current stage's process.
    Spawning,
    /// The run of the current stage's builtin.
    Running,
    /// The end of every process spawned.
    Reaping,
    /// Nothing: the pipeline is complete.
    Done,
}

/// What happened outside, reported back to the executor.
#[derive(Debug)]
pub enum Event {
    /// Where `PATH` lookup found the current command, if anywhere.
    Resolved(Option<String>),
    /// The current stage's process was spawned.
    Spawned,
    /// The current stage's builtin ran and printed this.
    BuiltinRan(String),
    /// The current stage could not be started.
    Failed(Failure),
    /// Every spawned process has ended; the exit code of the last stage's
    /// process, if it exited rather than being killed by a signal.
    Reaped(Option<i32>),
}

/// What the executor asks to be done next.
#[derive(Debug, PartialEq, Eq)]
pub enum Action {
    /// Look the stage's command up on `PATH`.
    Resolve { stage: usize },
    /// Spawn the stage's command from `program`, with its name as argument
    /// zero and its arguments after it, its streams wired as given.
    Spawn { stage: usize, program: String, stdin: Carry, stdout: Output, stderr: Output },
    /// Run the builtin of the stage. With `upstream`, it first reads the
    /// previous process's piped output to its end. With `touch_stderr`, the
    /// stage's standard error target is created though nothing is written.
    RunBuiltin { stage: usize, builtin: Builtin, upstream: bool, sink: Sink, touch_stderr: bool },
    /// End the shell process with this status, at once.
    Exit { code: i32 },
    /// Terminate every process spawned, wait for each, report the failure
    /// of the stage, and complete with `status`.
    Abort { stage: usize, failure: Failure, status: i32 },
    /// Wait for every process spawned, in stage order.
    WaitAll,
    /// The pipeline is complete with this status; 0 is success.
    Finish { status: i32 },
    /// Nothing: the event does not fit what the executor waits for.
    Ignore,
}

/// Runs the stages of a pipeline, one decision at a time.
#[derive(Debug)]
pub struct Executor {
    pub stages: Vec<Stage>,
    /// The stage being started, or the count of stages once all started.
    pub next: usize,
    /// The processes spawned and not yet reaped.
    pub live: usize,
    /// What the stage `next` reads.
    pub carry: Carry,
    pub phase: Phase,
}

/// The status of a pipeline that stopped on a failure.
pub open spec fn failure_status(f: Failure) -> i32 {
    match f {
        Failure::NotFound => 127,
        Failure::SpawnFailed => 126,
        Failure::OpenFailed(_) => 1,
    }
}

/// The status of a last process killed by a signal.
pub const SIGNALED_STATUS: i32 = 1;

/// The builtin that a stage runs, if any.
pub open spec fn stage_builtin(s: Stage) -> Option<Builtin> {
    builtin_named(s.command@)
}

/// Where the standard output of the process of stage `i` goes: its own
/// target, else the terminal for the last stage, else a pipe.
pub open spec fn process_stdout(stages: Seq<Stage>, i: int) -> Output {
    if stages[i].stdout is Some {
        Output::File
    } else if i + 1 == stages.len() {
        Output::Terminal
    } else {
        Output::Pipe
    }
}

/// Where the standard error of the process of a stage goes.
pub open spec fn process_stderr(s: Stage) -> Output {
    if s.stderr is Some {
        Output::File
    } else {
        Output::Terminal
    }
}

/// Where the output of the builtin of stage `i` goes: its own target, else
/// the terminal for the last stage, else relayed to a following process,
/// else dropped before a following builtin.
pub open spec fn builtin_sink(stages: Seq<Stage>, i: int) -> Sink {
    if stages[i].stdout is Some {
        Sink::File
    } else if i + 1 == stages.len() {
        Sink::Terminal
    } else if stage_builtin(stages[i + 1]) is None {
        Sink::Relay
    } else {
        Sink::Discard
    }
}

/// What the stage after a spawned process of stage `i` reads.
pub open spec fn carry_after_process(stages: Seq<Stage>, i: int) -> Carry {
    if stages[i].stdout is Some {
        Carry::Empty
    } else {
        Carry::Pipe
    }
}

/// What the stage after the builtin of stage `i` reads, given its output.
pub open spec fn carry_after_builtin(stages: Seq<Stage>, i: int, text: String) -> Carry {
    if builtin_sink(stages, i) == Sink::Relay {
        Carry::Text(text)
    } else {
        Carry::Empty
    }
}

/// The counters fit the stages.
pub open spec fn counters_fit(e: Executor) -> bool {
    e.next <= e.stages@.len() && e.live <= e.next
}

/// Starts the stage `e.next`, or ends once every stage has started: an
/// `exit` builtin ends the shell, another builtin runs, an external command
/// is looked up first.
pub open spec fn begin(e: Executor) -> (Executor, Action) {
    let stages = e.stages@;
    let i = e.next as int;
    if i >= stages.len() {
        if e.live > 0 {
            (Executor { phase: Phase::Reaping, ..e }, Action::WaitAll)
        } else {
            (Executor { phase: Phase::Done, ..e }, Action::Finish { status: 0 })
        }
    } else {
        match stage_builtin(stages[i]) {
            Some(Builtin::Exit) => (
                Executor { phase: Phase::Done, ..e },
                Action::Exit { code: exit_status(texts(stages[i].args@)) },
            ),
            Some(b) => (
                Executor { phase: Phase::Running, ..e },
                Action::RunBuiltin {
                    stage: e.next,
                    builtin: b,
                    upstream: e.carry is Pipe,
                    sink: builtin_sink(stages, i),
                    touch_stderr: stages[i].stderr is Some,
                },
            ),
            None => (Executor { phase: Phase::Resolving, ..e }, Action::Resolve { stage: e.next }),
        }
    }
}

/// The status that a pipeline completes with once every process ended: the
/// last stage's exit code if it is a process, success if it is a builtin.
pub open spec fn reaped_status(stages: Seq<Stage>, code: Option<i32>) -> i32 {
    if stages.len() > 0 && stage_builtin(stages.last()) is Some {
        0
    } else {
        match code {
            Some(c) => c,
            None => SIGNALED_STATUS,
        }
    }
}

/// The executor's transition on an event: its next state and action.
pub open spec fn transition(e: Executor, ev: Event) -> (Executor, Action) {
    let stages = e.stages@;
    let i = e.next as int;
    let waiting = e.phase == Phase::Resolving || e.phase == Phase::Spawning || e.phase
        == Phase::Running;
    if !counters_fit(e) || (waiting && i >= stages.len()) {
        (e, Action::Ignore)
    } else {
        match (e.phase, ev) {
            (Phase::Resolving, Event::Resolved(Some(p))) => (
                Executor { phase: Phase::Spawning, ..e },
                Action::Spawn {
                    stage: e.next,
                    program: p,
                    stdin: e.carry,
                    stdout: process_stdout(stages, i),
                    stderr: process_stderr(stages[i]),
                },
            ),
            (Phase::Resolving, Event::Resolved(None)) => (
                Executor { phase: Phase::Done, ..e },
                Action::Abort {
                    stage: e.next,
                    failure: Failure::NotFound,
                    status: failure_status(Failure::NotFound),
                },
            ),
            (Phase::Spawning, Event::Spawned) => begin(
                Executor {
                    next: (e.next + 1) as usize,
                    live: (e.live + 1) as usize,
                    carry: carry_after_process(stages, i),
                    ..e
                },
            ),
            (Phase::Running, Event::BuiltinRan(text)) => begin(
                Executor {
                    next: (e.next + 1) as usize,
                    carry: carry_after_builtin(stages, i, text),
                    ..e
                },
            ),
            (Phase::Spawning, Event::Failed(f)) => (
                Executor { phase: Phase::Done, ..e },
                Action::Abort { stage: e.next, failure: f, status: failure_status(f) },
            ),
            (Phase::Running, Event::Failed(f)) => (
                Executor { phase: Phase::Done, ..e },
                Action::Abort { stage: e.next, failure: f, status: failure_status(f) },
            ),
            (Phase::Reaping, Event::Reaped(code)) => (
                Executor { live: 0, phase: Phase::Done, ..e },
                Action::Finish { status: reaped_status(stages, code) },
            ),
            _ => (e, Action::Ignore),
        }
    }
}

/// The executor of a pipeline before anything ran.
pub open spec fn initial(stages: Vec<Stage>) -> Executor {
    Executor { stages, next: 0, live: 0, carry: Carry::Terminal, phase: Phase::Done }
}

/// The message that reports why a stage could not start.
pub open spec fn failure_text(s: Stage, f: Failure) -> Seq<char> {
    match f {
        Failure::NotFound => s.command@ + ": command not found"@,
        Failure::SpawnFailed => "Failed to execute "@ + s.command@,
        Failure::OpenFailed(stream) => {
            let target = match stream {
                Stream::Stdout => s.stdout,
                Stream::Stderr => s.stderr,
            };
            match target {
                Some(t) => "Failed to create file: "@ + t.target@,
                None => "Failed to create file"@,
            }
        },
    }
}

/// The message that reports why a stage could not start.
pub fn failure_message(s: &Stage, f: Failure) -> (r: String)
    ensures
        r@ == failure_text(*s, f),
{
    match f {
        Failure::NotFound => {
            let mut r = s.command.clone();
            r.append(": command not found");
            r
        },
        Failure::SpawnFailed => {
            let mut r = "Failed to execute ".to_owned();
            r.append(s.command.as_str());
            r
        },
        Failure::OpenFailed(stream) => {
            let target = match stream {
                Stream::Stdout => &s.stdout,
                Stream::Stderr => &s.stderr,
            };
            match target {
                Some(t) => {
                    let mut r = "Failed to create file: ".to_owned();
                    r.append(t.target.as_str());
                    r
                },
                None => "Failed to create file".to_owned(),
            }
        },
    }
}

/// Whatever ran before, once `exit` is the stage to start, the shell ends
/// with the status that its argument gives.
pub proof fn lemma_exit_ends_the_shell(e: Executor)
    requires
        e.next < e.stages@.len(),
        stage_builtin(e.stages@[e.next as int]) == Some(Builtin::Exit),
    ensures
        begin(e) == (Executor { phase: Phase::Done, ..e }, Action::Exit {
            code: exit_status(texts(e.stages@[e.next as int].args@)),
        }),
{
}

/// Once the stage before an `exit` stage has started, whatever it was, the
/// next action ends the shell with the status that `exit`'s argument gives.
pub proof fn lemma_exit_follows_any_stage(e: Executor, ev: Event)
    requires
        counters_fit(e),
        e.stages@.len() <= usize::MAX,
        e.next + 1 < e.stages@.len(),
        stage_builtin(e.stages@[e.next + 1]) == Some(Builtin::Exit),
        (e.phase == Phase::Spawning && ev is Spawned) || (e.phase == Phase::Running
            && ev is BuiltinRan),
    ensures
        transition(e, ev).1 == (Action::Exit {
            code: exit_status(texts(e.stages@[e.next + 1].args@)),
        }),
{
}

/// A pipeline whose last stage is a process completes with that process's
/// exit code, whatever the earlier stages' codes were; one whose last stage
/// is a builtin completes with success.
pub proof fn lemma_status_of_last_stage(e: Executor, code: i32)
    requires
        counters_fit(e),
        e.phase == Phase::Reaping,
        e.stages@.len() > 0,
    ensures
        stage_builtin(e.stages@.last()) is None ==> transition(e, Event::Reaped(Some(code))).1
            == (Action::Finish { status: code }),
        stage_builtin(e.stages@.last()) is Some ==> transition(e, Event::Reaped(Some(code))).1
            == (Action::Finish { status: 0 }),
{
}

fn sink_of(stages: &Vec<Stage>, i: usize) -> (r: Sink)
    requires
        i < stages@.len(),
    ensures
        r == builtin_sink(stages@, i as int),
{
    let n = stages.len();
    if stages[i].stdout.is_some() {
        Sink::File
    } else if i + 1 == n {
        Sink::Terminal
    } else if lookup_builtin(stages[i + 1].command.as_str()).is_none() {
        Sink::Relay
    } else {
        Sink::Discard
    }
}

impl Executor {
    fn begin_stage(&mut self) -> (r: Action)
        ensures
            (*final(self), r) == begin(*old(self)),
    {
        let i = self.next;
        if i >= self.stages.len() {
            if self.live > 0 {
                self.phase = Phase::Reaping;
                Action::WaitAll
            } else {
                self.phase = Phase::Done;
                Action::Finish { status: 0 }
            }
        } else {
            match lookup_builtin(self.stages[i].command.as_str()) {
                Some(Builtin::Exit) => {
                    self.phase = Phase::Done;
                    Action::Exit { code: exit_code(&self.stages[i].args) }
                },
                Some(b) => {
                    self.phase = Phase::Running;
                    let upstream = match self.carry {
                        Carry::Pipe => true,
                        _ => false,
                    };
                    Action::RunBuiltin {
                        stage: i,
                        builtin: b,
                        upstream,
                        sink: sink_of(&self.stages, i),
                        touch_stderr: self.stages[i].stderr.is_some(),
                    }
                },
                None => {
                    self.phase = Phase::Resolving;
                    Action::Resolve { stage: i }
                },
            }
        }
    }

    /// The executor of a pipeline and its first action.
    pub fn start(stages: Vec<Stage>) -> (r: (Executor, Action))
        ensures
            r == begin(initial(stages)),
    {
        let mut e = Executor { stages, next: 0, live: 0, carry: Carry::Terminal, phase: Phase::Done };
        let a = e.begin_stage();
        (e, a)
    }

    /// Takes in what happened outside and decides what comes next.
    pub fn step(&mut self, ev: Event) -> (r: Action)
        ensures
            (*final(self), r) == transition(*old(self), ev),
    {
        let i = self.next;
        let n = self.stages.len();
        let waiting = self.phase == Phase::Resolving || self.phase == Phase::Spawning
            || self.phase == Phase::Running;
        if !(i <= n && self.live <= i) || (waiting && i >= n) {
            return Action::Ignore;
        }
        match (self.phase, ev) {
            (Phase::Resolving, Event::Resolved(Some(p))) => {
                self.phase = Phase::Spawning;
                let stdout = if self.stages[i].stdout.is_some() {
                    Output::File
                } else if i + 1 == n {
                    Output::Terminal
                } else {
                    Output::Pipe
                };
                let stderr = if self.stages[i].stderr.is_some() {
                    Output::File
                } else {
                    Output::Terminal
                };
                Action::Spawn { stage: i, program: p, stdin: self.carry.duplicate(), stdout, stderr }
            },
            (Phase::Resolving, Event::Resolved(None)) => {
                self.phase = Phase::Done;
                Action::Abort { stage: i, failure: Failure::NotFound, status: 127 }
            },
            (Phase::Spawning, Event::Spawned) => {
                self.carry = if self.stages[i].stdout.is_some() {
                    Carry::Empty
                } else {
                    Carry::Pipe
                };
                self.next = i + 1;
                self.live = self.live + 1;
                self.begin_stage()
            },
            (Phase::Running, Event::BuiltinRan(text)) => {
                self.carry = if sink_of(&self.stages, i) == Sink::Relay {
                    Carry::Text(text)
                } else {
                    Carry::Empty
                };
                self.next = i + 1;
                self.begin_stage()
            },
            (Phase::Spawning, Event::Failed(f)) | (Phase::Running, Event::Failed(f)) => {
                self.phase = Phase::Done;
                let status = match f {
                    Failure::NotFound => 127,
                    Failure::SpawnFailed => 126,
                    Failure::OpenFailed(_) => 1,
                };
                Action::Abort { stage: i, failure: f, status }
            },
            (Phase::Reaping, Event::Reaped(code)) => {
                self.live = 0;
                self.phase = Phase::Done;
                let last_is_builtin = n > 0 && lookup_builtin(
                    self.stages[n - 1].command.as_str(),
                ).is_some();
                let status = if last_is_builtin {
                    0
                } else {
                    match code {
                        Some(c) => c,
                        None => SIGNALED_STATUS,
                    }
                };
                Action::Finish { status }
            },
            (_, _) => Action::Ignore,
        }
    }
}

} // verus!

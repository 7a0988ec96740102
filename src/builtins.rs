use vstd::prelude::*;

use crate::numbers::{decimal, i32_of, parse_i32, push_decimal};
use crate::path::{join_path, joined};
use crate::text::{has_prefix, push_char, same_text, starts_with};
use crate::tokenizer::texts;

verus! {

/// The commands run inside the shell process.
#[derive(Clone, Copy, PartialEq, Eq, Structural, Debug)]
pub enum Builtin {
    Echo,
    Exit,
    Type,
    Pwd,
    Cd,
    History,
}

/// The builtin of a name, if it is one.
pub open spec fn builtin_named(name: Seq<char>) -> Option<Builtin> {
    if name == seq!['e', 'c', 'h', 'o'] {
        Some(Builtin::Echo)
    } else if name == seq!['e', 'x', 'i', 't'] {
        Some(Builtin::Exit)
    } else if name == seq!['t', 'y', 'p', 'e'] {
        Some(Builtin::Type)
    } else if name == seq!['p', 'w', 'd'] {
        Some(Builtin::Pwd)
    } else if name == seq!['c', 'd'] {
        Some(Builtin::Cd)
    } else if name == seq!['h', 'i', 's', 't', 'o', 'r', 'y'] {
        Some(Builtin::History)
    } else {
        None
    }
}

/// Looks a command name up among the builtins.
pub fn lookup_builtin(name: &str) -> (r: Option<Builtin>)
    ensures
        r == builtin_named(name@),
{
    proof {
        reveal_strlit("echo");
        reveal_strlit("exit");
        reveal_strlit("type");
        reveal_strlit("pwd");
        reveal_strlit("cd");
        reveal_strlit("history");
        assert("echo"@ =~= seq!['e', 'c', 'h', 'o']);
        assert("exit"@ =~= seq!['e', 'x', 'i', 't']);
        assert("type"@ =~= seq!['t', 'y', 'p', 'e']);
        assert("pwd"@ =~= seq!['p', 'w', 'd']);
        assert("cd"@ =~= seq!['c', 'd']);
        assert("history"@ =~= seq!['h', 'i', 's', 't', 'o', 'r', 'y']);
    }
    if same_text(name, "echo") {
        Some(Builtin::Echo)
    } else if same_text(name, "exit") {
        Some(Builtin::Exit)
    } else if same_text(name, "type") {
        Some(Builtin::Type)
    } else if same_text(name, "pwd") {
        Some(Builtin::Pwd)
    } else if same_text(name, "cd") {
        Some(Builtin::Cd)
    } else if same_text(name, "history") {
        Some(Builtin::History)
    } else {
        None
    }
}

/// Whether a command name is a builtin.
pub fn is_builtin(cmd: &str) -> (r: bool)
    ensures
        r == builtin_named(cmd@) is Some,
{
    lookup_builtin(cmd).is_some()
}

/// The names of the builtins, for completion.
pub fn builtin_names() -> (r: Vec<String>)
    ensures
        r@.len() == 6,
        forall|i: int| 0 <= i < r@.len() ==> builtin_named(#[trigger] r@[i]@) is Some,
        forall|name: Seq<char>|
            builtin_named(name) is Some ==> exists|i: int| 0 <= i < r@.len() && #[trigger] r@[i]@ == name,
{
    let mut r: Vec<String> = Vec::new();
    proof {
        reveal_strlit("echo");
        reveal_strlit("exit");
        reveal_strlit("type");
        reveal_strlit("pwd");
        reveal_strlit("cd");
        reveal_strlit("history");
    }
    r.push("echo".to_owned());
    r.push("exit".to_owned());
    r.push("type".to_owned());
    r.push("pwd".to_owned());
    r.push("cd".to_owned());
    r.push("history".to_owned());
    assert(r@[0]@ =~= seq!['e', 'c', 'h', 'o']);
    assert(r@[1]@ =~= seq!['e', 'x', 'i', 't']);
    assert(r@[2]@ =~= seq!['t', 'y', 'p', 'e']);
    assert(r@[3]@ =~= seq!['p', 'w', 'd']);
    assert(r@[4]@ =~= seq!['c', 'd']);
    assert(r@[5]@ =~= seq!['h', 'i', 's', 't', 'o', 'r', 'y']);
    r
}

/// Words joined by single spaces.
pub open spec fn spaced(ws: Seq<Seq<char>>) -> Seq<char>
    decreases ws.len(),
{
    if ws.len() == 0 {
        Seq::empty()
    } else if ws.len() == 1 {
        ws[0]
    } else {
        spaced(ws.drop_last()).push(' ') + ws.last()
    }
}

/// What `echo` prints: its arguments joined by spaces, and a newline.
pub open spec fn echo_text(args: Seq<Seq<char>>) -> Seq<char> {
    spaced(args).push('\n')
}

/// The output of `echo`.
pub fn echo_output(args: &Vec<String>) -> (r: String)
    ensures
        r@ == echo_text(texts(args@)),
{
    let ghost ws = texts(args@);
    let mut r = String::new();
    let n = args.len();
    let mut i: usize = 0;
    assert(ws.take(0) =~= Seq::<Seq<char>>::empty());
    while i < n
        invariant
            n == args@.len(),
            ws == texts(args@),
            i <= n,
            r@ == spaced(ws.take(i as int)),
        decreases n - i,
    {
        let ghost pre = ws.take(i as int + 1);
        assert(pre.drop_last() =~= ws.take(i as int));
        assert(pre.last() == args@[i as int]@);
        if i > 0 {
            push_char(&mut r, ' ');
        } else {
            assert(r@ =~= Seq::<char>::empty());
        }
        r.append(args[i].as_str());
        i = i + 1;
    }
    assert(ws.take(n as int) =~= ws);
    push_char(&mut r, '\n');
    r
}

/// What `type` prints for a name, given where `PATH` lookup found it.
pub open spec fn type_text(name: Seq<char>, found: Option<Seq<char>>) -> Seq<char> {
    if builtin_named(name) is Some {
        name + " is a shell builtin\n"@
    } else {
        match found {
            Some(p) => name + " is "@ + p + "\n"@,
            None => name + ": not found\n"@,
        }
    }
}

/// The output of `type` for one name.
pub fn type_output(name: &str, found: Option<String>) -> (r: String)
    ensures
        r@ == type_text(name@, match found {
            Some(p) => Some(p@),
            None => None,
        }),
{
    let mut r = name.to_owned();
    if is_builtin(name) {
        r.append(" is a shell builtin\n");
    } else {
        match found {
            Some(p) => {
                r.append(" is ");
                r.append(p.as_str());
                r.append("\n");
            },
            None => {
                r.append(": not found\n");
            },
        }
    }
    r
}

/// A number right-aligned in five columns.
pub open spec fn padded(digits: Seq<char>) -> Seq<char> {
    if digits.len() < 5 {
        Seq::new((5 - digits.len()) as nat, |i: int| ' ') + digits
    } else {
        digits
    }
}

/// One line of `history`: the entry's number from 1, two spaces, the entry.
pub open spec fn history_line(log: Seq<Seq<char>>, i: int) -> Seq<char> {
    padded(decimal((i + 1) as nat)) + seq![' ', ' '] + log[i] + seq!['\n']
}

/// The lines of `history` for the entries `from` up to `to`.
pub open spec fn history_lines(log: Seq<Seq<char>>, from: int, to: int) -> Seq<char>
    decreases to - from,
{
    if to <= from {
        Seq::empty()
    } else {
        history_lines(log, from, to - 1) + history_line(log, to - 1)
    }
}

/// The index of the first entry that `history` lists: with a count `n`
/// below the log's length, the last `n` entries; else all of them.
pub open spec fn history_start(len: int, count: Option<i32>) -> int {
    match count {
        Some(n) => if 0 <= n < len {
            len - n
        } else {
            0
        },
        None => 0,
    }
}

/// What `history` prints, given its arguments.
pub open spec fn history_text(log: Seq<Seq<char>>, args: Seq<Seq<char>>) -> Seq<char> {
    let count = if args.len() > 0 {
        i32_of(args[0])
    } else {
        None
    };
    history_lines(log, history_start(log.len() as int, count), log.len() as int)
}

/// What `exit` terminates the process with: its first argument read as an
/// integer, or 0 where there is none or it does not read as one.
pub open spec fn exit_status(args: Seq<Seq<char>>) -> i32 {
    if args.len() == 0 {
        0
    } else {
        match i32_of(args[0]) {
            Some(v) => v,
            None => 0,
        }
    }
}

/// The status that `exit` terminates the process with.
pub fn exit_code(args: &Vec<String>) -> (r: i32)
    ensures
        r == exit_status(texts(args@)),
{
    if args.len() == 0 {
        0
    } else {
        match parse_i32(args[0].as_str()) {
            Some(v) => v,
            None => 0,
        }
    }
}

/// The argument of `cd` with a leading `~` expanded from the home
/// directory, when one is known.
pub open spec fn expand_home(arg: Seq<char>, home: Option<Seq<char>>) -> Seq<char> {
    match home {
        Some(h) => if arg == seq!['~'] {
            h
        } else if has_prefix(arg, seq!['~', '/']) {
            h + arg.skip(1)
        } else {
            arg
        },
        None => arg,
    }
}

/// The argument of `cd`: its first argument, or `~` where there is none.
pub open spec fn cd_argument(args: Seq<Seq<char>>) -> Seq<char> {
    if args.len() > 0 {
        args[0]
    } else {
        seq!['~']
    }
}

/// The directory that `cd` moves to, from the current one.
pub open spec fn cd_destination(cwd: Seq<char>, args: Seq<Seq<char>>, home: Option<Seq<char>>) -> Seq<char> {
    joined(cwd, expand_home(cd_argument(args), home))
}

/// What `cd` prints when its target is not a directory.
pub open spec fn cd_error_text(args: Seq<Seq<char>>) -> Seq<char> {
    "cd: "@ + cd_argument(args) + ": No such file or directory\n"@
}

fn cd_arg(args: &Vec<String>) -> (r: String)
    ensures
        r@ == cd_argument(texts(args@)),
{
    if args.len() > 0 {
        args[0].clone()
    } else {
        proof {
            reveal_strlit("~");
        }
        "~".to_owned()
    }
}

/// The directory that `cd` moves to; `home` is the home directory, if known.
pub fn cd_target(cwd: &str, args: &Vec<String>, home: Option<String>) -> (r: String)
    ensures
        r@ == cd_destination(cwd@, texts(args@), match home {
            Some(h) => Some(h@),
            None => None,
        }),
{
    let arg = cd_arg(args);
    let a = arg.as_str();
    let expanded = match home {
        Some(h) => {
            proof {
                reveal_strlit("~");
                reveal_strlit("~/");
                assert("~"@ =~= seq!['~']);
                assert("~/"@ =~= seq!['~', '/']);
            }
            if same_text(a, "~") {
                h
            } else if starts_with(a, "~/") {
                let n = a.unicode_len();
                let rest = a.substring_char(1, n);
                let mut e = h;
                e.append(rest);
                assert(rest@ =~= a@.skip(1));
                e
            } else {
                arg.clone()
            }
        },
        None => arg.clone(),
    };
    join_path(cwd, expanded.as_str())
}

fn push_history_line(r: &mut String, entry: &String, number: usize)
    ensures
        final(r)@ == old(r)@ + padded(decimal(number as nat)) + seq![' ', ' '] + entry@ + seq!['\n'],
{
    let mut digits = String::new();
    push_decimal(&mut digits, number);
    let d = digits.as_str().unicode_len();
    let ghost start = r@;
    let mut k: usize = d;
    while k < 5
        invariant
            d == digits@.len(),
            d <= k <= 5 || (d > 5 && k == d),
            r@ == start + Seq::new((k - d) as nat, |j: int| ' '),
        decreases 5 - k,
    {
        push_char(r, ' ');
        assert(r@ =~= start + Seq::new((k + 1 - d) as nat, |j: int| ' '));
        k = k + 1;
    }
    if d < 5 {
        assert(r@ =~= start + Seq::new((5 - d) as nat, |j: int| ' '));
    } else {
        assert(r@ =~= start);
    }
    r.append(digits.as_str());
    push_char(r, ' ');
    push_char(r, ' ');
    r.append(entry.as_str());
    push_char(r, '\n');
    assert(r@ =~= start + padded(decimal(number as nat)) + seq![' ', ' '] + entry@ + seq!['\n']);
}

/// The output of `history`: every logged line, numbered from 1, or with a
/// count `n` only the last `n`, keeping their numbers.
pub fn history_output(log: &Vec<String>, args: &Vec<String>) -> (r: String)
    ensures
        r@ == history_text(texts(log@), texts(args@)),
{
    let count = if args.len() > 0 {
        parse_i32(args[0].as_str())
    } else {
        None
    };
    let n = log.len();
    let start: usize = match count {
        Some(c) => if 0 <= c && (c as usize) < n {
            n - c as usize
        } else {
            0
        },
        None => 0,
    };
    let ghost ws = texts(log@);
    let mut r = String::new();
    let mut i: usize = start;
    while i < n
        invariant
            n == log@.len(),
            ws == texts(log@),
            start <= i <= n,
            r@ == history_lines(ws, start as int, i as int),
        decreases n - i,
    {
        push_history_line(&mut r, &log[i], i + 1);
        i = i + 1;
    }
    r
}

/// What a builtin prints when it runs with what was found outside for it.
pub open spec fn builtin_text(
    b: Builtin,
    args: Seq<Seq<char>>,
    cwd: Seq<char>,
    log: Seq<Seq<char>>,
    found: Found,
) -> Seq<char> {
    match b {
        Builtin::Echo => echo_text(args),
        Builtin::Type => if args.len() == 0 {
            Seq::empty()
        } else {
            type_text(
                args[0],
                match found {
                    Found::Program(Some(p)) => Some(p@),
                    _ => None,
                },
            )
        },
        Builtin::Pwd => cwd.push('\n'),
        Builtin::History => history_text(log, args),
        Builtin::Cd => match found {
            Found::Directory(Some(_)) => Seq::empty(),
            _ => cd_error_text(args),
        },
        Builtin::Exit => Seq::empty(),
    }
}

/// What a builtin needs from outside before it can run.
#[derive(Debug)]
pub enum Need {
    Nothing,
    /// The `PATH` lookup of a name.
    Lookup(String),
    /// Whether a path names a directory, and its canonical form.
    Directory(String),
}

/// What was found outside for a builtin.
#[derive(Debug)]
pub enum Found {
    Nothing,
    /// Where `PATH` lookup found the name, if anywhere.
    Program(Option<String>),
    /// The canonical form of the directory, if it is one.
    Directory(Option<String>),
}

/// The state that builtins read and change: the working directory and the
/// log of submitted lines.
#[derive(Debug)]
pub struct Session {
    pub cwd: String,
    pub log: Vec<String>,
}

/// What the outside lookup for `type` is given, if anything.
pub open spec fn type_lookup(args: Seq<Seq<char>>) -> Option<Seq<char>> {
    if args.len() > 0 && builtin_named(args[0]) is None {
        Some(args[0])
    } else {
        None
    }
}

impl Session {
    /// A session in a working directory, with an empty log.
    pub fn new(cwd: String) -> (r: Session)
        ensures
            r.cwd == cwd,
            r.log@.len() == 0,
    {
        Session { cwd, log: Vec::new() }
    }

    /// Appends a submitted line to the log.
    pub fn record(&mut self, line: String)
        ensures
            final(self).log@ == old(self).log@.push(line),
            final(self).cwd == old(self).cwd,
    {
        self.log.push(line);
    }

    /// What a builtin needs from outside before it runs: `type` the `PATH`
    /// lookup of a name that is no builtin, `cd` a directory check of its
    /// destination.
    pub fn builtin_need(&self, b: Builtin, args: &Vec<String>, home: Option<String>) -> (r: Need)
        ensures
            b == Builtin::Type ==> match type_lookup(texts(args@)) {
                Some(name) => (r matches Need::Lookup(n) && n@ == name),
                None => r is Nothing,
            },
            b == Builtin::Cd ==> (r matches Need::Directory(d) && d@ == cd_destination(
                self.cwd@,
                texts(args@),
                match home {
                    Some(h) => Some(h@),
                    None => None,
                },
            )),
            b != Builtin::Type && b != Builtin::Cd ==> r is Nothing,
    {
        match b {
            Builtin::Type => {
                if args.len() > 0 && !is_builtin(args[0].as_str()) {
                    Need::Lookup(args[0].clone())
                } else {
                    Need::Nothing
                }
            },
            Builtin::Cd => Need::Directory(cd_target(self.cwd.as_str(), args, home)),
            _ => Need::Nothing,
        }
    }

    /// Runs a builtin, given what was found outside for it, and returns
    /// what it prints. Only `cd` changes the session: it moves to the
    /// directory found, and stays where it is when none was.
    pub fn run_builtin(&mut self, b: Builtin, args: &Vec<String>, found: Found) -> (r: String)
        ensures
            r@ == builtin_text(b, texts(args@), old(self).cwd@, texts(old(self).log@), found),
            final(self).log == old(self).log,
            final(self).cwd == (match (b, found) {
                (Builtin::Cd, Found::Directory(Some(d))) => d,
                _ => old(self).cwd,
            }),
    {
        match b {
            Builtin::Echo => echo_output(args),
            Builtin::Type => {
                if args.len() == 0 {
                    String::new()
                } else {
                    let program = match found {
                        Found::Program(p) => p,
                        _ => None,
                    };
                    type_output(args[0].as_str(), program)
                }
            },
            Builtin::Pwd => {
                let mut r = self.cwd.clone();
                push_char(&mut r, '\n');
                r
            },
            Builtin::History => history_output(&self.log, args),
            Builtin::Cd => match found {
                Found::Directory(Some(d)) => {
                    self.cwd = d;
                    String::new()
                },
                _ => {
                    let mut r = "cd: ".to_owned();
                    let a = cd_arg(args);
                    r.append(a.as_str());
                    r.append(": No such file or directory\n");
                    r
                },
            },
            Builtin::Exit => String::new(),
        }
    }
}

} // verus!

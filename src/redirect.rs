use vstd::prelude::*;

use crate::text::{same_text, starts_with};
use crate::tokenizer::texts;

verus! {

/// The output stream that a redirection replaces.
#[derive(Clone, Copy, PartialEq, Eq, Structural, Debug)]
pub enum Stream {
    Stdout,
    Stderr,
}

/// How a redirection target is opened.
#[derive(Clone, Copy, PartialEq, Eq, Structural, Debug)]
pub enum Mode {
    /// Created if absent; prior content discarded.
    Truncate,
    /// Created if absent; written at its end.
    Append,
}

/// What a token is to the redirection grammar.
#[derive(Clone, Copy, PartialEq, Eq, Structural, Debug)]
pub enum TokenClass {
    /// An ordinary command token.
    Word,
    /// An operator standing alone; its target is the following token.
    Operator(Stream, Mode),
    /// An operator of the given length fused with its target.
    Fused(Stream, Mode, usize),
}

/// A redirection target, as text.
pub struct Target {
    pub path: Seq<char>,
    pub mode: Mode,
}

/// The tokens of a command with its redirections taken out.
pub struct Extraction {
    pub command: Seq<Seq<char>>,
    pub stdout: Option<Target>,
    pub stderr: Option<Target>,
}

/// A redirection target of one stage.
#[derive(Debug)]
pub struct Redirect {
    pub target: String,
    pub mode: Mode,
}

impl View for Redirect {
    type V = Target;

    open spec fn view(&self) -> Target {
        Target { path: self.target@, mode: self.mode }
    }
}

/// The target of an optional redirection.
pub open spec fn target_of(r: Option<Redirect>) -> Option<Target> {
    match r {
        Some(x) => Some(x@),
        None => None,
    }
}

impl Redirect {
    /// A copy of this redirection.
    pub fn duplicate(&self) -> (r: Redirect)
        ensures
            r == *self,
    {
        Redirect { target: self.target.clone(), mode: self.mode }
    }
}

/// A command's tokens and its redirections, one per stream at most.
#[derive(Debug)]
pub struct Redirections {
    pub command: Vec<String>,
    pub stdout: Option<Redirect>,
    pub stderr: Option<Redirect>,
}

impl View for Redirections {
    type V = Extraction;

    open spec fn view(&self) -> Extraction {
        Extraction {
            command: texts(self.command@),
            stdout: target_of(self.stdout),
            stderr: target_of(self.stderr),
        }
    }
}

/// Classifies a token, trying the longest and most specific forms first so
/// that a stderr operator is never read as a stdout one.
pub open spec fn classify(t: Seq<char>) -> TokenClass {
    if t == seq!['>', '>'] || t == seq!['1', '>', '>'] {
        TokenClass::Operator(Stream::Stdout, Mode::Append)
    } else if t == seq!['2', '>', '>'] {
        TokenClass::Operator(Stream::Stderr, Mode::Append)
    } else if t == seq!['>'] || t == seq!['1', '>'] {
        TokenClass::Operator(Stream::Stdout, Mode::Truncate)
    } else if t == seq!['2', '>'] {
        TokenClass::Operator(Stream::Stderr, Mode::Truncate)
    } else if t.len() >= 2 && t[0] == '>' && t[1] == '>' {
        TokenClass::Fused(Stream::Stdout, Mode::Append, 2)
    } else if t.len() >= 3 && t[0] == '1' && t[1] == '>' && t[2] == '>' {
        TokenClass::Fused(Stream::Stdout, Mode::Append, 3)
    } else if t.len() >= 3 && t[0] == '2' && t[1] == '>' && t[2] == '>' {
        TokenClass::Fused(Stream::Stderr, Mode::Append, 3)
    } else if t.len() >= 1 && t[0] == '>' {
        TokenClass::Fused(Stream::Stdout, Mode::Truncate, 1)
    } else if t.len() >= 2 && t[0] == '1' && t[1] == '>' {
        TokenClass::Fused(Stream::Stdout, Mode::Truncate, 2)
    } else if t.len() >= 2 && t[0] == '2' && t[1] == '>' {
        TokenClass::Fused(Stream::Stderr, Mode::Truncate, 2)
    } else {
        TokenClass::Word
    }
}

pub open spec fn no_redirections() -> Extraction {
    Extraction { command: Seq::empty(), stdout: None, stderr: None }
}

/// Records a target for a stream; a later one replaces an earlier one.
pub open spec fn with_target(acc: Extraction, stream: Stream, mode: Mode, path: Seq<char>) -> Extraction {
    let t = Some(Target { path, mode });
    match stream {
        Stream::Stdout => Extraction { stdout: t, ..acc },
        Stream::Stderr => Extraction { stderr: t, ..acc },
    }
}

/// Reads the tokens from index `i` on, onto what was gathered before `i`.
/// An operator with nothing after it is dropped.
pub open spec fn extract_from(ts: Seq<Seq<char>>, i: int, acc: Extraction) -> Extraction
    decreases ts.len() - i,
{
    if i < 0 || i >= ts.len() {
        acc
    } else {
        match classify(ts[i]) {
            TokenClass::Word => extract_from(
                ts,
                i + 1,
                Extraction { command: acc.command.push(ts[i]), ..acc },
            ),
            TokenClass::Operator(s, m) => {
                if i + 1 < ts.len() {
                    extract_from(ts, i + 2, with_target(acc, s, m, ts[i + 1]))
                } else {
                    extract_from(ts, i + 1, acc)
                }
            },
            TokenClass::Fused(s, m, k) => extract_from(
                ts,
                i + 1,
                with_target(acc, s, m, ts[i].skip(k as int)),
            ),
        }
    }
}

/// The command tokens and redirections of a token sequence.
pub open spec fn extraction_of(ts: Seq<Seq<char>>) -> Extraction {
    extract_from(ts, 0, no_redirections())
}

fn first_chars_are(t: &str, n: usize, a: char, b: char, c: char, k: usize) -> (r: bool)
    requires
        n == t@.len(),
        1 <= k <= 3,
    ensures
        r == (t@.len() >= k && t@[0] == a && (k >= 2 ==> t@[1] == b) && (k >= 3 ==> t@[2]
            == c)),
{
    if n < k {
        return false;
    }
    if t.get_char(0) != a {
        return false;
    }
    if k >= 2 && t.get_char(1) != b {
        return false;
    }
    if k >= 3 && t.get_char(2) != c {
        return false;
    }
    true
}

/// Classifies one token for the redirection grammar.
pub fn classify_token(t: &str) -> (r: TokenClass)
    ensures
        r == classify(t@),
{
    let n = t.unicode_len();
    let two = n == 2 && first_chars_are(t, n, '>', '>', ' ', 2);
    let one_two = n == 3 && first_chars_are(t, n, '1', '>', '>', 3);
    let two_two = n == 3 && first_chars_are(t, n, '2', '>', '>', 3);
    let gt = n == 1 && first_chars_are(t, n, '>', ' ', ' ', 1);
    let one_gt = n == 2 && first_chars_are(t, n, '1', '>', ' ', 2);
    let two_gt = n == 2 && first_chars_are(t, n, '2', '>', ' ', 2);
    proof {
        if two {
            assert(t@ =~= seq!['>', '>']);
        }
        if one_two {
            assert(t@ =~= seq!['1', '>', '>']);
        }
        if two_two {
            assert(t@ =~= seq!['2', '>', '>']);
        }
        if gt {
            assert(t@ =~= seq!['>']);
        }
        if one_gt {
            assert(t@ =~= seq!['1', '>']);
        }
        if two_gt {
            assert(t@ =~= seq!['2', '>']);
        }
    }
    if two || one_two {
        TokenClass::Operator(Stream::Stdout, Mode::Append)
    } else if two_two {
        TokenClass::Operator(Stream::Stderr, Mode::Append)
    } else if gt || one_gt {
        TokenClass::Operator(Stream::Stdout, Mode::Truncate)
    } else if two_gt {
        TokenClass::Operator(Stream::Stderr, Mode::Truncate)
    } else if first_chars_are(t, n, '>', '>', ' ', 2) {
        TokenClass::Fused(Stream::Stdout, Mode::Append, 2)
    } else if first_chars_are(t, n, '1', '>', '>', 3) {
        TokenClass::Fused(Stream::Stdout, Mode::Append, 3)
    } else if first_chars_are(t, n, '2', '>', '>', 3) {
        TokenClass::Fused(Stream::Stderr, Mode::Append, 3)
    } else if first_chars_are(t, n, '>', ' ', ' ', 1) {
        TokenClass::Fused(Stream::Stdout, Mode::Truncate, 1)
    } else if first_chars_are(t, n, '1', '>', ' ', 2) {
        TokenClass::Fused(Stream::Stdout, Mode::Truncate, 2)
    } else if first_chars_are(t, n, '2', '>', ' ', 2) {
        TokenClass::Fused(Stream::Stderr, Mode::Truncate, 2)
    } else {
        TokenClass::Word
    }
}

fn set_target(acc: &mut Redirections, stream: Stream, mode: Mode, path: String)
    ensures
        final(acc)@ == with_target(old(acc)@, stream, mode, path@),
        final(acc).command == old(acc).command,
{
    let r = Some(Redirect { target: path, mode });
    match stream {
        Stream::Stdout => acc.stdout = r,
        Stream::Stderr => acc.stderr = r,
    }
}

/// Takes the redirection operators and their targets out of a command's
/// tokens. The other tokens keep their order; for each stream the last
/// operator wins; an operator with no target is dropped.
pub fn parse_redirection(parts: &[String]) -> (r: Redirections)
    ensures
        r@ == extraction_of(texts(parts@)),
{
    let ghost ts = texts(parts@);
    let mut acc = Redirections { command: Vec::new(), stdout: None, stderr: None };
    assert(acc@ == no_redirections()) by {
        assert(texts(acc.command@) =~= Seq::<Seq<char>>::empty());
    }
    let n = parts.len();
    let mut i: usize = 0;
    while i < n
        invariant
            n == parts@.len(),
            ts == texts(parts@),
            i <= n + 1,
            extract_from(ts, i as int, acc@) == extraction_of(ts),
        decreases n + 1 - i,
    {
        let part = &parts[i];
        let class = classify_token(part.as_str());
        assert(ts[i as int] == part@);
        match class {
            TokenClass::Word => {
                let ghost before = texts(acc.command@);
                acc.command.push(part.clone());
                assert(texts(acc.command@) =~= before.push(part@));
                i = i + 1;
            },
            TokenClass::Operator(stream, mode) => {
                if i + 1 < n {
                    assert(ts[i + 1] == parts@[i + 1]@);
                    set_target(&mut acc, stream, mode, parts[i + 1].clone());
                    i = i + 2;
                } else {
                    i = i + 1;
                }
            },
            TokenClass::Fused(stream, mode, k) => {
                let len = part.as_str().unicode_len();
                let rest = part.as_str().substring_char(k, len);
                assert(rest@ =~= part@.skip(k as int));
                set_target(&mut acc, stream, mode, rest.to_owned());
                i = i + 1;
            },
        }
    }
    acc
}

} // verus!

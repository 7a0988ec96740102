use vstd::prelude::*;

use crate::text::push_char;

verus! {

/// A backslash seen and not yet applied.
#[derive(Clone, Copy, PartialEq, Eq, Structural, Debug)]
pub enum Escape {
    /// No backslash is pending.
    Off,
    /// A backslash outside quotes: the next character is taken literally.
    Any,
    /// A backslash inside double quotes: it escapes only `\`, `"`, `$` and `` ` ``.
    InDouble,
}

/// Where the tokenizer stands after reading part of a line.
pub struct ScanState {
    /// Tokens completed so far.
    pub words: Seq<Seq<char>>,
    /// Characters of the token being read.
    pub current: Seq<char>,
    pub in_single: bool,
    pub in_double: bool,
    pub escape: Escape,
}

/// Space and tab separate tokens outside quotes.
pub open spec fn is_blank(c: char) -> bool {
    c == ' ' || c == '\t'
}

/// The characters that a backslash escapes inside double quotes.
pub open spec fn escapable_in_double(c: char) -> bool {
    c == '\\' || c == '"' || c == '$' || c == '`'
}

pub open spec fn scan_start() -> ScanState {
    ScanState {
        words: Seq::empty(),
        current: Seq::empty(),
        in_single: false,
        in_double: false,
        escape: Escape::Off,
    }
}

/// Ends the current token, if it holds anything.
pub open spec fn flush(st: ScanState) -> ScanState {
    if st.current.len() > 0 {
        ScanState { words: st.words.push(st.current), current: Seq::empty(), ..st }
    } else {
        st
    }
}

/// Reads one character.
pub open spec fn scan_step(st: ScanState, c: char) -> ScanState {
    match st.escape {
        Escape::Any => ScanState { current: st.current.push(c), escape: Escape::Off, ..st },
        Escape::InDouble => {
            let current = if escapable_in_double(c) {
                st.current.push(c)
            } else {
                st.current.push('\\').push(c)
            };
            ScanState { current, escape: Escape::Off, ..st }
        },
        Escape::Off => {
            if c == '\\' && !st.in_single {
                let escape = if st.in_double {
                    Escape::InDouble
                } else {
                    Escape::Any
                };
                ScanState { escape, ..st }
            } else if c == '\'' && !st.in_double {
                ScanState { in_single: !st.in_single, ..st }
            } else if c == '"' && !st.in_single {
                ScanState { in_double: !st.in_double, ..st }
            } else if is_blank(c) && !st.in_single && !st.in_double {
                flush(st)
            } else {
                ScanState { current: st.current.push(c), ..st }
            }
        },
    }
}

/// The state after reading all of `s`.
pub open spec fn scan(s: Seq<char>) -> ScanState
    decreases s.len(),
{
    if s.len() == 0 {
        scan_start()
    } else {
        scan_step(scan(s.drop_last()), s.last())
    }
}

/// The tokens of a line. What an open quote holds at the end is still a
/// token; a backslash at the very end is dropped.
pub open spec fn tokens_of(s: Seq<char>) -> Seq<Seq<char>> {
    flush(scan(s)).words
}

/// The character sequences of a list of strings.
pub open spec fn texts(v: Seq<String>) -> Seq<Seq<char>> {
    v.map_values(|w: String| w@)
}

/// The scanner stands between tokens, outside quotes, with no backslash
/// pending.
pub open spec fn at_boundary(st: ScanState) -> bool {
    st.current.len() == 0 && !st.in_single && !st.in_double && st.escape == Escape::Off
}

proof fn lemma_inside_double_quote(pre: Seq<char>, rest: Seq<char>, k: int)
    requires
        at_boundary(scan(pre)),
        0 <= k <= rest.len(),
        forall|j: int| 0 <= j < rest.len() ==> #[trigger] rest[j] != '"' && rest[j] != '\\',
    ensures
        scan(pre + seq!['"'] + rest.take(k)) == (ScanState {
            words: scan(pre).words,
            current: rest.take(k),
            in_single: false,
            in_double: true,
            escape: Escape::Off,
        }),
    decreases k,
{
    let s = pre + seq!['"'] + rest.take(k);
    if k == 0 {
        assert(s.drop_last() =~= pre);
        assert(s.last() == '"');
        assert(rest.take(0) =~= Seq::<char>::empty());
        assert(scan(pre).current =~= Seq::<char>::empty());
        assert(scan(s) == scan_step(scan(pre), '"'));
    } else {
        lemma_inside_double_quote(pre, rest, k - 1);
        let c = rest[k - 1];
        assert(c != '"' && c != '\\');
        assert(s.drop_last() =~= pre + seq!['"'] + rest.take(k - 1));
        assert(s.last() == c);
        assert(rest.take(k) =~= rest.take(k - 1).push(c));
        assert(scan(s) == scan_step(scan(s.drop_last()), c));
    }
}

/// A line that ends inside a double quote is no error: the text after the
/// open quote, up to the end of the line, is the last token.
pub proof fn lemma_open_double_quote_flushed(pre: Seq<char>, rest: Seq<char>)
    requires
        at_boundary(scan(pre)),
        rest.len() > 0,
        forall|j: int| 0 <= j < rest.len() ==> #[trigger] rest[j] != '"' && rest[j] != '\\',
    ensures
        tokens_of(pre + seq!['"'] + rest) == tokens_of(pre).push(rest),
{
    lemma_inside_double_quote(pre, rest, rest.len() as int);
    assert(rest.take(rest.len() as int) =~= rest);
}

/// Splits a line into tokens, applying the quoting and escaping rules.
pub fn parse_arguments(input: &str) -> (args: Vec<String>)
    ensures
        texts(args@) == tokens_of(input@),
{
    let n = input.unicode_len();
    let mut words: Vec<String> = Vec::new();
    let mut current = String::new();
    let mut in_single = false;
    let mut in_double = false;
    let mut escape = Escape::Off;
    let mut i: usize = 0;
    assert(texts(words@) =~= Seq::<Seq<char>>::empty());
    assert(input@.subrange(0, 0) =~= Seq::<char>::empty());
    while i < n
        invariant
            n == input@.len(),
            i <= n,
            scan(input@.subrange(0, i as int)) == (ScanState {
                words: texts(words@),
                current: current@,
                in_single,
                in_double,
                escape,
            }),
        decreases n - i,
    {
        let c = input.get_char(i);
        proof {
            let pre = input@.subrange(0, i as int + 1);
            assert(pre.drop_last() =~= input@.subrange(0, i as int));
            assert(pre.last() == c);
        }
        match escape {
            Escape::Any => {
                push_char(&mut current, c);
                escape = Escape::Off;
            },
            Escape::InDouble => {
                if !(c == '\\' || c == '"' || c == '$' || c == '`') {
                    push_char(&mut current, '\\');
                }
                push_char(&mut current, c);
                escape = Escape::Off;
            },
            Escape::Off => {
                if c == '\\' && !in_single {
                    escape = if in_double {
                        Escape::InDouble
                    } else {
                        Escape::Any
                    };
                } else if c == '\'' && !in_double {
                    in_single = !in_single;
                } else if c == '"' && !in_single {
                    in_double = !in_double;
                } else if (c == ' ' || c == '\t') && !in_single && !in_double {
                    if current.as_str().unicode_len() > 0 {
                        let ghost before = texts(words@);
                        let done = current;
                        current = String::new();
                        words.push(done);
                        assert(texts(words@) =~= before.push(done@));
                    }
                } else {
                    push_char(&mut current, c);
                }
            },
        }
        i = i + 1;
    }
    assert(input@.subrange(0, n as int) =~= input@);
    if current.as_str().unicode_len() > 0 {
        let ghost before = texts(words@);
        let ghost last = current@;
        words.push(current);
        assert(texts(words@) =~= before.push(last));
    }
    words
}

} // verus!

use vstd::prelude::*;

use crate::text::push_char;
use crate::tokenizer::texts;

verus! {

/// Splits the text from index `i` on at each `:`, onto the pieces closed
/// before `i` and the piece `cur` being read. The last piece always counts,
/// empty or not.
pub open spec fn colon_split_from(
    s: Seq<char>,
    i: int,
    pieces: Seq<Seq<char>>,
    cur: Seq<char>,
) -> Seq<Seq<char>>
    decreases s.len() - i,
{
    if i < 0 || i >= s.len() {
        pieces.push(cur)
    } else if s[i] == ':' {
        colon_split_from(s, i + 1, pieces.push(cur), Seq::empty())
    } else {
        colon_split_from(s, i + 1, pieces, cur.push(s[i]))
    }
}

/// The directories listed in a `PATH` value, in order: `n` colons give
/// `n + 1` entries.
pub open spec fn path_dirs(s: Seq<char>) -> Seq<Seq<char>> {
    colon_split_from(s, 0, Seq::empty(), Seq::empty())
}

/// A file name looked up in a directory. An absolute name stands for
/// itself, and an empty directory adds no separator.
pub open spec fn joined(dir: Seq<char>, name: Seq<char>) -> Seq<char> {
    if name.len() > 0 && name[0] == '/' {
        name
    } else if dir.len() == 0 {
        name
    } else if dir.last() == '/' {
        dir + name
    } else {
        dir.push('/') + name
    }
}

/// The candidate paths of a command name, one per `PATH` entry, in order.
pub open spec fn candidates_of(path_value: Seq<char>, name: Seq<char>) -> Seq<Seq<char>> {
    path_dirs(path_value).map_values(|d: Seq<char>| joined(d, name))
}

/// Whether a permission mode has an execute bit for owner, group or other.
pub open spec fn mode_is_executable(mode: u32) -> bool {
    mode & 0o111u32 != 0
}

/// Whether a probe found a file that may be executed.
pub open spec fn probe_runs(probe: Option<u32>) -> bool {
    match probe {
        Some(m) => mode_is_executable(m),
        None => false,
    }
}

/// Splits a `PATH` value at each `:`.
pub fn split_path(path_value: &str) -> (dirs: Vec<String>)
    ensures
        texts(dirs@) == path_dirs(path_value@),
{
    let ghost s = path_value@;
    let n = path_value.unicode_len();
    let mut dirs: Vec<String> = Vec::new();
    let mut cur = String::new();
    let mut i: usize = 0;
    assert(texts(dirs@) =~= Seq::<Seq<char>>::empty());
    while i < n
        invariant
            n == s.len(),
            s == path_value@,
            i <= n,
            colon_split_from(s, i as int, texts(dirs@), cur@) == path_dirs(s),
        decreases n - i,
    {
        let c = path_value.get_char(i);
        if c == ':' {
            let ghost before = texts(dirs@);
            let ghost last = cur@;
            dirs.push(cur);
            assert(texts(dirs@) =~= before.push(last));
            cur = String::new();
        } else {
            push_char(&mut cur, c);
        }
        i = i + 1;
    }
    let ghost before = texts(dirs@);
    let ghost last = cur@;
    dirs.push(cur);
    assert(texts(dirs@) =~= before.push(last));
    dirs
}

/// Joins a directory and a file name with one `/`.
pub fn join_path(dir: &str, name: &str) -> (r: String)
    ensures
        r@ == joined(dir@, name@),
{
    let n = name.unicode_len();
    let d = dir.unicode_len();
    if n > 0 && name.get_char(0) == '/' {
        return name.to_owned();
    }
    if d == 0 {
        return name.to_owned();
    }
    let mut r = dir.to_owned();
    if dir.get_char(d - 1) != '/' {
        push_char(&mut r, '/');
    }
    r.append(name);
    r
}

/// The paths at which a command is looked for, in `PATH` order.
pub fn path_candidates(path_value: &str, name: &str) -> (r: Vec<String>)
    ensures
        texts(r@) == candidates_of(path_value@, name@),
{
    let dirs = split_path(path_value);
    let ghost ds = path_dirs(path_value@);
    let mut r: Vec<String> = Vec::new();
    let n = dirs.len();
    let mut i: usize = 0;
    while i < n
        invariant
            n == dirs@.len(),
            ds == texts(dirs@),
            i <= n,
            texts(r@) =~= ds.take(i as int).map_values(|d: Seq<char>| joined(d, name@)),
        decreases n - i,
    {
        let p = join_path(dirs[i].as_str(), name);
        let ghost before = texts(r@);
        r.push(p);
        assert(texts(r@) =~= before.push(p@));
        assert(ds.take(i as int + 1) =~= ds.take(i as int).push(ds[i as int]));
        i = i + 1;
    }
    assert(ds.take(n as int) =~= ds);
    r
}

/// Whether a permission mode lets someone execute the file.
pub fn is_executable_mode(mode: u32) -> (r: bool)
    ensures
        r == mode_is_executable(mode),
{
    mode & 0o111u32 != 0
}

/// The first candidate whose probe found an executable file. Each pair holds
/// a candidate path and, if a file exists there, its permission mode.
pub fn select_executable(probes: &Vec<(String, Option<u32>)>) -> (r: Option<String>)
    ensures
        r is Some <==> exists|k: int| 0 <= k < probes@.len() && probe_runs(#[trigger] probes@[k].1),
        r is Some ==> exists|k: int|
            0 <= k < probes@.len() && probe_runs(#[trigger] probes@[k].1) && (forall|j: int|
                0 <= j < k ==> !probe_runs(probes@[j].1)) && r->0@ == probes@[k].0@,
{
    let n = probes.len();
    let mut i: usize = 0;
    while i < n
        invariant
            n == probes@.len(),
            i <= n,
            forall|j: int| 0 <= j < i ==> !probe_runs(#[trigger] probes@[j].1),
        decreases n - i,
    {
        let runs = match probes[i].1 {
            Some(m) => is_executable_mode(m),
            None => false,
        };
        if runs {
            return Some(probes[i].0.clone());
        }
        i = i + 1;
    }
    None
}

} // verus!

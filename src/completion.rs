use vstd::prelude::*;

use crate::text::{has_prefix, starts_with};
use crate::tokenizer::texts;

verus! {

/// The names from index `i` on that start with `prefix` and are not yet in
/// `acc`, added to `acc` in order.
pub open spec fn matches_from(
    names: Seq<Seq<char>>,
    prefix: Seq<char>,
    i: int,
    acc: Seq<Seq<char>>,
) -> Seq<Seq<char>>
    decreases names.len() - i,
{
    if i < 0 || i >= names.len() {
        acc
    } else if has_prefix(names[i], prefix) && !acc.contains(names[i]) {
        matches_from(names, prefix, i + 1, acc.push(names[i]))
    } else {
        matches_from(names, prefix, i + 1, acc)
    }
}

/// The completions of a typed prefix: the names that start with it, each
/// once, in order of first appearance; none for an empty prefix.
pub open spec fn completions_of(names: Seq<Seq<char>>, prefix: Seq<char>) -> Seq<Seq<char>> {
    if prefix.len() == 0 {
        Seq::empty()
    } else {
        matches_from(names, prefix, 0, Seq::empty())
    }
}

fn contains_text(v: &Vec<String>, s: &String) -> (r: bool)
    ensures
        r == texts(v@).contains(s@),
{
    let n = v.len();
    let mut i: usize = 0;
    while i < n
        invariant
            n == v@.len(),
            i <= n,
            forall|j: int| 0 <= j < i ==> v@[j]@ != s@,
        decreases n - i,
    {
        if v[i] == *s {
            assert(texts(v@)[i as int] == s@);
            return true;
        }
        i = i + 1;
    }
    assert(!texts(v@).contains(s@)) by {
        if texts(v@).contains(s@) {
            let k = choose|k: int| 0 <= k < texts(v@).len() && texts(v@)[k] == s@;
            assert(v@[k]@ == s@);
        }
    }
    false
}

/// The names that complete a typed prefix, each once, in order of first
/// appearance.
pub fn completion_matches(prefix: &str, names: &Vec<String>) -> (r: Vec<String>)
    ensures
        texts(r@) == completions_of(texts(names@), prefix@),
{
    let mut r: Vec<String> = Vec::new();
    assert(texts(r@) =~= Seq::<Seq<char>>::empty());
    if prefix.unicode_len() == 0 {
        return r;
    }
    let ghost ns = texts(names@);
    let n = names.len();
    let mut i: usize = 0;
    while i < n
        invariant
            n == names@.len(),
            ns == texts(names@),
            prefix@.len() > 0,
            i <= n,
            matches_from(ns, prefix@, i as int, texts(r@)) == completions_of(ns, prefix@),
        decreases n - i,
    {
        let name = &names[i];
        assert(ns[i as int] == name@);
        if starts_with(name.as_str(), prefix) && !contains_text(&r, name) {
            let ghost before = texts(r@);
            r.push(name.clone());
            assert(texts(r@) =~= before.push(name@));
        }
        i = i + 1;
    }
    r
}

} // verus!

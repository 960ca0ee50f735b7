//! Finding the specifications of a project: the pattern by which they are looked for.

use crate::text::{chars_of, string_of};
use vstd::prelude::*;

verus! {

/// `g` with every backslash turned into a slash.
pub open spec fn slashed(g: Seq<char>) -> Seq<char> {
    Seq::new(
        g.len(),
        |i: int|
            if g[i] == '\\' {
                '/'
            } else {
                g[i]
            },
    )
}

/// The first place at or behind `i` where `s` does not go on with `./`.
pub open spec fn past_dots(s: Seq<char>, i: int) -> int
    decreases s.len() - i,
{
    if 0 <= i && i + 1 < s.len() && s[i] == '.' && s[i + 1] == '/' {
        past_dots(s, i + 2)
    } else {
        i
    }
}

/// A pattern as it is handed to the search: with slashes for backslashes, and without
/// the `./` that it may begin with, however often. A pattern of which nothing would be
/// left is kept as it was given.
pub open spec fn normalized(g: Seq<char>) -> Seq<char> {
    let s = slashed(g);
    let rest = s.skip(past_dots(s, 0));
    if rest.len() == 0 {
        g
    } else {
        rest
    }
}

pub proof fn lemma_past_dots(s: Seq<char>, i: int)
    requires
        0 <= i <= s.len(),
    ensures
        i <= past_dots(s, i) <= s.len(),
    decreases s.len() - i,
{
    if i + 1 < s.len() && s[i] == '.' && s[i + 1] == '/' {
        lemma_past_dots(s, i + 2);
    }
}

/// The pattern as it is handed to the search.
pub fn normalize_glob(glob: &str) -> (r: String)
    ensures
        r@ == normalized(glob@),
{
    let chars = chars_of(glob);
    let mut s: Vec<char> = Vec::new();
    let mut i: usize = 0;
    while i < chars.len()
        invariant
            i <= chars.len(),
            chars@ == glob@,
            s@ == slashed(glob@).take(i as int),
        decreases chars.len() - i,
    {
        let c = chars[i];
        if c == '\\' {
            s.push('/');
        } else {
            s.push(c);
        }
        assert(s@ =~= slashed(glob@).take(i + 1));
        i += 1;
    }
    assert(s@ =~= slashed(glob@));
    let mut start: usize = 0;
    while s.len() - start >= 2 && s[start] == '.' && s[start + 1] == '/'
        invariant
            start <= s.len(),
            past_dots(s@, 0) == past_dots(s@, start as int),
        decreases s.len() - start,
    {
        start += 2;
    }
    proof {
        lemma_past_dots(s@, 0);
    }
    if start >= s.len() {
        assert(s@.skip(start as int).len() == 0);
        return glob.to_owned();
    }
    let mut rest: Vec<char> = Vec::new();
    let mut k: usize = start;
    while k < s.len()
        invariant
            start <= k <= s.len(),
            rest@ == s@.subrange(start as int, k as int),
        decreases s.len() - k,
    {
        rest.push(s[k]);
        assert(rest@ =~= s@.subrange(start as int, k + 1));
        k += 1;
    }
    assert(rest@ =~= s@.skip(start as int));
    string_of(&rest)
}

} // verus!

//! Filesystem paths as strings, joined as `Path::join` joins them on Unix.

use vstd::prelude::*;
use crate::text::{chars_of, push_str, string_of};

verus! {

/// `base` joined with `p`: an absolute `p` replaces `base`; otherwise `p` is
/// appended, after a `/` unless `base` is empty or already ends with one.
pub open spec fn path_join(base: Seq<char>, p: Seq<char>) -> Seq<char> {
    if p.len() > 0 && p[0] == '/' {
        p
    } else if base.len() == 0 || base.last() == '/' {
        base + p
    } else {
        base + seq!['/'] + p
    }
}

/// Joins `p` onto `base` as a path.
pub fn join_path(base: &str, p: &str) -> (r: String)
    ensures
        r@ == path_join(base@, p@),
{
    let pv = chars_of(p);
    if pv.len() > 0 && pv[0] == '/' {
        return string_of(&pv);
    }
    let mut v = chars_of(base);
    if v.len() > 0 && v[v.len() - 1] != '/' {
        v.push('/');
    }
    push_str(&mut v, p);
    proof {
        if base@.len() > 0 && base@.last() != '/' {
            assert(v@ =~= base@ + seq!['/'] + p@);
        } else {
            assert(v@ =~= base@ + p@);
        }
    }
    string_of(&v)
}

/// `s` without the characters `c` at its end.
pub open spec fn trim_end(s: Seq<char>, c: char) -> Seq<char>
    decreases s.len(),
{
    if s.len() > 0 && s.last() == c {
        trim_end(s.drop_last(), c)
    } else {
        s
    }
}

/// Removes the characters `c` at the end of `s`.
pub fn trim_end_matches(s: &str, c: char) -> (r: String)
    ensures
        r@ == trim_end(s@, c),
{
    let mut v = chars_of(s);
    while v.len() > 0 && v[v.len() - 1] == c
        invariant
            trim_end(v@, c) == trim_end(s@, c),
        decreases v@.len(),
    {
        assert(v@.drop_last() =~= v@.subrange(0, v@.len() - 1));
        v.pop();
    }
    string_of(&v)
}

} // verus!

//! Character-level helpers on strings: conversion between `str` and
//! character vectors, comparison, prefixes, and decimal rendering.

use vstd::prelude::*;
use vstd::string::*;

verus! {

/// The decimal digit character for a value below ten.
pub open spec fn digit_char(d: nat) -> char {
    if d == 0 { '0' }
    else if d == 1 { '1' }
    else if d == 2 { '2' }
    else if d == 3 { '3' }
    else if d == 4 { '4' }
    else if d == 5 { '5' }
    else if d == 6 { '6' }
    else if d == 7 { '7' }
    else if d == 8 { '8' }
    else { '9' }
}

/// The decimal rendering of a natural number, without leading zeros.
pub open spec fn decimal(n: nat) -> Seq<char>
    decreases n,
{
    if n < 10 {
        seq![digit_char(n)]
    } else {
        decimal(n / 10) + seq![digit_char(n % 10)]
    }
}

proof fn lemma_decimal_len(n: nat)
    ensures
        decimal(n).len() >= 1,
        n >= 10 ==> decimal(n).len() >= 2,
    decreases n,
{
    if n >= 10 {
        lemma_decimal_len(n / 10);
    }
}

proof fn lemma_digit_char_injective(x: nat, y: nat)
    requires
        x < 10,
        y < 10,
        x != y,
    ensures
        digit_char(x) != digit_char(y),
{
}

/// Different numbers have different decimal renderings.
pub proof fn lemma_decimal_injective(a: nat, b: nat)
    ensures
        a != b ==> decimal(a) != decimal(b),
    decreases a,
{
    lemma_decimal_len(a);
    lemma_decimal_len(b);
    if a != b {
        if a < 10 && b < 10 {
            lemma_digit_char_injective(a, b);
            assert(decimal(a)[0] != decimal(b)[0]);
        } else if a >= 10 && b >= 10 {
            lemma_decimal_injective(a / 10, b / 10);
            let x = decimal(a);
            let y = decimal(b);
            if a % 10 != b % 10 {
                lemma_digit_char_injective(a % 10, b % 10);
                assert(x.last() != y.last());
            } else {
                assert(a / 10 != b / 10);
                assert(x.drop_last() =~= decimal(a / 10));
                assert(y.drop_last() =~= decimal(b / 10));
            }
        }
    }
}

/// Collects the characters of a vector into a `String`.
#[verifier::external_body]
pub(crate) fn string_of(v: &Vec<char>) -> (s: String)
    ensures
        s@ == v@,
{
    v.iter().collect()
}

/// The characters of `s`, in order.
pub fn chars_of(s: &str) -> (v: Vec<char>)
    ensures
        v@ == s@,
{
    let n: usize = s.unicode_len();
    let mut v: Vec<char> = Vec::new();
    let mut i: usize = 0;
    while i < n
        invariant
            n == s@.len(),
            i <= n,
            v@ == s@.subrange(0, i as int),
        decreases n - i,
    {
        v.push(s.get_char(i));
        i = i + 1;
    }
    v
}

/// Whether two character vectors hold the same characters.
pub fn chars_eq(a: &Vec<char>, b: &Vec<char>) -> (r: bool)
    ensures
        r == (a@ == b@),
{
    if a.len() != b.len() {
        return false;
    }
    let mut i: usize = 0;
    while i < a.len()
        invariant
            a@.len() == b@.len(),
            i <= a@.len(),
            forall|j: int| 0 <= j < i ==> a@[j] == b@[j],
        decreases a@.len() - i,
    {
        if a[i] != b[i] {
            return false;
        }
        i = i + 1;
    }
    assert(a@ =~= b@);
    true
}

/// Whether two strings hold the same characters.
pub fn str_eq(a: &str, b: &str) -> (r: bool)
    ensures
        r == (a@ == b@),
{
    let va = chars_of(a);
    let vb = chars_of(b);
    chars_eq(&va, &vb)
}

/// Appends the characters of `s` to `v`.
pub fn push_str(v: &mut Vec<char>, s: &str)
    ensures
        final(v)@ == old(v)@ + s@,
{
    let n: usize = s.unicode_len();
    let mut i: usize = 0;
    while i < n
        invariant
            n == s@.len(),
            i <= n,
            v@ == old(v)@ + s@.subrange(0, i as int),
        decreases n - i,
    {
        v.push(s.get_char(i));
        i = i + 1;
    }
}

fn digit(d: usize) -> (c: char)
    requires
        d < 10,
    ensures
        c == digit_char(d as nat),
{
    if d == 0 { '0' }
    else if d == 1 { '1' }
    else if d == 2 { '2' }
    else if d == 3 { '3' }
    else if d == 4 { '4' }
    else if d == 5 { '5' }
    else if d == 6 { '6' }
    else if d == 7 { '7' }
    else if d == 8 { '8' }
    else { '9' }
}

/// Appends the decimal rendering of `n` to `v`.
pub fn push_decimal(v: &mut Vec<char>, n: usize)
    ensures
        final(v)@ == old(v)@ + decimal(n as nat),
    decreases n,
{
    if n < 10 {
        v.push(digit(n));
    } else {
        push_decimal(v, n / 10);
        v.push(digit(n % 10));
    }
}

/// The decimal rendering of `n`.
pub fn decimal_string(n: usize) -> (s: String)
    ensures
        s@ == decimal(n as nat),
{
    let mut v: Vec<char> = Vec::new();
    push_decimal(&mut v, n);
    string_of(&v)
}


/// Whether `c` is an ASCII character.
pub open spec fn is_ascii_char(c: char) -> bool {
    (c as u32) < 128
}

/// The ASCII lowercase of `c`: 'A'..='Z' map to 'a'..='z', the rest stay.
pub open spec fn ascii_lower_char(c: char) -> char {
    if 'A' <= c && c <= 'Z' {
        ((c as u32) + 32) as char
    } else {
        c
    }
}

/// The ASCII uppercase of `c`: 'a'..='z' map to 'A'..='Z', the rest stay.
pub open spec fn ascii_upper_char(c: char) -> char {
    if 'a' <= c && c <= 'z' {
        ((c as u32) - 32) as char
    } else {
        c
    }
}

/// Whether every character of `s` is ASCII.
pub open spec fn is_ascii_seq(s: Seq<char>) -> bool {
    forall|i: int| 0 <= i < s.len() ==> is_ascii_char(#[trigger] s[i])
}

/// Whether `s` is ASCII and holds no uppercase letter.
pub open spec fn is_ascii_lowercase(s: Seq<char>) -> bool {
    forall|i: int| 0 <= i < s.len() ==> is_ascii_char(#[trigger] s[i]) && !('A' <= s[i] && s[i] <= 'Z')
}

/// What `str::to_lowercase` returns for a string.
pub uninterp spec fn lowercase_of(s: Seq<char>) -> Seq<char>;

/// What `str::to_uppercase` returns for a string.
pub uninterp spec fn uppercase_of(s: Seq<char>) -> Seq<char>;

/// `str::to_lowercase`. Its result is named by `lowercase_of`; on ASCII
/// input it maps 'A'..='Z' to 'a'..='z' and keeps every other character, as
/// std documents. What it does to other characters (Unicode case mapping) is
/// left unsaid.
#[verifier::external_body]
pub(crate) fn to_lowercase(s: &str) -> (r: String)
    ensures
        r@ == lowercase_of(s@),
        is_ascii_seq(s@) ==> r@ == s@.map_values(|c: char| ascii_lower_char(c)),
{
    s.to_lowercase()
}

/// `str::to_uppercase`. Its result is named by `uppercase_of`; on ASCII
/// input it maps 'a'..='z' to 'A'..='Z' and keeps every other character, as
/// std documents. What it does to other characters (Unicode case mapping) is
/// left unsaid.
#[verifier::external_body]
pub(crate) fn to_uppercase(s: &str) -> (r: String)
    ensures
        r@ == uppercase_of(s@),
        is_ascii_seq(s@) ==> r@ == s@.map_values(|c: char| ascii_upper_char(c)),
{
    s.to_uppercase()
}

/// On ASCII text without uppercase letters, ASCII lowercasing changes nothing.
pub proof fn lemma_lowercase_identity(s: Seq<char>)
    requires
        is_ascii_lowercase(s),
    ensures
        is_ascii_seq(s),
        s.map_values(|c: char| ascii_lower_char(c)) == s,
{
    assert(s.map_values(|c: char| ascii_lower_char(c)) =~= s);
}


/// ASCII text without uppercase letters, uppercased and lowercased again in
/// ASCII, is itself, and its uppercase is ASCII.
pub proof fn lemma_upper_then_lower(s: Seq<char>)
    requires
        is_ascii_lowercase(s),
    ensures
        is_ascii_seq(s.map_values(|c: char| ascii_upper_char(c))),
        s.map_values(|c: char| ascii_upper_char(c)).map_values(|c: char| ascii_lower_char(c)) == s,
{
    let up = s.map_values(|c: char| ascii_upper_char(c));
    assert forall|i: int| 0 <= i < up.len() implies is_ascii_char(#[trigger] up[i]) by {
        assert(is_ascii_char(s[i]));
    }
    let down = up.map_values(|c: char| ascii_lower_char(c));
    assert forall|i: int| 0 <= i < s.len() implies #[trigger] down[i] == s[i] by {
        assert(is_ascii_char(s[i]) && !('A' <= s[i] && s[i] <= 'Z'));
    }
    assert(down =~= s);
}

/// The names held by a vector of strings.
pub open spec fn names_of(v: Seq<String>) -> Seq<Seq<char>> {
    v.map_values(|s: String| s@)
}

/// Whether `v` holds the name `name`.
pub fn contains_name(v: &Vec<String>, name: &str) -> (b: bool)
    ensures
        b == names_of(v@).contains(name@),
{
    let mut i: usize = 0;
    while i < v.len()
        invariant
            i <= v@.len(),
            forall|j: int| 0 <= j < i ==> v@[j]@ != name@,
        decreases v@.len() - i,
    {
        if str_eq(v[i].as_str(), name) {
            assert(names_of(v@)[i as int] == name@);
            return true;
        }
        i = i + 1;
    }
    assert forall|j: int| 0 <= j < names_of(v@).len() implies names_of(v@)[j] != name@ by {
        assert(names_of(v@)[j] == v@[j]@);
    }
    false
}

/// The names of `v` other than `name`, in order.
pub fn without_name(v: Vec<String>, name: &str) -> (r: Vec<String>)
    ensures
        names_of(r@) == names_of(v@).filter(|x: Seq<char>| x != name@),
{
    let ghost orig = names_of(v@);
    let ghost f = |x: Seq<char>| x != name@;
    let mut v = v;
    let mut r: Vec<String> = Vec::new();
    let ghost mut done: int = 0;
    assert(orig.take(0).filter(f) =~= Seq::<Seq<char>>::empty()) by {
        reveal(Seq::filter);
    }
    assert(names_of(r@) =~= Seq::<Seq<char>>::empty());
    assert(names_of(v@) =~= orig.subrange(0, orig.len() as int));
    while v.len() > 0
        invariant
            0 <= done <= orig.len(),
            names_of(v@) == orig.subrange(done, orig.len() as int),
            names_of(r@) == orig.take(done).filter(f),
            f == (|x: Seq<char>| x != name@),
        decreases v@.len(),
    {
        let ghost before_v = v@;
        let ghost before_r = r@;
        let x = v.remove(0);
        proof {
            assert(names_of(before_v).len() == before_v.len());
            assert(done < orig.len());
            assert(names_of(before_v)[0] == x@);
            assert(orig.subrange(done, orig.len() as int)[0] == orig[done]);
            assert(orig[done] == x@);
            assert(orig.take(done + 1).drop_last() =~= orig.take(done));
            assert(orig.take(done + 1).last() == x@);
            reveal(Seq::filter);
        }
        let keep = !str_eq(x.as_str(), name);
        if keep {
            r.push(x);
            proof {
                assert(names_of(r@) =~= names_of(before_r).push(orig[done]));
            }
        }
        proof {
            assert forall|j: int| 0 <= j < names_of(v@).len() implies names_of(v@)[j] == orig.subrange(done + 1, orig.len() as int)[j] by {
                assert(v@[j] == before_v[j + 1]);
                assert(names_of(before_v)[j + 1] == orig.subrange(done, orig.len() as int)[j + 1]);
            }
            assert(names_of(v@) =~= orig.subrange(done + 1, orig.len() as int));
            done = done + 1;
        }
    }
    assert(orig.take(orig.len() as int) =~= orig);
    r
}


/// Whether the characters of `v` start with those of `p`.
pub fn has_prefix(v: &Vec<char>, p: &str) -> (b: bool)
    ensures
        b == (v@.len() >= p@.len() && v@.take(p@.len() as int) == p@),
{
    let pv = chars_of(p);
    if v.len() < pv.len() {
        return false;
    }
    let mut i: usize = 0;
    while i < pv.len()
        invariant
            i <= pv@.len() <= v@.len(),
            pv@ == p@,
            forall|j: int| 0 <= j < i ==> v@[j] == pv@[j],
        decreases pv@.len() - i,
    {
        if v[i] != pv[i] {
            return false;
        }
        i = i + 1;
    }
    assert(v@.take(p@.len() as int) =~= p@);
    true
}

/// The characters of `v` from `a` up to `b`, as a string.
pub fn substring(v: &Vec<char>, a: usize, b: usize) -> (r: String)
    requires
        a <= b <= v@.len(),
    ensures
        r@ == v@.subrange(a as int, b as int),
{
    let mut out: Vec<char> = Vec::new();
    let mut k: usize = a;
    while k < b
        invariant
            a <= k <= b <= v@.len(),
            out@ == v@.subrange(a as int, k as int),
        decreases b - k,
    {
        out.push(v[k]);
        k = k + 1;
    }
    string_of(&out)
}

/// A copy of a vector of strings.
pub fn copy_strings(v: &Vec<String>) -> (r: Vec<String>)
    ensures
        r@ == v@,
{
    let mut r: Vec<String> = Vec::new();
    let mut i: usize = 0;
    while i < v.len()
        invariant
            i <= v@.len(),
            r@ == v@.take(i as int),
        decreases v@.len() - i,
    {
        r.push(v[i].clone());
        assert(v@.take(i + 1) =~= v@.take(i as int).push(v@[i as int]));
        i = i + 1;
    }
    assert(v@.take(v@.len() as int) =~= v@);
    r
}

/// The text `a` followed by `b`.
pub fn concat2(a: &str, b: &str) -> (s: String)
    ensures
        s@ == a@ + b@,
{
    let mut s = a.to_owned();
    s.append(b);
    s
}

/// The text `a` followed by `b` and `c`.
pub fn concat3(a: &str, b: &str, c: &str) -> (s: String)
    ensures
        s@ == a@ + b@ + c@,
{
    let mut v: Vec<char> = Vec::new();
    push_str(&mut v, a);
    push_str(&mut v, b);
    push_str(&mut v, c);
    string_of(&v)
}

} // verus!

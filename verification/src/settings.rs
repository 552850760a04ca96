//! The defaults kept as text settings: how they are written and how they
//! are read back, each falling back to its default where it is missing or
//! unreadable.

use vstd::prelude::*;
use crate::models::Defaults;
use crate::text::{chars_of, decimal, decimal_string};

verus! {

/// Whether `c` is a decimal digit.
pub open spec fn is_digit(c: char) -> bool {
    '0' <= c && c <= '9'
}

/// The value of the decimal digit `c`.
pub open spec fn digit_value(c: char) -> int {
    (c as int) - ('0' as int)
}

/// Whether every character of `s` is a decimal digit.
pub open spec fn all_digits(s: Seq<char>) -> bool {
    forall|i: int| 0 <= i < s.len() ==> is_digit(#[trigger] s[i])
}

/// The number the decimal digits `s` write.
pub open spec fn digits_value(s: Seq<char>) -> int
    decreases s.len(),
{
    if s.len() == 0 {
        0
    } else {
        digits_value(s.drop_last()) * 10 + digit_value(s.last())
    }
}

/// `s` without the one `+` sign it may start with.
pub open spec fn unsigned_part(s: Seq<char>) -> Seq<char> {
    if s.len() > 0 && s[0] == '+' {
        s.skip(1)
    } else {
        s
    }
}

/// The number `s` reads as, as `str::parse::<u16>` reads it: an optional
/// `+`, then one or more decimal digits whose value fits in 16 bits.
pub open spec fn u16_of(s: Seq<char>) -> Option<u16> {
    let d = unsigned_part(s);
    if d.len() > 0 && all_digits(d) && digits_value(d) <= 65535 {
        Some(digits_value(d) as u16)
    } else {
        None
    }
}

proof fn lemma_digits_nonnegative(s: Seq<char>)
    requires
        all_digits(s),
    ensures
        digits_value(s) >= 0,
    decreases s.len(),
{
    if s.len() > 0 {
        assert(all_digits(s.drop_last()));
        lemma_digits_nonnegative(s.drop_last());
        assert(is_digit(s[s.len() - 1]));
    }
}

/// The value of a prefix of digits is at most the value of all of them.
proof fn lemma_prefix_value(s: Seq<char>, k: int)
    requires
        all_digits(s),
        0 <= k <= s.len(),
    ensures
        digits_value(s.take(k)) <= digits_value(s),
    decreases s.len() - k,
{
    if k == s.len() {
        assert(s.take(k) =~= s);
    } else {
        let t = s.drop_last();
        assert(all_digits(t));
        assert(t.take(k) =~= s.take(k));
        lemma_prefix_value(t, k);
        lemma_digits_nonnegative(t);
        assert(is_digit(s[s.len() - 1]));
    }
}

proof fn lemma_digit_char_value(d: nat)
    requires
        d < 10,
    ensures
        is_digit(crate::text::digit_char(d)),
        digit_value(crate::text::digit_char(d)) == d,
{
    if d == 0 {
    } else if d == 1 {
    } else if d == 2 {
    } else if d == 3 {
    } else if d == 4 {
    } else if d == 5 {
    } else if d == 6 {
    } else if d == 7 {
    } else if d == 8 {
    } else {
    }
}

/// A number's decimal rendering reads back as the number.
proof fn lemma_decimal_reads_back(n: nat)
    ensures
        all_digits(decimal(n)),
        digits_value(decimal(n)) == n,
        decimal(n).len() > 0,
    decreases n,
{
    if n < 10 {
        let d = decimal(n);
        lemma_digit_char_value(n);
        assert(d.drop_last() =~= Seq::<char>::empty());
        assert(digits_value(d.drop_last()) == 0);
        assert(digits_value(d) == digits_value(d.drop_last()) * 10 + digit_value(d.last()));
    } else {
        lemma_digit_char_value(n % 10);
        lemma_decimal_reads_back(n / 10);
        let d = decimal(n);
        assert(d.drop_last() =~= decimal(n / 10));
        assert(d.last() == crate::text::digit_char(n % 10));
        assert forall|i: int| 0 <= i < d.len() implies is_digit(#[trigger] d[i]) by {
            if i < d.len() - 1 {
                assert(d[i] == decimal(n / 10)[i]);
            }
        }
        vstd::arithmetic::div_mod::lemma_fundamental_div_mod(n as int, 10);
        assert(digits_value(d) == digits_value(d.drop_last()) * 10 + digit_value(d.last()));
    }
}

/// Taking one more digit multiplies the value read so far by ten and adds
/// the digit.
proof fn lemma_take_step(d: Seq<char>, k: int)
    requires
        0 <= k < d.len(),
        all_digits(d.take(k)),
        is_digit(d[k]),
    ensures
        all_digits(d.take(k + 1)),
        digits_value(d.take(k + 1)) == digits_value(d.take(k)) * 10 + digit_value(d[k]),
{
    let t = d.take(k + 1);
    assert(t.drop_last() =~= d.take(k));
    assert(t.last() == d[k]);
    assert forall|j: int| 0 <= j < t.len() implies is_digit(#[trigger] t[j]) by {
        if j < k {
            assert(t[j] == d.take(k)[j]);
        }
    }
}

/// The number `s` reads as, as `str::parse::<u16>` reads it.
pub fn parse_u16(s: &str) -> (r: Option<u16>)
    ensures
        r == u16_of(s@),
{
    let v = chars_of(s);
    let start: usize = if v.len() > 0 && v[0] == '+' { 1 } else { 0 };
    let ghost d = unsigned_part(s@);
    assert(d =~= v@.skip(start as int));
    if start >= v.len() {
        return None;
    }
    let mut acc: u32 = 0;
    let mut i: usize = start;
    assert(d.take(0) =~= Seq::<char>::empty());
    while i < v.len()
        invariant
            start <= i <= v@.len(),
            start <= 1,
            v@ == s@,
            d == v@.skip(start as int),
            d == unsigned_part(s@),
            d.len() > 0,
            all_digits(d.take(i - start)),
            acc == digits_value(d.take(i - start)),
            acc <= 65535,
        decreases v@.len() - i,
    {
        let c = v[i];
        let k: usize = i - start;
        assert(d[k as int] == c);
        if !('0' <= c && c <= '9') {
            assert(!all_digits(d));
            return None;
        }
        let dv: u32 = (c as u32) - ('0' as u32);
        assert(dv == digit_value(c));
        acc = acc * 10 + dv;
        proof {
            lemma_take_step(d, k as int);
        }
        if acc > 65535 {
            proof {
                if all_digits(d) {
                    lemma_prefix_value(d, k + 1);
                }
            }
            return None;
        }
        i = i + 1;
    }
    assert(d.take(d.len() as int) =~= d);
    Some(acc as u16)
}

/// The defaults a store of settings holds: the port where it holds one that
/// reads as a number, else 17531; the subnet base, else `10.200`; the
/// Forgejo URL, else `http://localhost:3000`; the token, else nothing.
pub open spec fn settings_defaults(
    port: Option<Seq<char>>,
    subnet: Option<Seq<char>>,
    url: Option<Seq<char>>,
    token: Option<Seq<char>>,
) -> (u16, Seq<char>, Seq<char>, Seq<char>) {
    (
        match port {
            Some(p) => match u16_of(p) {
                Some(n) => n,
                None => 17531u16,
            },
            None => 17531u16,
        },
        match subnet {
            Some(x) => x,
            None => "10.200"@,
        },
        match url {
            Some(x) => x,
            None => "http://localhost:3000"@,
        },
        match token {
            Some(x) => x,
            None => Seq::empty(),
        },
    )
}

/// The view of an optional text.
pub open spec fn opt_view(o: Option<String>) -> Option<Seq<char>> {
    match o {
        Some(s) => Some(s@),
        None => None,
    }
}

/// The defaults read from the settings `port`, `container_subnet_base`,
/// `forgejo_url` and `forgejo_token`, each where it is stored.
pub fn defaults_from_settings(
    port: Option<String>,
    subnet: Option<String>,
    url: Option<String>,
    token: Option<String>,
) -> (d: Defaults)
    ensures
        (d.port, d.container_subnet_base@, d.forgejo_url@, d.forgejo_token@) == settings_defaults(
            opt_view(port),
            opt_view(subnet),
            opt_view(url),
            opt_view(token),
        ),
{
    let p: u16 = match &port {
        Some(text) => match parse_u16(text.as_str()) {
            Some(n) => n,
            None => 17531,
        },
        None => 17531,
    };
    let s = match subnet {
        Some(x) => x,
        None => "10.200".to_owned(),
    };
    let u = match url {
        Some(x) => x,
        None => "http://localhost:3000".to_owned(),
    };
    let t = match token {
        Some(x) => x,
        None => String::new(),
    };
    Defaults { port: p, container_subnet_base: s, forgejo_url: u, forgejo_token: t }
}

/// The settings the defaults are stored as, in order: `port` (in decimal),
/// `container_subnet_base`, `forgejo_url` and `forgejo_token`.
pub fn settings_of(d: &Defaults) -> (v: Vec<(String, String)>)
    ensures
        v@.len() == 4,
        v@[0].0@ == "port"@ && v@[0].1@ == decimal(d.port as nat),
        v@[1].0@ == "container_subnet_base"@ && v@[1].1@ == d.container_subnet_base@,
        v@[2].0@ == "forgejo_url"@ && v@[2].1@ == d.forgejo_url@,
        v@[3].0@ == "forgejo_token"@ && v@[3].1@ == d.forgejo_token@,
{
    let mut v: Vec<(String, String)> = Vec::new();
    v.push(("port".to_owned(), decimal_string(d.port as usize)));
    v.push(("container_subnet_base".to_owned(), d.container_subnet_base.clone()));
    v.push(("forgejo_url".to_owned(), d.forgejo_url.clone()));
    v.push(("forgejo_token".to_owned(), d.forgejo_token.clone()));
    v
}

/// Defaults written as settings read back as the same defaults.
pub proof fn law_settings_read_back(d: Defaults)
    ensures
        settings_defaults(
            Some(decimal(d.port as nat)),
            Some(d.container_subnet_base@),
            Some(d.forgejo_url@),
            Some(d.forgejo_token@),
        ) == (d.port, d.container_subnet_base@, d.forgejo_url@, d.forgejo_token@),
{
    let s = decimal(d.port as nat);
    lemma_decimal_reads_back(d.port as nat);
    assert(s[0] != '+') by {
        assert(is_digit(s[0]));
    }
    assert(unsigned_part(s) == s);
}

} // verus!

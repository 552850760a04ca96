//! The command line of the `cerebrate` program: its commands, and a parser
//! that turns the program's arguments into one of them.
//!
//! The grammar follows the conventions of the usual Rust argument parsers:
//! long options `--name value` or `--name=value`, short options `-n value`,
//! `-nvalue` or `-n=value`, `--` ending the options, `-h`/`--help` and the
//! `help` subcommand asking for help, `-V`/`--version` before the subcommand
//! asking for the version, and the global `-d`/`--data-dir` accepted at every
//! level, the value given last winning.

use vstd::prelude::*;
use crate::paths::{join_path, path_join};
use crate::text::{chars_of, chars_eq, string_of};

verus! {

/// The port the server listens on unless told otherwise.
pub const DEFAULT_PORT: u16 = 17531;

/// How many checkpoints one agent may keep.
pub const MAX_CHECKPOINTS_PER_AGENT: usize = 10;

/// The data directory: the one given on the command line, else the one in
/// the environment variable `CEREBRATE_DATA_DIR`, else `.cerebrate` in the
/// home directory, else `.cerebrate` in the working directory.
pub fn get_data_dir(cli_data_dir: Option<String>, env_data_dir: Option<String>, home_dir: Option<String>) -> (d: String)
    ensures
        match (cli_data_dir, env_data_dir, home_dir) {
            (Some(c), _, _) => d == c,
            (None, Some(e), _) => d == e,
            (None, None, Some(h)) => d@ == path_join(h@, ".cerebrate"@),
            (None, None, None) => d@ == ".cerebrate"@,
        },
{
    match cli_data_dir {
        Some(c) => c,
        None => match env_data_dir {
            Some(e) => e,
            None => match home_dir {
                Some(h) => join_path(h.as_str(), ".cerebrate"),
                None => ".cerebrate".to_owned(),
            },
        },
    }
}

/// Why a command line was refused, or what it asked for in place of a command.
#[derive(Debug, Clone, Copy, PartialEq, Eq, Structural)]
pub enum CliError {
    /// An option or argument that the command does not take.
    UnknownArgument,
    /// A word in the place of a subcommand that names none.
    InvalidSubcommand,
    /// A command with subcommands was given none.
    MissingSubcommand,
    /// A positional argument or a required option is missing.
    MissingRequiredArgument,
    /// An option that takes a value was given none.
    MissingValue,
    /// A path option was given the empty value.
    EmptyValue,
    /// An option was given twice for the same command.
    ArgumentConflict,
    /// A flag was given a value.
    TooManyValues,
    /// `-h`, `--help` or the `help` subcommand: the help text is wanted.
    DisplayHelp,
    /// `-V` or `--version` before the subcommand: the version is wanted.
    DisplayVersion,
}

/// An option that a command takes.
#[derive(Clone, Copy)]
pub struct OptSpec {
    /// Its one-letter form, if it has one.
    pub short: Option<char>,
    /// Its long form, without the leading `--`.
    pub long: &'static str,
    /// Whether it takes a value; a flag takes none.
    pub takes_value: bool,
    /// Whether the command needs it.
    pub required: bool,
    /// Whether its value is a path, which may not be empty.
    pub path: bool,
}

/// Whether a token has the form of an option: a dash and at least one more
/// character.
pub open spec fn looks_like_option(t: Seq<char>) -> bool {
    t.len() >= 2 && t[0] == '-'
}

/// Whether a token is `--`, which ends the options.
pub open spec fn is_dashdash(t: Seq<char>) -> bool {
    t.len() == 2 && t[0] == '-' && t[1] == '-'
}

/// Whether a token is a long option.
pub open spec fn is_long(t: Seq<char>) -> bool {
    t.len() > 2 && t[0] == '-' && t[1] == '-'
}

/// The position of the first `=` in `s` at or after `i`, or the length of `s`.
pub open spec fn eq_pos_from(s: Seq<char>, i: int) -> int
    decreases s.len() - i,
{
    if i >= s.len() {
        s.len() as int
    } else if s[i] == '=' {
        i
    } else {
        eq_pos_from(s, i + 1)
    }
}

/// The name of a long option token: what follows `--`, up to the first `=`.
pub open spec fn long_name(t: Seq<char>) -> Seq<char> {
    let b = t.skip(2);
    b.take(eq_pos_from(b, 0))
}

/// The value written into a long option token after its first `=`, if any.
pub open spec fn long_inline(t: Seq<char>) -> Option<Seq<char>> {
    let b = t.skip(2);
    let p = eq_pos_from(b, 0);
    if p < b.len() {
        Some(b.skip(p + 1))
    } else {
        None
    }
}

/// The value written into a short option token after its letter, without a
/// leading `=`, if any.
pub open spec fn short_inline(t: Seq<char>) -> Option<Seq<char>> {
    let r = t.skip(2);
    if r.len() == 0 {
        None
    } else if r[0] == '=' {
        Some(r.skip(1))
    } else {
        Some(r)
    }
}

/// The first option at or after `k` whose long form is `name`.
pub open spec fn find_long_from(opts: Seq<OptSpec>, name: Seq<char>, k: int) -> Option<int>
    decreases opts.len() - k,
{
    if k < 0 || k >= opts.len() {
        None
    } else if opts[k].long@ == name {
        Some(k)
    } else {
        find_long_from(opts, name, k + 1)
    }
}

/// The first option at or after `k` whose short form is `c`.
pub open spec fn find_short_from(opts: Seq<OptSpec>, c: char, k: int) -> Option<int>
    decreases opts.len() - k,
{
    if k < 0 || k >= opts.len() {
        None
    } else if opts[k].short == Some(c) {
        Some(k)
    } else {
        find_short_from(opts, c, k + 1)
    }
}

/// What is known, part way through the arguments of one command level.
pub struct ScanV {
    /// The values given to the level's options so far; a flag that was given
    /// holds the empty value.
    pub vals: Seq<Option<Seq<char>>>,
    /// The positional arguments so far.
    pub pos: Seq<Seq<char>>,
    /// The data directory given last, at this level or before.
    pub dd: Option<Seq<char>>,
    /// Whether the data directory was given at this level.
    pub dd_here: bool,
    /// Whether `--` was seen at this level.
    pub stop: bool,
}

/// The outcome of reading arguments.
pub enum Scan {
    /// Go on at the given argument, in the given state.
    Next(int, ScanV),
    /// The argument at the given index is a command word.
    Word(int, ScanV),
    /// The arguments ran out.
    Done(ScanV),
    /// The arguments are refused.
    Fail(CliError),
}

/// The state at the start of a level with `n` options.
pub open spec fn fresh(dd: Option<Seq<char>>, n: nat) -> ScanV {
    ScanV { vals: Seq::new(n, |k: int| None), pos: Seq::empty(), dd, dd_here: false, stop: false }
}

/// Gives the data directory the value `v`, going on at `j`.
pub open spec fn set_data_dir(st: ScanV, v: Seq<char>, j: int) -> Scan {
    if st.dd_here {
        Scan::Fail(CliError::ArgumentConflict)
    } else {
        Scan::Next(j, ScanV { vals: st.vals, pos: st.pos, dd: Some(v), dd_here: true, stop: st.stop })
    }
}

/// Gives option `k` the value `v`, going on at `j`.
pub open spec fn set_option(st: ScanV, k: int, v: Seq<char>, j: int) -> Scan {
    if st.vals[k] is Some {
        Scan::Fail(CliError::ArgumentConflict)
    } else {
        Scan::Next(
            j,
            ScanV { vals: st.vals.update(k, Some(v)), pos: st.pos, dd: st.dd, dd_here: st.dd_here, stop: st.stop },
        )
    }
}

/// The value of an option at argument `i`: the one written into the token, or
/// else the next argument unless it has the form of an option; with the index
/// of the argument after it.
pub open spec fn fetch_value(toks: Seq<Seq<char>>, i: int, inline: Option<Seq<char>>) -> Option<(Seq<char>, int)> {
    match inline {
        Some(v) => Some((v, i + 1)),
        None => if i + 1 < toks.len() && !looks_like_option(toks[i + 1]) {
            Some((toks[i + 1], i + 2))
        } else {
            None
        },
    }
}

/// Reads the value of the option at argument `i` and gives it to option
/// `target`, or to the data directory where `target` is `None`.
pub open spec fn take_value(
    toks: Seq<Seq<char>>,
    i: int,
    inline: Option<Seq<char>>,
    path: bool,
    st: ScanV,
    target: Option<int>,
) -> Scan {
    match fetch_value(toks, i, inline) {
        None => Scan::Fail(CliError::MissingValue),
        Some((v, j)) => if path && v.len() == 0 {
            Scan::Fail(CliError::EmptyValue)
        } else {
            match target {
                None => set_data_dir(st, v, j),
                Some(k) => set_option(st, k, v, j),
            }
        },
    }
}

/// Takes the argument at `i` as the next positional argument.
pub open spec fn add_positional(t: Seq<char>, i: int, arity: nat, st: ScanV) -> Scan {
    if st.pos.len() >= arity {
        Scan::Fail(CliError::UnknownArgument)
    } else {
        Scan::Next(
            i + 1,
            ScanV { vals: st.vals, pos: st.pos.push(t), dd: st.dd, dd_here: st.dd_here, stop: st.stop },
        )
    }
}

/// Reads the long option at argument `i`.
pub open spec fn step_long(toks: Seq<Seq<char>>, i: int, opts: Seq<OptSpec>, top: bool, st: ScanV) -> Scan {
    let t = toks[i];
    let name = long_name(t);
    let inline = long_inline(t);
    if name == "help"@ {
        if inline is Some {
            Scan::Fail(CliError::TooManyValues)
        } else {
            Scan::Fail(CliError::DisplayHelp)
        }
    } else if top && name == "version"@ {
        if inline is Some {
            Scan::Fail(CliError::TooManyValues)
        } else {
            Scan::Fail(CliError::DisplayVersion)
        }
    } else if name == "data-dir"@ {
        take_value(toks, i, inline, true, st, None)
    } else {
        match find_long_from(opts, name, 0) {
            None => Scan::Fail(CliError::UnknownArgument),
            Some(k) => if opts[k].takes_value {
                take_value(toks, i, inline, opts[k].path, st, Some(k))
            } else if inline is Some {
                Scan::Fail(CliError::TooManyValues)
            } else {
                set_option(st, k, Seq::empty(), i + 1)
            },
        }
    }
}

/// Reads the short option at argument `i`.
pub open spec fn step_short(toks: Seq<Seq<char>>, i: int, opts: Seq<OptSpec>, top: bool, st: ScanV) -> Scan {
    let t = toks[i];
    let c = t[1];
    let inline = short_inline(t);
    if c == 'h' {
        Scan::Fail(CliError::DisplayHelp)
    } else if top && c == 'V' {
        Scan::Fail(CliError::DisplayVersion)
    } else if c == 'd' {
        take_value(toks, i, inline, true, st, None)
    } else {
        match find_short_from(opts, c, 0) {
            None => Scan::Fail(CliError::UnknownArgument),
            Some(k) => if opts[k].takes_value {
                take_value(toks, i, inline, opts[k].path, st, Some(k))
            } else if inline is Some {
                Scan::Fail(CliError::UnknownArgument)
            } else {
                set_option(st, k, Seq::empty(), i + 1)
            },
        }
    }
}

/// Reads the argument at `i` for a level with options `opts`: a level of
/// command words where `words` holds (the top level where `top` holds), else
/// a command that takes `arity` positional arguments.
pub open spec fn step(
    toks: Seq<Seq<char>>,
    i: int,
    opts: Seq<OptSpec>,
    words: bool,
    top: bool,
    arity: nat,
    st: ScanV,
) -> Scan {
    let t = toks[i];
    if st.stop {
        if words {
            Scan::Fail(CliError::UnknownArgument)
        } else {
            add_positional(t, i, arity, st)
        }
    } else if is_dashdash(t) {
        Scan::Next(i + 1, ScanV { vals: st.vals, pos: st.pos, dd: st.dd, dd_here: st.dd_here, stop: true })
    } else if is_long(t) {
        step_long(toks, i, opts, top, st)
    } else if looks_like_option(t) {
        step_short(toks, i, opts, top, st)
    } else if words {
        Scan::Word(i, st)
    } else {
        add_positional(t, i, arity, st)
    }
}

/// Reads the arguments from `i` on, for one level, until a command word, the
/// end of the arguments, or a refusal.
pub open spec fn scan(
    toks: Seq<Seq<char>>,
    i: int,
    opts: Seq<OptSpec>,
    words: bool,
    top: bool,
    arity: nat,
    st: ScanV,
) -> Scan
    decreases toks.len() - i,
{
    if i < 0 || i >= toks.len() {
        Scan::Done(st)
    } else {
        match step(toks, i, opts, words, top, arity, st) {
            Scan::Next(j, s2) => if i < j && j <= toks.len() {
                scan(toks, j, opts, words, top, arity, s2)
            } else {
                Scan::Done(s2)
            },
            other => other,
        }
    }
}

/// Whether option values fit their options: one value per option, and a flag
/// that was given holds the empty value.
pub open spec fn flags_ok(opts: Seq<OptSpec>, vals: Seq<Option<Seq<char>>>) -> bool {
    &&& vals.len() == opts.len()
    &&& forall|k: int|
        0 <= k < vals.len() && !opts[k].takes_value && (#[trigger] vals[k]) is Some ==> vals[k]
            == Some(Seq::<char>::empty())
}

/// Whether some required option has no value.
pub open spec fn missing_required(opts: Seq<OptSpec>, vals: Seq<Option<Seq<char>>>) -> bool {
    exists|k: int| 0 <= k < opts.len() && opts[k].required && (#[trigger] vals[k]) is None
}

/// A flag as an option value: the empty value where it was given.
pub open spec fn flag_view(b: bool) -> Option<Seq<char>> {
    if b {
        Some(Seq::empty())
    } else {
        None
    }
}

/// An optional string as an option value.
pub open spec fn opt_string_view(o: Option<String>) -> Option<Seq<char>> {
    match o {
        Some(s) => Some(s@),
        None => None,
    }
}

/// An optional character vector as an option value.
pub open spec fn opt_chars(o: Option<Vec<char>>) -> Option<Seq<char>> {
    match o {
        Some(v) => Some(v@),
        None => None,
    }
}

/// Option values held as character vectors.
pub open spec fn opts_view(s: Seq<Option<Vec<char>>>) -> Seq<Option<Seq<char>>> {
    s.map_values(|o: Option<Vec<char>>| opt_chars(o))
}

/// Arguments held as character vectors.
pub open spec fn toks_view(s: Seq<Vec<char>>) -> Seq<Seq<char>> {
    s.map_values(|v: Vec<char>| v@)
}

proof fn lemma_find_long(opts: Seq<OptSpec>, name: Seq<char>, k: int)
    requires
        0 <= k,
    ensures
        find_long_from(opts, name, k) matches Some(j) ==> k <= j < opts.len() && opts[j].long@ == name,
        find_long_from(opts, name, k) is None ==> forall|j: int|
            k <= j < opts.len() ==> (#[trigger] opts[j]).long@ != name,
    decreases opts.len() - k,
{
    if k < opts.len() && opts[k].long@ != name {
        lemma_find_long(opts, name, k + 1);
    }
}

proof fn lemma_find_short(opts: Seq<OptSpec>, c: char, k: int)
    requires
        0 <= k,
    ensures
        find_short_from(opts, c, k) matches Some(j) ==> k <= j < opts.len() && opts[j].short == Some(c),
    decreases opts.len() - k,
{
    if k < opts.len() && opts[k].short != Some(c) {
        lemma_find_short(opts, c, k + 1);
    }
}

/// One step keeps the option values fitting their options, and never takes
/// more positional arguments than the command has.
proof fn lemma_step_keeps(
    toks: Seq<Seq<char>>,
    i: int,
    opts: Seq<OptSpec>,
    words: bool,
    top: bool,
    arity: nat,
    st: ScanV,
)
    requires
        0 <= i < toks.len(),
        flags_ok(opts, st.vals),
        st.pos.len() <= arity,
    ensures
        step(toks, i, opts, words, top, arity, st) matches Scan::Next(j, s2) ==> flags_ok(opts, s2.vals)
            && s2.pos.len() <= arity,
        step(toks, i, opts, words, top, arity, st) matches Scan::Word(j, s2) ==> s2 == st,
{
    let t = toks[i];
    lemma_find_long(opts, long_name(t), 0);
    if t.len() >= 2 {
        lemma_find_short(opts, t[1], 0);
    }
    match step(toks, i, opts, words, top, arity, st) {
        Scan::Next(j, s2) => {
            assert forall|k: int|
                0 <= k < s2.vals.len() && !opts[k].takes_value && (#[trigger] s2.vals[k]) is Some implies s2.vals[k]
                == Some(Seq::<char>::empty()) by {
                if st.vals[k] is None {
                    assert(s2.vals[k] == Some(Seq::<char>::empty()));
                }
            }
        },
        _ => {},
    }
}

/// Reading a command's arguments to the end keeps the option values fitting
/// their options and takes no more positional arguments than the command has.
proof fn lemma_scan_keeps(
    toks: Seq<Seq<char>>,
    i: int,
    opts: Seq<OptSpec>,
    arity: nat,
    st: ScanV,
)
    requires
        0 <= i,
        flags_ok(opts, st.vals),
        st.pos.len() <= arity,
    ensures
        scan(toks, i, opts, false, false, arity, st) matches Scan::Done(s) ==> flags_ok(opts, s.vals)
            && s.pos.len() <= arity,
    decreases toks.len() - i,
{
    if i < toks.len() {
        lemma_step_keeps(toks, i, opts, false, false, arity, st);
        match step(toks, i, opts, false, false, arity, st) {
            Scan::Next(j, s2) => {
                if i < j && j <= toks.len() {
                    lemma_scan_keeps(toks, j, opts, arity, s2);
                }
            },
            _ => {},
        }
    }
}

/// Whether two character vectors and a string hold the same characters.
fn chars_eq_str(a: &Vec<char>, s: &str) -> (r: bool)
    ensures
        r == (a@ == s@),
{
    let b = chars_of(s);
    chars_eq(a, &b)
}

/// The characters of `s` from `a` up to `b`.
fn slice_chars(s: &Vec<char>, a: usize, b: usize) -> (r: Vec<char>)
    requires
        a <= b <= s@.len(),
    ensures
        r@ == s@.subrange(a as int, b as int),
{
    let mut r: Vec<char> = Vec::new();
    let mut k: usize = a;
    while k < b
        invariant
            a <= k <= b <= s@.len(),
            r@ == s@.subrange(a as int, k as int),
        decreases b - k,
    {
        r.push(s[k]);
        k = k + 1;
    }
    r
}

fn eq_pos(s: &Vec<char>) -> (p: usize)
    ensures
        p == eq_pos_from(s@, 0),
        p <= s@.len(),
{
    let mut i: usize = 0;
    while i < s.len()
        invariant
            i <= s@.len(),
            eq_pos_from(s@, 0) == eq_pos_from(s@, i as int),
        decreases s@.len() - i,
    {
        if s[i] == '=' {
            return i;
        }
        i = i + 1;
    }
    i
}

fn find_long(opts: &Vec<OptSpec>, name: &Vec<char>) -> (r: Option<usize>)
    ensures
        r matches Some(k) ==> find_long_from(opts@, name@, 0) == Some(k as int),
        r is None ==> find_long_from(opts@, name@, 0) is None,
{
    let mut k: usize = 0;
    while k < opts.len()
        invariant
            k <= opts@.len(),
            find_long_from(opts@, name@, 0) == find_long_from(opts@, name@, k as int),
        decreases opts@.len() - k,
    {
        if chars_eq_str(name, opts[k].long) {
            return Some(k);
        }
        k = k + 1;
    }
    None
}

fn find_short(opts: &Vec<OptSpec>, c: char) -> (r: Option<usize>)
    ensures
        r matches Some(k) ==> find_short_from(opts@, c, 0) == Some(k as int),
        r is None ==> find_short_from(opts@, c, 0) is None,
{
    let mut k: usize = 0;
    while k < opts.len()
        invariant
            k <= opts@.len(),
            find_short_from(opts@, c, 0) == find_short_from(opts@, c, k as int),
        decreases opts@.len() - k,
    {
        if opts[k].short == Some(c) {
            return Some(k);
        }
        k = k + 1;
    }
    None
}

/// The state of one level while its arguments are read.
struct ScanState {
    vals: Vec<Option<Vec<char>>>,
    pos: Vec<Vec<char>>,
    dd: Option<Vec<char>>,
    dd_here: bool,
    stop: bool,
}

impl ScanState {
    spec fn sv(&self) -> ScanV {
        ScanV {
            vals: opts_view(self.vals@),
            pos: toks_view(self.pos@),
            dd: opt_chars(self.dd),
            dd_here: self.dd_here,
            stop: self.stop,
        }
    }

    fn fresh_exec(dd: Option<Vec<char>>, n: usize) -> (st: ScanState)
        ensures
            st.sv() == fresh(opt_chars(dd), n as nat),
            st.vals@.len() == n,
    {
        let mut vals: Vec<Option<Vec<char>>> = Vec::new();
        let mut k: usize = 0;
        while k < n
            invariant
                k <= n,
                vals@.len() == k,
                forall|j: int| 0 <= j < k ==> (#[trigger] vals@[j]) is None,
            decreases n - k,
        {
            vals.push(None);
            k = k + 1;
        }
        let st = ScanState { vals, pos: Vec::new(), dd, dd_here: false, stop: false };
        assert(st.sv().vals =~= fresh(opt_chars(dd), n as nat).vals);
        assert(st.sv().pos =~= Seq::<Seq<char>>::empty());
        st
    }
}

/// The outcome of reading one argument.
enum StepOut {
    Next(usize),
    Word,
    Fail(CliError),
}

/// Whether an outcome and the state after it agree with a step of `scan`.
spec fn step_agrees(s: Scan, r: StepOut, after: ScanV) -> bool {
    match s {
        Scan::Next(j, s2) => r == StepOut::Next(j as usize) && after == s2,
        Scan::Word(_, s2) => r is Word && after == s2,
        Scan::Fail(e) => r == StepOut::Fail(e),
        Scan::Done(_) => false,
    }
}

fn set_data_dir_exec(st: &mut ScanState, v: Vec<char>, j: usize) -> (r: StepOut)
    ensures
        final(st).vals@.len() == old(st).vals@.len(),
        step_agrees(set_data_dir(old(st).sv(), v@, j as int), r, final(st).sv()),
        final(st).sv().pos == old(st).sv().pos,
{
    if st.dd_here {
        StepOut::Fail(CliError::ArgumentConflict)
    } else {
        st.dd = Some(v);
        st.dd_here = true;
        StepOut::Next(j)
    }
}

fn set_option_exec(st: &mut ScanState, k: usize, v: Vec<char>, j: usize) -> (r: StepOut)
    requires
        k < old(st).vals@.len(),
    ensures
        final(st).vals@.len() == old(st).vals@.len(),
        step_agrees(set_option(old(st).sv(), k as int, v@, j as int), r, final(st).sv()),
{
    if st.vals[k].is_some() {
        StepOut::Fail(CliError::ArgumentConflict)
    } else {
        let ghost before = st.vals@;
        st.vals.set(k, Some(v));
        proof {
            assert(opts_view(st.vals@) =~= opts_view(before).update(k as int, Some(v@)));
        }
        StepOut::Next(j)
    }
}

fn take_value_exec(
    toks: &Vec<Vec<char>>,
    i: usize,
    inline: Option<Vec<char>>,
    path: bool,
    st: &mut ScanState,
    target: Option<usize>,
) -> (r: StepOut)
    requires
        i < toks@.len(),
        target matches Some(k) ==> k < old(st).vals@.len(),
    ensures
        final(st).vals@.len() == old(st).vals@.len(),
        step_agrees(
            take_value(
                toks_view(toks@),
                i as int,
                opt_chars(inline),
                path,
                old(st).sv(),
                match target {
                    Some(k) => Some(k as int),
                    None => None,
                },
            ),
            r,
            final(st).sv(),
        ),
        r matches StepOut::Next(n) ==> i < n <= toks@.len(),
{
    let ghost tv = toks_view(toks@);
    let n = toks.len();
    let (v, j): (Vec<char>, usize) = match inline {
        Some(v) => (v, i + 1),
        None => {
            if i + 1 < toks.len() && !(toks[i + 1].len() >= 2 && toks[i + 1][0] == '-') {
                assert(tv[i + 1] == toks@[i + 1]@);
                (toks[i + 1].clone(), i + 2)
            } else {
                proof {
                    if i + 1 < toks@.len() {
                        assert(tv[i + 1] == toks@[i + 1]@);
                    }
                }
                return StepOut::Fail(CliError::MissingValue);
            }
        },
    };
    if path && v.len() == 0 {
        return StepOut::Fail(CliError::EmptyValue);
    }
    match target {
        None => set_data_dir_exec(st, v, j),
        Some(k) => set_option_exec(st, k, v, j),
    }
}

fn add_positional_exec(toks: &Vec<Vec<char>>, i: usize, arity: usize, st: &mut ScanState) -> (r: StepOut)
    requires
        i < toks@.len(),
    ensures
        final(st).vals@.len() == old(st).vals@.len(),
        step_agrees(add_positional(toks_view(toks@)[i as int], i as int, arity as nat, old(st).sv()), r, final(st).sv()),
        r matches StepOut::Next(n) ==> i < n <= toks@.len(),
{
    let n = toks.len();
    if st.pos.len() >= arity {
        StepOut::Fail(CliError::UnknownArgument)
    } else {
        let ghost before = st.pos@;
        st.pos.push(toks[i].clone());
        proof {
            assert(toks_view(st.pos@) =~= toks_view(before).push(toks_view(toks@)[i as int]));
        }
        StepOut::Next(i + 1)
    }
}

fn step_long_exec(toks: &Vec<Vec<char>>, i: usize, opts: &Vec<OptSpec>, top: bool, st: &mut ScanState) -> (r: StepOut)
    requires
        i < toks@.len(),
        is_long(toks@[i as int]@),
        old(st).vals@.len() == opts@.len(),
    ensures
        final(st).vals@.len() == old(st).vals@.len(),
        step_agrees(step_long(toks_view(toks@), i as int, opts@, top, old(st).sv()), r, final(st).sv()),
        r matches StepOut::Next(n) ==> i < n <= toks@.len(),
{
    let ghost tv = toks_view(toks@);
    assert(tv[i as int] == toks@[i as int]@);
    let n = toks.len();
    let t = &toks[i];
    let body = slice_chars(t, 2, t.len());
    let p = eq_pos(&body);
    let name = slice_chars(&body, 0, p);
    let inline: Option<Vec<char>> = if p < body.len() {
        Some(slice_chars(&body, p + 1, body.len()))
    } else {
        None
    };
    proof {
        assert(body@ =~= t@.skip(2));
        assert(name@ =~= long_name(t@));
        if p < body@.len() {
            assert(opt_chars(inline) == Some(body@.skip(p + 1)));
        }
        assert(opt_chars(inline) == long_inline(t@));
        lemma_find_long(opts@, name@, 0);
    }
    if chars_eq_str(&name, "help") {
        if inline.is_some() {
            StepOut::Fail(CliError::TooManyValues)
        } else {
            StepOut::Fail(CliError::DisplayHelp)
        }
    } else if top && chars_eq_str(&name, "version") {
        if inline.is_some() {
            StepOut::Fail(CliError::TooManyValues)
        } else {
            StepOut::Fail(CliError::DisplayVersion)
        }
    } else if chars_eq_str(&name, "data-dir") {
        take_value_exec(toks, i, inline, true, st, None)
    } else {
        match find_long(opts, &name) {
            None => StepOut::Fail(CliError::UnknownArgument),
            Some(k) => {
                if opts[k].takes_value {
                    take_value_exec(toks, i, inline, opts[k].path, st, Some(k))
                } else if inline.is_some() {
                    StepOut::Fail(CliError::TooManyValues)
                } else {
                    set_option_exec(st, k, Vec::new(), i + 1)
                }
            },
        }
    }
}

fn step_short_exec(toks: &Vec<Vec<char>>, i: usize, opts: &Vec<OptSpec>, top: bool, st: &mut ScanState) -> (r: StepOut)
    requires
        i < toks@.len(),
        looks_like_option(toks@[i as int]@),
        old(st).vals@.len() == opts@.len(),
    ensures
        final(st).vals@.len() == old(st).vals@.len(),
        step_agrees(step_short(toks_view(toks@), i as int, opts@, top, old(st).sv()), r, final(st).sv()),
        r matches StepOut::Next(n) ==> i < n <= toks@.len(),
{
    let ghost tv = toks_view(toks@);
    assert(tv[i as int] == toks@[i as int]@);
    let n = toks.len();
    let t = &toks[i];
    let c = t[1];
    let rest = slice_chars(t, 2, t.len());
    let inline: Option<Vec<char>> = if rest.len() == 0 {
        None
    } else if rest[0] == '=' {
        Some(slice_chars(&rest, 1, rest.len()))
    } else {
        Some(rest)
    };
    proof {
        assert(rest@ =~= t@.skip(2));
        assert(opt_chars(inline) == short_inline(t@));
        lemma_find_short(opts@, c, 0);
    }
    if c == 'h' {
        StepOut::Fail(CliError::DisplayHelp)
    } else if top && c == 'V' {
        StepOut::Fail(CliError::DisplayVersion)
    } else if c == 'd' {
        take_value_exec(toks, i, inline, true, st, None)
    } else {
        match find_short(opts, c) {
            None => StepOut::Fail(CliError::UnknownArgument),
            Some(k) => {
                if opts[k].takes_value {
                    take_value_exec(toks, i, inline, opts[k].path, st, Some(k))
                } else if inline.is_some() {
                    StepOut::Fail(CliError::UnknownArgument)
                } else {
                    set_option_exec(st, k, Vec::new(), i + 1)
                }
            },
        }
    }
}

fn step_exec(
    toks: &Vec<Vec<char>>,
    i: usize,
    opts: &Vec<OptSpec>,
    words: bool,
    top: bool,
    arity: usize,
    st: &mut ScanState,
) -> (r: StepOut)
    requires
        i < toks@.len(),
        old(st).vals@.len() == opts@.len(),
    ensures
        step_agrees(step(toks_view(toks@), i as int, opts@, words, top, arity as nat, old(st).sv()), r, final(st).sv()),
        r matches StepOut::Next(n) ==> i < n <= toks@.len(),
        final(st).vals@.len() == opts@.len(),
{
    let ghost tv = toks_view(toks@);
    assert(tv[i as int] == toks@[i as int]@);
    let n = toks.len();
    let t = &toks[i];
    if st.stop {
        if words {
            StepOut::Fail(CliError::UnknownArgument)
        } else {
            add_positional_exec(toks, i, arity, st)
        }
    } else if t.len() == 2 && t[0] == '-' && t[1] == '-' {
        st.stop = true;
        StepOut::Next(i + 1)
    } else if t.len() > 2 && t[0] == '-' && t[1] == '-' {
        step_long_exec(toks, i, opts, top, st)
    } else if t.len() >= 2 && t[0] == '-' {
        step_short_exec(toks, i, opts, top, st)
    } else if words {
        StepOut::Word
    } else {
        add_positional_exec(toks, i, arity, st)
    }
}

/// The outcome of reading the arguments of one level.
enum ScanOut {
    Done(ScanState),
    Word(usize, ScanState),
    Fail(CliError),
}

spec fn scan_agrees(s: Scan, r: ScanOut) -> bool {
    match s {
        Scan::Done(v) => r matches ScanOut::Done(st) && st.sv() == v,
        Scan::Word(k, v) => r matches ScanOut::Word(n, st) && n == k && st.sv() == v,
        Scan::Fail(e) => r matches ScanOut::Fail(e2) && e2 == e,
        Scan::Next(_, _) => false,
    }
}

#[verifier::loop_isolation(false)]
fn scan_exec(
    toks: &Vec<Vec<char>>,
    start: usize,
    opts: &Vec<OptSpec>,
    words: bool,
    top: bool,
    arity: usize,
    st: ScanState,
) -> (r: ScanOut)
    requires
        st.vals@.len() == opts@.len(),
    ensures
        scan_agrees(scan(toks_view(toks@), start as int, opts@, words, top, arity as nat, st.sv()), r),
        r matches ScanOut::Word(n, _) ==> n < toks@.len(),
{
    let ghost tv = toks_view(toks@);
    let ghost init = st.sv();
    let mut st = st;
    let mut i: usize = start;
    loop
        invariant
            tv == toks_view(toks@),
            st.vals@.len() == opts@.len(),
            scan(tv, start as int, opts@, words, top, arity as nat, init) == scan(
                tv,
                i as int,
                opts@,
                words,
                top,
                arity as nat,
                st.sv(),
            ),
        decreases toks@.len() - i,
    {
        if i >= toks.len() {
            return ScanOut::Done(st);
        }
        let ghost before = st.sv();
        let r = step_exec(toks, i, opts, words, top, arity, &mut st);
        match r {
            StepOut::Next(j) => {
                i = j;
            },
            StepOut::Word => {
                return ScanOut::Word(i, st);
            },
            StepOut::Fail(e) => {
                return ScanOut::Fail(e);
            },
        }
    }
}

/// The commands of the command line.
#[allow(inconsistent_fields)]
pub enum Commands {
    /// Check service status
    Status,
    /// Start the server
    Serve,
    /// Apply Incus container configuration
    Apply { template: Option<String> },
    /// Generate system flake files
    GenerateFlake { output: Option<String>, template: Option<String>, force: bool },
    /// Agent management
    Agent { command: AgentCommands },
    /// Checkpoint management
    Checkpoint { command: CheckpointCommands },
    /// Git/Forgejo management
    Git { command: GitCommands },
    /// Config management
    Config { command: ConfigCommands },
    /// LLM Provider management
    Provider { command: ProviderCommands },
    /// LLM Model management
    Model { command: ModelCommands },
    /// Skill library management
    Skill { command: SkillCommands },
    /// Tool library management
    Tool { command: ToolCommands },
    /// API Key management
    Key { command: KeyCommands },
}

/// Agent management: its commands.
pub enum AgentCommands {
    /// List all agents
    List,
    /// Create a new agent
    Create { name: String, forgejo_username: Option<String> },
    /// Get agent details
    Get { name: String },
    /// Delete an agent
    Delete { name: String },
    /// Enable an agent
    Enable { name: String },
    /// Disable an agent
    Disable { name: String },
    /// Create a checkpoint
    Checkpoint { name: String, desc: Option<String> },
    /// Rollback to a checkpoint
    Rollback { name: String, checkpoint_id: String },
    /// List checkpoints for an agent
    ListCheckpoints { name: String },
    /// Delete a checkpoint
    DeleteCheckpoint { checkpoint_id: String },
}

/// Checkpoint management: its commands.
pub enum CheckpointCommands {
    /// Clone a checkpoint to a new agent
    Clone { checkpoint_id: String, new_name: String },
    /// List all checkpoints
    List { agent: Option<String> },
}

/// Git/Forgejo management: its commands.
pub enum GitCommands {
    /// List Forgejo users
    Users,
    /// Create a Forgejo user
    CreateUser { username: String, password: String, email: String },
    /// Delete a Forgejo user
    DeleteUser { username: String },
    /// List organizations
    Orgs,
    /// Create an organization
    CreateOrg { name: String },
    /// Delete an organization
    DeleteOrg { name: String },
    /// List repositories
    Repos,
    /// Create a repository
    CreateRepo { owner: String, name: String },
    /// Delete a repository
    DeleteRepo { owner: String, name: String },
}

/// Config management: its commands.
pub enum ConfigCommands {
    /// Export config to YAML
    Export,
    /// Import config from YAML
    Import,
    /// Sync state to Forgejo and local tools/skills
    Sync { delete: bool },
}

/// LLM Provider management: its commands.
pub enum ProviderCommands {
    /// List LLM providers
    List,
    /// Create a new provider
    Create { name: String, provider_type: String, base_url: String, api_key: String },
    /// Delete a provider
    Delete { id: String },
}

/// LLM Model management: its commands.
pub enum ModelCommands {
    /// List LLM models
    List,
    /// Create a new model
    Create { name: String, provider: String, model_name: String },
    /// Delete a model
    Delete { id: String },
}

/// Skill library management: its commands.
pub enum SkillCommands {
    /// List all skills
    List,
    /// Clone a skill from Forgejo
    Clone { slug: String, repo: String, author: String },
    /// Pull latest changes for a skill
    Pull { slug: String },
    /// Get skill details
    Get { slug: String },
    /// Delete a skill
    Delete { slug: String },
}

/// Tool library management: its commands.
pub enum ToolCommands {
    /// List all tools
    List,
    /// Clone a tool from Forgejo
    Clone { slug: String, repo: String, author: String },
    /// Pull latest changes for a tool
    Pull { slug: String },
    /// Get tool details
    Get { slug: String },
    /// Delete a tool
    Delete { slug: String },
    /// Authorize an agent to use a tool
    Authorize { slug: String, agent_name: String },
    /// Revoke an agent's access to a tool
    Revoke { slug: String, agent_name: String },
    /// Set an environment variable for a tool
    SetEnv { slug: String, key: String, value: String },
    /// List environment variables for a tool
    ListEnv { slug: String },
    /// Delete an environment variable for a tool
    DeleteEnv { slug: String, key: String },
    /// Invoke a tool
    Invoke { slug: String, input: String },
}

/// API Key management: its commands.
pub enum KeyCommands {
    /// List API keys
    List,
    /// Create a new API key
    Create { name: String, provider: String },
    /// Delete an API key
    Delete { id: String },
}

/// The first command word.
#[derive(Debug, Clone, Copy, PartialEq, Eq, Structural)]
pub enum Top {
    Status,
    Serve,
    Apply,
    GenerateFlake,
    Agent,
    Checkpoint,
    Git,
    Config,
    Provider,
    Model,
    Skill,
    Tool,
    Key,
}

/// A command that takes arguments: a command word, or a group and its subcommand word.
#[derive(Debug, Clone, Copy, PartialEq, Eq, Structural)]
pub enum Leaf {
    Status,
    Serve,
    Apply,
    GenerateFlake,
    AgentList,
    AgentCreate,
    AgentGet,
    AgentDelete,
    AgentEnable,
    AgentDisable,
    AgentCheckpoint,
    AgentRollback,
    AgentListCheckpoints,
    AgentDeleteCheckpoint,
    CheckpointClone,
    CheckpointList,
    GitUsers,
    GitCreateUser,
    GitDeleteUser,
    GitOrgs,
    GitCreateOrg,
    GitDeleteOrg,
    GitRepos,
    GitCreateRepo,
    GitDeleteRepo,
    ConfigExport,
    ConfigImport,
    ConfigSync,
    ProviderList,
    ProviderCreate,
    ProviderDelete,
    ModelList,
    ModelCreate,
    ModelDelete,
    SkillList,
    SkillClone,
    SkillPull,
    SkillGet,
    SkillDelete,
    ToolList,
    ToolClone,
    ToolPull,
    ToolGet,
    ToolDelete,
    ToolAuthorize,
    ToolRevoke,
    ToolSetEnv,
    ToolListEnv,
    ToolDeleteEnv,
    ToolInvoke,
    KeyList,
    KeyCreate,
    KeyDelete,
}

/// The top-level command a word names.
pub open spec fn top_of_word(w: Seq<char>) -> Option<Top> {
    if w == "status"@ {
        Some(Top::Status)
    } else if w == "serve"@ {
        Some(Top::Serve)
    } else if w == "apply"@ {
        Some(Top::Apply)
    } else if w == "generate-flake"@ {
        Some(Top::GenerateFlake)
    } else if w == "agent"@ {
        Some(Top::Agent)
    } else if w == "checkpoint"@ {
        Some(Top::Checkpoint)
    } else if w == "git"@ {
        Some(Top::Git)
    } else if w == "config"@ {
        Some(Top::Config)
    } else if w == "provider"@ {
        Some(Top::Provider)
    } else if w == "model"@ {
        Some(Top::Model)
    } else if w == "skill"@ {
        Some(Top::Skill)
    } else if w == "tool"@ {
        Some(Top::Tool)
    } else if w == "key"@ {
        Some(Top::Key)
    } else {
        None
    }
}

/// Whether a top-level command has subcommands.
pub open spec fn is_group(t: Top) -> bool {
    match t {
        Top::Status => false,
        Top::Serve => false,
        Top::Apply => false,
        Top::GenerateFlake => false,
        Top::Agent => true,
        Top::Checkpoint => true,
        Top::Git => true,
        Top::Config => true,
        Top::Provider => true,
        Top::Model => true,
        Top::Skill => true,
        Top::Tool => true,
        Top::Key => true,
    }
}

/// The command a top-level command without subcommands stands for.
pub open spec fn top_leaf(t: Top) -> Leaf {
    match t {
        Top::Status => Leaf::Status,
        Top::Serve => Leaf::Serve,
        Top::Apply => Leaf::Apply,
        Top::GenerateFlake => Leaf::GenerateFlake,
        _ => Leaf::Status,
    }
}

/// The subcommand of group `t` that a word names.
pub open spec fn sub_of_word(t: Top, w: Seq<char>) -> Option<Leaf> {
    match t {
        Top::Agent => {
            if w == "list"@ {
                Some(Leaf::AgentList)
            } else if w == "create"@ {
                Some(Leaf::AgentCreate)
            } else if w == "get"@ {
                Some(Leaf::AgentGet)
            } else if w == "delete"@ {
                Some(Leaf::AgentDelete)
            } else if w == "enable"@ {
                Some(Leaf::AgentEnable)
            } else if w == "disable"@ {
                Some(Leaf::AgentDisable)
            } else if w == "checkpoint"@ {
                Some(Leaf::AgentCheckpoint)
            } else if w == "rollback"@ {
                Some(Leaf::AgentRollback)
            } else if w == "list-checkpoints"@ {
                Some(Leaf::AgentListCheckpoints)
            } else if w == "delete-checkpoint"@ {
                Some(Leaf::AgentDeleteCheckpoint)
            } else {
                None
            }
        },
        Top::Checkpoint => {
            if w == "clone"@ {
                Some(Leaf::CheckpointClone)
            } else if w == "list"@ {
                Some(Leaf::CheckpointList)
            } else {
                None
            }
        },
        Top::Git => {
            if w == "users"@ {
                Some(Leaf::GitUsers)
            } else if w == "create-user"@ {
                Some(Leaf::GitCreateUser)
            } else if w == "delete-user"@ {
                Some(Leaf::GitDeleteUser)
            } else if w == "orgs"@ {
                Some(Leaf::GitOrgs)
            } else if w == "create-org"@ {
                Some(Leaf::GitCreateOrg)
            } else if w == "delete-org"@ {
                Some(Leaf::GitDeleteOrg)
            } else if w == "repos"@ {
                Some(Leaf::GitRepos)
            } else if w == "create-repo"@ {
                Some(Leaf::GitCreateRepo)
            } else if w == "delete-repo"@ {
                Some(Leaf::GitDeleteRepo)
            } else {
                None
            }
        },
        Top::Config => {
            if w == "export"@ {
                Some(Leaf::ConfigExport)
            } else if w == "import"@ {
                Some(Leaf::ConfigImport)
            } else if w == "sync"@ {
                Some(Leaf::ConfigSync)
            } else {
                None
            }
        },
        Top::Provider => {
            if w == "list"@ {
                Some(Leaf::ProviderList)
            } else if w == "create"@ {
                Some(Leaf::ProviderCreate)
            } else if w == "delete"@ {
                Some(Leaf::ProviderDelete)
            } else {
                None
            }
        },
        Top::Model => {
            if w == "list"@ {
                Some(Leaf::ModelList)
            } else if w == "create"@ {
                Some(Leaf::ModelCreate)
            } else if w == "delete"@ {
                Some(Leaf::ModelDelete)
            } else {
                None
            }
        },
        Top::Skill => {
            if w == "list"@ {
                Some(Leaf::SkillList)
            } else if w == "clone"@ {
                Some(Leaf::SkillClone)
            } else if w == "pull"@ {
                Some(Leaf::SkillPull)
            } else if w == "get"@ {
                Some(Leaf::SkillGet)
            } else if w == "delete"@ {
                Some(Leaf::SkillDelete)
            } else {
                None
            }
        },
        Top::Tool => {
            if w == "list"@ {
                Some(Leaf::ToolList)
            } else if w == "clone"@ {
                Some(Leaf::ToolClone)
            } else if w == "pull"@ {
                Some(Leaf::ToolPull)
            } else if w == "get"@ {
                Some(Leaf::ToolGet)
            } else if w == "delete"@ {
                Some(Leaf::ToolDelete)
            } else if w == "authorize"@ {
                Some(Leaf::ToolAuthorize)
            } else if w == "revoke"@ {
                Some(Leaf::ToolRevoke)
            } else if w == "set-env"@ {
                Some(Leaf::ToolSetEnv)
            } else if w == "list-env"@ {
                Some(Leaf::ToolListEnv)
            } else if w == "delete-env"@ {
                Some(Leaf::ToolDeleteEnv)
            } else if w == "invoke"@ {
                Some(Leaf::ToolInvoke)
            } else {
                None
            }
        },
        Top::Key => {
            if w == "list"@ {
                Some(Leaf::KeyList)
            } else if w == "create"@ {
                Some(Leaf::KeyCreate)
            } else if w == "delete"@ {
                Some(Leaf::KeyDelete)
            } else {
                None
            }
        },
        _ => None,
    }
}

/// How many positional arguments a command takes.
pub open spec fn leaf_arity(l: Leaf) -> nat {
    match l {
        Leaf::Status => 0,
        Leaf::Serve => 0,
        Leaf::Apply => 0,
        Leaf::GenerateFlake => 0,
        Leaf::AgentList => 0,
        Leaf::AgentCreate => 1,
        Leaf::AgentGet => 1,
        Leaf::AgentDelete => 1,
        Leaf::AgentEnable => 1,
        Leaf::AgentDisable => 1,
        Leaf::AgentCheckpoint => 1,
        Leaf::AgentRollback => 2,
        Leaf::AgentListCheckpoints => 1,
        Leaf::AgentDeleteCheckpoint => 1,
        Leaf::CheckpointClone => 2,
        Leaf::CheckpointList => 0,
        Leaf::GitUsers => 0,
        Leaf::GitCreateUser => 3,
        Leaf::GitDeleteUser => 1,
        Leaf::GitOrgs => 0,
        Leaf::GitCreateOrg => 1,
        Leaf::GitDeleteOrg => 1,
        Leaf::GitRepos => 0,
        Leaf::GitCreateRepo => 2,
        Leaf::GitDeleteRepo => 2,
        Leaf::ConfigExport => 0,
        Leaf::ConfigImport => 0,
        Leaf::ConfigSync => 0,
        Leaf::ProviderList => 0,
        Leaf::ProviderCreate => 4,
        Leaf::ProviderDelete => 1,
        Leaf::ModelList => 0,
        Leaf::ModelCreate => 1,
        Leaf::ModelDelete => 1,
        Leaf::SkillList => 0,
        Leaf::SkillClone => 1,
        Leaf::SkillPull => 1,
        Leaf::SkillGet => 1,
        Leaf::SkillDelete => 1,
        Leaf::ToolList => 0,
        Leaf::ToolClone => 1,
        Leaf::ToolPull => 1,
        Leaf::ToolGet => 1,
        Leaf::ToolDelete => 1,
        Leaf::ToolAuthorize => 2,
        Leaf::ToolRevoke => 2,
        Leaf::ToolSetEnv => 3,
        Leaf::ToolListEnv => 1,
        Leaf::ToolDeleteEnv => 2,
        Leaf::ToolInvoke => 1,
        Leaf::KeyList => 0,
        Leaf::KeyCreate => 1,
        Leaf::KeyDelete => 1,
    }
}

/// The options a command takes, in the order of its fields.
pub open spec fn leaf_options(l: Leaf) -> Seq<OptSpec> {
    match l {
        Leaf::Status => Seq::<OptSpec>::empty(),
        Leaf::Serve => Seq::<OptSpec>::empty(),
        Leaf::Apply => seq![OptSpec { short: Some('t'), long: "template", takes_value: true, required: false, path: true }],
        Leaf::GenerateFlake => seq![OptSpec { short: Some('o'), long: "output", takes_value: true, required: false, path: true }, OptSpec { short: Some('t'), long: "template", takes_value: true, required: false, path: true }, OptSpec { short: None, long: "force", takes_value: false, required: false, path: false }],
        Leaf::AgentList => Seq::<OptSpec>::empty(),
        Leaf::AgentCreate => seq![OptSpec { short: Some('f'), long: "forgejo-username", takes_value: true, required: false, path: false }],
        Leaf::AgentGet => Seq::<OptSpec>::empty(),
        Leaf::AgentDelete => Seq::<OptSpec>::empty(),
        Leaf::AgentEnable => Seq::<OptSpec>::empty(),
        Leaf::AgentDisable => Seq::<OptSpec>::empty(),
        Leaf::AgentCheckpoint => seq![OptSpec { short: None, long: "desc", takes_value: true, required: false, path: false }],
        Leaf::AgentRollback => Seq::<OptSpec>::empty(),
        Leaf::AgentListCheckpoints => Seq::<OptSpec>::empty(),
        Leaf::AgentDeleteCheckpoint => Seq::<OptSpec>::empty(),
        Leaf::CheckpointClone => Seq::<OptSpec>::empty(),
        Leaf::CheckpointList => seq![OptSpec { short: Some('a'), long: "agent", takes_value: true, required: false, path: false }],
        Leaf::GitUsers => Seq::<OptSpec>::empty(),
        Leaf::GitCreateUser => Seq::<OptSpec>::empty(),
        Leaf::GitDeleteUser => Seq::<OptSpec>::empty(),
        Leaf::GitOrgs => Seq::<OptSpec>::empty(),
        Leaf::GitCreateOrg => Seq::<OptSpec>::empty(),
        Leaf::GitDeleteOrg => Seq::<OptSpec>::empty(),
        Leaf::GitRepos => Seq::<OptSpec>::empty(),
        Leaf::GitCreateRepo => Seq::<OptSpec>::empty(),
        Leaf::GitDeleteRepo => Seq::<OptSpec>::empty(),
        Leaf::ConfigExport => Seq::<OptSpec>::empty(),
        Leaf::ConfigImport => Seq::<OptSpec>::empty(),
        Leaf::ConfigSync => seq![OptSpec { short: None, long: "delete", takes_value: false, required: false, path: false }],
        Leaf::ProviderList => Seq::<OptSpec>::empty(),
        Leaf::ProviderCreate => Seq::<OptSpec>::empty(),
        Leaf::ProviderDelete => Seq::<OptSpec>::empty(),
        Leaf::ModelList => Seq::<OptSpec>::empty(),
        Leaf::ModelCreate => seq![OptSpec { short: Some('p'), long: "provider", takes_value: true, required: true, path: false }, OptSpec { short: Some('m'), long: "model-name", takes_value: true, required: true, path: false }],
        Leaf::ModelDelete => Seq::<OptSpec>::empty(),
        Leaf::SkillList => Seq::<OptSpec>::empty(),
        Leaf::SkillClone => seq![OptSpec { short: Some('r'), long: "repo", takes_value: true, required: true, path: false }, OptSpec { short: Some('a'), long: "author", takes_value: true, required: true, path: false }],
        Leaf::SkillPull => Seq::<OptSpec>::empty(),
        Leaf::SkillGet => Seq::<OptSpec>::empty(),
        Leaf::SkillDelete => Seq::<OptSpec>::empty(),
        Leaf::ToolList => Seq::<OptSpec>::empty(),
        Leaf::ToolClone => seq![OptSpec { short: Some('r'), long: "repo", takes_value: true, required: true, path: false }, OptSpec { short: Some('a'), long: "author", takes_value: true, required: true, path: false }],
        Leaf::ToolPull => Seq::<OptSpec>::empty(),
        Leaf::ToolGet => Seq::<OptSpec>::empty(),
        Leaf::ToolDelete => Seq::<OptSpec>::empty(),
        Leaf::ToolAuthorize => Seq::<OptSpec>::empty(),
        Leaf::ToolRevoke => Seq::<OptSpec>::empty(),
        Leaf::ToolSetEnv => Seq::<OptSpec>::empty(),
        Leaf::ToolListEnv => Seq::<OptSpec>::empty(),
        Leaf::ToolDeleteEnv => Seq::<OptSpec>::empty(),
        Leaf::ToolInvoke => seq![OptSpec { short: Some('i'), long: "input", takes_value: true, required: true, path: false }],
        Leaf::KeyList => Seq::<OptSpec>::empty(),
        Leaf::KeyCreate => seq![OptSpec { short: Some('p'), long: "provider", takes_value: true, required: true, path: false }],
        Leaf::KeyDelete => Seq::<OptSpec>::empty(),
    }
}

impl Commands {
    /// The command this value stands for, with its positional arguments and
    /// option values in order.
    pub open spec fn shape(&self) -> (Leaf, Seq<Seq<char>>, Seq<Option<Seq<char>>>) {
        match self {
            Commands::Status => (Leaf::Status, Seq::<Seq<char>>::empty(), Seq::<Option<Seq<char>>>::empty()),
            Commands::Serve => (Leaf::Serve, Seq::<Seq<char>>::empty(), Seq::<Option<Seq<char>>>::empty()),
            Commands::Apply { template } => (Leaf::Apply, Seq::<Seq<char>>::empty(), seq![opt_string_view(*template)]),
            Commands::GenerateFlake { output, template, force } => (Leaf::GenerateFlake, Seq::<Seq<char>>::empty(), seq![opt_string_view(*output), opt_string_view(*template), flag_view(*force)]),
            Commands::Agent { command } => command.shape(),
            Commands::Checkpoint { command } => command.shape(),
            Commands::Git { command } => command.shape(),
            Commands::Config { command } => command.shape(),
            Commands::Provider { command } => command.shape(),
            Commands::Model { command } => command.shape(),
            Commands::Skill { command } => command.shape(),
            Commands::Tool { command } => command.shape(),
            Commands::Key { command } => command.shape(),
        }
    }
}

impl AgentCommands {
    /// The command this value stands for, with its positional arguments and
    /// option values in order.
    pub open spec fn shape(&self) -> (Leaf, Seq<Seq<char>>, Seq<Option<Seq<char>>>) {
        match self {
            AgentCommands::List => (Leaf::AgentList, Seq::<Seq<char>>::empty(), Seq::<Option<Seq<char>>>::empty()),
            AgentCommands::Create { name, forgejo_username } => (Leaf::AgentCreate, seq![name@], seq![opt_string_view(*forgejo_username)]),
            AgentCommands::Get { name } => (Leaf::AgentGet, seq![name@], Seq::<Option<Seq<char>>>::empty()),
            AgentCommands::Delete { name } => (Leaf::AgentDelete, seq![name@], Seq::<Option<Seq<char>>>::empty()),
            AgentCommands::Enable { name } => (Leaf::AgentEnable, seq![name@], Seq::<Option<Seq<char>>>::empty()),
            AgentCommands::Disable { name } => (Leaf::AgentDisable, seq![name@], Seq::<Option<Seq<char>>>::empty()),
            AgentCommands::Checkpoint { name, desc } => (Leaf::AgentCheckpoint, seq![name@], seq![opt_string_view(*desc)]),
            AgentCommands::Rollback { name, checkpoint_id } => (Leaf::AgentRollback, seq![name@, checkpoint_id@], Seq::<Option<Seq<char>>>::empty()),
            AgentCommands::ListCheckpoints { name } => (Leaf::AgentListCheckpoints, seq![name@], Seq::<Option<Seq<char>>>::empty()),
            AgentCommands::DeleteCheckpoint { checkpoint_id } => (Leaf::AgentDeleteCheckpoint, seq![checkpoint_id@], Seq::<Option<Seq<char>>>::empty()),
        }
    }
}

impl CheckpointCommands {
    /// The command this value stands for, with its positional arguments and
    /// option values in order.
    pub open spec fn shape(&self) -> (Leaf, Seq<Seq<char>>, Seq<Option<Seq<char>>>) {
        match self {
            CheckpointCommands::Clone { checkpoint_id, new_name } => (Leaf::CheckpointClone, seq![checkpoint_id@, new_name@], Seq::<Option<Seq<char>>>::empty()),
            CheckpointCommands::List { agent } => (Leaf::CheckpointList, Seq::<Seq<char>>::empty(), seq![opt_string_view(*agent)]),
        }
    }
}

impl GitCommands {
    /// The command this value stands for, with its positional arguments and
    /// option values in order.
    pub open spec fn shape(&self) -> (Leaf, Seq<Seq<char>>, Seq<Option<Seq<char>>>) {
        match self {
            GitCommands::Users => (Leaf::GitUsers, Seq::<Seq<char>>::empty(), Seq::<Option<Seq<char>>>::empty()),
            GitCommands::CreateUser { username, password, email } => (Leaf::GitCreateUser, seq![username@, password@, email@], Seq::<Option<Seq<char>>>::empty()),
            GitCommands::DeleteUser { username } => (Leaf::GitDeleteUser, seq![username@], Seq::<Option<Seq<char>>>::empty()),
            GitCommands::Orgs => (Leaf::GitOrgs, Seq::<Seq<char>>::empty(), Seq::<Option<Seq<char>>>::empty()),
            GitCommands::CreateOrg { name } => (Leaf::GitCreateOrg, seq![name@], Seq::<Option<Seq<char>>>::empty()),
            GitCommands::DeleteOrg { name } => (Leaf::GitDeleteOrg, seq![name@], Seq::<Option<Seq<char>>>::empty()),
            GitCommands::Repos => (Leaf::GitRepos, Seq::<Seq<char>>::empty(), Seq::<Option<Seq<char>>>::empty()),
            GitCommands::CreateRepo { owner, name } => (Leaf::GitCreateRepo, seq![owner@, name@], Seq::<Option<Seq<char>>>::empty()),
            GitCommands::DeleteRepo { owner, name } => (Leaf::GitDeleteRepo, seq![owner@, name@], Seq::<Option<Seq<char>>>::empty()),
        }
    }
}

impl ConfigCommands {
    /// The command this value stands for, with its positional arguments and
    /// option values in order.
    pub open spec fn shape(&self) -> (Leaf, Seq<Seq<char>>, Seq<Option<Seq<char>>>) {
        match self {
            ConfigCommands::Export => (Leaf::ConfigExport, Seq::<Seq<char>>::empty(), Seq::<Option<Seq<char>>>::empty()),
            ConfigCommands::Import => (Leaf::ConfigImport, Seq::<Seq<char>>::empty(), Seq::<Option<Seq<char>>>::empty()),
            ConfigCommands::Sync { delete } => (Leaf::ConfigSync, Seq::<Seq<char>>::empty(), seq![flag_view(*delete)]),
        }
    }
}

impl ProviderCommands {
    /// The command this value stands for, with its positional arguments and
    /// option values in order.
    pub open spec fn shape(&self) -> (Leaf, Seq<Seq<char>>, Seq<Option<Seq<char>>>) {
        match self {
            ProviderCommands::List => (Leaf::ProviderList, Seq::<Seq<char>>::empty(), Seq::<Option<Seq<char>>>::empty()),
            ProviderCommands::Create { name, provider_type, base_url, api_key } => (Leaf::ProviderCreate, seq![name@, provider_type@, base_url@, api_key@], Seq::<Option<Seq<char>>>::empty()),
            ProviderCommands::Delete { id } => (Leaf::ProviderDelete, seq![id@], Seq::<Option<Seq<char>>>::empty()),
        }
    }
}

impl ModelCommands {
    /// The command this value stands for, with its positional arguments and
    /// option values in order.
    pub open spec fn shape(&self) -> (Leaf, Seq<Seq<char>>, Seq<Option<Seq<char>>>) {
        match self {
            ModelCommands::List => (Leaf::ModelList, Seq::<Seq<char>>::empty(), Seq::<Option<Seq<char>>>::empty()),
            ModelCommands::Create { name, provider, model_name } => (Leaf::ModelCreate, seq![name@], seq![Some(provider@), Some(model_name@)]),
            ModelCommands::Delete { id } => (Leaf::ModelDelete, seq![id@], Seq::<Option<Seq<char>>>::empty()),
        }
    }
}

impl SkillCommands {
    /// The command this value stands for, with its positional arguments and
    /// option values in order.
    pub open spec fn shape(&self) -> (Leaf, Seq<Seq<char>>, Seq<Option<Seq<char>>>) {
        match self {
            SkillCommands::List => (Leaf::SkillList, Seq::<Seq<char>>::empty(), Seq::<Option<Seq<char>>>::empty()),
            SkillCommands::Clone { slug, repo, author } => (Leaf::SkillClone, seq![slug@], seq![Some(repo@), Some(author@)]),
            SkillCommands::Pull { slug } => (Leaf::SkillPull, seq![slug@], Seq::<Option<Seq<char>>>::empty()),
            SkillCommands::Get { slug } => (Leaf::SkillGet, seq![slug@], Seq::<Option<Seq<char>>>::empty()),
            SkillCommands::Delete { slug } => (Leaf::SkillDelete, seq![slug@], Seq::<Option<Seq<char>>>::empty()),
        }
    }
}

impl ToolCommands {
    /// The command this value stands for, with its positional arguments and
    /// option values in order.
    pub open spec fn shape(&self) -> (Leaf, Seq<Seq<char>>, Seq<Option<Seq<char>>>) {
        match self {
            ToolCommands::List => (Leaf::ToolList, Seq::<Seq<char>>::empty(), Seq::<Option<Seq<char>>>::empty()),
            ToolCommands::Clone { slug, repo, author } => (Leaf::ToolClone, seq![slug@], seq![Some(repo@), Some(author@)]),
            ToolCommands::Pull { slug } => (Leaf::ToolPull, seq![slug@], Seq::<Option<Seq<char>>>::empty()),
            ToolCommands::Get { slug } => (Leaf::ToolGet, seq![slug@], Seq::<Option<Seq<char>>>::empty()),
            ToolCommands::Delete { slug } => (Leaf::ToolDelete, seq![slug@], Seq::<Option<Seq<char>>>::empty()),
            ToolCommands::Authorize { slug, agent_name } => (Leaf::ToolAuthorize, seq![slug@, agent_name@], Seq::<Option<Seq<char>>>::empty()),
            ToolCommands::Revoke { slug, agent_name } => (Leaf::ToolRevoke, seq![slug@, agent_name@], Seq::<Option<Seq<char>>>::empty()),
            ToolCommands::SetEnv { slug, key, value } => (Leaf::ToolSetEnv, seq![slug@, key@, value@], Seq::<Option<Seq<char>>>::empty()),
            ToolCommands::ListEnv { slug } => (Leaf::ToolListEnv, seq![slug@], Seq::<Option<Seq<char>>>::empty()),
            ToolCommands::DeleteEnv { slug, key } => (Leaf::ToolDeleteEnv, seq![slug@, key@], Seq::<Option<Seq<char>>>::empty()),
            ToolCommands::Invoke { slug, input } => (Leaf::ToolInvoke, seq![slug@], seq![Some(input@)]),
        }
    }
}

impl KeyCommands {
    /// The command this value stands for, with its positional arguments and
    /// option values in order.
    pub open spec fn shape(&self) -> (Leaf, Seq<Seq<char>>, Seq<Option<Seq<char>>>) {
        match self {
            KeyCommands::List => (Leaf::KeyList, Seq::<Seq<char>>::empty(), Seq::<Option<Seq<char>>>::empty()),
            KeyCommands::Create { name, provider } => (Leaf::KeyCreate, seq![name@], seq![Some(provider@)]),
            KeyCommands::Delete { id } => (Leaf::KeyDelete, seq![id@], Seq::<Option<Seq<char>>>::empty()),
        }
    }
}

/// The top-level command a word names.
fn top_of_word_exec(w: &Vec<char>) -> (r: Option<Top>)
    ensures
        r == top_of_word(w@),
{
    if chars_eq_str(w, "status") {
        return Some(Top::Status);
    }
    if chars_eq_str(w, "serve") {
        return Some(Top::Serve);
    }
    if chars_eq_str(w, "apply") {
        return Some(Top::Apply);
    }
    if chars_eq_str(w, "generate-flake") {
        return Some(Top::GenerateFlake);
    }
    if chars_eq_str(w, "agent") {
        return Some(Top::Agent);
    }
    if chars_eq_str(w, "checkpoint") {
        return Some(Top::Checkpoint);
    }
    if chars_eq_str(w, "git") {
        return Some(Top::Git);
    }
    if chars_eq_str(w, "config") {
        return Some(Top::Config);
    }
    if chars_eq_str(w, "provider") {
        return Some(Top::Provider);
    }
    if chars_eq_str(w, "model") {
        return Some(Top::Model);
    }
    if chars_eq_str(w, "skill") {
        return Some(Top::Skill);
    }
    if chars_eq_str(w, "tool") {
        return Some(Top::Tool);
    }
    if chars_eq_str(w, "key") {
        return Some(Top::Key);
    }
    None
}

/// Whether a top-level command has subcommands.
fn is_group_exec(t: Top) -> (b: bool)
    ensures
        b == is_group(t),
{
    match t {
        Top::Status => false,
        Top::Serve => false,
        Top::Apply => false,
        Top::GenerateFlake => false,
        Top::Agent => true,
        Top::Checkpoint => true,
        Top::Git => true,
        Top::Config => true,
        Top::Provider => true,
        Top::Model => true,
        Top::Skill => true,
        Top::Tool => true,
        Top::Key => true,
    }
}

/// The command a top-level command without subcommands stands for.
fn top_leaf_exec(t: Top) -> (l: Leaf)
    ensures
        l == top_leaf(t),
{
    match t {
        Top::Status => Leaf::Status,
        Top::Serve => Leaf::Serve,
        Top::Apply => Leaf::Apply,
        Top::GenerateFlake => Leaf::GenerateFlake,
        _ => Leaf::Status,
    }
}

/// The subcommand of group `t` that a word names.
fn sub_of_word_exec(t: Top, w: &Vec<char>) -> (r: Option<Leaf>)
    ensures
        r == sub_of_word(t, w@),
{
    match t {
        Top::Agent => {
            if chars_eq_str(w, "list") {
                return Some(Leaf::AgentList);
            }
            if chars_eq_str(w, "create") {
                return Some(Leaf::AgentCreate);
            }
            if chars_eq_str(w, "get") {
                return Some(Leaf::AgentGet);
            }
            if chars_eq_str(w, "delete") {
                return Some(Leaf::AgentDelete);
            }
            if chars_eq_str(w, "enable") {
                return Some(Leaf::AgentEnable);
            }
            if chars_eq_str(w, "disable") {
                return Some(Leaf::AgentDisable);
            }
            if chars_eq_str(w, "checkpoint") {
                return Some(Leaf::AgentCheckpoint);
            }
            if chars_eq_str(w, "rollback") {
                return Some(Leaf::AgentRollback);
            }
            if chars_eq_str(w, "list-checkpoints") {
                return Some(Leaf::AgentListCheckpoints);
            }
            if chars_eq_str(w, "delete-checkpoint") {
                return Some(Leaf::AgentDeleteCheckpoint);
            }
            None
        },
        Top::Checkpoint => {
            if chars_eq_str(w, "clone") {
                return Some(Leaf::CheckpointClone);
            }
            if chars_eq_str(w, "list") {
                return Some(Leaf::CheckpointList);
            }
            None
        },
        Top::Git => {
            if chars_eq_str(w, "users") {
                return Some(Leaf::GitUsers);
            }
            if chars_eq_str(w, "create-user") {
                return Some(Leaf::GitCreateUser);
            }
            if chars_eq_str(w, "delete-user") {
                return Some(Leaf::GitDeleteUser);
            }
            if chars_eq_str(w, "orgs") {
                return Some(Leaf::GitOrgs);
            }
            if chars_eq_str(w, "create-org") {
                return Some(Leaf::GitCreateOrg);
            }
            if chars_eq_str(w, "delete-org") {
                return Some(Leaf::GitDeleteOrg);
            }
            if chars_eq_str(w, "repos") {
                return Some(Leaf::GitRepos);
            }
            if chars_eq_str(w, "create-repo") {
                return Some(Leaf::GitCreateRepo);
            }
            if chars_eq_str(w, "delete-repo") {
                return Some(Leaf::GitDeleteRepo);
            }
            None
        },
        Top::Config => {
            if chars_eq_str(w, "export") {
                return Some(Leaf::ConfigExport);
            }
            if chars_eq_str(w, "import") {
                return Some(Leaf::ConfigImport);
            }
            if chars_eq_str(w, "sync") {
                return Some(Leaf::ConfigSync);
            }
            None
        },
        Top::Provider => {
            if chars_eq_str(w, "list") {
                return Some(Leaf::ProviderList);
            }
            if chars_eq_str(w, "create") {
                return Some(Leaf::ProviderCreate);
            }
            if chars_eq_str(w, "delete") {
                return Some(Leaf::ProviderDelete);
            }
            None
        },
        Top::Model => {
            if chars_eq_str(w, "list") {
                return Some(Leaf::ModelList);
            }
            if chars_eq_str(w, "create") {
                return Some(Leaf::ModelCreate);
            }
            if chars_eq_str(w, "delete") {
                return Some(Leaf::ModelDelete);
            }
            None
        },
        Top::Skill => {
            if chars_eq_str(w, "list") {
                return Some(Leaf::SkillList);
            }
            if chars_eq_str(w, "clone") {
                return Some(Leaf::SkillClone);
            }
            if chars_eq_str(w, "pull") {
                return Some(Leaf::SkillPull);
            }
            if chars_eq_str(w, "get") {
                return Some(Leaf::SkillGet);
            }
            if chars_eq_str(w, "delete") {
                return Some(Leaf::SkillDelete);
            }
            None
        },
        Top::Tool => {
            if chars_eq_str(w, "list") {
                return Some(Leaf::ToolList);
            }
            if chars_eq_str(w, "clone") {
                return Some(Leaf::ToolClone);
            }
            if chars_eq_str(w, "pull") {
                return Some(Leaf::ToolPull);
            }
            if chars_eq_str(w, "get") {
                return Some(Leaf::ToolGet);
            }
            if chars_eq_str(w, "delete") {
                return Some(Leaf::ToolDelete);
            }
            if chars_eq_str(w, "authorize") {
                return Some(Leaf::ToolAuthorize);
            }
            if chars_eq_str(w, "revoke") {
                return Some(Leaf::ToolRevoke);
            }
            if chars_eq_str(w, "set-env") {
                return Some(Leaf::ToolSetEnv);
            }
            if chars_eq_str(w, "list-env") {
                return Some(Leaf::ToolListEnv);
            }
            if chars_eq_str(w, "delete-env") {
                return Some(Leaf::ToolDeleteEnv);
            }
            if chars_eq_str(w, "invoke") {
                return Some(Leaf::ToolInvoke);
            }
            None
        },
        Top::Key => {
            if chars_eq_str(w, "list") {
                return Some(Leaf::KeyList);
            }
            if chars_eq_str(w, "create") {
                return Some(Leaf::KeyCreate);
            }
            if chars_eq_str(w, "delete") {
                return Some(Leaf::KeyDelete);
            }
            None
        },
        _ => None,
    }
}

/// How many positional arguments a command takes.
fn leaf_arity_exec(l: Leaf) -> (n: usize)
    ensures
        n == leaf_arity(l),
{
    match l {
        Leaf::Status => 0,
        Leaf::Serve => 0,
        Leaf::Apply => 0,
        Leaf::GenerateFlake => 0,
        Leaf::AgentList => 0,
        Leaf::AgentCreate => 1,
        Leaf::AgentGet => 1,
        Leaf::AgentDelete => 1,
        Leaf::AgentEnable => 1,
        Leaf::AgentDisable => 1,
        Leaf::AgentCheckpoint => 1,
        Leaf::AgentRollback => 2,
        Leaf::AgentListCheckpoints => 1,
        Leaf::AgentDeleteCheckpoint => 1,
        Leaf::CheckpointClone => 2,
        Leaf::CheckpointList => 0,
        Leaf::GitUsers => 0,
        Leaf::GitCreateUser => 3,
        Leaf::GitDeleteUser => 1,
        Leaf::GitOrgs => 0,
        Leaf::GitCreateOrg => 1,
        Leaf::GitDeleteOrg => 1,
        Leaf::GitRepos => 0,
        Leaf::GitCreateRepo => 2,
        Leaf::GitDeleteRepo => 2,
        Leaf::ConfigExport => 0,
        Leaf::ConfigImport => 0,
        Leaf::ConfigSync => 0,
        Leaf::ProviderList => 0,
        Leaf::ProviderCreate => 4,
        Leaf::ProviderDelete => 1,
        Leaf::ModelList => 0,
        Leaf::ModelCreate => 1,
        Leaf::ModelDelete => 1,
        Leaf::SkillList => 0,
        Leaf::SkillClone => 1,
        Leaf::SkillPull => 1,
        Leaf::SkillGet => 1,
        Leaf::SkillDelete => 1,
        Leaf::ToolList => 0,
        Leaf::ToolClone => 1,
        Leaf::ToolPull => 1,
        Leaf::ToolGet => 1,
        Leaf::ToolDelete => 1,
        Leaf::ToolAuthorize => 2,
        Leaf::ToolRevoke => 2,
        Leaf::ToolSetEnv => 3,
        Leaf::ToolListEnv => 1,
        Leaf::ToolDeleteEnv => 2,
        Leaf::ToolInvoke => 1,
        Leaf::KeyList => 0,
        Leaf::KeyCreate => 1,
        Leaf::KeyDelete => 1,
    }
}

/// The options a command takes, in the order of its fields.
fn leaf_options_exec(l: Leaf) -> (v: Vec<OptSpec>)
    ensures
        v@ == leaf_options(l),
{
    let v: Vec<OptSpec> = match l {
        Leaf::Status => Vec::new(),
        Leaf::Serve => Vec::new(),
        Leaf::Apply => vec![OptSpec { short: Some('t'), long: "template", takes_value: true, required: false, path: true }],
        Leaf::GenerateFlake => vec![OptSpec { short: Some('o'), long: "output", takes_value: true, required: false, path: true }, OptSpec { short: Some('t'), long: "template", takes_value: true, required: false, path: true }, OptSpec { short: None, long: "force", takes_value: false, required: false, path: false }],
        Leaf::AgentList => Vec::new(),
        Leaf::AgentCreate => vec![OptSpec { short: Some('f'), long: "forgejo-username", takes_value: true, required: false, path: false }],
        Leaf::AgentGet => Vec::new(),
        Leaf::AgentDelete => Vec::new(),
        Leaf::AgentEnable => Vec::new(),
        Leaf::AgentDisable => Vec::new(),
        Leaf::AgentCheckpoint => vec![OptSpec { short: None, long: "desc", takes_value: true, required: false, path: false }],
        Leaf::AgentRollback => Vec::new(),
        Leaf::AgentListCheckpoints => Vec::new(),
        Leaf::AgentDeleteCheckpoint => Vec::new(),
        Leaf::CheckpointClone => Vec::new(),
        Leaf::CheckpointList => vec![OptSpec { short: Some('a'), long: "agent", takes_value: true, required: false, path: false }],
        Leaf::GitUsers => Vec::new(),
        Leaf::GitCreateUser => Vec::new(),
        Leaf::GitDeleteUser => Vec::new(),
        Leaf::GitOrgs => Vec::new(),
        Leaf::GitCreateOrg => Vec::new(),
        Leaf::GitDeleteOrg => Vec::new(),
        Leaf::GitRepos => Vec::new(),
        Leaf::GitCreateRepo => Vec::new(),
        Leaf::GitDeleteRepo => Vec::new(),
        Leaf::ConfigExport => Vec::new(),
        Leaf::ConfigImport => Vec::new(),
        Leaf::ConfigSync => vec![OptSpec { short: None, long: "delete", takes_value: false, required: false, path: false }],
        Leaf::ProviderList => Vec::new(),
        Leaf::ProviderCreate => Vec::new(),
        Leaf::ProviderDelete => Vec::new(),
        Leaf::ModelList => Vec::new(),
        Leaf::ModelCreate => vec![OptSpec { short: Some('p'), long: "provider", takes_value: true, required: true, path: false }, OptSpec { short: Some('m'), long: "model-name", takes_value: true, required: true, path: false }],
        Leaf::ModelDelete => Vec::new(),
        Leaf::SkillList => Vec::new(),
        Leaf::SkillClone => vec![OptSpec { short: Some('r'), long: "repo", takes_value: true, required: true, path: false }, OptSpec { short: Some('a'), long: "author", takes_value: true, required: true, path: false }],
        Leaf::SkillPull => Vec::new(),
        Leaf::SkillGet => Vec::new(),
        Leaf::SkillDelete => Vec::new(),
        Leaf::ToolList => Vec::new(),
        Leaf::ToolClone => vec![OptSpec { short: Some('r'), long: "repo", takes_value: true, required: true, path: false }, OptSpec { short: Some('a'), long: "author", takes_value: true, required: true, path: false }],
        Leaf::ToolPull => Vec::new(),
        Leaf::ToolGet => Vec::new(),
        Leaf::ToolDelete => Vec::new(),
        Leaf::ToolAuthorize => Vec::new(),
        Leaf::ToolRevoke => Vec::new(),
        Leaf::ToolSetEnv => Vec::new(),
        Leaf::ToolListEnv => Vec::new(),
        Leaf::ToolDeleteEnv => Vec::new(),
        Leaf::ToolInvoke => vec![OptSpec { short: Some('i'), long: "input", takes_value: true, required: true, path: false }],
        Leaf::KeyList => Vec::new(),
        Leaf::KeyCreate => vec![OptSpec { short: Some('p'), long: "provider", takes_value: true, required: true, path: false }],
        Leaf::KeyDelete => Vec::new(),
    };
    proof {
        assert(v@ =~= leaf_options(l));
    }
    v
}

/// The command `l` with the given positional arguments and option values.
fn build_command(l: Leaf, pos: &Vec<Vec<char>>, vals: &Vec<Option<Vec<char>>>) -> (c: Commands)
    requires
        pos@.len() == leaf_arity(l),
        vals@.len() == leaf_options(l).len(),
        forall|k: int| 0 <= k < vals@.len() && leaf_options(l)[k].required ==> (#[trigger] opts_view(vals@)[k]) is Some,
        flags_ok(leaf_options(l), opts_view(vals@)),
    ensures
        c.shape() == (l, toks_view(pos@), opts_view(vals@)),
{
    match l {
        Leaf::Status => {
            let c = Commands::Status;
            proof {
                assert(toks_view(pos@) =~= Seq::<Seq<char>>::empty());
                assert(opts_view(vals@) =~= Seq::<Option<Seq<char>>>::empty());
            }
            c
        },
        Leaf::Serve => {
            let c = Commands::Serve;
            proof {
                assert(toks_view(pos@) =~= Seq::<Seq<char>>::empty());
                assert(opts_view(vals@) =~= Seq::<Option<Seq<char>>>::empty());
            }
            c
        },
        Leaf::Apply => {
            let template = match &vals[0] { Some(x) => Some(string_of(x)), None => None };
            let c = Commands::Apply { template };
            proof {
                assert(toks_view(pos@) =~= Seq::<Seq<char>>::empty());
                assert(opts_view(vals@) =~= seq![opt_chars(vals@[0])]);
            }
            c
        },
        Leaf::GenerateFlake => {
            let output = match &vals[0] { Some(x) => Some(string_of(x)), None => None };
            let template = match &vals[1] { Some(x) => Some(string_of(x)), None => None };
            let force = vals[2].is_some();
            let c = Commands::GenerateFlake { output, template, force };
            proof {
                assert(toks_view(pos@) =~= Seq::<Seq<char>>::empty());
                assert(opts_view(vals@) =~= seq![opt_chars(vals@[0]), opt_chars(vals@[1]), opt_chars(vals@[2])]);
                assert(opts_view(vals@)[2] == opt_chars(vals@[2]));
            }
            c
        },
        Leaf::AgentList => {
            let c = Commands::Agent { command: AgentCommands::List };
            proof {
                assert(toks_view(pos@) =~= Seq::<Seq<char>>::empty());
                assert(opts_view(vals@) =~= Seq::<Option<Seq<char>>>::empty());
            }
            c
        },
        Leaf::AgentCreate => {
            let name = string_of(&pos[0]);
            let forgejo_username = match &vals[0] { Some(x) => Some(string_of(x)), None => None };
            let c = Commands::Agent { command: AgentCommands::Create { name, forgejo_username } };
            proof {
                assert(toks_view(pos@) =~= seq![pos@[0]@]);
                assert(opts_view(vals@) =~= seq![opt_chars(vals@[0])]);
            }
            c
        },
        Leaf::AgentGet => {
            let name = string_of(&pos[0]);
            let c = Commands::Agent { command: AgentCommands::Get { name } };
            proof {
                assert(toks_view(pos@) =~= seq![pos@[0]@]);
                assert(opts_view(vals@) =~= Seq::<Option<Seq<char>>>::empty());
            }
            c
        },
        Leaf::AgentDelete => {
            let name = string_of(&pos[0]);
            let c = Commands::Agent { command: AgentCommands::Delete { name } };
            proof {
                assert(toks_view(pos@) =~= seq![pos@[0]@]);
                assert(opts_view(vals@) =~= Seq::<Option<Seq<char>>>::empty());
            }
            c
        },
        Leaf::AgentEnable => {
            let name = string_of(&pos[0]);
            let c = Commands::Agent { command: AgentCommands::Enable { name } };
            proof {
                assert(toks_view(pos@) =~= seq![pos@[0]@]);
                assert(opts_view(vals@) =~= Seq::<Option<Seq<char>>>::empty());
            }
            c
        },
        Leaf::AgentDisable => {
            let name = string_of(&pos[0]);
            let c = Commands::Agent { command: AgentCommands::Disable { name } };
            proof {
                assert(toks_view(pos@) =~= seq![pos@[0]@]);
                assert(opts_view(vals@) =~= Seq::<Option<Seq<char>>>::empty());
            }
            c
        },
        Leaf::AgentCheckpoint => {
            let name = string_of(&pos[0]);
            let desc = match &vals[0] { Some(x) => Some(string_of(x)), None => None };
            let c = Commands::Agent { command: AgentCommands::Checkpoint { name, desc } };
            proof {
                assert(toks_view(pos@) =~= seq![pos@[0]@]);
                assert(opts_view(vals@) =~= seq![opt_chars(vals@[0])]);
            }
            c
        },
        Leaf::AgentRollback => {
            let name = string_of(&pos[0]);
            let checkpoint_id = string_of(&pos[1]);
            let c = Commands::Agent { command: AgentCommands::Rollback { name, checkpoint_id } };
            proof {
                assert(toks_view(pos@) =~= seq![pos@[0]@, pos@[1]@]);
                assert(opts_view(vals@) =~= Seq::<Option<Seq<char>>>::empty());
            }
            c
        },
        Leaf::AgentListCheckpoints => {
            let name = string_of(&pos[0]);
            let c = Commands::Agent { command: AgentCommands::ListCheckpoints { name } };
            proof {
                assert(toks_view(pos@) =~= seq![pos@[0]@]);
                assert(opts_view(vals@) =~= Seq::<Option<Seq<char>>>::empty());
            }
            c
        },
        Leaf::AgentDeleteCheckpoint => {
            let checkpoint_id = string_of(&pos[0]);
            let c = Commands::Agent { command: AgentCommands::DeleteCheckpoint { checkpoint_id } };
            proof {
                assert(toks_view(pos@) =~= seq![pos@[0]@]);
                assert(opts_view(vals@) =~= Seq::<Option<Seq<char>>>::empty());
            }
            c
        },
        Leaf::CheckpointClone => {
            let checkpoint_id = string_of(&pos[0]);
            let new_name = string_of(&pos[1]);
            let c = Commands::Checkpoint { command: CheckpointCommands::Clone { checkpoint_id, new_name } };
            proof {
                assert(toks_view(pos@) =~= seq![pos@[0]@, pos@[1]@]);
                assert(opts_view(vals@) =~= Seq::<Option<Seq<char>>>::empty());
            }
            c
        },
        Leaf::CheckpointList => {
            let agent = match &vals[0] { Some(x) => Some(string_of(x)), None => None };
            let c = Commands::Checkpoint { command: CheckpointCommands::List { agent } };
            proof {
                assert(toks_view(pos@) =~= Seq::<Seq<char>>::empty());
                assert(opts_view(vals@) =~= seq![opt_chars(vals@[0])]);
            }
            c
        },
        Leaf::GitUsers => {
            let c = Commands::Git { command: GitCommands::Users };
            proof {
                assert(toks_view(pos@) =~= Seq::<Seq<char>>::empty());
                assert(opts_view(vals@) =~= Seq::<Option<Seq<char>>>::empty());
            }
            c
        },
        Leaf::GitCreateUser => {
            let username = string_of(&pos[0]);
            let password = string_of(&pos[1]);
            let email = string_of(&pos[2]);
            let c = Commands::Git { command: GitCommands::CreateUser { username, password, email } };
            proof {
                assert(toks_view(pos@) =~= seq![pos@[0]@, pos@[1]@, pos@[2]@]);
                assert(opts_view(vals@) =~= Seq::<Option<Seq<char>>>::empty());
            }
            c
        },
        Leaf::GitDeleteUser => {
            let username = string_of(&pos[0]);
            let c = Commands::Git { command: GitCommands::DeleteUser { username } };
            proof {
                assert(toks_view(pos@) =~= seq![pos@[0]@]);
                assert(opts_view(vals@) =~= Seq::<Option<Seq<char>>>::empty());
            }
            c
        },
        Leaf::GitOrgs => {
            let c = Commands::Git { command: GitCommands::Orgs };
            proof {
                assert(toks_view(pos@) =~= Seq::<Seq<char>>::empty());
                assert(opts_view(vals@) =~= Seq::<Option<Seq<char>>>::empty());
            }
            c
        },
        Leaf::GitCreateOrg => {
            let name = string_of(&pos[0]);
            let c = Commands::Git { command: GitCommands::CreateOrg { name } };
            proof {
                assert(toks_view(pos@) =~= seq![pos@[0]@]);
                assert(opts_view(vals@) =~= Seq::<Option<Seq<char>>>::empty());
            }
            c
        },
        Leaf::GitDeleteOrg => {
            let name = string_of(&pos[0]);
            let c = Commands::Git { command: GitCommands::DeleteOrg { name } };
            proof {
                assert(toks_view(pos@) =~= seq![pos@[0]@]);
                assert(opts_view(vals@) =~= Seq::<Option<Seq<char>>>::empty());
            }
            c
        },
        Leaf::GitRepos => {
            let c = Commands::Git { command: GitCommands::Repos };
            proof {
                assert(toks_view(pos@) =~= Seq::<Seq<char>>::empty());
                assert(opts_view(vals@) =~= Seq::<Option<Seq<char>>>::empty());
            }
            c
        },
        Leaf::GitCreateRepo => {
            let owner = string_of(&pos[0]);
            let name = string_of(&pos[1]);
            let c = Commands::Git { command: GitCommands::CreateRepo { owner, name } };
            proof {
                assert(toks_view(pos@) =~= seq![pos@[0]@, pos@[1]@]);
                assert(opts_view(vals@) =~= Seq::<Option<Seq<char>>>::empty());
            }
            c
        },
        Leaf::GitDeleteRepo => {
            let owner = string_of(&pos[0]);
            let name = string_of(&pos[1]);
            let c = Commands::Git { command: GitCommands::DeleteRepo { owner, name } };
            proof {
                assert(toks_view(pos@) =~= seq![pos@[0]@, pos@[1]@]);
                assert(opts_view(vals@) =~= Seq::<Option<Seq<char>>>::empty());
            }
            c
        },
        Leaf::ConfigExport => {
            let c = Commands::Config { command: ConfigCommands::Export };
            proof {
                assert(toks_view(pos@) =~= Seq::<Seq<char>>::empty());
                assert(opts_view(vals@) =~= Seq::<Option<Seq<char>>>::empty());
            }
            c
        },
        Leaf::ConfigImport => {
            let c = Commands::Config { command: ConfigCommands::Import };
            proof {
                assert(toks_view(pos@) =~= Seq::<Seq<char>>::empty());
                assert(opts_view(vals@) =~= Seq::<Option<Seq<char>>>::empty());
            }
            c
        },
        Leaf::ConfigSync => {
            let delete = vals[0].is_some();
            let c = Commands::Config { command: ConfigCommands::Sync { delete } };
            proof {
                assert(toks_view(pos@) =~= Seq::<Seq<char>>::empty());
                assert(opts_view(vals@) =~= seq![opt_chars(vals@[0])]);
                assert(opts_view(vals@)[0] == opt_chars(vals@[0]));
            }
            c
        },
        Leaf::ProviderList => {
            let c = Commands::Provider { command: ProviderCommands::List };
            proof {
                assert(toks_view(pos@) =~= Seq::<Seq<char>>::empty());
                assert(opts_view(vals@) =~= Seq::<Option<Seq<char>>>::empty());
            }
            c
        },
        Leaf::ProviderCreate => {
            let name = string_of(&pos[0]);
            let provider_type = string_of(&pos[1]);
            let base_url = string_of(&pos[2]);
            let api_key = string_of(&pos[3]);
            let c = Commands::Provider { command: ProviderCommands::Create { name, provider_type, base_url, api_key } };
            proof {
                assert(toks_view(pos@) =~= seq![pos@[0]@, pos@[1]@, pos@[2]@, pos@[3]@]);
                assert(opts_view(vals@) =~= Seq::<Option<Seq<char>>>::empty());
            }
            c
        },
        Leaf::ProviderDelete => {
            let id = string_of(&pos[0]);
            let c = Commands::Provider { command: ProviderCommands::Delete { id } };
            proof {
                assert(toks_view(pos@) =~= seq![pos@[0]@]);
                assert(opts_view(vals@) =~= Seq::<Option<Seq<char>>>::empty());
            }
            c
        },
        Leaf::ModelList => {
            let c = Commands::Model { command: ModelCommands::List };
            proof {
                assert(toks_view(pos@) =~= Seq::<Seq<char>>::empty());
                assert(opts_view(vals@) =~= Seq::<Option<Seq<char>>>::empty());
            }
            c
        },
        Leaf::ModelCreate => {
            let name = string_of(&pos[0]);
            let provider = match &vals[0] { Some(x) => string_of(x), None => String::new() };
            let model_name = match &vals[1] { Some(x) => string_of(x), None => String::new() };
            let c = Commands::Model { command: ModelCommands::Create { name, provider, model_name } };
            proof {
                assert(toks_view(pos@) =~= seq![pos@[0]@]);
                assert(opts_view(vals@) =~= seq![opt_chars(vals@[0]), opt_chars(vals@[1])]);
            }
            c
        },
        Leaf::ModelDelete => {
            let id = string_of(&pos[0]);
            let c = Commands::Model { command: ModelCommands::Delete { id } };
            proof {
                assert(toks_view(pos@) =~= seq![pos@[0]@]);
                assert(opts_view(vals@) =~= Seq::<Option<Seq<char>>>::empty());
            }
            c
        },
        Leaf::SkillList => {
            let c = Commands::Skill { command: SkillCommands::List };
            proof {
                assert(toks_view(pos@) =~= Seq::<Seq<char>>::empty());
                assert(opts_view(vals@) =~= Seq::<Option<Seq<char>>>::empty());
            }
            c
        },
        Leaf::SkillClone => {
            let slug = string_of(&pos[0]);
            let repo = match &vals[0] { Some(x) => string_of(x), None => String::new() };
            let author = match &vals[1] { Some(x) => string_of(x), None => String::new() };
            let c = Commands::Skill { command: SkillCommands::Clone { slug, repo, author } };
            proof {
                assert(toks_view(pos@) =~= seq![pos@[0]@]);
                assert(opts_view(vals@) =~= seq![opt_chars(vals@[0]), opt_chars(vals@[1])]);
            }
            c
        },
        Leaf::SkillPull => {
            let slug = string_of(&pos[0]);
            let c = Commands::Skill { command: SkillCommands::Pull { slug } };
            proof {
                assert(toks_view(pos@) =~= seq![pos@[0]@]);
                assert(opts_view(vals@) =~= Seq::<Option<Seq<char>>>::empty());
            }
            c
        },
        Leaf::SkillGet => {
            let slug = string_of(&pos[0]);
            let c = Commands::Skill { command: SkillCommands::Get { slug } };
            proof {
                assert(toks_view(pos@) =~= seq![pos@[0]@]);
                assert(opts_view(vals@) =~= Seq::<Option<Seq<char>>>::empty());
            }
            c
        },
        Leaf::SkillDelete => {
            let slug = string_of(&pos[0]);
            let c = Commands::Skill { command: SkillCommands::Delete { slug } };
            proof {
                assert(toks_view(pos@) =~= seq![pos@[0]@]);
                assert(opts_view(vals@) =~= Seq::<Option<Seq<char>>>::empty());
            }
            c
        },
        Leaf::ToolList => {
            let c = Commands::Tool { command: ToolCommands::List };
            proof {
                assert(toks_view(pos@) =~= Seq::<Seq<char>>::empty());
                assert(opts_view(vals@) =~= Seq::<Option<Seq<char>>>::empty());
            }
            c
        },
        Leaf::ToolClone => {
            let slug = string_of(&pos[0]);
            let repo = match &vals[0] { Some(x) => string_of(x), None => String::new() };
            let author = match &vals[1] { Some(x) => string_of(x), None => String::new() };
            let c = Commands::Tool { command: ToolCommands::Clone { slug, repo, author } };
            proof {
                assert(toks_view(pos@) =~= seq![pos@[0]@]);
                assert(opts_view(vals@) =~= seq![opt_chars(vals@[0]), opt_chars(vals@[1])]);
            }
            c
        },
        Leaf::ToolPull => {
            let slug = string_of(&pos[0]);
            let c = Commands::Tool { command: ToolCommands::Pull { slug } };
            proof {
                assert(toks_view(pos@) =~= seq![pos@[0]@]);
                assert(opts_view(vals@) =~= Seq::<Option<Seq<char>>>::empty());
            }
            c
        },
        Leaf::ToolGet => {
            let slug = string_of(&pos[0]);
            let c = Commands::Tool { command: ToolCommands::Get { slug } };
            proof {
                assert(toks_view(pos@) =~= seq![pos@[0]@]);
                assert(opts_view(vals@) =~= Seq::<Option<Seq<char>>>::empty());
            }
            c
        },
        Leaf::ToolDelete => {
            let slug = string_of(&pos[0]);
            let c = Commands::Tool { command: ToolCommands::Delete { slug } };
            proof {
                assert(toks_view(pos@) =~= seq![pos@[0]@]);
                assert(opts_view(vals@) =~= Seq::<Option<Seq<char>>>::empty());
            }
            c
        },
        Leaf::ToolAuthorize => {
            let slug = string_of(&pos[0]);
            let agent_name = string_of(&pos[1]);
            let c = Commands::Tool { command: ToolCommands::Authorize { slug, agent_name } };
            proof {
                assert(toks_view(pos@) =~= seq![pos@[0]@, pos@[1]@]);
                assert(opts_view(vals@) =~= Seq::<Option<Seq<char>>>::empty());
            }
            c
        },
        Leaf::ToolRevoke => {
            let slug = string_of(&pos[0]);
            let agent_name = string_of(&pos[1]);
            let c = Commands::Tool { command: ToolCommands::Revoke { slug, agent_name } };
            proof {
                assert(toks_view(pos@) =~= seq![pos@[0]@, pos@[1]@]);
                assert(opts_view(vals@) =~= Seq::<Option<Seq<char>>>::empty());
            }
            c
        },
        Leaf::ToolSetEnv => {
            let slug = string_of(&pos[0]);
            let key = string_of(&pos[1]);
            let value = string_of(&pos[2]);
            let c = Commands::Tool { command: ToolCommands::SetEnv { slug, key, value } };
            proof {
                assert(toks_view(pos@) =~= seq![pos@[0]@, pos@[1]@, pos@[2]@]);
                assert(opts_view(vals@) =~= Seq::<Option<Seq<char>>>::empty());
            }
            c
        },
        Leaf::ToolListEnv => {
            let slug = string_of(&pos[0]);
            let c = Commands::Tool { command: ToolCommands::ListEnv { slug } };
            proof {
                assert(toks_view(pos@) =~= seq![pos@[0]@]);
                assert(opts_view(vals@) =~= Seq::<Option<Seq<char>>>::empty());
            }
            c
        },
        Leaf::ToolDeleteEnv => {
            let slug = string_of(&pos[0]);
            let key = string_of(&pos[1]);
            let c = Commands::Tool { command: ToolCommands::DeleteEnv { slug, key } };
            proof {
                assert(toks_view(pos@) =~= seq![pos@[0]@, pos@[1]@]);
                assert(opts_view(vals@) =~= Seq::<Option<Seq<char>>>::empty());
            }
            c
        },
        Leaf::ToolInvoke => {
            let slug = string_of(&pos[0]);
            let input = match &vals[0] { Some(x) => string_of(x), None => String::new() };
            let c = Commands::Tool { command: ToolCommands::Invoke { slug, input } };
            proof {
                assert(toks_view(pos@) =~= seq![pos@[0]@]);
                assert(opts_view(vals@) =~= seq![opt_chars(vals@[0])]);
            }
            c
        },
        Leaf::KeyList => {
            let c = Commands::Key { command: KeyCommands::List };
            proof {
                assert(toks_view(pos@) =~= Seq::<Seq<char>>::empty());
                assert(opts_view(vals@) =~= Seq::<Option<Seq<char>>>::empty());
            }
            c
        },
        Leaf::KeyCreate => {
            let name = string_of(&pos[0]);
            let provider = match &vals[0] { Some(x) => string_of(x), None => String::new() };
            let c = Commands::Key { command: KeyCommands::Create { name, provider } };
            proof {
                assert(toks_view(pos@) =~= seq![pos@[0]@]);
                assert(opts_view(vals@) =~= seq![opt_chars(vals@[0])]);
            }
            c
        },
        Leaf::KeyDelete => {
            let id = string_of(&pos[0]);
            let c = Commands::Key { command: KeyCommands::Delete { id } };
            proof {
                assert(toks_view(pos@) =~= seq![pos@[0]@]);
                assert(opts_view(vals@) =~= Seq::<Option<Seq<char>>>::empty());
            }
            c
        },
    }
}

/// What a command line comes to: the command with its positional arguments
/// and option values in order, and the data directory given last.
pub type Parsed = (Leaf, Seq<Seq<char>>, Seq<Option<Seq<char>>>, Option<Seq<char>>);

/// Reads the arguments of command `l` from `i` on.
pub open spec fn leaf_phase(args: Seq<Seq<char>>, i: int, l: Leaf, dd: Option<Seq<char>>) -> Result<Parsed, CliError> {
    let opts = leaf_options(l);
    match scan(args, i, opts, false, false, leaf_arity(l), fresh(dd, opts.len())) {
        Scan::Fail(e) => Err(e),
        Scan::Done(s) => if s.pos.len() < leaf_arity(l) || missing_required(opts, s.vals) {
            Err(CliError::MissingRequiredArgument)
        } else {
            Ok((l, s.pos, s.vals, s.dd))
        },
        _ => Err(CliError::MissingSubcommand),
    }
}

/// Reads the arguments of group `t` from `i` on: its options, then the word
/// of one of its commands.
pub open spec fn group_phase(args: Seq<Seq<char>>, i: int, t: Top, dd: Option<Seq<char>>) -> Result<Parsed, CliError> {
    match scan(args, i, Seq::empty(), true, false, 0, fresh(dd, 0)) {
        Scan::Fail(e) => Err(e),
        Scan::Word(j, s) => {
            let w = args[j];
            if w == "help"@ {
                Err(CliError::DisplayHelp)
            } else {
                match sub_of_word(t, w) {
                    None => Err(CliError::InvalidSubcommand),
                    Some(l) => leaf_phase(args, j + 1, l, s.dd),
                }
            }
        },
        _ => Err(CliError::MissingSubcommand),
    }
}

/// What a command line comes to; `args[0]` is the program's name.
pub open spec fn parse_spec(args: Seq<Seq<char>>) -> Result<Parsed, CliError> {
    match scan(args, 1, Seq::empty(), true, true, 0, fresh(None, 0)) {
        Scan::Fail(e) => Err(e),
        Scan::Word(i, s) => {
            let w = args[i];
            if w == "help"@ {
                Err(CliError::DisplayHelp)
            } else {
                match top_of_word(w) {
                    None => Err(CliError::InvalidSubcommand),
                    Some(t) => if is_group(t) {
                        group_phase(args, i + 1, t, s.dd)
                    } else {
                        leaf_phase(args, i + 1, top_leaf(t), s.dd)
                    },
                }
            }
        },
        _ => Err(CliError::MissingSubcommand),
    }
}

/// A parsed command line.
pub struct Cli {
    /// The command to run.
    pub command: Commands,
    /// The data directory given with `-d`/`--data-dir`, if any.
    pub data_dir: Option<String>,
}

/// Whether a parse result is what the command line `args` comes to.
pub open spec fn parse_agrees(args: Seq<Seq<char>>, r: Result<Cli, CliError>) -> bool {
    match (r, parse_spec(args)) {
        (Ok(cli), Ok(p)) => cli.command.shape() == (p.0, p.1, p.2) && opt_string_view(cli.data_dir) == p.3,
        (Err(e1), Err(e2)) => e1 == e2,
        _ => false,
    }
}

fn opt_chars_string(o: &Option<Vec<char>>) -> (r: Option<String>)
    ensures
        opt_string_view(r) == opt_chars(*o),
{
    match o {
        Some(v) => Some(string_of(v)),
        None => None,
    }
}

fn missing_required_exec(opts: &Vec<OptSpec>, vals: &Vec<Option<Vec<char>>>) -> (b: bool)
    requires
        vals@.len() == opts@.len(),
    ensures
        b == missing_required(opts@, opts_view(vals@)),
{
    let ghost vv = opts_view(vals@);
    let mut k: usize = 0;
    while k < opts.len()
        invariant
            k <= opts@.len(),
            vals@.len() == opts@.len(),
            vv == opts_view(vals@),
            forall|j: int| 0 <= j < k ==> !(opts@[j].required && (#[trigger] vv[j]) is None),
        decreases opts@.len() - k,
    {
        if opts[k].required && vals[k].is_none() {
            assert(vv[k as int] is None);
            return true;
        }
        assert(vv[k as int] == opt_chars(vals@[k as int]));
        k = k + 1;
    }
    false
}

fn leaf_phase_exec(args: &Vec<Vec<char>>, i: usize, l: Leaf, dd: Option<Vec<char>>) -> (r: Result<Cli, CliError>)
    ensures
        match (r, leaf_phase(toks_view(args@), i as int, l, opt_chars(dd))) {
            (Ok(cli), Ok(p)) => cli.command.shape() == (p.0, p.1, p.2) && opt_string_view(cli.data_dir) == p.3,
            (Err(e1), Err(e2)) => e1 == e2,
            _ => false,
        },
{
    let opts = leaf_options_exec(l);
    let arity = leaf_arity_exec(l);
    let st = ScanState::fresh_exec(dd, opts.len());
    let ghost tv = toks_view(args@);
    proof {
        let f = fresh(opt_chars(dd), opts@.len());
        assert(flags_ok(opts@, f.vals));
        lemma_scan_keeps(tv, i as int, opts@, arity as nat, f);
    }
    match scan_exec(args, i, &opts, false, false, arity, st) {
        ScanOut::Fail(e) => Err(e),
        ScanOut::Done(s) => {
            if s.pos.len() < arity || missing_required_exec(&opts, &s.vals) {
                Err(CliError::MissingRequiredArgument)
            } else {
                proof {
                    let vv = opts_view(s.vals@);
                    assert forall|k: int| 0 <= k < vv.len() && leaf_options(l)[k].required implies vv[k] is Some by {
                        if vv[k] is None {
                            assert(missing_required(opts@, vv));
                        }
                    }
                }
                let command = build_command(l, &s.pos, &s.vals);
                let data_dir = opt_chars_string(&s.dd);
                Ok(Cli { command, data_dir })
            }
        },
        ScanOut::Word(_, _) => Err(CliError::MissingSubcommand),
    }
}

fn group_phase_exec(args: &Vec<Vec<char>>, i: usize, t: Top, dd: Option<Vec<char>>) -> (r: Result<Cli, CliError>)
    ensures
        match (r, group_phase(toks_view(args@), i as int, t, opt_chars(dd))) {
            (Ok(cli), Ok(p)) => cli.command.shape() == (p.0, p.1, p.2) && opt_string_view(cli.data_dir) == p.3,
            (Err(e1), Err(e2)) => e1 == e2,
            _ => false,
        },
{
    let n = args.len();
    let none: Vec<OptSpec> = Vec::new();
    let st = ScanState::fresh_exec(dd, 0);
    let ghost tv = toks_view(args@);
    assert(none@ =~= Seq::<OptSpec>::empty());
    match scan_exec(args, i, &none, true, false, 0, st) {
        ScanOut::Fail(e) => Err(e),
        ScanOut::Word(j, s) => {
            assert(tv[j as int] == args@[j as int]@);
            let w = &args[j];
            if chars_eq_str(w, "help") {
                Err(CliError::DisplayHelp)
            } else {
                match sub_of_word_exec(t, w) {
                    None => Err(CliError::InvalidSubcommand),
                    Some(l) => leaf_phase_exec(args, j + 1, l, s.dd),
                }
            }
        },
        ScanOut::Done(_) => Err(CliError::MissingSubcommand),
    }
}

impl Cli {
    /// Parses a command line given as character vectors; `args[0]` is the
    /// program's name.
    pub fn parse_chars(args: &Vec<Vec<char>>) -> (r: Result<Cli, CliError>)
        ensures
            parse_agrees(toks_view(args@), r),
    {
        let n = args.len();
        let none: Vec<OptSpec> = Vec::new();
        let st = ScanState::fresh_exec(None, 0);
        let ghost tv = toks_view(args@);
        assert(none@ =~= Seq::<OptSpec>::empty());
        match scan_exec(args, 1, &none, true, true, 0, st) {
            ScanOut::Fail(e) => Err(e),
            ScanOut::Word(i, s) => {
                assert(tv[i as int] == args@[i as int]@);
                let w = &args[i];
                if chars_eq_str(w, "help") {
                    Err(CliError::DisplayHelp)
                } else {
                    match top_of_word_exec(w) {
                        None => Err(CliError::InvalidSubcommand),
                        Some(t) => {
                            if is_group_exec(t) {
                                group_phase_exec(args, i + 1, t, s.dd)
                            } else {
                                leaf_phase_exec(args, i + 1, top_leaf_exec(t), s.dd)
                            }
                        },
                    }
                }
            },
            ScanOut::Done(_) => Err(CliError::MissingSubcommand),
        }
    }

    /// Parses a command line given as strings; `args[0]` is the program's
    /// name.
    pub fn try_parse_from_strings(args: &Vec<String>) -> (r: Result<Cli, CliError>)
        ensures
            parse_agrees(args@.map_values(|s: String| s@), r),
    {
        let mut toks: Vec<Vec<char>> = Vec::new();
        let mut k: usize = 0;
        while k < args.len()
            invariant
                k <= args@.len(),
                toks@.len() == k,
                forall|j: int| 0 <= j < k ==> (#[trigger] toks@[j])@ == args@[j]@,
            decreases args@.len() - k,
        {
            toks.push(chars_of(args[k].as_str()));
            k = k + 1;
        }
        assert(toks_view(toks@) =~= args@.map_values(|s: String| s@));
        Cli::parse_chars(&toks)
    }

    /// Parses a command line; `args[0]` is the program's name.
    pub fn try_parse_from<const N: usize>(args: [&str; N]) -> (r: Result<Cli, CliError>)
        ensures
            parse_agrees(args@.map_values(|s: &str| s@), r),
    {
        let mut toks: Vec<Vec<char>> = Vec::new();
        let mut k: usize = 0;
        while k < N
            invariant
                k <= N,
                args@.len() == N,
                toks@.len() == k,
                forall|j: int| 0 <= j < k ==> (#[trigger] toks@[j])@ == args@[j]@,
            decreases N - k,
        {
            toks.push(chars_of(args[k]));
            k = k + 1;
        }
        assert(toks_view(toks@) =~= args@.map_values(|s: &str| s@));
        Cli::parse_chars(&toks)
    }
}

} // verus!

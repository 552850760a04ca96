//! Tools and skills kept in Forgejo repositories: where they are checked
//! out, the `git` commands that fetch them, the sandboxed commands that run
//! them, what a run's output comes to, and the front matter of their
//! descriptions.

use vstd::prelude::*;
use crate::models::SkillMetadata;
use crate::paths::{join_path, path_join, trim_end, trim_end_matches};
use crate::text::{chars_of, concat2, concat3, push_str, string_of};

verus! {

/// Where tools and skills are checked out, and the Forgejo server they come
/// from.
pub struct GitOps {
    pub data_dir: String,
    pub forgejo_url: String,
    pub forgejo_token: String,
}

/// A program to run: its arguments and the environment variables it gets.
pub struct ScriptCommand {
    pub program: String,
    pub args: Vec<String>,
    pub env: Vec<(String, String)>,
}

/// What a run of a tool or a skill came to: its JSON output on success,
/// why it failed otherwise.
pub struct InvokeSkillResponse {
    pub success: bool,
    pub output: Option<String>,
    pub error: Option<String>,
}

/// A run of a tool comes to the same as a run of a skill.
pub type InvokeToolResponse = InvokeSkillResponse;

/// The strings of a vector as character sequences.
pub open spec fn strs(v: Seq<String>) -> Seq<Seq<char>> {
    v.map_values(|s: String| s@)
}

/// Environment variables as pairs of character sequences.
pub open spec fn env_view(v: Seq<(String, String)>) -> Seq<(Seq<char>, Seq<char>)> {
    v.map_values(|p: (String, String)| (p.0@, p.1@))
}

/// `s` with every `'` written as `'\''`, so that it can stand between single
/// quotes in a shell command.
pub open spec fn shell_escape(s: Seq<char>) -> Seq<char>
    decreases s.len(),
{
    if s.len() == 0 {
        s
    } else {
        shell_escape(s.drop_last()) + if s.last() == '\'' {
            seq!['\'', '\\', '\'', '\'']
        } else {
            seq![s.last()]
        }
    }
}

/// `s` between single quotes, escaped.
pub open spec fn single_quoted(s: Seq<char>) -> Seq<char> {
    seq!['\''] + shell_escape(s) + seq!['\'']
}

/// The characters a POSIX shell reads from a word: inside single quotes
/// every character stands for itself up to the closing quote; outside them a
/// quote opens a quoted part, a backslash takes the next character as it is,
/// and any other character stands for itself.
pub open spec fn shell_read(t: Seq<char>, quoted: bool) -> Seq<char>
    decreases t.len(),
{
    if t.len() == 0 {
        Seq::empty()
    } else if quoted {
        if t[0] == '\'' {
            shell_read(t.skip(1), false)
        } else {
            seq![t[0]] + shell_read(t.skip(1), true)
        }
    } else if t[0] == '\'' {
        shell_read(t.skip(1), true)
    } else if t[0] == '\\' && t.len() >= 2 {
        seq![t[1]] + shell_read(t.skip(2), false)
    } else {
        seq![t[0]] + shell_read(t.skip(1), false)
    }
}

/// Inside a quoted part, an escaped text reads back as itself, whatever
/// follows it.
proof fn lemma_escaped_reads_back(s: Seq<char>, rest: Seq<char>)
    ensures
        shell_read(shell_escape(s) + rest, true) == s + shell_read(rest, true),
    decreases s.len(),
{
    if s.len() == 0 {
        assert(shell_escape(s) + rest =~= rest);
        assert(s + shell_read(rest, true) =~= shell_read(rest, true));
    } else {
        let init = s.drop_last();
        let c = s.last();
        let tail = if c == '\'' { seq!['\'', '\\', '\'', '\''] } else { seq![c] };
        assert(shell_escape(s) == shell_escape(init) + tail);
        assert(shell_escape(s) + rest =~= shell_escape(init) + (tail + rest));
        lemma_escaped_reads_back(init, tail + rest);
        let t = tail + rest;
        if c == '\'' {
            let t1 = t.skip(1);
            let t2 = t1.skip(2);
            assert(t1 =~= seq!['\\', '\'', '\''] + rest);
            assert(t2 =~= seq!['\''] + rest);
            assert(t2.skip(1) =~= rest);
            assert(shell_read(t2, false) == shell_read(rest, true));
            assert(shell_read(t1, false) == seq!['\''] + shell_read(rest, true));
            assert(shell_read(t, true) == seq!['\''] + shell_read(rest, true));
        } else {
            assert(t.skip(1) =~= rest);
            assert(shell_read(t, true) == seq![c] + shell_read(rest, true));
        }
        assert(init + (seq![c] + shell_read(rest, true)) =~= s + shell_read(rest, true));
    }
}

/// A text put between single quotes with `shell_escape` reads back, as the
/// shell reads the word, as exactly that text: the input handed to a tool's
/// or a skill's run line arrives unchanged.
pub proof fn law_quoted_text_reads_back(s: Seq<char>)
    ensures
        shell_read(single_quoted(s), false) == s,
{
    let t = single_quoted(s);
    assert(t.skip(1) =~= shell_escape(s) + seq!['\'']);
    lemma_escaped_reads_back(s, seq!['\'']);
    let q = seq!['\''];
    assert(q.skip(1) =~= Seq::<char>::empty());
    assert(shell_read(q.skip(1), false) == Seq::<char>::empty());
    assert(shell_read(q, true) == Seq::<char>::empty());
    assert(s + Seq::<char>::empty() =~= s);
}

/// The lines joined with newlines.
pub open spec fn join_lines(lines: Seq<Seq<char>>) -> Seq<char>
    decreases lines.len(),
{
    if lines.len() == 0 {
        Seq::empty()
    } else if lines.len() == 1 {
        lines[0]
    } else {
        join_lines(lines.drop_last()) + seq!['\n'] + lines.last()
    }
}

pub proof fn lemma_strs_push(v: Seq<String>, x: String)
    ensures
        strs(v.push(x)) == strs(v).push(x@),
{
    assert(strs(v.push(x)) =~= strs(v).push(x@));
}

pub proof fn lemma_env_push(v: Seq<(String, String)>, x: (String, String))
    ensures
        env_view(v.push(x)) == env_view(v).push((x.0@, x.1@)),
{
    assert(env_view(v.push(x)) =~= env_view(v).push((x.0@, x.1@)));
}

/// What `serde_json` makes of `s` read as a JSON value: the value written
/// back compactly, or the text of the error it reports.
pub uninterp spec fn json_reading(s: Seq<char>) -> Result<Seq<char>, Seq<char>>;

/// Whether `s` is a JSON text, as `serde_json` reads it.
pub open spec fn is_json_text(s: Seq<char>) -> bool {
    json_reading(s) is Ok
}

/// The lowercase hexadecimal digit of `n`, below sixteen.
pub open spec fn hex_digit(n: u32) -> char {
    seq!['0', '1', '2', '3', '4', '5', '6', '7', '8', '9', 'a', 'b', 'c', 'd', 'e', 'f'][n as int]
}

/// How `serde_json` writes character `c` inside a string: `"` and `\` after a
/// backslash, backspace, tab, line feed, form feed and carriage return as
/// `\b`, `\t`, `\n`, `\f` and `\r`, the other characters below U+0020 as
/// `\u00` and two lowercase hexadecimal digits, every other character as
/// itself.
pub open spec fn json_escape(c: char) -> Seq<char> {
    let n = c as u32;
    if c == '"' {
        seq!['\\', '"']
    } else if c == '\\' {
        seq!['\\', '\\']
    } else if n == 8 {
        seq!['\\', 'b']
    } else if n == 9 {
        seq!['\\', 't']
    } else if n == 10 {
        seq!['\\', 'n']
    } else if n == 12 {
        seq!['\\', 'f']
    } else if n == 13 {
        seq!['\\', 'r']
    } else if n < 32 {
        seq!['\\', 'u', '0', '0', hex_digit(n / 16), hex_digit(n % 16)]
    } else {
        seq![c]
    }
}

/// The characters of `s`, each as `serde_json` writes it inside a string.
pub open spec fn json_escaped(s: Seq<char>) -> Seq<char>
    decreases s.len(),
{
    if s.len() == 0 {
        Seq::empty()
    } else {
        json_escaped(s.drop_last()) + json_escape(s.last())
    }
}

/// `s` written as a JSON string, as `serde_json` writes it: between double
/// quotes, each character escaped as `json_escape` says.
pub open spec fn json_quoted(s: Seq<char>) -> Seq<char> {
    seq!['"'] + json_escaped(s) + seq!['"']
}

/// Whether `c` has Unicode's White_Space property, which `char::is_whitespace`,
/// `str::trim` and `str::split_whitespace` go by.
pub open spec fn is_white_space(c: char) -> bool {
    let n = c as u32;
    ||| 9 <= n <= 13
    ||| n == 0x20
    ||| n == 0x85
    ||| n == 0xA0
    ||| n == 0x1680
    ||| 0x2000 <= n <= 0x200A
    ||| n == 0x2028
    ||| n == 0x2029
    ||| n == 0x202F
    ||| n == 0x205F
    ||| n == 0x3000
}

/// The words of `s` after the characters of the current word `cur`: the
/// maximal runs of characters that are not whitespace, in order.
pub open spec fn words_after(s: Seq<char>, cur: Seq<char>) -> Seq<Seq<char>>
    decreases s.len(),
{
    let done = if cur.len() == 0 { Seq::<Seq<char>>::empty() } else { seq![cur] };
    if s.len() == 0 {
        done
    } else if is_white_space(s[0]) {
        done + words_after(s.drop_first(), Seq::empty())
    } else {
        words_after(s.drop_first(), cur.push(s[0]))
    }
}

/// The words of `s`, as `str::split_whitespace` gives them: the maximal
/// non-empty runs of characters that are not whitespace, in order.
pub open spec fn whitespace_words(s: Seq<char>) -> Seq<Seq<char>> {
    words_after(s, Seq::empty())
}

/// `s` without its leading whitespace.
pub open spec fn trimmed_start(s: Seq<char>) -> Seq<char>
    decreases s.len(),
{
    if s.len() > 0 && is_white_space(s[0]) {
        trimmed_start(s.drop_first())
    } else {
        s
    }
}

/// `s` without its trailing whitespace.
pub open spec fn trimmed_end(s: Seq<char>) -> Seq<char>
    decreases s.len(),
{
    if s.len() > 0 && is_white_space(s.last()) {
        trimmed_end(s.drop_last())
    } else {
        s
    }
}

/// `s` without leading and trailing whitespace, as `str::trim` gives it.
pub open spec fn trimmed(s: Seq<char>) -> Seq<char> {
    trimmed_end(trimmed_start(s))
}

/// Reads `s` as a JSON value with `serde_json::from_str` and writes the
/// value back compactly with its `Display`, or gives the `Display` of the
/// error. Both are named by `json_reading`.
#[verifier::external_body]
fn read_json(s: &str) -> (r: Result<String, String>)
    ensures
        match (r, json_reading(s@)) {
            (Ok(a), Ok(b)) => a@ == b,
            (Err(a), Err(b)) => a@ == b,
            _ => false,
        },
{
    match serde_json::from_str::<serde_json::Value>(s) {
        Ok(v) => Ok(v.to_string()),
        Err(e) => Err(e.to_string()),
    }
}

/// `s` as a JSON string, as `serde_json::to_string` writes a string: between
/// double quotes, with the escapes that `json_quoted` spells out.
#[verifier::external_body]
pub(crate) fn json_string(s: &str) -> (r: String)
    ensures
        r@ == json_quoted(s@),
{
    serde_json::Value::String(s.to_string()).to_string()
}

/// The whitespace-separated words of `s`, as `str::split_whitespace` gives
/// them: `whitespace_words` spells them out over Unicode's whitespace.
#[verifier::external_body]
fn split_words(s: &str) -> (v: Vec<String>)
    ensures
        strs(v@) == whitespace_words(s@),
{
    s.split_whitespace().map(|w| w.to_string()).collect()
}

/// `s` without its leading and trailing whitespace, as `str::trim` gives it;
/// `trimmed` spells it out over Unicode's whitespace.
#[verifier::external_body]
fn trim(s: &str) -> (r: String)
    ensures
        r@ == trimmed(s@),
{
    s.trim().to_string()
}

/// Writes `s` with every `'` as `'\''`.
pub fn escape_single_quotes(s: &str) -> (r: String)
    ensures
        r@ == shell_escape(s@),
{
    let v = chars_of(s);
    let mut out: Vec<char> = Vec::new();
    let mut i: usize = 0;
    while i < v.len()
        invariant
            i <= v@.len(),
            v@ == s@,
            out@ == shell_escape(s@.take(i as int)),
        decreases v@.len() - i,
    {
        let ghost before = out@;
        if v[i] == '\'' {
            out.push('\'');
            out.push('\\');
            out.push('\'');
            out.push('\'');
        } else {
            out.push(v[i]);
        }
        proof {
            assert(s@.take(i + 1).drop_last() =~= s@.take(i as int));
            assert(s@.take(i + 1).last() == s@[i as int]);
            assert(out@ =~= shell_escape(s@.take(i + 1)));
        }
        i = i + 1;
    }
    assert(s@.take(s@.len() as int) =~= s@);
    string_of(&out)
}

/// Joins `lines` with newlines.
pub fn join_with_newlines(lines: &Vec<String>) -> (r: String)
    ensures
        r@ == join_lines(strs(lines@)),
{
    let mut out: Vec<char> = Vec::new();
    let mut i: usize = 0;
    while i < lines.len()
        invariant
            i <= lines@.len(),
            out@ == join_lines(strs(lines@).take(i as int)),
        decreases lines@.len() - i,
    {
        let ghost before = out@;
        if i > 0 {
            out.push('\n');
        }
        push_str(&mut out, lines[i].as_str());
        proof {
            let t = strs(lines@).take(i + 1);
            assert(t.drop_last() =~= strs(lines@).take(i as int));
            assert(t.last() == lines@[i as int]@);
            if i == 0 {
                assert(out@ =~= t[0]);
            } else {
                assert(out@ =~= join_lines(t.drop_last()) + seq!['\n'] + t.last());
            }
        }
        i = i + 1;
    }
    assert(strs(lines@).take(lines@.len() as int) =~= strs(lines@));
    string_of(&out)
}

/// The text of a failed run: `Script failed: ` and the error lines.
pub open spec fn failure_text(stderr: Seq<Seq<char>>) -> Seq<char> {
    "Script failed: "@ + join_lines(stderr)
}

/// What a run whose standard output and error were `stdout` and `stderr`
/// comes to: a failure with the error lines where it did not succeed;
/// otherwise the output lines joined, written compactly where they form a
/// JSON text and as the string under `raw` of a JSON object otherwise.
pub fn script_outcome(succeeded: bool, stdout: &Vec<String>, stderr: &Vec<String>) -> (r: InvokeSkillResponse)
    ensures
        !succeeded ==> !r.success && r.output is None && (r.error matches Some(e) && e@ == failure_text(strs(stderr@))),
        succeeded ==> {
            let out = join_lines(strs(stdout@));
            &&& r.success
            &&& r.error is None
            &&& r.output matches Some(o) && o@ == match json_reading(out) {
                Ok(compact) => compact,
                Err(_) => "{\"raw\":"@ + json_quoted(out) + "}"@,
            }
        },
{
    if !succeeded {
        let e = join_with_newlines(stderr);
        return InvokeSkillResponse { success: false, output: None, error: Some(concat2("Script failed: ", e.as_str())) };
    }
    let out = join_with_newlines(stdout);
    match read_json(out.as_str()) {
        Ok(compact) => InvokeSkillResponse { success: true, output: Some(compact), error: None },
        Err(_) => {
            let q = json_string(out.as_str());
            InvokeSkillResponse { success: true, output: Some(concat3("{\"raw\":", q.as_str(), "}")), error: None }
        },
    }
}

/// The shell command a sandbox runs: the entry point and its quoted JSON
/// input.
pub open spec fn tool_run_line(entrypoint: Seq<char>, input_json: Seq<char>) -> Seq<char> {
    entrypoint + " "@ + single_quoted(input_json)
}

fn run_line(entrypoint: &str, input_json: &str) -> (r: String)
    ensures
        r@ == tool_run_line(entrypoint@, input_json@),
{
    let esc = escape_single_quotes(input_json);
    let mut v: Vec<char> = Vec::new();
    push_str(&mut v, entrypoint);
    push_str(&mut v, " '");
    push_str(&mut v, esc.as_str());
    push_str(&mut v, "'");
    proof {
        reveal_strlit(" '");
        reveal_strlit("'");
        reveal_strlit(" ");
        assert(v@ =~= tool_run_line(entrypoint@, input_json@));
    }
    string_of(&v)
}

fn copy_env(env: &Vec<(String, String)>) -> (r: Vec<(String, String)>)
    ensures
        env_view(r@) == env_view(env@),
{
    let mut r: Vec<(String, String)> = Vec::new();
    let mut i: usize = 0;
    while i < env.len()
        invariant
            i <= env@.len(),
            env_view(r@) == env_view(env@).take(i as int),
        decreases env@.len() - i,
    {
        let ghost prev = r@;
        let p = (env[i].0.clone(), env[i].1.clone());
        r.push(p);
        proof {
            lemma_env_push(prev, p);
            assert(env_view(env@).take(i + 1) =~= env_view(env@).take(i as int).push(env_view(env@)[i as int]));
        }
        i = i + 1;
    }
    assert(env_view(env@).take(env@.len() as int) =~= env_view(env@));
    r
}

/// Running a tool that has a `shell.nix`: `nix-shell <dir> --run "<run line>"`,
/// with the tool's environment and `TOOL_INPUT` set to the input.
pub fn build_nix_command(tool_dir: &str, entrypoint: &str, input_json: &str, env: &Vec<(String, String)>) -> (c: ScriptCommand)
    ensures
        c.program@ == "nix-shell"@,
        strs(c.args@) == seq![tool_dir@, "--run"@, tool_run_line(entrypoint@, input_json@)],
        env_view(c.env@) == env_view(env@).push(("TOOL_INPUT"@, input_json@)),
{
    let mut args: Vec<String> = Vec::new();
    args.push(tool_dir.to_owned());
    args.push("--run".to_owned());
    args.push(run_line(entrypoint, input_json));
    assert(strs(args@) =~= seq![tool_dir@, "--run"@, tool_run_line(entrypoint@, input_json@)]);
    let mut e = copy_env(env);
    e.push(("TOOL_INPUT".to_owned(), input_json.to_owned()));
    assert(env_view(e@) =~= env_view(env@).push(("TOOL_INPUT"@, input_json@)));
    ScriptCommand { program: "nix-shell".to_owned(), args, env: e }
}

/// The sandbox every tool without a `shell.nix` runs in: the Nix store, the
/// tool directory at `/tool` and the resolver files read-only, fresh `/dev`,
/// `/proc` and `/tmp`, no shared IPC or process namespace, ending with its
/// parent, working in `/tool`.
pub open spec fn bwrap_prefix(tool_dir: Seq<char>) -> Seq<Seq<char>> {
    seq![
        "--ro-bind"@, "/nix/store"@, "/nix/store"@,
        "--ro-bind"@, tool_dir, "/tool"@,
        "--ro-bind"@, "/etc/resolv.conf"@, "/etc/resolv.conf"@,
        "--ro-bind"@, "/etc/hosts"@, "/etc/hosts"@,
        "--dev"@, "/dev"@,
        "--proc"@, "/proc"@,
        "--tmpfs"@, "/tmp"@,
        "--die-with-parent"@,
        "--chdir"@, "/tool"@,
        "--unshare-ipc"@,
        "--unshare-pid"@
    ]
}

/// `--setenv key value` for each variable, in order.
pub open spec fn setenv_args(env: Seq<(Seq<char>, Seq<char>)>) -> Seq<Seq<char>>
    decreases env.len(),
{
    if env.len() == 0 {
        Seq::empty()
    } else {
        setenv_args(env.drop_last()) + seq!["--setenv"@, env.last().0, env.last().1]
    }
}

/// Running a tool in the `bwrap` sandbox: the sandbox, the tool's environment
/// and `TOOL_INPUT`, then, after `--`, either `nix-shell <dir> --run "<run
/// line>"` where the tool has a `shell.nix`, or the words of the entry point
/// and the input.
pub fn build_bwrap_command(
    tool_dir: &str,
    entrypoint: &str,
    input_json: &str,
    env: &Vec<(String, String)>,
    has_shell_nix: bool,
) -> (c: ScriptCommand)
    ensures
        c.program@ == "bwrap"@,
        env_view(c.env@) == Seq::<(Seq<char>, Seq<char>)>::empty(),
        strs(c.args@) == bwrap_prefix(tool_dir@) + setenv_args(env_view(env@)) + seq!["--setenv"@, "TOOL_INPUT"@, input_json@]
            + if has_shell_nix {
            seq!["--"@, "nix-shell"@, tool_dir@, "--run"@, tool_run_line(entrypoint@, input_json@)]
        } else {
            seq!["--"@] + whitespace_words(entrypoint@) + seq![input_json@]
        },
{
    let mut args: Vec<String> = Vec::new();
    args.push("--ro-bind".to_owned());
    args.push("/nix/store".to_owned());
    args.push("/nix/store".to_owned());
    args.push("--ro-bind".to_owned());
    args.push(tool_dir.to_owned());
    args.push("/tool".to_owned());
    args.push("--ro-bind".to_owned());
    args.push("/etc/resolv.conf".to_owned());
    args.push("/etc/resolv.conf".to_owned());
    args.push("--ro-bind".to_owned());
    args.push("/etc/hosts".to_owned());
    args.push("/etc/hosts".to_owned());
    args.push("--dev".to_owned());
    args.push("/dev".to_owned());
    args.push("--proc".to_owned());
    args.push("/proc".to_owned());
    args.push("--tmpfs".to_owned());
    args.push("/tmp".to_owned());
    args.push("--die-with-parent".to_owned());
    args.push("--chdir".to_owned());
    args.push("/tool".to_owned());
    args.push("--unshare-ipc".to_owned());
    args.push("--unshare-pid".to_owned());
    assert(strs(args@) =~= bwrap_prefix(tool_dir@));
    let ghost base = strs(args@);
    let mut i: usize = 0;
    while i < env.len()
        invariant
            i <= env@.len(),
            strs(args@) == base + setenv_args(env_view(env@).take(i as int)),
        decreases env@.len() - i,
    {
        let ghost p0 = args@;
        let a1 = "--setenv".to_owned();
        args.push(a1);
        let ghost p1 = args@;
        let a2 = env[i].0.clone();
        args.push(a2);
        let ghost p2 = args@;
        let a3 = env[i].1.clone();
        args.push(a3);
        proof {
            lemma_strs_push(p0, a1);
            lemma_strs_push(p1, a2);
            lemma_strs_push(p2, a3);
            let t = env_view(env@).take(i + 1);
            assert(t.drop_last() =~= env_view(env@).take(i as int));
            assert(t.last() == (env@[i as int].0@, env@[i as int].1@));
            assert(strs(args@) =~= base + setenv_args(t));
        }
        i = i + 1;
    }
    assert(env_view(env@).take(env@.len() as int) =~= env_view(env@));
    let ghost with_env = strs(args@);
    args.push("--setenv".to_owned());
    args.push("TOOL_INPUT".to_owned());
    args.push(input_json.to_owned());
    let ghost with_input = strs(args@);
    assert(with_input =~= with_env + seq!["--setenv"@, "TOOL_INPUT"@, input_json@]);
    if has_shell_nix {
        args.push("--".to_owned());
        args.push("nix-shell".to_owned());
        args.push(tool_dir.to_owned());
        args.push("--run".to_owned());
        args.push(run_line(entrypoint, input_json));
        assert(strs(args@) =~= with_input + seq!["--"@, "nix-shell"@, tool_dir@, "--run"@, tool_run_line(entrypoint@, input_json@)]);
    } else {
        args.push("--".to_owned());
        assert(strs(args@) =~= with_input + seq!["--"@]);
        let words = split_words(entrypoint);
        let ghost before_words = strs(args@);
        let mut k: usize = 0;
        while k < words.len()
            invariant
                k <= words@.len(),
                strs(args@) == before_words + strs(words@).take(k as int),
            decreases words@.len() - k,
        {
            let ghost prev = args@;
            let w = words[k].clone();
            args.push(w);
            proof {
                lemma_strs_push(prev, w);
                assert(strs(words@).take(k + 1) =~= strs(words@).take(k as int).push(strs(words@)[k as int]));
                assert(strs(args@) =~= before_words + strs(words@).take(k + 1));
            }
            k = k + 1;
        }
        assert(strs(words@).take(words@.len() as int) =~= strs(words@));
        let ghost before_input = args@;
        let last = input_json.to_owned();
        args.push(last);
        proof {
            lemma_strs_push(before_input, last);
        }
        assert(strs(args@) =~= with_input + (seq!["--"@] + whitespace_words(entrypoint@) + seq![input_json@]));
    }
    ScriptCommand { program: "bwrap".to_owned(), args, env: Vec::new() }
}

/// Running a tool: with `nix-shell` where its directory has a `shell.nix`,
/// in the `bwrap` sandbox otherwise.
pub fn tool_command(tool_dir: &str, entrypoint: &str, input_json: &str, env: &Vec<(String, String)>, has_shell_nix: bool) -> (c: ScriptCommand)
    ensures
        has_shell_nix ==> {
            &&& c.program@ == "nix-shell"@
            &&& strs(c.args@) == seq![tool_dir@, "--run"@, tool_run_line(entrypoint@, input_json@)]
            &&& env_view(c.env@) == env_view(env@).push(("TOOL_INPUT"@, input_json@))
        },
        !has_shell_nix ==> {
            &&& c.program@ == "bwrap"@
            &&& env_view(c.env@) == Seq::<(Seq<char>, Seq<char>)>::empty()
            &&& strs(c.args@) == bwrap_prefix(tool_dir@) + setenv_args(env_view(env@)) + seq![
                "--setenv"@,
                "TOOL_INPUT"@,
                input_json@,
            ] + (seq!["--"@] + whitespace_words(entrypoint@) + seq![input_json@])
        },
{
    if has_shell_nix {
        build_nix_command(tool_dir, entrypoint, input_json, env)
    } else {
        build_bwrap_command(tool_dir, entrypoint, input_json, env, false)
    }
}

/// The input a run of tool `slug` is handed, from the JSON text `input`:
/// refused where the tool is unknown, or where `input` is no JSON text, with
/// `serde_json`'s error; otherwise the value written compactly.
pub fn prepare_tool_input(state: &crate::models::State, slug: &str, input: &str) -> (r: Result<String, crate::models::Error>)
    requires
        state.wf(),
    ensures
        !state.tools@.contains_key(slug@) ==> (r matches Err(crate::models::Error::NotFound(m)) && m@ == "Tool '"@
            + slug@ + "' not found"@),
        state.tools@.contains_key(slug@) ==> match json_reading(input@) {
            Ok(compact) => r matches Ok(c) && c@ == compact,
            Err(e) => r matches Err(crate::models::Error::Validation(m)) && m@ == "Invalid JSON input: "@ + e,
        },
{
    if !state.tools.contains_key(slug) {
        return Err(crate::models::Error::NotFound(concat3("Tool '", slug, "' not found")));
    }
    match read_json(input) {
        Ok(c) => Ok(c),
        Err(e) => Err(crate::models::Error::Validation(concat2("Invalid JSON input: ", e.as_str()))),
    }
}

/// The directory of a tool's environment variables: `tools/<slug>/env` in the
/// data directory.
pub fn env_dir(data_dir: &str, slug: &str) -> (p: String)
    ensures
        p@ == path_join(path_join(path_join(data_dir@, "tools"@), slug@), "env"@),
{
    let a = join_path(data_dir, "tools");
    let b = join_path(a.as_str(), slug);
    join_path(b.as_str(), "env")
}

/// The position of the first `---` in `s` at or after `i`, if any.
pub open spec fn marker_from(s: Seq<char>, i: int) -> Option<int>
    decreases s.len() - i,
{
    if i < 0 || i + 3 > s.len() {
        None
    } else if s[i] == '-' && s[i + 1] == '-' && s[i + 2] == '-' {
        Some(i)
    } else {
        marker_from(s, i + 1)
    }
}

/// The front matter of a description: the text between its first two `---`,
/// where it has two.
pub open spec fn frontmatter_of(s: Seq<char>) -> Option<Seq<char>> {
    match marker_from(s, 0) {
        None => None,
        Some(a) => match marker_from(s, a + 3) {
            None => None,
            Some(b) => Some(s.subrange(a + 3, b)),
        },
    }
}

fn find_marker(s: &Vec<char>, from: usize) -> (r: Option<usize>)
    ensures
        r matches Some(k) ==> marker_from(s@, from as int) == Some(k as int),
        r is None ==> marker_from(s@, from as int) is None,
        r matches Some(k) ==> from <= k && k + 3 <= s@.len(),
{
    let mut i: usize = from;
    while i < s.len() && s.len() - i >= 3
        invariant
            from <= i,
            marker_from(s@, from as int) == marker_from(s@, i as int),
        decreases s@.len() - i,
    {
        if s[i] == '-' && s[i + 1] == '-' && s[i + 2] == '-' {
            return Some(i);
        }
        i = i + 1;
    }
    None
}

/// The front matter of a description, trimmed: what lies between its first
/// two `---`. A description without two of them is refused.
pub fn extract_frontmatter(content: &str) -> (r: Result<String, crate::models::Error>)
    ensures
        match frontmatter_of(content@) {
            None => r matches Err(crate::models::Error::Validation(m)) && m@
                == "Invalid SKILL.md format: missing YAML frontmatter"@,
            Some(f) => r matches Ok(t) && t@ == trimmed(f),
        },
{
    let v = chars_of(content);
    match find_marker(&v, 0) {
        None => Err(crate::models::Error::Validation("Invalid SKILL.md format: missing YAML frontmatter".to_owned())),
        Some(a) => match find_marker(&v, a + 3) {
            None => Err(crate::models::Error::Validation("Invalid SKILL.md format: missing YAML frontmatter".to_owned())),
            Some(b) => {
                let mut f: Vec<char> = Vec::new();
                let mut k: usize = a + 3;
                while k < b
                    invariant
                        a + 3 <= k <= b <= v@.len(),
                        f@ == v@.subrange(a + 3, k as int),
                    decreases b - k,
                {
                    f.push(v[k]);
                    k = k + 1;
                }
                let fs = string_of(&f);
                Ok(trim(fs.as_str()))
            },
        },
    }
}

/// A skill's metadata with the slug `default_slug` standing in for an empty
/// slug and for an empty name.
pub fn with_default_names(m: SkillMetadata, default_slug: &str) -> (r: SkillMetadata)
    ensures
        r.slug@ == if m.slug@.len() == 0 { default_slug@ } else { m.slug@ },
        r.name@ == if m.name@.len() == 0 { default_slug@ } else { m.name@ },
        r.version == m.version,
        r.description == m.description,
        r.entrypoint == m.entrypoint,
{
    let slug = if m.slug.as_str().unicode_len() == 0 { default_slug.to_owned() } else { m.slug };
    let name = if m.name.as_str().unicode_len() == 0 { default_slug.to_owned() } else { m.name };
    SkillMetadata { slug, name, version: m.version, description: m.description, entrypoint: m.entrypoint }
}

/// The URL of Forgejo repository `repo` (`owner/name`): the server's URL
/// without trailing slashes, `/`, the repository and `.git`.
pub open spec fn repo_url_of(forgejo_url: Seq<char>, repo: Seq<char>) -> Seq<char> {
    trim_end(forgejo_url, '/') + "/"@ + repo + ".git"@
}

impl GitOps {
    /// Checkouts below `data_dir`, from the Forgejo server at `forgejo_url`
    /// reached with `forgejo_token`.
    pub fn new(data_dir: String, forgejo_url: String, forgejo_token: String) -> (g: GitOps)
        ensures
            g.data_dir == data_dir,
            g.forgejo_url == forgejo_url,
            g.forgejo_token == forgejo_token,
    {
        GitOps { data_dir, forgejo_url, forgejo_token }
    }

    /// The checkout of tool `slug`: `tools/<slug>` in the data directory.
    pub fn tool_dir(&self, slug: &str) -> (p: String)
        ensures
            p@ == path_join(path_join(self.data_dir@, "tools"@), slug@),
    {
        let d = join_path(self.data_dir.as_str(), "tools");
        join_path(d.as_str(), slug)
    }

    /// The checkout of skill `slug`: `skills/<slug>` in the data directory.
    pub fn skill_dir(&self, slug: &str) -> (p: String)
        ensures
            p@ == path_join(path_join(self.data_dir@, "skills"@), slug@),
    {
        let d = join_path(self.data_dir.as_str(), "skills");
        join_path(d.as_str(), slug)
    }

    /// The URL repository `repo` is cloned from.
    pub fn repo_url(&self, repo: &str) -> (u: String)
        ensures
            u@ == repo_url_of(self.forgejo_url@, repo@),
    {
        let base = trim_end_matches(self.forgejo_url.as_str(), '/');
        let mut u = concat3(base.as_str(), "/", repo);
        u.append(".git");
        u
    }

    /// The environment `git` runs in: no prompts, and the token as the
    /// password of user `oauth2`.
    pub fn git_env(&self) -> (e: Vec<(String, String)>)
        ensures
            env_view(e@) == seq![
                ("GIT_TERMINAL_PROMPT"@, "0"@),
                ("GIT_ASKPASS"@, "true"@),
                ("GIT_USERNAME"@, "oauth2"@),
                ("GIT_PASSWORD"@, self.forgejo_token@)
            ],
    {
        let mut e: Vec<(String, String)> = Vec::new();
        e.push(("GIT_TERMINAL_PROMPT".to_owned(), "0".to_owned()));
        e.push(("GIT_ASKPASS".to_owned(), "true".to_owned()));
        e.push(("GIT_USERNAME".to_owned(), "oauth2".to_owned()));
        e.push(("GIT_PASSWORD".to_owned(), self.forgejo_token.clone()));
        assert(env_view(e@) =~= seq![
            ("GIT_TERMINAL_PROMPT"@, "0"@),
            ("GIT_ASKPASS"@, "true"@),
            ("GIT_USERNAME"@, "oauth2"@),
            ("GIT_PASSWORD"@, self.forgejo_token@)
        ]);
        e
    }

    /// The arguments of `git` that make a shallow clone of `repo` into
    /// `target_dir`.
    pub fn clone_args(&self, target_dir: &str, repo: &str) -> (v: Vec<String>)
        ensures
            strs(v@) == seq!["clone"@, "--depth"@, "1"@, repo_url_of(self.forgejo_url@, repo@), target_dir@],
    {
        let mut v: Vec<String> = Vec::new();
        v.push("clone".to_owned());
        v.push("--depth".to_owned());
        v.push("1".to_owned());
        v.push(self.repo_url(repo));
        v.push(target_dir.to_owned());
        assert(strs(v@) =~= seq!["clone"@, "--depth"@, "1"@, repo_url_of(self.forgejo_url@, repo@), target_dir@]);
        v
    }

    /// Why a clone of `repo` failed.
    pub fn clone_failure(&self, repo: &str) -> (e: crate::models::Error)
        ensures
            e matches crate::models::Error::TaskFailed(m) && m@ == "Failed to clone from "@ + repo_url_of(
                self.forgejo_url@,
                repo@,
            ),
    {
        let u = self.repo_url(repo);
        crate::models::Error::TaskFailed(concat2("Failed to clone from ", u.as_str()))
    }

    /// Why a pull failed, given what `git` wrote to its error output.
    pub fn pull_failure(stderr: &str) -> (e: crate::models::Error)
        ensures
            e matches crate::models::Error::TaskFailed(m) && m@ == "Failed to pull: "@ + stderr@,
    {
        crate::models::Error::TaskFailed(concat2("Failed to pull: ", stderr))
    }
}

} // verus!
